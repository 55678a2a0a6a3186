use vstd::prelude::*;

verus! {

/// Response or request headers, kept as name/value pairs in arrival order.
/// Backends deliver names already lowercased.
pub type Headers = Vec<(String, String)>;

/// The value of the first pair whose name reads `name`, scanning in order.
pub open spec fn spec_header_value(h: Seq<(String, String)>, name: Seq<char>) -> Option<
    Seq<char>,
>
    decreases h.len(),
{
    if h.len() == 0 {
        None
    } else if h[0].0@ == name {
        Some(h[0].1@)
    } else {
        spec_header_value(h.drop_first(), name)
    }
}

proof fn lemma_header_value_step(h: Seq<(String, String)>, name: Seq<char>, i: int)
    requires
        0 <= i < h.len(),
        h[i].0@ != name,
        spec_header_value(h, name) == spec_header_value(h.skip(i), name),
    ensures
        spec_header_value(h, name) == spec_header_value(h.skip(i + 1), name),
{
    assert(h.skip(i).drop_first() =~= h.skip(i + 1));
    assert(h.skip(i)[0] == h[i]);
}

/// First value stored under `name`; `None` when no pair carries that name.
pub fn header_value<'a>(h: &'a Headers, name: &str) -> (r: Option<&'a String>)
    ensures
        match r {
            Some(v) => spec_header_value(h@, name@) == Some(v@),
            None => spec_header_value(h@, name@) is None,
        },
{
    let key: String = name.to_owned();
    let mut i: usize = 0;
    assert(h@.skip(0) =~= h@);
    while i < h.len()
        invariant
            0 <= i <= h@.len(),
            key@ == name@,
            spec_header_value(h@, name@) == spec_header_value(h@.skip(i as int), name@),
        decreases h@.len() - i,
    {
        if h[i].0 == key {
            assert(h@.skip(i as int)[0] == h@[i as int]);
            return Some(&h[i].1);
        }
        proof {
            lemma_header_value_step(h@, name@, i as int);
        }
        i = i + 1;
    }
    assert(h@.skip(i as int) =~= Seq::<(String, String)>::empty());
    None
}

} // verus!

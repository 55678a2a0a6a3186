use vstd::prelude::*;

verus! {

/// User agent attached to every request when the caller supplies none.
pub const DEFAULT_UA: &'static str = "megalodon";

} // verus!

use vstd::prelude::*;

verus! {

/// The Firefish dialect drives the same generic client.
pub type APIClient = crate::generic::api_client::APIClient;

/// The OAuth permission scopes this family of backends publishes for
/// callers that build authorization requests.  Published as data only;
/// nothing here enforces them.
pub fn default_scopes() -> (r: Vec<&'static str>)
    ensures
        r@.len() == 18,
        r@[0]@ == "read:account"@,
        r@[1]@ == "write:account"@,
        r@[2]@ == "read:blocks"@,
        r@[3]@ == "write:blocks"@,
        r@[4]@ == "read:drive"@,
        r@[5]@ == "write:drive"@,
        r@[6]@ == "read:favorites"@,
        r@[7]@ == "write:favorites"@,
        r@[8]@ == "read:following"@,
        r@[9]@ == "write:following"@,
        r@[10]@ == "read:mutes"@,
        r@[11]@ == "write:mutes"@,
        r@[12]@ == "write:notes"@,
        r@[13]@ == "read:notifications"@,
        r@[14]@ == "write:notifications"@,
        r@[15]@ == "read:reactions"@,
        r@[16]@ == "write:reactions"@,
        r@[17]@ == "write:votes"@,
{
    let mut scopes: Vec<&'static str> = Vec::new();
    scopes.push("read:account");
    scopes.push("write:account");
    scopes.push("read:blocks");
    scopes.push("write:blocks");
    scopes.push("read:drive");
    scopes.push("write:drive");
    scopes.push("read:favorites");
    scopes.push("write:favorites");
    scopes.push("read:following");
    scopes.push("write:following");
    scopes.push("read:mutes");
    scopes.push("write:mutes");
    scopes.push("write:notes");
    scopes.push("read:notifications");
    scopes.push("write:notifications");
    scopes.push("read:reactions");
    scopes.push("write:reactions");
    scopes.push("write:votes");
    scopes
}

} // verus!

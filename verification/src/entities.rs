use vstd::prelude::*;

verus! {

/// The account record a credential check hands back.  Only the fields
/// the core needs; deployments extend this shape.
#[derive(Clone, Debug, PartialEq)]
pub struct Account {
    pub id: String,
    pub username: String,
}

/// The metadata record a server publishes about itself.
#[derive(Clone, Debug, PartialEq)]
pub struct Instance {
    pub title: String,
    pub uri: String,
    pub version: String,
}

} // verus!

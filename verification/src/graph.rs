use vstd::prelude::*;
use vstd::string::StringExecFns;

verus! {

/// One group record from the directory lookup used to enrich discovered
/// group assignments with a human-readable description.
pub struct GraphGroup {
    pub id: String,
    pub description: Option<String>,
    pub display_name: String,
}

/// The directory lookup endpoint for a batched group query.
pub fn groups_url(filter: &str) -> (r: String)
    ensures
        r@ == "https://graph.microsoft.com/v1.0/groups?"@ + filter@,
{
    let mut url = "https://graph.microsoft.com/v1.0/groups?".to_owned();
    url.append(filter);
    url
}

} // verus!

use vstd::prelude::*;

pub mod aad_roles;
pub mod azure;
pub mod cache;
pub mod catalog;
pub mod errors;
pub mod graph;
pub mod group;
pub mod json;
pub mod management;
pub mod pim;
pub mod refresh;
pub mod role;
pub mod session;
pub mod text;

verus! {

/// The view of an optional owned string, as an optional character sequence.
pub open spec fn opt_view(o: Option<String>) -> Option<Seq<char>> {
    match o {
        Some(s) => Some(s@),
        None => None,
    }
}

} // verus!


use vstd::prelude::*;

pub mod client;
pub mod command;
pub mod config;
pub mod error;
pub mod photo;
pub mod profile;
pub mod response;

verus! {

/// The text of an optional string, if there is one.
pub open spec fn opt_view(s: Option<String>) -> Option<Seq<char>> {
    match s {
        Some(t) => Some(t@),
        None => None,
    }
}

} // verus!

use vstd::prelude::*;

use crate::error::Error;
use crate::opt_view;

verus! {

/// The stored credential.
#[derive(Debug, PartialEq, Eq)]
pub struct Config {
    pub token: String,
}

impl Config {
    pub fn new(token: String) -> (r: Config)
        ensures
            r == (Config { token }),
    {
        Config { token }
    }
}

/// Where the configuration lies under the home directory.
pub open spec fn default_relative() -> Seq<char> {
    ".config/slack_update/config.toml"@
}

/// `rel` joined onto `base`, as `Path::join` gives it.
pub uninterp spec fn path_join(base: Seq<char>, rel: Seq<char>) -> Seq<char>;

/// Relies on std's Path::join: the result depends on the two paths alone.
#[verifier::external_body]
fn join(base: &str, rel: &str) -> (r: String)
    ensures
        r@ == path_join(base@, rel@),
{
    std::path::Path::new(base).join(rel).to_string_lossy().into_owned()
}

/// The configuration file: the explicit path where one is given, else the
/// default one under the home directory; none without either.
pub open spec fn store_location(explicit: Option<Seq<char>>, home: Option<Seq<char>>) -> Option<Seq<char>> {
    match explicit {
        Some(p) => Some(p),
        None => match home {
            Some(h) => Some(path_join(h, default_relative())),
            None => None,
        },
    }
}

/// The path of the configuration file, or `HomeNotFound` where there is neither
/// an explicit path nor a home directory.
pub fn location(explicit: Option<String>, home: Option<String>) -> (r: Result<String, Error>)
    ensures
        match store_location(opt_view(explicit), opt_view(home)) {
            Some(p) => r is Ok && r->Ok_0@ == p,
            None => r matches Err(Error::HomeNotFound),
        },
{
    match explicit {
        Some(p) => Ok(p),
        None => match home {
            Some(h) => Ok(join(h.as_str(), ".config/slack_update/config.toml")),
            None => Err(Error::HomeNotFound),
        },
    }
}

} // verus!

use vstd::prelude::*;

use crate::config::{Config, location, store_location};
use crate::error::Error;
use crate::opt_view;
use crate::photo::Photo;
use crate::profile::Profile;

verus! {

/// The token to store.
#[derive(Debug, PartialEq, Eq)]
pub struct SetToken {
    pub token: String,
}

/// The subcommands.
#[derive(Debug, PartialEq, Eq)]
pub enum Command {
    Status(Profile),
    Photo(Photo),
    SetToken(SetToken),
}

/// What a command comes down to, with the configuration file it uses.
#[derive(Debug, PartialEq, Eq)]
pub enum Plan {
    /// No subcommand: nothing to do.
    Nothing,
    /// Write the configuration to the file.
    Save { location: String, config: Config },
    /// Load the credential from the file, then set the status.
    Status { location: String, profile: Profile },
    /// Load the credential from the file, then upload the photo.
    Photo { location: String, photo: Photo },
}

/// The plan for a command, given the `--config` path and the home directory.
pub open spec fn plan_spec(command: Option<Command>, explicit: Option<Seq<char>>, home: Option<Seq<char>>, r: Result<Plan, Error>) -> bool {
    match command {
        None => r matches Ok(Plan::Nothing),
        Some(c) => match store_location(explicit, home) {
            None => r matches Err(Error::HomeNotFound),
            Some(l) => match c {
                Command::SetToken(t) => r matches Ok(Plan::Save { location, config })
                    && location@ == l && config == Config { token: t.token },
                Command::Status(p) => r matches Ok(Plan::Status { location, profile })
                    && location@ == l && profile == p,
                Command::Photo(p) => r matches Ok(Plan::Photo { location, photo })
                    && location@ == l && photo == p,
            },
        },
    }
}

/// Maps a command to what it does. Every command but a missing one needs the
/// configuration file, which is the `--config` path where one is given.
pub fn plan(command: Option<Command>, explicit: Option<String>, home: Option<String>) -> (r: Result<Plan, Error>)
    ensures
        plan_spec(command, opt_view(explicit), opt_view(home), r),
{
    match command {
        None => Ok(Plan::Nothing),
        Some(c) => match location(explicit, home) {
            Err(e) => Err(e),
            Ok(l) => match c {
                Command::SetToken(t) => Ok(Plan::Save { location: l, config: Config::new(t.token) }),
                Command::Status(p) => Ok(Plan::Status { location: l, profile: p }),
                Command::Photo(p) => Ok(Plan::Photo { location: l, photo: p }),
            },
        },
    }
}

/// After `set-token`, `status` and `photo` with the same `--config` path and home
/// directory read the very file that was written, and what was written is the
/// token that was given.
pub proof fn lemma_stored_token_is_found(
    t: SetToken,
    profile: Profile,
    photo: Photo,
    explicit: Option<Seq<char>>,
    home: Option<Seq<char>>,
    saved: Result<Plan, Error>,
    status: Result<Plan, Error>,
    upload: Result<Plan, Error>,
)
    requires
        plan_spec(Some(Command::SetToken(t)), explicit, home, saved),
        plan_spec(Some(Command::Status(profile)), explicit, home, status),
        plan_spec(Some(Command::Photo(photo)), explicit, home, upload),
    ensures
        saved is Ok <==> status is Ok,
        saved is Ok <==> upload is Ok,
        saved matches Ok(Plan::Save { location: w, config }) ==> {
            &&& status matches Ok(Plan::Status { location: l, .. }) && l@ == w@
            &&& upload matches Ok(Plan::Photo { location: l, .. }) && l@ == w@
            &&& config.token@ == t.token@
        },
{
}

} // verus!

use vstd::prelude::*;

use crate::error::Error;

verus! {

/// The envelope of every answer of the server: a success flag and an optional message.
#[derive(Debug, PartialEq, Eq)]
pub struct Response {
    pub ok: bool,
    pub error: Option<String>,
}

/// The message of a failed call: the server's, or empty where it gave none.
pub open spec fn api_message(error: Option<String>) -> Seq<char> {
    match error {
        Some(m) => m@,
        None => Seq::empty(),
    }
}

impl Response {
    pub fn new(ok: bool, error: Option<String>) -> (r: Response)
        ensures
            r == (Response { ok, error }),
    {
        Response { ok, error }
    }

    /// Success where the server says so; otherwise an API error with its message.
    pub fn into_result(self) -> (r: Result<(), Error>)
        ensures
            self.ok <==> r is Ok,
            !self.ok ==> (r matches Err(Error::Api(m)) && m@ == api_message(self.error)),
    {
        if self.ok {
            Ok(())
        } else {
            match self.error {
                Some(m) => Err(Error::Api(m)),
                None => Err(Error::Api(String::new())),
            }
        }
    }
}

} // verus!

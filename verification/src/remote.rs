//! What passes between the cache and whoever talks to the remote API for it:
//! the fetches the cache asks for, and the replies it is handed.

use vstd::prelude::*;

verus! {

/// A failed call of the remote API, with the HTTP status where the API
/// answered with one (a transport or decoding failure has none).
#[derive(Clone, Copy, Debug, PartialEq, Eq, Structural)]
pub struct FetchError {
    pub status: Option<u16>,
}

impl FetchError {
    /// The API answered that the entity does not exist (status 404).
    pub open spec fn spec_is_not_found(self) -> bool {
        self.status == Some(404u16)
    }

    #[verifier::when_used_as_spec(spec_is_not_found)]
    pub fn is_not_found(self) -> (b: bool)
        ensures
            b == self.spec_is_not_found(),
    {
        match self.status {
            Some(code) => code == 404,
            None => false,
        }
    }

    /// The API answered that the entity may not be read (status 403).
    pub open spec fn spec_is_forbidden(self) -> bool {
        self.status == Some(403u16)
    }

    #[verifier::when_used_as_spec(spec_is_forbidden)]
    pub fn is_forbidden(self) -> (b: bool)
        ensures
            b == self.spec_is_forbidden(),
    {
        match self.status {
            Some(code) => code == 403,
            None => false,
        }
    }
}

/// The reply to one fetch.
#[derive(Clone, Debug, PartialEq, Eq)]
pub enum Fetched<T> {
    Found(T),
    Failed(FetchError),
}

/// One call of the remote API.
#[derive(Clone, Copy, Debug, PartialEq, Eq, Structural)]
pub enum Request {
    Channel(u64),
    User(u64),
    Member { guild_id: u64, user_id: u64 },
    Webhook(u64),
    Message { channel_id: u64, message_id: u64 },
}

/// How one step of an operation ends: with its result, or with the one fetch
/// whose reply the next step takes.
#[derive(Debug, PartialEq, Eq)]
pub enum Step<T> {
    Done(Result<T, FetchError>),
    Fetch(Request),
}

} // verus!

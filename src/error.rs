//! What can go wrong in a round trip to the service.

use vstd::prelude::*;
use vstd::string::*;

verus! {

/// The failures that the operations of this library report.
#[derive(Clone, Debug)]
pub enum ApiError {
    /// The request got no answer; the transport's description of why.
    Transport(String),
    /// The answer was not the JSON that a GraphQL reply must be; the
    /// decoder's description of why.
    Decode(String),
    /// The reply was well formed but carried no data: the repository does not
    /// exist or the credential cannot see it.
    NotFound,
}

impl ApiError {
    /// A description of the failure for people to read.
    pub fn message(&self) -> (r: String)
        ensures
            self is Transport ==> r@ == "request failed: "@ + self->Transport_0@,
            self is Decode ==> r@ == "cannot decode the reply: "@ + self->Decode_0@,
            self is NotFound ==> r@ == "Couldn't find repository basic information!"@,
    {
        match self {
            ApiError::Transport(m) => String::from_str("request failed: ").concat(m.as_str()),
            ApiError::Decode(m) => String::from_str("cannot decode the reply: ").concat(m.as_str()),
            ApiError::NotFound => String::from_str("Couldn't find repository basic information!"),
        }
    }
}

} // verus!

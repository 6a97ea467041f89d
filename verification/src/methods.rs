//! The request methods the server understands.

use vstd::prelude::*;

verus! {

/// An HTTP request method.
#[allow(clippy::upper_case_acronyms)]
#[derive(Clone, Copy, Debug, PartialEq, Eq, Hash, Structural)]
pub enum Method {
    GET,
    POST,
}

impl Method {
    /// The token that names this method on a request line.
    pub open spec fn token(self) -> Seq<char> {
        match self {
            Method::GET => "GET"@,
            Method::POST => "POST"@,
        }
    }

    /// The method's token as text.
    pub fn as_str(self) -> (s: &'static str)
        ensures
            s@ == self.token(),
    {
        match self {
            Method::GET => "GET",
            Method::POST => "POST",
        }
    }
}

} // verus!

//! The session credential that the transport presents when it signs in.

use vstd::prelude::*;
use vstd::string::*;

verus! {

/// An opaque session token.
pub struct Credential {
    sessdata: String,
}

impl View for Credential {
    type V = Seq<char>;

    /// The token.
    closed spec fn view(&self) -> Seq<char> {
        self.sessdata@
    }
}

impl Credential {
    /// The cookie text of a token: the cookie's name, an equals sign and the
    /// token.
    pub open spec fn cookie(token: Seq<char>) -> Seq<char> {
        "SESSDATA="@ + token
    }

    /// Wraps a session token.
    pub fn from_sessdata(sessdata: &str) -> (r: Self)
        ensures
            r@ == sessdata@,
    {
        Credential { sessdata: String::from_str(sessdata) }
    }

    /// Whether the token is empty, in which case no session is opened.
    pub fn is_empty(&self) -> (r: bool)
        ensures
            r == (self@.len() == 0),
    {
        self.sessdata.as_str().is_empty()
    }

    /// Writes the credential as the cookie that the transport sends.
    pub fn to_text(&self) -> (r: String)
        ensures
            r@ == Self::cookie(self@),
    {
        let mut out = String::from_str("SESSDATA=");
        out.append(self.sessdata.as_str());
        out
    }
}

} // verus!

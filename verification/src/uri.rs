//! URI texts, as hyper's parser judges them.
use vstd::prelude::*;
use crate::error::InvalidUri;

verus! {

/// Whether hyper's URI parser accepts the text `s`.
pub uninterp spec fn uri_is_valid(s: Seq<char>) -> bool;

/// Whether the URI that hyper's parser reads from the accepted text `s` is in
/// absolute form, that is, has a scheme and an authority.
pub uninterp spec fn uri_is_absolute(s: Seq<char>) -> bool;

/// A text that the URI parser accepted.
#[derive(Debug)]
pub struct ParsedUri {
    /// The text, as it was given to the parser.
    pub text: String,
    /// Whether the parser read a URI in absolute form from it.
    pub absolute: bool,
}

/// Calls hyper's parser, `str::parse::<hyper::Uri>`, and asks the URI that
/// comes back for its form, with `Uri::is_absolute`.
///
/// The contract names both answers: the call succeeds exactly on the texts
/// that the parser accepts, and then tells whether the URI is absolute.
#[verifier::external_body]
fn hyper_parse(s: &str) -> (r: Result<bool, hyper::error::UriError>)
    ensures
        r is Ok <==> uri_is_valid(s@),
        r is Ok ==> r.unwrap() == uri_is_absolute(s@),
{
    match s.parse::<hyper::Uri>() {
        Ok(uri) => Ok(uri.is_absolute()),
        Err(e) => Err(e),
    }
}

/// Parses `s` as a URI of any form.
pub fn parse(s: &str) -> (r: Result<ParsedUri, InvalidUri>)
    ensures
        match r {
            Ok(uri) => uri_is_valid(s@) && uri.text@ == s@ && uri.absolute == uri_is_absolute(s@),
            Err(e) => e is Malformed && !uri_is_valid(s@),
        },
{
    match hyper_parse(s) {
        Ok(absolute) => Ok(ParsedUri { text: s.to_owned(), absolute }),
        Err(e) => Err(InvalidUri::Malformed(e)),
    }
}

impl ParsedUri {
    /// The text of the URI, provided that the URI is in absolute form.
    pub fn into_absolute(self) -> (r: Result<String, InvalidUri>)
        ensures
            match r {
                Ok(text) => self.absolute && text@ == self.text@,
                Err(e) => e is NotAbsolute && !self.absolute,
            },
    {
        if self.absolute {
            Ok(self.text)
        } else {
            Err(InvalidUri::NotAbsolute)
        }
    }
}

} // verus!

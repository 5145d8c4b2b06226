//! What comes back from the server, and how it is read.
use vstd::prelude::*;
use vstd::utf8::{decode_utf8, encode_utf8, valid_utf8};

verus! {

/// A reply whose body has been received in full.
#[derive(Debug)]
pub struct Response {
    /// The HTTP status code.
    pub status: u16,
    /// The whole body.
    pub body: Vec<u8>,
}

/// Whether `status` lies in the success range, 200 to 299.
pub open spec fn is_success(status: u16) -> bool {
    200 <= status <= 299
}

/// The body that means `true`: the bytes of `true` and a line feed.
pub open spec fn true_body() -> Seq<u8> {
    encode_utf8("true\n"@)
}

/// The body that means `false`: the bytes of `false` and a line feed.
pub open spec fn false_body() -> Seq<u8> {
    encode_utf8("false\n"@)
}

/// The boolean that a reply to a write carries: the one that the body spells,
/// on a status in the success range; none on any other status or body.
pub open spec fn written_flag(status: u16, body: Seq<u8>) -> Option<bool> {
    if is_success(status) && body == true_body() {
        Some(true)
    } else if is_success(status) && body == false_body() {
        Some(false)
    } else {
        None
    }
}

/// The text that `String::from_utf8_lossy` makes of `bytes`: the decoded
/// text, with U+FFFD in place of each ill-formed sequence.
pub uninterp spec fn lossy_text(bytes: Seq<u8>) -> Seq<char>;

/// Whether `message` is `body` read as text: the lossy text of the body,
/// which for a body of well-formed UTF-8 is the text that it encodes.
pub open spec fn is_text_of(message: Seq<char>, body: Seq<u8>) -> bool {
    &&& message == lossy_text(body)
    &&& valid_utf8(body) ==> message == decode_utf8(body)
}

/// Calls `String::from_utf8_lossy`.
///
/// The contract names the text that comes back, and claims that well-formed
/// UTF-8 is decoded unchanged.
#[verifier::external_body]
fn lossy_string(bytes: &[u8]) -> (text: String)
    ensures
        text@ == lossy_text(bytes@),
        valid_utf8(bytes@) ==> text@ == decode_utf8(bytes@),
{
    String::from_utf8_lossy(bytes).into_owned()
}

/// Whether two byte strings are the same, byte for byte.
fn same_bytes(a: &[u8], b: &[u8]) -> (same: bool)
    ensures
        same == (a@ == b@),
{
    if a.len() != b.len() {
        return false;
    }
    let mut i: usize = 0;
    while i < a.len()
        invariant
            i <= a.len(),
            a.len() == b.len(),
            forall|j: int| 0 <= j < i ==> a@[j] == b@[j],
        decreases a.len() - i,
    {
        if a[i] != b[i] {
            return false;
        }
        i += 1;
    }
    assert(a@ =~= b@);
    true
}

impl Response {
    /// Whether the status lies in the success range.
    pub fn is_success(&self) -> (ok: bool)
        ensures
            ok == is_success(self.status),
    {
        200 <= self.status && self.status <= 299
    }

    /// Whether the body is exactly `true` and a line feed.
    pub fn says_true(&self) -> (yes: bool)
        ensures
            yes == (self.body@ == true_body()),
    {
        same_bytes(self.body.as_slice(), "true\n".as_bytes())
    }

    /// Whether the body is exactly `false` and a line feed.
    pub fn says_false(&self) -> (yes: bool)
        ensures
            yes == (self.body@ == false_body()),
    {
        same_bytes(self.body.as_slice(), "false\n".as_bytes())
    }

    /// The body as text, with U+FFFD in place of what is not UTF-8.
    pub fn text(&self) -> (text: String)
        ensures
            is_text_of(text@, self.body@),
    {
        lossy_string(self.body.as_slice())
    }
}

} // verus!

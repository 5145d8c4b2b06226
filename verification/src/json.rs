//! JSON text: the compact form of objects, arrays, strings and numbers.
//!
//! An object is modelled by the list of its members, each a key and the text
//! of its value. Strings are escaped by `serde_json`; the framing around them
//! is written here.
use vstd::prelude::*;
use vstd::string::{StrSliceExecFns, StringExecFns};
use crate::model::texts;

verus! {

/// The JSON string literal that `serde_json` writes for the text `s`: the
/// text between double quotes, with the escapes that JSON asks for.
pub uninterp spec fn json_string(s: Seq<char>) -> Seq<char>;

/// `serde_json::Error`, which `serde_json::to_string` has in its result
/// type. Nothing here looks inside.
#[verifier::external_type_specification]
#[verifier::external_body]
pub struct ExJsonError(serde_json::Error);

/// Calls `serde_json::to_string` on a string slice.
///
/// The contract claims that the call succeeds on every string slice (writing a
/// string into memory has no failure path in `serde_json`) and names the
/// literal that comes back.
#[verifier::external_body]
fn to_json_string(s: &str) -> (r: Result<String, serde_json::Error>)
    ensures
        r is Ok,
        r.unwrap()@ == json_string(s@),
{
    serde_json::to_string(s)
}

/// One member of a JSON object: its key, and the JSON text of its value.
pub struct Member {
    pub key: Seq<char>,
    pub value: Seq<char>,
}

/// The text of one member: the key as a string literal, a colon, the value.
pub open spec fn member_text(m: Member) -> Seq<char> {
    json_string(m.key) + ":"@ + m.value
}

/// The texts of a list of members, in order.
pub open spec fn member_texts(members: Seq<Member>) -> Seq<Seq<char>> {
    Seq::new(members.len(), |i: int| member_text(members[i]))
}

/// The parts, separated by commas.
pub open spec fn joined(parts: Seq<Seq<char>>) -> Seq<char>
    decreases parts.len(),
{
    if parts.len() == 0 {
        Seq::empty()
    } else if parts.len() == 1 {
        parts[0]
    } else {
        joined(parts.drop_last()) + ","@ + parts.last()
    }
}

/// The text of the object with the given members.
pub open spec fn object_text(members: Seq<Member>) -> Seq<char> {
    "{"@ + joined(member_texts(members)) + "}"@
}

/// The text of the array whose items have the given texts.
pub open spec fn array_text(items: Seq<Seq<char>>) -> Seq<char> {
    "["@ + joined(items) + "]"@
}

/// The string literals of a list of texts.
pub open spec fn string_literals(items: Seq<Seq<char>>) -> Seq<Seq<char>> {
    Seq::new(items.len(), |i: int| json_string(items[i]))
}

/// Whether one of the members has the given key.
pub open spec fn has_key(members: Seq<Member>, key: Seq<char>) -> bool {
    exists|i: int| 0 <= i < members.len() && #[trigger] members[i].key == key
}

/// The decimal digit for `d`, which is below ten.
pub open spec fn digit(d: nat) -> char {
    "0123456789"@[d as int]
}

/// The decimal text of `n`, without leading zeros.
pub open spec fn decimal(n: nat) -> Seq<char>
    decreases n,
{
    if n < 10 {
        seq![digit(n)]
    } else {
        decimal(n / 10).push(digit(n % 10))
    }
}

/// Joining one more part appends it, after a comma unless it is the first.
pub proof fn lemma_joined_push(parts: Seq<Seq<char>>, part: Seq<char>)
    ensures
        joined(parts.push(part)) == if parts.len() == 0 {
            part
        } else {
            joined(parts) + ","@ + part
        },
{
    let all = parts.push(part);
    assert(all.drop_last() =~= parts);
    assert(all.last() == part);
}

fn digit_str(d: usize) -> (s: &'static str)
    requires
        d < 10,
    ensures
        s@ == seq![digit(d as nat)],
{
    proof {
        reveal_strlit("0123456789");
    }
    let s = "0123456789".substring_ascii(d, d + 1);
    assert(s@ =~= seq![digit(d as nat)]);
    s
}

fn append_decimal(out: &mut String, n: u32)
    ensures
        final(out)@ == old(out)@ + decimal(n as nat),
    decreases n,
{
    if n >= 10 {
        append_decimal(out, n / 10);
    }
    out.append(digit_str((n % 10) as usize));
    assert(out@ =~= old(out)@ + decimal(n as nat));
}

/// Writes `n` in decimal.
pub fn number(n: u32) -> (text: String)
    ensures
        text@ == decimal(n as nat),
{
    let mut text = String::new();
    append_decimal(&mut text, n);
    assert(text@ =~= decimal(n as nat));
    text
}

/// Writes `s` as a JSON string literal.
pub fn string(s: &str) -> (text: String)
    ensures
        text@ == json_string(s@),
{
    match to_json_string(s) {
        Ok(text) => text,
        Err(_) => unreached(),
    }
}

/// Writes the array of the string literals of `items`.
pub fn strings(items: &Vec<String>) -> (text: String)
    ensures
        text@ == array_text(string_literals(texts(items@))),
{
    let ghost all = string_literals(texts(items@));
    let mut text = String::from_str("[");
    let mut i: usize = 0;
    while i < items.len()
        invariant
            i <= items.len(),
            all == string_literals(texts(items@)),
            text@ == "["@ + joined(all.take(i as int)),
        decreases items.len() - i,
    {
        let item = string(items[i].as_str());
        proof {
            lemma_joined_push(all.take(i as int), all[i as int]);
            assert(all.take(i as int).push(all[i as int]) =~= all.take(i + 1));
        }
        if i > 0 {
            text.append(",");
        }
        text.append(item.as_str());
        i += 1;
        assert(text@ =~= "["@ + joined(all.take(i as int)));
    }
    assert(all.take(i as int) =~= all);
    text.append("]");
    text
}

/// Writes a JSON object member by member.
pub struct ObjectWriter {
    text: String,
    members: Ghost<Seq<Member>>,
    empty: bool,
}

impl ObjectWriter {
    #[verifier::type_invariant]
    spec fn well_formed(self) -> bool {
        &&& self.text@ == "{"@ + joined(member_texts(self.members@))
        &&& self.empty == (self.members@.len() == 0)
    }

    /// The members written so far.
    pub closed spec fn members(self) -> Seq<Member> {
        self.members@
    }

    /// A writer that has written no member yet.
    pub fn new() -> (w: ObjectWriter)
        ensures
            w.members() == Seq::<Member>::empty(),
    {
        let text = String::from_str("{");
        assert(text@ =~= "{"@ + joined(member_texts(Seq::<Member>::empty())));
        ObjectWriter { text, members: Ghost(Seq::empty()), empty: true }
    }

    /// Adds a member whose value is the JSON text `value`.
    pub fn member(self, key: &str, value: &str) -> (w: ObjectWriter)
        ensures
            w.members() == self.members().push(Member { key: key@, value: value@ }),
    {
        proof {
            use_type_invariant(&self);
        }
        let ghost before = self.members@;
        let ghost added = Member { key: key@, value: value@ };
        let literal = string(key);
        let mut text = self.text;
        if !self.empty {
            text.append(",");
        }
        text.append(literal.as_str());
        text.append(":");
        text.append(value);
        proof {
            lemma_joined_push(member_texts(before), member_text(added));
            assert(member_texts(before).push(member_text(added)) =~= member_texts(
                before.push(added),
            ));
            assert(text@ =~= "{"@ + joined(member_texts(before.push(added))));
        }
        ObjectWriter { text, members: Ghost(before.push(added)), empty: false }
    }

    /// Adds a member whose value is the string `value`.
    pub fn string_member(self, key: &str, value: &str) -> (w: ObjectWriter)
        ensures
            w.members() == self.members().push(
                Member { key: key@, value: json_string(value@) },
            ),
    {
        let literal = string(value);
        self.member(key, literal.as_str())
    }

    /// Closes the object and hands out its text.
    pub fn finish(self) -> (text: String)
        ensures
            text@ == object_text(self.members()),
    {
        proof {
            use_type_invariant(&self);
        }
        let mut text = self.text;
        text.append("}");
        text
    }
}

} // verus!

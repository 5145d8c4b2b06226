//! The JSON form of the records that the client sends.
//!
//! An optional field that is absent is left out of the object altogether; it
//! is never written as `null`.
use vstd::prelude::*;
use crate::json::{
    array_text, decimal, json_string, number, object_text, string_literals, strings, Member,
    ObjectWriter,
};
use crate::model::{Check, CheckView, RegisterService, RegisterServiceView};

verus! {

/// A member whose value is the string `value`.
pub open spec fn string_member(key: Seq<char>, value: Seq<char>) -> Member {
    Member { key, value: json_string(value) }
}

/// The member for an optional string: one member when it is present, none
/// when it is absent.
pub open spec fn optional_string_member(key: Seq<char>, value: Option<Seq<char>>) -> Seq<Member> {
    match value {
        Some(v) => seq![string_member(key, v)],
        None => Seq::empty(),
    }
}

/// The members of a health check, in the order in which they are written.
pub open spec fn check_members(c: CheckView) -> Seq<Member> {
    optional_string_member("ttl"@, c.ttl)
        + seq![string_member("interval"@, c.interval)]
        + optional_string_member("http"@, c.http)
        + optional_string_member("script"@, c.script)
        + seq![string_member("DeregisterCriticalServiceAfter"@, c.DeregisterCriticalServiceAfter)]
}

/// The JSON text of a health check.
pub open spec fn check_text(c: CheckView) -> Seq<char> {
    object_text(check_members(c))
}

/// The member for the health check of a registration: one member when there
/// is a check, none when there is not.
pub open spec fn optional_check_member(check: Option<CheckView>) -> Seq<Member> {
    match check {
        Some(c) => seq![Member { key: "Check"@, value: check_text(c) }],
        None => Seq::empty(),
    }
}

/// The members of a service registration, in the order in which they are
/// written.
pub open spec fn register_service_members(s: RegisterServiceView) -> Seq<Member> {
    seq![
        string_member("ID"@, s.ID),
        string_member("Name"@, s.Name),
        Member { key: "Tags"@, value: array_text(string_literals(s.Tags)) },
        Member { key: "Port"@, value: decimal(s.Port) },
        string_member("Address"@, s.Address),
    ] + optional_check_member(s.Check)
}

/// The JSON text of a service registration.
pub open spec fn register_service_text(s: RegisterServiceView) -> Seq<char> {
    object_text(register_service_members(s))
}

/// A value that has a JSON text.
pub trait ToJson {
    /// The JSON text of the value.
    spec fn json(&self) -> Seq<char>;

    /// Writes the JSON text of the value.
    fn to_json(&self) -> (text: String)
        ensures
            text@ == self.json(),
    ;
}

impl ToJson for Check {
    open spec fn json(&self) -> Seq<char> {
        check_text(self@)
    }

    fn to_json(&self) -> (text: String) {
        let w = ObjectWriter::new();
        let w = match &self.ttl {
            Some(ttl) => w.string_member("ttl", ttl.as_str()),
            None => w,
        };
        let w = w.string_member("interval", self.interval.as_str());
        let w = match &self.http {
            Some(http) => w.string_member("http", http.as_str()),
            None => w,
        };
        let w = match &self.script {
            Some(script) => w.string_member("script", script.as_str()),
            None => w,
        };
        let w = w.string_member(
            "DeregisterCriticalServiceAfter",
            self.DeregisterCriticalServiceAfter.as_str(),
        );
        assert(w.members() =~= check_members(self@));
        w.finish()
    }
}

impl ToJson for RegisterService {
    open spec fn json(&self) -> Seq<char> {
        register_service_text(self@)
    }

    fn to_json(&self) -> (text: String) {
        let tags = strings(&self.Tags);
        let port = number(self.Port as u32);
        let w = ObjectWriter::new();
        let w = w.string_member("ID", self.ID.as_str());
        let w = w.string_member("Name", self.Name.as_str());
        let w = w.member("Tags", tags.as_str());
        let w = w.member("Port", port.as_str());
        let w = w.string_member("Address", self.Address.as_str());
        let w = match &self.Check {
            Some(check) => {
                let nested = check.to_json();
                w.member("Check", nested.as_str())
            },
            None => w,
        };
        assert(w.members() =~= register_service_members(self@));
        w.finish()
    }
}

} // verus!

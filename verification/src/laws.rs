//! What holds of every record that is sent, and of every call.
use vstd::prelude::*;
use vstd::utf8::is_ascii_chars_encode_utf8;
use crate::client::kv_path;
use crate::exchange::{Event, Exchange};
use crate::json::has_key;
use crate::response::{false_body, is_success, true_body, written_flag, Response};
use crate::model::{CheckView, RegisterServiceView};
use crate::wire::{check_members, register_service_members};

verus! {

/// The JSON object of a service registration has a member `Check` if the
/// registration has a check, and no such member if it has none.
pub proof fn law_check_member_only_when_present(s: RegisterServiceView)
    ensures
        has_key(register_service_members(s), "Check"@) <==> s.Check is Some,
{
    reveal_strlit("ID");
    reveal_strlit("Name");
    reveal_strlit("Tags");
    reveal_strlit("Port");
    reveal_strlit("Address");
    reveal_strlit("Check");
    let members = register_service_members(s);
    match s.Check {
        Some(c) => {
            assert(members.len() == 6);
            assert(members[5].key == "Check"@);
        },
        None => {
            assert(members.len() == 5);
            assert(forall|i: int|
                0 <= i < members.len() ==> (#[trigger] members[i].key)[0] != 'C');
        },
    }
}

/// The JSON object of a health check has a member `ttl`, `http` or `script`
/// if the check has that field, and no such member if the field is absent.
/// The two required fields always have their members.
pub proof fn law_optional_check_members_only_when_present(c: CheckView)
    ensures
        has_key(check_members(c), "ttl"@) <==> c.ttl is Some,
        has_key(check_members(c), "http"@) <==> c.http is Some,
        has_key(check_members(c), "script"@) <==> c.script is Some,
        has_key(check_members(c), "interval"@),
        has_key(check_members(c), "DeregisterCriticalServiceAfter"@),
{
    reveal_strlit("ttl");
    reveal_strlit("interval");
    reveal_strlit("http");
    reveal_strlit("script");
    reveal_strlit("DeregisterCriticalServiceAfter");
    let members = check_members(c);
    assert(forall|i: int|
        0 <= i < members.len() ==> {
            let k = #[trigger] members[i].key;
            k == "ttl"@ || k == "interval"@ || k == "http"@ || k == "script"@ || k
                == "DeregisterCriticalServiceAfter"@
        });
    let ttl = if c.ttl is Some { 1int } else { 0int };
    let http = if c.http is Some { 1int } else { 0int };
    let script = if c.script is Some { 1int } else { 0int };
    assert(members.len() == 2 + ttl + http + script);
    assert(members[ttl].key == "interval"@);
    assert(members[members.len() - 1].key == "DeregisterCriticalServiceAfter"@);
    if c.ttl is Some {
        assert(members[0].key == "ttl"@);
    } else {
        assert(forall|i: int| 0 <= i < members.len() ==> (#[trigger] members[i].key)[0] != 't');
    }
    if c.http is Some {
        assert(members[ttl + 1].key == "http"@);
    } else {
        assert(forall|i: int| 0 <= i < members.len() ==> (#[trigger] members[i].key)[0] != 'h');
    }
    if c.script is Some {
        assert(members[ttl + 1 + http].key == "script"@);
    } else {
        assert(forall|i: int| 0 <= i < members.len() ==> (#[trigger] members[i].key)[0] != 's');
    }
}

/// The two bodies that a write is answered with, byte for byte.
pub proof fn law_flag_bodies()
    ensures
        true_body() == seq![0x74u8, 0x72u8, 0x75u8, 0x65u8, 0x0au8],
        false_body() == seq![0x66u8, 0x61u8, 0x6cu8, 0x73u8, 0x65u8, 0x0au8],
{
    reveal_strlit("true\n");
    reveal_strlit("false\n");
    is_ascii_chars_encode_utf8("true\n"@);
    is_ascii_chars_encode_utf8("false\n"@);
    assert(true_body() =~= seq![0x74u8, 0x72u8, 0x75u8, 0x65u8, 0x0au8]);
    assert(false_body() =~= seq![0x66u8, 0x61u8, 0x6cu8, 0x73u8, 0x65u8, 0x0au8]);
}

/// A reply to a write carries `true` exactly when its status is a success and
/// its body is `true` and a line feed, `false` exactly when its status is a
/// success and its body is `false` and a line feed, and no boolean in every
/// other case.
pub proof fn law_written_flag(status: u16, body: Seq<u8>)
    ensures
        written_flag(status, body) == Some(true) <==> is_success(status) && body == true_body(),
        written_flag(status, body) == Some(false) <==> is_success(status) && body == false_body(),
        written_flag(status, body) is None <==> !is_success(status) || (body != true_body() && body
            != false_body()),
{
    law_flag_bodies();
    assert(true_body().len() != false_body().len());
}

/// Writes under different keys go to different targets, whatever the base
/// URI.
pub proof fn law_keys_have_their_own_targets(base: Seq<char>, key: Seq<char>, other: Seq<char>)
    requires
        key != other,
    ensures
        base + kv_path(key) != base + kv_path(other),
{
    let prefix = base + "/v1/kv/"@;
    if base + kv_path(key) == base + kv_path(other) {
        assert(base + kv_path(key) =~= prefix + key);
        assert(base + kv_path(other) =~= prefix + other);
        assert((prefix + key).subrange(prefix.len() as int, (prefix + key).len() as int) =~= key);
        assert((prefix + other).subrange(prefix.len() as int, (prefix + other).len() as int)
            =~= other);
        assert(key =~= other);
    }
}

/// A finished exchange stays as it is, whatever is reported next: no call is
/// tried a second time.
pub proof fn law_finished_exchange_stays(reply: Result<Response, hyper::Error>, event: Event)
    ensures
        Exchange::Finished(reply).after(event) == Exchange::Finished(reply),
{
}

/// No event takes an exchange back to an earlier stage.
pub proof fn law_exchange_never_goes_back(exchange: Exchange, event: Event)
    ensures
        exchange.after(event).progress() >= exchange.progress(),
{
}

/// A call that is dispatched, and whose reply comes head first and body
/// second, ends with that status and that body.
pub proof fn law_reply_in_order(status: u16, body: Vec<u8>)
    ensures
        Exchange::Idle.after(Event::Dispatched).after(Event::Headers { status }).after(
            Event::Body(body),
        ) == Exchange::Finished(Ok(Response { status, body })),
{
}

/// A failure of the transport ends an unfinished exchange, with that failure.
pub proof fn law_failure_ends_exchange(exchange: Exchange, e: hyper::Error)
    requires
        !(exchange is Finished),
    ensures
        exchange.after(Event::Failed(e)) == Exchange::Finished(Err(e)),
{
}

/// An exchange comes to hold a reply only when the body arrives after the
/// head: the reply has the status of the head and the whole body.
pub proof fn law_reply_needs_head_and_body(exchange: Exchange, event: Event, reply: Response)
    requires
        !(exchange is Finished),
        exchange.after(event) == Exchange::Finished(Ok(reply)),
    ensures
        exchange == (Exchange::AwaitingBody { status: reply.status }),
        event == Event::Body(reply.body),
{
}

} // verus!

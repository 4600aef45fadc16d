//! Frame codec: the wire envelope `{op, d, t, s}` of the gateway.
use vstd::prelude::*;
use crate::json::{is_json, json_quoted, json_str_at, json_text_at, json_u64_at, parses, quote, string_at, text_at, u64_at};

verus! {

/// Opcode of a heartbeat, sent by the client and, on request, asked for by the server.
pub const OP_HEARTBEAT: u64 = 1;

/// Opcode of the client's Identify handshake.
pub const OP_IDENTIFY: u64 = 2;

/// Opcode of the server's Hello, which carries the heartbeat interval.
pub const OP_HELLO: u64 = 10;

/// Opcode of the server's acknowledgement of a heartbeat.
pub const OP_HEARTBEAT_ACK: u64 = 11;

/// Event subscriptions asked for in the Identify frame.
pub const INTENTS: u64 = 513;

/// One decoded wire message. The payload `d` is kept as JSON text; the
/// heartbeat interval that a Hello's payload carries is read out of it.
pub struct Frame {
    pub op: Option<u64>,
    pub d: Option<String>,
    pub t: Option<String>,
    pub s: Option<u64>,
    pub heartbeat_interval: Option<u64>,
}

/// A message whose body is not well-formed JSON.
#[derive(Clone, Copy, Debug, PartialEq, Eq, Structural)]
pub enum DecodeError {
    Malformed,
}

/// `o` holds a string exactly where `v` holds a sequence, with that view.
pub open spec fn same_text(o: Option<String>, v: Option<Seq<char>>) -> bool {
    match o {
        Some(x) => v == Some(x@),
        None => v is None,
    }
}

/// `f` holds the envelope fields of `text`.
pub open spec fn decoded_from(f: Frame, text: Seq<char>) -> bool {
    &&& f.op == json_u64_at(text, "/op"@)
    &&& f.s == json_u64_at(text, "/s"@)
    &&& same_text(f.t, json_str_at(text, "/t"@))
    &&& same_text(f.d, json_text_at(text, "/d"@))
    &&& f.heartbeat_interval == json_u64_at(text, "/d/heartbeat_interval"@)
}

/// Decodes one text message. Fields that are absent, or of another JSON
/// type than the envelope gives them, are `None`.
pub fn decode_frame(text: &str) -> (r: Result<Frame, DecodeError>)
    ensures
        r is Err <==> !is_json(text@),
        r matches Ok(f) ==> decoded_from(f, text@),
{
    if !parses(text) {
        return Err(DecodeError::Malformed);
    }
    Ok(Frame {
        op: u64_at(text, "/op"),
        d: text_at(text, "/d"),
        t: string_at(text, "/t"),
        s: u64_at(text, "/s"),
        heartbeat_interval: u64_at(text, "/d/heartbeat_interval"),
    })
}

/// The text of a heartbeat frame.
pub open spec fn heartbeat_wire() -> Seq<char> {
    "{\"op\":1,\"d\":null}"@
}

/// The text of an Identify frame presenting `token`, for a client on `os`.
pub open spec fn identify_wire(token: Seq<char>, os: Seq<char>) -> Seq<char> {
    "{\"op\":2,\"d\":{\"token\":"@ + json_quoted(token) + ",\"intents\":513,\"properties\":{\"$os\":"@
        + json_quoted(os) + ",\"$browser\":\"boombot\",\"$device\":\"boombot\"}}}"@
}

/// Encodes a heartbeat frame: `{op: 1, d: null}`.
pub fn heartbeat_text() -> (r: String)
    ensures
        r@ == heartbeat_wire(),
{
    String::from_str("{\"op\":1,\"d\":null}")
}

/// Encodes the Identify frame: the token, the intents bitmask and the
/// client's identification.
pub fn identify_text(token: &str, os: &str) -> (r: String)
    ensures
        r@ == identify_wire(token@, os@),
{
    let mut r = String::from_str("{\"op\":2,\"d\":{\"token\":");
    let qt = quote(token);
    r.append(qt.as_str());
    r.append(",\"intents\":513,\"properties\":{\"$os\":");
    let qo = quote(os);
    r.append(qo.as_str());
    r.append(",\"$browser\":\"boombot\",\"$device\":\"boombot\"}}}");
    r
}

} // verus!

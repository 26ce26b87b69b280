use vstd::prelude::*;
use vstd::string::*;

use crate::json_access::{json_quoted, quote};
use crate::text::{append_decimal, spec_decimal};

verus! {

/// The heartbeat frame: `{"op":1,"d":<last sequence>}`, with `null` before any sequence.
pub open spec fn spec_heartbeat(last_sequence: u64) -> Seq<char> {
    "{\"op\":1,\"d\":"@ + (if last_sequence == 0 { "null"@ } else { spec_decimal(
        last_sequence as nat,
    ) }) + "}"@
}

/// The identify frame: token, fixed client properties and intents.
pub open spec fn spec_identify(token: Seq<char>, intents: u32) -> Seq<char> {
    "{\"op\":2,\"d\":{\"token\":"@ + json_quoted(token)
        + ",\"properties\":{\"os\":\"linux\",\"browser\":\"descord\",\"device\":\"descord\"},\"intents\":"@
        + spec_decimal(intents as nat) + "}}"@
}

/// The resume frame: token, last sequence and session id.
pub open spec fn spec_resume(token: Seq<char>, session_id: Seq<char>, seq: u64) -> Seq<char> {
    "{\"op\":6,\"d\":{\"token\":"@ + json_quoted(token) + ",\"seq\":"@ + spec_decimal(seq as nat)
        + ",\"session_id\":"@ + json_quoted(session_id) + "}}"@
}

/// Encodes a heartbeat carrying the last sequence number seen (0: none yet).
pub fn heartbeat(last_sequence: u64) -> (r: String)
    ensures
        r@ == spec_heartbeat(last_sequence),
{
    let mut s = String::from_str("{\"op\":1,\"d\":");
    if last_sequence == 0 {
        s.append("null");
    } else {
        append_decimal(&mut s, last_sequence);
    }
    s.append("}");
    s
}

/// Encodes the authenticate frame.
pub fn identify(token: &str, intents: u32) -> (r: String)
    ensures
        r@ == spec_identify(token@, intents),
{
    let mut s = String::from_str("{\"op\":2,\"d\":{\"token\":");
    let q = quote(token);
    s.append(q.as_str());
    s.append(",\"properties\":{\"os\":\"linux\",\"browser\":\"descord\",\"device\":\"descord\"},\"intents\":");
    append_decimal(&mut s, intents as u64);
    s.append("}}");
    s
}

/// Encodes the frame that resumes a session.
pub fn resume(token: &str, session_id: &str, seq: u64) -> (r: String)
    ensures
        r@ == spec_resume(token@, session_id@, seq),
{
    let mut s = String::from_str("{\"op\":6,\"d\":{\"token\":");
    let q = quote(token);
    s.append(q.as_str());
    s.append(",\"seq\":");
    append_decimal(&mut s, seq);
    s.append(",\"session_id\":");
    let q2 = quote(session_id);
    s.append(q2.as_str());
    s.append("}}");
    s
}

} // verus!

use vstd::prelude::*;
use vstd::string::*;

use crate::json_access::{json_member_str, json_member_text, json_member_u64, member_str, member_text, member_u64};
use crate::opcode::{spec_opcode_of, OpCode};

verus! {

/// One decoded gateway frame.
#[derive(Debug, Clone)]
pub struct Payload {
    /// The frame's text as received.
    pub raw_json: String,
    pub operation_code: OpCode,
    /// The event type; present only on dispatch frames.
    pub event_tag: Option<String>,
    /// The sequence number; present only on dispatch frames.
    pub sequence: Option<u64>,
    /// The frame's `d` member as JSON text (`null` where absent).
    pub data: String,
}

/// The mathematical content of a decoded frame.
pub struct FrameView {
    pub raw: Seq<char>,
    pub op: OpCode,
    pub tag: Option<Seq<char>>,
    pub seq: Option<u64>,
    pub body: Seq<char>,
}

pub open spec fn opt_view(o: Option<String>) -> Option<Seq<char>> {
    match o {
        Some(s) => Some(s@),
        None => None,
    }
}

impl View for Payload {
    type V = FrameView;

    open spec fn view(&self) -> FrameView {
        FrameView {
            raw: self.raw_json@,
            op: self.operation_code,
            tag: opt_view(self.event_tag),
            seq: self.sequence,
            body: self.data@,
        }
    }
}

/// The frame that a text decodes to: it needs an `op` member with a known code;
/// the event type and sequence are kept on dispatch frames only.
pub open spec fn spec_decode(text: Seq<char>) -> Option<FrameView> {
    match json_member_u64(text, "op"@) {
        Some(n) => match spec_opcode_of(n as int) {
            Some(op) => Some(FrameView {
                raw: text,
                op: op,
                tag: if op == OpCode::Dispatch { json_member_str(text, "t"@) } else { None },
                seq: if op == OpCode::Dispatch { json_member_u64(text, "s"@) } else { None },
                body: match json_member_text(text, "d"@) {
                    Some(b) => b,
                    None => "null"@,
                },
            }),
            None => None,
        },
        None => None,
    }
}

impl Payload {
    /// Decodes a frame; `None` for text that is not a JSON object with a known `op`.
    pub fn parse(payload: &str) -> (r: Option<Payload>)
        ensures
            r matches Some(p) ==> spec_decode(payload@) == Some(p@),
            r is None <==> spec_decode(payload@) is None,
            r matches Some(p) ==> (p.operation_code != OpCode::Dispatch ==> p.event_tag is None
                && p.sequence is None),
    {
        proof {
            reveal_strlit("op");
            reveal_strlit("t");
            reveal_strlit("s");
            reveal_strlit("d");
            reveal_strlit("null");
        }
        let n = match member_u64(payload, "op") {
            Some(n) => n,
            None => return None,
        };
        if n > 255 {
            assert(spec_opcode_of(n as int) is None) by {
                assert forall|op: OpCode| crate::opcode::spec_code(op) != n as int by {
                    match op {
                        _ => {},
                    }
                }
            }
            return None;
        }
        let operation_code = match OpCode::parse(n as u8) {
            Some(op) => op,
            None => return None,
        };
        let dispatch = operation_code == OpCode::Dispatch;
        let event_tag = if dispatch { member_str(payload, "t") } else { None };
        let sequence = if dispatch { member_u64(payload, "s") } else { None };
        let data = match member_text(payload, "d") {
            Some(d) => d,
            None => String::from_str("null"),
        };
        let p = Payload {
            raw_json: String::from_str(payload),
            operation_code,
            event_tag,
            sequence,
            data,
        };
        assert(p@.tag == opt_view(event_tag));
        Some(p)
    }
}

} // verus!

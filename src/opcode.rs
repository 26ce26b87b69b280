use vstd::prelude::*;

verus! {

/// Gateway operation codes.
#[derive(Debug, Clone, Copy, PartialEq, Eq, Structural)]
pub enum OpCode {
    Dispatch,
    Heartbeat,
    Identify,
    PresenceUpdate,
    VoiceStateUpdate,
    Resume,
    Reconnect,
    RequestGuildMembers,
    InvalidSession,
    Hello,
    HeartbeatACK,
}

/// The wire number of each operation code.
pub open spec fn spec_code(op: OpCode) -> int {
    match op {
        OpCode::Dispatch => 0,
        OpCode::Heartbeat => 1,
        OpCode::Identify => 2,
        OpCode::PresenceUpdate => 3,
        OpCode::VoiceStateUpdate => 4,
        OpCode::Resume => 6,
        OpCode::Reconnect => 7,
        OpCode::RequestGuildMembers => 8,
        OpCode::InvalidSession => 9,
        OpCode::Hello => 10,
        OpCode::HeartbeatACK => 11,
    }
}

/// The operation code carried by a wire number, if any.
pub open spec fn spec_opcode_of(code: int) -> Option<OpCode> {
    if exists|op: OpCode| spec_code(op) == code {
        Some(choose|op: OpCode| spec_code(op) == code)
    } else {
        None
    }
}

impl OpCode {
    /// Reads an operation code from its wire number; unknown numbers give `None`.
    pub fn parse(code: u8) -> (r: Option<OpCode>)
        ensures
            r == spec_opcode_of(code as int),
            r matches Some(op) ==> spec_code(op) == code as int,
            r is None <==> (code == 5 || code > 11),
    {
        let r = match code {
            0 => Some(OpCode::Dispatch),
            1 => Some(OpCode::Heartbeat),
            2 => Some(OpCode::Identify),
            3 => Some(OpCode::PresenceUpdate),
            4 => Some(OpCode::VoiceStateUpdate),
            6 => Some(OpCode::Resume),
            7 => Some(OpCode::Reconnect),
            8 => Some(OpCode::RequestGuildMembers),
            9 => Some(OpCode::InvalidSession),
            10 => Some(OpCode::Hello),
            11 => Some(OpCode::HeartbeatACK),
            _ => None,
        };
        proof {
            match r {
                Some(op) => {
                    lemma_code_injective(op);
                },
                None => {
                    assert forall|op: OpCode| spec_code(op) != code as int by {
                        match op {
                            _ => {},
                        }
                    }
                },
            }
        }
        r
    }

    /// The wire number of this operation code.
    pub fn code(&self) -> (r: u8)
        ensures
            r as int == spec_code(*self),
    {
        match self {
            OpCode::Dispatch => 0,
            OpCode::Heartbeat => 1,
            OpCode::Identify => 2,
            OpCode::PresenceUpdate => 3,
            OpCode::VoiceStateUpdate => 4,
            OpCode::Resume => 6,
            OpCode::Reconnect => 7,
            OpCode::RequestGuildMembers => 8,
            OpCode::InvalidSession => 9,
            OpCode::Hello => 10,
            OpCode::HeartbeatACK => 11,
        }
    }
}

/// Distinct operation codes have distinct wire numbers, so a number names at most one code.
pub proof fn lemma_code_injective(op: OpCode)
    ensures
        spec_opcode_of(spec_code(op)) == Some(op),
{
    assert forall|o: OpCode| spec_code(o) == spec_code(op) implies o == op by {
        match o {
            _ => {
                match op {
                    _ => {},
                }
            },
        }
    }
}

} // verus!

//! Wire encoding of the task byte of the mailbox header.

use vstd::prelude::*;

verus! {

/// Identifier of a host-requested task, carried in byte 1 of the mailbox.
///
/// `Unknown` stands for every unrecognized raw byte. Unlike the status
/// encoding, this direction is lossy: decoding collapses all unrecognized
/// bytes into the one `Unknown` value.
#[derive(Copy, Clone, Debug, PartialEq, Eq, Structural)]
pub enum TaskId {
    Ping,
    AttackReadMem,
    AttackWriteMem,
    AttackNopMem,
    AttackIpi,
    Unknown,
}

impl TaskId {
    /// The byte that stands for the id on the wire.
    pub open spec fn spec_to_byte(self) -> u8 {
        match self {
            TaskId::Ping => 0x01,
            TaskId::AttackReadMem => 0x02,
            TaskId::AttackWriteMem => 0x03,
            TaskId::AttackNopMem => 0x04,
            TaskId::AttackIpi => 0x05,
            TaskId::Unknown => 0xff,
        }
    }

    /// The task id that a raw byte decodes to.
    pub open spec fn spec_from_byte(b: u8) -> TaskId {
        if b == 0x01 {
            TaskId::Ping
        } else if b == 0x02 {
            TaskId::AttackReadMem
        } else if b == 0x03 {
            TaskId::AttackWriteMem
        } else if b == 0x04 {
            TaskId::AttackNopMem
        } else if b == 0x05 {
            TaskId::AttackIpi
        } else {
            TaskId::Unknown
        }
    }

    /// Encodes the id as its wire byte.
    pub fn to_byte(self) -> (r: u8)
        ensures
            r == self.spec_to_byte(),
    {
        match self {
            TaskId::Ping => 0x01,
            TaskId::AttackReadMem => 0x02,
            TaskId::AttackWriteMem => 0x03,
            TaskId::AttackNopMem => 0x04,
            TaskId::AttackIpi => 0x05,
            TaskId::Unknown => 0xff,
        }
    }

    /// Decodes a raw byte; every unrecognized byte becomes `Unknown`.
    pub fn from_byte(b: u8) -> (r: TaskId)
        ensures
            r == TaskId::spec_from_byte(b),
    {
        match b {
            0x01 => TaskId::Ping,
            0x02 => TaskId::AttackReadMem,
            0x03 => TaskId::AttackWriteMem,
            0x04 => TaskId::AttackNopMem,
            0x05 => TaskId::AttackIpi,
            _ => TaskId::Unknown,
        }
    }
}

/// Decoding the encoding of any task id yields that id again.
pub proof fn lemma_task_id_round_trip(t: TaskId)
    ensures
        TaskId::spec_from_byte(t.spec_to_byte()) == t,
{
}

/// The byte-level round trip is exact precisely on the recognized codes;
/// every other byte is collapsed into the encoding of `Unknown`.
pub proof fn lemma_task_byte_round_trip(b: u8)
    ensures
        (TaskId::spec_from_byte(b).spec_to_byte() == b) <==> (b == 0x01 || b == 0x02 || b == 0x03
            || b == 0x04 || b == 0x05 || b == 0xff),
{
}

} // verus!

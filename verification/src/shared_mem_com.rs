//! The shared-memory mailbox between the TEE and the untrusted host.
//!
//! Wire layout of the shared region: byte 0 is the status (`TeeCommand`
//! encoding), byte 1 is the task id (`TaskId` encoding), bytes `[2, len)`
//! are the payload. The raw region is held as a bounds-checked byte view;
//! offset arithmetic is validated internally and never exposed.
//!
//! Ownership of the region is handed back and forth purely by convention:
//! whichever side last wrote the status byte cedes the next read to the
//! other side. When this side transmits a result it writes the payload
//! first, the task id second and the status last — the status byte is the
//! release signal.

use vstd::prelude::*;

use crate::events::LogEvent;
use crate::task_id::TaskId;

verus! {

/// Status byte value for "no command pending".
pub const STATUS_NONE: u8 = 0x00;

/// Status byte value for "TEE is ready for a command".
pub const STATUS_TEE_READY: u8 = 0x01;

/// Status byte value for "TEE wrote a result".
pub const STATUS_TEE_SEND: u8 = 0x02;

/// Status byte value for "host wrote a command".
pub const STATUS_HOST_SEND: u8 = 0x11;

/// Command codes exchanged through the status byte of the mailbox.
///
/// The encoding is closed with an overflow arm: every byte decodes, and
/// `Unknown` keeps the raw byte so the round trip is lossless.
#[derive(Copy, Clone, Debug, PartialEq, Eq, Structural)]
pub enum TeeCommand {
    /// No command pending; the idle status.
    NoCommand,
    /// This side announced readiness.
    TeeReady,
    /// This side wrote a result.
    TeeSend,
    /// The host wrote a command.
    HostSend,
    /// Any other raw status byte, kept verbatim.
    Unknown(u8),
}

impl TeeCommand {
    /// The byte that encodes this command on the wire.
    pub open spec fn spec_to_byte(self) -> u8 {
        match self {
            TeeCommand::NoCommand => STATUS_NONE,
            TeeCommand::TeeReady => STATUS_TEE_READY,
            TeeCommand::TeeSend => STATUS_TEE_SEND,
            TeeCommand::HostSend => STATUS_HOST_SEND,
            TeeCommand::Unknown(x) => x,
        }
    }

    /// The command that a raw status byte decodes to.
    pub open spec fn spec_from_byte(b: u8) -> TeeCommand {
        if b == STATUS_NONE {
            TeeCommand::NoCommand
        } else if b == STATUS_TEE_READY {
            TeeCommand::TeeReady
        } else if b == STATUS_TEE_SEND {
            TeeCommand::TeeSend
        } else if b == STATUS_HOST_SEND {
            TeeCommand::HostSend
        } else {
            TeeCommand::Unknown(b)
        }
    }

    /// A decoded command never hides a named code inside the overflow arm.
    pub open spec fn is_canonical(self) -> bool {
        match self {
            TeeCommand::Unknown(x) => !(x == STATUS_NONE || x == STATUS_TEE_READY
                || x == STATUS_TEE_SEND || x == STATUS_HOST_SEND),
            _ => true,
        }
    }

    /// Encodes this command as its wire byte.
    pub fn to_byte(self) -> (r: u8)
        ensures
            r == self.spec_to_byte(),
    {
        match self {
            TeeCommand::NoCommand => STATUS_NONE,
            TeeCommand::TeeReady => STATUS_TEE_READY,
            TeeCommand::TeeSend => STATUS_TEE_SEND,
            TeeCommand::HostSend => STATUS_HOST_SEND,
            TeeCommand::Unknown(x) => x,
        }
    }

    /// Decodes a raw status byte; unrecognized bytes are kept verbatim.
    pub fn from_byte(b: u8) -> (r: TeeCommand)
        ensures
            r == TeeCommand::spec_from_byte(b),
            r.is_canonical(),
    {
        match b {
            0x00 => TeeCommand::NoCommand,
            0x01 => TeeCommand::TeeReady,
            0x02 => TeeCommand::TeeSend,
            0x11 => TeeCommand::HostSend,
            x => TeeCommand::Unknown(x),
        }
    }
}

/// Decoding the encoding of any canonical command yields that command.
pub proof fn lemma_tee_command_round_trip(c: TeeCommand)
    requires
        c.is_canonical(),
    ensures
        TeeCommand::spec_from_byte(c.spec_to_byte()) == c,
{
}

/// Encoding the decoding of any raw byte yields that byte: the status
/// encoding is lossless over the whole byte range.
pub proof fn lemma_tee_byte_round_trip(b: u8)
    ensures
        TeeCommand::spec_from_byte(b).spec_to_byte() == b,
{
}

/// How many bytes a clamped mailbox write copies: the source length,
/// clamped to what is left of the region past `offset` (zero at or past
/// the end).
pub open spec fn copy_len(src_len: int, size: int, offset: int) -> int {
    if offset < size {
        if src_len < size - offset {
            src_len
        } else {
            size - offset
        }
    } else {
        0
    }
}

/// Little-endian byte `i` of a 64-bit value.
pub open spec fn le_byte(v: u64, i: int) -> u8 {
    (v >> (8 * i)) as u8
}

/// The 64-bit value stored little-endian at offset `off` of `s`.
pub open spec fn le_u64_at(s: Seq<u8>, off: int) -> u64 {
    (s[off] as u64) | (s[off + 1] as u64) << 8 | (s[off + 2] as u64) << 16 | (s[off + 3] as u64)
        << 24 | (s[off + 4] as u64) << 32 | (s[off + 5] as u64) << 40 | (s[off + 6] as u64) << 48
        | (s[off + 7] as u64) << 56
}

/// Reassembling the eight little-endian bytes of `v` yields `v` again.
pub proof fn lemma_le_round_trip(s: Seq<u8>, off: int, v: u64)
    requires
        0 <= off,
        off + 8 <= s.len(),
        forall|i: int| 0 <= i < 8 ==> s[off + i] == le_byte(v, i),
    ensures
        le_u64_at(s, off) == v,
{
    assert(s[off] == le_byte(v, 0));
    assert(s[off + 1] == le_byte(v, 1));
    assert(s[off + 2] == le_byte(v, 2));
    assert(s[off + 3] == le_byte(v, 3));
    assert(s[off + 4] == le_byte(v, 4));
    assert(s[off + 5] == le_byte(v, 5));
    assert(s[off + 6] == le_byte(v, 6));
    assert(s[off + 7] == le_byte(v, 7));
    assert(((v >> 0) as u8 as u64) | ((v >> 8) as u8 as u64) << 8 | ((v >> 16) as u8 as u64) << 16
        | ((v >> 24) as u8 as u64) << 24 | ((v >> 32) as u8 as u64) << 32 | ((v >> 40) as u8 as u64)
        << 40 | ((v >> 48) as u8 as u64) << 48 | ((v >> 56) as u8 as u64) << 56 == v)
        by (bit_vector);
}

/// The log lines one polling pass emits on observing status byte `b`
/// with idle-suppression flag `w`: an idle line only at the start of an
/// idle streak, a waiting line whenever this side's own status is still
/// in the mailbox, the received line on a host command, and an
/// unknown-status line otherwise.
pub open spec fn poll_pass_events(b: u8, w: bool) -> Seq<LogEvent> {
    if b == STATUS_NONE {
        if w {
            Seq::empty()
        } else {
            seq![LogEvent::Idle]
        }
    } else if b == STATUS_TEE_READY || b == STATUS_TEE_SEND {
        seq![LogEvent::WaitingForResponse]
    } else if b == STATUS_HOST_SEND {
        seq![LogEvent::MessageReceived]
    } else {
        seq![LogEvent::UnknownStatus(b)]
    }
}

/// How the idle-suppression flag evolves after one observation of status
/// byte `b`.
pub open spec fn next_waiting(b: u8, w: bool) -> bool {
    if b == STATUS_NONE {
        true
    } else if b == STATUS_HOST_SEND {
        false
    } else {
        w
    }
}

/// One polling pass logs the idle line exactly when it observes the
/// idle status at the start of an idle streak — the condition that
/// `idle_events` counts.
pub proof fn lemma_pass_logs_idle_iff(b: u8, w: bool)
    ensures
        poll_pass_events(b, w).contains(LogEvent::Idle) <==> (b == STATUS_NONE && !w),
{
    let evs = poll_pass_events(b, w);
    if b == STATUS_NONE && !w {
        assert(evs[0] == LogEvent::Idle);
    } else {
        assert forall|i: int| 0 <= i < evs.len() implies evs[i] != LogEvent::Idle by {
            assert(i == 0);
        }
    }
}

/// How many idle lines a run of observed status bytes logs, starting from
/// idle-suppression flag `w`.
pub open spec fn idle_events(statuses: Seq<u8>, w: bool) -> nat
    decreases statuses.len(),
{
    if statuses.len() == 0 {
        0
    } else {
        (if statuses[0] == STATUS_NONE && !w {
            1nat
        } else {
            0nat
        }) + idle_events(statuses.skip(1), next_waiting(statuses[0], w))
    }
}

/// A streak of consecutive idle observations logs the idle line exactly
/// once, however long the streak is.
pub proof fn lemma_idle_logged_once(statuses: Seq<u8>)
    requires
        statuses.len() >= 1,
        forall|i: int| 0 <= i < statuses.len() ==> statuses[i] == STATUS_NONE,
    ensures
        idle_events(statuses, false) == 1,
{
    lemma_idle_suppressed(statuses.skip(1));
}

/// Once the idle-suppression flag is set, further idle observations log
/// nothing at all.
pub proof fn lemma_idle_suppressed(statuses: Seq<u8>)
    requires
        forall|i: int| 0 <= i < statuses.len() ==> statuses[i] == STATUS_NONE,
    ensures
        idle_events(statuses, true) == 0,
    decreases statuses.len(),
{
    if statuses.len() > 0 {
        lemma_idle_suppressed(statuses.skip(1));
    }
}

/// A bounds-checked view over the shared region, plus the idle-suppression
/// flag of the polling loop.
#[derive(Debug)]
pub struct SharedMemCommunicator {
    memory: Vec<u8>,
    still_waiting: bool,
}

impl SharedMemCommunicator {
    /// The bytes of the shared region.
    pub closed spec fn mem(self) -> Seq<u8> {
        self.memory@
    }

    /// The idle-suppression flag: set after an idle line was logged, so
    /// that further consecutive idle passes stay quiet.
    pub closed spec fn waiting(self) -> bool {
        self.still_waiting
    }

    /// The region must be long enough for the two header bytes.
    pub open spec fn wf(self) -> bool {
        self.mem().len() >= 2
    }

    /// The payload bytes, `[2, len)` of the region.
    pub open spec fn payload(self) -> Seq<u8> {
        self.mem().subrange(2, self.mem().len() as int)
    }

    /// Takes ownership of the shared region. The caller must have sized
    /// the region for at least the two header bytes.
    pub fn from_raw_parts(memory: Vec<u8>) -> (r: Self)
        requires
            memory@.len() >= 2,
        ensures
            r.mem() == memory@,
            !r.waiting(),
    {
        SharedMemCommunicator { memory, still_waiting: false }
    }

    /// Length of the whole shared region in bytes.
    pub fn size(&self) -> (r: usize)
        ensures
            r == self.mem().len(),
    {
        self.memory.len()
    }

    /// The whole region, for an embedder that mirrors it back into the
    /// memory it shares with the host.
    pub fn region(&self) -> (r: &Vec<u8>)
        ensures
            r@ == self.mem(),
    {
        &self.memory
    }

    /// Reads the status byte and decodes it.
    pub fn get_status(&self) -> (r: TeeCommand)
        requires
            self.wf(),
        ensures
            r == TeeCommand::spec_from_byte(self.mem()[0]),
            r.is_canonical(),
    {
        TeeCommand::from_byte(self.memory[0])
    }

    /// Reads the task byte and decodes it.
    pub fn get_task(&self) -> (r: TaskId)
        requires
            self.wf(),
        ensures
            r == TaskId::spec_from_byte(self.mem()[1]),
    {
        TaskId::from_byte(self.memory[1])
    }

    /// Encodes and writes the status byte.
    pub fn set_status(&mut self, command: TeeCommand)
        requires
            old(self).wf(),
        ensures
            final(self).mem() == old(self).mem().update(0, command.spec_to_byte()),
            final(self).waiting() == old(self).waiting(),
    {
        let b = command.to_byte();
        self.memory.set(0, b);
    }

    /// Encodes and writes the task byte.
    pub fn set_task(&mut self, task: TaskId)
        requires
            old(self).wf(),
        ensures
            final(self).mem() == old(self).mem().update(1, task.spec_to_byte()),
            final(self).waiting() == old(self).waiting(),
    {
        let b = task.to_byte();
        self.memory.set(1, b);
    }

    /// Writes a raw status byte without going through the encoding.
    pub fn write_status(&mut self, status: u8)
        requires
            old(self).wf(),
        ensures
            final(self).mem() == old(self).mem().update(0, status),
            final(self).waiting() == old(self).waiting(),
    {
        self.memory.set(0, status);
    }

    /// Copies bytes from `src` into the region starting at `offset`,
    /// clamped to the region: exactly `min(src.len(), max(0, len - offset))`
    /// bytes are copied, so an offset at or past the end copies nothing.
    pub fn write_mem(&mut self, src: &[u8], offset: usize)
        requires
            old(self).wf(),
        ensures
            final(self).mem().len() == old(self).mem().len(),
            final(self).waiting() == old(self).waiting(),
            ({
                let n = copy_len(src@.len() as int, old(self).mem().len() as int, offset as int);
                forall|i: int|
                    0 <= i < old(self).mem().len() ==> final(self).mem()[i] == (if offset <= i
                        < offset + n {
                        src@[i - offset]
                    } else {
                        old(self).mem()[i]
                    })
            }),
    {
        let size = self.memory.len();
        let bytes_to_copy: usize = if offset < size {
            if src.len() < size - offset {
                src.len()
            } else {
                size - offset
            }
        } else {
            0
        };
        let mut i: usize = 0;
        while i < bytes_to_copy
            invariant
                i <= bytes_to_copy,
                bytes_to_copy == copy_len(src@.len() as int, old(self).mem().len() as int,
                    offset as int),
                bytes_to_copy != 0 ==> offset + bytes_to_copy <= old(self).mem().len(),
                old(self).mem().len() <= usize::MAX,
                bytes_to_copy <= src@.len(),
                self.memory@.len() == old(self).mem().len(),
                self.still_waiting == old(self).waiting(),
                forall|k: int|
                    0 <= k < old(self).mem().len() ==> self.memory@[k] == (if offset <= k < offset
                        + i {
                        src@[k - offset]
                    } else {
                        old(self).mem()[k]
                    }),
            decreases bytes_to_copy - i,
        {
            self.memory.set(offset + i, src[i]);
            i = i + 1;
        }
    }

    /// Number of payload bytes.
    pub fn payload_len(&self) -> (r: usize)
        requires
            self.wf(),
        ensures
            r == self.payload().len(),
    {
        self.memory.len() - 2
    }

    /// Reads payload byte `idx`.
    pub fn get_payload_byte(&self, idx: usize) -> (r: u8)
        requires
            self.wf(),
            idx < self.payload().len(),
        ensures
            r == self.payload()[idx as int],
    {
        let _n = self.memory.len();
        self.memory[2 + idx]
    }

    /// Writes payload byte `idx`.
    pub fn set_payload_byte(&mut self, idx: usize, v: u8)
        requires
            old(self).wf(),
            idx < old(self).payload().len(),
        ensures
            final(self).mem() == old(self).mem().update(2 + idx, v),
            final(self).waiting() == old(self).waiting(),
    {
        let _n = self.memory.len();
        self.memory.set(2 + idx, v);
    }

    /// Reads the little-endian 64-bit value at payload offset `off`.
    pub fn read_payload_u64(&self, off: usize) -> (r: u64)
        requires
            self.wf(),
            off + 8 <= self.payload().len(),
        ensures
            r == le_u64_at(self.payload(), off as int),
    {
        let _n = self.memory.len();
        let b0 = self.memory[2 + off] as u64;
        let b1 = self.memory[2 + off + 1] as u64;
        let b2 = self.memory[2 + off + 2] as u64;
        let b3 = self.memory[2 + off + 3] as u64;
        let b4 = self.memory[2 + off + 4] as u64;
        let b5 = self.memory[2 + off + 5] as u64;
        let b6 = self.memory[2 + off + 6] as u64;
        let b7 = self.memory[2 + off + 7] as u64;
        b0 | b1 << 8 | b2 << 16 | b3 << 24 | b4 << 32 | b5 << 40 | b6 << 48 | b7 << 56
    }

    /// Writes `v` little-endian at payload offset `off`.
    pub fn write_payload_u64(&mut self, off: usize, v: u64)
        requires
            old(self).wf(),
            off + 8 <= old(self).payload().len(),
        ensures
            final(self).mem().len() == old(self).mem().len(),
            final(self).waiting() == old(self).waiting(),
            forall|i: int|
                0 <= i < 8 ==> final(self).payload()[off + i] == le_byte(v, i),
            forall|k: int|
                0 <= k < old(self).mem().len() && !(2 + off <= k < 2 + off + 8)
                    ==> final(self).mem()[k] == old(self).mem()[k],
            le_u64_at(final(self).payload(), off as int) == v,
    {
        let ghost pre = self.memory@;
        let n = self.memory.len();
        let mut i: usize = 0;
        while i < 8
            invariant
                i <= 8,
                n == pre.len(),
                2 + off + 8 <= pre.len(),
                self.memory@.len() == pre.len(),
                self.still_waiting == old(self).waiting(),
                forall|j: int| 0 <= j < i ==> self.memory@[2 + off + j] == le_byte(v, j),
                forall|k: int|
                    0 <= k < pre.len() && !(2 + off <= k < 2 + off + i) ==> self.memory@[k]
                        == pre[k],
            decreases 8 - i,
        {
            let shift: u64 = 8 * (i as u64);
            let b: u8 = #[verifier::truncate] ((v >> shift) as u8);
            self.memory.set(2 + off + i, b);
            assert(b == le_byte(v, i as int));
            i = i + 1;
        }
        proof {
            assert forall|j: int| 0 <= j < 8 implies final(self).payload()[off + j] == le_byte(
                v,
                j,
            ) by {
                assert(final(self).payload()[off + j] == self.memory@[2 + off + j]);
            }
            lemma_le_round_trip(final(self).payload(), off as int, v);
        }
    }

    /// One pass of the blocking wait for a host command.
    ///
    /// The real wait is an indefinite loop with a fixed inter-check delay
    /// and no timeout; only a host write of the host-send status ends it.
    /// Each pass observes the status byte once, logs as the protocol
    /// prescribes — an idle line only at the start of an idle streak, a
    /// waiting line on every pass that sees this side's own status, an
    /// unknown-status line otherwise — and reports whether the wait is
    /// over. The embedder repeats the pass, with its delay in between,
    /// until `done` is true.
    pub fn poll(&mut self, events: &mut Vec<LogEvent>) -> (done: bool)
        requires
            old(self).wf(),
        ensures
            final(self).mem() == old(self).mem(),
            done == (old(self).mem()[0] == STATUS_HOST_SEND),
            final(self).waiting() == next_waiting(old(self).mem()[0], old(self).waiting()),
            final(events)@ == old(events)@ + poll_pass_events(old(self).mem()[0],
                old(self).waiting()),
    {
        match self.get_status() {
            TeeCommand::NoCommand => {
                if !self.still_waiting {
                    events.push(LogEvent::Idle);
                }
                self.still_waiting = true;
                false
            },
            TeeCommand::TeeSend | TeeCommand::TeeReady => {
                events.push(LogEvent::WaitingForResponse);
                false
            },
            TeeCommand::HostSend => {
                events.push(LogEvent::MessageReceived);
                self.still_waiting = false;
                true
            },
            TeeCommand::Unknown(x) => {
                events.push(LogEvent::UnknownStatus(x));
                false
            },
        }
    }
}

} // verus!

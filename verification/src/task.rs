//! The task registry and the host-requested memory-access handlers.
//!
//! Every handler shares one payload convention: payload byte 0 is the
//! buffer-initialized flag, payload bytes `[2, 10)` hold the little-endian
//! physical address of the handler's buffer so that it can be found again
//! in later rounds. On the first call a handler allocates its buffer,
//! fills it with its initial pattern and records the buffer's physical
//! address; on later calls it resolves the recorded address back to its
//! buffer and performs its access pattern. Every handler finishes by
//! writing its task id and then the send status into the mailbox — the
//! payload is written first, the task id second, the status last, since
//! the status byte is the release signal to the host.
//!
//! The buffers' memory is modeled as the word vectors held here: what the
//! sweeps read and write is then part of the verified state.

use vstd::prelude::*;

use crate::errors::TeeError;
use crate::events::LogEvent;
use crate::mem::heap_advanced;
use crate::mem::heap_unchanged;
use crate::mem::spec_alloc_start;
use crate::mem::Heap;
use crate::paging::add64;
use crate::paging::MappingWindow;
use crate::shared_mem_com::le_byte;
use crate::shared_mem_com::le_u64_at;
use crate::shared_mem_com::lemma_le_round_trip;
use crate::shared_mem_com::SharedMemCommunicator;
use crate::shared_mem_com::TeeCommand;
use crate::shared_mem_com::STATUS_TEE_SEND;
use crate::task_id::TaskId;

verus! {

/// Payload offset of the buffer-initialized flag.
pub const PAYLOAD_FLAG_OFFSET: usize = 0;

/// Payload offset of the recorded buffer physical address.
pub const PAYLOAD_ADDR_OFFSET: usize = 2;

/// Bytes of the sweep handlers' buffer: one page.
pub const SWEEP_BUFFER_BYTES: usize = 0x1000;

/// The sentinel value the interrupt-correlation handler writes once.
pub const IPI_SENTINEL: u32 = 0x1337_beef;

/// A handler buffer of 64-bit elements, remembered together with the
/// physical address recorded for it in the payload.
pub struct BufferU64 {
    /// Physical address of the buffer's first byte.
    pub phys: u64,
    /// The buffer contents.
    pub words: Vec<u64>,
}

/// A handler buffer of 32-bit elements, remembered together with the
/// physical address recorded for it in the payload.
pub struct BufferU32 {
    /// Physical address of the buffer's first byte.
    pub phys: u64,
    /// The buffer contents.
    pub words: Vec<u32>,
}

/// The lazily allocated handler-private buffers, owned for the process
/// lifetime and never freed.
pub struct TaskBuffers {
    /// The ping handler's near-heap-sized buffer of 64-bit elements.
    pub ping: Option<BufferU64>,
    /// The one-page buffer shared by the sweep handlers.
    pub sweep: Option<BufferU32>,
    /// The one-word buffer of the interrupt-correlation handler.
    pub ipi: Option<BufferU32>,
}

impl TaskBuffers {
    /// No buffer allocated yet.
    pub fn new() -> (r: Self)
        ensures
            r.ping is None,
            r.sweep is None,
            r.ipi is None,
    {
        TaskBuffers { ping: None, sweep: None, ipi: None }
    }
}

/// 32-bit wrapping addition.
pub open spec fn add32(a: u32, b: u32) -> u32 {
    ((a + b) % 0x1_0000_0000) as u32
}

/// Every element is 1.
pub open spec fn all_ones64(s: Seq<u64>) -> bool {
    forall|j: int| 0 <= j < s.len() ==> s[j] == 1u64
}

/// Every element is 1.
pub open spec fn all_ones32(s: Seq<u32>) -> bool {
    forall|j: int| 0 <= j < s.len() ==> s[j] == 1u32
}

/// The mailbox after a handler's completion signal: task id and send
/// status written, everything else as in `m0`.
pub open spec fn mem_completed(m0: Seq<u8>, m1: Seq<u8>, id: TaskId) -> bool {
    &&& m1.len() == m0.len()
    &&& m1[0] == STATUS_TEE_SEND
    &&& m1[1] == id.spec_to_byte()
    &&& forall|k: int| 2 <= k < m0.len() ==> m1[k] == m0[k]
}

/// The mailbox after a handler recorded a fresh buffer: the initialized
/// flag set, the physical address stored little-endian at the payload
/// address bytes, the header bytes as given by `header`, everything else
/// as in `m0`.
pub open spec fn mem_recorded(m0: Seq<u8>, m1: Seq<u8>, phys: u64, header: Option<TaskId>) -> bool {
    &&& m1.len() == m0.len()
    &&& (match header {
        Some(id) => m1[0] == STATUS_TEE_SEND && m1[1] == id.spec_to_byte(),
        None => m1[0] == m0[0] && m1[1] == m0[1],
    })
    &&& m1[2] == 1u8
    &&& m1[3] == m0[3]
    &&& forall|i: int| 0 <= i < 8 ==> m1[4 + i] == le_byte(phys, i)
    &&& forall|k: int| 12 <= k < m0.len() ==> m1[k] == m0[k]
}

/// The physical address a handler reads back from the payload.
pub open spec fn recorded_phys(m0: Seq<u8>) -> u64 {
    le_u64_at(m0, 4)
}

/// The handler buffers after only the ping slot changed.
pub open spec fn bufs_except_ping(b0: TaskBuffers, b1: TaskBuffers) -> bool {
    &&& b1.sweep == b0.sweep
    &&& b1.ipi == b0.ipi
}

/// The handler buffers after only the sweep slot changed.
pub open spec fn bufs_except_sweep(b0: TaskBuffers, b1: TaskBuffers) -> bool {
    &&& b1.ping == b0.ping
    &&& b1.ipi == b0.ipi
}

/// The handler buffers after only the interrupt slot changed.
pub open spec fn bufs_except_ipi(b0: TaskBuffers, b1: TaskBuffers) -> bool {
    &&& b1.ping == b0.ping
    &&& b1.sweep == b0.sweep
}

/// No handler buffer changed.
pub open spec fn bufs_unchanged(b0: TaskBuffers, b1: TaskBuffers) -> bool {
    &&& b1.ping == b0.ping
    &&& b1.sweep == b0.sweep
    &&& b1.ipi == b0.ipi
}

/// The complete transition of the ping handler, from mailbox bytes `m0`,
/// heap `h0` and buffers `b0` to `m1`, `h1`, `b1` with result `r`, under
/// mapping window `w`.
///
/// First call (payload flag clear): allocate a buffer of the heap size
/// minus one page, increment each fresh (zeroed) element to 1, record
/// the buffer's physical address, set the flag, and signal completion.
/// Later calls: resolve the recorded address to the buffer and increment
/// every element, then signal completion. Allocation failure is fatal; a
/// recorded address that resolves to no buffer is a translation miss.
pub open spec fn ping_post(m0: Seq<u8>, h0: Heap, b0: TaskBuffers, w: MappingWindow, m1: Seq<u8>,
    h1: Heap, b1: TaskBuffers, r: Result<(), TeeError>) -> bool {
    let nbytes = h0.size() - 0x1000;
    if m0[2] == 0 {
        match spec_alloc_start(h0, nbytes, 8) {
            None => {
                &&& r == Err::<(), TeeError>(TeeError::ResourceExhausted)
                &&& m1 == m0
                &&& heap_unchanged(h0, h1)
                &&& bufs_unchanged(b0, b1)
            },
            Some(start) => {
                match w.spec_translate(start as u64) {
                    None => {
                        &&& r == Err::<(), TeeError>(TeeError::AddressTranslationMiss)
                        &&& m1 == m0
                        &&& heap_advanced(h0, h1, start + nbytes - h0.base_virt())
                        &&& bufs_unchanged(b0, b1)
                    },
                    Some(phys) => {
                        &&& r == Ok::<(), TeeError>(())
                        &&& heap_advanced(h0, h1, start + nbytes - h0.base_virt())
                        &&& bufs_except_ping(b0, b1)
                        &&& b1.ping matches Some(nb) && nb.phys == phys && nb.words@.len()
                            == nbytes / 8 && all_ones64(nb.words@)
                        &&& mem_recorded(m0, m1, phys, Some(TaskId::Ping))
                    },
                }
            },
        }
    } else {
        if b0.ping matches Some(pb) && pb.phys == recorded_phys(m0) {
            &&& r == Ok::<(), TeeError>(())
            &&& heap_unchanged(h0, h1)
            &&& bufs_except_ping(b0, b1)
            &&& b1.ping matches Some(nb) && b0.ping matches Some(pb) && nb.phys == pb.phys
                && nb.words@.len() == pb.words@.len() && (forall|j: int|
                0 <= j < pb.words@.len() ==> nb.words@[j] == add64(pb.words@[j], 1))
            &&& mem_completed(m0, m1, TaskId::Ping)
        } else {
            &&& r == Err::<(), TeeError>(TeeError::AddressTranslationMiss)
            &&& m1 == m0
            &&& heap_unchanged(h0, h1)
            &&& bufs_unchanged(b0, b1)
        }
    }
}

/// What one pass of the sweep turns the buffer words into, given whether
/// the pass reads the elements back and whether the task byte asked for
/// the write variant: the write variant stores the read-back (or zero)
/// value plus one; the others store nothing.
pub open spec fn swept_words(read: bool, task_is_write: bool, w0: Seq<u32>) -> Seq<u32> {
    if task_is_write {
        Seq::new(w0.len(), |j: int| if read {
            add32(w0[j], 1)
        } else {
            1u32
        })
    } else {
        w0
    }
}

/// The complete transition of the shared sweep helper, not including the
/// completion signal (the calling handler writes that itself).
///
/// First call (payload flag clear): allocate one page aligned to a page,
/// fill it with the value 1, record its physical address and set the
/// flag. Later calls: resolve the recorded address to the buffer and
/// sweep it — reading each element if `read`, and storing the
/// incremented value only when the mailbox task byte names the
/// write-sweep task.
pub open spec fn mem_helper_post(read: bool, m0: Seq<u8>, h0: Heap, b0: TaskBuffers,
    w: MappingWindow, m1: Seq<u8>, h1: Heap, b1: TaskBuffers, r: Result<(), TeeError>) -> bool {
    if m0[2] == 0 {
        match spec_alloc_start(h0, SWEEP_BUFFER_BYTES as int, 0x1000) {
            None => {
                &&& r == Err::<(), TeeError>(TeeError::ResourceExhausted)
                &&& m1 == m0
                &&& heap_unchanged(h0, h1)
                &&& bufs_unchanged(b0, b1)
            },
            Some(start) => {
                match w.spec_translate(start as u64) {
                    None => {
                        &&& r == Err::<(), TeeError>(TeeError::AddressTranslationMiss)
                        &&& m1 == m0
                        &&& heap_advanced(h0, h1, start + SWEEP_BUFFER_BYTES - h0.base_virt())
                        &&& bufs_unchanged(b0, b1)
                    },
                    Some(phys) => {
                        &&& r == Ok::<(), TeeError>(())
                        &&& heap_advanced(h0, h1, start + SWEEP_BUFFER_BYTES - h0.base_virt())
                        &&& bufs_except_sweep(b0, b1)
                        &&& b1.sweep matches Some(nb) && nb.phys == phys && nb.words@.len() == 1024
                            && all_ones32(nb.words@)
                        &&& mem_recorded(m0, m1, phys, None)
                    },
                }
            },
        }
    } else {
        if b0.sweep matches Some(sb) && sb.phys == recorded_phys(m0) {
            &&& r == Ok::<(), TeeError>(())
            &&& m1 == m0
            &&& heap_unchanged(h0, h1)
            &&& bufs_except_sweep(b0, b1)
            &&& b1.sweep matches Some(nb) && b0.sweep matches Some(sb) && nb.phys == sb.phys
                && nb.words@ == swept_words(read, m0[1] == TaskId::AttackWriteMem.spec_to_byte(),
                sb.words@)
        } else {
            &&& r == Err::<(), TeeError>(TeeError::AddressTranslationMiss)
            &&& m1 == m0
            &&& heap_unchanged(h0, h1)
            &&& bufs_unchanged(b0, b1)
        }
    }
}

/// The complete transition of a sweep task handler: the sweep helper's
/// transition followed by the completion signal for `id`.
pub open spec fn mem_task_post(read: bool, id: TaskId, m0: Seq<u8>, h0: Heap, b0: TaskBuffers,
    w: MappingWindow, m1: Seq<u8>, h1: Heap, b1: TaskBuffers, r: Result<(), TeeError>) -> bool {
    if m0[2] == 0 {
        match spec_alloc_start(h0, SWEEP_BUFFER_BYTES as int, 0x1000) {
            None => {
                &&& r == Err::<(), TeeError>(TeeError::ResourceExhausted)
                &&& m1 == m0
                &&& heap_unchanged(h0, h1)
                &&& bufs_unchanged(b0, b1)
            },
            Some(start) => {
                match w.spec_translate(start as u64) {
                    None => {
                        &&& r == Err::<(), TeeError>(TeeError::AddressTranslationMiss)
                        &&& m1 == m0
                        &&& heap_advanced(h0, h1, start + SWEEP_BUFFER_BYTES - h0.base_virt())
                        &&& bufs_unchanged(b0, b1)
                    },
                    Some(phys) => {
                        &&& r == Ok::<(), TeeError>(())
                        &&& heap_advanced(h0, h1, start + SWEEP_BUFFER_BYTES - h0.base_virt())
                        &&& bufs_except_sweep(b0, b1)
                        &&& b1.sweep matches Some(nb) && nb.phys == phys && nb.words@.len() == 1024
                            && all_ones32(nb.words@)
                        &&& mem_recorded(m0, m1, phys, Some(id))
                    },
                }
            },
        }
    } else {
        if b0.sweep matches Some(sb) && sb.phys == recorded_phys(m0) {
            &&& r == Ok::<(), TeeError>(())
            &&& heap_unchanged(h0, h1)
            &&& bufs_except_sweep(b0, b1)
            &&& b1.sweep matches Some(nb) && b0.sweep matches Some(sb) && nb.phys == sb.phys
                && nb.words@ == swept_words(read, m0[1] == TaskId::AttackWriteMem.spec_to_byte(),
                sb.words@)
            &&& mem_completed(m0, m1, id)
        } else {
            &&& r == Err::<(), TeeError>(TeeError::AddressTranslationMiss)
            &&& m1 == m0
            &&& heap_unchanged(h0, h1)
            &&& bufs_unchanged(b0, b1)
        }
    }
}

/// The complete transition of the interrupt-correlation handler.
///
/// First call (payload flag clear): allocate one word, store the
/// sentinel in it once, record its physical address, set the flag and
/// signal completion. Later calls only repeat the completion signal —
/// the externally triggered interrupt this buffer correlates with is out
/// of scope here.
pub open spec fn ipi_post(m0: Seq<u8>, h0: Heap, b0: TaskBuffers, w: MappingWindow, m1: Seq<u8>,
    h1: Heap, b1: TaskBuffers, r: Result<(), TeeError>) -> bool {
    if m0[2] == 0 {
        match spec_alloc_start(h0, 4, 4) {
            None => {
                &&& r == Err::<(), TeeError>(TeeError::ResourceExhausted)
                &&& m1 == m0
                &&& heap_unchanged(h0, h1)
                &&& bufs_unchanged(b0, b1)
            },
            Some(start) => {
                match w.spec_translate(start as u64) {
                    None => {
                        &&& r == Err::<(), TeeError>(TeeError::AddressTranslationMiss)
                        &&& m1 == m0
                        &&& heap_advanced(h0, h1, start + 4 - h0.base_virt())
                        &&& bufs_unchanged(b0, b1)
                    },
                    Some(phys) => {
                        &&& r == Ok::<(), TeeError>(())
                        &&& heap_advanced(h0, h1, start + 4 - h0.base_virt())
                        &&& bufs_except_ipi(b0, b1)
                        &&& b1.ipi matches Some(nb) && nb.phys == phys && nb.words@ == seq![
                            IPI_SENTINEL,
                        ]
                        &&& mem_recorded(m0, m1, phys, Some(TaskId::AttackIpi))
                    },
                }
            },
        }
    } else {
        &&& r == Ok::<(), TeeError>(())
        &&& heap_unchanged(h0, h1)
        &&& bufs_unchanged(b0, b1)
        &&& mem_completed(m0, m1, TaskId::AttackIpi)
    }
}

/// The first call of the ping handler owes success: with the
/// buffer-initialized flag clear, an allocation that fits the heap and
/// an allocated address that translates in the window, no error is
/// permitted, the flag reads back as set, the buffer's physical address
/// is recorded little-endian in the payload, every 64-bit element of
/// the fresh buffer has been incremented once, and the completion
/// signal is in the header.
pub proof fn lemma_ping_first_call(m0: Seq<u8>, h0: Heap, b0: TaskBuffers, w: MappingWindow,
    m1: Seq<u8>, h1: Heap, b1: TaskBuffers, r: Result<(), TeeError>)
    requires
        ping_post(m0, h0, b0, w, m1, h1, b1, r),
        m0.len() >= 12,
        m0[2] == 0,
        spec_alloc_start(h0, h0.size() - 0x1000, 8) is Some,
        w.spec_translate(spec_alloc_start(h0, h0.size() - 0x1000, 8)->Some_0 as u64) is Some,
    ensures
        r == Ok::<(), TeeError>(()),
        m1.len() == m0.len(),
        m1[0] == STATUS_TEE_SEND,
        m1[1] == TaskId::Ping.spec_to_byte(),
        m1[2] == 1,
        ({
            let start = spec_alloc_start(h0, h0.size() - 0x1000, 8)->Some_0;
            let phys = w.spec_translate(start as u64)->Some_0;
            &&& recorded_phys(m1) == phys
            &&& b1.ping matches Some(nb) && nb.phys == phys && nb.words@.len() == (h0.size()
                - 0x1000) / 8 && all_ones64(nb.words@)
        }),
{
    let start = spec_alloc_start(h0, h0.size() - 0x1000, 8)->Some_0;
    let phys = w.spec_translate(start as u64)->Some_0;
    lemma_le_round_trip(m1, 4, phys);
}

/// Every later call of the ping handler keeps the recorded address:
/// with the flag already set and the recorded address resolving to the
/// handler's buffer, no error is permitted, the whole payload — the
/// flag and the recorded address among it — is unchanged, every buffer
/// element has been incremented once more, and the completion signal is
/// in the header.
pub proof fn lemma_ping_repeat_keeps_address(m0: Seq<u8>, h0: Heap, b0: TaskBuffers,
    w: MappingWindow, m1: Seq<u8>, h1: Heap, b1: TaskBuffers, r: Result<(), TeeError>)
    requires
        ping_post(m0, h0, b0, w, m1, h1, b1, r),
        m0.len() >= 12,
        m0[2] != 0,
        b0.ping matches Some(pb) && pb.phys == recorded_phys(m0),
    ensures
        r == Ok::<(), TeeError>(()),
        m1.len() == m0.len(),
        m1[0] == STATUS_TEE_SEND,
        m1[1] == TaskId::Ping.spec_to_byte(),
        forall|k: int| 2 <= k < m0.len() ==> m1[k] == m0[k],
        recorded_phys(m1) == recorded_phys(m0),
        b1.ping matches Some(nb) && b0.ping matches Some(pb) && nb.phys == pb.phys
            && nb.words@.len() == pb.words@.len() && (forall|j: int|
            0 <= j < pb.words@.len() ==> nb.words@[j] == add64(pb.words@[j], 1)),
{
}

/// The requirements every handler places on its inputs: a mailbox large
/// enough for the handler payload convention, and well-formed heap and
/// window models.
pub open spec fn handler_pre(c: SharedMemCommunicator, w: MappingWindow, h: Heap) -> bool {
    &&& c.wf()
    &&& c.mem().len() >= 12
    &&& w.wf()
    &&& h.wf()
}

/// The ping handler: fills (nearly) the whole heap on first call, and
/// increments every 64-bit element of its buffer on later calls, as the
/// baseline access pattern.
pub fn task_ping(communicator: &mut SharedMemCommunicator, mapper: &MappingWindow,
    heap: &mut Heap, buffers: &mut TaskBuffers) -> (r: Result<(), TeeError>)
    requires
        handler_pre(*old(communicator), *mapper, *old(heap)),
    ensures
        final(communicator).waiting() == old(communicator).waiting(),
        final(heap).wf(),
        ping_post(old(communicator).mem(), *old(heap), *old(buffers), *mapper,
            final(communicator).mem(), *final(heap), *final(buffers), r),
{
    let flag = communicator.get_payload_byte(PAYLOAD_FLAG_OFFSET);
    // Fill the whole heap with elements, but leave one page for other uses.
    let num_bytes: usize = heap.get_current_heap_size() - 0x1000;
    if flag == 0 {
        let virt = match heap.allocate(num_bytes, 8) {
            Some(v) => v,
            None => {
                return Err(TeeError::ResourceExhausted);
            },
        };
        let phys = match mapper.get_physical_address(virt) {
            Some(p) => p,
            None => {
                return Err(TeeError::AddressTranslationMiss);
            },
        };
        // Fresh heap memory is zeroed; the initial pass increments every
        // element once, so the buffer starts as all ones.
        let n_words: usize = num_bytes / 8;
        let mut words: Vec<u64> = Vec::new();
        let mut i: usize = 0;
        while i < n_words
            invariant
                0 <= i <= n_words,
                words@.len() == i as int,
                all_ones64(words@),
            decreases n_words - i,
        {
            words.push(1u64);
            i = i + 1;
        }
        communicator.write_payload_u64(PAYLOAD_ADDR_OFFSET, phys);
        buffers.ping = Some(BufferU64 { phys, words });
        communicator.set_payload_byte(PAYLOAD_FLAG_OFFSET, 1);
    } else {
        let phys = communicator.read_payload_u64(PAYLOAD_ADDR_OFFSET);
        // The buffer is found again through the recorded physical address.
        match &buffers.ping {
            Some(pb) => {
                if pb.phys != phys {
                    return Err(TeeError::AddressTranslationMiss);
                }
                let n = pb.words.len();
                let mut new_words: Vec<u64> = Vec::new();
                let mut i: usize = 0;
                while i < n
                    invariant
                        0 <= i <= n,
                        n == pb.words@.len(),
                        new_words@.len() == i as int,
                        forall|j: int|
                            0 <= j < i as int ==> new_words@[j] == add64(pb.words@[j], 1),
                    decreases n - i,
                {
                    new_words.push(pb.words[i].wrapping_add(1));
                    i = i + 1;
                }
                buffers.ping = Some(BufferU64 { phys, words: new_words });
            },
            None => {
                return Err(TeeError::AddressTranslationMiss);
            },
        }
    }
    communicator.set_task(TaskId::Ping);
    communicator.set_status(TeeCommand::TeeSend);
    Ok(())
}

/// The sweep shared by the three one-page access-pattern handlers: the
/// buffer work only, without the completion signal. `read` selects
/// whether the pass reads each element back; whether it stores anything
/// is decided by the task byte in the mailbox, so that the handler
/// variants differ only in the operation whose cost the counters
/// isolate.
pub fn task_mem_helper(communicator: &mut SharedMemCommunicator, mapper: &MappingWindow,
    heap: &mut Heap, buffers: &mut TaskBuffers, read: bool) -> (r: Result<(), TeeError>)
    requires
        handler_pre(*old(communicator), *mapper, *old(heap)),
    ensures
        final(communicator).waiting() == old(communicator).waiting(),
        final(heap).wf(),
        mem_helper_post(read, old(communicator).mem(), *old(heap), *old(buffers), *mapper,
            final(communicator).mem(), *final(heap), *final(buffers), r),
{
    let flag = communicator.get_payload_byte(PAYLOAD_FLAG_OFFSET);
    if flag == 0 {
        let virt = match heap.allocate(SWEEP_BUFFER_BYTES, 0x1000) {
            Some(v) => v,
            None => {
                return Err(TeeError::ResourceExhausted);
            },
        };
        let phys = match mapper.get_physical_address(virt) {
            Some(p) => p,
            None => {
                return Err(TeeError::AddressTranslationMiss);
            },
        };
        let mut words: Vec<u32> = Vec::new();
        let mut i: usize = 0;
        while i < 1024
            invariant
                0 <= i <= 1024,
                words@.len() == i as int,
                all_ones32(words@),
            decreases 1024 - i,
        {
            words.push(1u32);
            i = i + 1;
        }
        communicator.write_payload_u64(PAYLOAD_ADDR_OFFSET, phys);
        buffers.sweep = Some(BufferU32 { phys, words });
        communicator.set_payload_byte(PAYLOAD_FLAG_OFFSET, 1);
    } else {
        let phys = communicator.read_payload_u64(PAYLOAD_ADDR_OFFSET);
        let task = communicator.get_task();
        // The buffer is found again through the recorded physical address.
        match &buffers.sweep {
            Some(sb) => {
                if sb.phys != phys {
                    return Err(TeeError::AddressTranslationMiss);
                }
                if task == TaskId::AttackWriteMem {
                    let n = sb.words.len();
                    let mut new_words: Vec<u32> = Vec::new();
                    let mut i: usize = 0;
                    while i < n
                        invariant
                            0 <= i <= n,
                            n == sb.words@.len(),
                            new_words@.len() == i as int,
                            forall|j: int|
                                0 <= j < i as int ==> new_words@[j] == (if read {
                                    add32(sb.words@[j], 1)
                                } else {
                                    1u32
                                }),
                        decreases n - i,
                    {
                        let current: u32 = if read {
                            sb.words[i]
                        } else {
                            0
                        };
                        new_words.push(current.wrapping_add(1));
                        i = i + 1;
                    }
                    buffers.sweep = Some(BufferU32 { phys, words: new_words });
                    proof {
                        assert(final(buffers).sweep matches Some(nb) && nb.words@ =~= swept_words(
                            read, old(communicator).mem()[1]
                                == TaskId::AttackWriteMem.spec_to_byte(), sb.words@));
                    }
                }
                // A pure read or touch pass changes nothing the model
                // can observe.
            },
            None => {
                return Err(TeeError::AddressTranslationMiss);
            },
        }
    }
    Ok(())
}

/// The read-modify-write sweep: reads every element of the one-page
/// buffer and stores it incremented, then signals completion.
pub fn task_attack_write_mem(communicator: &mut SharedMemCommunicator, mapper: &MappingWindow,
    heap: &mut Heap, buffers: &mut TaskBuffers) -> (r: Result<(), TeeError>)
    requires
        handler_pre(*old(communicator), *mapper, *old(heap)),
    ensures
        final(communicator).waiting() == old(communicator).waiting(),
        final(heap).wf(),
        mem_task_post(true, TaskId::AttackWriteMem, old(communicator).mem(), *old(heap),
            *old(buffers), *mapper, final(communicator).mem(), *final(heap), *final(buffers), r),
{
    match task_mem_helper(communicator, mapper, heap, buffers, true) {
        Ok(()) => {},
        Err(e) => {
            return Err(e);
        },
    }
    communicator.set_task(TaskId::AttackWriteMem);
    communicator.set_status(TeeCommand::TeeSend);
    Ok(())
}

/// The read-only sweep: reads every element of the one-page buffer and
/// stores nothing, then signals completion.
pub fn task_attack_read_mem(communicator: &mut SharedMemCommunicator, mapper: &MappingWindow,
    heap: &mut Heap, buffers: &mut TaskBuffers) -> (r: Result<(), TeeError>)
    requires
        handler_pre(*old(communicator), *mapper, *old(heap)),
    ensures
        final(communicator).waiting() == old(communicator).waiting(),
        final(heap).wf(),
        mem_task_post(true, TaskId::AttackReadMem, old(communicator).mem(), *old(heap),
            *old(buffers), *mapper, final(communicator).mem(), *final(heap), *final(buffers), r),
{
    match task_mem_helper(communicator, mapper, heap, buffers, true) {
        Ok(()) => {},
        Err(e) => {
            return Err(e);
        },
    }
    communicator.set_task(TaskId::AttackReadMem);
    communicator.set_status(TeeCommand::TeeSend);
    Ok(())
}

/// The touch-only sweep: walks the one-page buffer without reading or
/// storing, then signals completion; the no-op baseline of the set.
pub fn task_attack_nop_mem(communicator: &mut SharedMemCommunicator, mapper: &MappingWindow,
    heap: &mut Heap, buffers: &mut TaskBuffers) -> (r: Result<(), TeeError>)
    requires
        handler_pre(*old(communicator), *mapper, *old(heap)),
    ensures
        final(communicator).waiting() == old(communicator).waiting(),
        final(heap).wf(),
        mem_task_post(false, TaskId::AttackNopMem, old(communicator).mem(), *old(heap),
            *old(buffers), *mapper, final(communicator).mem(), *final(heap), *final(buffers), r),
{
    match task_mem_helper(communicator, mapper, heap, buffers, false) {
        Ok(()) => {},
        Err(e) => {
            return Err(e);
        },
    }
    communicator.set_task(TaskId::AttackNopMem);
    communicator.set_status(TeeCommand::TeeSend);
    Ok(())
}

/// The interrupt-correlation handler: on first call stores a fixed
/// sentinel into a one-word buffer and records where it lies, then does
/// no further per-round work.
pub fn task_attack_ipi(communicator: &mut SharedMemCommunicator, mapper: &MappingWindow,
    heap: &mut Heap, buffers: &mut TaskBuffers) -> (r: Result<(), TeeError>)
    requires
        handler_pre(*old(communicator), *mapper, *old(heap)),
    ensures
        final(communicator).waiting() == old(communicator).waiting(),
        final(heap).wf(),
        ipi_post(old(communicator).mem(), *old(heap), *old(buffers), *mapper,
            final(communicator).mem(), *final(heap), *final(buffers), r),
{
    let flag = communicator.get_payload_byte(PAYLOAD_FLAG_OFFSET);
    if flag == 0 {
        let virt = match heap.allocate(4, 4) {
            Some(v) => v,
            None => {
                return Err(TeeError::ResourceExhausted);
            },
        };
        let phys = match mapper.get_physical_address(virt) {
            Some(p) => p,
            None => {
                return Err(TeeError::AddressTranslationMiss);
            },
        };
        let mut words: Vec<u32> = Vec::new();
        words.push(IPI_SENTINEL);
        proof {
            assert(words@ =~= seq![IPI_SENTINEL]);
        }
        communicator.write_payload_u64(PAYLOAD_ADDR_OFFSET, phys);
        buffers.ipi = Some(BufferU32 { phys, words });
        communicator.set_payload_byte(PAYLOAD_FLAG_OFFSET, 1);
    }
    communicator.set_task(TaskId::AttackIpi);
    communicator.set_status(TeeCommand::TeeSend);
    Ok(())
}

/// The immutable id-to-handler table, built once at startup and never
/// mutated afterwards.
pub struct TaskRegistry {
    ids: Vec<TaskId>,
}

impl TaskRegistry {
    /// The registered ids, in registration order.
    pub closed spec fn ids(self) -> Seq<TaskId> {
        self.ids@
    }

    /// Whether a handler is registered for `id`.
    pub open spec fn spec_is_registered(self, id: TaskId) -> bool {
        self.ids().contains(id)
    }

    /// Whether a handler is registered for `id`.
    pub fn is_registered(&self, id: TaskId) -> (r: bool)
        ensures
            r == self.spec_is_registered(id),
    {
        let n = self.ids.len();
        let mut i: usize = 0;
        while i < n
            invariant
                0 <= i <= n,
                n == self.ids@.len(),
                forall|j: int| 0 <= j < i as int ==> self.ids@[j] != id,
            decreases n - i,
        {
            if self.ids[i] == id {
                return true;
            }
            i = i + 1;
        }
        false
    }
}

/// Builds the task table: every memory-access task has its handler; only
/// the overflow id stays unregistered.
pub fn init_task_map() -> (r: TaskRegistry)
    ensures
        r.ids() == seq![
            TaskId::Ping,
            TaskId::AttackReadMem,
            TaskId::AttackWriteMem,
            TaskId::AttackNopMem,
            TaskId::AttackIpi,
        ],
        forall|id: TaskId| r.spec_is_registered(id) == (id != TaskId::Unknown),
{
    let mut ids: Vec<TaskId> = Vec::new();
    ids.push(TaskId::Ping);
    ids.push(TaskId::AttackReadMem);
    ids.push(TaskId::AttackWriteMem);
    ids.push(TaskId::AttackNopMem);
    ids.push(TaskId::AttackIpi);
    let r = TaskRegistry { ids };
    proof {
        assert(r.ids() =~= seq![
            TaskId::Ping,
            TaskId::AttackReadMem,
            TaskId::AttackWriteMem,
            TaskId::AttackNopMem,
            TaskId::AttackIpi,
        ]);
        assert forall|id: TaskId| r.spec_is_registered(id) == (id != TaskId::Unknown) by {
            if id == TaskId::Ping {
                assert(r.ids()[0] == id);
            } else if id == TaskId::AttackReadMem {
                assert(r.ids()[1] == id);
            } else if id == TaskId::AttackWriteMem {
                assert(r.ids()[2] == id);
            } else if id == TaskId::AttackNopMem {
                assert(r.ids()[3] == id);
            } else if id == TaskId::AttackIpi {
                assert(r.ids()[4] == id);
            } else {
                assert(forall|j: int|
                    0 <= j < r.ids().len() ==> r.ids()[j] != id) by {
                    assert(r.ids()[0] == TaskId::Ping);
                    assert(r.ids()[1] == TaskId::AttackReadMem);
                    assert(r.ids()[2] == TaskId::AttackWriteMem);
                    assert(r.ids()[3] == TaskId::AttackNopMem);
                    assert(r.ids()[4] == TaskId::AttackIpi);
                }
            }
        }
    }
    r
}

/// Dispatches one host request: looks the id up in the table and runs
/// its handler. An unregistered id is no error towards the host — it is
/// logged and ignored, and the mailbox stays untouched.
pub fn execute_task(registry: &TaskRegistry, task_id: TaskId,
    communicator: &mut SharedMemCommunicator, mapper: &MappingWindow, heap: &mut Heap,
    buffers: &mut TaskBuffers, events: &mut Vec<LogEvent>) -> (r: Result<(), TeeError>)
    requires
        handler_pre(*old(communicator), *mapper, *old(heap)),
    ensures
        final(communicator).waiting() == old(communicator).waiting(),
        final(heap).wf(),
        ({
            let handled = registry.spec_is_registered(task_id) && task_id != TaskId::Unknown;
            if handled {
                &&& final(events)@ == old(events)@
                &&& match task_id {
                    TaskId::Ping => ping_post(old(communicator).mem(), *old(heap), *old(buffers),
                        *mapper, final(communicator).mem(), *final(heap), *final(buffers), r),
                    TaskId::AttackReadMem => mem_task_post(true, TaskId::AttackReadMem,
                        old(communicator).mem(), *old(heap), *old(buffers), *mapper,
                        final(communicator).mem(), *final(heap), *final(buffers), r),
                    TaskId::AttackWriteMem => mem_task_post(true, TaskId::AttackWriteMem,
                        old(communicator).mem(), *old(heap), *old(buffers), *mapper,
                        final(communicator).mem(), *final(heap), *final(buffers), r),
                    TaskId::AttackNopMem => mem_task_post(false, TaskId::AttackNopMem,
                        old(communicator).mem(), *old(heap), *old(buffers), *mapper,
                        final(communicator).mem(), *final(heap), *final(buffers), r),
                    TaskId::AttackIpi => ipi_post(old(communicator).mem(), *old(heap),
                        *old(buffers), *mapper, final(communicator).mem(), *final(heap),
                        *final(buffers), r),
                    TaskId::Unknown => false,
                }
            } else {
                &&& r == Ok::<(), TeeError>(())
                &&& final(events)@ == old(events)@.push(LogEvent::NoTask)
                &&& final(communicator).mem() == old(communicator).mem()
                &&& heap_unchanged(*old(heap), *final(heap))
                &&& bufs_unchanged(*old(buffers), *final(buffers))
            }
        }),
{
    if registry.is_registered(task_id) {
        match task_id {
            TaskId::Ping => task_ping(communicator, mapper, heap, buffers),
            TaskId::AttackReadMem => task_attack_read_mem(communicator, mapper, heap, buffers),
            TaskId::AttackWriteMem => task_attack_write_mem(communicator, mapper, heap, buffers),
            TaskId::AttackNopMem => task_attack_nop_mem(communicator, mapper, heap, buffers),
            TaskId::AttackIpi => task_attack_ipi(communicator, mapper, heap, buffers),
            TaskId::Unknown => {
                events.push(LogEvent::NoTask);
                Ok(())
            },
        }
    } else {
        events.push(LogEvent::NoTask);
        Ok(())
    }
}

} // verus!

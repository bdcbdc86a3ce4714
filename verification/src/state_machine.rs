//! The phase-typed protocol state machine.
//!
//! One round services exactly one host command: wait for a command, arm
//! the counter window, dispatch the task, close the window, transmit
//! (a no-op — the handler already wrote its result), reset. Each phase
//! is its own marker type, so an operation can only be invoked in the
//! phase it belongs to, and the machine cycles
//! `Initialized → Polling → Locking → ExecutingTask → Unlocking →
//! TransmittingResult → Initialized` indefinitely, never servicing two
//! requests at once.
//!
//! Everything that was ambient machine state is an explicit context
//! threaded through the round: the task table, the mapping window, the
//! heap, the handler buffers, the vendor gate, the log sink and the
//! model-specific-register work the embedder still has to perform.

use vstd::prelude::*;

use crate::architectural::MsrWrite;
use crate::errors::TeeError;
use crate::events::LogEvent;
use crate::mem::heap_unchanged;
use crate::mem::Heap;
use crate::paging::MappingWindow;
use crate::pmc::read_pmcs_plan;
use crate::pmc::setup_pmcs_plan;
use crate::pmc::spec_setup_plan;
use crate::shared_mem_com::next_waiting;
use crate::shared_mem_com::poll_pass_events;
use crate::shared_mem_com::SharedMemCommunicator;
use crate::shared_mem_com::TeeCommand;
use crate::shared_mem_com::STATUS_HOST_SEND;
use crate::shared_mem_com::STATUS_TEE_READY;
use crate::shared_mem_com::STATUS_TEE_SEND;
use crate::task::bufs_unchanged;
use crate::task::execute_task;
use crate::task::ipi_post;
use crate::task::mem_task_post;
use crate::task::ping_post;
use crate::task::TaskBuffers;
use crate::task::TaskRegistry;
use crate::task_id::TaskId;

verus! {

/// The context object constructed once at startup and threaded through
/// the protocol loop; there is no ambient global state.
pub struct TeeContext {
    /// The immutable id-to-handler table.
    pub registry: TaskRegistry,
    /// The page-table window the handlers translate addresses with.
    pub mapper: MappingWindow,
    /// The allocate-or-fail heap service.
    pub heap: Heap,
    /// The lazily allocated handler buffers.
    pub buffers: TaskBuffers,
    /// Whether the vendor gate of the counter harness passed.
    pub intel: bool,
    /// The diagnostic log sink.
    pub events: Vec<LogEvent>,
    /// Register writes the embedder still has to perform, in order.
    pub msr_writes: Vec<MsrWrite>,
    /// Counter registers the embedder still has to sample, in order.
    pub msr_reads: Vec<u32>,
}

impl TeeContext {
    /// The models the handlers depend on are well-formed.
    pub open spec fn wf(self) -> bool {
        &&& self.mapper.wf()
        &&& self.heap.wf()
    }

    /// Builds the startup context: no buffers yet, empty sink and no
    /// pending register work.
    pub fn new(registry: TaskRegistry, mapper: MappingWindow, heap: Heap, intel: bool) -> (r: Self)
        requires
            mapper.wf(),
            heap.wf(),
        ensures
            r.wf(),
            r.registry == registry,
            r.mapper == mapper,
            r.heap == heap,
            r.buffers.ping is None,
            r.buffers.sweep is None,
            r.buffers.ipi is None,
            r.intel == intel,
            r.events@ == Seq::<LogEvent>::empty(),
            r.msr_writes@ == Seq::<MsrWrite>::empty(),
            r.msr_reads@ == Seq::<u32>::empty(),
    {
        TeeContext {
            registry,
            mapper,
            heap,
            buffers: TaskBuffers::new(),
            intel,
            events: Vec::new(),
            msr_writes: Vec::new(),
            msr_reads: Vec::new(),
        }
    }
}

/// Entry phase: readiness announced, no command seen yet.
#[derive(Debug, Default)]
pub struct StateInitialized;

/// A host command has been observed.
#[derive(Debug, Default)]
pub struct StatePolling;

/// The measurement window is armed. The name marks a logical phase
/// boundary only; no hardware lock exists here.
#[derive(Debug, Default)]
pub struct StateLocking;

/// The requested task has run.
#[derive(Debug, Default)]
pub struct StateExecuteApp;

/// The measurement window is closed and sampled.
#[derive(Debug, Default)]
pub struct StateUnlocking;

/// The result is with the host; the round is over.
#[derive(Debug, Default)]
pub struct StateTransmitResult;

/// The protocol machine: the mailbox plus the phase marker. Only the
/// operations of the current phase exist on it.
#[derive(Debug)]
pub struct StateMachine<S> {
    /// The shared-memory mailbox.
    pub communicator: SharedMemCommunicator,
    /// The phase marker.
    pub state: S,
}

/// What one polling pass yielded: the machine either advanced into the
/// polling phase on a host command, or stays ready and must be polled
/// again after the embedder's inter-check delay.
pub enum PollAttempt {
    /// The host handed a command over.
    Received(StateMachine<StatePolling>),
    /// No command yet; poll again.
    Pending(StateMachine<StateInitialized>),
}

impl StateMachine<StateInitialized> {
    /// Enters the round loop: announces readiness by writing the ready
    /// status and the unknown task id into the mailbox header.
    pub fn new(communicator: SharedMemCommunicator) -> (r: Self)
        requires
            communicator.wf(),
        ensures
            r.communicator.wf(),
            r.communicator.mem() == communicator.mem().update(0, STATUS_TEE_READY).update(
                1,
                TaskId::Unknown.spec_to_byte(),
            ),
            r.communicator.waiting() == communicator.waiting(),
    {
        let mut c = communicator;
        c.set_status(TeeCommand::TeeReady);
        c.set_task(TaskId::Unknown);
        StateMachine { communicator: c, state: StateInitialized }
    }

    /// One pass of the blocking wait for a host command. The real wait
    /// never times out: the embedder keeps repeating this pass, with its
    /// poll delay in between, until the host's send status appears — the
    /// only exit.
    pub fn start_polling(self, ctx: &mut TeeContext) -> (r: PollAttempt)
        requires
            self.communicator.wf(),
        ensures
            final(ctx).events@ == old(ctx).events@ + seq![LogEvent::Polling] + poll_pass_events(
                self.communicator.mem()[0],
                self.communicator.waiting(),
            ) + if self.communicator.mem()[0] == STATUS_HOST_SEND {
                seq![LogEvent::CommandReceived]
            } else {
                Seq::empty()
            },
            final(ctx).registry == old(ctx).registry,
            final(ctx).mapper == old(ctx).mapper,
            final(ctx).heap == old(ctx).heap,
            final(ctx).buffers == old(ctx).buffers,
            final(ctx).intel == old(ctx).intel,
            final(ctx).msr_writes == old(ctx).msr_writes,
            final(ctx).msr_reads == old(ctx).msr_reads,
            ({
                if self.communicator.mem()[0] == STATUS_HOST_SEND {
                    r matches PollAttempt::Received(m) && m.communicator.mem()
                        == self.communicator.mem() && !m.communicator.waiting()
                } else {
                    r matches PollAttempt::Pending(m) && m.communicator.mem()
                        == self.communicator.mem() && m.communicator.waiting() == next_waiting(
                        self.communicator.mem()[0],
                        self.communicator.waiting(),
                    )
                }
            }),
    {
        ctx.events.push(LogEvent::Polling);
        let mut c = self.communicator;
        let done = c.poll(&mut ctx.events);
        if done {
            ctx.events.push(LogEvent::CommandReceived);
            PollAttempt::Received(StateMachine { communicator: c, state: StatePolling })
        } else {
            PollAttempt::Pending(StateMachine { communicator: c, state: StateInitialized })
        }
    }
}

impl StateMachine<StatePolling> {
    /// Arms the counter measurement window: emits the register writes of
    /// the harness (none on a non-Intel machine) for the embedder to
    /// perform before the task runs.
    pub fn lock(self, ctx: &mut TeeContext) -> (r: StateMachine<StateLocking>)
        ensures
            r.communicator == self.communicator,
            final(ctx).msr_writes@ == old(ctx).msr_writes@ + if old(ctx).intel {
                spec_setup_plan()
            } else {
                Seq::<MsrWrite>::empty()
            },
            final(ctx).registry == old(ctx).registry,
            final(ctx).mapper == old(ctx).mapper,
            final(ctx).heap == old(ctx).heap,
            final(ctx).buffers == old(ctx).buffers,
            final(ctx).intel == old(ctx).intel,
            final(ctx).events == old(ctx).events,
            final(ctx).msr_reads == old(ctx).msr_reads,
    {
        let mut plan = setup_pmcs_plan(ctx.intel);
        ctx.msr_writes.append(&mut plan);
        StateMachine { communicator: self.communicator, state: StateLocking }
    }
}

impl StateMachine<StateLocking> {
    /// Reads the task id from the mailbox and dispatches it; the handler
    /// itself writes its id and the send status as its completion signal.
    /// Only an unrecoverable handler condition (exhaustion, a
    /// translation miss) surfaces as an error; an unregistered id is
    /// logged and ignored.
    pub fn execute(self, ctx: &mut TeeContext) -> (r: Result<
        StateMachine<StateExecuteApp>,
        TeeError,
    >)
        requires
            self.communicator.wf(),
            self.communicator.mem().len() >= 12,
            old(ctx).wf(),
        ensures
            final(ctx).wf(),
            final(ctx).registry == old(ctx).registry,
            final(ctx).mapper == old(ctx).mapper,
            final(ctx).intel == old(ctx).intel,
            final(ctx).msr_writes == old(ctx).msr_writes,
            final(ctx).msr_reads == old(ctx).msr_reads,
            ({
                let id = TaskId::spec_from_byte(self.communicator.mem()[1]);
                let handled = old(ctx).registry.spec_is_registered(id) && id != TaskId::Unknown;
                &&& final(ctx).events@ == old(ctx).events@ + seq![LogEvent::ExecuteTask(id)] + if handled {
                    Seq::empty()
                } else {
                    seq![LogEvent::NoTask]
                }
                &&& match r {
                    Ok(m) => {
                        &&& m.communicator.wf()
                        &&& m.communicator.waiting() == self.communicator.waiting()
                        &&& if handled {
                            &&& m.communicator.mem().len() == self.communicator.mem().len()
                            &&& m.communicator.mem()[0] == STATUS_TEE_SEND
                            &&& m.communicator.mem()[1] == id.spec_to_byte()
                            &&& match id {
                                TaskId::Ping => ping_post(self.communicator.mem(), old(ctx).heap,
                                    old(ctx).buffers, old(ctx).mapper, m.communicator.mem(),
                                    final(ctx).heap, final(ctx).buffers, Ok(())),
                                TaskId::AttackReadMem => mem_task_post(true,
                                    TaskId::AttackReadMem, self.communicator.mem(), old(ctx).heap,
                                    old(ctx).buffers, old(ctx).mapper, m.communicator.mem(),
                                    final(ctx).heap, final(ctx).buffers, Ok(())),
                                TaskId::AttackWriteMem => mem_task_post(true,
                                    TaskId::AttackWriteMem, self.communicator.mem(),
                                    old(ctx).heap, old(ctx).buffers, old(ctx).mapper,
                                    m.communicator.mem(), final(ctx).heap, final(ctx).buffers,
                                    Ok(())),
                                TaskId::AttackNopMem => mem_task_post(false, TaskId::AttackNopMem,
                                    self.communicator.mem(), old(ctx).heap, old(ctx).buffers,
                                    old(ctx).mapper, m.communicator.mem(), final(ctx).heap,
                                    final(ctx).buffers, Ok(())),
                                TaskId::AttackIpi => ipi_post(self.communicator.mem(),
                                    old(ctx).heap, old(ctx).buffers, old(ctx).mapper,
                                    m.communicator.mem(), final(ctx).heap, final(ctx).buffers,
                                    Ok(())),
                                TaskId::Unknown => false,
                            }
                        } else {
                            &&& m.communicator.mem() == self.communicator.mem()
                            &&& heap_unchanged(old(ctx).heap, final(ctx).heap)
                            &&& bufs_unchanged(old(ctx).buffers, final(ctx).buffers)
                        }
                    },
                    Err(e) => {
                        // Every handler leaves the mailbox untouched on an
                        // error, so the pre-state mailbox stands in for it
                        // here: the handler transition still pins when the
                        // error may occur at all.
                        &&& handled
                        &&& match id {
                            TaskId::Ping => ping_post(self.communicator.mem(), old(ctx).heap,
                                old(ctx).buffers, old(ctx).mapper, self.communicator.mem(),
                                final(ctx).heap, final(ctx).buffers, Err(e)),
                            TaskId::AttackReadMem => mem_task_post(true, TaskId::AttackReadMem,
                                self.communicator.mem(), old(ctx).heap, old(ctx).buffers,
                                old(ctx).mapper, self.communicator.mem(), final(ctx).heap,
                                final(ctx).buffers, Err(e)),
                            TaskId::AttackWriteMem => mem_task_post(true, TaskId::AttackWriteMem,
                                self.communicator.mem(), old(ctx).heap, old(ctx).buffers,
                                old(ctx).mapper, self.communicator.mem(), final(ctx).heap,
                                final(ctx).buffers, Err(e)),
                            TaskId::AttackNopMem => mem_task_post(false, TaskId::AttackNopMem,
                                self.communicator.mem(), old(ctx).heap, old(ctx).buffers,
                                old(ctx).mapper, self.communicator.mem(), final(ctx).heap,
                                final(ctx).buffers, Err(e)),
                            TaskId::AttackIpi => ipi_post(self.communicator.mem(), old(ctx).heap,
                                old(ctx).buffers, old(ctx).mapper, self.communicator.mem(),
                                final(ctx).heap, final(ctx).buffers, Err(e)),
                            TaskId::Unknown => false,
                        }
                    },
                }
            }),
    {
        let task = self.communicator.get_task();
        ctx.events.push(LogEvent::ExecuteTask(task));
        let mut c = self.communicator;
        let outcome = execute_task(&ctx.registry, task, &mut c, &ctx.mapper, &mut ctx.heap,
            &mut ctx.buffers, &mut ctx.events);
        match outcome {
            Ok(()) => Ok(StateMachine { communicator: c, state: StateExecuteApp }),
            Err(e) => Err(e),
        }
    }
}

impl StateMachine<StateExecuteApp> {
    /// Closes the measurement window: emits which counter registers the
    /// embedder samples and reports. The mailbox is not touched.
    pub fn unlock(self, ctx: &mut TeeContext) -> (r: StateMachine<StateUnlocking>)
        ensures
            r.communicator == self.communicator,
            final(ctx).events@ == old(ctx).events@ + seq![LogEvent::UnlockTee],
            final(ctx).msr_reads@ == old(ctx).msr_reads@ + if old(ctx).intel {
                seq![0xc1u32, 0xc2u32, 0xc3u32, 0xc4u32]
            } else {
                Seq::<u32>::empty()
            },
            final(ctx).registry == old(ctx).registry,
            final(ctx).mapper == old(ctx).mapper,
            final(ctx).heap == old(ctx).heap,
            final(ctx).buffers == old(ctx).buffers,
            final(ctx).intel == old(ctx).intel,
            final(ctx).msr_writes == old(ctx).msr_writes,
    {
        ctx.events.push(LogEvent::UnlockTee);
        let mut plan = read_pmcs_plan(ctx.intel);
        ctx.msr_reads.append(&mut plan);
        StateMachine { communicator: self.communicator, state: StateUnlocking }
    }
}

impl StateMachine<StateUnlocking> {
    /// A no-op by contract: the handler already wrote its result into
    /// the mailbox during dispatch.
    pub fn transmit(self) -> (r: StateMachine<StateTransmitResult>)
        ensures
            r.communicator == self.communicator,
    {
        StateMachine { communicator: self.communicator, state: StateTransmitResult }
    }
}

impl StateMachine<StateTransmitResult> {
    /// A no-op reset; the next round begins.
    pub fn reset(self) -> (r: StateMachine<StateInitialized>)
        ensures
            r.communicator == self.communicator,
    {
        StateMachine { communicator: self.communicator, state: StateInitialized }
    }
}

/// Drives one round of the protocol: one polling pass and, if the host
/// command is there, the whole phase cycle back to the entry phase.
/// Without a host command the machine comes back unchanged but for its
/// idle bookkeeping, and the embedder retries after its poll delay.
/// Exactly one host command is serviced per completed cycle; an error is
/// an unrecoverable handler condition, and the system halts on it.
pub fn run_state_machine(machine: StateMachine<StateInitialized>, ctx: &mut TeeContext) -> (r:
    Result<StateMachine<StateInitialized>, TeeError>)
    requires
        machine.communicator.wf(),
        machine.communicator.mem().len() >= 12,
        old(ctx).wf(),
    ensures
        final(ctx).wf(),
        final(ctx).registry == old(ctx).registry,
        final(ctx).mapper == old(ctx).mapper,
        final(ctx).intel == old(ctx).intel,
        ({
            let b = machine.communicator.mem()[0];
            let id = TaskId::spec_from_byte(machine.communicator.mem()[1]);
            let handled = old(ctx).registry.spec_is_registered(id) && id != TaskId::Unknown;
            if b != STATUS_HOST_SEND {
                &&& r matches Ok(m) && m.communicator.mem() == machine.communicator.mem()
                    && m.communicator.waiting() == next_waiting(b, machine.communicator.waiting())
                &&& final(ctx).events@ == old(ctx).events@ + seq![LogEvent::Polling]
                    + poll_pass_events(b, machine.communicator.waiting())
                &&& final(ctx).heap == old(ctx).heap
                &&& final(ctx).buffers == old(ctx).buffers
                &&& final(ctx).msr_writes == old(ctx).msr_writes
                &&& final(ctx).msr_reads == old(ctx).msr_reads
            } else {
                &&& final(ctx).msr_writes@ == old(ctx).msr_writes@ + (if old(ctx).intel {
                    spec_setup_plan()
                } else {
                    Seq::<MsrWrite>::empty()
                })
                &&& match r {
                    Ok(m) => {
                        &&& final(ctx).events@ == old(ctx).events@ + seq![
                            LogEvent::Polling,
                            LogEvent::MessageReceived,
                            LogEvent::CommandReceived,
                            LogEvent::ExecuteTask(id),
                        ] + (if handled {
                            Seq::empty()
                        } else {
                            seq![LogEvent::NoTask]
                        }) + seq![LogEvent::UnlockTee]
                        &&& final(ctx).msr_reads@ == old(ctx).msr_reads@ + (if old(ctx).intel {
                            seq![0xc1u32, 0xc2u32, 0xc3u32, 0xc4u32]
                        } else {
                            Seq::<u32>::empty()
                        })
                        &&& m.communicator.wf()
                        &&& !m.communicator.waiting()
                        &&& if handled {
                            &&& m.communicator.mem().len() == machine.communicator.mem().len()
                            &&& m.communicator.mem()[0] == STATUS_TEE_SEND
                            &&& m.communicator.mem()[1] == id.spec_to_byte()
                            &&& match id {
                                TaskId::Ping => ping_post(machine.communicator.mem(),
                                    old(ctx).heap, old(ctx).buffers, old(ctx).mapper,
                                    m.communicator.mem(), final(ctx).heap, final(ctx).buffers,
                                    Ok(())),
                                TaskId::AttackReadMem => mem_task_post(true,
                                    TaskId::AttackReadMem, machine.communicator.mem(),
                                    old(ctx).heap, old(ctx).buffers, old(ctx).mapper,
                                    m.communicator.mem(), final(ctx).heap, final(ctx).buffers,
                                    Ok(())),
                                TaskId::AttackWriteMem => mem_task_post(true,
                                    TaskId::AttackWriteMem, machine.communicator.mem(),
                                    old(ctx).heap, old(ctx).buffers, old(ctx).mapper,
                                    m.communicator.mem(), final(ctx).heap, final(ctx).buffers,
                                    Ok(())),
                                TaskId::AttackNopMem => mem_task_post(false, TaskId::AttackNopMem,
                                    machine.communicator.mem(), old(ctx).heap, old(ctx).buffers,
                                    old(ctx).mapper, m.communicator.mem(), final(ctx).heap,
                                    final(ctx).buffers, Ok(())),
                                TaskId::AttackIpi => ipi_post(machine.communicator.mem(),
                                    old(ctx).heap, old(ctx).buffers, old(ctx).mapper,
                                    m.communicator.mem(), final(ctx).heap, final(ctx).buffers,
                                    Ok(())),
                                TaskId::Unknown => false,
                            }
                        } else {
                            &&& m.communicator.mem() == machine.communicator.mem()
                            &&& heap_unchanged(old(ctx).heap, final(ctx).heap)
                            &&& bufs_unchanged(old(ctx).buffers, final(ctx).buffers)
                        }
                    },
                    Err(e) => {
                        // Handlers leave the mailbox untouched on an error,
                        // so the pre-state mailbox stands in for it here:
                        // the handler transition still pins when the error
                        // may occur at all.
                        &&& handled
                        &&& final(ctx).events@ == old(ctx).events@ + seq![
                            LogEvent::Polling,
                            LogEvent::MessageReceived,
                            LogEvent::CommandReceived,
                            LogEvent::ExecuteTask(id),
                        ]
                        &&& final(ctx).msr_reads == old(ctx).msr_reads
                        &&& match id {
                            TaskId::Ping => ping_post(machine.communicator.mem(), old(ctx).heap,
                                old(ctx).buffers, old(ctx).mapper, machine.communicator.mem(),
                                final(ctx).heap, final(ctx).buffers, Err(e)),
                            TaskId::AttackReadMem => mem_task_post(true, TaskId::AttackReadMem,
                                machine.communicator.mem(), old(ctx).heap, old(ctx).buffers,
                                old(ctx).mapper, machine.communicator.mem(), final(ctx).heap,
                                final(ctx).buffers, Err(e)),
                            TaskId::AttackWriteMem => mem_task_post(true, TaskId::AttackWriteMem,
                                machine.communicator.mem(), old(ctx).heap, old(ctx).buffers,
                                old(ctx).mapper, machine.communicator.mem(), final(ctx).heap,
                                final(ctx).buffers, Err(e)),
                            TaskId::AttackNopMem => mem_task_post(false, TaskId::AttackNopMem,
                                machine.communicator.mem(), old(ctx).heap, old(ctx).buffers,
                                old(ctx).mapper, machine.communicator.mem(), final(ctx).heap,
                                final(ctx).buffers, Err(e)),
                            TaskId::AttackIpi => ipi_post(machine.communicator.mem(),
                                old(ctx).heap, old(ctx).buffers, old(ctx).mapper,
                                machine.communicator.mem(), final(ctx).heap, final(ctx).buffers,
                                Err(e)),
                            TaskId::Unknown => false,
                        }
                    },
                }
            }
        }),
{
    let machine = match machine.start_polling(ctx) {
        PollAttempt::Received(m) => m,
        PollAttempt::Pending(m) => {
            return Ok(m);
        },
    };
    let machine = machine.lock(ctx);
    let machine = match machine.execute(ctx) {
        Ok(m) => m,
        Err(e) => {
            return Err(e);
        },
    };
    let machine = machine.unlock(ctx);
    let machine = machine.transmit();
    let machine = machine.reset();
    Ok(machine)
}

} // verus!

use tee_core::events::LogEvent;
use tee_core::mem::Heap;
use tee_core::paging::MappingWindow;
use tee_core::paging::PhysAddr;
use tee_core::shared_mem_com::SharedMemCommunicator;
use tee_core::shared_mem_com::TeeCommand;
use tee_core::state_machine::run_state_machine;
use tee_core::state_machine::StateInitialized;
use tee_core::state_machine::StateMachine;
use tee_core::state_machine::TeeContext;
use tee_core::task::init_task_map;
use tee_core::task_id::TaskId;

/// Startup as the embedder performs it: window adopted, heap mapped into
/// it, task table built, machine announcing readiness.
fn boot(intel: bool) -> (StateMachine<StateInitialized>, TeeContext) {
    let mut window = MappingWindow::new(0x4000_0000, vec![0u64; 512]);
    let heap_virt = window
        .map_phys_rel_base_addr(PhysAddr::new(0x0010_0000), 2, 0x3)
        .expect("the fresh window must have room for the heap")
        .val();
    let heap = Heap::init(heap_virt, 0x2000);
    let ctx = TeeContext::new(init_task_map(), window, heap, intel);
    let communicator = SharedMemCommunicator::from_raw_parts(vec![0u8; 32]);
    (StateMachine::new(communicator), ctx)
}

#[test]
fn new_machine_announces_readiness() {
    let (machine, _) = boot(false);
    assert_eq!(machine.communicator.get_status(), TeeCommand::TeeReady);
    assert_eq!(machine.communicator.get_task(), TaskId::Unknown);
}

#[test]
fn one_round_services_a_ping_end_to_end() {
    let (mut machine, mut ctx) = boot(false);
    // The host hands a ping over: status, task id, untouched payload.
    machine.communicator.write_status(0x11);
    machine.communicator.set_task(TaskId::Ping);
    assert_eq!(machine.communicator.get_payload_byte(0), 0);

    let machine = run_state_machine(machine, &mut ctx).expect("the round must complete");

    assert_eq!(machine.communicator.get_status(), TeeCommand::TeeSend);
    assert_eq!(machine.communicator.get_task(), TaskId::Ping);
    assert_eq!(machine.communicator.get_payload_byte(0), 1);
    assert_eq!(
        ctx.events,
        vec![
            LogEvent::Polling,
            LogEvent::MessageReceived,
            LogEvent::CommandReceived,
            LogEvent::ExecuteTask(TaskId::Ping),
            LogEvent::UnlockTee,
        ]
    );
}

#[test]
fn a_round_without_a_host_command_stays_ready() {
    let (machine, mut ctx) = boot(false);
    let machine = run_state_machine(machine, &mut ctx).expect("waiting is not an error");
    // Nothing was serviced; the machine still announces readiness.
    assert_eq!(machine.communicator.get_status(), TeeCommand::TeeReady);
    assert_eq!(machine.communicator.get_task(), TaskId::Unknown);
    assert_eq!(
        ctx.events,
        vec![LogEvent::Polling, LogEvent::WaitingForResponse]
    );
    assert!(ctx.msr_writes.is_empty());
    assert!(ctx.msr_reads.is_empty());
}

#[test]
fn an_unknown_task_byte_is_logged_and_ignored() {
    let (mut machine, mut ctx) = boot(false);
    machine.communicator.write_status(0x11);
    // Raw task byte 0x7c decodes to the overflow id.
    machine.communicator.write_mem(&[0x11, 0x7c], 0);
    let machine = run_state_machine(machine, &mut ctx).expect("an unknown id is no error");
    // The mailbox is untouched: the host still sees its own request.
    assert_eq!(machine.communicator.get_status(), TeeCommand::HostSend);
    assert_eq!(machine.communicator.get_payload_byte(0), 0);
    assert_eq!(
        ctx.events,
        vec![
            LogEvent::Polling,
            LogEvent::MessageReceived,
            LogEvent::CommandReceived,
            LogEvent::ExecuteTask(TaskId::Unknown),
            LogEvent::NoTask,
            LogEvent::UnlockTee,
        ]
    );
}

#[test]
fn two_rounds_reuse_the_recorded_buffer() {
    let (mut machine, mut ctx) = boot(false);
    machine.communicator.write_status(0x11);
    machine.communicator.set_task(TaskId::AttackReadMem);
    let mut machine = run_state_machine(machine, &mut ctx).expect("first round");
    let recorded = machine.communicator.read_payload_u64(2);
    assert_eq!(recorded, 0x0010_0000);

    // The host asks again; the handler must find the same buffer.
    machine.communicator.write_status(0x11);
    machine.communicator.set_task(TaskId::AttackReadMem);
    let machine = run_state_machine(machine, &mut ctx).expect("second round");
    assert_eq!(machine.communicator.read_payload_u64(2), recorded);
    assert_eq!(machine.communicator.get_status(), TeeCommand::TeeSend);
}

#[test]
fn an_intel_round_emits_the_counter_work() {
    let (mut machine, mut ctx) = boot(true);
    machine.communicator.write_status(0x11);
    machine.communicator.set_task(TaskId::Ping);
    let _ = run_state_machine(machine, &mut ctx).expect("the round must complete");
    // The embedder is asked to arm four counters (three writes each)
    // behind the one PEBS frontend write, and to sample four registers.
    assert_eq!(ctx.msr_writes.len(), 13);
    assert_eq!(ctx.msr_writes[0].msr, 0x3f7);
    assert_eq!(ctx.msr_writes[0].value, 0x12);
    assert_eq!(ctx.msr_reads, vec![0xc1, 0xc2, 0xc3, 0xc4]);
}

#[test]
fn a_non_intel_round_leaves_the_counters_alone() {
    let (mut machine, mut ctx) = boot(false);
    machine.communicator.write_status(0x11);
    machine.communicator.set_task(TaskId::Ping);
    let _ = run_state_machine(machine, &mut ctx).expect("the round must complete");
    assert!(ctx.msr_writes.is_empty());
    assert!(ctx.msr_reads.is_empty());
}

#[test]
fn phase_methods_compose_into_one_round() {
    let (mut machine, mut ctx) = boot(false);
    machine.communicator.write_status(0x11);
    machine.communicator.set_task(TaskId::AttackIpi);
    let machine = match machine.start_polling(&mut ctx) {
        tee_core::state_machine::PollAttempt::Received(m) => m,
        tee_core::state_machine::PollAttempt::Pending(_) => panic!("a command was pending"),
    };
    let machine = machine.lock(&mut ctx);
    let machine = machine.execute(&mut ctx).expect("the handler must run");
    let machine = machine.unlock(&mut ctx);
    let machine = machine.transmit().reset();
    assert_eq!(machine.communicator.get_status(), TeeCommand::TeeSend);
    assert_eq!(machine.communicator.get_task(), TaskId::AttackIpi);
}

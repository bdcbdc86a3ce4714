use tee_core::errors::TeeError;
use tee_core::events::LogEvent;
use tee_core::mem::Heap;
use tee_core::paging::MappingWindow;
use tee_core::paging::PhysAddr;
use tee_core::shared_mem_com::SharedMemCommunicator;
use tee_core::shared_mem_com::TeeCommand;
use tee_core::task::execute_task;
use tee_core::task::init_task_map;
use tee_core::task::task_attack_ipi;
use tee_core::task::task_attack_read_mem;
use tee_core::task::task_attack_write_mem;
use tee_core::task::task_ping;
use tee_core::task::TaskBuffers;
use tee_core::task_id::TaskId;

const HEAP_PHYS: u64 = 0x0010_0000;

/// A window with the heap's pages mapped, and a heap over their virtual
/// addresses, as the startup code would leave them.
fn mapped_heap(heap_bytes: usize) -> (MappingWindow, Heap) {
    let mut window = MappingWindow::new(0x4000_0000, vec![0u64; 512]);
    let pages = heap_bytes.div_ceil(4096);
    let virt = window
        .map_phys_rel_base_addr(PhysAddr::new(HEAP_PHYS), pages, 0x3)
        .expect("the fresh window must have room for the heap");
    (window, Heap::init(virt.val(), heap_bytes))
}

fn mailbox() -> SharedMemCommunicator {
    SharedMemCommunicator::from_raw_parts(vec![0u8; 32])
}

#[test]
fn ping_first_call_sets_flag_and_records_the_buffer_address() {
    let (window, mut heap) = mapped_heap(0x2000);
    let mut m = mailbox();
    let mut buffers = TaskBuffers::new();
    assert_eq!(m.get_payload_byte(0), 0);
    task_ping(&mut m, &window, &mut heap, &mut buffers).unwrap();
    // The initialized flag reads back as set.
    assert_eq!(m.get_payload_byte(0), 1);
    // The recorded address is the physical address of the heap start.
    assert_eq!(m.read_payload_u64(2), HEAP_PHYS);
    // Completion signal: task id, then send status.
    assert_eq!(m.get_task(), TaskId::Ping);
    assert_eq!(m.get_status(), TeeCommand::TeeSend);
}

#[test]
fn ping_second_call_keeps_the_recorded_address() {
    let (window, mut heap) = mapped_heap(0x2000);
    let mut m = mailbox();
    let mut buffers = TaskBuffers::new();
    task_ping(&mut m, &window, &mut heap, &mut buffers).unwrap();
    let recorded = m.read_payload_u64(2);
    m.write_status(0x11);
    task_ping(&mut m, &window, &mut heap, &mut buffers).unwrap();
    assert_eq!(m.get_payload_byte(0), 1);
    assert_eq!(m.read_payload_u64(2), recorded);
    assert_eq!(m.get_status(), TeeCommand::TeeSend);
}

#[test]
fn read_mem_first_call_sets_flag_and_records_the_buffer_address() {
    let (window, mut heap) = mapped_heap(0x2000);
    let mut m = mailbox();
    let mut buffers = TaskBuffers::new();
    task_attack_read_mem(&mut m, &window, &mut heap, &mut buffers).unwrap();
    assert_eq!(m.get_payload_byte(0), 1);
    // One page, page-aligned: the bump heap starts page-aligned here.
    assert_eq!(m.read_payload_u64(2), HEAP_PHYS);
    assert_eq!(m.get_task(), TaskId::AttackReadMem);
    assert_eq!(m.get_status(), TeeCommand::TeeSend);
    let recorded = m.read_payload_u64(2);
    task_attack_read_mem(&mut m, &window, &mut heap, &mut buffers).unwrap();
    assert_eq!(m.read_payload_u64(2), recorded);
}

#[test]
fn write_mem_task_signals_its_own_id() {
    let (window, mut heap) = mapped_heap(0x2000);
    let mut m = mailbox();
    let mut buffers = TaskBuffers::new();
    // Dispatch convention: the host's task byte is in the mailbox.
    m.set_task(TaskId::AttackWriteMem);
    task_attack_write_mem(&mut m, &window, &mut heap, &mut buffers).unwrap();
    assert_eq!(m.get_task(), TaskId::AttackWriteMem);
    assert_eq!(m.get_status(), TeeCommand::TeeSend);
    assert_eq!(m.get_payload_byte(0), 1);
}

#[test]
fn ipi_task_records_once_and_then_only_signals() {
    let (window, mut heap) = mapped_heap(0x2000);
    let mut m = mailbox();
    let mut buffers = TaskBuffers::new();
    task_attack_ipi(&mut m, &window, &mut heap, &mut buffers).unwrap();
    assert_eq!(m.get_payload_byte(0), 1);
    let recorded = m.read_payload_u64(2);
    assert_eq!(recorded, HEAP_PHYS);
    assert_eq!(m.get_task(), TaskId::AttackIpi);
    assert_eq!(m.get_status(), TeeCommand::TeeSend);
    m.write_status(0x11);
    task_attack_ipi(&mut m, &window, &mut heap, &mut buffers).unwrap();
    assert_eq!(m.read_payload_u64(2), recorded);
    assert_eq!(m.get_status(), TeeCommand::TeeSend);
}

#[test]
fn ping_increments_every_element_each_round() {
    let (window, mut heap) = mapped_heap(0x2000);
    let mut m = mailbox();
    let mut buffers = TaskBuffers::new();
    task_ping(&mut m, &window, &mut heap, &mut buffers).unwrap();
    // Heap size minus one page, as 64-bit elements, all incremented once.
    let words = &buffers.ping.as_ref().unwrap().words;
    assert_eq!(words.len(), 0x1000 / 8);
    assert!(words.iter().all(|&w| w == 1));
    task_ping(&mut m, &window, &mut heap, &mut buffers).unwrap();
    assert!(buffers.ping.as_ref().unwrap().words.iter().all(|&w| w == 2));
}

#[test]
fn sweep_variants_differ_only_in_the_stores() {
    let (window, mut heap) = mapped_heap(0x2000);
    let mut m = mailbox();
    let mut buffers = TaskBuffers::new();
    // First round allocates the one-page buffer filled with ones.
    m.set_task(TaskId::AttackWriteMem);
    task_attack_write_mem(&mut m, &window, &mut heap, &mut buffers).unwrap();
    let words = &buffers.sweep.as_ref().unwrap().words;
    assert_eq!(words.len(), 1024);
    assert!(words.iter().all(|&w| w == 1));
    // A write sweep stores every element incremented.
    m.set_task(TaskId::AttackWriteMem);
    task_attack_write_mem(&mut m, &window, &mut heap, &mut buffers).unwrap();
    assert!(buffers.sweep.as_ref().unwrap().words.iter().all(|&w| w == 2));
    // A read sweep stores nothing.
    m.set_task(TaskId::AttackReadMem);
    task_attack_read_mem(&mut m, &window, &mut heap, &mut buffers).unwrap();
    assert!(buffers.sweep.as_ref().unwrap().words.iter().all(|&w| w == 2));
}

#[test]
fn handler_on_unmapped_heap_reports_a_translation_miss() {
    // A window with nothing mapped: the buffer address cannot be found.
    let window = MappingWindow::new(0x4000_0000, vec![0u64; 512]);
    let mut heap = Heap::init(0x4018_0000, 0x2000);
    let mut m = mailbox();
    let mut buffers = TaskBuffers::new();
    let r = task_ping(&mut m, &window, &mut heap, &mut buffers);
    assert_eq!(r, Err(TeeError::AddressTranslationMiss));
    // The mailbox was not signalled.
    assert_eq!(m.get_status(), TeeCommand::NoCommand);
    assert_eq!(m.get_payload_byte(0), 0);
}

#[test]
fn handler_on_exhausted_heap_reports_resource_exhaustion() {
    let (window, _) = mapped_heap(0x2000);
    // A heap whose start is not page-aligned: rounding up for the
    // page-aligned sweep buffer overshoots the single remaining page.
    let mut heap = Heap::init(0x4018_0000 + 0x800, 0x1000);
    let mut m = mailbox();
    let mut buffers = TaskBuffers::new();
    let r = task_attack_read_mem(&mut m, &window, &mut heap, &mut buffers);
    assert_eq!(r, Err(TeeError::ResourceExhausted));
    assert_eq!(m.get_status(), TeeCommand::NoCommand);
}

#[test]
fn second_call_without_a_matching_buffer_is_a_miss() {
    let (window, mut heap) = mapped_heap(0x2000);
    let mut m = mailbox();
    let mut buffers = TaskBuffers::new();
    // Claim the buffer exists although none was ever allocated.
    m.set_payload_byte(0, 1);
    let r = task_ping(&mut m, &window, &mut heap, &mut buffers);
    assert_eq!(r, Err(TeeError::AddressTranslationMiss));
}

#[test]
fn registry_registers_every_task_but_the_overflow_id() {
    let registry = init_task_map();
    assert!(registry.is_registered(TaskId::Ping));
    assert!(registry.is_registered(TaskId::AttackReadMem));
    assert!(registry.is_registered(TaskId::AttackWriteMem));
    assert!(registry.is_registered(TaskId::AttackNopMem));
    assert!(registry.is_registered(TaskId::AttackIpi));
    assert!(!registry.is_registered(TaskId::Unknown));
}

#[test]
fn dispatch_of_an_unregistered_id_logs_no_task_and_changes_nothing() {
    let registry = init_task_map();
    let (window, mut heap) = mapped_heap(0x2000);
    let mut m = mailbox();
    let mut buffers = TaskBuffers::new();
    let mut events: Vec<LogEvent> = Vec::new();
    let r = execute_task(
        &registry,
        TaskId::Unknown,
        &mut m,
        &window,
        &mut heap,
        &mut buffers,
        &mut events,
    );
    assert_eq!(r, Ok(()));
    assert_eq!(events, vec![LogEvent::NoTask]);
    assert_eq!(m.get_status(), TeeCommand::NoCommand);
    assert_eq!(m.get_payload_byte(0), 0);
}

#[test]
fn dispatch_runs_the_registered_handler() {
    let registry = init_task_map();
    let (window, mut heap) = mapped_heap(0x2000);
    let mut m = mailbox();
    let mut buffers = TaskBuffers::new();
    let mut events: Vec<LogEvent> = Vec::new();
    m.set_task(TaskId::AttackNopMem);
    let r = execute_task(
        &registry,
        TaskId::AttackNopMem,
        &mut m,
        &window,
        &mut heap,
        &mut buffers,
        &mut events,
    );
    assert_eq!(r, Ok(()));
    assert!(events.is_empty());
    assert_eq!(m.get_task(), TaskId::AttackNopMem);
    assert_eq!(m.get_status(), TeeCommand::TeeSend);
    assert_eq!(m.get_payload_byte(0), 1);
}

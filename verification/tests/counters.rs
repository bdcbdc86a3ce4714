use tee_core::architectural::ArchitecturalEventCounter;
use tee_core::architectural::IA32_PERFEVTSEL_E;
use tee_core::architectural::IA32_PERFEVTSEL_EN;
use tee_core::architectural::IA32_PERFEVTSEL_OS;
use tee_core::architectural::IA32_PERFEVTSEL_USR;
use tee_core::pmc::read_pmcs_plan;
use tee_core::pmc::setup_pmcs;
use tee_core::pmc::setup_pmcs_plan;
use tee_core::pmc::read_and_print_pmcs;

#[test]
fn counter_struct_keeps_index_and_configuration() {
    let mut c = ArchitecturalEventCounter::new(2);
    assert_eq!(c.pmc_index, 2);
    assert_eq!(c.event_config, 0);
    c.set_configuration(0xdead);
    c.set_index(5);
    assert_eq!(c.pmc_index, 5);
    assert_eq!(c.event_config, 0xdead);
    let d = ArchitecturalEventCounter::default();
    assert_eq!(d.pmc_index, 0);
    assert_eq!(d.event_config, 0);
}

#[test]
fn activation_writes_stop_reset_and_start_the_counter() {
    let mut c = ArchitecturalEventCounter::new(5);
    c.set_configuration(0x1234);
    let writes = c.activate_counter(7);
    assert_eq!(writes.len(), 3);
    // Pair 5: event select 0x18b, counter 0xc6.
    assert_eq!((writes[0].msr, writes[0].value), (0x18b, 0));
    assert_eq!((writes[1].msr, writes[1].value), (0xc6, 7));
    assert_eq!(writes[2].msr, 0x18b);
    assert_eq!(writes[2].value, 0x1234 | IA32_PERFEVTSEL_EN | IA32_PERFEVTSEL_E);
}

#[test]
fn an_index_past_the_architectural_pairs_yields_no_writes() {
    let c = ArchitecturalEventCounter::new(8);
    assert!(c.activate_counter(0).is_empty());
    assert_eq!(c.read_pcm_msr(), None);
    assert_eq!(ArchitecturalEventCounter::new(3).read_pcm_msr(), Some(0xc4));
}

#[test]
fn the_intel_setup_plan_is_exact() {
    let plan = setup_pmcs_plan(true);
    assert_eq!(plan.len(), 13);
    // The PEBS frontend is programmed before any counter is armed.
    assert_eq!((plan[0].msr, plan[0].value), (0x3f7, 0x12));
    let both = IA32_PERFEVTSEL_OS | IA32_PERFEVTSEL_USR;
    let armed = IA32_PERFEVTSEL_EN | IA32_PERFEVTSEL_E;
    let configs = [
        0xc6 | 0x01 << 8 | both,
        0x51 | 0x01 << 8 | both,
        0xd1 | 0x02 << 8 | both,
        0xd1 | 0x04 << 8 | both,
    ];
    for k in 0..4u64 {
        let evtsel = 0x186 + k as u32;
        let pmc = 0xc1 + k as u32;
        let base = 1 + 3 * k as usize;
        assert_eq!((plan[base].msr, plan[base].value), (evtsel, 0));
        assert_eq!((plan[base + 1].msr, plan[base + 1].value), (pmc, 0));
        assert_eq!(
            (plan[base + 2].msr, plan[base + 2].value),
            (evtsel, configs[k as usize] | armed)
        );
    }
}

#[test]
fn a_non_intel_machine_gets_an_empty_plan() {
    assert!(setup_pmcs_plan(false).is_empty());
    assert!(read_pmcs_plan(false).is_empty());
}

#[test]
fn the_read_plan_names_the_four_counter_registers() {
    assert_eq!(read_pmcs_plan(true), vec![0xc1, 0xc2, 0xc3, 0xc4]);
}

#[test]
fn the_vendor_gated_setup_matches_one_of_the_two_plans() {
    // Whatever this machine's CPU reports, the result is either the full
    // Intel plan or nothing at all.
    let plan = setup_pmcs();
    if plan.is_empty() {
        assert!(read_and_print_pmcs().is_empty());
    } else {
        assert_eq!(plan, setup_pmcs_plan(true));
        assert_eq!(read_and_print_pmcs(), read_pmcs_plan(true));
    }
}

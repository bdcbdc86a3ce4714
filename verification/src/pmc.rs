//! The performance-counter harness of the protocol loop.
//!
//! Vendor-gated: the counters are Intel-specific, so on any other CPU the
//! harness is a no-op. Arming the measurement window means programming a
//! fixed set of four counters with cache-event configurations; reading it
//! means sampling their counter registers. Both are emitted as data — the
//! registers to write or read, in order — because touching
//! model-specific registers is the embedder's privilege. Changing which
//! events are monitored means redeploying this configuration, not calling
//! a runtime interface.

use vstd::prelude::*;

use crate::architectural::ArchitecturalEventCounter;
use crate::architectural::MsrWrite;
use crate::architectural::EVENT_ICELAKE_L1D_REPLACEMENT;
use crate::architectural::IA32_PERFEVTSEL_OS;
use crate::architectural::IA32_PERFEVTSEL_USR;

verus! {

/// Number of counters the harness arms.
pub const COUNTER_NUM: usize = 4;

/// Address of the PEBS frontend register, which must be programmed for
/// the L1 instruction-stall event to count.
pub const MSR_PEBS_FRONTEND: u32 = 0x3f7;

/// Value written to the PEBS frontend register for the stall event.
pub const PEBS_FRONTEND_L1I_CONF: u64 = 0x12;

/// Event: L1 instruction-cache stalls.
pub const EVENT_L1I_STALLS: u64 = 0xc6 | 0x01 << 8;

/// Event: retired loads whose source was an L2 hit.
pub const EVENT_L2_HIT: u64 = 0xd1 | 0x02 << 8;

/// Event: retired loads whose source was an L3 hit.
pub const EVENT_L3_HIT: u64 = 0xd1 | 0x04 << 8;

/// Relies on `x86::cpuid::CpuId::get_vendor_info` (the `raw_cpuid`
/// crate): this machine's processor vendor identification string, or
/// nothing where the identification leaf is unsupported. The result
/// depends on the machine, so nothing is promised of it.
#[verifier::external_body]
fn cpu_vendor_string() -> Option<String> {
    x86::cpuid::CpuId::new().get_vendor_info().map(|vendor| vendor.as_str().to_string())
}

/// Whether this machine's processor identifies itself with Intel's
/// published vendor string.
fn cpu_vendor_is_intel() -> bool {
    match cpu_vendor_string() {
        Some(vendor) => vendor == "GenuineIntel".to_owned(),
        None => false,
    }
}

/// The configuration of the four armed counters, by position: stalls,
/// L1 data replacements, L2 hits, L3 hits, all counted in both user and
/// kernel privilege levels.
pub open spec fn spec_counter_config(k: int) -> u64 {
    if k == 0 {
        EVENT_L1I_STALLS | IA32_PERFEVTSEL_OS | IA32_PERFEVTSEL_USR
    } else if k == 1 {
        EVENT_ICELAKE_L1D_REPLACEMENT | IA32_PERFEVTSEL_OS | IA32_PERFEVTSEL_USR
    } else if k == 2 {
        EVENT_L2_HIT | IA32_PERFEVTSEL_OS | IA32_PERFEVTSEL_USR
    } else {
        EVENT_L3_HIT | IA32_PERFEVTSEL_OS | IA32_PERFEVTSEL_USR
    }
}

/// The full register-write sequence that arms the measurement window on
/// an Intel machine: the PEBS frontend programming, then the activation
/// of each of the four counters, reset to zero.
pub open spec fn spec_setup_plan() -> Seq<MsrWrite> {
    seq![MsrWrite { msr: MSR_PEBS_FRONTEND, value: PEBS_FRONTEND_L1I_CONF }]
        + spec_counter(0).spec_activation(0) + spec_counter(1).spec_activation(0) + spec_counter(
        2,
    ).spec_activation(0) + spec_counter(3).spec_activation(0)
}

/// Counter `k` of the armed set, as configured by the harness.
pub open spec fn spec_counter(k: int) -> ArchitecturalEventCounter {
    ArchitecturalEventCounter { pmc_index: k as u8, event_config: spec_counter_config(k) }
}

/// Computes the write sequence that arms the four architectural counters.
fn setup_architecturial() -> (r: Vec<MsrWrite>)
    ensures
        r@ == spec_setup_plan(),
{
    let mut c0 = ArchitecturalEventCounter::new(0);
    let mut c1 = ArchitecturalEventCounter::new(1);
    let mut c2 = ArchitecturalEventCounter::new(2);
    let mut c3 = ArchitecturalEventCounter::new(3);

    let mut plan: Vec<MsrWrite> = Vec::new();
    c0.set_configuration(EVENT_L1I_STALLS | IA32_PERFEVTSEL_OS | IA32_PERFEVTSEL_USR);
    // The stall event only counts once the PEBS frontend is programmed.
    plan.push(MsrWrite { msr: MSR_PEBS_FRONTEND, value: PEBS_FRONTEND_L1I_CONF });
    c1.set_configuration(EVENT_ICELAKE_L1D_REPLACEMENT | IA32_PERFEVTSEL_OS | IA32_PERFEVTSEL_USR);
    c2.set_configuration(EVENT_L2_HIT | IA32_PERFEVTSEL_OS | IA32_PERFEVTSEL_USR);
    c3.set_configuration(EVENT_L3_HIT | IA32_PERFEVTSEL_OS | IA32_PERFEVTSEL_USR);

    let mut w0 = c0.activate_counter(0);
    plan.append(&mut w0);
    let mut w1 = c1.activate_counter(0);
    plan.append(&mut w1);
    let mut w2 = c2.activate_counter(0);
    plan.append(&mut w2);
    let mut w3 = c3.activate_counter(0);
    plan.append(&mut w3);
    proof {
        assert(plan@ =~= spec_setup_plan());
    }
    plan
}

/// The write sequence that arms the measurement window, given whether
/// the vendor gate passed: the full plan on Intel, nothing otherwise.
pub fn setup_pmcs_plan(intel: bool) -> (r: Vec<MsrWrite>)
    ensures
        r@ == if intel {
            spec_setup_plan()
        } else {
            Seq::<MsrWrite>::empty()
        },
{
    if !intel {
        return Vec::new();
    }
    setup_architecturial()
}

/// Arms the measurement window on this machine: checks the CPU vendor
/// once and computes the write sequence — the full plan or, on a
/// non-Intel machine, none at all.
pub fn setup_pmcs() -> (r: Vec<MsrWrite>)
    ensures
        r@ == spec_setup_plan() || r@ == Seq::<MsrWrite>::empty(),
{
    setup_pmcs_plan(cpu_vendor_is_intel())
}

/// The counter registers the embedder samples and reports after a round,
/// in positional order, given whether the vendor gate passed.
pub fn read_pmcs_plan(intel: bool) -> (r: Vec<u32>)
    ensures
        r@ == if intel {
            seq![0xc1u32, 0xc2u32, 0xc3u32, 0xc4u32]
        } else {
            Seq::<u32>::empty()
        },
{
    let mut r: Vec<u32> = Vec::new();
    if !intel {
        return r;
    }
    let mut x: u8 = 0;
    while x < 4
        invariant
            0 <= x <= 4,
            r@.len() == x as int,
            forall|j: int| 0 <= j < x as int ==> r@[j] == (0xc1 + j) as u32,
        decreases 4 - x,
    {
        let mut c = ArchitecturalEventCounter::new(0);
        c.set_index(x);
        if let Some(msr) = c.read_pcm_msr() {
            r.push(msr);
        }
        x = x + 1;
    }
    proof {
        assert(r@ =~= seq![0xc1u32, 0xc2u32, 0xc3u32, 0xc4u32]);
    }
    r
}

/// Samples the measurement window on this machine: checks the CPU vendor
/// once and names the counter registers to read, in report order — or
/// none at all on a non-Intel machine.
pub fn read_and_print_pmcs() -> (r: Vec<u32>)
    ensures
        r@ == seq![0xc1u32, 0xc2u32, 0xc3u32, 0xc4u32] || r@ == Seq::<u32>::empty(),
{
    read_pmcs_plan(cpu_vendor_is_intel())
}

} // verus!

//! Architectural general-purpose performance counters.
//!
//! A processor implements several architectural counters `IA32_PMCx`,
//! each programmed through its companion `IA32_PERFEVTSELx` register.
//! Programming a counter means writing model-specific registers, which
//! only privileged machine code can do; this module therefore computes
//! the exact write sequence as data and hands it to the embedder to
//! perform in order.

use vstd::prelude::*;

verus! {

/// USR bit in PERFEVTSEL. When set, the counter is incremented when the
/// logical core is in privilege level 1, 2 or 3.
pub const IA32_PERFEVTSEL_USR: u64 = 0x1 << 16;

/// OS bit of PERFEVTSEL. When set, the counter is incremented when the
/// logical core is in privilege level 0.
pub const IA32_PERFEVTSEL_OS: u64 = 0x1 << 17;

/// E bit in PERFEVTSEL. Enables (when set) edge detection of the selected
/// microarchitectural condition.
pub const IA32_PERFEVTSEL_E: u64 = 0x1 << 18;

/// PC bit in PERFEVTSEL. When set, the processor toggles the PMi pins on
/// each increment; when clear, on counter overflow.
pub const IA32_PERFEVTSEL_PC: u64 = 0x1 << 19;

/// When set, the logical processor raises an exception through its local
/// APIC on counter overflow.
pub const IA32_PERFEVTSEL_INT: u64 = 0x1 << 20;

/// When set the corresponding PMC counts the event; when clear counting
/// stops and the PMC can be written.
pub const IA32_PERFEVTSEL_EN: u64 = 0x1 << 22;

/// Invert flag. Inverts the counter mask when set.
pub const IA32_PERFEVTSEL_INV: u64 = 0x1 << 23;

/// Address of the first event-select register `IA32_PERFEVTSEL0`; the
/// registers of the eight counters are consecutive from here.
pub const IA32_PERFEVTSEL0_MSR: u32 = 0x186;

/// Address of the first counter register `IA32_PMC0`; the registers of
/// the eight counters are consecutive from here.
pub const IA32_PMC0_MSR: u32 = 0xc1;

/// Event for Skylake that counts all requests that miss L2.
pub const EVENT_SKYLAKE_L2_REQUEST_MISS: u64 = 0x24 | 0x3f << 8;

/// Counts the number of cache lines filling the L2 cache.
pub const EVENT_SKYLAKE_L2_LINES_IN_ALL: u64 = 0xf1 | 0x1f << 8;

/// Predefined event that counts references to the on-die LLC.
pub const EVENT_PREDEFINED_LLC_REFERENCES: u64 = 0x2e | 0x4f << 8;

/// Ice Lake event: all off-core requests.
pub const EVENT_ICELAKE_OFFCORE_ALL_REQUESTS: u64 = 0x21 | 0x80 << 8;

/// Ice Lake event: retired loads from uncacheable memory.
pub const EVENT_ICELAKE_MEM_LOAD_MISC_RETIRED_UC: u64 = 0xd4 | 0x04 << 8;

/// Ice Lake event: retired loads that hit a modified line in another core.
pub const EVENT_ICELAKE_MEM_LOAD_L3_HIT_RETIRED_XSNP_HITM: u64 = 0xd2 | 0x04 << 8;

/// Ice Lake event: all demand data reads that reach L2.
pub const EVENT_ICELAKE_L2_ALL_DEMAND_DATA_RD: u64 = 0x24 | 0xe1 << 8;

/// Ice Lake event: all demand requests that miss L2.
pub const EVENT_ICELAKE_L2_ALL_DEMAND_MISS: u64 = 0x24 | 0x27 << 8;

/// Ice Lake event: retired loads that hit L1.
pub const EVENT_ICELAKE_MEM_LOAD_RETIRED_L1_HIT: u64 = 0xd1 | 0x01 << 8;

/// Ice Lake event: retired loads that miss L1.
pub const EVENT_ICELAKE_MEM_LOAD_RETIRED_L1_MISS: u64 = 0xd1 | 0x08 << 8;

/// Ice Lake event: any retired load that missed L1.
pub const EVENT_ICELAKE_MEM_LOAD_RETIRED_L1_MISS_ANY: u64 = 0x43 | 0xfd << 8;

/// Ice Lake event: L1 data-cache line replacements.
pub const EVENT_ICELAKE_L1D_REPLACEMENT: u64 = 0x51 | 0x01 << 8;

/// One model-specific-register write the embedder must perform, in order.
#[derive(Copy, Clone, Debug, PartialEq, Eq, Structural)]
pub struct MsrWrite {
    /// Address of the model-specific register.
    pub msr: u32,
    /// Value to write.
    pub value: u64,
}

/// One architectural event counter: which `IA32_PMCx` it uses and the
/// event configuration destined for its `IA32_PERFEVTSELx`.
#[derive(Copy, Clone, Debug, PartialEq, Eq, Structural)]
pub struct ArchitecturalEventCounter {
    /// Index `x` of the `IA32_PMCx` register pair in use.
    pub pmc_index: u8,
    /// Event-selection bitvector for `IA32_PERFEVTSELx`.
    pub event_config: u64,
}

impl Default for ArchitecturalEventCounter {
    /// Counter 0 with an empty configuration.
    fn default() -> (r: Self)
        ensures
            r.pmc_index == 0,
            r.event_config == 0,
    {
        Self { pmc_index: 0, event_config: 0 }
    }
}

/// The write sequence that arms one counter register pair: stop the
/// counter, reset it to `init_v`, then write the configuration with the
/// enable and edge-detect bits set.
pub open spec fn spec_conf_writes(perfevtsel_register: u32, pmc_register: u32, init_v: u64,
    perfsel_content: u64) -> Seq<MsrWrite> {
    seq![
        MsrWrite { msr: perfevtsel_register, value: 0 },
        MsrWrite { msr: pmc_register, value: init_v },
        MsrWrite {
            msr: perfevtsel_register,
            value: perfsel_content | IA32_PERFEVTSEL_EN | IA32_PERFEVTSEL_E,
        },
    ]
}

impl ArchitecturalEventCounter {
    /// The write sequence that activates this counter with start value
    /// `init_v`: empty if the index names a counter no processor
    /// implements (only eight architectural pairs exist).
    pub open spec fn spec_activation(self, init_v: u64) -> Seq<MsrWrite> {
        if self.pmc_index < 8 {
            spec_conf_writes((0x186 + self.pmc_index) as u32, (0xc1 + self.pmc_index) as u32,
                init_v, self.event_config)
        } else {
            Seq::empty()
        }
    }

    /// Creates a new counter with the given register-pair index and an
    /// empty configuration.
    pub fn new(index: u8) -> (r: Self)
        ensures
            r.pmc_index == index,
            r.event_config == 0,
    {
        Self { pmc_index: index, event_config: 0 }
    }

    /// Updates the configuration stored in this struct. Nothing is
    /// emitted for the event-select register yet.
    pub fn set_configuration(&mut self, event_config: u64)
        ensures
            final(self).pmc_index == old(self).pmc_index,
            final(self).event_config == event_config,
    {
        self.event_config = event_config;
    }

    /// Sets the register-pair index to use.
    pub fn set_index(&mut self, x: u8)
        ensures
            final(self).pmc_index == x,
            final(self).event_config == old(self).event_config,
    {
        self.pmc_index = x;
    }

    /// Computes the register writes that initialize and activate this
    /// counter, reset to `init_v`. An index past the eight architectural
    /// pairs yields no writes, as no processor implements it.
    pub fn activate_counter(&self, init_v: u64) -> (r: Vec<MsrWrite>)
        ensures
            r@ == self.spec_activation(init_v),
    {
        if self.pmc_index < 8 {
            let idx = self.pmc_index as u32;
            Self::init_and_conf_pmc(0x186 + idx, 0xc1 + idx, init_v, self.event_config)
        } else {
            Vec::new()
        }
    }

    /// The three writes that program one register pair: cancel any
    /// running measurement, reset the counter, then activate it.
    fn init_and_conf_pmc(perfevtsel_register: u32, pmc_register: u32, init_v: u64,
        perfsel_content: u64) -> (r: Vec<MsrWrite>)
        ensures
            r@ == spec_conf_writes(perfevtsel_register, pmc_register, init_v, perfsel_content),
    {
        let mut r: Vec<MsrWrite> = Vec::new();
        r.push(MsrWrite { msr: perfevtsel_register, value: 0 });
        r.push(MsrWrite { msr: pmc_register, value: init_v });
        r.push(MsrWrite {
            msr: perfevtsel_register,
            value: perfsel_content | IA32_PERFEVTSEL_EN | IA32_PERFEVTSEL_E,
        });
        proof {
            assert(r@ =~= spec_conf_writes(perfevtsel_register, pmc_register, init_v,
                perfsel_content));
        }
        r
    }

    /// The counter register the embedder reads to sample this counter's
    /// value, or nothing for an index no processor implements.
    pub fn read_pcm_msr(&self) -> (r: Option<u32>)
        ensures
            if self.pmc_index < 8 {
                r == Some((0xc1 + self.pmc_index) as u32)
            } else {
                r == None::<u32>
            },
    {
        if self.pmc_index < 8 {
            Some(0xc1 + (self.pmc_index as u32))
        } else {
            None
        }
    }
}

} // verus!

//! Clock Control Module: clock gates and the UART and periodic clock roots.
use vstd::prelude::*;

verus! {

/// Mask of one 2-bit clock gate field.
pub const CLOCK_ACTIVITY_MASK: u32 = 0b11;

/// Number of clock gating registers (CCGR0 to CCGR7).
pub const NUM_GATE_REGISTERS: usize = 8;

/// Frequency of the crystal oscillator, in Hz.
pub const OSCILLATOR_CLOCK_FREQUENCY: u32 = 24_000_000;

/// A clock activity setting.
#[derive(Clone, Copy, PartialEq, Eq, Debug, Structural)]
pub enum ClockActivity {
    /// The clock is off.
    Off,
    /// The clock is on in RUN mode, but off in WAIT and STOP modes.
    OnRunOnly,
    /// The clock is always on, except in STOP mode.
    On,
}

/// The 2-bit encoding of an activity in a gate field.
pub open spec fn activity_bits(a: ClockActivity) -> u32 {
    match a {
        ClockActivity::Off => 0b00,
        ClockActivity::OnRunOnly => 0b01,
        ClockActivity::On => 0b11,
    }
}

/// The activity that a 2-bit field encodes, if any.
pub open spec fn decode_activity(bits: u32) -> Option<ClockActivity> {
    if bits == 0b00 {
        Some(ClockActivity::Off)
    } else if bits == 0b01 {
        Some(ClockActivity::OnRunOnly)
    } else if bits == 0b11 {
        Some(ClockActivity::On)
    } else {
        None
    }
}

/// The 2-bit field of `reg` that starts at bit `offset`.
pub open spec fn gate_field(reg: u32, offset: u32) -> u32 {
    (reg >> offset) & CLOCK_ACTIVITY_MASK
}

/// `reg` with the 2-bit field at `offset` replaced by `bits`.
pub open spec fn with_gate_field(reg: u32, offset: u32, bits: u32) -> u32 {
    (reg & !(CLOCK_ACTIVITY_MASK << offset)) | (bits << offset)
}

impl ClockActivity {
    /// The field encoding of this activity.
    pub fn bits(self) -> (r: u32)
        ensures
            r == activity_bits(self),
    {
        match self {
            ClockActivity::Off => 0b00,
            ClockActivity::OnRunOnly => 0b01,
            ClockActivity::On => 0b11,
        }
    }
}

/// Replacing one even-aligned 2-bit field reads back as written and leaves
/// every other field of the register as it was.
pub proof fn lemma_gate_field_update(reg: u32, offset: u32, bits: u32, other: u32)
    requires
        offset <= 30,
        offset % 2 == 0,
        other <= 30,
        other % 2 == 0,
        bits <= 3,
    ensures
        gate_field(with_gate_field(reg, offset, bits), offset) == bits,
        other != offset ==> gate_field(with_gate_field(reg, offset, bits), other) == gate_field(
            reg,
            other,
        ),
{
    assert(((((reg & !(3u32 << offset)) | (bits << offset)) >> offset) & 3u32) == bits)
        by (bit_vector)
        requires
            offset <= 30,
            bits <= 3,
    ;
    assert(other != offset ==> ((((reg & !(3u32 << offset)) | (bits << offset)) >> other) & 3u32)
        == ((reg >> other) & 3u32)) by (bit_vector)
        requires
            offset <= 30,
            offset % 2 == 0,
            other <= 30,
            other % 2 == 0,
            bits <= 3,
    ;
}


/// Describes a peripheral's clock gate: a 2-bit field in one of the
/// gating registers.
#[derive(Clone, Copy, PartialEq, Eq, Debug, Structural)]
pub struct ClockGate {
    /// Index of the gating register (0 to 7).
    pub register: usize,
    /// Bit offset of the field inside the register (even, 0 to 30).
    pub offset: u32,
}

impl ClockGate {
    /// The register index is below eight and the offset is even and at most 30.
    pub open spec fn wf(self) -> bool {
        &&& self.register < NUM_GATE_REGISTERS
        &&& self.offset <= 30
        &&& self.offset % 2 == 0
    }

    /// The activity this gate holds in the gating registers `regs`.
    pub open spec fn activity_in(self, regs: Seq<u32>) -> Option<ClockActivity> {
        decode_activity(gate_field(regs[self.register as int], self.offset))
    }

    /// The gating registers `regs` after this gate is set to `activity`.
    pub open spec fn set_in(self, regs: Seq<u32>, activity: ClockActivity) -> Seq<u32> {
        regs.update(
            self.register as int,
            with_gate_field(regs[self.register as int], self.offset, activity_bits(activity)),
        )
    }

    /// Clock gate field `field` (0 to 15) of gating register `register`
    /// (0 to 7): CCGR3_CG11 is `ClockGate::new(3, 11)`.
    pub fn new(register: usize, field: u32) -> (r: ClockGate)
        requires
            register < NUM_GATE_REGISTERS,
            field < 16,
        ensures
            r.wf(),
            r.register == register,
            r.offset == 2 * field,
    {
        ClockGate { register, offset: 2 * field }
    }

    /// Sets the clock activity of this gate with a masked read-modify-write
    /// that leaves the other fields of the register untouched.
    pub fn set_activity(&self, ccm: &mut ClockControlModule, activity: ClockActivity)
        requires
            self.wf(),
            old(ccm).wf(),
        ensures
            final(ccm).wf(),
            final(ccm).gates() == self.set_in(old(ccm).gates(), activity),
            final(ccm).cscmr1() == old(ccm).cscmr1(),
            final(ccm).cscdr1() == old(ccm).cscdr1(),
            final(ccm).gates().len() == NUM_GATE_REGISTERS,
            self.activity_in(final(ccm).gates()) == Some(activity),
            forall|other: ClockGate|
                other.wf() && other != *self ==> #[trigger] other.activity_in(final(ccm).gates())
                    == other.activity_in(old(ccm).gates()),
    {
        let reg = ccm.ccgr[self.register];
        let reg = (reg & !(CLOCK_ACTIVITY_MASK << self.offset)) | (activity.bits() << self.offset);
        ccm.ccgr.set(self.register, reg);
        proof {
            let g = *self;
            assert forall|other: ClockGate|
                other.wf() && other != g implies #[trigger] other.activity_in(ccm.gates())
                == other.activity_in(old(ccm).gates()) by {
                lemma_activity_round_trip(old(ccm).gates(), g, activity, other);
            }
            if g.offset == 0 {
                lemma_activity_round_trip(old(ccm).gates(), g, activity, ClockGate { offset: 2, ..g });
            } else {
                lemma_activity_round_trip(old(ccm).gates(), g, activity, ClockGate { offset: 0, ..g });
            }
        }
    }

    /// Returns the clock activity of this gate; `None` for the one 2-bit
    /// pattern that encodes no activity.
    pub fn get_activity(&self, ccm: &ClockControlModule) -> (r: Option<ClockActivity>)
        requires
            self.wf(),
            ccm.wf(),
        ensures
            r == self.activity_in(ccm.gates()),
    {
        let reg = ccm.ccgr[self.register];
        let bits = (reg >> self.offset) & CLOCK_ACTIVITY_MASK;
        if bits == 0b00 {
            Some(ClockActivity::Off)
        } else if bits == 0b01 {
            Some(ClockActivity::OnRunOnly)
        } else if bits == 0b11 {
            Some(ClockActivity::On)
        } else {
            None
        }
    }

    /// Returns `true` if the clock runs in some mode (`On` or `OnRunOnly`).
    pub fn is_enabled(&self, ccm: &ClockControlModule) -> (r: bool)
        requires
            self.wf(),
            ccm.wf(),
        ensures
            r == (self.activity_in(ccm.gates()) == Some(ClockActivity::On)
                || self.activity_in(ccm.gates()) == Some(ClockActivity::OnRunOnly)),
    {
        let activity = self.get_activity(ccm);
        match activity {
            Some(ClockActivity::On) => true,
            Some(ClockActivity::OnRunOnly) => true,
            _ => false,
        }
    }

    /// Turns the clock on.
    pub fn enable(&self, ccm: &mut ClockControlModule)
        requires
            self.wf(),
            old(ccm).wf(),
        ensures
            final(ccm).wf(),
            final(ccm).gates() == self.set_in(old(ccm).gates(), ClockActivity::On),
            final(ccm).cscmr1() == old(ccm).cscmr1(),
            final(ccm).cscdr1() == old(ccm).cscdr1(),
            final(ccm).gates().len() == NUM_GATE_REGISTERS,
            self.activity_in(final(ccm).gates()) == Some(ClockActivity::On),
            forall|other: ClockGate|
                other.wf() && other != *self ==> #[trigger] other.activity_in(final(ccm).gates())
                    == other.activity_in(old(ccm).gates()),
    {
        self.set_activity(ccm, ClockActivity::On);
    }

    /// Turns the clock off.
    pub fn disable(&self, ccm: &mut ClockControlModule)
        requires
            self.wf(),
            old(ccm).wf(),
        ensures
            final(ccm).wf(),
            final(ccm).gates() == self.set_in(old(ccm).gates(), ClockActivity::Off),
            final(ccm).cscmr1() == old(ccm).cscmr1(),
            final(ccm).cscdr1() == old(ccm).cscdr1(),
            final(ccm).gates().len() == NUM_GATE_REGISTERS,
            self.activity_in(final(ccm).gates()) == Some(ClockActivity::Off),
            forall|other: ClockGate|
                other.wf() && other != *self ==> #[trigger] other.activity_in(final(ccm).gates())
                    == other.activity_in(old(ccm).gates()),
    {
        self.set_activity(ccm, ClockActivity::Off);
    }
}

/// Setting a gate to an activity and reading it back gives that activity;
/// every other gate, in the same register or another, reads as before.
pub proof fn lemma_activity_round_trip(
    regs: Seq<u32>,
    gate: ClockGate,
    activity: ClockActivity,
    other: ClockGate,
)
    requires
        regs.len() == NUM_GATE_REGISTERS,
        gate.wf(),
        other.wf(),
        other != gate,
    ensures
        gate.activity_in(gate.set_in(regs, activity)) == Some(activity),
        other.activity_in(gate.set_in(regs, activity)) == other.activity_in(regs),
        gate.set_in(regs, activity).len() == NUM_GATE_REGISTERS,
{
    let r = gate.register as int;
    lemma_gate_field_update(regs[r], gate.offset, activity_bits(activity), other.offset);
    lemma_gate_field_update(regs[r], gate.offset, activity_bits(activity), gate.offset);
}

/// Mask of the 6-bit clock root divider fields (UART_CLK_PODF, PERCLK_PODF).
pub const PODF_MASK: u32 = 0x3f;

/// Bit of the clock root source selection (UART_CLK_SEL, PERCLK_CLK_SEL).
pub const CLK_SEL_SHIFT: u32 = 6;

/// Selection for the UART peripheral clock.
#[derive(Clone, Copy, PartialEq, Eq, Debug, Structural)]
pub enum UartClockSelect {
    /// Derive the clock from the oscillator.
    Oscillator,
}

/// Selection for the periodic clock that drives the PIT and GPT timers.
#[derive(Clone, Copy, PartialEq, Eq, Debug, Structural)]
pub enum PeriodicClockSelect {
    /// Derive the clock from the oscillator.
    Oscillator,
}

/// The divider field written for a requested divider: `divider - 1`,
/// at least 0 and at most 63 (divide by 1 to 64).
pub open spec fn podf_of(divider: u8) -> u32 {
    if divider == 0 {
        0
    } else if divider - 1 > 63 {
        63
    } else {
        (divider - 1) as u32
    }
}

/// A clock root register with its source bit set to the oscillator and its
/// divider field set to `podf`; its other bits are kept.
pub open spec fn with_oscillator_root(reg: u32, podf: u32) -> u32 {
    (reg & !((1u32 << CLK_SEL_SHIFT) | PODF_MASK)) | (1u32 << CLK_SEL_SHIFT) | podf
}

/// The clamped divider field for `divider`.
fn podf_for(divider: u8) -> (r: u32)
    ensures
        r == podf_of(divider),
        r <= 63,
{
    let d = divider.saturating_sub(1);
    if d > 63 {
        63
    } else {
        d as u32
    }
}

/// Writing the oscillator source and a divider field reads back as such.
proof fn lemma_oscillator_root(reg: u32, podf: u32)
    requires
        podf <= 63,
    ensures
        (with_oscillator_root(reg, podf) >> CLK_SEL_SHIFT) & 1 == 1,
        with_oscillator_root(reg, podf) & PODF_MASK == podf,
{
    assert((((reg & !((1u32 << 6u32) | 0x3fu32)) | (1u32 << 6u32) | podf) >> 6u32) & 1 == 1)
        by (bit_vector)
        requires
            podf <= 63,
    ;
    assert((((reg & !((1u32 << 6u32) | 0x3fu32)) | (1u32 << 6u32) | podf) & 0x3fu32) == podf)
        by (bit_vector)
        requires
            podf <= 63,
    ;
}

/// The clock control module's registers.
pub struct ClockControlModule {
    ccgr: Vec<u32>,
    cscmr1: u32,
    cscdr1: u32,
}

impl ClockControlModule {
    /// All eight gating registers are present.
    pub open spec fn wf(&self) -> bool {
        self.gates().len() == NUM_GATE_REGISTERS
    }

    /// The UART clock root is fed by the oscillator (UART_CLK_SEL set).
    pub open spec fn uart_clock_is_oscillator(&self) -> bool {
        (self.cscdr1() >> CLK_SEL_SHIFT) & 1 == 1
    }

    /// The UART clock frequency, in Hz, when fed by the oscillator.
    pub open spec fn uart_clock_frequency(&self) -> u32 {
        OSCILLATOR_CLOCK_FREQUENCY / ((self.cscdr1() & PODF_MASK) + 1) as u32
    }

    /// The clock gating registers CCGR0 to CCGR7.
    pub closed spec fn gates(&self) -> Seq<u32> {
        self.ccgr@
    }

    /// The serial clock multiplexer register 1 (periodic clock root).
    pub closed spec fn cscmr1(&self) -> u32 {
        self.cscmr1
    }

    /// The serial clock divider register 1 (UART clock root).
    pub closed spec fn cscdr1(&self) -> u32 {
        self.cscdr1
    }

    /// A clock control module with every register cleared, as the model
    /// starts: all gates off and both clock roots on their first source
    /// with a divider of 1.
    pub fn new() -> (r: ClockControlModule)
        ensures
            r.wf(),
            r.gates() == Seq::new(NUM_GATE_REGISTERS as nat, |i: int| 0u32),
            r.cscmr1() == 0,
            r.cscdr1() == 0,
    {
        let mut ccgr: Vec<u32> = Vec::new();
        let mut i: usize = 0;
        while i < NUM_GATE_REGISTERS
            invariant
                i <= NUM_GATE_REGISTERS,
                ccgr@ == Seq::new(i as nat, |j: int| 0u32),
            decreases NUM_GATE_REGISTERS - i,
        {
            ccgr.push(0);
            i = i + 1;
        }
        ClockControlModule { ccgr, cscmr1: 0, cscdr1: 0 }
    }

    /// The contents of gating register `index`.
    pub fn gate_register(&self, index: usize) -> (r: u32)
        requires
            self.wf(),
            index < NUM_GATE_REGISTERS,
        ensures
            r == self.gates()[index as int],
    {
        self.ccgr[index]
    }

    /// Selects a UART clock source and a divider from 1 to 64; a divider of
    /// zero divides by 1, one above 64 divides by 64.
    pub fn set_uart_clock_selection_divider(&mut self, select: UartClockSelect, divider: u8)
        requires
            old(self).wf(),
        ensures
            final(self).wf(),
            final(self).gates() == old(self).gates(),
            final(self).cscmr1() == old(self).cscmr1(),
            final(self).cscdr1() == with_oscillator_root(old(self).cscdr1(), podf_of(divider)),
            final(self).uart_clock_is_oscillator(),
            final(self).cscdr1() & PODF_MASK == podf_of(divider),
            final(self).uart_clock_frequency() == OSCILLATOR_CLOCK_FREQUENCY / (podf_of(divider)
                + 1) as u32,
    {
        let podf = podf_for(divider);
        match select {
            UartClockSelect::Oscillator => {
                self.cscdr1 = (self.cscdr1 & !((1u32 << CLK_SEL_SHIFT) | PODF_MASK)) | (1u32
                    << CLK_SEL_SHIFT) | podf;
            },
        }
        proof {
            lemma_oscillator_root(old(self).cscdr1, podf);
        }
    }

    /// Returns `true` if the UART clock root is fed by the oscillator, the
    /// one source whose frequency is known.
    pub fn is_uart_clock_oscillator(&self) -> (r: bool)
        ensures
            r == self.uart_clock_is_oscillator(),
    {
        (self.cscdr1 >> CLK_SEL_SHIFT) & 1 == 1
    }

    /// Returns the UART clock frequency, in Hz, from the selected source and
    /// divider. Only the oscillator source is supported.
    pub fn get_uart_clock_frequency(&self) -> (r: u32)
        requires
            self.uart_clock_is_oscillator(),
        ensures
            r == self.uart_clock_frequency(),
    {
        let reg = self.cscdr1;
        assert(reg & 0x3fu32 <= 63) by (bit_vector);
        let divider = (reg & PODF_MASK) + 1;
        OSCILLATOR_CLOCK_FREQUENCY / divider
    }

    /// Selects the periodic clock source and a divider from 1 to 64, and
    /// returns the resulting frequency in Hz. This clock drives both the PIT
    /// and the GPT timers.
    pub fn set_periodic_clock_selection_divider(
        &mut self,
        select: PeriodicClockSelect,
        divider: u8,
    ) -> (r: u32)
        requires
            old(self).wf(),
        ensures
            final(self).wf(),
            final(self).gates() == old(self).gates(),
            final(self).cscdr1() == old(self).cscdr1(),
            final(self).cscmr1() == with_oscillator_root(old(self).cscmr1(), podf_of(divider)),
            r == OSCILLATOR_CLOCK_FREQUENCY / (podf_of(divider) + 1) as u32,
    {
        let podf = podf_for(divider);
        match select {
            PeriodicClockSelect::Oscillator => {
                self.cscmr1 = (self.cscmr1 & !((1u32 << CLK_SEL_SHIFT) | PODF_MASK)) | (1u32
                    << CLK_SEL_SHIFT) | podf;
                OSCILLATOR_CLOCK_FREQUENCY / (podf + 1)
            },
        }
    }
}

} // verus!

//! General Purpose Timer: a free-running up-counter whose output compare
//! channel 1 serves as the alarm.
use vstd::prelude::*;
use crate::bits::{bit, with_bit_as, is_set, write_bit, lemma_write_bit};
use crate::ccm::{ClockActivity, ClockControlModule, ClockGate};

verus! {

/// CR: timer enable.
pub const CR_EN: u32 = 0;
/// CR as written at initialization: the crystal oscillator as clock source
/// (CLKSRC = 5), free-run mode (FRR), the 24 MHz input enabled (EN_24M),
/// and counting in wait mode (WAITEN); the timer itself stays disabled.
pub const CR_INIT: u32 = (5 << 6) | (1 << 9) | (1 << 10) | (1 << 3);
/// Prescaler of the 24 MHz input.
pub const PRESCALER24M: u32 = 2;
/// Prescaler of the counter.
pub const PRESCALER: u32 = 4;
/// PR as written at initialization: each prescaler field holds its
/// prescaler minus one (PRESCALER24M in bits 12 to 15, PRESCALER in bits 0
/// to 11).
pub const PR_INIT: u32 = ((PRESCALER24M - 1) << 12) | (PRESCALER - 1);
/// SR: output compare 1 flag.
pub const SR_OF1: u32 = 0;
/// IR: output compare 1 interrupt enable, the only interrupt used.
pub const IR_OF1IE: u32 = 1;

/// The timer's registers, each as the word it holds.
#[derive(Clone, Copy, PartialEq, Eq, Debug, Structural)]
pub struct GptRegisters {
    /// Control register.
    pub cr: u32,
    /// Prescaler register.
    pub pr: u32,
    /// Status register (flags clear when written with one).
    pub sr: u32,
    /// Interrupt enable register.
    pub ir: u32,
    /// Output compare register 1: the alarm time.
    pub ocr1: u32,
    /// Counter.
    pub cnt: u32,
}

/// Everything a general purpose timer holds.
pub struct GptView {
    /// The timer's registers.
    pub registers: GptRegisters,
    /// Clock gate of the serial clock.
    pub serial_clock_gate: ClockGate,
    /// Clock gate of the bus clock.
    pub bus_clock_gate: ClockGate,
}

impl GptView {
    /// Both clock gates exist.
    pub open spec fn wf(self) -> bool {
        self.serial_clock_gate.wf() && self.bus_clock_gate.wf()
    }

    /// The counter runs.
    pub open spec fn enabled(self) -> bool {
        bit(self.registers.cr, CR_EN)
    }

    /// The compare channel has matched and the match is not yet handled.
    pub open spec fn alarm_pending(self) -> bool {
        bit(self.registers.sr, SR_OF1)
    }
}

/// The timer with the alarm set to `tics` and the counter running.
pub open spec fn alarm_set(g: GptView, tics: u32) -> GptView {
    GptView {
        registers: GptRegisters {
            ocr1: tics,
            cr: with_bit_as(g.registers.cr, CR_EN, true),
            ..g.registers
        },
        ..g
    }
}

/// The timer with its enable bit set to `enable`.
pub open spec fn enable_set(g: GptView, enable: bool) -> GptView {
    GptView {
        registers: GptRegisters { cr: with_bit_as(g.registers.cr, CR_EN, enable), ..g.registers },
        ..g
    }
}

/// The counter passes the compare value within `ticks` ticks: the compare
/// value lies 1 to `ticks` ticks ahead of the counter, modulo 2^32.
pub open spec fn compare_reached(cnt: u32, ocr: u32, ticks: u32) -> bool {
    let d = if ocr >= cnt {
        ocr - cnt
    } else {
        ocr + 0x1_0000_0000 - cnt
    };
    1 <= d <= ticks
}

/// The timer after `ticks` ticks of its clock: a running counter moves on
/// (wrapping at 2^32) and raises the compare flag if it passes the compare
/// value; a stopped counter stays.
pub open spec fn advanced(g: GptView, ticks: u32) -> GptView {
    if g.enabled() {
        GptView {
            registers: GptRegisters {
                cnt: ((g.registers.cnt + ticks) % 0x1_0000_0000) as u32,
                sr: if compare_reached(g.registers.cnt, g.registers.ocr1, ticks) {
                    with_bit_as(g.registers.sr, SR_OF1, true)
                } else {
                    g.registers.sr
                },
                ..g.registers
            },
            ..g
        }
    } else {
        g
    }
}

/// The timer once its interrupt is handled: the flags that were read are
/// written back, which clears them all.
pub open spec fn handled(g: GptView) -> GptView {
    GptView { registers: GptRegisters { sr: 0, ..g.registers }, ..g }
}

/// The frequency, in Hz, of every general purpose timer; fixed when the
/// timers are initialized.
#[derive(Clone, Copy, PartialEq, Eq, Debug, Structural)]
pub struct FreqGpt {
    frequency: u32,
}

impl FreqGpt {
    /// The frequency in Hz.
    pub closed spec fn spec_frequency(self) -> u32 {
        self.frequency
    }

    /// Returns the frequency in Hz.
    pub fn frequency(&self) -> (r: u32)
        ensures
            r == self.spec_frequency(),
    {
        self.frequency
    }
}

/// A general purpose timer.
pub struct GeneralPurposeTimer {
    registers: GptRegisters,
    serial_clock_gate: ClockGate,
    bus_clock_gate: ClockGate,
}

impl View for GeneralPurposeTimer {
    type V = GptView;

    closed spec fn view(&self) -> GptView {
        GptView {
            registers: self.registers,
            serial_clock_gate: self.serial_clock_gate,
            bus_clock_gate: self.bus_clock_gate,
        }
    }
}

impl GeneralPurposeTimer {
    /// A timer with cleared registers, clocked through the two gates.
    pub fn new(serial_clock_gate: ClockGate, bus_clock_gate: ClockGate) -> (r: GeneralPurposeTimer)
        requires
            serial_clock_gate.wf(),
            bus_clock_gate.wf(),
        ensures
            r@.wf(),
            r@.registers == (GptRegisters { cr: 0, pr: 0, sr: 0, ir: 0, ocr1: 0, cnt: 0 }),
            r@.serial_clock_gate == serial_clock_gate,
            r@.bus_clock_gate == bus_clock_gate,
    {
        GeneralPurposeTimer {
            registers: GptRegisters { cr: 0, pr: 0, sr: 0, ir: 0, ocr1: 0, cnt: 0 },
            serial_clock_gate,
            bus_clock_gate,
        }
    }

    /// Returns the registers.
    pub fn registers(&self) -> (r: GptRegisters)
        ensures
            r == self@.registers,
    {
        self.registers
    }

    /// Turns the clocks on and sets the timer up: oscillator clock, both
    /// prescalers, free-run mode, flags cleared, compare 1 interrupt on.
    fn setup(&mut self, ccm: &mut ClockControlModule)
        requires
            old(self)@.wf(),
            old(ccm).wf(),
        ensures
            final(ccm).wf(),
            final(ccm).gates() == old(self)@.bus_clock_gate.set_in(
                old(self)@.serial_clock_gate.set_in(old(ccm).gates(), ClockActivity::On),
                ClockActivity::On,
            ),
            final(ccm).cscmr1() == old(ccm).cscmr1(),
            final(ccm).cscdr1() == old(ccm).cscdr1(),
            final(self)@ == (GptView {
                registers: GptRegisters {
                    cr: CR_INIT,
                    pr: PR_INIT,
                    sr: 0,
                    ir: IR_OF1IE,
                    ..old(self)@.registers
                },
                ..old(self)@
            }),
            final(ccm).gates().len() == crate::ccm::NUM_GATE_REGISTERS,
            old(self)@.serial_clock_gate.activity_in(final(ccm).gates()) == Some(ClockActivity::On),
            old(self)@.bus_clock_gate.activity_in(final(ccm).gates()) == Some(ClockActivity::On),
            forall|other: ClockGate|
                other.wf() && other != old(self)@.serial_clock_gate && other
                    != old(self)@.bus_clock_gate ==> #[trigger] other.activity_in(final(ccm).gates())
                    == other.activity_in(old(ccm).gates()),
    {
        self.serial_clock_gate.set_activity(ccm, ClockActivity::On);
        self.bus_clock_gate.set_activity(ccm, ClockActivity::On);
        self.registers.cr = CR_INIT;
        self.registers.pr = PR_INIT;
        self.registers.sr = 0;
        self.registers.ir = IR_OF1IE;
    }

    /// Initializes both timers from the periodic clock frequency
    /// `clock_freq`, and returns their frequency: `clock_freq` divided by
    /// both prescalers.
    pub fn initialize(
        ccm: &mut ClockControlModule,
        gpt1: &mut GeneralPurposeTimer,
        gpt2: &mut GeneralPurposeTimer,
        clock_freq: u32,
    ) -> (r: FreqGpt)
        requires
            old(gpt1)@.wf(),
            old(gpt2)@.wf(),
            old(ccm).wf(),
        ensures
            r.spec_frequency() == clock_freq / PRESCALER / PRESCALER24M,
            final(ccm).wf(),
            final(ccm).cscmr1() == old(ccm).cscmr1(),
            final(ccm).cscdr1() == old(ccm).cscdr1(),
            final(ccm).gates() == old(gpt2)@.bus_clock_gate.set_in(
                old(gpt2)@.serial_clock_gate.set_in(
                    old(gpt1)@.bus_clock_gate.set_in(
                        old(gpt1)@.serial_clock_gate.set_in(old(ccm).gates(), ClockActivity::On),
                        ClockActivity::On,
                    ),
                    ClockActivity::On,
                ),
                ClockActivity::On,
            ),
            final(gpt1)@ == (GptView {
                registers: GptRegisters {
                    cr: CR_INIT,
                    pr: PR_INIT,
                    sr: 0,
                    ir: IR_OF1IE,
                    ..old(gpt1)@.registers
                },
                ..old(gpt1)@
            }),
            final(gpt2)@ == (GptView {
                registers: GptRegisters {
                    cr: CR_INIT,
                    pr: PR_INIT,
                    sr: 0,
                    ir: IR_OF1IE,
                    ..old(gpt2)@.registers
                },
                ..old(gpt2)@
            }),
            final(ccm).gates().len() == crate::ccm::NUM_GATE_REGISTERS,
            old(gpt1)@.serial_clock_gate.activity_in(final(ccm).gates()) == Some(ClockActivity::On),
            old(gpt1)@.bus_clock_gate.activity_in(final(ccm).gates()) == Some(ClockActivity::On),
            old(gpt2)@.serial_clock_gate.activity_in(final(ccm).gates()) == Some(ClockActivity::On),
            old(gpt2)@.bus_clock_gate.activity_in(final(ccm).gates()) == Some(ClockActivity::On),
            forall|other: ClockGate|
                other.wf() && other != old(gpt1)@.serial_clock_gate && other
                    != old(gpt1)@.bus_clock_gate && other != old(gpt2)@.serial_clock_gate && other
                    != old(gpt2)@.bus_clock_gate ==> #[trigger] other.activity_in(final(ccm).gates())
                    == other.activity_in(old(ccm).gates()),
    {
        let frequency = clock_freq / PRESCALER / PRESCALER24M;
        gpt1.setup(ccm);
        gpt2.setup(ccm);
        FreqGpt { frequency }
    }

    /// Starts or stops the counter.
    fn set_enable(&mut self, enable: bool)
        ensures
            final(self)@ == enable_set(old(self)@, enable),
    {
        self.registers.cr = write_bit(self.registers.cr, CR_EN, enable);
    }

    /// Returns the counter.
    pub fn now(&self) -> (r: u32)
        ensures
            r == self@.registers.cnt,
    {
        self.registers.cnt
    }

    /// Returns the largest counter value.
    pub fn max_tics(&self) -> (r: u32)
        ensures
            r == u32::MAX,
    {
        u32::MAX
    }

    /// Handles the timer's interrupt: clears the flags and returns `true`
    /// if the alarm fired, in which case the alarm client is to be told.
    pub fn handle_interrupt(&mut self) -> (r: bool)
        ensures
            r == old(self)@.alarm_pending(),
            final(self)@ == handled(old(self)@),
    {
        let sr = self.registers.sr;
        let fired = is_set(sr, SR_OF1);
        assert(sr & !sr == 0) by (bit_vector);
        self.registers.sr = sr & !sr;
        fired
    }

    /// Sets the alarm to counter value `tics` and starts the counter. The
    /// counter does not restart on a match, so a later alarm needs a new
    /// call.
    pub fn set_alarm(&mut self, tics: u32)
        ensures
            final(self)@ == alarm_set(old(self)@, tics),
    {
        self.registers.ocr1 = tics;
        self.set_enable(true);
    }

    /// Returns the alarm time.
    pub fn get_alarm(&self) -> (r: u32)
        ensures
            r == self@.registers.ocr1,
    {
        self.registers.ocr1
    }

    /// Returns `true` if the counter runs.
    pub fn is_enabled(&self) -> (r: bool)
        ensures
            r == self@.enabled(),
    {
        is_set(self.registers.cr, CR_EN)
    }

    /// Stops the counter.
    pub fn disable(&mut self)
        ensures
            final(self)@ == enable_set(old(self)@, false),
    {
        self.set_enable(false);
    }

    /// Starts the counter.
    pub fn enable(&mut self)
        ensures
            final(self)@ == enable_set(old(self)@, true),
    {
        self.set_enable(true);
    }

    /// The hardware clocks the timer `ticks` times.
    pub fn advance(&mut self, ticks: u32)
        ensures
            final(self)@ == advanced(old(self)@, ticks),
    {
        if is_set(self.registers.cr, CR_EN) {
            let cnt = self.registers.cnt;
            let ocr = self.registers.ocr1;
            let distance = ocr.wrapping_sub(cnt);
            if 1 <= distance && distance <= ticks {
                self.registers.sr = write_bit(self.registers.sr, SR_OF1, true);
            }
            self.registers.cnt = cnt.wrapping_add(ticks);
        }
    }
}

/// An alarm set ahead of the counter fires once the counter reaches it, and
/// handling it clears it, so it is reported exactly once; it has not fired
/// before the counter reaches it; and a timer disabled before then never
/// fires.
pub proof fn lemma_alarm_fires_once(g: GptView, tics: u32, ticks: u32)
    requires
        !g.alarm_pending(),
        g.registers.cnt < tics,
    ensures
        ticks >= tics - g.registers.cnt ==> advanced(alarm_set(g, tics), ticks).alarm_pending(),
        ticks >= tics - g.registers.cnt ==> !handled(
            advanced(alarm_set(g, tics), ticks),
        ).alarm_pending(),
        ticks < tics - g.registers.cnt ==> !advanced(alarm_set(g, tics), ticks).alarm_pending(),
        !advanced(enable_set(alarm_set(g, tics), false), ticks).alarm_pending(),
{
    lemma_write_bit(g.registers.cr, CR_EN, true);
    lemma_write_bit(with_bit_as(g.registers.cr, CR_EN, true), CR_EN, false);
    lemma_write_bit(g.registers.sr, SR_OF1, true);
    assert(0u32 >> 0u32 & 1 == 0) by (bit_vector);
}

} // verus!

//! Periodic Interrupt Timer: four down-counting channels that reload and
//! raise their flag each time they pass zero.
use vstd::prelude::*;
use crate::bits::{bit, with_bit_as, is_set, write_bit, lemma_write_bit};
use crate::ccm::{ClockActivity, ClockControlModule, ClockGate};

verus! {

/// Number of PIT channels.
pub const NUM_PIT_CHANNELS: usize = 4;
/// TCTRL: timer enable.
pub const TCTRL_TEN: u32 = 0;
/// TCTRL: timer interrupt enable.
pub const TCTRL_TIE: u32 = 1;
/// TFLG: timer interrupt flag (clears when written with one).
pub const TFLG_TIF: u32 = 0;
/// MCR as written at initialization: the module clock enabled (MDIS
/// clear) and the timers frozen in debug mode (FRZ set).
pub const MCR_INIT: u32 = 0b01;

/// One channel's registers, each as the word it holds.
#[derive(Clone, Copy, PartialEq, Eq, Debug, Structural)]
pub struct PitChannelRegisters {
    /// Load value: the counter restarts from it.
    pub ldval: u32,
    /// Current value of the counter (read only).
    pub cval: u32,
    /// Control register.
    pub tctrl: u32,
    /// Flag register.
    pub tflg: u32,
}

/// Everything a PIT channel holds.
pub struct PitChannelView {
    /// The channel number.
    pub timer: usize,
    /// The channel's registers.
    pub registers: PitChannelRegisters,
    /// The channel stops itself when its elapse is handled.
    pub oneshot: bool,
}

impl PitChannelView {
    /// The channel counts.
    pub open spec fn enabled(self) -> bool {
        bit(self.registers.tctrl, TCTRL_TEN)
    }

    /// The channel's counter has passed zero since the flag was cleared.
    pub open spec fn elapsed(self) -> bool {
        bit(self.registers.tflg, TFLG_TIF)
    }
}

/// The channel after one tick of its clock: an enabled counter counts down,
/// and from zero it reloads and raises the flag.
pub open spec fn ticked(c: PitChannelView) -> PitChannelView {
    if c.enabled() {
        if c.registers.cval == 0 {
            PitChannelView {
                registers: PitChannelRegisters {
                    cval: c.registers.ldval,
                    tflg: with_bit_as(c.registers.tflg, TFLG_TIF, true),
                    ..c.registers
                },
                ..c
            }
        } else {
            PitChannelView {
                registers: PitChannelRegisters { cval: (c.registers.cval - 1) as u32, ..c.registers },
                ..c
            }
        }
    } else {
        c
    }
}

/// The channel after `n` ticks.
pub open spec fn ticked_n(c: PitChannelView, n: nat) -> PitChannelView
    decreases n,
{
    if n == 0 {
        c
    } else {
        ticked(ticked_n(c, (n - 1) as nat))
    }
}

/// The channel after its interrupt is handled: the flag is cleared, and a
/// one-shot channel is disabled.
pub open spec fn handled(c: PitChannelView) -> PitChannelView {
    PitChannelView {
        registers: PitChannelRegisters {
            tflg: with_bit_as(c.registers.tflg, TFLG_TIF, false),
            tctrl: if c.oneshot {
                with_bit_as(c.registers.tctrl, TCTRL_TEN, false)
            } else {
                c.registers.tctrl
            },
            ..c.registers
        },
        ..c
    }
}

/// A PIT channel used as an alarm.
pub struct PeriodicInterruptTimer {
    timer: usize,
    registers: PitChannelRegisters,
    oneshot: bool,
}

impl View for PeriodicInterruptTimer {
    type V = PitChannelView;

    closed spec fn view(&self) -> PitChannelView {
        PitChannelView { timer: self.timer, registers: self.registers, oneshot: self.oneshot }
    }
}

/// The PIT module: its control register and its four channels.
pub struct Pit {
    /// Module control register.
    pub mcr: u32,
    /// The PIT's clock gate.
    pub clock_gate: ClockGate,
    /// The four channels, by number.
    pub timers: Vec<PeriodicInterruptTimer>,
}

impl Pit {
    /// The clock gate exists and the four channels are in place, in order.
    pub open spec fn wf(&self) -> bool {
        &&& self.clock_gate.wf()
        &&& self.timers@.len() == NUM_PIT_CHANNELS
        &&& forall|i: int| 0 <= i < NUM_PIT_CHANNELS ==> #[trigger] self.timers@[i]@.timer == i
    }

    /// The PIT module with cleared registers, clocked through `clock_gate`;
    /// every channel is one-shot.
    pub fn new(clock_gate: ClockGate) -> (r: Pit)
        requires
            clock_gate.wf(),
        ensures
            r.wf(),
            r.mcr == 0,
            r.clock_gate == clock_gate,
            forall|i: int|
                0 <= i < NUM_PIT_CHANNELS ==> (#[trigger] r.timers@[i])@ == (PitChannelView {
                    timer: i as usize,
                    registers: PitChannelRegisters { ldval: 0, cval: 0, tctrl: 0, tflg: 0 },
                    oneshot: true,
                }),
    {
        let mut timers: Vec<PeriodicInterruptTimer> = Vec::new();
        let mut i: usize = 0;
        while i < NUM_PIT_CHANNELS
            invariant
                i <= NUM_PIT_CHANNELS,
                timers@.len() == i,
                forall|j: int|
                    0 <= j < i ==> (#[trigger] timers@[j])@ == (PitChannelView {
                        timer: j as usize,
                        registers: PitChannelRegisters { ldval: 0, cval: 0, tctrl: 0, tflg: 0 },
                        oneshot: true,
                    }),
            decreases NUM_PIT_CHANNELS - i,
        {
            timers.push(PeriodicInterruptTimer::new(i));
            i = i + 1;
        }
        Pit { mcr: 0, clock_gate, timers }
    }
}

impl Pit {
    /// Runs the interrupt handler of every channel whose elapsed flag is
    /// set, and of no other. Returns, for each channel, whether its handler
    /// ran (its alarm client is then to be told).
    pub fn handle_elapsed(&mut self) -> (r: Vec<bool>)
        requires
            old(self).wf(),
        ensures
            final(self).wf(),
            final(self).mcr == old(self).mcr,
            final(self).clock_gate == old(self).clock_gate,
            r@.len() == NUM_PIT_CHANNELS,
            forall|i: int| 0 <= i < NUM_PIT_CHANNELS ==> #[trigger] r@[i] == old(self).timers@[i]@.elapsed(),
            forall|i: int|
                0 <= i < NUM_PIT_CHANNELS ==> (#[trigger] final(self).timers@[i])@ == if old(self).timers@[i]@.elapsed() {
                    handled(old(self).timers@[i]@)
                } else {
                    old(self).timers@[i]@
                },
    {
        let mut fired: Vec<bool> = Vec::new();
        let mut i: usize = 0;
        while i < NUM_PIT_CHANNELS
            invariant
                i <= NUM_PIT_CHANNELS,
                self.timers@.len() == NUM_PIT_CHANNELS,
                self.mcr == old(self).mcr,
                self.clock_gate == old(self).clock_gate,
                fired@.len() == i,
                forall|j: int| 0 <= j < i ==> #[trigger] fired@[j] == old(self).timers@[j]@.elapsed(),
                forall|j: int|
                    i <= j < NUM_PIT_CHANNELS ==> #[trigger] self.timers@[j] == old(self).timers@[j],
                forall|j: int|
                    0 <= j < i ==> (#[trigger] self.timers@[j])@ == if old(self).timers@[j]@.elapsed() {
                        handled(old(self).timers@[j]@)
                    } else {
                        old(self).timers@[j]@
                    },
                forall|j: int| 0 <= j < NUM_PIT_CHANNELS ==> #[trigger] self.timers@[j]@.timer == j,
            decreases NUM_PIT_CHANNELS - i,
        {
            let elapsed = self.timers[i].is_elapsed();
            if elapsed {
                let mut timer = self.timers.remove(i);
                timer.handle_interrupt();
                self.timers.insert(i, timer);
            }
            fired.push(elapsed);
            i = i + 1;
        }
        fired
    }
}

impl PeriodicInterruptTimer {
    /// Channel `timer` with cleared registers, one-shot.
    pub fn new(timer: usize) -> (r: PeriodicInterruptTimer)
        ensures
            r@ == (PitChannelView {
                timer,
                registers: PitChannelRegisters { ldval: 0, cval: 0, tctrl: 0, tflg: 0 },
                oneshot: true,
            }),
    {
        PeriodicInterruptTimer {
            timer,
            registers: PitChannelRegisters { ldval: 0, cval: 0, tctrl: 0, tflg: 0 },
            oneshot: true,
        }
    }

    /// Initializes the PIT: its clock on, every channel stopped with its
    /// flag cleared, the module enabled and frozen in debug mode.
    pub fn initialize(ccm: &mut ClockControlModule, pit: &mut Pit)
        requires
            old(ccm).wf(),
            old(pit).wf(),
        ensures
            final(ccm).wf(),
            final(ccm).gates() == old(pit).clock_gate.set_in(old(ccm).gates(), ClockActivity::On),
            final(ccm).cscmr1() == old(ccm).cscmr1(),
            final(ccm).cscdr1() == old(ccm).cscdr1(),
            final(pit).wf(),
            final(pit).mcr == MCR_INIT,
            final(pit).clock_gate == old(pit).clock_gate,
            forall|i: int|
                0 <= i < NUM_PIT_CHANNELS ==> (#[trigger] final(pit).timers@[i])@ == (PitChannelView {
                    registers: PitChannelRegisters {
                        tctrl: 0,
                        tflg: with_bit_as(old(pit).timers@[i]@.registers.tflg, TFLG_TIF, false),
                        ..old(pit).timers@[i]@.registers
                    },
                    ..old(pit).timers@[i]@
                }),
            final(ccm).gates().len() == crate::ccm::NUM_GATE_REGISTERS,
            old(pit).clock_gate.activity_in(final(ccm).gates()) == Some(ClockActivity::On),
            forall|other: ClockGate|
                other.wf() && other != old(pit).clock_gate ==> #[trigger] other.activity_in(
                    final(ccm).gates(),
                ) == other.activity_in(old(ccm).gates()),
    {
        pit.clock_gate.set_activity(ccm, ClockActivity::On);
        let mut i: usize = 0;
        while i < NUM_PIT_CHANNELS
            invariant
                i <= NUM_PIT_CHANNELS,
                pit.timers@.len() == NUM_PIT_CHANNELS,
                pit.clock_gate == old(pit).clock_gate,
                forall|j: int|
                    i <= j < NUM_PIT_CHANNELS ==> #[trigger] pit.timers@[j] == old(pit).timers@[j],
                forall|j: int|
                    0 <= j < i ==> (#[trigger] pit.timers@[j])@ == (PitChannelView {
                        registers: PitChannelRegisters {
                            tctrl: 0,
                            tflg: with_bit_as(old(pit).timers@[j]@.registers.tflg, TFLG_TIF, false),
                            ..old(pit).timers@[j]@.registers
                        },
                        ..old(pit).timers@[j]@
                    }),
            decreases NUM_PIT_CHANNELS - i,
        {
            let mut timer = pit.timers.remove(i);
            timer.registers.tctrl = 0;
            timer.clear();
            pit.timers.insert(i, timer);
            i = i + 1;
        }
        pit.mcr = MCR_INIT;
    }

    /// Returns `true` if this channel has elapsed.
    pub fn is_elapsed(&self) -> (r: bool)
        ensures
            r == self@.elapsed(),
    {
        is_set(self.registers.tflg, TFLG_TIF)
    }

    /// Clears the elapsed flag.
    fn clear(&mut self)
        ensures
            final(self)@ == (PitChannelView {
                registers: PitChannelRegisters {
                    tflg: with_bit_as(old(self)@.registers.tflg, TFLG_TIF, false),
                    ..old(self)@.registers
                },
                ..old(self)@
            }),
    {
        self.registers.tflg = write_bit(self.registers.tflg, TFLG_TIF, false);
    }

    /// Starts or stops the channel.
    pub fn set_enable(&mut self, enable: bool)
        ensures
            final(self)@ == (PitChannelView {
                registers: PitChannelRegisters {
                    tctrl: with_bit_as(old(self)@.registers.tctrl, TCTRL_TEN, enable),
                    ..old(self)@.registers
                },
                ..old(self)@
            }),
    {
        self.registers.tctrl = write_bit(self.registers.tctrl, TCTRL_TEN, enable);
    }

    /// Returns `true` if the channel counts.
    pub fn is_enabled(&self) -> (r: bool)
        ensures
            r == self@.enabled(),
    {
        is_set(self.registers.tctrl, TCTRL_TEN)
    }

    /// Enables or disables the interrupt raised when the channel elapses.
    pub fn set_interrupt(&mut self, intr: bool)
        ensures
            final(self)@ == (PitChannelView {
                registers: PitChannelRegisters {
                    tctrl: with_bit_as(old(self)@.registers.tctrl, TCTRL_TIE, intr),
                    ..old(self)@.registers
                },
                ..old(self)@
            }),
    {
        self.registers.tctrl = write_bit(self.registers.tctrl, TCTRL_TIE, intr);
    }

    /// Chooses between one-shot (disabled once it has fired) and periodic
    /// (restarting by itself) behaviour.
    pub fn set_oneshot(&mut self, oneshot: bool)
        ensures
            final(self)@ == (PitChannelView { oneshot, ..old(self)@ }),
    {
        self.oneshot = oneshot;
    }

    /// Returns `true` if the channel is one-shot.
    pub fn is_oneshot(&self) -> (r: bool)
        ensures
            r == self@.oneshot,
    {
        self.oneshot
    }

    /// Handles the channel's elapse: clears the flag and, for a one-shot
    /// channel, stops it. The alarm client is then to be told. Callers check
    /// that the channel has elapsed first.
    pub fn handle_interrupt(&mut self)
        ensures
            final(self)@ == handled(old(self)@),
    {
        self.clear();
        if self.oneshot {
            self.set_enable(false);
        }
    }

    /// Returns the counter; it counts down while the channel is enabled.
    pub fn current_time(&self) -> (r: u32)
        ensures
            r == self@.registers.cval,
    {
        self.registers.cval
    }

    /// Returns the value the counter restarts from.
    pub fn load_time(&self) -> (r: u32)
        ensures
            r == self@.registers.ldval,
    {
        self.registers.ldval
    }

    /// Sets the value the counter starts and restarts from.
    pub fn set_load_time(&mut self, ldval: u32)
        ensures
            final(self)@ == (PitChannelView {
                registers: PitChannelRegisters { ldval, ..old(self)@.registers },
                ..old(self)@
            }),
    {
        self.registers.ldval = ldval;
    }

    /// The hardware clocks the channel once.
    pub fn tick(&mut self)
        ensures
            final(self)@ == ticked(old(self)@),
    {
        if is_set(self.registers.tctrl, TCTRL_TEN) {
            if self.registers.cval == 0 {
                self.registers.cval = self.registers.ldval;
                self.registers.tflg = write_bit(self.registers.tflg, TFLG_TIF, true);
            } else {
                self.registers.cval = self.registers.cval - 1;
            }
        }
    }
}

/// Ticks count an enabled channel down one by one without raising its flag
/// while the counter has not passed zero.
proof fn lemma_count_down(c: PitChannelView, k: nat)
    requires
        c.enabled(),
        !c.elapsed(),
        k <= c.registers.cval,
    ensures
        ticked_n(c, k) == (PitChannelView {
            registers: PitChannelRegisters { cval: (c.registers.cval - k) as u32, ..c.registers },
            ..c
        }),
    decreases k,
{
    if k > 0 {
        lemma_count_down(c, (k - 1) as nat);
    }
}

/// A one-shot channel is stopped once its elapse is handled, and ticks then
/// leave it as it is, so it never fires again; a periodic channel is still
/// enabled after its elapse is handled.
pub proof fn lemma_oneshot_stops(c: PitChannelView, k: nat)
    ensures
        c.oneshot ==> !handled(c).enabled(),
        c.oneshot ==> ticked_n(handled(c), k) == handled(c),
        !c.oneshot ==> handled(c).enabled() == c.enabled(),
        !handled(c).elapsed(),
    decreases k,
{
    lemma_write_bit(c.registers.tctrl, TCTRL_TEN, false);
    lemma_write_bit(c.registers.tflg, TFLG_TIF, false);
    if k > 0 {
        lemma_oneshot_stops(c, (k - 1) as nat);
    }
}

/// Before its first elapse a channel stays enabled, whatever its mode; an
/// enabled channel that has just been reloaded elapses exactly `ldval + 1`
/// ticks later, not before, and is then reloaded again, so once its elapse
/// is handled a periodic channel is back where it started and fires again
/// at the same interval.
pub proof fn lemma_periodic_refires(c: PitChannelView, k: nat)
    requires
        c.enabled(),
        !c.elapsed(),
        c.registers.cval == c.registers.ldval,
    ensures
        k <= c.registers.ldval ==> !ticked_n(c, k).elapsed() && ticked_n(c, k).enabled(),
        ticked_n(c, c.registers.ldval as nat + 1).elapsed(),
        ticked_n(c, c.registers.ldval as nat + 1).registers.cval == c.registers.ldval,
        !c.oneshot ==> {
            let again = handled(ticked_n(c, c.registers.ldval as nat + 1));
            &&& again.enabled()
            &&& !again.elapsed()
            &&& again.registers.cval == again.registers.ldval
            &&& again.registers.ldval == c.registers.ldval
        },
{
    if k <= c.registers.ldval {
        lemma_count_down(c, k);
    }
    lemma_count_down(c, c.registers.ldval as nat);
    let last = ticked_n(c, c.registers.ldval as nat + 1);
    lemma_write_bit(c.registers.tflg, TFLG_TIF, true);
    lemma_write_bit(last.registers.tflg, TFLG_TIF, false);
}

} // verus!

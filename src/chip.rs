//! The chip: its peripherals, their start-up sequence, and the dispatcher
//! that routes each pending interrupt to the drivers.
use vstd::prelude::*;
use crate::ccm::{
    ClockActivity,
    ClockControlModule,
    ClockGate,
    PeriodicClockSelect,
    UartClockSelect,
    OSCILLATOR_CLOCK_FREQUENCY,
    lemma_activity_round_trip,
};
use crate::dma::{DmaChannel, DmaChannelState, DmaHardwareSource};
use crate::gpt::{FreqGpt, GeneralPurposeTimer, handled};
use crate::pit::{Pit, NUM_PIT_CHANNELS, MCR_INIT};
use crate::uart::{Uart, UartCompletion, dma_completions, receive_serviced, transmit_serviced};

verus! {

/// First interrupt line of the DMA channels (DMA0_DMA16).
pub const DMA0_DMA16: u32 = 0;
/// DMA error interrupt line, the last of the DMA range.
pub const DMA_ERROR: u32 = 16;
/// GPT1 interrupt line.
pub const GPT1_IRQ: u32 = 100;
/// GPT2 interrupt line.
pub const GPT2_IRQ: u32 = 101;
/// PIT interrupt line, shared by its four channels.
pub const PIT_IRQ: u32 = 122;

/// DMA channel that moves UART2 transmit data.
pub const UART2_TX_DMA_CHANNEL: usize = 4;
/// DMA channel that moves UART2 receive data; it shares its interrupt line
/// with the transmit channel, 16 channels below.
pub const UART2_RX_DMA_CHANNEL: usize = 20;
/// UART2's parameter register: transmit and receive FIFOs of 4 entries.
pub const UART2_PARAM: u32 = 0x0202;

/// The divider of the UART clock root: the oscillator undivided.
pub const UART_CLOCK_DIVIDER: u8 = 1;
/// The divider of the periodic clock root: 24 MHz down to 8 MHz.
pub const PERIODIC_CLOCK_DIVIDER: u8 = 3;

/// What servicing one interrupt did, for the caller to finish: clear and
/// re-enable interrupt line `line`, and tell each client listed here.
pub struct ServicedInterrupt {
    /// The interrupt line serviced.
    pub line: u32,
    /// Completion for UART2's transmit client.
    pub uart_transmit: Option<UartCompletion>,
    /// Completion for UART2's receive client.
    pub uart_receive: Option<UartCompletion>,
    /// For each PIT channel, whether its handler ran.
    pub pit_alarms: Vec<bool>,
    /// GPT1's alarm fired.
    pub gpt1_alarm: bool,
    /// GPT2's alarm fired.
    pub gpt2_alarm: bool,
}

/// The i.MX RT1060 and the peripherals this kernel drives.
pub struct Imxrt1060 {
    /// Clock control module.
    pub ccm: ClockControlModule,
    /// UART2, the debug console.
    pub uart2: Uart,
    /// Periodic interrupt timer.
    pub pit: Pit,
    /// General purpose timer 1.
    pub gpt1: GeneralPurposeTimer,
    /// General purpose timer 2.
    pub gpt2: GeneralPurposeTimer,
    /// Counting frequency of both general purpose timers.
    pub gpt_frequency: FreqGpt,
    /// Clock gate of the DMA controller.
    pub dma_clock_gate: ClockGate,
}

impl Imxrt1060 {
    /// Every peripheral is well formed.
    pub open spec fn wf(&self) -> bool {
        &&& self.ccm.wf()
        &&& self.uart2@.wf()
        &&& self.pit.wf()
        &&& self.gpt1@.wf()
        &&& self.gpt2@.wf()
        &&& self.dma_clock_gate.wf()
    }

    /// Prepares the chip: UART2's clock off and its clock root on the
    /// oscillator, the periodic clock at 8 MHz, both timers initialized
    /// (the general purpose timers then count at 1 MHz), the DMA clock on,
    /// and UART2's two DMA channels bound.
    pub fn new() -> (r: Imxrt1060)
        ensures
            r.wf(),
            r.ccm.uart_clock_is_oscillator(),
            r.ccm.uart_clock_frequency() == OSCILLATOR_CLOCK_FREQUENCY,
            r.gpt_frequency.spec_frequency() == 1_000_000,
            r.pit.mcr == MCR_INIT,
            r.uart2@.transmit.channel == Some(
                DmaChannelState {
                    channel: UART2_TX_DMA_CHANNEL,
                    hardware_source: Some(DmaHardwareSource::Uart2Transfer),
                    transfer_len: 0,
                    enabled: false,
                    interrupt_on_completion: true,
                    disable_on_completion: true,
                    interrupt: false,
                    error: false,
                    hardware_signaling: false,
                },
            ),
            r.uart2@.receiver.channel == Some(
                DmaChannelState {
                    channel: UART2_RX_DMA_CHANNEL,
                    hardware_source: Some(DmaHardwareSource::Uart2Receive),
                    transfer_len: 0,
                    enabled: false,
                    interrupt_on_completion: true,
                    disable_on_completion: true,
                    interrupt: false,
                    error: false,
                    hardware_signaling: false,
                },
            ),
            !r.uart2@.transmit.in_flight(),
            !r.uart2@.receiver.in_flight(),
            r.uart2@.clock_gate.activity_in(r.ccm.gates()) == Some(ClockActivity::Off),
            r.pit.clock_gate.activity_in(r.ccm.gates()) == Some(ClockActivity::On),
            r.gpt1@.serial_clock_gate.activity_in(r.ccm.gates()) == Some(ClockActivity::On),
            r.gpt1@.bus_clock_gate.activity_in(r.ccm.gates()) == Some(ClockActivity::On),
            r.gpt2@.serial_clock_gate.activity_in(r.ccm.gates()) == Some(ClockActivity::On),
            r.gpt2@.bus_clock_gate.activity_in(r.ccm.gates()) == Some(ClockActivity::On),
            r.dma_clock_gate.activity_in(r.ccm.gates()) == Some(ClockActivity::On),
    {
        let mut ccm = ClockControlModule::new();
        let uart2_gate = ClockGate::new(0, 14);
        let pit_gate = ClockGate::new(1, 6);
        let gpt1_serial = ClockGate::new(1, 11);
        let gpt1_bus = ClockGate::new(1, 10);
        let gpt2_serial = ClockGate::new(0, 13);
        let gpt2_bus = ClockGate::new(0, 12);
        let dma_gate = ClockGate::new(5, 3);
        let mut uart2 = Uart::new(
            uart2_gate,
            UART2_PARAM,
            DmaHardwareSource::Uart2Transfer,
            DmaHardwareSource::Uart2Receive,
        );
        let mut pit = Pit::new(pit_gate);
        let mut gpt1 = GeneralPurposeTimer::new(gpt1_serial, gpt1_bus);
        let mut gpt2 = GeneralPurposeTimer::new(gpt2_serial, gpt2_bus);
        let ghost g0 = ccm.gates();
        uart2.disable_clock(&mut ccm);
        let ghost g1 = ccm.gates();
        ccm.set_uart_clock_selection_divider(UartClockSelect::Oscillator, UART_CLOCK_DIVIDER);
        assert(crate::ccm::podf_of(UART_CLOCK_DIVIDER) == 0);
        assert(OSCILLATOR_CLOCK_FREQUENCY / 1 == OSCILLATOR_CLOCK_FREQUENCY) by (nonlinear_arith);
        assert(ccm.uart_clock_frequency() == OSCILLATOR_CLOCK_FREQUENCY);
        let ghost uart_clock = ccm.cscdr1();
        let perclk_freq = ccm.set_periodic_clock_selection_divider(
            PeriodicClockSelect::Oscillator,
            PERIODIC_CLOCK_DIVIDER,
        );
        assert(crate::ccm::podf_of(PERIODIC_CLOCK_DIVIDER) == 2);
        assert(OSCILLATOR_CLOCK_FREQUENCY / 3 == 8_000_000) by (nonlinear_arith);
        assert(perclk_freq == 8_000_000);
        crate::pit::PeriodicInterruptTimer::initialize(&mut ccm, &mut pit);
        let ghost g2 = ccm.gates();
        let gpt_frequency = GeneralPurposeTimer::initialize(&mut ccm, &mut gpt1, &mut gpt2, perclk_freq);
        let ghost g6 = ccm.gates();
        dma_gate.set_activity(&mut ccm, ClockActivity::On);
        let ghost g7 = ccm.gates();
        uart2.set_tx_dma_channel(DmaChannel::new(UART2_TX_DMA_CHANNEL));
        uart2.set_rx_dma_channel(DmaChannel::new(UART2_RX_DMA_CHANNEL));
        assert(ccm.cscdr1() == uart_clock);
        proof {
            let h2 = g2;
            let h3 = gpt1_serial.set_in(h2, ClockActivity::On);
            let h4 = gpt1_bus.set_in(h3, ClockActivity::On);
            let h5 = gpt2_serial.set_in(h4, ClockActivity::On);
            assert(g6 == gpt2_bus.set_in(h5, ClockActivity::On));
            lemma_activity_round_trip(g0, uart2_gate, ClockActivity::Off, pit_gate);
            lemma_activity_round_trip(g1, pit_gate, ClockActivity::On, gpt1_serial);
            lemma_activity_round_trip(g1, pit_gate, ClockActivity::On, uart2_gate);
            lemma_activity_round_trip(h2, gpt1_serial, ClockActivity::On, gpt1_bus);
            lemma_activity_round_trip(h2, gpt1_serial, ClockActivity::On, uart2_gate);
            lemma_activity_round_trip(h2, gpt1_serial, ClockActivity::On, pit_gate);
            lemma_activity_round_trip(h3, gpt1_bus, ClockActivity::On, gpt2_serial);
            lemma_activity_round_trip(h3, gpt1_bus, ClockActivity::On, uart2_gate);
            lemma_activity_round_trip(h3, gpt1_bus, ClockActivity::On, pit_gate);
            lemma_activity_round_trip(h3, gpt1_bus, ClockActivity::On, gpt1_serial);
            lemma_activity_round_trip(h4, gpt2_serial, ClockActivity::On, gpt2_bus);
            lemma_activity_round_trip(h4, gpt2_serial, ClockActivity::On, uart2_gate);
            lemma_activity_round_trip(h4, gpt2_serial, ClockActivity::On, pit_gate);
            lemma_activity_round_trip(h4, gpt2_serial, ClockActivity::On, gpt1_serial);
            lemma_activity_round_trip(h4, gpt2_serial, ClockActivity::On, gpt1_bus);
            lemma_activity_round_trip(h5, gpt2_bus, ClockActivity::On, dma_gate);
            lemma_activity_round_trip(h5, gpt2_bus, ClockActivity::On, uart2_gate);
            lemma_activity_round_trip(h5, gpt2_bus, ClockActivity::On, pit_gate);
            lemma_activity_round_trip(h5, gpt2_bus, ClockActivity::On, gpt1_serial);
            lemma_activity_round_trip(h5, gpt2_bus, ClockActivity::On, gpt1_bus);
            lemma_activity_round_trip(h5, gpt2_bus, ClockActivity::On, gpt2_serial);
            lemma_activity_round_trip(g6, dma_gate, ClockActivity::On, uart2_gate);
            lemma_activity_round_trip(g6, dma_gate, ClockActivity::On, pit_gate);
            lemma_activity_round_trip(g6, dma_gate, ClockActivity::On, gpt1_serial);
            lemma_activity_round_trip(g6, dma_gate, ClockActivity::On, gpt1_bus);
            lemma_activity_round_trip(g6, dma_gate, ClockActivity::On, gpt2_serial);
            lemma_activity_round_trip(g6, dma_gate, ClockActivity::On, gpt2_bus);
        }
        Imxrt1060 { ccm, uart2, pit, gpt1, gpt2, gpt_frequency, dma_clock_gate: dma_gate }
    }

    /// Services the pending interrupt `interrupt`.
    ///
    /// On a DMA line every UART2 channel that raised a flag is serviced
    /// (channels share lines in pairs, so not only the one that raised the
    /// line); on the PIT line the handler of each elapsed channel runs, and
    /// of no other; on a GPT line that timer's handler runs; any other line
    /// is ignored. The line is returned to be cleared and re-enabled in
    /// every case.
    pub fn service_pending_interrupts(&mut self, interrupt: u32) -> (r: ServicedInterrupt)
        requires
            old(self).wf(),
        ensures
            final(self).wf(),
            r.line == interrupt,
            final(self).ccm == old(self).ccm,
            final(self).gpt_frequency == old(self).gpt_frequency,
            final(self).dma_clock_gate == old(self).dma_clock_gate,
            r.pit_alarms@.len() == NUM_PIT_CHANNELS,
            DMA0_DMA16 <= interrupt <= DMA_ERROR ==> {
                &&& final(self).uart2@ == receive_serviced(transmit_serviced(old(self).uart2@))
                &&& dma_completions(old(self).uart2@, r.uart_transmit, r.uart_receive)
            },
            !(DMA0_DMA16 <= interrupt <= DMA_ERROR) ==> {
                &&& final(self).uart2@ == old(self).uart2@
                &&& r.uart_transmit.is_none()
                &&& r.uart_receive.is_none()
            },
            interrupt == PIT_IRQ ==> forall|i: int|
                0 <= i < NUM_PIT_CHANNELS ==> {
                    &&& #[trigger] r.pit_alarms@[i] == old(self).pit.timers@[i]@.elapsed()
                    &&& final(self).pit.timers@[i]@ == if old(self).pit.timers@[i]@.elapsed() {
                        crate::pit::handled(old(self).pit.timers@[i]@)
                    } else {
                        old(self).pit.timers@[i]@
                    }
                },
            interrupt == PIT_IRQ ==> final(self).pit.mcr == old(self).pit.mcr
                && final(self).pit.clock_gate == old(self).pit.clock_gate,
            interrupt != PIT_IRQ ==> final(self).pit == old(self).pit && forall|i: int|
                0 <= i < NUM_PIT_CHANNELS ==> !#[trigger] r.pit_alarms@[i],
            r.gpt1_alarm == (interrupt == GPT1_IRQ && old(self).gpt1@.alarm_pending()),
            final(self).gpt1@ == if interrupt == GPT1_IRQ {
                handled(old(self).gpt1@)
            } else {
                old(self).gpt1@
            },
            r.gpt2_alarm == (interrupt == GPT2_IRQ && old(self).gpt2@.alarm_pending()),
            final(self).gpt2@ == if interrupt == GPT2_IRQ {
                handled(old(self).gpt2@)
            } else {
                old(self).gpt2@
            },
    {
        let mut uart_transmit: Option<UartCompletion> = None;
        let mut uart_receive: Option<UartCompletion> = None;
        let mut gpt1_alarm = false;
        let mut gpt2_alarm = false;
        let pit_alarms: Vec<bool>;
        if DMA0_DMA16 <= interrupt && interrupt <= DMA_ERROR {
            let (tx, rx) = self.uart2.handle_dma_interrupts();
            uart_transmit = tx;
            uart_receive = rx;
            pit_alarms = no_alarms();
        } else if interrupt == PIT_IRQ {
            pit_alarms = self.pit.handle_elapsed();
        } else if interrupt == GPT1_IRQ {
            gpt1_alarm = self.gpt1.handle_interrupt();
            pit_alarms = no_alarms();
        } else if interrupt == GPT2_IRQ {
            gpt2_alarm = self.gpt2.handle_interrupt();
            pit_alarms = no_alarms();
        } else {
            pit_alarms = no_alarms();
        }
        ServicedInterrupt {
            line: interrupt,
            uart_transmit,
            uart_receive,
            pit_alarms,
            gpt1_alarm,
            gpt2_alarm,
        }
    }
}

/// No PIT channel's handler ran.
fn no_alarms() -> (r: Vec<bool>)
    ensures
        r@.len() == NUM_PIT_CHANNELS,
        forall|i: int| 0 <= i < NUM_PIT_CHANNELS ==> !#[trigger] r@[i],
{
    let mut r: Vec<bool> = Vec::new();
    let mut i: usize = 0;
    while i < NUM_PIT_CHANNELS
        invariant
            i <= NUM_PIT_CHANNELS,
            r@.len() == i,
            forall|j: int| 0 <= j < i ==> !#[trigger] r@[j],
        decreases NUM_PIT_CHANNELS - i,
    {
        r.push(false);
        i = i + 1;
    }
    r
}

} // verus!

use imxrt1060::ccm::{ClockActivity, ClockGate};
use imxrt1060::chip::{Imxrt1060, DMA_ERROR, GPT1_IRQ, GPT2_IRQ, PIT_IRQ};
use imxrt1060::hil::{Parameters, Parity, ReturnCode, StopBits, Width};
use imxrt1060::uart::UartCompletion;

fn elapse(chip: &mut Imxrt1060, channel: usize) {
    let t = &mut chip.pit.timers[channel];
    t.set_load_time(10);
    t.set_enable(true);
    t.tick();
    assert!(t.is_elapsed());
}

#[test]
fn chip_start_up() {
    let chip = Imxrt1060::new();
    assert_eq!(chip.ccm.get_uart_clock_frequency(), 24_000_000);
    assert_eq!(chip.gpt_frequency.frequency(), 1_000_000);
    assert_eq!(chip.uart2.transmit_channel().unwrap().channel, 4);
    assert_eq!(chip.uart2.receive_channel().unwrap().channel, 20);
    assert_eq!(ClockGate::new(0, 14).get_activity(&chip.ccm), Some(ClockActivity::Off));
    for (r, f) in [(1, 6), (1, 11), (1, 10), (0, 13), (0, 12), (5, 3)] {
        assert_eq!(ClockGate::new(r, f).get_activity(&chip.ccm), Some(ClockActivity::On));
    }
}

#[test]
fn pit_dispatch_runs_only_elapsed_channels() {
    let mut chip = Imxrt1060::new();
    elapse(&mut chip, 1);
    elapse(&mut chip, 3);
    let r = chip.service_pending_interrupts(PIT_IRQ);
    assert_eq!(r.line, PIT_IRQ);
    assert_eq!(r.pit_alarms, vec![false, true, false, true]);
    for t in chip.pit.timers.iter() {
        assert!(!t.is_elapsed());
    }
    // One-shot channels were stopped by their handlers.
    assert!(!chip.pit.timers[1].is_enabled());
    assert!(!chip.pit.timers[3].is_enabled());
}

#[test]
fn pit_dispatch_with_no_flag_runs_nothing() {
    let mut chip = Imxrt1060::new();
    chip.pit.timers[2].set_enable(true);
    let r = chip.service_pending_interrupts(PIT_IRQ);
    assert_eq!(r.line, PIT_IRQ);
    assert_eq!(r.pit_alarms, vec![false; 4]);
    assert!(chip.pit.timers[2].is_enabled());
}

#[test]
fn gpt_dispatch_goes_to_its_timer() {
    let mut chip = Imxrt1060::new();
    chip.gpt1.set_alarm(10);
    chip.gpt1.advance(10);
    chip.gpt2.set_alarm(10);
    chip.gpt2.advance(10);
    let r = chip.service_pending_interrupts(GPT2_IRQ);
    assert!(r.gpt2_alarm && !r.gpt1_alarm);
    let r = chip.service_pending_interrupts(GPT1_IRQ);
    assert!(r.gpt1_alarm && !r.gpt2_alarm);
    let r = chip.service_pending_interrupts(GPT1_IRQ);
    assert!(!r.gpt1_alarm);
}

#[test]
fn other_lines_are_ignored() {
    let mut chip = Imxrt1060::new();
    elapse(&mut chip, 0);
    chip.gpt1.set_alarm(1);
    chip.gpt1.advance(1);
    let r = chip.service_pending_interrupts(55);
    assert_eq!(r.line, 55);
    assert_eq!(r.pit_alarms, vec![false; 4]);
    assert!(!r.gpt1_alarm && !r.gpt2_alarm);
    assert!(r.uart_transmit.is_none() && r.uart_receive.is_none());
    assert!(chip.pit.timers[0].is_elapsed());
    assert!(chip.gpt1.handle_interrupt());
}

#[test]
fn dma_dispatch_delivers_uart_completion() {
    let mut chip = Imxrt1060::new();
    let params = Parameters {
        baud_rate: 115_200,
        width: Width::Eight,
        parity: Parity::NoParity,
        stop_bits: StopBits::One,
        hw_flow_control: false,
    };
    assert_eq!(chip.uart2.configure(&mut chip.ccm, params), ReturnCode::SUCCESS);
    let (code, _) = chip.uart2.transmit_buffer(b"hello".to_vec(), 5);
    assert_eq!(code, ReturnCode::SUCCESS);
    chip.uart2.end_dma_transfer(true, false);
    // Channel 4 raises line 4; the dispatcher finds it on any DMA line.
    let r = chip.service_pending_interrupts(DMA_ERROR);
    assert_eq!(r.line, DMA_ERROR);
    match r.uart_transmit {
        Some(UartCompletion::Transmitted { buffer, len, code }) => {
            assert_eq!(buffer, b"hello".to_vec());
            assert_eq!(len, 5);
            assert_eq!(code, ReturnCode::SUCCESS);
        }
        _ => panic!("expected a transmit completion"),
    }
    assert!(r.uart_receive.is_none());
    assert!(!chip.uart2.is_transmitting());
}

use imxrt1060::ccm::{ClockActivity, ClockControlModule, ClockGate, UartClockSelect};
use imxrt1060::dma::{DmaChannel, DmaHardwareSource};
use imxrt1060::hil::{Parameters, Parity, ReturnCode, StopBits, UartError, Width};
use imxrt1060::uart::{find_baud_divisors, BaudDivisors, Uart, UartCompletion, UartRegisters};

fn new_uart() -> Uart {
    Uart::new(
        ClockGate::new(0, 14),
        0x0202,
        DmaHardwareSource::Uart2Transfer,
        DmaHardwareSource::Uart2Receive,
    )
}

fn ready_uart() -> Uart {
    let mut uart = new_uart();
    uart.set_tx_dma_channel(DmaChannel::new(4));
    uart.set_rx_dma_channel(DmaChannel::new(20));
    uart.enable_transmit();
    uart.enable_receive();
    uart
}

fn error_of(clock: u32, baud: u32, osr: u32) -> u64 {
    let sbr = ((clock / baud) / osr).clamp(1, 8191);
    let achieved = clock / (osr * sbr);
    (achieved as i64 - baud as i64).unsigned_abs()
}

#[test]
fn baud_search_reference_case() {
    let d = find_baud_divisors(24_000_000, 115_200);
    assert_eq!(d, BaudDivisors { osr: 4, sbr: 52 });
    assert_eq!(24_000_000 / (d.osr * d.sbr), 115_384);
    assert_eq!(error_of(24_000_000, 115_200, 4), 184);
}

#[test]
fn baud_search_is_optimal_lowest_ratio_on_ties() {
    let clocks = [24_000_000u32, 8_000_000, 80_000_000, 1_000, 3, u32::MAX];
    let bauds = [1u32, 300, 9600, 19_200, 115_200, 1_000_000, 3_000_000, u32::MAX];
    for &clock in &clocks {
        for &baud in &bauds {
            let d = find_baud_divisors(clock, baud);
            assert!((4..=32).contains(&d.osr));
            assert!((1..=8191).contains(&d.sbr));
            assert_eq!(d.sbr, ((clock / baud) / d.osr).clamp(1, 8191));
            let best = error_of(clock, baud, d.osr);
            for osr in 4..=32 {
                let e = error_of(clock, baud, osr);
                assert!(best <= e);
                if osr < d.osr {
                    assert!(best < e);
                }
            }
        }
    }
}

#[test]
fn baud_search_slow_clock_uses_smallest_divisor() {
    let d = find_baud_divisors(1_000, 115_200);
    assert_eq!(d, BaudDivisors { osr: 4, sbr: 1 });
    let d = find_baud_divisors(3, u32::MAX);
    assert_eq!(d.osr, 4);
    assert_eq!(d.sbr, 1);
}

#[test]
fn set_baud_programs_divisors_and_keeps_enables() {
    let mut ccm = ClockControlModule::new();
    ccm.set_uart_clock_selection_divider(UartClockSelect::Oscillator, 1);
    let mut uart = new_uart();
    uart.enable_transmit();
    uart.set_baud(&ccm, 115_200);
    let regs = uart.registers();
    assert_eq!((regs.baud >> 24) & 0x1f, 3);
    assert_eq!(regs.baud & 0x1fff, 52);
    assert_eq!((regs.baud >> 17) & 1, 1);
    assert!(uart.is_transmit_enabled());
    assert!(!uart.is_receive_enabled());
    // Both FIFOs were flushed.
    assert_eq!((regs.fifo >> 14) & 0b11, 0b11);
}

#[test]
fn set_baud_without_both_edge_at_high_ratio() {
    let mut ccm = ClockControlModule::new();
    ccm.set_uart_clock_selection_divider(UartClockSelect::Oscillator, 1);
    let mut uart = new_uart();
    uart.set_baud(&ccm, 9600);
    let d = find_baud_divisors(24_000_000, 9600);
    let regs = uart.registers();
    assert_eq!((regs.baud >> 24) & 0x1f, d.osr - 1);
    assert_eq!(regs.baud & 0x1fff, d.sbr);
    assert_eq!((regs.baud >> 17) & 1, (d.osr < 8) as u32);
}

#[test]
fn transmit_succeeds_and_holds_buffer() {
    let mut uart = ready_uart();
    let (code, back) = uart.transmit_buffer(vec![1, 2, 3, 4], 3);
    assert_eq!(code, ReturnCode::SUCCESS);
    assert!(back.is_none());
    assert!(uart.is_transmitting());
    let ch = uart.transmit_channel().unwrap();
    assert_eq!(ch.transfer_len, 3);
    assert!(ch.enabled);
    assert_eq!((uart.registers().baud >> 23) & 1, 1);
}

#[test]
fn transmit_while_busy_is_rejected() {
    let mut uart = ready_uart();
    let (code, _) = uart.transmit_buffer(vec![9; 8], 8);
    assert_eq!(code, ReturnCode::SUCCESS);
    let regs = uart.registers();
    let channel = uart.transmit_channel();
    let (code, back) = uart.transmit_buffer(vec![7, 7], 2);
    assert_eq!(code, ReturnCode::EBUSY);
    assert_eq!(back, Some(vec![7, 7]));
    assert_eq!(uart.registers(), regs);
    assert_eq!(uart.transmit_channel(), channel);
    assert!(uart.is_transmitting());
}

#[test]
fn transmit_errors_in_order() {
    let mut uart = new_uart();
    // Transmitter off comes before the size check.
    let (code, back) = uart.transmit_buffer(vec![1], 5);
    assert_eq!(code, ReturnCode::EOFF);
    assert_eq!(back, Some(vec![1]));
    uart.enable_transmit();
    let (code, back) = uart.transmit_buffer(vec![1], 5);
    assert_eq!(code, ReturnCode::ESIZE);
    assert_eq!(back, Some(vec![1]));
    let (code, back) = uart.transmit_buffer(vec![1, 2], 2);
    assert_eq!(code, ReturnCode::FAIL);
    assert_eq!(back, Some(vec![1, 2]));
    assert!(!uart.is_transmitting());
    assert_eq!(uart.registers().baud, 0);
}

#[test]
fn transmit_word_and_receive_word_unsupported() {
    let uart = new_uart();
    assert_eq!(uart.transmit_word(0x41), ReturnCode::FAIL);
    assert_eq!(uart.receive_word(), ReturnCode::FAIL);
}

#[test]
fn transmit_completion_returns_buffer_and_resets() {
    let mut uart = ready_uart();
    let (code, _) = uart.transmit_buffer(vec![5, 6, 7], 2);
    assert_eq!(code, ReturnCode::SUCCESS);
    let done = uart.transfer_complete(Ok(DmaHardwareSource::Uart2Transfer));
    match done {
        Some(UartCompletion::Transmitted { buffer, len, code }) => {
            assert_eq!(buffer, vec![5, 6, 7]);
            assert_eq!(len, 2);
            assert_eq!(code, ReturnCode::SUCCESS);
        }
        _ => panic!("expected a transmit completion"),
    }
    assert!(!uart.is_transmitting());
    assert_eq!((uart.registers().baud >> 23) & 1, 0);
    let (code, back) = uart.transmit_buffer(vec![8], 1);
    assert_eq!(code, ReturnCode::SUCCESS);
    assert!(back.is_none());
}

#[test]
fn transmit_completion_with_fifo_overflow_fails() {
    let mut uart = ready_uart();
    uart.transmit_buffer(vec![1], 1);
    let mut regs = uart.registers();
    regs.fifo |= 1 << 17;
    uart.set_registers(regs);
    match uart.transfer_complete(Ok(DmaHardwareSource::Uart2Transfer)) {
        Some(UartCompletion::Transmitted { code, .. }) => assert_eq!(code, ReturnCode::FAIL),
        _ => panic!("expected a transmit completion"),
    }
}

#[test]
fn transmit_dma_error_fails() {
    let mut uart = ready_uart();
    uart.transmit_buffer(vec![1, 2], 2);
    match uart.transfer_complete(Err(DmaHardwareSource::Uart2Transfer)) {
        Some(UartCompletion::Transmitted { buffer, len, code }) => {
            assert_eq!(buffer, vec![1, 2]);
            assert_eq!(len, 2);
            assert_eq!(code, ReturnCode::FAIL);
        }
        _ => panic!("expected a transmit completion"),
    }
    assert!(!uart.is_transmitting());
}

#[test]
fn completion_without_transfer_hands_back_nothing() {
    let mut uart = ready_uart();
    assert!(uart.transfer_complete(Ok(DmaHardwareSource::Uart2Transfer)).is_none());
    assert!(uart.transfer_complete(Err(DmaHardwareSource::Uart2Receive)).is_none());
}

#[test]
fn receive_clears_status_and_completes() {
    let mut uart = ready_uart();
    let mut regs = uart.registers();
    regs.stat = (1 << 16) | (1 << 17) | (1 << 19) | (1 << 20) | (1 << 23);
    uart.set_registers(regs);
    let (code, back) = uart.receive_buffer(vec![0; 4], 4);
    assert_eq!(code, ReturnCode::SUCCESS);
    assert!(back.is_none());
    // Error and idle flags cleared, transmit-empty kept.
    assert_eq!(uart.registers().stat, 1 << 23);
    assert_eq!((uart.registers().baud >> 21) & 1, 1);
    assert!(uart.is_receiving());
    match uart.transfer_complete(Ok(DmaHardwareSource::Uart2Receive)) {
        Some(UartCompletion::Received { buffer, len, code, error }) => {
            assert_eq!(buffer, vec![0; 4]);
            assert_eq!(len, 4);
            assert_eq!(code, ReturnCode::SUCCESS);
            assert_eq!(error, UartError::NoError);
        }
        _ => panic!("expected a receive completion"),
    }
    assert!(!uart.is_receiving());
}

fn receive_with_status(stat: u32) -> (ReturnCode, UartError) {
    let mut uart = ready_uart();
    uart.receive_buffer(vec![0; 2], 2);
    let mut regs = uart.registers();
    regs.stat = stat;
    uart.set_registers(regs);
    match uart.transfer_complete(Ok(DmaHardwareSource::Uart2Receive)) {
        Some(UartCompletion::Received { code, error, .. }) => (code, error),
        _ => panic!("expected a receive completion"),
    }
}

#[test]
fn receive_line_errors_are_classified() {
    assert_eq!(
        receive_with_status(1 << 16),
        (ReturnCode::FAIL, UartError::ParityError)
    );
    assert_eq!(
        receive_with_status(1 << 17),
        (ReturnCode::FAIL, UartError::FramingError)
    );
    assert_eq!(
        receive_with_status(1 << 19),
        (ReturnCode::FAIL, UartError::OverrunError)
    );
    assert_eq!(
        receive_with_status((1 << 17) | (1 << 19)),
        (ReturnCode::FAIL, UartError::FramingError)
    );
    assert_eq!(
        receive_with_status(1 << 18),
        (ReturnCode::SUCCESS, UartError::NoError)
    );
}

#[test]
fn receive_dma_error_is_aborted() {
    let mut uart = ready_uart();
    uart.receive_buffer(vec![3; 3], 1);
    match uart.transfer_complete(Err(DmaHardwareSource::Uart2Receive)) {
        Some(UartCompletion::Received { buffer, len, code, error }) => {
            assert_eq!(buffer, vec![3; 3]);
            assert_eq!(len, 1);
            assert_eq!(code, ReturnCode::FAIL);
            assert_eq!(error, UartError::Aborted);
        }
        _ => panic!("expected a receive completion"),
    }
}

#[test]
fn receive_errors() {
    let mut uart = new_uart();
    let (code, back) = uart.receive_buffer(vec![1, 2], 2);
    assert_eq!(code, ReturnCode::EOFF);
    assert_eq!(back, Some(vec![1, 2]));
    uart.enable_receive();
    let (code, _) = uart.receive_buffer(vec![1, 2], 3);
    assert_eq!(code, ReturnCode::ESIZE);
    let (code, _) = uart.receive_buffer(vec![1, 2], 2);
    assert_eq!(code, ReturnCode::FAIL);
    uart.set_rx_dma_channel(DmaChannel::new(20));
    let (code, _) = uart.receive_buffer(vec![1, 2], 2);
    assert_eq!(code, ReturnCode::SUCCESS);
    let (code, back) = uart.receive_buffer(vec![4], 1);
    assert_eq!(code, ReturnCode::EBUSY);
    assert_eq!(back, Some(vec![4]));
}

#[test]
fn abort_waits_for_request_release() {
    let mut uart = ready_uart();
    uart.transmit_buffer(vec![1, 2, 3], 3);
    uart.set_dma_request(true, true);
    assert_eq!(uart.transmit_abort(), ReturnCode::EBUSY);
    assert_eq!((uart.registers().baud >> 23) & 1, 0);
    assert!(uart.transmit_channel().unwrap().enabled);
    uart.set_dma_request(true, false);
    assert_eq!(uart.transmit_abort(), ReturnCode::SUCCESS);
    assert!(!uart.transmit_channel().unwrap().enabled);
    // The buffer stays with the driver until a completion hands it back.
    assert!(uart.is_transmitting());
}

#[test]
fn receive_abort_disables_channel() {
    let mut uart = ready_uart();
    uart.receive_buffer(vec![0; 2], 2);
    assert_eq!(uart.receive_abort(), ReturnCode::SUCCESS);
    assert!(!uart.receive_channel().unwrap().enabled);
    assert_eq!((uart.registers().baud >> 21) & 1, 0);
    let mut bare = new_uart();
    assert_eq!(bare.receive_abort(), ReturnCode::SUCCESS);
}

#[test]
fn dma_channels_are_bound_to_their_request_lines() {
    let uart = ready_uart();
    let tx = uart.transmit_channel().unwrap();
    assert_eq!(tx.channel, 4);
    assert_eq!(tx.hardware_source, Some(DmaHardwareSource::Uart2Transfer));
    assert!(tx.interrupt_on_completion && tx.disable_on_completion);
    let rx = uart.receive_channel().unwrap();
    assert_eq!(rx.channel, 20);
    assert_eq!(rx.hardware_source, Some(DmaHardwareSource::Uart2Receive));
}

#[test]
fn dma_interrupts_complete_signalling_channels() {
    let mut uart = ready_uart();
    uart.transmit_buffer(vec![1, 2], 2);
    uart.receive_buffer(vec![0; 3], 3);
    let (tx, rx) = uart.handle_dma_interrupts();
    assert!(tx.is_none() && rx.is_none());
    uart.end_dma_transfer(true, false);
    assert!(uart.transmit_channel().unwrap().interrupt);
    assert!(!uart.transmit_channel().unwrap().enabled);
    let (tx, rx) = uart.handle_dma_interrupts();
    assert!(matches!(
        tx,
        Some(UartCompletion::Transmitted { code: ReturnCode::SUCCESS, len: 2, .. })
    ));
    assert!(rx.is_none());
    assert!(!uart.transmit_channel().unwrap().interrupt);
    assert!(uart.is_receiving());
    uart.end_dma_transfer(false, true);
    let (tx, rx) = uart.handle_dma_interrupts();
    assert!(tx.is_none());
    assert!(matches!(
        rx,
        Some(UartCompletion::Received { error: UartError::Aborted, code: ReturnCode::FAIL, .. })
    ));
}

fn params(baud_rate: u32) -> Parameters {
    Parameters {
        baud_rate,
        width: Width::Eight,
        parity: Parity::NoParity,
        stop_bits: StopBits::One,
        hw_flow_control: false,
    }
}

#[test]
fn configure_rejects_bad_parameters() {
    let mut ccm = ClockControlModule::new();
    ccm.set_uart_clock_selection_divider(UartClockSelect::Oscillator, 1);
    let mut uart = new_uart();
    assert_eq!(uart.configure(&mut ccm, params(9599)), ReturnCode::EINVAL);
    let mut p = params(9600);
    p.stop_bits = StopBits::Two;
    assert_eq!(uart.configure(&mut ccm, p), ReturnCode::ENOSUPPORT);
    let mut p = params(115_200);
    p.width = Width::Seven;
    assert_eq!(uart.configure(&mut ccm, p), ReturnCode::ENOSUPPORT);
    let mut p = params(115_200);
    p.hw_flow_control = true;
    assert_eq!(uart.configure(&mut ccm, p), ReturnCode::ENOSUPPORT);
    assert_eq!(uart.registers().ctrl, 0);
    assert_eq!(ClockGate::new(0, 14).get_activity(&ccm), Some(ClockActivity::Off));
}

#[test]
fn configure_enables_and_sets_line() {
    let mut ccm = ClockControlModule::new();
    ccm.set_uart_clock_selection_divider(UartClockSelect::Oscillator, 1);
    let mut uart = new_uart();
    let mut p = params(115_200);
    p.parity = Parity::Odd;
    assert_eq!(uart.configure(&mut ccm, p), ReturnCode::SUCCESS);
    assert!(uart.is_transmit_enabled());
    assert!(uart.is_receive_enabled());
    assert_eq!(ClockGate::new(0, 14).get_activity(&ccm), Some(ClockActivity::On));
    let regs = uart.registers();
    assert_eq!(regs.ctrl & 0b10011, 0b10011);
    assert_eq!(regs.baud & 0x1fff, 52);
    assert_eq!((regs.baud >> 24) & 0x1f, 3);
}

#[test]
fn parity_settings() {
    let mut uart = new_uart();
    uart.enable_receive();
    uart.set_parity(Parity::Even);
    assert_eq!(uart.registers().ctrl & 0b10011, 0b10010);
    uart.set_parity(Parity::Odd);
    assert_eq!(uart.registers().ctrl & 0b10011, 0b10011);
    uart.set_parity(Parity::NoParity);
    assert_eq!(uart.registers().ctrl & 0b10011, 0);
    assert!(uart.is_receive_enabled());
    assert!(!uart.is_transmit_enabled());
}

#[test]
fn tx_fifo_size_is_capped() {
    let mut uart = new_uart();
    assert_eq!(uart.set_tx_fifo(8), 4);
    let regs = uart.registers();
    assert_eq!(regs.water & 0b11, 3);
    assert_eq!((regs.fifo >> 7) & 1, 1);
    assert_eq!(uart.set_tx_fifo(2), 2);
    assert_eq!(uart.registers().water & 0b11, 1);
    assert_eq!(uart.set_tx_fifo(0), 0);
    assert_eq!(uart.registers().water & 0b11, 0);
    assert_eq!((uart.registers().fifo >> 7) & 1, 0);
}

#[test]
fn rx_fifo_and_watermark() {
    let mut uart = new_uart();
    uart.set_rx_fifo(true);
    assert_eq!((uart.registers().fifo >> 3) & 1, 1);
    uart.set_rx_fifo(false);
    assert_eq!((uart.registers().fifo >> 3) & 1, 0);
    assert_eq!(uart.set_rx_fifo_watermark(10), 4);
    assert_eq!(uart.set_rx_fifo_watermark(1), 1);
    assert_eq!((uart.registers().water >> 16) & 0b11, 1);
}

#[test]
fn send_byte_needs_empty_data_register() {
    let mut uart = new_uart();
    assert!(!uart.send_byte(b'A'));
    assert_eq!(uart.registers().data, 0);
    uart.set_registers(UartRegisters { stat: 1 << 23, ..uart.registers() });
    assert!(uart.send_byte(b'A'));
    assert_eq!(uart.registers().data, 0x41);
}

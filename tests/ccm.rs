use imxrt1060::ccm::{
    ClockActivity, ClockControlModule, ClockGate, PeriodicClockSelect, UartClockSelect,
};

const ACTIVITIES: [ClockActivity; 3] = [
    ClockActivity::Off,
    ClockActivity::OnRunOnly,
    ClockActivity::On,
];

fn all_activities(ccm: &ClockControlModule) -> Vec<Option<ClockActivity>> {
    let mut out = Vec::new();
    for register in 0..8 {
        for field in 0..16 {
            out.push(ClockGate::new(register, field).get_activity(ccm));
        }
    }
    out
}

#[test]
fn set_activity_round_trips_and_keeps_other_fields() {
    for register in 0..8usize {
        for field in 0..16u32 {
            for activity in ACTIVITIES {
                let mut ccm = ClockControlModule::new();
                // Fill the registers with a pattern first.
                for r in 0..8usize {
                    for f in 0..16u32 {
                        let a = ACTIVITIES[(r + f as usize) % 3];
                        ClockGate::new(r, f).set_activity(&mut ccm, a);
                    }
                }
                let before = all_activities(&ccm);
                let gate = ClockGate::new(register, field);
                gate.set_activity(&mut ccm, activity);
                assert_eq!(gate.get_activity(&ccm), Some(activity));
                let after = all_activities(&ccm);
                for (i, (b, a)) in before.iter().zip(after.iter()).enumerate() {
                    if i != register * 16 + field as usize {
                        assert_eq!(b, a);
                    }
                }
            }
        }
    }
}

#[test]
fn gate_field_encoding_is_bit_exact() {
    let mut ccm = ClockControlModule::new();
    ClockGate::new(3, 11).set_activity(&mut ccm, ClockActivity::On);
    assert_eq!(ccm.gate_register(3), 0b11 << 22);
    ClockGate::new(3, 0).set_activity(&mut ccm, ClockActivity::OnRunOnly);
    assert_eq!(ccm.gate_register(3), (0b11 << 22) | 0b01);
    ClockGate::new(3, 11).set_activity(&mut ccm, ClockActivity::Off);
    assert_eq!(ccm.gate_register(3), 0b01);
    for r in [0usize, 1, 2, 4, 5, 6, 7] {
        assert_eq!(ccm.gate_register(r), 0);
    }
}

#[test]
fn gate_enable_and_is_enabled() {
    let mut ccm = ClockControlModule::new();
    let gate = ClockGate::new(0, 14);
    assert!(!gate.is_enabled(&ccm));
    gate.enable(&mut ccm);
    assert!(gate.is_enabled(&ccm));
    assert_eq!(gate.get_activity(&ccm), Some(ClockActivity::On));
    gate.set_activity(&mut ccm, ClockActivity::OnRunOnly);
    assert!(gate.is_enabled(&ccm));
    gate.disable(&mut ccm);
    assert!(!gate.is_enabled(&ccm));
    assert_eq!(gate.get_activity(&ccm), Some(ClockActivity::Off));
}

#[test]
fn uart_clock_frequency_follows_divider() {
    let mut ccm = ClockControlModule::new();
    ccm.set_uart_clock_selection_divider(UartClockSelect::Oscillator, 1);
    assert_eq!(ccm.get_uart_clock_frequency(), 24_000_000);
    ccm.set_uart_clock_selection_divider(UartClockSelect::Oscillator, 0);
    assert_eq!(ccm.get_uart_clock_frequency(), 24_000_000);
    ccm.set_uart_clock_selection_divider(UartClockSelect::Oscillator, 3);
    assert_eq!(ccm.get_uart_clock_frequency(), 8_000_000);
    ccm.set_uart_clock_selection_divider(UartClockSelect::Oscillator, 64);
    assert_eq!(ccm.get_uart_clock_frequency(), 375_000);
    ccm.set_uart_clock_selection_divider(UartClockSelect::Oscillator, 200);
    assert_eq!(ccm.get_uart_clock_frequency(), 375_000);
}

#[test]
fn periodic_clock_frequency_follows_divider() {
    let mut ccm = ClockControlModule::new();
    assert_eq!(
        ccm.set_periodic_clock_selection_divider(PeriodicClockSelect::Oscillator, 3),
        8_000_000
    );
    assert_eq!(
        ccm.set_periodic_clock_selection_divider(PeriodicClockSelect::Oscillator, 0),
        24_000_000
    );
    assert_eq!(
        ccm.set_periodic_clock_selection_divider(PeriodicClockSelect::Oscillator, 255),
        375_000
    );
    // The UART root is untouched and still on its reset source.
    ccm.set_uart_clock_selection_divider(UartClockSelect::Oscillator, 2);
    assert_eq!(ccm.get_uart_clock_frequency(), 12_000_000);
}

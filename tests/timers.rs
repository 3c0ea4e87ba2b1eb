use imxrt1060::ccm::{ClockActivity, ClockControlModule, ClockGate};
use imxrt1060::gpt::{GeneralPurposeTimer, CR_INIT, PR_INIT};
use imxrt1060::pit::{PeriodicInterruptTimer, Pit, MCR_INIT};

fn new_gpt() -> GeneralPurposeTimer {
    GeneralPurposeTimer::new(ClockGate::new(1, 11), ClockGate::new(1, 10))
}

#[test]
fn gpt_alarm_fires_once_when_reached() {
    let mut gpt = new_gpt();
    gpt.set_alarm(100);
    assert!(gpt.is_enabled());
    assert_eq!(gpt.get_alarm(), 100);
    gpt.advance(99);
    assert_eq!(gpt.now(), 99);
    assert!(!gpt.handle_interrupt());
    gpt.advance(1);
    assert_eq!(gpt.now(), 100);
    assert!(gpt.handle_interrupt());
    assert!(!gpt.handle_interrupt());
    gpt.advance(1000);
    assert!(!gpt.handle_interrupt());
}

#[test]
fn gpt_alarm_passed_in_one_step_fires() {
    let mut gpt = new_gpt();
    gpt.set_alarm(50);
    gpt.advance(500);
    assert_eq!(gpt.now(), 500);
    assert!(gpt.handle_interrupt());
    assert_eq!(gpt.registers().sr, 0);
}

#[test]
fn gpt_disable_before_alarm_suppresses_it() {
    let mut gpt = new_gpt();
    gpt.set_alarm(100);
    gpt.advance(40);
    gpt.disable();
    assert!(!gpt.is_enabled());
    gpt.advance(200);
    assert_eq!(gpt.now(), 40);
    assert!(!gpt.handle_interrupt());
    gpt.enable();
    gpt.advance(60);
    assert!(gpt.handle_interrupt());
}

#[test]
fn gpt_counter_wraps() {
    let mut gpt = new_gpt();
    gpt.set_alarm(5);
    gpt.advance(u32::MAX);
    assert_eq!(gpt.now(), u32::MAX);
    assert!(gpt.handle_interrupt());
    gpt.set_alarm(3);
    gpt.advance(4);
    assert_eq!(gpt.now(), 3);
    assert!(gpt.handle_interrupt());
    assert_eq!(gpt.max_tics(), u32::MAX);
}

#[test]
fn gpt_initialize_sets_frequency_and_registers() {
    let mut ccm = ClockControlModule::new();
    let mut gpt1 = new_gpt();
    let mut gpt2 = GeneralPurposeTimer::new(ClockGate::new(0, 13), ClockGate::new(0, 12));
    let freq = GeneralPurposeTimer::initialize(&mut ccm, &mut gpt1, &mut gpt2, 8_000_000);
    assert_eq!(freq.frequency(), 1_000_000);
    for gpt in [&gpt1, &gpt2] {
        let regs = gpt.registers();
        assert_eq!(regs.cr, CR_INIT);
        assert_eq!(regs.pr, PR_INIT);
        assert_eq!(regs.pr, (1 << 12) | 3);
        assert_eq!(regs.ir, 1);
        assert_eq!(regs.sr, 0);
        assert!(!gpt.is_enabled());
    }
    for (r, f) in [(1, 11), (1, 10), (0, 13), (0, 12)] {
        assert_eq!(ClockGate::new(r, f).get_activity(&ccm), Some(ClockActivity::On));
    }
}

fn running_channel(ldval: u32, oneshot: bool) -> PeriodicInterruptTimer {
    let mut t = PeriodicInterruptTimer::new(0);
    t.set_load_time(ldval);
    t.set_oneshot(oneshot);
    t.set_interrupt(true);
    t.set_enable(true);
    t
}

#[test]
fn pit_one_shot_disables_after_first_elapse() {
    let mut t = running_channel(3, true);
    assert!(t.is_oneshot());
    // The counter starts at zero: it reloads on the first tick.
    t.tick();
    assert!(t.is_elapsed());
    t.handle_interrupt();
    assert!(!t.is_elapsed());
    assert!(!t.is_enabled());
    for _ in 0..20 {
        t.tick();
    }
    assert!(!t.is_elapsed());
    assert_eq!(t.current_time(), 3);
}

#[test]
fn pit_one_shot_enabled_until_elapse() {
    let mut t = running_channel(3, true);
    t.tick();
    t.handle_interrupt();
    t.set_enable(true);
    for _ in 0..3 {
        t.tick();
        assert!(!t.is_elapsed());
        assert!(t.is_enabled());
    }
    t.tick();
    assert!(t.is_elapsed());
    t.handle_interrupt();
    assert!(!t.is_enabled());
}

#[test]
fn pit_periodic_refires_at_same_interval() {
    let mut t = running_channel(4, false);
    t.tick();
    assert!(t.is_elapsed());
    t.handle_interrupt();
    assert!(t.is_enabled());
    assert_eq!(t.current_time(), 4);
    for _round in 0..5 {
        for _ in 0..4 {
            t.tick();
            assert!(!t.is_elapsed());
        }
        t.tick();
        assert!(t.is_elapsed());
        assert_eq!(t.current_time(), 4);
        t.handle_interrupt();
        assert!(t.is_enabled());
    }
    assert_eq!(t.load_time(), 4);
}

#[test]
fn pit_disabled_channel_does_not_count() {
    let mut t = PeriodicInterruptTimer::new(2);
    t.set_load_time(1);
    t.tick();
    t.tick();
    assert!(!t.is_elapsed());
    assert_eq!(t.current_time(), 0);
}

#[test]
fn pit_initialize_stops_and_clears_channels() {
    let mut ccm = ClockControlModule::new();
    let mut pit = Pit::new(ClockGate::new(1, 6));
    for t in pit.timers.iter_mut() {
        t.set_enable(true);
        t.tick();
        assert!(t.is_elapsed());
    }
    PeriodicInterruptTimer::initialize(&mut ccm, &mut pit);
    assert_eq!(pit.mcr, MCR_INIT);
    for t in pit.timers.iter() {
        assert!(!t.is_enabled());
        assert!(!t.is_elapsed());
    }
    assert_eq!(ClockGate::new(1, 6).get_activity(&ccm), Some(ClockActivity::On));
}

use imxrt1060::gpio::{GpioRegisters, Pin};
use imxrt1060::hil::{Configuration, FloatingState};
use imxrt1060::iomuxc::{Alternate, Daisy, MuxControlGroup, PadControlGroup};

const ALTS: [Alternate; 10] = [
    Alternate::Alt0,
    Alternate::Alt1,
    Alternate::Alt2,
    Alternate::Alt3,
    Alternate::Alt4,
    Alternate::Alt5,
    Alternate::Alt6,
    Alternate::Alt7,
    Alternate::Alt8,
    Alternate::Alt9,
];

#[test]
fn group_pad_addresses() {
    let mux = MuxControlGroup::new(0x401F_80FC);
    assert_eq!(mux.0, 0x401F_80FC);
    assert_eq!(mux.pad(2).address(), 0x401F_8104);
    let pad = PadControlGroup::new(0x401F_82EC);
    assert_eq!(pad.0, 0x401F_82EC);
    assert_eq!(pad.pad(3).address(), 0x401F_82F8);
    assert_eq!(pad.pad(0).value(), 0);
}

#[test]
fn alternate_round_trips() {
    let mut reg = MuxControlGroup::new(0x401F_813C).pad(3);
    reg.set_sion(true);
    for (i, alt) in ALTS.iter().enumerate() {
        reg.set_alternate(*alt);
        assert_eq!(reg.alternate(), *alt);
        assert_eq!(reg.value() & 0xf, i as u32);
        assert!(reg.sion());
    }
    reg.set_sion(false);
    assert!(!reg.sion());
    assert_eq!(reg.alternate(), Alternate::Alt9);
}

#[test]
fn floating_state_round_trips() {
    let mut reg = PadControlGroup::new(0x401F_82AC).pad(0);
    assert_eq!(reg.floating_state(), FloatingState::PullNone);
    reg.set_floating_state(FloatingState::PullUp);
    assert_eq!(reg.floating_state(), FloatingState::PullUp);
    assert_eq!((reg.value() >> 12) & 0xf, 0b1011);
    reg.set_floating_state(FloatingState::PullDown);
    assert_eq!(reg.floating_state(), FloatingState::PullDown);
    assert_eq!((reg.value() >> 12) & 0xf, 0b0011);
    reg.set_floating_state(FloatingState::PullNone);
    assert_eq!(reg.floating_state(), FloatingState::PullNone);
    assert_eq!((reg.value() >> 12) & 0xf, 0b0010);
}

#[test]
fn daisy_selects_input() {
    let mut d = Daisy::new(0x401F_852C);
    assert_eq!(d.input(), 0);
    d.select_input(1);
    assert_eq!(d.input(), 1);
}

#[test]
fn pin_direction_and_configuration() {
    let mut mux = MuxControlGroup::new(0x401F_813C).pad(3);
    mux.set_alternate(Alternate::Alt5);
    let pad = PadControlGroup::new(0x401F_832C).pad(3);
    let mut pin = Pin::new(3, mux, pad);
    let mut port = GpioRegisters { dr: 0, gdir: 0, psr: 0 };
    assert_eq!(pin.configuration(&port), Configuration::Input);
    assert_eq!(pin.make_output(&mut port), Configuration::Output);
    assert_eq!(port.gdir, 1 << 3);
    assert_eq!(pin.configuration(&port), Configuration::Output);
    assert_eq!(pin.make_input(&mut port), Configuration::Input);
    assert_eq!(port.gdir, 0);
    assert_eq!(pin.disable_output(), Configuration::LowPower);
    assert_eq!(pin.disable_input(), Configuration::LowPower);
    pin.set_floating_state(FloatingState::PullDown);
    assert_eq!(pin.floating_state(), FloatingState::PullDown);
}

#[test]
fn pin_function_when_not_gpio() {
    let mut mux = MuxControlGroup::new(0x401F_80FC).pad(2);
    mux.set_alternate(Alternate::Alt2);
    let pin = Pin::new(18, mux, PadControlGroup::new(0x401F_82EC).pad(2));
    let mut port = GpioRegisters { dr: 0, gdir: 0, psr: 0 };
    pin.set_gdir(&mut port);
    assert_eq!(pin.configuration(&port), Configuration::Function);
    pin.clear_gdir(&mut port);
    assert_eq!(port.gdir, 0);
}

#[test]
fn pin_output_levels() {
    let mux = MuxControlGroup::new(0x401F_80BC).pad(0);
    let pin = Pin::new(5, mux, PadControlGroup::new(0x401F_82AC).pad(0));
    let mut port = GpioRegisters { dr: 0, gdir: 0, psr: 1 << 5 };
    pin.set(&mut port);
    assert_eq!(port.dr, 1 << 5);
    pin.clear(&mut port);
    assert_eq!(port.dr, 0);
    assert!(pin.toggle(&mut port));
    assert_eq!(port.dr, 1 << 5);
    pin.toggle(&mut port);
    assert_eq!(port.dr, 0);
    assert!(pin.read(&port));
}

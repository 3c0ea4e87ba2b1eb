//! General purpose I/O pins.
use vstd::prelude::*;
use crate::bits::{bit, with_bit_as, is_set, write_bit};
use crate::hil::{Configuration, FloatingState};
use crate::iomuxc::{
    Alternate,
    MuxControlRegister,
    PadControlRegister,
    alternate_value,
    floating_state_of,
    with_floating_state,
};

verus! {

/// The registers of one GPIO port, each as the word it holds. Writes to the
/// set, clear and toggle registers act on `dr` directly.
#[derive(Clone, Copy, PartialEq, Eq, Debug, Structural)]
pub struct GpioRegisters {
    /// Data register: the levels driven on output pins.
    pub dr: u32,
    /// Direction register: a set bit makes the pin an output.
    pub gdir: u32,
    /// Pad status register: the levels read on the pins (read only).
    pub psr: u32,
}

/// A GPIO pin: bit `offset` of its port, with the pad's mux and pad control
/// registers.
pub struct Pin {
    offset: u32,
    mux: MuxControlRegister,
    pad: PadControlRegister,
}

impl Pin {
    /// The pin's bit in its port.
    pub closed spec fn offset(&self) -> u32 {
        self.offset
    }

    /// The pad's mux control register.
    pub closed spec fn mux(&self) -> MuxControlRegister {
        self.mux
    }

    /// The pad's control register.
    pub closed spec fn pad(&self) -> PadControlRegister {
        self.pad
    }

    /// The pin names a bit of its port, and its mux selects a function.
    pub open spec fn wf(&self) -> bool {
        self.offset() < 32 && self.mux().wf()
    }

    /// Pin `offset` of its port, with its pad's two registers.
    pub fn new(offset: u32, mux: MuxControlRegister, pad: PadControlRegister) -> (r: Pin)
        requires
            offset < 32,
            mux.wf(),
        ensures
            r.wf(),
            r.offset() == offset,
            r.mux() == mux,
            r.pad() == pad,
    {
        Pin { offset, mux, pad }
    }

    /// Makes the pin an output.
    pub fn set_gdir(&self, port: &mut GpioRegisters)
        requires
            self.wf(),
        ensures
            *final(port) == (GpioRegisters { gdir: with_bit_as(old(port).gdir, self.offset(), true), ..*old(port) }),
    {
        port.gdir = write_bit(port.gdir, self.offset, true);
    }

    /// Makes the pin an input.
    pub fn clear_gdir(&self, port: &mut GpioRegisters)
        requires
            self.wf(),
        ensures
            *final(port) == (GpioRegisters { gdir: with_bit_as(old(port).gdir, self.offset(), false), ..*old(port) }),
    {
        port.gdir = write_bit(port.gdir, self.offset, false);
    }

    /// Returns the level read on the pin.
    pub fn read(&self, port: &GpioRegisters) -> (r: bool)
        requires
            self.wf(),
        ensures
            r == bit(port.psr, self.offset()),
    {
        is_set(port.psr, self.offset)
    }

    /// Drives the pin high.
    pub fn set(&self, port: &mut GpioRegisters)
        requires
            self.wf(),
        ensures
            *final(port) == (GpioRegisters { dr: with_bit_as(old(port).dr, self.offset(), true), ..*old(port) }),
    {
        port.dr = write_bit(port.dr, self.offset, true);
    }

    /// Drives the pin low.
    pub fn clear(&self, port: &mut GpioRegisters)
        requires
            self.wf(),
        ensures
            *final(port) == (GpioRegisters { dr: with_bit_as(old(port).dr, self.offset(), false), ..*old(port) }),
    {
        port.dr = write_bit(port.dr, self.offset, false);
    }

    /// Inverts the level driven on the pin, and returns the level read on it.
    pub fn toggle(&self, port: &mut GpioRegisters) -> (r: bool)
        requires
            self.wf(),
        ensures
            *final(port) == (GpioRegisters {
                dr: with_bit_as(old(port).dr, self.offset(), !bit(old(port).dr, self.offset())),
                ..*old(port)
            }),
            r == bit(old(port).psr, self.offset()),
    {
        let level = is_set(port.dr, self.offset);
        port.dr = write_bit(port.dr, self.offset, !level);
        self.read(port)
    }

    /// Returns the pin's configuration: an input or an output when its pad
    /// selects the GPIO function (ALT5), by its direction bit, and a
    /// peripheral function otherwise.
    pub fn configuration(&self, port: &GpioRegisters) -> (r: Configuration)
        requires
            self.wf(),
        ensures
            r == if self.mux().spec_alternate() == alternate_value(Alternate::Alt5) {
                if bit(port.gdir, self.offset()) {
                    Configuration::Output
                } else {
                    Configuration::Input
                }
            } else {
                Configuration::Function
            },
    {
        match self.mux.alternate() {
            Alternate::Alt5 => {
                if is_set(port.gdir, self.offset) {
                    Configuration::Output
                } else {
                    Configuration::Input
                }
            },
            _ => Configuration::Function,
        }
    }

    /// Makes the pin an output.
    pub fn make_output(&self, port: &mut GpioRegisters) -> (r: Configuration)
        requires
            self.wf(),
        ensures
            *final(port) == (GpioRegisters { gdir: with_bit_as(old(port).gdir, self.offset(), true), ..*old(port) }),
            r == Configuration::Output,
    {
        self.set_gdir(port);
        Configuration::Output
    }

    /// Turning the output off puts the pin in low power.
    pub fn disable_output(&self) -> (r: Configuration)
        ensures
            r == Configuration::LowPower,
    {
        Configuration::LowPower
    }

    /// Makes the pin an input.
    pub fn make_input(&self, port: &mut GpioRegisters) -> (r: Configuration)
        requires
            self.wf(),
        ensures
            *final(port) == (GpioRegisters { gdir: with_bit_as(old(port).gdir, self.offset(), false), ..*old(port) }),
            r == Configuration::Input,
    {
        self.clear_gdir(port);
        Configuration::Input
    }

    /// Turning the input off puts the pin in low power.
    pub fn disable_input(&self) -> (r: Configuration)
        ensures
            r == Configuration::LowPower,
    {
        Configuration::LowPower
    }

    /// Sets the pad's pull resistor.
    pub fn set_floating_state(&mut self, state: FloatingState)
        ensures
            final(self).offset() == old(self).offset(),
            final(self).mux() == old(self).mux(),
            final(self).pad().spec_value() == with_floating_state(old(self).pad().spec_value(), state),
            final(self).pad().spec_address() == old(self).pad().spec_address(),
            floating_state_of(final(self).pad().spec_value()) == state,
    {
        self.pad.set_floating_state(state);
    }

    /// Returns the pad's pull resistor setting.
    pub fn floating_state(&self) -> (r: FloatingState)
        ensures
            r == floating_state_of(self.pad().spec_value()),
    {
        self.pad.floating_state()
    }
}

} // verus!

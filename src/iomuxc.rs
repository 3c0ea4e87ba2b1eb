//! Input / output multiplexer: pad function selection and pad settings.
use vstd::prelude::*;
use crate::bits::{bit, field, with_bit_as, with_field, is_set, read_field, write_bit, write_field};
use crate::hil::FloatingState;

verus! {

/// MUX_CTL: alternate function (MUX_MODE), bits 0 to 3.
pub const MUX_MODE_SHIFT: u32 = 0;
/// Width mask of MUX_MODE.
pub const MUX_MODE_MASK: u32 = 0xf;
/// MUX_CTL: software input on (SION).
pub const MUX_SION: u32 = 4;
/// PAD_CTL: pull / keep enable (PKE).
pub const PAD_PKE: u32 = 12;
/// PAD_CTL: pull rather than keep (PUE).
pub const PAD_PUE: u32 = 13;
/// PAD_CTL: pull up / down selection (PUS), bits 14 and 15.
pub const PAD_PUS_SHIFT: u32 = 14;
/// Width mask of PUS.
pub const PAD_PUS_MASK: u32 = 0b11;
/// PUS value: 100 kOhm pull down.
pub const PUS_PULL_DOWN_100K: u32 = 0;
/// PUS value: 100 kOhm pull up.
pub const PUS_PULL_UP_100K: u32 = 2;
/// Bytes between the registers of consecutive pads.
pub const PAD_REGISTER_STRIDE: u32 = 4;

/// A pad's alternate function.
#[derive(Clone, Copy, PartialEq, Eq, Debug, Structural)]
pub enum Alternate {
    Alt0,
    Alt1,
    Alt2,
    Alt3,
    Alt4,
    Alt5,
    Alt6,
    Alt7,
    Alt8,
    Alt9,
}

/// The MUX_MODE value of an alternate function.
pub open spec fn alternate_value(alt: Alternate) -> u32 {
    match alt {
        Alternate::Alt0 => 0,
        Alternate::Alt1 => 1,
        Alternate::Alt2 => 2,
        Alternate::Alt3 => 3,
        Alternate::Alt4 => 4,
        Alternate::Alt5 => 5,
        Alternate::Alt6 => 6,
        Alternate::Alt7 => 7,
        Alternate::Alt8 => 8,
        Alternate::Alt9 => 9,
    }
}

impl Alternate {
    /// The MUX_MODE value of this function.
    pub fn value(self) -> (r: u32)
        ensures
            r == alternate_value(self),
    {
        match self {
            Alternate::Alt0 => 0,
            Alternate::Alt1 => 1,
            Alternate::Alt2 => 2,
            Alternate::Alt3 => 3,
            Alternate::Alt4 => 4,
            Alternate::Alt5 => 5,
            Alternate::Alt6 => 6,
            Alternate::Alt7 => 7,
            Alternate::Alt8 => 8,
            Alternate::Alt9 => 9,
        }
    }
}

/// The address of pad `pad_number`'s register in a group at `base`.
pub open spec fn pad_address(base: u32, pad_number: u32) -> int {
    base + pad_number * PAD_REGISTER_STRIDE
}

/// A group of consecutive mux control registers, by its first address.
#[derive(Clone, Copy, PartialEq, Eq, Debug, Structural)]
pub struct MuxControlGroup(pub u32);

/// A group of consecutive pad control registers, by its first address.
#[derive(Clone, Copy, PartialEq, Eq, Debug, Structural)]
pub struct PadControlGroup(pub u32);

impl MuxControlGroup {
    /// The group whose first register is at `address`.
    pub fn new(address: u32) -> (r: MuxControlGroup)
        ensures
            r.0 == address,
    {
        MuxControlGroup(address)
    }

    /// The mux control register of pad `pad_number` of this group, its
    /// contents cleared.
    pub fn pad(&self, pad_number: u32) -> (r: MuxControlRegister)
        requires
            pad_address(self.0, pad_number) <= u32::MAX,
        ensures
            r.spec_address() == pad_address(self.0, pad_number),
            r.spec_value() == 0,
            r.wf(),
    {
        proof {
            assert(0u32 >> 0u32 & 0xfu32 == 0) by (bit_vector);
        }
        MuxControlRegister { address: self.0 + pad_number * PAD_REGISTER_STRIDE, value: 0 }
    }
}

impl PadControlGroup {
    /// The group whose first register is at `address`.
    pub fn new(address: u32) -> (r: PadControlGroup)
        ensures
            r.0 == address,
    {
        PadControlGroup(address)
    }

    /// The pad control register of pad `pad_number` of this group, its
    /// contents cleared.
    pub fn pad(&self, pad_number: u32) -> (r: PadControlRegister)
        requires
            pad_address(self.0, pad_number) <= u32::MAX,
        ensures
            r.spec_address() == pad_address(self.0, pad_number),
            r.spec_value() == 0,
    {
        PadControlRegister { address: self.0 + pad_number * PAD_REGISTER_STRIDE, value: 0 }
    }
}

/// A pad's mux control register.
pub struct MuxControlRegister {
    address: u32,
    value: u32,
}

impl MuxControlRegister {
    /// Returns the register's address.
    pub fn address(&self) -> (r: u32)
        ensures
            r == self.spec_address(),
    {
        self.address
    }

    /// Returns the word the register holds.
    pub fn value(&self) -> (r: u32)
        ensures
            r == self.spec_value(),
    {
        self.value
    }

    /// The register's address.
    pub closed spec fn spec_address(&self) -> u32 {
        self.address
    }

    /// The word the register holds.
    pub closed spec fn spec_value(&self) -> u32 {
        self.value
    }

    /// MUX_MODE holds one of the ten alternate functions.
    pub open spec fn wf(&self) -> bool {
        field(self.spec_value(), MUX_MODE_SHIFT, MUX_MODE_MASK) <= 9
    }

    /// The function MUX_MODE selects.
    pub open spec fn spec_alternate(&self) -> u32 {
        field(self.spec_value(), MUX_MODE_SHIFT, MUX_MODE_MASK)
    }

    /// Selects alternate function `alt`.
    pub fn set_alternate(&mut self, alt: Alternate)
        ensures
            final(self).spec_address() == old(self).spec_address(),
            final(self).spec_value() == with_field(old(self).spec_value(), MUX_MODE_SHIFT, MUX_MODE_MASK, alternate_value(alt)),
            final(self).spec_alternate() == alternate_value(alt),
            final(self).wf(),
    {
        let v = alt.value();
        let old_value = self.value;
        self.value = write_field(self.value, MUX_MODE_SHIFT, MUX_MODE_MASK, v);
        assert((((old_value & !(0xfu32 << 0u32)) | ((v & 0xfu32) << 0u32)) >> 0u32) & 0xfu32 == v) by (bit_vector)
            requires
                v <= 9,
        ;
    }

    /// Returns the selected alternate function.
    pub fn alternate(&self) -> (r: Alternate)
        requires
            self.wf(),
        ensures
            alternate_value(r) == self.spec_alternate(),
    {
        let mode = read_field(self.value, MUX_MODE_SHIFT, MUX_MODE_MASK);
        if mode == 0 {
            Alternate::Alt0
        } else if mode == 1 {
            Alternate::Alt1
        } else if mode == 2 {
            Alternate::Alt2
        } else if mode == 3 {
            Alternate::Alt3
        } else if mode == 4 {
            Alternate::Alt4
        } else if mode == 5 {
            Alternate::Alt5
        } else if mode == 6 {
            Alternate::Alt6
        } else if mode == 7 {
            Alternate::Alt7
        } else if mode == 8 {
            Alternate::Alt8
        } else {
            Alternate::Alt9
        }
    }

    /// Forces the pad's input path on or off (SION).
    pub fn set_sion(&mut self, sion: bool)
        ensures
            final(self).spec_address() == old(self).spec_address(),
            final(self).spec_value() == with_bit_as(old(self).spec_value(), MUX_SION, sion),
            bit(final(self).spec_value(), MUX_SION) == sion,
            final(self).spec_alternate() == old(self).spec_alternate(),
    {
        let old_value = self.value;
        self.value = write_bit(self.value, MUX_SION, sion);
        assert((((old_value | (1u32 << 4u32)) >> 0u32) & 0xfu32) == ((old_value >> 0u32) & 0xfu32)) by (bit_vector);
        assert((((old_value & !(1u32 << 4u32)) >> 0u32) & 0xfu32) == ((old_value >> 0u32) & 0xfu32)) by (bit_vector);
    }

    /// Returns whether the input path is forced on.
    pub fn sion(&self) -> (r: bool)
        ensures
            r == bit(self.spec_value(), MUX_SION),
    {
        is_set(self.value, MUX_SION)
    }
}

/// The pull setting that PKE, PUE and PUS describe: a pull when both
/// enables are set, down if PUS selects the pull down, up otherwise.
pub open spec fn floating_state_of(value: u32) -> FloatingState {
    if bit(value, PAD_PKE) && bit(value, PAD_PUE) {
        if field(value, PAD_PUS_SHIFT, PAD_PUS_MASK) == PUS_PULL_DOWN_100K {
            FloatingState::PullDown
        } else {
            FloatingState::PullUp
        }
    } else {
        FloatingState::PullNone
    }
}

/// The pad control word once the pull is set to `state`: no pull clears
/// PKE only; a pull sets PKE and PUE and selects a 100 kOhm pull up or
/// down.
pub open spec fn with_floating_state(value: u32, state: FloatingState) -> u32 {
    match state {
        FloatingState::PullNone => with_bit_as(value, PAD_PKE, false),
        FloatingState::PullUp => with_field(
            with_bit_as(with_bit_as(value, PAD_PKE, true), PAD_PUE, true),
            PAD_PUS_SHIFT,
            PAD_PUS_MASK,
            PUS_PULL_UP_100K,
        ),
        FloatingState::PullDown => with_field(
            with_bit_as(with_bit_as(value, PAD_PKE, true), PAD_PUE, true),
            PAD_PUS_SHIFT,
            PAD_PUS_MASK,
            PUS_PULL_DOWN_100K,
        ),
    }
}

/// A pad's control register.
pub struct PadControlRegister {
    address: u32,
    value: u32,
}

impl PadControlRegister {
    /// Returns the register's address.
    pub fn address(&self) -> (r: u32)
        ensures
            r == self.spec_address(),
    {
        self.address
    }

    /// Returns the word the register holds.
    pub fn value(&self) -> (r: u32)
        ensures
            r == self.spec_value(),
    {
        self.value
    }

    /// The register's address.
    pub closed spec fn spec_address(&self) -> u32 {
        self.address
    }

    /// The word the register holds.
    pub closed spec fn spec_value(&self) -> u32 {
        self.value
    }

    /// Sets the pull resistor.
    pub fn set_floating_state(&mut self, state: FloatingState)
        ensures
            final(self).spec_address() == old(self).spec_address(),
            final(self).spec_value() == with_floating_state(old(self).spec_value(), state),
            floating_state_of(final(self).spec_value()) == state,
    {
        let v = self.value;
        match state {
            FloatingState::PullNone => {
                self.value = write_bit(v, PAD_PKE, false);
            },
            FloatingState::PullUp => {
                let w = write_bit(write_bit(v, PAD_PKE, true), PAD_PUE, true);
                self.value = write_field(w, PAD_PUS_SHIFT, PAD_PUS_MASK, PUS_PULL_UP_100K);
                assert(((((w & !(3u32 << 14u32)) | ((2u32 & 3u32) << 14u32)) >> 12u32) & 1 == (w >> 12u32) & 1)
                    && ((((w & !(3u32 << 14u32)) | ((2u32 & 3u32) << 14u32)) >> 13u32) & 1 == (w >> 13u32) & 1)
                    && ((((w & !(3u32 << 14u32)) | ((2u32 & 3u32) << 14u32)) >> 14u32) & 3 == 2)) by (bit_vector);
            },
            FloatingState::PullDown => {
                let w = write_bit(write_bit(v, PAD_PKE, true), PAD_PUE, true);
                self.value = write_field(w, PAD_PUS_SHIFT, PAD_PUS_MASK, PUS_PULL_DOWN_100K);
                assert(((((w & !(3u32 << 14u32)) | ((0u32 & 3u32) << 14u32)) >> 12u32) & 1 == (w >> 12u32) & 1)
                    && ((((w & !(3u32 << 14u32)) | ((0u32 & 3u32) << 14u32)) >> 13u32) & 1 == (w >> 13u32) & 1)
                    && ((((w & !(3u32 << 14u32)) | ((0u32 & 3u32) << 14u32)) >> 14u32) & 3 == 0)) by (bit_vector);
            },
        }
    }

    /// Returns the pull resistor setting.
    pub fn floating_state(&self) -> (r: FloatingState)
        ensures
            r == floating_state_of(self.spec_value()),
    {
        if is_set(self.value, PAD_PKE) && is_set(self.value, PAD_PUE) {
            if read_field(self.value, PAD_PUS_SHIFT, PAD_PUS_MASK) == PUS_PULL_DOWN_100K {
                FloatingState::PullDown
            } else {
                FloatingState::PullUp
            }
        } else {
            FloatingState::PullNone
        }
    }
}

/// A daisy chain register: selects which pad feeds a peripheral input.
pub struct Daisy {
    address: u32,
    input: u32,
}

impl Daisy {
    /// The daisy register at `address`, cleared.
    pub fn new(address: u32) -> (r: Daisy)
        ensures
            r.spec_address() == address,
            r.spec_input() == 0,
    {
        Daisy { address, input: 0 }
    }

    /// The register's address.
    pub closed spec fn spec_address(&self) -> u32 {
        self.address
    }

    /// Returns the selected input.
    pub fn input(&self) -> (r: u32)
        ensures
            r == self.spec_input(),
    {
        self.input
    }

    /// The selected input.
    pub closed spec fn spec_input(&self) -> u32 {
        self.input
    }

    /// Selects input `input`.
    pub fn select_input(&mut self, input: u32)
        ensures
            final(self).spec_address() == old(self).spec_address(),
            final(self).spec_input() == input,
    {
        self.input = input;
    }
}

} // verus!

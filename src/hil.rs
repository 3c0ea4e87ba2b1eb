//! Result codes and the configuration types that drivers exchange with the
//! kernel.
use vstd::prelude::*;

verus! {

/// Outcome of a driver operation.
#[derive(Clone, Copy, PartialEq, Eq, Debug, Structural)]
pub enum ReturnCode {
    /// The operation succeeded.
    SUCCESS,
    /// Generic failure, or no DMA channel is bound.
    FAIL,
    /// The underlying system is busy; a transfer is already in flight.
    EBUSY,
    /// An argument is invalid.
    EINVAL,
    /// The device is off.
    EOFF,
    /// The buffer is too small for the requested length.
    ESIZE,
    /// The operation is not supported.
    ENOSUPPORT,
}

/// Errors a UART receive can end with.
#[derive(Clone, Copy, PartialEq, Eq, Debug, Structural)]
pub enum UartError {
    /// No error.
    NoError,
    /// A parity error was detected.
    ParityError,
    /// A framing error was detected.
    FramingError,
    /// Data was lost because the receiver was not read in time.
    OverrunError,
    /// The transfer was aborted or the DMA engine reported a failure.
    Aborted,
}

/// Parity setting of a UART line.
#[derive(Clone, Copy, PartialEq, Eq, Debug, Structural)]
pub enum Parity {
    /// No parity bit.
    NoParity,
    /// Odd parity.
    Odd,
    /// Even parity.
    Even,
}

/// Number of stop bits of a UART frame.
#[derive(Clone, Copy, PartialEq, Eq, Debug, Structural)]
pub enum StopBits {
    /// One stop bit.
    One,
    /// Two stop bits.
    Two,
}

/// Number of data bits of a UART frame.
#[derive(Clone, Copy, PartialEq, Eq, Debug, Structural)]
pub enum Width {
    /// Six data bits.
    Six,
    /// Seven data bits.
    Seven,
    /// Eight data bits.
    Eight,
}

/// Line settings a UART is configured with.
#[derive(Clone, Copy, PartialEq, Eq, Debug, Structural)]
pub struct Parameters {
    /// Baud rate in bit/s.
    pub baud_rate: u32,
    /// Data bits per frame.
    pub width: Width,
    /// Parity setting.
    pub parity: Parity,
    /// Stop bits per frame.
    pub stop_bits: StopBits,
    /// Hardware flow control.
    pub hw_flow_control: bool,
}

/// Pull resistor setting of an input pin.
#[derive(Clone, Copy, PartialEq, Eq, Debug, Structural)]
pub enum FloatingState {
    /// Pulled up.
    PullUp,
    /// Pulled down.
    PullDown,
    /// Neither.
    PullNone,
}

/// What a pin is configured as.
#[derive(Clone, Copy, PartialEq, Eq, Debug, Structural)]
pub enum Configuration {
    /// Low power: neither input nor output.
    LowPower,
    /// General purpose input.
    Input,
    /// General purpose output.
    Output,
    /// Both input and output.
    InputOutput,
    /// Driven by a peripheral function.
    Function,
}

} // verus!

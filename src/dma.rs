//! DMA channels: one transfer engine each, triggered by a peripheral's
//! request line and reporting completion or error through its flags.
use vstd::prelude::*;

verus! {

/// Peripheral request lines a DMA channel can be triggered from.
#[derive(Clone, Copy, PartialEq, Eq, Debug, Structural)]
pub enum DmaHardwareSource {
    /// UART2 transmit data request.
    Uart2Transfer,
    /// UART2 receive data request.
    Uart2Receive,
}

/// Outcome a channel reports to its peripheral: the request line of the
/// transfer, as `Ok` on completion and as `Err` on a DMA error.
pub type DmaResult = Result<DmaHardwareSource, DmaHardwareSource>;

/// Everything a DMA channel holds: its configuration and its status flags.
#[derive(Clone, Copy, PartialEq, Eq, Debug, Structural)]
pub struct DmaChannelState {
    /// Channel number.
    pub channel: usize,
    /// Request line that triggers the channel, once one is chosen.
    pub hardware_source: Option<DmaHardwareSource>,
    /// Number of bytes the programmed transfer moves.
    pub transfer_len: usize,
    /// The channel accepts requests.
    pub enabled: bool,
    /// Raise the interrupt flag when the transfer completes.
    pub interrupt_on_completion: bool,
    /// Disable the channel when the transfer completes.
    pub disable_on_completion: bool,
    /// Interrupt flag: the transfer completed.
    pub interrupt: bool,
    /// Error flag: the transfer failed.
    pub error: bool,
    /// The peripheral is asserting its request towards the channel.
    pub hardware_signaling: bool,
}

/// A DMA channel.
pub struct DmaChannel {
    state: DmaChannelState,
}

impl View for DmaChannel {
    type V = DmaChannelState;

    closed spec fn view(&self) -> DmaChannelState {
        self.state
    }
}

impl DmaChannel {
    /// A disabled channel with no request line, no transfer and no flags.
    pub fn new(channel: usize) -> (r: DmaChannel)
        ensures
            r@ == (DmaChannelState {
                channel,
                hardware_source: None,
                transfer_len: 0,
                enabled: false,
                interrupt_on_completion: false,
                disable_on_completion: false,
                interrupt: false,
                error: false,
                hardware_signaling: false,
            }),
    {
        DmaChannel {
            state: DmaChannelState {
                channel,
                hardware_source: None,
                transfer_len: 0,
                enabled: false,
                interrupt_on_completion: false,
                disable_on_completion: false,
                interrupt: false,
                error: false,
                hardware_signaling: false,
            },
        }
    }

    /// Triggers the channel from the request line `source`.
    pub fn trigger_from_hardware(&mut self, source: DmaHardwareSource)
        ensures
            final(self)@ == (DmaChannelState { hardware_source: Some(source), ..old(self)@ }),
    {
        self.state.hardware_source = Some(source);
    }

    /// Chooses whether completion raises the interrupt flag.
    pub fn set_interrupt_on_completion(&mut self, on: bool)
        ensures
            final(self)@ == (DmaChannelState { interrupt_on_completion: on, ..old(self)@ }),
    {
        self.state.interrupt_on_completion = on;
    }

    /// Chooses whether completion disables the channel.
    pub fn set_disable_on_completion(&mut self, on: bool)
        ensures
            final(self)@ == (DmaChannelState { disable_on_completion: on, ..old(self)@ }),
    {
        self.state.disable_on_completion = on;
    }

    /// Programs the number of bytes of the next transfer.
    pub fn set_transfer_len(&mut self, len: usize)
        ensures
            final(self)@ == (DmaChannelState { transfer_len: len, ..old(self)@ }),
    {
        self.state.transfer_len = len;
    }

    /// Lets the channel accept requests.
    pub fn enable(&mut self)
        ensures
            final(self)@ == (DmaChannelState { enabled: true, ..old(self)@ }),
    {
        self.state.enabled = true;
    }

    /// Stops the channel from accepting requests.
    pub fn disable(&mut self)
        ensures
            final(self)@ == (DmaChannelState { enabled: false, ..old(self)@ }),
    {
        self.state.enabled = false;
    }

    /// Returns everything the channel holds.
    pub fn state(&self) -> (r: DmaChannelState)
        ensures
            r == self@,
    {
        self.state
    }

    /// Returns the channel number.
    pub fn channel(&self) -> (r: usize)
        ensures
            r == self@.channel,
    {
        self.state.channel
    }

    /// Returns the request line the channel is triggered from.
    pub fn hardware_source(&self) -> (r: Option<DmaHardwareSource>)
        ensures
            r == self@.hardware_source,
    {
        self.state.hardware_source
    }

    /// Returns the length of the programmed transfer.
    pub fn transfer_len(&self) -> (r: usize)
        ensures
            r == self@.transfer_len,
    {
        self.state.transfer_len
    }

    /// Returns `true` if the channel accepts requests.
    pub fn is_enabled(&self) -> (r: bool)
        ensures
            r == self@.enabled,
    {
        self.state.enabled
    }

    /// Returns `true` if the interrupt flag is raised.
    pub fn is_interrupt(&self) -> (r: bool)
        ensures
            r == self@.interrupt,
    {
        self.state.interrupt
    }

    /// Returns `true` if the error flag is raised.
    pub fn is_error(&self) -> (r: bool)
        ensures
            r == self@.error,
    {
        self.state.error
    }

    /// Returns `true` while the peripheral asserts its request.
    pub fn is_hardware_signaling(&self) -> (r: bool)
        ensures
            r == self@.hardware_signaling,
    {
        self.state.hardware_signaling
    }

    /// Clears both flags and reports the outcome of the transfer to the
    /// peripheral: `Err` when the error flag was raised, `Ok` otherwise,
    /// each carrying the channel's request line. A channel without a request
    /// line reports nothing.
    pub fn handle_interrupt(&mut self) -> (r: Option<DmaResult>)
        ensures
            final(self)@ == (DmaChannelState { interrupt: false, error: false, ..old(self)@ }),
            r == match old(self)@.hardware_source {
                Some(source) => if old(self)@.error {
                    Some(Err(source))
                } else {
                    Some(Ok(source))
                },
                None => None,
            },
    {
        let error = self.state.error;
        self.state.interrupt = false;
        self.state.error = false;
        match self.state.hardware_source {
            Some(source) => if error {
                Some(Err(source))
            } else {
                Some(Ok(source))
            },
            None => None,
        }
    }

    /// The hardware finishes the programmed transfer: the request is
    /// released, the interrupt flag rises if asked for, and the channel
    /// disables itself if asked to.
    pub fn complete_transfer(&mut self)
        ensures
            final(self)@ == (DmaChannelState {
                hardware_signaling: false,
                interrupt: old(self)@.interrupt || old(self)@.interrupt_on_completion,
                enabled: old(self)@.enabled && !old(self)@.disable_on_completion,
                ..old(self)@
            }),
    {
        self.state.hardware_signaling = false;
        self.state.interrupt = self.state.interrupt || self.state.interrupt_on_completion;
        self.state.enabled = self.state.enabled && !self.state.disable_on_completion;
    }

    /// The hardware fails the programmed transfer: the error flag rises and
    /// the channel stops.
    pub fn fail_transfer(&mut self)
        ensures
            final(self)@ == (DmaChannelState {
                hardware_signaling: false,
                error: true,
                enabled: false,
                ..old(self)@
            }),
    {
        self.state.hardware_signaling = false;
        self.state.error = true;
        self.state.enabled = false;
    }

    /// The peripheral asserts or releases its request towards the channel.
    pub fn set_hardware_signaling(&mut self, signaling: bool)
        ensures
            final(self)@ == (DmaChannelState { hardware_signaling: signaling, ..old(self)@ }),
    {
        self.state.hardware_signaling = signaling;
    }
}

} // verus!

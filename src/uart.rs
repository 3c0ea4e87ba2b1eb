//! Low-power UART driven by DMA in both directions.
//!
//! A transfer hands its buffer to the driver; the driver keeps it while the
//! DMA channel runs and gives it back, exactly once, in the completion that
//! `transfer_complete` returns.
use vstd::prelude::*;
use vstd::arithmetic::div_mod::lemma_div_denominator;
use crate::bits::{
    bit,
    with_bit_as,
    with_field,
    without_bit,
    is_set,
    write_bit,
    write_field,
    read_field,
    lemma_write_bit,
};
use crate::ccm::{ClockActivity, ClockControlModule, ClockGate};
use crate::dma::{DmaChannel, DmaChannelState, DmaHardwareSource, DmaResult};
use crate::hil::{Parameters, Parity, ReturnCode, StopBits, UartError, Width};

verus! {

/// BAUD: modulo divisor (SBR), bits 0 to 12.
pub const BAUD_SBR_SHIFT: u32 = 0;
/// Width mask of BAUD.SBR.
pub const BAUD_SBR_MASK: u32 = 0x1fff;
/// BAUD: sample on both edges.
pub const BAUD_BOTHEDGE: u32 = 17;
/// BAUD: receiver DMA enable.
pub const BAUD_RDMAE: u32 = 21;
/// BAUD: transmitter DMA enable.
pub const BAUD_TDMAE: u32 = 23;
/// BAUD: oversampling ratio minus one (OSR), bits 24 to 28.
pub const BAUD_OSR_SHIFT: u32 = 24;
/// Width mask of BAUD.OSR.
pub const BAUD_OSR_MASK: u32 = 0x1f;

/// STAT: parity error flag.
pub const STAT_PF: u32 = 16;
/// STAT: framing error flag.
pub const STAT_FE: u32 = 17;
/// STAT: noise flag.
pub const STAT_NF: u32 = 18;
/// STAT: receiver overrun flag.
pub const STAT_OR: u32 = 19;
/// STAT: idle line flag.
pub const STAT_IDLE: u32 = 20;
/// STAT: transmit data register empty.
pub const STAT_TDRE: u32 = 23;

/// CTRL: parity type (set for odd).
pub const CTRL_PT: u32 = 0;
/// CTRL: parity enable.
pub const CTRL_PE: u32 = 1;
/// CTRL: 9-bit mode.
pub const CTRL_M: u32 = 4;
/// CTRL: receiver enable.
pub const CTRL_RE: u32 = 18;
/// CTRL: transmitter enable.
pub const CTRL_TE: u32 = 19;

/// FIFO: receive FIFO enable.
pub const FIFO_RXFE: u32 = 3;
/// FIFO: transmit FIFO enable.
pub const FIFO_TXFE: u32 = 7;
/// FIFO: receive FIFO flush.
pub const FIFO_RXFLUSH: u32 = 14;
/// FIFO: transmit FIFO flush.
pub const FIFO_TXFLUSH: u32 = 15;
/// FIFO: transmit FIFO overflow flag.
pub const FIFO_TXOF: u32 = 17;

/// WATER: transmit watermark, bits 0 and 1.
pub const WATER_TXWATER_SHIFT: u32 = 0;
/// WATER: receive watermark, bits 16 and 17.
pub const WATER_RXWATER_SHIFT: u32 = 16;
/// Width mask of the two watermark fields.
pub const WATER_MASK: u32 = 0b11;

/// PARAM: log2 of the transmit FIFO size, bits 0 to 7.
pub const PARAM_TXFIFO_SHIFT: u32 = 0;
/// PARAM: log2 of the receive FIFO size, bits 8 to 15.
pub const PARAM_RXFIFO_SHIFT: u32 = 8;
/// Width mask of the two PARAM fields.
pub const PARAM_MASK: u32 = 0xff;

/// Lowest oversampling ratio the search tries.
pub const MIN_OSR: u32 = 4;
/// Highest oversampling ratio the search tries.
pub const MAX_OSR: u32 = 32;
/// Largest baud divisor.
pub const MAX_SBR: u32 = 8191;
/// Lowest baud rate `configure` accepts.
pub const MIN_BAUD_RATE: u32 = 9600;

// ---------------------------------------------------------------------------
// Baud rate search
// ---------------------------------------------------------------------------

/// The divisor for oversampling ratio `osr`: `clock / (baud * osr)`, kept
/// within 1 to 8191.
pub open spec fn sbr_for(clock: u32, baud: u32, osr: u32) -> u32 {
    let s = clock as int / (baud as int * osr as int);
    if s < 1 {
        1
    } else if s > MAX_SBR {
        MAX_SBR
    } else {
        s as u32
    }
}

/// The baud rate that ratio `osr` and its divisor achieve.
pub open spec fn achieved_baud(clock: u32, baud: u32, osr: u32) -> int {
    clock as int / (osr as int * sbr_for(clock, baud, osr) as int)
}

/// Distance between the achieved and the requested baud rate at `osr`.
pub open spec fn baud_error(clock: u32, baud: u32, osr: u32) -> int {
    let a = achieved_baud(clock, baud, osr);
    if a >= baud {
        a - baud
    } else {
        baud - a
    }
}

/// `osr` is in range, no ratio in range has a smaller error, and every
/// lower ratio has a larger one: the lowest of the best ratios.
pub open spec fn is_best_osr(clock: u32, baud: u32, osr: u32) -> bool {
    &&& MIN_OSR <= osr <= MAX_OSR
    &&& forall|o: u32|
        MIN_OSR <= o <= MAX_OSR ==> baud_error(clock, baud, osr) <= #[trigger] baud_error(
            clock,
            baud,
            o,
        )
    &&& forall|o: u32|
        MIN_OSR <= o < osr ==> baud_error(clock, baud, osr) < #[trigger] baud_error(clock, baud, o)
}

/// An oversampling ratio and a baud divisor.
#[derive(Clone, Copy, PartialEq, Eq, Debug, Structural)]
pub struct BaudDivisors {
    /// Oversampling ratio, 4 to 32.
    pub osr: u32,
    /// Baud divisor, 1 to 8191.
    pub sbr: u32,
}

/// Divisor and achieved baud rate for one ratio.
fn baud_candidate(clock: u32, baud: u32, osr: u32) -> (r: (u32, u32))
    requires
        baud > 0,
        MIN_OSR <= osr <= MAX_OSR,
    ensures
        r.0 == sbr_for(clock, baud, osr),
        r.1 == baud_error(clock, baud, osr),
{
    let base_clock: u32 = clock / baud;
    let sbr = base_clock / osr;
    proof {
        lemma_div_denominator(clock as int, baud as int, osr as int);
    }
    let sbr = if sbr < 1 {
        1
    } else if sbr > MAX_SBR {
        MAX_SBR
    } else {
        sbr
    };
    assert(osr * sbr <= 32 * 8191) by (nonlinear_arith)
        requires
            osr <= 32,
            sbr <= 8191,
    ;
    assert(osr * sbr >= 1) by (nonlinear_arith)
        requires
            osr >= 4,
            sbr >= 1,
    ;
    let effective_baud = clock / (osr * sbr);
    let err = if effective_baud >= baud {
        effective_baud - baud
    } else {
        baud - effective_baud
    };
    (sbr, err)
}

/// Finds the oversampling ratio from 4 to 32 whose divisor gets closest to
/// `baud` from `clock`, the lowest ratio winning ties.
pub fn find_baud_divisors(clock: u32, baud: u32) -> (r: BaudDivisors)
    requires
        baud > 0,
    ensures
        is_best_osr(clock, baud, r.osr),
        r.sbr == sbr_for(clock, baud, r.osr),
        1 <= r.sbr <= MAX_SBR,
{
    let (first_sbr, first_err) = baud_candidate(clock, baud, MIN_OSR);
    let mut best_osr: u32 = MIN_OSR;
    let mut best_sbr: u32 = first_sbr;
    let mut error: u32 = first_err;
    let mut osr: u32 = MIN_OSR + 1;
    while osr <= MAX_OSR
        invariant
            MIN_OSR < osr <= MAX_OSR + 1,
            MIN_OSR <= best_osr < osr,
            best_sbr == sbr_for(clock, baud, best_osr),
            error == baud_error(clock, baud, best_osr),
            baud > 0,
            forall|o: u32| MIN_OSR <= o < osr ==> error <= #[trigger] baud_error(clock, baud, o),
            forall|o: u32| MIN_OSR <= o < best_osr ==> error < #[trigger] baud_error(clock, baud, o),
        decreases MAX_OSR + 1 - osr,
    {
        let (sbr, err) = baud_candidate(clock, baud, osr);
        if err < error {
            best_osr = osr;
            best_sbr = sbr;
            error = err;
        }
        osr = osr + 1;
    }
    BaudDivisors { osr: best_osr, sbr: best_sbr }
}

/// The BAUD register with OSR, SBR and BOTHEDGE set for `d`: OSR holds the
/// ratio minus one, and both-edge sampling is on below a ratio of 8.
pub open spec fn with_baud_divisors(reg: u32, d: BaudDivisors) -> u32 {
    with_bit_as(
        with_field(with_field(reg, BAUD_OSR_SHIFT, BAUD_OSR_MASK, (d.osr - 1) as u32), BAUD_SBR_SHIFT, BAUD_SBR_MASK, d.sbr),
        BAUD_BOTHEDGE,
        d.osr < 8,
    )
}


// ---------------------------------------------------------------------------
// Driver state
// ---------------------------------------------------------------------------

/// The UART's registers, each as the word it holds.
#[derive(Clone, Copy, PartialEq, Eq, Debug, Structural)]
pub struct UartRegisters {
    /// Parameter register: FIFO sizes (read only).
    pub param: u32,
    /// Baud rate register.
    pub baud: u32,
    /// Status register.
    pub stat: u32,
    /// Control register.
    pub ctrl: u32,
    /// Data register.
    pub data: u32,
    /// FIFO register.
    pub fifo: u32,
    /// Watermark register.
    pub water: u32,
}

/// What one direction holds: the buffer of the transfer in flight, its
/// length, the bound DMA channel and the request line of this direction.
pub struct DirectionView {
    /// The buffer of the transfer in flight.
    pub buffer: Option<Seq<u8>>,
    /// The number of bytes the transfer moves.
    pub len: usize,
    /// The bound DMA channel.
    pub channel: Option<DmaChannelState>,
    /// This direction's DMA request line.
    pub peripheral: DmaHardwareSource,
}

impl DirectionView {
    /// A transfer is in flight exactly when a buffer is held.
    pub open spec fn in_flight(self) -> bool {
        self.buffer.is_some()
    }

    /// The held length fits the held buffer, and a bound channel is
    /// triggered from this direction's request line.
    pub open spec fn wf(self) -> bool {
        &&& self.buffer.is_some() ==> self.len <= self.buffer.unwrap().len()
        &&& self.channel.is_some() ==> self.channel.unwrap().hardware_source == Some(
            self.peripheral,
        )
    }
}

/// Bookkeeping of one transfer direction.
pub struct Direction {
    buffer: Option<Vec<u8>>,
    len: usize,
    dma_channel: Option<DmaChannel>,
    dma_peripheral: DmaHardwareSource,
}

impl View for Direction {
    type V = DirectionView;

    closed spec fn view(&self) -> DirectionView {
        DirectionView {
            buffer: match self.buffer {
                Some(b) => Some(b@),
                None => None,
            },
            len: self.len,
            channel: match self.dma_channel {
                Some(c) => Some(c@),
                None => None,
            },
            peripheral: self.dma_peripheral,
        }
    }
}

impl Direction {
    /// No transfer, no channel.
    fn new(dma_peripheral: DmaHardwareSource) -> (r: Direction)
        ensures
            r@ == (DirectionView {
                buffer: None,
                len: 0,
                channel: None,
                peripheral: dma_peripheral,
            }),
    {
        Direction { buffer: None, len: 0, dma_channel: None, dma_peripheral }
    }

    /// Takes the buffer and the length out, leaving no transfer in flight.
    fn take(&mut self) -> (r: (Option<Vec<u8>>, usize))
        ensures
            final(self)@ == (DirectionView { buffer: None, len: 0, ..old(self)@ }),
            r.0.is_some() == old(self)@.buffer.is_some(),
            r.0.is_some() ==> r.0.unwrap()@ == old(self)@.buffer.unwrap(),
            r.1 == old(self)@.len,
    {
        let len = self.len;
        self.len = 0;
        (self.buffer.take(), len)
    }
}

/// Everything the UART driver holds.
pub struct UartView {
    /// The UART's registers.
    pub registers: UartRegisters,
    /// The UART's clock gate.
    pub clock_gate: ClockGate,
    /// The transmit direction.
    pub transmit: DirectionView,
    /// The receive direction.
    pub receiver: DirectionView,
}

/// A buffer handed back to the client of a direction when its transfer
/// ends.
pub enum UartCompletion {
    /// A transmit ended: the buffer, the requested length and the result.
    Transmitted { buffer: Vec<u8>, len: usize, code: ReturnCode },
    /// A receive ended: the buffer, the requested length, the result and
    /// the line error seen.
    Received { buffer: Vec<u8>, len: usize, code: ReturnCode, error: UartError },
}

/// The line error that the status flags report, parity first, then
/// framing, then overrun.
pub open spec fn status_error(stat: u32) -> UartError {
    if bit(stat, STAT_PF) {
        UartError::ParityError
    } else if bit(stat, STAT_FE) {
        UartError::FramingError
    } else if bit(stat, STAT_OR) {
        UartError::OverrunError
    } else {
        UartError::NoError
    }
}

/// The status register once the idle, overrun, noise, framing and parity
/// flags are cleared (they clear when written with one).
pub open spec fn cleared_status(stat: u32) -> u32 {
    without_bit(
        without_bit(
            without_bit(without_bit(without_bit(stat, STAT_IDLE), STAT_OR), STAT_NF),
            STAT_FE,
        ),
        STAT_PF,
    )
}

/// The outcome of a completed transmit: failure if the transmit FIFO
/// overflowed.
pub open spec fn transmit_code(fifo: u32) -> ReturnCode {
    if bit(fifo, FIFO_TXOF) {
        ReturnCode::FAIL
    } else {
        ReturnCode::SUCCESS
    }
}

/// What a direction hands back when its transfer ends, given the buffer it
/// held.
pub open spec fn completion_matches(
    c: Option<UartCompletion>,
    held: Option<Seq<u8>>,
    len: usize,
    transmit: bool,
    code: ReturnCode,
    error: UartError,
) -> bool {
    match held {
        None => c.is_none(),
        Some(b) => match c {
            Some(UartCompletion::Transmitted { buffer, len: l, code: k }) => transmit && buffer@
                == b && l == len && k == code,
            Some(UartCompletion::Received { buffer, len: l, code: k, error: e }) => !transmit
                && buffer@ == b && l == len && k == code && e == error,
            None => false,
        },
    }
}

/// The code a transfer request gets from a direction: busy, off, too
/// long for the buffer, no channel, or success, checked in that order.
pub open spec fn start_outcome(
    d: DirectionView,
    enabled: bool,
    buffer: Seq<u8>,
    len: usize,
) -> ReturnCode {
    if d.in_flight() {
        ReturnCode::EBUSY
    } else if !enabled {
        ReturnCode::EOFF
    } else if len > buffer.len() {
        ReturnCode::ESIZE
    } else if d.channel.is_none() {
        ReturnCode::FAIL
    } else {
        ReturnCode::SUCCESS
    }
}

/// The code `transmit_buffer` returns.
pub open spec fn transmit_outcome(u: UartView, buffer: Seq<u8>, len: usize) -> ReturnCode {
    start_outcome(u.transmit, u.transmit_enabled(), buffer, len)
}

/// The code `receive_buffer` returns.
pub open spec fn receive_outcome(u: UartView, buffer: Seq<u8>, len: usize) -> ReturnCode {
    start_outcome(u.receiver, u.receive_enabled(), buffer, len)
}

/// A direction holding `buffer` and `len`, its channel programmed for `len`
/// bytes and enabled.
pub open spec fn direction_started(d: DirectionView, buffer: Seq<u8>, len: usize) -> DirectionView {
    DirectionView {
        buffer: Some(buffer),
        len,
        channel: Some(DmaChannelState { transfer_len: len, enabled: true, ..d.channel.unwrap() }),
        ..d
    }
}

/// The driver once a transmit of `len` bytes of `buffer` has started: the
/// transmit direction holds the buffer and transmit DMA requests are on.
pub open spec fn transmit_started(u: UartView, buffer: Seq<u8>, len: usize) -> UartView {
    UartView {
        registers: UartRegisters {
            baud: with_bit_as(u.registers.baud, BAUD_TDMAE, true),
            ..u.registers
        },
        transmit: direction_started(u.transmit, buffer, len),
        ..u
    }
}

/// The driver once a receive of `len` bytes into `buffer` has started: the
/// line error flags are cleared, the receive direction holds the buffer and
/// receive DMA requests are on.
pub open spec fn receive_started(u: UartView, buffer: Seq<u8>, len: usize) -> UartView {
    UartView {
        registers: UartRegisters {
            baud: with_bit_as(u.registers.baud, BAUD_RDMAE, true),
            stat: cleared_status(u.registers.stat),
            ..u.registers
        },
        receiver: direction_started(u.receiver, buffer, len),
        ..u
    }
}

/// A direction after one abort step: its channel is disabled unless it
/// still sees the request.
pub open spec fn abort_step(d: DirectionView) -> DirectionView {
    match d.channel {
        Some(c) => if c.hardware_signaling {
            d
        } else {
            DirectionView { channel: Some(DmaChannelState { enabled: false, ..c }), ..d }
        },
        None => d,
    }
}

/// `EBUSY` while the direction's channel still sees the request, else
/// `SUCCESS`.
pub open spec fn abort_code(d: DirectionView) -> ReturnCode {
    match d.channel {
        Some(c) => if c.hardware_signaling {
            ReturnCode::EBUSY
        } else {
            ReturnCode::SUCCESS
        },
        None => ReturnCode::SUCCESS,
    }
}

/// The single best choice of divisors for `baud` from `clock`.
pub open spec fn best_divisors(clock: u32, baud: u32) -> BaudDivisors {
    choose|d: BaudDivisors| is_best_osr(clock, baud, d.osr) && d.sbr == sbr_for(clock, baud, d.osr)
}

/// At most one ratio is the best one.
pub proof fn lemma_best_osr_unique(clock: u32, baud: u32, a: u32, b: u32)
    requires
        is_best_osr(clock, baud, a),
        is_best_osr(clock, baud, b),
    ensures
        a == b,
{
    assert(baud_error(clock, baud, a) <= baud_error(clock, baud, b));
    assert(baud_error(clock, baud, b) <= baud_error(clock, baud, a));
    if a < b {
        assert(baud_error(clock, baud, b) < baud_error(clock, baud, a));
    } else if b < a {
        assert(baud_error(clock, baud, a) < baud_error(clock, baud, b));
    }
}

/// The FIFO register with both flush bits written.
pub open spec fn flushed(fifo: u32) -> u32 {
    with_bit_as(with_bit_as(fifo, FIFO_TXFLUSH, true), FIFO_RXFLUSH, true)
}

/// The CTRL register with parity enable, 9-bit mode and parity type set
/// for `parity`: a parity bit widens the frame to nine bits.
pub open spec fn with_parity(ctrl: u32, parity: Parity) -> u32 {
    with_bit_as(
        with_bit_as(with_bit_as(ctrl, CTRL_PE, parity != Parity::NoParity), CTRL_M, parity != Parity::NoParity),
        CTRL_PT,
        parity == Parity::Odd,
    )
}

/// The driver once its baud rate is set to `baud` from `clock`: both FIFOs
/// flushed, the best divisors written, the enables as before.
pub open spec fn baud_set(u: UartView, clock: u32, baud: u32) -> UartView {
    UartView {
        registers: UartRegisters {
            baud: with_baud_divisors(u.registers.baud, best_divisors(clock, baud)),
            fifo: flushed(u.registers.fifo),
            ..u.registers
        },
        ..u
    }
}

/// The driver once its parity is set: both FIFOs flushed, the parity bits
/// written, the enables as before.
pub open spec fn parity_set(u: UartView, parity: Parity) -> UartView {
    UartView {
        registers: UartRegisters {
            ctrl: with_parity(u.registers.ctrl, parity),
            fifo: flushed(u.registers.fifo),
            ..u.registers
        },
        ..u
    }
}

/// The code `configure` returns for `params`.
pub open spec fn configure_outcome(params: Parameters) -> ReturnCode {
    if params.baud_rate < MIN_BAUD_RATE {
        ReturnCode::EINVAL
    } else if params.stop_bits != StopBits::One || params.width != Width::Eight
        || params.hw_flow_control {
        ReturnCode::ENOSUPPORT
    } else {
        ReturnCode::SUCCESS
    }
}

/// The driver once configured: both directions enabled, then the baud rate
/// and the parity set.
pub open spec fn configured(u: UartView, clock: u32, params: Parameters) -> UartView {
    let enabled = UartView {
        registers: UartRegisters {
            ctrl: with_bit_as(with_bit_as(u.registers.ctrl, CTRL_TE, true), CTRL_RE, true),
            ..u.registers
        },
        ..u
    };
    parity_set(baud_set(enabled, clock, params.baud_rate), params.parity)
}

/// Restoring the saved enable bits after clearing them, around a change of
/// the parity bits, leaves the enables as they were.
proof fn lemma_restore_enables(ctrl: u32, parity: Parity)
    ensures
        with_bit_as(
            with_bit_as(
                with_bit_as(with_bit_as(ctrl, CTRL_TE, false), CTRL_RE, false),
                CTRL_TE,
                bit(ctrl, CTRL_TE),
            ),
            CTRL_RE,
            bit(ctrl, CTRL_RE),
        ) == ctrl,
        with_bit_as(
            with_bit_as(
                with_parity(with_bit_as(with_bit_as(ctrl, CTRL_TE, false), CTRL_RE, false), parity),
                CTRL_TE,
                bit(ctrl, CTRL_TE),
            ),
            CTRL_RE,
            bit(ctrl, CTRL_RE),
        ) == with_parity(ctrl, parity),
{
    let pe = parity != Parity::NoParity;
    let pt = parity == Parity::Odd;
    assert(with_bit_as(
        with_bit_as(
            with_bit_as(with_bit_as(ctrl, 19, false), 18, false),
            19,
            (ctrl >> 19u32) & 1 == 1,
        ),
        18,
        (ctrl >> 18u32) & 1 == 1,
    ) == ctrl) by (bit_vector);
    assert(with_bit_as(
        with_bit_as(
            with_bit_as(
                with_bit_as(with_bit_as(with_bit_as(with_bit_as(ctrl, 19, false), 18, false), 1, pe), 4, pe),
                0,
                pt,
            ),
            19,
            (ctrl >> 19u32) & 1 == 1,
        ),
        18,
        (ctrl >> 18u32) & 1 == 1,
    ) == with_bit_as(with_bit_as(with_bit_as(ctrl, 1, pe), 4, pe), 0, pt)) by (bit_vector);
}

/// The driver once its transmit has ended: transmit DMA requests off and
/// the transmit direction holding no buffer.
pub open spec fn transmit_finished(u: UartView) -> UartView {
    UartView {
        registers: UartRegisters { baud: without_bit(u.registers.baud, BAUD_TDMAE), ..u.registers },
        transmit: DirectionView { buffer: None, len: 0, ..u.transmit },
        ..u
    }
}

/// The driver once its receive has ended: receive DMA requests off and the
/// receive direction holding no buffer.
pub open spec fn receive_finished(u: UartView) -> UartView {
    UartView {
        registers: UartRegisters { baud: without_bit(u.registers.baud, BAUD_RDMAE), ..u.registers },
        receiver: DirectionView { buffer: None, len: 0, ..u.receiver },
        ..u
    }
}

/// A transfer request made while a transfer of the same direction is in
/// flight is refused as busy; `transmit_buffer` and `receive_buffer` then
/// hand the buffer back and change nothing.
pub proof fn lemma_busy_rejection(u: UartView, buffer: Seq<u8>, len: usize)
    ensures
        u.transmit.in_flight() ==> transmit_outcome(u, buffer, len) == ReturnCode::EBUSY,
        u.receiver.in_flight() ==> receive_outcome(u, buffer, len) == ReturnCode::EBUSY,
{
}

/// Once a transmit that started has completed, the transmit direction holds
/// no buffer and a new transmit that fits its buffer starts at once.
pub proof fn lemma_transmit_completion_resets(
    u: UartView,
    buffer: Seq<u8>,
    len: usize,
    next: Seq<u8>,
    next_len: usize,
)
    requires
        transmit_outcome(u, buffer, len) == ReturnCode::SUCCESS,
        next_len <= next.len(),
    ensures
        !transmit_finished(transmit_started(u, buffer, len)).transmit.in_flight(),
        transmit_outcome(transmit_finished(transmit_started(u, buffer, len)), next, next_len)
            == ReturnCode::SUCCESS,
{
    let started = transmit_started(u, buffer, len);
    let done = transmit_finished(started);
    lemma_write_bit(u.registers.baud, BAUD_TDMAE, true);
    assert(done.registers.ctrl == u.registers.ctrl);
}

/// Once a receive that started has completed, the receive direction holds
/// no buffer and a new receive that fits its buffer starts at once.
pub proof fn lemma_receive_completion_resets(
    u: UartView,
    buffer: Seq<u8>,
    len: usize,
    next: Seq<u8>,
    next_len: usize,
)
    requires
        receive_outcome(u, buffer, len) == ReturnCode::SUCCESS,
        next_len <= next.len(),
    ensures
        !receive_finished(receive_started(u, buffer, len)).receiver.in_flight(),
        receive_outcome(receive_finished(receive_started(u, buffer, len)), next, next_len)
            == ReturnCode::SUCCESS,
{
    let done = receive_finished(receive_started(u, buffer, len));
    assert(done.registers.ctrl == u.registers.ctrl);
}

/// The direction's channel has raised its interrupt or its error flag.
pub open spec fn channel_signals(d: DirectionView) -> bool {
    match d.channel {
        Some(c) => c.interrupt || c.error,
        None => false,
    }
}

/// The direction's channel has raised its error flag.
pub open spec fn channel_failed(d: DirectionView) -> bool {
    match d.channel {
        Some(c) => c.error,
        None => false,
    }
}

/// The direction with both flags of its channel cleared.
pub open spec fn flags_cleared(d: DirectionView) -> DirectionView {
    match d.channel {
        Some(c) => DirectionView {
            channel: Some(DmaChannelState { interrupt: false, error: false, ..c }),
            ..d
        },
        None => d,
    }
}

/// The driver once the transmit channel's interrupt is serviced, if it
/// signals: its flags cleared, then the transmit finished.
pub open spec fn transmit_serviced(u: UartView) -> UartView {
    if channel_signals(u.transmit) {
        transmit_finished(UartView { transmit: flags_cleared(u.transmit), ..u })
    } else {
        u
    }
}

/// The driver once the receive channel's interrupt is serviced, if it
/// signals: its flags cleared, then the receive finished.
pub open spec fn receive_serviced(u: UartView) -> UartView {
    if channel_signals(u.receiver) {
        receive_finished(UartView { receiver: flags_cleared(u.receiver), ..u })
    } else {
        u
    }
}

/// What servicing both channels of the driver `o` hands back: the
/// transmit completion `tx`, then the receive completion `rx`, each present
/// only when its channel signals.
pub open spec fn dma_completions(
    o: UartView,
    tx: Option<UartCompletion>,
    rx: Option<UartCompletion>,
) -> bool {
    let t = transmit_serviced(o);
    &&& channel_signals(o.transmit) ==> completion_matches(
        tx,
        o.transmit.buffer,
        o.transmit.len,
        true,
        if channel_failed(o.transmit) {
            ReturnCode::FAIL
        } else {
            transmit_code(o.registers.fifo)
        },
        UartError::NoError,
    )
    &&& !channel_signals(o.transmit) ==> tx.is_none()
    &&& channel_signals(t.receiver) ==> completion_matches(
        rx,
        t.receiver.buffer,
        t.receiver.len,
        false,
        if channel_failed(t.receiver) {
            ReturnCode::FAIL
        } else if status_error(t.registers.stat) == UartError::NoError {
            ReturnCode::SUCCESS
        } else {
            ReturnCode::FAIL
        },
        if channel_failed(t.receiver) {
            UartError::Aborted
        } else {
            status_error(t.registers.stat)
        },
    )
    &&& !channel_signals(t.receiver) ==> rx.is_none()
}

/// The direction once the hardware has ended its channel's transfer, with
/// an error if `failed`.
pub open spec fn transfer_ended(d: DirectionView, failed: bool) -> DirectionView {
    match d.channel {
        Some(c) => DirectionView {
            channel: Some(
                if failed {
                    DmaChannelState { hardware_signaling: false, error: true, enabled: false, ..c }
                } else {
                    DmaChannelState {
                        hardware_signaling: false,
                        interrupt: c.interrupt || c.interrupt_on_completion,
                        enabled: c.enabled && !c.disable_on_completion,
                        ..c
                    }
                },
            ),
            ..d
        },
        None => d,
    }
}

/// The direction with its DMA request asserted or released.
pub open spec fn request_set(d: DirectionView, signaling: bool) -> DirectionView {
    match d.channel {
        Some(c) => DirectionView {
            channel: Some(DmaChannelState { hardware_signaling: signaling, ..c }),
            ..d
        },
        None => d,
    }
}

/// A UART peripheral with one DMA-driven transfer direction each way.
pub struct Uart {
    registers: UartRegisters,
    clock_gate: ClockGate,
    transmit: Direction,
    receiver: Direction,
}

impl View for Uart {
    type V = UartView;

    closed spec fn view(&self) -> UartView {
        UartView {
            registers: self.registers,
            clock_gate: self.clock_gate,
            transmit: self.transmit@,
            receiver: self.receiver@,
        }
    }
}

impl UartView {
    /// The clock gate exists, the two directions are well formed and use
    /// different request lines.
    pub open spec fn wf(self) -> bool {
        &&& self.clock_gate.wf()
        &&& self.transmit.wf()
        &&& self.receiver.wf()
        &&& self.transmit.peripheral != self.receiver.peripheral
    }

    /// The transmitter is enabled.
    pub open spec fn transmit_enabled(self) -> bool {
        bit(self.registers.ctrl, CTRL_TE)
    }

    /// The receiver is enabled.
    pub open spec fn receive_enabled(self) -> bool {
        bit(self.registers.ctrl, CTRL_RE)
    }
}

impl Uart {
    /// A UART with cleared registers but for `param`, the clock gate
    /// `clock_gate`, and the request lines of its two directions.
    pub fn new(
        clock_gate: ClockGate,
        param: u32,
        dma_hardware_tx: DmaHardwareSource,
        dma_hardware_rx: DmaHardwareSource,
    ) -> (r: Uart)
        requires
            clock_gate.wf(),
            dma_hardware_tx != dma_hardware_rx,
        ensures
            r@.wf(),
            r@.registers == (UartRegisters {
                param,
                baud: 0,
                stat: 0,
                ctrl: 0,
                data: 0,
                fifo: 0,
                water: 0,
            }),
            r@.clock_gate == clock_gate,
            r@.transmit == (DirectionView {
                buffer: None,
                len: 0,
                channel: None,
                peripheral: dma_hardware_tx,
            }),
            r@.receiver == (DirectionView {
                buffer: None,
                len: 0,
                channel: None,
                peripheral: dma_hardware_rx,
            }),
    {
        Uart {
            registers: UartRegisters {
                param,
                baud: 0,
                stat: 0,
                ctrl: 0,
                data: 0,
                fifo: 0,
                water: 0,
            },
            clock_gate,
            transmit: Direction::new(dma_hardware_tx),
            receiver: Direction::new(dma_hardware_rx),
        }
    }

    /// Returns the registers.
    pub fn registers(&self) -> (r: UartRegisters)
        ensures
            r == self@.registers,
    {
        self.registers
    }

    /// The hardware changes what the registers hold (status flags rise,
    /// data arrives).
    pub fn set_registers(&mut self, registers: UartRegisters)
        ensures
            final(self)@ == (UartView { registers, ..old(self)@ }),
    {
        self.registers = registers;
    }

    /// Returns the state of the transmit DMA channel, if one is bound.
    pub fn transmit_channel(&self) -> (r: Option<DmaChannelState>)
        ensures
            r == self@.transmit.channel,
    {
        match &self.transmit.dma_channel {
            Some(c) => Some(c.state()),
            None => None,
        }
    }

    /// Returns the state of the receive DMA channel, if one is bound.
    pub fn receive_channel(&self) -> (r: Option<DmaChannelState>)
        ensures
            r == self@.receiver.channel,
    {
        match &self.receiver.dma_channel {
            Some(c) => Some(c.state()),
            None => None,
        }
    }

    /// The hardware ends the transfer of a direction's channel (the
    /// transmit one if `transmit`), with an error if `failed`, as
    /// `DmaChannel::complete_transfer` and `DmaChannel::fail_transfer`
    /// describe. A direction without a channel is left as it is.
    pub fn end_dma_transfer(&mut self, transmit: bool, failed: bool)
        requires
            old(self)@.wf(),
        ensures
            final(self)@.wf(),
            final(self)@.registers == old(self)@.registers,
            final(self)@.clock_gate == old(self)@.clock_gate,
            transmit ==> final(self)@.receiver == old(self)@.receiver
                && final(self)@.transmit == transfer_ended(old(self)@.transmit, failed),
            !transmit ==> final(self)@.transmit == old(self)@.transmit
                && final(self)@.receiver == transfer_ended(old(self)@.receiver, failed),
    {
        let channel = if transmit {
            &mut self.transmit.dma_channel
        } else {
            &mut self.receiver.dma_channel
        };
        match channel {
            Some(c) => {
                if failed {
                    c.fail_transfer();
                } else {
                    c.complete_transfer();
                }
            },
            None => {},
        }
    }

    /// The peripheral asserts or releases the DMA request of a direction
    /// (the transmit one if `transmit`). A direction without a channel is
    /// left as it is.
    pub fn set_dma_request(&mut self, transmit: bool, signaling: bool)
        requires
            old(self)@.wf(),
        ensures
            final(self)@.wf(),
            final(self)@.registers == old(self)@.registers,
            final(self)@.clock_gate == old(self)@.clock_gate,
            transmit ==> final(self)@.receiver == old(self)@.receiver
                && final(self)@.transmit == request_set(old(self)@.transmit, signaling),
            !transmit ==> final(self)@.transmit == old(self)@.transmit
                && final(self)@.receiver == request_set(old(self)@.receiver, signaling),
    {
        let channel = if transmit {
            &mut self.transmit.dma_channel
        } else {
            &mut self.receiver.dma_channel
        };
        match channel {
            Some(c) => c.set_hardware_signaling(signaling),
            None => {},
        }
    }

    /// Returns `true` while a transmit is in flight.
    pub fn is_transmitting(&self) -> (r: bool)
        ensures
            r == self@.transmit.in_flight(),
    {
        self.transmit.buffer.is_some()
    }

    /// Returns `true` while a receive is in flight.
    pub fn is_receiving(&self) -> (r: bool)
        ensures
            r == self@.receiver.in_flight(),
    {
        self.receiver.buffer.is_some()
    }

    /// Clears the idle, overrun, noise, framing and parity flags.
    fn clear_status(&mut self)
        ensures
            final(self)@ == (UartView {
                registers: UartRegisters {
                    stat: cleared_status(old(self)@.registers.stat),
                    ..old(self)@.registers
                },
                ..old(self)@
            }),
    {
        let stat = self.registers.stat;
        let stat = write_bit(stat, STAT_IDLE, false);
        let stat = write_bit(stat, STAT_OR, false);
        let stat = write_bit(stat, STAT_NF, false);
        let stat = write_bit(stat, STAT_FE, false);
        let stat = write_bit(stat, STAT_PF, false);
        self.registers.stat = stat;
    }

    /// Returns the line error the status flags report.
    fn check_status(&self) -> (r: UartError)
        ensures
            r == status_error(self@.registers.stat),
    {
        let stat = self.registers.stat;
        if is_set(stat, STAT_PF) {
            UartError::ParityError
        } else if is_set(stat, STAT_FE) {
            UartError::FramingError
        } else if is_set(stat, STAT_OR) {
            UartError::OverrunError
        } else {
            UartError::NoError
        }
    }

    /// Binds the DMA channel that moves transmit data: it is triggered from
    /// the transmit request line, raises its interrupt flag and disables
    /// itself on completion.
    pub fn set_tx_dma_channel(&mut self, dma_channel: DmaChannel)
        requires
            old(self)@.wf(),
        ensures
            final(self)@.wf(),
            final(self)@ == (UartView {
                transmit: DirectionView {
                    channel: Some(
                        DmaChannelState {
                            hardware_source: Some(old(self)@.transmit.peripheral),
                            interrupt_on_completion: true,
                            disable_on_completion: true,
                            ..dma_channel@
                        },
                    ),
                    ..old(self)@.transmit
                },
                ..old(self)@
            }),
    {
        let mut dma_channel = dma_channel;
        dma_channel.trigger_from_hardware(self.transmit.dma_peripheral);
        dma_channel.set_interrupt_on_completion(true);
        dma_channel.set_disable_on_completion(true);
        self.transmit.dma_channel = Some(dma_channel);
    }

    /// Binds the DMA channel that moves received data: it is triggered from
    /// the receive request line, raises its interrupt flag and disables
    /// itself on completion.
    pub fn set_rx_dma_channel(&mut self, dma_channel: DmaChannel)
        requires
            old(self)@.wf(),
        ensures
            final(self)@.wf(),
            final(self)@ == (UartView {
                receiver: DirectionView {
                    channel: Some(
                        DmaChannelState {
                            hardware_source: Some(old(self)@.receiver.peripheral),
                            interrupt_on_completion: true,
                            disable_on_completion: true,
                            ..dma_channel@
                        },
                    ),
                    ..old(self)@.receiver
                },
                ..old(self)@
            }),
    {
        let mut dma_channel = dma_channel;
        dma_channel.trigger_from_hardware(self.receiver.dma_peripheral);
        dma_channel.set_interrupt_on_completion(true);
        dma_channel.set_disable_on_completion(true);
        self.receiver.dma_channel = Some(dma_channel);
    }

    /// Turns this UART's clock on.
    pub fn enable_clock(&self, ccm: &mut ClockControlModule)
        requires
            self@.wf(),
            old(ccm).wf(),
        ensures
            final(ccm).wf(),
            final(ccm).gates() == self@.clock_gate.set_in(old(ccm).gates(), ClockActivity::On),
            final(ccm).cscmr1() == old(ccm).cscmr1(),
            final(ccm).cscdr1() == old(ccm).cscdr1(),
            final(ccm).gates().len() == crate::ccm::NUM_GATE_REGISTERS,
            self@.clock_gate.activity_in(final(ccm).gates()) == Some(ClockActivity::On),
            forall|other: ClockGate|
                other.wf() && other != self@.clock_gate ==> #[trigger] other.activity_in(
                    final(ccm).gates(),
                ) == other.activity_in(old(ccm).gates()),
    {
        self.clock_gate.set_activity(ccm, ClockActivity::On);
    }

    /// Turns this UART's clock off.
    pub fn disable_clock(&self, ccm: &mut ClockControlModule)
        requires
            self@.wf(),
            old(ccm).wf(),
        ensures
            final(ccm).wf(),
            final(ccm).gates() == self@.clock_gate.set_in(old(ccm).gates(), ClockActivity::Off),
            final(ccm).cscmr1() == old(ccm).cscmr1(),
            final(ccm).cscdr1() == old(ccm).cscdr1(),
            final(ccm).gates().len() == crate::ccm::NUM_GATE_REGISTERS,
            self@.clock_gate.activity_in(final(ccm).gates()) == Some(ClockActivity::Off),
            forall|other: ClockGate|
                other.wf() && other != self@.clock_gate ==> #[trigger] other.activity_in(
                    final(ccm).gates(),
                ) == other.activity_in(old(ccm).gates()),
    {
        self.clock_gate.set_activity(ccm, ClockActivity::Off);
    }

    /// Sets the transmitter enable bit.
    pub fn enable_transmit(&mut self)
        ensures
            final(self)@ == (UartView {
                registers: UartRegisters {
                    ctrl: with_bit_as(old(self)@.registers.ctrl, CTRL_TE, true),
                    ..old(self)@.registers
                },
                ..old(self)@
            }),
            final(self)@.transmit_enabled(),
            final(self)@.receive_enabled() == old(self)@.receive_enabled(),
    {
        self.registers.ctrl = write_bit(self.registers.ctrl, CTRL_TE, true);
    }

    /// Clears the transmitter enable bit.
    pub fn disable_transmit(&mut self)
        ensures
            final(self)@ == (UartView {
                registers: UartRegisters {
                    ctrl: with_bit_as(old(self)@.registers.ctrl, CTRL_TE, false),
                    ..old(self)@.registers
                },
                ..old(self)@
            }),
            !final(self)@.transmit_enabled(),
            final(self)@.receive_enabled() == old(self)@.receive_enabled(),
    {
        self.registers.ctrl = write_bit(self.registers.ctrl, CTRL_TE, false);
    }

    /// Returns `true` if the transmitter is enabled.
    pub fn is_transmit_enabled(&self) -> (r: bool)
        ensures
            r == self@.transmit_enabled(),
    {
        is_set(self.registers.ctrl, CTRL_TE)
    }

    /// Sets the receiver enable bit.
    pub fn enable_receive(&mut self)
        ensures
            final(self)@ == (UartView {
                registers: UartRegisters {
                    ctrl: with_bit_as(old(self)@.registers.ctrl, CTRL_RE, true),
                    ..old(self)@.registers
                },
                ..old(self)@
            }),
            final(self)@.receive_enabled(),
            final(self)@.transmit_enabled() == old(self)@.transmit_enabled(),
    {
        self.registers.ctrl = write_bit(self.registers.ctrl, CTRL_RE, true);
    }

    /// Clears the receiver enable bit.
    pub fn disable_receive(&mut self)
        ensures
            final(self)@ == (UartView {
                registers: UartRegisters {
                    ctrl: with_bit_as(old(self)@.registers.ctrl, CTRL_RE, false),
                    ..old(self)@.registers
                },
                ..old(self)@
            }),
            !final(self)@.receive_enabled(),
            final(self)@.transmit_enabled() == old(self)@.transmit_enabled(),
    {
        self.registers.ctrl = write_bit(self.registers.ctrl, CTRL_RE, false);
    }

    /// Returns `true` if the receiver is enabled.
    pub fn is_receive_enabled(&self) -> (r: bool)
        ensures
            r == self@.receive_enabled(),
    {
        is_set(self.registers.ctrl, CTRL_RE)
    }

    /// Starts sending the first `tx_len` bytes of `tx_buffer` through the
    /// transmit DMA channel.
    ///
    /// On success the driver keeps the buffer until the transfer completes.
    /// Otherwise nothing changes and the buffer comes back: `EBUSY` while a
    /// transmit is in flight, `EOFF` when the transmitter is disabled,
    /// `ESIZE` when `tx_len` exceeds the buffer, `FAIL` when no channel is
    /// bound, checked in that order.
    pub fn transmit_buffer(&mut self, tx_buffer: Vec<u8>, tx_len: usize) -> (r: (
        ReturnCode,
        Option<Vec<u8>>,
    ))
        requires
            old(self)@.wf(),
        ensures
            final(self)@.wf(),
            r.0 == transmit_outcome(old(self)@, tx_buffer@, tx_len),
            r.0 != ReturnCode::SUCCESS ==> r.1 == Some(tx_buffer) && final(self)@ == old(self)@,
            r.0 == ReturnCode::SUCCESS ==> r.1.is_none() && final(self)@ == transmit_started(
                old(self)@,
                tx_buffer@,
                tx_len,
            ),
    {
        if self.transmit.buffer.is_some() {
            return (ReturnCode::EBUSY, Some(tx_buffer));
        } else if !self.is_transmit_enabled() {
            return (ReturnCode::EOFF, Some(tx_buffer));
        } else if tx_len > tx_buffer.len() {
            return (ReturnCode::ESIZE, Some(tx_buffer));
        } else if self.transmit.dma_channel.is_none() {
            return (ReturnCode::FAIL, Some(tx_buffer));
        }
        match &mut self.transmit.dma_channel {
            Some(dma_channel) => {
                dma_channel.set_transfer_len(tx_len);
                dma_channel.enable();
            },
            None => {},
        }
        self.transmit.buffer = Some(tx_buffer);
        self.transmit.len = tx_len;
        self.registers.baud = write_bit(self.registers.baud, BAUD_TDMAE, true);
        (ReturnCode::SUCCESS, None)
    }

    /// Starts receiving `rx_size` bytes into `rx_buffer` through the receive
    /// DMA channel, after clearing the line error flags so that an earlier
    /// error does not show in this transfer's result.
    ///
    /// The errors are those of `transmit_buffer`, for the receiver.
    pub fn receive_buffer(&mut self, rx_buffer: Vec<u8>, rx_size: usize) -> (r: (
        ReturnCode,
        Option<Vec<u8>>,
    ))
        requires
            old(self)@.wf(),
        ensures
            final(self)@.wf(),
            r.0 == receive_outcome(old(self)@, rx_buffer@, rx_size),
            r.0 != ReturnCode::SUCCESS ==> r.1 == Some(rx_buffer) && final(self)@ == old(self)@,
            r.0 == ReturnCode::SUCCESS ==> r.1.is_none() && final(self)@ == receive_started(
                old(self)@,
                rx_buffer@,
                rx_size,
            ),
    {
        if self.receiver.buffer.is_some() {
            return (ReturnCode::EBUSY, Some(rx_buffer));
        } else if !self.is_receive_enabled() {
            return (ReturnCode::EOFF, Some(rx_buffer));
        } else if rx_size > rx_buffer.len() {
            return (ReturnCode::ESIZE, Some(rx_buffer));
        } else if self.receiver.dma_channel.is_none() {
            return (ReturnCode::FAIL, Some(rx_buffer));
        }
        match &mut self.receiver.dma_channel {
            Some(dma_channel) => {
                dma_channel.set_transfer_len(rx_size);
            },
            None => {},
        }
        self.clear_status();
        self.receiver.buffer = Some(rx_buffer);
        self.receiver.len = rx_size;
        match &mut self.receiver.dma_channel {
            Some(dma_channel) => {
                dma_channel.enable();
            },
            None => {},
        }
        self.registers.baud = write_bit(self.registers.baud, BAUD_RDMAE, true);
        (ReturnCode::SUCCESS, None)
    }

    /// Sending a single word is not supported.
    pub fn transmit_word(&self, _word: u32) -> (r: ReturnCode)
        ensures
            r == ReturnCode::FAIL,
    {
        ReturnCode::FAIL
    }

    /// Receiving a single word is not supported.
    pub fn receive_word(&self) -> (r: ReturnCode)
        ensures
            r == ReturnCode::FAIL,
    {
        ReturnCode::FAIL
    }

    /// Stops the transmit DMA: the request is withdrawn at once, and the
    /// channel is disabled once it no longer sees the request. Returns
    /// `EBUSY` while the channel still sees it (call again until it
    /// returns `SUCCESS`). The buffer in flight stays with the driver until
    /// a completion hands it back.
    pub fn transmit_abort(&mut self) -> (r: ReturnCode)
        requires
            old(self)@.wf(),
        ensures
            final(self)@.wf(),
            final(self)@.registers == (UartRegisters {
                baud: without_bit(old(self)@.registers.baud, BAUD_TDMAE),
                ..old(self)@.registers
            }),
            final(self)@.clock_gate == old(self)@.clock_gate,
            final(self)@.receiver == old(self)@.receiver,
            final(self)@.transmit == abort_step(old(self)@.transmit),
            r == abort_code(old(self)@.transmit),
    {
        self.registers.baud = write_bit(self.registers.baud, BAUD_TDMAE, false);
        match &mut self.transmit.dma_channel {
            Some(dma_channel) => {
                if dma_channel.is_hardware_signaling() {
                    ReturnCode::EBUSY
                } else {
                    dma_channel.disable();
                    ReturnCode::SUCCESS
                }
            },
            None => ReturnCode::SUCCESS,
        }
    }

    /// Stops the receive DMA, as `transmit_abort` does for the transmitter.
    pub fn receive_abort(&mut self) -> (r: ReturnCode)
        requires
            old(self)@.wf(),
        ensures
            final(self)@.wf(),
            final(self)@.registers == (UartRegisters {
                baud: without_bit(old(self)@.registers.baud, BAUD_RDMAE),
                ..old(self)@.registers
            }),
            final(self)@.clock_gate == old(self)@.clock_gate,
            final(self)@.transmit == old(self)@.transmit,
            final(self)@.receiver == abort_step(old(self)@.receiver),
            r == abort_code(old(self)@.receiver),
    {
        self.registers.baud = write_bit(self.registers.baud, BAUD_RDMAE, false);
        match &mut self.receiver.dma_channel {
            Some(dma_channel) => {
                if dma_channel.is_hardware_signaling() {
                    ReturnCode::EBUSY
                } else {
                    dma_channel.disable();
                    ReturnCode::SUCCESS
                }
            },
            None => ReturnCode::SUCCESS,
        }
    }

    /// Flushes both FIFOs and clears both enables, returning the enables
    /// it found. Registers that may only change while the UART is disabled
    /// are written between this and `restore_enables`.
    fn quiesce(&mut self) -> (r: (bool, bool))
        ensures
            r == (old(self)@.transmit_enabled(), old(self)@.receive_enabled()),
            final(self)@ == (UartView {
                registers: UartRegisters {
                    fifo: flushed(old(self)@.registers.fifo),
                    ctrl: with_bit_as(
                        with_bit_as(old(self)@.registers.ctrl, CTRL_TE, false),
                        CTRL_RE,
                        false,
                    ),
                    ..old(self)@.registers
                },
                ..old(self)@
            }),
    {
        self.flush();
        let te = is_set(self.registers.ctrl, CTRL_TE);
        let re = is_set(self.registers.ctrl, CTRL_RE);
        self.registers.ctrl = write_bit(self.registers.ctrl, CTRL_TE, false);
        self.registers.ctrl = write_bit(self.registers.ctrl, CTRL_RE, false);
        (te, re)
    }

    /// Writes back the enables that `quiesce` returned.
    fn restore_enables(&mut self, te: bool, re: bool)
        ensures
            final(self)@ == (UartView {
                registers: UartRegisters {
                    ctrl: with_bit_as(with_bit_as(old(self)@.registers.ctrl, CTRL_TE, te), CTRL_RE, re),
                    ..old(self)@.registers
                },
                ..old(self)@
            }),
    {
        self.registers.ctrl = write_bit(self.registers.ctrl, CTRL_TE, te);
        self.registers.ctrl = write_bit(self.registers.ctrl, CTRL_RE, re);
    }

    /// Discards the contents of both FIFOs.
    fn flush(&mut self)
        ensures
            final(self)@ == (UartView {
                registers: UartRegisters {
                    fifo: flushed(old(self)@.registers.fifo),
                    ..old(self)@.registers
                },
                ..old(self)@
            }),
    {
        let fifo = write_bit(self.registers.fifo, FIFO_TXFLUSH, true);
        self.registers.fifo = write_bit(fifo, FIFO_RXFLUSH, true);
    }

    /// Sets the baud rate closest to `baud` that the UART clock allows,
    /// with the line quiesced while the divisors change.
    pub fn set_baud(&mut self, ccm: &ClockControlModule, baud: u32)
        requires
            ccm.uart_clock_is_oscillator(),
            baud > 0,
        ensures
            final(self)@ == baud_set(old(self)@, ccm.uart_clock_frequency(), baud),
    {
        let (te, re) = self.quiesce();
        let effective_clock = ccm.get_uart_clock_frequency();
        let best = find_baud_divisors(effective_clock, baud);
        proof {
            let b = best_divisors(effective_clock, baud);
            assert(is_best_osr(effective_clock, baud, b.osr) && b.sbr == sbr_for(effective_clock, baud, b.osr));
            lemma_best_osr_unique(effective_clock, baud, best.osr, b.osr);
        }
        let reg = write_field(self.registers.baud, BAUD_OSR_SHIFT, BAUD_OSR_MASK, best.osr - 1);
        let reg = write_field(reg, BAUD_SBR_SHIFT, BAUD_SBR_MASK, best.sbr);
        self.registers.baud = write_bit(reg, BAUD_BOTHEDGE, best.osr < 8);
        self.restore_enables(te, re);
        proof {
            lemma_restore_enables(old(self)@.registers.ctrl, Parity::NoParity);
        }
    }

    /// Sets the parity, with the line quiesced while it changes.
    pub fn set_parity(&mut self, parity: Parity)
        ensures
            final(self)@ == parity_set(old(self)@, parity),
    {
        let m = parity != Parity::NoParity;
        let pe = parity != Parity::NoParity;
        let pt = parity == Parity::Odd;
        let (te, re) = self.quiesce();
        let ctrl = write_bit(self.registers.ctrl, CTRL_PE, pe);
        let ctrl = write_bit(ctrl, CTRL_M, m);
        self.registers.ctrl = write_bit(ctrl, CTRL_PT, pt);
        self.restore_enables(te, re);
        proof {
            lemma_restore_enables(old(self)@.registers.ctrl, parity);
        }
    }

    /// Enables the transmit FIFO with a size of `size`, capped at the
    /// hardware's size, and returns the size set; a size of zero disables
    /// it and returns 0. Both FIFOs are flushed on the way.
    pub fn set_tx_fifo(&mut self, size: u8) -> (r: u8)
        requires
            size > 0 ==> crate::bits::field(old(self)@.registers.param, PARAM_TXFIFO_SHIFT, PARAM_MASK) < 8,
        ensures
            ({
                let o = old(self)@.registers;
                let max = 1u8 << crate::bits::field(o.param, PARAM_TXFIFO_SHIFT, PARAM_MASK);
                &&& r == if size == 0 { 0 } else if max < size { max } else { size }
                &&& final(self)@ == (UartView {
                    registers: UartRegisters {
                        fifo: with_bit_as(flushed(o.fifo), FIFO_TXFE, size > 0),
                        water: with_field(o.water, WATER_TXWATER_SHIFT, WATER_MASK, if r == 0 { 0 } else { (r - 1) as u32 }),
                        ..o
                    },
                    ..old(self)@
                })
            }),
    {
        let (te, re) = self.quiesce();
        let result = if size > 0 {
            let shift = read_field(self.registers.param, PARAM_TXFIFO_SHIFT, PARAM_MASK);
            let max_size: u8 = 1u8 << shift;
            assert(1u8 << shift >= 1) by (bit_vector)
                requires
                    shift < 8,
            ;
            let tx_fifo_size = if max_size < size { max_size } else { size };
            self.registers.water = write_field(self.registers.water, WATER_TXWATER_SHIFT, WATER_MASK, (tx_fifo_size - 1) as u32);
            self.registers.fifo = write_bit(self.registers.fifo, FIFO_TXFE, true);
            tx_fifo_size
        } else {
            self.registers.fifo = write_bit(self.registers.fifo, FIFO_TXFE, false);
            self.registers.water = write_field(self.registers.water, WATER_TXWATER_SHIFT, WATER_MASK, 0);
            0
        };
        self.restore_enables(te, re);
        proof {
            lemma_restore_enables(old(self)@.registers.ctrl, Parity::NoParity);
        }
        result
    }

    /// Enables or disables the receive FIFO, flushing both FIFOs.
    pub fn set_rx_fifo(&mut self, enable: bool)
        ensures
            final(self)@ == (UartView {
                registers: UartRegisters {
                    fifo: with_bit_as(flushed(old(self)@.registers.fifo), FIFO_RXFE, enable),
                    ..old(self)@.registers
                },
                ..old(self)@
            }),
    {
        let (te, re) = self.quiesce();
        self.registers.fifo = write_bit(self.registers.fifo, FIFO_RXFE, enable);
        self.restore_enables(te, re);
        proof {
            lemma_restore_enables(old(self)@.registers.ctrl, Parity::NoParity);
        }
    }

    /// Sets the receive FIFO fill level that raises a DMA request, capped
    /// at the hardware's FIFO size, and returns the level set.
    pub fn set_rx_fifo_watermark(&mut self, watermark: u32) -> (r: u32)
        requires
            crate::bits::field(old(self)@.registers.param, PARAM_RXFIFO_SHIFT, PARAM_MASK) < 32,
        ensures
            ({
                let o = old(self)@.registers;
                let max = 1u32 << crate::bits::field(o.param, PARAM_RXFIFO_SHIFT, PARAM_MASK);
                &&& r == if max < watermark { max } else { watermark }
                &&& final(self)@ == (UartView {
                    registers: UartRegisters {
                        water: with_field(o.water, WATER_RXWATER_SHIFT, WATER_MASK, r),
                        ..o
                    },
                    ..old(self)@
                })
            }),
    {
        let shift = read_field(self.registers.param, PARAM_RXFIFO_SHIFT, PARAM_MASK);
        let max_size: u32 = 1u32 << shift;
        let fifo_size = if max_size < watermark { max_size } else { watermark };
        self.registers.water = write_field(self.registers.water, WATER_RXWATER_SHIFT, WATER_MASK, fifo_size);
        fifo_size
    }

    /// Writes `word` to the transmit data register if it is empty, and
    /// returns whether it did; a caller that must send the byte calls again
    /// until it returns `true`.
    pub fn send_byte(&mut self, word: u8) -> (r: bool)
        ensures
            r == bit(old(self)@.registers.stat, STAT_TDRE),
            r ==> final(self)@ == (UartView {
                registers: UartRegisters { data: word as u32, ..old(self)@.registers },
                ..old(self)@
            }),
            !r ==> final(self)@ == old(self)@,
    {
        if is_set(self.registers.stat, STAT_TDRE) {
            self.registers.data = word as u32;
            true
        } else {
            false
        }
    }

    /// Configures the line: the baud rate must be at least 9600 (`EINVAL`),
    /// and only one stop bit, eight data bits and no flow control are
    /// supported (`ENOSUPPORT`). On success the clock and both directions
    /// are enabled and the baud rate and parity are set.
    pub fn configure(&mut self, ccm: &mut ClockControlModule, params: Parameters) -> (r: ReturnCode)
        requires
            old(self)@.wf(),
            old(ccm).wf(),
            configure_outcome(params) == ReturnCode::SUCCESS ==> old(ccm).uart_clock_is_oscillator(),
        ensures
            final(self)@.wf(),
            final(ccm).wf(),
            r == configure_outcome(params),
            r != ReturnCode::SUCCESS ==> final(self)@ == old(self)@ && *final(ccm) == *old(ccm),
            r == ReturnCode::SUCCESS ==> {
                &&& final(self)@ == configured(old(self)@, old(ccm).uart_clock_frequency(), params)
                &&& final(ccm).gates() == old(self)@.clock_gate.set_in(old(ccm).gates(), ClockActivity::On)
                &&& final(ccm).cscmr1() == old(ccm).cscmr1()
                &&& final(ccm).cscdr1() == old(ccm).cscdr1()
            },
    {
        if params.baud_rate < MIN_BAUD_RATE {
            ReturnCode::EINVAL
        } else if params.stop_bits != StopBits::One || params.width != Width::Eight
            || params.hw_flow_control {
            ReturnCode::ENOSUPPORT
        } else {
            self.enable_clock(ccm);
            self.enable_transmit();
            self.enable_receive();
            self.set_baud(ccm, params.baud_rate);
            self.set_parity(params.parity);
            ReturnCode::SUCCESS
        }
    }

    /// Services this UART's DMA channels: each bound channel that raised
    /// its interrupt or error flag has its flags cleared and its outcome
    /// passed to `transfer_complete`. Returns the transmit completion, then
    /// the receive completion, for the clients.
    pub fn handle_dma_interrupts(&mut self) -> (r: (Option<UartCompletion>, Option<UartCompletion>))
        requires
            old(self)@.wf(),
        ensures
            final(self)@.wf(),
            final(self)@ == receive_serviced(transmit_serviced(old(self)@)),
            dma_completions(old(self)@, r.0, r.1),
    {
        let tx = self.service_transmit_channel();
        let rx = self.service_receive_channel();
        (tx, rx)
    }

    /// Services the transmit channel if it signals.
    fn service_transmit_channel(&mut self) -> (r: Option<UartCompletion>)
        requires
            old(self)@.wf(),
        ensures
            final(self)@.wf(),
            final(self)@ == transmit_serviced(old(self)@),
            channel_signals(old(self)@.transmit) ==> completion_matches(
                r,
                old(self)@.transmit.buffer,
                old(self)@.transmit.len,
                true,
                if channel_failed(old(self)@.transmit) {
                    ReturnCode::FAIL
                } else {
                    transmit_code(old(self)@.registers.fifo)
                },
                UartError::NoError,
            ),
            !channel_signals(old(self)@.transmit) ==> r.is_none(),
    {
        let result = match &mut self.transmit.dma_channel {
            Some(dma_channel) => {
                if dma_channel.is_interrupt() || dma_channel.is_error() {
                    dma_channel.handle_interrupt()
                } else {
                    None
                }
            },
            None => None,
        };
        match result {
            Some(result) => self.transfer_complete(result),
            None => None,
        }
    }

    /// Services the receive channel if it signals.
    fn service_receive_channel(&mut self) -> (r: Option<UartCompletion>)
        requires
            old(self)@.wf(),
        ensures
            final(self)@.wf(),
            final(self)@ == receive_serviced(old(self)@),
            channel_signals(old(self)@.receiver) ==> completion_matches(
                r,
                old(self)@.receiver.buffer,
                old(self)@.receiver.len,
                false,
                if channel_failed(old(self)@.receiver) {
                    ReturnCode::FAIL
                } else if status_error(old(self)@.registers.stat) == UartError::NoError {
                    ReturnCode::SUCCESS
                } else {
                    ReturnCode::FAIL
                },
                if channel_failed(old(self)@.receiver) {
                    UartError::Aborted
                } else {
                    status_error(old(self)@.registers.stat)
                },
            ),
            !channel_signals(old(self)@.receiver) ==> r.is_none(),
    {
        let result = match &mut self.receiver.dma_channel {
            Some(dma_channel) => {
                if dma_channel.is_interrupt() || dma_channel.is_error() {
                    dma_channel.handle_interrupt()
                } else {
                    None
                }
            },
            None => None,
        };
        match result {
            Some(result) => self.transfer_complete(result),
            None => None,
        }
    }

    /// Handles the end of a DMA transfer reported by a channel.
    ///
    /// The direction whose request line `result` names stops requesting
    /// DMA, gives up its buffer and length, and the completion for its
    /// client is returned: a transmit fails if the transmit FIFO
    /// overflowed, a receive fails with the line error the status flags
    /// show, and a DMA error fails either, a receive as aborted. A result
    /// naming neither direction changes nothing.
    pub fn transfer_complete(&mut self, result: DmaResult) -> (r: Option<UartCompletion>)
        requires
            old(self)@.wf(),
        ensures
            final(self)@.wf(),
            ({
                let o = old(self)@;
                let regs = o.registers;
                match result {
                    Ok(source) if source == o.transmit.peripheral => {
                        &&& final(self)@ == transmit_finished(o)
                        &&& completion_matches(
                            r,
                            o.transmit.buffer,
                            o.transmit.len,
                            true,
                            transmit_code(regs.fifo),
                            UartError::NoError,
                        )
                    },
                    Err(source) if source == o.transmit.peripheral => {
                        &&& final(self)@ == transmit_finished(o)
                        &&& completion_matches(
                            r,
                            o.transmit.buffer,
                            o.transmit.len,
                            true,
                            ReturnCode::FAIL,
                            UartError::NoError,
                        )
                    },
                    Ok(source) if source == o.receiver.peripheral => {
                        &&& final(self)@ == receive_finished(o)
                        &&& completion_matches(
                            r,
                            o.receiver.buffer,
                            o.receiver.len,
                            false,
                            if status_error(regs.stat) == UartError::NoError {
                                ReturnCode::SUCCESS
                            } else {
                                ReturnCode::FAIL
                            },
                            status_error(regs.stat),
                        )
                    },
                    Err(source) if source == o.receiver.peripheral => {
                        &&& final(self)@ == receive_finished(o)
                        &&& completion_matches(
                            r,
                            o.receiver.buffer,
                            o.receiver.len,
                            false,
                            ReturnCode::FAIL,
                            UartError::Aborted,
                        )
                    },
                    _ => final(self)@ == o && r.is_none(),
                }
            }),
    {
        let (source, ok) = match result {
            Ok(s) => (s, true),
            Err(s) => (s, false),
        };
        if source == self.transmit.dma_peripheral {
            self.registers.baud = write_bit(self.registers.baud, BAUD_TDMAE, false);
            let code = if !ok {
                ReturnCode::FAIL
            } else if is_set(self.registers.fifo, FIFO_TXOF) {
                ReturnCode::FAIL
            } else {
                ReturnCode::SUCCESS
            };
            let (buffer, len) = self.transmit.take();
            match buffer {
                Some(buffer) => Some(UartCompletion::Transmitted { buffer, len, code }),
                None => None,
            }
        } else if source == self.receiver.dma_peripheral {
            self.registers.baud = write_bit(self.registers.baud, BAUD_RDMAE, false);
            let (code, error) = if !ok {
                (ReturnCode::FAIL, UartError::Aborted)
            } else {
                let error = self.check_status();
                if error == UartError::NoError {
                    (ReturnCode::SUCCESS, error)
                } else {
                    (ReturnCode::FAIL, error)
                }
            };
            let (buffer, len) = self.receiver.take();
            match buffer {
                Some(buffer) => Some(UartCompletion::Received { buffer, len, code, error }),
                None => None,
            }
        } else {
            None
        }
    }
}

} // verus!

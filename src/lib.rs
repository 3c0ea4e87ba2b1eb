//! Peripheral drivers for the i.MX RT1060: clock gating, a DMA-driven UART,
//! the general purpose and periodic interrupt timers, pin multiplexing, and
//! the interrupt dispatcher that routes pending interrupts to them.
//!
//! Every driver works on a value model of its memory-mapped registers: each
//! register is held as the 32-bit word it contains, and every access the
//! hardware would see is a read or a masked write of that word.
pub mod bits;
pub mod chip;
pub mod ccm;
pub mod dma;
pub mod gpio;
pub mod gpt;
pub mod hil;
pub mod iomuxc;
pub mod pit;
pub mod uart;

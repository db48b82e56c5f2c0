//! Debug Communication Channel (DCC) output, verified against a model of the
//! hardware register pair.
//!
//! The DCC is a coprocessor-resident pair of registers — a read-only status
//! register whose bit 29 ("busy") is set while the previously written word has
//! not yet been drained by an attached host tool, and a write-only 32-bit data
//! register — used to stream debug text from bare-metal firmware to a debugger
//! without a UART. This crate models that register pair as an explicit
//! [`transport::Channel`] value and proves, on top of it:
//!
//! - the blocking single-word handshake ([`transport::write`]), including the
//!   no-op build configuration and the behaviour under a stuck busy bit;
//! - the byte and string encoders ([`encoder::write_all`],
//!   [`encoder::write_str`]), which transport each byte as one zero-extended
//!   word, strictly in order;
//! - the formatter sink ([`fmtsink::Writer`], [`fmtsink::write_fmt`]), which
//!   streams text fragments to the channel and never fails;
//! - the panic reporter ([`report::Reporter`]), which emits a final diagnostic
//!   line and then idles forever without touching the channel again.

pub mod encoder;
pub mod fmtsink;
pub mod report;
pub mod transport;

pub use encoder::{newline, write_all, write_line, write_str};
pub use fmtsink::{write_fmt, write_fmt_line, Writer};
pub use report::{Phase, Reporter};
pub use transport::{write_bounded, Channel, Mode};

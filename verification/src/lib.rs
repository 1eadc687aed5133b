//! Driver core for an IL0373-family bi-color e-paper panel.
//!
//! The panel sits behind a byte-oriented serial channel gated by a
//! chip-select line, with a second line telling it whether the byte on the
//! wire is an opcode or payload data.  Everything the panel ever sees is a
//! sequence of register commands, each framed the same way, so the whole
//! driver is specified against one observable: the ordered trace of line
//! changes, transmitted bytes and delays.
//!
//! - [`event`] defines that trace model;
//! - [`interface`] is the contract any board back end must meet;
//! - [`mock`] is an in-memory back end that records the trace;
//! - [`frame`] covers panel geometry, bit-plane buffers and the resolution
//!   register encoding;
//! - [`controller`] owns the lines and drives the fixed power-up, draw,
//!   refresh and power-down scripts;
//! - [`digits`] holds the seven-segment digit splitting helpers.

pub mod controller;
pub mod digits;
pub mod event;
pub mod frame;
pub mod interface;
pub mod mock;

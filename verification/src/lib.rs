//! Protocol logic for 2.9" electrophoretic display controllers.
//!
//! Nothing in this crate touches hardware. Every driver entry point returns
//! the ordered bus operations that make up the action, and the decisions that
//! depend on what the hardware answers are functions from an observation to
//! the next step, so the caller owns the pins, the serial channel and the
//! clock.
//!
//! - [`transport`]: bus operations, programs, and the framing of commands and
//!   data.
//! - [`idle`]: the wait for the busy line.
//! - [`sequencer`]: the bring-up state machine.
//! - [`encoder`]: pixel buffers to bit planes.
//! - [`gdey029t94`] and [`gdew029t5d`]: the two controller generations.
//! - [`panel`], [`image_format`], [`wells`], [`counter`]: the panel's geometry
//!   and what surrounds a panel on a plinth.

pub mod panel;
pub mod transport;
pub mod encoder;
pub mod idle;
pub mod sequencer;
pub mod gdey029t94;
pub mod gdew029t5d;
pub mod image_format;
pub mod counter;
pub mod wells;

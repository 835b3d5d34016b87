//! Driver logic for the PCA9539, a 16-line I2C GPIO expander with two banks
//! of eight pins.
//!
//! The crate keeps a mirror of the chip's registers, offers typed handles
//! for the individual pins, and says which bus transactions each operation
//! needs and what their replies change. It does not own a bus: transactions
//! are handed out as values, or performed by a function that the caller
//! supplies.
//!
//! * [`bits`]: single bits of a register byte.
//! * [`expander`]: the register engine and its mirror.
//! * [`operation`]: operations, carried out one transaction at a time.
//! * [`pins`], [`pin_regular`], [`pin_refreshable`]: pin handles and what
//!   each state of a pin can do.
//! * [`guard`]: shared access to one engine.
//! * [`digital_hal_async`]: error types of pin operations.

pub mod bits;
pub mod digital_hal_async;
pub mod expander;
pub mod guard;
pub mod operation;
pub mod pin_refreshable;
pub mod pin_regular;
pub mod pins;

//! Error types of pin operations.
//!
//! A pin fails only where it touches the bus. In refresh access mode reading
//! and setting a pin work on the mirror and cannot fail: the error type of
//! those pins is [`Infallible`]. A pin in regular access mode fails as the
//! bus behind it does, with a [`BusError`] around the transport's error.

use crate::expander::BusError;
use crate::pins::{Pin, PinMode, RefreshMode};
use core::convert::Infallible;
use vstd::prelude::*;

verus! {

/// An error of a pin operation.
pub trait Error: core::fmt::Debug {

}

impl Error for Infallible {

}

impl<E: core::fmt::Debug> Error for BusError<E> {

}

/// Names the error with which the reads and writes of a pin fail.
pub trait ErrorType {
    type Error: Error;
}

impl<MODE: PinMode> ErrorType for Pin<MODE, RefreshMode> {
    type Error = Infallible;
}

} // verus!

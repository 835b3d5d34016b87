//! Individual pins.
//!
//! A [`Pin`] names one line of the chip, by bank and position, and carries in
//! its type whether the line is an input or an output and how its state is
//! kept up to date:
//!
//! * [`RegularAccessMode`]: every read of an input refreshes the bank's input
//!   register from the chip first, and every change of an output is written
//!   to the chip at once. Each call costs one bus transaction.
//! * [`RefreshMode`]: reads and changes work on the mirror only. The input
//!   registers are refreshed, and the output registers written, when the
//!   caller asks for it, for a whole bank or for both banks at a time.
//!
//! A pin holds no reference to the engine and no state of its own. The
//! functions that read or change registers take the engine as an argument;
//! those that need the bus either take it as well or return the
//! [`Operation`] to be carried out.
//!
//! The functions of each state are only defined on the pins of that state:
//! an output cannot be read as an input, nor a cached pin be used as a
//! regular one, without a transition that consumes the handle.

use crate::expander::{Bank, BusError, Mode, PinID, RegisterState, PCA9539};
use crate::operation::Operation;
use core::marker::PhantomData;
use vstd::prelude::*;

verus! {

/// Marks how the state of a pin is kept up to date.
pub trait AccessMode {

}

/// The state of the pin is exchanged with the chip on every call.
pub struct RegularAccessMode {}

impl AccessMode for RegularAccessMode {

}

/// The pin works on the mirrored registers, which are exchanged with the
/// chip when the caller asks for it.
pub struct RefreshMode {}

impl AccessMode for RefreshMode {

}

/// Marks the direction of a pin.
pub trait PinMode {

}

/// Marks a pin that is an input.
pub struct Input {}

impl PinMode for Input {

}

/// Marks a pin that is an output.
pub struct Output {}

impl PinMode for Output {

}

/// The level of a line.
#[derive(Clone, Copy, Debug, PartialEq, Eq)]
pub enum PinState {
    Low,
    High,
}

impl PinState {
    /// Whether the level is high.
    pub open spec fn level(self) -> bool {
        self is High
    }

    /// Whether the level is high.
    pub fn is_high(self) -> (high: bool)
        ensures
            high == self.level(),
    {
        match self {
            PinState::High => true,
            PinState::Low => false,
        }
    }
}

/// Hands out the pins of a chip.
pub struct Pins {}

/// One line of the chip, in the state that `MODE` and `ACCESS` name.
pub struct Pin<MODE: PinMode, ACCESS: AccessMode> {
    bank: Bank,
    id: PinID,
    mode: PhantomData<MODE>,
    access_mode: PhantomData<ACCESS>,
}

impl<MODE: PinMode, ACCESS: AccessMode> Pin<MODE, ACCESS> {
    /// The bank of the pin.
    pub closed spec fn spec_bank(&self) -> Bank {
        self.bank
    }

    /// The position of the pin in its bank.
    pub closed spec fn spec_id(&self) -> PinID {
        self.id
    }

    /// The handle for pin `id` of `bank` in this state.
    pub(crate) fn at(bank: Bank, id: PinID) -> (pin: Self)
        ensures
            pin.bank() == bank,
            pin.id() == id,
    {
        Pin { bank, id, mode: PhantomData, access_mode: PhantomData }
    }

    /// The bank of the pin.
    #[verifier::when_used_as_spec(spec_bank)]
    pub fn bank(&self) -> (bank: Bank)
        ensures
            bank == self.bank(),
    {
        self.bank
    }

    /// The position of the pin in its bank.
    #[verifier::when_used_as_spec(spec_id)]
    pub fn id(&self) -> (id: PinID)
        ensures
            id == self.id(),
    {
        self.id
    }

    /// The operation that gives the pin the direction `mode`: the direction
    /// bit is set in the mirror and the bank's direction register is
    /// written, in one transaction.
    pub(crate) fn change_mode(&self, mode: Mode) -> (operation: Operation)
        ensures
            operation == (Operation::ChangeMode { bank: self.bank(), id: self.id(), mode }),
    {
        Operation::ChangeMode { bank: self.bank, id: self.id, mode }
    }
}

impl<ACCESS: AccessMode> Pin<Input, ACCESS> {
    /// The operation that makes the chip invert this input (`invert`) or
    /// report it as it is: the polarity bit is set in the mirror and the
    /// bank's polarity register is written, in one transaction.
    pub fn invert_polarity(&self, invert: bool) -> (operation: Operation)
        ensures
            operation == (Operation::InvertPolarity { bank: self.bank(), id: self.id(), invert }),
    {
        Operation::InvertPolarity { bank: self.bank, id: self.id, invert }
    }
}

impl<ACCESS: AccessMode> Pin<Output, ACCESS> {
    /// Whether the output bit of the pin is set in the mirror. This is the
    /// same in both access modes: the output register is never read back
    /// from the chip.
    pub(crate) fn is_pin_output_high(&self, expander: &PCA9539) -> (high: bool)
        ensures
            high == expander@.output.pin(self.bank(), self.id()),
    {
        expander.is_pin_output_high(self.bank, self.id)
    }
}

impl Pins {
    /// A source of pin handles.
    pub fn new() -> Self {
        Pins {  }
    }

    /// The handle for pin `id` of `bank` whose state is exchanged with the
    /// chip on every call. Handles are not counted: asking twice gives two
    /// handles for the same pin.
    pub fn get_pin(&self, bank: Bank, id: PinID) -> (pin: Pin<Input, RegularAccessMode>)
        ensures
            pin.bank() == bank,
            pin.id() == id,
    {
        Pin::at(bank, id)
    }

    /// The handle for pin `id` of `bank` that works on the mirrored
    /// registers. Handles are not counted: asking twice gives two handles
    /// for the same pin.
    pub fn get_refreshable_pin(&self, bank: Bank, id: PinID) -> (pin: Pin<Input, RefreshMode>)
        ensures
            pin.bank() == bank,
            pin.id() == id,
    {
        Pin::at(bank, id)
    }
}

/// A change of direction under way: the operation to carry out, and the
/// handle that the pin has once the operation has succeeded.
pub struct Transition<MODE: PinMode, ACCESS: AccessMode> {
    operation: Operation,
    pin: Pin<MODE, ACCESS>,
}

impl<MODE: PinMode, ACCESS: AccessMode> Transition<MODE, ACCESS> {
    /// The operation to carry out.
    pub closed spec fn spec_operation(&self) -> Operation {
        self.operation
    }

    /// The handle of the pin after the change.
    pub closed spec fn pin(&self) -> Pin<MODE, ACCESS> {
        self.pin
    }

    /// The change of a pin into `pin` through `operation`.
    pub(crate) fn through(operation: Operation, pin: Pin<MODE, ACCESS>) -> (transition: Self)
        ensures
            transition.operation() == operation,
            transition.pin() == pin,
    {
        Transition { operation, pin }
    }

    /// The operation to carry out.
    #[verifier::when_used_as_spec(spec_operation)]
    pub fn operation(&self) -> (operation: Operation)
        ensures
            operation == self.operation(),
    {
        self.operation
    }

    /// Ends the change with the outcome of its operation: the new handle if
    /// the operation succeeded, its error if it failed. Either way the old
    /// handle is gone.
    pub fn finish<E>(self, outcome: Result<(), BusError<E>>) -> (pin: Result<
        Pin<MODE, ACCESS>,
        BusError<E>,
    >)
        ensures
            pin == (match outcome {
                Ok(_) => Ok(self.pin()),
                Err(error) => Err(error),
            }),
    {
        match outcome {
            Ok(_) => Ok(self.pin),
            Err(error) => Err(error),
        }
    }
}

/// A read of an input under way: the bank to refresh from the chip, and the
/// pin to look up in the cache afterwards.
pub struct Reading {
    bank: Bank,
    id: PinID,
    low: bool,
}

impl Reading {
    /// The bank of the pin that is read.
    pub closed spec fn bank(&self) -> Bank {
        self.bank
    }

    /// The position of the pin that is read.
    pub closed spec fn id(&self) -> PinID {
        self.id
    }

    /// Whether the read asks if the pin is low (`true`) or if it is high.
    pub closed spec fn asks_low(&self) -> bool {
        self.low
    }

    /// The operation to carry out: a refresh of the pin's bank.
    pub open spec fn spec_operation(&self) -> Operation {
        Operation::RefreshInput { bank: self.bank() }
    }

    /// What the read answers when the refreshed cache is `registers`.
    pub open spec fn answer(&self, registers: RegisterState) -> bool {
        registers.input_cache.pin(self.bank(), self.id()) != self.asks_low()
    }

    /// The read that asks if pin `id` of `bank` is low (`low`) or high.
    pub(crate) fn of(bank: Bank, id: PinID, low: bool) -> (reading: Self)
        ensures
            reading.bank() == bank,
            reading.id() == id,
            reading.asks_low() == low,
    {
        Reading { bank, id, low }
    }

    /// The operation to carry out: a refresh of the pin's bank.
    #[verifier::when_used_as_spec(spec_operation)]
    pub fn operation(&self) -> (operation: Operation)
        ensures
            operation == self.operation(),
    {
        Operation::RefreshInput { bank: self.bank }
    }

    /// Ends the read with the outcome of its operation: the answer from the
    /// cache of `expander` if the refresh succeeded, its error if it failed.
    pub fn finish<E>(&self, expander: &PCA9539, outcome: Result<(), BusError<E>>) -> (answer:
        Result<bool, BusError<E>>)
        ensures
            answer == (match outcome {
                Ok(_) => Ok(self.answer(expander@)),
                Err(error) => Err(error),
            }),
    {
        match outcome {
            Ok(_) => Ok(expander.is_pin_input_high(self.bank, self.id) != self.low),
            Err(error) => Err(error),
        }
    }
}

} // verus!

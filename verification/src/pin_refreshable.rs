//! Pins in refresh access mode: calls work on the mirrored registers.
//!
//! Reading an input looks the pin up in the cached input register and
//! setting an output changes its bit in the mirrored output register; neither
//! touches the bus or can fail. The input cache is as fresh as the last
//! refresh, and a changed output reaches the chip with the next update: both
//! are asked for separately, for the pin's bank or for both banks, and it
//! does not matter which pin is used to ask.

use crate::expander::{Bank, Mode, PinID, PCA9539};
use crate::operation::Operation;
use crate::pins::{Input, Output, Pin, PinMode, PinState, RefreshMode, Transition};
use core::convert::Infallible;
use vstd::prelude::*;

verus! {

/// A pin in output mode whose changes are written to the chip on request.
pub trait RefreshableOutputPin {
    /// The bank of the pin.
    spec fn output_bank(&self) -> Bank;

    /// The operation that writes the mirrored output register of the pin's
    /// bank to the chip, in one transaction. No other bank is written.
    fn update_bank(&self) -> (operation: Operation)
        ensures
            operation == (Operation::WriteOutput { bank: self.output_bank() }),
    ;

    /// The operation that writes the mirrored output registers of both banks
    /// to the chip, bank 0 first, in one transaction each. If the first
    /// write fails the second is not made.
    fn update_all(&self) -> (operation: Operation)
        ensures
            operation == Operation::UpdateAll,
    ;
}

/// A pin in input mode whose cached state is refreshed from the chip on
/// request.
pub trait RefreshableInputPin {
    /// The bank of the pin.
    spec fn input_bank(&self) -> Bank;

    /// The operation that reads the input register of the pin's bank from
    /// the chip into the cache, in one transaction.
    fn refresh_bank(&self) -> (operation: Operation)
        ensures
            operation == (Operation::RefreshInput { bank: self.input_bank() }),
    ;

    /// The operation that reads the input registers of both banks from the
    /// chip into the cache, bank 0 first, in one transaction each. If the
    /// first read fails the second is not made.
    fn refresh_all(&self) -> (operation: Operation)
        ensures
            operation == Operation::RefreshAll,
    ;
}

impl<MODE: PinMode> Pin<MODE, RefreshMode> {
    /// Makes the pin an input. The operation sets the direction bit in the
    /// mirror and writes the direction register of the bank, in one
    /// transaction.
    pub fn into_input_pin(self) -> (transition: Transition<Input, RefreshMode>)
        ensures
            transition.operation() == (Operation::ChangeMode {
                bank: self.bank(),
                id: self.id(),
                mode: Mode::Input,
            }),
            transition.pin().bank() == self.bank(),
            transition.pin().id() == self.id(),
    {
        Transition::through(self.change_mode(Mode::Input), Pin::at(self.bank(), self.id()))
    }

    /// Makes the pin an output that will drive `state`. The operation
    /// writes the direction register of the bank, in one transaction, and
    /// then sets the output bit in the mirror. The output register is not
    /// written: the level reaches the chip with the next update.
    pub fn into_output_pin(self, state: PinState) -> (transition: Transition<Output, RefreshMode>)
        ensures
            transition.operation() == (Operation::IntoOutput {
                bank: self.bank(),
                id: self.id(),
                high: state.level(),
                flush: false,
            }),
            transition.pin().bank() == self.bank(),
            transition.pin().id() == self.id(),
    {
        Transition::through(
            Operation::IntoOutput {
                bank: self.bank(),
                id: self.id(),
                high: state.is_high(),
                flush: false,
            },
            Pin::at(self.bank(), self.id()),
        )
    }
}

impl Pin<Input, RefreshMode> {
    /// The handle for pin `id` of `bank`, taken to be an input.
    pub fn refreshable(bank: Bank, id: PinID) -> (pin: Self)
        ensures
            pin.bank() == bank,
            pin.id() == id,
    {
        Pin::at(bank, id)
    }

    /// The operation that reads the input register of `bank` from the chip
    /// into the cache.
    fn refresh(&self, bank: Bank) -> (operation: Operation)
        ensures
            operation == (Operation::RefreshInput { bank }),
    {
        Operation::RefreshInput { bank }
    }

    /// Whether the pin was high when the input register of its bank was
    /// last refreshed. Before the first refresh every pin reads low. Reads
    /// the cache only, and cannot fail.
    pub fn is_high(&self, expander: &PCA9539) -> (high: Result<bool, Infallible>)
        ensures
            high == Ok::<bool, Infallible>(expander@.input_cache.pin(self.bank(), self.id())),
    {
        Ok(expander.is_pin_input_high(self.bank(), self.id()))
    }

    /// Whether the pin was low when the input register of its bank was last
    /// refreshed. Before the first refresh every pin reads low. Reads the
    /// cache only, and cannot fail.
    pub fn is_low(&self, expander: &PCA9539) -> (low: Result<bool, Infallible>)
        ensures
            low == Ok::<bool, Infallible>(!expander@.input_cache.pin(self.bank(), self.id())),
    {
        Ok(!expander.is_pin_input_high(self.bank(), self.id()))
    }
}

impl RefreshableInputPin for Pin<Input, RefreshMode> {
    open spec fn input_bank(&self) -> Bank {
        self.bank()
    }

    fn refresh_bank(&self) -> (operation: Operation) {
        self.refresh(self.bank())
    }

    fn refresh_all(&self) -> (operation: Operation) {
        Operation::RefreshAll
    }
}

impl RefreshableOutputPin for Pin<Output, RefreshMode> {
    open spec fn output_bank(&self) -> Bank {
        self.bank()
    }

    fn update_bank(&self) -> (operation: Operation) {
        self.update(self.bank())
    }

    fn update_all(&self) -> (operation: Operation) {
        Operation::UpdateAll
    }
}

impl Pin<Output, RefreshMode> {
    /// The operation that writes the mirrored output register of `bank` to
    /// the chip.
    fn update(&self, bank: Bank) -> (operation: Operation)
        ensures
            operation == (Operation::WriteOutput { bank }),
    {
        Operation::WriteOutput { bank }
    }

    /// Sets the output bit of the pin low in the mirror. Nothing is sent to
    /// the chip before the next update, and the call cannot fail.
    pub fn set_low(&self, expander: &mut PCA9539) -> (result: Result<(), Infallible>)
        ensures
            result is Ok,
            final(expander)@ == old(expander)@.with_output(self.bank(), self.id(), false),
            final(expander).device_address() == old(expander).device_address(),
    {
        self.set_state(expander, PinState::Low)
    }

    /// Sets the output bit of the pin high in the mirror. Nothing is sent to
    /// the chip before the next update, and the call cannot fail.
    pub fn set_high(&self, expander: &mut PCA9539) -> (result: Result<(), Infallible>)
        ensures
            result is Ok,
            final(expander)@ == old(expander)@.with_output(self.bank(), self.id(), true),
            final(expander).device_address() == old(expander).device_address(),
    {
        self.set_state(expander, PinState::High)
    }

    /// Sets the output bit of the pin to `state` in the mirror. Nothing is
    /// sent to the chip before the next update, and the call cannot fail.
    pub fn set_state(&self, expander: &mut PCA9539, state: PinState) -> (result: Result<
        (),
        Infallible,
    >)
        ensures
            result is Ok,
            final(expander)@ == old(expander)@.with_output(self.bank(), self.id(), state.level()),
            final(expander).device_address() == old(expander).device_address(),
    {
        expander.set_state(self.bank(), self.id(), state.is_high());
        Ok(())
    }

    /// Whether the pin was last set high. Reads the mirror only, and cannot
    /// fail.
    pub fn is_set_high(&self, expander: &PCA9539) -> (high: Result<bool, Infallible>)
        ensures
            high == Ok::<bool, Infallible>(expander@.output.pin(self.bank(), self.id())),
    {
        Ok(self.is_pin_output_high(expander))
    }

    /// Whether the pin was last set low. Reads the mirror only, and cannot
    /// fail.
    pub fn is_set_low(&self, expander: &PCA9539) -> (low: Result<bool, Infallible>)
        ensures
            low == Ok::<bool, Infallible>(!expander@.output.pin(self.bank(), self.id())),
    {
        Ok(!self.is_pin_output_high(expander))
    }
}

} // verus!

//! Pins in regular access mode: every call goes to the chip.
//!
//! Reading an input refreshes the input register of the pin's bank from the
//! chip and then looks the pin up in the cache. Changing an output sets its
//! bit in the mirror and writes the output register of the pin's bank at
//! once. Asking an output what it was last set to reads the mirror only.

use crate::bits::bit_is_set;
use crate::expander::{Bank, BusError, Mode, PinID, Register, Transaction, PCA9539};
use crate::operation::{finishes_with, refreshed, result_of, run_from, Operation};
use crate::pins::{Input, Output, Pin, PinMode, PinState, Reading, RegularAccessMode, Transition};
use core::convert::Infallible;
use vstd::prelude::*;

verus! {

impl<MODE: PinMode> Pin<MODE, RegularAccessMode> {
    /// Makes the pin an input. The operation sets the direction bit in the
    /// mirror and writes the direction register of the bank, in one
    /// transaction.
    pub fn into_input_pin(self) -> (transition: Transition<Input, RegularAccessMode>)
        ensures
            transition.operation() == (Operation::ChangeMode {
                bank: self.bank(),
                id: self.id(),
                mode: Mode::Input,
            }),
            transition.pin().bank() == self.bank(),
            transition.pin().id() == self.id(),
    {
        Transition::through(self.change_mode(Mode::Input), Pin::at(self.bank(), self.id()))
    }

    /// Makes the pin an output that drives `state`. The operation writes
    /// the direction register of the bank and then the output register, in
    /// two transactions; a failure of the first ends it.
    pub fn into_output_pin(self, state: PinState) -> (transition: Transition<
        Output,
        RegularAccessMode,
    >)
        ensures
            transition.operation() == (Operation::IntoOutput {
                bank: self.bank(),
                id: self.id(),
                high: state.level(),
                flush: true,
            }),
            transition.pin().bank() == self.bank(),
            transition.pin().id() == self.id(),
    {
        Transition::through(
            Operation::IntoOutput {
                bank: self.bank(),
                id: self.id(),
                high: state.is_high(),
                flush: true,
            },
            Pin::at(self.bank(), self.id()),
        )
    }
}

impl Pin<Input, RegularAccessMode> {
    /// The handle for pin `id` of `bank`, taken to be an input.
    pub fn regular(bank: Bank, id: PinID) -> (pin: Self)
        ensures
            pin.bank() == bank,
            pin.id() == id,
    {
        Pin::at(bank, id)
    }

    /// The read that asks the chip whether the pin is high.
    pub fn is_high_async(&self) -> (reading: Reading)
        ensures
            reading.bank() == self.bank(),
            reading.id() == self.id(),
            !reading.asks_low(),
    {
        Reading::of(self.bank(), self.id(), false)
    }

    /// The read that asks the chip whether the pin is low.
    pub fn is_low_async(&self) -> (reading: Reading)
        ensures
            reading.bank() == self.bank(),
            reading.id() == self.id(),
            reading.asks_low(),
    {
        Reading::of(self.bank(), self.id(), true)
    }

    /// Reads the input register of the pin's bank from the chip, in one
    /// transaction with `bus`, and tells whether the pin is high in what was
    /// read. The byte stays in the cache of `expander`. If the read fails,
    /// its error is returned and the cache is left as it is.
    pub fn is_high<E, B: FnMut(Transaction) -> Result<u8, E>>(
        &self,
        expander: &mut PCA9539,
        bus: B,
    ) -> (high: Result<bool, BusError<E>>)
        requires
            forall|transaction: Transaction| bus.requires((transaction,)),
        ensures
            exists|reply: Result<u8, E>|
                {
                    &&& #[trigger] bus.ensures(
                        (Transaction::Read { register: Register::Input, bank: self.bank() },),
                        reply,
                    )
                    &&& final(expander)@ == refreshed(old(expander)@, self.bank(), reply)
                    &&& high == (match reply {
                        Ok(byte) => Ok(bit_is_set(byte, self.id().index())),
                        Err(cause) => Err(BusError { cause }),
                    })
                },
            final(expander).device_address() == old(expander).device_address(),
    {
        let reading = self.is_high_async();
        let outcome = expander.execute(reading.operation(), bus);
        proof {
            reveal_with_fuel(run_from, 3);
            let replies = choose|replies: Seq<Result<u8, E>>|
                finishes_with(
                    bus,
                    old(expander)@,
                    reading.operation(),
                    replies,
                    expander@,
                    outcome,
                );
            assert(bus.ensures(
                (Transaction::Read { register: Register::Input, bank: self.bank() },),
                replies[0],
            ));
        }
        reading.finish(expander, outcome)
    }

    /// Reads the input register of the pin's bank from the chip, in one
    /// transaction with `bus`, and tells whether the pin is low in what was
    /// read. The byte stays in the cache of `expander`. If the read fails,
    /// its error is returned and the cache is left as it is.
    pub fn is_low<E, B: FnMut(Transaction) -> Result<u8, E>>(
        &self,
        expander: &mut PCA9539,
        bus: B,
    ) -> (low: Result<bool, BusError<E>>)
        requires
            forall|transaction: Transaction| bus.requires((transaction,)),
        ensures
            exists|reply: Result<u8, E>|
                {
                    &&& #[trigger] bus.ensures(
                        (Transaction::Read { register: Register::Input, bank: self.bank() },),
                        reply,
                    )
                    &&& final(expander)@ == refreshed(old(expander)@, self.bank(), reply)
                    &&& low == (match reply {
                        Ok(byte) => Ok(!bit_is_set(byte, self.id().index())),
                        Err(cause) => Err(BusError { cause }),
                    })
                },
            final(expander).device_address() == old(expander).device_address(),
    {
        let reading = self.is_low_async();
        let outcome = expander.execute(reading.operation(), bus);
        proof {
            reveal_with_fuel(run_from, 3);
            let replies = choose|replies: Seq<Result<u8, E>>|
                finishes_with(
                    bus,
                    old(expander)@,
                    reading.operation(),
                    replies,
                    expander@,
                    outcome,
                );
            assert(bus.ensures(
                (Transaction::Read { register: Register::Input, bank: self.bank() },),
                replies[0],
            ));
        }
        reading.finish(expander, outcome)
    }
}

impl Pin<Output, RegularAccessMode> {
    /// The operation that drives the pin low.
    pub fn set_low_async(&self) -> (operation: Operation)
        ensures
            operation == (Operation::SetOutput { bank: self.bank(), id: self.id(), high: false }),
    {
        self.set_state_async(PinState::Low)
    }

    /// The operation that drives the pin high.
    pub fn set_high_async(&self) -> (operation: Operation)
        ensures
            operation == (Operation::SetOutput { bank: self.bank(), id: self.id(), high: true }),
    {
        self.set_state_async(PinState::High)
    }

    /// The operation that drives the pin to `state`: the output bit is set
    /// in the mirror and the output register of the bank is written, in one
    /// transaction.
    pub fn set_state_async(&self, state: PinState) -> (operation: Operation)
        ensures
            operation == (Operation::SetOutput {
                bank: self.bank(),
                id: self.id(),
                high: state.level(),
            }),
    {
        Operation::SetOutput { bank: self.bank(), id: self.id(), high: state.is_high() }
    }

    /// Drives the pin low: see [`Pin::set_state`].
    pub fn set_low<E, B: FnMut(Transaction) -> Result<u8, E>>(
        &self,
        expander: &mut PCA9539,
        bus: B,
    ) -> (result: Result<(), BusError<E>>)
        requires
            forall|transaction: Transaction| bus.requires((transaction,)),
        ensures
            final(expander)@ == old(expander)@.with_output(self.bank(), self.id(), false),
            exists|reply: Result<u8, E>|
                {
                    &&& #[trigger] bus.ensures(
                        (
                            Transaction::Write {
                                register: Register::Output,
                                bank: self.bank(),
                                value: final(expander)@.output.byte(self.bank()),
                            },
                        ),
                        reply,
                    )
                    &&& result == result_of(reply)
                },
            final(expander).device_address() == old(expander).device_address(),
    {
        self.set_state(expander, PinState::Low, bus)
    }

    /// Drives the pin high: see [`Pin::set_state`].
    pub fn set_high<E, B: FnMut(Transaction) -> Result<u8, E>>(
        &self,
        expander: &mut PCA9539,
        bus: B,
    ) -> (result: Result<(), BusError<E>>)
        requires
            forall|transaction: Transaction| bus.requires((transaction,)),
        ensures
            final(expander)@ == old(expander)@.with_output(self.bank(), self.id(), true),
            exists|reply: Result<u8, E>|
                {
                    &&& #[trigger] bus.ensures(
                        (
                            Transaction::Write {
                                register: Register::Output,
                                bank: self.bank(),
                                value: final(expander)@.output.byte(self.bank()),
                            },
                        ),
                        reply,
                    )
                    &&& result == result_of(reply)
                },
            final(expander).device_address() == old(expander).device_address(),
    {
        self.set_state(expander, PinState::High, bus)
    }

    /// Drives the pin to `state`: sets its output bit in the mirror of
    /// `expander` and writes the output register of the pin's bank to the
    /// chip, in one transaction with `bus`. If the write fails its error is
    /// returned; the mirror keeps the new bit all the same, so it is then
    /// ahead of the chip.
    pub fn set_state<E, B: FnMut(Transaction) -> Result<u8, E>>(
        &self,
        expander: &mut PCA9539,
        state: PinState,
        bus: B,
    ) -> (result: Result<(), BusError<E>>)
        requires
            forall|transaction: Transaction| bus.requires((transaction,)),
        ensures
            final(expander)@ == old(expander)@.with_output(self.bank(), self.id(), state.level()),
            exists|reply: Result<u8, E>|
                {
                    &&& #[trigger] bus.ensures(
                        (
                            Transaction::Write {
                                register: Register::Output,
                                bank: self.bank(),
                                value: final(expander)@.output.byte(self.bank()),
                            },
                        ),
                        reply,
                    )
                    &&& result == result_of(reply)
                },
            final(expander).device_address() == old(expander).device_address(),
    {
        let operation = self.set_state_async(state);
        let result = expander.execute(operation, bus);
        proof {
            reveal_with_fuel(run_from, 4);
            let replies = choose|replies: Seq<Result<u8, E>>|
                finishes_with(bus, old(expander)@, operation, replies, expander@, result);
            assert(bus.ensures(
                (
                    Transaction::Write {
                        register: Register::Output,
                        bank: self.bank(),
                        value: expander@.output.byte(self.bank()),
                    },
                ),
                replies[0],
            ));
        }
        result
    }

    /// Whether the pin was last set high. Reads the mirror only, and cannot
    /// fail.
    pub fn is_set_high(&self, expander: &PCA9539) -> (high: Result<bool, Infallible>)
        ensures
            high == Ok::<bool, Infallible>(expander@.output.pin(self.bank(), self.id())),
    {
        Ok(self.is_pin_output_high(expander))
    }

    /// Whether the pin was last set low. Reads the mirror only, and cannot
    /// fail.
    pub fn is_set_low(&self, expander: &PCA9539) -> (low: Result<bool, Infallible>)
        ensures
            low == Ok::<bool, Infallible>(!expander@.output.pin(self.bank(), self.id())),
    {
        Ok(!self.is_pin_output_high(expander))
    }
}

} // verus!

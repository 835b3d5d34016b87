//! The register engine: an in-memory mirror of the expander's registers.
//!
//! The chip has sixteen lines in two banks of eight. Each of its four logical
//! registers (input, output, polarity inversion, direction) holds one byte per
//! bank, and bit `i` of a bank's byte stands for pin `i` of that bank.
//!
//! [`RegisterState`] is the plain value of all registers; it doubles as the
//! mathematical model in which every contract of the crate is stated.
//! [`PCA9539`] owns one such value for one chip and is the only way to change
//! it.

use crate::bits::{
    assign_bit, bit_is_set, lemma_assign_commutes, lemma_assign_current_level,
    lemma_assign_overwrites, lemma_bit_after_assign, lemma_bits_determine_byte, test_bit, with_bit,
};
use vstd::prelude::*;

verus! {

/// One half of the sixteen lines: eight pins that share a register byte.
#[derive(Clone, Copy, Debug, PartialEq, Eq, Hash)]
pub enum Bank {
    Bank0,
    Bank1,
}

/// A pin within its bank.
#[derive(Clone, Copy, Debug, PartialEq, Eq, Hash)]
pub enum PinID {
    Pin0,
    Pin1,
    Pin2,
    Pin3,
    Pin4,
    Pin5,
    Pin6,
    Pin7,
}

/// Direction of a pin.
#[derive(Clone, Copy, Debug, PartialEq, Eq, Hash)]
pub enum Mode {
    Input,
    Output,
}

/// The four logical registers of the chip.
#[derive(Clone, Copy, Debug, PartialEq, Eq, Hash)]
pub enum Register {
    /// Levels read from the pins.
    Input,
    /// Levels driven on the pins that are outputs.
    Output,
    /// Which inputs the chip inverts before reporting them.
    Polarity,
    /// Which pins are inputs (bit set) and which are outputs (bit clear).
    Direction,
}

impl Bank {
    /// Position of the bank: 0 or 1.
    pub open spec fn index(self) -> u8 {
        match self {
            Bank::Bank0 => 0,
            Bank::Bank1 => 1,
        }
    }

    /// Position of the bank: 0 or 1.
    pub fn number(self) -> (n: u8)
        ensures
            n == self.index(),
            n < 2,
    {
        match self {
            Bank::Bank0 => 0,
            Bank::Bank1 => 1,
        }
    }
}

impl PinID {
    /// Position of the pin's bit in a register byte: 0 to 7.
    pub open spec fn index(self) -> u8 {
        match self {
            PinID::Pin0 => 0,
            PinID::Pin1 => 1,
            PinID::Pin2 => 2,
            PinID::Pin3 => 3,
            PinID::Pin4 => 4,
            PinID::Pin5 => 5,
            PinID::Pin6 => 6,
            PinID::Pin7 => 7,
        }
    }

    /// Position of the pin's bit in a register byte: 0 to 7.
    pub fn number(self) -> (n: u8)
        ensures
            n == self.index(),
            n < 8,
    {
        match self {
            PinID::Pin0 => 0,
            PinID::Pin1 => 1,
            PinID::Pin2 => 2,
            PinID::Pin3 => 3,
            PinID::Pin4 => 4,
            PinID::Pin5 => 5,
            PinID::Pin6 => 6,
            PinID::Pin7 => 7,
        }
    }
}

impl Register {
    /// The command byte that selects this register of `bank` on the chip:
    /// input 0 and 1, output 2 and 3, polarity inversion 4 and 5, direction
    /// 6 and 7.
    pub open spec fn command(self, bank: Bank) -> u8 {
        match self {
            Register::Input => bank.index(),
            Register::Output => (2 + bank.index()) as u8,
            Register::Polarity => (4 + bank.index()) as u8,
            Register::Direction => (6 + bank.index()) as u8,
        }
    }

    /// Computes the command byte that selects this register of `bank`.
    pub fn command_byte(self, bank: Bank) -> (command: u8)
        ensures
            command == self.command(bank),
            command < 8,
    {
        let offset: u8 = bank.number();
        match self {
            Register::Input => offset,
            Register::Output => 2 + offset,
            Register::Polarity => 4 + offset,
            Register::Direction => 6 + offset,
        }
    }
}

/// The pin whose bit is at position `index` of a register byte.
pub open spec fn pin_at(index: u8) -> PinID
    recommends
        index < 8,
{
    if index == 0 {
        PinID::Pin0
    } else if index == 1 {
        PinID::Pin1
    } else if index == 2 {
        PinID::Pin2
    } else if index == 3 {
        PinID::Pin3
    } else if index == 4 {
        PinID::Pin4
    } else if index == 5 {
        PinID::Pin5
    } else if index == 6 {
        PinID::Pin6
    } else {
        PinID::Pin7
    }
}

/// What one logical register holds: a byte for each bank.
#[derive(Clone, Copy, Debug, PartialEq, Eq)]
pub struct BankBytes {
    pub bank0: u8,
    pub bank1: u8,
}

impl BankBytes {
    /// The byte of `bank`.
    pub open spec fn byte(self, bank: Bank) -> u8 {
        match bank {
            Bank::Bank0 => self.bank0,
            Bank::Bank1 => self.bank1,
        }
    }

    /// The same register with the byte of `bank` replaced.
    pub open spec fn with_byte(self, bank: Bank, byte: u8) -> BankBytes {
        match bank {
            Bank::Bank0 => BankBytes { bank0: byte, bank1: self.bank1 },
            Bank::Bank1 => BankBytes { bank0: self.bank0, bank1: byte },
        }
    }

    /// The bit of pin `id` of `bank`.
    pub open spec fn pin(self, bank: Bank, id: PinID) -> bool {
        bit_is_set(self.byte(bank), id.index())
    }

    /// The same register with the bit of pin `id` of `bank` made equal to
    /// `level`.
    pub open spec fn with_pin(self, bank: Bank, id: PinID, level: bool) -> BankBytes {
        self.with_byte(bank, with_bit(self.byte(bank), id.index(), level))
    }

    /// Both bytes equal to `byte`.
    pub fn filled(byte: u8) -> (register: BankBytes)
        ensures
            register == (BankBytes { bank0: byte, bank1: byte }),
    {
        BankBytes { bank0: byte, bank1: byte }
    }

    /// Reads the byte of `bank`.
    pub fn get(&self, bank: Bank) -> (byte: u8)
        ensures
            byte == self.byte(bank),
    {
        match bank {
            Bank::Bank0 => self.bank0,
            Bank::Bank1 => self.bank1,
        }
    }

    /// Replaces the byte of `bank`.
    pub fn set(&mut self, bank: Bank, byte: u8)
        ensures
            *final(self) == old(self).with_byte(bank, byte),
    {
        match bank {
            Bank::Bank0 => {
                self.bank0 = byte;
            },
            Bank::Bank1 => {
                self.bank1 = byte;
            },
        }
    }

    /// Reads the bit of pin `id` of `bank`.
    pub fn is_set(&self, bank: Bank, id: PinID) -> (set: bool)
        ensures
            set == self.pin(bank, id),
    {
        test_bit(self.get(bank), id.number())
    }

    /// Makes the bit of pin `id` of `bank` equal to `level`.
    pub fn assign(&mut self, bank: Bank, id: PinID, level: bool)
        ensures
            *final(self) == old(self).with_pin(bank, id, level),
    {
        let changed: u8 = assign_bit(self.get(bank), id.number(), level);
        self.set(bank, changed);
    }
}

/// The value of all four registers, for both banks.
#[derive(Clone, Copy, Debug, PartialEq, Eq)]
pub struct RegisterState {
    /// Direction register: a set bit makes the pin an input.
    pub direction: BankBytes,
    /// Output register: the levels to drive.
    pub output: BankBytes,
    /// The input register as it was last read from the chip.
    pub input_cache: BankBytes,
    /// Polarity inversion register: a set bit inverts the input.
    pub polarity_invert: BankBytes,
}

impl RegisterState {
    /// The registers as the chip has them after power-on: every pin an input,
    /// every output bit high, no input inverted. The input cache is empty, so
    /// every input reads low until it is refreshed.
    pub open spec fn power_on() -> RegisterState {
        RegisterState {
            direction: BankBytes { bank0: 0xff, bank1: 0xff },
            output: BankBytes { bank0: 0xff, bank1: 0xff },
            input_cache: BankBytes { bank0: 0, bank1: 0 },
            polarity_invert: BankBytes { bank0: 0, bank1: 0 },
        }
    }

    /// What `register` holds.
    pub open spec fn register(self, register: Register) -> BankBytes {
        match register {
            Register::Input => self.input_cache,
            Register::Output => self.output,
            Register::Polarity => self.polarity_invert,
            Register::Direction => self.direction,
        }
    }

    /// The direction of pin `id` of `bank`.
    pub open spec fn mode(self, bank: Bank, id: PinID) -> Mode {
        if self.direction.pin(bank, id) {
            Mode::Input
        } else {
            Mode::Output
        }
    }

    /// The state after pin `id` of `bank` has been given direction `mode`.
    pub open spec fn with_mode(self, bank: Bank, id: PinID, mode: Mode) -> RegisterState {
        RegisterState { direction: self.direction.with_pin(bank, id, mode is Input), ..self }
    }

    /// The state after the output bit of pin `id` of `bank` has been set to
    /// `high`.
    pub open spec fn with_output(self, bank: Bank, id: PinID, high: bool) -> RegisterState {
        RegisterState { output: self.output.with_pin(bank, id, high), ..self }
    }

    /// The state after `byte` has been read from the input register of
    /// `bank`.
    pub open spec fn with_input(self, bank: Bank, byte: u8) -> RegisterState {
        RegisterState { input_cache: self.input_cache.with_byte(bank, byte), ..self }
    }

    /// The state after the polarity bit of pin `id` of `bank` has been set to
    /// `invert`.
    pub open spec fn with_polarity(self, bank: Bank, id: PinID, invert: bool) -> RegisterState {
        RegisterState { polarity_invert: self.polarity_invert.with_pin(bank, id, invert), ..self }
    }
}

/// One I2C transaction with the chip.
#[derive(Clone, Copy, Debug, PartialEq, Eq)]
pub enum Transaction {
    /// Write the command byte of the register, then `value`.
    Write { register: Register, bank: Bank, value: u8 },
    /// Write the command byte of the register, then read one byte.
    Read { register: Register, bank: Bank },
}

impl Transaction {
    /// The command byte that opens the transaction.
    pub open spec fn command(self) -> u8 {
        match self {
            Transaction::Write { register, bank, .. } => register.command(bank),
            Transaction::Read { register, bank } => register.command(bank),
        }
    }

    /// The byte that follows the command byte in a write.
    pub open spec fn payload(self) -> Option<u8> {
        match self {
            Transaction::Write { value, .. } => Some(value),
            Transaction::Read { .. } => None,
        }
    }

    /// Computes the command byte that opens the transaction.
    pub fn command_byte(&self) -> (command: u8)
        ensures
            command == self.command(),
    {
        match self {
            Transaction::Write { register, bank, .. } => register.command_byte(*bank),
            Transaction::Read { register, bank } => register.command_byte(*bank),
        }
    }

    /// The byte to send after the command byte: `Some` for a write, `None`
    /// for a read.
    pub fn value(&self) -> (value: Option<u8>)
        ensures
            value == self.payload(),
    {
        match self {
            Transaction::Write { value, .. } => Some(*value),
            Transaction::Read { .. } => None,
        }
    }
}

/// A failed bus transaction. The engine passes the transport's error on and
/// never looks into it.
#[derive(Debug, PartialEq, Eq)]
pub struct BusError<E> {
    pub cause: E,
}

/// The register engine of one chip.
#[derive(Clone, Copy, Debug, PartialEq, Eq)]
pub struct PCA9539 {
    address: u8,
    registers: RegisterState,
}

impl View for PCA9539 {
    type V = RegisterState;

    closed spec fn view(&self) -> RegisterState {
        self.registers
    }
}

impl PCA9539 {
    /// The I2C address of the chip.
    pub closed spec fn device_address(&self) -> u8 {
        self.address
    }

    /// An engine for the chip at I2C address `address`, with the registers as
    /// they are after power-on.
    pub fn new(address: u8) -> (expander: Self)
        ensures
            expander@ == RegisterState::power_on(),
            expander.device_address() == address,
    {
        PCA9539 {
            address,
            registers: RegisterState {
                direction: BankBytes::filled(0xff),
                output: BankBytes::filled(0xff),
                input_cache: BankBytes::filled(0),
                polarity_invert: BankBytes::filled(0),
            },
        }
    }

    /// An engine for the chip at I2C address `address` whose registers are
    /// known to hold `registers`.
    pub fn with_registers(address: u8, registers: RegisterState) -> (expander: Self)
        ensures
            expander@ == registers,
            expander.device_address() == address,
    {
        PCA9539 { address, registers }
    }

    /// The I2C address of the chip.
    pub fn address(&self) -> (address: u8)
        ensures
            address == self.device_address(),
    {
        self.address
    }

    /// A copy of the mirrored registers.
    pub fn registers(&self) -> (registers: RegisterState)
        ensures
            registers == self@,
    {
        self.registers
    }

    /// The mirrored byte of `register` for `bank`.
    pub fn register_byte(&self, register: Register, bank: Bank) -> (byte: u8)
        ensures
            byte == self@.register(register).byte(bank),
    {
        match register {
            Register::Input => self.registers.input_cache.get(bank),
            Register::Output => self.registers.output.get(bank),
            Register::Polarity => self.registers.polarity_invert.get(bank),
            Register::Direction => self.registers.direction.get(bank),
        }
    }

    /// Gives pin `id` of `bank` the direction `mode` in the mirror. Nothing
    /// is sent to the chip: the change takes effect with the next write of
    /// the direction register.
    pub fn set_mode(&mut self, bank: Bank, id: PinID, mode: Mode)
        ensures
            final(self)@ == old(self)@.with_mode(bank, id, mode),
            final(self).device_address() == old(self).device_address(),
    {
        let input: bool = match mode {
            Mode::Input => true,
            Mode::Output => false,
        };
        self.registers.direction.assign(bank, id, input);
    }

    /// Sets the output bit of pin `id` of `bank` in the mirror. Nothing is
    /// sent to the chip: the change takes effect with the next write of the
    /// output register.
    pub fn set_state(&mut self, bank: Bank, id: PinID, is_high: bool)
        ensures
            final(self)@ == old(self)@.with_output(bank, id, is_high),
            final(self).device_address() == old(self).device_address(),
    {
        self.registers.output.assign(bank, id, is_high);
    }

    /// Sets the polarity bit of pin `id` of `bank` in the mirror. Nothing is
    /// sent to the chip.
    pub fn set_polarity(&mut self, bank: Bank, id: PinID, invert: bool)
        ensures
            final(self)@ == old(self)@.with_polarity(bank, id, invert),
            final(self).device_address() == old(self).device_address(),
    {
        self.registers.polarity_invert.assign(bank, id, invert);
    }

    /// Replaces the cached input byte of `bank` by `byte`, as read from the
    /// chip.
    pub fn store_input(&mut self, bank: Bank, byte: u8)
        ensures
            final(self)@ == old(self)@.with_input(bank, byte),
            final(self).device_address() == old(self).device_address(),
    {
        self.registers.input_cache.set(bank, byte);
    }

    /// Whether pin `id` of `bank` was high when the input register was last
    /// read. Reads the cache only.
    pub fn is_pin_input_high(&self, bank: Bank, id: PinID) -> (high: bool)
        ensures
            high == self@.input_cache.pin(bank, id),
    {
        self.registers.input_cache.is_set(bank, id)
    }

    /// Whether the output bit of pin `id` of `bank` is set in the mirror.
    /// Reads the cache only.
    pub fn is_pin_output_high(&self, bank: Bank, id: PinID) -> (high: bool)
        ensures
            high == self@.output.pin(bank, id),
    {
        self.registers.output.is_set(bank, id)
    }

    /// The direction of pin `id` of `bank` in the mirror.
    pub fn pin_mode(&self, bank: Bank, id: PinID) -> (mode: Mode)
        ensures
            mode == self@.mode(bank, id),
    {
        if self.registers.direction.is_set(bank, id) {
            Mode::Input
        } else {
            Mode::Output
        }
    }
}

/// A register is determined by its sixteen pins: two registers in which
/// every pin of every bank has the same bit hold the same bytes.
pub proof fn lemma_pins_determine_register(a: BankBytes, b: BankBytes)
    requires
        forall|bank: Bank, id: PinID| a.pin(bank, id) == b.pin(bank, id),
    ensures
        a == b,
{
    assert forall|bank: Bank| a.byte(bank) == b.byte(bank) by {
        assert forall|index: u8| index < 8 implies bit_is_set(a.byte(bank), index) == bit_is_set(
            b.byte(bank),
            index,
        ) by {
            let id = pin_at(index);
            assert(a.pin(bank, id) == b.pin(bank, id));
        }
        lemma_bits_determine_byte(a.byte(bank), b.byte(bank));
    }
    assert(a.byte(Bank::Bank0) == b.byte(Bank::Bank0));
    assert(a.byte(Bank::Bank1) == b.byte(Bank::Bank1));
}

/// Changing a pin to the level it has leaves the register as it is.
pub proof fn lemma_change_to_current_level(register: BankBytes, bank: Bank, id: PinID)
    ensures
        register.with_pin(bank, id, register.pin(bank, id)) == register,
{
    lemma_assign_current_level(register.byte(bank), id.index());
}

/// A change of one pin of a register shows on that pin and on no other pin
/// of either bank.
pub proof fn lemma_pin_after_change(
    register: BankBytes,
    bank: Bank,
    id: PinID,
    level: bool,
    other_bank: Bank,
    other_id: PinID,
)
    ensures
        register.with_pin(bank, id, level).pin(other_bank, other_id) == (if other_bank == bank
            && other_id == id {
            level
        } else {
            register.pin(other_bank, other_id)
        }),
{
    lemma_bit_after_assign(register.byte(bank), id.index(), level, other_id.index());
}

/// A change of one pin of a register leaves the byte of the other bank as it
/// was.
pub proof fn lemma_other_bank_untouched(register: BankBytes, bank: Bank, id: PinID, level: bool, other: Bank)
    requires
        other != bank,
    ensures
        register.with_pin(bank, id, level).byte(other) == register.byte(other),
{
}

/// Changes of two different pins of a register can be made in either order:
/// neither undoes or disturbs the other.
pub proof fn lemma_changes_commute(
    register: BankBytes,
    bank: Bank,
    id: PinID,
    level: bool,
    other_bank: Bank,
    other_id: PinID,
    other_level: bool,
)
    requires
        other_bank != bank || other_id != id,
    ensures
        register.with_pin(bank, id, level).with_pin(other_bank, other_id, other_level)
            == register.with_pin(other_bank, other_id, other_level).with_pin(bank, id, level),
{
    if other_bank == bank {
        lemma_assign_commutes(
            register.byte(bank),
            id.index(),
            level,
            other_id.index(),
            other_level,
        );
    }
}

/// A second change of the same pin replaces the first.
pub proof fn lemma_change_overwrites(register: BankBytes, bank: Bank, id: PinID, first: bool, second: bool)
    ensures
        register.with_pin(bank, id, first).with_pin(bank, id, second) == register.with_pin(
            bank,
            id,
            second,
        ),
{
    lemma_assign_overwrites(register.byte(bank), id.index(), first, second);
}

/// Setting the output of one pin changes the output bit of that pin and
/// nothing else: not another output bit, and no other register.
pub proof fn lemma_set_state_touches_one_pin(
    state: RegisterState,
    bank: Bank,
    id: PinID,
    high: bool,
    other_bank: Bank,
    other_id: PinID,
)
    ensures
        state.with_output(bank, id, high).output.pin(other_bank, other_id) == (if other_bank
            == bank && other_id == id {
            high
        } else {
            state.output.pin(other_bank, other_id)
        }),
        state.with_output(bank, id, high).direction == state.direction,
        state.with_output(bank, id, high).input_cache == state.input_cache,
        state.with_output(bank, id, high).polarity_invert == state.polarity_invert,
{
    lemma_pin_after_change(state.output, bank, id, high, other_bank, other_id);
}

/// Giving one pin a direction changes the direction of that pin and nothing
/// else.
pub proof fn lemma_set_mode_touches_one_pin(
    state: RegisterState,
    bank: Bank,
    id: PinID,
    mode: Mode,
    other_bank: Bank,
    other_id: PinID,
)
    ensures
        state.with_mode(bank, id, mode).mode(other_bank, other_id) == (if other_bank == bank
            && other_id == id {
            mode
        } else {
            state.mode(other_bank, other_id)
        }),
        state.with_mode(bank, id, mode).output == state.output,
        state.with_mode(bank, id, mode).input_cache == state.input_cache,
        state.with_mode(bank, id, mode).polarity_invert == state.polarity_invert,
{
    lemma_pin_after_change(state.direction, bank, id, mode is Input, other_bank, other_id);
}

/// After a refresh of a bank every pin of that bank reads as its bit in the
/// byte that came from the chip, and every pin of the other bank reads as
/// before.
pub proof fn lemma_refresh_replaces_one_bank(
    state: RegisterState,
    bank: Bank,
    byte: u8,
    other_bank: Bank,
    id: PinID,
)
    ensures
        state.with_input(bank, byte).input_cache.pin(other_bank, id) == (if other_bank == bank {
            bit_is_set(byte, id.index())
        } else {
            state.input_cache.pin(other_bank, id)
        }),
{
}

/// Two handles that set the outputs of two different pins, in either order,
/// leave both bits as they were set: the second change does not take back
/// the first. So the output byte that is written afterwards carries both.
pub proof fn lemma_two_handles_set_outputs(
    state: RegisterState,
    bank: Bank,
    id: PinID,
    high: bool,
    other_bank: Bank,
    other_id: PinID,
    other_high: bool,
)
    requires
        other_bank != bank || other_id != id,
    ensures
        state.with_output(bank, id, high).with_output(other_bank, other_id, other_high)
            == state.with_output(other_bank, other_id, other_high).with_output(bank, id, high),
        state.with_output(bank, id, high).with_output(other_bank, other_id, other_high).output.pin(
            bank,
            id,
        ) == high,
        state.with_output(bank, id, high).with_output(other_bank, other_id, other_high).output.pin(
            other_bank,
            other_id,
        ) == other_high,
{
    lemma_changes_commute(state.output, bank, id, high, other_bank, other_id, other_high);
    let first = state.output.with_pin(bank, id, high);
    lemma_pin_after_change(state.output, bank, id, high, bank, id);
    lemma_pin_after_change(first, other_bank, other_id, other_high, bank, id);
    lemma_pin_after_change(first, other_bank, other_id, other_high, other_bank, other_id);
}

/// Before the first refresh every input reads low.
pub proof fn lemma_inputs_low_after_power_on(bank: Bank, id: PinID)
    ensures
        !RegisterState::power_on().input_cache.pin(bank, id),
        RegisterState::power_on().mode(bank, id) == Mode::Input,
{
    let index = id.index();
    assert(0u8 & (1u8 << index) == 0) by (bit_vector);
    assert(index < 8 ==> 0xffu8 & (1u8 << index) != 0) by (bit_vector);
}

/// Where an input is wired to an output of the same position, so that the
/// chip reports on a read of the input register what was last written to the
/// output register, the input reads after a refresh what the output was set
/// to before the write.
pub proof fn lemma_loopback(state: RegisterState, bank: Bank, id: PinID, high: bool, input_bank: Bank)
    ensures
        ({
            let set = state.with_output(bank, id, high);
            let written = set.output.byte(bank);
            set.with_input(input_bank, written).input_cache.pin(input_bank, id) == high
        }),
{
    lemma_pin_after_change(state.output, bank, id, high, bank, id);
}

} // verus!

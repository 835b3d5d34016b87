use pca9539::bits::{assign_bit, test_bit};
use pca9539::expander::{
    Bank, BankBytes, BusError, Mode, PinID, Register, RegisterState, Transaction, PCA9539,
};
use pca9539::operation::{Operation, Progress, Step};

#[derive(Debug, Clone, Copy, PartialEq, Eq)]
enum Fault {
    Nack,
    Timeout,
}

/// A chip on a bench: its registers, the levels applied to its pins from
/// outside, and a record of the bus traffic.
struct Board {
    output: [u8; 2],
    direction: [u8; 2],
    polarity: [u8; 2],
    applied: [u8; 2],
    log: Vec<Transaction>,
    failing: Vec<(usize, Fault)>,
}

impl Board {
    fn new() -> Self {
        Board {
            output: [0xff; 2],
            direction: [0xff; 2],
            polarity: [0; 2],
            applied: [0; 2],
            log: Vec::new(),
            failing: Vec::new(),
        }
    }

    fn input(&self, bank: usize) -> u8 {
        let levels =
            (self.output[bank] & !self.direction[bank]) | (self.applied[bank] & self.direction[bank]);
        levels ^ self.polarity[bank]
    }

    fn transfer(&mut self, transaction: Transaction) -> Result<u8, Fault> {
        let count = self.log.len();
        self.log.push(transaction);
        if let Some((_, fault)) = self.failing.iter().find(|(at, _)| *at == count) {
            return Err(*fault);
        }
        let command = transaction.command_byte();
        let bank = usize::from(command & 1);
        match transaction.value() {
            Some(value) => {
                match command >> 1 {
                    1 => self.output[bank] = value,
                    2 => self.polarity[bank] = value,
                    3 => self.direction[bank] = value,
                    _ => {}
                }
                Ok(0)
            }
            None => Ok(match command >> 1 {
                0 => self.input(bank),
                1 => self.output[bank],
                2 => self.polarity[bank],
                _ => self.direction[bank],
            }),
        }
    }
}

const ALL_PINS: [PinID; 8] = [
    PinID::Pin0,
    PinID::Pin1,
    PinID::Pin2,
    PinID::Pin3,
    PinID::Pin4,
    PinID::Pin5,
    PinID::Pin6,
    PinID::Pin7,
];

#[test]
fn bits_are_read_by_position() {
    assert!(test_bit(0x08, 3));
    assert!(!test_bit(0x08, 2));
    assert!(test_bit(0x80, 7));
    assert!(test_bit(0x01, 0));
    assert!(!test_bit(0x7f, 7));
}

#[test]
fn bits_are_assigned_by_position() {
    assert_eq!(assign_bit(0x00, 3, true), 0x08);
    assert_eq!(assign_bit(0xff, 3, false), 0xf7);
    assert_eq!(assign_bit(0x08, 3, true), 0x08);
    assert_eq!(assign_bit(0x28, 5, false), 0x08);
    assert_eq!(assign_bit(0x00, 7, true), 0x80);
    assert_eq!(assign_bit(0x00, 0, true), 0x01);
}

#[test]
fn pins_and_banks_are_numbered_in_order() {
    for (position, id) in ALL_PINS.iter().enumerate() {
        assert_eq!(usize::from(id.number()), position);
    }
    assert_eq!(Bank::Bank0.number(), 0);
    assert_eq!(Bank::Bank1.number(), 1);
}

#[test]
fn command_bytes_follow_the_register_map() {
    assert_eq!(Register::Input.command_byte(Bank::Bank0), 0);
    assert_eq!(Register::Input.command_byte(Bank::Bank1), 1);
    assert_eq!(Register::Output.command_byte(Bank::Bank0), 2);
    assert_eq!(Register::Output.command_byte(Bank::Bank1), 3);
    assert_eq!(Register::Polarity.command_byte(Bank::Bank0), 4);
    assert_eq!(Register::Polarity.command_byte(Bank::Bank1), 5);
    assert_eq!(Register::Direction.command_byte(Bank::Bank0), 6);
    assert_eq!(Register::Direction.command_byte(Bank::Bank1), 7);
}

#[test]
fn transactions_give_command_and_value() {
    let write = Transaction::Write { register: Register::Output, bank: Bank::Bank1, value: 0x5a };
    assert_eq!(write.command_byte(), 3);
    assert_eq!(write.value(), Some(0x5a));
    let read = Transaction::Read { register: Register::Input, bank: Bank::Bank1 };
    assert_eq!(read.command_byte(), 1);
    assert_eq!(read.value(), None);
}

#[test]
fn bank_bytes_keep_banks_apart() {
    let mut register = BankBytes::filled(0);
    register.set(Bank::Bank1, 0xa5);
    assert_eq!(register.get(Bank::Bank0), 0);
    assert_eq!(register.get(Bank::Bank1), 0xa5);
    register.assign(Bank::Bank0, PinID::Pin6, true);
    assert_eq!(register, BankBytes { bank0: 0x40, bank1: 0xa5 });
    assert!(register.is_set(Bank::Bank0, PinID::Pin6));
    assert!(!register.is_set(Bank::Bank0, PinID::Pin5));
    assert!(register.is_set(Bank::Bank1, PinID::Pin0));
    register.assign(Bank::Bank1, PinID::Pin0, false);
    assert_eq!(register, BankBytes { bank0: 0x40, bank1: 0xa4 });
}

#[test]
fn new_engine_mirrors_power_on_registers() {
    let expander = PCA9539::new(0x74);
    assert_eq!(expander.address(), 0x74);
    assert_eq!(
        expander.registers(),
        RegisterState {
            direction: BankBytes { bank0: 0xff, bank1: 0xff },
            output: BankBytes { bank0: 0xff, bank1: 0xff },
            input_cache: BankBytes { bank0: 0, bank1: 0 },
            polarity_invert: BankBytes { bank0: 0, bank1: 0 },
        }
    );
    for id in ALL_PINS {
        assert_eq!(expander.pin_mode(Bank::Bank0, id), Mode::Input);
        assert_eq!(expander.pin_mode(Bank::Bank1, id), Mode::Input);
        assert!(expander.is_pin_output_high(Bank::Bank0, id));
        assert!(!expander.is_pin_input_high(Bank::Bank1, id));
    }
}

#[test]
fn engine_takes_known_registers() {
    let registers = RegisterState {
        direction: BankBytes { bank0: 0x0f, bank1: 0xf0 },
        output: BankBytes { bank0: 0x11, bank1: 0x22 },
        input_cache: BankBytes { bank0: 0x33, bank1: 0x44 },
        polarity_invert: BankBytes { bank0: 0x55, bank1: 0x66 },
    };
    let expander = PCA9539::with_registers(0x77, registers);
    assert_eq!(expander.address(), 0x77);
    assert_eq!(expander.registers(), registers);
    assert_eq!(expander.register_byte(Register::Direction, Bank::Bank0), 0x0f);
    assert_eq!(expander.register_byte(Register::Output, Bank::Bank1), 0x22);
    assert_eq!(expander.register_byte(Register::Input, Bank::Bank0), 0x33);
    assert_eq!(expander.register_byte(Register::Polarity, Bank::Bank1), 0x66);
    assert_eq!(expander.pin_mode(Bank::Bank0, PinID::Pin0), Mode::Input);
    assert_eq!(expander.pin_mode(Bank::Bank0, PinID::Pin4), Mode::Output);
}

#[test]
fn set_mode_changes_the_mirror_only() {
    let mut expander = PCA9539::new(0x74);
    expander.set_mode(Bank::Bank0, PinID::Pin2, Mode::Output);
    assert_eq!(expander.registers().direction, BankBytes { bank0: 0xfb, bank1: 0xff });
    assert_eq!(expander.pin_mode(Bank::Bank0, PinID::Pin2), Mode::Output);
    assert_eq!(expander.pin_mode(Bank::Bank0, PinID::Pin1), Mode::Input);
    expander.set_mode(Bank::Bank0, PinID::Pin2, Mode::Input);
    assert_eq!(expander.registers().direction, BankBytes { bank0: 0xff, bank1: 0xff });
    assert_eq!(expander.registers().output, BankBytes { bank0: 0xff, bank1: 0xff });
}

#[test]
fn set_state_changes_one_output_bit() {
    let mut expander = PCA9539::new(0x74);
    expander.set_state(Bank::Bank1, PinID::Pin7, false);
    assert_eq!(expander.registers().output, BankBytes { bank0: 0xff, bank1: 0x7f });
    assert!(!expander.is_pin_output_high(Bank::Bank1, PinID::Pin7));
    assert!(expander.is_pin_output_high(Bank::Bank1, PinID::Pin6));
    assert!(expander.is_pin_output_high(Bank::Bank0, PinID::Pin7));
    expander.set_state(Bank::Bank1, PinID::Pin7, true);
    assert_eq!(expander.registers().output, BankBytes { bank0: 0xff, bank1: 0xff });
}

#[test]
fn set_polarity_and_store_input_change_their_registers() {
    let mut expander = PCA9539::new(0x74);
    expander.set_polarity(Bank::Bank0, PinID::Pin1, true);
    expander.store_input(Bank::Bank1, 0x81);
    let registers = expander.registers();
    assert_eq!(registers.polarity_invert, BankBytes { bank0: 0x02, bank1: 0 });
    assert_eq!(registers.input_cache, BankBytes { bank0: 0, bank1: 0x81 });
    assert!(expander.is_pin_input_high(Bank::Bank1, PinID::Pin7));
    assert!(expander.is_pin_input_high(Bank::Bank1, PinID::Pin0));
    assert!(!expander.is_pin_input_high(Bank::Bank1, PinID::Pin3));
    assert!(!expander.is_pin_input_high(Bank::Bank0, PinID::Pin0));
}

#[test]
fn write_output_state_flushes_the_whole_bank_at_once() {
    let mut board = Board::new();
    let mut expander = PCA9539::new(0x74);
    expander.set_state(Bank::Bank0, PinID::Pin0, false);
    expander.set_state(Bank::Bank0, PinID::Pin4, false);
    expander.set_state(Bank::Bank0, PinID::Pin7, false);
    assert!(board.log.is_empty());
    let result = expander.write_output_state(Bank::Bank0, |t| board.transfer(t));
    assert_eq!(result, Ok(()));
    assert_eq!(
        board.log,
        vec![Transaction::Write { register: Register::Output, bank: Bank::Bank0, value: 0x6e }]
    );
    assert_eq!(board.output, [0x6e, 0xff]);
}

#[test]
fn failed_output_write_leaves_the_mirror_ahead_of_the_chip() {
    let mut board = Board::new();
    board.failing.push((0, Fault::Nack));
    let mut expander = PCA9539::new(0x74);
    expander.set_state(Bank::Bank1, PinID::Pin2, false);
    let result = expander.write_output_state(Bank::Bank1, |t| board.transfer(t));
    assert_eq!(result, Err(BusError { cause: Fault::Nack }));
    assert_eq!(board.output, [0xff, 0xff]);
    assert_eq!(expander.registers().output, BankBytes { bank0: 0xff, bank1: 0xfb });
    assert!(!expander.is_pin_output_high(Bank::Bank1, PinID::Pin2));
}

#[test]
fn refresh_input_state_replaces_the_cached_byte() {
    let mut board = Board::new();
    board.applied = [0x3c, 0xc3];
    let mut expander = PCA9539::new(0x74);
    let result = expander.refresh_input_state(Bank::Bank1, |t| board.transfer(t));
    assert_eq!(result, Ok(()));
    assert_eq!(board.log, vec![Transaction::Read { register: Register::Input, bank: Bank::Bank1 }]);
    assert_eq!(expander.registers().input_cache, BankBytes { bank0: 0, bank1: 0xc3 });
    assert!(expander.is_pin_input_high(Bank::Bank1, PinID::Pin0));
    assert!(!expander.is_pin_input_high(Bank::Bank1, PinID::Pin2));
    assert!(!expander.is_pin_input_high(Bank::Bank0, PinID::Pin2));
}

#[test]
fn failed_refresh_leaves_the_cache_unchanged() {
    let mut board = Board::new();
    board.applied = [0xff, 0xff];
    let mut expander = PCA9539::new(0x74);
    expander.store_input(Bank::Bank0, 0x12);
    board.failing.push((0, Fault::Timeout));
    let result = expander.refresh_input_state(Bank::Bank0, |t| board.transfer(t));
    assert_eq!(result, Err(BusError { cause: Fault::Timeout }));
    assert_eq!(expander.registers().input_cache, BankBytes { bank0: 0x12, bank1: 0 });
}

#[test]
fn reverse_polarity_writes_the_polarity_register() {
    let mut board = Board::new();
    board.applied = [0x00, 0x00];
    let mut expander = PCA9539::new(0x74);
    let result = expander.reverse_polarity(Bank::Bank0, PinID::Pin5, true, |t| board.transfer(t));
    assert_eq!(result, Ok(()));
    assert_eq!(
        board.log,
        vec![Transaction::Write { register: Register::Polarity, bank: Bank::Bank0, value: 0x20 }]
    );
    assert_eq!(expander.registers().polarity_invert, BankBytes { bank0: 0x20, bank1: 0 });
    expander.refresh_input_state(Bank::Bank0, |t| board.transfer(t)).unwrap();
    assert!(expander.is_pin_input_high(Bank::Bank0, PinID::Pin5));
    assert!(!expander.is_pin_input_high(Bank::Bank0, PinID::Pin4));
    let result = expander.reverse_polarity(Bank::Bank0, PinID::Pin5, false, |t| board.transfer(t));
    assert_eq!(result, Ok(()));
    assert_eq!(board.polarity, [0, 0]);
}

#[test]
fn failed_polarity_write_keeps_the_bit_in_the_mirror() {
    let mut board = Board::new();
    board.failing.push((0, Fault::Nack));
    let mut expander = PCA9539::new(0x74);
    let result = expander.reverse_polarity(Bank::Bank1, PinID::Pin0, true, |t| board.transfer(t));
    assert_eq!(result, Err(BusError { cause: Fault::Nack }));
    assert_eq!(expander.registers().polarity_invert, BankBytes { bank0: 0, bank1: 0x01 });
    assert_eq!(board.polarity, [0, 0]);
}

#[test]
fn scripts_list_the_steps_of_each_operation() {
    let operation = Operation::IntoOutput {
        bank: Bank::Bank1,
        id: PinID::Pin2,
        high: true,
        flush: true,
    };
    assert_eq!(
        operation.step_at(0),
        Some(Step::SetMode { bank: Bank::Bank1, id: PinID::Pin2, mode: Mode::Output })
    );
    assert_eq!(
        operation.step_at(1),
        Some(Step::Write { register: Register::Direction, bank: Bank::Bank1 })
    );
    assert_eq!(
        operation.step_at(2),
        Some(Step::SetState { bank: Bank::Bank1, id: PinID::Pin2, high: true })
    );
    assert_eq!(
        operation.step_at(3),
        Some(Step::Write { register: Register::Output, bank: Bank::Bank1 })
    );
    assert_eq!(operation.step_at(4), None);
    let cached = Operation::IntoOutput {
        bank: Bank::Bank1,
        id: PinID::Pin2,
        high: true,
        flush: false,
    };
    assert_eq!(cached.step_at(3), None);
    assert_eq!(Operation::RefreshAll.step_at(0), Some(Step::Refresh { bank: Bank::Bank0 }));
    assert_eq!(Operation::RefreshAll.step_at(1), Some(Step::Refresh { bank: Bank::Bank1 }));
    assert_eq!(Operation::RefreshAll.step_at(2), None);
    assert_eq!(
        Operation::UpdateAll.step_at(1),
        Some(Step::Write { register: Register::Output, bank: Bank::Bank1 })
    );
    assert_eq!(
        Operation::RefreshInput { bank: Bank::Bank1 }.step_at(0),
        Some(Step::Refresh { bank: Bank::Bank1 })
    );
    assert_eq!(Operation::RefreshInput { bank: Bank::Bank1 }.step_at(1), None);
    assert_eq!(
        Operation::WriteOutput { bank: Bank::Bank0 }.step_at(0),
        Some(Step::Write { register: Register::Output, bank: Bank::Bank0 })
    );
    assert_eq!(
        Operation::SetOutput { bank: Bank::Bank0, id: PinID::Pin1, high: false }.step_at(0),
        Some(Step::SetState { bank: Bank::Bank0, id: PinID::Pin1, high: false })
    );
    assert_eq!(
        Operation::ChangeMode { bank: Bank::Bank0, id: PinID::Pin1, mode: Mode::Input }.step_at(1),
        Some(Step::Write { register: Register::Direction, bank: Bank::Bank0 })
    );
    assert_eq!(
        Operation::InvertPolarity { bank: Bank::Bank0, id: PinID::Pin1, invert: true }.step_at(1),
        Some(Step::Write { register: Register::Polarity, bank: Bank::Bank0 })
    );
    assert_eq!(
        Operation::InvertPolarity { bank: Bank::Bank0, id: PinID::Pin1, invert: true }.step_at(2),
        None
    );
}

#[test]
fn operation_is_carried_out_one_transaction_at_a_time() {
    let mut expander = PCA9539::new(0x74);
    let progress: Progress<Fault> = expander.start(Operation::RefreshAll);
    let pending = match progress {
        Progress::Transfer { transaction, pending } => {
            assert_eq!(
                transaction,
                Transaction::Read { register: Register::Input, bank: Bank::Bank0 }
            );
            pending
        }
        Progress::Done(_) => panic!("the first read was not asked for"),
    };
    let pending = match expander.resume(pending, Ok::<u8, Fault>(0x0f)) {
        Progress::Transfer { transaction, pending } => {
            assert_eq!(
                transaction,
                Transaction::Read { register: Register::Input, bank: Bank::Bank1 }
            );
            pending
        }
        Progress::Done(_) => panic!("the second read was not asked for"),
    };
    assert_eq!(expander.registers().input_cache, BankBytes { bank0: 0x0f, bank1: 0 });
    let progress = expander.resume(pending, Ok::<u8, Fault>(0xf0));
    assert_eq!(progress, Progress::Done(Ok(())));
    assert_eq!(expander.registers().input_cache, BankBytes { bank0: 0x0f, bank1: 0xf0 });
}

#[test]
fn operation_ends_with_the_first_failure() {
    let mut expander = PCA9539::new(0x74);
    let progress: Progress<Fault> = expander.start(Operation::RefreshAll);
    let pending = match progress {
        Progress::Transfer { pending, .. } => pending,
        Progress::Done(_) => panic!("the first read was not asked for"),
    };
    let progress = expander.resume(pending, Err(Fault::Timeout));
    assert_eq!(progress, Progress::Done(Err(BusError { cause: Fault::Timeout })));
    assert_eq!(expander.registers().input_cache, BankBytes { bank0: 0, bank1: 0 });
}

#[test]
fn write_ignores_the_byte_that_comes_back() {
    let mut expander = PCA9539::new(0x74);
    let before = expander.registers();
    let progress: Progress<Fault> = expander.start(Operation::WriteOutput { bank: Bank::Bank0 });
    let pending = match progress {
        Progress::Transfer { transaction, pending } => {
            assert_eq!(
                transaction,
                Transaction::Write { register: Register::Output, bank: Bank::Bank0, value: 0xff }
            );
            pending
        }
        Progress::Done(_) => panic!("the write was not asked for"),
    };
    assert_eq!(expander.resume(pending, Ok::<u8, Fault>(0x99)), Progress::Done(Ok(())));
    assert_eq!(expander.registers(), before);
}

#[test]
fn execute_update_all_writes_bank0_then_bank1() {
    let mut board = Board::new();
    let mut expander = PCA9539::new(0x74);
    expander.set_state(Bank::Bank0, PinID::Pin0, false);
    expander.set_state(Bank::Bank1, PinID::Pin1, false);
    let result = expander.execute(Operation::UpdateAll, |t| board.transfer(t));
    assert_eq!(result, Ok(()));
    assert_eq!(
        board.log,
        vec![
            Transaction::Write { register: Register::Output, bank: Bank::Bank0, value: 0xfe },
            Transaction::Write { register: Register::Output, bank: Bank::Bank1, value: 0xfd },
        ]
    );
}

#[test]
fn execute_update_all_stops_after_a_failed_bank0() {
    let mut board = Board::new();
    board.failing.push((0, Fault::Nack));
    let mut expander = PCA9539::new(0x74);
    expander.set_state(Bank::Bank0, PinID::Pin0, false);
    expander.set_state(Bank::Bank1, PinID::Pin1, false);
    let result = expander.execute(Operation::UpdateAll, |t| board.transfer(t));
    assert_eq!(result, Err(BusError { cause: Fault::Nack }));
    assert_eq!(board.log.len(), 1);
    assert_eq!(board.output, [0xff, 0xff]);
}

#[test]
fn execute_update_all_reports_a_failed_bank1() {
    let mut board = Board::new();
    board.failing.push((1, Fault::Timeout));
    let mut expander = PCA9539::new(0x74);
    expander.set_state(Bank::Bank0, PinID::Pin0, false);
    expander.set_state(Bank::Bank1, PinID::Pin1, false);
    let result = expander.execute(Operation::UpdateAll, |t| board.transfer(t));
    assert_eq!(result, Err(BusError { cause: Fault::Timeout }));
    assert_eq!(board.log.len(), 2);
    assert_eq!(board.output, [0xfe, 0xff]);
}

#[test]
fn refresh_all_equals_bank0_then_bank1() {
    let mut board = Board::new();
    board.applied = [0xa1, 0x1a];
    let mut at_once = PCA9539::new(0x74);
    assert_eq!(at_once.execute(Operation::RefreshAll, |t| board.transfer(t)), Ok(()));
    let mut in_turn = PCA9539::new(0x74);
    assert_eq!(in_turn.refresh_input_state(Bank::Bank0, |t| board.transfer(t)), Ok(()));
    assert_eq!(in_turn.refresh_input_state(Bank::Bank1, |t| board.transfer(t)), Ok(()));
    assert_eq!(at_once.registers(), in_turn.registers());
    for id in ALL_PINS {
        for bank in [Bank::Bank0, Bank::Bank1] {
            assert_eq!(at_once.is_pin_input_high(bank, id), in_turn.is_pin_input_high(bank, id));
        }
    }
    assert_eq!(at_once.registers().input_cache, BankBytes { bank0: 0xa1, bank1: 0x1a });
    assert_eq!(board.log[0], board.log[2]);
    assert_eq!(board.log[1], board.log[3]);
}

#[test]
fn refresh_all_does_not_read_bank1_after_a_failed_bank0() {
    let mut board = Board::new();
    board.applied = [0xa1, 0x1a];
    board.failing.push((0, Fault::Nack));
    let mut expander = PCA9539::new(0x74);
    let result = expander.execute(Operation::RefreshAll, |t| board.transfer(t));
    assert_eq!(result, Err(BusError { cause: Fault::Nack }));
    assert_eq!(board.log, vec![Transaction::Read { register: Register::Input, bank: Bank::Bank0 }]);
    assert_eq!(expander.registers().input_cache, BankBytes { bank0: 0, bank1: 0 });
}

#[test]
fn refresh_all_keeps_bank0_when_bank1_fails() {
    let mut board = Board::new();
    board.applied = [0xa1, 0x1a];
    board.failing.push((1, Fault::Nack));
    let mut expander = PCA9539::new(0x74);
    let result = expander.execute(Operation::RefreshAll, |t| board.transfer(t));
    assert_eq!(result, Err(BusError { cause: Fault::Nack }));
    assert_eq!(expander.registers().input_cache, BankBytes { bank0: 0xa1, bank1: 0 });
}

#[test]
fn set_output_operation_sets_then_writes() {
    let mut board = Board::new();
    let mut expander = PCA9539::new(0x74);
    let operation = Operation::SetOutput { bank: Bank::Bank1, id: PinID::Pin4, high: false };
    assert_eq!(expander.execute(operation, |t| board.transfer(t)), Ok(()));
    assert_eq!(
        board.log,
        vec![Transaction::Write { register: Register::Output, bank: Bank::Bank1, value: 0xef }]
    );
}

#[test]
fn into_output_operation_stops_after_a_failed_direction_write() {
    let mut board = Board::new();
    board.failing.push((0, Fault::Nack));
    let mut expander = PCA9539::new(0x74);
    let operation = Operation::IntoOutput {
        bank: Bank::Bank0,
        id: PinID::Pin1,
        high: false,
        flush: true,
    };
    let result = expander.execute(operation, |t| board.transfer(t));
    assert_eq!(result, Err(BusError { cause: Fault::Nack }));
    assert_eq!(
        board.log,
        vec![Transaction::Write { register: Register::Direction, bank: Bank::Bank0, value: 0xfd }]
    );
    assert_eq!(expander.registers().direction, BankBytes { bank0: 0xfd, bank1: 0xff });
    assert_eq!(expander.registers().output, BankBytes { bank0: 0xff, bank1: 0xff });
}

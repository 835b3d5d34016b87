//! Operations on the chip, carried out one bus transaction at a time.
//!
//! The engine never touches the bus. An [`Operation`] is a short script of
//! [`Step`]s: some change the mirror, the others need one transaction with
//! the chip. [`PCA9539::start`] runs the script up to the first transaction
//! and hands that transaction out; the caller performs it and gives the reply
//! to [`PCA9539::resume`], which goes on to the next transaction or to the
//! end. A failed transaction ends the operation at once, and whatever the
//! script had changed in the mirror before it stays changed.
//!
//! [`PCA9539::execute`] drives an operation to completion with a bus given as
//! a function.
//!
//! What an operation does is defined once, by [`run_from`]; the contracts of
//! `start`, `resume` and `execute` all refer to it.

use crate::expander::{Bank, BusError, Mode, PinID, Register, RegisterState, Transaction, PCA9539};
use vstd::pervasive::unreached;
use vstd::prelude::*;

verus! {

/// One step of an operation.
#[derive(Clone, Copy, Debug, PartialEq, Eq)]
pub enum Step {
    /// Give a pin its direction in the mirror.
    SetMode { bank: Bank, id: PinID, mode: Mode },
    /// Set the output bit of a pin in the mirror.
    SetState { bank: Bank, id: PinID, high: bool },
    /// Set the polarity bit of a pin in the mirror.
    SetPolarity { bank: Bank, id: PinID, invert: bool },
    /// Write the mirrored byte of a register to the chip.
    Write { register: Register, bank: Bank },
    /// Read the input register of a bank from the chip into the cache.
    Refresh { bank: Bank },
}

impl Step {
    /// Whether the step needs a transaction with the chip.
    pub open spec fn on_bus(self) -> bool {
        self is Write || self is Refresh
    }

    /// The mirror after a step that needs no transaction.
    pub open spec fn apply(self, state: RegisterState) -> RegisterState {
        match self {
            Step::SetMode { bank, id, mode } => state.with_mode(bank, id, mode),
            Step::SetState { bank, id, high } => state.with_output(bank, id, high),
            Step::SetPolarity { bank, id, invert } => state.with_polarity(bank, id, invert),
            _ => state,
        }
    }

    /// The transaction that a step on the bus asks for.
    pub open spec fn transaction(self, state: RegisterState) -> Transaction {
        match self {
            Step::Write { register, bank } => Transaction::Write {
                register,
                bank,
                value: state.register(register).byte(bank),
            },
            Step::Refresh { bank } => Transaction::Read { register: Register::Input, bank },
            _ => arbitrary(),
        }
    }

    /// The mirror after the chip has answered a step on the bus with `byte`.
    /// Only a refresh keeps the byte.
    pub open spec fn absorb(self, state: RegisterState, byte: u8) -> RegisterState {
        match self {
            Step::Refresh { bank } => state.with_input(bank, byte),
            _ => state,
        }
    }
}

/// What can be asked of the chip.
#[derive(Clone, Copy, Debug, PartialEq, Eq)]
pub enum Operation {
    /// Read the input register of one bank into the cache.
    RefreshInput { bank: Bank },
    /// Read the input registers of both banks, bank 0 first.
    RefreshAll,
    /// Write the mirrored output byte of one bank.
    WriteOutput { bank: Bank },
    /// Write the mirrored output bytes of both banks, bank 0 first.
    UpdateAll,
    /// Set the output bit of a pin and write the bank's output byte.
    SetOutput { bank: Bank, id: PinID, high: bool },
    /// Give a pin its direction and write the bank's direction byte.
    ChangeMode { bank: Bank, id: PinID, mode: Mode },
    /// Make a pin an output: write the direction byte, then set the output
    /// bit to `high`; with `flush`, write the output byte too.
    IntoOutput { bank: Bank, id: PinID, high: bool, flush: bool },
    /// Set the polarity bit of a pin and write the bank's polarity byte.
    InvertPolarity { bank: Bank, id: PinID, invert: bool },
}

impl Operation {
    /// The steps of the operation, in order.
    pub open spec fn script(self) -> Seq<Step> {
        match self {
            Operation::RefreshInput { bank } => seq![Step::Refresh { bank }],
            Operation::RefreshAll => seq![
                Step::Refresh { bank: Bank::Bank0 },
                Step::Refresh { bank: Bank::Bank1 },
            ],
            Operation::WriteOutput { bank } => seq![
                Step::Write { register: Register::Output, bank },
            ],
            Operation::UpdateAll => seq![
                Step::Write { register: Register::Output, bank: Bank::Bank0 },
                Step::Write { register: Register::Output, bank: Bank::Bank1 },
            ],
            Operation::SetOutput { bank, id, high } => seq![
                Step::SetState { bank, id, high },
                Step::Write { register: Register::Output, bank },
            ],
            Operation::ChangeMode { bank, id, mode } => seq![
                Step::SetMode { bank, id, mode },
                Step::Write { register: Register::Direction, bank },
            ],
            Operation::IntoOutput { bank, id, high, flush } => if flush {
                seq![
                    Step::SetMode { bank, id, mode: Mode::Output },
                    Step::Write { register: Register::Direction, bank },
                    Step::SetState { bank, id, high },
                    Step::Write { register: Register::Output, bank },
                ]
            } else {
                seq![
                    Step::SetMode { bank, id, mode: Mode::Output },
                    Step::Write { register: Register::Direction, bank },
                    Step::SetState { bank, id, high },
                ]
            },
            Operation::InvertPolarity { bank, id, invert } => seq![
                Step::SetPolarity { bank, id, invert },
                Step::Write { register: Register::Polarity, bank },
            ],
        }
    }

    /// The step at position `cursor` of the script, if there is one.
    pub fn step_at(&self, cursor: usize) -> (step: Option<Step>)
        ensures
            step == (if cursor < self.script().len() {
                Some(self.script()[cursor as int])
            } else {
                None
            }),
    {
        match *self {
            Operation::RefreshInput { bank } => match cursor {
                0 => Some(Step::Refresh { bank }),
                _ => None,
            },
            Operation::RefreshAll => match cursor {
                0 => Some(Step::Refresh { bank: Bank::Bank0 }),
                1 => Some(Step::Refresh { bank: Bank::Bank1 }),
                _ => None,
            },
            Operation::WriteOutput { bank } => match cursor {
                0 => Some(Step::Write { register: Register::Output, bank }),
                _ => None,
            },
            Operation::UpdateAll => match cursor {
                0 => Some(Step::Write { register: Register::Output, bank: Bank::Bank0 }),
                1 => Some(Step::Write { register: Register::Output, bank: Bank::Bank1 }),
                _ => None,
            },
            Operation::SetOutput { bank, id, high } => match cursor {
                0 => Some(Step::SetState { bank, id, high }),
                1 => Some(Step::Write { register: Register::Output, bank }),
                _ => None,
            },
            Operation::ChangeMode { bank, id, mode } => match cursor {
                0 => Some(Step::SetMode { bank, id, mode }),
                1 => Some(Step::Write { register: Register::Direction, bank }),
                _ => None,
            },
            Operation::IntoOutput { bank, id, high, flush } => match cursor {
                0 => Some(Step::SetMode { bank, id, mode: Mode::Output }),
                1 => Some(Step::Write { register: Register::Direction, bank }),
                2 => Some(Step::SetState { bank, id, high }),
                3 => if flush {
                    Some(Step::Write { register: Register::Output, bank })
                } else {
                    None
                },
                _ => None,
            },
            Operation::InvertPolarity { bank, id, invert } => match cursor {
                0 => Some(Step::SetPolarity { bank, id, invert }),
                1 => Some(Step::Write { register: Register::Polarity, bank }),
                _ => None,
            },
        }
    }
}

/// How far a run has come.
pub enum Status<E> {
    /// The transaction of the step at `cursor` is on the bus.
    Suspended { cursor: int },
    /// The operation is over, with this result.
    Finished(Result<(), BusError<E>>),
}

/// A run of a script: where it left the mirror, how far it came, and the
/// transactions it asked for, in order.
pub struct Run<E> {
    pub state: RegisterState,
    pub status: Status<E>,
    pub issued: Seq<Transaction>,
}

/// The run of `script` from position `cursor` on the mirror `state`, when the
/// bus answers the transactions with `replies`, in order.
///
/// Steps that need no transaction change the mirror. A step on the bus asks
/// for its transaction; without a reply left the run is suspended there, a
/// failure ends the run with that failure, and a success is absorbed into
/// the mirror before the run goes on. Replies that are left over when the
/// script ends are ignored.
pub open spec fn run_from<E>(
    state: RegisterState,
    script: Seq<Step>,
    cursor: int,
    replies: Seq<Result<u8, E>>,
) -> Run<E>
    decreases script.len() - cursor,
{
    if cursor < 0 || cursor >= script.len() {
        Run { state, status: Status::Finished(Ok(())), issued: Seq::empty() }
    } else if !script[cursor].on_bus() {
        run_from(script[cursor].apply(state), script, cursor + 1, replies)
    } else {
        let transaction = script[cursor].transaction(state);
        if replies.len() == 0 {
            Run { state, status: Status::Suspended { cursor }, issued: seq![transaction] }
        } else {
            match replies[0] {
                Err(cause) => Run {
                    state,
                    status: Status::Finished(Err(BusError { cause })),
                    issued: seq![transaction],
                },
                Ok(byte) => {
                    let rest = run_from(
                        script[cursor].absorb(state, byte),
                        script,
                        cursor + 1,
                        replies.skip(1),
                    );
                    Run {
                        state: rest.state,
                        status: rest.status,
                        issued: seq![transaction] + rest.issued,
                    }
                },
            }
        }
    }
}

/// The run of a whole operation on the mirror `state` with the given
/// replies.
pub open spec fn run<E>(state: RegisterState, operation: Operation, replies: Seq<Result<u8, E>>)
    -> Run<E> {
    run_from(state, operation.script(), 0, replies)
}

/// An operation that waits for the reply to a transaction.
///
/// Dropping it abandons the operation where it stands. Nothing is undone:
/// the mirror keeps what the script has changed so far, and the chip has
/// what the transactions so far have written, so the two may then differ.
#[derive(Debug, PartialEq, Eq)]
pub struct Pending {
    operation: Operation,
    cursor: usize,
}

impl Pending {
    #[verifier::type_invariant]
    closed spec fn on_bus_step(&self) -> bool {
        &&& self.cursor < self.operation.script().len()
        &&& self.operation.script()[self.cursor as int].on_bus()
    }

    /// The operation that waits.
    pub closed spec fn operation(&self) -> Operation {
        self.operation
    }

    /// The position in the script of the step whose transaction is on the
    /// bus.
    pub closed spec fn cursor(&self) -> int {
        self.cursor as int
    }
}

/// What the caller of the engine has to do next.
#[derive(Debug, PartialEq, Eq)]
pub enum Progress<E> {
    /// Perform `transaction` on the bus and hand its reply to
    /// [`PCA9539::resume`] together with `pending`.
    Transfer { transaction: Transaction, pending: Pending },
    /// Nothing: the operation is over, with this result.
    Done(Result<(), BusError<E>>),
}

/// Whether `progress` is what the engine reports of `run`, a run of
/// `operation`.
pub open spec fn reports<E>(progress: Progress<E>, operation: Operation, run: Run<E>) -> bool {
    match run.status {
        Status::Suspended { cursor } => {
            &&& progress matches Progress::Transfer { transaction, pending }
            &&& transaction == run.issued.last()
            &&& pending.operation() == operation
            &&& pending.cursor() == cursor
        },
        Status::Finished(result) => progress == Progress::Done(result),
    }
}

/// A run that is suspended waits at a step on the bus, at or after the
/// position it started from, and has asked for one transaction more than it
/// has had replies.
pub proof fn lemma_suspended_run<E>(
    state: RegisterState,
    script: Seq<Step>,
    cursor: int,
    replies: Seq<Result<u8, E>>,
)
    requires
        0 <= cursor,
        run_from(state, script, cursor, replies).status is Suspended,
    ensures
        ({
            let run = run_from(state, script, cursor, replies);
            &&& run.status matches Status::Suspended { cursor: at }
            &&& cursor + replies.len() <= at < script.len()
            &&& script[at].on_bus()
            &&& run.issued.len() == replies.len() + 1
            &&& run.issued.last() == script[at].transaction(run.state)
        }),
    decreases script.len() - cursor,
{
    if cursor >= script.len() {
    } else if !script[cursor].on_bus() {
        lemma_suspended_run(script[cursor].apply(state), script, cursor + 1, replies);
    } else if replies.len() == 0 {
    } else {
        match replies[0] {
            Err(cause) => {},
            Ok(byte) => {
                lemma_suspended_run(
                    script[cursor].absorb(state, byte),
                    script,
                    cursor + 1,
                    replies.skip(1),
                );
            },
        }
    }
}

/// A run that is finished has asked for no more transactions than it has had
/// replies.
pub proof fn lemma_finished_run<E>(
    state: RegisterState,
    script: Seq<Step>,
    cursor: int,
    replies: Seq<Result<u8, E>>,
)
    requires
        0 <= cursor,
        run_from(state, script, cursor, replies).status is Finished,
    ensures
        run_from(state, script, cursor, replies).issued.len() <= replies.len(),
    decreases script.len() - cursor,
{
    if cursor >= script.len() {
    } else if !script[cursor].on_bus() {
        lemma_finished_run(script[cursor].apply(state), script, cursor + 1, replies);
    } else if replies.len() == 0 {
    } else {
        match replies[0] {
            Err(cause) => {},
            Ok(byte) => {
                lemma_finished_run(
                    script[cursor].absorb(state, byte),
                    script,
                    cursor + 1,
                    replies.skip(1),
                );
            },
        }
    }
}

/// A suspended run goes on with the next reply as a run of its own from the
/// step it waits at: the two end in the same mirror and status, and the
/// longer run has asked for the transactions of the suspended one, followed
/// by those that came after the reply.
pub proof fn lemma_run_resumed<E>(
    state: RegisterState,
    script: Seq<Step>,
    cursor: int,
    replies: Seq<Result<u8, E>>,
    reply: Result<u8, E>,
)
    requires
        0 <= cursor,
        run_from(state, script, cursor, replies).status is Suspended,
    ensures
        ({
            let before = run_from(state, script, cursor, replies);
            let after = run_from(before.state, script, before.status->cursor, seq![reply]);
            let whole = run_from(state, script, cursor, replies.push(reply));
            &&& whole.state == after.state
            &&& whole.status == after.status
            &&& after.issued.len() >= 1
            &&& whole.issued == before.issued + after.issued.skip(1)
        }),
    decreases script.len() - cursor,
{
    let before = run_from(state, script, cursor, replies);
    let whole = run_from(state, script, cursor, replies.push(reply));
    if cursor >= script.len() {
    } else if !script[cursor].on_bus() {
        lemma_run_resumed(script[cursor].apply(state), script, cursor + 1, replies, reply);
    } else if replies.len() == 0 {
        assert(replies.push(reply) == seq![reply]);
        let after = run_from(state, script, cursor, seq![reply]);
        assert(whole == after);
        assert(before.issued == seq![script[cursor].transaction(state)]);
        assert(after.issued[0] == script[cursor].transaction(state));
        assert(whole.issued == before.issued + after.issued.skip(1));
    } else {
        assert(replies.push(reply)[0] == replies[0]);
        assert(replies.push(reply).skip(1) == replies.skip(1).push(reply));
        match replies[0] {
            Err(cause) => {},
            Ok(byte) => {
                let next = script[cursor].absorb(state, byte);
                lemma_run_resumed(next, script, cursor + 1, replies.skip(1), reply);
                let rest_before = run_from(next, script, cursor + 1, replies.skip(1));
                let after = run_from(rest_before.state, script, rest_before.status->cursor, seq![reply]);
                let rest_whole = run_from(next, script, cursor + 1, replies.skip(1).push(reply));
                let transaction = script[cursor].transaction(state);
                assert(whole.issued == seq![transaction] + rest_whole.issued);
                assert(before.issued == seq![transaction] + rest_before.issued);
                assert(seq![transaction] + (rest_before.issued + after.issued.skip(1)) == (
                seq![transaction] + rest_before.issued) + after.issued.skip(1));
            },
        }
    }
}

/// Whether `replies` are answers that `bus` can give to the transactions
/// `issued`, one for one.
pub open spec fn answered<E, B: FnMut(Transaction) -> Result<u8, E>>(
    bus: B,
    issued: Seq<Transaction>,
    replies: Seq<Result<u8, E>>,
) -> bool {
    &&& issued.len() == replies.len()
    &&& forall|i: int| 0 <= i < replies.len() ==> bus.ensures((issued[i],), #[trigger] replies[i])
}

/// Whether `replies` are answers that `bus` can give to the first
/// transactions of `issued`, one for one.
spec fn answered_so_far<E, B: FnMut(Transaction) -> Result<u8, E>>(
    bus: B,
    issued: Seq<Transaction>,
    replies: Seq<Result<u8, E>>,
) -> bool {
    forall|i: int|
        0 <= i < replies.len() ==> i < issued.len() && bus.ensures(
            (issued[i],),
            #[trigger] replies[i],
        )
}

/// Whether the run of `operation` on the mirror `before` with `replies`
/// finishes in the mirror `after` with `result`, the replies being answers
/// that `bus` can give to the transactions of the run, one for one.
pub open spec fn finishes_with<E, B: FnMut(Transaction) -> Result<u8, E>>(
    bus: B,
    before: RegisterState,
    operation: Operation,
    replies: Seq<Result<u8, E>>,
    after: RegisterState,
    result: Result<(), BusError<E>>,
) -> bool {
    let run = run(before, operation, replies);
    &&& run.status == Status::Finished(result)
    &&& run.state == after
    &&& answered(bus, run.issued, replies)
}

/// Whether carrying out `operation` on the mirror `before` with `bus` can end
/// in the mirror `after` with `result`: the bus can give replies with which
/// the run finishes so.
pub open spec fn carried_out<E, B: FnMut(Transaction) -> Result<u8, E>>(
    bus: B,
    before: RegisterState,
    operation: Operation,
    after: RegisterState,
    result: Result<(), BusError<E>>,
) -> bool {
    exists|replies: Seq<Result<u8, E>>|
        finishes_with(bus, before, operation, replies, after, result)
}

/// The mirror after the bus has answered a read of the input register of
/// `bank` with `reply`: the byte that was read is in the cache, or, if the
/// read failed, nothing has changed.
pub open spec fn refreshed<E>(before: RegisterState, bank: Bank, reply: Result<u8, E>)
    -> RegisterState {
    match reply {
        Ok(byte) => before.with_input(bank, byte),
        Err(_) => before,
    }
}

/// The result of a transaction to which the bus has given `reply`: success
/// whatever byte came back, or the transport's error.
pub open spec fn result_of<E>(reply: Result<u8, E>) -> Result<(), BusError<E>> {
    match reply {
        Ok(_) => Ok(()),
        Err(cause) => Err(BusError { cause }),
    }
}

impl PCA9539 {
    /// Runs `operation` from position `cursor` of its script up to the next
    /// transaction or to the end.
    fn proceed<E>(&mut self, operation: Operation, cursor: usize) -> (progress: Progress<E>)
        ensures
            ({
                let run = run_from::<E>(old(self)@, operation.script(), cursor as int, Seq::empty());
                &&& final(self)@ == run.state
                &&& reports(progress, operation, run)
            }),
            final(self).device_address() == old(self).device_address(),
    {
        let ghost script = operation.script();
        let ghost initial = self@;
        let mut at: usize = cursor;
        loop
            invariant
                script == operation.script(),
                initial == old(self)@,
                cursor <= at,
                at <= script.len() || at == cursor,
                run_from::<E>(initial, script, cursor as int, Seq::empty()) == run_from::<E>(
                    self@,
                    script,
                    at as int,
                    Seq::empty(),
                ),
                self.device_address() == old(self).device_address(),
            decreases script.len() - at,
        {
            match operation.step_at(at) {
                None => {
                    return Progress::Done(Ok(()));
                },
                Some(step) => {
                    match step {
                        Step::SetMode { bank, id, mode } => {
                            self.set_mode(bank, id, mode);
                        },
                        Step::SetState { bank, id, high } => {
                            self.set_state(bank, id, high);
                        },
                        Step::SetPolarity { bank, id, invert } => {
                            self.set_polarity(bank, id, invert);
                        },
                        Step::Write { register, bank } => {
                            let value: u8 = self.register_byte(register, bank);
                            return Progress::Transfer {
                                transaction: Transaction::Write { register, bank, value },
                                pending: Pending { operation, cursor: at },
                            };
                        },
                        Step::Refresh { bank } => {
                            return Progress::Transfer {
                                transaction: Transaction::Read { register: Register::Input, bank },
                                pending: Pending { operation, cursor: at },
                            };
                        },
                    }
                    at = at + 1;
                },
            }
        }
    }

    /// Begins `operation`: changes the mirror as the script says up to the
    /// first transaction, and reports that transaction, or the end if the
    /// operation needs none.
    pub fn start<E>(&mut self, operation: Operation) -> (progress: Progress<E>)
        ensures
            ({
                let run = run::<E>(old(self)@, operation, Seq::empty());
                &&& final(self)@ == run.state
                &&& reports(progress, operation, run)
            }),
            final(self).device_address() == old(self).device_address(),
    {
        self.proceed(operation, 0)
    }

    /// Goes on with the operation that `pending` stands for, now that the
    /// bus has answered its transaction with `reply`: `Ok` with the byte
    /// that was read (any byte after a write), or `Err` with the
    /// transport's error.
    ///
    /// On `Err` the operation is over with that error and the mirror is left
    /// as it is. On `Ok` a refresh stores the byte in the input cache, and
    /// the script runs on to its next transaction or to its end.
    pub fn resume<E>(&mut self, pending: Pending, reply: Result<u8, E>) -> (progress: Progress<E>)
        ensures
            ({
                let run = run_from(
                    old(self)@,
                    pending.operation().script(),
                    pending.cursor(),
                    seq![reply],
                );
                &&& final(self)@ == run.state
                &&& reports(progress, pending.operation(), run)
            }),
            final(self).device_address() == old(self).device_address(),
    {
        proof {
            use_type_invariant(&pending);
        }
        let Pending { operation, cursor } = pending;
        let ghost script = operation.script();
        assert(seq![reply][0] == reply);
        match reply {
            Err(cause) => Progress::Done(Err(BusError { cause })),
            Ok(byte) => {
                assert(seq![reply].skip(1) == Seq::<Result<u8, E>>::empty());
                match operation.step_at(cursor) {
                    Some(Step::Refresh { bank }) => {
                        self.store_input(bank, byte);
                    },
                    _ => {},
                }
                proof {
                    if run_from::<E>(self@, script, cursor + 1, Seq::empty()).status is Suspended {
                        lemma_suspended_run::<E>(self@, script, cursor + 1, Seq::empty());
                    }
                }
                self.proceed(operation, cursor + 1)
            },
        }
    }

    /// Carries out `operation` to its end, performing each transaction by a
    /// call of `bus`. `bus` returns `Ok` with the byte that was read (any
    /// byte after a write), or `Err` with the transport's error.
    ///
    /// The operation ends with the first transaction that fails, or when its
    /// script is done.
    pub fn execute<E, B: FnMut(Transaction) -> Result<u8, E>>(
        &mut self,
        operation: Operation,
        mut bus: B,
    ) -> (result: Result<(), BusError<E>>)
        requires
            forall|transaction: Transaction| bus.requires((transaction,)),
        ensures
            carried_out(bus, old(self)@, operation, final(self)@, result),
            final(self).device_address() == old(self).device_address(),
    {
        let ghost initial = self@;
        let ghost address = self.device_address();
        let ghost given = bus;
        let ghost script = operation.script();
        let ghost mut replies: Seq<Result<u8, E>> = Seq::empty();
        let mut progress: Progress<E> = self.start(operation);
        proof {
            if run_from(initial, script, 0, replies).status is Finished {
                lemma_finished_run(initial, script, 0, replies);
            }
        }
        loop
            invariant
                script == operation.script(),
                bus == given,
                forall|transaction: Transaction| bus.requires((transaction,)),
                self@ == run_from(initial, script, 0, replies).state,
                self.device_address() == address,
                reports(progress, operation, run_from(initial, script, 0, replies)),
                answered_so_far(bus, run_from(initial, script, 0, replies).issued, replies),
                run_from(initial, script, 0, replies).status is Finished ==> run_from(
                    initial,
                    script,
                    0,
                    replies,
                ).issued.len() == replies.len(),
            ensures
                progress is Done,
            decreases
                    (match run_from(initial, script, 0, replies).status {
                        Status::Suspended { cursor } => script.len() - cursor,
                        Status::Finished(_) => 0,
                    }),
        {
            let ghost before = run_from(initial, script, 0, replies);
            match progress {
                Progress::Done(_) => {
                    break ;
                },
                Progress::Transfer { transaction, pending } => {
                    let reply = bus(transaction);
                    progress = self.resume(pending, reply);
                    proof {
                        lemma_suspended_run(initial, script, 0, replies);
                        lemma_run_resumed(initial, script, 0, replies, reply);
                        let at = before.status->cursor;
                        let after = run_from(before.state, script, at, seq![reply]);
                        let whole = run_from(initial, script, 0, replies.push(reply));
                        if after.status is Suspended {
                            lemma_suspended_run(before.state, script, at, seq![reply]);
                        } else {
                            lemma_finished_run(before.state, script, at, seq![reply]);
                        }
                        assert forall|i: int| 0 <= i < replies.push(reply).len() implies i
                            < whole.issued.len() && bus.ensures(
                            (whole.issued[i],),
                            #[trigger] replies.push(reply)[i],
                        ) by {
                            if i < replies.len() {
                                assert(whole.issued[i] == before.issued[i]);
                                assert(replies.push(reply)[i] == replies[i]);
                            } else {
                                assert(whole.issued[i] == before.issued.last());
                            }
                        }
                        replies = replies.push(reply);
                    }
                },
            }
        }
        proof {
            assert(run(initial, operation, replies) == run_from(initial, script, 0, replies));
            assert(finishes_with(bus, initial, operation, replies, self@, progress->Done_0));
        }
        match progress {
            Progress::Done(result) => result,
            Progress::Transfer { .. } => unreached(),
        }
    }

    /// Writes the mirrored output byte of `bank` to the chip, in one
    /// transaction. All output bits of the bank that were set in the mirror
    /// since the last write reach the chip together. The mirror is not
    /// changed, whether the write succeeds or fails.
    pub fn write_output_state<E, B: FnMut(Transaction) -> Result<u8, E>>(
        &mut self,
        bank: Bank,
        bus: B,
    ) -> (result: Result<(), BusError<E>>)
        requires
            forall|transaction: Transaction| bus.requires((transaction,)),
        ensures
            exists|reply: Result<u8, E>|
                {
                    &&& #[trigger] bus.ensures(
                        (
                            Transaction::Write {
                                register: Register::Output,
                                bank,
                                value: old(self)@.output.byte(bank),
                            },
                        ),
                        reply,
                    )
                    &&& result == result_of(reply)
                },
            final(self)@ == old(self)@,
            final(self).device_address() == old(self).device_address(),
    {
        let operation = Operation::WriteOutput { bank };
        let result = self.execute(operation, bus);
        proof {
            reveal_with_fuel(run_from, 3);
            let replies = choose|replies: Seq<Result<u8, E>>|
                finishes_with(bus, old(self)@, operation, replies, self@, result);
            assert(bus.ensures(
                (
                    Transaction::Write {
                        register: Register::Output,
                        bank,
                        value: old(self)@.output.byte(bank),
                    },
                ),
                replies[0],
            ));
        }
        result
    }

    /// Reads the input register of `bank` from the chip, in one transaction,
    /// and replaces the cached input byte of the bank by what was read. If
    /// the read fails the cache is left as it is.
    pub fn refresh_input_state<E, B: FnMut(Transaction) -> Result<u8, E>>(
        &mut self,
        bank: Bank,
        bus: B,
    ) -> (result: Result<(), BusError<E>>)
        requires
            forall|transaction: Transaction| bus.requires((transaction,)),
        ensures
            exists|reply: Result<u8, E>|
                {
                    &&& #[trigger] bus.ensures(
                        (Transaction::Read { register: Register::Input, bank },),
                        reply,
                    )
                    &&& result == result_of(reply)
                    &&& final(self)@ == refreshed(old(self)@, bank, reply)
                },
            final(self).device_address() == old(self).device_address(),
    {
        let operation = Operation::RefreshInput { bank };
        let result = self.execute(operation, bus);
        proof {
            reveal_with_fuel(run_from, 3);
            let replies = choose|replies: Seq<Result<u8, E>>|
                finishes_with(bus, old(self)@, operation, replies, self@, result);
            assert(bus.ensures(
                (Transaction::Read { register: Register::Input, bank },),
                replies[0],
            ));
        }
        result
    }

    /// Sets the polarity bit of pin `id` of `bank` in the mirror and writes
    /// the polarity register of the bank to the chip, in one transaction.
    /// The mirror keeps the new bit whether the write succeeds or fails.
    pub fn reverse_polarity<E, B: FnMut(Transaction) -> Result<u8, E>>(
        &mut self,
        bank: Bank,
        id: PinID,
        invert: bool,
        bus: B,
    ) -> (result: Result<(), BusError<E>>)
        requires
            forall|transaction: Transaction| bus.requires((transaction,)),
        ensures
            exists|reply: Result<u8, E>|
                {
                    &&& #[trigger] bus.ensures(
                        (
                            Transaction::Write {
                                register: Register::Polarity,
                                bank,
                                value: final(self)@.polarity_invert.byte(bank),
                            },
                        ),
                        reply,
                    )
                    &&& result == result_of(reply)
                },
            final(self)@ == old(self)@.with_polarity(bank, id, invert),
            final(self).device_address() == old(self).device_address(),
    {
        let operation = Operation::InvertPolarity { bank, id, invert };
        let result = self.execute(operation, bus);
        proof {
            reveal_with_fuel(run_from, 4);
            let replies = choose|replies: Seq<Result<u8, E>>|
                finishes_with(bus, old(self)@, operation, replies, self@, result);
            assert(bus.ensures(
                (
                    Transaction::Write {
                        register: Register::Polarity,
                        bank,
                        value: self@.polarity_invert.byte(bank),
                    },
                ),
                replies[0],
            ));
        }
        result
    }
}

/// Writing the outputs of one bank asks for one transaction, the write of
/// that bank's mirrored output byte, whatever the bus replies. No register
/// of the other bank is written, and the mirror is not changed.
pub proof fn lemma_update_bank_writes_one_bank<E>(
    state: RegisterState,
    bank: Bank,
    replies: Seq<Result<u8, E>>,
)
    ensures
        ({
            let run = run(state, Operation::WriteOutput { bank }, replies);
            &&& run.state == state
            &&& run.issued == seq![
                Transaction::Write {
                    register: Register::Output,
                    bank,
                    value: state.output.byte(bank),
                },
            ]
            &&& run.status == (if replies.len() == 0 {
                Status::Suspended { cursor: 0 }
            } else {
                Status::Finished(result_of(replies[0]))
            })
        }),
{
    reveal_with_fuel(run_from, 3);
    let write = Transaction::Write {
        register: Register::Output,
        bank,
        value: state.output.byte(bank),
    };
    assert(seq![write] + Seq::<Transaction>::empty() == seq![write]);
}

/// Refreshing the inputs of one bank asks for one transaction, the read of
/// that bank's input register. A byte that comes back replaces the cached
/// byte of the bank; a failure leaves the cache as it was.
pub proof fn lemma_refresh_bank_reads_one_bank<E>(
    state: RegisterState,
    bank: Bank,
    replies: Seq<Result<u8, E>>,
)
    ensures
        ({
            let run = run(state, Operation::RefreshInput { bank }, replies);
            &&& run.issued == seq![Transaction::Read { register: Register::Input, bank }]
            &&& replies.len() == 0 ==> run.state == state && run.status == (Status::<
                E,
            >::Suspended { cursor: 0 })
            &&& replies.len() > 0 ==> run.state == refreshed(state, bank, replies[0])
                && run.status == Status::Finished(result_of(replies[0]))
        }),
{
    reveal_with_fuel(run_from, 3);
    let read = Transaction::Read { register: Register::Input, bank };
    assert(seq![read] + Seq::<Transaction>::empty() == seq![read]);
}

/// Refreshing both banks at once is the same as refreshing bank 0 and then,
/// if that succeeded, bank 1: the cache, the result and the transactions are
/// the same. If the read of bank 0 fails, bank 1 is not read.
pub proof fn lemma_refresh_all_is_sequential<E>(
    state: RegisterState,
    first: Result<u8, E>,
    second: Result<u8, E>,
)
    ensures
        ({
            let both = run(state, Operation::RefreshAll, seq![first, second]);
            let bank0 = run(state, Operation::RefreshInput { bank: Bank::Bank0 }, seq![first]);
            let bank1 = run(
                bank0.state,
                Operation::RefreshInput { bank: Bank::Bank1 },
                seq![second],
            );
            if first is Ok {
                &&& both.state == bank1.state
                &&& both.status == bank1.status
                &&& both.issued == bank0.issued + bank1.issued
            } else {
                &&& both.state == bank0.state
                &&& both.status == bank0.status
                &&& both.issued == bank0.issued
            }
        }),
{
    reveal_with_fuel(run_from, 4);
    let replies = seq![first, second];
    assert(replies.skip(1) == seq![second]);
    assert(seq![second].skip(1) == Seq::<Result<u8, E>>::empty());
    assert(seq![first].skip(1) == Seq::<Result<u8, E>>::empty());
    let read0 = Transaction::Read { register: Register::Input, bank: Bank::Bank0 };
    let read1 = Transaction::Read { register: Register::Input, bank: Bank::Bank1 };
    assert(seq![read0] + Seq::<Transaction>::empty() == seq![read0]);
    assert(seq![read1] + Seq::<Transaction>::empty() == seq![read1]);
}

/// Writing the outputs of both banks at once is the same as writing bank 0
/// and then, if that succeeded, bank 1. If the write of bank 0 fails, bank 1
/// is not written.
pub proof fn lemma_update_all_is_sequential<E>(
    state: RegisterState,
    first: Result<u8, E>,
    second: Result<u8, E>,
)
    ensures
        ({
            let both = run(state, Operation::UpdateAll, seq![first, second]);
            let bank0 = run(state, Operation::WriteOutput { bank: Bank::Bank0 }, seq![first]);
            let bank1 = run(state, Operation::WriteOutput { bank: Bank::Bank1 }, seq![second]);
            &&& both.state == state
            &&& if first is Ok {
                &&& both.status == bank1.status
                &&& both.issued == bank0.issued + bank1.issued
            } else {
                &&& both.status == bank0.status
                &&& both.issued == bank0.issued
            }
        }),
{
    reveal_with_fuel(run_from, 4);
    let replies = seq![first, second];
    assert(replies.skip(1) == seq![second]);
    assert(seq![second].skip(1) == Seq::<Result<u8, E>>::empty());
    assert(seq![first].skip(1) == Seq::<Result<u8, E>>::empty());
    let write0 = Transaction::Write {
        register: Register::Output,
        bank: Bank::Bank0,
        value: state.output.byte(Bank::Bank0),
    };
    let write1 = Transaction::Write {
        register: Register::Output,
        bank: Bank::Bank1,
        value: state.output.byte(Bank::Bank1),
    };
    assert(seq![write0] + Seq::<Transaction>::empty() == seq![write0]);
    assert(seq![write1] + Seq::<Transaction>::empty() == seq![write1]);
}

/// Setting an output in regular access mode changes the output bit in the
/// mirror and asks for one transaction, the write of the bank's output byte
/// with the new bit in it. The mirror keeps the bit if the write fails.
pub proof fn lemma_set_output<E>(
    state: RegisterState,
    bank: Bank,
    id: PinID,
    high: bool,
    reply: Result<u8, E>,
)
    ensures
        ({
            let run = run(state, Operation::SetOutput { bank, id, high }, seq![reply]);
            let set = state.with_output(bank, id, high);
            &&& run.state == set
            &&& run.status == Status::Finished(result_of(reply))
            &&& run.issued == seq![
                Transaction::Write {
                    register: Register::Output,
                    bank,
                    value: set.output.byte(bank),
                },
            ]
        }),
{
    reveal_with_fuel(run_from, 4);
    let set = state.with_output(bank, id, high);
    let write = Transaction::Write { register: Register::Output, bank, value: set.output.byte(bank) };
    assert(seq![write] + Seq::<Transaction>::empty() == seq![write]);
}

/// A change of direction sets the direction bit in the mirror and asks for
/// one transaction, the write of the bank's direction byte with the new bit
/// in it. The mirror keeps the bit if the write fails.
pub proof fn lemma_change_mode<E>(
    state: RegisterState,
    bank: Bank,
    id: PinID,
    mode: Mode,
    reply: Result<u8, E>,
)
    ensures
        ({
            let run = run(state, Operation::ChangeMode { bank, id, mode }, seq![reply]);
            let turned = state.with_mode(bank, id, mode);
            &&& run.state == turned
            &&& run.status == Status::Finished(result_of(reply))
            &&& run.issued == seq![
                Transaction::Write {
                    register: Register::Direction,
                    bank,
                    value: turned.direction.byte(bank),
                },
            ]
        }),
{
    reveal_with_fuel(run_from, 4);
    let turned = state.with_mode(bank, id, mode);
    let write = Transaction::Write {
        register: Register::Direction,
        bank,
        value: turned.direction.byte(bank),
    };
    assert(seq![write] + Seq::<Transaction>::empty() == seq![write]);
}

/// Making a pin an output first writes the direction byte with the pin's
/// bit cleared. If that write fails the operation is over with its error:
/// the mirror has the new direction, and the output bit is as it was. If it
/// succeeds the output bit is set in the mirror; with `flush` the output
/// byte is then written too and the result is that of the second write,
/// without `flush` nothing more is sent and the operation has succeeded.
pub proof fn lemma_into_output<E>(
    state: RegisterState,
    bank: Bank,
    id: PinID,
    high: bool,
    flush: bool,
    direction_reply: Result<u8, E>,
    output_reply: Result<u8, E>,
)
    ensures
        ({
            let run = run(
                state,
                Operation::IntoOutput { bank, id, high, flush },
                seq![direction_reply, output_reply],
            );
            let turned = state.with_mode(bank, id, Mode::Output);
            let set = turned.with_output(bank, id, high);
            let direction_write = Transaction::Write {
                register: Register::Direction,
                bank,
                value: turned.direction.byte(bank),
            };
            let output_write = Transaction::Write {
                register: Register::Output,
                bank,
                value: set.output.byte(bank),
            };
            if direction_reply is Err {
                &&& run.state == turned
                &&& run.status == Status::Finished(result_of(direction_reply))
                &&& run.issued == seq![direction_write]
            } else if flush {
                &&& run.state == set
                &&& run.status == Status::Finished(result_of(output_reply))
                &&& run.issued == seq![direction_write, output_write]
            } else {
                &&& run.state == set
                &&& run.status == Status::<E>::Finished(Ok(()))
                &&& run.issued == seq![direction_write]
            }
        }),
{
    reveal_with_fuel(run_from, 6);
    let replies = seq![direction_reply, output_reply];
    assert(replies.skip(1) == seq![output_reply]);
    assert(seq![output_reply].skip(1) == Seq::<Result<u8, E>>::empty());
    let turned = state.with_mode(bank, id, Mode::Output);
    let set = turned.with_output(bank, id, high);
    let direction_write = Transaction::Write {
        register: Register::Direction,
        bank,
        value: turned.direction.byte(bank),
    };
    let output_write = Transaction::Write {
        register: Register::Output,
        bank,
        value: set.output.byte(bank),
    };
    assert(seq![direction_write] + Seq::<Transaction>::empty() == seq![direction_write]);
    assert(seq![output_write] + Seq::<Transaction>::empty() == seq![output_write]);
    assert(seq![direction_write] + seq![output_write] == seq![direction_write, output_write]);
}

/// Whether `transaction` writes a direction register.
pub open spec fn writes_direction(transaction: Transaction) -> bool {
    transaction matches Transaction::Write { register, .. } && register is Direction
}

/// A change of direction, to input or to output, writes a direction register
/// exactly once, as its first transaction, whatever the bus replies; and it
/// is the direction register of the pin's own bank.
pub proof fn lemma_transition_writes_direction_once<E>(
    state: RegisterState,
    operation: Operation,
    replies: Seq<Result<u8, E>>,
)
    requires
        operation is ChangeMode || operation is IntoOutput,
    ensures
        ({
            let run = run(state, operation, replies);
            let bank = match operation {
                Operation::ChangeMode { bank, .. } => bank,
                Operation::IntoOutput { bank, .. } => bank,
                _ => arbitrary(),
            };
            &&& run.issued.len() >= 1
            &&& run.issued[0] matches Transaction::Write { register, bank: written_bank, .. }
            &&& register is Direction
            &&& written_bank == bank
            &&& forall|i: int| 1 <= i < run.issued.len() ==> !writes_direction(#[trigger] run.issued[i])
        }),
{
    reveal_with_fuel(run_from, 6);
    let run = run(state, operation, replies);
    if replies.len() > 0 && replies[0] is Ok {
        if replies.skip(1).len() > 0 {
            assert(replies.skip(1)[0] == replies[1]);
        }
    }
}

} // verus!

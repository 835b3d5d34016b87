//! Guards: shared access to the one engine of a chip.
//!
//! Pins hold no reference to the engine, so whoever works with several pins
//! has to hand the same engine to each of them. A guard is made for one chip:
//! it keeps the chip's address and the mirror of its registers, and lends
//! them out as an engine for the length of one call of [`RefGuard::access`],
//! to one caller at a time. What happens inside one such call is not
//! interleaved with any other; between two calls anything may have happened
//! to the registers. Waiting callers are served in no particular order.
//!
//! * [`LockFreeGuard`] does not synchronise at all. It can be shared within
//!   one thread of execution only.
//! * [`SpinGuard`] keeps the registers behind a spin lock and can be shared
//!   between threads and cores. A caller waits, busy, for as long as another
//!   one is inside `access`; a call of `access` on the same guard from inside
//!   `access` never returns.

use crate::expander::{RegisterState, PCA9539};
use vstd::cell::invcell::InvCell;
use vstd::predicate::Predicate;
use vstd::prelude::*;

verus! {

/// Lends the engine of one chip to one caller at a time.
pub trait RefGuard {
    /// The I2C address of the chip that the guard is for.
    spec fn chip(&self) -> u8;

    /// Calls `f` once with exclusive access to the engine of the guard's
    /// chip and returns what `f` returned. When the call is over the engine
    /// is free again, with the registers as `f` left them.
    ///
    /// The guard may be shared, so nothing is known of the registers that
    /// `f` finds. The address of the engine is that of the guard's chip, in
    /// every call: the guard keeps the registers that `f` leaves, not an
    /// address.
    fn access<F, R>(&self, f: F) -> (result: R) where F: FnMut(&mut PCA9539) -> R
        requires
            forall|expander: &mut PCA9539|
                expander.device_address() == self.chip() ==> #[trigger] f.requires((expander,)),
        ensures
            exists|expander: &mut PCA9539|
                expander.device_address() == self.chip() && #[trigger] f.ensures(
                    (expander,),
                    result,
                ),
    ;
}

/// The condition on the registers that a guard keeps: none. Every value of
/// the registers is a state the chip can be in.
pub struct AnyState {}

impl Predicate<RegisterState> for AnyState {
    open spec fn predicate(&self, registers: RegisterState) -> bool {
        true
    }
}

/// The guard without synchronisation: the cheapest one, for use where the
/// pins are never touched from two contexts at once.
pub struct LockFreeGuard {
    address: u8,
    registers: InvCell<RegisterState, AnyState>,
}

impl LockFreeGuard {
    /// A guard for the chip of `expander`, which starts with the registers
    /// of `expander`.
    pub fn new(expander: PCA9539) -> (guard: Self)
        ensures
            guard.chip() == expander.device_address(),
    {
        LockFreeGuard {
            address: expander.address(),
            registers: InvCell::new(expander.registers(), Ghost(AnyState {  })),
        }
    }
}

impl RefGuard for LockFreeGuard {
    closed spec fn chip(&self) -> u8 {
        self.address
    }

    fn access<F, R>(&self, f: F) -> (result: R) where F: FnMut(&mut PCA9539) -> R {
        let mut f = f;
        let mut expander = PCA9539::with_registers(self.address, self.registers.get());
        let result = f(&mut expander);
        self.registers.set(expander.registers());
        result
    }
}

/// `spin::mutex::Mutex`: a lock around a value of type `T` that waits by
/// spinning in the way `R` says. Nothing of what it holds is visible.
#[verifier::external_type_specification]
#[verifier::external_body]
#[verifier::reject_recursive_types(T)]
#[verifier::reject_recursive_types(R)]
pub struct ExSpinMutex<T: ?Sized, R>(spin::mutex::Mutex<T, R>);

/// `spin::mutex::MutexGuard`: a held `spin::mutex::Mutex`. The lock is given
/// back when the value is dropped.
#[verifier::external_type_specification]
#[verifier::external_body]
#[verifier::reject_recursive_types(T)]
pub struct ExSpinMutexGuard<'a, T: 'a + ?Sized>(spin::mutex::MutexGuard<'a, T>);

/// `spin::relax::Spin`: waiting by spinning in place, the way of waiting that
/// a `spin::mutex::Mutex` has unless another is named.
#[verifier::external_type_specification]
#[verifier::external_body]
pub struct ExSpin(spin::relax::Spin);

/// `spin::mutex::Mutex::new`: a spin lock, not held, around `registers`.
/// Nothing is claimed of the result: what a lock holds cannot be seen from
/// outside it.
#[verifier::external_body]
fn locked(registers: RegisterState) -> (lock: spin::mutex::Mutex<RegisterState, spin::relax::Spin>) {
    spin::mutex::Mutex::new(registers)
}

/// `spin::mutex::Mutex::lock`: waits, busy, until the lock is not held,
/// takes it, and returns the guard that holds it. The lock is given back
/// when the guard goes out of scope. Nothing is claimed of the result. The
/// call does not return while the lock is held, so not at all where the
/// caller holds it itself.
#[verifier::external_body]
fn acquire<'a>(lock: &'a spin::mutex::Mutex<RegisterState, spin::relax::Spin>) -> (held:
    spin::mutex::MutexGuard<'a, RegisterState>) {
    lock.lock()
}

/// `DerefMut::deref_mut` of `spin::mutex::MutexGuard`: the registers behind
/// the lock that `held` holds. Nothing is claimed of their value: other
/// holders of the lock may have left any.
#[verifier::external_body]
fn expose<'a, 'b>(held: &'b mut spin::mutex::MutexGuard<'a, RegisterState>) -> (registers:
    &'b mut RegisterState) {
    &mut **held
}

/// The guard with a spin lock, for pins that are shared between threads or
/// cores.
pub struct SpinGuard {
    address: u8,
    registers: spin::mutex::Mutex<RegisterState, spin::relax::Spin>,
}

impl SpinGuard {
    /// A guard for the chip of `expander`, which starts with the registers
    /// of `expander`.
    pub fn new(expander: PCA9539) -> (guard: Self)
        ensures
            guard.chip() == expander.device_address(),
    {
        SpinGuard { address: expander.address(), registers: locked(expander.registers()) }
    }
}

impl RefGuard for SpinGuard {
    closed spec fn chip(&self) -> u8 {
        self.address
    }

    fn access<F, R>(&self, f: F) -> (result: R) where F: FnMut(&mut PCA9539) -> R {
        let mut f = f;
        let mut held = acquire(&self.registers);
        let registers = expose(&mut held);
        let mut expander = PCA9539::with_registers(self.address, *registers);
        let result = f(&mut expander);
        *registers = expander.registers();
        result
    }
}

} // verus!

//! Which floating-point exceptions trap on an activated thread.
//!
//! Activation unmasks exactly two hardware exception classes: divide by zero
//! and invalid operation. Everything else (overflow, underflow, precision
//! loss) stays masked and keeps its default IEEE 754 behavior, trapping
//! never. A thread that has not activated traps on nothing.

use crate::activation::{activate_model, ActivationState};
use vstd::prelude::*;

verus! {

/// The IEEE 754 exception classes the hardware can raise.
#[derive(Clone, Copy, Debug, PartialEq, Eq, Structural)]
pub enum FpException {
    DivideByZero,
    InvalidOperation,
    Overflow,
    Underflow,
    Inexact,
}

/// The set of exceptions activation unmasks: exactly divide by zero and
/// invalid operation.
pub open spec fn unmasked(e: FpException) -> bool {
    e == FpException::DivideByZero || e == FpException::InvalidOperation
}

/// A thread traps on an exception exactly when the thread has activated and
/// the exception is in the unmasked set.
pub open spec fn spec_traps(thread: ActivationState, e: FpException) -> bool {
    thread == ActivationState::Active && unmasked(e)
}

/// Whether a thread in state `thread` traps when an operation raises
/// exception `e`.
pub fn traps(thread: ActivationState, e: FpException) -> (r: bool)
    ensures
        r == spec_traps(thread, e),
{
    matches!(thread, ActivationState::Active) && (matches!(e, FpException::DivideByZero)
        || matches!(e, FpException::InvalidOperation))
}

/// The floating-point operations whose trap behavior this subsystem
/// promises, by the shape of their operands.
#[derive(Clone, Copy, Debug, PartialEq, Eq, Structural)]
pub enum FpOperation {
    /// `x / 0.0` for finite nonzero `x`.
    FiniteDivZero,
    /// `0.0 / 0.0`.
    ZeroDivZero,
    /// `Infinity / Infinity`.
    InfDivInf,
    /// `x % 0.0` for finite `x`.
    FiniteModZero,
    /// `Infinity % y`.
    InfMod,
    /// `0.0 * Infinity`.
    ZeroTimesInf,
    /// `sqrt(x)` for negative `x`.
    SqrtNegative,
    /// `Infinity - Infinity`.
    InfMinusInf,
    /// `Infinity + Infinity`: exact, raises no exception.
    InfPlusInf,
    /// Ordinary finite arithmetic with a finite, exactly representable
    /// result.
    FiniteArithmetic,
    /// `sqrt(x)` for nonnegative `x`.
    SqrtNonNegative,
}

/// The exception each operation raises, or `None` when it raises none that
/// this subsystem distinguishes. Division of a finite nonzero value by zero
/// is the one divide-by-zero case; the indeterminate forms and the negative
/// square root are invalid operations; adding infinities is exact.
pub open spec fn raised_exception(op: FpOperation) -> Option<FpException> {
    match op {
        FpOperation::FiniteDivZero => Option::Some(FpException::DivideByZero),
        FpOperation::ZeroDivZero => Option::Some(FpException::InvalidOperation),
        FpOperation::InfDivInf => Option::Some(FpException::InvalidOperation),
        FpOperation::FiniteModZero => Option::Some(FpException::InvalidOperation),
        FpOperation::InfMod => Option::Some(FpException::InvalidOperation),
        FpOperation::ZeroTimesInf => Option::Some(FpException::InvalidOperation),
        FpOperation::SqrtNegative => Option::Some(FpException::InvalidOperation),
        FpOperation::InfMinusInf => Option::Some(FpException::InvalidOperation),
        FpOperation::InfPlusInf => Option::None,
        FpOperation::FiniteArithmetic => Option::None,
        FpOperation::SqrtNonNegative => Option::None,
    }
}

/// Whether performing `op` on a thread in state `thread` traps.
pub open spec fn spec_operation_traps(thread: ActivationState, op: FpOperation) -> bool {
    match raised_exception(op) {
        Option::Some(e) => spec_traps(thread, e),
        Option::None => false,
    }
}

/// Whether performing `op` on a thread in state `thread` terminates the
/// process: only on an activated thread, and only for the divide-by-zero and
/// invalid-operation families.
pub fn operation_traps(thread: ActivationState, op: FpOperation) -> (r: bool)
    ensures
        r == spec_operation_traps(thread, op),
{
    match op {
        FpOperation::FiniteDivZero => traps(thread, FpException::DivideByZero),
        FpOperation::ZeroDivZero => traps(thread, FpException::InvalidOperation),
        FpOperation::InfDivInf => traps(thread, FpException::InvalidOperation),
        FpOperation::FiniteModZero => traps(thread, FpException::InvalidOperation),
        FpOperation::InfMod => traps(thread, FpException::InvalidOperation),
        FpOperation::ZeroTimesInf => traps(thread, FpException::InvalidOperation),
        FpOperation::SqrtNegative => traps(thread, FpException::InvalidOperation),
        FpOperation::InfMinusInf => traps(thread, FpException::InvalidOperation),
        FpOperation::InfPlusInf => false,
        FpOperation::FiniteArithmetic => false,
        FpOperation::SqrtNonNegative => false,
    }
}

/// Activation alone controls trapping, and only for the unmasked set: an
/// activated thread traps on divide-by-zero and invalid-operation, anything
/// it traps on is unmasked, and a thread that never activated traps on
/// nothing and keeps the default IEEE 754 results.
pub proof fn lemma_activation_controls_trapping(e: FpException)
    ensures
        spec_traps(ActivationState::Active, FpException::DivideByZero),
        spec_traps(ActivationState::Active, FpException::InvalidOperation),
        spec_traps(ActivationState::Active, e) ==> unmasked(e),
        !spec_traps(ActivationState::Uninitialized, e),
{
}

/// Trapping on a thread, in the whole-process picture: the thread must have
/// activated and the exception must be unmasked.
pub open spec fn model_traps(threads: Map<int, bool>, t: int, e: FpException) -> bool {
    threads.dom().contains(t) && threads[t] && unmasked(e)
}

/// After `activate` succeeds on a thread, divide-by-zero and
/// invalid-operation computations on that thread trap; on a thread that
/// never activated, no computation traps and execution continues with the
/// default IEEE 754 results.
pub proof fn lemma_trapping_after_activation(threads: Map<int, bool>, t: int)
    ensures
        model_traps(activate_model(threads, t), t, FpException::DivideByZero),
        model_traps(activate_model(threads, t), t, FpException::InvalidOperation),
        !threads.dom().contains(t) ==> forall|e: FpException| !#[trigger] model_traps(threads, t, e),
{
}

/// Activating thread `a` changes nothing about whether thread `b` traps.
pub proof fn lemma_trapping_thread_local(threads: Map<int, bool>, a: int, b: int, e: FpException)
    requires
        a != b,
    ensures
        model_traps(activate_model(threads, a), b, e) == model_traps(threads, b, e),
{
}

/// Narrow exception scope: adding infinities never traps, on any thread,
/// while each operation of the divide-by-zero and invalid-operation families
/// traps on an activated thread.
pub proof fn lemma_narrow_exception_scope()
    ensures
        forall|t: ActivationState| !#[trigger] spec_operation_traps(t, FpOperation::InfPlusInf),
        spec_operation_traps(ActivationState::Active, FpOperation::FiniteDivZero),
        spec_operation_traps(ActivationState::Active, FpOperation::ZeroDivZero),
        spec_operation_traps(ActivationState::Active, FpOperation::InfDivInf),
        spec_operation_traps(ActivationState::Active, FpOperation::FiniteModZero),
        spec_operation_traps(ActivationState::Active, FpOperation::InfMod),
        spec_operation_traps(ActivationState::Active, FpOperation::ZeroTimesInf),
        spec_operation_traps(ActivationState::Active, FpOperation::SqrtNegative),
        spec_operation_traps(ActivationState::Active, FpOperation::InfMinusInf),
{
}

} // verus!

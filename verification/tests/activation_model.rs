//! The activation state machine and the trap matrix, on concrete values.

use batman::activation::{
    complete_activation, plan_activation, ActivationError, ActivationPlan, ActivationState,
    HandlerInstallation,
};
use batman::traps::{operation_traps, traps, FpException, FpOperation};

#[test]
fn first_activation_installs_and_configures() {
    let mut thread = ActivationState::Uninitialized;
    let mut process = HandlerInstallation::NotInstalled;
    let plan = plan_activation(thread, process);
    assert_eq!(plan, ActivationPlan::InstallAndConfigure);
    let r = complete_activation(&mut thread, &mut process, plan, Ok(()));
    assert!(r.is_ok());
    assert_eq!(thread, ActivationState::Active);
    assert_eq!(process, HandlerInstallation::Installed);
}

#[test]
fn second_activation_on_same_thread_is_noop() {
    let mut thread = ActivationState::Uninitialized;
    let mut process = HandlerInstallation::NotInstalled;
    let plan = plan_activation(thread, process);
    let r = complete_activation(&mut thread, &mut process, plan, Ok(()));
    assert!(r.is_ok());

    let plan2 = plan_activation(thread, process);
    assert_eq!(plan2, ActivationPlan::Nothing);
    let r2 = complete_activation(&mut thread, &mut process, plan2, Ok(()));
    assert!(r2.is_ok());
    assert_eq!(thread, ActivationState::Active);
    assert_eq!(process, HandlerInstallation::Installed);
}

#[test]
fn losing_thread_skips_installation() {
    // A second thread activating after the installation race is over only
    // configures its own registers.
    let mut thread_b = ActivationState::Uninitialized;
    let mut process = HandlerInstallation::Installed;
    let plan = plan_activation(thread_b, process);
    assert_eq!(plan, ActivationPlan::ConfigureRegisters);
    let r = complete_activation(&mut thread_b, &mut process, plan, Ok(()));
    assert!(r.is_ok());
    assert_eq!(thread_b, ActivationState::Active);
    assert_eq!(process, HandlerInstallation::Installed);
}

#[test]
fn refused_installation_is_surfaced_and_leaves_state() {
    let mut thread = ActivationState::Uninitialized;
    let mut process = HandlerInstallation::NotInstalled;
    let plan = plan_activation(thread, process);
    let r = complete_activation(&mut thread, &mut process, plan, Err(22));
    assert_eq!(r, Err(ActivationError { code: 22 }));
    assert_eq!(thread, ActivationState::Uninitialized);
    assert_eq!(process, HandlerInstallation::NotInstalled);
}

#[test]
fn activation_is_thread_local() {
    // Activating one thread changes nothing for another: the other thread's
    // plan still calls for its own register configuration, and until it
    // completes one it traps on nothing.
    let mut thread_a = ActivationState::Uninitialized;
    let mut process = HandlerInstallation::NotInstalled;
    let plan = plan_activation(thread_a, process);
    complete_activation(&mut thread_a, &mut process, plan, Ok(())).unwrap();

    let thread_b = ActivationState::Uninitialized;
    assert_eq!(plan_activation(thread_b, process), ActivationPlan::ConfigureRegisters);
    assert!(!traps(thread_b, FpException::DivideByZero));
    assert!(!traps(thread_b, FpException::InvalidOperation));
    assert!(traps(thread_a, FpException::DivideByZero));
}

#[test]
fn active_thread_traps_on_unmasked_exceptions_only() {
    assert!(traps(ActivationState::Active, FpException::DivideByZero));
    assert!(traps(ActivationState::Active, FpException::InvalidOperation));
    assert!(!traps(ActivationState::Active, FpException::Overflow));
    assert!(!traps(ActivationState::Active, FpException::Underflow));
    assert!(!traps(ActivationState::Active, FpException::Inexact));
    assert!(!traps(ActivationState::Uninitialized, FpException::DivideByZero));
    assert!(!traps(ActivationState::Uninitialized, FpException::InvalidOperation));
}

#[test]
fn trap_matrix_on_activated_thread() {
    let a = ActivationState::Active;
    assert!(operation_traps(a, FpOperation::FiniteDivZero));
    assert!(operation_traps(a, FpOperation::ZeroDivZero));
    assert!(operation_traps(a, FpOperation::InfDivInf));
    assert!(operation_traps(a, FpOperation::FiniteModZero));
    assert!(operation_traps(a, FpOperation::InfMod));
    assert!(operation_traps(a, FpOperation::ZeroTimesInf));
    assert!(operation_traps(a, FpOperation::SqrtNegative));
    assert!(operation_traps(a, FpOperation::InfMinusInf));
    assert!(!operation_traps(a, FpOperation::InfPlusInf));
    assert!(!operation_traps(a, FpOperation::FiniteArithmetic));
    assert!(!operation_traps(a, FpOperation::SqrtNonNegative));
}

#[test]
fn trap_matrix_on_inactive_thread() {
    let u = ActivationState::Uninitialized;
    assert!(!operation_traps(u, FpOperation::FiniteDivZero));
    assert!(!operation_traps(u, FpOperation::ZeroDivZero));
    assert!(!operation_traps(u, FpOperation::SqrtNegative));
    assert!(!operation_traps(u, FpOperation::InfPlusInf));
}

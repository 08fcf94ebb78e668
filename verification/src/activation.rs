//! The activation gate: per-thread opt-in and process-wide handler
//! installation.
//!
//! A thread activates trapping at most once; later calls are no-ops. The
//! first activation anywhere in the process also installs the fault handler,
//! exactly once, guarded by a compare-and-swap so that concurrent first
//! activations elect a single installer. The decisions live here; the caller
//! performs the operating-system call the plan asks for and feeds the outcome
//! back.

use vstd::prelude::*;

verus! {

/// Per-thread activation state. A thread starts `Uninitialized`; once it is
/// `Active` its floating-point trap masks have been cleared and it never goes
/// back.
#[derive(Clone, Copy, Debug, PartialEq, Eq, Structural)]
pub enum ActivationState {
    Uninitialized,
    Active,
}

/// Process-wide state of the fault handler registration. Moves from
/// `NotInstalled` to `Installed` at most once in the life of the process.
#[derive(Clone, Copy, Debug, PartialEq, Eq, Structural)]
pub enum HandlerInstallation {
    NotInstalled,
    Installed,
}

/// The operating system refused to install the fault handler. `code` is the
/// raw error number it reported. The error is recoverable: the caller may
/// retry, log it, or proceed without trapping.
#[derive(Clone, Copy, Debug, PartialEq, Eq, Structural)]
pub struct ActivationError {
    pub code: i32,
}

/// What an activation call still has to do, given the thread's and the
/// process's current state.
#[derive(Clone, Copy, Debug, PartialEq, Eq, Structural)]
pub enum ActivationPlan {
    /// The thread has already activated: the call is a no-op that succeeds.
    Nothing,
    /// The handler is already installed process-wide: only this thread's
    /// registers remain to be configured.
    ConfigureRegisters,
    /// First activation to get here: install the handler, then configure
    /// this thread's registers.
    InstallAndConfigure,
}

/// The plan an activation call must follow: an already-active thread does
/// nothing; otherwise the handler is installed first if no one has installed
/// it yet, and the thread's registers are configured either way.
pub open spec fn spec_plan(thread: ActivationState, process: HandlerInstallation) -> ActivationPlan {
    if thread == ActivationState::Active {
        ActivationPlan::Nothing
    } else if process == HandlerInstallation::Installed {
        ActivationPlan::ConfigureRegisters
    } else {
        ActivationPlan::InstallAndConfigure
    }
}

/// Decide what an activation call must do.
pub fn plan_activation(thread: ActivationState, process: HandlerInstallation) -> (p: ActivationPlan)
    ensures
        p == spec_plan(thread, process),
{
    if matches!(thread, ActivationState::Active) {
        ActivationPlan::Nothing
    } else if matches!(process, HandlerInstallation::Installed) {
        ActivationPlan::ConfigureRegisters
    } else {
        ActivationPlan::InstallAndConfigure
    }
}

/// Apply the outcome of the step the plan asked for.
///
/// `install_result` is the outcome of the handler installation when the plan
/// called for one (`Err` carries the system's error number); a plan that
/// needs no installation takes `Ok(())`. Success always leaves the thread
/// active. The only failure is a refused installation, and it leaves every
/// state unchanged, so the caller may simply try again.
pub fn complete_activation(
    thread: &mut ActivationState,
    process: &mut HandlerInstallation,
    plan: ActivationPlan,
    install_result: Result<(), i32>,
) -> (r: Result<(), ActivationError>)
    requires
        plan == spec_plan(*old(thread), *old(process)),
    ensures
        match plan {
            ActivationPlan::Nothing => {
                &&& r is Ok
                &&& *final(thread) == *old(thread)
                &&& *final(process) == *old(process)
            },
            ActivationPlan::ConfigureRegisters => {
                &&& r is Ok
                &&& *final(thread) == ActivationState::Active
                &&& *final(process) == *old(process)
            },
            ActivationPlan::InstallAndConfigure => {
                match install_result {
                    Ok(_) => {
                        &&& r is Ok
                        &&& *final(thread) == ActivationState::Active
                        &&& *final(process) == HandlerInstallation::Installed
                    },
                    Err(code) => {
                        &&& r is Err
                        &&& r->Err_0.code == code
                        &&& *final(thread) == *old(thread)
                        &&& *final(process) == *old(process)
                    },
                }
            },
        },
{
    match plan {
        ActivationPlan::Nothing => Ok(()),
        ActivationPlan::ConfigureRegisters => {
            *thread = ActivationState::Active;
            Ok(())
        },
        ActivationPlan::InstallAndConfigure => {
            match install_result {
                Ok(_) => {
                    *process = HandlerInstallation::Installed;
                    *thread = ActivationState::Active;
                    Ok(())
                },
                Err(code) => Err(ActivationError { code }),
            }
        },
    }
}

/// Calling `activate` twice on a thread is observably identical to calling
/// it once: after one successful activation the plan for the same thread is
/// always `Nothing`, which changes no state and succeeds.
pub proof fn lemma_second_activation_is_noop(process: HandlerInstallation)
    ensures
        spec_plan(ActivationState::Active, process) == ActivationPlan::Nothing,
{
}

/// The whole-process picture of activation: for each thread identifier,
/// whether that thread has activated. Activating marks one thread, and only
/// that thread, active.
pub open spec fn activate_model(threads: Map<int, bool>, t: int) -> Map<int, bool> {
    threads.insert(t, true)
}

/// Idempotence at the process level: activating a thread a second time
/// leaves the process picture exactly as the first activation left it.
pub proof fn lemma_activation_idempotent(threads: Map<int, bool>, t: int)
    ensures
        activate_model(activate_model(threads, t), t) == activate_model(threads, t),
{
    assert(activate_model(activate_model(threads, t), t) =~= activate_model(threads, t));
}

/// Thread locality: activating thread `a` does not change whether any other
/// thread `b` is activated, so it cannot cause trapping on `b`.
pub proof fn lemma_activation_thread_local(threads: Map<int, bool>, a: int, b: int)
    requires
        a != b,
    ensures
        activate_model(threads, a).dom().contains(b) == threads.dom().contains(b),
        threads.dom().contains(b) ==> activate_model(threads, a)[b] == threads[b],
{
}

} // verus!

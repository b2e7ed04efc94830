//! The entry-point boot sequence: a linear state machine
//! `Idle -> Initializing -> Running -> Terminated` together with the
//! initialization step that selects, registers and finalizes the
//! capability set.
//!
//! The blocking run loop itself belongs to the windowing runtime, an
//! external collaborator that this crate never calls.  An outer process
//! driver performs each `Action`, reports the resulting `Event` back, and
//! thereby walks the machine; every decision the driver follows is taken
//! here.

use vstd::prelude::*;
use crate::builder::{AppBuilder, RuntimeConfig};
use crate::config::{ConfigurationError, EmbeddedConfig, LoopStartError};
use crate::config::{spec_config_consistent_with, spec_config_well_formed};
use crate::platform::{selected_capabilities, spec_selected_capabilities, PlatformVariant};

verus! {

/// The phase of the boot sequence.  Transitions are linear: no cycle and
/// no re-entry, and `Terminated` is final.
#[derive(Clone, Copy, PartialEq, Eq, Structural, Debug)]
pub enum Phase {
    Idle,
    Initializing,
    Running,
    Terminated,
}

/// What the process driver observed since the last step.
#[derive(Clone, Copy, PartialEq, Eq, Structural, Debug)]
pub enum Event {
    /// The process was launched by the OS or platform launcher.
    ProcessLaunched,
    /// Finalization of the runtime configuration failed.
    ConfigurationRejected,
    /// The run loop could not acquire a required OS resource.
    LoopStartFailed,
    /// Finalization succeeded and the run loop is up and blocking.
    LoopStarted,
    /// The run loop returned after a normal application shutdown.
    LoopExited,
}

/// What the process driver must do next.
#[derive(Clone, Copy, PartialEq, Eq, Structural, Debug)]
pub enum Action {
    /// Select the platform capabilities, build and finalize the runtime
    /// configuration.
    BuildConfiguration,
    /// Report a fatal diagnostic on standard error and exit non-zero.
    ExitWithFailure,
    /// Block on the run loop until the application shuts down.
    AwaitShutdown,
    /// Exit with status zero.
    ExitWithSuccess,
    /// The event does not belong to the current phase: change nothing.
    NoChange,
}

/// The transition table of the boot sequence.  An event that does not
/// belong to the current phase leaves the phase unchanged and asks for
/// nothing, so a misbehaving driver cannot move the machine backwards.
pub open spec fn spec_step(p: Phase, e: Event) -> (Phase, Action) {
    match (p, e) {
        (Phase::Idle, Event::ProcessLaunched) => (Phase::Initializing, Action::BuildConfiguration),
        (Phase::Initializing, Event::ConfigurationRejected) => (
            Phase::Terminated,
            Action::ExitWithFailure,
        ),
        (Phase::Initializing, Event::LoopStartFailed) => (
            Phase::Terminated,
            Action::ExitWithFailure,
        ),
        (Phase::Initializing, Event::LoopStarted) => (Phase::Running, Action::AwaitShutdown),
        (Phase::Running, Event::LoopExited) => (Phase::Terminated, Action::ExitWithSuccess),
        (_, _) => (p, Action::NoChange),
    }
}

/// Advances the boot sequence by one observed event.
pub fn step(p: Phase, e: Event) -> (r: (Phase, Action))
    ensures
        r == spec_step(p, e),
{
    match (p, e) {
        (Phase::Idle, Event::ProcessLaunched) => (Phase::Initializing, Action::BuildConfiguration),
        (Phase::Initializing, Event::ConfigurationRejected) => (
            Phase::Terminated,
            Action::ExitWithFailure,
        ),
        (Phase::Initializing, Event::LoopStartFailed) => (
            Phase::Terminated,
            Action::ExitWithFailure,
        ),
        (Phase::Initializing, Event::LoopStarted) => (Phase::Running, Action::AwaitShutdown),
        (Phase::Running, Event::LoopExited) => (Phase::Terminated, Action::ExitWithSuccess),
        (_, _) => (p, Action::NoChange),
    }
}

/// The position of a phase on the linear boot path.
pub open spec fn spec_phase_rank(p: Phase) -> nat {
    match p {
        Phase::Idle => 0,
        Phase::Initializing => 1,
        Phase::Running => 2,
        Phase::Terminated => 3,
    }
}

/// The boot sequence is linear: no step moves the phase backwards, and
/// once terminated the machine never leaves `Terminated`.
pub proof fn lemma_boot_sequence_is_linear(p: Phase, e: Event)
    ensures
        spec_phase_rank(spec_step(p, e).0) >= spec_phase_rank(p),
        p == Phase::Terminated ==> spec_step(p, e).0 == Phase::Terminated,
{
}

/// The embedded configuration is accepted for a platform variant exactly
/// when it is well formed and consistent with the variant's capability
/// sequence.
pub open spec fn spec_boot_config_ok(v: PlatformVariant, c: EmbeddedConfig) -> bool {
    spec_config_well_formed(c) && spec_config_consistent_with(c, spec_selected_capabilities(v))
}

/// The `Idle -> Initializing` work of the entry point: selects the
/// capability plugins of `v`, registers them in order on a fresh builder,
/// and finalizes with the embedded configuration.
///
/// Succeeds exactly when the configuration is well formed and consistent
/// with the variant's capability sequence; the resulting runtime
/// configuration then carries exactly that sequence and the embedded
/// metadata unchanged.
pub fn initialize(v: PlatformVariant, config: EmbeddedConfig) -> (r: Result<
    RuntimeConfig,
    ConfigurationError,
>)
    ensures
        r is Ok <==> spec_boot_config_ok(v, config),
        r matches Ok(rc) ==> {
            &&& rc.spec_capabilities() == spec_selected_capabilities(v)
            &&& rc.spec_identifier() == config.identifier@
            &&& rc.spec_windows() == config.windows@
            &&& rc.spec_shell_allowlist() == config.shell_allowlist@
            &&& rc.spec_valid()
        },
        !spec_config_well_formed(config) ==> (r matches Err(e)
            && e == ConfigurationError::Malformed),
        spec_config_well_formed(config) && !spec_config_consistent_with(
            config,
            spec_selected_capabilities(v),
        ) ==> (r matches Err(e) && e == ConfigurationError::MissingWindowStateCapability),
    {
    let caps = selected_capabilities(v);
    let mut b = AppBuilder::create();
    let mut i: usize = 0;
    while i < caps.len()
        invariant
            0 <= i <= caps@.len(),
            caps@ == spec_selected_capabilities(v),
            !b.spec_finalized(),
            b.spec_registered() == caps@.take(i as int),
        decreases caps@.len() - i,
    {
        let registered = b.register(caps[i]);
        proof {
            assert(registered is Ok);
            assert(caps@.take(i as int).push(caps@[i as int]) =~= caps@.take(i as int + 1));
        }
        i = i + 1;
    }
    proof {
        assert(b.spec_registered() =~= spec_selected_capabilities(v));
    }
    b.finalize(config)
}

/// The fatal diagnostic reported on standard error for a configuration
/// failure, as no user interface exists yet through which to report it.
pub fn configuration_diagnostic(e: ConfigurationError) -> (r: &'static str)
    ensures
        e == ConfigurationError::Malformed ==> r@ == "malformed embedded configuration"@,
        e == ConfigurationError::MissingWindowStateCapability ==> r@
            == "window requires persisted geometry but the window-state capability is not registered"@,
        e == ConfigurationError::AlreadyFinalized ==> r@
            == "application builder was already finalized"@,
    {
    match e {
        ConfigurationError::Malformed => "malformed embedded configuration",
        ConfigurationError::MissingWindowStateCapability => "window requires persisted geometry but the window-state capability is not registered",
        ConfigurationError::AlreadyFinalized => "application builder was already finalized",
    }
}

/// The fatal diagnostic reported on standard error when the run loop
/// cannot start.
pub fn loop_start_diagnostic(e: LoopStartError) -> (r: &'static str)
    ensures
        r@ == "error while running the application run loop"@,
{
    match e {
        LoopStartError::OsResourceUnavailable => "error while running the application run loop",
    }
}

/// The process exit status that an action asks for: zero for a normal
/// shutdown, non-zero for a fatal initialization or loop-start failure,
/// nothing for the actions that keep the process going.
pub fn action_exit_status(a: Action) -> (r: Option<u8>)
    ensures
        a == Action::ExitWithSuccess ==> r == Some(0u8),
        a == Action::ExitWithFailure ==> r == Some(1u8),
        a != Action::ExitWithSuccess && a != Action::ExitWithFailure ==> r is None,
{
    match a {
        Action::ExitWithSuccess => Some(0),
        Action::ExitWithFailure => Some(1),
        _ => None,
    }
}

} // verus!

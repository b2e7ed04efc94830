use weather_app_lib::builder::AppBuilder;
use weather_app_lib::config::{ConfigurationError, EmbeddedConfig, LoopStartError, WindowDefinition};
use weather_app_lib::entry::{
    action_exit_status, configuration_diagnostic, initialize, loop_start_diagnostic, step, Action,
    Event, Phase,
};
use weather_app_lib::platform::{selected_capabilities, Capability, PlatformVariant};

fn plain_config() -> EmbeddedConfig {
    EmbeddedConfig {
        identifier: String::from("com.example.weather"),
        windows: vec![WindowDefinition {
            label: String::from("main"),
            restore_persisted_geometry: false,
        }],
        shell_allowlist: vec![String::from("echo")],
    }
}

fn persisting_config() -> EmbeddedConfig {
    EmbeddedConfig {
        identifier: String::from("com.example.weather"),
        windows: vec![WindowDefinition {
            label: String::from("main"),
            restore_persisted_geometry: true,
        }],
        shell_allowlist: vec![],
    }
}

#[test]
fn desktop_selects_both_capabilities_in_order() {
    let caps = selected_capabilities(PlatformVariant::Desktop);
    assert_eq!(
        caps,
        vec![
            Capability::CommandExecution,
            Capability::WindowStatePersistence
        ]
    );
}

#[test]
fn mobile_selects_command_execution_only() {
    let caps = selected_capabilities(PlatformVariant::Mobile);
    assert_eq!(caps, vec![Capability::CommandExecution]);
}

#[test]
fn selection_is_deterministic_across_repeated_builds() {
    for variant in [PlatformVariant::Desktop, PlatformVariant::Mobile] {
        let first = selected_capabilities(variant);
        let second = selected_capabilities(variant);
        assert_eq!(first, second);
    }
}

#[test]
fn register_after_finalize_is_rejected() {
    let mut b = AppBuilder::create();
    assert!(b.register(Capability::CommandExecution).is_ok());
    assert!(b.finalize(plain_config()).is_ok());
    let rejected = b.register(Capability::WindowStatePersistence);
    assert_eq!(rejected, Err(ConfigurationError::AlreadyFinalized));
}

#[test]
fn finalize_twice_is_rejected() {
    let mut b = AppBuilder::create();
    assert!(b.register(Capability::CommandExecution).is_ok());
    assert!(b.finalize(plain_config()).is_ok());
    let again = b.finalize(plain_config());
    assert_eq!(again.err(), Some(ConfigurationError::AlreadyFinalized));
}

#[test]
fn valid_config_finalizes_on_desktop() {
    let rc = initialize(PlatformVariant::Desktop, persisting_config()).unwrap();
    assert_eq!(
        rc.capabilities(),
        &vec![
            Capability::CommandExecution,
            Capability::WindowStatePersistence
        ]
    );
    assert_eq!(rc.identifier().as_str(), "com.example.weather");
    assert_eq!(rc.windows().len(), 1);
    assert_eq!(rc.windows()[0].label, "main");
    assert!(rc.windows()[0].restore_persisted_geometry);
}

#[test]
fn valid_config_finalizes_on_mobile() {
    let rc = initialize(PlatformVariant::Mobile, plain_config()).unwrap();
    assert_eq!(rc.capabilities(), &vec![Capability::CommandExecution]);
    assert_eq!(rc.shell_allowlist(), &vec![String::from("echo")]);
}

#[test]
fn mobile_rejects_window_needing_persisted_geometry() {
    let r = initialize(PlatformVariant::Mobile, persisting_config());
    assert_eq!(r.err(), Some(ConfigurationError::MissingWindowStateCapability));
}

#[test]
fn empty_identifier_is_malformed() {
    let mut cfg = plain_config();
    cfg.identifier = String::new();
    let r = initialize(PlatformVariant::Desktop, cfg);
    assert_eq!(r.err(), Some(ConfigurationError::Malformed));
}

#[test]
fn empty_window_label_is_malformed() {
    let mut cfg = plain_config();
    cfg.windows[0].label = String::new();
    let r = initialize(PlatformVariant::Desktop, cfg);
    assert_eq!(r.err(), Some(ConfigurationError::Malformed));
}

#[test]
fn malformed_wins_over_missing_capability() {
    let mut cfg = persisting_config();
    cfg.identifier = String::new();
    let r = initialize(PlatformVariant::Mobile, cfg);
    assert_eq!(r.err(), Some(ConfigurationError::Malformed));
}

#[test]
fn registration_order_is_preserved_without_deduplication() {
    let mut b = AppBuilder::create();
    assert!(b.register(Capability::WindowStatePersistence).is_ok());
    assert!(b.register(Capability::CommandExecution).is_ok());
    assert!(b.register(Capability::CommandExecution).is_ok());
    let mut cfg = plain_config();
    cfg.windows.clear();
    let rc = b.finalize(cfg).unwrap();
    assert_eq!(
        rc.capabilities(),
        &vec![
            Capability::WindowStatePersistence,
            Capability::CommandExecution,
            Capability::CommandExecution
        ]
    );
}

#[test]
fn boot_machine_walks_the_successful_path() {
    let (p1, a1) = step(Phase::Idle, Event::ProcessLaunched);
    assert_eq!((p1, a1), (Phase::Initializing, Action::BuildConfiguration));
    let (p2, a2) = step(p1, Event::LoopStarted);
    assert_eq!((p2, a2), (Phase::Running, Action::AwaitShutdown));
    let (p3, a3) = step(p2, Event::LoopExited);
    assert_eq!((p3, a3), (Phase::Terminated, Action::ExitWithSuccess));
}

#[test]
fn boot_machine_terminates_on_rejected_configuration() {
    let (p, a) = step(Phase::Initializing, Event::ConfigurationRejected);
    assert_eq!((p, a), (Phase::Terminated, Action::ExitWithFailure));
}

#[test]
fn boot_machine_terminates_on_loop_start_failure() {
    let (p, a) = step(Phase::Initializing, Event::LoopStartFailed);
    assert_eq!((p, a), (Phase::Terminated, Action::ExitWithFailure));
}

#[test]
fn terminated_phase_absorbs_every_event() {
    for e in [
        Event::ProcessLaunched,
        Event::ConfigurationRejected,
        Event::LoopStartFailed,
        Event::LoopStarted,
        Event::LoopExited,
    ] {
        let (p, a) = step(Phase::Terminated, e);
        assert_eq!(p, Phase::Terminated);
        assert_eq!(a, Action::NoChange);
    }
}

#[test]
fn out_of_order_event_changes_nothing() {
    let (p, a) = step(Phase::Idle, Event::LoopExited);
    assert_eq!((p, a), (Phase::Idle, Action::NoChange));
    let (p, a) = step(Phase::Running, Event::ProcessLaunched);
    assert_eq!((p, a), (Phase::Running, Action::NoChange));
}

#[test]
fn diagnostics_name_each_failure() {
    assert_eq!(
        configuration_diagnostic(ConfigurationError::Malformed),
        "malformed embedded configuration"
    );
    assert_eq!(
        configuration_diagnostic(ConfigurationError::MissingWindowStateCapability),
        "window requires persisted geometry but the window-state capability is not registered"
    );
    assert_eq!(
        configuration_diagnostic(ConfigurationError::AlreadyFinalized),
        "application builder was already finalized"
    );
    assert_eq!(
        loop_start_diagnostic(LoopStartError::OsResourceUnavailable),
        "error while running the application run loop"
    );
}

#[test]
fn exit_status_is_zero_only_for_normal_shutdown() {
    assert_eq!(action_exit_status(Action::ExitWithSuccess), Some(0));
    assert_eq!(action_exit_status(Action::ExitWithFailure), Some(1));
    assert_eq!(action_exit_status(Action::BuildConfiguration), None);
    assert_eq!(action_exit_status(Action::AwaitShutdown), None);
    assert_eq!(action_exit_status(Action::NoChange), None);
}

//! Proved guarantees of the boot sequence that relate several of the
//! library's functions.

use vstd::prelude::*;
use crate::builder::RuntimeConfig;
use crate::config::EmbeddedConfig;
use crate::config::{spec_config_consistent_with, spec_config_well_formed};
use crate::entry::{spec_boot_config_ok, spec_step, Action, Event, Phase};
use crate::platform::{spec_selected_capabilities, Capability, PlatformVariant};

verus! {

/// A runtime configuration finalized for the Desktop variant carries
/// exactly the capabilities command execution and window-state
/// persistence, in that order; one finalized for the Mobile variant
/// carries exactly command execution.
pub proof fn lemma_finalized_capability_set(v: PlatformVariant, rc: RuntimeConfig)
    requires
        rc.spec_capabilities() == spec_selected_capabilities(v),
    ensures
        v == PlatformVariant::Desktop ==> rc.spec_capabilities() == seq![
            Capability::CommandExecution,
            Capability::WindowStatePersistence,
        ],
        v == PlatformVariant::Mobile ==> rc.spec_capabilities() == seq![
            Capability::CommandExecution,
        ],
        v == PlatformVariant::Desktop ==> forall|c: Capability|
            rc.spec_capabilities().contains(c) <==> (c == Capability::CommandExecution || c
                == Capability::WindowStatePersistence),
        v == PlatformVariant::Mobile ==> forall|c: Capability|
            rc.spec_capabilities().contains(c) <==> c == Capability::CommandExecution,
{
    let s = rc.spec_capabilities();
    match v {
        PlatformVariant::Desktop => {
            assert(s.contains(Capability::CommandExecution)) by {
                assert(s[0] == Capability::CommandExecution);
            }
            assert(s.contains(Capability::WindowStatePersistence)) by {
                assert(s[1] == Capability::WindowStatePersistence);
            }
            assert forall|c: Capability| s.contains(c) implies (c == Capability::CommandExecution
                || c == Capability::WindowStatePersistence) by {
                let i = choose|i: int| 0 <= i < s.len() && s[i] == c;
                assert(i == 0 || i == 1);
            }
        }
        PlatformVariant::Mobile => {
            assert(s.contains(Capability::CommandExecution)) by {
                assert(s[0] == Capability::CommandExecution);
            }
            assert forall|c: Capability| s.contains(c) implies c
                == Capability::CommandExecution by {
                let i = choose|i: int| 0 <= i < s.len() && s[i] == c;
                assert(i == 0);
            }
        }
    }
}

/// Registration order is deterministic: any two capability sequences
/// selected for the same platform variant are equal, so repeated builds
/// register the same plugins in the same order.
pub proof fn lemma_registration_order_deterministic(
    v: PlatformVariant,
    first: Seq<Capability>,
    second: Seq<Capability>,
)
    requires
        first == spec_selected_capabilities(v),
        second == spec_selected_capabilities(v),
    ensures
        first == second,
{
}

/// A well formed embedded configuration that is consistent with the
/// variant's capability sequence is accepted, and the successful boot
/// path then moves the machine from `Initializing` to `Running` when the
/// run loop comes up.
pub proof fn lemma_valid_config_reaches_running(v: PlatformVariant, c: EmbeddedConfig)
    requires
        spec_config_well_formed(c),
        spec_config_consistent_with(c, spec_selected_capabilities(v)),
    ensures
        spec_boot_config_ok(v, c),
        spec_step(Phase::Initializing, Event::LoopStarted) == (Phase::Running,
        Action::AwaitShutdown),
{
}

/// A rejected embedded configuration terminates the boot sequence with a
/// failure exit, and the machine can never reach `Running` afterwards:
/// every event leaves `Terminated` in place.
pub proof fn lemma_rejected_config_never_runs(v: PlatformVariant, c: EmbeddedConfig)
    requires
        !spec_boot_config_ok(v, c),
    ensures
        spec_step(Phase::Initializing, Event::ConfigurationRejected) == (Phase::Terminated,
        Action::ExitWithFailure),
        forall|e: Event| (#[trigger] spec_step(Phase::Terminated, e)).0 == Phase::Terminated,
{
}

/// A window definition that asks for persisted geometry is inconsistent
/// with the Mobile variant, whose capability sequence never carries
/// window-state persistence.
pub proof fn lemma_mobile_persisted_geometry_rejected(c: EmbeddedConfig)
    requires
        exists|i: int|
            0 <= i < c.windows@.len() && (#[trigger] c.windows@[i]).restore_persisted_geometry,
    ensures
        !spec_config_consistent_with(c, spec_selected_capabilities(PlatformVariant::Mobile)),
        !spec_boot_config_ok(PlatformVariant::Mobile, c),
{
    let s = spec_selected_capabilities(PlatformVariant::Mobile);
    assert(!s.contains(Capability::WindowStatePersistence)) by {
        assert forall|i: int| 0 <= i < s.len() implies s[i]
            != Capability::WindowStatePersistence by {
            assert(i == 0);
        }
    }
}

} // verus!

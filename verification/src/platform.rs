//! Platform variants and the capability set selected for each.

use vstd::prelude::*;

verus! {

/// One platform capability wired into the application at startup.
///
/// `CommandExecution` lets the embedded frontend invoke OS-level processes,
/// gated by the allow-list of the embedded configuration.
/// `WindowStatePersistence` saves and restores window geometry between runs;
/// it is meaningful only where windows can be moved and resized.
#[derive(Clone, Copy, PartialEq, Eq, Structural, Debug)]
pub enum Capability {
    CommandExecution,
    WindowStatePersistence,
}

/// The build target, fixed once per build and never changed at run time.
#[derive(Clone, Copy, PartialEq, Eq, Structural, Debug)]
pub enum PlatformVariant {
    Desktop,
    Mobile,
}

/// The ordered capability sequence that a given platform variant registers:
/// command execution on every platform, window-state persistence on desktop
/// only, since persistent geometry has no meaning without movable windows.
pub open spec fn spec_selected_capabilities(v: PlatformVariant) -> Seq<Capability> {
    match v {
        PlatformVariant::Desktop => seq![
            Capability::CommandExecution,
            Capability::WindowStatePersistence,
        ],
        PlatformVariant::Mobile => seq![Capability::CommandExecution],
    }
}

/// Returns the capability plugins to register for `v`, in registration order.
/// Selection is a pure function of the variant and cannot fail.
pub fn selected_capabilities(v: PlatformVariant) -> (r: Vec<Capability>)
    ensures
        r@ == spec_selected_capabilities(v),
{
    let mut caps: Vec<Capability> = Vec::new();
    caps.push(Capability::CommandExecution);
    match v {
        PlatformVariant::Desktop => {
            caps.push(Capability::WindowStatePersistence);
            proof {
                assert(caps@ =~= spec_selected_capabilities(v));
            }
        }
        PlatformVariant::Mobile => {
            proof {
                assert(caps@ =~= spec_selected_capabilities(v));
            }
        }
    }
    caps
}

/// The capability sequence of a variant never repeats an entry, so the
/// selector by itself cannot register the same plugin twice.
pub proof fn lemma_selected_capabilities_distinct(v: PlatformVariant)
    ensures
        forall|i: int, j: int|
            0 <= i < j < spec_selected_capabilities(v).len()
                ==> spec_selected_capabilities(v)[i] != spec_selected_capabilities(v)[j],
{
}

} // verus!

//! The embedded configuration consumed by finalization, the immutable
//! runtime configuration produced by it, and the errors of the boot
//! sequence.
//!
//! The embedded bundle is generated at build time by an external
//! collaborator.  This crate reads only what finalization validates: the
//! application identifier, the window definitions, and the command
//! allow-list; everything else in the bundle is outside its scope.

use vstd::prelude::*;
use crate::platform::Capability;

verus! {

/// One window declared by the embedded configuration.
pub struct WindowDefinition {
    /// Identifier under which the window's geometry is saved and restored.
    pub label: String,
    /// True when the window asks for its geometry to be restored from a
    /// persisted record, which needs the window-state capability.
    pub restore_persisted_geometry: bool,
}

/// The build-time bundle handed to finalization: application identifier,
/// window definitions and the allow-list gating command execution.
pub struct EmbeddedConfig {
    pub identifier: String,
    pub windows: Vec<WindowDefinition>,
    pub shell_allowlist: Vec<String>,
}

/// Why assembling the runtime configuration failed.
#[derive(Clone, Copy, PartialEq, Eq, Structural, Debug)]
pub enum ConfigurationError {
    /// The embedded bundle is malformed: the application identifier or a
    /// window label is empty.
    Malformed,
    /// A window definition asks for persisted geometry but the
    /// window-state capability was never registered.
    MissingWindowStateCapability,
    /// The builder was already consumed by an earlier finalization.
    AlreadyFinalized,
}

/// The run loop could not start: a required OS resource, such as a
/// display connection, is unavailable.
#[derive(Clone, Copy, PartialEq, Eq, Structural, Debug)]
pub enum LoopStartError {
    OsResourceUnavailable,
}

/// A window definition is well formed when its label is not empty.
pub open spec fn spec_window_well_formed(w: WindowDefinition) -> bool {
    w.label@.len() > 0
}

/// The embedded bundle is well formed when the application identifier and
/// every window label are non-empty.
pub open spec fn spec_config_well_formed(c: EmbeddedConfig) -> bool {
    &&& c.identifier@.len() > 0
    &&& forall|i: int| 0 <= i < c.windows@.len() ==> spec_window_well_formed(#[trigger] c.windows@[i])
}

/// The embedded bundle is consistent with a capability sequence when every
/// window that asks for persisted geometry is covered by the window-state
/// capability.
pub open spec fn spec_config_consistent_with(c: EmbeddedConfig, caps: Seq<Capability>) -> bool {
    forall|i: int|
        0 <= i < c.windows@.len() && (#[trigger] c.windows@[i]).restore_persisted_geometry
            ==> caps.contains(Capability::WindowStatePersistence)
}

/// Returns whether the embedded bundle is well formed.
pub fn config_well_formed(c: &EmbeddedConfig) -> (r: bool)
    ensures
        r == spec_config_well_formed(*c),
{
    if c.identifier.as_str().unicode_len() == 0 {
        return false;
    }
    let mut i: usize = 0;
    while i < c.windows.len()
        invariant
            0 <= i <= c.windows@.len(),
            forall|j: int| 0 <= j < i ==> spec_window_well_formed(#[trigger] c.windows@[j]),
        decreases c.windows@.len() - i,
    {
        if c.windows[i].label.as_str().unicode_len() == 0 {
            return false;
        }
        i = i + 1;
    }
    true
}

/// Returns whether any window of the bundle asks for persisted geometry.
pub fn config_wants_persisted_geometry(c: &EmbeddedConfig) -> (r: bool)
    ensures
        r == exists|i: int|
            0 <= i < c.windows@.len() && (#[trigger] c.windows@[i]).restore_persisted_geometry,
{
    let mut i: usize = 0;
    while i < c.windows.len()
        invariant
            0 <= i <= c.windows@.len(),
            forall|j: int| 0 <= j < i ==> !(#[trigger] c.windows@[j]).restore_persisted_geometry,
        decreases c.windows@.len() - i,
    {
        if c.windows[i].restore_persisted_geometry {
            return true;
        }
        i = i + 1;
    }
    false
}

} // verus!

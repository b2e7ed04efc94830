//! The application builder: an ordered accumulator of capability plugins,
//! consumed once by finalization into an immutable runtime configuration.

use vstd::prelude::*;
use crate::config::{ConfigurationError, EmbeddedConfig, WindowDefinition};
use crate::config::{spec_config_consistent_with, spec_config_well_formed};
use crate::config::{config_wants_persisted_geometry, config_well_formed};
use crate::platform::Capability;

verus! {

/// The immutable snapshot that the run loop consumes: the finalized
/// capability sequence together with the embedded application metadata.
/// No operation mutates it after construction.
pub struct RuntimeConfig {
    capabilities: Vec<Capability>,
    identifier: String,
    windows: Vec<WindowDefinition>,
    shell_allowlist: Vec<String>,
}

impl RuntimeConfig {
    /// The finalized capability sequence, in registration order.
    pub closed spec fn spec_capabilities(self) -> Seq<Capability> {
        self.capabilities@
    }

    /// The application identifier taken from the embedded configuration.
    pub closed spec fn spec_identifier(self) -> Seq<char> {
        self.identifier@
    }

    /// The window definitions taken from the embedded configuration.
    pub closed spec fn spec_windows(self) -> Seq<WindowDefinition> {
        self.windows@
    }

    /// The command allow-list taken from the embedded configuration.
    pub closed spec fn spec_shell_allowlist(self) -> Seq<String> {
        self.shell_allowlist@
    }

    /// A runtime configuration is valid when its embedded metadata is well
    /// formed and every window that asks for persisted geometry is covered
    /// by the finalized capability sequence.  Every value that finalization
    /// returns satisfies this.
    pub open spec fn spec_valid(self) -> bool {
        &&& self.spec_identifier().len() > 0
        &&& forall|i: int|
            0 <= i < self.spec_windows().len()
                ==> (#[trigger] self.spec_windows()[i]).label@.len() > 0
        &&& forall|i: int|
            0 <= i < self.spec_windows().len()
                && (#[trigger] self.spec_windows()[i]).restore_persisted_geometry
                ==> self.spec_capabilities().contains(Capability::WindowStatePersistence)
    }

    pub fn capabilities(&self) -> (r: &Vec<Capability>)
        ensures
            r@ == self.spec_capabilities(),
    {
        &self.capabilities
    }

    pub fn identifier(&self) -> (r: &String)
        ensures
            r@ == self.spec_identifier(),
    {
        &self.identifier
    }

    pub fn windows(&self) -> (r: &Vec<WindowDefinition>)
        ensures
            r@ == self.spec_windows(),
    {
        &self.windows
    }

    pub fn shell_allowlist(&self) -> (r: &Vec<String>)
        ensures
            r@ == self.spec_shell_allowlist(),
    {
        &self.shell_allowlist
    }
}

/// The mutable accumulator of the boot sequence.  Capability plugins are
/// appended in registration order; finalization consumes the builder, and
/// every later operation on it is rejected rather than silently accepted.
pub struct AppBuilder {
    registered: Vec<Capability>,
    finalized: bool,
}

impl AppBuilder {
    /// The capability plugins registered so far, in registration order.
    pub closed spec fn spec_registered(self) -> Seq<Capability> {
        self.registered@
    }

    /// Whether the builder was already consumed by finalization.
    pub closed spec fn spec_finalized(self) -> bool {
        self.finalized
    }

    /// Returns a builder with an empty capability sequence.
    pub fn create() -> (r: AppBuilder)
        ensures
            r.spec_registered() == Seq::<Capability>::empty(),
            !r.spec_finalized(),
    {
        AppBuilder { registered: Vec::new(), finalized: false }
    }

    /// Appends a capability plugin to the registration sequence.  Purely
    /// structural: insertion order is preserved and nothing is deduplicated.
    /// After finalization the call is rejected and the builder is unchanged.
    pub fn register(&mut self, c: Capability) -> (r: Result<(), ConfigurationError>)
        ensures
            !old(self).spec_finalized() ==> {
                &&& r is Ok
                &&& final(self).spec_registered() == old(self).spec_registered().push(c)
                &&& !final(self).spec_finalized()
            },
            old(self).spec_finalized() ==> {
                &&& r matches Err(e) && e == ConfigurationError::AlreadyFinalized
                &&& final(self).spec_registered() == old(self).spec_registered()
                &&& final(self).spec_finalized()
            },
    {
        if self.finalized {
            Err(ConfigurationError::AlreadyFinalized)
        } else {
            self.registered.push(c);
            Ok(())
        }
    }

    /// Consumes the builder and the embedded configuration into the
    /// immutable runtime configuration.
    ///
    /// Succeeds exactly when the embedded configuration is well formed and
    /// consistent with the registered capability sequence; a malformed
    /// bundle is reported before a missing capability.  Whatever the
    /// outcome, the builder counts as finalized afterwards, so reuse is
    /// rejected.
    pub fn finalize(&mut self, config: EmbeddedConfig) -> (r: Result<
        RuntimeConfig,
        ConfigurationError,
    >)
        ensures
            final(self).spec_registered() == old(self).spec_registered(),
            final(self).spec_finalized(),
            old(self).spec_finalized() ==> (r matches Err(e)
                && e == ConfigurationError::AlreadyFinalized),
            !old(self).spec_finalized() && !spec_config_well_formed(config) ==> (r matches Err(e)
                && e == ConfigurationError::Malformed),
            !old(self).spec_finalized() && spec_config_well_formed(config)
                && !spec_config_consistent_with(config, old(self).spec_registered()) ==> (
            r matches Err(e) && e == ConfigurationError::MissingWindowStateCapability),
            !old(self).spec_finalized() && spec_config_well_formed(config)
                && spec_config_consistent_with(config, old(self).spec_registered()) ==> (
            r matches Ok(rc) && {
                &&& rc.spec_capabilities() == old(self).spec_registered()
                &&& rc.spec_identifier() == config.identifier@
                &&& rc.spec_windows() == config.windows@
                &&& rc.spec_shell_allowlist() == config.shell_allowlist@
            }),
            r is Ok <==> (!old(self).spec_finalized() && spec_config_well_formed(config)
                && spec_config_consistent_with(config, old(self).spec_registered())),
            r matches Ok(rc) ==> rc.spec_valid(),
    {
        if self.finalized {
            return Err(ConfigurationError::AlreadyFinalized);
        }
        self.finalized = true;
        if !config_well_formed(&config) {
            return Err(ConfigurationError::Malformed);
        }
        if config_wants_persisted_geometry(&config) && !contains_capability(
            &self.registered,
            Capability::WindowStatePersistence,
        ) {
            return Err(ConfigurationError::MissingWindowStateCapability);
        }
        let capabilities = copy_capabilities(&self.registered);
        Ok(
            RuntimeConfig {
                capabilities,
                identifier: config.identifier,
                windows: config.windows,
                shell_allowlist: config.shell_allowlist,
            },
        )
    }
}

/// Returns whether the capability sequence contains `c`.
fn contains_capability(caps: &Vec<Capability>, c: Capability) -> (r: bool)
    ensures
        r == caps@.contains(c),
{
    let mut i: usize = 0;
    while i < caps.len()
        invariant
            0 <= i <= caps@.len(),
            forall|j: int| 0 <= j < i ==> caps@[j] != c,
        decreases caps@.len() - i,
    {
        if caps[i] == c {
            return true;
        }
        i = i + 1;
    }
    false
}

/// Returns a copy of the capability sequence.
fn copy_capabilities(caps: &Vec<Capability>) -> (r: Vec<Capability>)
    ensures
        r@ == caps@,
{
    let mut out: Vec<Capability> = Vec::new();
    let mut i: usize = 0;
    while i < caps.len()
        invariant
            0 <= i <= caps@.len(),
            out@ == caps@.take(i as int),
        decreases caps@.len() - i,
    {
        out.push(caps[i]);
        i = i + 1;
    }
    proof {
        assert(out@ =~= caps@);
    }
    out
}

} // verus!

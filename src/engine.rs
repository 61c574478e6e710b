//! Engine mode selection and configuration.

use vstd::prelude::*;

verus! {

/// How the embedded browser backend is provided, decided once when an engine is built.
#[derive(Clone, Copy, Debug, PartialEq, Eq, Structural)]
pub enum EngineMode {
    /// No engine root is configured.
    Stub,
    /// A root is configured but its core shared library is absent.
    EngineMissing,
    /// A root is configured and its core shared library is present.
    EngineReady,
}

/// The mode for a configuration: `has_root` says whether an engine root is configured,
/// `library_present` whether its core shared library exists there.
pub open spec fn mode_of(has_root: bool, library_present: bool) -> EngineMode {
    if !has_root {
        EngineMode::Stub
    } else if library_present {
        EngineMode::EngineReady
    } else {
        EngineMode::EngineMissing
    }
}

/// Picks the engine mode; `library_present` is only consulted when a root is configured.
pub fn detect_mode(has_root: bool, library_present: bool) -> (r: EngineMode)
    ensures
        r == mode_of(has_root, library_present),
{
    if has_root {
        if library_present {
            EngineMode::EngineReady
        } else {
            EngineMode::EngineMissing
        }
    } else {
        EngineMode::Stub
    }
}

/// The mode's name as logged at engine start.
pub fn describe_mode(mode: EngineMode) -> (r: &'static str)
    ensures
        mode == EngineMode::Stub ==> r@ == "stub"@,
        mode == EngineMode::EngineMissing ==> r@ == "cef-missing"@,
        mode == EngineMode::EngineReady ==> r@ == "cef-ready"@,
{
    match mode {
        EngineMode::Stub => "stub",
        EngineMode::EngineMissing => "cef-missing",
        EngineMode::EngineReady => "cef-ready",
    }
}

/// Where an engine keeps its state, and where its binaries live if any are configured.
#[derive(Clone, Debug)]
pub struct EngineConfig {
    pub profile_dir: String,
    pub cef_root: Option<String>,
}

impl EngineConfig {
    /// A configuration for `profile_dir`; `cef_root` is the configured engine root.
    pub fn new(profile_dir: String, cef_root: Option<String>) -> (r: EngineConfig)
        ensures
            r.profile_dir == profile_dir,
            r.cef_root == cef_root,
    {
        EngineConfig { profile_dir, cef_root }
    }

    /// The mode of this configuration, given whether the engine's core library exists in
    /// the configured root.
    pub fn mode(&self, library_present: bool) -> (r: EngineMode)
        ensures
            r == mode_of(self.cef_root is Some, library_present),
    {
        detect_mode(self.cef_root.is_some(), library_present)
    }
}

/// A capability that a page asks the engine for.
#[derive(Clone, Copy, Debug, PartialEq, Eq, Structural)]
pub enum PermissionKind {
    Notifications,
    Camera,
    Microphone,
    Location,
}

} // verus!

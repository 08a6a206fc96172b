//! Settings of the macOS package types.

use vstd::prelude::*;

verus! {

/// Settings of a macOS application bundle.
#[derive(Clone, Debug)]
pub struct MacOsSettings {
    /// Frameworks to embed.
    pub frameworks: Option<Vec<String>>,
    /// The oldest system version supported.
    pub minimum_system_version: Option<String>,
    /// The identity to sign with; `-` asks for an ad-hoc signature.
    pub signing_identity: Option<String>,
    /// The entitlements file.
    pub entitlements: Option<String>,
    /// Extra files: the path in the bundle and the path on disk.
    pub files: Vec<(String, String)>,
    /// Whether notarization is skipped.
    pub skip_notarization: bool,
    /// Whether stapling is skipped.
    pub skip_stapling: bool,
}

/// Settings of a disk image.
#[derive(Clone, Debug)]
pub struct DmgSettings {
    /// The background picture of the window.
    pub background: Option<String>,
    /// The width and height of the window.
    pub window_size: Option<(u32, u32)>,
}

impl Default for MacOsSettings {
    /// Nothing set.
    fn default() -> (r: MacOsSettings)
        ensures
            r.frameworks is None,
            r.minimum_system_version is None,
            r.signing_identity is None,
            r.entitlements is None,
            r.files@.len() == 0,
            !r.skip_notarization,
            !r.skip_stapling,
    {
        MacOsSettings {
            frameworks: None,
            minimum_system_version: None,
            signing_identity: None,
            entitlements: None,
            files: Vec::new(),
            skip_notarization: false,
            skip_stapling: false,
        }
    }
}

impl Default for DmgSettings {
    /// No background and no window size.
    fn default() -> (r: DmgSettings)
        ensures
            r.background is None,
            r.window_size is None,
    {
        DmgSettings { background: None, window_size: None }
    }
}

} // verus!

//! Settings of the Linux package types.

use vstd::prelude::*;
use vstd::string::StringExecFns;

verus! {

/// Settings of a Debian package.
#[derive(Clone, Debug)]
pub struct DebianSettings {
    /// Packages this one depends on.
    pub depends: Option<Vec<String>>,
    /// Packages this one recommends.
    pub recommends: Option<Vec<String>>,
    /// Virtual packages this one provides.
    pub provides: Option<Vec<String>>,
    /// Packages this one conflicts with.
    pub conflicts: Option<Vec<String>>,
    /// Packages this one replaces.
    pub replaces: Option<Vec<String>>,
    /// Extra files: the path in the package and the path on disk.
    pub files: Vec<(String, String)>,
    /// A template for the desktop entry.
    pub desktop_template: Option<String>,
    /// The archive section.
    pub section: Option<String>,
    /// The priority.
    pub priority: Option<String>,
    /// The changelog file.
    pub changelog: Option<String>,
    /// The script run before installation.
    pub pre_install_script: Option<String>,
    /// The script run after installation.
    pub post_install_script: Option<String>,
    /// The script run before removal.
    pub pre_remove_script: Option<String>,
    /// The script run after removal.
    pub post_remove_script: Option<String>,
}

/// Settings of an RPM package.
#[derive(Clone, Debug)]
pub struct RpmSettings {
    /// Packages this one depends on.
    pub depends: Option<Vec<String>>,
    /// Packages this one recommends.
    pub recommends: Option<Vec<String>>,
    /// Virtual packages this one provides.
    pub provides: Option<Vec<String>>,
    /// Packages this one conflicts with.
    pub conflicts: Option<Vec<String>>,
    /// Packages this one makes obsolete.
    pub obsoletes: Option<Vec<String>>,
    /// The release, `1` unless set.
    pub release: String,
    /// The epoch, zero unless set.
    pub epoch: u32,
    /// Extra files: the path in the package and the path on disk.
    pub files: Vec<(String, String)>,
    /// A template for the desktop entry.
    pub desktop_template: Option<String>,
    /// The script run before installation.
    pub pre_install_script: Option<String>,
    /// The script run after installation.
    pub post_install_script: Option<String>,
    /// The script run before removal.
    pub pre_remove_script: Option<String>,
    /// The script run after removal.
    pub post_remove_script: Option<String>,
    /// The compression of the payload.
    pub compression: Option<String>,
}

/// Settings of an AppImage.
#[derive(Clone, Debug)]
pub struct AppImageSettings {
    /// Extra files: the path in the image and the path on disk.
    pub files: Vec<(String, String)>,
    /// Whether the media framework is bundled.
    pub bundle_media_framework: bool,
    /// Whether `xdg-open` is bundled.
    pub bundle_xdg_open: bool,
}

impl Default for DebianSettings {
    /// Nothing set and no extra files.
    fn default() -> (r: DebianSettings)
        ensures
            r.depends is None,
            r.recommends is None,
            r.provides is None,
            r.conflicts is None,
            r.replaces is None,
            r.files@.len() == 0,
            r.desktop_template is None,
            r.section is None,
            r.priority is None,
            r.changelog is None,
            r.pre_install_script is None,
            r.post_install_script is None,
            r.pre_remove_script is None,
            r.post_remove_script is None,
    {
        DebianSettings {
            depends: None,
            recommends: None,
            provides: None,
            conflicts: None,
            replaces: None,
            files: Vec::new(),
            desktop_template: None,
            section: None,
            priority: None,
            changelog: None,
            pre_install_script: None,
            post_install_script: None,
            pre_remove_script: None,
            post_remove_script: None,
        }
    }
}

impl Default for RpmSettings {
    /// Release `1`, epoch zero, nothing else set.
    fn default() -> (r: RpmSettings)
        ensures
            r.depends is None,
            r.recommends is None,
            r.provides is None,
            r.conflicts is None,
            r.obsoletes is None,
            r.release@ == "1"@,
            r.epoch == 0,
            r.files@.len() == 0,
            r.desktop_template is None,
            r.pre_install_script is None,
            r.post_install_script is None,
            r.pre_remove_script is None,
            r.post_remove_script is None,
            r.compression is None,
    {
        RpmSettings {
            depends: None,
            recommends: None,
            provides: None,
            conflicts: None,
            obsoletes: None,
            release: String::from_str("1"),
            epoch: 0,
            files: Vec::new(),
            desktop_template: None,
            pre_install_script: None,
            post_install_script: None,
            pre_remove_script: None,
            post_remove_script: None,
            compression: None,
        }
    }
}

impl Default for AppImageSettings {
    /// No extra files, nothing bundled.
    fn default() -> (r: AppImageSettings)
        ensures
            r.files@.len() == 0,
            !r.bundle_media_framework,
            !r.bundle_xdg_open,
    {
        AppImageSettings { files: Vec::new(), bundle_media_framework: false, bundle_xdg_open: false }
    }
}

} // verus!

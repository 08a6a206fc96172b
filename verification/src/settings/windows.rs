//! Settings of the Windows installers.

use vstd::prelude::*;

verus! {

/// For whom an NSIS installer installs.
#[derive(Clone, Copy, Debug, Eq, PartialEq, Structural)]
pub enum NSISInstallerMode {
    /// For the current user, without administrator rights.
    CurrentUser,
    /// For all users of the machine.
    PerMachine,
    /// The user chooses.
    Both,
}

/// The compression of an NSIS installer.
#[derive(Clone, Copy, Debug, Eq, PartialEq, Structural)]
pub enum NsisCompression {
    /// No compression.
    Store,
    /// zlib.
    Zlib,
    /// bzip2.
    Bzip2,
    /// LZMA.
    Lzma,
}

/// Settings of a WiX installer.
#[derive(Clone, Debug)]
pub struct WixSettings {
    /// The languages to build for.
    pub language: Vec<String>,
    /// A template of one's own.
    pub template: Option<String>,
    /// Fragment files.
    pub fragment_paths: Vec<String>,
    /// Component group references.
    pub component_group_refs: Vec<String>,
    /// Component references.
    pub component_refs: Vec<String>,
    /// Feature group references.
    pub feature_group_refs: Vec<String>,
    /// Feature references.
    pub feature_refs: Vec<String>,
    /// Merge references.
    pub merge_refs: Vec<String>,
    /// Whether the web view installation is skipped.
    pub skip_webview_install: bool,
    /// The license file.
    pub license: Option<String>,
    /// Whether an elevated update task is created.
    pub enable_elevated_update_task: bool,
    /// The banner picture.
    pub banner_path: Option<String>,
    /// The dialog picture.
    pub dialog_image_path: Option<String>,
}

/// Settings of an NSIS installer.
#[derive(Clone, Debug)]
pub struct NsisSettings {
    /// A template of one's own.
    pub template: Option<String>,
    /// The header picture.
    pub header_image: Option<String>,
    /// The sidebar picture.
    pub sidebar_image: Option<String>,
    /// The icon of the installer.
    pub installer_icon: Option<String>,
    /// For whom the installer installs.
    pub install_mode: NSISInstallerMode,
    /// The languages offered.
    pub languages: Option<Vec<String>>,
    /// The compression; LZMA where none is set.
    pub compression: Option<NsisCompression>,
}

/// Settings of Windows packages.
#[derive(Clone, Debug)]
pub struct WindowsSettings {
    /// The certificate to sign with.
    pub cert_path: Option<String>,
    /// The private key to sign with.
    pub key_path: Option<String>,
    /// The password of the key.
    pub password: Option<String>,
    /// The time-stamping service.
    pub timestamp_url: Option<String>,
    /// A signing command of one's own.
    pub sign_command: Option<String>,
    /// Settings of the WiX installer.
    pub wix: WixSettings,
    /// Settings of the NSIS installer.
    pub nsis: NsisSettings,
}

impl Default for NSISInstallerMode {
    /// For the current user.
    fn default() -> (r: NSISInstallerMode)
        ensures
            r == NSISInstallerMode::CurrentUser,
    {
        NSISInstallerMode::CurrentUser
    }
}

impl Default for NsisCompression {
    /// zlib.
    fn default() -> (r: NsisCompression)
        ensures
            r == NsisCompression::Zlib,
    {
        NsisCompression::Zlib
    }
}

impl Default for WixSettings {
    /// Nothing set.
    fn default() -> (r: WixSettings)
        ensures
            r.language@.len() == 0,
            r.template is None,
            r.fragment_paths@.len() == 0,
            r.component_group_refs@.len() == 0,
            r.component_refs@.len() == 0,
            r.feature_group_refs@.len() == 0,
            r.feature_refs@.len() == 0,
            r.merge_refs@.len() == 0,
            !r.skip_webview_install,
            r.license is None,
            !r.enable_elevated_update_task,
            r.banner_path is None,
            r.dialog_image_path is None,
    {
        WixSettings {
            language: Vec::new(),
            template: None,
            fragment_paths: Vec::new(),
            component_group_refs: Vec::new(),
            component_refs: Vec::new(),
            feature_group_refs: Vec::new(),
            feature_refs: Vec::new(),
            merge_refs: Vec::new(),
            skip_webview_install: false,
            license: None,
            enable_elevated_update_task: false,
            banner_path: None,
            dialog_image_path: None,
        }
    }
}

impl Default for NsisSettings {
    /// For the current user, nothing else set.
    fn default() -> (r: NsisSettings)
        ensures
            r.template is None,
            r.header_image is None,
            r.sidebar_image is None,
            r.installer_icon is None,
            r.install_mode == NSISInstallerMode::CurrentUser,
            r.languages is None,
            r.compression is None,
    {
        NsisSettings {
            template: None,
            header_image: None,
            sidebar_image: None,
            installer_icon: None,
            install_mode: NSISInstallerMode::CurrentUser,
            languages: None,
            compression: None,
        }
    }
}

impl Default for WindowsSettings {
    /// Nothing set.
    fn default() -> (r: WindowsSettings)
        ensures
            r.cert_path is None,
            r.key_path is None,
            r.password is None,
            r.timestamp_url is None,
            r.sign_command is None,
            r.nsis.install_mode == NSISInstallerMode::CurrentUser,
            r.nsis.compression is None,
            r.nsis.installer_icon is None,
    {
        WindowsSettings {
            cert_path: None,
            key_path: None,
            password: None,
            timestamp_url: None,
            sign_command: None,
            wix: WixSettings::default(),
            nsis: NsisSettings::default(),
        }
    }
}

} // verus!

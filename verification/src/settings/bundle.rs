//! What is bundled, and how: the settings of a bundle and its binaries.

use vstd::prelude::*;
use crate::settings::linux::AppImageSettings;
use crate::settings::linux::DebianSettings;
use crate::settings::linux::RpmSettings;
use crate::settings::macos::DmgSettings;
use crate::settings::macos::MacOsSettings;
use crate::settings::windows::WindowsSettings;

verus! {

/// The category of the application on each platform.
#[derive(Debug, Clone)]
pub struct CategorySettings {
    /// The category on Linux.
    pub linux: Option<String>,
    /// The category on macOS.
    pub macos: Option<String>,
    /// The category on Windows.
    pub windows: Option<String>,
}

/// The settings of a bundle.
#[derive(Debug, Clone)]
pub struct BundleSettings {
    /// The identifier, such as `com.example.app`.
    pub identifier: Option<String>,
    /// The publisher.
    pub publisher: Option<String>,
    /// The icon files.
    pub icon: Option<Vec<String>>,
    /// The macOS icon.
    pub icns: Option<String>,
    /// The Windows icon.
    pub ico: Option<String>,
    /// Resources to bundle.
    pub resources: Option<Vec<String>>,
    /// The copyright line.
    pub copyright: Option<String>,
    /// The category.
    pub category: Option<CategorySettings>,
    /// A short description.
    pub short_description: Option<String>,
    /// A long description.
    pub long_description: Option<String>,
    /// External binaries to bundle.
    pub external_bin: Option<Vec<String>>,
    /// Settings of the Debian package.
    pub deb: DebianSettings,
    /// Settings of the RPM package.
    pub rpm: RpmSettings,
    /// Settings of the AppImage.
    pub appimage: AppImageSettings,
    /// Settings of the macOS bundle.
    pub macos: MacOsSettings,
    /// Settings of the disk image.
    pub dmg: DmgSettings,
    /// Settings of the Windows installers.
    pub windows: WindowsSettings,
}

/// A binary to bundle.
#[derive(Clone, Debug)]
pub struct BundleBinary {
    name: String,
    main: bool,
    src_path: Option<String>,
}

impl Default for CategorySettings {
    /// No category anywhere.
    fn default() -> (r: CategorySettings)
        ensures
            r.linux is None,
            r.macos is None,
            r.windows is None,
    {
        CategorySettings { linux: None, macos: None, windows: None }
    }
}

impl Default for BundleSettings {
    /// Nothing set; each platform with its own defaults.
    fn default() -> (r: BundleSettings)
        ensures
            r.identifier is None,
            r.publisher is None,
            r.icon is None,
            r.icns is None,
            r.ico is None,
            r.resources is None,
            r.copyright is None,
            r.category is None,
            r.short_description is None,
            r.long_description is None,
            r.external_bin is None,
            r.rpm.release@ == "1"@,
            r.macos.signing_identity is None,
            r.macos.entitlements is None,
            r.dmg.background is None,
            r.dmg.window_size is None,
            r.windows.nsis.installer_icon is None,
    {
        BundleSettings {
            identifier: None,
            publisher: None,
            icon: None,
            icns: None,
            ico: None,
            resources: None,
            copyright: None,
            category: None,
            short_description: None,
            long_description: None,
            external_bin: None,
            deb: DebianSettings::default(),
            rpm: RpmSettings::default(),
            appimage: AppImageSettings::default(),
            macos: MacOsSettings::default(),
            dmg: DmgSettings::default(),
            windows: WindowsSettings::default(),
        }
    }
}

impl BundleBinary {
    /// The name of the binary.
    pub closed spec fn spec_name(&self) -> Seq<char> {
        self.name@
    }

    /// Whether this is the main executable.
    pub closed spec fn spec_main(&self) -> bool {
        self.main
    }

    /// The source path, where one is set.
    pub closed spec fn spec_src_path(&self) -> Option<Seq<char>> {
        match self.src_path {
            Some(p) => Some(p@),
            None => None,
        }
    }

    /// A binary without a source path.
    pub fn new(name: String, main: bool) -> (r: Self)
        ensures
            r.spec_name() == name@,
            r.spec_main() == main,
            r.spec_src_path() is None,
    {
        Self { name, main, src_path: None }
    }

    /// A binary with the given source path.
    pub fn with_path(name: String, main: bool, src_path: Option<String>) -> (r: Self)
        ensures
            r.spec_name() == name@,
            r.spec_main() == main,
            r.spec_src_path() == match src_path {
                Some(p) => Some(p@),
                None => None,
            },
    {
        Self { name, src_path, main }
    }

    /// Says whether this is the main executable.
    pub fn set_main(&mut self, main: bool)
        ensures
            final(self).spec_main() == main,
            final(self).spec_name() == old(self).spec_name(),
            final(self).spec_src_path() == old(self).spec_src_path(),
    {
        self.main = main;
    }

    /// Gives the binary another name.
    pub fn set_name(&mut self, name: String)
        ensures
            final(self).spec_name() == name@,
            final(self).spec_main() == old(self).spec_main(),
            final(self).spec_src_path() == old(self).spec_src_path(),
    {
        self.name = name;
    }

    /// The binary with another source path.
    pub fn set_src_path(self, src_path: Option<String>) -> (r: Self)
        ensures
            r.spec_name() == self.spec_name(),
            r.spec_main() == self.spec_main(),
            r.spec_src_path() == match src_path {
                Some(p) => Some(p@),
                None => None,
            },
    {
        Self { name: self.name, main: self.main, src_path }
    }

    /// Whether this is the main executable.
    pub fn main(&self) -> (r: bool)
        ensures
            r == self.spec_main(),
    {
        self.main
    }

    /// The name of the binary.
    pub fn name(&self) -> (r: &str)
        ensures
            r@ == self.spec_name(),
    {
        self.name.as_str()
    }

    /// The source path, where one is set.
    pub fn src_path(&self) -> (r: Option<&String>)
        ensures
            match r {
                Some(p) => self.spec_src_path() == Some(p@),
                None => self.spec_src_path() is None,
            },
    {
        self.src_path.as_ref()
    }
}

} // verus!

//! Putting settings together step by step.

use vstd::prelude::*;
use vstd::string::StringExecFns;
use crate::error::ProducerError;
use crate::package::PackageType;
use crate::settings::bundle::BundleBinary;
use crate::settings::bundle::BundleSettings;
use crate::settings::config::Settings;
use crate::settings::package::PackageSettings;

verus! {

/// Collects the parts of `Settings`; the package metadata and the output
/// directory have to be given before `build`.
#[derive(Debug)]
pub struct SettingsBuilder {
    project_out_directory: Option<String>,
    package_settings: Option<PackageSettings>,
    bundle_settings: BundleSettings,
    package_types: Option<Vec<PackageType>>,
    binaries: Vec<BundleBinary>,
    target: Option<String>,
}

impl SettingsBuilder {
    /// The output directory, where it has been set.
    pub closed spec fn out_dir(&self) -> Option<Seq<char>> {
        match self.project_out_directory {
            Some(d) => Some(d@),
            None => None,
        }
    }

    /// The package metadata, where it has been set.
    pub closed spec fn package(&self) -> Option<PackageSettings> {
        self.package_settings
    }

    /// The bundle settings.
    pub closed spec fn bundle(&self) -> BundleSettings {
        self.bundle_settings
    }

    /// The package types asked for, where any have been set.
    pub closed spec fn requested_types(&self) -> Option<Seq<PackageType>> {
        match self.package_types {
            Some(types) => Some(types@),
            None => None,
        }
    }

    /// The binaries to bundle.
    pub closed spec fn binary_list(&self) -> Seq<BundleBinary> {
        self.binaries@
    }

    /// The target triple, where it has been set.
    pub closed spec fn target_triple(&self) -> Option<Seq<char>> {
        match self.target {
            Some(t) => Some(t@),
            None => None,
        }
    }

    /// The rest of the builder is as in `other`, whatever this call changed.
    pub open spec fn same_but_out_dir(&self, other: &Self) -> bool {
        &&& self.package() == other.package()
        &&& self.bundle() == other.bundle()
        &&& self.requested_types() == other.requested_types()
        &&& self.binary_list() == other.binary_list()
        &&& self.target_triple() == other.target_triple()
    }

    /// A builder with nothing set, no binaries and default bundle settings.
    pub fn new() -> (r: Self)
        ensures
            r.out_dir() is None,
            r.package() is None,
            r.requested_types() is None,
            r.binary_list().len() == 0,
            r.target_triple() is None,
            r.bundle().icon is None,
    {
        Self {
            project_out_directory: None,
            package_settings: None,
            bundle_settings: BundleSettings::default(),
            package_types: None,
            binaries: Vec::new(),
            target: None,
        }
    }

    /// Sets the directory that holds the binaries.
    pub fn project_out_directory(self, path: &str) -> (r: Self)
        ensures
            r.out_dir() == Some(path@),
            r.same_but_out_dir(&self),
    {
        Self {
            project_out_directory: Some(String::from_str(path)),
            package_settings: self.package_settings,
            bundle_settings: self.bundle_settings,
            package_types: self.package_types,
            binaries: self.binaries,
            target: self.target,
        }
    }

    /// Sets the package metadata.
    pub fn package_settings(self, settings: PackageSettings) -> (r: Self)
        ensures
            r.package() == Some(settings),
            r.out_dir() == self.out_dir(),
            r.bundle() == self.bundle(),
            r.requested_types() == self.requested_types(),
            r.binary_list() == self.binary_list(),
            r.target_triple() == self.target_triple(),
    {
        Self {
            project_out_directory: self.project_out_directory,
            package_settings: Some(settings),
            bundle_settings: self.bundle_settings,
            package_types: self.package_types,
            binaries: self.binaries,
            target: self.target,
        }
    }

    /// Sets the bundle settings.
    pub fn bundle_settings(self, settings: BundleSettings) -> (r: Self)
        ensures
            r.bundle() == settings,
            r.out_dir() == self.out_dir(),
            r.package() == self.package(),
            r.requested_types() == self.requested_types(),
            r.binary_list() == self.binary_list(),
            r.target_triple() == self.target_triple(),
    {
        Self {
            project_out_directory: self.project_out_directory,
            package_settings: self.package_settings,
            bundle_settings: settings,
            package_types: self.package_types,
            binaries: self.binaries,
            target: self.target,
        }
    }

    /// Sets the package types to build.
    pub fn package_types(self, types: Vec<PackageType>) -> (r: Self)
        ensures
            r.requested_types() == Some(types@),
            r.out_dir() == self.out_dir(),
            r.package() == self.package(),
            r.bundle() == self.bundle(),
            r.binary_list() == self.binary_list(),
            r.target_triple() == self.target_triple(),
    {
        Self {
            project_out_directory: self.project_out_directory,
            package_settings: self.package_settings,
            bundle_settings: self.bundle_settings,
            package_types: Some(types),
            binaries: self.binaries,
            target: self.target,
        }
    }

    /// Sets the binaries to bundle.
    pub fn binaries(self, binaries: Vec<BundleBinary>) -> (r: Self)
        ensures
            r.binary_list() == binaries@,
            r.out_dir() == self.out_dir(),
            r.package() == self.package(),
            r.bundle() == self.bundle(),
            r.requested_types() == self.requested_types(),
            r.target_triple() == self.target_triple(),
    {
        Self {
            project_out_directory: self.project_out_directory,
            package_settings: self.package_settings,
            bundle_settings: self.bundle_settings,
            package_types: self.package_types,
            binaries,
            target: self.target,
        }
    }

    /// Sets the target triple.
    pub fn target(self, target: String) -> (r: Self)
        ensures
            r.target_triple() == Some(target@),
            r.out_dir() == self.out_dir(),
            r.package() == self.package(),
            r.bundle() == self.bundle(),
            r.requested_types() == self.requested_types(),
            r.binary_list() == self.binary_list(),
    {
        Self {
            project_out_directory: self.project_out_directory,
            package_settings: self.package_settings,
            bundle_settings: self.bundle_settings,
            package_types: self.package_types,
            binaries: self.binaries,
            target: Some(target),
        }
    }

    /// The settings, where the package metadata and the output directory
    /// were given. Where no target was set, `host_target` is taken.
    pub fn build(self, host_target: &str) -> (r: Result<Settings, ProducerError>)
        ensures
            match r {
                Ok(settings) => {
                    &&& self.package() == Some(settings.package())
                    &&& self.out_dir() == Some(settings.out_dir())
                    &&& settings.bundle() == self.bundle()
                    &&& settings.requested_types() == self.requested_types()
                    &&& settings.binary_list() == self.binary_list()
                    &&& settings.target_triple() == match self.target_triple() {
                        Some(t) => t,
                        None => host_target@,
                    }
                },
                Err(e) => {
                    &&& self.package() is None || self.out_dir() is None
                    &&& e matches ProducerError::GenericError(text) && text@ == if self.package() is None {
                        "package_settings is required"@
                    } else {
                        "project_out_directory is required"@
                    }
                },
            },
    {
        let target = match self.target {
            Some(t) => t,
            None => String::from_str(host_target),
        };
        let package = match self.package_settings {
            Some(p) => p,
            None => {
                return Err(ProducerError::GenericError(String::from_str("package_settings is required")));
            },
        };
        let out_dir = match self.project_out_directory {
            Some(d) => d,
            None => {
                return Err(
                    ProducerError::GenericError(String::from_str("project_out_directory is required")),
                );
            },
        };
        Ok(
            Settings::new(
                package,
                self.bundle_settings,
                out_dir,
                self.package_types,
                self.binaries,
                target,
            ),
        )
    }
}

impl Default for SettingsBuilder {
    /// A builder with nothing set.
    fn default() -> (r: SettingsBuilder)
        ensures
            r.out_dir() is None,
            r.package() is None,
            r.requested_types() is None,
            r.binary_list().len() == 0,
            r.target_triple() is None,
    {
        SettingsBuilder::new()
    }
}

} // verus!

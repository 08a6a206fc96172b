//! The settings of one bundling run.

use vstd::prelude::*;
use crate::error::ProducerError;
use crate::package::PackageType;
use crate::paths::join_path;
use crate::paths::path_join;
use crate::paths::path_with_extension;
use crate::paths::with_extension;
use crate::settings::arch::Arch;
use crate::settings::bundle::BundleBinary;
use crate::settings::bundle::BundleSettings;
use crate::settings::package::PackageSettings;
use crate::text::ends_with;
use crate::text::starts_with;
use crate::text::str_ends_with;
use crate::text::str_starts_with;

verus! {

/// Everything a bundling run is told: the package, the bundle, where the
/// binaries lie, which package types are wanted, and for which target.
#[derive(Clone, Debug)]
pub struct Settings {
    package: PackageSettings,
    bundle_settings: BundleSettings,
    project_out_directory: String,
    package_types: Option<Vec<PackageType>>,
    binaries: Vec<BundleBinary>,
    target: String,
}

/// The architecture that a target triple names: by its first component, and
/// x86_64 where that is not known.
pub open spec fn arch_of_target(target: Seq<char>) -> Arch {
    if starts_with(target, "x86_64"@) {
        Arch::X86_64
    } else if starts_with(target, "i"@) {
        Arch::X86
    } else if starts_with(target, "aarch64"@) {
        Arch::AArch64
    } else if starts_with(target, "arm"@) && ends_with(target, "hf"@) {
        Arch::Armhf
    } else if starts_with(target, "arm"@) {
        Arch::Armel
    } else if starts_with(target, "riscv64"@) {
        Arch::Riscv64
    } else {
        Arch::X86_64
    }
}

impl Settings {
    /// The package metadata.
    pub closed spec fn package(&self) -> PackageSettings {
        self.package
    }

    /// The bundle settings.
    pub closed spec fn bundle(&self) -> BundleSettings {
        self.bundle_settings
    }

    /// The directory that holds the binaries, and below which bundles are written.
    pub closed spec fn out_dir(&self) -> Seq<char> {
        self.project_out_directory@
    }

    /// The package types asked for, where any are.
    pub closed spec fn requested_types(&self) -> Option<Seq<PackageType>> {
        match self.package_types {
            Some(types) => Some(types@),
            None => None,
        }
    }

    /// The binaries to bundle.
    pub closed spec fn binary_list(&self) -> Seq<BundleBinary> {
        self.binaries@
    }

    /// The target triple.
    pub closed spec fn target_triple(&self) -> Seq<char> {
        self.target@
    }

    /// The name of the product.
    pub fn product_name(&self) -> (r: &str)
        ensures
            r@ == self.package().product_name@,
    {
        self.package.product_name.as_str()
    }

    /// The version.
    pub fn version_string(&self) -> (r: &str)
        ensures
            r@ == self.package().version@,
    {
        self.package.version.as_str()
    }

    /// The description.
    pub fn description(&self) -> (r: &str)
        ensures
            r@ == self.package().description@,
    {
        self.package.description.as_str()
    }

    /// The directory that holds the binaries.
    pub fn project_out_directory(&self) -> (r: &str)
        ensures
            r@ == self.out_dir(),
    {
        self.project_out_directory.as_str()
    }

    /// The architecture that the target triple names.
    pub fn binary_arch(&self) -> (r: Arch)
        ensures
            r == arch_of_target(self.target_triple()),
    {
        let target = self.target.as_str();
        if str_starts_with(target, "x86_64") {
            Arch::X86_64
        } else if str_starts_with(target, "i") {
            Arch::X86
        } else if str_starts_with(target, "aarch64") {
            Arch::AArch64
        } else if str_starts_with(target, "arm") && str_ends_with(target, "hf") {
            Arch::Armhf
        } else if str_starts_with(target, "arm") {
            Arch::Armel
        } else if str_starts_with(target, "riscv64") {
            Arch::Riscv64
        } else {
            Arch::X86_64
        }
    }

    /// The binaries to bundle.
    pub fn binaries(&self) -> (r: &Vec<BundleBinary>)
        ensures
            r@ == self.binary_list(),
    {
        &self.binaries
    }

    /// Where a binary lies on a host that is not Windows: under its name in
    /// the output directory.
    pub fn binary_path(&self, binary: &BundleBinary) -> (r: String)
        ensures
            r@ == path_join(self.out_dir(), binary.spec_name()),
    {
        join_path(self.project_out_directory.as_str(), binary.name())
    }

    /// Where a binary lies on the given host: under its name in the output
    /// directory, with the extension `exe` on a Windows host.
    pub fn binary_path_on(&self, binary: &BundleBinary, windows_host: bool) -> (r: String)
        ensures
            r@ == if windows_host {
                with_extension(path_join(self.out_dir(), binary.spec_name()), "exe"@)
            } else {
                path_join(self.out_dir(), binary.spec_name())
            },
    {
        let path = join_path(self.project_out_directory.as_str(), binary.name());
        if windows_host {
            path_with_extension(path.as_str(), "exe")
        } else {
            path
        }
    }

    /// The bundle settings.
    pub fn bundle_settings(&self) -> (r: &BundleSettings)
        ensures
            *r == self.bundle(),
    {
        &self.bundle_settings
    }

    /// The package types asked for; none means the defaults of the host.
    pub fn package_types(&self) -> (r: Option<&Vec<PackageType>>)
        ensures
            match r {
                Some(types) => self.requested_types() == Some(types@),
                None => self.requested_types() is None,
            },
    {
        self.package_types.as_ref()
    }

    /// The configured icon files, and an error where none are configured.
    pub fn icon_files(&self) -> (r: Result<&Vec<String>, ProducerError>)
        ensures
            match r {
                Ok(icons) => self.bundle().icon == Some(*icons),
                Err(e) => self.bundle().icon is None && e is IconPathError,
            },
    {
        match &self.bundle_settings.icon {
            Some(icons) => Ok(icons),
            None => Err(ProducerError::IconPathError),
        }
    }

    /// The homepage, where there is one.
    pub fn homepage(&self) -> (r: Option<&str>)
        ensures
            match r {
                Some(h) => self.package().homepage matches Some(p) && p@ == h@,
                None => self.package().homepage is None,
            },
    {
        match &self.package.homepage {
            Some(h) => Some(h.as_str()),
            None => None,
        }
    }

    /// The authors, where any are named.
    pub fn authors(&self) -> (r: Option<&Vec<String>>)
        ensures
            match r {
                Some(a) => self.package().authors == Some(*a),
                None => self.package().authors is None,
            },
    {
        self.package.authors.as_ref()
    }

    /// Settings made of their parts, each kept as given.
    pub fn new(
        package: PackageSettings,
        bundle_settings: BundleSettings,
        project_out_directory: String,
        package_types: Option<Vec<PackageType>>,
        binaries: Vec<BundleBinary>,
        target: String,
    ) -> (r: Self)
        ensures
            r.package() == package,
            r.bundle() == bundle_settings,
            r.out_dir() == project_out_directory@,
            r.requested_types() == match package_types {
                Some(types) => Some(types@),
                None => None,
            },
            r.binary_list() == binaries@,
            r.target_triple() == target@,
    {
        Self { package, bundle_settings, project_out_directory, package_types, binaries, target }
    }
}

} // verus!

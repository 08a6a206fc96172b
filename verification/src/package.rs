//! Package types and what follows from a package type alone.

use vstd::prelude::*;
use vstd::string::StringExecFns;
use crate::error::BundlerError;
use crate::error::CliError;
use crate::text::lower;
use crate::text::str_eq;
use crate::text::str_lower;

verus! {

/// The kinds of package the bundler can produce.
#[derive(Debug, Clone, Copy, PartialEq, Eq, Structural, Hash)]
pub enum PackageType {
    /// Debian package (`.deb`).
    Deb,
    /// RPM package (`.rpm`).
    Rpm,
    /// Portable Linux application (`.AppImage`).
    AppImage,
    /// macOS application bundle (`.app`).
    MacOsBundle,
    /// macOS disk image (`.dmg`).
    Dmg,
    /// Windows NSIS installer (`.exe`).
    Exe,
}

/// One produced package: its files, their total size and the content digest.
#[derive(Debug, Clone)]
pub struct BundledArtifact {
    /// The package type that was built.
    pub package_type: PackageType,
    /// The files or directories produced, at least one.
    pub paths: Vec<String>,
    /// The sum of the sizes of all paths, in bytes.
    pub size: u64,
    /// The lower-case hex digest of the first path.
    pub checksum: String,
}

/// The name a package type goes by on the command line and in directory names.
pub open spec fn package_type_name(t: PackageType) -> Seq<char> {
    match t {
        PackageType::Deb => "deb"@,
        PackageType::Rpm => "rpm"@,
        PackageType::AppImage => "appimage"@,
        PackageType::MacOsBundle => "macos-bundle"@,
        PackageType::Dmg => "dmg"@,
        PackageType::Exe => "nsis"@,
    }
}

/// The package type that a lower-case platform name stands for.
pub open spec fn package_type_of_name(name: Seq<char>) -> Option<PackageType> {
    if name == "deb"@ {
        Some(PackageType::Deb)
    } else if name == "rpm"@ {
        Some(PackageType::Rpm)
    } else if name == "appimage"@ {
        Some(PackageType::AppImage)
    } else if name == "dmg"@ {
        Some(PackageType::Dmg)
    } else if name == "macos-bundle"@ || name == "app"@ {
        Some(PackageType::MacOsBundle)
    } else if name == "exe"@ || name == "nsis"@ {
        Some(PackageType::Exe)
    } else {
        None
    }
}

/// The host operating system that builds a package type natively.
pub open spec fn required_os(t: PackageType) -> Seq<char> {
    match t {
        PackageType::Deb | PackageType::Rpm | PackageType::AppImage => "linux"@,
        PackageType::Dmg | PackageType::MacOsBundle => "macos"@,
        PackageType::Exe => "windows"@,
    }
}

/// The text of the error for a platform name that stands for no package type.
pub open spec fn unsupported_platform_text(platform: Seq<char>) -> Seq<char> {
    "Unsupported platform '"@ + platform + "'. Valid: deb, rpm, appimage, dmg, nsis"@
}

/// The name of a package type, as `package_type_name` gives it.
pub fn platform_type_to_string(t: PackageType) -> (r: &'static str)
    ensures
        r@ == package_type_name(t),
{
    match t {
        PackageType::Deb => "deb",
        PackageType::Rpm => "rpm",
        PackageType::AppImage => "appimage",
        PackageType::MacOsBundle => "macos-bundle",
        PackageType::Dmg => "dmg",
        PackageType::Exe => "nsis",
    }
}

/// Reads a platform name, in any mix of ASCII upper and lower case.
pub fn parse_platform_string(platform: &str) -> (r: Result<PackageType, BundlerError>)
    ensures
        match r {
            Ok(t) => package_type_of_name(lower(platform@)) == Some(t),
            Err(e) => {
                &&& package_type_of_name(lower(platform@)) is None
                &&& e matches BundlerError::Cli(CliError::InvalidArguments { reason })
                    && reason@ == unsupported_platform_text(platform@)
            },
        },
{
    let name = str_lower(platform);
    if str_eq(name.as_str(), "deb") {
        Ok(PackageType::Deb)
    } else if str_eq(name.as_str(), "rpm") {
        Ok(PackageType::Rpm)
    } else if str_eq(name.as_str(), "appimage") {
        Ok(PackageType::AppImage)
    } else if str_eq(name.as_str(), "dmg") {
        Ok(PackageType::Dmg)
    } else if str_eq(name.as_str(), "macos-bundle") || str_eq(name.as_str(), "app") {
        Ok(PackageType::MacOsBundle)
    } else if str_eq(name.as_str(), "exe") || str_eq(name.as_str(), "nsis") {
        Ok(PackageType::Exe)
    } else {
        let mut reason = String::from_str("Unsupported platform '");
        reason.append(platform);
        reason.append("'. Valid: deb, rpm, appimage, dmg, nsis");
        Err(BundlerError::Cli(CliError::InvalidArguments { reason }))
    }
}

/// The name of a package type as shown to a person.
pub fn platform_display_name(package_type: &PackageType) -> (r: &'static str)
    ensures
        r@ == match *package_type {
            PackageType::Deb => "Debian Package (.deb)"@,
            PackageType::Rpm => "RedHat Package (.rpm)"@,
            PackageType::AppImage => "Linux AppImage"@,
            PackageType::Dmg => "macOS Disk Image (.dmg)"@,
            PackageType::MacOsBundle => "macOS Application Bundle (.app)"@,
            PackageType::Exe => "Windows NSIS Installer (.exe)"@,
        },
{
    match package_type {
        PackageType::Deb => "Debian Package (.deb)",
        PackageType::Rpm => "RedHat Package (.rpm)",
        PackageType::AppImage => "Linux AppImage",
        PackageType::Dmg => "macOS Disk Image (.dmg)",
        PackageType::MacOsBundle => "macOS Application Bundle (.app)",
        PackageType::Exe => "Windows NSIS Installer (.exe)",
    }
}

/// The host operating system that builds a package type natively.
pub fn required_os_for_package(package_type: &PackageType) -> (r: &'static str)
    ensures
        r@ == required_os(*package_type),
{
    match package_type {
        PackageType::Deb | PackageType::Rpm | PackageType::AppImage => "linux",
        PackageType::Dmg | PackageType::MacOsBundle => "macos",
        PackageType::Exe => "windows",
    }
}

/// Whether a package type has to be built in a container: never from inside
/// a container, and otherwise exactly when the host is not the operating
/// system that the package type requires.
pub fn needs_docker(package_type: &PackageType, in_container: bool, current_os: &str) -> (r: bool)
    ensures
        r == (!in_container && required_os(*package_type) != current_os@),
{
    if in_container {
        return false;
    }
    !str_eq(required_os_for_package(package_type), current_os)
}

/// Whether the control groups of the first process name a container runtime.
pub open spec fn cgroup_names_container(cgroup: Seq<char>) -> bool {
    crate::text::contains(cgroup, "docker"@) || crate::text::contains(cgroup, "buildkit"@)
}

/// Whether the bundler runs in a container itself: the runtime's marker
/// file exists; or else, where the control groups of the first process can
/// be read, they name a container runtime; or else, where they cannot be
/// read, the environment says so.
pub fn running_in_container(marker_exists: bool, cgroup: Option<&str>, env_says_so: bool) -> (r:
    bool)
    ensures
        r == (marker_exists || match cgroup {
            Some(text) => cgroup_names_container(text@),
            None => env_says_so,
        }),
{
    if marker_exists {
        return true;
    }
    match cgroup {
        Some(text) => crate::text::str_contains(text, "docker") || crate::text::str_contains(
            text,
            "buildkit",
        ),
        None => env_says_so,
    }
}

/// A package type's own name always reads back as that package type.
pub proof fn lemma_package_type_name_round_trip(t: PackageType)
    ensures
        package_type_of_name(package_type_name(t)) == Some(t),
        lower(package_type_name(t)) == package_type_name(t),
{
    reveal_strlit("deb");
    reveal_strlit("rpm");
    reveal_strlit("appimage");
    reveal_strlit("dmg");
    reveal_strlit("macos-bundle");
    reveal_strlit("app");
    reveal_strlit("exe");
    reveal_strlit("nsis");
    assert("deb"@.len() == 3 && "deb"@[0] == 'd' && "deb"@[1] == 'e');
    assert("rpm"@.len() == 3 && "rpm"@[0] == 'r');
    assert("appimage"@.len() == 8);
    assert("dmg"@.len() == 3 && "dmg"@[0] == 'd' && "dmg"@[1] == 'm');
    assert("macos-bundle"@.len() == 12);
    assert("nsis"@.len() == 4);
    assert(lower(package_type_name(t)) =~= package_type_name(t));
}

} // verus!

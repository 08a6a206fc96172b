//! What a package manifest says: the package, its binary and its bundle.

use vstd::prelude::*;
use vstd::string::StringExecFns;
use crate::error::BundlerError;
use crate::error::CliError;
use crate::paths::join_path;
use crate::paths::path_join;
use crate::settings::bundle::BundleSettings;

verus! {

/// The package section of a manifest.
#[derive(Debug)]
pub struct PackageMetadata {
    /// The name of the package.
    pub name: String,
    /// The description; `Rust application` where the manifest has none.
    pub description: String,
    /// The version.
    pub version: String,
    /// The authors.
    pub authors: Vec<String>,
    /// The license.
    pub license: Option<String>,
    /// The homepage.
    pub homepage: Option<String>,
    /// The repository to clone from.
    pub repository: Option<String>,
}

/// Everything taken from a manifest.
#[derive(Debug)]
pub struct CargoManifest {
    /// The package section.
    pub metadata: PackageMetadata,
    /// The name of the binary: that of the first binary target, or the package's.
    pub binary_name: String,
    /// The bundle settings.
    pub bundle_settings: BundleSettings,
}

/// The fields of a manifest as they were read, before anything is decided.
#[derive(Debug)]
pub struct ManifestFields {
    /// Whether the manifest has a package section.
    pub has_package: bool,
    /// The package's name, where it is a text.
    pub name: Option<String>,
    /// The package's description, where it is a text.
    pub description: Option<String>,
    /// The package's version, where it is a text.
    pub version: Option<String>,
    /// The authors that are texts.
    pub authors: Vec<String>,
    /// The license, where it is a text.
    pub license: Option<String>,
    /// The homepage, where it is a text.
    pub homepage: Option<String>,
    /// The repository, where it is a text.
    pub repository: Option<String>,
    /// The name of the first binary target, where there is one.
    pub first_bin_name: Option<String>,
    /// The bundle settings of the manifest, or the defaults.
    pub bundle_settings: BundleSettings,
}

/// Which of the conventional asset files exist below a package.
#[derive(Debug)]
pub struct AssetPresence {
    /// The directory `assets/img`.
    pub assets_dir: bool,
    /// `assets/img/icon.icns`.
    pub icns: bool,
    /// `assets/img/icon.ico`.
    pub ico: bool,
    /// For each of the ten Linux icon names, in their order, whether the file exists.
    pub png: Vec<bool>,
    /// `assets/entitlements.plist`.
    pub entitlements: bool,
}

/// The file names of the Linux icons, smallest first, each size followed by
/// its double-density variant.
pub open spec fn linux_icon_names() -> Seq<Seq<char>> {
    seq![
        "icon_16x16.png"@,
        "icon_16x16@2x.png"@,
        "icon_32x32.png"@,
        "icon_32x32@2x.png"@,
        "icon_128x128.png"@,
        "icon_128x128@2x.png"@,
        "icon_256x256.png"@,
        "icon_256x256@2x.png"@,
        "icon_512x512.png"@,
        "icon_512x512@2x.png"@,
    ]
}

/// The directory of the icons below a package.
pub open spec fn assets_dir(package_root: Seq<char>) -> Seq<char> {
    path_join(path_join(package_root, "assets"@), "img"@)
}

/// The Linux icons that exist, as paths, in the order of their names.
pub open spec fn found_icons(package_root: Seq<char>, png: Seq<bool>, upto: int) -> Seq<Seq<char>>
    decreases upto,
{
    if upto <= 0 {
        Seq::empty()
    } else if upto <= png.len() && upto <= 10 && png[upto - 1] {
        found_icons(package_root, png, upto - 1).push(
            path_join(assets_dir(package_root), linux_icon_names()[upto - 1]),
        )
    } else {
        found_icons(package_root, png, upto - 1)
    }
}

/// Everything that asset discovery leaves alone is the same in both settings.
pub open spec fn untouched_by_assets(a: BundleSettings, b: BundleSettings) -> bool {
    &&& a.identifier == b.identifier
    &&& a.publisher == b.publisher
    &&& a.resources == b.resources
    &&& a.copyright == b.copyright
    &&& a.category == b.category
    &&& a.short_description == b.short_description
    &&& a.long_description == b.long_description
    &&& a.external_bin == b.external_bin
    &&& a.deb == b.deb
    &&& a.rpm == b.rpm
    &&& a.appimage == b.appimage
    &&& a.dmg == b.dmg
    &&& a.macos.frameworks == b.macos.frameworks
    &&& a.macos.minimum_system_version == b.macos.minimum_system_version
    &&& a.macos.signing_identity == b.macos.signing_identity
    &&& a.macos.files == b.macos.files
    &&& a.macos.skip_notarization == b.macos.skip_notarization
    &&& a.macos.skip_stapling == b.macos.skip_stapling
    &&& a.windows.cert_path == b.windows.cert_path
    &&& a.windows.key_path == b.windows.key_path
    &&& a.windows.password == b.windows.password
    &&& a.windows.timestamp_url == b.windows.timestamp_url
    &&& a.windows.sign_command == b.windows.sign_command
    &&& a.windows.wix == b.windows.wix
    &&& a.windows.nsis.template == b.windows.nsis.template
    &&& a.windows.nsis.header_image == b.windows.nsis.header_image
    &&& a.windows.nsis.sidebar_image == b.windows.nsis.sidebar_image
    &&& a.windows.nsis.install_mode == b.windows.nsis.install_mode
    &&& a.windows.nsis.languages == b.windows.nsis.languages
    &&& a.windows.nsis.compression == b.windows.nsis.compression
}

/// The text of the error for a manifest that lacks what is needed, if it does.
pub open spec fn manifest_defect(fields: ManifestFields) -> Option<Seq<char>> {
    if !fields.has_package {
        Some("No [package] section in Cargo.toml"@)
    } else if fields.name is None {
        Some("Missing 'name' in [package]"@)
    } else if fields.version is None {
        Some("Missing 'version' in [package]"@)
    } else {
        None
    }
}

/// The names of the Linux icons.
pub fn linux_icon_file_names() -> (r: Vec<&'static str>)
    ensures
        r.len() == 10,
        forall|i: int| 0 <= i < 10 ==> (#[trigger] r[i])@ == linux_icon_names()[i],
{
    let mut r: Vec<&'static str> = Vec::new();
    r.push("icon_16x16.png");
    r.push("icon_16x16@2x.png");
    r.push("icon_32x32.png");
    r.push("icon_32x32@2x.png");
    r.push("icon_128x128.png");
    r.push("icon_128x128@2x.png");
    r.push("icon_256x256.png");
    r.push("icon_256x256@2x.png");
    r.push("icon_512x512.png");
    r.push("icon_512x512@2x.png");
    r
}

/// The manifest that the fields make. A manifest needs a package section
/// with a name and a version; a missing description has a default, and the
/// binary is named after the package where no binary target is declared.
pub fn load_manifest(fields: ManifestFields) -> (r: Result<CargoManifest, BundlerError>)
    ensures
        match r {
            Ok(manifest) => {
                &&& manifest_defect(fields) is None
                &&& fields.name == Some(manifest.metadata.name)
                &&& fields.version == Some(manifest.metadata.version)
                &&& manifest.metadata.description@ == match fields.description {
                    Some(d) => d@,
                    None => "Rust application"@,
                }
                &&& manifest.metadata.authors == fields.authors
                &&& manifest.metadata.license == fields.license
                &&& manifest.metadata.homepage == fields.homepage
                &&& manifest.metadata.repository == fields.repository
                &&& manifest.binary_name@ == match fields.first_bin_name {
                    Some(b) => b@,
                    None => manifest.metadata.name@,
                }
                &&& manifest.bundle_settings == fields.bundle_settings
            },
            Err(e) => {
                &&& manifest_defect(fields) matches Some(text)
                &&& e matches BundlerError::Cli(CliError::InvalidArguments { reason }) && Some(
                    reason@,
                ) == manifest_defect(fields)
            },
        },
{
    if !fields.has_package {
        return Err(invalid("No [package] section in Cargo.toml"));
    }
    let name = match fields.name {
        Some(n) => n,
        None => {
            return Err(invalid("Missing 'name' in [package]"));
        },
    };
    let version = match fields.version {
        Some(v) => v,
        None => {
            return Err(invalid("Missing 'version' in [package]"));
        },
    };
    let description = match fields.description {
        Some(d) => d,
        None => String::from_str("Rust application"),
    };
    let binary_name = match fields.first_bin_name {
        Some(b) => b,
        None => String::from_str(name.as_str()),
    };
    Ok(
        CargoManifest {
            metadata: PackageMetadata {
                name,
                description,
                version,
                authors: fields.authors,
                license: fields.license,
                homepage: fields.homepage,
                repository: fields.repository,
            },
            binary_name,
            bundle_settings: fields.bundle_settings,
        },
    )
}

fn invalid(text: &str) -> (e: BundlerError)
    ensures
        e matches BundlerError::Cli(CliError::InvalidArguments { reason }) && reason@ == text@,
{
    BundlerError::Cli(CliError::InvalidArguments { reason: String::from_str(text) })
}

/// Enters the asset files that exist into the bundle settings: the macOS
/// and Windows icons, the latter also as the installer's icon, the Linux
/// icons that exist in the order of their names, and the entitlements.
/// Without the assets directory nothing is changed; what does not exist
/// leaves its setting as it was.
pub fn discover_bundle_assets(package_root: &str, present: &AssetPresence, settings: &mut BundleSettings) -> (r:
    Result<(), BundlerError>)
    ensures
        r is Ok,
        !present.assets_dir ==> *final(settings) == *old(settings),
        untouched_by_assets(*old(settings), *final(settings)),
        present.assets_dir ==> {
            &&& if present.icns {
                final(settings).icns matches Some(p) && p@ == path_join(
                    assets_dir(package_root@),
                    "icon.icns"@,
                )
            } else {
                final(settings).icns == old(settings).icns
            }
            &&& if present.ico {
                &&& final(settings).ico matches Some(p) && p@ == path_join(
                    assets_dir(package_root@),
                    "icon.ico"@,
                )
                &&& final(settings).windows.nsis.installer_icon matches Some(p) && p@ == path_join(
                    assets_dir(package_root@),
                    "icon.ico"@,
                )
            } else {
                &&& final(settings).ico == old(settings).ico
                &&& final(settings).windows.nsis.installer_icon == old(
                    settings,
                ).windows.nsis.installer_icon
            }
            &&& if found_icons(package_root@, present.png@, 10).len() > 0 {
                final(settings).icon matches Some(icons) && icons.deep_view() == found_icons(
                    package_root@,
                    present.png@,
                    10,
                )
            } else {
                final(settings).icon == old(settings).icon
            }
            &&& if present.entitlements {
                final(settings).macos.entitlements matches Some(p) && p@ == path_join(
                    path_join(package_root@, "assets"@),
                    "entitlements.plist"@,
                )
            } else {
                final(settings).macos.entitlements == old(settings).macos.entitlements
            }
        },
{
    if !present.assets_dir {
        return Ok(());
    }
    let assets = join_path(package_root, "assets");
    let dir = join_path(assets.as_str(), "img");
    if present.icns {
        settings.icns = Some(join_path(dir.as_str(), "icon.icns"));
    }
    if present.ico {
        settings.ico = Some(join_path(dir.as_str(), "icon.ico"));
        settings.windows.nsis.installer_icon = Some(join_path(dir.as_str(), "icon.ico"));
    }
    let names = linux_icon_file_names();
    let mut icons: Vec<String> = Vec::new();
    let mut i: usize = 0;
    proof {
        assert(icons.deep_view() =~= found_icons(package_root@, present.png@, 0));
    }
    while i < 10
        invariant
            i <= 10,
            names.len() == 10,
            dir@ == assets_dir(package_root@),
            forall|k: int| 0 <= k < 10 ==> (#[trigger] names[k])@ == linux_icon_names()[k],
            icons.deep_view() == found_icons(package_root@, present.png@, i as int),
        decreases 10 - i,
    {
        if i < present.png.len() && present.png[i] {
            let ghost before = icons.deep_view();
            icons.push(join_path(dir.as_str(), names[i]));
            proof {
                assert(icons.deep_view() =~= before.push(
                    path_join(assets_dir(package_root@), linux_icon_names()[i as int]),
                ));
            }
        }
        i += 1;
    }
    if icons.len() > 0 {
        settings.icon = Some(icons);
    }
    if present.entitlements {
        settings.macos.entitlements = Some(join_path(assets.as_str(), "entitlements.plist"));
    }
    Ok(())
}

} // verus!

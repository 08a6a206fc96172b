//! The macOS disk image: where it is written, in which format, and in which
//! order its steps are taken.

use vstd::prelude::*;
use vstd::string::StringExecFns;
use crate::paths::join_path;
use crate::paths::path_join;
use crate::paths::path_with_extension;
use crate::paths::with_extension;
use crate::settings::config::Settings;
use crate::text::push_decimal;
use crate::text::decimal;
use crate::text::str_eq;
use crate::text::to_chars;

verus! {

/// The width and height of the image's window where none is set.
pub const DEFAULT_WINDOW_WIDTH: u32 = 600;

/// The height of the image's window where none is set.
pub const DEFAULT_WINDOW_HEIGHT: u32 = 400;

/// How often the mount point is looked for, and how long is waited between
/// two looks, in milliseconds.
pub const MOUNT_RETRIES: u32 = 10;

/// How long is waited between two looks for the mount point, in milliseconds.
pub const MOUNT_RETRY_MILLIS: u64 = 500;

/// The format of a disk image.
#[derive(Debug, Clone, Copy, PartialEq, Eq, Structural)]
pub enum DmgFormat {
    /// Read-write, so that the window can be customized.
    Udrw,
    /// Compressed and read-only, for distribution.
    Udzo,
}

/// Where the application bundle of a disk image comes from.
#[derive(Debug)]
pub enum AppBundleSource {
    /// The bundle at this path exists and is taken as it is.
    Existing(String),
    /// There is no bundle yet: it has to be built first.
    Build,
}

/// One step of building a disk image.
#[derive(Debug, Clone, Copy, PartialEq, Eq, Structural)]
pub enum DmgStep {
    /// Take the existing application bundle, or build it.
    FindOrCreateApp,
    /// Create the output directory.
    CreateOutputDir,
    /// Copy the application bundle into the staging directory.
    StageApp,
    /// Sign the staged application bundle.
    SignApp,
    /// Notarize the staged application bundle.
    NotarizeApp,
    /// Link the applications folder into the staging directory.
    LinkApplications,
    /// Create the disk image from the staging directory.
    CreateImage(DmgFormat),
    /// Set the window's background and size.
    Customize,
    /// Convert the image to the compressed format.
    Compress,
    /// Sign the disk image.
    SignImage,
}

/// The window is customized where a background or a size is set.
pub open spec fn customized(settings: &Settings) -> bool {
    settings.bundle().dmg.background is Some || settings.bundle().dmg.window_size is Some
}

/// The disk image is signed where an identity is set that is not the mark
/// `-` of an ad-hoc signature.
pub open spec fn signs_dmg(settings: &Settings) -> bool {
    settings.bundle().macos.signing_identity matches Some(identity) && identity@ != "-"@
}

/// The file name of the disk image.
pub open spec fn dmg_name(settings: &Settings) -> Seq<char> {
    settings.package().product_name@ + "-"@ + settings.package().version@ + ".dmg"@
}

/// Where the disk image is written: below `bundle/dmg` of the output directory.
pub open spec fn dmg_path(settings: &Settings) -> Seq<char> {
    path_join(path_join(settings.out_dir(), "bundle/dmg"@), dmg_name(settings))
}

/// Where the application bundle is expected: below `bundle/macos` of the output directory.
pub open spec fn app_bundle_path(settings: &Settings) -> Seq<char> {
    path_join(
        path_join(settings.out_dir(), "bundle/macos"@),
        settings.package().product_name@ + ".app"@,
    )
}

/// The steps of building a disk image, in order. The staged application is
/// signed and notarized before the image is created from it; the image is
/// created read-write, customized and then compressed where its window is
/// customized, and compressed at once where it is not.
pub open spec fn dmg_steps(settings: &Settings, has_identity: bool, notarize: bool) -> Seq<DmgStep> {
    seq![DmgStep::FindOrCreateApp, DmgStep::CreateOutputDir, DmgStep::StageApp] + (if has_identity {
        seq![DmgStep::SignApp]
    } else {
        Seq::empty()
    }) + (if notarize {
        seq![DmgStep::NotarizeApp]
    } else {
        Seq::empty()
    }) + seq![DmgStep::LinkApplications] + (if customized(settings) {
        seq![DmgStep::CreateImage(DmgFormat::Udrw), DmgStep::Customize, DmgStep::Compress]
    } else {
        seq![DmgStep::CreateImage(DmgFormat::Udzo)]
    }) + (if signs_dmg(settings) {
        seq![DmgStep::SignImage]
    } else {
        Seq::empty()
    })
}

/// One character as it stands in an AppleScript text: a backslash before a
/// backslash and before a double quote.
pub open spec fn escaped_char(c: char) -> Seq<char> {
    if c == '\\' || c == '"' {
        seq!['\\', c]
    } else {
        seq![c]
    }
}

/// A text as it stands between the quotes of an AppleScript text.
pub open spec fn escaped(s: Seq<char>) -> Seq<char>
    decreases s.len(),
{
    if s.len() == 0 {
        Seq::empty()
    } else {
        escaped(s.drop_last()) + escaped_char(s.last())
    }
}

/// The name of a disk image format.
pub open spec fn format_name(format: DmgFormat) -> Seq<char> {
    match format {
        DmgFormat::Udrw => "UDRW"@,
        DmgFormat::Udzo => "UDZO"@,
    }
}

/// Whether the disk image is signed.
pub fn should_sign_dmg(settings: &Settings) -> (r: bool)
    ensures
        r == signs_dmg(settings),
{
    match &settings.bundle_settings().macos.signing_identity {
        Some(identity) => !str_eq(identity.as_str(), "-"),
        None => false,
    }
}

/// Whether the window of the disk image is customized.
pub fn needs_customization(settings: &Settings) -> (r: bool)
    ensures
        r == customized(settings),
{
    let dmg = &settings.bundle_settings().dmg;
    dmg.background.is_some() || dmg.window_size.is_some()
}

/// A text as it stands between the quotes of an AppleScript text.
pub fn escape_applescript_string(s: &str) -> (r: String)
    ensures
        r@ == escaped(s@),
{
    let v = to_chars(s);
    let mut r = String::new();
    let mut i: usize = 0;
    while i < v.len()
        invariant
            i <= v.len(),
            r@ == escaped(v@.subrange(0, i as int)),
        decreases v.len() - i,
    {
        let c = v[i];
        proof {
            assert(v@.subrange(0, i + 1).drop_last() =~= v@.subrange(0, i as int));
            assert(v@.subrange(0, i + 1).last() == c);
        }
        let ghost before = r@;
        if c == '\\' || c == '"' {
            r.push('\\');
        }
        r.push(c);
        proof {
            assert(r@ =~= before + escaped_char(c));
        }
        i += 1;
    }
    proof {
        assert(v@.subrange(0, v.len() as int) =~= v@);
    }
    r
}

/// Where the disk image of the settings' product is written.
pub fn dmg_output_path(settings: &Settings) -> (r: String)
    ensures
        r@ == dmg_path(settings),
{
    let dir = join_path(settings.project_out_directory(), "bundle/dmg");
    let mut name = String::from_str(settings.product_name());
    name.append("-");
    name.append(settings.version_string());
    name.append(".dmg");
    join_path(dir.as_str(), name.as_str())
}

/// Where the application bundle of the settings' product is expected.
pub fn expected_app_bundle(settings: &Settings) -> (r: String)
    ensures
        r@ == app_bundle_path(settings),
{
    let dir = join_path(settings.project_out_directory(), "bundle/macos");
    let mut name = String::from_str(settings.product_name());
    name.append(".app");
    join_path(dir.as_str(), name.as_str())
}

/// Where the application bundle comes from: an existing directory at the
/// expected place is taken as it is and not built again.
pub fn find_or_create_app_bundle(settings: &Settings, exists_as_directory: bool) -> (r:
    AppBundleSource)
    ensures
        match r {
            AppBundleSource::Existing(path) => exists_as_directory && path@ == app_bundle_path(
                settings,
            ),
            AppBundleSource::Build => !exists_as_directory,
        },
{
    if exists_as_directory {
        AppBundleSource::Existing(expected_app_bundle(settings))
    } else {
        AppBundleSource::Build
    }
}

/// The format in which the image is created.
pub fn creation_format(settings: &Settings) -> (r: DmgFormat)
    ensures
        r == if customized(settings) {
            DmgFormat::Udrw
        } else {
            DmgFormat::Udzo
        },
{
    if needs_customization(settings) {
        DmgFormat::Udrw
    } else {
        DmgFormat::Udzo
    }
}

/// The name of a disk image format.
pub fn dmg_format_name(format: DmgFormat) -> (r: &'static str)
    ensures
        r@ == format_name(format),
{
    match format {
        DmgFormat::Udrw => "UDRW",
        DmgFormat::Udzo => "UDZO",
    }
}

/// The arguments of the disk image tool that create the image.
pub fn create_dmg_args(settings: &Settings, staging_dir: &str, dmg: &str) -> (r: Vec<String>)
    ensures
        r.deep_view() == seq![
            "create"@,
            "-volname"@,
            settings.package().product_name@,
            "-srcfolder"@,
            staging_dir@,
            "-ov"@,
            "-format"@,
            format_name(
                if customized(settings) {
                    DmgFormat::Udrw
                } else {
                    DmgFormat::Udzo
                },
            ),
            dmg@,
        ],
{
    let format = creation_format(settings);
    let mut r: Vec<String> = Vec::new();
    r.push(String::from_str("create"));
    r.push(String::from_str("-volname"));
    r.push(String::from_str(settings.product_name()));
    r.push(String::from_str("-srcfolder"));
    r.push(String::from_str(staging_dir));
    r.push(String::from_str("-ov"));
    r.push(String::from_str("-format"));
    r.push(String::from_str(dmg_format_name(format)));
    r.push(String::from_str(dmg));
    proof {
        assert(r.deep_view() =~= seq![
            "create"@,
            "-volname"@,
            settings.package().product_name@,
            "-srcfolder"@,
            staging_dir@,
            "-ov"@,
            "-format"@,
            format_name(format),
            dmg@,
        ]);
    }
    r
}

/// The path at which the compressed image is written before it takes the
/// place of the read-write one.
pub fn compressed_dmg_path(dmg: &str) -> (r: String)
    ensures
        r@ == with_extension(dmg@, "dmg.compressed"@),
{
    path_with_extension(dmg, "dmg.compressed")
}

/// The arguments of the disk image tool that compress the image.
pub fn convert_dmg_args(dmg: &str) -> (r: Vec<String>)
    ensures
        r.deep_view() == seq![
            "convert"@,
            dmg@,
            "-format"@,
            "UDZO"@,
            "-o"@,
            with_extension(dmg@, "dmg.compressed"@),
        ],
{
    let mut r: Vec<String> = Vec::new();
    r.push(String::from_str("convert"));
    r.push(String::from_str(dmg));
    r.push(String::from_str("-format"));
    r.push(String::from_str("UDZO"));
    r.push(String::from_str("-o"));
    r.push(compressed_dmg_path(dmg));
    proof {
        assert(r.deep_view() =~= seq![
            "convert"@,
            dmg@,
            "-format"@,
            "UDZO"@,
            "-o"@,
            with_extension(dmg@, "dmg.compressed"@),
        ]);
    }
    r
}

/// The size of the image's window: the configured one, or 600 by 400.
pub fn window_size(settings: &Settings) -> (r: (u32, u32))
    ensures
        r == match settings.bundle().dmg.window_size {
            Some(size) => size,
            None => (600u32, 400u32),
        },
{
    match settings.bundle_settings().dmg.window_size {
        Some(size) => size,
        None => (DEFAULT_WINDOW_WIDTH, DEFAULT_WINDOW_HEIGHT),
    }
}

/// The right and lower edge of a window whose upper left corner is at 100, 100.
pub fn window_bounds(size: (u32, u32)) -> (r: (u64, u64))
    ensures
        r.0 == 100 + size.0,
        r.1 == 100 + size.1,
{
    (100 + size.0 as u64, 100 + size.1 as u64)
}

/// The steps of building the disk image, in order.
pub fn plan_dmg(settings: &Settings, has_identity: bool, notarize: bool) -> (r: Vec<DmgStep>)
    ensures
        r@ == dmg_steps(settings, has_identity, notarize),
{
    let mut r: Vec<DmgStep> = Vec::new();
    r.push(DmgStep::FindOrCreateApp);
    r.push(DmgStep::CreateOutputDir);
    r.push(DmgStep::StageApp);
    if has_identity {
        r.push(DmgStep::SignApp);
    }
    if notarize {
        r.push(DmgStep::NotarizeApp);
    }
    r.push(DmgStep::LinkApplications);
    if needs_customization(settings) {
        r.push(DmgStep::CreateImage(DmgFormat::Udrw));
        r.push(DmgStep::Customize);
        r.push(DmgStep::Compress);
    } else {
        r.push(DmgStep::CreateImage(DmgFormat::Udzo));
    }
    if should_sign_dmg(settings) {
        r.push(DmgStep::SignImage);
    }
    proof {
        assert(r@ =~= dmg_steps(settings, has_identity, notarize));
    }
    r
}

/// Signing and notarizing the application come before the image is created,
/// whatever the settings are.
pub proof fn lemma_signing_precedes_image(settings: &Settings, has_identity: bool, notarize: bool, i: int, j: int)
    requires
        0 <= i < dmg_steps(settings, has_identity, notarize).len(),
        0 <= j < dmg_steps(settings, has_identity, notarize).len(),
        dmg_steps(settings, has_identity, notarize)[i] == DmgStep::SignApp || dmg_steps(
            settings,
            has_identity,
            notarize,
        )[i] == DmgStep::NotarizeApp,
        dmg_steps(settings, has_identity, notarize)[j] is CreateImage,
    ensures
        i < j,
{
}

} // verus!

//! The AppImage: names of architectures, where the image and its tools lie,
//! and what the desktop entry says.

use vstd::prelude::*;
use vstd::string::StringExecFns;
use crate::error::ProducerError;
use crate::paths::extension;
use crate::paths::join_path;
use crate::paths::path_extension;
use crate::paths::path_join;
use crate::platform::nsis::arch_name;
use crate::platform::nsis::arch_of;
use crate::settings::arch::Arch;
use crate::settings::bundle::BundleBinary;
use crate::settings::config::Settings;
use crate::text::str_eq;

verus! {

/// Where the deploy tool is downloaded from.
pub const LINUXDEPLOY_BASE_URL: &'static str =
    "https://github.com/linuxdeploy/linuxdeploy/releases/download/continuous";

/// The name under which the icon is linked in the application directory.
pub const DIR_ICON_NAME: &'static str = ".DirIcon";

/// The name of the deploy tool's entry point once it is extracted.
pub const APPRUN_NAME: &'static str = "AppRun";

/// The argument with which the deploy tool extracts itself.
pub const EXTRACT_ARGUMENT: &'static str = "--appimage-extract";

/// The directory that the deploy tool extracts itself into.
pub const EXTRACTED_ROOT_NAME: &'static str = "squashfs-root";

/// What has to be done to have the deploy tool at hand.
#[derive(Debug, Clone, Copy, PartialEq, Eq, Structural)]
pub enum ToolPreparation {
    /// The extracted tool is there already.
    Ready,
    /// The tool is downloaded already and has to be extracted.
    Extract,
    /// The tool has to be downloaded and extracted.
    DownloadAndExtract,
}

/// The name of an architecture for an AppImage, where it has one.
pub open spec fn appimage_arch_name(arch: Arch) -> Option<Seq<char>> {
    match arch {
        Arch::X86_64 => Some("x86_64"@),
        Arch::X86 => Some("i386"@),
        Arch::AArch64 => Some("aarch64"@),
        _ => None,
    }
}

/// The directory of everything that belongs to the AppImage.
pub open spec fn appimage_dir(settings: &Settings) -> Seq<char> {
    path_join(settings.out_dir(), "bundle/appimage"@)
}

/// Where the AppImage is written: below `bundle/appimage` of the output directory.
pub open spec fn appimage_path(settings: &Settings, arch: Seq<char>) -> Seq<char> {
    path_join(
        appimage_dir(settings),
        settings.package().product_name@ + "-"@ + settings.package().version@ + "-"@ + arch
            + ".AppImage"@,
    )
}

/// The file name of the deploy tool.
pub open spec fn tool_name(arch: Seq<char>) -> Seq<char> {
    "linuxdeploy-"@ + arch + ".AppImage"@
}

/// The index of the first main binary, or -1 where none is main.
pub open spec fn first_main(binaries: Seq<BundleBinary>) -> int
    decreases binaries.len(),
{
    if binaries.len() == 0 {
        -1
    } else if first_main(binaries.drop_last()) >= 0 {
        first_main(binaries.drop_last())
    } else if binaries.last().spec_main() {
        binaries.len() - 1
    } else {
        -1
    }
}

/// The index of the first icon with the extension `png`, or -1.
pub open spec fn first_png(icons: Seq<String>) -> int
    decreases icons.len(),
{
    if icons.len() == 0 {
        -1
    } else if first_png(icons.drop_last()) >= 0 {
        first_png(icons.drop_last())
    } else if extension(icons.last()@) == Some("png"@) {
        icons.len() - 1
    } else {
        -1
    }
}

/// The desktop entry of the application with the main binary `exec`.
pub open spec fn desktop_entry_text(settings: &Settings, exec: Seq<char>) -> Seq<char> {
    "[Desktop Entry]\nType=Application\nName="@ + settings.package().product_name@ + "\nExec="@
        + exec + "\nIcon="@ + settings.package().product_name@ + "\n"@ + (if settings.package().description@.len()
        > 0 {
        "Comment="@ + settings.package().description@ + "\n"@
    } else {
        Seq::empty()
    }) + (match linux_category(settings) {
        Some(category) => "Categories="@ + category + "\n"@,
        None => Seq::empty(),
    }) + "Terminal=false\n"@
}

/// The category of the application on Linux, where one is set.
pub open spec fn linux_category(settings: &Settings) -> Option<Seq<char>> {
    match settings.bundle().category {
        Some(category) => match category.linux {
            Some(text) => Some(text@),
            None => None,
        },
        None => None,
    }
}

/// The name of the settings' architecture for an AppImage.
pub fn appimage_arch(settings: &Settings) -> (r: Result<&'static str, ProducerError>)
    ensures
        match r {
            Ok(name) => appimage_arch_name(arch_of(settings)) == Some(name@),
            Err(e) => {
                &&& appimage_arch_name(arch_of(settings)) is None
                &&& e matches ProducerError::GenericError(text) && text@
                    == "Unsupported architecture for AppImage: "@ + arch_name(arch_of(settings))
            },
        },
{
    match settings.binary_arch() {
        Arch::X86_64 => Ok("x86_64"),
        Arch::X86 => Ok("i386"),
        Arch::AArch64 => Ok("aarch64"),
        Arch::Armhf => Err(unsupported("Armhf")),
        Arch::Armel => Err(unsupported("Armel")),
        Arch::Riscv64 => Err(unsupported("Riscv64")),
        Arch::Universal => Err(unsupported("Universal")),
    }
}

fn unsupported(name: &str) -> (e: ProducerError)
    ensures
        e matches ProducerError::GenericError(text) && text@
            == "Unsupported architecture for AppImage: "@ + name@,
{
    let mut text = String::from_str("Unsupported architecture for AppImage: ");
    text.append(name);
    ProducerError::GenericError(text)
}

/// The directory of everything that belongs to the AppImage.
pub fn appimage_output_dir(settings: &Settings) -> (r: String)
    ensures
        r@ == appimage_dir(settings),
{
    join_path(settings.project_out_directory(), "bundle/appimage")
}

/// The directory of the tools, below the AppImage's directory.
pub fn tools_dir(settings: &Settings) -> (r: String)
    ensures
        r@ == path_join(appimage_dir(settings), ".tools"@),
{
    let dir = appimage_output_dir(settings);
    join_path(dir.as_str(), ".tools")
}

/// The directory in which the application is laid out.
pub fn app_dir(settings: &Settings) -> (r: String)
    ensures
        r@ == path_join(appimage_dir(settings), settings.package().product_name@ + ".AppDir"@),
{
    let dir = appimage_output_dir(settings);
    let mut name = String::from_str(settings.product_name());
    name.append(".AppDir");
    join_path(dir.as_str(), name.as_str())
}

/// Where the AppImage of the settings' product is written.
pub fn appimage_output_path(settings: &Settings, arch: &str) -> (r: String)
    ensures
        r@ == appimage_path(settings, arch@),
{
    let dir = appimage_output_dir(settings);
    let mut name = String::from_str(settings.product_name());
    name.append("-");
    name.append(settings.version_string());
    name.append("-");
    name.append(arch);
    name.append(".AppImage");
    join_path(dir.as_str(), name.as_str())
}

/// The directory of the binaries in the application directory.
pub fn app_bin_dir(settings: &Settings) -> (r: String)
    ensures
        r@ == path_join(
            path_join(
                path_join(appimage_dir(settings), settings.package().product_name@ + ".AppDir"@),
                "usr"@,
            ),
            "bin"@,
        ),
{
    let dir = app_dir(settings);
    let usr = join_path(dir.as_str(), "usr");
    join_path(usr.as_str(), "bin")
}

/// The directory of the libraries in the application directory.
pub fn app_lib_dir(settings: &Settings) -> (r: String)
    ensures
        r@ == path_join(
            path_join(
                path_join(appimage_dir(settings), settings.package().product_name@ + ".AppDir"@),
                "usr"@,
            ),
            "lib"@,
        ),
{
    let dir = app_dir(settings);
    let usr = join_path(dir.as_str(), "usr");
    join_path(usr.as_str(), "lib")
}

/// The file name of the icon in the application directory.
pub fn icon_file_name(settings: &Settings) -> (r: String)
    ensures
        r@ == settings.package().product_name@ + ".png"@,
{
    let mut r = String::from_str(settings.product_name());
    r.append(".png");
    r
}

/// Where the desktop entry is written.
pub fn desktop_file_path(settings: &Settings) -> (r: String)
    ensures
        r@ == path_join(
            path_join(appimage_dir(settings), settings.package().product_name@ + ".AppDir"@),
            settings.package().product_name@ + ".desktop"@,
        ),
{
    let dir = app_dir(settings);
    let mut name = String::from_str(settings.product_name());
    name.append(".desktop");
    join_path(dir.as_str(), name.as_str())
}

/// The directory into which the deploy tool is extracted.
pub fn extracted_dir(settings: &Settings, arch: &str) -> (r: String)
    ensures
        r@ == path_join(
            path_join(appimage_dir(settings), ".tools"@),
            "linuxdeploy-"@ + arch@ + "-extracted"@,
        ),
{
    let tools = tools_dir(settings);
    let mut name = String::from_str("linuxdeploy-");
    name.append(arch);
    name.append("-extracted");
    join_path(tools.as_str(), name.as_str())
}

/// The arguments with which the deploy tool builds the image.
pub fn linuxdeploy_args(app_dir: &str) -> (r: Vec<String>)
    ensures
        r.deep_view() == seq!["--appdir"@, app_dir@, "--output"@, "appimage"@],
{
    let mut r: Vec<String> = Vec::new();
    r.push(String::from_str("--appdir"));
    r.push(String::from_str(app_dir));
    r.push(String::from_str("--output"));
    r.push(String::from_str("appimage"));
    proof {
        assert(r.deep_view() =~= seq!["--appdir"@, app_dir@, "--output"@, "appimage"@]);
    }
    r
}

/// The environment of the deploy tool: where the image is written, and
/// for which architecture.
pub fn linuxdeploy_env(appimage_path: &str, arch: &str) -> (r: Vec<(String, String)>)
    ensures
        r.len() == 2,
        r[0].0@ == "OUTPUT"@ && r[0].1@ == appimage_path@,
        r[1].0@ == "ARCH"@ && r[1].1@ == arch@,
{
    let mut r: Vec<(String, String)> = Vec::new();
    r.push((String::from_str("OUTPUT"), String::from_str(appimage_path)));
    r.push((String::from_str("ARCH"), String::from_str(arch)));
    r
}

/// The file name of the deploy tool for an architecture.
pub fn linuxdeploy_name(arch: &str) -> (r: String)
    ensures
        r@ == tool_name(arch@),
{
    let mut r = String::from_str("linuxdeploy-");
    r.append(arch);
    r.append(".AppImage");
    r
}

/// The address of the deploy tool for an architecture.
pub fn linuxdeploy_url(arch: &str) -> (r: String)
    ensures
        r@ == LINUXDEPLOY_BASE_URL@ + "/"@ + tool_name(arch@),
{
    let mut r = String::from_str(LINUXDEPLOY_BASE_URL);
    r.append("/");
    let name = linuxdeploy_name(arch);
    r.append(name.as_str());
    r
}

/// What has to be done to have the deploy tool at hand: nothing where its
/// extracted form exists, and no download where the tool itself exists.
pub fn prepare_linuxdeploy(extracted_exists: bool, tool_exists: bool) -> (r: ToolPreparation)
    ensures
        r == if extracted_exists {
            ToolPreparation::Ready
        } else if tool_exists {
            ToolPreparation::Extract
        } else {
            ToolPreparation::DownloadAndExtract
        },
{
    if extracted_exists {
        ToolPreparation::Ready
    } else if tool_exists {
        ToolPreparation::Extract
    } else {
        ToolPreparation::DownloadAndExtract
    }
}

/// The index of the first main binary.
pub fn main_binary_index(binaries: &Vec<BundleBinary>) -> (r: Option<usize>)
    ensures
        match r {
            Some(i) => i < binaries.len() && first_main(binaries@) == i,
            None => first_main(binaries@) == -1,
        },
{
    let mut i: usize = 0;
    while i < binaries.len()
        invariant
            i <= binaries.len(),
            first_main(binaries@.subrange(0, i as int)) == -1,
        decreases binaries.len() - i,
    {
        proof {
            assert(binaries@.subrange(0, i + 1).drop_last() =~= binaries@.subrange(0, i as int));
            assert(binaries@.subrange(0, i + 1).last() == binaries@[i as int]);
        }
        if binaries[i].main() {
            proof {
                lemma_first_main_stays(binaries@, i + 1);
            }
            return Some(i);
        }
        i += 1;
    }
    proof {
        assert(binaries@.subrange(0, binaries.len() as int) =~= binaries@);
    }
    None
}

/// A main binary that was found stays the first when more binaries follow.
pub proof fn lemma_first_main_stays(binaries: Seq<BundleBinary>, n: int)
    requires
        0 <= n <= binaries.len(),
        first_main(binaries.subrange(0, n)) >= 0,
    ensures
        first_main(binaries) == first_main(binaries.subrange(0, n)),
    decreases binaries.len() - n,
{
    if n < binaries.len() {
        assert(binaries.subrange(0, n + 1).drop_last() =~= binaries.subrange(0, n));
        lemma_first_main_stays(binaries, n + 1);
    } else {
        assert(binaries.subrange(0, n) =~= binaries);
    }
}

/// An icon that was found stays the first when more icons follow.
pub proof fn lemma_first_png_stays(icons: Seq<String>, n: int)
    requires
        0 <= n <= icons.len(),
        first_png(icons.subrange(0, n)) >= 0,
    ensures
        first_png(icons) == first_png(icons.subrange(0, n)),
    decreases icons.len() - n,
{
    if n < icons.len() {
        assert(icons.subrange(0, n + 1).drop_last() =~= icons.subrange(0, n));
        lemma_first_png_stays(icons, n + 1);
    } else {
        assert(icons.subrange(0, n) =~= icons);
    }
}

/// The index of the first icon with the extension `png`: the icon of the AppImage.
pub fn png_icon_index(icons: &Vec<String>) -> (r: Option<usize>)
    ensures
        match r {
            Some(i) => i < icons.len() && first_png(icons@) == i,
            None => first_png(icons@) == -1,
        },
{
    let mut i: usize = 0;
    while i < icons.len()
        invariant
            i <= icons.len(),
            first_png(icons@.subrange(0, i as int)) == -1,
        decreases icons.len() - i,
    {
        proof {
            assert(icons@.subrange(0, i + 1).drop_last() =~= icons@.subrange(0, i as int));
            assert(icons@.subrange(0, i + 1).last() == icons@[i as int]);
        }
        let is_png = match path_extension(icons[i].as_str()) {
            Some(ext) => str_eq(ext.as_str(), "png"),
            None => false,
        };
        if is_png {
            proof {
                lemma_first_png_stays(icons@, i + 1);
            }
            return Some(i);
        }
        i += 1;
    }
    proof {
        assert(icons@.subrange(0, icons.len() as int) =~= icons@);
    }
    None
}

/// The desktop entry of the application. Settings without a main binary
/// have none.
pub fn desktop_entry(settings: &Settings) -> (r: Result<String, ProducerError>)
    ensures
        match r {
            Ok(text) => first_main(settings.binary_list()) >= 0 && text@ == desktop_entry_text(
                settings,
                settings.binary_list()[first_main(settings.binary_list())].spec_name(),
            ),
            Err(e) => {
                &&& first_main(settings.binary_list()) == -1
                &&& e matches ProducerError::GenericError(text) && text@ == "no main binary found"@
            },
        },
{
    let binaries = settings.binaries();
    let main = match main_binary_index(binaries) {
        Some(i) => i,
        None => {
            return Err(ProducerError::GenericError(String::from_str("no main binary found")));
        },
    };
    let mut r = String::from_str("[Desktop Entry]\nType=Application\nName=");
    r.append(settings.product_name());
    r.append("\nExec=");
    r.append(binaries[main].name());
    r.append("\nIcon=");
    r.append(settings.product_name());
    r.append("\n");
    if settings.description().unicode_len() > 0 {
        r.append("Comment=");
        r.append(settings.description());
        r.append("\n");
    }
    match &settings.bundle_settings().category {
        Some(category) => match &category.linux {
            Some(text) => {
                r.append("Categories=");
                r.append(text.as_str());
                r.append("\n");
            },
            None => {},
        },
        None => {},
    }
    r.append("Terminal=false\n");
    proof {
        assert(r@ =~= desktop_entry_text(
            settings,
            settings.binary_list()[main as int].spec_name(),
        ));
    }
    Ok(r)
}

} // verus!

//! The Windows NSIS installer: names of architectures, modes and
//! compressions as the script compiler wants them, the version in four
//! parts, and where the installer is written.

use vstd::prelude::*;
use vstd::string::StringExecFns;
use vstd::utf8::encode_utf8;
use crate::error::ProducerError;
use crate::paths::join_path;
use crate::paths::path_join;
use crate::paths::path_with_extension;
use crate::paths::with_extension;
use crate::settings::arch::Arch;
use crate::settings::bundle::BundleBinary;
use crate::settings::config::Settings;
use crate::settings::windows::NSISInstallerMode;
use crate::settings::windows::NsisCompression;
use crate::text::join;
use crate::text::join_strings;
use crate::text::split;
use crate::text::split_str;

verus! {

/// What the installer script is filled with.
#[derive(Debug)]
pub struct NsisTemplateData {
    /// The name of the product.
    pub product_name: String,
    /// The version as given.
    pub version: String,
    /// The version in four numeric parts.
    pub version_nsis: String,
    /// The architecture as the compiler names it.
    pub arch: String,
    /// The publisher, `Unknown Publisher` where none is set.
    pub publisher: String,
    /// The binaries to install, each with the extension `exe`.
    pub binary_files: Vec<String>,
    /// The name of the binary that shortcuts start.
    pub binary_name: String,
    /// The directory to install into.
    pub install_dir: String,
    /// The install mode as the script names it.
    pub install_mode: String,
    /// The compression as the script names it.
    pub compression: String,
    /// The header picture.
    pub header_image: Option<String>,
    /// The sidebar picture.
    pub sidebar_image: Option<String>,
    /// The icon of the installer.
    pub installer_icon: Option<String>,
}

/// The name of an architecture as written in messages.
pub open spec fn arch_name(arch: Arch) -> Seq<char> {
    match arch {
        Arch::X86_64 => "X86_64"@,
        Arch::X86 => "X86"@,
        Arch::AArch64 => "AArch64"@,
        Arch::Armhf => "Armhf"@,
        Arch::Armel => "Armel"@,
        Arch::Riscv64 => "Riscv64"@,
        Arch::Universal => "Universal"@,
    }
}

/// The name of an architecture for the installer, where it has one.
pub open spec fn nsis_arch(arch: Arch) -> Option<Seq<char>> {
    match arch {
        Arch::X86_64 => Some("x64"@),
        Arch::X86 => Some("x86"@),
        Arch::AArch64 => Some("arm64"@),
        _ => None,
    }
}

/// The name of a compression in the script; LZMA where none is chosen.
pub open spec fn compression_name(compression: Option<NsisCompression>) -> Seq<char> {
    match compression {
        Some(NsisCompression::Store) => "none"@,
        Some(NsisCompression::Zlib) => "zlib"@,
        Some(NsisCompression::Bzip2) => "bzip2"@,
        Some(NsisCompression::Lzma) => "lzma"@,
        None => "lzma"@,
    }
}

/// The name of an install mode in the script.
pub open spec fn install_mode_name(mode: NSISInstallerMode) -> Seq<char> {
    match mode {
        NSISInstallerMode::CurrentUser => "currentUser"@,
        NSISInstallerMode::PerMachine => "perMachine"@,
        NSISInstallerMode::Both => "both"@,
    }
}

/// The first four of `parts`, with `0` for each that is missing.
pub open spec fn four_parts(parts: Seq<Seq<char>>) -> Seq<Seq<char>> {
    Seq::new(
        4,
        |i: int|
            if i < parts.len() {
                parts[i]
            } else {
                "0"@
            },
    )
}

/// A version in exactly four parts: the first four parts of the version as
/// written between dots, and `0` for each part that is missing.
pub open spec fn nsis_version(version: Seq<char>) -> Seq<char> {
    join(four_parts(split(version, '.')), "."@)
}

/// The file name of the installer.
pub open spec fn installer_name(product: Seq<char>, version: Seq<char>, arch: Seq<char>) -> Seq<char> {
    product + "_"@ + version + "_"@ + arch + "-setup.exe"@
}

/// Where the installer is written: below `bundle/nsis` of the output directory.
pub open spec fn installer_path(out_dir: Seq<char>, product: Seq<char>, version: Seq<char>, arch: Seq<char>) -> Seq<
    char,
> {
    path_join(path_join(out_dir, "bundle/nsis"@), installer_name(product, version, arch))
}

/// The directory that the installer installs into.
pub open spec fn install_dir(mode: NSISInstallerMode, product: Seq<char>) -> Seq<char> {
    match mode {
        NSISInstallerMode::CurrentUser => "$LOCALAPPDATA\\"@ + product,
        _ => "$PROGRAMFILES64\\"@ + product,
    }
}

/// The binary that shortcuts start: the first main binary, and the first
/// binary where none is main.
pub open spec fn shortcut_binary(binaries: Seq<BundleBinary>) -> int
    decreases binaries.len(),
{
    if binaries.len() == 0 {
        -1
    } else {
        let before = shortcut_binary(binaries.drop_last());
        if before >= 0 && binaries[before].spec_main() {
            before
        } else if binaries.last().spec_main() {
            binaries.len() - 1
        } else {
            0
        }
    }
}

fn arch_text(arch: Arch) -> (r: &'static str)
    ensures
        r@ == arch_name(arch),
{
    match arch {
        Arch::X86_64 => "X86_64",
        Arch::X86 => "X86",
        Arch::AArch64 => "AArch64",
        Arch::Armhf => "Armhf",
        Arch::Armel => "Armel",
        Arch::Riscv64 => "Riscv64",
        Arch::Universal => "Universal",
    }
}

/// The name of an architecture for the installer. Only the two x86
/// architectures and 64-bit ARM have one.
pub fn map_arch(arch: Arch) -> (r: Result<&'static str, ProducerError>)
    ensures
        match r {
            Ok(name) => nsis_arch(arch) == Some(name@),
            Err(e) => {
                &&& nsis_arch(arch) is None
                &&& e matches ProducerError::ArchError(text) && text@
                    == "Unsupported architecture for NSIS: "@ + arch_name(arch)
            },
        },
{
    match arch {
        Arch::X86_64 => Ok("x64"),
        Arch::X86 => Ok("x86"),
        Arch::AArch64 => Ok("arm64"),
        _ => {
            let mut text = String::from_str("Unsupported architecture for NSIS: ");
            text.append(arch_text(arch));
            Err(ProducerError::ArchError(text))
        },
    }
}

/// The name of a compression in the script.
pub fn map_compression(compression: Option<NsisCompression>) -> (r: &'static str)
    ensures
        r@ == compression_name(compression),
{
    match compression {
        Some(NsisCompression::Store) => "none",
        Some(NsisCompression::Zlib) => "zlib",
        Some(NsisCompression::Bzip2) => "bzip2",
        Some(NsisCompression::Lzma) => "lzma",
        None => "lzma",
    }
}

/// The name of an install mode in the script.
pub fn map_install_mode(mode: NSISInstallerMode) -> (r: &'static str)
    ensures
        r@ == install_mode_name(mode),
{
    match mode {
        NSISInstallerMode::CurrentUser => "currentUser",
        NSISInstallerMode::PerMachine => "perMachine",
        NSISInstallerMode::Both => "both",
    }
}

/// The version in exactly four parts, as the installer's version field wants it.
pub fn format_version_for_nsis(version: &str) -> (r: Result<String, ProducerError>)
    ensures
        r matches Ok(text) && text@ == nsis_version(version@),
{
    let parts = split_str(version, '.');
    let mut four: Vec<String> = Vec::new();
    let mut i: usize = 0;
    while i < 4
        invariant
            i <= 4,
            four.len() == i,
            forall|k: int|
                0 <= k < i ==> (#[trigger] four[k])@ == four_parts(parts.deep_view())[k],
        decreases 4 - i,
    {
        if i < parts.len() {
            four.push(String::from_str(parts[i].as_str()));
        } else {
            four.push(String::from_str("0"));
        }
        i += 1;
    }
    proof {
        assert(four.deep_view() =~= four_parts(parts.deep_view()));
    }
    Ok(join_strings(&four, "."))
}

/// The file name of the installer.
pub fn nsis_installer_name(product: &str, version: &str, arch: &str) -> (r: String)
    ensures
        r@ == installer_name(product@, version@, arch@),
{
    let mut r = String::from_str(product);
    r.append("_");
    r.append(version);
    r.append("_");
    r.append(arch);
    r.append("-setup.exe");
    r
}

/// Where the installer of the settings' product is written.
pub fn nsis_installer_path(settings: &Settings, arch: &str) -> (r: String)
    ensures
        r@ == installer_path(
            settings.out_dir(),
            settings.package().product_name@,
            settings.package().version@,
            arch@,
        ),
{
    let dir = join_path(settings.project_out_directory(), "bundle/nsis");
    let name = nsis_installer_name(settings.product_name(), settings.version_string(), arch);
    join_path(dir.as_str(), name.as_str())
}

/// The directory in which the installer script is written.
pub fn nsis_output_dir(settings: &Settings, arch: &str) -> (r: String)
    ensures
        r@ == path_join(path_join(settings.out_dir(), "bundle/nsis"@), arch@),
{
    let dir = join_path(settings.project_out_directory(), "bundle/nsis");
    join_path(dir.as_str(), arch)
}

/// The directory that the installer installs into.
pub fn nsis_install_dir(mode: NSISInstallerMode, product: &str) -> (r: String)
    ensures
        r@ == install_dir(mode, product@),
{
    let mut r = match mode {
        NSISInstallerMode::CurrentUser => String::from_str("$LOCALAPPDATA\\"),
        _ => String::from_str("$PROGRAMFILES64\\"),
    };
    r.append(product);
    r
}

/// The index of the binary that shortcuts start, where there is a binary.
pub fn shortcut_binary_index(binaries: &Vec<BundleBinary>) -> (r: Option<usize>)
    ensures
        match r {
            Some(i) => i < binaries.len() && shortcut_binary(binaries@) == i,
            None => binaries.len() == 0 && shortcut_binary(binaries@) == -1,
        },
{
    if binaries.len() == 0 {
        return None;
    }
    let mut best: usize = 0;
    let mut i: usize = 0;
    while i < binaries.len()
        invariant
            i <= binaries.len(),
            binaries.len() > 0,
            i == 0 ==> best == 0,
            i > 0 ==> best < i && shortcut_binary(binaries@.subrange(0, i as int)) == best,
        decreases binaries.len() - i,
    {
        proof {
            let now = binaries@.subrange(0, i + 1);
            assert(now.drop_last() =~= binaries@.subrange(0, i as int));
            assert(now.last() == binaries@[i as int]);
            assert(now.len() == i + 1);
            if i == 0 {
                assert(shortcut_binary(now.drop_last()) == -1);
            }
            if i > 0 {
                assert(binaries@.subrange(0, i as int)[best as int] == binaries@[best as int]);
                assert(now[best as int] == binaries@[best as int]);
            }
        }
        if i > 0 && binaries[best].main() {
        } else if binaries[i].main() {
            best = i;
        } else {
            best = 0;
        }
        i += 1;
    }
    proof {
        assert(binaries@.subrange(0, binaries.len() as int) =~= binaries@);
    }
    Some(best)
}

/// The bytes of a script file: the UTF-8 byte order mark, which the script
/// compiler requires, and the text.
pub fn utf8_with_bom(content: &str) -> (r: Vec<u8>)
    ensures
        r@ == seq![0xEFu8, 0xBBu8, 0xBFu8] + encode_utf8(content@),
{
    let mut r: Vec<u8> = Vec::new();
    r.push(0xEF);
    r.push(0xBB);
    r.push(0xBF);
    let bytes = content.as_bytes();
    let mut i: usize = 0;
    while i < bytes.len()
        invariant
            i <= bytes.len(),
            bytes@ == encode_utf8(content@),
            r@ == seq![0xEFu8, 0xBBu8, 0xBFu8] + bytes@.subrange(0, i as int),
        decreases bytes.len() - i,
    {
        r.push(bytes[i]);
        proof {
            assert(r@ =~= seq![0xEFu8, 0xBBu8, 0xBFu8] + bytes@.subrange(0, i + 1));
        }
        i += 1;
    }
    proof {
        assert(bytes@.subrange(0, bytes.len() as int) =~= bytes@);
    }
    r
}

/// The arguments of the script compiler.
pub fn makensis_args(output_path: &str, nsi_path: &str) -> (r: Vec<String>)
    ensures
        r.deep_view() == seq![
            "-V3"@,
            "-INPUTCHARSET"@,
            "UTF8"@,
            "-OUTPUTCHARSET"@,
            "UTF8"@,
            "-DOUTPUT_FILE="@ + output_path@,
            nsi_path@,
        ],
{
    let mut define = String::from_str("-DOUTPUT_FILE=");
    define.append(output_path);
    let mut r: Vec<String> = Vec::new();
    r.push(String::from_str("-V3"));
    r.push(String::from_str("-INPUTCHARSET"));
    r.push(String::from_str("UTF8"));
    r.push(String::from_str("-OUTPUTCHARSET"));
    r.push(String::from_str("UTF8"));
    r.push(define);
    r.push(String::from_str(nsi_path));
    proof {
        assert(r.deep_view() =~= seq![
            "-V3"@,
            "-INPUTCHARSET"@,
            "UTF8"@,
            "-OUTPUTCHARSET"@,
            "UTF8"@,
            "-DOUTPUT_FILE="@ + output_path@,
            nsi_path@,
        ]);
    }
    r
}

/// Two optional texts are both absent, or both present and the same.
pub open spec fn same_text(a: Option<String>, b: Option<String>) -> bool {
    match (a, b) {
        (Some(x), Some(y)) => x@ == y@,
        (None, None) => true,
        _ => false,
    }
}

fn copy_option(value: &Option<String>) -> (r: Option<String>)
    ensures
        same_text(r, *value),
{
    match value {
        Some(text) => Some(String::from_str(text.as_str())),
        None => None,
    }
}

/// What the installer script is filled with. Settings without a binary
/// cannot be packaged, and neither can an architecture the installer has no
/// name for.
pub fn nsis_template_data(settings: &Settings) -> (r: Result<NsisTemplateData, ProducerError>)
    ensures
        match r {
            Ok(data) => {
                &&& settings.binary_list().len() > 0
                &&& nsis_arch(arch_of(settings)) == Some(data.arch@)
                &&& data.product_name@ == settings.package().product_name@
                &&& data.version@ == settings.package().version@
                &&& data.version_nsis@ == nsis_version(settings.package().version@)
                &&& data.publisher@ == match settings.bundle().publisher {
                    Some(p) => p@,
                    None => "Unknown Publisher"@,
                }
                &&& data.binary_files.len() == settings.binary_list().len()
                &&& forall|i: int|
                    0 <= i < data.binary_files.len() ==> (#[trigger] data.binary_files[i])@
                        == with_extension(
                        path_join(settings.out_dir(), settings.binary_list()[i].spec_name()),
                        "exe"@,
                    )
                &&& data.binary_name@ == settings.binary_list()[shortcut_binary(
                    settings.binary_list(),
                )].spec_name()
                &&& data.install_dir@ == install_dir(
                    settings.bundle().windows.nsis.install_mode,
                    settings.package().product_name@,
                )
                &&& data.install_mode@ == install_mode_name(
                    settings.bundle().windows.nsis.install_mode,
                )
                &&& data.compression@ == compression_name(settings.bundle().windows.nsis.compression)
                &&& same_text(data.header_image, settings.bundle().windows.nsis.header_image)
                &&& same_text(data.sidebar_image, settings.bundle().windows.nsis.sidebar_image)
                &&& same_text(data.installer_icon, settings.bundle().windows.nsis.installer_icon)
            },
            Err(e) => if settings.binary_list().len() == 0 {
                e matches ProducerError::GenericError(text) && text@ == "No binaries found to bundle"@
            } else {
                nsis_arch(arch_of(settings)) is None && e is ArchError
            },
        },
{
    let binaries = settings.binaries();
    let main_index = match shortcut_binary_index(binaries) {
        Some(i) => i,
        None => {
            return Err(ProducerError::GenericError(String::from_str("No binaries found to bundle")));
        },
    };
    let arch = match map_arch(settings.binary_arch()) {
        Ok(name) => name,
        Err(e) => {
            return Err(e);
        },
    };
    let mut binary_files: Vec<String> = Vec::new();
    let mut i: usize = 0;
    while i < binaries.len()
        invariant
            i <= binaries.len(),
            binaries@ == settings.binary_list(),
            binary_files.len() == i,
            forall|k: int|
                0 <= k < i ==> (#[trigger] binary_files[k])@ == with_extension(
                    path_join(settings.out_dir(), settings.binary_list()[k].spec_name()),
                    "exe"@,
                ),
        decreases binaries.len() - i,
    {
        let path = settings.binary_path(&binaries[i]);
        binary_files.push(path_with_extension(path.as_str(), "exe"));
        i += 1;
    }
    let version_nsis = match format_version_for_nsis(settings.version_string()) {
        Ok(text) => text,
        Err(e) => {
            return Err(e);
        },
    };
    let bundle = settings.bundle_settings();
    let publisher = match &bundle.publisher {
        Some(p) => String::from_str(p.as_str()),
        None => String::from_str("Unknown Publisher"),
    };
    let nsis = &bundle.windows.nsis;
    Ok(
        NsisTemplateData {
            product_name: String::from_str(settings.product_name()),
            version: String::from_str(settings.version_string()),
            version_nsis,
            arch: String::from_str(arch),
            publisher,
            binary_files,
            binary_name: String::from_str(binaries[main_index].name()),
            install_dir: nsis_install_dir(nsis.install_mode, settings.product_name()),
            install_mode: String::from_str(map_install_mode(nsis.install_mode)),
            compression: String::from_str(map_compression(nsis.compression)),
            header_image: copy_option(&nsis.header_image),
            sidebar_image: copy_option(&nsis.sidebar_image),
            installer_icon: copy_option(&nsis.installer_icon),
        },
    )
}

/// The architecture of the settings' target.
pub open spec fn arch_of(settings: &Settings) -> Arch {
    crate::settings::config::arch_of_target(settings.target_triple())
}

} // verus!

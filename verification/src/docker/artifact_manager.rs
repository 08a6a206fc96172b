//! What a container build left behind: which files of the output directory
//! are artifacts, what is reported where none is, and how the artifacts get
//! from the temporary output area to their final place.

use vstd::prelude::*;
use vstd::string::StringExecFns;
use crate::error::BundlerError;
use crate::error::CliError;
use crate::package::package_type_name;
use crate::package::platform_type_to_string;
use crate::package::PackageType;
use crate::paths::extension;
use crate::paths::file_name;
use crate::paths::is_absolute;
use crate::paths::join_path;
use crate::paths::lemma_join_twice;
use crate::paths::lemma_strip_prefix_of_join;
use crate::paths::parent;
use crate::paths::path_extension;
use crate::paths::path_file_name;
use crate::paths::path_join;
use crate::paths::path_parent;
use crate::paths::path_strip_prefix;
use crate::paths::strip_prefix;
use crate::text::decimal;
use crate::text::join;
use crate::text::join_strings;
use crate::text::lower;
use crate::text::push_decimal;
use crate::text::str_eq;
use crate::text::str_lower;

verus! {

/// The smallest size, in bytes, of a file that can be an artifact.
pub const MIN_ARTIFACT_SIZE: u64 = 1024;

/// How the report on a directory without artifacts begins.
pub const NO_MATCH_HEAD: &'static str =
    "No artifact files found matching expected patterns in:\n";

/// What stands between the directory and its listing.
pub const NO_MATCH_CONTENTS: &'static str = "\n\
    \n\
    Directory contents:\n";

/// What stands between the listing and the expected artifacts.
pub const NO_MATCH_EXPECTED: &'static str = "\n\
    \n\
    Expected artifacts like:\n\
    • ";

/// How the report on an empty directory begins.
pub const EMPTY_DIR_HEAD: &'static str = "Bundle directory is empty or inaccessible:\n";

/// What the report on an empty directory advises.
pub const EMPTY_DIR_ADVICE: &'static str = "\n\
    \n\
    Possible causes:\n\
    • Bundle command failed silently inside container\n\
    • Incorrect output directory path\n\
    • Permission issues\n\
    \n\
    Check container logs:\n\
    docker ps -a | head -2";

/// One entry of a directory, as the file system reports it.
#[derive(Debug)]
pub struct DirEntryInfo {
    /// The path of the entry.
    pub path: String,
    /// The entry itself is a regular file.
    pub is_file: bool,
    /// The entry itself is a symbolic link.
    pub is_symlink: bool,
    /// The entry is a directory, or a link to one.
    pub is_dir: bool,
    /// The size in bytes.
    pub size: u64,
}

/// What reading the output directory gave.
#[derive(Debug)]
pub enum DirectoryListing {
    /// There is no such directory.
    Missing,
    /// The directory could not be read; the text says why.
    Unreadable(String),
    /// The entries of the directory, in the order read.
    Entries(Vec<DirEntryInfo>),
}

/// How the artifacts get to their final place.
#[derive(Debug)]
pub struct RelocationPlan {
    /// The directory to create first, with all its ancestors.
    pub create_dir: Option<String>,
    /// The stale destination to remove before the rename, where the host
    /// cannot rename onto an existing destination.
    pub remove_first: Option<String>,
    /// The temporary directory that holds the artifacts.
    pub rename_from: String,
    /// The final directory.
    pub rename_to: String,
    /// The artifacts' paths after the move, in the order given.
    pub final_paths: Vec<String>,
}

/// Finds and relocates the artifacts of container builds for one workspace.
#[derive(Debug)]
pub struct ArtifactManager {
    workspace_path: String,
}

/// The directory below `target_dir` in which a build leaves the artifacts of a platform.
pub open spec fn bundle_dir(target_dir: Seq<char>, platform: PackageType) -> Seq<char> {
    path_join(
        path_join(path_join(target_dir, "release"@), "bundle"@),
        lower(package_type_name(platform)),
    )
}

/// Whether a file extension, in lower case, is the one that artifacts of the platform carry.
pub open spec fn extension_fits(platform: PackageType, ext: Option<Seq<char>>) -> bool {
    match platform {
        PackageType::Deb => ext == Some("deb"@),
        PackageType::Rpm => ext == Some("rpm"@),
        PackageType::AppImage => ext is None || ext == Some("appimage"@),
        PackageType::Exe => ext == Some("exe"@),
        PackageType::Dmg => ext == Some("dmg"@),
        PackageType::MacOsBundle => ext == Some("app"@),
    }
}

/// The extension of a path in lower case.
pub open spec fn lower_extension(path: Seq<char>) -> Option<Seq<char>> {
    match extension(path) {
        Some(ext) => Some(lower(ext)),
        None => None,
    }
}

/// An entry is an artifact of the platform: a regular file that is no link,
/// of plausible size, with the platform's extension.
pub open spec fn is_artifact(entry: DirEntryInfo, platform: PackageType) -> bool {
    &&& entry.is_file
    &&& !entry.is_symlink
    &&& entry.size >= 1024
    &&& extension_fits(platform, lower_extension(entry.path@))
}

/// The paths of the entries that are artifacts, in the order of the entries.
pub open spec fn artifacts_among(entries: Seq<DirEntryInfo>, platform: PackageType) -> Seq<
    Seq<char>,
>
    decreases entries.len(),
{
    if entries.len() == 0 {
        Seq::empty()
    } else {
        let before = artifacts_among(entries.drop_last(), platform);
        if is_artifact(entries.last(), platform) {
            before.push(entries.last().path@)
        } else {
            before
        }
    }
}

/// The name under which an entry is listed.
pub open spec fn listed_name(path: Seq<char>) -> Seq<char> {
    match file_name(path) {
        Some(name) => name,
        None => "<unknown>"@,
    }
}

/// The line that lists one entry: a directory by its name, a file by its name and size.
pub open spec fn listing_line(entry: DirEntryInfo) -> Seq<char> {
    if entry.is_dir {
        "  [DIR]  "@ + listed_name(entry.path@)
    } else {
        "  [FILE] "@ + listed_name(entry.path@) + " ("@ + decimal(entry.size as nat) + " bytes)"@
    }
}

/// The lines that list the entries, in order.
pub open spec fn listing_lines(entries: Seq<DirEntryInfo>) -> Seq<Seq<char>> {
    Seq::new(entries.len(), |i: int| listing_line(entries[i]))
}

/// What the report shows of the directory: nothing for an empty or missing
/// one, the failure for an unreadable one, and otherwise one line per entry.
pub open spec fn listing_text(listing: DirectoryListing) -> Option<Seq<char>> {
    match listing {
        DirectoryListing::Missing => None,
        DirectoryListing::Unreadable(why) => Some("[Cannot read directory: "@ + why@ + "]"@),
        DirectoryListing::Entries(entries) => if entries@.len() == 0 {
            None
        } else {
            Some(join(listing_lines(entries@), "\n"@))
        },
    }
}

/// The reason text of the report that no artifact was found.
pub open spec fn no_artifacts_reason(
    dir: Seq<char>,
    platform: PackageType,
    listing: DirectoryListing,
) -> Seq<char> {
    let name = package_type_name(platform);
    match listing_text(listing) {
        Some(contents) => NO_MATCH_HEAD@ + dir + NO_MATCH_CONTENTS@ + contents
            + NO_MATCH_EXPECTED@ + name + ".deb (Debian package)\n• "@ + name
            + ".rpm (RedHat package)\n• "@ + name + ".AppImage (AppImage bundle)\netc."@,
        None => EMPTY_DIR_HEAD@ + dir + EMPTY_DIR_ADVICE@,
    }
}

/// `e` reports a failed step by its name and reason.
pub open spec fn is_step_failure(e: BundlerError, command: Seq<char>, reason: Seq<char>) -> bool {
    e matches BundlerError::Cli(CliError::ExecutionFailed { command: c, reason: r }) && c@
        == command && r@ == reason
}

/// Where an artifact lies after the move: below `target` of the workspace
/// where it lay below the temporary directory, and where it was otherwise.
pub open spec fn relocated_path(workspace: Seq<char>, temp_target_dir: Seq<char>, path: Seq<char>) -> Seq<
    char,
> {
    match strip_prefix(path, temp_target_dir) {
        Some(rest) => path_join(path_join(workspace, "target"@), rest),
        None => path,
    }
}

/// A file tree as far as relocation is concerned: what lies at each path.
pub type TreeModel = Map<Seq<char>, Seq<u8>>;

/// The tree after a directory and its ancestors are created: an existing one stays as it is.
pub open spec fn after_create_dir_all(tree: TreeModel, dir: Seq<char>) -> TreeModel {
    if tree.contains_key(dir) {
        tree
    } else {
        tree.insert(dir, Seq::empty())
    }
}

/// The tree after a rename that replaces its destination.
pub open spec fn after_rename(tree: TreeModel, from: Seq<char>, to: Seq<char>) -> TreeModel {
    tree.remove(from).insert(to, tree[from])
}

/// The tree after the steps of a relocation, in their order: create, remove, rename.
pub open spec fn after_relocation(
    tree: TreeModel,
    create_dir: Option<Seq<char>>,
    remove_first: Option<Seq<char>>,
    from: Seq<char>,
    to: Seq<char>,
) -> TreeModel {
    let created = match create_dir {
        Some(dir) => after_create_dir_all(tree, dir),
        None => tree,
    };
    let cleared = match remove_first {
        Some(stale) => created.remove(stale),
        None => created,
    };
    after_rename(cleared, from, to)
}

fn extension_is(ext: &Option<String>, wanted: &str) -> (r: bool)
    ensures
        r == (ext matches Some(e) && e@ == wanted@),
{
    match ext {
        Some(e) => str_eq(e.as_str(), wanted),
        None => false,
    }
}

/// Whether an entry is an artifact of the platform.
pub fn entry_is_artifact(entry: &DirEntryInfo, platform: PackageType) -> (r: bool)
    ensures
        r == is_artifact(*entry, platform),
{
    if !entry.is_file || entry.is_symlink {
        return false;
    }
    if entry.size < MIN_ARTIFACT_SIZE {
        return false;
    }
    let ext: Option<String> = match path_extension(entry.path.as_str()) {
        Some(e) => Some(str_lower(e.as_str())),
        None => None,
    };
    match platform {
        PackageType::Deb => extension_is(&ext, "deb"),
        PackageType::Rpm => extension_is(&ext, "rpm"),
        PackageType::AppImage => ext.is_none() || extension_is(&ext, "appimage"),
        PackageType::Exe => extension_is(&ext, "exe"),
        PackageType::Dmg => extension_is(&ext, "dmg"),
        PackageType::MacOsBundle => extension_is(&ext, "app"),
    }
}

/// The directory below `target_dir` in which a build leaves the artifacts of a platform.
pub fn bundle_directory(target_dir: &str, platform: PackageType) -> (r: String)
    ensures
        r@ == bundle_dir(target_dir@, platform),
{
    let release = join_path(target_dir, "release");
    let bundle = join_path(release.as_str(), "bundle");
    let name = str_lower(platform_type_to_string(platform));
    join_path(bundle.as_str(), name.as_str())
}

fn step_failure(command: &str, reason: String) -> (e: BundlerError)
    ensures
        is_step_failure(e, command@, reason@),
{
    BundlerError::Cli(CliError::ExecutionFailed { command: String::from_str(command), reason })
}

fn listing_line_of(entry: &DirEntryInfo) -> (r: String)
    ensures
        r@ == listing_line(*entry),
{
    let name = match path_file_name(entry.path.as_str()) {
        Some(n) => n,
        None => String::from_str("<unknown>"),
    };
    if entry.is_dir {
        let mut r = String::from_str("  [DIR]  ");
        r.append(name.as_str());
        r
    } else {
        let mut r = String::from_str("  [FILE] ");
        r.append(name.as_str());
        r.append(" (");
        push_decimal(&mut r, entry.size);
        r.append(" bytes)");
        r
    }
}

fn listing_text_of(listing: &DirectoryListing) -> (r: Option<String>)
    ensures
        match r {
            Some(text) => listing_text(*listing) == Some(text@),
            None => listing_text(*listing) is None,
        },
{
    match listing {
        DirectoryListing::Missing => None,
        DirectoryListing::Unreadable(why) => {
            let mut r = String::from_str("[Cannot read directory: ");
            r.append(why.as_str());
            r.append("]");
            Some(r)
        },
        DirectoryListing::Entries(entries) => {
            if entries.len() == 0 {
                return None;
            }
            let mut lines: Vec<String> = Vec::new();
            let mut i: usize = 0;
            while i < entries.len()
                invariant
                    i <= entries.len(),
                    lines.len() == i,
                    forall|k: int| 0 <= k < i ==> (#[trigger] lines[k])@ == listing_line(entries[k]),
                decreases entries.len() - i,
            {
                lines.push(listing_line_of(&entries[i]));
                i += 1;
            }
            proof {
                assert(lines.deep_view() =~= listing_lines(entries@));
            }
            Some(join_strings(&lines, "\n"))
        },
    }
}

impl ArtifactManager {
    /// The root of the workspace.
    pub closed spec fn workspace(&self) -> Seq<char> {
        self.workspace_path@
    }

    /// A manager for the workspace at the given path.
    pub fn new(workspace_path: String) -> (r: Self)
        ensures
            r.workspace() == workspace_path@,
    {
        Self { workspace_path }
    }

    /// The artifacts among what a build left in its output directory: the
    /// regular files of plausible size with the platform's extension, in the
    /// order listed. A missing or unreadable directory is an error, and so is
    /// a directory without any artifact.
    pub fn discover_artifacts(
        &self,
        temp_target_dir: &str,
        platform: PackageType,
        listing: &DirectoryListing,
    ) -> (r: Result<Vec<String>, BundlerError>)
        ensures
            match (*listing, r) {
                (DirectoryListing::Missing, Err(e)) => is_step_failure(
                    e,
                    "find bundle directory"@,
                    "Bundle directory not found: "@ + bundle_dir(temp_target_dir@, platform)
                        + "\nExpected artifacts from container build"@,
                ),
                (DirectoryListing::Unreadable(why), Err(e)) => is_step_failure(
                    e,
                    "read bundle directory"@,
                    "Failed to read "@ + bundle_dir(temp_target_dir@, platform) + ": "@ + why@,
                ),
                (DirectoryListing::Entries(entries), Ok(found)) => {
                    &&& found.deep_view() == artifacts_among(entries@, platform)
                    &&& found.len() > 0
                },
                (DirectoryListing::Entries(entries), Err(e)) => {
                    &&& artifacts_among(entries@, platform).len() == 0
                    &&& is_step_failure(
                        e,
                        "find artifacts"@,
                        no_artifacts_reason(bundle_dir(temp_target_dir@, platform), platform, *listing),
                    )
                },
                _ => false,
            },
    {
        let dir = bundle_directory(temp_target_dir, platform);
        match listing {
            DirectoryListing::Missing => {
                let mut reason = String::from_str("Bundle directory not found: ");
                reason.append(dir.as_str());
                reason.append("\nExpected artifacts from container build");
                Err(step_failure("find bundle directory", reason))
            },
            DirectoryListing::Unreadable(why) => {
                let mut reason = String::from_str("Failed to read ");
                reason.append(dir.as_str());
                reason.append(": ");
                reason.append(why.as_str());
                Err(step_failure("read bundle directory", reason))
            },
            DirectoryListing::Entries(entries) => {
                let mut found: Vec<String> = Vec::new();
                let mut i: usize = 0;
                while i < entries.len()
                    invariant
                        i <= entries.len(),
                        found.deep_view() == artifacts_among(entries@.subrange(0, i as int), platform),
                    decreases entries.len() - i,
                {
                    proof {
                        assert(entries@.subrange(0, i + 1).drop_last() =~= entries@.subrange(
                            0,
                            i as int,
                        ));
                    }
                    if entry_is_artifact(&entries[i], platform) {
                        let ghost before = found.deep_view();
                        found.push(String::from_str(entries[i].path.as_str()));
                        proof {
                            assert(found.deep_view() =~= before.push(entries[i as int].path@));
                        }
                    }
                    i += 1;
                }
                proof {
                    assert(entries@.subrange(0, entries.len() as int) =~= entries@);
                }
                if found.len() == 0 {
                    Err(self.format_no_artifacts_error(dir.as_str(), platform, listing))
                } else {
                    Ok(found)
                }
            },
        }
    }

    /// The report that a directory holds no artifact. It shows what the
    /// directory does hold, names and sizes, so that "nothing was built" can
    /// be told from "built under another name".
    pub fn format_no_artifacts_error(
        &self,
        bundle_dir: &str,
        platform: PackageType,
        listing: &DirectoryListing,
    ) -> (e: BundlerError)
        ensures
            is_step_failure(
                e,
                "find artifacts"@,
                no_artifacts_reason(bundle_dir@, platform, *listing),
            ),
    {
        let name = platform_type_to_string(platform);
        let reason = match listing_text_of(listing) {
            Some(contents) => {
                let mut r = String::from_str(NO_MATCH_HEAD);
                r.append(bundle_dir);
                r.append(NO_MATCH_CONTENTS);
                r.append(contents.as_str());
                r.append(NO_MATCH_EXPECTED);
                r.append(name);
                r.append(".deb (Debian package)\n• ");
                r.append(name);
                r.append(".rpm (RedHat package)\n• ");
                r.append(name);
                r.append(".AppImage (AppImage bundle)\netc.");
                r
            },
            None => {
                let mut r = String::from_str(EMPTY_DIR_HEAD);
                r.append(bundle_dir);
                r.append(EMPTY_DIR_ADVICE);
                r
            },
        };
        step_failure("find artifacts", reason)
    }

    /// Where one artifact lies after the move.
    pub fn relocated(&self, temp_target_dir: &str, path: &str) -> (r: String)
        ensures
            r@ == relocated_path(self.workspace(), temp_target_dir@, path@),
    {
        match path_strip_prefix(path, temp_target_dir) {
            Some(rest) => {
                let target = join_path(self.workspace_path.as_str(), "target");
                join_path(target.as_str(), rest.as_str())
            },
            None => String::from_str(path),
        }
    }

    /// The steps that move the artifacts of a platform from the temporary
    /// target directory into the workspace's own, and the artifacts' paths
    /// afterwards. Where the host renames onto an existing destination
    /// (`replaces_on_rename`), the move is the single rename. Where it does
    /// not, a destination that exists is removed first, which leaves a moment
    /// in which the destination is absent; one that is known to be absent is
    /// not removed, and where nothing is known the rename is tried as it is.
    pub fn move_artifacts_to_final(
        &self,
        artifacts: &Vec<String>,
        temp_target_dir: &str,
        platform: PackageType,
        replaces_on_rename: bool,
        destination_exists: Option<bool>,
    ) -> (plan: RelocationPlan)
        ensures
            plan.rename_from@ == bundle_dir(temp_target_dir@, platform),
            plan.rename_to@ == bundle_dir(path_join(self.workspace(), "target"@), platform),
            match plan.create_dir {
                Some(dir) => parent(plan.rename_to@) == Some(dir@),
                None => parent(plan.rename_to@) is None,
            },
            match plan.remove_first {
                Some(stale) => !replaces_on_rename && destination_exists == Some(true) && stale@
                    == plan.rename_to@,
                None => replaces_on_rename || destination_exists != Some(true),
            },
            plan.final_paths.len() == artifacts.len(),
            forall|i: int|
                0 <= i < artifacts.len() ==> (#[trigger] plan.final_paths[i])@ == relocated_path(
                    self.workspace(),
                    temp_target_dir@,
                    artifacts[i]@,
                ),
    {
        let target = join_path(self.workspace_path.as_str(), "target");
        let rename_to = bundle_directory(target.as_str(), platform);
        let rename_from = bundle_directory(temp_target_dir, platform);
        let create_dir = path_parent(rename_to.as_str());
        let remove_first = if !replaces_on_rename {
            match destination_exists {
                Some(true) => Some(String::from_str(rename_to.as_str())),
                _ => None,
            }
        } else {
            None
        };
        let mut final_paths: Vec<String> = Vec::new();
        let mut i: usize = 0;
        while i < artifacts.len()
            invariant
                i <= artifacts.len(),
                final_paths.len() == i,
                forall|k: int|
                    0 <= k < i ==> (#[trigger] final_paths[k])@ == relocated_path(
                        self.workspace(),
                        temp_target_dir@,
                        artifacts[k]@,
                    ),
            decreases artifacts.len() - i,
        {
            final_paths.push(self.relocated(temp_target_dir, artifacts[i].as_str()));
            i += 1;
        }
        RelocationPlan { create_dir, remove_first, rename_from, rename_to, final_paths }
    }
}

/// Checks that every artifact is on disk before it is handed on: `present[i]`
/// says whether `artifacts[i]` exists. The first one that does not is
/// reported, and so is a list of answers that does not match the artifacts.
pub fn verify_artifacts(artifacts: &Vec<String>, present: &Vec<bool>) -> (r: Result<
    (),
    BundlerError,
>)
    ensures
        match r {
            Ok(_) => present.len() == artifacts.len() && forall|i: int|
                0 <= i < present.len() ==> present[i],
            Err(e) => if present.len() != artifacts.len() {
                is_step_failure(
                    e,
                    "verify artifacts"@,
                    "Artifact checks do not match the artifacts"@,
                )
            } else {
                exists|i: int|
                    0 <= i < present.len() && !present[i] && (forall|k: int|
                        0 <= k < i ==> present[k]) && is_step_failure(
                        e,
                        "verify artifacts"@,
                        "Artifact not found: "@ + (#[trigger] artifacts[i])@,
                    )
            },
        },
{
    if present.len() != artifacts.len() {
        return Err(
            step_failure(
                "verify artifacts",
                String::from_str("Artifact checks do not match the artifacts"),
            ),
        );
    }
    let mut i: usize = 0;
    while i < artifacts.len()
        invariant
            i <= artifacts.len(),
            present.len() == artifacts.len(),
            forall|k: int| 0 <= k < i ==> present[k],
        decreases artifacts.len() - i,
    {
        if !present[i] {
            let mut reason = String::from_str("Artifact not found: ");
            reason.append(artifacts[i].as_str());
            return Err(step_failure("verify artifacts", reason));
        }
        i += 1;
    }
    Ok(())
}

/// Every path that discovery returns is the path of a listed entry that is
/// a regular file, no link, and at least 1024 bytes large.
pub proof fn lemma_artifacts_are_listed(entries: Seq<DirEntryInfo>, platform: PackageType, i: int)
    requires
        0 <= i < artifacts_among(entries, platform).len(),
    ensures
        exists|k: int|
            0 <= k < entries.len() && is_artifact(#[trigger] entries[k], platform) && entries[k].path@
                == artifacts_among(entries, platform)[i],
    decreases entries.len(),
{
    if entries.len() > 0 {
        let before = entries.drop_last();
        if is_artifact(entries.last(), platform) && i == artifacts_among(before, platform).len() {
            assert(entries[entries.len() - 1] == entries.last());
        } else {
            lemma_artifacts_are_listed(before, platform, i);
            let k = choose|k: int|
                0 <= k < before.len() && is_artifact(#[trigger] before[k], platform) && before[k].path@
                    == artifacts_among(before, platform)[i];
            assert(entries[k] == before[k]);
        }
    }
}

/// After a relocation the temporary directory is gone and the final one
/// holds exactly what the temporary one held, whether the host replaces on
/// rename or the stale destination is removed first. The two directories
/// must differ.
pub proof fn lemma_relocation_moves_content(
    tree: TreeModel,
    create_dir: Option<Seq<char>>,
    remove_first: Option<Seq<char>>,
    from: Seq<char>,
    to: Seq<char>,
)
    requires
        tree.contains_key(from),
        from != to,
        remove_first matches Some(stale) ==> stale == to,
    ensures
        !after_relocation(tree, create_dir, remove_first, from, to).contains_key(from),
        after_relocation(tree, create_dir, remove_first, from, to).contains_key(to),
        after_relocation(tree, create_dir, remove_first, from, to)[to] == tree[from],
{
}

/// A path lies in a directory or is the directory itself.
pub open spec fn lies_below(path: Seq<char>, dir: Seq<char>) -> bool {
    strip_prefix(path, dir) is Some
}

/// Where what lies at `path` once `from` is renamed to `to` lay before.
pub open spec fn origin(path: Seq<char>, from: Seq<char>, to: Seq<char>) -> Seq<char> {
    match strip_prefix(path, to) {
        Some(rest) => if rest.len() == 0 {
            from
        } else {
            path_join(from, rest)
        },
        None => path,
    }
}

/// The files of a tree without those of a directory.
pub open spec fn files_without(files: TreeModel, dir: Seq<char>) -> TreeModel {
    Map::new(
        |p: Seq<char>| files.contains_key(p) && !lies_below(p, dir),
        |p: Seq<char>| files[p],
    )
}

/// The files of a tree once the directory `from` has been renamed to `to`:
/// nothing is left in `from`, `to` holds what `from` held and nothing of
/// what it held itself, and every other file is where it was.
pub open spec fn files_after_rename(files: TreeModel, from: Seq<char>, to: Seq<char>) -> TreeModel {
    Map::new(
        |p: Seq<char>| !lies_below(p, from) && files.contains_key(origin(p, from, to)),
        |p: Seq<char>| files[origin(p, from, to)],
    )
}

/// The files of a tree after a relocation: the stale destination is cleared
/// where the plan says so, and the temporary directory renamed. Creating
/// the destination's parent adds no file.
pub open spec fn files_after_relocation(
    files: TreeModel,
    remove_first: Option<Seq<char>>,
    from: Seq<char>,
    to: Seq<char>,
) -> TreeModel {
    let cleared = match remove_first {
        Some(stale) => files_without(files, stale),
        None => files,
    };
    files_after_rename(cleared, from, to)
}

/// The path of a file of a platform's directory, seen from the target directory.
pub open spec fn below_target(platform: PackageType, name: Seq<char>) -> Seq<char> {
    "release"@ + seq!['/'] + "bundle"@ + seq!['/'] + lower(package_type_name(platform)) + seq!['/']
        + name
}

/// The name of a platform's directory is a single component.
proof fn lemma_platform_dir_name(platform: PackageType)
    ensures
        lower(package_type_name(platform)).len() > 0,
        lower(package_type_name(platform))[0] != '/',
        lower(package_type_name(platform)).last() != '/',
{
    reveal_strlit("deb");
    reveal_strlit("rpm");
    reveal_strlit("appimage");
    reveal_strlit("macos-bundle");
    reveal_strlit("dmg");
    reveal_strlit("nsis");
}

/// A file of a platform's directory lies at its path from the target directory.
pub proof fn lemma_file_in_bundle_dir(target_dir: Seq<char>, platform: PackageType, name: Seq<char>)
    requires
        target_dir.len() > 0,
        name.len() > 0,
        !is_absolute(name),
    ensures
        path_join(bundle_dir(target_dir, platform), name) == path_join(
            target_dir,
            below_target(platform, name),
        ),
        below_target(platform, name).len() > 0,
        !is_absolute(below_target(platform, name)),
{
    reveal_strlit("release");
    reveal_strlit("bundle");
    lemma_platform_dir_name(platform);
    let dir = lower(package_type_name(platform));
    let two = "release"@ + seq!['/'] + "bundle"@;
    let three = two + seq!['/'] + dir;
    lemma_join_twice(target_dir, "release"@, "bundle"@);
    assert(two[0] == 'r' && two.last() == 'e');
    lemma_join_twice(target_dir, two, dir);
    assert(three[0] == 'r' && three.last() == dir.last());
    lemma_join_twice(target_dir, three, name);
    assert(three + seq!['/'] + name =~= below_target(platform, name));
    assert(below_target(platform, name)[0] == 'r');
}

/// After a relocation each file that lay in the temporary directory of the
/// platform lies at the final path that the plan names for it, with the
/// bytes it had, and no longer where it lay, whether the host replaces on
/// rename or the stale destination is removed first. Neither of the two
/// places may lie within the other directory.
pub proof fn lemma_relocation_keeps_each_file(
    files: TreeModel,
    workspace: Seq<char>,
    temp_target_dir: Seq<char>,
    platform: PackageType,
    name: Seq<char>,
    remove_first: Option<Seq<char>>,
)
    requires
        temp_target_dir.len() > 0,
        name.len() > 0,
        !is_absolute(name),
        files.contains_key(path_join(bundle_dir(temp_target_dir, platform), name)),
        remove_first matches Some(stale) ==> stale == bundle_dir(
            path_join(workspace, "target"@),
            platform,
        ),
        !lies_below(
            path_join(bundle_dir(temp_target_dir, platform), name),
            bundle_dir(path_join(workspace, "target"@), platform),
        ),
        !lies_below(
            path_join(bundle_dir(path_join(workspace, "target"@), platform), name),
            bundle_dir(temp_target_dir, platform),
        ),
    ensures
        ({
            let from = bundle_dir(temp_target_dir, platform);
            let to = bundle_dir(path_join(workspace, "target"@), platform);
            let artifact = path_join(from, name);
            let moved = relocated_path(workspace, temp_target_dir, artifact);
            let after = files_after_relocation(files, remove_first, from, to);
            &&& moved == path_join(to, name)
            &&& after.contains_key(moved)
            &&& after[moved] == files[artifact]
            &&& !after.contains_key(artifact)
        }),
{
    reveal_strlit("target");
    let target = path_join(workspace, "target"@);
    let from = bundle_dir(temp_target_dir, platform);
    let to = bundle_dir(target, platform);
    let artifact = path_join(from, name);
    let rest = below_target(platform, name);
    assert(target.len() > 0);
    lemma_file_in_bundle_dir(temp_target_dir, platform, name);
    lemma_file_in_bundle_dir(target, platform, name);
    lemma_strip_prefix_of_join(temp_target_dir, rest);
    assert(relocated_path(workspace, temp_target_dir, artifact) == path_join(to, name));
    lemma_platform_dir_name(platform);
    assert(from.len() > 0 && to.len() > 0);
    lemma_strip_prefix_of_join(from, name);
    lemma_strip_prefix_of_join(to, name);
    assert(origin(path_join(to, name), from, to) == artifact);
}

} // verus!

//! Shared-library dependencies of Mach-O binaries: reading them from a
//! binary, telling system libraries from those that must be bundled, finding
//! the latter on disk, and rewriting references to a relocatable form.

use vstd::prelude::*;
use vstd::slice::slice_subrange;
use vstd::string::StringExecFns;
use crate::error::ProducerError;
use crate::macos::macho::be_u32;
use crate::macos::macho::first_fat_slice;
use crate::macos::macho::first_slice;
use crate::macos::macho::goblin_error_text;
use crate::macos::macho::layout_of_magic;
use crate::macos::macho::macho_libs;
use crate::macos::macho::read_macho_libs;
use crate::macos::macho::read_magic;
use crate::macos::macho::FAT_MAGIC;
use crate::paths::file_name;
use crate::paths::is_absolute;
use crate::paths::join_path;
use crate::paths::path_file_name;
use crate::paths::path_is_absolute;
use crate::paths::path_join;
use crate::settings::bundle::BundleBinary;
use crate::text::chars_contain;
use crate::text::chars_start_with;
use crate::text::contains;
use crate::text::from_chars_range;
use crate::text::occurs_at;
use crate::text::starts_with;
use crate::text::str_eq;
use crate::text::to_chars;

verus! {

/// The search-path hint that a bundled binary gets.
pub const RPATH_HINT: &'static str = "@executable_path/../Frameworks";

/// The relocatable token that a rewritten reference begins with.
pub const RPATH_TOKEN: &'static str = "@rpath/";

/// The wildcard prefix that a package manager writes, and the layout it stands for.
pub const HOMEBREW_WILDCARD: &'static str = "/opt/homebrew/*/";

/// The install layout that the wildcard prefix stands for.
pub const HOMEBREW_CELLAR: &'static str = "/opt/homebrew/Cellar/*/";

/// What a library reference needs from the disk before it can be resolved.
#[derive(Debug)]
pub enum PathQuery {
    /// The first existing match of this glob pattern.
    Glob(String),
    /// Whether this path exists.
    Probe(String),
    /// Nothing: the reference cannot be resolved whatever is on disk.
    Nothing,
}

/// One rewrite of a load-path reference.
#[derive(Debug)]
pub struct PathChange {
    /// The reference as it stands in the binary.
    pub old_path: String,
    /// The relocatable reference that replaces it.
    pub new_path: String,
}

/// A call of the load-path rewrite tool.
#[derive(Debug, Clone, Copy, PartialEq, Eq, Structural)]
pub enum ToolStep {
    /// Rewriting a reference in a bundled library.
    ChangeInLibrary,
    /// Rewriting a reference in a binary.
    ChangeInBinary,
    /// Adding the search-path hint to a binary.
    AddRpath,
}

/// The libraries of an object that is no container: those of a Mach-O
/// binary, and none for anything else. An object of fewer than sixteen bytes
/// cannot be told from anything and has no answer.
pub open spec fn object_libs(bytes: Seq<u8>) -> Option<Seq<Seq<char>>> {
    if bytes.len() < 16 {
        None
    } else {
        match layout_of_magic(be_u32(bytes, 0) as u32) {
            Some(layout) => macho_libs(bytes, layout),
            None => Some(Seq::empty()),
        }
    }
}

/// The libraries that a binary depends on. A multi-architecture container
/// is read through its first architecture, on the assumption that all its
/// architectures depend on the same libraries. There is no answer where the
/// binary, or that first architecture, cannot be parsed.
pub open spec fn dependencies(bytes: Seq<u8>) -> Option<Seq<Seq<char>>> {
    if bytes.len() >= 16 && be_u32(bytes, 0) == 0xcafe_babe {
        match first_slice(bytes) {
            None => None,
            Some((start, end)) => object_libs(bytes.subrange(start, end)),
        }
    } else {
        object_libs(bytes)
    }
}

/// A reference that is never bundled: the binary's reference to itself, a
/// library below a directory of the system, or a reference that is
/// relocatable already.
pub open spec fn is_system(path: Seq<char>) -> bool {
    ||| path == "self"@
    ||| starts_with(path, "/System/"@)
    ||| starts_with(path, "/usr/lib/"@)
    ||| starts_with(path, "@rpath"@)
    ||| starts_with(path, "@executable_path"@)
    ||| starts_with(path, "@loader_path"@)
}

/// The references among `deps` that must be bundled, in order.
pub open spec fn non_system(deps: Seq<Seq<char>>) -> Seq<Seq<char>>
    decreases deps.len(),
{
    if deps.len() == 0 {
        Seq::empty()
    } else if is_system(deps.last()) {
        non_system(deps.drop_last())
    } else {
        non_system(deps.drop_last()).push(deps.last())
    }
}

/// The relocatable reference to a library: the token and the file name.
pub open spec fn relocatable(name: Seq<char>) -> Seq<char> {
    RPATH_TOKEN@ + name
}

/// The reference that replaces `dep` in a bundled binary: a system reference
/// and one without a file name stay as they are, every other becomes relocatable.
pub open spec fn rewritten(dep: Seq<char>) -> Seq<char> {
    if is_system(dep) {
        dep
    } else {
        match file_name(dep) {
            Some(name) => relocatable(name),
            None => dep,
        }
    }
}

/// The rewrites that a binary with the references `deps` needs: one for
/// each reference that must be bundled and has a file name, in order.
pub open spec fn changes_for(deps: Seq<Seq<char>>) -> Seq<(Seq<char>, Seq<char>)>
    decreases deps.len(),
{
    if deps.len() == 0 {
        Seq::empty()
    } else {
        let before = changes_for(deps.drop_last());
        if !is_system(deps.last()) && file_name(deps.last()) is Some {
            before.push((deps.last(), relocatable(file_name(deps.last())->0)))
        } else {
            before
        }
    }
}

/// The rewrites as pairs of the old and the new reference.
pub open spec fn change_views(changes: Seq<PathChange>) -> Seq<(Seq<char>, Seq<char>)> {
    changes.map_values(|c: PathChange| (c.old_path@, c.new_path@))
}

/// A reference with a wildcard in it.
pub open spec fn has_wildcard(path: Seq<char>) -> bool {
    contains(path, seq!['*'])
}

/// The glob pattern that stands for a wildcard reference, where it is one
/// that a known install layout explains.
pub open spec fn wildcard_pattern(path: Seq<char>) -> Option<Seq<char>> {
    if starts_with(path, HOMEBREW_WILDCARD@) {
        Some(HOMEBREW_CELLAR@ + path.subrange(HOMEBREW_WILDCARD@.len() as int, path.len() as int))
    } else {
        None
    }
}

/// Where a binary of the bundle lies: the main one among the executables,
/// every other among the resources.
pub open spec fn binary_location(macos_dir: Seq<char>, contents_dir: Seq<char>, binary: BundleBinary) -> Seq<
    char,
> {
    if binary.spec_main() {
        path_join(macos_dir, binary.spec_name())
    } else {
        path_join(path_join(contents_dir, "Resources"@), binary.spec_name())
    }
}

fn read_object_libs(bytes: &[u8]) -> (r: Result<Vec<String>, ProducerError>)
    ensures
        match r {
            Ok(libs) => object_libs(bytes@) == Some(libs.deep_view()),
            Err(e) => object_libs(bytes@) is None && e is BinaryParse,
        },
{
    if bytes.len() < 16 {
        return Err(ProducerError::BinaryParse(String::from_str("Object is too small.")));
    }
    match read_magic(bytes) {
        Err(e) => Err(ProducerError::BinaryParse(goblin_error_text(&e))),
        Ok(found) => match found.layout {
            None => {
                let libs: Vec<String> = Vec::new();
                proof {
                    assert(libs.deep_view() =~= Seq::<Seq<char>>::empty());
                }
                Ok(libs)
            },
            Some(layout) => match read_macho_libs(bytes, layout) {
                Ok(libs) => Ok(libs),
                Err(text) => Err(ProducerError::BinaryParse(text)),
            },
        },
    }
}

/// The libraries that the load commands of a binary name, behind the name
/// `self` for the binary itself. A binary that is no Mach-O file names none;
/// one that cannot be parsed is an error.
pub fn get_dylib_dependencies(bytes: &[u8]) -> (r: Result<Vec<String>, ProducerError>)
    ensures
        match r {
            Ok(libs) => dependencies(bytes@) == Some(libs.deep_view()),
            Err(e) => dependencies(bytes@) is None && e is BinaryParse,
        },
{
    if bytes.len() >= 16 {
        let is_fat = match read_magic(bytes) {
            Ok(found) => found.magic == FAT_MAGIC,
            Err(_) => false,
        };
        if is_fat {
            return match first_fat_slice(bytes) {
                None => Err(
                    ProducerError::BinaryParse(
                        String::from_str("multi-architecture binary without a readable first slice"),
                    ),
                ),
                Some((start, end)) => read_object_libs(slice_subrange(bytes, start, end)),
            };
        }
    }
    read_object_libs(bytes)
}

/// Whether a reference is one that is never bundled.
pub fn is_system_dylib(path: &str) -> (r: bool)
    ensures
        r == is_system(path@),
{
    let p = to_chars(path);
    str_eq(path, "self") || chars_start_with(&p, &to_chars("/System/")) || chars_start_with(
        &p,
        &to_chars("/usr/lib/"),
    ) || chars_start_with(&p, &to_chars("@rpath")) || chars_start_with(
        &p,
        &to_chars("@executable_path"),
    ) || chars_start_with(&p, &to_chars("@loader_path"))
}

/// The references among `deps` that must be bundled, in order.
pub fn non_system_dependencies(deps: &Vec<String>) -> (r: Vec<String>)
    ensures
        r.deep_view() == non_system(deps.deep_view()),
{
    let mut r: Vec<String> = Vec::new();
    let mut i: usize = 0;
    let ghost all = deps.deep_view();
    proof {
        assert(r.deep_view() =~= non_system(all.subrange(0, 0)));
    }
    while i < deps.len()
        invariant
            i <= deps.len(),
            all == deps.deep_view(),
            r.deep_view() == non_system(all.subrange(0, i as int)),
        decreases deps.len() - i,
    {
        proof {
            assert(all.subrange(0, i + 1).drop_last() =~= all.subrange(0, i as int));
            assert(all.subrange(0, i + 1).last() == deps[i as int]@);
        }
        if !is_system_dylib(deps[i].as_str()) {
            let ghost before = r.deep_view();
            r.push(String::from_str(deps[i].as_str()));
            proof {
                assert(r.deep_view() =~= before.push(deps[i as int]@));
            }
        }
        i += 1;
    }
    proof {
        assert(all.subrange(0, deps.len() as int) =~= all);
    }
    r
}

/// The rewrites that a binary with the references `deps` needs.
pub fn rewrite_changes(deps: &Vec<String>) -> (r: Vec<PathChange>)
    ensures
        change_views(r@) == changes_for(deps.deep_view()),
{
    let mut r: Vec<PathChange> = Vec::new();
    let mut i: usize = 0;
    let ghost all = deps.deep_view();
    proof {
        assert(change_views(r@) =~= changes_for(all.subrange(0, 0)));
    }
    while i < deps.len()
        invariant
            i <= deps.len(),
            all == deps.deep_view(),
            change_views(r@) == changes_for(all.subrange(0, i as int)),
        decreases deps.len() - i,
    {
        proof {
            assert(all.subrange(0, i + 1).drop_last() =~= all.subrange(0, i as int));
            assert(all.subrange(0, i + 1).last() == deps[i as int]@);
        }
        if !is_system_dylib(deps[i].as_str()) {
            match path_file_name(deps[i].as_str()) {
                Some(name) => {
                    let mut new_path = String::from_str(RPATH_TOKEN);
                    new_path.append(name.as_str());
                    let ghost before = change_views(r@);
                    let change = PathChange { old_path: String::from_str(deps[i].as_str()), new_path };
                    r.push(change);
                    proof {
                        assert(change_views(r@) =~= before.push(
                            (deps[i as int]@, relocatable(name@)),
                        ));
                    }
                },
                None => {},
            }
        }
        i += 1;
    }
    proof {
        assert(all.subrange(0, deps.len() as int) =~= all);
    }
    r
}

/// What has to be looked up on disk before a reference can be resolved: a
/// glob pattern for a wildcard that a known install layout explains, the
/// path itself for an absolute path, and nothing for every other reference.
pub fn dylib_path_query(path_str: &str) -> (r: PathQuery)
    ensures
        match r {
            PathQuery::Glob(pattern) => has_wildcard(path_str@) && wildcard_pattern(path_str@)
                == Some(pattern@),
            PathQuery::Probe(path) => !has_wildcard(path_str@) && is_absolute(path_str@) && path@
                == path_str@,
            PathQuery::Nothing => (has_wildcard(path_str@) && wildcard_pattern(path_str@) is None)
                || (!has_wildcard(path_str@) && !is_absolute(path_str@)),
        },
{
    let p = to_chars(path_str);
    let star = to_chars("*");
    proof {
        reveal_strlit("*");
        assert(star@ =~= seq!['*']);
    }
    if chars_contain(&p, &star) {
        let prefix = to_chars(HOMEBREW_WILDCARD);
        if chars_start_with(&p, &prefix) {
            let rest = from_chars_range(&p, prefix.len(), p.len());
            let mut pattern = String::from_str(HOMEBREW_CELLAR);
            pattern.append(rest.as_str());
            PathQuery::Glob(pattern)
        } else {
            PathQuery::Nothing
        }
    } else if path_is_absolute(path_str) {
        PathQuery::Probe(String::from_str(path_str))
    } else {
        PathQuery::Nothing
    }
}

/// The path on disk of a library reference. `located` is what the lookup of
/// `dylib_path_query` found: the first existing match of the pattern, or the
/// path itself where it exists. A wildcard without a match, a relative
/// reference and an absolute path that does not exist are errors.
pub fn resolve_dylib_path(path_str: &str, located: Option<String>) -> (r: Result<String, ProducerError>)
    ensures
        match r {
            Ok(path) => {
                &&& located matches Some(found)
                &&& has_wildcard(path_str@) || is_absolute(path_str@)
                &&& path@ == if has_wildcard(path_str@) {
                    found@
                } else {
                    path_str@
                }
            },
            Err(e) => {
                &&& located is None || (!has_wildcard(path_str@) && !is_absolute(path_str@))
                &&& e matches ProducerError::DependencyResolution(text) && text@ == if has_wildcard(
                    path_str@,
                ) {
                    "Cannot resolve wildcard dylib path: "@ + path_str@
                } else if !is_absolute(path_str@) {
                    "Relative dylib path not supported: "@ + path_str@
                } else {
                    "Dylib not found: "@ + path_str@
                }
            },
        },
{
    let p = to_chars(path_str);
    let star = to_chars("*");
    proof {
        reveal_strlit("*");
        assert(star@ =~= seq!['*']);
    }
    if chars_contain(&p, &star) {
        match located {
            Some(found) => Ok(found),
            None => {
                let mut text = String::from_str("Cannot resolve wildcard dylib path: ");
                text.append(path_str);
                Err(ProducerError::DependencyResolution(text))
            },
        }
    } else if !path_is_absolute(path_str) {
        let mut text = String::from_str("Relative dylib path not supported: ");
        text.append(path_str);
        Err(ProducerError::DependencyResolution(text))
    } else {
        match located {
            Some(_) => Ok(String::from_str(path_str)),
            None => {
                let mut text = String::from_str("Dylib not found: ");
                text.append(path_str);
                Err(ProducerError::DependencyResolution(text))
            },
        }
    }
}

/// The directory of the bundle that holds the bundled libraries.
pub fn frameworks_directory(contents_dir: &str) -> (r: String)
    ensures
        r@ == path_join(contents_dir@, "Frameworks"@),
{
    join_path(contents_dir, "Frameworks")
}

/// Where a binary of the bundle lies.
pub fn binary_path_in_bundle(macos_dir: &str, contents_dir: &str, binary: &BundleBinary) -> (r:
    String)
    ensures
        r@ == binary_location(macos_dir@, contents_dir@, *binary),
{
    if binary.main() {
        join_path(macos_dir, binary.name())
    } else {
        let resources = join_path(contents_dir, "Resources");
        join_path(resources.as_str(), binary.name())
    }
}

/// The arguments of the rewrite tool that replace one reference in `target`.
pub fn change_args(change: &PathChange, target: &str) -> (r: Vec<String>)
    ensures
        r.deep_view() == seq!["-change"@, change.old_path@, change.new_path@, target@],
{
    let mut r: Vec<String> = Vec::new();
    r.push(String::from_str("-change"));
    r.push(String::from_str(change.old_path.as_str()));
    r.push(String::from_str(change.new_path.as_str()));
    r.push(String::from_str(target));
    proof {
        assert(r.deep_view() =~= seq!["-change"@, change.old_path@, change.new_path@, target@]);
    }
    r
}

/// The arguments of the rewrite tool that add the search-path hint to `binary`.
pub fn add_rpath_args(binary: &str) -> (r: Vec<String>)
    ensures
        r.deep_view() == seq!["-add_rpath"@, RPATH_HINT@, binary@],
{
    let mut r: Vec<String> = Vec::new();
    r.push(String::from_str("-add_rpath"));
    r.push(String::from_str(RPATH_HINT));
    r.push(String::from_str(binary));
    proof {
        assert(r.deep_view() =~= seq!["-add_rpath"@, RPATH_HINT@, binary@]);
    }
    r
}

/// One call of the rewrite tool.
#[derive(Debug)]
pub struct ToolCall {
    /// What the call is for.
    pub step: ToolStep,
    /// The arguments of the tool.
    pub args: Vec<String>,
}

/// The calls of the rewrite tool for a binary, as pairs of purpose and
/// arguments: one rewrite for each reference that must be bundled, and then
/// the search-path hint.
pub open spec fn fixup_calls(deps: Seq<Seq<char>>, binary: Seq<char>) -> Seq<(ToolStep, Seq<Seq<char>>)> {
    Seq::new(
        changes_for(deps).len(),
        |i: int|
            (
                ToolStep::ChangeInBinary,
                seq!["-change"@, changes_for(deps)[i].0, changes_for(deps)[i].1, binary],
            ),
    ).push((ToolStep::AddRpath, seq!["-add_rpath"@, RPATH_HINT@, binary]))
}

pub open spec fn call_views(calls: Seq<ToolCall>) -> Seq<(ToolStep, Seq<Seq<char>>)> {
    calls.map_values(|c: ToolCall| (c.step, c.args.deep_view()))
}

/// The calls of the rewrite tool for a binary with the references `deps`.
/// A binary is touched only when a library has been bundled: then each of
/// its references that must be bundled is rewritten, and the search-path
/// hint is added last.
pub fn binary_fixups(any_bundled: bool, deps: &Vec<String>, binary: &str) -> (r: Vec<ToolCall>)
    ensures
        call_views(r@) == if any_bundled {
            fixup_calls(deps.deep_view(), binary@)
        } else {
            Seq::empty()
        },
{
    let mut r: Vec<ToolCall> = Vec::new();
    if !any_bundled {
        proof {
            assert(call_views(r@) =~= Seq::empty());
        }
        return r;
    }
    let changes = rewrite_changes(deps);
    let ghost wanted = changes_for(deps.deep_view());
    let mut i: usize = 0;
    proof {
        assert(call_views(r@) =~= fixup_calls(deps.deep_view(), binary@).subrange(0, 0));
    }
    while i < changes.len()
        invariant
            i <= changes.len(),
            wanted == changes_for(deps.deep_view()),
            change_views(changes@) == wanted,
            call_views(r@) == fixup_calls(deps.deep_view(), binary@).subrange(0, i as int),
        decreases changes.len() - i,
    {
        let ghost before = call_views(r@);
        let args = change_args(&changes[i], binary);
        proof {
            assert(change_views(changes@)[i as int] == (changes[i as int].old_path@, changes[i as int].new_path@));
        }
        let ghost call = (ToolStep::ChangeInBinary, args.deep_view());
        r.push(ToolCall { step: ToolStep::ChangeInBinary, args });
        proof {
            assert(call_views(r@) =~= before.push(call));
            assert(before.push(call) =~= fixup_calls(deps.deep_view(), binary@).subrange(0, i + 1));
        }
        i += 1;
    }
    let ghost before = call_views(r@);
    let args = add_rpath_args(binary);
    let ghost call = (ToolStep::AddRpath, args.deep_view());
    r.push(ToolCall { step: ToolStep::AddRpath, args });
    proof {
        assert(call_views(r@) =~= before.push(call));
        assert(before.push(call) =~= fixup_calls(deps.deep_view(), binary@));
    }
    r
}

/// Whether a failure of the rewrite tool ends the bundling. Only the search
/// path hint may fail, since the hint may be there already; every failed
/// rewrite of a reference would leave a bundle that breaks when run.
pub fn tool_failure_is_fatal(step: ToolStep) -> (r: bool)
    ensures
        r == (step != ToolStep::AddRpath),
{
    match step {
        ToolStep::AddRpath => false,
        _ => true,
    }
}

/// A relocatable reference is never bundled again.
pub proof fn lemma_relocatable_is_system(name: Seq<char>)
    ensures
        is_system(relocatable(name)),
{
    reveal_strlit("@rpath/");
    reveal_strlit("@rpath");
    let r = relocatable(name);
    assert(r.subrange(0, 6) =~= "@rpath"@);
}

/// A rewritten reference with a file name is never bundled and never rewritten again.
pub proof fn lemma_rewritten_is_settled(dep: Seq<char>)
    requires
        is_system(dep) || file_name(dep) is Some,
    ensures
        is_system(rewritten(dep)),
        rewritten(rewritten(dep)) == rewritten(dep),
{
    if !is_system(dep) {
        lemma_relocatable_is_system(file_name(dep)->0);
    }
}

/// Bundling a binary that has been bundled changes nothing: once every
/// reference is rewritten, none is left to bundle and none to rewrite.
pub proof fn lemma_bundled_binary_is_settled(deps: Seq<Seq<char>>)
    requires
        forall|i: int| 0 <= i < deps.len() ==> is_system(#[trigger] deps[i]) || file_name(deps[i]) is Some,
    ensures
        non_system(deps.map_values(|d: Seq<char>| rewritten(d))).len() == 0,
        changes_for(deps.map_values(|d: Seq<char>| rewritten(d))).len() == 0,
    decreases deps.len(),
{
    let after = deps.map_values(|d: Seq<char>| rewritten(d));
    if deps.len() > 0 {
        lemma_bundled_binary_is_settled(deps.drop_last());
        assert(after.drop_last() =~= deps.drop_last().map_values(|d: Seq<char>| rewritten(d)));
        assert(after.last() == rewritten(deps.last()));
        lemma_rewritten_is_settled(deps.last());
    }
}

} // verus!

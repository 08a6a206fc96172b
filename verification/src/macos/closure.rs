//! The closure of a binary's library dependencies: every library that must be
//! bundled is visited once, marked before its own dependencies are looked
//! at, copied, and rewritten after the libraries it depends on.

use vstd::prelude::*;
use vstd::string::StringExecFns;
use crate::error::ProducerError;
use crate::macos::dylib::change_views;
use crate::macos::dylib::changes_for;
use crate::macos::dylib::is_system;
use crate::macos::dylib::non_system;
use crate::macos::dylib::non_system_dependencies;
use crate::macos::dylib::rewrite_changes;
use crate::macos::dylib::PathChange;
use crate::paths::file_name;
use crate::paths::join_path;
use crate::paths::path_file_name;
use crate::paths::path_join;
use crate::text::str_eq;
use crate::text::strings_contain;

verus! {

/// What the caller of the closure has to do next.
#[derive(Debug)]
pub enum ClosureCommand {
    /// Copy the library at `from` to `to`, read the references of `from`,
    /// and supply them.
    Copy { from: String, to: String },
    /// Apply the rewrites to the bundled library at `target`.
    Rewrite { target: String, changes: Vec<PathChange> },
    /// The library at `path` has no file name and cannot be bundled.
    Invalid { path: String },
    /// Nothing is left to do.
    Idle,
}

/// Work that is still to be done.
#[derive(Debug)]
pub enum Frame {
    /// Visit the library at this path.
    Visit(String),
    /// Rewrite the references of the bundled library at `target`.
    Finish { target: String, changes: Vec<PathChange> },
}

/// The libraries bundled so far and the work still to be done, for one
/// bundling operation.
#[derive(Debug)]
pub struct DylibClosure {
    frameworks_dir: String,
    processed: Vec<String>,
    stack: Vec<Frame>,
}

/// One library of a dependency graph held in memory.
#[derive(Debug)]
pub struct LibraryNode {
    /// The path of the library.
    pub path: String,
    /// The references that its load commands name.
    pub deps: Vec<String>,
}

/// A piece of waiting work, as contracts speak of it.
pub enum Work {
    /// Visit the library at this path.
    Visit(Seq<char>),
    /// Rewrite, in the bundled library at the first path, each old
    /// reference of the pairs into the new one.
    Finish(Seq<char>, Seq<(Seq<char>, Seq<char>)>),
}

/// A piece of work as contracts speak of it.
pub open spec fn work_of(frame: Frame) -> Work {
    match frame {
        Frame::Visit(path) => Work::Visit(path@),
        Frame::Finish { target, changes } => Work::Finish(target@, change_views(changes@)),
    }
}

/// The visits of the last `count` of `paths`, the last path first.
pub open spec fn visits_reversed(paths: Seq<Seq<char>>, count: int) -> Seq<Work> {
    Seq::new(count as nat, |i: int| Work::Visit(paths[paths.len() - 1 - i]))
}

/// The waiting work without the visits at its end that are of libraries
/// marked already: those are passed over.
pub open spec fn settled(work: Seq<Work>, processed: Seq<Seq<char>>) -> Seq<Work>
    decreases work.len(),
{
    if work.len() > 0 && (work.last() matches Work::Visit(path) && processed.contains(path)) {
        settled(work.drop_last(), processed)
    } else {
        work
    }
}

/// The piece of work is a visit of the library at `path`.
pub open spec fn frame_visits(frame: Frame, path: Seq<char>) -> bool {
    frame matches Frame::Visit(p) && p@ == path
}

/// The piece of work is the rewriting of `target` with `changes`.
pub open spec fn frame_finishes(
    frame: Frame,
    target: Seq<char>,
    changes: Seq<(Seq<char>, Seq<char>)>,
) -> bool {
    frame matches Frame::Finish { target: t, changes: c } && t@ == target && change_views(c@)
        == changes
}

/// The first library at or behind index `from` that lies at `path`.
pub open spec fn find_from(graph: Seq<LibraryNode>, path: Seq<char>, from: int) -> Option<int>
    decreases graph.len() - from,
{
    if from < 0 || from >= graph.len() {
        None
    } else if graph[from].path@ == path {
        Some(from)
    } else {
        find_from(graph, path, from + 1)
    }
}

/// The graph holds a library at `path`.
pub open spec fn known(graph: Seq<LibraryNode>, path: Seq<char>) -> bool {
    find_from(graph, path, 0) is Some
}

/// The references of the library at `path` that must be bundled.
pub open spec fn deps_in_graph(graph: Seq<LibraryNode>, path: Seq<char>) -> Seq<Seq<char>> {
    match find_from(graph, path, 0) {
        Some(n) => non_system(graph[n].deps.deep_view()),
        None => Seq::empty(),
    }
}

/// With each library of `set`, `set` holds the libraries it depends on.
pub open spec fn closed_under_deps(graph: Seq<LibraryNode>, set: Seq<Seq<char>>) -> bool {
    forall|i: int, j: int|
        0 <= i < set.len() && 0 <= j < deps_in_graph(graph, set[i]).len() ==> set.contains(
            #[trigger] deps_in_graph(graph, set[i])[j],
        )
}

/// A chain of libraries that begins with a root that must be bundled and
/// in which each library is one that the library before it depends on and
/// that must be bundled.
pub open spec fn is_chain(graph: Seq<LibraryNode>, roots: Seq<Seq<char>>, chain: Seq<Seq<char>>) -> bool {
    &&& chain.len() > 0
    &&& non_system(roots).contains(chain[0])
    &&& forall|i: int|
        0 < i < chain.len() ==> deps_in_graph(graph, chain[i - 1]).contains(#[trigger] chain[i])
}

/// The library at `path` is reached from the roots: it is a root that must
/// be bundled, or a library that a reached library depends on and that must
/// be bundled.
pub open spec fn reached(graph: Seq<LibraryNode>, roots: Seq<Seq<char>>, path: Seq<char>) -> bool {
    exists|chain: Seq<Seq<char>>| #[trigger] is_chain(graph, roots, chain) && chain.last() == path
}

/// Everything that is reached can be bundled: it is a library of the graph
/// and has a file name.
pub open spec fn complete_where_reached(graph: Seq<LibraryNode>, roots: Seq<Seq<char>>) -> bool {
    forall|path: Seq<char>| #[trigger]
        reached(graph, roots, path) ==> known(graph, path) && file_name(path) is Some
}

/// A root that must be bundled is reached.
pub proof fn lemma_root_is_reached(graph: Seq<LibraryNode>, roots: Seq<Seq<char>>, path: Seq<char>)
    requires
        non_system(roots).contains(path),
    ensures
        reached(graph, roots, path),
{
    let chain = seq![path];
    assert(is_chain(graph, roots, chain) && chain.last() == path);
}

/// What a reached library depends on is reached.
pub proof fn lemma_dependency_is_reached(
    graph: Seq<LibraryNode>,
    roots: Seq<Seq<char>>,
    via: Seq<char>,
    path: Seq<char>,
)
    requires
        reached(graph, roots, via),
        deps_in_graph(graph, via).contains(path),
    ensures
        reached(graph, roots, path),
{
    let chain = choose|chain: Seq<Seq<char>>| #[trigger]
        is_chain(graph, roots, chain) && chain.last() == via;
    let longer = chain.push(path);
    assert forall|i: int| 0 < i < longer.len() implies deps_in_graph(graph, longer[i - 1]).contains(
        #[trigger] longer[i],
    ) by {
        if i < chain.len() {
            assert(deps_in_graph(graph, chain[i - 1]).contains(chain[i]));
        }
    }
    assert(is_chain(graph, roots, longer) && longer.last() == path);
}

/// A list that holds the roots and, with each library, what the library
/// depends on, holds the last library of every chain.
pub proof fn lemma_closed_list_holds_chain(
    graph: Seq<LibraryNode>,
    roots: Seq<Seq<char>>,
    list: Seq<Seq<char>>,
    chain: Seq<Seq<char>>,
)
    requires
        forall|k: int| 0 <= k < non_system(roots).len() ==> list.contains(#[trigger] non_system(roots)[k]),
        closed_under_deps(graph, list),
        is_chain(graph, roots, chain),
    ensures
        list.contains(chain.last()),
    decreases chain.len(),
{
    if chain.len() == 1 {
        let k = choose|k: int| 0 <= k < non_system(roots).len() && non_system(roots)[k] == chain[0];
        assert(list.contains(non_system(roots)[k]));
    } else {
        let shorter = chain.drop_last();
        assert forall|i: int| 0 < i < shorter.len() implies deps_in_graph(
            graph,
            shorter[i - 1],
        ).contains(#[trigger] shorter[i]) by {
            assert(deps_in_graph(graph, chain[i - 1]).contains(chain[i]));
        }
        lemma_closed_list_holds_chain(graph, roots, list, shorter);
        let via = shorter.last();
        let path = chain.last();
        assert(deps_in_graph(graph, chain[chain.len() - 2]).contains(chain[chain.len() - 1]));
        let i = choose|i: int| 0 <= i < list.len() && list[i] == via;
        let j = choose|j: int|
            0 <= j < deps_in_graph(graph, via).len() && deps_in_graph(graph, via)[j] == path;
        assert(list.contains(deps_in_graph(graph, list[i])[j]));
    }
}

/// Nothing is missing from the graph: every root and every reference that
/// must be bundled is a library of the graph, and every library has a file name.
pub open spec fn graph_complete(graph: Seq<LibraryNode>, roots: Seq<Seq<char>>) -> bool {
    &&& forall|k: int| 0 <= k < non_system(roots).len() ==> known(graph, #[trigger] non_system(roots)[k])
    &&& forall|n: int, j: int|
        0 <= n < graph.len() && 0 <= j < non_system(graph[n].deps.deep_view()).len() ==> known(
            graph,
            #[trigger] non_system(graph[n].deps.deep_view())[j],
        )
    &&& forall|n: int| 0 <= n < graph.len() ==> file_name((#[trigger] graph[n]).path@) is Some
}

/// What a search from `from` finds is the first library at the path, if there is one.
pub proof fn lemma_find_from(graph: Seq<LibraryNode>, path: Seq<char>, from: int)
    requires
        0 <= from,
    ensures
        match find_from(graph, path, from) {
            Some(n) => from <= n < graph.len() && graph[n].path@ == path,
            None => forall|k: int| from <= k < graph.len() ==> (#[trigger] graph[k]).path@ != path,
        },
    decreases graph.len() - from,
{
    if from < graph.len() && graph[from].path@ != path {
        lemma_find_from(graph, path, from + 1);
    }
}

/// Distinct elements of a list of length `n` number at most `n`.
pub proof fn lemma_distinct_within(items: Seq<Seq<char>>, pool: Seq<Seq<char>>)
    requires
        items.no_duplicates(),
        forall|i: int| 0 <= i < items.len() ==> pool.contains(#[trigger] items[i]),
    ensures
        items.len() <= pool.len(),
{
    broadcast use vstd::seq_lib::seq_to_set_is_finite;

    items.unique_seq_to_set();
    pool.lemma_cardinality_of_set();
    assert(items.to_set().subset_of(pool.to_set())) by {
        assert forall|x: Seq<char>| items.to_set().contains(x) implies pool.to_set().contains(
            x,
        ) by {
            let i = choose|i: int| 0 <= i < items.len() && items[i] == x;
            assert(pool.contains(items[i]));
        }
    }
    vstd::set_lib::lemma_len_subset(items.to_set(), pool.to_set());
}

/// The first library of the graph that lies at `path`.
pub fn find_library(graph: &Vec<LibraryNode>, path: &str) -> (r: Option<usize>)
    ensures
        match r {
            Some(n) => find_from(graph@, path@, 0) == Some(n as int) && n < graph.len(),
            None => find_from(graph@, path@, 0) is None,
        },
{
    let mut i: usize = 0;
    while i < graph.len()
        invariant
            i <= graph.len(),
            find_from(graph@, path@, 0) == find_from(graph@, path@, i as int),
        decreases graph.len() - i,
    {
        if str_eq(graph[i].path.as_str(), path) {
            return Some(i);
        }
        i += 1;
    }
    None
}

impl DylibClosure {
    /// The directory into which libraries are copied.
    pub closed spec fn frameworks(&self) -> Seq<char> {
        self.frameworks_dir@
    }

    /// The libraries marked so far, in the order in which they were marked.
    pub closed spec fn processed(&self) -> Seq<Seq<char>> {
        self.processed.deep_view()
    }

    /// How many pieces of work are waiting.
    pub closed spec fn depth(&self) -> nat {
        self.stack@.len()
    }

    /// The waiting work; what was asked for last is done first.
    pub closed spec fn work(&self) -> Seq<Work> {
        self.stack@.map_values(|frame: Frame| work_of(frame))
    }

    /// A visit of the library at `path` is waiting.
    pub closed spec fn is_pending(&self, path: Seq<char>) -> bool {
        exists|i: int| 0 <= i < self.stack@.len() && frame_visits(#[trigger] self.stack@[i], path)
    }

    /// The rewrites `changes` of the bundled library at `target` are waiting.
    pub closed spec fn will_rewrite(
        &self,
        target: Seq<char>,
        changes: Seq<(Seq<char>, Seq<char>)>,
    ) -> bool {
        exists|i: int|
            0 <= i < self.stack@.len() && frame_finishes(#[trigger] self.stack@[i], target, changes)
    }

    /// No library is marked twice.
    pub open spec fn well_formed(&self) -> bool {
        self.processed().no_duplicates()
    }

    /// A closure that has bundled nothing and has nothing to do.
    pub fn new(frameworks_dir: &str) -> (r: Self)
        ensures
            r.well_formed(),
            r.frameworks() == frameworks_dir@,
            r.processed().len() == 0,
            r.depth() == 0,
            r.work().len() == 0,
            forall|p: Seq<char>| !r.is_pending(p),
    {
        let r = DylibClosure {
            frameworks_dir: String::from_str(frameworks_dir),
            processed: Vec::new(),
            stack: Vec::new(),
        };
        proof {
            assert(r.processed.deep_view() =~= Seq::<Seq<char>>::empty());
        }
        r
    }

    /// Whether any library has been bundled.
    pub fn has_bundled(&self) -> (r: bool)
        ensures
            r == (self.processed().len() > 0),
    {
        self.processed.len() > 0
    }

    /// How many libraries have been bundled.
    pub fn bundled_count(&self) -> (r: usize)
        ensures
            r == self.processed().len(),
    {
        self.processed.len()
    }

    /// The libraries marked so far, in the order in which they were marked.
    pub fn into_processed(self) -> (r: Vec<String>)
        ensures
            r.deep_view() == self.processed(),
    {
        self.processed
    }

    /// Asks for a visit of the library at `path`.
    pub fn visit(&mut self, path: String)
        ensures
            final(self).frameworks() == old(self).frameworks(),
            final(self).processed() == old(self).processed(),
            final(self).depth() == old(self).depth() + 1,
            forall|p: Seq<char>|
                final(self).is_pending(p) <==> old(self).is_pending(p) || p == path@,
            forall|t: Seq<char>, c: Seq<(Seq<char>, Seq<char>)>|
                old(self).will_rewrite(t, c) ==> final(self).will_rewrite(t, c),
            final(self).work() == old(self).work().push(Work::Visit(path@)),
    {
        let ghost before = self.stack@;
        let ghost place = path@;
        self.stack.push(Frame::Visit(path));
        proof {
            let after = self.stack@;
            assert(self.work() =~= old(self).work().push(Work::Visit(place)));
            assert forall|t: Seq<char>, c: Seq<(Seq<char>, Seq<char>)>|
                old(self).will_rewrite(t, c) implies final(self).will_rewrite(t, c) by {
                let i = choose|i: int| 0 <= i < before.len() && frame_finishes(before[i], t, c);
                assert(frame_finishes(after[i], t, c));
            }
            assert forall|p: Seq<char>| final(self).is_pending(p) <==> old(self).is_pending(p)
                || p == path@ by {
                if old(self).is_pending(p) {
                    let i = choose|i: int| 0 <= i < before.len() && frame_visits(before[i], p);
                    assert(frame_visits(after[i], p));
                }
                if p == path@ {
                    assert(frame_visits(after[after.len() - 1], p));
                }
                if final(self).is_pending(p) {
                    let i = choose|i: int| 0 <= i < after.len() && frame_visits(after[i], p);
                    if i < before.len() {
                        assert(frame_visits(before[i], p));
                    }
                }
            }
        }
    }

    /// Asks for visits of the libraries at `paths`, which are then visited
    /// in the order given.
    pub fn visit_all(&mut self, paths: Vec<String>)
        ensures
            final(self).frameworks() == old(self).frameworks(),
            final(self).processed() == old(self).processed(),
            final(self).depth() == old(self).depth() + paths.len(),
            forall|p: Seq<char>|
                final(self).is_pending(p) <==> old(self).is_pending(p) || paths.deep_view().contains(p),
            forall|t: Seq<char>, c: Seq<(Seq<char>, Seq<char>)>|
                old(self).will_rewrite(t, c) ==> final(self).will_rewrite(t, c),
            final(self).work() == old(self).work() + visits_reversed(
                paths.deep_view(),
                paths.len() as int,
            ),
    {
        let ghost wanted = paths.deep_view();
        let mut rest = paths;
        proof {
            assert(self.work() =~= old(self).work() + visits_reversed(wanted, 0));
        }
        while rest.len() > 0
            invariant
                self.frameworks() == old(self).frameworks(),
                self.processed() == old(self).processed(),
                rest.len() <= wanted.len(),
                rest.deep_view() == wanted.subrange(0, rest.len() as int),
                self.depth() == old(self).depth() + (wanted.len() - rest.len()),
                forall|p: Seq<char>|
                    self.is_pending(p) <==> old(self).is_pending(p) || (exists|k: int|
                        rest.len() <= k < wanted.len() && #[trigger] wanted[k] == p),
                forall|t: Seq<char>, c: Seq<(Seq<char>, Seq<char>)>|
                    old(self).will_rewrite(t, c) ==> self.will_rewrite(t, c),
                self.work() == old(self).work() + visits_reversed(wanted, wanted.len() - rest.len()),
            decreases rest.len(),
        {
            let ghost before = rest.deep_view();
            let ghost raw = rest@;
            let ghost pending_before = *self;
            let path = rest.pop().unwrap();
            proof {
                assert(before[raw.len() - 1] == raw[raw.len() - 1]@);
                assert(rest.deep_view() =~= before.drop_last());
                assert(path@ == wanted[rest.len() as int]);
                assert(rest.deep_view() =~= wanted.subrange(0, rest.len() as int));
            }
            self.visit(path);
            proof {
                assert(self.work() =~= old(self).work() + visits_reversed(
                    wanted,
                    wanted.len() - rest.len(),
                ));
                assert forall|p: Seq<char>|
                    self.is_pending(p) <==> old(self).is_pending(p) || (exists|k: int|
                        rest.len() <= k < wanted.len() && #[trigger] wanted[k] == p) by {
                    if pending_before.is_pending(p) && !old(self).is_pending(p) {
                        let k = choose|k: int|
                            rest.len() + 1 <= k < wanted.len() && #[trigger] wanted[k] == p;
                        assert(rest.len() <= k < wanted.len() && wanted[k] == p);
                    }
                    if p == path@ {
                        assert(wanted[rest.len() as int] == p);
                    }
                    if exists|k: int| rest.len() <= k < wanted.len() && #[trigger] wanted[k] == p {
                        let k = choose|k: int|
                            rest.len() <= k < wanted.len() && #[trigger] wanted[k] == p;
                        if k > rest.len() {
                            assert(rest.len() + 1 <= k < wanted.len() && wanted[k] == p);
                        }
                    }
                }
            }
        }
        proof {
            assert forall|p: Seq<char>|
                final(self).is_pending(p) <==> old(self).is_pending(p) || wanted.contains(p) by {
                if wanted.contains(p) {
                    let k = choose|k: int| 0 <= k < wanted.len() && wanted[k] == p;
                    assert(0 <= k < wanted.len() && wanted[k] == p);
                }
                if exists|k: int| 0 <= k < wanted.len() && #[trigger] wanted[k] == p {
                    let k = choose|k: int| 0 <= k < wanted.len() && #[trigger] wanted[k] == p;
                    assert(wanted.contains(p));
                }
            }
        }
    }

    /// Supplies what was read of a library that has just been copied to
    /// `target`: all the references of its load commands, and the paths on
    /// disk of those that must be bundled. The library's own references are
    /// rewritten after the libraries it depends on have been dealt with,
    /// and these are visited in the order given.
    pub fn supply(&mut self, target: String, all_deps: &Vec<String>, resolved: Vec<String>)
        ensures
            final(self).frameworks() == old(self).frameworks(),
            final(self).processed() == old(self).processed(),
            final(self).depth() == old(self).depth() + 1 + resolved.len(),
            forall|p: Seq<char>|
                final(self).is_pending(p) <==> old(self).is_pending(p) || resolved.deep_view().contains(
                    p,
                ),
            final(self).will_rewrite(target@, changes_for(all_deps.deep_view())),
            forall|t: Seq<char>, c: Seq<(Seq<char>, Seq<char>)>|
                old(self).will_rewrite(t, c) ==> final(self).will_rewrite(t, c),
            final(self).work() == old(self).work().push(
                Work::Finish(target@, changes_for(all_deps.deep_view())),
            ) + visits_reversed(resolved.deep_view(), resolved.len() as int),
    {
        let ghost first = self.stack@;
        let ghost wanted = resolved.deep_view();
        let ghost place = target@;
        let ghost rewrites = changes_for(all_deps.deep_view());
        let changes = rewrite_changes(all_deps);
        self.stack.push(Frame::Finish { target, changes });
        proof {
            let after = self.stack@;
            assert(self.work() =~= old(self).work().push(Work::Finish(place, rewrites)));
            assert(self.work() =~= old(self).work().push(Work::Finish(place, rewrites))
                + visits_reversed(wanted, 0));
            assert(frame_finishes(after[first.len() as int], place, rewrites));
            assert forall|t: Seq<char>, c: Seq<(Seq<char>, Seq<char>)>|
                old(self).will_rewrite(t, c) implies self.will_rewrite(t, c) by {
                let i = choose|i: int| 0 <= i < first.len() && frame_finishes(first[i], t, c);
                assert(frame_finishes(after[i], t, c));
            }
            assert forall|p: Seq<char>| self.is_pending(p) <==> old(self).is_pending(p) by {
                if old(self).is_pending(p) {
                    let i = choose|i: int| 0 <= i < first.len() && frame_visits(first[i], p);
                    assert(frame_visits(after[i], p));
                }
                if self.is_pending(p) {
                    let i = choose|i: int| 0 <= i < after.len() && frame_visits(after[i], p);
                    assert(i < first.len());
                    assert(frame_visits(first[i], p));
                }
            }
        }
        let mut rest = resolved;
        while rest.len() > 0
            invariant
                self.frameworks() == old(self).frameworks(),
                self.processed() == old(self).processed(),
                rest.len() <= wanted.len(),
                rest.deep_view() == wanted.subrange(0, rest.len() as int),
                self.depth() == old(self).depth() + 1 + (wanted.len() - rest.len()),
                forall|p: Seq<char>|
                    self.is_pending(p) <==> old(self).is_pending(p) || (exists|k: int|
                        rest.len() <= k < wanted.len() && #[trigger] wanted[k] == p),
                self.will_rewrite(place, rewrites),
                forall|t: Seq<char>, c: Seq<(Seq<char>, Seq<char>)>|
                    old(self).will_rewrite(t, c) ==> self.will_rewrite(t, c),
                self.work() == old(self).work().push(Work::Finish(place, rewrites))
                    + visits_reversed(wanted, wanted.len() - rest.len()),
            decreases rest.len(),
        {
            let ghost before = rest.deep_view();
            let ghost raw = rest@;
            let ghost pending_before = *self;
            let path = rest.pop().unwrap();
            proof {
                assert(before[raw.len() - 1] == raw[raw.len() - 1]@);
                assert(rest.deep_view() =~= before.drop_last());
                assert(path@ == wanted[rest.len() as int]);
                assert(rest.deep_view() =~= wanted.subrange(0, rest.len() as int));
            }
            self.visit(path);
            proof {
                assert(self.work() =~= old(self).work().push(Work::Finish(place, rewrites))
                    + visits_reversed(wanted, wanted.len() - rest.len()));
                assert forall|p: Seq<char>|
                    self.is_pending(p) <==> old(self).is_pending(p) || (exists|k: int|
                        rest.len() <= k < wanted.len() && #[trigger] wanted[k] == p) by {
                    if pending_before.is_pending(p) && !old(self).is_pending(p) {
                        let k = choose|k: int|
                            rest.len() + 1 <= k < wanted.len() && #[trigger] wanted[k] == p;
                        assert(rest.len() <= k < wanted.len() && wanted[k] == p);
                    }
                    if p == path@ {
                        assert(wanted[rest.len() as int] == p);
                    }
                    if exists|k: int| rest.len() <= k < wanted.len() && #[trigger] wanted[k] == p {
                        let k = choose|k: int|
                            rest.len() <= k < wanted.len() && #[trigger] wanted[k] == p;
                        if k > rest.len() {
                            assert(rest.len() + 1 <= k < wanted.len() && wanted[k] == p);
                        }
                    }
                }
            }
        }
        proof {
            assert forall|p: Seq<char>|
                final(self).is_pending(p) <==> old(self).is_pending(p) || wanted.contains(p) by {
                if wanted.contains(p) {
                    let k = choose|k: int| 0 <= k < wanted.len() && wanted[k] == p;
                    assert(0 <= k < wanted.len() && wanted[k] == p);
                }
                if exists|k: int| 0 <= k < wanted.len() && #[trigger] wanted[k] == p {
                    let k = choose|k: int| 0 <= k < wanted.len() && #[trigger] wanted[k] == p;
                    assert(wanted.contains(p));
                }
            }
        }
    }

    /// The next thing to do. A library that is visited for the first time
    /// is marked at once, before anything is known of its own dependencies,
    /// and is to be copied; a library that is met again is passed over.
    pub fn next(&mut self) -> (r: ClosureCommand)
        requires
            old(self).well_formed(),
        ensures
            final(self).well_formed(),
            final(self).frameworks() == old(self).frameworks(),
            forall|p: Seq<char>|
                old(self).is_pending(p) ==> final(self).is_pending(p) || final(self).processed().contains(p),
            forall|p: Seq<char>| final(self).is_pending(p) ==> old(self).is_pending(p),
            forall|t: Seq<char>, c: Seq<(Seq<char>, Seq<char>)>|
                final(self).will_rewrite(t, c) ==> old(self).will_rewrite(t, c),
            forall|t: Seq<char>, c: Seq<(Seq<char>, Seq<char>)>|
                old(self).will_rewrite(t, c) ==> final(self).will_rewrite(t, c) || (
                r matches ClosureCommand::Rewrite { target, changes } && target@ == t
                    && change_views(changes@) == c),
            ({
                let waiting = settled(old(self).work(), old(self).processed());
                match r {
                    ClosureCommand::Idle => waiting.len() == 0 && final(self).work().len() == 0,
                    ClosureCommand::Copy { from, to } => waiting.len() > 0 && waiting.last()
                        == Work::Visit(from@) && final(self).work() == waiting.drop_last(),
                    ClosureCommand::Invalid { path } => waiting.len() > 0 && waiting.last()
                        == Work::Visit(path@) && final(self).work() == waiting.drop_last(),
                    ClosureCommand::Rewrite { target, changes } => waiting.len() > 0
                        && waiting.last() == Work::Finish(target@, change_views(changes@))
                        && final(self).work() == waiting.drop_last(),
                }
            }),
            match r {
                ClosureCommand::Copy { from, to } => {
                    &&& old(self).is_pending(from@)
                    &&& !old(self).processed().contains(from@)
                    &&& final(self).processed() == old(self).processed().push(from@)
                    &&& file_name(from@) is Some
                    &&& to@ == path_join(old(self).frameworks(), file_name(from@)->0)
                    &&& final(self).depth() < old(self).depth()
                },
                ClosureCommand::Invalid { path } => {
                    &&& old(self).is_pending(path@)
                    &&& !old(self).processed().contains(path@)
                    &&& final(self).processed() == old(self).processed().push(path@)
                    &&& file_name(path@) is None
                    &&& final(self).depth() < old(self).depth()
                },
                ClosureCommand::Rewrite { target, changes } => {
                    &&& old(self).will_rewrite(target@, change_views(changes@))
                    &&& final(self).processed() == old(self).processed()
                    &&& final(self).depth() < old(self).depth()
                },
                ClosureCommand::Idle => {
                    &&& final(self).processed() == old(self).processed()
                    &&& final(self).depth() == 0
                    &&& forall|p: Seq<char>| !final(self).is_pending(p)
                },
            },
    {
        loop
            invariant
                self.well_formed(),
                self.frameworks() == old(self).frameworks(),
                self.processed() == old(self).processed(),
                self.depth() <= old(self).depth(),
                forall|p: Seq<char>|
                    old(self).is_pending(p) ==> self.is_pending(p) || self.processed().contains(p),
                forall|p: Seq<char>| self.is_pending(p) ==> old(self).is_pending(p),
                forall|t: Seq<char>, c: Seq<(Seq<char>, Seq<char>)>|
                    self.will_rewrite(t, c) ==> old(self).will_rewrite(t, c),
                forall|t: Seq<char>, c: Seq<(Seq<char>, Seq<char>)>|
                    old(self).will_rewrite(t, c) ==> self.will_rewrite(t, c),
                settled(self.work(), self.processed()) == settled(
                    old(self).work(),
                    old(self).processed(),
                ),
            decreases self.stack.len(),
        {
            let ghost before = self.stack@;
            let ghost pending_before = *self;
            match self.stack.pop() {
                None => {
                    proof {
                        assert(self.work().len() == 0);
                    }
                    return ClosureCommand::Idle;
                },
                Some(frame) => {
                    let ghost after = self.stack@;
                    proof {
                        assert(before =~= after.push(frame));
                        assert(pending_before.work() =~= self.work().push(work_of(frame)));
                        assert(pending_before.work().drop_last() =~= self.work());
                        assert(pending_before.work().last() == work_of(frame));
                        assert forall|t: Seq<char>, c: Seq<(Seq<char>, Seq<char>)>|
                            pending_before.will_rewrite(t, c) implies self.will_rewrite(t, c)
                            || frame_finishes(frame, t, c) by {
                            let i = choose|i: int|
                                0 <= i < before.len() && frame_finishes(before[i], t, c);
                            if i < after.len() {
                                assert(frame_finishes(after[i], t, c));
                            }
                        }
                        assert forall|p: Seq<char>| self.is_pending(p) implies pending_before.is_pending(
                            p,
                        ) by {
                            let i = choose|i: int| 0 <= i < after.len() && frame_visits(after[i], p);
                            assert(frame_visits(before[i], p));
                        }
                        assert forall|p: Seq<char>| pending_before.is_pending(p) implies self.is_pending(
                            p,
                        ) || frame_visits(frame, p) by {
                            let i = choose|i: int|
                                0 <= i < before.len() && frame_visits(before[i], p);
                            if i < after.len() {
                                assert(frame_visits(after[i], p));
                            }
                        }
                        assert(frame_visits(frame, frame->Visit_0@) ==> pending_before.is_pending(
                            frame->Visit_0@,
                        )) by {
                            assert(before[before.len() - 1] == frame);
                        }
                        assert forall|t: Seq<char>, c: Seq<(Seq<char>, Seq<char>)>|
                            self.will_rewrite(t, c) implies pending_before.will_rewrite(t, c) by {
                            let i = choose|i: int|
                                0 <= i < after.len() && frame_finishes(after[i], t, c);
                            assert(frame_finishes(before[i], t, c));
                        }
                        assert(frame is Finish ==> pending_before.will_rewrite(
                            frame->Finish_target@,
                            change_views(frame->Finish_changes@),
                        )) by {
                            assert(before[before.len() - 1] == frame);
                        }
                    }
                    match frame {
                        Frame::Finish { target, changes } => {
                            return ClosureCommand::Rewrite { target, changes };
                        },
                        Frame::Visit(path) => {
                            if !strings_contain(&self.processed, path.as_str()) {
                                let ghost marked = self.processed.deep_view();
                                self.processed.push(String::from_str(path.as_str()));
                                proof {
                                    assert(self.processed.deep_view() =~= marked.push(path@));
                                    assert(marked.push(path@).no_duplicates());
                                    assert forall|p: Seq<char>|
                                        marked.contains(p) implies self.processed().contains(p) by {
                                        let i = choose|i: int| 0 <= i < marked.len() && marked[i] == p;
                                        assert(marked.push(path@)[i] == p);
                                    }
                                    assert(marked.push(path@)[marked.len() as int] == path@);
                                }
                                match path_file_name(path.as_str()) {
                                    Some(name) => {
                                        let to = join_path(self.frameworks_dir.as_str(), name.as_str());
                                        return ClosureCommand::Copy { from: path, to };
                                    },
                                    None => {
                                        return ClosureCommand::Invalid { path };
                                    },
                                }
                            }
                        },
                    }
                },
            }
        }
    }
}

/// The libraries to bundle for the roots, in the order in which they are
/// copied, where the whole dependency graph is at hand: exactly the
/// libraries that are reached from the roots, each listed once, however
/// often and along whatever cycle it is reached. The call fails exactly
/// where something reached cannot be bundled: a reference that must be
/// bundled and is not in the graph, or a library without a file name.
pub fn bundle_closure(graph: &Vec<LibraryNode>, roots: &Vec<String>, frameworks_dir: &str) -> (r:
    Result<Vec<String>, ProducerError>)
    ensures
        graph_complete(graph@, roots.deep_view()) ==> r is Ok,
        r is Ok <==> complete_where_reached(graph@, roots.deep_view()),
        match r {
            Ok(bundled) => {
                &&& bundled.deep_view().no_duplicates()
                &&& forall|p: Seq<char>|
                    bundled.deep_view().contains(p) <==> #[trigger] reached(
                        graph@,
                        roots.deep_view(),
                        p,
                    )
                &&& forall|i: int|
                    0 <= i < bundled.len() ==> known(graph@, #[trigger] bundled.deep_view()[i])
                &&& forall|k: int|
                    0 <= k < non_system(roots.deep_view()).len() ==> bundled.deep_view().contains(
                        #[trigger] non_system(roots.deep_view())[k],
                    )
                &&& closed_under_deps(graph@, bundled.deep_view())
            },
            Err(e) => e is DependencyResolution,
        },
{
    let ghost pool = Seq::new(graph@.len(), |n: int| graph@[n].path@);
    let wanted = non_system_dependencies(roots);
    let ghost root_paths = wanted.deep_view();
    let mut k: usize = 0;
    while k < wanted.len()
        invariant
            k <= wanted.len(),
            root_paths == wanted.deep_view(),
            root_paths == non_system(roots.deep_view()),
            forall|i: int| 0 <= i < k ==> known(graph@, #[trigger] root_paths[i]),
        decreases wanted.len() - k,
    {
        if find_library(graph, wanted[k].as_str()).is_none() {
            proof {
                let lost = non_system(roots.deep_view())[k as int];
                assert(!known(graph@, lost));
                assert(non_system(roots.deep_view()).contains(lost));
                lemma_root_is_reached(graph@, roots.deep_view(), lost);
            }
            return Err(missing_library(wanted[k].as_str()));
        }
        k += 1;
    }
    let mut machine = DylibClosure::new(frameworks_dir);
    let no_deps: Vec<String> = Vec::new();
    let ghost fresh = machine;
    machine.supply(String::new(), &no_deps, wanted);
    proof {
        assert forall|p: Seq<char>| machine.is_pending(p) implies known(graph@, p) && reached(
            graph@,
            roots.deep_view(),
            p,
        ) by {
            let i = choose|i: int| 0 <= i < root_paths.len() && root_paths[i] == p;
            assert(known(graph@, root_paths[i]));
            assert(non_system(roots.deep_view()).contains(root_paths[i]));
            lemma_root_is_reached(graph@, roots.deep_view(), p);
        }
        assert forall|i: int| 0 <= i < root_paths.len() implies machine.is_pending(
            #[trigger] root_paths[i],
        ) by {
            assert(root_paths.contains(root_paths[i]));
        }
    }
    loop
        invariant
            machine.well_formed(),
            pool == Seq::new(graph@.len(), |n: int| graph@[n].path@),
            root_paths == non_system(roots.deep_view()),
            machine.processed().len() <= graph.len(),
            forall|i: int|
                0 <= i < machine.processed().len() ==> known(graph@, #[trigger] machine.processed()[i]),
            forall|i: int|
                0 <= i < machine.processed().len() ==> file_name(
                    #[trigger] machine.processed()[i],
                ) is Some,
            forall|p: Seq<char>| machine.is_pending(p) ==> known(graph@, p),
            forall|p: Seq<char>|
                machine.is_pending(p) ==> #[trigger] reached(graph@, roots.deep_view(), p),
            forall|i: int|
                0 <= i < machine.processed().len() ==> reached(
                    graph@,
                    roots.deep_view(),
                    #[trigger] machine.processed()[i],
                ),
            forall|i: int|
                0 <= i < root_paths.len() ==> machine.is_pending(#[trigger] root_paths[i])
                    || machine.processed().contains(root_paths[i]),
            forall|i: int, j: int|
                0 <= i < machine.processed().len() && 0 <= j < deps_in_graph(
                    graph@,
                    machine.processed()[i],
                ).len() ==> machine.is_pending(
                    #[trigger] deps_in_graph(graph@, machine.processed()[i])[j],
                ) || machine.processed().contains(deps_in_graph(graph@, machine.processed()[i])[j]),
        decreases graph.len() - machine.processed().len(), machine.depth(),
    {
        let ghost before = machine;
        let command = machine.next();
        proof {
            assert forall|i: int| 0 <= i < root_paths.len() implies machine.is_pending(
                #[trigger] root_paths[i],
            ) || machine.processed().contains(root_paths[i]) by {
                if before.processed().contains(root_paths[i]) {
                    lemma_contains_kept(before.processed(), machine.processed(), root_paths[i]);
                }
            }
            assert forall|i: int, j: int|
                0 <= i < before.processed().len() && 0 <= j < deps_in_graph(
                    graph@,
                    before.processed()[i],
                ).len() implies machine.is_pending(
                #[trigger] deps_in_graph(graph@, before.processed()[i])[j],
            ) || machine.processed().contains(deps_in_graph(graph@, before.processed()[i])[j]) by {
                let d = deps_in_graph(graph@, before.processed()[i])[j];
                if before.processed().contains(d) {
                    lemma_contains_kept(before.processed(), machine.processed(), d);
                }
            }
        }
        match command {
            ClosureCommand::Idle => {
                proof {
                    let list = machine.processed();
                    assert(closed_under_deps(graph@, list));
                    assert forall|p: Seq<char>| #[trigger]
                        reached(graph@, roots.deep_view(), p) implies list.contains(p) by {
                        let chain = choose|chain: Seq<Seq<char>>| #[trigger]
                            is_chain(graph@, roots.deep_view(), chain) && chain.last() == p;
                        lemma_closed_list_holds_chain(graph@, roots.deep_view(), list, chain);
                    }
                    assert forall|p: Seq<char>| list.contains(p) implies #[trigger] reached(
                        graph@,
                        roots.deep_view(),
                        p,
                    ) by {
                        let i = choose|i: int| 0 <= i < list.len() && list[i] == p;
                        assert(reached(graph@, roots.deep_view(), list[i]));
                    }
                    assert forall|p: Seq<char>| #[trigger]
                        reached(graph@, roots.deep_view(), p) implies known(graph@, p) && file_name(
                        p,
                    ) is Some by {
                        let i = choose|i: int| 0 <= i < list.len() && list[i] == p;
                        assert(known(graph@, list[i]));
                        assert(file_name(list[i]) is Some);
                    }
                }
                return Ok(machine.into_processed());
            },
            ClosureCommand::Rewrite { target, changes } => {},
            ClosureCommand::Invalid { path } => {
                proof {
                    lemma_find_from(graph@, path@, 0);
                    assert(reached(graph@, roots.deep_view(), path@));
                }
                let mut text = String::from_str("Invalid dylib path: ");
                text.append(path.as_str());
                return Err(ProducerError::DependencyResolution(text));
            },
            ClosureCommand::Copy { from, to } => {
                proof {
                    assert forall|i: int| 0 <= i < machine.processed().len() implies pool.contains(
                        #[trigger] machine.processed()[i],
                    ) by {
                        lemma_find_from(graph@, machine.processed()[i], 0);
                        let n = find_from(graph@, machine.processed()[i], 0)->0;
                        assert(pool[n] == machine.processed()[i]);
                    }
                    lemma_distinct_within(machine.processed(), pool);
                }
                let found = find_library(graph, from.as_str());
                let n = found.unwrap();
                let needed = non_system_dependencies(&graph[n].deps);
                let mut k: usize = 0;
                while k < needed.len()
                    invariant
                        k <= needed.len(),
                        n < graph.len(),
                        find_from(graph@, from@, 0) == Some(n as int),
                        reached(graph@, roots.deep_view(), from@),
                        needed.deep_view() == non_system(graph@[n as int].deps.deep_view()),
                        forall|i: int| 0 <= i < k ==> known(graph@, #[trigger] needed.deep_view()[i]),
                    decreases needed.len() - k,
                {
                    if find_library(graph, needed[k].as_str()).is_none() {
                        proof {
                            let lost = non_system(graph@[n as int].deps.deep_view())[k as int];
                            assert(!known(graph@, lost));
                            assert(deps_in_graph(graph@, from@).contains(lost));
                            lemma_dependency_is_reached(graph@, roots.deep_view(), from@, lost);
                        }
                        return Err(missing_library(needed[k].as_str()));
                    }
                    k += 1;
                }
                let ghost needed_paths = needed.deep_view();
                let ghost marked = machine;
                machine.supply(to, &graph[n].deps, needed);
                proof {
                    assert(needed_paths == deps_in_graph(graph@, from@));
                    assert forall|p: Seq<char>| machine.is_pending(p) implies known(graph@, p)
                        && reached(graph@, roots.deep_view(), p) by {
                        if !marked.is_pending(p) {
                            let i = choose|i: int|
                                0 <= i < needed_paths.len() && needed_paths[i] == p;
                            assert(known(graph@, needed_paths[i]));
                            assert(deps_in_graph(graph@, from@).contains(needed_paths[i]));
                            lemma_dependency_is_reached(graph@, roots.deep_view(), from@, p);
                        }
                    }
                    assert forall|i: int, j: int|
                        0 <= i < machine.processed().len() && 0 <= j < deps_in_graph(
                            graph@,
                            machine.processed()[i],
                        ).len() implies machine.is_pending(
                        #[trigger] deps_in_graph(graph@, machine.processed()[i])[j],
                    ) || machine.processed().contains(
                        deps_in_graph(graph@, machine.processed()[i])[j],
                    ) by {
                        if i == before.processed().len() {
                            assert(machine.processed()[i] == from@);
                            assert(needed_paths.contains(needed_paths[j]));
                        } else {
                            assert(machine.processed()[i] == before.processed()[i]);
                        }
                    }
                }
            },
        }
    }
}

fn missing_library(path: &str) -> (e: ProducerError)
    ensures
        e is DependencyResolution,
{
    let mut text = String::from_str("Dylib not found: ");
    text.append(path);
    ProducerError::DependencyResolution(text)
}

/// What a list holds, it holds after one more element is pushed.
pub proof fn lemma_contains_kept(before: Seq<Seq<char>>, after: Seq<Seq<char>>, p: Seq<char>)
    requires
        before.contains(p),
        after == before || exists|x: Seq<char>| after == before.push(x),
    ensures
        after.contains(p),
{
    let i = choose|i: int| 0 <= i < before.len() && before[i] == p;
    assert(after[i] == p);
}

} // verus!

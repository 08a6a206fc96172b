//! Content digests of files and of directory trees.
//!
//! A file's digest is the SHA-256 of its bytes. A directory tree's digest is
//! the SHA-256 of one stream: the files in the order of their relative paths,
//! compared byte by byte, each as its path's bytes followed by its content.
//! Either is written as 64 lower-case hex digits.

use vstd::prelude::*;
use vstd::relations::sorted_by;
use vstd::relations::total_ordering;
use vstd::seq_lib::lemma_sorted_unique;
use vstd::string::StringSliceAdditionalSpecFns;
use vstd::utf8::encode_utf8;
use sha2::Digest;
use crate::error::ProducerError;

verus! {

/// A running SHA-256 computation of the sha2 crate. The hasher's own type
/// cannot be declared to the verifier, so it is held here, out of its sight.
#[verifier::external_body]
pub struct Sha256Stream {
    inner: sha2::Sha256,
}

/// The bytes that a running computation has taken in so far, in order.
pub uninterp spec fn sha256_absorbed(h: Sha256Stream) -> Seq<u8>;

/// The SHA-256 digest of a byte string.
pub uninterp spec fn sha256_digest(data: Seq<u8>) -> Seq<u8>;

/// `Sha256::new` of the sha2 crate: a computation that has taken in nothing.
#[verifier::external_body]
fn sha256_new() -> (h: Sha256Stream)
    ensures
        sha256_absorbed(h) == Seq::<u8>::empty(),
{
    Sha256Stream { inner: sha2::Sha256::new() }
}

/// `Digest::update` of the sha2 crate: the data is taken in behind what was
/// taken in before, so that feeding a message in pieces is feeding it whole.
#[verifier::external_body]
fn sha256_update(h: &mut Sha256Stream, data: &[u8])
    ensures
        sha256_absorbed(*final(h)) == sha256_absorbed(*old(h)) + data@,
{
    h.inner.update(data);
}

/// `Digest::finalize` of the sha2 crate: the digest of everything taken in,
/// which for SHA-256 is 32 bytes long.
#[verifier::external_body]
fn sha256_finalize(h: Sha256Stream) -> (d: Vec<u8>)
    ensures
        d@ == sha256_digest(sha256_absorbed(h)),
        d@.len() == 32,
{
    h.inner.finalize().to_vec()
}

/// One file of a directory tree, held in memory.
#[derive(Debug)]
pub struct FileEntry {
    /// The path of the file relative to the root of the tree.
    pub rel_path: String,
    /// The bytes of the file.
    pub content: Vec<u8>,
}

/// What there is at a path that is to be hashed.
#[derive(Debug)]
pub enum HashSource {
    /// A regular file with these bytes.
    File(Vec<u8>),
    /// A directory with these regular files below it, in any order.
    Directory(Vec<FileEntry>),
    /// Something that is neither a regular file nor a directory.
    Other,
}

/// A file as the digest sees it: the bytes of its relative path, and its content.
pub type FileView = (Seq<u8>, Seq<u8>);

/// A file held in memory as the digest sees it.
pub open spec fn entry_view(e: FileEntry) -> FileView {
    (encode_utf8(e.rel_path@), e.content@)
}

/// The files of a listing as the digest sees them, in the order listed.
pub open spec fn entry_views(entries: Seq<FileEntry>) -> Seq<FileView> {
    entries.map_values(|e: FileEntry| entry_view(e))
}

/// `a` comes no later than `b` when the two are compared byte by byte from
/// index `i` on: at the first index where they differ the smaller byte
/// decides, and a string that ends first comes first.
pub open spec fn le_from(a: Seq<u8>, b: Seq<u8>, i: int) -> bool
    decreases a.len() - i,
{
    if i < 0 || i >= a.len() {
        true
    } else if i >= b.len() {
        false
    } else if a[i] != b[i] {
        a[i] < b[i]
    } else {
        le_from(a, b, i + 1)
    }
}

/// Byte-lexicographic order.
pub open spec fn bytes_le(a: Seq<u8>, b: Seq<u8>) -> bool {
    le_from(a, b, 0)
}

/// The order of files in the stream: by relative path, and by content
/// between two files of the same path.
pub open spec fn entry_le(x: FileView, y: FileView) -> bool {
    if x.0 == y.0 {
        bytes_le(x.1, y.1)
    } else {
        bytes_le(x.0, y.0)
    }
}

/// The order of files in the stream, as a relation.
pub open spec fn entry_order() -> spec_fn(FileView, FileView) -> bool {
    |x: FileView, y: FileView| entry_le(x, y)
}

/// The stream of files that are in order already: each file's path bytes and
/// then its content, one file after another.
pub open spec fn tree_bytes(sorted: Seq<FileView>) -> Seq<u8>
    decreases sorted.len(),
{
    if sorted.len() == 0 {
        Seq::empty()
    } else {
        tree_bytes(sorted.drop_last()) + sorted.last().0 + sorted.last().1
    }
}

/// The stream of a directory tree whose files are listed in any order.
pub open spec fn tree_stream(entries: Seq<FileView>) -> Seq<u8> {
    tree_bytes(entries.sort_by(entry_order()))
}

/// The lower-case hex digit of a number below sixteen.
pub open spec fn hex_digit(n: int) -> char {
    if n < 10 {
        (48 + n) as char
    } else {
        (87 + n) as char
    }
}

/// Two lower-case hex digits for each byte, the high half first.
pub open spec fn hex(bytes: Seq<u8>) -> Seq<char>
    decreases bytes.len(),
{
    if bytes.len() == 0 {
        Seq::empty()
    } else {
        hex(bytes.drop_last()).push(hex_digit(bytes.last() as int / 16)).push(
            hex_digit(bytes.last() as int % 16),
        )
    }
}

/// One of `0` to `9` and `a` to `f`.
pub open spec fn is_lower_hex(c: char) -> bool {
    ('0' <= c && c <= '9') || ('a' <= c && c <= 'f')
}

/// The digest of a file's content, as text.
pub open spec fn file_digest(content: Seq<u8>) -> Seq<char> {
    hex(sha256_digest(content))
}

/// The digest of a directory tree, as text.
pub open spec fn tree_digest(entries: Seq<FileView>) -> Seq<char> {
    hex(sha256_digest(tree_stream(entries)))
}

/// Hex text is twice as long as the bytes and made of lower-case hex digits.
pub proof fn lemma_hex_shape(bytes: Seq<u8>)
    ensures
        hex(bytes).len() == 2 * bytes.len(),
        forall|i: int| 0 <= i < hex(bytes).len() ==> is_lower_hex(#[trigger] hex(bytes)[i]),
    decreases bytes.len(),
{
    if bytes.len() > 0 {
        lemma_hex_shape(bytes.drop_last());
    }
}

/// Every byte string comes no later than itself.
pub proof fn lemma_le_from_reflexive(a: Seq<u8>, i: int)
    ensures
        le_from(a, a, i),
    decreases a.len() - i,
{
    if 0 <= i < a.len() {
        lemma_le_from_reflexive(a, i + 1);
    }
}

/// Of two byte strings one comes no later than the other.
pub proof fn lemma_le_from_total(a: Seq<u8>, b: Seq<u8>, i: int)
    ensures
        le_from(a, b, i) || le_from(b, a, i),
    decreases a.len() - i,
{
    if 0 <= i < a.len() && i < b.len() && a[i] == b[i] {
        lemma_le_from_total(a, b, i + 1);
    }
}

/// What comes no later than a string that comes no later than a third comes no later than the third.
pub proof fn lemma_le_from_transitive(a: Seq<u8>, b: Seq<u8>, c: Seq<u8>, i: int)
    requires
        le_from(a, b, i),
        le_from(b, c, i),
    ensures
        le_from(a, c, i),
    decreases a.len() - i,
{
    if 0 <= i < a.len() {
        if a[i] == b[i] && b[i] == c[i] {
            lemma_le_from_transitive(a, b, c, i + 1);
        }
    }
}

/// Two byte strings that each come no later than the other are the same.
pub proof fn lemma_le_from_antisymmetric(a: Seq<u8>, b: Seq<u8>, i: int)
    requires
        0 <= i <= a.len(),
        i <= b.len(),
        forall|k: int| 0 <= k < i ==> a[k] == b[k],
        le_from(a, b, i),
        le_from(b, a, i),
    ensures
        a == b,
    decreases a.len() - i,
{
    if i < a.len() {
        lemma_le_from_antisymmetric(a, b, i + 1);
    } else {
        assert(a =~= b);
    }
}

/// The order of files is a total order.
pub proof fn lemma_entry_order_total()
    ensures
        total_ordering(entry_order()),
{
    let le = entry_order();
    assert forall|x: FileView| #[trigger] le(x, x) by {
        lemma_le_from_reflexive(x.1, 0);
    }
    assert forall|x: FileView, y: FileView| #[trigger] le(x, y) && #[trigger] le(y, x) implies x
        == y by {
        if x.0 == y.0 {
            lemma_le_from_antisymmetric(x.1, y.1, 0);
        } else {
            lemma_le_from_antisymmetric(x.0, y.0, 0);
        }
    }
    assert forall|x: FileView, y: FileView, z: FileView| #[trigger]
        le(x, y) && #[trigger] le(y, z) implies le(x, z) by {
        if x.0 == y.0 && y.0 == z.0 {
            lemma_le_from_transitive(x.1, y.1, z.1, 0);
        } else if x.0 != y.0 && y.0 != z.0 {
            lemma_le_from_transitive(x.0, y.0, z.0, 0);
            if x.0 == z.0 {
                lemma_le_from_antisymmetric(x.0, y.0, 0);
            }
        }
    }
    assert forall|x: FileView, y: FileView| #[trigger] le(x, y) || #[trigger] le(y, x) by {
        lemma_le_from_total(x.0, y.0, 0);
        lemma_le_from_total(x.1, y.1, 0);
    }
}

/// Whether `a` comes no later than `b` in byte-lexicographic order.
pub fn bytes_leq(a: &[u8], b: &[u8]) -> (r: bool)
    ensures
        r == bytes_le(a@, b@),
{
    let mut i: usize = 0;
    loop
        invariant
            i <= a.len(),
            i <= b.len(),
            bytes_le(a@, b@) == le_from(a@, b@, i as int),
        decreases a.len() - i,
    {
        if i >= a.len() {
            return true;
        }
        if i >= b.len() {
            return false;
        }
        if a[i] != b[i] {
            return a[i] < b[i];
        }
        i += 1;
    }
}

/// Whether the two byte strings are the same.
pub fn bytes_equal(a: &[u8], b: &[u8]) -> (r: bool)
    ensures
        r == (a@ == b@),
{
    if a.len() != b.len() {
        return false;
    }
    let mut i: usize = 0;
    while i < a.len()
        invariant
            i <= a.len(),
            a.len() == b.len(),
            forall|k: int| 0 <= k < i ==> a@[k] == b@[k],
        decreases a.len() - i,
    {
        if a[i] != b[i] {
            return false;
        }
        i += 1;
    }
    proof {
        assert(a@ =~= b@);
    }
    true
}

/// Whether file `x` comes no later than file `y` in the stream.
pub fn entry_leq(x: &FileEntry, y: &FileEntry) -> (r: bool)
    ensures
        r == entry_le(entry_view(*x), entry_view(*y)),
{
    if bytes_equal(x.rel_path.as_str().as_bytes(), y.rel_path.as_str().as_bytes()) {
        bytes_leq(x.content.as_slice(), y.content.as_slice())
    } else {
        bytes_leq(x.rel_path.as_str().as_bytes(), y.rel_path.as_str().as_bytes())
    }
}

/// The files in the order of the stream.
pub fn sort_entries(entries: Vec<FileEntry>) -> (sorted: Vec<FileEntry>)
    ensures
        entry_views(sorted@) == entry_views(entries@).sort_by(entry_order()),
{
    broadcast use vstd::seq_lib::group_to_multiset_ensures;

    let ghost all = entry_views(entries@);
    let mut input = entries;
    let mut out: Vec<FileEntry> = Vec::new();
    proof {
        lemma_entry_order_total();
        assert(entry_views(out@) =~= Seq::<FileView>::empty());
        assert(all.to_multiset() =~= entry_views(out@).to_multiset().add(
            entry_views(input@).to_multiset(),
        ));
    }
    while input.len() > 0
        invariant
            total_ordering(entry_order()),
            sorted_by(entry_views(out@), entry_order()),
            all.to_multiset() == entry_views(out@).to_multiset().add(
                entry_views(input@).to_multiset(),
            ),
        decreases input.len(),
    {
        let ghost old_input = entry_views(input@);
        let ghost old_out = entry_views(out@);
        let e = input.pop().unwrap();
        let ghost v = entry_view(e);
        proof {
            assert(old_input =~= entry_views(input@).push(v));
        }
        let mut pos: usize = 0;
        while pos < out.len() && entry_leq(&out[pos], &e)
            invariant
                pos <= out.len(),
                old_out == entry_views(out@),
                v == entry_view(e),
                forall|k: int| 0 <= k < pos ==> entry_le(#[trigger] old_out[k], v),
            decreases out.len() - pos,
        {
            pos += 1;
        }
        out.insert(pos, e);
        proof {
            let le = entry_order();
            let now = entry_views(out@);
            assert(now =~= old_out.insert(pos as int, v));
            assert forall|i: int, j: int| 0 <= i < j < now.len() implies #[trigger] le(
                now[i],
                now[j],
            ) by {
                if j < pos {
                    assert(le(old_out[i], old_out[j]));
                } else if j == pos {
                    assert(entry_le(old_out[i], v));
                } else if i < pos {
                    assert(le(old_out[i], old_out[j - 1]));
                } else if i == pos {
                    assert(!entry_le(old_out[pos as int], v));
                    assert(le(old_out[pos as int], v) || le(v, old_out[pos as int]));
                    if j - 1 > pos {
                        assert(le(old_out[pos as int], old_out[j - 1]));
                        assert(le(v, old_out[pos as int]) && le(old_out[pos as int], old_out[j - 1]));
                    }
                } else {
                    assert(le(old_out[i - 1], old_out[j - 1]));
                }
            }
            vstd::seq_lib::to_multiset_insert(old_out, pos as int, v);
            vstd::seq_lib::to_multiset_build(entry_views(input@), v);
            assert(now.to_multiset() =~= old_out.to_multiset().insert(v));
            assert(old_input.to_multiset() =~= entry_views(input@).to_multiset().insert(v));
            assert(all.to_multiset() =~= now.to_multiset().add(entry_views(input@).to_multiset()));
        }
    }
    proof {
        assert(entry_views(input@) =~= Seq::<FileView>::empty());
        assert(all.to_multiset() =~= entry_views(out@).to_multiset());
        all.lemma_sort_by_ensures(entry_order());
        lemma_sorted_unique(entry_views(out@), all.sort_by(entry_order()), entry_order());
    }
    out
}

/// The file of a path that has no content yet.
pub open spec fn path_views(paths: Seq<String>) -> Seq<FileView> {
    paths.map_values(|p: String| (encode_utf8(p@), Seq::<u8>::empty()))
}

/// The relative paths in the order in which their files go into the stream:
/// byte by byte, whatever the order in which they were listed.
pub fn sort_paths(paths: Vec<String>) -> (sorted: Vec<String>)
    ensures
        path_views(sorted@) == path_views(paths@).sort_by(entry_order()),
        sorted.len() == paths.len(),
{
    let ghost all = paths@;
    let mut input = paths;
    let mut entries: Vec<FileEntry> = Vec::new();
    while input.len() > 0
        invariant
            input.len() <= all.len(),
            input@ == all.subrange(0, input.len() as int),
            entries.len() == all.len() - input.len(),
            forall|k: int|
                0 <= k < entries.len() ==> entry_view(#[trigger] entries@[k]) == path_views(all)[all.len()
                    - 1 - k],
        decreases input.len(),
    {
        let rel_path = input.pop().unwrap();
        entries.push(FileEntry { rel_path, content: Vec::new() });
    }
    let ghost reversed = entry_views(entries@);
    let ordered = sort_entries(entries);
    let mut sorted: Vec<String> = Vec::new();
    let mut rest = ordered;
    let ghost target = entry_views(rest@);
    proof {
        lemma_entry_order_total();
        reversed.lemma_sort_by_ensures(entry_order());
        path_views(all).lemma_sort_by_ensures(entry_order());
        assert(reversed =~= path_views(all).reverse());
        lemma_reverse_same_multiset(path_views(all));
        lemma_sorted_unique(target, path_views(all).sort_by(entry_order()), entry_order());
        assert forall|k: int| 0 <= k < target.len() implies (#[trigger] target[k]).1.len() == 0 by {
            assert(reversed.sort_by(entry_order()).contains(target[k]));
            if !reversed.contains(target[k]) {
                assert(false);
            }
            let j = choose|j: int| 0 <= j < reversed.len() && reversed[j] == target[k];
            assert(reversed[j] == path_views(all)[all.len() - 1 - j]);
        }
        target.to_multiset_ensures();
        reversed.to_multiset_ensures();
    }
    let mut i: usize = 0;
    while i < rest.len()
        invariant
            i <= rest.len(),
            target == entry_views(rest@),
            forall|k: int| 0 <= k < target.len() ==> (#[trigger] target[k]).1.len() == 0,
            sorted.len() == i,
            path_views(sorted@) == target.subrange(0, i as int),
        decreases rest.len() - i,
    {
        let ghost before = path_views(sorted@);
        sorted.push(crate::text::owned(rest[i].rel_path.as_str()));
        proof {
            assert(target[i as int].1 =~= Seq::<u8>::empty());
            assert(path_views(sorted@) =~= before.push(target[i as int]));
            assert(before.push(target[i as int]) =~= target.subrange(0, i + 1));
        }
        i += 1;
    }
    proof {
        assert(target.subrange(0, rest.len() as int) =~= target);
    }
    sorted
}

/// A list and its reverse hold the same elements.
pub proof fn lemma_reverse_same_multiset(s: Seq<FileView>)
    ensures
        s.reverse().to_multiset() == s.to_multiset(),
    decreases s.len(),
{
    broadcast use vstd::seq_lib::group_to_multiset_ensures;

    if s.len() == 0 {
        assert(s.reverse() =~= s);
    } else {
        let rest = s.drop_last();
        lemma_reverse_same_multiset(rest);
        assert(s =~= rest.push(s.last()));
        assert(s.reverse() =~= rest.reverse().insert(0, s.last()));
        vstd::seq_lib::to_multiset_insert(rest.reverse(), 0, s.last());
        vstd::seq_lib::to_multiset_build(rest, s.last());
    }
}

fn hex_char(n: u8) -> (c: char)
    requires
        n < 16,
    ensures
        c == hex_digit(n as int),
{
    if n < 10 {
        (48u8 + n) as char
    } else {
        (87u8 + n) as char
    }
}

/// Two lower-case hex digits for each byte.
pub fn hex_encode(bytes: &Vec<u8>) -> (r: String)
    ensures
        r@ == hex(bytes@),
{
    let mut r = String::new();
    let mut i: usize = 0;
    while i < bytes.len()
        invariant
            i <= bytes.len(),
            r@ == hex(bytes@.subrange(0, i as int)),
        decreases bytes.len() - i,
    {
        let b = bytes[i];
        proof {
            assert(bytes@.subrange(0, i + 1).drop_last() =~= bytes@.subrange(0, i as int));
        }
        r.push(hex_char(b / 16));
        r.push(hex_char(b % 16));
        i += 1;
    }
    proof {
        assert(bytes@.subrange(0, bytes.len() as int) =~= bytes@);
    }
    r
}

/// A digest in the making: bytes go in piece by piece, so that a large file
/// is never held in memory as a whole.
pub struct ChecksumStream {
    hasher: Sha256Stream,
}

impl ChecksumStream {
    /// Everything that went in so far, in order.
    pub closed spec fn absorbed(&self) -> Seq<u8> {
        sha256_absorbed(self.hasher)
    }

    /// A stream into which nothing went yet.
    pub fn new() -> (r: Self)
        ensures
            r.absorbed() == Seq::<u8>::empty(),
    {
        ChecksumStream { hasher: sha256_new() }
    }

    /// Takes in the next piece of content.
    pub fn absorb(&mut self, chunk: &[u8])
        ensures
            final(self).absorbed() == old(self).absorbed() + chunk@,
    {
        sha256_update(&mut self.hasher, chunk);
    }

    /// Takes in the bytes of a file's relative path, ahead of its content.
    pub fn absorb_path(&mut self, rel_path: &str)
        ensures
            final(self).absorbed() == old(self).absorbed() + encode_utf8(rel_path@),
    {
        sha256_update(&mut self.hasher, rel_path.as_bytes());
    }

    /// The digest of everything that went in: 64 lower-case hex digits.
    pub fn finish(self) -> (r: String)
        ensures
            r@ == hex(sha256_digest(self.absorbed())),
            r@.len() == 64,
            forall|i: int| 0 <= i < 64 ==> is_lower_hex(#[trigger] r@[i]),
    {
        let digest = sha256_finalize(self.hasher);
        proof {
            lemma_hex_shape(digest@);
        }
        hex_encode(&digest)
    }
}

/// What is hashed at a path.
#[derive(Debug, Clone, Copy, PartialEq, Eq, Structural)]
pub enum PathKind {
    /// The content of a regular file.
    File,
    /// The tree of regular files below a directory.
    Directory,
}

/// What is hashed at a path: a regular file's content, a directory's tree,
/// and nothing else.
pub fn hash_kind(path: &str, is_file: bool, is_dir: bool) -> (r: Result<PathKind, ProducerError>)
    ensures
        match r {
            Ok(kind) => (is_file || is_dir) && kind == if is_file {
                PathKind::File
            } else {
                PathKind::Directory
            },
            Err(e) => {
                &&& !is_file && !is_dir
                &&& e matches ProducerError::PathType(p) && p@ == path@
            },
        },
{
    if is_file {
        Ok(PathKind::File)
    } else if is_dir {
        Ok(PathKind::Directory)
    } else {
        Err(ProducerError::PathType(crate::text::owned(path)))
    }
}

/// The digest of a directory tree in the making. The relative paths of the
/// files are put in order once; then each file is begun in that order and
/// its content handed in piece by piece, so that no file is held in memory
/// as a whole.
pub struct TreeStream {
    stream: ChecksumStream,
    paths: Vec<String>,
    next: usize,
    files: Ghost<Seq<FileView>>,
}

impl TreeStream {
    /// The relative paths, in the order in which their files are read.
    pub closed spec fn path_list(&self) -> Seq<String> {
        self.paths@
    }

    /// How many files have been begun.
    pub closed spec fn begun(&self) -> nat {
        self.next as nat
    }

    /// The files begun so far with what was handed in of each.
    pub closed spec fn files(&self) -> Seq<FileView> {
        self.files@
    }

    /// Everything that went into the hash so far.
    pub closed spec fn absorbed(&self) -> Seq<u8> {
        self.stream.absorbed()
    }

    /// The files begun are the first paths in their order, and the hash has
    /// taken in exactly their stream.
    pub open spec fn well_formed(&self) -> bool {
        &&& self.begun() <= self.path_list().len()
        &&& self.files().len() == self.begun()
        &&& forall|k: int|
            0 <= k < self.files().len() ==> (#[trigger] self.files()[k]).0 == encode_utf8(
                self.path_list()[k]@,
            )
        &&& self.absorbed() == tree_bytes(self.files())
        &&& sorted_by(path_views(self.path_list()), entry_order())
    }

    /// A stream for the files at the listed relative paths, which may be
    /// listed in any order.
    pub fn new(listed: Vec<String>) -> (r: Self)
        ensures
            r.well_formed(),
            path_views(r.path_list()) == path_views(listed@).sort_by(entry_order()),
            r.path_list().len() == listed.len(),
            r.begun() == 0,
    {
        proof {
            lemma_entry_order_total();
            path_views(listed@).lemma_sort_by_ensures(entry_order());
        }
        TreeStream {
            stream: ChecksumStream::new(),
            paths: sort_paths(listed),
            next: 0,
            files: Ghost(Seq::empty()),
        }
    }

    /// Begins the next file: its relative path goes into the hash, and the
    /// path is returned so that the file can be read. There is none once
    /// every file has been begun.
    pub fn next_file(&mut self) -> (r: Option<String>)
        requires
            old(self).well_formed(),
        ensures
            final(self).well_formed(),
            final(self).path_list() == old(self).path_list(),
            match r {
                Some(path) => {
                    &&& old(self).begun() < old(self).path_list().len()
                    &&& path@ == old(self).path_list()[old(self).begun() as int]@
                    &&& final(self).begun() == old(self).begun() + 1
                    &&& final(self).files() == old(self).files().push(
                        (encode_utf8(path@), Seq::<u8>::empty()),
                    )
                },
                None => {
                    &&& old(self).begun() == old(self).path_list().len()
                    &&& final(self).begun() == old(self).begun()
                    &&& final(self).files() == old(self).files()
                },
            },
    {
        if self.next >= self.paths.len() {
            return None;
        }
        let path = crate::text::owned(self.paths[self.next].as_str());
        self.stream.absorb_path(path.as_str());
        proof {
            let before = self.files@;
            let now = before.push((encode_utf8(path@), Seq::<u8>::empty()));
            assert(now.drop_last() =~= before);
            assert(tree_bytes(now) =~= tree_bytes(before) + encode_utf8(path@));
            self.files@ = now;
        }
        self.next = self.next + 1;
        Some(path)
    }

    /// Hands in the next piece of the file that was begun last. Before any
    /// file is begun there is nothing to add to, and the piece is refused.
    pub fn absorb(&mut self, chunk: &[u8]) -> (r: bool)
        requires
            old(self).well_formed(),
        ensures
            final(self).well_formed(),
            final(self).path_list() == old(self).path_list(),
            final(self).begun() == old(self).begun(),
            r == (old(self).begun() > 0),
            r ==> final(self).files() == old(self).files().update(
                old(self).files().len() - 1,
                (old(self).files().last().0, old(self).files().last().1 + chunk@),
            ),
            !r ==> final(self).files() == old(self).files(),
    {
        if self.next == 0 {
            return false;
        }
        self.stream.absorb(chunk);
        proof {
            let before = self.files@;
            let last = before.last();
            let now = before.update(before.len() - 1, (last.0, last.1 + chunk@));
            assert(now.drop_last() =~= before.drop_last());
            assert(tree_bytes(now) =~= tree_bytes(before) + chunk@);
            self.files@ = now;
        }
        true
    }

    /// The digest of the tree, once every file has been begun: the digest
    /// of the files' stream as 64 lower-case hex digits.
    pub fn finish(self) -> (r: Result<String, ProducerError>)
        requires
            self.well_formed(),
        ensures
            match r {
                Ok(digest) => {
                    &&& self.begun() == self.path_list().len()
                    &&& digest@ == hex(sha256_digest(tree_bytes(self.files())))
                    &&& digest@.len() == 64
                    &&& forall|i: int| 0 <= i < 64 ==> is_lower_hex(#[trigger] digest@[i])
                },
                Err(e) => {
                    &&& self.begun() < self.path_list().len()
                    &&& e matches ProducerError::GenericError(text) && text@
                        == "not every file of the tree has been read"@
                },
            },
    {
        if self.next < self.paths.len() {
            return Err(
                ProducerError::GenericError(
                    crate::text::owned("not every file of the tree has been read"),
                ),
            );
        }
        Ok(self.stream.finish())
    }
}

/// What a tree stream has taken in of files at different paths is the
/// stream of the directory tree that holds these files.
pub proof fn lemma_streamed_files_are_the_tree(tree: TreeStream)
    requires
        tree.well_formed(),
        forall|i: int, j: int|
            0 <= i < j < tree.files().len() ==> tree.files()[i].0 != tree.files()[j].0,
    ensures
        tree.absorbed() == tree_stream(tree.files()),
{
    let files = tree.files();
    let paths = path_views(tree.path_list());
    assert forall|i: int, j: int| 0 <= i < j < files.len() implies (entry_order())(
        files[i],
        files[j],
    ) by {
        assert((entry_order())(paths[i], paths[j]));
        assert(paths[i].0 == files[i].0 && paths[j].0 == files[j].0);
    }
    lemma_entry_order_total();
    files.lemma_sort_by_ensures(entry_order());
    lemma_sorted_unique(files, files.sort_by(entry_order()), entry_order());
}

/// The digest of a file: the SHA-256 of its bytes as 64 lower-case hex digits.
pub fn calculate_file_sha256(content: &[u8]) -> (r: String)
    ensures
        r@ == file_digest(content@),
        r@.len() == 64,
        forall|i: int| 0 <= i < 64 ==> is_lower_hex(#[trigger] r@[i]),
{
    let mut stream = ChecksumStream::new();
    stream.absorb(content);
    proof {
        assert(Seq::<u8>::empty() + content@ =~= content@);
    }
    stream.finish()
}

/// The digest of a directory tree: the files are put in the order of their
/// relative paths, byte by byte, and each goes into one running hash as its
/// path followed by its content. The order in which the files are listed
/// does not matter.
pub fn calculate_directory_sha256(entries: Vec<FileEntry>) -> (r: String)
    ensures
        r@ == tree_digest(entry_views(entries@)),
        r@.len() == 64,
        forall|i: int| 0 <= i < 64 ==> is_lower_hex(#[trigger] r@[i]),
{
    let sorted = sort_entries(entries);
    let ghost views = entry_views(sorted@);
    let mut stream = ChecksumStream::new();
    let mut i: usize = 0;
    proof {
        assert(views.subrange(0, 0) =~= Seq::<FileView>::empty());
    }
    while i < sorted.len()
        invariant
            i <= sorted.len(),
            views == entry_views(sorted@),
            stream.absorbed() == tree_bytes(views.subrange(0, i as int)),
        decreases sorted.len() - i,
    {
        proof {
            assert(views.subrange(0, i + 1).drop_last() =~= views.subrange(0, i as int));
            assert(views.subrange(0, i + 1).last() == entry_view(sorted@[i as int]));
        }
        stream.absorb_path(sorted[i].rel_path.as_str());
        stream.absorb(sorted[i].content.as_slice());
        i += 1;
    }
    proof {
        assert(views.subrange(0, sorted.len() as int) =~= views);
    }
    stream.finish()
}

/// The digest of what lies at `path`: of a file's content, of a directory's
/// tree, and an error for anything else.
pub fn calculate_sha256(path: &str, source: HashSource) -> (r: Result<String, ProducerError>)
    ensures
        match (source, r) {
            (HashSource::File(content), Ok(digest)) => digest@ == file_digest(content@),
            (HashSource::Directory(entries), Ok(digest)) => digest@ == tree_digest(
                entry_views(entries@),
            ),
            (HashSource::Other, Err(e)) => e matches ProducerError::PathType(p) && p@ == path@,
            _ => false,
        },
        r matches Ok(digest) ==> digest@.len() == 64 && forall|i: int|
            0 <= i < 64 ==> is_lower_hex(#[trigger] digest@[i]),
{
    match source {
        HashSource::File(content) => Ok(calculate_file_sha256(content.as_slice())),
        HashSource::Directory(entries) => Ok(calculate_directory_sha256(entries)),
        HashSource::Other => Err(ProducerError::PathType(crate::text::owned(path))),
    }
}

/// The digest of a tree does not depend on the order in which its files are
/// listed: two listings of the same files give the same stream, and so the
/// same digest.
pub proof fn lemma_digest_ignores_listing_order(first: Seq<FileView>, second: Seq<FileView>)
    requires
        first.to_multiset() == second.to_multiset(),
    ensures
        tree_stream(first) == tree_stream(second),
        tree_digest(first) == tree_digest(second),
{
    lemma_entry_order_total();
    first.lemma_sort_by_ensures(entry_order());
    second.lemma_sort_by_ensures(entry_order());
    lemma_sorted_unique(first.sort_by(entry_order()), second.sort_by(entry_order()), entry_order());
}

/// No two files of a listing lie at the same path.
pub open spec fn distinct_paths(entries: Seq<FileView>) -> bool {
    forall|i: int, j: int|
        0 <= i < entries.len() && 0 <= j < entries.len() && i != j ==> (#[trigger] entries[i]).0
            != (#[trigger] entries[j]).0
}

/// Two lists of files in order that differ in the content of one file give
/// different streams.
pub proof fn lemma_tree_bytes_differ(first: Seq<FileView>, second: Seq<FileView>, at: int)
    requires
        first.len() == second.len(),
        0 <= at < first.len(),
        forall|k: int| 0 <= k < first.len() && k != at ==> first[k] == second[k],
        first[at].0 == second[at].0,
        first[at].1 != second[at].1,
    ensures
        tree_bytes(first) != tree_bytes(second),
    decreases first.len(),
{
    let a = tree_bytes(first.drop_last());
    let b = tree_bytes(second.drop_last());
    let x = tree_bytes(first);
    let y = tree_bytes(second);
    if at == first.len() - 1 {
        assert(first.drop_last() =~= second.drop_last());
        let head = a + first.last().0;
        assert(x == head + first.last().1);
        assert(y == head + second.last().1);
        if x == y {
            assert(first.last().1 =~= x.subrange(head.len() as int, x.len() as int));
            assert(second.last().1 =~= y.subrange(head.len() as int, y.len() as int));
        }
    } else {
        lemma_tree_bytes_differ(first.drop_last(), second.drop_last(), at);
        let tail = first.last().0 + first.last().1;
        assert(first.last() == second.last());
        assert(x =~= a + tail);
        assert(y =~= b + tail);
        if x == y {
            assert(a.len() == b.len());
            assert(a =~= x.subrange(0, a.len() as int));
            assert(b =~= y.subrange(0, b.len() as int));
        }
    }
}

/// Files in stream order keep their distinct paths.
pub proof fn lemma_sorted_keeps_distinct_paths(entries: Seq<FileView>)
    requires
        distinct_paths(entries),
    ensures
        distinct_paths(entries.sort_by(entry_order())),
        entries.sort_by(entry_order()).len() == entries.len(),
{
    broadcast use vstd::seq_lib::group_to_multiset_ensures;

    lemma_entry_order_total();
    entries.lemma_sort_by_ensures(entry_order());
    let s = entries.sort_by(entry_order());
    assert(entries.no_duplicates());
    entries.lemma_multiset_has_no_duplicates();
    s.lemma_multiset_has_no_duplicates_conv();
    assert(s.len() == s.to_multiset().len());
    assert(entries.len() == entries.to_multiset().len());
    assert forall|i: int, j: int| 0 <= i < s.len() && 0 <= j < s.len() && i != j implies (
    #[trigger] s[i]).0 != (#[trigger] s[j]).0 by {
        assert(s.contains(s[i]));
        assert(s.contains(s[j]));
        vstd::seq_lib::to_multiset_contains(s, s[i]);
        vstd::seq_lib::to_multiset_contains(s, s[j]);
        vstd::seq_lib::to_multiset_contains(entries, s[i]);
        vstd::seq_lib::to_multiset_contains(entries, s[j]);
        let a = choose|a: int| 0 <= a < entries.len() && entries[a] == s[i];
        let b = choose|b: int| 0 <= b < entries.len() && entries[b] == s[j];
        assert(s[i] != s[j]);
        assert(a != b);
    }
}

/// A tree in which the content of one file is changed has another stream:
/// the digest is taken of other bytes. (That the digests themselves differ
/// is what the hash function is trusted for.)
pub proof fn lemma_changed_content_changes_stream(entries: Seq<FileView>, at: int, content: Seq<u8>)
    requires
        distinct_paths(entries),
        0 <= at < entries.len(),
        content != entries[at].1,
    ensures
        tree_stream(entries.update(at, (entries[at].0, content))) != tree_stream(entries),
{
    broadcast use vstd::seq_lib::group_to_multiset_ensures;

    let le = entry_order();
    let changed = (entries[at].0, content);
    let after = entries.update(at, changed);
    let s = entries.sort_by(le);
    lemma_entry_order_total();
    entries.lemma_sort_by_ensures(le);
    after.lemma_sort_by_ensures(le);
    lemma_sorted_keeps_distinct_paths(entries);
    assert(entries.contains(entries[at]));
    vstd::seq_lib::to_multiset_contains(entries, entries[at]);
    vstd::seq_lib::to_multiset_contains(s, entries[at]);
    let j = choose|j: int| 0 <= j < s.len() && s[j] == entries[at];
    let t = s.update(j, changed);
    assert forall|a: int, b: int| 0 <= a < b < t.len() implies #[trigger] le(t[a], t[b]) by {
        assert(le(s[a], s[b]));
        assert(s[a].0 != s[b].0);
    }
    vstd::seq_lib::to_multiset_update(s, j, changed);
    vstd::seq_lib::to_multiset_update(entries, at, changed);
    assert(t.to_multiset() =~= after.to_multiset());
    lemma_sorted_unique(t, after.sort_by(le), le);
    lemma_tree_bytes_differ(s, t, j);
}

} // verus!

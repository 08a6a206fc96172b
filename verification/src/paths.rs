//! Paths as text with `/` between components: joining, the final component,
//! its extension, the parent directory and prefix removal.

use vstd::prelude::*;
use vstd::string::StringExecFns;
use crate::text::chars_match_at;
use crate::text::from_chars_range;
use crate::text::occurs_at;
use crate::text::to_chars;

verus! {

/// The index of the last `c` in `s`, or -1 where `s` holds none.
pub open spec fn last_index_of(s: Seq<char>, c: char) -> int
    decreases s.len(),
{
    if s.len() == 0 {
        -1
    } else if s.last() == c {
        s.len() - 1
    } else {
        last_index_of(s.drop_last(), c)
    }
}

/// The length of `s` once trailing `/` are removed, a lone leading `/` being kept.
pub open spec fn trimmed_len(s: Seq<char>) -> int
    decreases s.len(),
{
    if s.len() > 1 && s.last() == '/' {
        trimmed_len(s.drop_last())
    } else {
        s.len() as int
    }
}

/// `s` without trailing `/`; the root `/` stays as it is.
pub open spec fn trim_end_slashes(s: Seq<char>) -> Seq<char> {
    s.subrange(0, trimmed_len(s))
}

/// A path is absolute when it begins with `/`.
pub open spec fn is_absolute(path: Seq<char>) -> bool {
    path.len() > 0 && path[0] == '/'
}

/// `name` placed under `base`: an absolute `name` replaces `base`, an empty
/// `base` gives `name`, and otherwise exactly one `/` separates the two.
pub open spec fn path_join(base: Seq<char>, name: Seq<char>) -> Seq<char> {
    if is_absolute(name) || base.len() == 0 {
        name
    } else if base.last() == '/' {
        base + name
    } else {
        base + seq!['/'] + name
    }
}

/// The final component of a path, trailing `/` ignored. There is none where
/// the path is empty or the root, or ends in `.` or `..`.
pub open spec fn file_name(path: Seq<char>) -> Option<Seq<char>> {
    let t = trim_end_slashes(path);
    let name = t.subrange(last_index_of(t, '/') + 1, t.len() as int);
    if name.len() == 0 || name == seq!['.'] || name == seq!['.', '.'] {
        None
    } else {
        Some(name)
    }
}

/// The extension of a file name: what follows its last `.`, unless the name
/// has no `.` or only a leading one.
pub open spec fn name_extension(name: Seq<char>) -> Option<Seq<char>> {
    let dot = last_index_of(name, '.');
    if dot <= 0 {
        None
    } else {
        Some(name.subrange(dot + 1, name.len() as int))
    }
}

/// The extension of a path's final component.
pub open spec fn extension(path: Seq<char>) -> Option<Seq<char>> {
    match file_name(path) {
        None => None,
        Some(name) => name_extension(name),
    }
}

/// The path without its final component. The empty path and the root have no
/// parent; a single relative component has the empty parent.
pub open spec fn parent(path: Seq<char>) -> Option<Seq<char>> {
    let t = trim_end_slashes(path);
    let slash = last_index_of(t, '/');
    if t.len() == 0 {
        None
    } else if slash < 0 {
        Some(Seq::empty())
    } else if t.len() == 1 {
        None
    } else if slash == 0 {
        Some(seq!['/'])
    } else {
        Some(trim_end_slashes(t.subrange(0, slash)))
    }
}

/// What is left of `path` below the directory `base`: empty where the two are
/// equal, and otherwise what follows `base` and one `/`.
pub open spec fn strip_prefix(path: Seq<char>, base: Seq<char>) -> Option<Seq<char>> {
    if path == base {
        Some(Seq::empty())
    } else if base.len() > 0 && base.last() == '/' && occurs_at(path, base, 0) {
        Some(path.subrange(base.len() as int, path.len() as int))
    } else if occurs_at(path, base.push('/'), 0) {
        Some(path.subrange(base.len() as int + 1, path.len() as int))
    } else {
        None
    }
}

/// The path with the extension of its final component replaced by `ext`, or
/// with `.` and `ext` added where the component has no extension. A path
/// without a final component stays as it is.
pub open spec fn with_extension(path: Seq<char>, ext: Seq<char>) -> Seq<char> {
    match file_name(path) {
        None => path,
        Some(name) => {
            let t = trim_end_slashes(path);
            let stem_len = if last_index_of(name, '.') <= 0 {
                name.len() as int
            } else {
                last_index_of(name, '.')
            };
            t.subrange(0, t.len() - name.len() + stem_len) + seq!['.'] + ext
        },
    }
}

/// What is joined below a directory is found again below it.
pub proof fn lemma_strip_prefix_of_join(base: Seq<char>, name: Seq<char>)
    requires
        base.len() > 0,
        name.len() > 0,
        !is_absolute(name),
    ensures
        strip_prefix(path_join(base, name), base) == Some(name),
{
    let joined = path_join(base, name);
    assert(joined.len() > base.len());
    if base.last() == '/' {
        assert(joined.subrange(0, base.len() as int) =~= base);
        assert(joined.subrange(base.len() as int, joined.len() as int) =~= name);
    } else {
        assert(joined.subrange(0, base.len() as int + 1) =~= base.push('/'));
        assert(joined.subrange(base.len() as int + 1, joined.len() as int) =~= name);
    }
}

/// Joining two names one after the other is joining them as one path.
pub proof fn lemma_join_twice(base: Seq<char>, first: Seq<char>, second: Seq<char>)
    requires
        base.len() > 0,
        first.len() > 0,
        !is_absolute(first),
        first.last() != '/',
        second.len() > 0,
        !is_absolute(second),
    ensures
        path_join(path_join(base, first), second) == path_join(
            base,
            first + seq!['/'] + second,
        ),
{
    let inner = path_join(base, first);
    let both = first + seq!['/'] + second;
    assert(inner.len() > 0 && inner.last() == first.last());
    assert(both.len() > 0 && both[0] == first[0]);
    assert(path_join(inner, second) =~= path_join(base, both));
}

/// The last index holds the character, and nothing behind it does.
pub proof fn lemma_last_index_of(s: Seq<char>, c: char)
    ensures
        -1 <= last_index_of(s, c) < s.len(),
        last_index_of(s, c) >= 0 ==> s[last_index_of(s, c)] == c,
        forall|k: int| last_index_of(s, c) < k < s.len() ==> s[k] != c,
    decreases s.len(),
{
    if s.len() > 0 && s.last() != c {
        let t = s.drop_last();
        lemma_last_index_of(t, c);
        assert forall|k: int| last_index_of(s, c) < k < s.len() implies s[k] != c by {
            if k < t.len() {
                assert(t[k] == s[k]);
            }
        }
    }
}

/// A position that holds `c` and has no `c` behind it is the last index of `c`.
pub proof fn lemma_last_index_of_is(s: Seq<char>, c: char, i: int)
    requires
        -1 <= i < s.len(),
        i >= 0 ==> s[i] == c,
        forall|k: int| i < k < s.len() ==> s[k] != c,
    ensures
        last_index_of(s, c) == i,
{
    lemma_last_index_of(s, c);
}

/// A length from which only `/` follow, and which cannot be cut further, is the trimmed length.
pub proof fn lemma_trimmed_len_is(s: Seq<char>, n: int)
    requires
        0 <= n <= s.len(),
        s.len() > 0 ==> n >= 1,
        n > 1 ==> s[n - 1] != '/',
        forall|k: int| n <= k < s.len() ==> s[k] == '/',
    ensures
        trimmed_len(s) == n,
    decreases s.len(),
{
    if s.len() > 1 && s.last() == '/' {
        if n == s.len() {
            assert(s[n - 1] == '/');
        } else {
            lemma_trimmed_len_is(s.drop_last(), n);
        }
    } else {
        if n < s.len() {
            assert(s[s.len() - 1] == '/');
        }
    }
}

/// The index of the last `c` among the first `end` characters.
pub(crate) fn chars_last_index_of(s: &Vec<char>, end: usize, c: char) -> (r: Option<usize>)
    requires
        end <= s.len(),
    ensures
        match r {
            Some(i) => i < end && i as int == last_index_of(s@.subrange(0, end as int), c),
            None => last_index_of(s@.subrange(0, end as int), c) == -1,
        },
{
    let ghost t = s@.subrange(0, end as int);
    let mut i: usize = end;
    while i > 0
        invariant
            i <= end <= s.len(),
            t == s@.subrange(0, end as int),
            forall|k: int| i <= k < end ==> t[k] != c,
        decreases i,
    {
        i -= 1;
        if s[i] == c {
            proof {
                lemma_last_index_of_is(t, c, i as int);
            }
            return Some(i);
        }
    }
    proof {
        lemma_last_index_of_is(t, c, -1);
    }
    None
}

/// The length of the first `end` characters once trailing `/` are removed.
pub(crate) fn chars_trimmed_len(s: &Vec<char>, end: usize) -> (n: usize)
    requires
        end <= s.len(),
    ensures
        n as int == trimmed_len(s@.subrange(0, end as int)),
        n <= end,
{
    let ghost t = s@.subrange(0, end as int);
    let mut n: usize = end;
    while n > 1 && s[n - 1] == '/'
        invariant
            n <= end <= s.len(),
            end > 0 ==> n >= 1,
            t == s@.subrange(0, end as int),
            forall|k: int| n <= k < end ==> t[k] == '/',
        decreases n,
    {
        n -= 1;
    }
    proof {
        lemma_trimmed_len_is(t, n as int);
    }
    n
}

/// Whether `path` begins with `/`.
pub fn path_is_absolute(path: &str) -> (r: bool)
    ensures
        r == is_absolute(path@),
{
    let v = to_chars(path);
    v.len() > 0 && v[0] == '/'
}

/// `name` placed under `base`.
pub fn join_path(base: &str, name: &str) -> (r: String)
    ensures
        r@ == path_join(base@, name@),
{
    let b = to_chars(base);
    if path_is_absolute(name) || b.len() == 0 {
        return String::from_str(name);
    }
    let mut r = String::from_str(base);
    if b[b.len() - 1] != '/' {
        r.append("/");
        proof {
            reveal_strlit("/");
            assert("/"@ =~= seq!['/']);
        }
    }
    r.append(name);
    r
}

/// The final component of `path`.
pub fn path_file_name(path: &str) -> (r: Option<String>)
    ensures
        match r {
            Some(name) => file_name(path@) == Some(name@),
            None => file_name(path@) is None,
        },
{
    let v = to_chars(path);
    let n = chars_trimmed_len(&v, v.len());
    proof {
        assert(v@.subrange(0, v.len() as int) =~= v@);
        assert(v@.subrange(0, n as int).subrange(0, n as int) =~= v@.subrange(0, n as int));
    }
    let start: usize = match chars_last_index_of(&v, n, '/') {
        Some(i) => i + 1,
        None => 0,
    };
    proof {
        lemma_last_index_of(v@.subrange(0, n as int), '/');
        assert(v@.subrange(0, n as int).subrange(start as int, n as int) =~= v@.subrange(
            start as int,
            n as int,
        ));
    }
    let len = n - start;
    if len == 0 || (len == 1 && v[start] == '.') || (len == 2 && v[start] == '.' && v[start + 1]
        == '.') {
        proof {
            let name = v@.subrange(start as int, n as int);
            if len == 1 {
                assert(name =~= seq!['.']);
            }
            if len == 2 {
                assert(name =~= seq!['.', '.']);
            }
        }
        None
    } else {
        proof {
            let name = v@.subrange(start as int, n as int);
            if name == seq!['.'] {
                assert(name.len() == 1 && name[0] == '.');
            }
            if name == seq!['.', '.'] {
                assert(name.len() == 2 && name[0] == '.' && name[1] == '.');
            }
        }
        Some(from_chars_range(&v, start, n))
    }
}

/// The extension of the file name `name`.
pub fn file_name_extension(name: &str) -> (r: Option<String>)
    ensures
        match r {
            Some(ext) => name_extension(name@) == Some(ext@),
            None => name_extension(name@) is None,
        },
{
    let v = to_chars(name);
    proof {
        assert(v@.subrange(0, v.len() as int) =~= v@);
    }
    match chars_last_index_of(&v, v.len(), '.') {
        None => None,
        Some(dot) => {
            if dot == 0 {
                None
            } else {
                Some(from_chars_range(&v, dot + 1, v.len()))
            }
        },
    }
}

/// The extension of the final component of `path`.
pub fn path_extension(path: &str) -> (r: Option<String>)
    ensures
        match r {
            Some(ext) => extension(path@) == Some(ext@),
            None => extension(path@) is None,
        },
{
    match path_file_name(path) {
        None => None,
        Some(name) => file_name_extension(name.as_str()),
    }
}

/// The path without its final component.
pub fn path_parent(path: &str) -> (r: Option<String>)
    ensures
        match r {
            Some(dir) => parent(path@) == Some(dir@),
            None => parent(path@) is None,
        },
{
    let v = to_chars(path);
    let n = chars_trimmed_len(&v, v.len());
    proof {
        assert(v@.subrange(0, v.len() as int) =~= v@);
        assert(v@.subrange(0, n as int).subrange(0, n as int) =~= v@.subrange(0, n as int));
    }
    if n == 0 {
        return None;
    }
    match chars_last_index_of(&v, n, '/') {
        None => Some(String::new()),
        Some(slash) => {
            if n == 1 {
                None
            } else if slash == 0 {
                proof {
                    reveal_strlit("/");
                    assert("/"@ =~= seq!['/']);
                }
                Some(String::from_str("/"))
            } else {
                let m = chars_trimmed_len(&v, slash);
                proof {
                    let t = v@.subrange(0, n as int);
                    assert(t.subrange(0, slash as int) =~= v@.subrange(0, slash as int));
                    assert(v@.subrange(0, slash as int).subrange(0, m as int) =~= v@.subrange(
                        0,
                        m as int,
                    ));
                }
                Some(from_chars_range(&v, 0, m))
            }
        },
    }
}

/// The path with the extension of its final component replaced by `ext`.
pub fn path_with_extension(path: &str, ext: &str) -> (r: String)
    ensures
        r@ == with_extension(path@, ext@),
{
    match path_file_name(path) {
        None => String::from_str(path),
        Some(name) => {
            let v = to_chars(path);
            let n = chars_trimmed_len(&v, v.len());
            let name_chars = to_chars(name.as_str());
            proof {
                assert(v@.subrange(0, v.len() as int) =~= v@);
                assert(name_chars@.subrange(0, name_chars.len() as int) =~= name_chars@);
                lemma_last_index_of(v@.subrange(0, n as int), '/');
            }
            let stem_len: usize = match chars_last_index_of(&name_chars, name_chars.len(), '.') {
                None => name_chars.len(),
                Some(dot) => if dot == 0 {
                    name_chars.len()
                } else {
                    dot
                },
            };
            let keep: usize = n - name_chars.len() + stem_len;
            let mut r = from_chars_range(&v, 0, keep);
            r.append(".");
            r.append(ext);
            proof {
                reveal_strlit(".");
                assert("."@ =~= seq!['.']);
                assert(v@.subrange(0, n as int).subrange(0, keep as int) =~= v@.subrange(
                    0,
                    keep as int,
                ));
            }
            r
        },
    }
}

/// What is left of `path` below the directory `base`.
pub fn path_strip_prefix(path: &str, base: &str) -> (r: Option<String>)
    ensures
        match r {
            Some(rest) => strip_prefix(path@, base@) == Some(rest@),
            None => strip_prefix(path@, base@) is None,
        },
{
    let p = to_chars(path);
    let b = to_chars(base);
    if b.len() > p.len() {
        proof {
            if path@ == base@ {
                assert(p@.len() == b@.len());
            }
        }
        return None;
    }
    if !chars_match_at(&p, &b, 0) {
        proof {
            if path@ == base@ {
                assert(p@.subrange(0, b@.len() as int) =~= b@);
            }
            if occurs_at(p@, b@.push('/'), 0) {
                assert(p@.subrange(0, b@.len() as int + 1).subrange(0, b@.len() as int) =~= p@.subrange(
                    0,
                    b@.len() as int,
                ));
                assert(b@.push('/').subrange(0, b@.len() as int) =~= b@);
            }
        }
        return None;
    }
    if p.len() == b.len() {
        proof {
            assert(p@.subrange(0, b@.len() as int) =~= p@);
        }
        return Some(String::new());
    }
    if b.len() > 0 && b[b.len() - 1] == '/' {
        return Some(from_chars_range(&p, b.len(), p.len()));
    }
    if p[b.len()] == '/' {
        proof {
            assert(p@.subrange(0, b@.len() as int + 1) =~= b@.push('/')) by {
                assert(p@.subrange(0, b@.len() as int) == b@);
                assert forall|k: int| 0 <= k < b@.len() as int + 1 implies p@.subrange(
                    0,
                    b@.len() as int + 1,
                )[k] == b@.push('/')[k] by {
                    if k < b@.len() {
                        assert(p@.subrange(0, b@.len() as int)[k] == p@[k]);
                    }
                }
            }
        }
        Some(from_chars_range(&p, b.len() + 1, p.len()))
    } else {
        proof {
            if occurs_at(p@, b@.push('/'), 0) {
                assert(p@.subrange(0, b@.len() as int + 1)[b@.len() as int] == '/');
            }
        }
        None
    }
}

} // verus!

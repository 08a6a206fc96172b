//! Text as sequences of characters: searching, ASCII case folding, joining,
//! splitting and decimal numerals, each with its meaning stated over `Seq<char>`.

use vstd::prelude::*;
use vstd::std_specs::iter::IteratorSpec;
use vstd::string::StringExecFns;

verus! {

/// `String::push` of std: the character is appended at the end, nothing else changes.
pub assume_specification[ String::push ](s: &mut String, c: char)
    ensures
        final(s)@ == old(s)@.push(c),
;

/// `needle` stands in `hay` starting at index `i`.
pub open spec fn occurs_at(hay: Seq<char>, needle: Seq<char>, i: int) -> bool {
    &&& 0 <= i
    &&& i + needle.len() <= hay.len()
    &&& hay.subrange(i, i + needle.len()) == needle
}

/// `needle` stands somewhere in `hay`.
pub open spec fn contains(hay: Seq<char>, needle: Seq<char>) -> bool {
    exists|i: int| occurs_at(hay, needle, i)
}

/// `s` begins with `prefix`.
pub open spec fn starts_with(s: Seq<char>, prefix: Seq<char>) -> bool {
    occurs_at(s, prefix, 0)
}

/// `s` ends with `suffix`.
pub open spec fn ends_with(s: Seq<char>, suffix: Seq<char>) -> bool {
    occurs_at(s, suffix, s.len() - suffix.len())
}

/// An ASCII capital letter becomes its small letter; every other character stays.
pub open spec fn lower_char(c: char) -> char {
    if 'A' <= c && c <= 'Z' {
        ((c as u32) + 32) as char
    } else {
        c
    }
}

/// `s` with each ASCII capital letter replaced by its small letter.
pub open spec fn lower(s: Seq<char>) -> Seq<char> {
    Seq::new(s.len(), |i: int| lower_char(s[i]))
}

/// The six ASCII white-space characters.
pub open spec fn is_space(c: char) -> bool {
    c == ' ' || c == '\t' || c == '\n' || c == '\r' || c == '\x0b' || c == '\x0c'
}

/// `s` holds nothing but ASCII white space.
pub open spec fn is_blank(s: Seq<char>) -> bool {
    forall|i: int| 0 <= i < s.len() ==> is_space(#[trigger] s[i])
}

/// The parts written one after another with `sep` between neighbours.
pub open spec fn join(parts: Seq<Seq<char>>, sep: Seq<char>) -> Seq<char>
    decreases parts.len(),
{
    if parts.len() == 0 {
        Seq::empty()
    } else if parts.len() == 1 {
        parts[0]
    } else {
        join(parts.drop_last(), sep) + sep + parts.last()
    }
}

/// The pieces of `s` between occurrences of `sep`; there is always at least one piece.
pub open spec fn split(s: Seq<char>, sep: char) -> Seq<Seq<char>>
    decreases s.len(),
{
    if s.len() == 0 {
        seq![Seq::empty()]
    } else {
        let init = split(s.drop_last(), sep);
        if s.last() == sep {
            init.push(Seq::empty())
        } else {
            init.drop_last().push(init.last().push(s.last()))
        }
    }
}

/// The character of the decimal digit `d`.
pub open spec fn digit_char(d: nat) -> char {
    (48 + d) as char
}

/// The decimal numeral of `n`, without leading zeros.
pub open spec fn decimal(n: nat) -> Seq<char>
    decreases n,
{
    if n < 10 {
        seq![digit_char(n)]
    } else {
        decimal(n / 10).push(digit_char(n % 10))
    }
}

/// The decimal numeral of an integer, with `-` in front of a negative one.
pub open spec fn signed_decimal(n: int) -> Seq<char> {
    if n < 0 {
        seq!['-'] + decimal((-n) as nat)
    } else {
        decimal(n as nat)
    }
}

/// How many ASCII white-space characters stand at the front of `s`.
pub open spec fn leading_spaces(s: Seq<char>) -> int
    decreases s.len(),
{
    if s.len() > 0 && is_space(s[0]) {
        1 + leading_spaces(s.drop_first())
    } else {
        0
    }
}

/// The length of `s` once ASCII white space at its end is removed.
pub open spec fn trimmed_end(s: Seq<char>) -> int
    decreases s.len(),
{
    if s.len() > 0 && is_space(s.last()) {
        trimmed_end(s.drop_last())
    } else {
        s.len() as int
    }
}

/// `s` without ASCII white space at either end.
pub open spec fn trim(s: Seq<char>) -> Seq<char> {
    let t = s.subrange(0, trimmed_end(s));
    t.subrange(leading_spaces(t), t.len() as int)
}

/// One of the ten decimal digits.
pub open spec fn is_digit(c: char) -> bool {
    '0' <= c && c <= '9'
}

/// The number that a decimal digit stands for.
pub open spec fn digit_value(c: char) -> nat {
    (c as u32 - 48) as nat
}

/// The number that a run of decimal digits writes; none where `s` is empty
/// or holds anything but digits.
pub open spec fn parse_decimal(s: Seq<char>) -> Option<nat>
    decreases s.len(),
{
    if s.len() == 0 || !is_digit(s.last()) {
        None
    } else if s.len() == 1 {
        Some(digit_value(s[0]))
    } else {
        match parse_decimal(s.drop_last()) {
            Some(v) => Some(v * 10 + digit_value(s.last())),
            None => None,
        }
    }
}

/// The characters of `s`, in order.
pub fn to_chars(s: &str) -> (v: Vec<char>)
    ensures
        v@ == s@,
{
    broadcast use vstd::string::group_string_axioms;

    let mut v: Vec<char> = Vec::new();
    for c in it: s.chars()
        invariant
            it.seq() == s@,
            v@ == s@.subrange(0, it.index() as int),
    {
        v.push(c);
    }
    v
}

/// The string made of the characters `v[from..to]`.
pub(crate) fn from_chars_range(v: &Vec<char>, from: usize, to: usize) -> (s: String)
    requires
        from <= to <= v.len(),
    ensures
        s@ == v@.subrange(from as int, to as int),
{
    let mut s = String::new();
    let mut i: usize = from;
    while i < to
        invariant
            from <= i <= to <= v.len(),
            s@ == v@.subrange(from as int, i as int),
        decreases to - i,
    {
        s.push(v[i]);
        i += 1;
    }
    s
}

/// The string made of the characters of `v`.
pub fn from_chars(v: &Vec<char>) -> (s: String)
    ensures
        s@ == v@,
{
    from_chars_range(v, 0, v.len())
}

/// A fresh copy of `s`.
pub fn owned(s: &str) -> (r: String)
    ensures
        r@ == s@,
{
    String::from_str(s)
}

/// Whether `needle` stands in `hay` at index `i`.
pub(crate) fn chars_match_at(hay: &Vec<char>, needle: &Vec<char>, i: usize) -> (r: bool)
    requires
        i + needle.len() <= hay.len(),
    ensures
        r == occurs_at(hay@, needle@, i as int),
{
    let mut j: usize = 0;
    while j < needle.len()
        invariant
            j <= needle.len(),
            i + needle.len() <= hay.len(),
            forall|k: int| 0 <= k < j ==> hay@[i + k] == needle@[k],
        decreases needle.len() - j,
    {
        if hay[i + j] != needle[j] {
            proof {
                let sub = hay@.subrange(i as int, i + needle.len());
                assert(sub[j as int] == hay@[i + j]);
            }
            return false;
        }
        j += 1;
    }
    proof {
        assert(hay@.subrange(i as int, i + needle.len()) =~= needle@);
    }
    true
}

/// Whether `needle` stands somewhere in `hay`.
pub fn chars_contain(hay: &Vec<char>, needle: &Vec<char>) -> (r: bool)
    ensures
        r == contains(hay@, needle@),
{
    if needle.len() > hay.len() {
        return false;
    }
    let last: usize = hay.len() - needle.len();
    let mut i: usize = 0;
    loop
        invariant
            i <= last,
            last == hay.len() - needle.len(),
            forall|k: int| 0 <= k < i ==> !occurs_at(hay@, needle@, k),
        decreases last - i,
    {
        if chars_match_at(hay, needle, i) {
            return true;
        }
        if i == last {
            return false;
        }
        i += 1;
    }
}

/// Whether `s` begins with `prefix`.
pub fn chars_start_with(s: &Vec<char>, prefix: &Vec<char>) -> (r: bool)
    ensures
        r == starts_with(s@, prefix@),
{
    if prefix.len() > s.len() {
        return false;
    }
    chars_match_at(s, prefix, 0)
}

/// Whether `s` ends with `suffix`.
pub fn chars_end_with(s: &Vec<char>, suffix: &Vec<char>) -> (r: bool)
    ensures
        r == ends_with(s@, suffix@),
{
    if suffix.len() > s.len() {
        return false;
    }
    chars_match_at(s, suffix, s.len() - suffix.len())
}

/// Whether `needle` stands somewhere in `hay`.
pub fn str_contains(hay: &str, needle: &str) -> (r: bool)
    ensures
        r == contains(hay@, needle@),
{
    let h = to_chars(hay);
    let n = to_chars(needle);
    chars_contain(&h, &n)
}

/// Whether `s` begins with `prefix`.
pub fn str_starts_with(s: &str, prefix: &str) -> (r: bool)
    ensures
        r == starts_with(s@, prefix@),
{
    let h = to_chars(s);
    let n = to_chars(prefix);
    chars_start_with(&h, &n)
}

/// Whether `s` ends with `suffix`.
pub fn str_ends_with(s: &str, suffix: &str) -> (r: bool)
    ensures
        r == ends_with(s@, suffix@),
{
    let h = to_chars(s);
    let n = to_chars(suffix);
    chars_end_with(&h, &n)
}

/// Whether the two strings hold the same characters.
pub fn str_eq(a: &str, b: &str) -> (r: bool)
    ensures
        r == (a@ == b@),
{
    let x = to_chars(a);
    let y = to_chars(b);
    if x.len() != y.len() {
        return false;
    }
    let r = chars_match_at(&x, &y, 0);
    proof {
        assert(x@.subrange(0, x@.len() as int) =~= x@);
    }
    r
}

/// The small letter of an ASCII capital letter; every other character as it is.
pub fn to_lower_char(c: char) -> (r: char)
    ensures
        r == lower_char(c),
{
    if c >= 'A' && c <= 'Z' {
        ((c as u8) + 32u8) as char
    } else {
        c
    }
}

/// The characters with each ASCII capital letter replaced by its small letter.
pub fn chars_lower(v: &Vec<char>) -> (r: Vec<char>)
    ensures
        r@ == lower(v@),
{
    let mut r: Vec<char> = Vec::new();
    let mut i: usize = 0;
    while i < v.len()
        invariant
            i <= v.len(),
            r@.len() == i,
            forall|k: int| 0 <= k < i ==> r@[k] == lower_char(v@[k]),
        decreases v.len() - i,
    {
        r.push(to_lower_char(v[i]));
        i += 1;
    }
    proof {
        assert(r@ =~= lower(v@));
    }
    r
}

/// `s` with each ASCII capital letter replaced by its small letter.
pub fn str_lower(s: &str) -> (r: String)
    ensures
        r@ == lower(s@),
{
    let v = to_chars(s);
    let l = chars_lower(&v);
    from_chars(&l)
}

/// Whether the characters are nothing but ASCII white space.
pub fn chars_blank(v: &Vec<char>) -> (r: bool)
    ensures
        r == is_blank(v@),
{
    let mut i: usize = 0;
    while i < v.len()
        invariant
            i <= v.len(),
            forall|k: int| 0 <= k < i ==> is_space(#[trigger] v@[k]),
        decreases v.len() - i,
    {
        let c = v[i];
        if !(c == ' ' || c == '\t' || c == '\n' || c == '\r' || c == '\x0b' || c == '\x0c') {
            return false;
        }
        i += 1;
    }
    true
}

/// A count of white space at the front, behind which no white space follows at once, is the number of leading spaces.
pub proof fn lemma_leading_spaces_is(s: Seq<char>, n: int)
    requires
        0 <= n <= s.len(),
        forall|k: int| 0 <= k < n ==> is_space(#[trigger] s[k]),
        n < s.len() ==> !is_space(s[n]),
    ensures
        leading_spaces(s) == n,
    decreases s.len(),
{
    if s.len() > 0 && is_space(s[0]) {
        if n == 0 {
            assert(!is_space(s[0]));
        } else {
            let t = s.drop_first();
            assert forall|k: int| 0 <= k < n - 1 implies is_space(#[trigger] t[k]) by {
                assert(t[k] == s[k + 1]);
            }
            lemma_leading_spaces_is(t, n - 1);
        }
    } else if n > 0 {
        assert(is_space(s[0]));
    }
}

/// A length behind which only white space follows, and which does not end in white space, is the trimmed length.
pub proof fn lemma_trimmed_end_is(s: Seq<char>, n: int)
    requires
        0 <= n <= s.len(),
        forall|k: int| n <= k < s.len() ==> is_space(#[trigger] s[k]),
        n > 0 ==> !is_space(s[n - 1]),
    ensures
        trimmed_end(s) == n,
    decreases s.len(),
{
    if s.len() > 0 && is_space(s.last()) {
        if n == s.len() {
            assert(!is_space(s[n - 1]));
        } else {
            let t = s.drop_last();
            assert forall|k: int| n <= k < t.len() implies is_space(#[trigger] t[k]) by {
                assert(t[k] == s[k]);
            }
            lemma_trimmed_end_is(t, n);
        }
    } else if n < s.len() {
        assert(is_space(s[s.len() - 1]));
    }
}

/// Whether the character is ASCII white space.
pub fn char_is_space(c: char) -> (r: bool)
    ensures
        r == is_space(c),
{
    c == ' ' || c == '\t' || c == '\n' || c == '\r' || c == '\x0b' || c == '\x0c'
}

/// The characters of `v` without ASCII white space at either end.
pub fn chars_trim(v: &Vec<char>) -> (r: Vec<char>)
    ensures
        r@ == trim(v@),
{
    let mut end: usize = v.len();
    while end > 0 && char_is_space(v[end - 1])
        invariant
            end <= v.len(),
            forall|k: int| end <= k < v.len() ==> is_space(#[trigger] v@[k]),
        decreases end,
    {
        end -= 1;
    }
    proof {
        lemma_trimmed_end_is(v@, end as int);
    }
    let ghost t = v@.subrange(0, end as int);
    let mut start: usize = 0;
    while start < end && char_is_space(v[start])
        invariant
            start <= end <= v.len(),
            t == v@.subrange(0, end as int),
            forall|k: int| 0 <= k < start ==> is_space(#[trigger] t[k]),
        decreases end - start,
    {
        start += 1;
    }
    proof {
        lemma_leading_spaces_is(t, start as int);
    }
    let mut r: Vec<char> = Vec::new();
    let mut i: usize = start;
    while i < end
        invariant
            start <= i <= end <= v.len(),
            r@ == v@.subrange(start as int, i as int),
        decreases end - i,
    {
        r.push(v[i]);
        i += 1;
    }
    proof {
        assert(t.subrange(start as int, end as int) =~= v@.subrange(start as int, end as int));
    }
    r
}

/// `s` without ASCII white space at either end.
pub fn str_trim(s: &str) -> (r: String)
    ensures
        r@ == trim(s@),
{
    let v = to_chars(s);
    let t = chars_trim(&v);
    from_chars(&t)
}

/// Whether `s` holds nothing but ASCII white space.
pub fn str_is_blank(s: &str) -> (r: bool)
    ensures
        r == is_blank(s@),
{
    let v = to_chars(s);
    chars_blank(&v)
}

/// A numeral is at least as large as each of its non-empty prefixes, and a
/// prefix of a numeral is a numeral.
pub proof fn lemma_parse_decimal_prefix(s: Seq<char>, n: int)
    requires
        1 <= n <= s.len(),
        parse_decimal(s) is Some,
    ensures
        parse_decimal(s.subrange(0, n)) is Some,
        parse_decimal(s.subrange(0, n))->0 <= parse_decimal(s)->0,
    decreases s.len(),
{
    if n == s.len() {
        assert(s.subrange(0, n) =~= s);
    } else {
        let t = s.drop_last();
        lemma_parse_decimal_prefix(t, n);
        assert(t.subrange(0, n) =~= s.subrange(0, n));
    }
}

/// A text with a non-digit in it is no numeral.
pub proof fn lemma_parse_decimal_non_digit(s: Seq<char>, i: int)
    requires
        0 <= i < s.len(),
        !is_digit(s[i]),
    ensures
        parse_decimal(s) is None,
    decreases s.len(),
{
    if i < s.len() - 1 {
        let t = s.drop_last();
        assert(t[i] == s[i]);
        lemma_parse_decimal_non_digit(t, i);
    }
}

/// Reads the digits `v[0..end]` as a number, where it fits in 64 bits.
pub(crate) fn chars_parse_decimal(v: &Vec<char>, end: usize) -> (r: Option<u64>)
    requires
        end <= v.len(),
    ensures
        match r {
            Some(n) => parse_decimal(v@.subrange(0, end as int)) == Some(n as nat),
            None => parse_decimal(v@.subrange(0, end as int)) is None || parse_decimal(
                v@.subrange(0, end as int),
            )->0 > u64::MAX,
        },
{
    let ghost s = v@.subrange(0, end as int);
    if end == 0 {
        return None;
    }
    let mut acc: u64 = 0;
    let mut i: usize = 0;
    while i < end
        invariant
            i <= end <= v.len(),
            s == v@.subrange(0, end as int),
            i > 0 ==> parse_decimal(s.subrange(0, i as int)) == Some(acc as nat),
            i == 0 ==> acc == 0,
        decreases end - i,
    {
        let c = v[i];
        if !(c >= '0' && c <= '9') {
            proof {
                lemma_parse_decimal_non_digit(s, i as int);
            }
            return None;
        }
        let d: u64 = (c as u32 - 48) as u64;
        proof {
            let now = s.subrange(0, i + 1);
            assert(now.last() == c);
            assert(now.drop_last() =~= s.subrange(0, i as int));
            assert(parse_decimal(now) == Some((acc * 10 + d) as nat));
        }
        if acc > (u64::MAX - d) / 10 {
            proof {
                if parse_decimal(s) is Some {
                    lemma_parse_decimal_prefix(s, i + 1);
                }
            }
            return None;
        }
        acc = acc * 10 + d;
        i += 1;
    }
    proof {
        assert(s.subrange(0, end as int) =~= s);
    }
    Some(acc)
}

/// Whether one of `items` is `wanted`.
pub fn strings_contain(items: &Vec<String>, wanted: &str) -> (r: bool)
    ensures
        r == items.deep_view().contains(wanted@),
{
    let mut i: usize = 0;
    while i < items.len()
        invariant
            i <= items.len(),
            forall|k: int| 0 <= k < i ==> items.deep_view()[k] != wanted@,
        decreases items.len() - i,
    {
        if str_eq(items[i].as_str(), wanted) {
            proof {
                assert(items.deep_view()[i as int] == wanted@);
            }
            return true;
        }
        i += 1;
    }
    false
}

/// Joining with one more part adds the separator and the part, or the part alone to nothing.
pub proof fn lemma_join_push(parts: Seq<Seq<char>>, sep: Seq<char>, next: Seq<char>)
    ensures
        join(parts.push(next), sep) == if parts.len() == 0 {
            next
        } else {
            join(parts, sep) + sep + next
        },
{
    assert(parts.push(next).drop_last() =~= parts);
}

/// The strings of `parts` written one after another with `sep` between neighbours.
pub fn join_strings(parts: &Vec<String>, sep: &str) -> (r: String)
    ensures
        r@ == join(parts.deep_view(), sep@),
{
    let mut r = String::new();
    let mut i: usize = 0;
    while i < parts.len()
        invariant
            i <= parts.len(),
            r@ == join(parts.deep_view().subrange(0, i as int), sep@),
        decreases parts.len() - i,
    {
        if i > 0 {
            r.append(sep);
        }
        r.append(parts[i].as_str());
        proof {
            let dv = parts.deep_view();
            lemma_join_push(dv.subrange(0, i as int), sep@, dv[i as int]);
            assert(dv.subrange(0, i as int).push(dv[i as int]) =~= dv.subrange(0, i + 1));
            assert(Seq::<char>::empty() + parts[i as int]@ =~= parts[i as int]@);
        }
        i += 1;
    }
    proof {
        assert(parts.deep_view().subrange(0, parts.len() as int) =~= parts.deep_view());
    }
    r
}

/// The pieces of `s` between occurrences of `sep`.
pub fn split_chars(s: &Vec<char>, sep: char) -> (r: Vec<String>)
    ensures
        r.deep_view() == split(s@, sep),
        r.len() >= 1,
{
    let mut done: Vec<String> = Vec::new();
    let mut current = String::new();
    let mut i: usize = 0;
    while i < s.len()
        invariant
            i <= s.len(),
            done.deep_view().push(current@) == split(s@.subrange(0, i as int), sep),
        decreases s.len() - i,
    {
        let c = s[i];
        proof {
            let before = s@.subrange(0, i as int);
            let now = s@.subrange(0, i + 1);
            assert(now.drop_last() =~= before);
            assert(now.last() == c);
            let init = split(before, sep);
            assert(init.drop_last() =~= done.deep_view());
            assert(init.last() == current@);
        }
        if c == sep {
            let ghost old_done = done.deep_view();
            done.push(current);
            current = String::new();
            proof {
                assert(done.deep_view() =~= split(s@.subrange(0, i as int), sep));
            }
        } else {
            current.push(c);
        }
        i += 1;
    }
    proof {
        assert(s@.subrange(0, s.len() as int) =~= s@);
    }
    let ghost before = done.deep_view();
    done.push(current);
    proof {
        assert(done.deep_view() =~= before.push(current@));
    }
    done
}

/// The pieces of `s` between occurrences of `sep`.
pub fn split_str(s: &str, sep: char) -> (r: Vec<String>)
    ensures
        r.deep_view() == split(s@, sep),
        r.len() >= 1,
{
    let v = to_chars(s);
    split_chars(&v, sep)
}

/// Appends the decimal numeral of `n` to `s`.
pub fn push_decimal(s: &mut String, n: u64)
    ensures
        final(s)@ == old(s)@ + decimal(n as nat),
    decreases n,
{
    if n >= 10 {
        push_decimal(s, n / 10);
    }
    let d: u8 = (n % 10) as u8;
    s.push((48u8 + d) as char);
    proof {
        let digit = digit_char((n % 10) as nat);
        if n >= 10 {
            assert(old(s)@ + decimal((n / 10) as nat).push(digit) =~= (old(s)@ + decimal(
                (n / 10) as nat,
            )).push(digit));
        } else {
            assert(old(s)@ + seq![digit] =~= old(s)@.push(digit));
        }
    }
}

/// The decimal numeral of `n`.
pub fn u64_to_string(n: u64) -> (r: String)
    ensures
        r@ == decimal(n as nat),
{
    let mut r = String::new();
    push_decimal(&mut r, n);
    proof {
        assert(Seq::<char>::empty() + decimal(n as nat) =~= decimal(n as nat));
    }
    r
}

/// The decimal numeral of `n`, with `-` in front of a negative one.
pub fn i64_to_string(n: i64) -> (r: String)
    ensures
        r@ == signed_decimal(n as int),
{
    let mut r = String::new();
    if n < 0 {
        r.push('-');
        let magnitude: u64 = if n == i64::MIN {
            9223372036854775808u64
        } else {
            (-n) as u64
        };
        push_decimal(&mut r, magnitude);
        proof {
            assert(Seq::<char>::empty().push('-') =~= seq!['-']);
        }
    } else {
        push_decimal(&mut r, n as u64);
        proof {
            assert(Seq::<char>::empty() + decimal(n as nat) =~= decimal(n as nat));
        }
    }
    r
}

} // verus!

//! Character-level string helpers shared by the rest of the library.
//!
//! Strings are reasoned about through their views, `Seq<char>`.
use vstd::prelude::*;

verus! {

// ── Specifications ────────────────────────────────────────────────────────────

/// `needle` occurs in `hay` at position `i`.
pub open spec fn occurs_at(hay: Seq<char>, needle: Seq<char>, i: int) -> bool {
    0 <= i && i + needle.len() <= hay.len() && hay.subrange(i, i + needle.len()) == needle
}

/// `needle` occurs somewhere in `hay` (the empty sequence occurs everywhere).
pub open spec fn contains_seq(hay: Seq<char>, needle: Seq<char>) -> bool {
    exists|i: int| occurs_at(hay, needle, i)
}

/// Every occurrence of `from` in `s` replaced by `to`.
pub open spec fn replace_char(s: Seq<char>, from: char, to: char) -> Seq<char> {
    s.map_values(|c: char| if c == from { to } else { c })
}

/// Number of leading characters of `s` that are whitespace.
pub open spec fn leading_ws(s: Seq<char>) -> nat
    decreases s.len(),
{
    if s.len() > 0 && is_whitespace(s[0]) {
        1 + leading_ws(s.drop_first())
    } else {
        0
    }
}

/// Number of trailing characters of `s` that are whitespace.
pub open spec fn trailing_ws(s: Seq<char>) -> nat
    decreases s.len(),
{
    if s.len() > 0 && is_whitespace(s.last()) {
        1 + trailing_ws(s.drop_last())
    } else {
        0
    }
}

/// `s` with leading and trailing whitespace removed.
pub open spec fn trim(s: Seq<char>) -> Seq<char> {
    let lead = leading_ws(s) as int;
    let rest = s.subrange(lead, s.len() as int);
    rest.subrange(0, rest.len() - trailing_ws(rest))
}

/// Whether `c` has the Unicode `White_Space` property (the code points that
/// `char::is_whitespace` accepts): U+0009 to U+000D, U+0020, U+0085, U+00A0, U+1680,
/// U+2000 to U+200A, U+2028, U+2029, U+202F, U+205F and U+3000.
pub open spec fn is_whitespace(c: char) -> bool {
    let u = c as u32;
    ||| 0x09 <= u <= 0x0d
    ||| u == 0x20
    ||| u == 0x85
    ||| u == 0xa0
    ||| u == 0x1680
    ||| 0x2000 <= u <= 0x200a
    ||| u == 0x2028
    ||| u == 0x2029
    ||| u == 0x202f
    ||| u == 0x205f
    ||| u == 0x3000
}

/// The lowercase mapping of `s`, as `str::to_lowercase` computes it.
pub uninterp spec fn to_lowercase(s: Seq<char>) -> Seq<char>;

/// The uppercase mapping of the single character `c`, as `char::to_uppercase` yields it.
pub uninterp spec fn char_to_uppercase(c: char) -> Seq<char>;

// ── Calls into std ────────────────────────────────────────────────────────────

/// The characters of `s`, in order.
pub fn chars_of(s: &str) -> (v: Vec<char>)
    ensures
        v@ == s@,
{
    broadcast use vstd::string::group_string_axioms;
    let mut v: Vec<char> = Vec::new();
    for c in it: s.chars()
        invariant
            it.seq() == s@,
            v@ == it.seq().take(it.index() as int),
    {
        v.push(c);
    }
    v
}

/// Collects the characters into a `String` (`FromIterator<char>`). The view is `v`.
#[verifier::external_body]
pub fn string_from_chars(v: &[char]) -> (s: String)
    ensures
        s@ == v@,
{
    v.iter().collect()
}

/// Whether `c` is whitespace (the Unicode `White_Space` property).
pub fn char_is_whitespace(c: char) -> (b: bool)
    ensures
        b == is_whitespace(c),
{
    let u = c as u32;
    (0x09 <= u && u <= 0x0d) || u == 0x20 || u == 0x85 || u == 0xa0 || u == 0x1680
        || (0x2000 <= u && u <= 0x200a) || u == 0x2028 || u == 0x2029 || u == 0x202f
        || u == 0x205f || u == 0x3000
}

/// Calls `str::to_lowercase`; the result is named by `to_lowercase`. Every character
/// maps to its lowercase characters, so the empty string gives the empty string.
#[verifier::external_body]
pub fn lowercase(s: &str) -> (r: String)
    ensures
        r@ == to_lowercase(s@),
        s@.len() == 0 ==> r@.len() == 0,
{
    s.to_lowercase()
}

/// Calls `char::to_uppercase` and collects the characters it yields;
/// the result is named by `char_to_uppercase`.
#[verifier::external_body]
pub fn uppercase_char(c: char) -> (r: String)
    ensures
        r@ == char_to_uppercase(c),
{
    c.to_uppercase().collect()
}

// ── Verified helpers ──────────────────────────────────────────────────────────

/// A `String` holding the characters of `s`.
pub fn owned(s: &str) -> (r: String)
    ensures
        r@ == s@,
{
    s.to_owned()
}

/// `a` followed by `b`.
pub fn concat(a: &str, b: &str) -> (r: String)
    ensures
        r@ == a@ + b@,
{
    let mut r = a.to_owned();
    r.append(b);
    r
}

/// Concatenation of the views of all parts.
pub open spec fn concat_all(parts: Seq<Seq<char>>) -> Seq<char>
    decreases parts.len(),
{
    if parts.len() == 0 {
        Seq::empty()
    } else {
        concat_all(parts.drop_last()) + parts.last()
    }
}

/// Whether `needle` occurs in `hay` at position `i`.
pub fn occurs_at_exec(hay: &Vec<char>, needle: &Vec<char>, i: usize) -> (b: bool)
    ensures
        b == occurs_at(hay@, needle@, i as int),
{
    if i > hay.len() || needle.len() > hay.len() - i {
        return false;
    }
    let mut k: usize = 0;
    while k < needle.len()
        invariant
            i + needle@.len() <= hay@.len(),
            i <= hay@.len(),
            hay@.len() <= usize::MAX,
            k <= needle@.len(),
            forall|m: int| 0 <= m < k ==> hay@[i + m] == needle@[m],
        decreases needle@.len() - k,
    {
        if hay[i + k] != needle[k] {
            assert(hay@.subrange(i as int, i + needle@.len())[k as int] != needle@[k as int]);
            return false;
        }
        k += 1;
    }
    assert(hay@.subrange(i as int, i + needle@.len()) =~= needle@);
    true
}

/// Whether `needle` occurs somewhere in `hay`.
pub fn contains_chars(hay: &Vec<char>, needle: &Vec<char>) -> (b: bool)
    ensures
        b == contains_seq(hay@, needle@),
{
    if needle.len() > hay.len() {
        assert forall|i: int| !occurs_at(hay@, needle@, i) by {}
        return false;
    }
    let last = hay.len() - needle.len();
    let mut i: usize = 0;
    loop
        invariant
            last == hay@.len() - needle@.len(),
            i <= last,
            forall|j: int| 0 <= j < i ==> !occurs_at(hay@, needle@, j),
        ensures
            forall|j: int| 0 <= j <= last ==> !occurs_at(hay@, needle@, j),
        decreases last - i,
    {
        if occurs_at_exec(hay, needle, i) {
            return true;
        }
        if i == last {
            break;
        }
        i += 1;
    }
    assert forall|j: int| !occurs_at(hay@, needle@, j) by {
        if 0 <= j <= last {
        }
    }
    false
}

/// Whether the characters of `needle` occur in `hay`.
pub fn str_contains(hay: &str, needle: &str) -> (b: bool)
    ensures
        b == contains_seq(hay@, needle@),
{
    let h = chars_of(hay);
    let n = chars_of(needle);
    contains_chars(&h, &n)
}

/// `s` with every `from` replaced by `to`.
pub fn replace_char_exec(s: &str, from: char, to: char) -> (r: String)
    ensures
        r@ == replace_char(s@, from, to),
{
    let cs = chars_of(s);
    let mut out: Vec<char> = Vec::new();
    let mut i: usize = 0;
    while i < cs.len()
        invariant
            i <= cs@.len(),
            cs@ == s@,
            out@ == replace_char(cs@.subrange(0, i as int), from, to),
        decreases cs@.len() - i,
    {
        let c = cs[i];
        out.push(if c == from { to } else { c });
        assert(cs@.subrange(0, i + 1) =~= cs@.subrange(0, i as int).push(c));
        i += 1;
    }
    assert(cs@.subrange(0, cs@.len() as int) =~= cs@);
    string_from_chars(out.as_slice())
}

proof fn lemma_leading_ws_bound(s: Seq<char>)
    ensures
        leading_ws(s) <= s.len(),
        forall|k: int| 0 <= k < leading_ws(s) ==> is_whitespace(#[trigger] s[k]),
        leading_ws(s) < s.len() ==> !is_whitespace(s[leading_ws(s) as int]),
    decreases s.len(),
{
    if s.len() > 0 && is_whitespace(s[0]) {
        lemma_leading_ws_bound(s.drop_first());
        assert forall|k: int| 0 <= k < leading_ws(s) implies is_whitespace(#[trigger] s[k]) by {
            if k > 0 {
                assert(s[k] == s.drop_first()[k - 1]);
            }
        }
    }
}

proof fn lemma_leading_ws_step(s: Seq<char>, i: int)
    requires
        0 <= i <= s.len(),
        forall|k: int| 0 <= k < i ==> is_whitespace(#[trigger] s[k]),
    ensures
        i == s.len() || !is_whitespace(s[i]) ==> leading_ws(s) == i,
    decreases i,
{
    if i > 0 {
        assert(is_whitespace(s[0]));
        lemma_leading_ws_step(s.drop_first(), i - 1);
    }
}

proof fn lemma_trailing_ws_step(s: Seq<char>, i: int)
    requires
        0 <= i <= s.len(),
        forall|k: int| i <= k < s.len() ==> is_whitespace(#[trigger] s[k]),
    ensures
        i == 0 || !is_whitespace(s[i - 1]) ==> trailing_ws(s) == s.len() - i,
    decreases s.len() - i,
{
    if i < s.len() {
        assert(is_whitespace(s.last()));
        lemma_trailing_ws_step(s.drop_last(), i);
    }
}

/// `s` with leading and trailing whitespace removed, as `str::trim` does.
pub fn trim_exec(s: &str) -> (r: String)
    ensures
        r@ == trim(s@),
{
    let cs = chars_of(s);
    let mut start: usize = 0;
    while start < cs.len() && char_is_whitespace(cs[start])
        invariant
            start <= cs@.len(),
            forall|k: int| 0 <= k < start ==> is_whitespace(#[trigger] cs@[k]),
        decreases cs@.len() - start,
    {
        start += 1;
    }
    proof {
        lemma_leading_ws_step(cs@, start as int);
    }
    let ghost rest = cs@.subrange(start as int, cs@.len() as int);
    let mut end: usize = cs.len();
    while end > start && char_is_whitespace(cs[end - 1])
        invariant
            start <= end <= cs@.len(),
            rest == cs@.subrange(start as int, cs@.len() as int),
            forall|k: int| end <= k < cs@.len() ==> is_whitespace(#[trigger] cs@[k]),
        decreases end,
    {
        end -= 1;
    }
    proof {
        assert forall|k: int| end - start <= k < rest.len() implies is_whitespace(#[trigger] rest[k]) by {
            assert(rest[k] == cs@[k + start]);
        }
        if end > start {
            assert(rest[end - start - 1] == cs@[end - 1]);
        }
        lemma_trailing_ws_step(rest, end - start);
    }
    let mut out: Vec<char> = Vec::new();
    let mut i: usize = start;
    while i < end
        invariant
            start <= i <= end <= cs@.len(),
            out@ == cs@.subrange(start as int, i as int),
        decreases end - i,
    {
        out.push(cs[i]);
        assert(cs@.subrange(start as int, i + 1) =~= cs@.subrange(start as int, i as int).push(cs@[i as int]));
        i += 1;
    }
    assert(out@ =~= rest.subrange(0, rest.len() - trailing_ws(rest)));
    string_from_chars(out.as_slice())
}

/// Whether `a` and `b` hold the same characters.
pub fn str_eq(a: &str, b: &str) -> (r: bool)
    ensures
        r == (a@ == b@),
{
    let x = chars_of(a);
    let y = chars_of(b);
    if x.len() != y.len() {
        return false;
    }
    let mut i: usize = 0;
    while i < x.len()
        invariant
            i <= x@.len(),
            x@ == a@,
            y@ == b@,
            x@.len() == y@.len(),
            forall|k: int| 0 <= k < i ==> x@[k] == y@[k],
        decreases x@.len() - i,
    {
        if x[i] != y[i] {
            assert(x@[i as int] != y@[i as int]);
            return false;
        }
        i += 1;
    }
    assert(x@ =~= y@);
    true
}

/// Whether `s` starts with the characters of `p`.
pub fn starts_with(s: &str, p: &str) -> (r: bool)
    ensures
        r == p@.is_prefix_of(s@),
{
    let x = chars_of(s);
    let y = chars_of(p);
    if y.len() > x.len() {
        return false;
    }
    let mut i: usize = 0;
    while i < y.len()
        invariant
            i <= y@.len(),
            x@ == s@,
            y@ == p@,
            y@.len() <= x@.len(),
            forall|k: int| 0 <= k < i ==> x@[k] == y@[k],
        decreases y@.len() - i,
    {
        if x[i] != y[i] {
            assert(x@.subrange(0, y@.len() as int)[i as int] != y@[i as int]);
            return false;
        }
        i += 1;
    }
    assert(x@.subrange(0, y@.len() as int) =~= y@);
    true
}

/// The characters of `s` after the first `n`.
pub fn skip_chars(s: &str, n: usize) -> (r: String)
    requires
        n <= s@.len(),
    ensures
        r@ == s@.skip(n as int),
{
    let len = s.unicode_len();
    let rest = s.substring_char(n, len);
    rest.to_owned()
}

/// Whether `s` consists of whitespace only (its trimmed form is empty).
pub fn is_blank(s: &str) -> (b: bool)
    ensures
        b == (trim(s@).len() == 0),
{
    let t = trim_exec(s);
    t.as_str().unicode_len() == 0
}

// ── Decimal numbers ───────────────────────────────────────────────────────────

/// The decimal digit character for `d` (`0 <= d < 10`).
pub open spec fn digit_char(d: nat) -> char {
    if d == 0 {
        '0'
    } else if d == 1 {
        '1'
    } else if d == 2 {
        '2'
    } else if d == 3 {
        '3'
    } else if d == 4 {
        '4'
    } else if d == 5 {
        '5'
    } else if d == 6 {
        '6'
    } else if d == 7 {
        '7'
    } else if d == 8 {
        '8'
    } else {
        '9'
    }
}

/// The decimal representation of `n`, without sign or leading zeros.
pub open spec fn decimal(n: nat) -> Seq<char>
    decreases n,
{
    if n < 10 {
        seq![digit_char(n)]
    } else {
        decimal(n / 10).push(digit_char(n % 10))
    }
}

fn digit_char_exec(d: u64) -> (c: char)
    requires
        d < 10,
    ensures
        c == digit_char(d as nat),
{
    if d == 0 {
        '0'
    } else if d == 1 {
        '1'
    } else if d == 2 {
        '2'
    } else if d == 3 {
        '3'
    } else if d == 4 {
        '4'
    } else if d == 5 {
        '5'
    } else if d == 6 {
        '6'
    } else if d == 7 {
        '7'
    } else if d == 8 {
        '8'
    } else {
        '9'
    }
}

fn decimal_chars(n: u64) -> (v: Vec<char>)
    ensures
        v@ == decimal(n as nat),
    decreases n,
{
    if n < 10 {
        let mut v: Vec<char> = Vec::new();
        v.push(digit_char_exec(n));
        assert(v@ =~= seq![digit_char(n as nat)]);
        v
    } else {
        let mut v = decimal_chars(n / 10);
        v.push(digit_char_exec(n % 10));
        v
    }
}

/// The decimal representation of `n`, as `n.to_string()` writes it.
pub fn decimal_string(n: u64) -> (s: String)
    ensures
        s@ == decimal(n as nat),
{
    let v = decimal_chars(n);
    string_from_chars(v.as_slice())
}

// ── Prefixes and suffixes ─────────────────────────────────────────────────────

/// `s` with every trailing `c` removed, as `str::trim_end_matches(c)` does.
pub open spec fn strip_trailing(s: Seq<char>, c: char) -> Seq<char>
    decreases s.len(),
{
    if s.len() > 0 && s.last() == c {
        strip_trailing(s.drop_last(), c)
    } else {
        s
    }
}

/// `s` with every trailing `c` removed.
pub fn trim_end_char(s: &str, c: char) -> (r: String)
    ensures
        r@ == strip_trailing(s@, c),
{
    let cs = chars_of(s);
    let mut end: usize = cs.len();
    assert(cs@.subrange(0, end as int) =~= s@);
    while end > 0 && cs[end - 1] == c
        invariant
            end <= cs@.len(),
            cs@ == s@,
            strip_trailing(cs@.subrange(0, end as int), c) == strip_trailing(s@, c),
        decreases end,
    {
        assert(cs@.subrange(0, end as int).drop_last() =~= cs@.subrange(0, end - 1));
        end -= 1;
    }
    let mut out: Vec<char> = Vec::new();
    let mut i: usize = 0;
    while i < end
        invariant
            i <= end <= cs@.len(),
            out@ == cs@.subrange(0, i as int),
        decreases end - i,
    {
        out.push(cs[i]);
        assert(cs@.subrange(0, i + 1) =~= cs@.subrange(0, i as int).push(cs@[i as int]));
        i += 1;
    }
    let ghost t = cs@.subrange(0, end as int);
    assert(!(t.len() > 0 && t.last() == c));
    assert(strip_trailing(t, c) == t);
    string_from_chars(out.as_slice())
}

/// `s` without the prefix `p`, or `None` when `s` does not start with `p`
/// (`str::strip_prefix`).
pub fn strip_prefix(s: &str, p: &str) -> (r: Option<String>)
    ensures
        p@.is_prefix_of(s@) ==> r is Some && r->0@ == s@.skip(p@.len() as int),
        !p@.is_prefix_of(s@) ==> r is None,
{
    if starts_with(s, p) {
        let n = p.unicode_len();
        Some(skip_chars(s, n))
    } else {
        None
    }
}

/// `s` with the prefix `p` removed as often as it repeats, as `str::trim_start_matches(p)`
/// does (an empty `p` removes nothing).
pub open spec fn strip_leading(s: Seq<char>, p: Seq<char>) -> Seq<char>
    decreases s.len(),
{
    if p.len() > 0 && p.is_prefix_of(s) {
        strip_leading(s.skip(p.len() as int), p)
    } else {
        s
    }
}

/// `s` with the prefix `p` removed as often as it repeats.
pub fn trim_start_str(s: &str, p: &str) -> (r: String)
    ensures
        r@ == strip_leading(s@, p@),
{
    let n = p.unicode_len();
    let mut cur = owned(s);
    if n == 0 {
        return cur;
    }
    while starts_with(cur.as_str(), p)
        invariant
            n == p@.len(),
            n > 0,
            strip_leading(cur@, p@) == strip_leading(s@, p@),
        decreases cur@.len(),
    {
        cur = skip_chars(cur.as_str(), n);
    }
    cur
}

// ── Splitting ─────────────────────────────────────────────────────────────────

/// The pieces of `s` between `sep` separators, where `cur` is the piece begun so far.
pub open spec fn split_from(s: Seq<char>, sep: char, cur: Seq<char>) -> Seq<Seq<char>>
    decreases s.len(),
{
    if s.len() == 0 {
        seq![cur]
    } else if s[0] == sep {
        seq![cur] + split_from(s.drop_first(), sep, Seq::empty())
    } else {
        split_from(s.drop_first(), sep, cur.push(s[0]))
    }
}

/// The pieces of `s` between `sep` separators, as `str::split(sep)` yields them.
pub open spec fn split_on(s: Seq<char>, sep: char) -> Seq<Seq<char>> {
    split_from(s, sep, Seq::empty())
}

/// The trimmed pieces that are not empty, in order.
pub open spec fn nonblank_trimmed(pieces: Seq<Seq<char>>) -> Seq<Seq<char>>
    decreases pieces.len(),
{
    if pieces.len() == 0 {
        Seq::empty()
    } else {
        let t = trim(pieces[0]);
        let rest = nonblank_trimmed(pieces.drop_first());
        if t.len() == 0 {
            rest
        } else {
            seq![t] + rest
        }
    }
}

/// The views of a list of strings.
pub open spec fn views(v: Seq<String>) -> Seq<Seq<char>> {
    v.map_values(|s: String| s@)
}

proof fn lemma_nonblank_cons(a: Seq<char>, rest: Seq<Seq<char>>)
    ensures
        nonblank_trimmed(seq![a] + rest) == (if trim(a).len() == 0 {
            nonblank_trimmed(rest)
        } else {
            seq![trim(a)] + nonblank_trimmed(rest)
        }),
{
    assert((seq![a] + rest).drop_first() =~= rest);
    assert((seq![a] + rest)[0] == a);
}

/// The `sep`-separated pieces of `s`, trimmed, without the empty ones
/// (`s.split(sep).map(str::trim).filter(|p| !p.is_empty())`).
pub fn split_trimmed(s: &str, sep: char) -> (out: Vec<String>)
    ensures
        views(out@) == nonblank_trimmed(split_on(s@, sep)),
{
    let cs = chars_of(s);
    let mut out: Vec<String> = Vec::new();
    let mut cur: Vec<char> = Vec::new();
    let mut i: usize = 0;
    assert(cs@.skip(0) =~= cs@);
    while i < cs.len()
        invariant
            i <= cs@.len(),
            cs@ == s@,
            views(out@) + nonblank_trimmed(split_from(cs@.skip(i as int), sep, cur@))
                == nonblank_trimmed(split_on(s@, sep)),
        decreases cs@.len() - i,
    {
        let ghost rest = cs@.skip(i as int);
        assert(rest.drop_first() =~= cs@.skip(i + 1));
        assert(rest[0] == cs@[i as int]);
        let c = cs[i];
        if c == sep {
            let piece = string_from_chars(cur.as_slice());
            let t = trim_exec(piece.as_str());
            proof {
                lemma_nonblank_cons(cur@, split_from(cs@.skip(i + 1), sep, Seq::empty()));
            }
            let ghost before = out@;
            if t.as_str().unicode_len() > 0 {
                out.push(t);
                assert(views(out@) =~= views(before) + seq![trim(cur@)]);
            }
            cur = Vec::new();
            assert(cur@ =~= Seq::<char>::empty());
        } else {
            cur.push(c);
        }
        i += 1;
    }
    proof {
        assert(cs@.skip(i as int) =~= Seq::<char>::empty());
        assert(split_from(Seq::<char>::empty(), sep, cur@) == seq![cur@]);
        lemma_nonblank_cons(cur@, Seq::empty());
        assert(seq![cur@] + Seq::<Seq<char>>::empty() =~= seq![cur@]);
    }
    let piece = string_from_chars(cur.as_slice());
    let t = trim_exec(piece.as_str());
    let ghost before = out@;
    if t.as_str().unicode_len() > 0 {
        out.push(t);
        assert(views(out@) =~= views(before) + seq![trim(cur@)]);
    }
    proof {
        assert(nonblank_trimmed(Seq::<Seq<char>>::empty()) == Seq::<Seq<char>>::empty());
        assert(views(before) + Seq::<Seq<char>>::empty() =~= views(before));
        assert(views(before) + seq![trim(cur@)] + Seq::<Seq<char>>::empty() =~= views(before)
            + seq![trim(cur@)]);
    }
    out
}

proof fn lemma_trailing_ws_bound(s: Seq<char>)
    ensures
        trailing_ws(s) <= s.len(),
    decreases s.len(),
{
    if s.len() > 0 && is_whitespace(s.last()) {
        lemma_trailing_ws_bound(s.drop_last());
    }
}

proof fn lemma_trim_sub(s: Seq<char>)
    ensures
        forall|k: int| 0 <= k < trim(s).len() ==> s.contains(#[trigger] trim(s)[k]),
{
    lemma_leading_ws_bound(s);
    let lead = leading_ws(s) as int;
    let rest = s.subrange(lead, s.len() as int);
    lemma_trailing_ws_bound(rest);
    assert forall|k: int| 0 <= k < trim(s).len() implies s.contains(#[trigger] trim(s)[k]) by {
        assert(trim(s)[k] == rest[k]);
        assert(rest[k] == s[k + lead]);
        assert(s[k + lead] == trim(s)[k]);
    }
}

proof fn lemma_split_from_pieces(s: Seq<char>, sep: char, cur: Seq<char>)
    requires
        !cur.contains(sep),
    ensures
        forall|i: int| 0 <= i < split_from(s, sep, cur).len() ==> !(#[trigger] split_from(s, sep, cur)[i]).contains(sep),
    decreases s.len(),
{
    if s.len() == 0 {
        assert(split_from(s, sep, cur) == seq![cur]);
        assert(split_from(s, sep, cur)[0] == cur);
    } else {
        if s[0] == sep {
            lemma_split_from_pieces(s.drop_first(), sep, Seq::empty());
            let r = split_from(s.drop_first(), sep, Seq::empty());
            assert(split_from(s, sep, cur) == seq![cur] + r);
            assert forall|i: int| 0 <= i < split_from(s, sep, cur).len() implies !(#[trigger] split_from(s, sep, cur)[i]).contains(sep) by {
                if i > 0 {
                    assert(split_from(s, sep, cur)[i] == r[i - 1]);
                } else {
                    assert(split_from(s, sep, cur)[i] == cur);
                }
            }
        } else {
            let c2 = cur.push(s[0]);
            assert(!c2.contains(sep)) by {
                if c2.contains(sep) {
                    let k = choose|k: int| 0 <= k < c2.len() && c2[k] == sep;
                    if k < cur.len() {
                        assert(cur[k] == sep);
                    }
                }
            }
            lemma_split_from_pieces(s.drop_first(), sep, c2);
            assert(split_from(s, sep, cur) == split_from(s.drop_first(), sep, c2));
        }
    }
}

proof fn lemma_nonblank_pieces(pieces: Seq<Seq<char>>, sep: char)
    requires
        forall|i: int| 0 <= i < pieces.len() ==> !(#[trigger] pieces[i]).contains(sep),
    ensures
        forall|i: int| 0 <= i < nonblank_trimmed(pieces).len() ==> (#[trigger] nonblank_trimmed(pieces)[i]).len() > 0
            && !nonblank_trimmed(pieces)[i].contains(sep),
    decreases pieces.len(),
{
    if pieces.len() > 0 {
        let t = pieces.drop_first();
        assert forall|i: int| 0 <= i < t.len() implies !(#[trigger] t[i]).contains(sep) by {
            assert(t[i] == pieces[i + 1]);
        }
        lemma_nonblank_pieces(t, sep);
        let tr = trim(pieces[0]);
        lemma_trim_sub(pieces[0]);
        assert(!tr.contains(sep)) by {
            if tr.contains(sep) {
                let k = choose|k: int| 0 <= k < tr.len() && tr[k] == sep;
                assert(pieces[0].contains(tr[k]));
            }
        }
        let rest = nonblank_trimmed(t);
        if tr.len() > 0 {
            assert forall|i: int| 0 <= i < nonblank_trimmed(pieces).len() implies (#[trigger] nonblank_trimmed(pieces)[i]).len() > 0
                && !nonblank_trimmed(pieces)[i].contains(sep) by {
                if i > 0 {
                    assert(nonblank_trimmed(pieces)[i] == rest[i - 1]);
                }
            }
        }
    }
}

/// Every piece that splitting keeps is non-empty and holds no separator.
pub proof fn law_split_pieces(s: Seq<char>, sep: char)
    ensures
        forall|i: int|
            0 <= i < nonblank_trimmed(split_on(s, sep)).len() ==> (#[trigger] nonblank_trimmed(
                split_on(s, sep),
            )[i]).len() > 0 && !nonblank_trimmed(split_on(s, sep))[i].contains(sep),
{
    lemma_split_from_pieces(s, sep, Seq::empty());
    lemma_nonblank_pieces(split_on(s, sep), sep);
}

} // verus!

//! System info widget: reading the kernel's text reports (`/proc/meminfo`, the output
//! of `df`) and formatting the uptime. The caller reads the files and runs `df`.
use vstd::prelude::*;
use crate::text::{
    char_is_whitespace, chars_of, concat, decimal, decimal_string, is_whitespace, owned,
    starts_with, string_from_chars,
};

verus! {

// ── Lines and words ───────────────────────────────────────────────────────────

/// `line` without one trailing carriage return.
pub open spec fn strip_cr(line: Seq<char>) -> Seq<char> {
    if line.len() > 0 && line.last() == '\r' {
        line.drop_last()
    } else {
        line
    }
}

/// The lines of `s`, where `cur` is the line begun so far: split at `\n` (a `\r` before
/// it is dropped); a last line without a line ending is kept as it is, an empty one is
/// not a line (as `str::lines` yields them).
pub open spec fn lines_from(s: Seq<char>, cur: Seq<char>) -> Seq<Seq<char>>
    decreases s.len(),
{
    if s.len() == 0 {
        if cur.len() == 0 {
            Seq::empty()
        } else {
            seq![cur]
        }
    } else if s[0] == '\n' {
        seq![strip_cr(cur)] + lines_from(s.drop_first(), Seq::empty())
    } else {
        lines_from(s.drop_first(), cur.push(s[0]))
    }
}

/// The lines of `s`.
pub open spec fn lines(s: Seq<char>) -> Seq<Seq<char>> {
    lines_from(s, Seq::empty())
}

/// The views of a list of strings.
pub open spec fn string_views(v: Seq<String>) -> Seq<Seq<char>> {
    v.map_values(|x: String| x@)
}

/// The lines of `s` (`str::lines`).
pub fn lines_of(s: &str) -> (out: Vec<String>)
    ensures
        string_views(out@) == lines(s@),
{
    let cs = chars_of(s);
    let mut out: Vec<String> = Vec::new();
    let mut cur: Vec<char> = Vec::new();
    let mut i: usize = 0;
    assert(cs@.skip(0) =~= cs@);
    while i < cs.len()
        invariant
            i <= cs@.len(),
            cs@ == s@,
            string_views(out@) + lines_from(cs@.skip(i as int), cur@) == lines(s@),
        decreases cs@.len() - i,
    {
        let ghost rest = cs@.skip(i as int);
        assert(rest.drop_first() =~= cs@.skip(i + 1));
        assert(rest[0] == cs@[i as int]);
        if cs[i] == '\n' {
            let ghost before = out@;
            let ghost c0 = cur@;
            if cur.len() > 0 && cur[cur.len() - 1] == '\r' {
                cur.pop();
            }
            assert(cur@ == strip_cr(c0));
            out.push(string_from_chars(cur.as_slice()));
            assert(string_views(out@) =~= string_views(before).push(strip_cr(c0)));
            assert(string_views(out@) + lines_from(cs@.skip(i + 1), Seq::empty()) =~= string_views(
                before,
            ) + (seq![strip_cr(c0)] + lines_from(cs@.skip(i + 1), Seq::empty())));
            cur = Vec::new();
            assert(cur@ =~= Seq::<char>::empty());
        } else {
            cur.push(cs[i]);
        }
        i += 1;
    }
    assert(cs@.skip(i as int) =~= Seq::<char>::empty());
    if cur.len() > 0 {
        let ghost before = out@;
        out.push(string_from_chars(cur.as_slice()));
        assert(string_views(out@) =~= string_views(before) + seq![cur@]);
    } else {
        assert(string_views(out@) + Seq::<Seq<char>>::empty() =~= string_views(out@));
    }
    out
}

/// The words of `s`, where `cur` is the word begun so far: the maximal runs of
/// non-whitespace characters (as `str::split_whitespace` yields them).
pub open spec fn words_from(s: Seq<char>, cur: Seq<char>) -> Seq<Seq<char>>
    decreases s.len(),
{
    let done = if cur.len() == 0 {
        Seq::<Seq<char>>::empty()
    } else {
        seq![cur]
    };
    if s.len() == 0 {
        done
    } else if is_whitespace(s[0]) {
        done + words_from(s.drop_first(), Seq::empty())
    } else {
        words_from(s.drop_first(), cur.push(s[0]))
    }
}

/// The words of `s`.
pub open spec fn words(s: Seq<char>) -> Seq<Seq<char>> {
    words_from(s, Seq::empty())
}

/// The words of `s` (`str::split_whitespace`).
pub fn words_of(s: &str) -> (out: Vec<String>)
    ensures
        string_views(out@) == words(s@),
{
    let cs = chars_of(s);
    let mut out: Vec<String> = Vec::new();
    let mut cur: Vec<char> = Vec::new();
    let mut i: usize = 0;
    assert(cs@.skip(0) =~= cs@);
    while i < cs.len()
        invariant
            i <= cs@.len(),
            cs@ == s@,
            string_views(out@) + words_from(cs@.skip(i as int), cur@) == words(s@),
        decreases cs@.len() - i,
    {
        let ghost rest = cs@.skip(i as int);
        assert(rest.drop_first() =~= cs@.skip(i + 1));
        assert(rest[0] == cs@[i as int]);
        if char_is_whitespace(cs[i]) {
            let ghost before = out@;
            let ghost c0 = cur@;
            if cur.len() > 0 {
                out.push(string_from_chars(cur.as_slice()));
                assert(string_views(out@) =~= string_views(before).push(c0));
                assert(string_views(out@) + words_from(cs@.skip(i + 1), Seq::empty())
                    =~= string_views(before) + (seq![c0] + words_from(
                    cs@.skip(i + 1),
                    Seq::empty(),
                )));
            } else {
                assert(Seq::<Seq<char>>::empty() + words_from(cs@.skip(i + 1), Seq::empty())
                    =~= words_from(cs@.skip(i + 1), Seq::empty()));
            }
            cur = Vec::new();
            assert(cur@ =~= Seq::<char>::empty());
        } else {
            cur.push(cs[i]);
        }
        i += 1;
    }
    assert(cs@.skip(i as int) =~= Seq::<char>::empty());
    if cur.len() > 0 {
        let ghost before = out@;
        out.push(string_from_chars(cur.as_slice()));
        assert(string_views(out@) =~= string_views(before) + seq![cur@]);
    } else {
        assert(string_views(out@) + Seq::<Seq<char>>::empty() =~= string_views(out@));
    }
    out
}

// ── Numbers ───────────────────────────────────────────────────────────────────

/// Whether `c` is an ASCII decimal digit.
pub open spec fn is_digit(c: char) -> bool {
    '0' <= c && c <= '9'
}

/// Whether every character of `d` is a decimal digit.
pub open spec fn all_digits(d: Seq<char>) -> bool {
    forall|k: int| 0 <= k < d.len() ==> is_digit(#[trigger] d[k])
}

/// The digits after an optional leading `+`.
pub open spec fn unsigned_digits(s: Seq<char>) -> Seq<char> {
    if s.len() > 0 && s[0] == '+' {
        s.drop_first()
    } else {
        s
    }
}

/// The value of a string of decimal digits.
pub open spec fn digits_value(d: Seq<char>) -> nat
    decreases d.len(),
{
    if d.len() == 0 {
        0
    } else {
        digits_value(d.drop_last()) * 10 + ((d.last() as u32) - ('0' as u32)) as nat
    }
}

/// The value of `s` as an unsigned 64-bit number, as `str::parse::<u64>` reads it: an
/// optional `+` and at least one decimal digit, no more than `u64::MAX`.
pub open spec fn parsed_u64(s: Seq<char>) -> Option<u64> {
    let d = unsigned_digits(s);
    if d.len() > 0 && all_digits(d) && digits_value(d) <= u64::MAX {
        Some(digits_value(d) as u64)
    } else {
        None
    }
}

/// `s` as an unsigned 64-bit number, if it is one.
pub fn parse_u64(s: &str) -> (r: Option<u64>)
    ensures
        r == parsed_u64(s@),
{
    let cs = chars_of(s);
    let start: usize = if cs.len() > 0 && cs[0] == '+' {
        1
    } else {
        0
    };
    let ghost d = unsigned_digits(s@);
    assert(d =~= cs@.skip(start as int));
    if start >= cs.len() {
        return None;
    }
    let mut value: u64 = 0;
    let mut i: usize = start;
    while i < cs.len()
        invariant
            start <= i <= cs@.len(),
            cs@ == s@,
            d == unsigned_digits(s@),
            d =~= cs@.skip(start as int),
            forall|k: int| start <= k < i ==> is_digit(#[trigger] cs@[k]),
            value == digits_value(cs@.subrange(start as int, i as int)),
        decreases cs@.len() - i,
    {
        let c = cs[i];
        if !('0' <= c && c <= '9') {
            assert(cs@.skip(start as int)[i - start] == cs@[i as int]);
            assert(d[i - start] == c);
            assert(!is_digit(d[i - start]));
            assert(!all_digits(d));
            return None;
        }
        let digit = (c as u32 - '0' as u32) as u64;
        assert(cs@.subrange(start as int, i + 1).drop_last() =~= cs@.subrange(start as int, i as int));
        if value > (u64::MAX - digit) / 10 {
            proof {
                assert(digits_value(cs@.subrange(start as int, i + 1)) == value * 10 + digit);
                assert(value * 10 + digit > u64::MAX) by (nonlinear_arith)
                    requires
                        value > (u64::MAX - digit) / 10,
                        digit <= 9,
                ;
                assert(cs@.subrange(start as int, cs@.len() as int) =~= d);
                if all_digits(d) {
                    lemma_digits_value_grows(d, i + 1 - start);
                    assert(d.take(i + 1 - start) =~= cs@.subrange(start as int, i + 1));
                    assert(digits_value(d) > u64::MAX);
                }
            }
            return None;
        }
        assert(value * 10 + digit <= u64::MAX) by (nonlinear_arith)
            requires
                value <= (u64::MAX - digit) / 10,
                digit <= 9,
        ;
        value = value * 10 + digit;
        i += 1;
    }
    assert(cs@.subrange(start as int, cs@.len() as int) =~= d);
    Some(value)
}

proof fn lemma_digits_value_grows(d: Seq<char>, n: int)
    requires
        0 <= n <= d.len(),
        all_digits(d),
    ensures
        digits_value(d.take(n)) <= digits_value(d),
    decreases d.len() - n,
{
    if n < d.len() {
        lemma_digits_value_grows(d, n + 1);
        assert(d.take(n + 1).drop_last() =~= d.take(n));
        assert(is_digit(d[n]));
    } else {
        assert(d.take(n) =~= d);
    }
}

// ── Reports ───────────────────────────────────────────────────────────────────

/// The first line of `ls[..n]` that starts with `key`, if any.
pub open spec fn first_line_with(ls: Seq<Seq<char>>, key: Seq<char>) -> Option<Seq<char>>
    decreases ls.len(),
{
    if ls.len() == 0 {
        None
    } else if key.is_prefix_of(ls[0]) {
        Some(ls[0])
    } else {
        first_line_with(ls.drop_first(), key)
    }
}

/// The number in the second word of `line`, or 0.
pub open spec fn second_number(line: Seq<char>) -> u64 {
    let w = words(line);
    if w.len() > 1 {
        match parsed_u64(w[1]) {
            Some(v) => v,
            None => 0,
        }
    } else {
        0
    }
}

/// The value of a `/proc/meminfo` entry in kB: the number after the first line that
/// starts with `key` (e.g. `"MemTotal:"`), or 0 when there is none.
pub open spec fn meminfo_value(report: Seq<char>, key: Seq<char>) -> u64 {
    match first_line_with(lines(report), key) {
        Some(line) => second_number(line),
        None => 0,
    }
}

fn second_number_of(line: &str) -> (v: u64)
    ensures
        v == second_number(line@),
{
    let w = words_of(line);
    if w.len() > 1 {
        assert(string_views(w@)[1] == w@[1]@);
        match parse_u64(w[1].as_str()) {
            Some(v) => v,
            None => 0,
        }
    } else {
        0
    }
}

/// The value of a `/proc/meminfo` entry in kB, or 0.
pub fn meminfo_kb(report: &str, key: &str) -> (kb: u64)
    ensures
        kb == meminfo_value(report@, key@),
{
    let ls = lines_of(report);
    let ghost lv = string_views(ls@);
    let mut i: usize = 0;
    assert(lv.skip(0) =~= lv);
    while i < ls.len()
        invariant
            i <= ls@.len(),
            lv == string_views(ls@),
            lv == lines(report@),
            first_line_with(lv.skip(i as int), key@) == first_line_with(lv, key@),
        decreases ls@.len() - i,
    {
        assert(lv.skip(i as int)[0] == ls@[i as int]@);
        if starts_with(ls[i].as_str(), key) {
            return second_number_of(ls[i].as_str());
        }
        assert(lv.skip(i as int).drop_first() =~= lv.skip(i + 1));
        i += 1;
    }
    assert(lv.skip(i as int).len() == 0);
    0
}

/// Memory in use: the total less the available memory, or 0 when more is available.
pub fn mem_used_kb(total: u64, available: u64) -> (used: u64)
    ensures
        used == if total >= available { total - available } else { 0 },
{
    total.saturating_sub(available)
}

/// The number in word `k` of `line`, or 0.
pub open spec fn word_number(line: Seq<char>, k: int) -> u64 {
    let w = words(line);
    if k < w.len() {
        match parsed_u64(w[k]) {
            Some(v) => v,
            None => 0,
        }
    } else {
        0
    }
}

/// Used and total kB of the root file system from the output of
/// `df --output=used,size -k /`: the two numbers of its second line (0 where missing).
pub open spec fn df_values(output: Seq<char>) -> (u64, u64) {
    let ls = lines(output);
    let data = if ls.len() > 1 {
        ls[1]
    } else {
        Seq::empty()
    };
    (word_number(data, 0), word_number(data, 1))
}

/// Used and total kB of the root file system from the output of `df`.
pub fn df_kb(output: &str) -> (r: (u64, u64))
    ensures
        r == df_values(output@),
{
    let ls = lines_of(output);
    let data = if ls.len() > 1 {
        assert(string_views(ls@)[1] == ls@[1]@);
        owned(ls[1].as_str())
    } else {
        String::new()
    };
    let w = words_of(data.as_str());
    let used = if w.len() > 0 {
        assert(string_views(w@)[0] == w@[0]@);
        match parse_u64(w[0].as_str()) {
            Some(v) => v,
            None => 0,
        }
    } else {
        0
    };
    let total = if w.len() > 1 {
        assert(string_views(w@)[1] == w@[1]@);
        match parse_u64(w[1].as_str()) {
            Some(v) => v,
            None => 0,
        }
    } else {
        0
    };
    (used, total)
}

// ── Uptime ────────────────────────────────────────────────────────────────────

/// The uptime text for `secs` seconds: `"{d}d {h}h {m}m"`, `"{h}h {m}m"` below a day,
/// `"{m}m"` below an hour.
pub open spec fn uptime_text(secs: nat) -> Seq<char> {
    let days = secs / 86400;
    let hours = (secs % 86400) / 3600;
    let mins = (secs % 3600) / 60;
    if days > 0 {
        decimal(days) + "d "@ + decimal(hours) + "h "@ + decimal(mins) + "m"@
    } else if hours > 0 {
        decimal(hours) + "h "@ + decimal(mins) + "m"@
    } else {
        decimal(mins) + "m"@
    }
}

/// The uptime text for `secs` seconds.
pub fn format_uptime(secs: u64) -> (s: String)
    ensures
        s@ == uptime_text(secs as nat),
{
    let days = secs / 86400;
    let hours = (secs % 86400) / 3600;
    let mins = (secs % 3600) / 60;
    if days > 0 {
        let mut s = decimal_string(days);
        s.append("d ");
        s.append(decimal_string(hours).as_str());
        s.append("h ");
        s.append(decimal_string(mins).as_str());
        s.append("m");
        s
    } else if hours > 0 {
        let mut s = decimal_string(hours);
        s.append("h ");
        s.append(decimal_string(mins).as_str());
        s.append("m");
        s
    } else {
        concat(decimal_string(mins).as_str(), "m")
    }
}

/// A value cell of the system info widget: the value, or "—" when it is empty.
pub fn cell_value(value: &str) -> (s: String)
    ensures
        s@ == (if value@.len() == 0 {
            "—"@
        } else {
            value@
        }),
{
    if value.unicode_len() == 0 {
        owned("—")
    } else {
        owned(value)
    }
}

/// A used amount beside its total, as the memory and disk rows show them: `"used / total"`.
pub fn used_of_total(used: &str, total: &str) -> (s: String)
    ensures
        s@ == used@ + " / "@ + total@,
{
    let a = concat(used, " / ");
    concat(a.as_str(), total)
}

} // verus!

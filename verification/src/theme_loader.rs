//! Theme loader: CSS variable prefix injection for Store themes, and theme validation.
//!
//! Store themes are saved without a CSS variable prefix (`--bg-base`); each program
//! adds its own prefix when loading (`--fsn-bg-base` for the desktop).
use vstd::prelude::*;
use crate::text::{chars_of, concat, occurs_at, occurs_at_exec, string_from_chars};

verus! {

// ── Specification ─────────────────────────────────────────────────────────────

/// The guard `"{prefix}-"` as characters.
pub open spec fn guard_of(prefix: Seq<char>) -> Seq<char> {
    prefix.push('-')
}

/// Whether a `--` starts at `i`.
pub open spec fn dashes_at(css: Seq<char>, i: int) -> bool {
    0 <= i && i + 1 < css.len() && css[i] == '-' && css[i + 1] == '-'
}

/// The output that prefix injection produces for `css[i..]`.
///
/// Characters are copied one by one. Each `--` is copied and, unless the text after it
/// already starts with `guard`, `guard` is inserted after it; the scan then goes on right
/// after the `--`, so a following `--` is seen too.
pub open spec fn prefixed_from(css: Seq<char>, i: int, guard: Seq<char>) -> Seq<char>
    decreases css.len() - i,
{
    if i < 0 || i >= css.len() {
        Seq::empty()
    } else if dashes_at(css, i) {
        let kept = if guard.is_prefix_of(css.skip(i + 2)) { Seq::empty() } else { guard };
        seq!['-', '-'] + kept + prefixed_from(css, i + 2, guard)
    } else {
        seq![css[i]] + prefixed_from(css, i + 1, guard)
    }
}

/// Result of `prefix_theme_css(css, prefix)`.
pub open spec fn prefixed_css(css: Seq<char>, prefix: Seq<char>) -> Seq<char> {
    prefixed_from(css, 0, guard_of(prefix))
}

// ── Prefix injection ──────────────────────────────────────────────────────────

proof fn lemma_prefixed_step(css: Seq<char>, i: int, guard: Seq<char>)
    requires
        0 <= i < css.len(),
    ensures
        prefixed_from(css, i, guard) == (if dashes_at(css, i) {
            let kept = if guard.is_prefix_of(css.skip(i + 2)) { Seq::empty() } else { guard };
            seq!['-', '-'] + kept + prefixed_from(css, i + 2, guard)
        } else {
            seq![css[i]] + prefixed_from(css, i + 1, guard)
        }),
{
}

/// Whether `guard` is a prefix of `css[j..]`.
fn starts_with_at(css: &Vec<char>, j: usize, guard: &Vec<char>) -> (b: bool)
    requires
        j <= css@.len(),
    ensures
        b == guard@.is_prefix_of(css@.skip(j as int)),
{
    if guard.len() > css.len() - j {
        return false;
    }
    let mut k: usize = 0;
    while k < guard.len()
        invariant
            j <= css@.len(),
            css@.len() <= usize::MAX,
            guard@.len() <= css@.len() - j,
            k <= guard@.len(),
            forall|m: int| 0 <= m < k ==> css@[j + m] == guard@[m],
        decreases guard@.len() - k,
    {
        if css[j + k] != guard[k] {
            assert(css@.skip(j as int).subrange(0, guard@.len() as int)[k as int] != guard@[k as int]);
            return false;
        }
        k += 1;
    }
    assert(css@.skip(j as int).subrange(0, guard@.len() as int) =~= guard@);
    true
}

/// Injects a CSS variable prefix into all `--` declarations in `css`.
///
/// `--bg-base` becomes `--{prefix}-bg-base`; variables that already start with
/// `--{prefix}-` are left untouched.
pub fn prefix_theme_css(css: &str, prefix: &str) -> (out: String)
    ensures
        out@ == prefixed_css(css@, prefix@),
{
    let mut guard = chars_of(prefix);
    guard.push('-');
    proof {
        assert(guard@ =~= guard_of(prefix@));
    }
    let cs = chars_of(css);
    let mut out: Vec<char> = Vec::new();
    let mut i: usize = 0;
    while i < cs.len()
        invariant
            cs@ == css@,
            guard@ == guard_of(prefix@),
            i <= cs@.len(),
            out@ + prefixed_from(cs@, i as int, guard@) == prefixed_from(cs@, 0, guard@),
        decreases cs@.len() - i,
    {
        proof {
            lemma_prefixed_step(cs@, i as int, guard@);
        }
        if i + 1 < cs.len() && cs[i] == '-' && cs[i + 1] == '-' {
            let j = i + 2;
            let ghost before = out@;
            out.push('-');
            out.push('-');
            let present = starts_with_at(&cs, j, &guard);
            if !present {
                let mut g: usize = 0;
                while g < guard.len()
                    invariant
                        g <= guard@.len(),
                        out@ == before + seq!['-', '-'] + guard@.subrange(0, g as int),
                    decreases guard@.len() - g,
                {
                    out.push(guard[g]);
                    assert(guard@.subrange(0, g + 1) =~= guard@.subrange(0, g as int).push(guard@[g as int]));
                    g += 1;
                }
                assert(guard@.subrange(0, guard@.len() as int) =~= guard@);
            }
            assert(out@ =~= before + (seq!['-', '-'] + (if guard@.is_prefix_of(cs@.skip(j as int)) {
                Seq::<char>::empty()
            } else {
                guard@
            })));
            i = j;
        } else {
            out.push(cs[i]);
            i += 1;
        }
    }
    string_from_chars(out.as_slice())
}

/// Every `--` that the prefix scan of `css[i..]` meets is already followed by `guard`.
pub open spec fn already_prefixed_from(css: Seq<char>, i: int, guard: Seq<char>) -> bool
    decreases css.len() - i,
{
    if i < 0 || i >= css.len() {
        true
    } else if dashes_at(css, i) {
        guard.is_prefix_of(css.skip(i + 2)) && already_prefixed_from(css, i + 2, guard)
    } else {
        already_prefixed_from(css, i + 1, guard)
    }
}

proof fn lemma_prefixed_unchanged(css: Seq<char>, i: int, guard: Seq<char>)
    requires
        0 <= i <= css.len(),
        already_prefixed_from(css, i, guard),
    ensures
        prefixed_from(css, i, guard) == css.subrange(i, css.len() as int),
    decreases css.len() - i,
{
    if i < css.len() {
        if dashes_at(css, i) {
            lemma_prefixed_unchanged(css, i + 2, guard);
            assert(seq!['-', '-'] + Seq::<char>::empty() + css.subrange(i + 2, css.len() as int)
                =~= css.subrange(i, css.len() as int));
        } else {
            lemma_prefixed_unchanged(css, i + 1, guard);
            assert(seq![css[i]] + css.subrange(i + 1, css.len() as int) =~= css.subrange(
                i,
                css.len() as int,
            ));
        }
    } else {
        assert(css.subrange(i, css.len() as int) =~= Seq::<char>::empty());
    }
}

/// A theme whose variables already carry the prefix is left unchanged by prefix
/// injection (no variable is prefixed twice).
pub proof fn law_prefixed_theme_unchanged(css: Seq<char>, prefix: Seq<char>)
    requires
        already_prefixed_from(css, 0, guard_of(prefix)),
    ensures
        prefixed_css(css, prefix) == css,
{
    lemma_prefixed_unchanged(css, 0, guard_of(prefix));
    assert(css.subrange(0, css.len() as int) =~= css);
}

// ── Theme validation ──────────────────────────────────────────────────────────

/// Canonical theme variable names without prefix (as stored in the Store).
pub open spec fn spec_required_vars() -> Seq<Seq<char>> {
    seq![
        "bg-base"@, "bg-surface"@, "bg-elevated"@, "bg-card"@, "bg-input"@,
        "text-primary"@, "text-secondary"@, "text-muted"@,
        "primary"@, "primary-hover"@, "primary-text"@,
        "accent"@,
        "success"@, "warning"@, "error"@,
        "border"@, "border-focus"@,
    ]
}

/// Canonical theme variable names without prefix (as stored in the Store).
pub fn required_vars() -> (r: Vec<&'static str>)
    ensures
        r@.map_values(|v: &str| v@) == spec_required_vars(),
{
    let r = vec![
        "bg-base", "bg-surface", "bg-elevated", "bg-card", "bg-input",
        "text-primary", "text-secondary", "text-muted",
        "primary", "primary-hover", "primary-text",
        "accent",
        "success", "warning", "error",
        "border", "border-focus",
    ];
    assert(r@.map_values(|v: &str| v@) =~= spec_required_vars());
    r
}

/// Whether `c` can continue a CSS custom property name: an ASCII letter or digit, `-`,
/// `_`, or any non-ASCII character.
pub open spec fn continues_name(c: char) -> bool {
    ('a' <= c && c <= 'z') || ('A' <= c && c <= 'Z') || ('0' <= c && c <= '9') || c == '-' || c
        == '_' || c as u32 >= 0x80
}

/// `decl` occurs at `i` as a whole name: the character after it, if any, cannot continue
/// the name.
pub open spec fn whole_at(css: Seq<char>, decl: Seq<char>, i: int) -> bool {
    &&& occurs_at(css, decl, i)
    &&& (i + decl.len() == css.len() || !continues_name(css[i + decl.len()]))
}

/// Whether `css` declares the variable `--{name}` (as a whole name, not as the start of
/// a longer one).
pub open spec fn declares(css: Seq<char>, name: Seq<char>) -> bool {
    exists|i: int| #[trigger] whole_at(css, decl_of(name), i)
}

/// The declaration `--{name}` as characters.
pub open spec fn decl_of(name: Seq<char>) -> Seq<char> {
    seq!['-', '-'] + name
}

/// The variables of `vars` that `css` does not declare, in order.
pub open spec fn missing_vars(vars: Seq<Seq<char>>, css: Seq<char>) -> Seq<Seq<char>>
    decreases vars.len(),
{
    if vars.len() == 0 {
        Seq::empty()
    } else {
        let rest = missing_vars(vars.drop_last(), css);
        if declares(css, vars.last()) {
            rest
        } else {
            rest.push(vars.last())
        }
    }
}

fn continues_name_exec(c: char) -> (b: bool)
    ensures
        b == continues_name(c),
{
    ('a' <= c && c <= 'z') || ('A' <= c && c <= 'Z') || ('0' <= c && c <= '9') || c == '-' || c
        == '_' || (c as u32) >= 0x80
}

/// Whether `decl` occurs in `cs` as a whole name.
fn occurs_whole(cs: &Vec<char>, decl: &Vec<char>) -> (b: bool)
    ensures
        b == exists|i: int| #[trigger] whole_at(cs@, decl@, i),
{
    let mut i: usize = 0;
    while i < cs.len()
        invariant
            i <= cs@.len(),
            forall|k: int| 0 <= k < i ==> !#[trigger] whole_at(cs@, decl@, k),
        decreases cs@.len() - i,
    {
        if occurs_at_exec(cs, decl, i) {
            let e = i + decl.len();
            if e == cs.len() || !continues_name_exec(cs[e]) {
                assert(whole_at(cs@, decl@, i as int));
                return true;
            }
        }
        i += 1;
    }
    let at_end = occurs_at_exec(cs, decl, i);
    if at_end {
        assert(whole_at(cs@, decl@, i as int));
        return true;
    }
    assert forall|k: int| !#[trigger] whole_at(cs@, decl@, k) by {
        if whole_at(cs@, decl@, k) {
            assert(0 <= k <= cs@.len());
        }
    }
    false
}

/// Validates that all required variables are present in `css` (without prefix).
///
/// Returns the missing variable names, in the order of `required_vars()` (empty = valid).
/// A variable counts as present only as a whole name: `--border-focus` does not declare
/// `--border`.
pub fn validate_theme_vars(css: &str) -> (missing: Vec<&'static str>)
    ensures
        missing@.map_values(|v: &str| v@) == missing_vars(spec_required_vars(), css@),
{
    let vars = required_vars();
    let cs = chars_of(css);
    let mut missing: Vec<&'static str> = Vec::new();
    let mut i: usize = 0;
    proof {
        reveal_strlit("--");
    }
    while i < vars.len()
        invariant
            i <= vars@.len(),
            cs@ == css@,
            vars@.map_values(|v: &str| v@) == spec_required_vars(),
            "--"@ == seq!['-', '-'],
            missing@.map_values(|v: &str| v@) == missing_vars(
                vars@.map_values(|v: &str| v@).take(i as int),
                css@,
            ),
        decreases vars@.len() - i,
    {
        let var = vars[i];
        let decl_s = concat("--", var);
        let decl = chars_of(decl_s.as_str());
        let present = occurs_whole(&cs, &decl);
        let ghost views = vars@.map_values(|v: &str| v@);
        assert(views.take(i + 1).drop_last() =~= views.take(i as int));
        assert(views.take(i + 1).last() == var@);
        assert(decl@ == decl_of(var@));
        if !present {
            missing.push(var);
            assert(missing@.map_values(|v: &str| v@) =~= missing_vars(views.take(i as int), css@).push(var@));
        }
        i += 1;
    }
    assert(vars@.map_values(|v: &str| v@).take(vars@.len() as int) =~= vars@.map_values(|v: &str| v@));
    missing
}

} // verus!

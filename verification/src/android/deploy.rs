//! What the deployment steps read out of build scripts and `adb` output.
use vstd::prelude::*;

use crate::events::{event_views, AppEvent, EventView};
use crate::model::opt_view;
use crate::text::{
    contains, decimal, decimal_chars, has_prefix, lines, matches_at, push_char, slice_chars,
    split_lines, split_words, starts_with, string_from_chars, to_chars, trim, trim_bounds, words,
};

verus! {

// ---------------------------------------------------------------------------
// Package names
// ---------------------------------------------------------------------------

/// Index of the first `c` in `s`, or -1.
pub open spec fn char_index(s: Seq<char>, c: char) -> int
    decreases s.len(),
{
    if s.len() == 0 {
        -1
    } else if s[0] == c {
        0
    } else {
        let r = char_index(s.drop_first(), c);
        if r < 0 {
            -1
        } else {
            r + 1
        }
    }
}

/// Index of the first occurrence of `p` in `s`, or -1.
pub open spec fn substring_index(s: Seq<char>, p: Seq<char>) -> int
    decreases s.len(),
{
    if has_prefix(s, p) {
        0
    } else if s.len() == 0 {
        -1
    } else {
        let r = substring_index(s.drop_first(), p);
        if r < 0 {
            -1
        } else {
            r + 1
        }
    }
}

/// The non-empty text between the first two `q` characters of `t`.
pub open spec fn quoted(t: Seq<char>, q: char) -> Option<Seq<char>> {
    let a = char_index(t, q);
    if a < 0 {
        None
    } else {
        let rest = t.skip(a + 1);
        let b = char_index(rest, q);
        if b < 0 {
            None
        } else {
            let v = rest.take(b);
            if v.len() > 0 {
                Some(v)
            } else {
                None
            }
        }
    }
}

/// The package that a build script line declares: a `namespace` or
/// `applicationId` line with `=` or a space in it, whose first double-quoted
/// (else single-quoted) text is taken.
pub open spec fn gradle_line_package(line: Seq<char>) -> Option<Seq<char>> {
    let t = trim(line);
    if (has_prefix(t, "namespace"@) || has_prefix(t, "applicationId"@)) && (t.contains('=')
        || t.contains(' ')) {
        match quoted(t, '"') {
            Some(v) => Some(v),
            None => quoted(t, '\''),
        }
    } else {
        None
    }
}

/// The package declared by the first line that declares one.
pub open spec fn first_declared(ls: Seq<Seq<char>>) -> Option<Seq<char>>
    decreases ls.len(),
{
    if ls.len() == 0 {
        None
    } else {
        match gradle_line_package(ls[0]) {
            Some(v) => Some(v),
            None => first_declared(ls.drop_first()),
        }
    }
}

/// The package named by the first `package="..."` attribute of a manifest.
pub open spec fn manifest_package(content: Seq<char>) -> Option<Seq<char>> {
    let k = substring_index(content, "package=\""@);
    if k < 0 {
        None
    } else {
        let rest = content.skip(k + "package=\""@.len());
        let e = char_index(rest, '"');
        if e < 0 {
            None
        } else {
            let v = rest.take(e);
            if v.len() > 0 {
                Some(v)
            } else {
                None
            }
        }
    }
}

fn find_char(v: &[char], c: char) -> (r: Option<usize>)
    ensures
        match r {
            Some(i) => i < v@.len() && i == char_index(v@, c),
            None => char_index(v@, c) == -1,
        },
{
    let n = v.len();
    let mut i: usize = 0;
    assert(v@.skip(0) =~= v@);
    while i < n
        invariant
            i <= n,
            n == v@.len(),
            char_index(v@, c) == if char_index(v@.skip(i as int), c) < 0 {
                -1
            } else {
                char_index(v@.skip(i as int), c) + i
            },
        decreases n - i,
    {
        let ghost rest = v@.skip(i as int);
        assert(rest[0] == v@[i as int]);
        assert(rest.drop_first() =~= v@.skip(i + 1));
        if v[i] == c {
            return Some(i);
        }
        i = i + 1;
    }
    assert(v@.skip(n as int).len() == 0);
    None
}

proof fn lemma_char_index_skip0(s: Seq<char>, c: char)
    ensures
        s.skip(0) == s,
{
    assert(s.skip(0) =~= s);
}

fn quoted_exec(t: &[char], q: char) -> (r: Option<Vec<char>>)
    ensures
        (match r {
            Some(v) => Some(v@),
            None => None,
        }) == quoted(t@, q),
{
    proof {
        lemma_char_index_skip0(t@, q);
    }
    match find_char(t, q) {
        None => None,
        Some(a) => {
            let tl = t.len();
            assert(a < tl);
            let rest = slice_chars(t, a + 1, tl);
            assert(rest@ =~= t@.skip(a + 1));
            proof {
                lemma_char_index_skip0(rest@, q);
            }
            match find_char(rest.as_slice(), q) {
                None => None,
                Some(b) => {
                    let v = slice_chars(rest.as_slice(), 0, b);
                    assert(v@ =~= rest@.take(b as int));
                    if v.len() > 0 {
                        Some(v)
                    } else {
                        None
                    }
                },
            }
        },
    }
}

fn line_package(line: &[char]) -> (r: Option<Vec<char>>)
    ensures
        (match r {
            Some(v) => Some(v@),
            None => None,
        }) == gradle_line_package(line@),
{
    let (a, b) = trim_bounds(line);
    let t = slice_chars(line, a, b);
    let ns = to_chars("namespace");
    let app_id = to_chars("applicationId");
    if !(starts_with(t.as_slice(), ns.as_slice()) || starts_with(t.as_slice(), app_id.as_slice())) {
        return None;
    }
    let has_eq = find_char(t.as_slice(), '=').is_some();
    let has_space = find_char(t.as_slice(), ' ').is_some();
    proof {
        lemma_char_index_contains(t@, '=');
        lemma_char_index_contains(t@, ' ');
    }
    if !(has_eq || has_space) {
        return None;
    }
    match quoted_exec(t.as_slice(), '"') {
        Some(v) => Some(v),
        None => quoted_exec(t.as_slice(), '\''),
    }
}

proof fn lemma_char_index_contains(s: Seq<char>, c: char)
    ensures
        (char_index(s, c) >= 0) == s.contains(c),
        char_index(s, c) < s.len(),
        char_index(s, c) >= 0 ==> s[char_index(s, c)] == c,
    decreases s.len(),
{
    if s.len() > 0 {
        lemma_char_index_contains(s.drop_first(), c);
        if s[0] != c {
            if s.contains(c) {
                let k = choose|k: int| 0 <= k < s.len() && s[k] == c;
                assert(s.drop_first()[k - 1] == c);
            }
            if s.drop_first().contains(c) {
                let k = choose|k: int| 0 <= k < s.drop_first().len() && s.drop_first()[k] == c;
                assert(s[k + 1] == c);
            }
        }
    }
}

/// The package that a Gradle build script declares, if any line declares one.
pub fn package_from_gradle(content: &str) -> (r: Option<String>)
    ensures
        opt_view(r) == first_declared(lines(content@)),
{
    let chars = to_chars(content);
    let ls = split_lines(chars.as_slice());
    let ghost all = lines(content@);
    let n = ls.len();
    let mut i: usize = 0;
    assert(all.skip(0) =~= all);
    while i < n
        invariant
            i <= n,
            n == ls@.len(),
            all == lines(content@),
            all.len() == n,
            forall|j: int| 0 <= j < n ==> #[trigger] ls@[j]@ == all[j],
            first_declared(all) == first_declared(all.skip(i as int)),
        decreases n - i,
    {
        let ghost rest = all.skip(i as int);
        assert(rest[0] == all[i as int]);
        assert(rest.drop_first() =~= all.skip(i + 1));
        match line_package(ls[i].as_slice()) {
            Some(v) => {
                return Some(string_from_chars(v.as_slice()));
            },
            None => {},
        }
        i = i + 1;
    }
    None
}

fn find_substring(s: &[char], p: &[char]) -> (r: Option<usize>)
    ensures
        match r {
            Some(k) => k == substring_index(s@, p@) && k + p@.len() <= s@.len(),
            None => substring_index(s@, p@) == -1,
        },
{
    let n = s.len();
    let m = p.len();
    let mut i: usize = 0;
    assert(s@.skip(0) =~= s@);
    while i < n
        invariant
            i <= n,
            n == s@.len(),
            m == p@.len(),
            substring_index(s@, p@) == if substring_index(s@.skip(i as int), p@) < 0 {
                -1
            } else {
                substring_index(s@.skip(i as int), p@) + i
            },
        decreases n - i,
    {
        let ghost rest = s@.skip(i as int);
        let hit = if m <= n - i {
            matches_at(s, p, i)
        } else {
            false
        };
        proof {
            if m <= n - i {
                assert(s@.subrange(i as int, i + m) =~= rest.take(m as int));
            }
        }
        if hit {
            return Some(i);
        }
        assert(rest.drop_first() =~= s@.skip(i + 1));
        i = i + 1;
    }
    let ghost rest = s@.skip(n as int);
    assert(rest.len() == 0);
    if m == 0 {
        assert(rest.take(0) =~= p@);
        return Some(n);
    }
    None
}

/// The package named by an Android manifest, if it names one.
pub fn package_from_manifest(content: &str) -> (r: Option<String>)
    ensures
        opt_view(r) == manifest_package(content@),
{
    let chars = to_chars(content);
    let attr = to_chars("package=\"");
    match find_substring(chars.as_slice(), attr.as_slice()) {
        None => None,
        Some(k) => {
            let cl = chars.len();
            let al = attr.len();
            assert(k + al <= cl);
            let rest = slice_chars(chars.as_slice(), k + al, cl);
            assert(rest@ =~= content@.skip(k + attr@.len()));
            proof {
                lemma_char_index_skip0(rest@, '"');
            }
            match find_char(rest.as_slice(), '"') {
                None => None,
                Some(e) => {
                    let v = slice_chars(rest.as_slice(), 0, e);
                    assert(v@ =~= rest@.take(e as int));
                    if v.len() > 0 {
                        Some(string_from_chars(v.as_slice()))
                    } else {
                        None
                    }
                },
            }
        },
    }
}

// ---------------------------------------------------------------------------
// Installed package details
// ---------------------------------------------------------------------------

/// `s` with every leading repetition of `p` removed (`str::trim_start_matches`).
pub open spec fn strip_all(s: Seq<char>, p: Seq<char>) -> Seq<char>
    decreases s.len(),
{
    if p.len() > 0 && has_prefix(s, p) {
        strip_all(s.skip(p.len() as int), p)
    } else {
        s
    }
}

/// The first line (trimmed) that starts with `tag`.
pub open spec fn first_tagged_line(ls: Seq<Seq<char>>, tag: Seq<char>) -> Option<Seq<char>>
    decreases ls.len(),
{
    if ls.len() == 0 {
        None
    } else if has_prefix(trim(ls[0]), tag) {
        Some(trim(ls[0]))
    } else {
        first_tagged_line(ls.drop_first(), tag)
    }
}

/// The first word of `t`, or `t` itself when it has none.
pub open spec fn first_word(t: Seq<char>) -> Seq<char> {
    if words(t).len() > 0 {
        words(t)[0]
    } else {
        t
    }
}

/// Version name, version code and last update time that `dumpsys package`
/// prints: each from the first line that carries it.
pub open spec fn package_info(text: Seq<char>) -> (
    Option<Seq<char>>,
    Option<Seq<char>>,
    Option<Seq<char>>,
) {
    let ls = lines(text);
    (
        match first_tagged_line(ls, "versionName="@) {
            Some(t) => Some(strip_all(t, "versionName="@)),
            None => None,
        },
        match first_tagged_line(ls, "versionCode="@) {
            Some(t) => Some(strip_all(first_word(t), "versionCode="@)),
            None => None,
        },
        match first_tagged_line(ls, "lastUpdateTime="@) {
            Some(t) => Some(strip_all(t, "lastUpdateTime="@)),
            None => None,
        },
    )
}

fn strip_all_exec(s: &[char], p: &[char]) -> (r: Vec<char>)
    ensures
        r@ == strip_all(s@, p@),
{
    let mut cur = slice_chars(s, 0, s.len());
    assert(cur@ =~= s@);
    if p.len() == 0 {
        return cur;
    }
    while starts_with(cur.as_slice(), p)
        invariant
            p@.len() > 0,
            strip_all(s@, p@) == strip_all(cur@, p@),
        decreases cur@.len(),
    {
        let next = slice_chars(cur.as_slice(), p.len(), cur.len());
        assert(next@ =~= cur@.skip(p@.len() as int));
        cur = next;
    }
    cur
}

fn first_tagged(ls: &Vec<Vec<char>>, tag: &[char]) -> (r: Option<Vec<char>>)
    ensures
        (match r {
            Some(v) => Some(v@),
            None => None,
        }) == first_tagged_line(ls@.map_values(|l: Vec<char>| l@), tag@),
{
    let ghost all = ls@.map_values(|l: Vec<char>| l@);
    let n = ls.len();
    let mut i: usize = 0;
    assert(all.skip(0) =~= all);
    while i < n
        invariant
            i <= n,
            n == ls@.len(),
            all == ls@.map_values(|l: Vec<char>| l@),
            first_tagged_line(all, tag@) == first_tagged_line(all.skip(i as int), tag@),
        decreases n - i,
    {
        let ghost rest = all.skip(i as int);
        assert(rest[0] == ls@[i as int]@);
        assert(rest.drop_first() =~= all.skip(i + 1));
        let (a, b) = trim_bounds(ls[i].as_slice());
        let t = slice_chars(ls[i].as_slice(), a, b);
        if starts_with(t.as_slice(), tag) {
            return Some(t);
        }
        i = i + 1;
    }
    None
}

fn opt_chars_to_string(v: Option<Vec<char>>) -> (r: Option<String>)
    ensures
        opt_view(r) == (match v {
            Some(w) => Some(w@),
            None => None,
        }),
{
    match v {
        Some(w) => Some(string_from_chars(w.as_slice())),
        None => None,
    }
}

/// Reads version name, version code and last update time out of the output
/// of `dumpsys package <package>`.
pub fn parse_package_info(text: &str) -> (r: (Option<String>, Option<String>, Option<String>))
    ensures
        (opt_view(r.0), opt_view(r.1), opt_view(r.2)) == package_info(text@),
{
    let chars = to_chars(text);
    let ls = split_lines(chars.as_slice());
    proof {
        assert(ls@.map_values(|l: Vec<char>| l@) =~= lines(text@));
    }
    let name_tag = to_chars("versionName=");
    let code_tag = to_chars("versionCode=");
    let time_tag = to_chars("lastUpdateTime=");
    let name = match first_tagged(&ls, name_tag.as_slice()) {
        Some(t) => Some(strip_all_exec(t.as_slice(), name_tag.as_slice())),
        None => None,
    };
    let code = match first_tagged(&ls, code_tag.as_slice()) {
        Some(t) => {
            let ws = split_words(t.as_slice());
            if ws.len() > 0 {
                Some(strip_all_exec(ws[0].as_slice(), code_tag.as_slice()))
            } else {
                Some(strip_all_exec(t.as_slice(), code_tag.as_slice()))
            }
        },
        None => None,
    };
    let time = match first_tagged(&ls, time_tag.as_slice()) {
        Some(t) => Some(strip_all_exec(t.as_slice(), time_tag.as_slice())),
        None => None,
    };
    (opt_chars_to_string(name), opt_chars_to_string(code), opt_chars_to_string(time))
}

// ---------------------------------------------------------------------------
// Process ids
// ---------------------------------------------------------------------------

pub open spec fn is_digit(c: char) -> bool {
    48 <= c as u32 <= 57
}

pub open spec fn all_digits(d: Seq<char>) -> bool {
    forall|i: int| 0 <= i < d.len() ==> is_digit(#[trigger] d[i])
}

/// The number that a string of decimal digits denotes.
pub open spec fn digits_value(d: Seq<char>) -> int
    decreases d.len(),
{
    if d.len() == 0 {
        0
    } else {
        digits_value(d.drop_last()) * 10 + (d.last() as u32 - 48)
    }
}

/// What `str::parse::<u32>` accepts: an optional `+` and at least one
/// decimal digit, denoting a value that fits in 32 bits.
pub open spec fn parse_u32(s: Seq<char>) -> Option<u32> {
    let d = if s.len() > 0 && s[0] == '+' {
        s.drop_first()
    } else {
        s
    };
    if d.len() > 0 && all_digits(d) && digits_value(d) <= u32::MAX {
        Some(digits_value(d) as u32)
    } else {
        None
    }
}

/// The process id that `pidof` printed: its first word, as a number.
pub open spec fn pid_from_output(text: Seq<char>) -> Option<u32> {
    if words(text).len() > 0 {
        parse_u32(words(text)[0])
    } else {
        None
    }
}

proof fn lemma_digits_value_nonneg(d: Seq<char>)
    requires
        forall|i: int| 0 <= i < d.len() ==> is_digit(#[trigger] d[i]),
    ensures
        digits_value(d) >= 0,
    decreases d.len(),
{
    if d.len() > 0 {
        assert forall|i: int| 0 <= i < d.len() - 1 implies is_digit(#[trigger] d.drop_last()[i]) by {
            assert(d.drop_last()[i] == d[i]);
        }
        lemma_digits_value_nonneg(d.drop_last());
        assert(is_digit(d[d.len() - 1]));
    }
}

/// Parses a number the way `str::parse::<u32>` does.
pub fn parse_u32_exec(s: &[char]) -> (r: Option<u32>)
    ensures
        r == parse_u32(s@),
{
    let n = s.len();
    let start: usize = if n > 0 && s[0] == '+' {
        1
    } else {
        0
    };
    let ghost d = if s@.len() > 0 && s@[0] == '+' {
        s@.drop_first()
    } else {
        s@
    };
    assert(d =~= s@.skip(start as int));
    if start == n {
        return None;
    }
    let limit: u64 = 0xFFFF_FFFF;
    let mut acc: u64 = 0;
    let mut i = start;
    while i < n
        invariant
            start <= i <= n,
            n == s@.len(),
            d == s@.skip(start as int),
            d == (if s@.len() > 0 && s@[0] == '+' {
                s@.drop_first()
            } else {
                s@
            }),
            limit == u32::MAX,
            forall|k: int| 0 <= k < i - start ==> is_digit(#[trigger] d[k]),
            acc == if digits_value(d.take(i - start)) <= limit {
                digits_value(d.take(i - start))
            } else {
                limit + 1
            },
        decreases n - i,
    {
        let c = s[i];
        let u = c as u32;
        let ghost t = d.take(i + 1 - start);
        proof {
            assert(t.drop_last() =~= d.take(i - start));
            assert(t.last() == c);
            assert(d[i - start] == c);
        }
        if u < 48 || u > 57 {
            proof {
                assert(u == c as u32);
                assert(!is_digit(c));
                assert(!is_digit(d[i - start]));
                assert(!all_digits(d));
            }
            return None;
        }
        proof {
            lemma_digits_value_nonneg(d.take(i - start));
            assert forall|k: int| 0 <= k < t.len() implies is_digit(#[trigger] t[k]) by {
                assert(t[k] == d[k]);
            }
            lemma_digits_value_nonneg(t);
        }
        let digit = (u - 48) as u64;
        if acc > limit {
            acc = limit + 1;
        } else {
            let next = acc * 10 + digit;
            acc = if next > limit {
                limit + 1
            } else {
                next
            };
        }
        i = i + 1;
    }
    assert(d.take(n - start) =~= d);
    if acc > limit {
        None
    } else {
        Some(acc as u32)
    }
}

/// The process id printed by `pidof <package>`.
pub fn parse_pid_output(text: &str) -> (r: Option<u32>)
    ensures
        r == pid_from_output(text@),
{
    let chars = to_chars(text);
    let ws = split_words(chars.as_slice());
    if ws.len() > 0 {
        parse_u32_exec(ws[0].as_slice())
    } else {
        None
    }
}

// ---------------------------------------------------------------------------
// Launching
// ---------------------------------------------------------------------------

/// The activity component that a line of `cmd package resolve-activity
/// --brief` names: a line with a `/` that is not a `priority=` line; a
/// leading `/` is completed with the package.
pub open spec fn launch_component(package: Seq<char>, line: Seq<char>) -> Option<Seq<char>> {
    let t = trim(line);
    if t.contains('/') && !has_prefix(t, "priority="@) {
        Some(
            if t[0] == '/' {
                package + t
            } else {
                t
            },
        )
    } else {
        None
    }
}

/// The components of the lines, in order.
pub open spec fn components_of(package: Seq<char>, ls: Seq<Seq<char>>) -> Seq<Seq<char>>
    decreases ls.len(),
{
    if ls.len() == 0 {
        seq![]
    } else {
        let rest = components_of(package, ls.drop_last());
        match launch_component(package, ls.last()) {
            Some(c) => rest.push(c),
            None => rest,
        }
    }
}

/// The activity components to try, in order, when starting `package`.
pub fn launch_components(package: &str, resolve_output: &str) -> (r: Vec<String>)
    ensures
        r@.map_values(|s: String| s@) == components_of(package@, lines(resolve_output@)),
{
    let chars = to_chars(resolve_output);
    let ls = split_lines(chars.as_slice());
    let ghost all = lines(resolve_output@);
    let priority = to_chars("priority=");
    let mut r: Vec<String> = Vec::new();
    let n = ls.len();
    let mut i: usize = 0;
    while i < n
        invariant
            i <= n,
            n == ls@.len(),
            all == lines(resolve_output@),
            priority@ == "priority="@,
            all.len() == n,
            forall|j: int| 0 <= j < n ==> #[trigger] ls@[j]@ == all[j],
            r@.map_values(|s: String| s@) == components_of(package@, all.take(i as int)),
        decreases n - i,
    {
        proof {
            let t = all.take(i + 1);
            assert(t.drop_last() =~= all.take(i as int));
            assert(t.last() == all[i as int]);
        }
        let (a, b) = trim_bounds(ls[i].as_slice());
        let t = slice_chars(ls[i].as_slice(), a, b);
        assert(t@ == trim(all[i as int]));
        let has_slash = find_char(t.as_slice(), '/').is_some();
        proof {
            lemma_char_index_contains(t@, '/');
        }
        let pre = starts_with(t.as_slice(), priority.as_slice());
        assert(has_slash == t@.contains('/'));
        assert(pre == has_prefix(t@, "priority="@));
        let keep = has_slash && !pre;
        assert(keep == (launch_component(package@, all[i as int]) is Some));
        if keep {
            let ghost before = r@;
            let line = string_from_chars(t.as_slice());
            if t[0] == '/' {
                let c = package.to_owned().concat(line.as_str());
                r.push(c);
            } else {
                r.push(line);
            }
            assert(r@.map_values(|s: String| s@) =~= before.map_values(|s: String| s@).push(
                r@.last()@,
            ));
            assert(Some(r@.last()@) == launch_component(package@, all[i as int]));
        }
        i = i + 1;
    }
    assert(all.take(n as int) =~= all);
    r
}

// ---------------------------------------------------------------------------
// Messages
// ---------------------------------------------------------------------------

/// How an installed version is described.
pub open spec fn version_summary_of(
    name: Option<Seq<char>>,
    code: Option<Seq<char>>,
    time: Option<Seq<char>>,
) -> Seq<char> {
    match (name, code, time) {
        (Some(v), Some(c), Some(t)) => "v"@ + v + " (code "@ + c + ") updated at "@ + t,
        (Some(v), Some(c), None) => "v"@ + v + " (code "@ + c + ")"@,
        _ => "installed"@,
    }
}

pub fn version_summary(
    name: &Option<String>,
    code: &Option<String>,
    time: &Option<String>,
) -> (s: String)
    ensures
        s@ == version_summary_of(opt_view(*name), opt_view(*code), opt_view(*time)),
{
    match (name, code, time) {
        (Some(v), Some(c), Some(t)) => "v".to_owned().concat(v.as_str()).concat(" (code ").concat(
            c.as_str(),
        ).concat(") updated at ").concat(t.as_str()),
        (Some(v), Some(c), None) => "v".to_owned().concat(v.as_str()).concat(" (code ").concat(
            c.as_str(),
        ).concat(")"),
        _ => "installed".to_owned(),
    }
}

/// The message that closes a successful deployment.
pub open spec fn deploy_message_of(
    serial: Seq<char>,
    package: Option<Seq<char>>,
    version_name: Option<Seq<char>>,
) -> Seq<char> {
    match package {
        Some(p) => "Successfully deployed and launched '"@ + p + "' (version: "@ + (match version_name {
            Some(v) => v,
            None => "latest"@,
        }) + ") on '"@ + serial + "'."@,
        None => "Successfully deployed debug APK to target '"@ + serial + "'."@,
    }
}

pub fn deploy_message(serial: &str, package: &Option<String>, version_name: &Option<String>) -> (s:
    String)
    ensures
        s@ == deploy_message_of(serial@, opt_view(*package), opt_view(*version_name)),
{
    match package {
        Some(p) => {
            let v = match version_name {
                Some(v) => v.clone(),
                None => "latest".to_owned(),
            };
            "Successfully deployed and launched '".to_owned().concat(p.as_str()).concat(
                "' (version: ",
            ).concat(v.as_str()).concat(") on '").concat(serial).concat("'.")
        },
        None => "Successfully deployed debug APK to target '".to_owned().concat(serial).concat(
            "'.",
        ),
    }
}

// ---------------------------------------------------------------------------
// Package detection over the project's files
// ---------------------------------------------------------------------------

pub open spec fn opt_views(v: Seq<Option<String>>) -> Seq<Option<Seq<char>>> {
    v.map_values(|o: Option<String>| opt_view(o))
}

/// The package that the first readable build script declaring one declares.
pub open spec fn first_gradle_package(files: Seq<Option<Seq<char>>>) -> Option<Seq<char>>
    decreases files.len(),
{
    if files.len() == 0 {
        None
    } else {
        match (match files[0] {
            Some(c) => first_declared(lines(c)),
            None => None,
        }) {
            Some(p) => Some(p),
            None => first_gradle_package(files.drop_first()),
        }
    }
}

/// The package that the first readable manifest naming one names.
pub open spec fn first_manifest_package(files: Seq<Option<Seq<char>>>) -> Option<Seq<char>>
    decreases files.len(),
{
    if files.len() == 0 {
        None
    } else {
        match (match files[0] {
            Some(c) => manifest_package(c),
            None => None,
        }) {
            Some(p) => Some(p),
            None => first_manifest_package(files.drop_first()),
        }
    }
}

/// The package of the project: build scripts are asked first, manifests after.
pub open spec fn detected_package(
    gradle_files: Seq<Option<Seq<char>>>,
    manifest_files: Seq<Option<Seq<char>>>,
) -> Option<Seq<char>> {
    match first_gradle_package(gradle_files) {
        Some(p) => Some(p),
        None => first_manifest_package(manifest_files),
    }
}

/// Detects the package name from the contents of the build scripts and then
/// of the manifests, each list in the order in which the files are looked
/// at (`None` for a file that could not be read).
pub fn detect_package_name(
    gradle_files: &Vec<Option<String>>,
    manifest_files: &Vec<Option<String>>,
) -> (r: Option<String>)
    ensures
        opt_view(r) == detected_package(opt_views(gradle_files@), opt_views(manifest_files@)),
{
    let ghost g = opt_views(gradle_files@);
    let n = gradle_files.len();
    let mut i: usize = 0;
    assert(g.skip(0) =~= g);
    while i < n
        invariant
            i <= n,
            n == gradle_files@.len(),
            g == opt_views(gradle_files@),
            first_gradle_package(g) == first_gradle_package(g.skip(i as int)),
        decreases n - i,
    {
        assert(g.skip(i as int).drop_first() =~= g.skip(i + 1));
        assert(g.skip(i as int)[0] == opt_view(gradle_files@[i as int]));
        match &gradle_files[i] {
            Some(c) => {
                let found = package_from_gradle(c.as_str());
                if found.is_some() {
                    return found;
                }
            },
            None => {},
        }
        i = i + 1;
    }
    assert(g.skip(n as int) =~= Seq::<Option<Seq<char>>>::empty());
    let ghost m = opt_views(manifest_files@);
    let k = manifest_files.len();
    let mut j: usize = 0;
    assert(m.skip(0) =~= m);
    while j < k
        invariant
            j <= k,
            k == manifest_files@.len(),
            m == opt_views(manifest_files@),
            first_gradle_package(g) is None,
            g == opt_views(gradle_files@),
            first_manifest_package(m) == first_manifest_package(m.skip(j as int)),
        decreases k - j,
    {
        assert(m.skip(j as int).drop_first() =~= m.skip(j + 1));
        assert(m.skip(j as int)[0] == opt_view(manifest_files@[j as int]));
        match &manifest_files[j] {
            Some(c) => {
                let found = package_from_manifest(c.as_str());
                if found.is_some() {
                    return found;
                }
            },
            None => {},
        }
        j = j + 1;
    }
    assert(m.skip(k as int) =~= Seq::<Option<Seq<char>>>::empty());
    None
}

// ---------------------------------------------------------------------------
// Starting an installed app
// ---------------------------------------------------------------------------

/// Where an attempt to start an app stands.
#[derive(Debug, Clone, Copy, PartialEq, Eq, Structural)]
pub enum LaunchPhase {
    /// The launcher activity is being resolved.
    Resolving,
    /// The component at `next` is being started.
    Starting,
    /// No component could be started: `monkey` is tried.
    Monkey,
    Done,
}

/// What the outside work of a launch reports back.
#[derive(Debug, Clone, PartialEq, Eq)]
pub enum LaunchEvent {
    /// The output of `cmd package resolve-activity --brief` (empty when the
    /// command could not run).
    Resolved { output: String },
    /// Whether `am start` of the component succeeded.
    StartFinished { success: bool },
    /// `monkey` could not be run.
    MonkeyFailed { error: String },
    /// `monkey` ran, with its error output.
    MonkeyFinished { success: bool, stderr: String },
}

/// The outside work that a launch asks for next.
#[derive(Debug, Clone, PartialEq, Eq)]
pub enum LaunchAction {
    Resolve,
    /// `am start` of this component as a launcher activity.
    StartActivity(String),
    /// `monkey` with the launcher category.
    Monkey,
    /// The outcome is in `result`.
    Finish,
}

pub enum LaunchActionView {
    Resolve,
    StartActivity(Seq<char>),
    Monkey,
    Finish,
}

impl View for LaunchAction {
    type V = LaunchActionView;

    open spec fn view(&self) -> LaunchActionView {
        match self {
            LaunchAction::Resolve => LaunchActionView::Resolve,
            LaunchAction::StartActivity(c) => LaunchActionView::StartActivity(c@),
            LaunchAction::Monkey => LaunchActionView::Monkey,
            LaunchAction::Finish => LaunchActionView::Finish,
        }
    }
}

/// An attempt to start `package` on the device `serial`: the launcher
/// components are tried in turn, then `monkey`.
pub struct LaunchRun {
    pub serial: String,
    pub package: String,
    pub components: Vec<String>,
    pub next: usize,
    pub phase: LaunchPhase,
    /// The message of the outcome, once done.
    pub result: Option<Result<String, String>>,
}

pub struct LaunchView {
    pub serial: Seq<char>,
    pub package: Seq<char>,
    pub components: Seq<Seq<char>>,
    pub next: int,
    pub phase: LaunchPhase,
    pub result: Option<Result<Seq<char>, Seq<char>>>,
}

pub open spec fn result_view(r: Option<Result<String, String>>) -> Option<Result<Seq<char>, Seq<char>>> {
    match r {
        Some(Ok(m)) => Some(Ok(m@)),
        Some(Err(m)) => Some(Err(m@)),
        None => None,
    }
}

impl View for LaunchRun {
    type V = LaunchView;

    open spec fn view(&self) -> LaunchView {
        LaunchView {
            serial: self.serial@,
            package: self.package@,
            components: self.components@.map_values(|c: String| c@),
            next: self.next as int,
            phase: self.phase,
            result: result_view(self.result),
        }
    }
}

/// The message of a successful launch.
pub open spec fn launched_message(package: Seq<char>, serial: Seq<char>) -> Seq<char> {
    "Launched '"@ + package + "' on '"@ + serial + "'"@
}

impl LaunchView {
    /// A component is being tried only while there is one, and a finished
    /// attempt has its outcome.
    pub open spec fn wf(self) -> bool {
        &&& self.phase == LaunchPhase::Starting ==> 0 <= self.next < self.components.len()
        &&& self.phase == LaunchPhase::Done ==> self.result is Some
    }

    /// What the attempt waits for in its phase.
    pub open spec fn awaited(self) -> LaunchActionView {
        match self.phase {
            LaunchPhase::Resolving => LaunchActionView::Resolve,
            LaunchPhase::Starting => LaunchActionView::StartActivity(self.components[self.next]),
            LaunchPhase::Monkey => LaunchActionView::Monkey,
            LaunchPhase::Done => LaunchActionView::Finish,
        }
    }

    pub open spec fn done_with(self, result: Result<Seq<char>, Seq<char>>) -> LaunchView {
        LaunchView { phase: LaunchPhase::Done, result: Some(result), ..self }
    }

    /// One step of the attempt; an event that the phase does not wait for
    /// changes nothing.
    pub open spec fn step(self, e: LaunchEvent) -> (LaunchView, LaunchActionView) {
        match (self.phase, e) {
            (LaunchPhase::Resolving, LaunchEvent::Resolved { output }) => {
                let comps = components_of(self.package, lines(output@));
                if comps.len() > 0 {
                    (
                        LaunchView { components: comps, next: 0, phase: LaunchPhase::Starting, ..self },
                        LaunchActionView::StartActivity(comps[0]),
                    )
                } else {
                    (
                        LaunchView { components: comps, next: 0, phase: LaunchPhase::Monkey, ..self },
                        LaunchActionView::Monkey,
                    )
                }
            },
            (LaunchPhase::Starting, LaunchEvent::StartFinished { success }) => if success {
                (
                    self.done_with(Ok(launched_message(self.package, self.serial))),
                    LaunchActionView::Finish,
                )
            } else if self.next < self.components.len() - 1 {
                (
                    LaunchView { next: self.next + 1, ..self },
                    LaunchActionView::StartActivity(self.components[self.next + 1]),
                )
            } else {
                (
                    LaunchView { next: self.next + 1, phase: LaunchPhase::Monkey, ..self },
                    LaunchActionView::Monkey,
                )
            },
            (LaunchPhase::Monkey, LaunchEvent::MonkeyFailed { error }) => (
                self.done_with(Err("Failed to launch app via monkey: "@ + error@)),
                LaunchActionView::Finish,
            ),
            (LaunchPhase::Monkey, LaunchEvent::MonkeyFinished { success, stderr }) => (
                self.done_with(
                    if success {
                        Ok(launched_message(self.package, self.serial))
                    } else {
                        Err("App launch failed: "@ + stderr@)
                    },
                ),
                LaunchActionView::Finish,
            ),
            _ => (self, self.awaited()),
        }
    }
}

fn launched_text(package: &String, serial: &String) -> (s: String)
    ensures
        s@ == launched_message(package@, serial@),
{
    "Launched '".to_owned().concat(package.as_str()).concat("' on '").concat(serial.as_str()).concat(
        "'",
    )
}

impl LaunchRun {
    /// An attempt that starts by resolving the launcher activity.
    pub fn new(serial: String, package: String) -> (r: Self)
        ensures
            r@ == (LaunchView {
                serial: serial@,
                package: package@,
                components: seq![],
                next: 0,
                phase: LaunchPhase::Resolving,
                result: None,
            }),
            r@.wf(),
    {
        let r = LaunchRun {
            serial,
            package,
            components: Vec::new(),
            next: 0,
            phase: LaunchPhase::Resolving,
            result: None,
        };
        assert(r@.components =~= Seq::<Seq<char>>::empty());
        r
    }

    /// Takes in what the last outside work reported and returns the next.
    pub fn step(&mut self, event: LaunchEvent) -> (a: LaunchAction)
        requires
            old(self)@.wf(),
        ensures
            (final(self)@, a@) == old(self)@.step(event),
            final(self)@.wf(),
    {
        match (self.phase, event) {
            (LaunchPhase::Resolving, LaunchEvent::Resolved { output }) => {
                self.components = launch_components(self.package.as_str(), output.as_str());
                self.next = 0;
                if self.components.len() > 0 {
                    self.phase = LaunchPhase::Starting;
                    LaunchAction::StartActivity(self.components[0].clone())
                } else {
                    self.phase = LaunchPhase::Monkey;
                    LaunchAction::Monkey
                }
            },
            (LaunchPhase::Starting, LaunchEvent::StartFinished { success }) => {
                assert(self.next < self.components@.len());
                if success {
                    self.result = Some(Ok(launched_text(&self.package, &self.serial)));
                    self.phase = LaunchPhase::Done;
                    LaunchAction::Finish
                } else if self.next < self.components.len() - 1 {
                    self.next = self.next + 1;
                    LaunchAction::StartActivity(self.components[self.next].clone())
                } else {
                    self.next = self.next + 1;
                    self.phase = LaunchPhase::Monkey;
                    LaunchAction::Monkey
                }
            },
            (LaunchPhase::Monkey, LaunchEvent::MonkeyFailed { error }) => {
                self.result = Some(
                    Err("Failed to launch app via monkey: ".to_owned().concat(error.as_str())),
                );
                self.phase = LaunchPhase::Done;
                LaunchAction::Finish
            },
            (LaunchPhase::Monkey, LaunchEvent::MonkeyFinished { success, stderr }) => {
                if success {
                    self.result = Some(Ok(launched_text(&self.package, &self.serial)));
                } else {
                    self.result = Some(
                        Err("App launch failed: ".to_owned().concat(stderr.as_str())),
                    );
                }
                self.phase = LaunchPhase::Done;
                LaunchAction::Finish
            },
            (p, _) => match p {
                LaunchPhase::Resolving => LaunchAction::Resolve,
                LaunchPhase::Starting => LaunchAction::StartActivity(
                    self.components[self.next].clone(),
                ),
                LaunchPhase::Monkey => LaunchAction::Monkey,
                LaunchPhase::Done => LaunchAction::Finish,
            },
        }
    }
}

// ---------------------------------------------------------------------------
// Building, installing and starting the debug APK
// ---------------------------------------------------------------------------

/// An integer written in decimal, with a `-` when negative.
pub open spec fn signed_decimal(i: int) -> Seq<char> {
    if i < 0 {
        seq!['-'] + decimal((-i) as nat)
    } else {
        decimal(i as nat)
    }
}

/// An exit code as `{:?}` writes an `Option<i32>`.
pub open spec fn exit_code_text(code: Option<i32>) -> Seq<char> {
    match code {
        Some(c) => "Some("@ + signed_decimal(c as int) + ")"@,
        None => "None"@,
    }
}

fn exit_code_string(code: Option<i32>) -> (s: String)
    ensures
        s@ == exit_code_text(code),
{
    match code {
        Some(c) => {
            let mut s = "Some(".to_owned();
            let magnitude: u32 = if c < 0 {
                if c == i32::MIN {
                    2147483648u32
                } else {
                    (-c) as u32
                }
            } else {
                c as u32
            };
            if c < 0 {
                push_char(&mut s, '-');
            }
            let digits = decimal_chars(magnitude);
            let d = string_from_chars(digits.as_slice());
            proof {
                if c < 0 {
                    assert(seq!['-'] + decimal((-(c as int)) as nat) =~= seq!['-'].add(d@));
                }
            }
            s.append(d.as_str());
            s.append(")");
            s
        },
        None => "None".to_owned(),
    }
}

/// Where a build-and-deploy run stands: what it waits for next.
#[derive(Debug, Clone, Copy, PartialEq, Eq, Structural)]
pub enum DeployPhase {
    CheckingWrapper,
    DetectingPackage,
    SpawningBuild,
    Building,
    Installing,
    QueryingInfo,
    Launching,
    Done,
}

/// What the outside work of a build-and-deploy run reports back.
#[derive(Debug)]
pub enum DeployEvent {
    WrapperChecked { exists: bool },
    PackageDetected { package: Option<String> },
    BuildSpawnFailed { error: String },
    BuildSpawned,
    /// A line that `assembleDebug` printed (these may come at any time).
    BuildOutput { line: String },
    BuildExited { success: bool, exit_code: Option<i32> },
    BuildWaitFailed { error: String },
    InstallFinished { success: bool, stderr: String },
    InstallFailed { error: String },
    InfoQueried {
        version_name: Option<String>,
        version_code: Option<String>,
        last_update: Option<String>,
    },
    /// The outcome of starting the app (see `LaunchRun`).
    LaunchFinished { result: Result<String, String> },
}

/// The outside work that a build-and-deploy run asks for next.
#[derive(Debug, Clone, Copy, PartialEq, Eq, Structural)]
pub enum DeployAction {
    CheckWrapper,
    /// Read the build scripts and manifests (see `detect_package_name`).
    DetectPackage,
    /// Start `./gradlew assembleDebug --console=plain`.
    SpawnBuild,
    /// Stream the build's output and wait for it to end.
    AwaitBuild,
    /// Run `./gradlew installDebug --console=plain` for the device.
    Install,
    /// Ask the device for the installed version of the package.
    QueryInfo,
    /// Start the package on the device (see `LaunchRun`).
    Launch,
    Finish,
}

/// A run that builds the debug APK, installs it on the device `serial` and
/// starts it there.
pub struct DeployRun {
    pub serial: String,
    pub package: Option<String>,
    pub version_name: Option<String>,
    pub version_code: Option<String>,
    pub phase: DeployPhase,
}

pub struct DeployView {
    pub serial: Seq<char>,
    pub package: Option<Seq<char>>,
    pub version_name: Option<Seq<char>>,
    pub version_code: Option<Seq<char>>,
    pub phase: DeployPhase,
}

impl View for DeployRun {
    type V = DeployView;

    open spec fn view(&self) -> DeployView {
        DeployView {
            serial: self.serial@,
            package: opt_view(self.package),
            version_name: opt_view(self.version_name),
            version_code: opt_view(self.version_code),
            phase: self.phase,
        }
    }
}

/// What a run waits for in a phase.
pub open spec fn deploy_awaited(phase: DeployPhase) -> DeployAction {
    match phase {
        DeployPhase::CheckingWrapper => DeployAction::CheckWrapper,
        DeployPhase::DetectingPackage => DeployAction::DetectPackage,
        DeployPhase::SpawningBuild => DeployAction::SpawnBuild,
        DeployPhase::Building => DeployAction::AwaitBuild,
        DeployPhase::Installing => DeployAction::Install,
        DeployPhase::QueryingInfo => DeployAction::QueryInfo,
        DeployPhase::Launching => DeployAction::Launch,
        DeployPhase::Done => DeployAction::Finish,
    }
}

pub open spec fn finished_event(action: Seq<char>, success: bool, message: Seq<char>) -> EventView {
    EventView::ActionFinished { action, success, message }
}

/// How a line of build output shows in the activity log: trimmed, after a
/// `[gradle] ` tag; blank lines do not show.
pub open spec fn build_output_report(line: Seq<char>) -> Seq<EventView> {
    if trim(line).len() > 0 {
        seq![EventView::StatusLog("[gradle] "@ + trim(line))]
    } else {
        seq![]
    }
}

/// The events that close a successful deployment.
pub open spec fn deploy_success(v: DeployView) -> Seq<EventView> {
    seq![
        finished_event("Build & Deploy"@, true, deploy_message_of(v.serial, v.package, v.version_name)),
        EventView::ApkDeployed {
            serial: v.serial,
            package_name: v.package,
            version_name: v.version_name,
            version_code: v.version_code,
        },
    ]
}

impl DeployView {
    /// The package is known from the version query on.
    pub open spec fn wf(self) -> bool {
        (self.phase == DeployPhase::QueryingInfo || self.phase == DeployPhase::Launching)
            ==> self.package is Some
    }

    pub open spec fn at(self, phase: DeployPhase) -> DeployView {
        DeployView { phase, ..self }
    }

    /// One step of the run: the next state, the events for the application
    /// (in order) and the next outside work. Build output is reported in any
    /// phase; another event that the phase does not wait for changes nothing.
    pub open spec fn step(self, e: DeployEvent) -> (DeployView, Seq<EventView>, DeployAction) {
        let done = DeployPhase::Done;
        let finish = DeployAction::Finish;
        match (self.phase, e) {
            (_, DeployEvent::BuildOutput { line }) => (
                self,
                build_output_report(line@),
                deploy_awaited(self.phase),
            ),
            (DeployPhase::CheckingWrapper, DeployEvent::WrapperChecked { exists }) => if exists {
                (self.at(DeployPhase::DetectingPackage), seq![], DeployAction::DetectPackage)
            } else {
                (
                    self.at(done),
                    seq![
                        finished_event(
                            "Build & Deploy"@,
                            false,
                            "No ./gradlew found in current directory. Run from an Android project root."@,
                        ),
                    ],
                    finish,
                )
            },
            (DeployPhase::DetectingPackage, DeployEvent::PackageDetected { package }) => (
                DeployView { package: opt_view(package), phase: DeployPhase::SpawningBuild, ..self },
                seq![
                    EventView::ActionStarted(
                        "Building debug APK for target '"@ + self.serial + "'..."@,
                    ),
                ],
                DeployAction::SpawnBuild,
            ),
            (DeployPhase::SpawningBuild, DeployEvent::BuildSpawnFailed { error }) => (
                self.at(done),
                seq![
                    finished_event(
                        "assembleDebug"@,
                        false,
                        "Failed to spawn ./gradlew: "@ + error@,
                    ),
                ],
                finish,
            ),
            (DeployPhase::SpawningBuild, DeployEvent::BuildSpawned) => (
                self.at(DeployPhase::Building),
                seq![],
                DeployAction::AwaitBuild,
            ),
            (DeployPhase::Building, DeployEvent::BuildExited { success, exit_code }) => if success {
                (
                    self.at(DeployPhase::Installing),
                    seq![EventView::StatusLog("Gradle build succeeded. Installing on target..."@)],
                    DeployAction::Install,
                )
            } else {
                (
                    self.at(done),
                    seq![
                        finished_event(
                            "assembleDebug"@,
                            false,
                            "Gradle assembleDebug failed with exit code: "@ + exit_code_text(
                                exit_code,
                            ),
                        ),
                    ],
                    finish,
                )
            },
            (DeployPhase::Building, DeployEvent::BuildWaitFailed { error }) => (
                self.at(done),
                seq![
                    finished_event(
                        "assembleDebug"@,
                        false,
                        "Failed to run assembleDebug: "@ + error@,
                    ),
                ],
                finish,
            ),
            (DeployPhase::Installing, DeployEvent::InstallFinished { success, stderr }) => if success {
                match self.package {
                    Some(_) => (self.at(DeployPhase::QueryingInfo), seq![], DeployAction::QueryInfo),
                    None => (self.at(done), deploy_success(self), finish),
                }
            } else {
                (
                    self.at(done),
                    seq![finished_event("installDebug"@, false, "installDebug failed: "@ + stderr@)],
                    finish,
                )
            },
            (DeployPhase::Installing, DeployEvent::InstallFailed { error }) => (
                self.at(done),
                seq![
                    finished_event(
                        "installDebug"@,
                        false,
                        "Failed to execute installDebug: "@ + error@,
                    ),
                ],
                finish,
            ),
            (
                DeployPhase::QueryingInfo,
                DeployEvent::InfoQueried { version_name, version_code, last_update },
            ) => (
                DeployView {
                    version_name: opt_view(version_name),
                    version_code: opt_view(version_code),
                    phase: DeployPhase::Launching,
                    ..self
                },
                seq![
                    EventView::StatusLog(
                        "App '"@ + self.package.unwrap() + "' is updated on '"@ + self.serial
                            + "': "@ + version_summary_of(
                            opt_view(version_name),
                            opt_view(version_code),
                            opt_view(last_update),
                        ),
                    ),
                ],
                DeployAction::Launch,
            ),
            (DeployPhase::Launching, DeployEvent::LaunchFinished { result }) => (
                self.at(done),
                seq![
                    EventView::StatusLog(
                        match result {
                            Ok(m) => m@,
                            Err(m) => "Could not auto-launch app: "@ + m@,
                        },
                    ),
                ] + deploy_success(self),
                finish,
            ),
            _ => (self, seq![], deploy_awaited(self.phase)),
        }
    }
}

fn action_finished(action: &str, success: bool, message: String) -> (e: AppEvent)
    ensures
        e@ == finished_event(action@, success, message@),
{
    AppEvent::ActionFinished { action: action.to_owned(), success, message }
}

impl DeployRun {
    /// A run for the device `serial` that starts by checking for the wrapper.
    pub fn new(serial: String) -> (r: Self)
        ensures
            r@ == (DeployView {
                serial: serial@,
                package: None,
                version_name: None,
                version_code: None,
                phase: DeployPhase::CheckingWrapper,
            }),
    {
        DeployRun {
            serial,
            package: None,
            version_name: None,
            version_code: None,
            phase: DeployPhase::CheckingWrapper,
        }
    }

    fn success_events(&self, out: &mut Vec<AppEvent>)
        ensures
            event_views(final(out)@) == event_views(old(out)@) + deploy_success(self@),
    {
        let ghost before = out@;
        let msg = deploy_message(self.serial.as_str(), &self.package, &self.version_name);
        out.push(action_finished("Build & Deploy", true, msg));
        out.push(
            AppEvent::ApkDeployed {
                serial: self.serial.clone(),
                package_name: self.package.clone(),
                version_name: self.version_name.clone(),
                version_code: self.version_code.clone(),
            },
        );
        assert(event_views(out@) =~= event_views(before) + deploy_success(self@));
    }

    /// Takes in what the last outside work reported; returns the events to
    /// send to the application, in order, and the next outside work.
    pub fn step(&mut self, event: DeployEvent) -> (r: (Vec<AppEvent>, DeployAction))
        requires
            old(self)@.wf(),
        ensures
            (final(self)@, event_views(r.0@), r.1) == old(self)@.step(event),
            final(self)@.wf(),
    {
        let ghost v = self@;
        let mut out: Vec<AppEvent> = Vec::new();
        let action = match (self.phase, event) {
            (_, DeployEvent::BuildOutput { line }) => {
                let chars = to_chars(line.as_str());
                let (a, b) = trim_bounds(chars.as_slice());
                if a < b {
                    let t = slice_chars(chars.as_slice(), a, b);
                    let ts = string_from_chars(t.as_slice());
                    out.push(AppEvent::StatusLog("[gradle] ".to_owned().concat(ts.as_str())));
                }
                match self.phase {
                    DeployPhase::CheckingWrapper => DeployAction::CheckWrapper,
                    DeployPhase::DetectingPackage => DeployAction::DetectPackage,
                    DeployPhase::SpawningBuild => DeployAction::SpawnBuild,
                    DeployPhase::Building => DeployAction::AwaitBuild,
                    DeployPhase::Installing => DeployAction::Install,
                    DeployPhase::QueryingInfo => DeployAction::QueryInfo,
                    DeployPhase::Launching => DeployAction::Launch,
                    DeployPhase::Done => DeployAction::Finish,
                }
            },
            (DeployPhase::CheckingWrapper, DeployEvent::WrapperChecked { exists }) => {
                if exists {
                    self.phase = DeployPhase::DetectingPackage;
                    DeployAction::DetectPackage
                } else {
                    out.push(
                        action_finished(
                            "Build & Deploy",
                            false,
                            "No ./gradlew found in current directory. Run from an Android project root.".to_owned(),
                        ),
                    );
                    self.phase = DeployPhase::Done;
                    DeployAction::Finish
                }
            },
            (DeployPhase::DetectingPackage, DeployEvent::PackageDetected { package }) => {
                self.package = package;
                out.push(
                    AppEvent::ActionStarted(
                        "Building debug APK for target '".to_owned().concat(
                            self.serial.as_str(),
                        ).concat("'..."),
                    ),
                );
                self.phase = DeployPhase::SpawningBuild;
                DeployAction::SpawnBuild
            },
            (DeployPhase::SpawningBuild, DeployEvent::BuildSpawnFailed { error }) => {
                out.push(
                    action_finished(
                        "assembleDebug",
                        false,
                        "Failed to spawn ./gradlew: ".to_owned().concat(error.as_str()),
                    ),
                );
                self.phase = DeployPhase::Done;
                DeployAction::Finish
            },
            (DeployPhase::SpawningBuild, DeployEvent::BuildSpawned) => {
                self.phase = DeployPhase::Building;
                DeployAction::AwaitBuild
            },
            (DeployPhase::Building, DeployEvent::BuildExited { success, exit_code }) => {
                if success {
                    out.push(
                        AppEvent::StatusLog(
                            "Gradle build succeeded. Installing on target...".to_owned(),
                        ),
                    );
                    self.phase = DeployPhase::Installing;
                    DeployAction::Install
                } else {
                    let code = exit_code_string(exit_code);
                    out.push(
                        action_finished(
                            "assembleDebug",
                            false,
                            "Gradle assembleDebug failed with exit code: ".to_owned().concat(
                                code.as_str(),
                            ),
                        ),
                    );
                    self.phase = DeployPhase::Done;
                    DeployAction::Finish
                }
            },
            (DeployPhase::Building, DeployEvent::BuildWaitFailed { error }) => {
                out.push(
                    action_finished(
                        "assembleDebug",
                        false,
                        "Failed to run assembleDebug: ".to_owned().concat(error.as_str()),
                    ),
                );
                self.phase = DeployPhase::Done;
                DeployAction::Finish
            },
            (DeployPhase::Installing, DeployEvent::InstallFinished { success, stderr }) => {
                if success {
                    if self.package.is_some() {
                        self.phase = DeployPhase::QueryingInfo;
                        DeployAction::QueryInfo
                    } else {
                        self.success_events(&mut out);
                        self.phase = DeployPhase::Done;
                        DeployAction::Finish
                    }
                } else {
                    out.push(
                        action_finished(
                            "installDebug",
                            false,
                            "installDebug failed: ".to_owned().concat(stderr.as_str()),
                        ),
                    );
                    self.phase = DeployPhase::Done;
                    DeployAction::Finish
                }
            },
            (DeployPhase::Installing, DeployEvent::InstallFailed { error }) => {
                out.push(
                    action_finished(
                        "installDebug",
                        false,
                        "Failed to execute installDebug: ".to_owned().concat(error.as_str()),
                    ),
                );
                self.phase = DeployPhase::Done;
                DeployAction::Finish
            },
            (
                DeployPhase::QueryingInfo,
                DeployEvent::InfoQueried { version_name, version_code, last_update },
            ) => {
                let summary = version_summary(&version_name, &version_code, &last_update);
                let pkg = match &self.package {
                    Some(p) => p.clone(),
                    None => String::new(),
                };
                out.push(
                    AppEvent::StatusLog(
                        "App '".to_owned().concat(pkg.as_str()).concat("' is updated on '").concat(
                            self.serial.as_str(),
                        ).concat("': ").concat(summary.as_str()),
                    ),
                );
                self.version_name = version_name;
                self.version_code = version_code;
                self.phase = DeployPhase::Launching;
                DeployAction::Launch
            },
            (DeployPhase::Launching, DeployEvent::LaunchFinished { result }) => {
                match result {
                    Ok(m) => out.push(AppEvent::StatusLog(m)),
                    Err(m) => out.push(
                        AppEvent::StatusLog("Could not auto-launch app: ".to_owned().concat(m.as_str())),
                    ),
                }
                self.success_events(&mut out);
                self.phase = DeployPhase::Done;
                DeployAction::Finish
            },
            (p, _) => match p {
                DeployPhase::CheckingWrapper => DeployAction::CheckWrapper,
                DeployPhase::DetectingPackage => DeployAction::DetectPackage,
                DeployPhase::SpawningBuild => DeployAction::SpawnBuild,
                DeployPhase::Building => DeployAction::AwaitBuild,
                DeployPhase::Installing => DeployAction::Install,
                DeployPhase::QueryingInfo => DeployAction::QueryInfo,
                DeployPhase::Launching => DeployAction::Launch,
                DeployPhase::Done => DeployAction::Finish,
            },
        };
        proof {
            assert(event_views(out@) =~= v.step(event).1);
        }
        (out, action)
    }
}

// ---------------------------------------------------------------------------
// Choosing aapt among the SDK's build tools
// ---------------------------------------------------------------------------

/// `a` comes before `b` when names are compared character by character (a
/// name before every longer name that it begins).
pub open spec fn name_before(a: Seq<char>, b: Seq<char>) -> bool
    decreases a.len(),
{
    if a.len() == 0 {
        b.len() > 0
    } else if b.len() == 0 {
        false
    } else if a[0] != b[0] {
        (a[0] as int) < (b[0] as int)
    } else {
        name_before(a.drop_first(), b.drop_first())
    }
}

proof fn lemma_name_before_irreflexive(a: Seq<char>)
    ensures
        !name_before(a, a),
    decreases a.len(),
{
    if a.len() > 0 {
        lemma_name_before_irreflexive(a.drop_first());
    }
}

proof fn lemma_name_before_total(a: Seq<char>, b: Seq<char>)
    ensures
        a == b || name_before(a, b) || name_before(b, a),
    decreases a.len(),
{
    if a.len() > 0 && b.len() > 0 && a[0] == b[0] {
        lemma_name_before_total(a.drop_first(), b.drop_first());
        if a.drop_first() == b.drop_first() {
            assert(a =~= seq![a[0]] + a.drop_first());
            assert(b =~= seq![b[0]] + b.drop_first());
        }
    } else if a.len() > 0 && b.len() > 0 {
        assert((a[0] as int) != (b[0] as int));
    } else if a.len() == 0 && b.len() == 0 {
        assert(a =~= b);
    }
}

proof fn lemma_name_before_transitive(a: Seq<char>, b: Seq<char>, c: Seq<char>)
    requires
        name_before(a, b),
        name_before(b, c),
    ensures
        name_before(a, c),
    decreases a.len(),
{
    if a.len() > 0 && b.len() > 0 && c.len() > 0 && a[0] == b[0] && b[0] == c[0] {
        lemma_name_before_transitive(a.drop_first(), b.drop_first(), c.drop_first());
    }
}

/// A build-tools directory holds `aapt2` or `aapt`.
pub open spec fn has_aapt(d: (Seq<char>, bool, bool)) -> bool {
    d.1 || d.2
}

/// The `i`-th directory is the one whose tool is used: the newest (last by
/// name) of those holding a tool, the first listed among equal names.
pub open spec fn newest_with_aapt(ds: Seq<(Seq<char>, bool, bool)>, i: int) -> bool {
    &&& 0 <= i < ds.len()
    &&& has_aapt(ds[i])
    &&& forall|j: int| 0 <= j < ds.len() && has_aapt(#[trigger] ds[j]) ==> !name_before(ds[i].0, ds[j].0)
    &&& forall|j: int| 0 <= j < i && has_aapt(#[trigger] ds[j]) ==> name_before(ds[j].0, ds[i].0)
}

pub open spec fn tool_views(v: Seq<(String, bool, bool)>) -> Seq<(Seq<char>, bool, bool)> {
    v.map_values(|d: (String, bool, bool)| (d.0@, d.1, d.2))
}

/// Whether name `a` comes before name `b`.
fn names_before(a: &str, b: &str) -> (r: bool)
    ensures
        r == name_before(a@, b@),
{
    let x = to_chars(a);
    let y = to_chars(b);
    let mut k: usize = 0;
    assert(x@.skip(0) =~= x@);
    assert(y@.skip(0) =~= y@);
    loop
        invariant
            k <= x@.len(),
            k <= y@.len(),
            x@ == a@,
            y@ == b@,
            name_before(a@, b@) == name_before(x@.skip(k as int), y@.skip(k as int)),
        decreases x@.len() - k,
    {
        if k == x.len() {
            return k < y.len();
        }
        if k == y.len() {
            return false;
        }
        let c = x[k];
        let d = y[k];
        assert(x@.skip(k as int)[0] == c);
        assert(y@.skip(k as int)[0] == d);
        if c != d {
            return c < d;
        }
        assert(x@.skip(k as int).drop_first() =~= x@.skip(k + 1));
        assert(y@.skip(k as int).drop_first() =~= y@.skip(k + 1));
        k = k + 1;
    }
}

/// Picks the build-tools directory whose `aapt` is used, given each
/// directory's name and whether it holds `aapt2` and `aapt`: the directories
/// are tried from the newest name down, and the first one holding a tool
/// gives `aapt2`, else `aapt`. Returns its position and whether `aapt2` is
/// taken.
pub fn newest_aapt(dirs: &Vec<(String, bool, bool)>) -> (r: Option<(usize, bool)>)
    ensures
        match r {
            Some((i, two)) => newest_with_aapt(tool_views(dirs@), i as int) && two == dirs@[i as int].1,
            None => forall|j: int| 0 <= j < dirs@.len() ==> !has_aapt(#[trigger] tool_views(dirs@)[j]),
        },
{
    let ghost ds = tool_views(dirs@);
    let n = dirs.len();
    let mut best: Option<usize> = None;
    let mut i: usize = 0;
    while i < n
        invariant
            i <= n,
            n == dirs@.len(),
            ds == tool_views(dirs@),
            ds.len() == n,
            best is None ==> forall|j: int| 0 <= j < i ==> !has_aapt(#[trigger] ds[j]),
            best matches Some(b) ==> {
                &&& b < i
                &&& has_aapt(ds[b as int])
                &&& forall|j: int| 0 <= j < i && has_aapt(#[trigger] ds[j]) ==> !name_before(ds[b as int].0, ds[j].0)
                &&& forall|j: int| 0 <= j < b && has_aapt(#[trigger] ds[j]) ==> name_before(ds[j].0, ds[b as int].0)
            },
        decreases n - i,
    {
        let d = &dirs[i];
        assert(ds[i as int] == (d.0@, d.1, d.2));
        if d.1 || d.2 {
            proof {
                lemma_name_before_irreflexive(ds[i as int].0);
            }
            match best {
                None => {
                    best = Some(i);
                },
                Some(b) => {
                    assert(ds[b as int] == (dirs@[b as int].0@, dirs@[b as int].1, dirs@[b as int].2));
                    if names_before(dirs[b].0.as_str(), d.0.as_str()) {
                        proof {
                            let nb = ds[b as int].0;
                            let ni = ds[i as int].0;
                            assert forall|j: int| 0 <= j < i + 1 && has_aapt(#[trigger] ds[j]) implies !name_before(ni, ds[j].0) by {
                                if j < i && name_before(ni, ds[j].0) {
                                    lemma_name_before_transitive(nb, ni, ds[j].0);
                                }
                            }
                            assert forall|j: int| 0 <= j < i && has_aapt(#[trigger] ds[j]) implies name_before(ds[j].0, ni) by {
                                lemma_name_before_total(ds[j].0, nb);
                                if ds[j].0 != nb {
                                    lemma_name_before_transitive(ds[j].0, nb, ni);
                                }
                            }
                        }
                        best = Some(i);
                    }
                },
            }
        }
        i = i + 1;
    }
    match best {
        Some(b) => Some((b, dirs[b].1)),
        None => None,
    }
}

} // verus!

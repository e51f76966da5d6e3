//! Rendering a version through a module's `version_format`.
use vstd::prelude::*;
use crate::text::{chars_of, eq_at, find_char, find_char_from};

verus! {

/// The characters that may make up a variable's name.
pub open spec fn is_name_char(c: char) -> bool {
    ('a' <= c && c <= 'z') || ('A' <= c && c <= 'Z') || ('0' <= c && c <= '9') || c == '_'
}

/// The characters that a version format cannot hold outside a variable:
/// styled groups, conditional groups and escapes.
pub open spec fn is_group_char(c: char) -> bool {
    c == '[' || c == ']' || c == '(' || c == ')' || c == '\\'
}

/// The first index at or after `i` whose character cannot be part of a name.
pub open spec fn name_end_from(s: Seq<char>, i: int) -> int
    decreases s.len() - i,
{
    if i < 0 || i >= s.len() {
        s.len() as int
    } else if !is_name_char(s[i]) {
        i
    } else {
        name_end_from(s, i + 1)
    }
}

pub proof fn lemma_name_end_from(s: Seq<char>, i: int)
    requires
        0 <= i <= s.len(),
    ensures
        i <= name_end_from(s, i) <= s.len(),
        name_end_from(s, i) < s.len() ==> !is_name_char(s[name_end_from(s, i)]),
    decreases s.len() - i,
{
    if i < s.len() && is_name_char(s[i]) {
        lemma_name_end_from(s, i + 1);
    }
}

/// The `k`-th of the `.`-separated parts of `version` from index `i` on,
/// empty when there are not that many.
pub open spec fn version_part_from(version: Seq<char>, i: int, k: nat) -> Seq<char>
    decreases k,
{
    let e = find_char_from(version, '.', i);
    if k == 0 {
        version.subrange(i, e)
    } else if e >= version.len() {
        Seq::empty()
    } else {
        version_part_from(version, e + 1, (k - 1) as nat)
    }
}

/// What a variable of a version format stands for: `raw` is the whole
/// version, `major`, `minor` and `patch` its first three `.`-separated parts;
/// any other name stands for nothing.
pub open spec fn version_variable(name: Seq<char>, version: Seq<char>) -> Seq<char> {
    if name == "raw"@ {
        version
    } else if name == "major"@ {
        version_part_from(version, 0, 0)
    } else if name == "minor"@ {
        version_part_from(version, 0, 1)
    } else if name == "patch"@ {
        version_part_from(version, 0, 2)
    } else {
        Seq::empty()
    }
}

/// `fmt` from index `i` on, rendered for `version`: text stays as it is,
/// `$name` and `${name}` are replaced by what the variable stands for, and
/// anything else (a lone `$`, a group, an escape) makes the format unusable.
pub open spec fn render_version_from(fmt: Seq<char>, i: int, version: Seq<char>) -> Option<
    Seq<char>,
>
    decreases fmt.len() - i,
{
    if i < 0 || i >= fmt.len() {
        Some(Seq::empty())
    } else if fmt[i] == '$' {
        if i + 1 < fmt.len() && fmt[i + 1] == '{' {
            let e = name_end_from(fmt, i + 2);
            proof {
                lemma_name_end_from(fmt, i + 2);
            }
            if e == i + 2 || e >= fmt.len() || fmt[e] != '}' {
                None
            } else {
                match render_version_from(fmt, e + 1, version) {
                    Some(rest) => Some(version_variable(fmt.subrange(i + 2, e), version) + rest),
                    None => None,
                }
            }
        } else {
            let e = name_end_from(fmt, i + 1);
            proof {
                lemma_name_end_from(fmt, i + 1);
            }
            if e == i + 1 {
                None
            } else {
                match render_version_from(fmt, e, version) {
                    Some(rest) => Some(version_variable(fmt.subrange(i + 1, e), version) + rest),
                    None => None,
                }
            }
        }
    } else if is_group_char(fmt[i]) {
        None
    } else {
        match render_version_from(fmt, i + 1, version) {
            Some(rest) => Some(seq![fmt[i]] + rest),
            None => None,
        }
    }
}

pub open spec fn render_version(fmt: Seq<char>, version: Seq<char>) -> Option<Seq<char>> {
    render_version_from(fmt, 0, version)
}

/// Renders versions through version formats such as `v${raw}` or `${major}.${minor}`.
pub struct VersionFormatter;

fn name_end(cs: &Vec<char>, i: usize) -> (r: usize)
    requires
        i <= cs.len(),
    ensures
        r == name_end_from(cs@, i as int),
        i <= r <= cs.len(),
{
    proof {
        lemma_name_end_from(cs@, i as int);
    }
    let mut k = i;
    while k < cs.len() && (('a' <= cs[k] && cs[k] <= 'z') || ('A' <= cs[k] && cs[k] <= 'Z') || (
    '0' <= cs[k] && cs[k] <= '9') || cs[k] == '_')
        invariant
            i <= k <= cs.len(),
            name_end_from(cs@, k as int) == name_end_from(cs@, i as int),
        decreases cs.len() - k,
    {
        k = k + 1;
    }
    k
}

/// The bounds of `version_part_from(version, i, k)`.
fn version_part(cs: &Vec<char>, i: usize, k: usize) -> (r: (usize, usize))
    requires
        i <= cs.len(),
    ensures
        r.0 <= r.1 <= cs.len(),
        cs@.subrange(r.0 as int, r.1 as int) == version_part_from(cs@, i as int, k as nat),
    decreases k,
{
    let e = find_char(cs, '.', i);
    if k == 0 {
        (i, e)
    } else if e >= cs.len() {
        assert(cs@.subrange(0, 0) =~= Seq::<char>::empty());
        (0, 0)
    } else {
        version_part(cs, e + 1, k - 1)
    }
}

impl VersionFormatter {
    /// Renders `version` through `format`; `None` when the format holds
    /// something other than text and the variables `raw`, `major`, `minor`
    /// and `patch` (unknown names render as nothing).
    pub fn format_version(version: &str, format: &str) -> (r: Option<String>)
        ensures
            r is Some <==> render_version(format@, version@) is Some,
            r matches Some(t) ==> t@ == render_version(format@, version@)->0,
    {
        let f = chars_of(format);
        let v = chars_of(version);
        let raw = chars_of("raw");
        let major = chars_of("major");
        let minor = chars_of("minor");
        let patch = chars_of("patch");
        let mut out = String::new();
        let mut i: usize = 0;
        while i < f.len()
            invariant
                f@ == format@,
                v@ == version@,
                raw@ == "raw"@,
                major@ == "major"@,
                minor@ == "minor"@,
                patch@ == "patch"@,
                i <= f.len(),
                render_version(f@, v@) == match render_version_from(f@, i as int, v@) {
                    Some(rest) => Some(out@ + rest),
                    None => None,
                },
            decreases f.len() - i,
        {
            let ghost old_out = out@;
            if f[i] == '$' {
                let braced = i + 1 < f.len() && f[i + 1] == '{';
                let start = if braced {
                    i + 2
                } else {
                    i + 1
                };
                let e = name_end(&f, start);
                if e == start {
                    return None;
                }
                if braced && (e >= f.len() || f[e] != '}') {
                    return None;
                }
                let (a, b) = variable_bounds(&f, start, e, &v, &raw, &major, &minor, &patch);
                out.append(version.substring_char(a, b));
                proof {
                    assert(old_out + (v@.subrange(a as int, b as int) + match render_version_from(
                        f@,
                        if braced {
                            e + 1
                        } else {
                            e as int
                        },
                        v@,
                    ) {
                        Some(rest) => rest,
                        None => Seq::empty(),
                    }) =~= out@ + match render_version_from(
                        f@,
                        if braced {
                            e + 1
                        } else {
                            e as int
                        },
                        v@,
                    ) {
                        Some(rest) => rest,
                        None => Seq::empty(),
                    });
                }
                i = if braced {
                    e + 1
                } else {
                    e
                };
            } else if f[i] == '[' || f[i] == ']' || f[i] == '(' || f[i] == ')' || f[i] == '\\' {
                return None;
            } else {
                out.append(format.substring_char(i, i + 1));
                proof {
                    assert(format@.subrange(i as int, i + 1) =~= seq![f@[i as int]]);
                    assert(old_out + (seq![f@[i as int]] + match render_version_from(
                        f@,
                        i + 1,
                        v@,
                    ) {
                        Some(rest) => rest,
                        None => Seq::empty(),
                    }) =~= out@ + match render_version_from(f@, i + 1, v@) {
                        Some(rest) => rest,
                        None => Seq::empty(),
                    });
                }
                i = i + 1;
            }
        }
        assert(out@ + Seq::<char>::empty() =~= out@);
        Some(out)
    }
}

/// The bounds, within `v`, of what the variable named `f[start..end]` stands for.
fn variable_bounds(
    f: &Vec<char>,
    start: usize,
    end: usize,
    v: &Vec<char>,
    raw: &Vec<char>,
    major: &Vec<char>,
    minor: &Vec<char>,
    patch: &Vec<char>,
) -> (r: (usize, usize))
    requires
        start <= end <= f.len(),
        raw@ == "raw"@,
        major@ == "major"@,
        minor@ == "minor"@,
        patch@ == "patch"@,
    ensures
        r.0 <= r.1 <= v.len(),
        v@.subrange(r.0 as int, r.1 as int) == version_variable(
            f@.subrange(start as int, end as int),
            v@,
        ),
{
    if eq_at(f, start, end, raw) {
        assert(v@.subrange(0, v.len() as int) =~= v@);
        (0, v.len())
    } else if eq_at(f, start, end, major) {
        version_part(v, 0, 0)
    } else if eq_at(f, start, end, minor) {
        version_part(v, 0, 1)
    } else if eq_at(f, start, end, patch) {
        version_part(v, 0, 2)
    } else {
        assert(v@.subrange(0, 0) =~= Seq::<char>::empty());
        (0, 0)
    }
}

/// The default version format `v${raw}` renders every version as `v`
/// followed by the version.
pub proof fn lemma_default_version_format(version: Seq<char>)
    ensures
        render_version("v${raw}"@, version) == Some("v"@ + version),
{
    reveal_strlit("v${raw}");
    reveal_strlit("raw");
    reveal_strlit("v");
    let f = "v${raw}"@;
    assert(f.len() == 7);
    assert("v"@.len() == 1);
    assert(name_end_from(f, 3) == 6) by {
        reveal_with_fuel(name_end_from, 5);
    }
    assert(f.subrange(3, 6) =~= "raw"@);
    assert(render_version_from(f, 7, version) == Some(Seq::<char>::empty()));
    assert(render_version_from(f, 1, version) == Some(version + Seq::<char>::empty()));
    assert(render_version_from(f, 0, version) == Some(seq![f[0]] + (version + Seq::<char>::empty())));
    assert(seq![f[0]] + (version + Seq::<char>::empty()) =~= "v"@ + version);
}

} // verus!

//! The `rust` prompt module: which toolchain is in effect and which version
//! of `rustc` it provides, worked out without letting `rustc` install one.
use vstd::prelude::*;
use vstd::utf8::{decode_utf8, valid_utf8};
use crate::configs::rust::RustConfig;
use crate::formatter::{render_version, VersionFormatter};
use crate::path::{
    components, components_prefix, is_absolute, path_components, path_starts_with, strings_view,
    windows_components, windows_separated,
};
use crate::text::{
    chars_of, eq_at, find_char, find_char_from, find_char_in, find_sub, find_sub_from, has_at,
    has_suffix_at, lemma_find_char_from, line_at, line_bounds, lines, lines_from, nth_word,
    opt_str_view, opt_view, str_eq, strip_prefix_all, strip_prefix_all_index, strip_suffix_all,
    strip_suffix_all_index, trim, trim_str, words,
};

verus! {

pub open spec fn is_ascii_digit(c: char) -> bool {
    '0' <= c && c <= '9'
}

// ---------------------------------------------------------------------------
// Versions recorded in an installed toolchain's files
/// The first of `ls` that begins with `p`.
pub open spec fn first_line_starting(ls: Seq<Seq<char>>, p: Seq<char>) -> Option<Seq<char>>
    decreases ls.len(),
{
    if ls.len() == 0 {
        None
    } else if p.is_prefix_of(ls[0]) {
        Some(ls[0])
    } else {
        first_line_starting(ls.drop_first(), p)
    }
}

/// The version in the `.TH RUSTC` header of a `rustc(1)` man page: the text
/// between `"rustc ` and the next `"`, accepted only in the full form
/// `<digit>... (<hash> <date>)`.
pub open spec fn man_page_version(content: Seq<char>) -> Option<Seq<char>> {
    match first_line_starting(lines(content), ".TH RUSTC"@) {
        None => None,
        Some(line) => {
            let i = find_sub_from(line, "\"rustc "@, 0);
            if i < 0 {
                None
            } else {
                let rest = line.skip(i + "\"rustc "@.len());
                let q = find_char_from(rest, '"', 0);
                if q >= rest.len() {
                    None
                } else {
                    let v = rest.take(q);
                    if v.len() > 0 && is_ascii_digit(v[0]) && find_sub_from(v, " ("@, 0) >= 0
                        && v.last() == ')' {
                        Some(v)
                    } else {
                        None
                    }
                }
            }
        }
    }
}

/// The bounds of the first line of `cs` that begins with `pat`.
fn first_line_with(cs: &Vec<char>, pat: &Vec<char>) -> (r: Option<(usize, usize)>)
    ensures
        match r {
            Some((a, b)) => a <= b <= cs.len() && first_line_starting(lines(cs@), pat@) == Some(
                cs@.subrange(a as int, b as int),
            ),
            None => first_line_starting(lines(cs@), pat@) is None,
        },
{
    let ghost s = cs@;
    let mut i: usize = 0;
    while i < cs.len()
        invariant
            s == cs@,
            i <= cs.len(),
            first_line_starting(lines(s), pat@) == first_line_starting(
                lines_from(s, i as int),
                pat@,
            ),
        decreases cs.len() - i,
    {
        let (a, b, next) = line_bounds(cs, i);
        let ghost ls = lines_from(s, i as int);
        assert(ls[0] == line_at(s, i as int));
        assert(ls.drop_first() =~= lines_from(s, next as int));
        if has_at(cs, a, b, pat) {
            return Some((a, b));
        }
        i = next;
    }
    assert(lines_from(s, i as int) =~= Seq::<Seq<char>>::empty());
    None
}

/// Extracts the version from the `.TH` header of a toolchain's `rustc(1)` man
/// page, e.g. from
/// `.TH RUSTC "1" "April 2019" "rustc 1.77.0 (aeda7d245 2024-03-13)" "User Commands"`
/// it takes `1.77.0 (aeda7d245 2024-03-13)`.
///
/// Only the full verbose form (`<version> (<hash> <date>)`) is accepted: the
/// `<INSERT VERSION HERE>` placeholder and bare versions give `None`.
pub fn scan_man_page_rust_version(content: &str) -> (r: Option<&str>)
    ensures
        r is Some <==> man_page_version(content@) is Some,
        r matches Some(v) ==> v@ == man_page_version(content@)->0,
{
    let cs = chars_of(content);
    let th = chars_of(".TH RUSTC");
    let (a, b) = match first_line_with(&cs, &th) {
        Some(p) => p,
        None => return None,
    };
    let ghost line = cs@.subrange(a as int, b as int);
    let pat = chars_of("\"rustc ");
    let k = match find_sub(&cs, a, b, &pat) {
        Some(k) => k,
        None => return None,
    };
    let rs = k + pat.len();
    let ghost rest = line.skip(k - a + pat@.len());
    assert(rest =~= cs@.subrange(rs as int, b as int));
    let q = find_char_in(&cs, '"', rs, b);
    if q >= b {
        return None;
    }
    let ghost v = rest.take(q - rs);
    assert(v =~= cs@.subrange(rs as int, q as int));
    if q == rs || !('0' <= cs[rs] && cs[rs] <= '9') || cs[q - 1] != ')' {
        return None;
    }
    let open = chars_of(" (");
    match find_sub(&cs, rs, q, &open) {
        Some(_) => Some(content.substring_char(rs, q)),
        None => None,
    }
}

/// The value of `version = "..."` in the `[pkg.rust]` section of a channel
/// manifest, looking at `ls` with `in_section` telling whether that section
/// has already begun.
pub open spec fn manifest_version_in(ls: Seq<Seq<char>>, in_section: bool) -> Option<Seq<char>>
    decreases ls.len(),
{
    if ls.len() == 0 {
        None
    } else {
        let l = ls[0];
        if l == "[pkg.rust]"@ {
            manifest_version_in(ls.drop_first(), true)
        } else if in_section && l.len() > 0 && l[0] == '[' {
            None
        } else if in_section && "version = \""@.is_prefix_of(l) {
            let rest = l.skip("version = \""@.len() as int);
            if rest.len() > 0 && rest.last() == '"' {
                Some(rest.drop_last())
            } else {
                None
            }
        } else {
            manifest_version_in(ls.drop_first(), in_section)
        }
    }
}

pub open spec fn manifest_version(content: Seq<char>) -> Option<Seq<char>> {
    manifest_version_in(lines(content), false)
}

/// Extracts the `[pkg.rust]` version string from a channel manifest without
/// parsing the whole TOML document, e.g. `1.77.0 (aeda7d245 2024-03-13)`.
pub fn scan_manifest_rust_version(content: &str) -> (r: Option<&str>)
    ensures
        r is Some <==> manifest_version(content@) is Some,
        r matches Some(v) ==> v@ == manifest_version(content@)->0,
{
    let cs = chars_of(content);
    let header = chars_of("[pkg.rust]");
    let key = chars_of("version = \"");
    let ghost s = cs@;
    let mut in_section = false;
    let mut i: usize = 0;
    while i < cs.len()
        invariant
            s == cs@,
            cs@ == content@,
            header@ == "[pkg.rust]"@,
            key@ == "version = \""@,
            i <= cs.len(),
            manifest_version(s) == manifest_version_in(lines_from(s, i as int), in_section),
        decreases cs.len() - i,
    {
        let (a, b, next) = line_bounds(&cs, i);
        let ghost ls = lines_from(s, i as int);
        let ghost l = cs@.subrange(a as int, b as int);
        assert(ls[0] == l);
        assert(ls.drop_first() =~= lines_from(s, next as int));
        if eq_at(&cs, a, b, &header) {
            in_section = true;
        } else if in_section {
            if b > a && cs[a] == '[' {
                assert(l[0] == cs@[a as int]);
                return None;
            }
            if has_at(&cs, a, b, &key) {
                let rs = a + key.len();
                assert(l.skip(key@.len() as int) =~= cs@.subrange(rs as int, b as int));
                if b > rs && cs[b - 1] == '"' {
                    assert(cs@.subrange(rs as int, b as int).drop_last() =~= cs@.subrange(
                        rs as int,
                        b - 1,
                    ));
                    return Some(content.substring_char(rs, b - 1));
                }
                return None;
            }
        }
        i = next;
    }
    assert(lines_from(s, i as int) =~= Seq::<Seq<char>>::empty());
    None
}

// ---------------------------------------------------------------------------
// Formatting versions and toolchain names
/// `v` followed by `semver` up to its first `-`.
pub open spec fn semver_text(semver: Seq<char>) -> Seq<char> {
    "v"@ + semver.take(find_char_from(semver, '-', 0))
}

/// Formats a release such as `1.41.0-beta.1` as `v1.41.0`.
pub fn format_semver(semver: &str) -> (r: String)
    ensures
        r@ == semver_text(semver@),
{
    let cs = chars_of(semver);
    let e = find_char(&cs, '-', 0);
    let mut r = "v".to_owned();
    r.append(semver.substring_char(0, e));
    r
}

/// `toolchain` without every trailing copy of `-<default_host_triple>`.
pub open spec fn toolchain_text(toolchain: Seq<char>, default_host_triple: Option<Seq<char>>) -> Seq<
    char,
> {
    match default_host_triple {
        None => toolchain,
        Some(triple) => strip_suffix_all(toolchain, seq!['-'] + triple),
    }
}

/// Shortens a toolchain name by its host triple: `stable-x86_64-unknown-linux-gnu`
/// becomes `stable` when that is the default host triple.
pub fn format_toolchain(toolchain: &str, default_host_triple: Option<&str>) -> (r: String)
    ensures
        r@ == toolchain_text(
            toolchain@,
            match default_host_triple {
                Some(t) => Some(t@),
                None => None,
            },
        ),
{
    match default_host_triple {
        None => toolchain.to_owned(),
        Some(triple) => {
            let cs = chars_of(toolchain);
            let mut pat: Vec<char> = vec!['-'];
            let tcs = chars_of(triple);
            let mut k: usize = 0;
            while k < tcs.len()
                invariant
                    k <= tcs.len(),
                    pat@ == seq!['-'] + tcs@.take(k as int),
                decreases tcs.len() - k,
            {
                pat.push(tcs[k]);
                assert(seq!['-'] + tcs@.take(k + 1) =~= (seq!['-'] + tcs@.take(k as int)).push(
                    tcs@[k as int],
                ));
                k = k + 1;
            }
            assert(tcs@.take(tcs.len() as int) =~= tcs@);
            let e = strip_suffix_all_index(&cs, 0, cs.len(), &pat);
            assert(cs@.subrange(0, cs.len() as int) =~= cs@);
            toolchain.substring_char(0, e).to_owned()
        },
    }
}

/// The text after the last line of `ls` that begins with `tag`, with every
/// leading copy of `tag` removed.
pub open spec fn last_tagged(ls: Seq<Seq<char>>, tag: Seq<char>) -> Option<Seq<char>>
    decreases ls.len(),
{
    if ls.len() == 0 {
        None
    } else if tag.is_prefix_of(ls.last()) {
        Some(strip_prefix_all(ls.last(), tag))
    } else {
        last_tagged(ls.drop_last(), tag)
    }
}

/// What `rustc -vV` reports: `(v<release without pre-release>, toolchain)`,
/// the toolchain being `toolchain` when given and the `host:` line otherwise.
pub open spec fn verbose_version(stdout: Seq<char>, toolchain: Option<Seq<char>>) -> Option<
    (Seq<char>, Seq<char>),
> {
    let ls = lines(stdout);
    match (last_tagged(ls, "release: "@), last_tagged(ls, "host: "@)) {
        (Some(release), Some(host)) => Some(
            (
                semver_text(release),
                match toolchain {
                    Some(t) => t,
                    None => host,
                },
            ),
        ),
        _ => None,
    }
}

/// Reads the release and host from the output of `rustc -vV`.
pub fn format_rustc_version_verbose(stdout: &str, toolchain: Option<&str>) -> (r: Option<
    (String, String),
>)
    ensures
        r is Some <==> verbose_version(
            stdout@,
            match toolchain {
                Some(t) => Some(t@),
                None => None,
            },
        ) is Some,
        r matches Some((v, t)) ==> (v@, t@) == verbose_version(
            stdout@,
            match toolchain {
                Some(t) => Some(t@),
                None => None,
            },
        )->0,
{
    let cs = chars_of(stdout);
    let rel = chars_of("release: ");
    let hst = chars_of("host: ");
    let ghost s = cs@;
    let ghost mut seen: Seq<Seq<char>> = Seq::empty();
    let mut release: Option<(usize, usize)> = None;
    let mut host: Option<(usize, usize)> = None;
    let mut i: usize = 0;
    while i < cs.len()
        invariant
            s == cs@,
            rel@ == "release: "@,
            hst@ == "host: "@,
            i <= cs.len(),
            lines(s) == seen + lines_from(s, i as int),
            match release {
                Some((a, b)) => a <= b <= cs.len() && last_tagged(seen, rel@) == Some(
                    cs@.subrange(a as int, b as int),
                ),
                None => last_tagged(seen, rel@) is None,
            },
            match host {
                Some((a, b)) => a <= b <= cs.len() && last_tagged(seen, hst@) == Some(
                    cs@.subrange(a as int, b as int),
                ),
                None => last_tagged(seen, hst@) is None,
            },
        decreases cs.len() - i,
    {
        let (a, b, next) = line_bounds(&cs, i);
        let ghost l = cs@.subrange(a as int, b as int);
        proof {
            assert(seen + lines_from(s, i as int) =~= seen.push(l) + lines_from(s, next as int));
            assert(seen.push(l).drop_last() =~= seen);
        }
        if has_at(&cs, a, b, &rel) {
            let x = strip_prefix_all_index(&cs, a, b, &rel);
            release = Some((x, b));
        }
        if has_at(&cs, a, b, &hst) {
            let x = strip_prefix_all_index(&cs, a, b, &hst);
            host = Some((x, b));
        }
        proof {
            seen = seen.push(l);
        }
        i = next;
    }
    assert(lines_from(s, i as int) =~= Seq::<Seq<char>>::empty());
    assert(seen =~= lines(s));
    match (release, host) {
        (Some((ra, rb)), Some((ha, hb))) => {
            let version = format_semver(stdout.substring_char(ra, rb));
            let tc = match toolchain {
                Some(t) => t.to_owned(),
                None => stdout.substring_char(ha, hb).to_owned(),
            };
            Some((version, tc))
        },
        _ => None,
    }
}

// ---------------------------------------------------------------------------
// Running `rustc` through a toolchain
/// What running `rustc --version` for a particular toolchain came to.
#[derive(Debug, PartialEq, Clone)]
pub enum RustupRunRustcVersionOutcome {
    RustcVersion(String),
    ToolchainNotInstalled(String),
    ToolchainUnknown,
    RustupNotWorking,
    Error,
}

/// Calls `String::from_utf8`: `Ok` exactly when the bytes are valid UTF-8,
/// holding the characters they encode.
#[verifier::external_body]
fn string_from_utf8(bytes: Vec<u8>) -> (r: Option<String>)
    ensures
        r is Some <==> valid_utf8(bytes@),
        r matches Some(s) ==> s@ == decode_utf8(bytes@),
{
    String::from_utf8(bytes).ok()
}

pub open spec fn not_installed_prefix() -> Seq<char> {
    "error: toolchain '"@
}

pub open spec fn not_installed_suffix() -> Seq<char> {
    "' is not installed\n"@
}

/// Whether `stderr` both begins with `error: toolchain '` and ends with
/// `' is not installed\n'`, the two overlapping.
pub open spec fn overlapping_not_installed(stderr: Seq<char>) -> bool {
    &&& not_installed_prefix().is_prefix_of(stderr)
    &&& not_installed_suffix().is_suffix_of(stderr)
    &&& stderr.len() < not_installed_prefix().len() + not_installed_suffix().len()
}

/// Whether rustup's error message is one in which `error: toolchain '` and
/// `' is not installed\n` overlap (see `overlapping_not_installed`).
pub fn overlapping_not_installed_text(stderr: &str) -> (r: bool)
    ensures
        r == overlapping_not_installed(stderr@),
{
    let cs = chars_of(stderr);
    let pre = chars_of("error: toolchain '");
    let suf = chars_of("' is not installed\n");
    assert(cs@.subrange(0, cs.len() as int) =~= cs@);
    if !(has_at(&cs, 0, cs.len(), &pre) && has_suffix_at(&cs, 0, cs.len(), &suf)) {
        return false;
    }
    cs.len() - suf.len() < pre.len()
}

/// Reads the outcome from the output of `rustup run <toolchain> rustc --version`
/// (or of the toolchain's own `rustc --version`): the version on success, the
/// toolchain's name when rustup reports it as not installed, and `Err` otherwise.
///
/// An error message in which the two fixed parts overlap is left out: no
/// toolchain name can be cut from it.
pub fn extract_toolchain_from_rustup_run_rustc_version(
    success: bool,
    stdout: Vec<u8>,
    stderr: Vec<u8>,
) -> (r: RustupRunRustcVersionOutcome)
    requires
        !(!success && valid_utf8(stderr@) && overlapping_not_installed(decode_utf8(stderr@))),
    ensures
        success && valid_utf8(stdout@) ==> (r matches RustupRunRustcVersionOutcome::RustcVersion(v)
            && v@ == decode_utf8(stdout@)),
        success && !valid_utf8(stdout@) ==> r is Error,
        !success ==> ({
            let e = decode_utf8(stderr@);
            if valid_utf8(stderr@) && not_installed_prefix().is_prefix_of(e)
                && not_installed_suffix().is_suffix_of(e) {
                (r matches RustupRunRustcVersionOutcome::ToolchainNotInstalled(n) && n@
                    == e.subrange(
                    not_installed_prefix().len() as int,
                    e.len() - not_installed_suffix().len(),
                ))
            } else {
                r is Error
            }
        }),
{
    if success {
        match string_from_utf8(stdout) {
            Some(out) => RustupRunRustcVersionOutcome::RustcVersion(out),
            None => RustupRunRustcVersionOutcome::Error,
        }
    } else {
        match string_from_utf8(stderr) {
            Some(err) => {
                let cs = chars_of(err.as_str());
                let pre = chars_of("error: toolchain '");
                let suf = chars_of("' is not installed\n");
                assert(cs@.subrange(0, cs.len() as int) =~= cs@);
                if has_at(&cs, 0, cs.len(), &pre) && has_suffix_at(&cs, 0, cs.len(), &suf) {
                    let name = err.as_str().substring_char(pre.len(), cs.len() - suf.len());
                    RustupRunRustcVersionOutcome::ToolchainNotInstalled(name.to_owned())
                } else {
                    RustupRunRustcVersionOutcome::Error
                }
            },
            None => RustupRunRustcVersionOutcome::Error,
        }
    }
}

// ---------------------------------------------------------------------------
// Rustup's settings
/// The parts of rustup's `settings.toml` that decide the toolchain.
#[derive(Debug, PartialEq, Clone)]
pub struct RustupSettings {
    pub default_host_triple: Option<String>,
    pub default_toolchain: Option<String>,
    /// Directory overrides, as (directory, toolchain) pairs.
    pub overrides: Vec<(String, String)>,
    pub version: Option<String>,
}

impl Default for RustupSettings {
    fn default() -> (r: Self)
        ensures
            r.default_host_triple is None,
            r.default_toolchain is None,
            r.overrides@.len() == 0,
            r.version is None,
    {
        RustupSettings {
            default_host_triple: None,
            default_toolchain: None,
            overrides: Vec::new(),
            version: None,
        }
    }
}

/// Whether the override for `dir` applies in `cwd`: `dir` is a leading part
/// of `cwd`, component by component.
pub open spec fn override_applies(dir: Seq<char>, cwd: Seq<char>) -> bool {
    path_starts_with(cwd, dir)
}

/// The number of components of a path.
pub open spec fn depth(p: Seq<char>) -> nat {
    path_components(p).len()
}

/// The `\\?\` prefix of a Windows path in its verbatim form.
pub open spec fn verbatim_prefix() -> Seq<char> {
    seq!['\\', '\\', '?', '\\']
}

/// A Windows path without its `\\?\` prefix, if it has one.
pub open spec fn strip_verbatim(p: Seq<char>) -> Seq<char> {
    if verbatim_prefix().is_prefix_of(p) {
        p.subrange(4, p.len() as int)
    } else {
        p
    }
}

/// A directory as overrides are compared: on Windows without its `\\?\`
/// prefix and with `\` separating components; elsewhere as it is.
pub open spec fn compared_path(p: Seq<char>, is_windows: bool) -> Seq<char> {
    if is_windows {
        windows_separated(strip_verbatim(p))
    } else {
        p
    }
}

/// No directory has two overrides: the directories of any two entries differ
/// component by component, as the keys of rustup's override map do.
pub open spec fn overrides_distinct(overrides: Seq<(String, String)>, is_windows: bool) -> bool {
    forall|i: int, j: int|
        #![trigger compared_path(overrides[i].0@, is_windows), compared_path(overrides[j].0@, is_windows)]
        0 <= i < overrides.len() && 0 <= j < overrides.len() && i != j ==> path_components(
            compared_path(overrides[i].0@, is_windows),
        ) != path_components(compared_path(overrides[j].0@, is_windows))
}

/// Entry `i` is an override that applies in `cwd`, and no override that
/// applies there has a deeper directory.
pub open spec fn deepest_applying(
    overrides: Seq<(String, String)>,
    cwd: Seq<char>,
    i: int,
    is_windows: bool,
) -> bool {
    &&& 0 <= i < overrides.len()
    &&& override_applies(compared_path(overrides[i].0@, is_windows), compared_path(cwd, is_windows))
    &&& forall|j: int|
        0 <= j < overrides.len() && override_applies(
            #[trigger] compared_path(overrides[j].0@, is_windows),
            compared_path(cwd, is_windows),
        ) ==> depth(compared_path(overrides[j].0@, is_windows)) <= depth(
            compared_path(overrides[i].0@, is_windows),
        )
}

/// On Unix a path has no `\\?\` prefix to drop, so it is returned as it is.
pub fn strip_dos_path(path: String) -> (r: String)
    ensures
        r@ == path@,
{
    path
}

/// On Windows a path loses its `\\?\` prefix, if it has one.
pub fn strip_dos_path_windows(path: String) -> (r: String)
    ensures
        r@ == strip_verbatim(path@),
{
    let cs = chars_of(path.as_str());
    let pre = chars_of("\\\\?\\");
    proof {
        reveal_strlit("\\\\?\\");
        assert(pre@ =~= verbatim_prefix());
        assert(cs@.subrange(0, cs.len() as int) =~= cs@);
    }
    if has_at(&cs, 0, cs.len(), &pre) {
        path.as_str().substring_char(4, cs.len()).to_owned()
    } else {
        path
    }
}

/// The components of a directory as overrides are compared (see `compared_path`).
fn compared_components(p: &str, is_windows: bool) -> (r: Vec<String>)
    ensures
        strings_view(r@) == path_components(compared_path(p@, is_windows)),
{
    if is_windows {
        let stripped = strip_dos_path_windows(p.to_owned());
        windows_components(stripped.as_str())
    } else {
        let kept = strip_dos_path(p.to_owned());
        components(kept.as_str())
    }
}

impl RustupSettings {
    /// The settings, kept only when they are in rustup's settings format
    /// version `"12"`.
    pub fn checked(self) -> (r: Option<Self>)
        ensures
            r is Some <==> (self.version matches Some(v) && v@ == "12"@),
            r matches Some(s) ==> s == self,
    {
        let ok = match &self.version {
            Some(v) => str_eq(v.as_str(), "12"),
            None => false,
        };
        if ok {
            Some(self)
        } else {
            None
        }
    }

    pub fn default_host_triple(&self) -> (r: Option<&str>)
        ensures
            opt_str_view(r) == opt_view(self.default_host_triple),
    {
        match &self.default_host_triple {
            Some(t) => Some(t.as_str()),
            None => None,
        }
    }

    pub fn default_toolchain(&self) -> (r: Option<&str>)
        ensures
            opt_str_view(r) == opt_view(self.default_toolchain),
    {
        match &self.default_toolchain {
            Some(t) => Some(t.as_str()),
            None => None,
        }
    }

    /// The toolchain of the override whose directory is the deepest one that
    /// contains `cwd`, if any override applies there, with paths read as on
    /// Unix.
    pub fn lookup_override(&self, cwd: &str) -> (r: Option<String>)
        ensures
            r is None <==> forall|i: int|
                0 <= i < self.overrides@.len() ==> !override_applies(
                    #[trigger] self.overrides@[i].0@,
                    cwd@,
                ),
            r matches Some(t) ==> exists|i: int|
                #[trigger] deepest_applying(self.overrides@, cwd@, i, false) && t@
                    == self.overrides@[i].1@,
            overrides_distinct(self.overrides@, false) ==> forall|i: int|
                #[trigger] deepest_applying(self.overrides@, cwd@, i, false) ==> (r matches Some(t)
                    && t@ == self.overrides@[i].1@),
    {
        let r = self.lookup_override_on(cwd, false);
        assert forall|i: int| 0 <= i < self.overrides@.len() implies #[trigger] override_applies(
            self.overrides@[i].0@,
            cwd@,
        ) == override_applies(
            compared_path(self.overrides@[i].0@, false),
            compared_path(cwd@, false),
        ) by {}
        r
    }

    /// The toolchain of the override whose directory is the deepest one that
    /// contains `cwd`, if any override applies there; on Windows (`is_windows`)
    /// the paths are compared without their `\\?\` prefix and with `\` as a
    /// separator (see `compared_path`).
    pub fn lookup_override_on(&self, cwd: &str, is_windows: bool) -> (r: Option<String>)
        ensures
            r is None <==> forall|i: int|
                0 <= i < self.overrides@.len() ==> !override_applies(
                    #[trigger] compared_path(self.overrides@[i].0@, is_windows),
                    compared_path(cwd@, is_windows),
                ),
            r matches Some(t) ==> exists|i: int|
                #[trigger] deepest_applying(self.overrides@, cwd@, i, is_windows) && t@
                    == self.overrides@[i].1@,
            overrides_distinct(self.overrides@, is_windows) ==> forall|i: int|
                #[trigger] deepest_applying(self.overrides@, cwd@, i, is_windows) ==> (r matches Some(
                    t,
                ) && t@ == self.overrides@[i].1@),
    {
        let ghost c = compared_path(cwd@, is_windows);
        let here = compared_components(cwd, is_windows);
        let mut best: Option<(usize, usize)> = None;
        let mut k: usize = 0;
        while k < self.overrides.len()
            invariant
                k <= self.overrides.len(),
                c == compared_path(cwd@, is_windows),
                strings_view(here@) == path_components(c),
                match best {
                    None => forall|i: int|
                        0 <= i < k ==> !override_applies(
                            #[trigger] compared_path(self.overrides@[i].0@, is_windows),
                            c,
                        ),
                    Some((b, d)) => b < k && override_applies(
                        compared_path(self.overrides@[b as int].0@, is_windows),
                        c,
                    ) && d == depth(compared_path(self.overrides@[b as int].0@, is_windows))
                        && forall|j: int|
                        0 <= j < k && override_applies(
                            #[trigger] compared_path(self.overrides@[j].0@, is_windows),
                            c,
                        ) ==> depth(compared_path(self.overrides@[j].0@, is_windows)) <= d,
                },
            decreases self.overrides.len() - k,
        {
            let parts = compared_components(self.overrides[k].0.as_str(), is_windows);
            if components_prefix(&parts, &here) {
                let d = parts.len();
                assert(d == depth(compared_path(self.overrides@[k as int].0@, is_windows)));
                match best {
                    Some((_, bd)) if d < bd => {},
                    _ => {
                        best = Some((k, d));
                    },
                }
            }
            k = k + 1;
        }
        match best {
            Some((b, _)) => {
                proof {
                    assert(deepest_applying(self.overrides@, cwd@, b as int, is_windows));
                    if overrides_distinct(self.overrides@, is_windows) {
                        assert forall|i: int|
                            #[trigger] deepest_applying(
                                self.overrides@,
                                cwd@,
                                i,
                                is_windows,
                            ) implies i == b as int by {
                            lemma_deepest_override_unique(
                                self.overrides@,
                                cwd@,
                                i,
                                b as int,
                                is_windows,
                            );
                        }
                    }
                }
                Some(self.overrides[b].1.clone())
            },
            None => None,
        }
    }
}

/// Where no directory has two overrides, at most one override is the deepest
/// that applies in a directory: the toolchain that is looked up there is
/// determined.
pub proof fn lemma_deepest_override_unique(
    overrides: Seq<(String, String)>,
    cwd: Seq<char>,
    i: int,
    j: int,
    is_windows: bool,
)
    requires
        overrides_distinct(overrides, is_windows),
        deepest_applying(overrides, cwd, i, is_windows),
        deepest_applying(overrides, cwd, j, is_windows),
    ensures
        i == j,
{
    let a = path_components(compared_path(overrides[i].0@, is_windows));
    let b = path_components(compared_path(overrides[j].0@, is_windows));
    let c = path_components(compared_path(cwd, is_windows));
    assert(a.len() == b.len());
    assert(a =~= c.subrange(0, a.len() as int));
    assert(b =~= c.subrange(0, b.len() as int));
    assert(a =~= b);
}

/// Calls `guess_host_triple::guess_host_triple`, which inspects the machine
/// it runs on; nothing is stated of what it finds.
#[verifier::external_body]
fn guess_host_triple() -> (r: Option<String>) {
    guess_host_triple::guess_host_triple().map(|t| t.to_string())
}

/// The host triple that toolchain names are completed with, given what a
/// guess on the running machine found (asked only when it is needed):
/// rustup's `default_host_triple`, or else the guessed triple.
pub fn default_host_triple_or(settings: &RustupSettings, guessed: Option<String>) -> (r: Option<
    String,
>)
    ensures
        settings.default_host_triple is Some ==> opt_view(r) == opt_view(
            settings.default_host_triple,
        ),
        settings.default_host_triple is None ==> r == guessed,
{
    match settings.default_host_triple() {
        Some(t) => Some(t.to_owned()),
        None => guessed,
    }
}

/// The host triple that toolchain names are completed with: rustup's
/// `default_host_triple`, or else a guess made on the running machine (see
/// `default_host_triple_or`). What the guess finds depends on the machine, so
/// nothing is stated of the result when the settings name no triple.
pub fn default_host_triple_or_guess(settings: &RustupSettings) -> (r: Option<String>)
    ensures
        settings.default_host_triple is Some ==> opt_view(r) == opt_view(
            settings.default_host_triple,
        ),
{
    let guessed = if settings.default_host_triple.is_none() {
        guess_host_triple()
    } else {
        None
    };
    default_host_triple_or(settings, guessed)
}

// ---------------------------------------------------------------------------
// Work that the library asks its caller to do
/// Either a request for outside work, or the answer reached.
#[derive(Debug, PartialEq, Clone)]
pub enum Step<Q, T> {
    Ask(Q),
    Done(T),
}

// ---------------------------------------------------------------------------
// Which toolchain is in effect
/// Where a toolchain override may come from, in rustup's order of precedence.
#[derive(Debug, PartialEq, Clone, Copy)]
pub enum OverrideSource {
    /// `$RUSTUP_TOOLCHAIN`.
    Environment,
    /// The override list of rustup's settings (`rustup override list`).
    SettingsOverride,
    /// `rust-toolchain` or `rust-toolchain.toml` in the directory or a parent.
    ToolchainFile,
    /// The `default_toolchain` of rustup's settings.
    SettingsDefault,
    /// What `rustup default` prints.
    RustupDefault,
}

/// The source asked for once `k` sources have answered.
pub open spec fn override_source(k: int) -> OverrideSource {
    if k == 0 {
        OverrideSource::Environment
    } else if k == 1 {
        OverrideSource::SettingsOverride
    } else if k == 2 {
        OverrideSource::ToolchainFile
    } else if k == 3 {
        OverrideSource::SettingsDefault
    } else {
        OverrideSource::RustupDefault
    }
}

/// The number of sources that an override may come from.
pub open spec fn override_source_count() -> int {
    5
}

/// The first index at or after `i` whose answer names a toolchain, or `answers.len()`.
pub open spec fn first_answer_from(answers: Seq<Option<Seq<char>>>, i: int) -> int
    decreases answers.len() - i,
{
    if i < 0 || i >= answers.len() {
        answers.len() as int
    } else if answers[i] is Some {
        i
    } else {
        first_answer_from(answers, i + 1)
    }
}

/// The toolchain override, given the answers of the sources asked so far,
/// in order of precedence: the first source that named a toolchain decides;
/// while none has, the next source is asked, and when all five have answered
/// without naming one there is no override.
pub open spec fn override_decision(answers: Seq<Option<Seq<char>>>) -> Step<
    OverrideSource,
    Option<Seq<char>>,
> {
    let k = first_answer_from(answers, 0);
    if k < answers.len() {
        Step::Done(answers[k])
    } else if answers.len() < override_source_count() {
        Step::Ask(override_source(answers.len() as int))
    } else {
        Step::Done(None)
    }
}

pub open spec fn answers_view(answers: Seq<Option<String>>) -> Seq<Option<Seq<char>>> {
    answers.map_values(|a: Option<String>| opt_view(a))
}

pub open spec fn override_step_view(step: Step<OverrideSource, Option<String>>) -> Step<
    OverrideSource,
    Option<Seq<char>>,
> {
    match step {
        Step::Ask(q) => Step::Ask(q),
        Step::Done(t) => Step::Done(opt_view(t)),
    }
}

/// The next move in finding the toolchain override, from the answers that the
/// sources gave so far (see `override_decision`).
pub fn get_env_toolchain_override(answers: &Vec<Option<String>>) -> (r: Step<
    OverrideSource,
    Option<String>,
>)
    ensures
        override_step_view(r) == override_decision(answers_view(answers@)),
{
    let ghost av = answers_view(answers@);
    let mut k: usize = 0;
    while k < answers.len()
        invariant
            k <= answers.len(),
            av == answers_view(answers@),
            av.len() == answers@.len(),
            first_answer_from(av, k as int) == first_answer_from(av, 0),
        decreases answers.len() - k,
    {
        match &answers[k] {
            Some(t) => {
                assert(av[k as int] == opt_view(answers@[k as int]));
                return Step::Done(Some(t.clone()));
            },
            None => {
                assert(av[k as int] == opt_view(answers@[k as int]));
            },
        }
        k = k + 1;
    }
    let n = answers.len();
    if n == 0 {
        Step::Ask(OverrideSource::Environment)
    } else if n == 1 {
        Step::Ask(OverrideSource::SettingsOverride)
    } else if n == 2 {
        Step::Ask(OverrideSource::ToolchainFile)
    } else if n == 3 {
        Step::Ask(OverrideSource::SettingsDefault)
    } else if n == 4 {
        Step::Ask(OverrideSource::RustupDefault)
    } else {
        Step::Done(None)
    }
}

/// The toolchain named by `$RUSTUP_TOOLCHAIN`, trimmed.
pub fn env_rustup_toolchain(value: Option<&str>) -> (r: Option<String>)
    ensures
        opt_view(r) == match value {
            Some(v) => Some(trim(v@)),
            None => None,
        },
{
    match value {
        Some(v) => Some(trim_str(v).to_owned()),
        None => None,
    }
}

/// The toolchain that `rustup default` reports: the first word of its output,
/// as in `stable-x86_64-apple-darwin (default)`.
pub fn execute_rustup_default(stdout: Option<&str>) -> (r: Option<String>)
    ensures
        opt_view(r) == match stdout {
            Some(out) => if words(out@).len() > 0 {
                Some(words(out@)[0])
            } else {
                None
            },
            None => None,
        },
{
    match stdout {
        Some(out) => {
            let cs = chars_of(out);
            match nth_word(&cs, 0) {
                Some((a, b)) => Some(out.substring_char(a, b).to_owned()),
                None => None,
            }
        },
        None => None,
    }
}

/// Whether a toolchain name is one that rustup accepts: a plain name with no
/// separator (`stable`, `1.34.0`) or an absolute path to a toolchain directory.
pub open spec fn valid_toolchain_name(name: Seq<char>) -> bool {
    depth(name) <= 1 || is_absolute(name)
}

/// How the contents of a toolchain file are to be read.
#[derive(Debug, PartialEq, Clone, Copy)]
pub enum ChannelText<'a> {
    /// The file is empty.
    Nothing,
    /// The whole file names the toolchain (a one-line `rust-toolchain`).
    Whole(&'a str),
    /// The file is TOML whose `toolchain.channel` names the toolchain.
    Toml,
}

/// The number of lines of `cs`.
fn line_count(cs: &Vec<char>) -> (r: usize)
    ensures
        r == lines(cs@).len(),
{
    let ghost s = cs@;
    let mut n: usize = 0;
    let mut i: usize = 0;
    while i < cs.len()
        invariant
            s == cs@,
            i <= cs.len(),
            n <= i,
            lines(s).len() == n + lines_from(s, i as int).len(),
        decreases cs.len() - i,
    {
        let (_a, _b, next) = line_bounds(cs, i);
        n = n + 1;
        i = next;
    }
    n
}

/// Decides how to read a toolchain file: an empty file names nothing, a
/// one-line `rust-toolchain` names the toolchain by its whole text, and
/// anything else (and every `rust-toolchain.toml`) is read as TOML.
pub fn channel_text(contents: &str, only_toml: bool) -> (r: ChannelText)
    ensures
        lines(contents@).len() == 0 ==> r == ChannelText::Nothing,
        lines(contents@).len() == 1 && !only_toml ==> r == ChannelText::Whole(contents),
        lines(contents@).len() > 1 || (lines(contents@).len() == 1 && only_toml) ==> r
            == ChannelText::Toml,
{
    let cs = chars_of(contents);
    let n = line_count(&cs);
    if n == 0 {
        ChannelText::Nothing
    } else if n == 1 && !only_toml {
        ChannelText::Whole(contents)
    } else {
        ChannelText::Toml
    }
}

/// The toolchain named by a toolchain file's channel: trimmed, and only when
/// it is not blank and is a name that rustup accepts.
pub open spec fn accepted_channel(channel: Option<Seq<char>>) -> Option<Seq<char>> {
    match channel {
        Some(c) => if trim(c).len() > 0 && valid_toolchain_name(trim(c)) {
            Some(trim(c))
        } else {
            None
        },
        None => None,
    }
}

/// Keeps a channel read from a toolchain file when it names a toolchain.
pub fn accept_channel(channel: Option<&str>) -> (r: Option<String>)
    ensures
        opt_view(r) == accepted_channel(opt_str_view(channel)),
{
    match channel {
        Some(c) => {
            let t = trim_str(c);
            if t.is_empty() {
                return None;
            }
            let parts = components(t);
            let tc = chars_of(t);
            if parts.len() <= 1 || tc[0] == '/' {
                Some(t.to_owned())
            } else {
                None
            }
        },
        None => None,
    }
}

// ---------------------------------------------------------------------------
// The search for a toolchain file
/// A toolchain file that the search asks to have read.
#[derive(Debug, PartialEq, Clone, Copy)]
pub struct ToolchainFileQuery {
    /// How many levels above the current directory the file lies: 0 is the
    /// current directory itself.
    pub up: usize,
    /// `rust-toolchain.toml`, read as TOML only, when set; `rust-toolchain`
    /// otherwise.
    pub toml: bool,
}

/// The `k`-th file read, in rustup's order: in each directory from the
/// current one up to the root, `rust-toolchain` and then `rust-toolchain.toml`.
pub open spec fn toolchain_file_candidate(k: int) -> ToolchainFileQuery {
    ToolchainFileQuery { up: (k / 2) as usize, toml: k % 2 == 1 }
}

/// The search for a toolchain file, given the number of directories from the
/// current one up to the root and the toolchains that the files read so far
/// named (each as `accept_channel` gives it): the first file that named one
/// decides; while none has, the next file is read; when the files of every
/// directory were read without naming one, there is none.
pub open spec fn toolchain_file_decision(dir_count: nat, answers: Seq<Option<Seq<char>>>) -> Step<
    ToolchainFileQuery,
    Option<Seq<char>>,
> {
    let k = first_answer_from(answers, 0);
    if k < answers.len() {
        Step::Done(answers[k])
    } else if answers.len() < 2 * dir_count {
        Step::Ask(toolchain_file_candidate(answers.len() as int))
    } else {
        Step::Done(None)
    }
}

pub open spec fn toolchain_file_step_view(step: Step<ToolchainFileQuery, Option<String>>) -> Step<
    ToolchainFileQuery,
    Option<Seq<char>>,
> {
    match step {
        Step::Ask(q) => Step::Ask(q),
        Step::Done(t) => Step::Done(opt_view(t)),
    }
}

/// The next move in the search for `rust-toolchain` or `rust-toolchain.toml`
/// in the current directory and its parents (see `toolchain_file_decision`),
/// where `dir_count` directories lead from the current one up to the root.
pub fn find_rust_toolchain_file(dir_count: usize, answers: &Vec<Option<String>>) -> (r: Step<
    ToolchainFileQuery,
    Option<String>,
>)
    ensures
        toolchain_file_step_view(r) == toolchain_file_decision(
            dir_count as nat,
            answers_view(answers@),
        ),
{
    let ghost av = answers_view(answers@);
    let mut k: usize = 0;
    while k < answers.len()
        invariant
            k <= answers.len(),
            av == answers_view(answers@),
            av.len() == answers@.len(),
            first_answer_from(av, k as int) == first_answer_from(av, 0),
        decreases answers.len() - k,
    {
        match &answers[k] {
            Some(t) => {
                assert(av[k as int] == opt_view(answers@[k as int]));
                return Step::Done(Some(t.clone()));
            },
            None => {
                assert(av[k as int] == opt_view(answers@[k as int]));
            },
        }
        k = k + 1;
    }
    let n = answers.len();
    if n / 2 < dir_count {
        Step::Ask(ToolchainFileQuery { up: n / 2, toml: n % 2 == 1 })
    } else {
        Step::Done(None)
    }
}

// ---------------------------------------------------------------------------
// Which version the toolchain provides
/// What is known so far about running `rustc --version` for the toolchain in effect.
#[derive(Debug, PartialEq, Clone)]
pub struct RustcVersionFacts {
    /// Whether the `rustc` in `PATH` is managed by rustup.
    pub rustup_managed: Option<bool>,
    /// The toolchain override in effect (see `get_env_toolchain_override`).
    pub toolchain_override: Option<Option<String>>,
    /// The `rustc --version` line read from the toolchain's installed files.
    pub toolchain_dir_version: Option<Option<String>>,
    /// What running that toolchain's `rustc --version` came to.
    pub run_rustc: Option<RustupRunRustcVersionOutcome>,
}

/// The outside work that finding the version may need.
#[derive(Debug, PartialEq, Clone)]
pub enum RustcVersionQuery {
    /// Whether the `rustc` in `PATH` is managed by rustup.
    RustupManaged,
    /// The toolchain override in effect.
    ToolchainOverride,
    /// The version recorded in the installed files of this toolchain.
    ToolchainDirVersion(String),
    /// Running `rustc --version` of this toolchain.
    RunRustc(String),
}

fn clone_outcome(o: &RustupRunRustcVersionOutcome) -> (r: RustupRunRustcVersionOutcome)
    ensures
        r == *o,
{
    match o {
        RustupRunRustcVersionOutcome::RustcVersion(v) => RustupRunRustcVersionOutcome::RustcVersion(
            v.clone(),
        ),
        RustupRunRustcVersionOutcome::ToolchainNotInstalled(n) =>
            RustupRunRustcVersionOutcome::ToolchainNotInstalled(n.clone()),
        RustupRunRustcVersionOutcome::ToolchainUnknown =>
            RustupRunRustcVersionOutcome::ToolchainUnknown,
        RustupRunRustcVersionOutcome::RustupNotWorking =>
            RustupRunRustcVersionOutcome::RustupNotWorking,
        RustupRunRustcVersionOutcome::Error => RustupRunRustcVersionOutcome::Error,
    }
}

/// The next move in finding what `rustc --version` the toolchain in effect
/// gives, without running a `rustc` that could install a toolchain: a `rustc`
/// not managed by rustup means rustup is not working; with no override the
/// toolchain is unknown; otherwise the version recorded in the toolchain's
/// files is used, and failing that the toolchain's `rustc` is run.
pub fn get_rustup_rustc_version(facts: &RustcVersionFacts) -> (r: Step<
    RustcVersionQuery,
    RustupRunRustcVersionOutcome,
>)
    ensures
        facts.rustup_managed is None ==> r == Step::<
            RustcVersionQuery,
            RustupRunRustcVersionOutcome,
        >::Ask(RustcVersionQuery::RustupManaged),
        facts.rustup_managed == Some(false) ==> r == Step::<
            RustcVersionQuery,
            RustupRunRustcVersionOutcome,
        >::Done(RustupRunRustcVersionOutcome::RustupNotWorking),
        facts.rustup_managed == Some(true) ==> match facts.toolchain_override {
            None => r == Step::<RustcVersionQuery, RustupRunRustcVersionOutcome>::Ask(
                RustcVersionQuery::ToolchainOverride,
            ),
            Some(None) => r == Step::<RustcVersionQuery, RustupRunRustcVersionOutcome>::Done(
                RustupRunRustcVersionOutcome::ToolchainUnknown,
            ),
            Some(Some(tc)) => match facts.toolchain_dir_version {
                None => r == Step::<RustcVersionQuery, RustupRunRustcVersionOutcome>::Ask(
                    RustcVersionQuery::ToolchainDirVersion(tc),
                ),
                Some(Some(v)) => r == Step::<RustcVersionQuery, RustupRunRustcVersionOutcome>::Done(
                    RustupRunRustcVersionOutcome::RustcVersion(v),
                ),
                Some(None) => match facts.run_rustc {
                    None => r == Step::<RustcVersionQuery, RustupRunRustcVersionOutcome>::Ask(
                        RustcVersionQuery::RunRustc(tc),
                    ),
                    Some(o) => r == Step::<RustcVersionQuery, RustupRunRustcVersionOutcome>::Done(
                        o,
                    ),
                },
            },
        },
{
    match facts.rustup_managed {
        None => Step::Ask(RustcVersionQuery::RustupManaged),
        Some(false) => Step::Done(RustupRunRustcVersionOutcome::RustupNotWorking),
        Some(true) => match &facts.toolchain_override {
            None => Step::Ask(RustcVersionQuery::ToolchainOverride),
            Some(None) => Step::Done(RustupRunRustcVersionOutcome::ToolchainUnknown),
            Some(Some(tc)) => match &facts.toolchain_dir_version {
                None => Step::Ask(RustcVersionQuery::ToolchainDirVersion(tc.clone())),
                Some(Some(v)) => Step::Done(RustupRunRustcVersionOutcome::RustcVersion(v.clone())),
                Some(None) => match &facts.run_rustc {
                    None => Step::Ask(RustcVersionQuery::RunRustc(tc.clone())),
                    Some(o) => Step::Done(clone_outcome(o)),
                },
            },
        },
    }
}

/// The version in `rustc --version` style that a toolchain's installed files
/// record: from its man page header when that has the full form.
pub fn version_from_man_page(man: &str) -> (r: Option<String>)
    ensures
        opt_view(r) == match man_page_version(man@) {
            Some(v) => Some("rustc "@ + v),
            None => None,
        },
{
    match scan_man_page_rust_version(man) {
        Some(v) => {
            let mut out = "rustc ".to_owned();
            out.append(v);
            Some(out)
        },
        None => None,
    }
}

/// The version in `rustc --version` style recorded in a toolchain's channel manifest.
pub fn version_from_manifest(manifest: &str) -> (r: Option<String>)
    ensures
        opt_view(r) == match manifest_version(manifest@) {
            Some(v) => Some("rustc "@ + v),
            None => None,
        },
{
    match scan_manifest_rust_version(manifest) {
        Some(v) => {
            let mut out = "rustc ".to_owned();
            out.append(v);
            Some(out)
        },
        None => None,
    }
}

/// A file of a toolchain directory that its version is read from.
#[derive(Debug, PartialEq, Clone, Copy)]
pub enum ToolchainVersionFile {
    /// `share/man/man1/rustc.1`.
    ManPage,
    /// `lib/rustlib/multirust-channel-manifest.toml`.
    Manifest,
}

/// The version read from a toolchain directory: its man page is read first,
/// and the channel manifest only when the man page gives no version. Each
/// file is `None` until it was read, and `Some(None)` when it could not be.
pub open spec fn toolchain_dir_version(
    man_page: Option<Option<Seq<char>>>,
    manifest: Option<Option<Seq<char>>>,
) -> Step<ToolchainVersionFile, Option<Seq<char>>> {
    match man_page {
        None => Step::Ask(ToolchainVersionFile::ManPage),
        Some(man) => {
            let from_man = match man {
                Some(m) => man_page_version(m),
                None => None,
            };
            match from_man {
                Some(v) => Step::Done(Some("rustc "@ + v)),
                None => match manifest {
                    None => Step::Ask(ToolchainVersionFile::Manifest),
                    Some(None) => Step::Done(None),
                    Some(Some(c)) => match manifest_version(c) {
                        Some(v) => Step::Done(Some("rustc "@ + v)),
                        None => Step::Done(None),
                    },
                },
            }
        },
    }
}

/// The contents of a file that may have been read, by their view.
pub open spec fn read_view(file: Option<Option<&str>>) -> Option<Option<Seq<char>>> {
    match file {
        Some(f) => Some(opt_str_view(f)),
        None => None,
    }
}

pub open spec fn version_step_view(step: Step<ToolchainVersionFile, Option<String>>) -> Step<
    ToolchainVersionFile,
    Option<Seq<char>>,
> {
    match step {
        Step::Ask(q) => Step::Ask(q),
        Step::Done(t) => Step::Done(opt_view(t)),
    }
}

/// The next move in reading the version of a toolchain directory, given what
/// was read of its man page and channel manifest so far (see
/// `toolchain_dir_version`).
pub fn get_version_from_toolchain_dir(
    man_page: Option<Option<&str>>,
    manifest: Option<Option<&str>>,
) -> (r: Step<ToolchainVersionFile, Option<String>>)
    ensures
        version_step_view(r) == toolchain_dir_version(read_view(man_page), read_view(manifest)),
{
    let from_man = match man_page {
        None => return Step::Ask(ToolchainVersionFile::ManPage),
        Some(Some(m)) => version_from_man_page(m),
        Some(None) => None,
    };
    match from_man {
        Some(v) => Step::Done(Some(v)),
        None => match manifest {
            None => Step::Ask(ToolchainVersionFile::Manifest),
            Some(None) => Step::Done(None),
            Some(Some(c)) => Step::Done(version_from_manifest(c)),
        },
    }
}

/// The directory names under rustup's `toolchains` directory that a toolchain
/// may be installed in, in the order they are to be tried: the name itself,
/// then the name completed with the host triple. A path-based toolchain (a
/// custom toolchain directory) has none: its files may not match its compiler.
pub fn find_toolchain_dir(toolchain: &str, host_triple: Option<&str>) -> (r: Option<Vec<String>>)
    ensures
        depth(toolchain@) > 1 ==> r is None,
        depth(toolchain@) <= 1 ==> (r matches Some(names) && strings_view(names@) == match host_triple {
            Some(t) => seq![toolchain@, toolchain@ + "-"@ + t@],
            None => seq![toolchain@],
        }),
{
    let parts = components(toolchain);
    if parts.len() > 1 {
        return None;
    }
    let mut names: Vec<String> = Vec::new();
    names.push(toolchain.to_owned());
    match host_triple {
        Some(t) => {
            let mut q = toolchain.to_owned();
            q.append("-");
            q.append(t);
            names.push(q);
            assert(strings_view(names@) =~= seq![toolchain@, toolchain@ + "-"@ + t@]);
        },
        None => {
            assert(strings_view(names@) =~= seq![toolchain@]);
        },
    }
    Some(names)
}

/// The first of `entries` (names found under rustup's `toolchains`
/// directory) that begins with `<toolchain>-`.
pub fn first_toolchain_entry(entries: &Vec<String>, toolchain: &str) -> (r: Option<usize>)
    ensures
        match r {
            Some(i) => i < entries.len() && (toolchain@ + "-"@).is_prefix_of(entries@[i as int]@)
                && forall|j: int|
                0 <= j < i ==> !(toolchain@ + "-"@).is_prefix_of(#[trigger] entries@[j]@),
            None => forall|j: int|
                0 <= j < entries.len() ==> !(toolchain@ + "-"@).is_prefix_of(
                    #[trigger] entries@[j]@,
                ),
        },
{
    let mut prefix = toolchain.to_owned();
    prefix.append("-");
    let pat = chars_of(prefix.as_str());
    let mut k: usize = 0;
    while k < entries.len()
        invariant
            k <= entries.len(),
            pat@ == toolchain@ + "-"@,
            forall|j: int| 0 <= j < k ==> !(toolchain@ + "-"@).is_prefix_of(#[trigger] entries@[j]@),
        decreases entries.len() - k,
    {
        let e = chars_of(entries[k].as_str());
        assert(e@.subrange(0, e.len() as int) =~= e@);
        if has_at(&e, 0, e.len(), &pat) {
            return Some(k);
        }
        k = k + 1;
    }
    None
}

// ---------------------------------------------------------------------------
// The values the module shows
/// The outside work that a shown value may need.
#[derive(Debug, PartialEq, Clone, Copy)]
pub enum RustcQuery {
    /// The output of `rustc --version`, run where no toolchain can be installed.
    RustcVersion,
    /// What `rustc -vV` reports (see `get_rustc_verbose_version`).
    RustcVerbose,
}

/// How a `rustc --version` line is shown: its second word rendered through
/// `version_format`, or `v<version>` when the format cannot be used.
pub open spec fn rustc_version_text(rustc_version: Seq<char>, version_format: Seq<char>) -> Option<
    Seq<char>,
> {
    let ws = words(rustc_version);
    if ws.len() < 2 {
        None
    } else {
        match render_version(version_format, ws[1]) {
            Some(t) => Some(t),
            None => Some("v"@ + ws[1]),
        }
    }
}

/// Formats the version in a `rustc --version` line such as
/// `rustc 1.34.0 (91856ed52 2019-04-10)`.
pub fn format_rustc_version(rustc_version: &str, version_format: &str) -> (r: Option<String>)
    ensures
        opt_view(r) == rustc_version_text(rustc_version@, version_format@),
{
    let cs = chars_of(rustc_version);
    let (a, b) = match nth_word(&cs, 1) {
        Some(p) => p,
        None => return None,
    };
    let version = rustc_version.substring_char(a, b);
    match VersionFormatter::format_version(version, version_format) {
        Some(formatted) => Some(formatted),
        None => {
            let mut out = "v".to_owned();
            out.append(version);
            Some(out)
        },
    }
}

/// The output of `rustc --version`, when there is any.
pub fn execute_rustc_version(stdout: Option<String>) -> (r: Option<String>)
    ensures
        opt_view(r) == match opt_view(stdout) {
            Some(s) => if s.len() > 0 {
                Some(s)
            } else {
                None
            },
            None => None,
        },
{
    match stdout {
        Some(s) => if s.as_str().is_empty() {
            None
        } else {
            Some(s)
        },
        None => None,
    }
}

/// The `version` the module shows, or the work it needs first: the formatted
/// version for a known `rustc --version`, the name of a toolchain that is not
/// installed, nothing after an error, and otherwise the plain `rustc --version`
/// (which cannot install a toolchain then) is needed.
pub fn get_module_version(outcome: &RustupRunRustcVersionOutcome, version_format: &str) -> (r: Step<
    RustcQuery,
    Option<String>,
>)
    ensures
        match outcome {
            RustupRunRustcVersionOutcome::RustcVersion(v) => (r matches Step::Done(t) && opt_view(
                t,
            ) == rustc_version_text(v@, version_format@)),
            RustupRunRustcVersionOutcome::ToolchainNotInstalled(n) => (r matches Step::Done(t)
                && opt_view(t) == Some(n@)),
            RustupRunRustcVersionOutcome::Error => (r matches Step::Done(t) && t is None),
            _ => r == Step::<RustcQuery, Option<String>>::Ask(RustcQuery::RustcVersion),
        },
{
    match outcome {
        RustupRunRustcVersionOutcome::RustcVersion(v) => Step::Done(
            format_rustc_version(v.as_str(), version_format),
        ),
        RustupRunRustcVersionOutcome::ToolchainNotInstalled(n) => Step::Done(Some(n.clone())),
        RustupRunRustcVersionOutcome::Error => Step::Done(None),
        _ => Step::Ask(RustcQuery::RustcVersion),
    }
}

/// The `version` the module shows from the output of the plain `rustc --version`.
pub fn module_version_from_rustc(stdout: Option<String>, version_format: &str) -> (r: Option<
    String,
>)
    ensures
        opt_view(r) == match opt_view(stdout) {
            Some(s) => if s.len() > 0 {
                rustc_version_text(s, version_format@)
            } else {
                None
            },
            None => None,
        },
{
    match execute_rustc_version(stdout) {
        Some(out) => format_rustc_version(out.as_str(), version_format),
        None => None,
    }
}

/// The release in a `rustc --version` line: its second word, or the whole
/// line when it has no second word.
pub open spec fn release_of(rustc_version: Seq<char>) -> Seq<char> {
    if words(rustc_version).len() >= 2 {
        words(rustc_version)[1]
    } else {
        rustc_version
    }
}

/// The `numver` the module shows, or the work it needs first: `v<major.minor.patch>`
/// of a known version, nothing for a toolchain that is not installed or after
/// an error, and otherwise what `rustc -vV` reports is needed.
pub fn get_module_numeric_version(outcome: &RustupRunRustcVersionOutcome) -> (r: Step<
    RustcQuery,
    Option<String>,
>)
    ensures
        match outcome {
            RustupRunRustcVersionOutcome::RustcVersion(v) => (r matches Step::Done(t) && opt_view(
                t,
            ) == Some(semver_text(release_of(v@)))),
            RustupRunRustcVersionOutcome::ToolchainNotInstalled(_) => (r matches Step::Done(t)
                && t is None),
            RustupRunRustcVersionOutcome::Error => (r matches Step::Done(t) && t is None),
            _ => r == Step::<RustcQuery, Option<String>>::Ask(RustcQuery::RustcVerbose),
        },
{
    match outcome {
        RustupRunRustcVersionOutcome::RustcVersion(v) => {
            let cs = chars_of(v.as_str());
            let release = match nth_word(&cs, 1) {
                Some((a, b)) => v.as_str().substring_char(a, b),
                None => v.as_str(),
            };
            Step::Done(Some(format_semver(release)))
        },
        RustupRunRustcVersionOutcome::ToolchainNotInstalled(_) => Step::Done(None),
        RustupRunRustcVersionOutcome::Error => Step::Done(None),
        _ => Step::Ask(RustcQuery::RustcVerbose),
    }
}

/// The `toolchain` the module shows, or the work it needs first: the override
/// in effect (shortened by the host triple) when rustup could be asked about
/// it, nothing after an error, and otherwise what `rustc -vV` reports is
/// needed. An outcome reached through rustup always comes with an override.
pub fn get_toolchain_version(
    outcome: &RustupRunRustcVersionOutcome,
    toolchain_override: Option<&str>,
    default_host_triple: Option<&str>,
) -> (r: Step<RustcQuery, Option<String>>)
    requires
        (outcome is RustcVersion || outcome is ToolchainNotInstalled) ==> toolchain_override is Some,
    ensures
        match outcome {
            RustupRunRustcVersionOutcome::RustcVersion(_)
            | RustupRunRustcVersionOutcome::ToolchainNotInstalled(_) => (r matches Step::Done(t)
                && opt_view(t) == Some(
                toolchain_text(toolchain_override->0@, opt_str_view(default_host_triple)),
            )),
            RustupRunRustcVersionOutcome::Error => (r matches Step::Done(t) && t is None),
            _ => r == Step::<RustcQuery, Option<String>>::Ask(RustcQuery::RustcVerbose),
        },
{
    match outcome {
        RustupRunRustcVersionOutcome::RustcVersion(_)
        | RustupRunRustcVersionOutcome::ToolchainNotInstalled(_) => {
            let tc = match toolchain_override {
                Some(t) => t,
                None => {
                    assert(false);
                    ""
                },
            };
            Step::Done(Some(format_toolchain(tc, default_host_triple)))
        },
        RustupRunRustcVersionOutcome::Error => Step::Done(None),
        _ => Step::Ask(RustcQuery::RustcVerbose),
    }
}

/// What `rustc -vV` reports, from its exit status and output: nothing when it
/// failed or printed something other than UTF-8, and otherwise the version and
/// toolchain read by `format_rustc_version_verbose`, the toolchain being rustup's
/// default one when there is one.
pub fn get_rustc_verbose_version(success: bool, stdout: Vec<u8>, default_toolchain: Option<&str>) -> (r:
    Option<(String, String)>)
    ensures
        !success ==> r is None,
        success && !valid_utf8(stdout@) ==> r is None,
        success && valid_utf8(stdout@) ==> (r is Some <==> verbose_version(
            decode_utf8(stdout@),
            opt_str_view(default_toolchain),
        ) is Some),
        success && valid_utf8(stdout@) ==> (r matches Some((v, t)) ==> (v@, t@) == verbose_version(
            decode_utf8(stdout@),
            opt_str_view(default_toolchain),
        )->0),
{
    if !success {
        return None;
    }
    match string_from_utf8(stdout) {
        Some(out) => format_rustc_version_verbose(out.as_str(), default_toolchain),
        None => None,
    }
}

/// The values the module can show.
#[derive(Debug, PartialEq, Clone, Copy)]
pub enum RustVariable {
    /// `$version`: the formatted version.
    Version,
    /// `$numver`: the numeric version.
    NumericVersion,
    /// `$toolchain`: the toolchain in effect.
    Toolchain,
}

/// Which value a variable of the format stands for.
pub fn map_variable(variable: &str) -> (r: Option<RustVariable>)
    ensures
        r == if variable@ == "version"@ {
            Some(RustVariable::Version)
        } else if variable@ == "numver"@ {
            Some(RustVariable::NumericVersion)
        } else if variable@ == "toolchain"@ {
            Some(RustVariable::Toolchain)
        } else {
            None
        },
{
    if str_eq(variable, "version") {
        Some(RustVariable::Version)
    } else if str_eq(variable, "numver") {
        Some(RustVariable::NumericVersion)
    } else if str_eq(variable, "toolchain") {
        Some(RustVariable::Toolchain)
    } else {
        None
    }
}

/// The text of a meta variable of the format: `$symbol` is the configured symbol.
pub fn map_meta<'a>(config: &RustConfig<'a>, variable: &str) -> (r: Option<&'a str>)
    ensures
        r == if variable@ == "symbol"@ {
            Some(config.symbol)
        } else {
            None
        },
{
    if str_eq(variable, "symbol") {
        Some(config.symbol)
    } else {
        None
    }
}

/// The style of a style variable of the format: `$style` is the configured style.
pub fn map_style<'a>(config: &RustConfig<'a>, variable: &str) -> (r: Option<&'a str>)
    ensures
        r == if variable@ == "style"@ {
            Some(config.style)
        } else {
            None
        },
{
    if str_eq(variable, "style") {
        Some(config.style)
    } else {
        None
    }
}

/// Creates the module with the current Rust version: it shows only in a Rust
/// project (by the configured files, extensions and folders), with the
/// configured format.
pub fn module<'a>(config: &RustConfig<'a>, is_rs_project: bool) -> (r: Option<&'a str>)
    ensures
        r == if is_rs_project {
            Some(config.format)
        } else {
            None
        },
{
    if !is_rs_project {
        return None;
    }
    Some(config.format)
}

// ---------------------------------------------------------------------------
// Whether rustup manages `rustc`
/// Whether `path` lies under the directory `dir` joined with `sub`.
pub open spec fn lies_under(path: Seq<char>, dir: Seq<char>, sub: Seq<char>) -> bool {
    (path_components(dir).push(sub)).is_prefix_of(path_components(path))
}

fn under_dir(path_parts: &Vec<String>, dir: &str, sub: &str) -> (r: bool)
    requires
        sub@.len() > 0,
        sub@ != seq!['.'],
        !sub@.contains('/'),
    ensures
        r == (path_components(dir@).push(sub@)).is_prefix_of(strings_view(path_parts@)),
{
    let mut parts = components(dir);
    let ghost before = strings_view(parts@);
    parts.push(sub.to_owned());
    assert(strings_view(parts@) =~= before.push(sub@));
    components_prefix(&parts, path_parts)
}

/// Whether the `rustc` found in `PATH` (at `rustc_path`, symlinks resolved) is
/// managed by rustup: it lies under `$RUSTUP_HOME/toolchains` or
/// `$CARGO_HOME/bin`, or a `rustup` binary sits next to it.
pub fn rustc_is_rustup_managed(
    rustc_path: &str,
    rustup_home: Option<&str>,
    cargo_home: Option<&str>,
    next_to_rustup: bool,
) -> (r: bool)
    ensures
        r == ((rustup_home is Some && lies_under(rustc_path@, rustup_home->0@, "toolchains"@)) || (
        cargo_home is Some && lies_under(rustc_path@, cargo_home->0@, "bin"@)) || next_to_rustup),
{
    proof {
        reveal_strlit("toolchains");
        reveal_strlit("bin");
        assert("toolchains"@.len() == 10 && "bin"@.len() == 3);
        assert(!"toolchains"@.contains('/'));
        assert(!"bin"@.contains('/'));
    }
    let here = components(rustc_path);
    let under_rustup = match rustup_home {
        Some(h) => under_dir(&here, h, "toolchains"),
        None => false,
    };
    let under_cargo = match cargo_home {
        Some(h) => under_dir(&here, h, "bin"),
        None => false,
    };
    under_rustup || under_cargo || next_to_rustup
}

// ---------------------------------------------------------------------------
// Laws
/// Once a source names a toolchain, it decides: whatever the sources after it
/// would answer, the override is that toolchain.
pub proof fn lemma_first_source_decides(
    a: Seq<Option<Seq<char>>>,
    b: Seq<Option<Seq<char>>>,
    k: int,
)
    requires
        0 <= k < a.len(),
        k < b.len(),
        a[k] is Some,
        forall|j: int| 0 <= j < k ==> a[j] is None,
        forall|j: int| 0 <= j <= k ==> b[j] == a[j],
    ensures
        override_decision(a) == Step::<OverrideSource, Option<Seq<char>>>::Done(a[k]),
        override_decision(b) == override_decision(a),
{
    lemma_first_answer(a, 0, k);
    lemma_first_answer(b, 0, k);
}

proof fn lemma_first_answer(a: Seq<Option<Seq<char>>>, i: int, k: int)
    requires
        0 <= i <= k < a.len(),
        a[k] is Some,
        forall|j: int| i <= j < k ==> a[j] is None,
    ensures
        first_answer_from(a, i) == k,
    decreases k - i,
{
    if i < k {
        lemma_first_answer(a, i + 1, k);
    }
}

/// The sources are asked in order of precedence, and only while none of them
/// has named a toolchain.
pub proof fn lemma_asks_in_order(answers: Seq<Option<Seq<char>>>)
    requires
        override_decision(answers) is Ask,
    ensures
        answers.len() < override_source_count(),
        forall|j: int| 0 <= j < answers.len() ==> answers[j] is None,
        override_decision(answers) == Step::<OverrideSource, Option<Seq<char>>>::Ask(
            override_source(answers.len() as int),
        ),
{
    assert forall|j: int| 0 <= j < answers.len() implies answers[j] is None by {
        if answers[j] is Some {
            lemma_first_answer_bound(answers, 0, j);
        }
    }
}

proof fn lemma_first_answer_bound(a: Seq<Option<Seq<char>>>, i: int, j: int)
    requires
        0 <= i <= j < a.len(),
        a[j] is Some,
    ensures
        first_answer_from(a, i) <= j,
    decreases j - i,
{
    if i < j && a[i] is None {
        lemma_first_answer_bound(a, i + 1, j);
    }
}

/// Once the toolchain override is decided it stays decided: however the
/// sources that were not asked would have answered, the decision is the same,
/// so a second lookup needs to ask none of them.
pub proof fn lemma_override_decided_once(
    answers: Seq<Option<Seq<char>>>,
    later: Seq<Option<Seq<char>>>,
)
    requires
        override_decision(answers) is Done,
        answers.len() + later.len() <= override_source_count(),
    ensures
        override_decision(answers + later) == override_decision(answers),
{
    let all = answers + later;
    let k = first_answer_from(answers, 0);
    lemma_first_answer_is_some(answers, 0);
    if k < answers.len() {
        assert forall|j: int| 0 <= j < k implies answers[j] is None by {
            if answers[j] is Some {
                lemma_first_answer_bound(answers, 0, j);
            }
        }
        lemma_first_answer(answers, 0, k);
        assert forall|j: int| 0 <= j < k implies all[j] is None by {
            assert(all[j] == answers[j]);
        }
        assert(all[k] == answers[k]);
        lemma_first_answer(all, 0, k);
    } else {
        assert(later.len() == 0);
        assert(all =~= answers);
    }
}

proof fn lemma_first_answer_is_some(a: Seq<Option<Seq<char>>>, i: int)
    requires
        0 <= i,
    ensures
        0 <= first_answer_from(a, i) <= a.len(),
        first_answer_from(a, i) < a.len() ==> a[first_answer_from(a, i)] is Some,
    decreases a.len() - i,
{
    if i < a.len() && a[i] is None {
        lemma_first_answer_is_some(a, i + 1);
    }
}

/// Toolchain files are read nearest directory first, `rust-toolchain` before
/// `rust-toolchain.toml` in each directory, and only while none of the files
/// read has named a toolchain; the file read next decides when it names one.
pub proof fn lemma_toolchain_files_in_order(
    dir_count: usize,
    answers: Seq<Option<Seq<char>>>,
    named: Seq<char>,
)
    requires
        toolchain_file_decision(dir_count as nat, answers) is Ask,
    ensures
        forall|j: int| 0 <= j < answers.len() ==> answers[j] is None,
        answers.len() < 2 * dir_count,
        toolchain_file_decision(dir_count as nat, answers) == Step::<
            ToolchainFileQuery,
            Option<Seq<char>>,
        >::Ask(toolchain_file_candidate(answers.len() as int)),
        toolchain_file_candidate(answers.len() as int).up == answers.len() / 2,
        toolchain_file_candidate(answers.len() as int).toml == (answers.len() % 2 == 1),
        toolchain_file_decision(dir_count as nat, answers.push(Some(named))) == Step::<
            ToolchainFileQuery,
            Option<Seq<char>>,
        >::Done(Some(named)),
{
    assert forall|j: int| 0 <= j < answers.len() implies answers[j] is None by {
        if answers[j] is Some {
            lemma_first_answer_bound(answers, 0, j);
        }
    }
    let longer = answers.push(Some(named));
    assert forall|j: int| 0 <= j < answers.len() implies longer[j] is None by {
        assert(longer[j] == answers[j]);
    }
    lemma_first_answer(longer, 0, answers.len() as int);
}

/// A toolchain directory's man page is read before its channel manifest: the
/// manifest is asked for only once the man page was read and gave no version,
/// and a man page that gives one decides, whatever the manifest holds.
pub proof fn lemma_man_page_before_manifest(
    man_page: Option<Option<Seq<char>>>,
    manifest: Option<Option<Seq<char>>>,
    other_manifest: Option<Option<Seq<char>>>,
)
    ensures
        toolchain_dir_version(man_page, manifest) == Step::<
            ToolchainVersionFile,
            Option<Seq<char>>,
        >::Ask(ToolchainVersionFile::Manifest) ==> (man_page matches Some(m) && (m is None
            || man_page_version(m->0) is None)),
        (man_page matches Some(Some(m)) && man_page_version(m) is Some) ==> toolchain_dir_version(
            man_page,
            manifest,
        ) == toolchain_dir_version(man_page, other_manifest),
{
}

/// A formatted release starts with `v` and holds no pre-release part: no `-`
/// follows the `v`.
pub proof fn lemma_semver_text(semver: Seq<char>)
    ensures
        semver_text(semver).len() >= 1,
        semver_text(semver)[0] == 'v',
        forall|i: int| 1 <= i < semver_text(semver).len() ==> semver_text(semver)[i] != '-',
{
    reveal_strlit("v");
    lemma_find_char_from(semver, '-', 0);
    assert("v"@.len() == 1);
}

/// A shortened toolchain name is a leading part of the full name, and no
/// longer ends with `-<host triple>`.
pub proof fn lemma_toolchain_text(toolchain: Seq<char>, triple: Seq<char>)
    ensures
        toolchain_text(toolchain, Some(triple)).is_prefix_of(toolchain),
        !(seq!['-'] + triple).is_suffix_of(toolchain_text(toolchain, Some(triple))),
    decreases toolchain.len(),
{
    let pat = seq!['-'] + triple;
    if pat.is_suffix_of(toolchain) {
        let shorter = toolchain.take(toolchain.len() - pat.len());
        lemma_toolchain_text(shorter, triple);
        assert(toolchain_text(toolchain, Some(triple)) == toolchain_text(shorter, Some(triple)));
        let r = toolchain_text(shorter, Some(triple));
        assert(r =~= toolchain.subrange(0, r.len() as int));
    } else {
        assert(toolchain =~= toolchain.subrange(0, toolchain.len() as int));
    }
}

/// A version read from a man page header is in the full form: it begins with
/// a digit, holds ` (` and ends with `)`.
pub proof fn lemma_man_page_version_form(content: Seq<char>)
    requires
        man_page_version(content) is Some,
    ensures
        ({
            let v = man_page_version(content)->0;
            v.len() > 0 && is_ascii_digit(v[0]) && find_sub_from(v, " ("@, 0) >= 0 && v.last()
                == ')'
        }),
{
}

/// A toolchain file's channel, once accepted, is trimmed, not blank, and a
/// name that rustup accepts.
pub proof fn lemma_accepted_channel(channel: Option<Seq<char>>)
    requires
        accepted_channel(channel) is Some,
    ensures
        ({
            let t = accepted_channel(channel)->0;
            t.len() > 0 && trim(t) == t && valid_toolchain_name(t)
        }),
{
    let c = channel->0;
    crate::text::lemma_trim_idempotent(c);
}

/// With the default version format `v${raw}`, a `rustc --version` line shows
/// as `v` followed by its version word.
pub proof fn lemma_default_format_rustc_version(rustc_version: Seq<char>)
    requires
        words(rustc_version).len() >= 2,
    ensures
        rustc_version_text(rustc_version, "v${raw}"@) == Some("v"@ + words(rustc_version)[1]),
{
    crate::formatter::lemma_default_version_format(words(rustc_version)[1]);
}

/// An override applies in its own directory.
pub proof fn lemma_override_applies_in_its_directory(dir: Seq<char>)
    ensures
        override_applies(dir, dir),
{
    assert(path_components(dir) =~= path_components(dir).subrange(0, path_components(dir).len() as int));
}

} // verus!

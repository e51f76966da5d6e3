//! Paths as `/`-separated components, as `std::path::Path` reads them on Unix,
//! and with `\` separating components as well, as Windows reads them.
use vstd::prelude::*;
use crate::text::{chars_of, find_char, find_char_from, lemma_find_char_from};

verus! {

/// The views of a sequence of strings.
pub open spec fn strings_view(v: Seq<String>) -> Seq<Seq<char>> {
    v.map_values(|x: String| x@)
}

/// The named components of `s` from index `i` on: the text between
/// separators, where repeated separators and `.` components are dropped.
pub open spec fn segments_from(s: Seq<char>, i: int) -> Seq<Seq<char>>
    decreases s.len() - i,
{
    if i < 0 || i >= s.len() {
        Seq::empty()
    } else if s[i] == '/' {
        segments_from(s, i + 1)
    } else {
        let e = find_char_from(s, '/', i);
        proof {
            lemma_find_char_from(s, '/', i);
        }
        if s.subrange(i, e) == seq!['.'] {
            segments_from(s, e)
        } else {
            seq![s.subrange(i, e)] + segments_from(s, e)
        }
    }
}

/// Whether `s` is absolute: it begins at the root.
pub open spec fn is_absolute(s: Seq<char>) -> bool {
    s.len() > 0 && s[0] == '/'
}

/// Whether `s` begins with a `.` component, which is kept as one.
pub open spec fn starts_at_current_dir(s: Seq<char>) -> bool {
    s.len() > 0 && s[0] == '.' && (s.len() == 1 || s[1] == '/')
}

/// The components of the path `s` (`Path::components`): the root `/` for an
/// absolute path or a leading `.`, then the named components.
pub open spec fn path_components(s: Seq<char>) -> Seq<Seq<char>> {
    if is_absolute(s) {
        seq![seq!['/']] + segments_from(s, 0)
    } else if starts_at_current_dir(s) {
        seq![seq!['.']] + segments_from(s, 0)
    } else {
        segments_from(s, 0)
    }
}

/// Whether the path `base` is a leading part of the path `s`, compared
/// component by component (`Path::starts_with`).
pub open spec fn path_starts_with(s: Seq<char>, base: Seq<char>) -> bool {
    path_components(base).is_prefix_of(path_components(s))
}

/// The components of the path `s`.
pub fn components(s: &str) -> (r: Vec<String>)
    ensures
        strings_view(r@) == path_components(s@),
{
    let cs = chars_of(s);
    let ghost v = cs@;
    let mut out: Vec<String> = Vec::new();
    if cs.len() > 0 && (cs[0] == '/' || (cs[0] == '.' && (cs.len() == 1 || cs[1] == '/'))) {
        let first = s.substring_char(0, 1).to_owned();
        assert(first@ =~= seq![cs@[0]]);
        out.push(first);
    }
    let ghost lead = strings_view(out@);
    assert(path_components(v) =~= lead + segments_from(v, 0));
    let mut i: usize = 0;
    while i < cs.len()
        invariant
            cs@ == v,
            v == s@,
            i <= cs.len(),
            path_components(v) == strings_view(out@) + segments_from(v, i as int),
        decreases cs.len() - i,
    {
        if cs[i] == '/' {
            i = i + 1;
        } else {
            let e = find_char(&cs, '/', i);
            proof {
                lemma_find_char_from(v, '/', i as int);
            }
            if e == i + 1 && cs[i] == '.' {
                assert(v.subrange(i as int, e as int) =~= seq!['.']);
            } else {
                let seg = s.substring_char(i, e).to_owned();
                let ghost before = strings_view(out@);
                proof {
                    if v.subrange(i as int, e as int) == seq!['.'] {
                        assert(v.subrange(i as int, e as int).len() == 1);
                        assert(v.subrange(i as int, e as int)[0] == '.');
                        assert(v[i as int] == '.');
                    }
                }
                out.push(seg);
                assert(strings_view(out@) =~= before.push(v.subrange(i as int, e as int)));
                assert(before + (seq![v.subrange(i as int, e as int)] + segments_from(v, e as int))
                    =~= before.push(v.subrange(i as int, e as int)) + segments_from(v, e as int));
            }
            i = e;
        }
    }
    assert(segments_from(v, i as int) =~= Seq::<Seq<char>>::empty());
    assert(path_components(v) =~= strings_view(out@));
    out
}

/// `s` as Windows separates it: `\` separates components as `/` does.
pub open spec fn windows_separated(s: Seq<char>) -> Seq<char> {
    s.map_values(|c: char| if c == '\\' { '/' } else { c })
}

/// The first index at or after `i` of a `/` or a `\` in `cs`, or `cs.len()`.
fn find_windows_separator(cs: &Vec<char>, i: usize) -> (r: usize)
    requires
        i <= cs.len(),
    ensures
        r == find_char_from(windows_separated(cs@), '/', i as int),
        i <= r <= cs.len(),
{
    let ghost m = windows_separated(cs@);
    proof {
        lemma_find_char_from(m, '/', i as int);
    }
    let mut k = i;
    while k < cs.len() && cs[k] != '/' && cs[k] != '\\'
        invariant
            i <= k <= cs.len(),
            m == windows_separated(cs@),
            find_char_from(m, '/', k as int) == find_char_from(m, '/', i as int),
        decreases cs.len() - k,
    {
        assert(m[k as int] != '/');
        k = k + 1;
    }
    if k < cs.len() {
        assert(m[k as int] == '/');
    }
    k
}

/// The components of the path `s` as Windows reads it, where `\` separates
/// components as `/` does.
pub fn windows_components(s: &str) -> (r: Vec<String>)
    ensures
        strings_view(r@) == path_components(windows_separated(s@)),
{
    let cs = chars_of(s);
    let ghost v = cs@;
    let ghost m = windows_separated(v);
    assert(m.len() == v.len());
    let mut out: Vec<String> = Vec::new();
    if cs.len() > 0 && (cs[0] == '/' || cs[0] == '\\') {
        let root = "/".to_owned();
        proof {
            reveal_strlit("/");
        }
        assert(root@ =~= seq!['/']);
        out.push(root);
    } else if cs.len() > 0 && cs[0] == '.' && (cs.len() == 1 || cs[1] == '/' || cs[1] == '\\') {
        let first = s.substring_char(0, 1).to_owned();
        assert(first@ =~= seq![cs@[0]]);
        out.push(first);
    }
    assert(path_components(m) =~= strings_view(out@) + segments_from(m, 0));
    let mut i: usize = 0;
    while i < cs.len()
        invariant
            cs@ == v,
            v == s@,
            m == windows_separated(v),
            m.len() == v.len(),
            i <= cs.len(),
            path_components(m) == strings_view(out@) + segments_from(m, i as int),
        decreases cs.len() - i,
    {
        if cs[i] == '/' || cs[i] == '\\' {
            assert(m[i as int] == '/');
            i = i + 1;
        } else {
            assert(m[i as int] == v[i as int]);
            let e = find_windows_separator(&cs, i);
            proof {
                lemma_find_char_from(m, '/', i as int);
                assert forall|j: int| i <= j < e implies m[j] == v[j] by {
                    assert(m[j] != '/');
                }
                assert(m.subrange(i as int, e as int) =~= v.subrange(i as int, e as int));
            }
            if e == i + 1 && cs[i] == '.' {
                assert(m.subrange(i as int, e as int) =~= seq!['.']);
            } else {
                let seg = s.substring_char(i, e).to_owned();
                let ghost before = strings_view(out@);
                proof {
                    if m.subrange(i as int, e as int) == seq!['.'] {
                        assert(m.subrange(i as int, e as int).len() == 1);
                        assert(m.subrange(i as int, e as int)[0] == '.');
                        assert(v[i as int] == '.');
                    }
                }
                out.push(seg);
                assert(strings_view(out@) =~= before.push(m.subrange(i as int, e as int)));
                assert(before + (seq![m.subrange(i as int, e as int)] + segments_from(m, e as int))
                    =~= before.push(m.subrange(i as int, e as int)) + segments_from(m, e as int));
            }
            i = e;
        }
    }
    assert(segments_from(m, i as int) =~= Seq::<Seq<char>>::empty());
    assert(path_components(m) =~= strings_view(out@));
    out
}

/// Whether the component list `a` is a leading part of `b`.
pub fn components_prefix(a: &Vec<String>, b: &Vec<String>) -> (r: bool)
    ensures
        r == strings_view(a@).is_prefix_of(strings_view(b@)),
{
    if a.len() > b.len() {
        return false;
    }
    let mut k: usize = 0;
    while k < a.len()
        invariant
            a.len() <= b.len(),
            k <= a.len(),
            forall|j: int| 0 <= j < k ==> a@[j]@ == b@[j]@,
        decreases a.len() - k,
    {
        if a[k] != b[k] {
            assert(strings_view(a@)[k as int] != strings_view(b@)[k as int]);
            return false;
        }
        k = k + 1;
    }
    assert(strings_view(a@) =~= strings_view(b@).subrange(0, a.len() as int));
    true
}

/// The extension of a file name (`Path::extension`): the text after its last
/// `.`, except when that `.` is the name's first character.
pub open spec fn file_extension(name: Seq<char>) -> Option<Seq<char>> {
    let k = last_dot_from(name, name.len() as int);
    if k <= 0 {
        None
    } else {
        Some(name.skip(k + 1))
    }
}

/// The index of the last `.` in `name.subrange(0, j)`, or `-1`.
pub open spec fn last_dot_from(name: Seq<char>, j: int) -> int
    decreases j,
{
    if j <= 0 || j > name.len() {
        -1
    } else if name[j - 1] == '.' {
        j - 1
    } else {
        last_dot_from(name, j - 1)
    }
}

/// The extension of the file name `name`.
pub fn extension_of(name: &str) -> (r: Option<&str>)
    ensures
        match r {
            Some(e) => file_extension(name@) == Some(e@),
            None => file_extension(name@) is None,
        },
{
    let cs = chars_of(name);
    let mut j = cs.len();
    while j > 0 && cs[j - 1] != '.'
        invariant
            j <= cs.len(),
            cs@ == name@,
            last_dot_from(cs@, j as int) == last_dot_from(cs@, cs.len() as int),
        decreases j,
    {
        j = j - 1;
    }
    if j <= 1 {
        None
    } else {
        Some(name.substring_char(j, cs.len()))
    }
}


/// The extension of a file name is what follows its last `.`: a stem that is
/// not empty, a `.` and a text without `.` have that text as extension, and
/// a name without any `.` has none.
pub proof fn lemma_extension_after_last_dot(stem: Seq<char>, ext: Seq<char>)
    requires
        stem.len() > 0,
        forall|i: int| 0 <= i < ext.len() ==> ext[i] != '.',
    ensures
        file_extension(stem + seq!['.'] + ext) == Some(ext),
        (forall|i: int| 0 <= i < stem.len() ==> stem[i] != '.') ==> file_extension(stem) is None,
{
    let name = stem + seq!['.'] + ext;
    lemma_last_dot_in_tail(name, stem.len() as int, name.len() as int);
    assert(name.skip(stem.len() + 1int) =~= ext);
    if forall|i: int| 0 <= i < stem.len() ==> stem[i] != '.' {
        lemma_no_dot(stem, stem.len() as int);
    }
}

proof fn lemma_last_dot_in_tail(name: Seq<char>, d: int, j: int)
    requires
        0 <= d < j <= name.len(),
        name[d] == '.',
        forall|i: int| d < i < j ==> name[i] != '.',
    ensures
        last_dot_from(name, j) == d,
    decreases j,
{
    if j - 1 > d {
        lemma_last_dot_in_tail(name, d, j - 1);
    }
}

proof fn lemma_no_dot(name: Seq<char>, j: int)
    requires
        0 <= j <= name.len(),
        forall|i: int| 0 <= i < j ==> name[i] != '.',
    ensures
        last_dot_from(name, j) == -1,
    decreases j,
{
    if j > 0 {
        lemma_no_dot(name, j - 1);
    }
}

} // verus!

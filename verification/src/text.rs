//! Character-level text model shared by the modules: whitespace, trimming,
//! words, lines, prefixes and suffixes, stated over `Seq<char>` and computed
//! over `Vec<char>`.
use vstd::prelude::*;

verus! {

/// The Unicode `White_Space` property, which `char::is_whitespace`,
/// `str::trim` and `str::split_whitespace` go by.
pub open spec fn is_ws(c: char) -> bool {
    let u = c as u32;
    ||| 0x09 <= u <= 0x0D
    ||| u == 0x20
    ||| u == 0x85
    ||| u == 0xA0
    ||| u == 0x1680
    ||| 0x2000 <= u <= 0x200A
    ||| u == 0x2028
    ||| u == 0x2029
    ||| u == 0x202F
    ||| u == 0x205F
    ||| u == 0x3000
}

pub fn is_whitespace(c: char) -> (b: bool)
    ensures
        b == is_ws(c),
{
    let u = c as u32;
    (0x09 <= u && u <= 0x0D) || u == 0x20 || u == 0x85 || u == 0xA0 || u == 0x1680 || (0x2000 <= u
        && u <= 0x200A) || u == 0x2028 || u == 0x2029 || u == 0x202F || u == 0x205F || u == 0x3000
}

/// The characters of a string, in order.
pub fn chars_of(s: &str) -> (v: Vec<char>)
    ensures
        v@ == s@,
{
    let mut v: Vec<char> = Vec::new();
    for c in it: s.chars()
        invariant
            v@ == it.seq().take(it.index() as int),
            it.seq() == s@,
    {
        v.push(c);
    }
    v
}

/// Whether two strings hold the same characters.
pub fn str_eq(a: &str, b: &str) -> (r: bool)
    ensures
        r == (a@ == b@),
{
    let x = chars_of(a);
    let y = chars_of(b);
    if x.len() != y.len() {
        return false;
    }
    let mut i: usize = 0;
    while i < x.len()
        invariant
            x@ == a@,
            y@ == b@,
            x.len() == y.len(),
            i <= x.len(),
            forall|k: int| 0 <= k < i ==> x@[k] == y@[k],
        decreases x.len() - i,
    {
        if x[i] != y[i] {
            return false;
        }
        i = i + 1;
    }
    assert(x@ =~= y@);
    true
}

/// The view of an optional string.
pub open spec fn opt_view(o: Option<String>) -> Option<Seq<char>> {
    match o {
        Some(s) => Some(s@),
        None => None,
    }
}

/// The view of an optional string slice.
pub open spec fn opt_str_view(o: Option<&str>) -> Option<Seq<char>> {
    match o {
        Some(s) => Some(s@),
        None => None,
    }
}

// ---------------------------------------------------------------------------
// Searching from a position
/// The first index at or after `i` that holds `c`, or `s.len()` when none does.
pub open spec fn find_char_from(s: Seq<char>, c: char, i: int) -> int
    decreases s.len() - i,
{
    if i < 0 || i >= s.len() {
        s.len() as int
    } else if s[i] == c {
        i
    } else {
        find_char_from(s, c, i + 1)
    }
}

/// The first index at or after `i` whose character is not whitespace, or `s.len()`.
pub open spec fn skip_ws_from(s: Seq<char>, i: int) -> int
    decreases s.len() - i,
{
    if i < 0 || i >= s.len() {
        s.len() as int
    } else if !is_ws(s[i]) {
        i
    } else {
        skip_ws_from(s, i + 1)
    }
}

/// The first index at or after `i` whose character is whitespace, or `s.len()`.
pub open spec fn skip_word_from(s: Seq<char>, i: int) -> int
    decreases s.len() - i,
{
    if i < 0 || i >= s.len() {
        s.len() as int
    } else if is_ws(s[i]) {
        i
    } else {
        skip_word_from(s, i + 1)
    }
}

/// The end of `s.subrange(0, j)` once trailing whitespace is dropped.
pub open spec fn trim_end_to(s: Seq<char>, j: int) -> int
    decreases j,
{
    if j <= 0 || j > s.len() {
        0
    } else if !is_ws(s[j - 1]) {
        j
    } else {
        trim_end_to(s, j - 1)
    }
}

pub proof fn lemma_find_char_from(s: Seq<char>, c: char, i: int)
    requires
        0 <= i <= s.len(),
    ensures
        i <= find_char_from(s, c, i) <= s.len(),
        find_char_from(s, c, i) < s.len() ==> s[find_char_from(s, c, i)] == c,
        forall|k: int| i <= k < find_char_from(s, c, i) ==> s[k] != c,
    decreases s.len() - i,
{
    if i < s.len() && s[i] != c {
        lemma_find_char_from(s, c, i + 1);
    }
}

pub proof fn lemma_skip_ws_from(s: Seq<char>, i: int)
    requires
        0 <= i <= s.len(),
    ensures
        i <= skip_ws_from(s, i) <= s.len(),
        skip_ws_from(s, i) < s.len() ==> !is_ws(s[skip_ws_from(s, i)]),
        forall|k: int| i <= k < skip_ws_from(s, i) ==> is_ws(s[k]),
    decreases s.len() - i,
{
    if i < s.len() && is_ws(s[i]) {
        lemma_skip_ws_from(s, i + 1);
    }
}

pub proof fn lemma_skip_word_from(s: Seq<char>, i: int)
    requires
        0 <= i <= s.len(),
    ensures
        i <= skip_word_from(s, i) <= s.len(),
        skip_word_from(s, i) < s.len() ==> is_ws(s[skip_word_from(s, i)]),
        forall|k: int| i <= k < skip_word_from(s, i) ==> !is_ws(s[k]),
    decreases s.len() - i,
{
    if i < s.len() && !is_ws(s[i]) {
        lemma_skip_word_from(s, i + 1);
    }
}

pub proof fn lemma_trim_end_to(s: Seq<char>, j: int)
    requires
        0 <= j <= s.len(),
    ensures
        0 <= trim_end_to(s, j) <= j,
        trim_end_to(s, j) > 0 ==> !is_ws(s[trim_end_to(s, j) - 1]),
        forall|k: int| trim_end_to(s, j) <= k < j ==> is_ws(s[k]),
    decreases j,
{
    if j > 0 && is_ws(s[j - 1]) {
        lemma_trim_end_to(s, j - 1);
    }
}

/// `find_char_from` over `cs`.
pub fn find_char(cs: &Vec<char>, c: char, i: usize) -> (r: usize)
    requires
        i <= cs.len(),
    ensures
        r == find_char_from(cs@, c, i as int),
        i <= r <= cs.len(),
{
    proof {
        lemma_find_char_from(cs@, c, i as int);
    }
    let mut k = i;
    while k < cs.len() && cs[k] != c
        invariant
            i <= k <= cs.len(),
            find_char_from(cs@, c, k as int) == find_char_from(cs@, c, i as int),
        decreases cs.len() - k,
    {
        k = k + 1;
    }
    k
}

/// `skip_ws_from` over `cs`.
pub fn skip_ws(cs: &Vec<char>, i: usize) -> (r: usize)
    requires
        i <= cs.len(),
    ensures
        r == skip_ws_from(cs@, i as int),
        i <= r <= cs.len(),
{
    proof {
        lemma_skip_ws_from(cs@, i as int);
    }
    let mut k = i;
    while k < cs.len() && is_whitespace(cs[k])
        invariant
            i <= k <= cs.len(),
            skip_ws_from(cs@, k as int) == skip_ws_from(cs@, i as int),
        decreases cs.len() - k,
    {
        k = k + 1;
    }
    k
}

/// `skip_word_from` over `cs`.
pub fn skip_word(cs: &Vec<char>, i: usize) -> (r: usize)
    requires
        i <= cs.len(),
    ensures
        r == skip_word_from(cs@, i as int),
        i <= r <= cs.len(),
{
    proof {
        lemma_skip_word_from(cs@, i as int);
    }
    let mut k = i;
    while k < cs.len() && !is_whitespace(cs[k])
        invariant
            i <= k <= cs.len(),
            skip_word_from(cs@, k as int) == skip_word_from(cs@, i as int),
        decreases cs.len() - k,
    {
        k = k + 1;
    }
    k
}

/// `trim_end_to` over `cs`.
pub fn trim_end_index(cs: &Vec<char>, j: usize) -> (r: usize)
    requires
        j <= cs.len(),
    ensures
        r == trim_end_to(cs@, j as int),
        r <= j,
{
    proof {
        lemma_trim_end_to(cs@, j as int);
    }
    let mut k = j;
    while k > 0 && is_whitespace(cs[k - 1])
        invariant
            k <= j <= cs.len(),
            trim_end_to(cs@, k as int) == trim_end_to(cs@, j as int),
        decreases k,
    {
        k = k - 1;
    }
    k
}

// ---------------------------------------------------------------------------
// Trimming
/// `s` without its leading and trailing whitespace (`str::trim`).
pub open spec fn trim(s: Seq<char>) -> Seq<char> {
    let a = skip_ws_from(s, 0);
    let b = trim_end_to(s, s.len() as int);
    if a < b {
        s.subrange(a, b)
    } else {
        Seq::empty()
    }
}

pub proof fn lemma_trim_facts(s: Seq<char>)
    ensures
        trim(s).len() > 0 ==> !is_ws(trim(s)[0]) && !is_ws(trim(s).last()),
        trim(s).len() <= s.len(),
{
    lemma_skip_ws_from(s, 0);
    lemma_trim_end_to(s, s.len() as int);
}

/// The bounds `(a, b)` of the trimmed part of `cs`.
pub fn trim_bounds(cs: &Vec<char>) -> (r: (usize, usize))
    ensures
        r.0 <= r.1 <= cs.len(),
        cs@.subrange(r.0 as int, r.1 as int) == trim(cs@),
{
    let a = skip_ws(cs, 0);
    let b = trim_end_index(cs, cs.len());
    if a < b {
        (a, b)
    } else {
        assert(cs@.subrange(a as int, a as int) =~= Seq::<char>::empty());
        (a, a)
    }
}

/// `str::trim`.
pub fn trim_str(s: &str) -> (r: &str)
    ensures
        r@ == trim(s@),
{
    let cs = chars_of(s);
    let (a, b) = trim_bounds(&cs);
    s.substring_char(a, b)
}

// ---------------------------------------------------------------------------
// Words
/// The whitespace-separated words of `s` from index `i` on (`str::split_whitespace`).
pub open spec fn words_from(s: Seq<char>, i: int) -> Seq<Seq<char>>
    decreases s.len() - i,
{
    if i < 0 || i >= s.len() {
        Seq::empty()
    } else {
        let a = skip_ws_from(s, i);
        if a >= s.len() {
            Seq::empty()
        } else {
            let b = skip_word_from(s, a);
            proof {
                lemma_skip_ws_from(s, i);
                lemma_skip_word_from(s, a);
            }
            seq![s.subrange(a, b)] + words_from(s, b)
        }
    }
}

pub open spec fn words(s: Seq<char>) -> Seq<Seq<char>> {
    words_from(s, 0)
}

/// The bounds of the `n`-th word of `cs`, counting from zero.
pub fn nth_word(cs: &Vec<char>, n: usize) -> (r: Option<(usize, usize)>)
    ensures
        r is Some <==> n < words(cs@).len(),
        r matches Some((a, b)) ==> a <= b <= cs.len() && cs@.subrange(a as int, b as int)
            == words(cs@)[n as int],
{
    let ghost s = cs@;
    let ghost mut seen: Seq<Seq<char>> = Seq::empty();
    let mut i: usize = 0;
    let mut k: usize = 0;
    loop
        invariant
            s == cs@,
            i <= cs.len(),
            k <= n,
            seen.len() == k,
            words(s) == seen + words_from(s, i as int),
        decreases cs.len() - i,
    {
        let a = skip_ws(cs, i);
        if a >= cs.len() {
            proof {
                assert(words_from(s, i as int) =~= Seq::<Seq<char>>::empty());
                assert(words(s) =~= seen);
            }
            return None;
        }
        let b = skip_word(cs, a);
        proof {
            lemma_skip_word_from(s, a as int);
            assert(words_from(s, i as int) == seq![s.subrange(a as int, b as int)] + words_from(
                s,
                b as int,
            ));
        }
        if k == n {
            proof {
                assert((seen + words_from(s, i as int))[n as int] == s.subrange(a as int, b as int));
            }
            return Some((a, b));
        }
        proof {
            assert(seen + words_from(s, i as int) =~= seen.push(s.subrange(a as int, b as int))
                + words_from(s, b as int));
            seen = seen.push(s.subrange(a as int, b as int));
        }
        i = b;
        k = k + 1;
    }
}

// ---------------------------------------------------------------------------
// Lines
/// The text of the line starting at `i`: up to the next `\n`, without a `\r`
/// that directly precedes that `\n`.
pub open spec fn line_at(s: Seq<char>, i: int) -> Seq<char> {
    let e = find_char_from(s, '\n', i);
    let raw = s.subrange(i, e);
    if e < s.len() && raw.len() > 0 && raw.last() == '\r' {
        raw.drop_last()
    } else {
        raw
    }
}

/// The lines of `s` from index `i` on (`str::lines`): split at `\n` or `\r\n`,
/// a final line ending being optional.
pub open spec fn lines_from(s: Seq<char>, i: int) -> Seq<Seq<char>>
    decreases s.len() - i,
{
    if i < 0 || i >= s.len() {
        Seq::empty()
    } else {
        let e = find_char_from(s, '\n', i);
        proof {
            lemma_find_char_from(s, '\n', i);
        }
        if e < s.len() {
            seq![line_at(s, i)] + lines_from(s, e + 1)
        } else {
            seq![line_at(s, i)]
        }
    }
}

pub open spec fn lines(s: Seq<char>) -> Seq<Seq<char>> {
    lines_from(s, 0)
}

/// The line starting at `i < cs.len()`: its bounds and where the next one starts.
pub fn line_bounds(cs: &Vec<char>, i: usize) -> (r: (usize, usize, usize))
    requires
        i < cs.len(),
    ensures
        i <= r.0 && r.0 == i && r.0 <= r.1 <= cs.len(),
        cs@.subrange(r.0 as int, r.1 as int) == line_at(cs@, i as int),
        i < r.2 <= cs.len(),
        lines_from(cs@, i as int) == seq![line_at(cs@, i as int)] + lines_from(cs@, r.2 as int),
{
    let e = find_char(cs, '\n', i);
    let ghost raw = cs@.subrange(i as int, e as int);
    let next = if e < cs.len() {
        e + 1
    } else {
        e
    };
    if e < cs.len() && e > i && cs[e - 1] == '\r' {
        assert(cs@.subrange(i as int, (e - 1) as int) =~= raw.drop_last());
        (i, e - 1, next)
    } else {
        (i, e, next)
    }
}

// ---------------------------------------------------------------------------
// Prefixes and suffixes
/// `cs[start..end]` equals `lit`.
pub fn eq_at(cs: &Vec<char>, start: usize, end: usize, lit: &Vec<char>) -> (r: bool)
    requires
        start <= end <= cs.len(),
    ensures
        r == (cs@.subrange(start as int, end as int) == lit@),
{
    if end - start != lit.len() {
        return false;
    }
    let r = has_at(cs, start, end, lit);
    assert(cs@.subrange(start as int, end as int).subrange(0, lit@.len() as int) =~= cs@.subrange(
        start as int,
        end as int,
    ));
    r
}

/// Where `c` first occurs in `cs[start..end]`, as an index into `cs`, or `end`.
pub fn find_char_in(cs: &Vec<char>, c: char, start: usize, end: usize) -> (r: usize)
    requires
        start <= end <= cs.len(),
    ensures
        start <= r <= end,
        r - start == find_char_from(cs@.subrange(start as int, end as int), c, 0),
{
    let ghost sub = cs@.subrange(start as int, end as int);
    proof {
        lemma_find_char_from(sub, c, 0);
    }
    let mut k = start;
    while k < end && cs[k] != c
        invariant
            start <= k <= end <= cs.len(),
            sub == cs@.subrange(start as int, end as int),
            find_char_from(sub, c, k - start) == find_char_from(sub, c, 0),
        decreases end - k,
    {
        assert(sub[k - start] == cs@[k as int]);
        k = k + 1;
    }
    if k < end {
        assert(sub[k - start] == cs@[k as int]);
    }
    k
}

/// Whether `cs[start..end]` begins with `pat`.
pub fn has_at(cs: &Vec<char>, start: usize, end: usize, pat: &Vec<char>) -> (r: bool)
    requires
        start <= end <= cs.len(),
    ensures
        r == pat@.is_prefix_of(cs@.subrange(start as int, end as int)),
{
    if pat.len() > end - start {
        return false;
    }
    let mut k: usize = 0;
    while k < pat.len()
        invariant
            start <= end <= cs.len(),
            pat.len() <= end - start,
            k <= pat.len(),
            forall|j: int| 0 <= j < k ==> pat@[j] == cs@[start + j],
        decreases pat.len() - k,
    {
        if pat[k] != cs[start + k] {
            assert(cs@.subrange(start as int, end as int)[k as int] == cs@[start + k]);
            return false;
        }
        k = k + 1;
    }
    assert(pat@ =~= cs@.subrange(start as int, end as int).subrange(0, pat@.len() as int));
    true
}

/// Whether `cs[start..end]` ends with `pat`.
pub fn has_suffix_at(cs: &Vec<char>, start: usize, end: usize, pat: &Vec<char>) -> (r: bool)
    requires
        start <= end <= cs.len(),
    ensures
        r == pat@.is_suffix_of(cs@.subrange(start as int, end as int)),
{
    if pat.len() > end - start {
        return false;
    }
    let base = end - pat.len();
    let mut k: usize = 0;
    while k < pat.len()
        invariant
            start <= base <= end <= cs.len(),
            base + pat.len() == end,
            k <= pat.len(),
            forall|j: int| 0 <= j < k ==> pat@[j] == cs@[base + j],
        decreases pat.len() - k,
    {
        if pat[k] != cs[base + k] {
            assert(cs@.subrange(start as int, end as int)[(base - start + k) as int] == cs@[base
                + k]);
            return false;
        }
        k = k + 1;
    }
    assert(pat@ =~= cs@.subrange(start as int, end as int).subrange(
        (end - start - pat.len()) as int,
        (end - start) as int,
    ));
    true
}

/// `s` with `pat` removed from its front as many times as it occurs there
/// (`str::trim_start_matches` with a string pattern).
pub open spec fn strip_prefix_all(s: Seq<char>, pat: Seq<char>) -> Seq<char>
    decreases s.len(),
{
    if pat.len() > 0 && pat.is_prefix_of(s) {
        strip_prefix_all(s.skip(pat.len() as int), pat)
    } else {
        s
    }
}

/// `s` with `pat` removed from its end as many times as it occurs there
/// (`str::trim_end_matches` with a string pattern).
pub open spec fn strip_suffix_all(s: Seq<char>, pat: Seq<char>) -> Seq<char>
    decreases s.len(),
{
    if pat.len() > 0 && pat.is_suffix_of(s) {
        strip_suffix_all(s.take(s.len() - pat.len()), pat)
    } else {
        s
    }
}

/// The start of `cs[start..end]` once every leading copy of `pat` is removed.
pub fn strip_prefix_all_index(cs: &Vec<char>, start: usize, end: usize, pat: &Vec<char>) -> (r:
    usize)
    requires
        start <= end <= cs.len(),
    ensures
        start <= r <= end,
        cs@.subrange(r as int, end as int) == strip_prefix_all(
            cs@.subrange(start as int, end as int),
            pat@,
        ),
{
    if pat.len() == 0 {
        return start;
    }
    let mut k = start;
    while has_at(cs, k, end, pat)
        invariant
            start <= k <= end <= cs.len(),
            pat.len() > 0,
            strip_prefix_all(cs@.subrange(k as int, end as int), pat@) == strip_prefix_all(
                cs@.subrange(start as int, end as int),
                pat@,
            ),
        decreases end - k,
    {
        assert(cs@.subrange(k as int, end as int).skip(pat.len() as int) =~= cs@.subrange(
            k + pat.len(),
            end as int,
        ));
        k = k + pat.len();
    }
    k
}

/// The end of `cs[start..end]` once every trailing copy of `pat` is removed.
pub fn strip_suffix_all_index(cs: &Vec<char>, start: usize, end: usize, pat: &Vec<char>) -> (r:
    usize)
    requires
        start <= end <= cs.len(),
    ensures
        start <= r <= end,
        cs@.subrange(start as int, r as int) == strip_suffix_all(
            cs@.subrange(start as int, end as int),
            pat@,
        ),
{
    if pat.len() == 0 {
        return end;
    }
    let mut k = end;
    while has_suffix_at(cs, start, k, pat)
        invariant
            start <= k <= end <= cs.len(),
            pat.len() > 0,
            strip_suffix_all(cs@.subrange(start as int, k as int), pat@) == strip_suffix_all(
                cs@.subrange(start as int, end as int),
                pat@,
            ),
        decreases k - start,
    {
        assert(cs@.subrange(start as int, k as int).take(
            cs@.subrange(start as int, k as int).len() - pat.len(),
        ) =~= cs@.subrange(start as int, k - pat.len()));
        k = k - pat.len();
    }
    k
}

// ---------------------------------------------------------------------------
// Substrings
/// The first index at or after `i` where `p` occurs in `s`, or `-1` when it
/// occurs nowhere from there on.
pub open spec fn find_sub_from(s: Seq<char>, p: Seq<char>, i: int) -> int
    decreases s.len() + 1 - i,
{
    if i < 0 || i + p.len() > s.len() {
        -1
    } else if s.subrange(i, i + p.len()) == p {
        i
    } else {
        find_sub_from(s, p, i + 1)
    }
}

pub proof fn lemma_find_sub_from(s: Seq<char>, p: Seq<char>, i: int)
    requires
        0 <= i,
    ensures
        find_sub_from(s, p, i) == -1 || (i <= find_sub_from(s, p, i) && find_sub_from(s, p, i)
            + p.len() <= s.len() && s.subrange(
            find_sub_from(s, p, i),
            find_sub_from(s, p, i) + p.len(),
        ) == p),
        forall|k: int|
            i <= k && k + p.len() <= s.len() && (find_sub_from(s, p, i) == -1 || k
                < find_sub_from(s, p, i)) ==> #[trigger] s.subrange(k, k + p.len()) != p,
    decreases s.len() + 1 - i,
{
    if i + p.len() <= s.len() && s.subrange(i, i + p.len()) != p {
        lemma_find_sub_from(s, p, i + 1);
    }
}

/// Where `pat` first occurs in `cs[start..end]`, as an index into `cs`.
pub fn find_sub(cs: &Vec<char>, start: usize, end: usize, pat: &Vec<char>) -> (r: Option<usize>)
    requires
        start <= end <= cs.len(),
    ensures
        match r {
            Some(k) => start <= k && k + pat.len() <= end && find_sub_from(
                cs@.subrange(start as int, end as int),
                pat@,
                0,
            ) == k - start,
            None => find_sub_from(cs@.subrange(start as int, end as int), pat@, 0) == -1,
        },
{
    let ghost line = cs@.subrange(start as int, end as int);
    if pat.len() > end - start {
        return None;
    }
    let mut k = start;
    while k <= end - pat.len()
        invariant
            start <= k <= end <= cs.len(),
            pat.len() <= end - start,
            line == cs@.subrange(start as int, end as int),
            find_sub_from(line, pat@, 0) == find_sub_from(line, pat@, k - start),
        decreases end - k,
    {
        let found = has_at(cs, k, end, pat);
        assert(cs@.subrange(k as int, end as int).subrange(0, pat@.len() as int)
            =~= line.subrange(k - start, k - start + pat@.len()));
        if found {
            return Some(k);
        }
        k = k + 1;
    }
    None
}

/// Trimming twice is trimming once.
pub proof fn lemma_trim_idempotent(s: Seq<char>)
    ensures
        trim(trim(s)) == trim(s),
{
    let t = trim(s);
    lemma_trim_facts(s);
    lemma_skip_ws_from(t, 0);
    lemma_trim_end_to(t, t.len() as int);
    if t.len() > 0 {
        assert(skip_ws_from(t, 0) == 0);
        assert(trim_end_to(t, t.len() as int) == t.len());
        assert(t.subrange(0, t.len() as int) =~= t);
    } else {
        assert(trim(t) =~= t);
    }
}

} // verus!

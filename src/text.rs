//! Character-level string helpers shared by the catalog logic.
use vstd::prelude::*;

verus! {

/// `n` occurs in `h` as a contiguous run of characters.
pub open spec fn seq_contains(h: Seq<char>, n: Seq<char>) -> bool {
    exists|i: int| 0 <= i && i + n.len() <= h.len() && #[trigger] h.subrange(i, i + n.len()) == n
}

/// `h` begins with `p`.
pub open spec fn seq_starts_with(h: Seq<char>, p: Seq<char>) -> bool {
    p.len() <= h.len() && h.subrange(0, p.len() as int) == p
}

/// The code of a character after ASCII-only lower-casing.
pub open spec fn ascii_lower(c: char) -> int {
    if 'A' <= c && c <= 'Z' {
        (c as int) + 32
    } else {
        c as int
    }
}

/// The two sequences are equal when ASCII letters are compared without case.
pub open spec fn eq_ignore_ascii_case_spec(a: Seq<char>, b: Seq<char>) -> bool {
    a.len() == b.len() && forall|i: int| 0 <= i < a.len() ==> ascii_lower(#[trigger] a[i]) == ascii_lower(b[i])
}

/// `t` with every `{}` (taken left to right, without overlap) replaced by `v`.
pub open spec fn fill_placeholder(t: Seq<char>, v: Seq<char>) -> Seq<char>
    decreases t.len(),
{
    if t.len() == 0 {
        Seq::empty()
    } else if t.len() >= 2 && t[0] == '{' && t[1] == '}' {
        v + fill_placeholder(t.subrange(2, t.len() as int), v)
    } else {
        seq![t[0]] + fill_placeholder(t.subrange(1, t.len() as int), v)
    }
}

/// What `str::trim` returns for a string.
pub uninterp spec fn trimmed(s: Seq<char>) -> Seq<char>;

/// What `str::to_lowercase` returns for a string.
pub uninterp spec fn lower_of(s: Seq<char>) -> Seq<char>;

/// What `str::lines` yields for a string, each line as a sequence of characters.
pub uninterp spec fn lines_of(s: Seq<char>) -> Seq<Seq<char>>;

/// The views of a sequence of strings.
pub open spec fn views(v: Seq<String>) -> Seq<Seq<char>> {
    v.map_values(|s: String| s@)
}

/// Relies on `str::trim`: leading and trailing whitespace removed; a slice of the input.
#[verifier::external_body]
pub(crate) fn trim_str(s: &str) -> (r: &str)
    ensures
        r@ == trimmed(s@),
        s@.len() == 0 ==> r@.len() == 0,
{
    s.trim()
}

/// Relies on `str::to_lowercase`: the result depends on the characters alone.
#[verifier::external_body]
pub(crate) fn lowercase(s: &str) -> (r: String)
    ensures
        r@ == lower_of(s@),
        s@.len() == 0 ==> r@.len() == 0,
{
    s.to_lowercase()
}

/// Relies on `str::lines`: the string cut at line ends, each line an owned string.
#[verifier::external_body]
pub(crate) fn split_lines(s: &str) -> (r: Vec<String>)
    ensures
        views(r@) == lines_of(s@),
{
    s.lines().map(String::from).collect()
}

/// Relies on `String::push`: appends one character.
#[verifier::external_body]
pub(crate) fn push_char(s: &mut String, c: char)
    ensures
        final(s)@ == old(s)@.push(c),
{
    s.push(c)
}

/// Relies on `String::pop`: removes and returns the last character, `None` when empty.
#[verifier::external_body]
pub(crate) fn pop_char(s: &mut String) -> (r: Option<char>)
    ensures
        old(s)@.len() == 0 ==> r is None && final(s)@ == old(s)@,
        old(s)@.len() > 0 ==> r == Some(old(s)@.last()) && final(s)@ == old(s)@.drop_last(),
{
    s.pop()
}

/// Whether `p` occurs in `h` starting at character `i`.
fn matches_at(h: &str, hl: usize, p: &str, pl: usize, i: usize) -> (r: bool)
    requires
        hl == h@.len(),
        pl == p@.len(),
        i + pl <= hl,
    ensures
        r == (h@.subrange(i as int, i + pl) == p@),
{
    let mut j: usize = 0;
    while j < pl
        invariant
            j <= pl,
            hl == h@.len(),
            pl == p@.len(),
            i + pl <= hl,
            forall|k: int| 0 <= k < j ==> h@[i + k] == p@[k],
        decreases pl - j,
    {
        if h.get_char(i + j) != p.get_char(j) {
            assert(h@.subrange(i as int, i + pl)[j as int] != p@[j as int]);
            return false;
        }
        j += 1;
    }
    assert(h@.subrange(i as int, i + pl) =~= p@);
    true
}

/// Whether `p` occurs anywhere in `h`.
pub fn contains_str(h: &str, p: &str) -> (r: bool)
    ensures
        r == seq_contains(h@, p@),
{
    let hl = h.unicode_len();
    let pl = p.unicode_len();
    if pl > hl {
        return false;
    }
    let last = hl - pl;
    let mut i: usize = 0;
    loop
        invariant
            hl == h@.len(),
            pl == p@.len(),
            last == hl - pl,
            i <= last,
            forall|k: int| 0 <= k < i ==> #[trigger] h@.subrange(k, k + pl) != p@,
        decreases last - i,
    {
        if matches_at(h, hl, p, pl, i) {
            return true;
        }
        if i == last {
            return false;
        }
        i += 1;
    }
}

/// Whether `h` begins with `p`.
pub fn starts_with_str(h: &str, p: &str) -> (r: bool)
    ensures
        r == seq_starts_with(h@, p@),
{
    let hl = h.unicode_len();
    let pl = p.unicode_len();
    if pl > hl {
        return false;
    }
    matches_at(h, hl, p, pl, 0)
}

/// Whether the two strings hold the same characters.
pub fn same_str(a: &str, b: &str) -> (r: bool)
    ensures
        r == (a@ == b@),
{
    let al = a.unicode_len();
    let bl = b.unicode_len();
    if al != bl {
        return false;
    }
    let m = matches_at(a, al, b, bl, 0);
    assert(a@.subrange(0, al as int) =~= a@);
    m
}

/// Character-wise equality of two strings, ASCII letters compared without case.
pub fn eq_ignore_ascii_case_str(a: &str, b: &str) -> (r: bool)
    ensures
        r == eq_ignore_ascii_case_spec(a@, b@),
{
    let al = a.unicode_len();
    let bl = b.unicode_len();
    if al != bl {
        return false;
    }
    let mut i: usize = 0;
    while i < al
        invariant
            al == a@.len(),
            bl == b@.len(),
            al == bl,
            i <= al,
            forall|k: int| 0 <= k < i ==> ascii_lower(#[trigger] a@[k]) == ascii_lower(b@[k]),
        decreases al - i,
    {
        let x = a.get_char(i);
        let y = b.get_char(i);
        let lx: u32 = if 'A' <= x && x <= 'Z' { (x as u32) + 32 } else { x as u32 };
        let ly: u32 = if 'A' <= y && y <= 'Z' { (y as u32) + 32 } else { y as u32 };
        if lx != ly {
            return false;
        }
        i += 1;
    }
    true
}

proof fn lemma_fill_step(t: Seq<char>, v: Seq<char>, i: int)
    requires
        0 <= i < t.len(),
    ensures
        (i + 1 < t.len() && t[i] == '{' && t[i + 1] == '}') ==> fill_placeholder(t.subrange(i, t.len() as int), v)
            == v + fill_placeholder(t.subrange(i + 2, t.len() as int), v),
        !(i + 1 < t.len() && t[i] == '{' && t[i + 1] == '}') ==> fill_placeholder(t.subrange(i, t.len() as int), v)
            == seq![t[i]] + fill_placeholder(t.subrange(i + 1, t.len() as int), v),
{
    let s = t.subrange(i, t.len() as int);
    assert(s.subrange(1, s.len() as int) =~= t.subrange(i + 1, t.len() as int));
    if s.len() >= 2 {
        assert(s.subrange(2, s.len() as int) =~= t.subrange(i + 2, t.len() as int));
    }
}

/// The command template `t` with each `{}` replaced by `v`.
pub fn fill_template(t: &str, v: &str) -> (r: String)
    ensures
        r@ == fill_placeholder(t@, v@),
{
    let tl = t.unicode_len();
    let mut out = String::new();
    let mut i: usize = 0;
    assert(t@.subrange(0, tl as int) =~= t@);
    assert(out@ + fill_placeholder(t@, v@) =~= fill_placeholder(t@, v@));
    while i < tl
        invariant
            tl == t@.len(),
            i <= tl,
            out@ + fill_placeholder(t@.subrange(i as int, tl as int), v@) == fill_placeholder(t@, v@),
        decreases tl - i,
    {
        proof {
            lemma_fill_step(t@, v@, i as int);
        }
        if i + 1 < tl && t.get_char(i) == '{' && t.get_char(i + 1) == '}' {
            let ghost before = out@;
            out.append(v);
            assert(out@ + fill_placeholder(t@.subrange(i + 2, tl as int), v@) =~= before + (v@
                + fill_placeholder(t@.subrange(i + 2, tl as int), v@)));
            i += 2;
        } else {
            let ghost before = out@;
            let one = t.substring_char(i, i + 1);
            out.append(one);
            assert(one@ =~= seq![t@[i as int]]);
            assert(out@ + fill_placeholder(t@.subrange(i + 1, tl as int), v@) =~= before + (seq![
                t@[i as int],
            ] + fill_placeholder(t@.subrange(i + 1, tl as int), v@)));
            i += 1;
        }
    }
    assert(t@.subrange(tl as int, tl as int) =~= Seq::<char>::empty());
    assert(out@ + Seq::<char>::empty() =~= out@);
    out
}

} // verus!

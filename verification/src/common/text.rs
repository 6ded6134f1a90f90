//! Text helpers: case folding, equality and decimal rendering.
use vstd::prelude::*;

verus! {

/// The lowercase form that `str::to_lowercase` gives for a text.
pub uninterp spec fn lowercase_of(s: Seq<char>) -> Seq<char>;

/// An ASCII character.
pub open spec fn is_ascii_char(c: char) -> bool {
    (c as u32) < 128
}

/// The ASCII lowercase of a character: `A`..`Z` become `a`..`z`, every other
/// character is kept.
pub open spec fn ascii_lower(c: char) -> char {
    if 'A' <= c && c <= 'Z' {
        ((c as u32) + 32) as char
    } else {
        c
    }
}

/// Every character of `s` is ASCII.
pub open spec fn is_ascii_text(s: Seq<char>) -> bool {
    forall|i: int| 0 <= i < s.len() ==> is_ascii_char(#[trigger] s[i])
}

/// `s` with `A`..`Z` made `a`..`z`.
pub open spec fn ascii_lowered(s: Seq<char>) -> Seq<char> {
    s.map_values(|c: char| ascii_lower(c))
}

/// Lowercases a text through `str::to_lowercase`.  The result is named
/// `lowercase_of`; the documentation's Unicode lowercase mapping is, on an
/// all-ASCII text, the ASCII one, and that is stated too.  What the mapping
/// does to other characters is not written out here.
#[verifier::external_body]
pub(crate) fn to_lowercase(s: &str) -> (r: String)
    ensures
        r@ == lowercase_of(s@),
        is_ascii_text(s@) ==> r@ == ascii_lowered(s@),
{
    s.to_lowercase()
}

/// The text of an optional string.
pub open spec fn opt_text(o: Option<String>) -> Option<Seq<char>> {
    match o {
        Some(s) => Some(s@),
        None => None,
    }
}

/// Whether two texts are equal.
pub fn str_eq(a: &str, b: &str) -> (r: bool)
    ensures
        r == (a@ == b@),
{
    let x = String::from_str(a);
    let y = String::from_str(b);
    x == y
}

/// The decimal digits of `n`, most significant first, without leading zeros
/// (`"0"` for zero).
pub open spec fn decimal(n: nat) -> Seq<char>
    decreases n,
{
    if n < 10 {
        seq![digit_char(n)]
    } else {
        decimal(n / 10).push(digit_char(n % 10))
    }
}

/// The character for a digit below ten.
pub open spec fn digit_char(d: nat) -> char {
    if d == 0 {
        '0'
    } else if d == 1 {
        '1'
    } else if d == 2 {
        '2'
    } else if d == 3 {
        '3'
    } else if d == 4 {
        '4'
    } else if d == 5 {
        '5'
    } else if d == 6 {
        '6'
    } else if d == 7 {
        '7'
    } else if d == 8 {
        '8'
    } else {
        '9'
    }
}

fn digit_str(d: u64) -> (r: &'static str)
    requires
        d < 10,
    ensures
        r@ == seq![digit_char(d as nat)],
{
    proof {
        reveal_strlit("0");
        reveal_strlit("1");
        reveal_strlit("2");
        reveal_strlit("3");
        reveal_strlit("4");
        reveal_strlit("5");
        reveal_strlit("6");
        reveal_strlit("7");
        reveal_strlit("8");
        reveal_strlit("9");
    }
    if d == 0 {
        "0"
    } else if d == 1 {
        "1"
    } else if d == 2 {
        "2"
    } else if d == 3 {
        "3"
    } else if d == 4 {
        "4"
    } else if d == 5 {
        "5"
    } else if d == 6 {
        "6"
    } else if d == 7 {
        "7"
    } else if d == 8 {
        "8"
    } else {
        "9"
    }
}

/// Renders `n` in decimal.
pub fn u64_to_decimal(n: u64) -> (r: String)
    ensures
        r@ == decimal(n as nat),
    decreases n,
{
    if n < 10 {
        String::from_str(digit_str(n))
    } else {
        let mut s = u64_to_decimal(n / 10);
        s.append(digit_str(n % 10));
        s
    }
}


/// A character with the Unicode `White_Space` property, which is what
/// `char::is_whitespace` tests.
pub open spec fn is_space(c: char) -> bool {
    ('\u{9}' <= c && c <= '\u{d}') || c == ' ' || c == '\u{85}' || c == '\u{a0}' || c == '\u{1680}'
        || ('\u{2000}' <= c && c <= '\u{200a}') || c == '\u{2028}' || c == '\u{2029}' || c
        == '\u{202f}' || c == '\u{205f}' || c == '\u{3000}'
}

/// Whether `c` is white space.
pub fn char_is_space(c: char) -> (r: bool)
    ensures
        r == is_space(c),
{
    ('\u{9}' <= c && c <= '\u{d}') || c == ' ' || c == '\u{85}' || c == '\u{a0}' || c == '\u{1680}'
        || ('\u{2000}' <= c && c <= '\u{200a}') || c == '\u{2028}' || c == '\u{2029}' || c
        == '\u{202f}' || c == '\u{205f}' || c == '\u{3000}'
}

/// `s` without its leading white space.
pub open spec fn trim_start(s: Seq<char>) -> Seq<char>
    decreases s.len(),
{
    if s.len() > 0 && is_space(s[0]) {
        trim_start(s.drop_first())
    } else {
        s
    }
}

/// `s` without its trailing white space.
pub open spec fn trim_end(s: Seq<char>) -> Seq<char>
    decreases s.len(),
{
    if s.len() > 0 && is_space(s.last()) {
        trim_end(s.drop_last())
    } else {
        s
    }
}

/// `s` without leading and trailing white space (`str::trim`).
pub open spec fn trimmed(s: Seq<char>) -> Seq<char> {
    trim_end(trim_start(s))
}

/// The characters of a text, one by one.
pub fn text_chars(s: &str) -> (v: Vec<char>)
    ensures
        v@ == s@,
{
    let n = s.unicode_len();
    let mut v: Vec<char> = Vec::new();
    let mut i: usize = 0;
    while i < n
        invariant
            n == s@.len(),
            i <= n,
            v@ == s@.take(i as int),
        decreases n - i,
    {
        let c = s.get_char(i);
        v.push(c);
        assert(s@.take(i + 1) =~= s@.take(i as int).push(c));
        i = i + 1;
    }
    assert(s@.take(n as int) =~= s@);
    v
}

/// Where the text `v[lo..hi]` starts once its leading white space is
/// skipped.
fn skip_spaces_forward(v: &Vec<char>, lo: usize, hi: usize) -> (r: usize)
    requires
        lo <= hi <= v@.len(),
    ensures
        lo <= r <= hi,
        trim_start(v@.subrange(lo as int, hi as int)) == v@.subrange(r as int, hi as int),
{
    let mut i = lo;
    while i < hi && char_is_space(v[i])
        invariant
            lo <= i <= hi <= v@.len(),
            trim_start(v@.subrange(lo as int, hi as int)) == trim_start(
                v@.subrange(i as int, hi as int),
            ),
        decreases hi - i,
    {
        assert(v@.subrange(i as int, hi as int).drop_first() =~= v@.subrange(i + 1, hi as int));
        i = i + 1;
    }
    if i < hi {
        assert(v@.subrange(i as int, hi as int)[0] == v@[i as int]);
    }
    i
}

/// Where the text `v[lo..hi]` ends once its trailing white space is cut.
fn skip_spaces_backward(v: &Vec<char>, lo: usize, hi: usize) -> (r: usize)
    requires
        lo <= hi <= v@.len(),
    ensures
        lo <= r <= hi,
        trim_end(v@.subrange(lo as int, hi as int)) == v@.subrange(lo as int, r as int),
{
    let mut j = hi;
    while j > lo && char_is_space(v[j - 1])
        invariant
            lo <= j <= hi <= v@.len(),
            trim_end(v@.subrange(lo as int, hi as int)) == trim_end(
                v@.subrange(lo as int, j as int),
            ),
        decreases j - lo,
    {
        assert(v@.subrange(lo as int, j as int).drop_last() =~= v@.subrange(lo as int, j - 1));
        j = j - 1;
    }
    j
}

/// `s` without leading and trailing white space.
pub fn trim(s: &str) -> (r: String)
    ensures
        r@ == trimmed(s@),
{
    let v = text_chars(s);
    let n = v.len();
    assert(v@.subrange(0, n as int) =~= v@);
    let a = skip_spaces_forward(&v, 0, n);
    let b = skip_spaces_backward(&v, a, n);
    String::from_str(s.substring_char(a, b))
}

/// The line that a text ends with, not yet closed by a line feed.
pub open spec fn open_line(s: Seq<char>) -> Seq<char>
    decreases s.len(),
{
    if s.len() == 0 {
        Seq::empty()
    } else if s.last() == '\n' {
        Seq::empty()
    } else {
        open_line(s.drop_last()).push(s.last())
    }
}

/// A line without the carriage return that ends it, if any.
pub open spec fn without_cr(l: Seq<char>) -> Seq<char> {
    if l.len() > 0 && l.last() == '\r' {
        l.drop_last()
    } else {
        l
    }
}

/// The lines of a text that a line feed has closed, in order, each without
/// its line ending.
pub open spec fn closed_lines(s: Seq<char>) -> Seq<Seq<char>>
    decreases s.len(),
{
    if s.len() == 0 {
        Seq::empty()
    } else if s.last() == '\n' {
        closed_lines(s.drop_last()).push(without_cr(open_line(s.drop_last())))
    } else {
        closed_lines(s.drop_last())
    }
}

/// The lines of a text, as `str::lines` gives them: split at each line feed,
/// a carriage return before it dropped, and no empty line after a final
/// line feed.
pub open spec fn text_lines(s: Seq<char>) -> Seq<Seq<char>> {
    if open_line(s).len() > 0 {
        closed_lines(s).push(open_line(s))
    } else {
        closed_lines(s)
    }
}

/// Whether `needle` occurs in `hay`.
pub open spec fn contains_text(hay: Seq<char>, needle: Seq<char>) -> bool {
    exists|i: int|
        0 <= i && i + needle.len() <= hay.len() && #[trigger] hay.subrange(i, i + needle.len())
            == needle
}

/// The first of `ls` in which `needle` occurs.
pub open spec fn first_containing(ls: Seq<Seq<char>>, needle: Seq<char>) -> Option<Seq<char>>
    decreases ls.len(),
{
    if ls.len() == 0 {
        None
    } else {
        match first_containing(ls.drop_last(), needle) {
            Some(l) => Some(l),
            None => if contains_text(ls.last(), needle) {
                Some(ls.last())
            } else {
                None
            },
        }
    }
}

/// Where the last word of `t` starts: after the last white space of `t`, or
/// at its start.
pub open spec fn word_start(t: Seq<char>) -> int
    decreases t.len(),
{
    if t.len() == 0 {
        0
    } else if is_space(t.last()) {
        t.len() as int
    } else {
        word_start(t.drop_last())
    }
}

/// The last of the words that white space separates in `l`
/// (`split_whitespace().last()`).
pub open spec fn last_word(l: Seq<char>) -> Option<Seq<char>> {
    let t = trim_end(l);
    if t.len() == 0 {
        None
    } else {
        Some(t.subrange(word_start(t), t.len() as int))
    }
}

/// Whether `needle` occurs in `v[lo..hi]`.
fn occurs_in(v: &Vec<char>, lo: usize, hi: usize, needle: &Vec<char>) -> (r: bool)
    requires
        lo <= hi <= v@.len(),
    ensures
        r == contains_text(v@.subrange(lo as int, hi as int), needle@),
{
    let ghost hay = v@.subrange(lo as int, hi as int);
    let m = needle.len();
    if m > hi - lo {
        return false;
    }
    let mut p: usize = lo;
    while p <= hi - m
        invariant
            lo <= p <= hi - m + 1,
            m == needle@.len(),
            m <= hi - lo,
            hi <= v@.len(),
            hay == v@.subrange(lo as int, hi as int),
            forall|k: int| 0 <= k < p - lo ==> #[trigger] hay.subrange(k, k + m) != needle@,
        decreases hi - p,
    {
        let mut q: usize = 0;
        while q < m && v[p + q] == needle[q]
            invariant
                q <= m,
                m == needle@.len(),
                p + m <= hi <= v@.len(),
                forall|t: int| 0 <= t < q ==> v@[p + t] == needle@[t],
            decreases m - q,
        {
            q = q + 1;
        }
        if q == m {
            assert(hay.subrange(p - lo, p - lo + m) =~= needle@);
            return true;
        }
        assert(hay.subrange(p - lo, p - lo + m)[q as int] != needle@[q as int]);
        p = p + 1;
    }
    assert forall|k: int| 0 <= k && k + needle@.len() <= hay.len() implies #[trigger] hay.subrange(
        k,
        k + needle@.len(),
    ) != needle@ by {
        assert(k < p - lo);
    }
    false
}

/// The last word of the text `v[lo..hi]`, taken from `s`, whose characters
/// `v` holds.
fn last_word_of(s: &str, v: &Vec<char>, lo: usize, hi: usize) -> (r: Option<String>)
    requires
        v@ == s@,
        lo <= hi <= v@.len(),
    ensures
        match last_word(v@.subrange(lo as int, hi as int)) {
            Some(w) => r matches Some(x) && x@ == w,
            None => r is None,
        },
{
    let e = skip_spaces_backward(v, lo, hi);
    if e == lo {
        return None;
    }
    let ghost t = v@.subrange(lo as int, e as int);
    let mut b = e;
    while b > lo && !char_is_space(v[b - 1])
        invariant
            lo <= b <= e <= v@.len(),
            t == v@.subrange(lo as int, e as int),
            word_start(t) == word_start(v@.subrange(lo as int, b as int)),
        decreases b - lo,
    {
        assert(v@.subrange(lo as int, b as int).drop_last() =~= v@.subrange(lo as int, b - 1));
        b = b - 1;
    }
    assert(word_start(t) == b - lo);
    assert(t.subrange(b - lo, t.len() as int) =~= v@.subrange(b as int, e as int));
    Some(String::from_str(s.substring_char(b, e)))
}

/// Closing a line extends the closed lines: those of a prefix of a text
/// come first among those of the whole text.
proof fn lemma_closed_lines_prefix(s: Seq<char>, i: int)
    requires
        0 <= i <= s.len(),
    ensures
        closed_lines(s.take(i)).len() <= closed_lines(s).len(),
        closed_lines(s.take(i)) == closed_lines(s).take(closed_lines(s.take(i)).len() as int),
    decreases s.len() - i,
{
    if i < s.len() {
        lemma_closed_lines_prefix(s, i + 1);
        let t = s.take(i + 1);
        assert(t.drop_last() =~= s.take(i));
        let a = closed_lines(s.take(i));
        let b = closed_lines(t);
        assert(b.take(a.len() as int) =~= a);
        let c = closed_lines(s);
        assert(c.take(b.len() as int).take(a.len() as int) =~= c.take(a.len() as int));
    } else {
        assert(s.take(i) =~= s);
        assert(closed_lines(s).take(closed_lines(s).len() as int) =~= closed_lines(s));
    }
}

/// A line found in a prefix of a list of lines is the one found in the
/// whole list.
proof fn lemma_first_containing_prefix(ls: Seq<Seq<char>>, k: int, needle: Seq<char>)
    requires
        0 <= k <= ls.len(),
        first_containing(ls.take(k), needle) is Some,
    ensures
        first_containing(ls, needle) == first_containing(ls.take(k), needle),
    decreases ls.len() - k,
{
    if k < ls.len() {
        let t = ls.take(k + 1);
        assert(t.drop_last() =~= ls.take(k));
        lemma_first_containing_prefix(ls, k + 1, needle);
    } else {
        assert(ls.take(k) =~= ls);
    }
}

/// The last word of the first line of `s` in which `needle` occurs.
pub open spec fn last_word_of_line_with(s: Seq<char>, needle: Seq<char>) -> Option<Seq<char>> {
    match first_containing(text_lines(s), needle) {
        Some(l) => last_word(l),
        None => None,
    }
}

/// The last word of the first line of `s` in which `needle` occurs, if
/// some line has it and a word.
pub fn find_last_word_of_line_with(s: &str, needle: &str) -> (r: Option<String>)
    ensures
        match last_word_of_line_with(s@, needle@) {
            Some(w) => r matches Some(x) && x@ == w,
            None => r is None,
        },
{
    let v = text_chars(s);
    let nd = text_chars(needle);
    let n = v.len();
    let mut start: usize = 0;
    let mut i: usize = 0;
    while i < n
        invariant
            n == v@.len(),
            v@ == s@,
            nd@ == needle@,
            start <= i <= n,
            first_containing(closed_lines(s@.take(i as int)), needle@) is None,
            open_line(s@.take(i as int)) == s@.subrange(start as int, i as int),
        decreases n - i,
    {
        let ghost pre = s@.take(i as int);
        let ghost next = s@.take(i + 1);
        assert(next.drop_last() =~= pre);
        if v[i] == '\n' {
            let end = if i > start && v[i - 1] == '\r' {
                i - 1
            } else {
                i
            };
            assert(v@.subrange(start as int, end as int) == without_cr(open_line(pre))) by {
                if i > start && v@[i - 1] == '\r' {
                    assert(v@.subrange(start as int, i as int).drop_last() =~= v@.subrange(
                        start as int,
                        i - 1,
                    ));
                }
            }
            assert(closed_lines(next) == closed_lines(pre).push(
                v@.subrange(start as int, end as int),
            ));
            assert(closed_lines(next).drop_last() =~= closed_lines(pre));
            if occurs_in(&v, start, end, &nd) {
                proof {
                    lemma_closed_lines_prefix(s@, i + 1);
                    let k = closed_lines(next).len() as int;
                    assert(closed_lines(s@).take(k) == closed_lines(next));
                    lemma_first_containing_prefix(closed_lines(s@), k, needle@);
                    if open_line(s@).len() > 0 {
                        let tl = text_lines(s@);
                        assert(tl.take(closed_lines(s@).len() as int) =~= closed_lines(s@));
                        lemma_first_containing_prefix(tl, closed_lines(s@).len() as int, needle@);
                    }
                }
                return last_word_of(s, &v, start, end);
            }
            start = i + 1;
            assert(open_line(next) =~= s@.subrange(start as int, i + 1));
        } else {
            assert(open_line(next) =~= s@.subrange(start as int, i + 1));
        }
        i = i + 1;
    }
    assert(s@.take(n as int) =~= s@);
    if start < n {
        if occurs_in(&v, start, n, &nd) {
            proof {
                let tl = text_lines(s@);
                assert(tl.drop_last() =~= closed_lines(s@));
            }
            return last_word_of(s, &v, start, n);
        }
        proof {
            let tl = text_lines(s@);
            assert(tl.drop_last() =~= closed_lines(s@));
        }
    }
    None
}


/// The texts of `parts` joined by `sep`.
pub open spec fn joined(parts: Seq<Seq<char>>, sep: Seq<char>) -> Seq<char>
    decreases parts.len(),
{
    if parts.len() == 0 {
        Seq::empty()
    } else if parts.len() == 1 {
        parts[0]
    } else {
        joined(parts.drop_last(), sep) + sep + parts.last()
    }
}

/// `head` followed by `tail`, as a new string.
pub fn labelled(head: &str, tail: &str) -> (r: String)
    ensures
        r@ == head@ + tail@,
{
    let mut out = String::from_str(head);
    out.append(tail);
    out
}

/// The texts of a list of strings.
pub open spec fn texts(v: Seq<String>) -> Seq<Seq<char>> {
    v.map_values(|s: String| s@)
}

/// The texts of a list of string slices.
pub open spec fn str_texts(v: Seq<&str>) -> Seq<Seq<char>> {
    v.map_values(|s: &str| s@)
}

/// Appends owned copies of `items` to `out`.
pub fn push_all(out: &mut Vec<String>, items: &[&str])
    ensures
        texts(final(out)@) == texts(old(out)@) + str_texts(items@),
{
    let ghost start = texts(out@);
    let mut i: usize = 0;
    while i < items.len()
        invariant
            i <= items@.len(),
            texts(out@) == start + str_texts(items@.take(i as int)),
        decreases items@.len() - i,
    {
        let ghost before = out@;
        out.push(String::from_str(items[i]));
        assert(texts(out@) =~= texts(before).push(items@[i as int]@));
        assert(str_texts(items@.take(i + 1)) =~= str_texts(items@.take(i as int)).push(
            items@[i as int]@,
        ));
        i = i + 1;
    }
    assert(items@.take(items@.len() as int) =~= items@);
}

/// Owned copies of `items`.
pub fn owned_texts(items: &[&str]) -> (r: Vec<String>)
    ensures
        texts(r@) == str_texts(items@),
{
    let mut out: Vec<String> = Vec::new();
    push_all(&mut out, items);
    assert(texts(Seq::<String>::empty()) =~= Seq::<Seq<char>>::empty());
    assert(Seq::<Seq<char>>::empty() + str_texts(items@) =~= str_texts(items@));
    out
}

} // verus!

//! Character-level helpers shared by the library: views of strings as
//! character sequences, whitespace handling, substring search and decimal
//! rendering of integers.
use vstd::prelude::*;
use vstd::string::*;

verus! {

broadcast use vstd::string::group_string_axioms;

/// Unicode `White_Space`, the property that `char::is_whitespace` tests.
pub open spec fn is_ws(c: char) -> bool {
    ||| ('\u{9}' <= c && c <= '\u{d}')
    ||| c == ' '
    ||| c == '\u{85}'
    ||| c == '\u{a0}'
    ||| c == '\u{1680}'
    ||| ('\u{2000}' <= c && c <= '\u{200a}')
    ||| c == '\u{2028}'
    ||| c == '\u{2029}'
    ||| c == '\u{202f}'
    ||| c == '\u{205f}'
    ||| c == '\u{3000}'
}

pub fn is_whitespace(c: char) -> (r: bool)
    ensures
        r == is_ws(c),
{
    ('\u{9}' <= c && c <= '\u{d}') || c == ' ' || c == '\u{85}' || c == '\u{a0}' || c
        == '\u{1680}' || ('\u{2000}' <= c && c <= '\u{200a}') || c == '\u{2028}' || c
        == '\u{2029}' || c == '\u{202f}' || c == '\u{205f}' || c == '\u{3000}'
}

pub open spec fn is_ascii_digit(c: char) -> bool {
    '0' <= c && c <= '9'
}

pub open spec fn is_ascii_alnum(c: char) -> bool {
    ||| ('0' <= c && c <= '9')
    ||| ('a' <= c && c <= 'z')
    ||| ('A' <= c && c <= 'Z')
}

pub fn ascii_alnum(c: char) -> (r: bool)
    ensures
        r == is_ascii_alnum(c),
{
    ('0' <= c && c <= '9') || ('a' <= c && c <= 'z') || ('A' <= c && c <= 'Z')
}

/// The characters of `s`, in order.
pub fn chars_of(s: &str) -> (v: Vec<char>)
    ensures
        v@ == s@,
{
    let mut v: Vec<char> = Vec::new();
    for c in it: s.chars()
        invariant
            it.seq() == s@,
            v@ == it.seq().take(it.index() as int),
    {
        v.push(c);
    }
    v
}

/// Appends one character (`String::push`).
#[verifier::external_body]
pub(crate) fn push_char(s: &mut String, c: char)
    ensures
        final(s)@ == old(s)@.push(c),
{
    s.push(c);
}

/// Appends a string slice (`String::push_str`).
#[verifier::external_body]
pub(crate) fn push_str(s: &mut String, t: &str)
    ensures
        final(s)@ == old(s)@ + t@,
{
    s.push_str(t);
}

pub fn string_of(s: &str) -> (r: String)
    ensures
        r@ == s@,
{
    s.to_owned()
}

/// Builds a string from a character sequence.
pub fn string_from_chars(v: &[char]) -> (r: String)
    ensures
        r@ == v@,
{
    let mut r = String::new();
    let mut i: usize = 0;
    while i < v.len()
        invariant
            i <= v@.len(),
            r@ == v@.take(i as int),
        decreases v.len() - i,
    {
        push_char(&mut r, v[i]);
        i = i + 1;
        assert(r@ =~= v@.take(i as int));
    }
    assert(v@.take(v@.len() as int) =~= v@);
    r
}

pub open spec fn seq_has_char(s: Seq<char>, c: char) -> bool {
    exists|i: int| 0 <= i < s.len() && s[i] == c
}

pub fn has_char(s: &[char], c: char) -> (r: bool)
    ensures
        r == seq_has_char(s@, c),
{
    let mut i: usize = 0;
    while i < s.len()
        invariant
            i <= s@.len(),
            forall|j: int| 0 <= j < i ==> s@[j] != c,
        decreases s.len() - i,
    {
        if s[i] == c {
            return true;
        }
        i = i + 1;
    }
    false
}

/// `needle` occurs in `hay` at position `i`.
pub open spec fn occurs_at(hay: Seq<char>, needle: Seq<char>, i: int) -> bool {
    0 <= i && i + needle.len() <= hay.len() && hay.subrange(i, i + needle.len()) == needle
}

/// `needle` occurs somewhere in `hay` (`str::contains`).
pub open spec fn seq_contains(hay: Seq<char>, needle: Seq<char>) -> bool {
    exists|i: int| #[trigger] occurs_at(hay, needle, i)
}

pub open spec fn seq_starts_with(hay: Seq<char>, prefix: Seq<char>) -> bool {
    prefix.len() <= hay.len() && hay.take(prefix.len() as int) == prefix
}
pub fn matches_at(hay: &[char], needle: &[char], i: usize) -> (r: bool)
    ensures
        r == occurs_at(hay@, needle@, i as int),
{
    if needle.len() > hay.len() || i > hay.len() - needle.len() {
        return false;
    }
    let mut k: usize = 0;
    while k < needle.len()
        invariant
            i + needle@.len() <= hay@.len(),
            hay@.len() == hay.len(),
            needle@.len() == needle.len(),
            k <= needle@.len(),
            forall|j: int| 0 <= j < k ==> hay@[i + j] == needle@[j],
        decreases needle.len() - k,
    {
        if hay[i + k] != needle[k] {
            assert(hay@.subrange(i as int, i + needle@.len())[k as int] != needle@[k as int]);
            return false;
        }
        k = k + 1;
    }
    assert(hay@.subrange(i as int, i + needle@.len()) =~= needle@);
    true
}

pub fn contains_chars(hay: &[char], needle: &[char]) -> (r: bool)
    ensures
        r == seq_contains(hay@, needle@),
{
    if needle.len() > hay.len() {
        assert forall|i: int| !occurs_at(hay@, needle@, i) by {}
        return false;
    }
    let last = hay.len() - needle.len();
    let mut i: usize = 0;
    loop
        invariant
            last == hay@.len() - needle@.len(),
            i <= last,
            forall|j: int| 0 <= j < i ==> !occurs_at(hay@, needle@, j),
        ensures
            forall|j: int| 0 <= j <= last ==> !occurs_at(hay@, needle@, j),
        decreases last - i,
    {
        if matches_at(hay, needle, i) {
            return true;
        }
        if i == last {
            break;
        }
        i = i + 1;
    }
    assert forall|j: int| !occurs_at(hay@, needle@, j) by {
        if 0 <= j <= last {
        }
    }
    false
}

pub fn str_contains(hay: &str, needle: &str) -> (r: bool)
    ensures
        r == seq_contains(hay@, needle@),
{
    let h = chars_of(hay);
    let n = chars_of(needle);
    contains_chars(h.as_slice(), n.as_slice())
}

pub fn starts_with_chars(hay: &[char], prefix: &[char]) -> (r: bool)
    ensures
        r == seq_starts_with(hay@, prefix@),
{
    if prefix.len() > hay.len() {
        return false;
    }
    let r = matches_at(hay, prefix, 0);
    assert(hay@.subrange(0, prefix@.len() as int) =~= hay@.take(prefix@.len() as int));
    r
}

pub fn str_starts_with(hay: &str, prefix: &str) -> (r: bool)
    ensures
        r == seq_starts_with(hay@, prefix@),
{
    let h = chars_of(hay);
    let p = chars_of(prefix);
    starts_with_chars(h.as_slice(), p.as_slice())
}

pub fn chars_eq(a: &[char], b: &[char]) -> (r: bool)
    ensures
        r == (a@ == b@),
{
    if a.len() != b.len() {
        return false;
    }
    let r = matches_at(a, b, 0);
    assert(a@.subrange(0, b@.len() as int) =~= a@);
    r
}

pub fn str_eq(a: &str, b: &str) -> (r: bool)
    ensures
        r == (a@ == b@),
{
    let x = chars_of(a);
    let y = chars_of(b);
    chars_eq(x.as_slice(), y.as_slice())
}

// ---------------------------------------------------------------------------
// Whitespace trimming and splitting
// ---------------------------------------------------------------------------

pub open spec fn trim_start_seq(s: Seq<char>) -> Seq<char>
    decreases s.len(),
{
    if s.len() > 0 && is_ws(s[0]) {
        trim_start_seq(s.drop_first())
    } else {
        s
    }
}

pub open spec fn trim_end_seq(s: Seq<char>) -> Seq<char>
    decreases s.len(),
{
    if s.len() > 0 && is_ws(s.last()) {
        trim_end_seq(s.drop_last())
    } else {
        s
    }
}

/// `str::trim`: leading and trailing whitespace removed.
pub open spec fn trim_seq(s: Seq<char>) -> Seq<char> {
    trim_end_seq(trim_start_seq(s))
}

proof fn lemma_trim_start_step(s: Seq<char>, i: int)
    requires
        0 <= i < s.len(),
        is_ws(s[i]),
    ensures
        trim_start_seq(s.skip(i)) == trim_start_seq(s.skip(i + 1)),
{
    assert(s.skip(i).drop_first() =~= s.skip(i + 1));
}

proof fn lemma_trim_end_step(s: Seq<char>, j: int)
    requires
        0 < j <= s.len(),
        is_ws(s[j - 1]),
    ensures
        trim_end_seq(s.take(j)) == trim_end_seq(s.take(j - 1)),
{
    assert(s.take(j).drop_last() =~= s.take(j - 1));
}

/// Trims whitespace on both ends of a character slice.
pub fn trim_chars(s: &[char]) -> (r: Vec<char>)
    ensures
        r@ == trim_seq(s@),
{
    let mut i: usize = 0;
    assert(s@.skip(0) =~= s@);
    while i < s.len() && is_whitespace(s[i])
        invariant
            i <= s@.len(),
            trim_start_seq(s@) == trim_start_seq(s@.skip(i as int)),
        decreases s.len() - i,
    {
        proof {
            lemma_trim_start_step(s@, i as int);
        }
        i = i + 1;
    }
    assert(s@.skip(0) =~= s@);
    let ghost t = s@.skip(i as int);
    assert(trim_start_seq(s@) == t);
    let mut j: usize = s.len();
    assert(t.take(s@.len() - i) =~= t);
    while j > i && is_whitespace(s[j - 1])
        invariant
            i <= j <= s@.len(),
            trim_end_seq(t) == trim_end_seq(t.take(j - i)),
            t == s@.skip(i as int),
        decreases j,
    {
        proof {
            lemma_trim_end_step(t, j - i);
        }
        j = j - 1;
    }
    assert(t.take(s@.len() - i) =~= t);
    let mut r: Vec<char> = Vec::new();
    let mut k: usize = i;
    while k < j
        invariant
            i <= k <= j <= s@.len(),
            r@ == s@.subrange(i as int, k as int),
        decreases j - k,
    {
        r.push(s[k]);
        k = k + 1;
        assert(r@ =~= s@.subrange(i as int, k as int));
    }
    assert(t.take(j - i) =~= s@.subrange(i as int, j as int));
    r
}

pub fn trim_str(s: &str) -> (r: String)
    ensures
        r@ == trim_seq(s@),
{
    let v = chars_of(s);
    let t = trim_chars(v.as_slice());
    string_from_chars(t.as_slice())
}

/// Whether a string is empty once trimmed (`s.trim().is_empty()`).
pub fn is_blank(s: &str) -> (r: bool)
    ensures
        r == (trim_seq(s@).len() == 0),
{
    let v = chars_of(s);
    let t = trim_chars(v.as_slice());
    t.len() == 0
}

/// `str::split_whitespace`: the maximal runs of non-whitespace characters.
pub open spec fn words(s: Seq<char>) -> Seq<Seq<char>>
    decreases s.len(),
{
    if s.len() == 0 {
        Seq::empty()
    } else {
        let w = words(s.drop_last());
        let c = s.last();
        if is_ws(c) {
            w
        } else if s.len() == 1 || is_ws(s[s.len() - 2]) {
            w.push(seq![c])
        } else {
            w.update(w.len() - 1, w.last().push(c))
        }
    }
}

proof fn lemma_words_nonempty(s: Seq<char>)
    requires
        s.len() > 0,
        !is_ws(s.last()),
    ensures
        words(s).len() > 0,
        words(s).last().len() > 0,
    decreases s.len(),
{
    if s.len() > 1 && !is_ws(s[s.len() - 2]) {
        assert(s.drop_last().last() == s[s.len() - 2]);
        lemma_words_nonempty(s.drop_last());
    }
}

/// Every word is non-empty and free of whitespace.
pub proof fn lemma_words_shape(s: Seq<char>)
    ensures
        forall|k: int|
            0 <= k < words(s).len() ==> #[trigger] words(s)[k].len() > 0 && forall|m: int|
                0 <= m < words(s)[k].len() ==> !is_ws(words(s)[k][m]),
    decreases s.len(),
{
    if s.len() > 0 {
        lemma_words_shape(s.drop_last());
        if !is_ws(s.last()) && !(s.len() == 1 || is_ws(s[s.len() - 2])) {
            assert(s.drop_last().last() == s[s.len() - 2]);
            lemma_words_nonempty(s.drop_last());
        }
    }
}

/// Words made only of non-whitespace characters, none empty.
pub open spec fn plain_words(ws: Seq<Seq<char>>) -> bool {
    forall|k: int|
        0 <= k < ws.len() ==> #[trigger] ws[k].len() > 0 && forall|m: int|
            0 <= m < ws[k].len() ==> !is_ws(ws[k][m])
}

proof fn lemma_words_append_word(p: Seq<char>, w: Seq<char>, k: int)
    requires
        p.len() == 0 || is_ws(p.last()),
        1 <= k <= w.len(),
        forall|m: int| 0 <= m < w.len() ==> !is_ws(w[m]),
    ensures
        words(p + w.take(k)) == words(p).push(w.take(k)),
    decreases k,
{
    let s = p + w.take(k);
    assert(s.drop_last() =~= p + w.take(k - 1));
    assert(s.last() == w[k - 1]);
    if k == 1 {
        assert(w.take(0) =~= Seq::<char>::empty());
        assert(p + w.take(0) =~= p);
        if p.len() > 0 {
            assert(s[s.len() - 2] == p.last());
        }
        assert(seq![w[0]] =~= w.take(1));
    } else {
        lemma_words_append_word(p, w, k - 1);
        assert(s[s.len() - 2] == w[k - 2]);
        assert(w.take(k - 1).push(w[k - 1]) =~= w.take(k));
        assert(words(p).push(w.take(k - 1)).update(words(p).len() as int, w.take(k)) =~= words(p).push(w.take(k)));
    }
}

proof fn lemma_words_append_space(s: Seq<char>)
    ensures
        words(s.push(' ')) == words(s),
{
    assert(s.push(' ').drop_last() =~= s);
}

/// Splitting words joined by single spaces gives the words back.
pub proof fn lemma_words_join_space(ws: Seq<Seq<char>>)
    requires
        plain_words(ws),
    ensures
        words(join_space(ws)) == ws,
    decreases ws.len(),
{
    if ws.len() == 0 {
    } else if ws.len() == 1 {
        let w = ws[0];
        assert(w.take(w.len() as int) =~= w);
        lemma_words_append_word(Seq::<char>::empty(), w, w.len() as int);
        assert(Seq::<char>::empty() + w =~= w);
        assert(Seq::<Seq<char>>::empty().push(w) =~= ws);
    } else {
        let init = ws.drop_last();
        let w = ws.last();
        assert(plain_words(init)) by {
            assert forall|k: int| 0 <= k < init.len() implies #[trigger] init[k].len() > 0 && forall|m: int|
                0 <= m < init[k].len() ==> !is_ws(init[k][m]) by {
                assert(init[k] == ws[k]);
            }
        }
        lemma_words_join_space(init);
        let j = join_space(init);
        lemma_words_append_space(j);
        let p = j.push(' ');
        assert(w.take(w.len() as int) =~= w);
        assert(ws[ws.len() - 1] == w);
        lemma_words_append_word(p, w, w.len() as int);
        assert(j + seq![' '] + w =~= p + w);
        assert(init.push(w) =~= ws);
    }
}

/// Splits a character slice at whitespace.
pub fn split_whitespace(s: &[char]) -> (r: Vec<Vec<char>>)
    ensures
        r@.len() == words(s@).len(),
        forall|k: int| 0 <= k < r@.len() ==> #[trigger] r@[k]@ == words(s@)[k],
{
    let mut r: Vec<Vec<char>> = Vec::new();
    let mut cur: Vec<char> = Vec::new();
    let mut in_word = false;
    let mut i: usize = 0;
    assert(s@.take(0) =~= Seq::<char>::empty());
    while i < s.len()
        invariant
            i <= s@.len(),
            in_word == (i > 0 && !is_ws(s@[i - 1])),
            in_word ==> words(s@.take(i as int)).len() == r@.len() + 1 && words(
                s@.take(i as int),
            ).last() == cur@,
            !in_word ==> words(s@.take(i as int)).len() == r@.len(),
            forall|k: int|
                0 <= k < r@.len() ==> #[trigger] r@[k]@ == words(s@.take(i as int))[k],
        decreases s.len() - i,
    {
        let c = s[i];
        let ghost prev = s@.take(i as int);
        let ghost next = s@.take(i + 1);
        assert(next.drop_last() =~= prev);
        assert(next.last() == c);
        if is_whitespace(c) {
            if in_word {
                r.push(cur);
                cur = Vec::new();
            }
            in_word = false;
        } else {
            if in_word {
                assert(next[next.len() - 2] == s@[i - 1]);
                cur.push(c);
            } else {
                if i > 0 {
                    assert(next[next.len() - 2] == s@[i - 1]);
                }
                cur = Vec::new();
                cur.push(c);
                assert(cur@ =~= seq![c]);
            }
            in_word = true;
        }
        i = i + 1;
    }
    if in_word {
        r.push(cur);
    }
    assert(s@.take(s@.len() as int) =~= s@);
    r
}

/// The words of a sequence joined by single spaces.
pub open spec fn join_space(ws: Seq<Seq<char>>) -> Seq<char>
    decreases ws.len(),
{
    if ws.len() == 0 {
        Seq::empty()
    } else if ws.len() == 1 {
        ws[0]
    } else {
        join_space(ws.drop_last()) + seq![' '] + ws.last()
    }
}

/// The elements of a sequence joined by a separator.
pub open spec fn join_with(ws: Seq<Seq<char>>, sep: Seq<char>) -> Seq<char>
    decreases ws.len(),
{
    if ws.len() == 0 {
        Seq::empty()
    } else if ws.len() == 1 {
        ws[0]
    } else {
        join_with(ws.drop_last(), sep) + sep + ws.last()
    }
}

/// Joins strings with a separator (`[String]::join`).
pub fn join_strings(items: &Vec<String>, sep: &str) -> (r: String)
    ensures
        r@ == join_with(items@.map_values(|x: String| x@), sep@),
{
    let ghost views = items@.map_values(|x: String| x@);
    let mut r = String::new();
    let mut i: usize = 0;
    while i < items.len()
        invariant
            i <= items@.len(),
            views == items@.map_values(|x: String| x@),
            r@ == join_with(views.take(i as int), sep@),
        decreases items.len() - i,
    {
        assert(views.take(i + 1).drop_last() =~= views.take(i as int));
        if i > 0 {
            push_str(&mut r, sep);
        }
        push_str(&mut r, items[i].as_str());
        i = i + 1;
        assert(views.take(i as int).last() == items@[i - 1]@);
        if i == 1 {
            assert(views.take(1)[0] == items@[0]@);
            assert(r@ =~= items@[0]@);
        }
    }
    assert(views.take(items@.len() as int) =~= views);
    r
}

// ---------------------------------------------------------------------------
// Decimal rendering
// ---------------------------------------------------------------------------

pub open spec fn digit_char(d: nat) -> char {
    if d == 0 { '0' }
    else if d == 1 { '1' }
    else if d == 2 { '2' }
    else if d == 3 { '3' }
    else if d == 4 { '4' }
    else if d == 5 { '5' }
    else if d == 6 { '6' }
    else if d == 7 { '7' }
    else if d == 8 { '8' }
    else { '9' }
}

/// Decimal digits of a natural number, without leading zeros (`{}` of an integer).
pub open spec fn decimal(n: nat) -> Seq<char>
    decreases n,
{
    if n < 10 {
        seq![digit_char(n)]
    } else {
        decimal(n / 10).push(digit_char(n % 10))
    }
}

fn digit(d: u64) -> (c: char)
    requires
        d < 10,
    ensures
        c == digit_char(d as nat),
{
    if d == 0 { '0' }
    else if d == 1 { '1' }
    else if d == 2 { '2' }
    else if d == 3 { '3' }
    else if d == 4 { '4' }
    else if d == 5 { '5' }
    else if d == 6 { '6' }
    else if d == 7 { '7' }
    else if d == 8 { '8' }
    else { '9' }
}

/// Appends the decimal rendering of `n`.
pub fn push_decimal(s: &mut String, n: u64)
    ensures
        final(s)@ == old(s)@ + decimal(n as nat),
    decreases n,
{
    if n < 10 {
        push_char(s, digit(n));
        assert(decimal(n as nat) =~= seq![digit_char(n as nat)]);
    } else {
        push_decimal(s, n / 10);
        push_char(s, digit(n % 10));
    }
}
// ---------------------------------------------------------------------------
// Case mapping
// ---------------------------------------------------------------------------

/// The full Unicode lowercase mapping of a string (`str::to_lowercase`).
pub uninterp spec fn lowercase(s: Seq<char>) -> Seq<char>;

/// The full Unicode uppercase mapping of a string (`str::to_uppercase`).
pub uninterp spec fn uppercase(s: Seq<char>) -> Seq<char>;

/// `str::to_lowercase`. Its result is a function of the input alone; the
/// Unicode case tables that define it are not restated here.
#[verifier::external_body]
pub(crate) fn to_lowercase(s: &str) -> (r: String)
    ensures
        r@ == lowercase(s@),
{
    s.to_lowercase()
}

/// `str::to_uppercase`. Its result is a function of the input alone; the
/// Unicode case tables that define it are not restated here.
#[verifier::external_body]
pub(crate) fn to_uppercase(s: &str) -> (r: String)
    ensures
        r@ == uppercase(s@),
{
    s.to_uppercase()
}

} // verus!

//! Characters and strings: the small vocabulary the parsers and formatters share.
//!
//! Text is modelled as `Seq<char>`. Every executable function here states its
//! result over the spec functions of this module, so that callers can phrase
//! their own contracts over lines, tokens and decimal numbers.

use vstd::prelude::*;
use vstd::string::StringExecFns;

verus! {

// ---------------------------------------------------------------------------
// Characters
// ---------------------------------------------------------------------------

/// White space in the sense of Unicode's `White_Space` property.
pub open spec fn is_whitespace(c: char) -> bool {
    let u = c as u32;
    ||| 0x09 <= u <= 0x0D
    ||| u == 0x20
    ||| u == 0x85
    ||| u == 0xA0
    ||| u == 0x1680
    ||| 0x2000 <= u <= 0x200A
    ||| u == 0x2028
    ||| u == 0x2029
    ||| u == 0x202F
    ||| u == 0x205F
    ||| u == 0x3000
}

/// Tests `c` for white space.
pub fn is_space(c: char) -> (r: bool)
    ensures
        r == is_whitespace(c),
{
    let u: u32 = c as u32;
    (0x09 <= u && u <= 0x0D) || u == 0x20 || u == 0x85 || u == 0xA0 || u == 0x1680 || (0x2000 <= u
        && u <= 0x200A) || u == 0x2028 || u == 0x2029 || u == 0x202F || u == 0x205F || u == 0x3000
}

/// An ASCII decimal digit.
pub open spec fn is_digit(c: char) -> bool {
    0x30 <= c as u32 <= 0x39
}

/// The value of a decimal digit.
pub open spec fn digit_value(c: char) -> nat
    recommends
        is_digit(c),
{
    (c as u32 - 0x30) as nat
}

/// The character that writes the digit `d`.
pub open spec fn digit_char(d: nat) -> char
    recommends
        d < 10,
{
    if d == 0 {
        '0'
    } else if d == 1 {
        '1'
    } else if d == 2 {
        '2'
    } else if d == 3 {
        '3'
    } else if d == 4 {
        '4'
    } else if d == 5 {
        '5'
    } else if d == 6 {
        '6'
    } else if d == 7 {
        '7'
    } else if d == 8 {
        '8'
    } else {
        '9'
    }
}

/// An ASCII letter or digit.
pub open spec fn is_ascii_alphanumeric(c: char) -> bool {
    let u = c as u32;
    ||| 0x30 <= u <= 0x39
    ||| 0x41 <= u <= 0x5A
    ||| 0x61 <= u <= 0x7A
}

// ---------------------------------------------------------------------------
// Views of nested vectors
// ---------------------------------------------------------------------------

/// The texts held by a vector of character vectors.
pub open spec fn texts(v: Seq<Vec<char>>) -> Seq<Seq<char>> {
    v.map_values(|l: Vec<char>| l@)
}

/// The texts held by a vector of strings.
pub open spec fn string_texts(v: Seq<String>) -> Seq<Seq<char>> {
    v.map_values(|l: String| l@)
}

// ---------------------------------------------------------------------------
// Basic conversions
// ---------------------------------------------------------------------------

/// The characters of `s`, in order.
pub fn chars_of(s: &str) -> (v: Vec<char>)
    ensures
        v@ == s@,
{
    broadcast use vstd::string::group_string_axioms;

    let mut v: Vec<char> = Vec::new();
    let chars = s.chars();
    for c in it: chars
        invariant
            it.seq() == s@,
            v@ == s@.take(it.index()),
    {
        v.push(c);
    }
    v
}

/// A copy of the characters of `v` from `from` up to `to`.
pub fn subvec(v: &Vec<char>, from: usize, to: usize) -> (r: Vec<char>)
    requires
        from <= to <= v.len(),
    ensures
        r@ == v@.subrange(from as int, to as int),
{
    let mut r: Vec<char> = Vec::new();
    let mut i: usize = from;
    while i < to
        invariant
            from <= i <= to <= v.len(),
            r@ == v@.subrange(from as int, i as int),
        decreases to - i,
    {
        r.push(v[i]);
        i = i + 1;
    }
    r
}

/// Whether two character vectors hold the same text.
pub fn same_text(a: &Vec<char>, b: &Vec<char>) -> (r: bool)
    ensures
        r == (a@ == b@),
{
    if a.len() != b.len() {
        return false;
    }
    let mut i: usize = 0;
    while i < a.len()
        invariant
            a.len() == b.len(),
            i <= a.len(),
            a@.take(i as int) == b@.take(i as int),
        decreases a.len() - i,
    {
        if a[i] != b[i] {
            return false;
        }
        assert(a@.take(i + 1) == a@.take(i as int).push(a@[i as int]));
        assert(b@.take(i + 1) == b@.take(i as int).push(b@[i as int]));
        i = i + 1;
    }
    assert(a@ == a@.take(a.len() as int));
    assert(b@ == b@.take(b.len() as int));
    true
}

/// Whether two strings hold the same text.
pub fn str_eq(a: &str, b: &str) -> (r: bool)
    ensures
        r == (a@ == b@),
{
    let x = chars_of(a);
    let y = chars_of(b);
    same_text(&x, &y)
}

// ---------------------------------------------------------------------------
// Searching
// ---------------------------------------------------------------------------

/// `needle` stands in `hay` at position `i`.
pub open spec fn occurs_at(hay: Seq<char>, needle: Seq<char>, i: int) -> bool {
    &&& 0 <= i
    &&& i + needle.len() <= hay.len()
    &&& hay.subrange(i, i + needle.len()) == needle
}

/// `needle` stands somewhere in `hay`. The empty text stands in every text.
pub open spec fn contains(hay: Seq<char>, needle: Seq<char>) -> bool {
    exists|i: int| occurs_at(hay, needle, i)
}

/// Tests whether `needle` stands in `hay` at position `i`.
fn matches_at(hay: &Vec<char>, needle: &Vec<char>, i: usize) -> (r: bool)
    requires
        i + needle.len() <= hay.len(),
    ensures
        r == occurs_at(hay@, needle@, i as int),
{
    let mut k: usize = 0;
    while k < needle.len()
        invariant
            k <= needle.len(),
            i + needle.len() <= hay.len(),
            forall|j: int| 0 <= j < k ==> hay@[i + j] == needle@[j],
        decreases needle.len() - k,
    {
        if hay[i + k] != needle[k] {
            assert(hay@.subrange(i as int, i + needle.len())[k as int] != needle@[k as int]);
            return false;
        }
        k = k + 1;
    }
    assert(hay@.subrange(i as int, i + needle.len()) =~= needle@);
    true
}

/// Searches `hay` for `needle`.
pub fn text_contains(hay: &Vec<char>, needle: &Vec<char>) -> (r: bool)
    ensures
        r == contains(hay@, needle@),
{
    if needle.len() > hay.len() {
        assert(forall|i: int| !occurs_at(hay@, needle@, i));
        return false;
    }
    let last: usize = hay.len() - needle.len();
    let mut i: usize = 0;
    loop
        invariant
            last == hay.len() - needle.len(),
            i <= last,
            forall|j: int| 0 <= j < i ==> !occurs_at(hay@, needle@, j),
        decreases last - i,
    {
        if matches_at(hay, needle, i) {
            return true;
        }
        if i == last {
            assert(forall|j: int| !occurs_at(hay@, needle@, j));
            return false;
        }
        i = i + 1;
    }
}

/// Searches the string `hay` for the string `needle`.
pub fn str_contains(hay: &str, needle: &str) -> (r: bool)
    ensures
        r == contains(hay@, needle@),
{
    let h = chars_of(hay);
    let n = chars_of(needle);
    text_contains(&h, &n)
}

/// The position of the first `c` in `s`, or the length of `s` where there is none.
pub open spec fn first_index(s: Seq<char>, c: char) -> int
    decreases s.len(),
{
    if s.len() == 0 {
        0
    } else if s[0] == c {
        0
    } else {
        1 + first_index(s.drop_first(), c)
    }
}

/// `first_index` is a position in `s` or its length, nothing before it is `c`,
/// and where it is a position, `c` stands there.
pub proof fn lemma_first_index(s: Seq<char>, c: char)
    ensures
        0 <= first_index(s, c) <= s.len(),
        forall|j: int| 0 <= j < first_index(s, c) ==> s[j] != c,
        first_index(s, c) < s.len() ==> s[first_index(s, c)] == c,
    decreases s.len(),
{
    if s.len() > 0 && s[0] != c {
        let t = s.drop_first();
        lemma_first_index(t, c);
        assert forall|j: int| 0 <= j < first_index(s, c) implies s[j] != c by {
            if j > 0 {
                assert(s[j] == t[j - 1]);
            }
        }
    }
}

/// A position that holds `c` with nothing equal to `c` before it is the first.
pub proof fn lemma_first_index_is(s: Seq<char>, c: char, n: int)
    requires
        0 <= n <= s.len(),
        forall|j: int| 0 <= j < n ==> s[j] != c,
        n < s.len() ==> s[n] == c,
    ensures
        first_index(s, c) == n,
{
    lemma_first_index(s, c);
    let f = first_index(s, c);
    if f < n {
        assert(s[f] == c);
    } else if f > n {
        assert(s[n] == c);
    }
}

/// Finds the first `c` at or after `from`.
pub fn find_char(v: &Vec<char>, from: usize, c: char) -> (r: usize)
    requires
        from <= v.len(),
    ensures
        from <= r <= v.len(),
        r - from == first_index(v@.skip(from as int), c),
{
    let mut i: usize = from;
    while i < v.len() && v[i] != c
        invariant
            from <= i <= v.len(),
            forall|j: int| from <= j < i ==> v@[j] != c,
        decreases v.len() - i,
    {
        i = i + 1;
    }
    proof {
        lemma_first_index_is(v@.skip(from as int), c, i - from);
    }
    i
}

// ---------------------------------------------------------------------------
// Lines
// ---------------------------------------------------------------------------

/// The lines of a text: what stands between its line feeds. A text without a
/// line feed is one line; a text that ends in a line feed ends in an empty line.
pub open spec fn lines(s: Seq<char>) -> Seq<Seq<char>>
    decreases s.len(),
{
    let n = first_index(s, '\n');
    if 0 <= n < s.len() {
        seq![s.take(n)] + lines(s.skip(n + 1))
    } else {
        seq![s]
    }
}

/// Splits a text into its lines.
pub fn split_lines(v: &Vec<char>) -> (r: Vec<Vec<char>>)
    ensures
        texts(r@) == lines(v@),
{
    let mut r: Vec<Vec<char>> = Vec::new();
    let mut start: usize = 0;
    assert(v@.skip(0) == v@);
    assert(texts(r@) + lines(v@.skip(0)) == lines(v@));
    loop
        invariant_except_break
            start <= v.len(),
            texts(r@) + lines(v@.skip(start as int)) == lines(v@),
        ensures
            texts(r@) == lines(v@),
        decreases v.len() - start,
    {
        let end = find_char(v, start, '\n');
        let line = subvec(v, start, end);
        let ghost rest = v@.skip(start as int);
        let ghost before = r@;
        assert(rest.take(end - start) == line@);
        r.push(line);
        assert(texts(r@) == texts(before).push(line@));
        if end == v.len() {
            assert(lines(rest) == seq![rest]);
            assert(rest == line@);
            assert(texts(before) + seq![line@] == texts(before).push(line@));
            break ;
        }
        assert(rest.skip(end - start + 1) == v@.skip(end + 1));
        assert(lines(rest) == seq![line@] + lines(v@.skip(end + 1)));
        assert(texts(before) + (seq![line@] + lines(v@.skip(end + 1))) == texts(before).push(line@)
            + lines(v@.skip(end + 1)));
        start = end + 1;
    }
    r
}

/// Some texts put together, with a line feed between one and the next.
pub open spec fn joined(ls: Seq<Seq<char>>) -> Seq<char>
    decreases ls.len(),
{
    if ls.len() == 0 {
        Seq::empty()
    } else if ls.len() == 1 {
        ls[0]
    } else {
        ls[0] + seq!['\n'] + joined(ls.drop_first())
    }
}

/// A text has at least one line, no line holds a line feed, and the lines
/// put together again are the text.
pub proof fn lemma_lines(s: Seq<char>)
    ensures
        lines(s).len() >= 1,
        forall|i: int, j: int|
            0 <= i < lines(s).len() && 0 <= j < lines(s)[i].len() ==> lines(s)[i][j] != '\n',
        joined(lines(s)) == s,
    decreases s.len(),
{
    let n = first_index(s, '\n');
    lemma_first_index(s, '\n');
    if 0 <= n < s.len() {
        let head = s.take(n);
        let rest = s.skip(n + 1);
        lemma_lines(rest);
        let tail = lines(rest);
        assert(lines(s) == seq![head] + tail);
        assert(lines(s)[0] == head);
        assert(lines(s).drop_first() =~= tail);
        assert(head + seq!['\n'] + rest =~= s);
        assert forall|i: int, j: int|
            0 <= i < lines(s).len() && 0 <= j < lines(s)[i].len() implies lines(s)[i][j]
            != '\n' by {
            if i > 0 {
                assert(lines(s)[i] == tail[i - 1]);
            }
        }
    }
}

// ---------------------------------------------------------------------------
// Tokens
// ---------------------------------------------------------------------------

/// `s` without its leading white space.
pub open spec fn skip_whitespace(s: Seq<char>) -> Seq<char>
    decreases s.len(),
{
    if s.len() > 0 && is_whitespace(s[0]) {
        skip_whitespace(s.drop_first())
    } else {
        s
    }
}

/// The length of the run of characters other than white space that `s` starts with.
pub open spec fn word_len(s: Seq<char>) -> nat
    decreases s.len(),
{
    if s.len() > 0 && !is_whitespace(s[0]) {
        1 + word_len(s.drop_first())
    } else {
        0
    }
}

/// The tokens of a text: its maximal runs of characters other than white space.
pub open spec fn tokens(s: Seq<char>) -> Seq<Seq<char>>
    decreases s.len(),
{
    let t = skip_whitespace(s);
    let n = word_len(t);
    if 0 < n <= t.len() && t.len() <= s.len() {
        seq![t.take(n as int)] + tokens(t.skip(n as int))
    } else {
        Seq::empty()
    }
}

/// Skipping white space leaves a suffix that does not start with white space.
pub proof fn lemma_skip_whitespace(s: Seq<char>)
    ensures
        skip_whitespace(s).len() <= s.len(),
        skip_whitespace(s) == s.skip(s.len() - skip_whitespace(s).len()),
        skip_whitespace(s).len() > 0 ==> !is_whitespace(skip_whitespace(s)[0]),
        forall|j: int| 0 <= j < s.len() - skip_whitespace(s).len() ==> is_whitespace(s[j]),
    decreases s.len(),
{
    if s.len() > 0 && is_whitespace(s[0]) {
        let t = s.drop_first();
        lemma_skip_whitespace(t);
        let k = t.len() - skip_whitespace(t).len();
        assert(t.skip(k) == s.skip(k + 1));
        assert forall|j: int| 0 <= j < s.len() - skip_whitespace(s).len() implies is_whitespace(
            s[j],
        ) by {
            if j > 0 {
                assert(s[j] == t[j - 1]);
            }
        }
    } else {
        assert(s.skip(0) == s);
    }
}

/// A word ends at the end of the text or before white space, and holds none.
pub proof fn lemma_word_len(s: Seq<char>)
    ensures
        word_len(s) <= s.len(),
        forall|j: int| 0 <= j < word_len(s) ==> !is_whitespace(s[j]),
        word_len(s) < s.len() ==> is_whitespace(s[word_len(s) as int]),
    decreases s.len(),
{
    if s.len() > 0 && !is_whitespace(s[0]) {
        let t = s.drop_first();
        lemma_word_len(t);
        assert forall|j: int| 0 <= j < word_len(s) implies !is_whitespace(s[j]) by {
            if j > 0 {
                assert(s[j] == t[j - 1]);
            }
        }
        if word_len(s) < s.len() {
            assert(s[word_len(s) as int] == t[word_len(t) as int]);
        }
    }
}

/// The white space that `s` starts with ends at `n`.
proof fn lemma_skip_whitespace_is(s: Seq<char>, n: int)
    requires
        0 <= n <= s.len(),
        forall|j: int| 0 <= j < n ==> is_whitespace(s[j]),
        n < s.len() ==> !is_whitespace(s[n]),
    ensures
        skip_whitespace(s) == s.skip(n),
    decreases n,
{
    if n == 0 {
        assert(s.skip(0) == s);
    } else {
        let t = s.drop_first();
        assert forall|j: int| 0 <= j < n - 1 implies is_whitespace(t[j]) by {
            assert(t[j] == s[j + 1]);
        }
        if n < s.len() {
            assert(t[n - 1] == s[n]);
        }
        lemma_skip_whitespace_is(t, n - 1);
        assert(t.skip(n - 1) == s.skip(n));
    }
}

/// The word that `s` starts with ends at `n`.
proof fn lemma_word_len_is(s: Seq<char>, n: int)
    requires
        0 <= n <= s.len(),
        forall|j: int| 0 <= j < n ==> !is_whitespace(s[j]),
        n < s.len() ==> is_whitespace(s[n]),
    ensures
        word_len(s) == n,
    decreases n,
{
    if n > 0 {
        let t = s.drop_first();
        assert forall|j: int| 0 <= j < n - 1 implies !is_whitespace(t[j]) by {
            assert(t[j] == s[j + 1]);
        }
        if n < s.len() {
            assert(t[n - 1] == s[n]);
        }
        lemma_word_len_is(t, n - 1);
    }
}

/// Every token is a run of characters other than white space, and not empty.
pub proof fn lemma_tokens_are_words(s: Seq<char>)
    ensures
        forall|i: int|
            0 <= i < tokens(s).len() ==> (#[trigger] tokens(s)[i]).len() > 0 && forall|j: int|
                0 <= j < tokens(s)[i].len() ==> !is_whitespace(tokens(s)[i][j]),
    decreases s.len(),
{
    let t = skip_whitespace(s);
    let n = word_len(t);
    lemma_skip_whitespace(s);
    lemma_word_len(t);
    if 0 < n <= t.len() && t.len() <= s.len() {
        let first = t.take(n as int);
        let rest = tokens(t.skip(n as int));
        lemma_tokens_are_words(t.skip(n as int));
        assert(tokens(s) == seq![first] + rest);
        assert forall|i: int| 0 <= i < tokens(s).len() implies (#[trigger] tokens(s)[i]).len() > 0
            && forall|j: int|
            0 <= j < tokens(s)[i].len() ==> !is_whitespace(tokens(s)[i][j]) by {
            if i == 0 {
                assert(tokens(s)[0] == first);
            } else {
                assert(tokens(s)[i] == rest[i - 1]);
            }
        }
    }
}

/// A text of white space alone has no tokens, and a text without white
/// space that is not empty is its own and only token.
pub proof fn lemma_tokens_of_simple_texts(s: Seq<char>)
    ensures
        (forall|j: int| 0 <= j < s.len() ==> is_whitespace(s[j])) ==> tokens(s).len() == 0,
        s.len() > 0 && (forall|j: int| 0 <= j < s.len() ==> !is_whitespace(s[j])) ==> tokens(s)
            == seq![s],
{
    if forall|j: int| 0 <= j < s.len() ==> is_whitespace(s[j]) {
        lemma_skip_whitespace_is(s, s.len() as int);
        assert(s.skip(s.len() as int).len() == 0);
    }
    if s.len() > 0 && (forall|j: int| 0 <= j < s.len() ==> !is_whitespace(s[j])) {
        lemma_skip_whitespace_is(s, 0);
        assert(s.skip(0) == s);
        lemma_word_len_is(s, s.len() as int);
        assert(s.take(s.len() as int) == s);
        let rest = s.skip(s.len() as int);
        assert(rest.len() == 0);
        assert(tokens(rest).len() == 0);
        assert(seq![s] + tokens(rest) =~= seq![s]);
    }
}

/// Splits a text into its tokens.
pub fn split_tokens(v: &Vec<char>) -> (r: Vec<Vec<char>>)
    ensures
        texts(r@) == tokens(v@),
{
    let mut r: Vec<Vec<char>> = Vec::new();
    let mut i: usize = 0;
    assert(v@.skip(0) == v@);
    assert(texts(r@) + tokens(v@.skip(0)) == tokens(v@));
    loop
        invariant_except_break
            i <= v.len(),
            texts(r@) + tokens(v@.skip(i as int)) == tokens(v@),
        ensures
            texts(r@) == tokens(v@),
        decreases v.len() - i,
    {
        let ghost rest = v@.skip(i as int);
        let mut start: usize = i;
        while start < v.len() && is_space(v[start])
            invariant
                i <= start <= v.len(),
                forall|j: int| i <= j < start ==> is_whitespace(v@[j]),
            decreases v.len() - start,
        {
            start = start + 1;
        }
        proof {
            lemma_skip_whitespace_is(rest, start - i);
            assert(rest.skip(start - i) == v@.skip(start as int));
        }
        let ghost word = v@.skip(start as int);
        if start == v.len() {
            assert(word.len() == 0);
            assert(word_len(word) == 0);
            assert(tokens(rest) == Seq::<Seq<char>>::empty());
            assert(texts(r@) + Seq::<Seq<char>>::empty() == texts(r@));
            break ;
        }
        let mut end: usize = start;
        while end < v.len() && !is_space(v[end])
            invariant
                start <= end <= v.len(),
                forall|j: int| start <= j < end ==> !is_whitespace(v@[j]),
            decreases v.len() - end,
        {
            end = end + 1;
        }
        proof {
            lemma_word_len_is(word, end - start);
        }
        let token = subvec(v, start, end);
        let ghost before = r@;
        r.push(token);
        assert(texts(r@) == texts(before).push(token@));
        assert(word.take(end - start) == token@);
        assert(word.skip(end - start) == v@.skip(end as int));
        assert(tokens(rest) == seq![token@] + tokens(v@.skip(end as int)));
        assert(texts(before) + (seq![token@] + tokens(v@.skip(end as int))) == texts(before).push(
            token@,
        ) + tokens(v@.skip(end as int)));
        i = end;
    }
    r
}

// ---------------------------------------------------------------------------
// Trimming
// ---------------------------------------------------------------------------

/// `s` without its trailing white space.
pub open spec fn skip_trailing_whitespace(s: Seq<char>) -> Seq<char>
    decreases s.len(),
{
    if s.len() > 0 && is_whitespace(s.last()) {
        skip_trailing_whitespace(s.drop_last())
    } else {
        s
    }
}

/// `s` without the white space at either end.
pub open spec fn trimmed(s: Seq<char>) -> Seq<char> {
    skip_trailing_whitespace(skip_whitespace(s))
}

/// The trailing white space of `s` starts at `n`.
proof fn lemma_skip_trailing_whitespace_is(s: Seq<char>, n: int)
    requires
        0 <= n <= s.len(),
        forall|j: int| n <= j < s.len() ==> is_whitespace(s[j]),
        n > 0 ==> !is_whitespace(s[n - 1]),
    ensures
        skip_trailing_whitespace(s) == s.take(n),
    decreases s.len() - n,
{
    if n == s.len() {
        assert(s.take(n) == s);
    } else {
        let t = s.drop_last();
        assert(is_whitespace(s.last()));
        lemma_skip_trailing_whitespace_is(t, n);
        assert(t.take(n) == s.take(n));
    }
}

/// A text that neither starts nor ends with white space is left as it is.
pub proof fn lemma_trimmed_unchanged(s: Seq<char>)
    requires
        s.len() > 0 ==> !is_whitespace(s[0]) && !is_whitespace(s.last()),
    ensures
        trimmed(s) == s,
{
    lemma_skip_whitespace_is(s, 0);
    assert(s.skip(0) == s);
    lemma_skip_trailing_whitespace_is(s, s.len() as int);
    assert(s.take(s.len() as int) == s);
}

/// Removes the white space at either end of a text.
pub fn trim(v: &Vec<char>) -> (r: Vec<char>)
    ensures
        r@ == trimmed(v@),
{
    let mut start: usize = 0;
    while start < v.len() && is_space(v[start])
        invariant
            start <= v.len(),
            forall|j: int| 0 <= j < start ==> is_whitespace(v@[j]),
        decreases v.len() - start,
    {
        start = start + 1;
    }
    let mut end: usize = v.len();
    while end > start && is_space(v[end - 1])
        invariant
            start <= end <= v.len(),
            forall|j: int| end <= j < v.len() ==> is_whitespace(v@[j]),
        decreases end,
    {
        end = end - 1;
    }
    proof {
        lemma_skip_whitespace_is(v@, start as int);
        let t = v@.skip(start as int);
        lemma_skip_trailing_whitespace_is(t, end - start);
        assert(t.take(end - start) == v@.subrange(start as int, end as int));
    }
    subvec(v, start, end)
}

// ---------------------------------------------------------------------------
// Decimal numbers
// ---------------------------------------------------------------------------

/// Every character of `s` is a decimal digit.
pub open spec fn all_digits(s: Seq<char>) -> bool {
    forall|i: int| 0 <= i < s.len() ==> is_digit(#[trigger] s[i])
}

/// The number that a run of decimal digits writes.
pub open spec fn digits_value(s: Seq<char>) -> nat
    decreases s.len(),
{
    if s.len() == 0 {
        0
    } else {
        digits_value(s.drop_last()) * 10 + digit_value(s.last())
    }
}

/// `s` without a leading plus sign.
pub open spec fn without_plus(s: Seq<char>) -> Seq<char> {
    if s.len() > 0 && s[0] == '+' {
        s.drop_first()
    } else {
        s
    }
}

/// The unsigned 64-bit number that `s` writes: an optional plus sign and at
/// least one decimal digit, with a value that fits.
pub open spec fn parsed_u64(s: Seq<char>) -> Option<u64> {
    let d = without_plus(s);
    if d.len() > 0 && all_digits(d) && digits_value(d) <= u64::MAX {
        Some(digits_value(d) as u64)
    } else {
        None
    }
}

/// The signed 32-bit number that `s` writes: an optional sign and at least
/// one decimal digit, with a value that fits.
pub open spec fn parsed_i32(s: Seq<char>) -> Option<i32> {
    if s.len() > 0 && s[0] == '-' {
        let d = s.drop_first();
        if d.len() > 0 && all_digits(d) && digits_value(d) <= 0x8000_0000 {
            Some((0 - digits_value(d)) as i32)
        } else {
            None
        }
    } else {
        let d = without_plus(s);
        if d.len() > 0 && all_digits(d) && digits_value(d) <= i32::MAX {
            Some(digits_value(d) as i32)
        } else {
            None
        }
    }
}

/// A run of digits writes at least what any of its prefixes writes.
pub proof fn lemma_digits_value_prefix(s: Seq<char>, k: int)
    requires
        0 <= k <= s.len(),
    ensures
        digits_value(s.take(k)) <= digits_value(s),
    decreases s.len(),
{
    if k == s.len() {
        assert(s.take(k) == s);
    } else {
        let t = s.drop_last();
        lemma_digits_value_prefix(t, k);
        assert(t.take(k) == s.take(k));
    }
}

/// Reads the digits of `v` from `from` on, as far as their value stays within `limit`.
fn read_digits(v: &Vec<char>, from: usize, limit: u64) -> (r: Option<u64>)
    requires
        from <= v.len(),
        limit >= 9,
    ensures
        r == ({
            let d = v@.skip(from as int);
            if d.len() > 0 && all_digits(d) && digits_value(d) <= limit {
                Some(digits_value(d) as u64)
            } else {
                None
            }
        }),
{
    let ghost d = v@.skip(from as int);
    if from == v.len() {
        return None;
    }
    let mut acc: u64 = 0;
    let mut i: usize = from;
    assert(d.take(0) == Seq::<char>::empty());
    while i < v.len()
        invariant
            from <= i <= v.len(),
            d == v@.skip(from as int),
            all_digits(d.take(i - from)),
            acc == digits_value(d.take(i - from)),
            acc <= limit,
            limit >= 9,
        decreases v.len() - i,
    {
        let c = v[i];
        let u: u32 = c as u32;
        assert(d[i - from] == c);
        if u < 0x30 || u > 0x39 {
            assert(!is_digit(d[i - from]));
            return None;
        }
        let digit: u64 = (u - 0x30) as u64;
        let ghost next = d.take(i - from + 1);
        assert(next.drop_last() == d.take(i - from));
        assert(next.last() == c);
        assert(digits_value(next) == acc * 10 + digit);
        if acc > (limit - digit) / 10 {
            proof {
                lemma_digits_value_prefix(d, i - from + 1);
            }
            return None;
        }
        acc = acc * 10 + digit;
        assert forall|j: int| 0 <= j < next.len() implies is_digit(#[trigger] next[j]) by {
            if j < i - from {
                assert(next[j] == d.take(i - from)[j]);
            }
        }
        i = i + 1;
    }
    assert(d.take(d.len() as int) == d);
    Some(acc)
}

/// Reads an unsigned 64-bit decimal number.
pub fn parse_u64(v: &Vec<char>) -> (r: Option<u64>)
    ensures
        r == parsed_u64(v@),
{
    let from: usize = if v.len() > 0 && v[0] == '+' {
        1
    } else {
        0
    };
    assert(v@.skip(from as int) == without_plus(v@));
    read_digits(v, from, u64::MAX)
}

/// Reads a signed 32-bit decimal number.
pub fn parse_i32(v: &Vec<char>) -> (r: Option<i32>)
    ensures
        r == parsed_i32(v@),
{
    if v.len() > 0 && v[0] == '-' {
        assert(v@.skip(1) == v@.drop_first());
        match read_digits(v, 1, 0x8000_0000) {
            Some(m) => {
                if m == 0x8000_0000 {
                    Some(i32::MIN)
                } else {
                    Some(0 - (m as i32))
                }
            },
            None => None,
        }
    } else {
        let from: usize = if v.len() > 0 && v[0] == '+' {
            1
        } else {
            0
        };
        assert(v@.skip(from as int) == without_plus(v@));
        match read_digits(v, from, 0x7fff_ffff) {
            Some(m) => Some(m as i32),
            None => None,
        }
    }
}

/// The decimal digits that write `n`, without leading zeros.
pub open spec fn decimal(n: nat) -> Seq<char>
    decreases n,
{
    if n < 10 {
        seq![digit_char(n)]
    } else {
        decimal(n / 10).push(digit_char(n % 10))
    }
}

/// The decimal text of a signed number: a minus sign before the digits of a
/// negative one.
pub open spec fn signed_decimal(i: int) -> Seq<char> {
    if i < 0 {
        seq!['-'] + decimal((0 - i) as nat)
    } else {
        decimal(i as nat)
    }
}

/// The one-character text of a digit.
fn digit_str(d: u64) -> (r: &'static str)
    requires
        d < 10,
    ensures
        r@ == seq![digit_char(d as nat)],
{
    proof {
        reveal_strlit("0");
        reveal_strlit("1");
        reveal_strlit("2");
        reveal_strlit("3");
        reveal_strlit("4");
        reveal_strlit("5");
        reveal_strlit("6");
        reveal_strlit("7");
        reveal_strlit("8");
        reveal_strlit("9");
    }
    let r = if d == 0 {
        "0"
    } else if d == 1 {
        "1"
    } else if d == 2 {
        "2"
    } else if d == 3 {
        "3"
    } else if d == 4 {
        "4"
    } else if d == 5 {
        "5"
    } else if d == 6 {
        "6"
    } else if d == 7 {
        "7"
    } else if d == 8 {
        "8"
    } else {
        "9"
    };
    assert(r@ =~= seq![digit_char(d as nat)]);
    r
}

/// Appends the decimal digits of `n` to `s`.
pub fn push_decimal(s: &mut String, n: u64)
    ensures
        final(s)@ == old(s)@ + decimal(n as nat),
    decreases n,
{
    if n >= 10 {
        push_decimal(s, n / 10);
    }
    s.append(digit_str(n % 10));
    proof {
        if n >= 10 {
            assert(old(s)@ + decimal((n / 10) as nat) + seq![digit_char((n % 10) as nat)] == old(
                s,
            )@ + decimal((n / 10) as nat).push(digit_char((n % 10) as nat)));
        }
    }
}

/// Appends the decimal text of the signed number `i` to `s`.
pub fn push_signed_decimal(s: &mut String, i: i64)
    ensures
        final(s)@ == old(s)@ + signed_decimal(i as int),
{
    if i < 0 {
        let m: u64 = if i == i64::MIN {
            0x8000_0000_0000_0000
        } else {
            (0 - i) as u64
        };
        s.append("-");
        proof {
            reveal_strlit("-");
            assert("-"@ =~= seq!['-']);
        }
        push_decimal(s, m);
        assert(old(s)@ + seq!['-'] + decimal(m as nat) == old(s)@ + (seq!['-'] + decimal(
            m as nat,
        )));
    } else {
        push_decimal(s, i as u64);
    }
}

/// The decimal text of `n`.
pub fn decimal_string(n: u64) -> (s: String)
    ensures
        s@ == decimal(n as nat),
{
    let mut s = String::new();
    push_decimal(&mut s, n);
    assert(Seq::<char>::empty() + decimal(n as nat) == decimal(n as nat));
    s
}

/// What `decimal` writes is a run of digits that starts with no sign and
/// writes the number back.
pub proof fn lemma_decimal_digits(n: nat)
    ensures
        decimal(n).len() > 0,
        all_digits(decimal(n)),
        digits_value(decimal(n)) == n,
    decreases n,
{
    if n < 10 {
        let s = decimal(n);
        assert(s.drop_last() == Seq::<char>::empty());
        assert(digits_value(s.drop_last()) == 0);
    } else {
        lemma_decimal_digits(n / 10);
        let p = decimal(n / 10);
        let s = decimal(n);
        assert(s.drop_last() == p);
        assert forall|i: int| 0 <= i < s.len() implies is_digit(#[trigger] s[i]) by {
            if i < p.len() {
                assert(s[i] == p[i]);
            }
        }
    }
}

/// Reading the decimal text of an unsigned 64-bit number gives the number back.
pub proof fn lemma_decimal_round_trip(n: u64)
    ensures
        parsed_u64(decimal(n as nat)) == Some(n),
{
    lemma_decimal_digits(n as nat);
    let s = decimal(n as nat);
    assert(is_digit(s[0]));
}

/// Reading the decimal text of a signed 32-bit number gives the number back.
pub proof fn lemma_signed_decimal_round_trip(i: i32)
    ensures
        parsed_i32(signed_decimal(i as int)) == Some(i),
{
    let s = signed_decimal(i as int);
    if i < 0 {
        let m = (0 - i) as nat;
        lemma_decimal_digits(m);
        assert(s[0] == '-');
        assert(s.drop_first() =~= decimal(m));
    } else {
        lemma_decimal_digits(i as nat);
        assert(is_digit(s[0]));
    }
}

// ---------------------------------------------------------------------------
// Building strings
// ---------------------------------------------------------------------------

/// The text of `a` followed by the text of `b`.
pub fn concat2(a: &str, b: &str) -> (s: String)
    ensures
        s@ == a@ + b@,
{
    let mut s = String::from_str(a);
    s.append(b);
    s
}

/// The texts of `a`, `b` and `c`, one after the other.
pub fn concat3(a: &str, b: &str, c: &str) -> (s: String)
    ensures
        s@ == a@ + b@ + c@,
{
    let mut s = String::from_str(a);
    s.append(b);
    s.append(c);
    s
}

} // verus!

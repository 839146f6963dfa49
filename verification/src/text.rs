//! Character-level helpers on strings: comparison, trimming, splitting.

use vstd::prelude::*;
use vstd::utf8::*;

verus! {

/// Whether `c` is white space in the sense of `char::is_whitespace`, that is,
/// whether it has the Unicode `White_Space` property.
pub uninterp spec fn is_whitespace(c: char) -> bool;

/// `char::is_whitespace`.
#[verifier::external_body]
fn char_is_whitespace(c: char) -> (b: bool)
    ensures
        b == is_whitespace(c),
{
    c.is_whitespace()
}

/// `String::push`: appends one character.
#[verifier::external_body]
fn push_char(text: &mut String, c: char)
    ensures
        final(text)@ == old(text)@.push(c),
{
    text.push(c)
}

/// `String::from_utf8`: succeeds exactly on well-formed UTF-8, and the string
/// then holds the characters those bytes encode.
#[verifier::external_body]
pub(crate) fn string_from_utf8(bytes: Vec<u8>) -> (text: Option<String>)
    ensures
        text is Some <==> valid_utf8(bytes@),
        text matches Some(s) ==> s@ == decode_utf8(bytes@),
{
    String::from_utf8(bytes).ok()
}

/// The characters of `text`, in order.
pub fn chars_of(text: &str) -> (chars: Vec<char>)
    ensures
        chars@ == text@,
{
    let mut chars: Vec<char> = Vec::new();
    for c in it: text.chars()
        invariant
            chars@ == it.seq().take(it.index() as int),
            it.seq() == text@,
    {
        chars.push(c);
    }
    chars
}

/// The string made of `chars[from..to]`.
pub fn text_of(chars: &Vec<char>, from: usize, to: usize) -> (text: String)
    requires
        from <= to <= chars.len(),
    ensures
        text@ == chars@.subrange(from as int, to as int),
{
    let mut text = String::new();
    let mut i: usize = from;
    while i < to
        invariant
            from <= i <= to <= chars.len(),
            text@ == chars@.subrange(from as int, i as int),
        decreases to - i,
    {
        push_char(&mut text, chars[i]);
        assert(chars@.subrange(from as int, i as int).push(chars@[i as int])
            =~= chars@.subrange(from as int, i + 1));
        i += 1;
    }
    text
}

/// Whether two strings hold the same characters.
pub fn str_eq(a: &str, b: &str) -> (same: bool)
    ensures
        same == (a@ == b@),
{
    let x = a.as_bytes();
    let y = b.as_bytes();
    proof {
        encode_utf8_decode_utf8(a@);
        encode_utf8_decode_utf8(b@);
    }
    if x.len() != y.len() {
        return false;
    }
    let mut i: usize = 0;
    while i < x.len()
        invariant
            i <= x.len(),
            x.len() == y.len(),
            x@ == encode_utf8(a@),
            y@ == encode_utf8(b@),
            decode_utf8(encode_utf8(a@)) == a@,
            decode_utf8(encode_utf8(b@)) == b@,
            forall|j: int| 0 <= j < i ==> x@[j] == y@[j],
        decreases x.len() - i,
    {
        if x[i] != y[i] {
            return false;
        }
        i += 1;
    }
    assert(x@ =~= y@);
    true
}

/// `s` without its leading white space.
pub open spec fn skip_blank(s: Seq<char>) -> Seq<char>
    decreases s.len(),
{
    if s.len() > 0 && is_whitespace(s.first()) {
        skip_blank(s.drop_first())
    } else {
        s
    }
}

/// `s` without its trailing white space.
pub open spec fn drop_blank_end(s: Seq<char>) -> Seq<char>
    decreases s.len(),
{
    if s.len() > 0 && is_whitespace(s.last()) {
        drop_blank_end(s.drop_last())
    } else {
        s
    }
}

/// `s` without leading and trailing white space.
pub open spec fn trimmed(s: Seq<char>) -> Seq<char> {
    drop_blank_end(skip_blank(s))
}

/// `s` holds nothing but white space.
pub open spec fn is_blank(s: Seq<char>) -> bool {
    trimmed(s).len() == 0
}

/// What `skip_blank` returns neither is longer than its argument nor starts
/// with white space.
pub proof fn lemma_skip_blank(s: Seq<char>)
    ensures
        skip_blank(s).len() <= s.len(),
        skip_blank(s) == s.skip(s.len() - skip_blank(s).len()),
        skip_blank(s).len() > 0 ==> !is_whitespace(skip_blank(s).first()),
    decreases s.len(),
{
    if s.len() > 0 && is_whitespace(s.first()) {
        let t = s.drop_first();
        lemma_skip_blank(t);
        assert(t.skip(t.len() - skip_blank(t).len()) =~= s.skip(s.len() - skip_blank(t).len()));
    } else {
        assert(s.skip(0) =~= s);
    }
}

/// What `drop_blank_end` returns is a prefix of its argument and does not end
/// with white space.
pub proof fn lemma_drop_blank_end(s: Seq<char>)
    ensures
        drop_blank_end(s).len() <= s.len(),
        drop_blank_end(s) == s.take(drop_blank_end(s).len() as int),
        drop_blank_end(s).len() > 0 ==> !is_whitespace(drop_blank_end(s).last()),
    decreases s.len(),
{
    if s.len() > 0 && is_whitespace(s.last()) {
        let t = s.drop_last();
        lemma_drop_blank_end(t);
        assert(t.take(drop_blank_end(t).len() as int) =~= s.take(drop_blank_end(t).len() as int));
    } else {
        assert(s.take(s.len() as int) =~= s);
    }
}

/// A trimmed text is a slice of the text that neither starts nor ends
/// with white space.
pub proof fn lemma_trimmed(s: Seq<char>)
    ensures
        trimmed(s).len() <= s.len(),
        exists|from: int|
            0 <= from && from + trimmed(s).len() <= s.len() && trimmed(s) == #[trigger] s.subrange(
                from,
                from + trimmed(s).len(),
            ),
        trimmed(s).len() > 0 ==> !is_whitespace(trimmed(s).first()) && !is_whitespace(
            trimmed(s).last(),
        ),
{
    let front = skip_blank(s);
    lemma_skip_blank(s);
    lemma_drop_blank_end(front);
    let from = s.len() - front.len();
    let t = trimmed(s);
    assert(t =~= s.subrange(from, from + t.len()));
    if t.len() > 0 {
        assert(t.first() == front.first());
    }
}

/// Where the trimmed part of `chars` starts and ends.
pub(crate) fn trim_bounds(chars: &Vec<char>) -> (r: (usize, usize))
    ensures
        r.0 <= r.1 <= chars.len(),
        trimmed(chars@) == chars@.subrange(r.0 as int, r.1 as int),
{
    let n = chars.len();
    let mut a: usize = 0;
    assert(chars@.skip(0) =~= chars@);
    while a < n && char_is_whitespace(chars[a])
        invariant
            a <= n,
            n == chars.len(),
            skip_blank(chars@) == skip_blank(chars@.skip(a as int)),
        decreases n - a,
    {
        assert(chars@.skip(a as int).drop_first() =~= chars@.skip(a + 1));
        a += 1;
    }
    assert(skip_blank(chars@) == chars@.skip(a as int));
    let mut b: usize = n;
    assert(chars@.subrange(a as int, n as int) =~= chars@.skip(a as int));
    while b > a && char_is_whitespace(chars[b - 1])
        invariant
            a <= b <= n,
            n == chars.len(),
            trimmed(chars@) == drop_blank_end(chars@.subrange(a as int, b as int)),
        decreases b,
    {
        assert(chars@.subrange(a as int, b as int).drop_last() =~= chars@.subrange(
            a as int,
            b - 1,
        ));
        b -= 1;
    }
    (a, b)
}

/// `text` without leading and trailing white space.
pub fn trim(text: &str) -> (out: String)
    ensures
        out@ == trimmed(text@),
{
    let chars = chars_of(text);
    let (from, to) = trim_bounds(&chars);
    text_of(&chars, from, to)
}

/// Whether `text` is empty once trimmed.
pub fn is_blank_text(text: &str) -> (blank: bool)
    ensures
        blank == is_blank(text@),
{
    let chars = chars_of(text);
    let (from, to) = trim_bounds(&chars);
    from == to
}

/// What each of `texts` holds.
pub open spec fn views(texts: Seq<String>) -> Seq<Seq<char>> {
    texts.map_values(|t: String| t@)
}

/// The index of the first `c` in `s`, or the length of `s` if it holds none.
pub open spec fn index_of_char(s: Seq<char>, c: char) -> int
    decreases s.len(),
{
    if s.len() == 0 || s[0] == c {
        0
    } else {
        1 + index_of_char(s.drop_first(), c)
    }
}

/// The parts of `s` between occurrences of `sep`: one more part than there
/// are separators, each possibly empty.
pub open spec fn split(s: Seq<char>, sep: char) -> Seq<Seq<char>>
    decreases s.len(),
{
    let i = index_of_char(s, sep);
    if 0 <= i < s.len() {
        seq![s.take(i)] + split(s.skip(i + 1), sep)
    } else {
        seq![s]
    }
}

/// `index_of_char` is the index before which no `c` occurs and at which one
/// does, or the sequence ends.
pub proof fn lemma_index_of_char(s: Seq<char>, c: char, k: int)
    requires
        0 <= k <= s.len(),
        forall|j: int| 0 <= j < k ==> s[j] != c,
        k == s.len() || s[k] == c,
    ensures
        index_of_char(s, c) == k,
    decreases k,
{
    if k > 0 {
        let t = s.drop_first();
        assert forall|j: int| 0 <= j < k - 1 implies t[j] != c by {
            assert(t[j] == s[j + 1]);
        }
        lemma_index_of_char(t, c, k - 1);
    }
}

/// The parts of `text` between occurrences of `sep`.
pub fn split_text(text: &str, sep: char) -> (parts: Vec<String>)
    ensures
        views(parts@) == split(text@, sep),
{
    let chars = chars_of(text);
    let n = chars.len();
    let mut parts: Vec<String> = Vec::new();
    let mut start: usize = 0;
    let mut i: usize = 0;
    assert(chars@.skip(0) =~= chars@);
    assert(views(parts@) + split(chars@.skip(0), sep) =~= split(chars@, sep));
    while i < n
        invariant
            start <= i <= n,
            n == chars.len(),
            forall|j: int| start <= j < i ==> chars@[j] != sep,
            split(chars@, sep) == views(parts@) + split(chars@.skip(start as int), sep),
        decreases n - i,
    {
        if chars[i] == sep {
            let part = text_of(&chars, start, i);
            proof {
                let rest = chars@.skip(start as int);
                assert forall|j: int| 0 <= j < i - start implies rest[j] != sep by {
                    assert(rest[j] == chars@[start + j]);
                }
                lemma_index_of_char(rest, sep, i - start);
                assert(rest.take(i - start) =~= chars@.subrange(start as int, i as int));
                assert(rest.skip(i - start + 1) =~= chars@.skip(i + 1));
                assert(views(parts@.push(part)) =~= views(parts@) + seq![part@]);
            }
            parts.push(part);
            start = i + 1;
        }
        i += 1;
    }
    let part = text_of(&chars, start, n);
    proof {
        let rest = chars@.skip(start as int);
        assert forall|j: int| 0 <= j < n - start implies rest[j] != sep by {
            assert(rest[j] == chars@[start + j]);
        }
        lemma_index_of_char(rest, sep, n - start);
        assert(rest =~= chars@.subrange(start as int, n as int));
        assert(views(parts@.push(part)) =~= views(parts@) + seq![part@]);
    }
    parts.push(part);
    parts
}

/// `s` up to its first `sep`, and what follows that `sep`; all of `s` and
/// nothing where it holds no `sep`.
pub open spec fn split_once(s: Seq<char>, sep: char) -> (Seq<char>, Seq<char>) {
    let i = index_of_char(s, sep);
    if 0 <= i < s.len() {
        (s.take(i), s.skip(i + 1))
    } else {
        (s, Seq::empty())
    }
}

/// Splits `text` at its first `sep`.
pub fn split_text_once(text: &str, sep: char) -> (halves: (String, String))
    ensures
        (halves.0@, halves.1@) == split_once(text@, sep),
{
    match cut_at_first(text, sep) {
        Some(halves) => halves,
        None => (text.to_owned(), String::new()),
    }
}

/// The first character of `text` that is not leading white space.
pub fn first_after_blank(text: &str) -> (first: Option<char>)
    ensures
        match first {
            Some(c) => skip_blank(text@).len() > 0 && skip_blank(text@).first() == c,
            None => skip_blank(text@).len() == 0,
        },
{
    let chars = chars_of(text);
    let n = chars.len();
    let mut a: usize = 0;
    assert(chars@.skip(0) =~= chars@);
    while a < n && char_is_whitespace(chars[a])
        invariant
            a <= n,
            n == chars.len(),
            skip_blank(chars@) == skip_blank(chars@.skip(a as int)),
        decreases n - a,
    {
        assert(chars@.skip(a as int).drop_first() =~= chars@.skip(a + 1));
        a += 1;
    }
    if a < n {
        Some(chars[a])
    } else {
        None
    }
}

/// `s` starts with `prefix`.
pub open spec fn has_prefix(s: Seq<char>, prefix: Seq<char>) -> bool {
    prefix.len() <= s.len() && s.take(prefix.len() as int) == prefix
}

/// Whether `text` starts with `prefix`.
pub fn starts_with(text: &str, prefix: &str) -> (starts: bool)
    ensures
        starts == has_prefix(text@, prefix@),
{
    let chars = chars_of(text);
    let wanted = chars_of(prefix);
    if wanted.len() > chars.len() {
        return false;
    }
    let mut i: usize = 0;
    while i < wanted.len()
        invariant
            i <= wanted.len() <= chars.len(),
            chars@ == text@,
            wanted@ == prefix@,
            forall|j: int| 0 <= j < i ==> chars@[j] == wanted@[j],
        decreases wanted.len() - i,
    {
        if chars[i] != wanted[i] {
            assert(text@.take(prefix@.len() as int)[i as int] != prefix@[i as int]);
            return false;
        }
        i += 1;
    }
    assert(text@.take(prefix@.len() as int) =~= prefix@);
    true
}

/// Splits `text` at its first `sep`, where it holds one.
pub fn cut_at_first(text: &str, sep: char) -> (halves: Option<(String, String)>)
    ensures
        match halves {
            Some((head, tail)) => 0 <= index_of_char(text@, sep) < text@.len() && head@
                == text@.take(index_of_char(text@, sep)) && tail@ == text@.skip(
                index_of_char(text@, sep) + 1,
            ),
            None => index_of_char(text@, sep) == text@.len(),
        },
{
    let chars = chars_of(text);
    let n = chars.len();
    let mut i: usize = 0;
    while i < n && chars[i] != sep
        invariant
            i <= n,
            n == chars.len(),
            forall|j: int| 0 <= j < i ==> chars@[j] != sep,
        decreases n - i,
    {
        i += 1;
    }
    proof {
        lemma_index_of_char(chars@, sep, i as int);
    }
    if i < n {
        let head = text_of(&chars, 0, i);
        let tail = text_of(&chars, i + 1, n);
        assert(chars@.subrange(0, i as int) =~= chars@.take(i as int));
        assert(chars@.subrange(i + 1, n as int) =~= chars@.skip(i + 1));
        Some((head, tail))
    } else {
        None
    }
}

} // verus!

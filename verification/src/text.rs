//! Text helpers shared by the decision components.
//!
//! Contracts speak of a string through its view, the sequence of its
//! characters.

use vstd::prelude::*;
use vstd::string::*;
use vstd::utf8::*;

verus! {

/// `needle` occurs in `hay` as a contiguous run of characters.
pub open spec fn occurs_in(needle: Seq<char>, hay: Seq<char>) -> bool {
    exists|i: int|
        0 <= i && i + needle.len() <= hay.len() && #[trigger] hay.subrange(
            i,
            i + needle.len(),
        ) == needle
}

/// The character sequences of a list of strings, in order.
pub open spec fn texts(strings: Seq<String>) -> Seq<Seq<char>> {
    Seq::new(strings.len(), |i: int| strings[i]@)
}

/// What `pick` finds in the lines that it accepts, in the order of the
/// lines.
pub open spec fn picked<T>(lines: Seq<Seq<char>>, pick: spec_fn(Seq<char>) -> Option<T>) -> Seq<T>
    decreases lines.len(),
{
    if lines.len() == 0 {
        Seq::empty()
    } else {
        let earlier = picked(lines.drop_last(), pick);
        match pick(lines.last()) {
            Some(found) => earlier.push(found),
            None => earlier,
        }
    }
}

/// The decimal digit that stands for `d`, for `d` below ten.
pub open spec fn digit_char(d: nat) -> char {
    if d == 0 {
        '0'
    } else if d == 1 {
        '1'
    } else if d == 2 {
        '2'
    } else if d == 3 {
        '3'
    } else if d == 4 {
        '4'
    } else if d == 5 {
        '5'
    } else if d == 6 {
        '6'
    } else if d == 7 {
        '7'
    } else if d == 8 {
        '8'
    } else {
        '9'
    }
}

/// The decimal numeral of `n`: no sign, no leading zero, `"0"` for zero.
pub open spec fn decimal_digits(n: nat) -> Seq<char>
    decreases n,
{
    if n < 10 {
        seq![digit_char(n)]
    } else {
        decimal_digits(n / 10).push(digit_char(n % 10))
    }
}

/// Whether two strings hold the same characters.
pub fn str_eq(a: &str, b: &str) -> (r: bool)
    ensures
        r == (a@ == b@),
{
    let ab = a.as_bytes();
    let bb = b.as_bytes();
    proof {
        encode_utf8_decode_utf8(a@);
        encode_utf8_decode_utf8(b@);
    }
    if ab.len() != bb.len() {
        return false;
    }
    let mut i: usize = 0;
    while i < ab.len()
        invariant
            i <= ab.len(),
            ab.len() == bb.len(),
            ab@ == encode_utf8(a@),
            bb@ == encode_utf8(b@),
            forall|j: int| 0 <= j < i ==> ab@[j] == bb@[j],
        decreases ab.len() - i,
    {
        if ab[i] != bb[i] {
            return false;
        }
        i = i + 1;
    }
    assert(ab@ =~= bb@);
    true
}

/// The encoding of a concatenation is the concatenation of the encodings.
proof fn lemma_encode_concat(a: Seq<char>, b: Seq<char>)
    ensures
        encode_utf8(a + b) == encode_utf8(a) + encode_utf8(b),
    decreases a.len(),
{
    if a.len() == 0 {
        assert(a + b =~= b);
        assert(encode_utf8(a) + encode_utf8(b) =~= encode_utf8(b));
    } else {
        assert((a + b).drop_first() =~= a.drop_first() + b);
        assert((a + b)[0] == a[0]);
        lemma_encode_concat(a.drop_first(), b);
        assert(encode_utf8(a + b) =~= encode_utf8(a) + encode_utf8(b));
    }
}

/// In the encoding of a concatenation, the first part ends at a character
/// boundary.
proof fn lemma_concat_boundary(a: Seq<char>, b: Seq<char>)
    ensures
        is_char_boundary(encode_utf8(a + b), encode_utf8(a).len() as int),
    decreases a.len(),
{
    let bytes = encode_utf8(a + b);
    encode_utf8_valid_utf8(a + b);
    lemma_encode_concat(a, b);
    if a.len() == 0 {
    } else {
        let rest = a.drop_first();
        encode_utf8_first_scalar(a + b);
        assert((a + b)[0] == a[0]);
        assert((a + b).drop_first() =~= rest + b);
        assert(pop_first_scalar(bytes) =~= encode_utf8(rest + b));
        lemma_concat_boundary(rest, b);
        assert(encode_utf8(a).len() == encode_scalar(a[0] as u32).len() + encode_utf8(
            rest,
        ).len());
    }
}

/// What a prefix of the characters means for the encodings: the encoding of
/// the prefix is the beginning of the encoding of the whole, and it ends at
/// a character boundary.
proof fn lemma_prefix_bytes(prefix: Seq<char>, s: Seq<char>)
    requires
        prefix.is_prefix_of(s),
    ensures
        encode_utf8(prefix).len() <= encode_utf8(s).len(),
        encode_utf8(s).subrange(0, encode_utf8(prefix).len() as int) == encode_utf8(prefix),
        encode_utf8(s).subrange(encode_utf8(prefix).len() as int, encode_utf8(s).len() as int)
            == encode_utf8(s.subrange(prefix.len() as int, s.len() as int)),
        is_char_boundary(encode_utf8(s), encode_utf8(prefix).len() as int),
{
    let rest = s.subrange(prefix.len() as int, s.len() as int);
    assert(s =~= prefix + rest);
    lemma_encode_concat(prefix, rest);
    lemma_concat_boundary(prefix, rest);
    assert(encode_utf8(s).subrange(0, encode_utf8(prefix).len() as int) =~= encode_utf8(prefix));
    assert(encode_utf8(s).subrange(
        encode_utf8(prefix).len() as int,
        encode_utf8(s).len() as int,
    ) =~= encode_utf8(rest));
}

/// Splitting a string at a character boundary splits its characters: the
/// whole is the first part followed by the second.
proof fn lemma_split_chars(s: Seq<char>, head: Seq<char>, tail: Seq<char>, mid: int)
    requires
        is_char_boundary(encode_utf8(s), mid),
        0 <= mid <= encode_utf8(s).len(),
        encode_utf8(head) == encode_utf8(s).subrange(0, mid),
        encode_utf8(tail) == encode_utf8(s).subrange(mid, encode_utf8(s).len() as int),
    ensures
        s == head + tail,
{
    let bytes = encode_utf8(s);
    encode_utf8_valid_utf8(s);
    decode_utf8_split(bytes, mid);
    encode_utf8_decode_utf8(s);
    encode_utf8_decode_utf8(head);
    encode_utf8_decode_utf8(tail);
}

/// Whether the characters of `prefix` are the first characters of `s`.
pub fn str_starts_with(s: &str, prefix: &str) -> (r: bool)
    ensures
        r == prefix@.is_prefix_of(s@),
{
    let n = prefix.as_bytes().len();
    proof {
        if prefix@.is_prefix_of(s@) {
            lemma_prefix_bytes(prefix@, s@);
        }
    }
    if n > s.as_bytes().len() {
        return false;
    }
    if !s.is_char_boundary(n) {
        return false;
    }
    let (head, tail) = s.split_at(n);
    let same = str_eq(head, prefix);
    proof {
        encode_utf8_decode_utf8(head@);
        encode_utf8_decode_utf8(prefix@);
        if same {
            lemma_split_chars(s@, head@, tail@, n as int);
            assert(s@.subrange(0, prefix@.len() as int) =~= prefix@);
        }
    }
    same
}

/// Where the character at position `k` begins in the encoding.
spec fn byte_offset(s: Seq<char>, k: int) -> int {
    encode_utf8(s.take(k)).len() as int
}

/// Whether `needle` occurs in `hay` at character position `k`.
spec fn occurs_at(needle: Seq<char>, hay: Seq<char>, k: int) -> bool {
    0 <= k && k + needle.len() <= hay.len() && hay.subrange(k, k + needle.len()) == needle
}

/// What an occurrence means for the encodings: it begins at a character
/// boundary, and the encoding of the needle fits behind it.
proof fn lemma_occurrence_bytes(needle: Seq<char>, hay: Seq<char>, k: int)
    requires
        occurs_at(needle, hay, k),
    ensures
        0 <= byte_offset(hay, k),
        byte_offset(hay, k) + encode_utf8(needle).len() <= encode_utf8(hay).len(),
        is_char_boundary(encode_utf8(hay), byte_offset(hay, k)),
        encode_utf8(hay).subrange(0, byte_offset(hay, k)) == encode_utf8(hay.take(k)),
        encode_utf8(hay).subrange(byte_offset(hay, k), encode_utf8(hay).len() as int)
            == encode_utf8(hay.skip(k)),
        needle.is_prefix_of(hay.skip(k)),
{
    let before = hay.take(k);
    let after = hay.skip(k);
    assert(before.is_prefix_of(hay)) by {
        assert(hay.subrange(0, before.len() as int) =~= before);
    }
    lemma_prefix_bytes(before, hay);
    assert(hay.subrange(before.len() as int, hay.len() as int) =~= after);
    assert(needle.is_prefix_of(after)) by {
        assert(after.subrange(0, needle.len() as int) =~= hay.subrange(k, k + needle.len()));
    }
    lemma_prefix_bytes(needle, after);
}

/// Whether the characters of `needle` occur in `s` as one contiguous run.
pub fn str_contains(s: &str, needle: &str) -> (r: bool)
    ensures
        r == occurs_in(needle@, s@),
{
    let n = needle.as_bytes().len();
    let m = s.as_bytes().len();
    if n > m {
        proof {
            if occurs_in(needle@, s@) {
                let k = choose|k: int|
                    0 <= k && k + needle@.len() <= s@.len() && #[trigger] s@.subrange(
                        k,
                        k + needle@.len(),
                    ) == needle@;
                lemma_occurrence_bytes(needle@, s@, k);
            }
        }
        return false;
    }
    let last = m - n;
    let mut i: usize = 0;
    loop
        invariant
            m == encode_utf8(s@).len(),
            n == encode_utf8(needle@).len(),
            last == m - n,
            i <= last,
            forall|k: int| occurs_at(needle@, s@, k) ==> byte_offset(s@, k) >= i,
        decreases last - i,
    {
        if s.is_char_boundary(i) {
            let (head, tail) = s.split_at(i);
            if str_starts_with(tail, needle) {
                proof {
                    lemma_split_chars(s@, head@, tail@, i as int);
                    let k = head@.len() as int;
                    assert(s@.subrange(k, k + needle@.len()) =~= tail@.subrange(
                        0,
                        needle@.len() as int,
                    ));
                }
                return true;
            }
            proof {
                assert forall|k: int| occurs_at(needle@, s@, k) implies byte_offset(s@, k)
                    >= i + 1 by {
                    lemma_occurrence_bytes(needle@, s@, k);
                    if byte_offset(s@, k) == i {
                        encode_utf8_decode_utf8(tail@);
                        encode_utf8_decode_utf8(s@.skip(k));
                        assert(tail@ == s@.skip(k));
                    }
                }
            }
        } else {
            proof {
                assert forall|k: int| occurs_at(needle@, s@, k) implies byte_offset(s@, k)
                    >= i + 1 by {
                    lemma_occurrence_bytes(needle@, s@, k);
                }
            }
        }
        if i == last {
            proof {
                if occurs_in(needle@, s@) {
                    let k = choose|k: int|
                        0 <= k && k + needle@.len() <= s@.len() && #[trigger] s@.subrange(
                            k,
                            k + needle@.len(),
                        ) == needle@;
                    assert(occurs_at(needle@, s@, k));
                    lemma_occurrence_bytes(needle@, s@, k);
                }
            }
            return false;
        }
        i = i + 1;
    }
}

/// The characters of a string, in order.
pub fn chars_of(s: &str) -> (chars: Vec<char>)
    ensures
        chars@ == s@,
{
    let mut chars: Vec<char> = Vec::new();
    for c in it: s.chars()
        invariant
            chars@ == it.seq().take(it.index() as int),
            it.seq() == s@,
    {
        chars.push(c);
        assert(chars@ =~= it.seq().take(it.index() + 1));
    }
    assert(chars@ =~= s@);
    chars
}

/// Whether a character is white space: one of the characters with the
/// Unicode property `White_Space`.
pub open spec fn is_white_space(c: char) -> bool {
    let u = c as u32;
    ||| 0x09 <= u <= 0x0d
    ||| u == 0x20
    ||| u == 0x85
    ||| u == 0xa0
    ||| u == 0x1680
    ||| 0x2000 <= u <= 0x200a
    ||| u == 0x2028
    ||| u == 0x2029
    ||| u == 0x202f
    ||| u == 0x205f
    ||| u == 0x3000
}

/// Whether a text holds nothing but white space.
pub open spec fn all_white_space(s: Seq<char>) -> bool {
    forall|i: int| 0 <= i < s.len() ==> is_white_space(#[trigger] s[i])
}

/// How many characters stand before the first white space of a text.
pub open spec fn word_len(s: Seq<char>) -> nat
    decreases s.len(),
{
    if s.len() == 0 || is_white_space(s[0]) {
        0
    } else {
        1 + word_len(s.drop_first())
    }
}

/// The leading word is no longer than the text.
pub proof fn lemma_word_len_bound(s: Seq<char>)
    ensures
        word_len(s) <= s.len(),
    decreases s.len(),
{
    if s.len() > 0 && !is_white_space(s[0]) {
        lemma_word_len_bound(s.drop_first());
    }
}

/// The words of a text: the maximal runs of characters that are not white
/// space, in order.
pub open spec fn whitespace_words(s: Seq<char>) -> Seq<Seq<char>>
    decreases s.len(),
{
    if s.len() == 0 {
        Seq::empty()
    } else if is_white_space(s[0]) {
        whitespace_words(s.drop_first())
    } else {
        proof {
            lemma_word_len_bound(s);
        }
        seq![s.take(word_len(s) as int)] + whitespace_words(s.skip(word_len(s) as int))
    }
}

/// How many characters stand before the first line feed of a text.
pub open spec fn line_len(s: Seq<char>) -> nat
    decreases s.len(),
{
    if s.len() == 0 || s[0] == '\n' {
        0
    } else {
        1 + line_len(s.drop_first())
    }
}

/// A line without the carriage return that ends it, if one does.
pub open spec fn without_carriage_return(line: Seq<char>) -> Seq<char> {
    if line.len() > 0 && line.last() == '\r' {
        line.drop_last()
    } else {
        line
    }
}

/// The leading line is no longer than the text.
pub proof fn lemma_line_len_bound(s: Seq<char>)
    ensures
        line_len(s) <= s.len(),
    decreases s.len(),
{
    if s.len() > 0 && s[0] != '\n' {
        lemma_line_len_bound(s.drop_first());
    }
}

/// The lines of a text. A line ends at a line feed; the line feed, and a
/// carriage return just before it, are not part of the line. What follows
/// the last line feed is a line of its own unless it is empty.
pub open spec fn line_texts(s: Seq<char>) -> Seq<Seq<char>>
    decreases s.len(),
{
    if s.len() == 0 {
        Seq::empty()
    } else if line_len(s) >= s.len() {
        seq![s]
    } else {
        seq![without_carriage_return(s.take(line_len(s) as int))] + line_texts(
            s.skip(line_len(s) as int + 1),
        )
    }
}

/// Whether a character is white space.
pub fn char_is_white_space(c: char) -> (r: bool)
    ensures
        r == is_white_space(c),
{
    let u = c as u32;
    (0x09 <= u && u <= 0x0d) || u == 0x20 || u == 0x85 || u == 0xa0 || u == 0x1680 || (0x2000 <= u
        && u <= 0x200a) || u == 0x2028 || u == 0x2029 || u == 0x202f || u == 0x205f || u
        == 0x3000
}

/// Whether a text holds nothing but white space.
pub fn str_is_blank(s: &str) -> (blank: bool)
    ensures
        blank == all_white_space(s@),
{
    let chars = chars_of(s);
    let mut i: usize = 0;
    while i < chars.len()
        invariant
            i <= chars.len(),
            chars@ == s@,
            forall|j: int| 0 <= j < i ==> is_white_space(#[trigger] s@[j]),
        decreases chars.len() - i,
    {
        if !char_is_white_space(chars[i]) {
            assert(!is_white_space(s@[i as int]));
            return false;
        }
        i = i + 1;
    }
    true
}

/// The length of the leading word counts on behind each of its characters.
proof fn lemma_word_len_step(s: Seq<char>, from: int, upto: int)
    requires
        0 <= from <= upto <= s.len(),
        forall|j: int| from <= j < upto ==> !is_white_space(#[trigger] s[j]),
    ensures
        word_len(s.skip(from)) == (upto - from) + word_len(s.skip(upto)),
    decreases upto - from,
{
    if from < upto {
        assert(s.skip(from)[0] == s[from]);
        assert(s.skip(from).drop_first() =~= s.skip(from + 1));
        lemma_word_len_step(s, from + 1, upto);
    }
}

/// Splits a text into its words.
pub fn str_split_whitespace(s: &str) -> (words: Vec<String>)
    ensures
        texts(words@) == whitespace_words(s@),
{
    let chars = chars_of(s);
    let n = chars.len();
    let mut words: Vec<String> = Vec::new();
    let mut i: usize = 0;
    assert(s@.skip(0) =~= s@);
    assert(texts(words@) + whitespace_words(s@.skip(0)) =~= whitespace_words(s@));
    while i < n
        invariant
            n == chars@.len(),
            chars@ == s@,
            i <= n,
            texts(words@) + whitespace_words(s@.skip(i as int)) == whitespace_words(s@),
        decreases n - i,
    {
        if char_is_white_space(chars[i]) {
            proof {
                assert(s@.skip(i as int)[0] == s@[i as int]);
                assert(s@.skip(i as int).drop_first() =~= s@.skip(i as int + 1));
            }
            i = i + 1;
        } else {
            let start = i;
            while i < n && !char_is_white_space(chars[i])
                invariant
                    n == chars@.len(),
                    chars@ == s@,
                    start <= i <= n,
                    start < n,
                    forall|j: int| start <= j < i ==> !is_white_space(#[trigger] s@[j]),
                decreases n - i,
            {
                i = i + 1;
            }
            let word = s.substring_char(start, i);
            proof {
                let rest = s@.skip(start as int);
                lemma_word_len_step(s@, start as int, i as int);
                assert(word_len(s@.skip(i as int)) == 0) by {
                    if i < n {
                        assert(s@.skip(i as int)[0] == s@[i as int]);
                    }
                }
                assert(rest[0] == s@[start as int]);
                assert(rest.take(word_len(rest) as int) =~= s@.subrange(start as int, i as int));
                assert(rest.skip(word_len(rest) as int) =~= s@.skip(i as int));
            }
            let ghost before = words@;
            words.push(String::from_str(word));
            assert(texts(words@) =~= texts(before).push(word@));
            assert(texts(words@) + whitespace_words(s@.skip(i as int)) =~= texts(before)
                + whitespace_words(s@.skip(start as int)));
        }
    }
    assert(s@.skip(n as int) =~= Seq::<char>::empty());
    assert(texts(words@) =~= texts(words@) + whitespace_words(s@.skip(n as int)));
    words
}

/// The length of the leading line counts on behind each of its characters.
proof fn lemma_line_len_step(s: Seq<char>, from: int, upto: int)
    requires
        0 <= from <= upto <= s.len(),
        forall|j: int| from <= j < upto ==> #[trigger] s[j] != '\n',
    ensures
        line_len(s.skip(from)) == (upto - from) + line_len(s.skip(upto)),
    decreases upto - from,
{
    if from < upto {
        assert(s.skip(from)[0] == s[from]);
        assert(s.skip(from).drop_first() =~= s.skip(from + 1));
        lemma_line_len_step(s, from + 1, upto);
    }
}

/// Splits a text into its lines.
pub fn str_lines(s: &str) -> (lines: Vec<String>)
    ensures
        texts(lines@) == line_texts(s@),
{
    let chars = chars_of(s);
    let n = chars.len();
    let mut lines: Vec<String> = Vec::new();
    let mut start: usize = 0;
    assert(s@.skip(0) =~= s@);
    assert(texts(lines@) + line_texts(s@.skip(0)) =~= line_texts(s@));
    while start < n
        invariant
            n == chars@.len(),
            chars@ == s@,
            start <= n,
            texts(lines@) + line_texts(s@.skip(start as int)) == line_texts(s@),
        decreases n - start,
    {
        let mut i: usize = start;
        while i < n && chars[i] != '\n'
            invariant
                n == chars@.len(),
                chars@ == s@,
                start <= i <= n,
                forall|j: int| start <= j < i ==> #[trigger] s@[j] != '\n',
            decreases n - i,
        {
            i = i + 1;
        }
        let ghost rest = s@.skip(start as int);
        proof {
            lemma_line_len_step(s@, start as int, i as int);
            assert(line_len(s@.skip(i as int)) == 0) by {
                if i < n {
                    assert(s@.skip(i as int)[0] == s@[i as int]);
                }
            }
            assert(line_len(rest) == i - start);
        }
        let ghost before = lines@;
        if i == n {
            let line = s.substring_char(start, n);
            lines.push(String::from_str(line));
            proof {
                assert(line@ =~= rest);
                assert(texts(lines@) =~= texts(before).push(rest));
                assert(s@.skip(n as int) =~= Seq::<char>::empty());
                assert(texts(lines@) + line_texts(s@.skip(n as int)) =~= texts(before)
                    + line_texts(rest));
            }
            start = n;
        } else {
            let end = if i > start && chars[i - 1] == '\r' {
                i - 1
            } else {
                i
            };
            let line = s.substring_char(start, end);
            lines.push(String::from_str(line));
            proof {
                let whole = rest.take(line_len(rest) as int);
                assert(whole =~= s@.subrange(start as int, i as int));
                if i > start {
                    assert(whole.last() == s@[i as int - 1]);
                }
                assert(line@ =~= without_carriage_return(whole));
                assert(rest.skip(line_len(rest) as int + 1) =~= s@.skip(i as int + 1));
                assert(texts(lines@) =~= texts(before).push(line@));
                assert(texts(lines@) + line_texts(s@.skip(i as int + 1)) =~= texts(before)
                    + line_texts(rest));
            }
            start = i + 1;
        }
    }
    assert(s@.skip(n as int) =~= Seq::<char>::empty());
    assert(texts(lines@) =~= texts(lines@) + line_texts(s@.skip(n as int)));
    lines
}

/// The debug representation of a string: the string in double quotes, with
/// the characters that the standard library escapes written as escapes.
pub uninterp spec fn debug_text(s: Seq<char>) -> Seq<char>;

/// Wraps the `Debug` formatting of `str` from the standard library. The
/// result is a function of the characters alone; it is named, not spelled
/// out.
#[verifier::external_body]
pub(crate) fn debug_quoted(s: &str) -> (quoted: String)
    ensures
        quoted@ == debug_text(s@),
{
    format!("{:?}", s)
}

/// The one-character string of a decimal digit.
fn digit_str(d: u64) -> (s: &'static str)
    requires
        d < 10,
    ensures
        s@ == seq![digit_char(d as nat)],
{
    proof {
        reveal_strlit("0");
        reveal_strlit("1");
        reveal_strlit("2");
        reveal_strlit("3");
        reveal_strlit("4");
        reveal_strlit("5");
        reveal_strlit("6");
        reveal_strlit("7");
        reveal_strlit("8");
        reveal_strlit("9");
    }
    let s = if d == 0 {
        "0"
    } else if d == 1 {
        "1"
    } else if d == 2 {
        "2"
    } else if d == 3 {
        "3"
    } else if d == 4 {
        "4"
    } else if d == 5 {
        "5"
    } else if d == 6 {
        "6"
    } else if d == 7 {
        "7"
    } else if d == 8 {
        "8"
    } else {
        "9"
    };
    assert(s@ =~= seq![digit_char(d as nat)]);
    s
}

/// Formats `n` in decimal.
pub fn decimal(n: u64) -> (s: String)
    ensures
        s@ == decimal_digits(n as nat),
    decreases n,
{
    if n < 10 {
        String::from_str(digit_str(n))
    } else {
        let mut s = decimal(n / 10);
        s.append(digit_str(n % 10));
        assert(s@ =~= decimal_digits(n as nat));
        s
    }
}

/// The concatenation of two strings.
pub fn concat2(a: &str, b: &str) -> (s: String)
    ensures
        s@ == a@ + b@,
{
    let mut s = String::from_str(a);
    s.append(b);
    s
}

/// The concatenation of three strings.
pub fn concat3(a: &str, b: &str, c: &str) -> (s: String)
    ensures
        s@ == a@ + b@ + c@,
{
    let mut s = String::from_str(a);
    s.append(b);
    s.append(c);
    s
}

} // verus!

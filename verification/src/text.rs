//! Texts as sequences of characters: searching, letter case, decimal
//! numbers, white space and lines. The rest of the library states its
//! contracts over what stands here.

use vstd::prelude::*;
use vstd::string::*;

verus! {

/// `needle` occurs in `hay` starting at position `i`.
pub open spec fn occurs_at(needle: Seq<char>, hay: Seq<char>, i: int) -> bool {
    0 <= i && i + needle.len() <= hay.len() && hay.subrange(i, i + needle.len()) == needle
}

/// `needle` occurs in `hay` as a run of consecutive characters.
pub open spec fn is_substring(needle: Seq<char>, hay: Seq<char>) -> bool {
    exists|i: int| occurs_at(needle, hay, i)
}

/// The position of the first occurrence of `needle` in `hay` at or after
/// `from`, or -1 where there is none.
pub open spec fn index_of(needle: Seq<char>, hay: Seq<char>, from: int) -> int
    decreases hay.len() - from + 1,
{
    if from < 0 || from + needle.len() > hay.len() {
        -1
    } else if occurs_at(needle, hay, from) {
        from
    } else {
        index_of(needle, hay, from + 1)
    }
}

/// The characters of a text, one by one.
pub fn chars_of(s: &str) -> (chars: Vec<char>)
    ensures
        chars@ == s@,
{
    broadcast use vstd::string::group_string_axioms;

    let mut chars: Vec<char> = Vec::new();
    for c in it: s.chars()
        invariant
            it.seq() == s@,
            chars@ == it.seq().take(it.index() as int),
    {
        chars.push(c);
        proof {
            assert(chars@ =~= it.seq().take(it.index() + 1));
        }
    }
    proof {
        assert(s@.take(s@.len() as int) =~= s@);
    }
    chars
}

/// Whether `needle` stands in `hay` at the position `at`.
pub fn matches_at(hay: &Vec<char>, needle: &Vec<char>, at: usize) -> (found: bool)
    requires
        at + needle.len() <= hay.len(),
    ensures
        found == occurs_at(needle@, hay@, at as int),
{
    let mut k: usize = 0;
    while k < needle.len()
        invariant
            k <= needle.len(),
            at + needle.len() <= hay.len(),
            hay@.subrange(at as int, at + k) == needle@.take(k as int),
        decreases needle.len() - k,
    {
        if hay[at + k] != needle[k] {
            proof {
                assert(hay@.subrange(at as int, at + needle.len())[k as int] != needle@[k as int]);
            }
            return false;
        }
        proof {
            assert(hay@.subrange(at as int, at + k + 1) =~= needle@.take(k as int + 1));
        }
        k = k + 1;
    }
    proof {
        assert(needle@.take(needle.len() as int) =~= needle@);
    }
    true
}

/// The position of the first occurrence of `needle` in `hay` at or after
/// `from`.
pub fn find_from(hay: &Vec<char>, needle: &Vec<char>, from: usize) -> (position: Option<usize>)
    ensures
        match position {
            Some(at) => index_of(needle@, hay@, from as int) == at,
            None => index_of(needle@, hay@, from as int) == -1,
        },
{
    if needle.len() > hay.len() || from > hay.len() - needle.len() {
        return None;
    }
    let last: usize = hay.len() - needle.len();
    let mut i: usize = from;
    while i < last
        invariant
            from <= i <= last,
            last == hay.len() - needle.len(),
            index_of(needle@, hay@, from as int) == index_of(needle@, hay@, i as int),
        decreases last - i,
    {
        if matches_at(hay, needle, i) {
            return Some(i);
        }
        i = i + 1;
    }
    if matches_at(hay, needle, last) {
        Some(last)
    } else {
        proof {
            assert(index_of(needle@, hay@, last + 1) == -1);
        }
        None
    }
}

/// Whether `needle` occurs in `hay`.
pub fn occurs_in(hay: &Vec<char>, needle: &Vec<char>) -> (found: bool)
    ensures
        found == is_substring(needle@, hay@),
{
    proof {
        lemma_index_of_finds(needle@, hay@);
    }
    find_from(hay, needle, 0).is_some()
}

/// Whether a text holds `needle` as a run of consecutive characters.
pub fn contains(hay: &str, needle: &str) -> (found: bool)
    ensures
        found == is_substring(needle@, hay@),
{
    occurs_in(&chars_of(hay), &chars_of(needle))
}

/// Where a search finds a position, `needle` stands there and nowhere
/// between `from` and there; where it finds none, `needle` stands nowhere
/// at or after `from`.
pub proof fn lemma_index_of_is_first(needle: Seq<char>, hay: Seq<char>, from: int)
    requires
        0 <= from,
    ensures
        index_of(needle, hay, from) == -1 || (from <= index_of(needle, hay, from) && occurs_at(
            needle,
            hay,
            index_of(needle, hay, from),
        )),
        forall|j: int|
            from <= j && (j < index_of(needle, hay, from) || index_of(needle, hay, from) == -1)
                ==> !occurs_at(needle, hay, j),
    decreases hay.len() - from + 1,
{
    if from + needle.len() <= hay.len() && !occurs_at(needle, hay, from) {
        lemma_index_of_is_first(needle, hay, from + 1);
    }
}

/// A text holds `needle` exactly where a search from its start finds it.
pub proof fn lemma_index_of_finds(needle: Seq<char>, hay: Seq<char>)
    ensures
        is_substring(needle, hay) <==> index_of(needle, hay, 0) != -1,
{
    lemma_index_of_is_first(needle, hay, 0);
    if is_substring(needle, hay) {
        let i = choose|i: int| occurs_at(needle, hay, i);
        assert(occurs_at(needle, hay, i));
    }
}

/// A search in the rest of a text finds what the search in the whole text
/// finds from there on.
pub proof fn lemma_index_of_skip(needle: Seq<char>, hay: Seq<char>, skipped: int, from: int)
    requires
        0 <= skipped <= hay.len(),
        0 <= from,
    ensures
        index_of(needle, hay.skip(skipped), from) == (if index_of(needle, hay, skipped + from)
            == -1 {
            -1
        } else {
            index_of(needle, hay, skipped + from) - skipped
        }),
    decreases hay.len() - skipped - from + 1,
{
    let rest = hay.skip(skipped);
    let n = needle.len() as int;
    if from + n <= rest.len() {
        assert(rest.subrange(from, from + n) =~= hay.subrange(skipped + from, skipped + from + n));
        if !occurs_at(needle, rest, from) {
            lemma_index_of_skip(needle, hay, skipped, from + 1);
        }
    }
}

/// A part of a part of a text is a part of the text.
pub proof fn lemma_substring_transitive(inner: Seq<char>, middle: Seq<char>, outer: Seq<char>)
    requires
        is_substring(inner, middle),
        is_substring(middle, outer),
    ensures
        is_substring(inner, outer),
{
    let i = choose|i: int| occurs_at(inner, middle, i);
    let j = choose|j: int| occurs_at(middle, outer, j);
    let n = inner.len() as int;
    assert forall|k: int| 0 <= k < n implies outer.subrange(i + j, i + j + n)[k] == inner[k] by {
        assert(outer.subrange(j, j + middle.len())[i + k] == middle[i + k]);
        assert(middle.subrange(i, i + n)[k] == inner[k]);
    }
    assert(outer.subrange(i + j, i + j + n) =~= inner);
    assert(occurs_at(inner, outer, i + j));
}

/// Every character is below 128.
pub open spec fn all_ascii(s: Seq<char>) -> bool {
    forall|i: int| 0 <= i < s.len() ==> (#[trigger] s[i]) as u32 <= 127
}

/// The lower-case form of one ASCII character; other characters are kept.
pub open spec fn ascii_lower_char(c: char) -> char {
    if 'A' <= c && c <= 'Z' {
        ((c as u32 + 32) as u8) as char
    } else {
        c
    }
}

/// The character-by-character ASCII lower-case form of a text.
pub open spec fn ascii_lower(s: Seq<char>) -> Seq<char> {
    Seq::new(s.len(), |i: int| ascii_lower_char(s[i]))
}

/// What `str::to_lowercase` returns for a text.
pub uninterp spec fn lowercase_of(s: Seq<char>) -> Seq<char>;

/// Calls `str::to_lowercase`. The result depends on the text alone and is
/// named by `lowercase_of`.
#[verifier::external_body]
pub(crate) fn to_lowercase(s: &str) -> (lower: String)
    ensures
        lower@ == lowercase_of(s@),
{
    s.to_lowercase()
}

/// Whether every character of a text is an ASCII character.
pub fn only_ascii(chars: &Vec<char>) -> (ascii: bool)
    ensures
        ascii == all_ascii(chars@),
{
    let mut i: usize = 0;
    while i < chars.len()
        invariant
            i <= chars.len(),
            forall|j: int| 0 <= j < i ==> (#[trigger] chars@[j]) as u32 <= 127,
        decreases chars.len() - i,
    {
        if chars[i] as u32 > 127 {
            return false;
        }
        i = i + 1;
    }
    true
}

/// The lower-case form of one character under ASCII case folding.
pub fn lower_char(c: char) -> (lower: char)
    ensures
        lower == ascii_lower_char(c),
{
    if 'A' <= c && c <= 'Z' {
        ((c as u32 + 32) as u8) as char
    } else {
        c
    }
}

/// The characters of a text under ASCII case folding.
pub fn fold_chars(chars: &Vec<char>) -> (lower: Vec<char>)
    ensures
        lower@ == ascii_lower(chars@),
{
    let mut lower: Vec<char> = Vec::new();
    let mut i: usize = 0;
    while i < chars.len()
        invariant
            i <= chars.len(),
            lower@ == ascii_lower(chars@).take(i as int),
        decreases chars.len() - i,
    {
        lower.push(lower_char(chars[i]));
        proof {
            assert(lower@ =~= ascii_lower(chars@).take(i as int + 1));
        }
        i = i + 1;
    }
    proof {
        assert(ascii_lower(chars@).take(chars@.len() as int) =~= ascii_lower(chars@));
    }
    lower
}

/// Where a text occurs in another, its lower-case form occurs in the
/// lower-case form of the other.
pub proof fn lemma_lower_keeps_occurrence(needle: Seq<char>, hay: Seq<char>)
    requires
        is_substring(needle, hay),
    ensures
        is_substring(ascii_lower(needle), ascii_lower(hay)),
{
    let i = choose|i: int| occurs_at(needle, hay, i);
    let n = needle.len() as int;
    assert forall|k: int| 0 <= k < n implies ascii_lower(hay).subrange(i, i + n)[k]
        == ascii_lower(needle)[k] by {
        assert(hay.subrange(i, i + n)[k] == needle[k]);
    }
    assert(ascii_lower(hay).subrange(i, i + n) =~= ascii_lower(needle));
    assert(occurs_at(ascii_lower(needle), ascii_lower(hay), i));
}

/// The value of a run of decimal digits, most significant first.
pub open spec fn digits_value(s: Seq<char>) -> nat
    decreases s.len(),
{
    if s.len() == 0 {
        0
    } else {
        digits_value(s.drop_last()) * 10 + (s.last() as u32 - '0' as u32) as nat
    }
}

/// Every character is one of `0` to `9`.
pub open spec fn all_digits(s: Seq<char>) -> bool {
    forall|i: int| 0 <= i < s.len() ==> '0' <= #[trigger] s[i] && s[i] <= '9'
}

/// The number that a text denotes as an unsigned 64-bit decimal: an optional
/// `+`, then one digit or more, the value within range; `None` otherwise.
pub open spec fn decimal_u64(s: Seq<char>) -> Option<u64> {
    let body = if s.len() > 0 && s[0] == '+' {
        s.skip(1)
    } else {
        s
    };
    if body.len() > 0 && all_digits(body) && digits_value(body) <= u64::MAX {
        Some(digits_value(body) as u64)
    } else {
        None
    }
}

/// Reads a text as an unsigned 64-bit decimal number: an optional `+`, then
/// one digit or more; nothing where the text is of another form or the
/// number does not fit.
pub fn parse_u64(s: &str) -> (value: Option<u64>)
    ensures
        value == decimal_u64(s@),
{
    let chars = chars_of(s);
    let start: usize = if chars.len() > 0 && chars[0] == '+' {
        1
    } else {
        0
    };
    let ghost body = if s@.len() > 0 && s@[0] == '+' {
        s@.skip(1)
    } else {
        s@
    };
    proof {
        assert(s@.skip(0) =~= s@);
        assert(body == s@.skip(start as int));
    }
    if start == chars.len() {
        return None;
    }
    let mut acc: u64 = 0;
    let mut i: usize = start;
    proof {
        assert(body.take(0) =~= Seq::<char>::empty());
    }
    while i < chars.len()
        invariant
            start <= i <= chars.len(),
            chars@ == s@,
            body == s@.skip(start as int),
            body == (if s@.len() > 0 && s@[0] == '+' {
                s@.skip(1)
            } else {
                s@
            }),
            all_digits(body.take(i - start)),
            digits_value(body.take(i - start)) == acc,
        decreases chars.len() - i,
    {
        let c = chars[i];
        let ghost k = i - start;
        proof {
            assert(body[k] == c);
            assert(body.take(k + 1).drop_last() =~= body.take(k));
            assert(body.take(k + 1).last() == c);
        }
        if c < '0' || c > '9' {
            proof {
                assert(!('0' <= body[k] && body[k] <= '9'));
            }
            return None;
        }
        let d: u64 = (c as u32 - '0' as u32) as u64;
        if acc > (u64::MAX - d) / 10 {
            proof {
                assert(digits_value(body.take(k + 1)) > u64::MAX);
                if all_digits(body) {
                    lemma_digits_value_grows(body, k + 1);
                }
            }
            return None;
        }
        acc = acc * 10 + d;
        proof {
            assert forall|j: int| 0 <= j < k + 1 implies '0' <= #[trigger] body.take(k + 1)[j]
                && body.take(k + 1)[j] <= '9' by {
                if j < k {
                    assert(body.take(k)[j] == body.take(k + 1)[j]);
                }
            }
        }
        i = i + 1;
    }
    proof {
        assert(body.take(chars.len() - start) =~= body);
    }
    Some(acc)
}

/// A run of digits is worth no less than any of its beginnings.
pub proof fn lemma_digits_value_grows(s: Seq<char>, k: int)
    requires
        all_digits(s),
        0 <= k <= s.len(),
    ensures
        digits_value(s.take(k)) <= digits_value(s),
    decreases s.len(),
{
    if k == s.len() {
        assert(s.take(k) =~= s);
    } else {
        lemma_digits_value_grows(s.drop_last(), k);
        assert(s.drop_last().take(k) =~= s.take(k));
    }
}

/// The character that writes a digit below ten.
pub open spec fn digit_char(d: nat) -> char {
    if d == 0 {
        '0'
    } else if d == 1 {
        '1'
    } else if d == 2 {
        '2'
    } else if d == 3 {
        '3'
    } else if d == 4 {
        '4'
    } else if d == 5 {
        '5'
    } else if d == 6 {
        '6'
    } else if d == 7 {
        '7'
    } else if d == 8 {
        '8'
    } else {
        '9'
    }
}

/// A number written in decimal, without leading zeros.
pub open spec fn decimal_repr(n: nat) -> Seq<char>
    decreases n,
{
    if n < 10 {
        seq![digit_char(n)]
    } else {
        decimal_repr(n / 10) + seq![digit_char(n % 10)]
    }
}

/// A number written in decimal on two places at least, zero-filled.
pub open spec fn two_digit_repr(n: nat) -> Seq<char> {
    if n < 10 {
        seq!['0', digit_char(n)]
    } else {
        decimal_repr(n)
    }
}

/// The one-character text of a digit.
fn digit_str(d: u64) -> (s: &'static str)
    requires
        d < 10,
    ensures
        s@ == seq![digit_char(d as nat)],
{
    proof {
        reveal_strlit("0");
        reveal_strlit("1");
        reveal_strlit("2");
        reveal_strlit("3");
        reveal_strlit("4");
        reveal_strlit("5");
        reveal_strlit("6");
        reveal_strlit("7");
        reveal_strlit("8");
        reveal_strlit("9");
    }
    let s: &'static str = if d == 0 {
        "0"
    } else if d == 1 {
        "1"
    } else if d == 2 {
        "2"
    } else if d == 3 {
        "3"
    } else if d == 4 {
        "4"
    } else if d == 5 {
        "5"
    } else if d == 6 {
        "6"
    } else if d == 7 {
        "7"
    } else if d == 8 {
        "8"
    } else {
        "9"
    };
    assert(s@ =~= seq![digit_char(d as nat)]);
    s
}

/// Writes a number in decimal.
pub fn decimal(n: u64) -> (s: String)
    ensures
        s@ == decimal_repr(n as nat),
    decreases n,
{
    if n < 10 {
        String::from_str(digit_str(n))
    } else {
        decimal(n / 10).concat(digit_str(n % 10))
    }
}

/// Writes a number in decimal, zero-filled to two places.
pub fn two_digits(n: u64) -> (s: String)
    ensures
        s@ == two_digit_repr(n as nat),
{
    if n < 10 {
        proof {
            reveal_strlit("0");
        }
        let s = String::from_str("0").concat(digit_str(n));
        assert(s@ =~= seq!['0', digit_char(n as nat)]);
        s
    } else {
        decimal(n)
    }
}

/// Whether a character is white space: a member of the Unicode property
/// `White_Space`.
pub open spec fn is_white_space(c: char) -> bool {
    let u = c as u32;
    (0x09 <= u && u <= 0x0D) || u == 0x20 || u == 0x85 || u == 0xA0 || u == 0x1680 || (0x2000 <= u
        && u <= 0x200A) || u == 0x2028 || u == 0x2029 || u == 0x202F || u == 0x205F || u == 0x3000
}

/// A text without the white space at its start.
pub open spec fn trim_start(s: Seq<char>) -> Seq<char>
    decreases s.len(),
{
    if s.len() > 0 && is_white_space(s[0]) {
        trim_start(s.skip(1))
    } else {
        s
    }
}

/// A text without the white space at its end.
pub open spec fn trim_end(s: Seq<char>) -> Seq<char>
    decreases s.len(),
{
    if s.len() > 0 && is_white_space(s.last()) {
        trim_end(s.drop_last())
    } else {
        s
    }
}

/// A text without the white space at its start and at its end.
pub open spec fn trimmed(s: Seq<char>) -> Seq<char> {
    trim_end(trim_start(s))
}

/// Whether a character is white space.
pub fn white_space(c: char) -> (white: bool)
    ensures
        white == is_white_space(c),
{
    let u: u32 = c as u32;
    (0x09 <= u && u <= 0x0D) || u == 0x20 || u == 0x85 || u == 0xA0 || u == 0x1680 || (0x2000 <= u
        && u <= 0x200A) || u == 0x2028 || u == 0x2029 || u == 0x202F || u == 0x205F || u == 0x3000
}

/// The part of a text between the white space at its start and at its end.
pub fn trim(s: &str) -> (inner: &str)
    ensures
        inner@ == trimmed(s@),
{
    let chars = chars_of(s);
    let mut start: usize = 0;
    proof {
        assert(s@.skip(0) =~= s@);
    }
    while start < chars.len() && white_space(chars[start])
        invariant
            start <= chars.len(),
            chars@ == s@,
            trim_start(s@) == trim_start(s@.skip(start as int)),
        decreases chars.len() - start,
    {
        proof {
            assert(s@.skip(start as int).skip(1) =~= s@.skip(start as int + 1));
        }
        start = start + 1;
    }
    proof {
        assert(trim_start(s@) == s@.skip(start as int));
        assert(s@.skip(start as int) =~= s@.subrange(start as int, s@.len() as int));
    }
    let mut end: usize = chars.len();
    while end > start && white_space(chars[end - 1])
        invariant
            start <= end <= chars.len(),
            chars@ == s@,
            trimmed(s@) == trim_end(s@.subrange(start as int, end as int)),
        decreases end - start,
    {
        proof {
            assert(s@.subrange(start as int, end as int).drop_last() =~= s@.subrange(
                start as int,
                end as int - 1,
            ));
        }
        end = end - 1;
    }
    s.substring_char(start, end)
}

/// A line without the carriage return at its end, if it has one.
pub open spec fn without_return(line: Seq<char>) -> Seq<char> {
    if line.len() > 0 && line.last() == '\r' {
        line.drop_last()
    } else {
        line
    }
}

/// The lines of a text in order. A line ends at a line feed; the line feed
/// and a carriage return just before it belong to no line. What follows the
/// last line feed is a line if it is not empty.
pub open spec fn lines_in(s: Seq<char>) -> Seq<Seq<char>>
    decreases s.len(),
{
    if s.len() == 0 {
        Seq::empty()
    } else {
        let feed = index_of(seq!['\n'], s, 0);
        if feed < 0 || feed >= s.len() {
            seq![s]
        } else {
            seq![without_return(s.take(feed))] + lines_in(s.skip(feed + 1))
        }
    }
}

/// Splits a text into its lines.
pub fn lines(s: &str) -> (found: Vec<String>)
    ensures
        found.deep_view() == lines_in(s@),
{
    let chars = chars_of(s);
    let feed_mark: Vec<char> = vec!['\n'];
    let mut found: Vec<String> = Vec::new();
    let mut pos: usize = 0;
    proof {
        assert(s@.skip(0) =~= s@);
        assert(found.deep_view() =~= Seq::<Seq<char>>::empty());
        assert(found.deep_view() + lines_in(s@) =~= lines_in(s@));
    }
    while pos < chars.len()
        invariant
            pos <= chars.len(),
            chars@ == s@,
            feed_mark@ == seq!['\n'],
            lines_in(s@) == found.deep_view() + lines_in(s@.skip(pos as int)),
        decreases chars.len() - pos,
    {
        let ghost rest = s@.skip(pos as int);
        let ghost before = found.deep_view();
        proof {
            lemma_index_of_skip(seq!['\n'], s@, pos as int, 0);
            lemma_index_of_is_first(seq!['\n'], s@, pos as int);
        }
        match find_from(&chars, &feed_mark, pos) {
            None => {
                let line = s.substring_char(pos, chars.len());
                found.push(String::from_str(line));
                proof {
                    assert(line@ =~= rest);
                    assert(lines_in(rest) == seq![rest]);
                    assert(found.deep_view() =~= before.push(rest));
                    assert(s@.skip(chars.len() as int).len() == 0);
                    assert(before + seq![rest] =~= found.deep_view() + lines_in(
                        s@.skip(chars.len() as int),
                    ));
                }
                pos = chars.len();
            },
            Some(feed) => {
                proof {
                    assert(pos <= feed && feed + 1 <= chars.len());
                    assert(index_of(seq!['\n'], rest, 0) == feed - pos);
                    assert(rest.take(feed - pos) =~= s@.subrange(pos as int, feed as int));
                    assert(rest.skip(feed - pos + 1) =~= s@.skip(feed as int + 1));
                }
                let mut end: usize = feed;
                if end > pos && chars[end - 1] == '\r' {
                    end = end - 1;
                }
                let line = s.substring_char(pos, end);
                found.push(String::from_str(line));
                proof {
                    let whole = s@.subrange(pos as int, feed as int);
                    if whole.len() > 0 && whole.last() == '\r' {
                        assert(whole.drop_last() =~= s@.subrange(pos as int, end as int));
                    }
                    assert(line@ == without_return(whole));
                    assert(found.deep_view() =~= before.push(line@));
                    assert(before + (seq![line@] + lines_in(s@.skip(feed as int + 1)))
                        =~= found.deep_view() + lines_in(s@.skip(feed as int + 1)));
                }
                pos = feed + 1;
            },
        }
    }
    proof {
        assert(s@.skip(pos as int).len() == 0);
        assert(found.deep_view() + lines_in(s@.skip(pos as int)) =~= found.deep_view());
    }
    found
}

/// The texts of `lines` in order, with `sep` between neighbours.
pub open spec fn joined(lines: Seq<Seq<char>>, sep: Seq<char>) -> Seq<char>
    decreases lines.len(),
{
    if lines.len() == 0 {
        Seq::empty()
    } else if lines.len() == 1 {
        lines[0]
    } else {
        joined(lines.drop_last(), sep) + sep + lines.last()
    }
}

/// Joins lines with a separator between neighbours.
pub fn join(lines: &Vec<String>, sep: &str) -> (text: String)
    ensures
        text@ == joined(lines.deep_view(), sep@),
{
    let mut text = String::new();
    let mut i: usize = 0;
    while i < lines.len()
        invariant
            i <= lines.len(),
            text@ == joined(lines.deep_view().take(i as int), sep@),
        decreases lines.len() - i,
    {
        proof {
            let before = lines.deep_view().take(i as int);
            let after = lines.deep_view().take(i as int + 1);
            assert(after.drop_last() =~= before);
            assert(after.last() == lines[i as int]@);
            if i > 0 {
                assert(after.len() > 1);
            } else {
                assert(before =~= Seq::empty());
                assert(after.len() == 1);
                assert(after[0] == lines[0]@);
            }
        }
        if i > 0 {
            text.append(sep);
        }
        text.append(lines[i].as_str());
        proof {
            if i == 0 {
                assert(text@ =~= lines[0]@);
            }
        }
        i = i + 1;
    }
    proof {
        assert(lines.deep_view().take(lines.len() as int) =~= lines.deep_view());
    }
    text
}

/// What the `Debug` form of a text is: the text between double quotes, with
/// the characters that would not print escaped.
pub uninterp spec fn debug_repr(s: Seq<char>) -> Seq<char>;

/// Formats a text with `{:?}`, that is with `<str as Debug>::fmt`. The result
/// depends on the text alone and is named by `debug_repr`.
#[verifier::external_body]
pub(crate) fn debug_quoted(s: &str) -> (quoted: String)
    ensures
        quoted@ == debug_repr(s@),
{
    format!("{:?}", s)
}

} // verus!

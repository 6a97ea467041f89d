//! Character-level text helpers: whitespace, words, trimming and decimal
//! numbers, each with its meaning stated over `Seq<char>`.

use vstd::prelude::*;
use vstd::std_specs::iter::IteratorSpec;
use vstd::utf8::{encode_utf8, is_ascii_chars, is_ascii_chars_encode_utf8};

verus! {

/// Whether `c` has the Unicode `White_Space` property.
pub open spec fn is_whitespace(c: char) -> bool {
    let u = c as u32;
    ||| 0x0009 <= u <= 0x000D
    ||| u == 0x0020
    ||| u == 0x0085
    ||| u == 0x00A0
    ||| u == 0x1680
    ||| 0x2000 <= u <= 0x200A
    ||| u == 0x2028
    ||| u == 0x2029
    ||| u == 0x202F
    ||| u == 0x205F
    ||| u == 0x3000
}

/// Tells whether `c` is a whitespace character.
pub fn char_is_whitespace(c: char) -> (b: bool)
    ensures
        b == is_whitespace(c),
{
    let u: u32 = c as u32;
    (0x0009 <= u && u <= 0x000D)
        || u == 0x0020
        || u == 0x0085
        || u == 0x00A0
        || u == 0x1680
        || (0x2000 <= u && u <= 0x200A)
        || u == 0x2028
        || u == 0x2029
        || u == 0x202F
        || u == 0x205F
        || u == 0x3000
}

/// The characters of `s`, in order.
pub fn chars_of(s: &str) -> (v: Vec<char>)
    ensures
        v@ == s@,
{
    broadcast use vstd::string::group_string_axioms;

    let mut v: Vec<char> = Vec::new();
    let mut it = s.chars();
    loop
        invariant
            it.obeys_prophetic_iter_laws(),
            v@ + it.remaining() == s@,
        ensures
            v@ == s@,
        decreases s@.len() - v@.len(),
    {
        match it.next() {
            Some(c) => {
                v.push(c);
            },
            None => {
                break ;
            },
        }
    }
    v
}

/// The end of the run of non-whitespace characters of `s` that starts at
/// `from`: the first index at or after `from` that holds whitespace, or the
/// length of `s` where there is none.
pub open spec fn word_end(s: Seq<char>, from: int) -> int
    decreases s.len() - from,
{
    if 0 <= from < s.len() && !is_whitespace(s[from]) {
        word_end(s, from + 1)
    } else {
        from
    }
}

/// `word_end` stops at the first whitespace character and not before.
pub proof fn lemma_word_end(s: Seq<char>, from: int)
    requires
        0 <= from <= s.len(),
    ensures
        from <= word_end(s, from) <= s.len(),
        forall|k: int| from <= k < word_end(s, from) ==> !is_whitespace(#[trigger] s[k]),
        word_end(s, from) < s.len() ==> is_whitespace(s[word_end(s, from)]),
        from < s.len() && !is_whitespace(s[from]) ==> from < word_end(s, from),
    decreases s.len() - from,
{
    if from < s.len() && !is_whitespace(s[from]) {
        lemma_word_end(s, from + 1);
    }
}

/// The words of `s` from index `from` on: its maximal runs of
/// non-whitespace characters, in order.
pub open spec fn words_from(s: Seq<char>, from: int) -> Seq<Seq<char>>
    decreases s.len() - from,
{
    if !(0 <= from < s.len()) {
        Seq::empty()
    } else if is_whitespace(s[from]) {
        words_from(s, from + 1)
    } else {
        proof {
            lemma_word_end(s, from);
        }
        seq![s.subrange(from, word_end(s, from))] + words_from(s, word_end(s, from))
    }
}

/// The whitespace-separated words of `s`.
pub open spec fn words(s: Seq<char>) -> Seq<Seq<char>> {
    words_from(s, 0)
}

/// Whether `w` is a non-empty run of characters that are not whitespace.
pub open spec fn is_word(w: Seq<char>) -> bool {
    w.len() > 0 && forall|k: int| 0 <= k < w.len() ==> !is_whitespace(#[trigger] w[k])
}

/// Every word of a text is a non-empty run of characters that are not
/// whitespace.
pub proof fn lemma_words_are_words(s: Seq<char>, from: int)
    requires
        0 <= from <= s.len(),
    ensures
        forall|i: int|
            0 <= i < words_from(s, from).len() ==> is_word(#[trigger] words_from(s, from)[i]),
    decreases s.len() - from,
{
    if from < s.len() {
        if is_whitespace(s[from]) {
            lemma_words_are_words(s, from + 1);
            assert(words_from(s, from) == words_from(s, from + 1));
        } else {
            lemma_word_end(s, from);
            let end = word_end(s, from);
            lemma_words_are_words(s, end);
            assert(is_word(s.subrange(from, end)));
            assert forall|i: int| 0 <= i < words_from(s, from).len() implies is_word(
                #[trigger] words_from(s, from)[i],
            ) by {
                if i > 0 {
                    assert(words_from(s, from)[i] == words_from(s, end)[i - 1]);
                }
            }
        }
    }
}

/// Where a run of characters that are not whitespace starts at `from` and
/// ends at `end`, before whitespace or the end of `s`, it is the first
/// word from `from` on, and the other words are those from `end` on.
pub proof fn lemma_first_word(s: Seq<char>, from: int, end: int)
    requires
        0 <= from < end <= s.len(),
        forall|k: int| from <= k < end ==> !is_whitespace(#[trigger] s[k]),
        end < s.len() ==> is_whitespace(s[end]),
    ensures
        word_end(s, from) == end,
        words_from(s, from) == seq![s.subrange(from, end)] + words_from(s, end),
{
    lemma_word_end(s, from);
}

/// Finds the first word of `s` at or after `from` and gives its bounds
/// `(start, end)`: the word is `s[start..end]`.
pub fn next_word(s: &[char], from: usize) -> (r: Option<(usize, usize)>)
    requires
        from <= s.len(),
    ensures
        match r {
            Some((start, end)) => {
                &&& from <= start < end <= s.len()
                &&& forall|k: int| from <= k < start ==> is_whitespace(#[trigger] s@[k])
                &&& !is_whitespace(s@[start as int])
                &&& end == word_end(s@, start as int)
                &&& words_from(s@, from as int) == seq![s@.subrange(start as int, end as int)]
                    + words_from(s@, end as int)
            },
            None => {
                &&& forall|k: int| from <= k < s.len() ==> is_whitespace(#[trigger] s@[k])
                &&& words_from(s@, from as int) == Seq::<Seq<char>>::empty()
            },
        },
{
    let mut start: usize = from;
    while start < s.len() && char_is_whitespace(s[start])
        invariant
            from <= start <= s.len(),
            forall|k: int| from <= k < start ==> is_whitespace(#[trigger] s@[k]),
            words_from(s@, from as int) == words_from(s@, start as int),
        decreases s.len() - start,
    {
        start = start + 1;
    }
    if start >= s.len() {
        return None;
    }
    let mut end: usize = start + 1;
    proof {
        lemma_word_end(s@, start as int);
    }
    while end < s.len() && !char_is_whitespace(s[end])
        invariant
            start < end <= s.len(),
            !is_whitespace(s@[start as int]),
            word_end(s@, start as int) == word_end(s@, end as int),
        decreases s.len() - end,
    {
        end = end + 1;
    }
    Some((start, end))
}

/// Tells whether the characters `s[start..end]` spell `word`.
pub fn range_is(s: &[char], start: usize, end: usize, word: &str) -> (b: bool)
    requires
        start <= end <= s.len(),
    ensures
        b == (s@.subrange(start as int, end as int) == word@),
{
    let w = chars_of(word);
    if w.len() != end - start {
        return false;
    }
    let mut i: usize = 0;
    while i < w.len()
        invariant
            start <= end <= s.len(),
            w@ == word@,
            w.len() == end - start,
            i <= w.len(),
            forall|k: int| 0 <= k < i ==> s@[start + k] == w@[k],
        decreases w.len() - i,
    {
        if s[start + i] != w[i] {
            return false;
        }
        i = i + 1;
    }
    assert(s@.subrange(start as int, end as int) =~= w@);
    true
}

/// The text without its leading whitespace.
pub open spec fn trim_start(s: Seq<char>) -> Seq<char>
    decreases s.len(),
{
    if s.len() > 0 && is_whitespace(s.first()) {
        trim_start(s.drop_first())
    } else {
        s
    }
}

/// The text without its trailing whitespace.
pub open spec fn trim_end(s: Seq<char>) -> Seq<char>
    decreases s.len(),
{
    if s.len() > 0 && is_whitespace(s.last()) {
        trim_end(s.drop_last())
    } else {
        s
    }
}

/// The text without its leading and trailing whitespace.
pub open spec fn trim(s: Seq<char>) -> Seq<char> {
    trim_end(trim_start(s))
}

/// Trims `s[start..end]` and gives the bounds `(a, b)` of what is left:
/// the trimmed text is `s[a..b]`. Where nothing is left, both are `end`.
pub fn trim_range(s: &[char], start: usize, end: usize) -> (r: (usize, usize))
    requires
        start <= end <= s.len(),
    ensures
        start <= r.0 <= r.1 <= end,
        s@.subrange(r.0 as int, r.1 as int) == trim(s@.subrange(start as int, end as int)),
        forall|k: int| start <= k < r.0 ==> is_whitespace(#[trigger] s@[k]),
        forall|k: int| r.1 <= k < end ==> is_whitespace(#[trigger] s@[k]),
        r.0 == r.1 ==> r.0 == end,
{
    let mut a: usize = start;
    while a < end && char_is_whitespace(s[a])
        invariant
            start <= a <= end <= s.len(),
            forall|k: int| start <= k < a ==> is_whitespace(#[trigger] s@[k]),
            trim_start(s@.subrange(start as int, end as int)) == trim_start(
                s@.subrange(a as int, end as int),
            ),
        decreases end - a,
    {
        assert(s@.subrange(a as int, end as int).drop_first() =~= s@.subrange(
            a + 1,
            end as int,
        ));
        a = a + 1;
    }
    let mut b: usize = end;
    while a < b && char_is_whitespace(s[b - 1])
        invariant
            a <= b <= end <= s.len(),
            a == end || !is_whitespace(s@[a as int]),
            forall|k: int| b <= k < end ==> is_whitespace(#[trigger] s@[k]),
            trim_end(s@.subrange(a as int, end as int)) == trim_end(
                s@.subrange(a as int, b as int),
            ),
        decreases b - a,
    {
        assert(s@.subrange(a as int, b as int).drop_last() =~= s@.subrange(a as int, b - 1));
        b = b - 1;
    }
    (a, b)
}

/// The first index at or after `from` at which `s` holds `c`, or the
/// length of `s` where it holds none.
pub open spec fn index_of(s: Seq<char>, c: char, from: int) -> int
    decreases s.len() - from,
{
    if 0 <= from < s.len() && s[from] != c {
        index_of(s, c, from + 1)
    } else {
        from
    }
}

/// Finds `c` in `s[from..end]`: the index of its first occurrence, or
/// `end` where there is none.
pub fn find_char(s: &[char], c: char, from: usize, end: usize) -> (i: usize)
    requires
        from <= end <= s.len(),
    ensures
        from <= i <= end,
        i - from == index_of(s@.subrange(from as int, end as int), c, 0),
{
    let ghost t = s@.subrange(from as int, end as int);
    let mut i: usize = from;
    while i < end && s[i] != c
        invariant
            from <= i <= end <= s.len(),
            t == s@.subrange(from as int, end as int),
            index_of(t, c, 0) == index_of(t, c, i - from),
        decreases end - i,
    {
        i = i + 1;
    }
    i
}

/// Tells whether `s` begins with `prefix`.
pub fn has_prefix(s: &[char], prefix: &str) -> (b: bool)
    ensures
        b == prefix@.is_prefix_of(s@),
{
    let w = chars_of(prefix);
    if w.len() > s.len() {
        return false;
    }
    range_is(s, 0, w.len(), prefix)
}

/// Whether `c` is a decimal digit.
pub open spec fn is_digit(c: char) -> bool {
    '0' <= c <= '9'
}

/// The value of the decimal digit `c`.
pub open spec fn digit_value(c: char) -> nat {
    (c as u32 - 0x30) as nat
}

/// The decimal digit of value `d`.
pub open spec fn digit_char(d: nat) -> char {
    (0x30 + d) as u8 as char
}

/// Whether `s` is a decimal numeral: one digit or more, and nothing else.
pub open spec fn is_decimal(s: Seq<char>) -> bool {
    s.len() > 0 && forall|k: int| 0 <= k < s.len() ==> is_digit(#[trigger] s[k])
}

/// The number that the digits of `s` denote.
pub open spec fn decimal_value(s: Seq<char>) -> nat
    decreases s.len(),
{
    if s.len() == 0 {
        0
    } else {
        decimal_value(s.drop_last()) * 10 + digit_value(s.last())
    }
}

/// The decimal numeral of `n`, without leading zeros.
pub open spec fn decimal(n: nat) -> Seq<char>
    decreases n,
{
    if n < 10 {
        seq![digit_char(n)]
    } else {
        decimal(n / 10).push(digit_char(n % 10))
    }
}

/// The numeral of a number is a decimal numeral that denotes the number.
pub proof fn lemma_decimal_round_trip(n: nat)
    ensures
        is_decimal(decimal(n)),
        decimal_value(decimal(n)) == n,
    decreases n,
{
    if n < 10 {
        let s = decimal(n);
        assert(decimal_value(s.drop_last()) == 0);
    } else {
        lemma_decimal_round_trip(n / 10);
        let s = decimal(n);
        assert(s.drop_last() =~= decimal(n / 10));
    }
}

/// What a text denotes as a `usize`: an optional `+`, then a decimal
/// numeral whose value fits.
pub open spec fn parse_usize(s: Seq<char>) -> Option<usize> {
    let digits = if s.len() > 0 && s[0] == '+' {
        s.drop_first()
    } else {
        s
    };
    if is_decimal(digits) && decimal_value(digits) <= usize::MAX {
        Some(decimal_value(digits) as usize)
    } else {
        None
    }
}

/// A numeral denotes no less than any of its prefixes.
pub proof fn lemma_decimal_value_grows(s: Seq<char>, k: int)
    requires
        0 <= k <= s.len(),
    ensures
        decimal_value(s.take(k)) <= decimal_value(s),
    decreases s.len(),
{
    if k < s.len() {
        lemma_decimal_value_grows(s.drop_last(), k);
        assert(s.drop_last().take(k) =~= s.take(k));
    } else {
        assert(s.take(k) =~= s);
    }
}

/// Reads `s[start..end]` as a `usize`.
pub fn parse_decimal(s: &[char], start: usize, end: usize) -> (r: Option<usize>)
    requires
        start <= end <= s.len(),
    ensures
        r == parse_usize(s@.subrange(start as int, end as int)),
{
    let ghost text = s@.subrange(start as int, end as int);
    let first: usize = if start < end && s[start] == '+' {
        start + 1
    } else {
        start
    };
    let ghost digits = s@.subrange(first as int, end as int);
    assert(digits =~= if text.len() > 0 && text[0] == '+' {
        text.drop_first()
    } else {
        text
    });
    if first == end {
        return None;
    }
    let mut value: usize = 0;
    let mut i: usize = first;
    while i < end
        invariant
            start <= first <= i <= end <= s.len(),
            digits == s@.subrange(first as int, end as int),
            parse_usize(s@.subrange(start as int, end as int)) == (if is_decimal(digits)
                && decimal_value(digits) <= usize::MAX {
                Some(decimal_value(digits) as usize)
            } else {
                None
            }),
            forall|k: int| 0 <= k < i - first ==> is_digit(#[trigger] digits[k]),
            value == decimal_value(digits.take(i - first)),
        decreases end - i,
    {
        let c = s[i];
        if !('0' <= c && c <= '9') {
            assert(!is_digit(digits[i - first]));
            return None;
        }
        let d: usize = (c as u32 - 0x30) as usize;
        proof {
            assert(digits.take(i - first + 1).drop_last() =~= digits.take(i - first));
            lemma_decimal_value_grows(digits, i - first + 1);
        }
        if value > usize::MAX / 10 {
            return None;
        }
        let tens: usize = value * 10;
        if tens > usize::MAX - d {
            return None;
        }
        value = tens + d;
        i = i + 1;
    }
    assert(digits.take(end - first) =~= digits);
    Some(value)
}

/// The bytes that encode two texts joined are the bytes of the first
/// followed by the bytes of the second.
pub proof fn lemma_encode_utf8_concat(a: Seq<char>, b: Seq<char>)
    ensures
        encode_utf8(a + b) == encode_utf8(a) + encode_utf8(b),
    decreases a.len(),
{
    if a.len() > 0 {
        lemma_encode_utf8_concat(a.drop_first(), b);
        assert((a + b).drop_first() =~= a.drop_first() + b);
    }
}

/// A decimal numeral is encoded digit by digit, one byte each.
pub proof fn lemma_decimal_encoding(n: nat)
    ensures
        encode_utf8(decimal(n)) == decimal(n).map_values(|c: char| c as u8),
{
    lemma_decimal_round_trip(n);
    assert(is_ascii_chars(decimal(n)));
    is_ascii_chars_encode_utf8(decimal(n));
}

/// The decimal numeral of `n` as bytes.
pub fn decimal_bytes(n: usize) -> (v: Vec<u8>)
    ensures
        v@ == encode_utf8(decimal(n as nat)),
{
    proof {
        lemma_decimal_encoding(n as nat);
    }
    let mut low: Vec<u8> = Vec::new();
    let mut m: usize = n;
    while m >= 10
        invariant
            decimal(n as nat).map_values(|c: char| c as u8) == decimal(m as nat).map_values(
                |c: char| c as u8,
            ) + low@.reverse(),
        decreases m,
    {
        let b: u8 = 48u8 + (m % 10) as u8;
        low.push(b);
        m = m / 10;
    }
    let top: u8 = 48u8 + (m as u8);
    let mut v: Vec<u8> = Vec::new();
    v.push(top);
    let mut i: usize = low.len();
    while i > 0
        invariant
            i <= low.len(),
            v@ + low@.reverse().subrange(low.len() - i, low.len() as int) == seq![top]
                + low@.reverse(),
        decreases i,
    {
        i = i - 1;
        v.push(low[i]);
    }
    v
}

} // verus!

use vstd::prelude::*;
use vstd::std_specs::iter::IteratorSpec;

verus! {

/// The text of an optional string, as a sequence of characters.
pub open spec fn string_view(text: Option<String>) -> Option<Seq<char>> {
    match text {
        Some(text) => Some(text@),
        None => None,
    }
}

/// The decimal digit character of `d` (for `d < 10`).
pub open spec fn digit_char(d: nat) -> char {
    if d == 0 {
        '0'
    } else if d == 1 {
        '1'
    } else if d == 2 {
        '2'
    } else if d == 3 {
        '3'
    } else if d == 4 {
        '4'
    } else if d == 5 {
        '5'
    } else if d == 6 {
        '6'
    } else if d == 7 {
        '7'
    } else if d == 8 {
        '8'
    } else {
        '9'
    }
}

/// The decimal text of `n`, without sign or leading zeros ("0" for zero).
pub open spec fn decimal(n: nat) -> Seq<char>
    decreases n,
{
    if n < 10 {
        seq![digit_char(n)]
    } else {
        decimal(n / 10).push(digit_char(n % 10))
    }
}

/// The decimal text of a signed number: a leading '-' for negative values.
pub open spec fn signed_decimal(n: int) -> Seq<char> {
    if n < 0 {
        seq!['-'] + decimal((-n) as nat)
    } else {
        decimal(n as nat)
    }
}

fn push_digit(text: &mut String, d: u64)
    requires
        d < 10,
    ensures
        final(text)@ == old(text)@.push(digit_char(d as nat)),
{
    let digit: &str = match d {
        0 => "0",
        1 => "1",
        2 => "2",
        3 => "3",
        4 => "4",
        5 => "5",
        6 => "6",
        7 => "7",
        8 => "8",
        _ => "9",
    };
    proof {
        reveal_strlit("0");
        reveal_strlit("1");
        reveal_strlit("2");
        reveal_strlit("3");
        reveal_strlit("4");
        reveal_strlit("5");
        reveal_strlit("6");
        reveal_strlit("7");
        reveal_strlit("8");
        reveal_strlit("9");
    }
    assert(digit@ == seq![digit_char(d as nat)]);
    text.append(digit);
}

/// Appends the decimal text of `n`.
pub fn push_decimal(text: &mut String, n: u128)
    ensures
        final(text)@ == old(text)@ + decimal(n as nat),
    decreases n,
{
    if n < 10 {
        push_digit(text, n as u64);
        assert(old(text)@ + decimal(n as nat) =~= old(text)@.push(digit_char(n as nat)));
    } else {
        push_decimal(text, n / 10);
        push_digit(text, (n % 10) as u64);
        assert(old(text)@ + decimal(n as nat) =~= (old(text)@ + decimal((n / 10) as nat)).push(
            digit_char((n % 10) as nat),
        ));
    }
}

/// Appends the decimal text of a signed number.
pub fn push_signed_decimal(text: &mut String, n: i64)
    ensures
        final(text)@ == old(text)@ + signed_decimal(n as int),
{
    if n < 0 {
        text.append("-");
        proof {
            reveal_strlit("-");
        }
        let magnitude: u128 = (0i128 - (n as i128)) as u128;
        push_decimal(text, magnitude);
        assert(old(text)@ + signed_decimal(n as int) =~= old(text)@ + seq!['-'] + decimal(
            magnitude as nat,
        ));
    } else {
        push_decimal(text, n as u128);
    }
}

/// Appends a string literal or any other text.
pub fn push_str(text: &mut String, piece: &str)
    ensures
        final(text)@ == old(text)@ + piece@,
{
    text.append(piece);
}

/// Unicode `White_Space`: the characters that `str::trim` removes.
pub open spec fn is_whitespace(c: char) -> bool {
    ||| ('\u{9}' <= c && c <= '\u{d}')
    ||| c == ' '
    ||| c == '\u{85}'
    ||| c == '\u{a0}'
    ||| c == '\u{1680}'
    ||| ('\u{2000}' <= c && c <= '\u{200a}')
    ||| c == '\u{2028}'
    ||| c == '\u{2029}'
    ||| c == '\u{202f}'
    ||| c == '\u{205f}'
    ||| c == '\u{3000}'
}

pub open spec fn trim_start(s: Seq<char>) -> Seq<char>
    decreases s.len(),
{
    if s.len() > 0 && is_whitespace(s[0]) {
        trim_start(s.skip(1))
    } else {
        s
    }
}

pub open spec fn trim_end(s: Seq<char>) -> Seq<char>
    decreases s.len(),
{
    if s.len() > 0 && is_whitespace(s.last()) {
        trim_end(s.drop_last())
    } else {
        s
    }
}

/// The text without leading and trailing whitespace.
pub open spec fn spec_trim(s: Seq<char>) -> Seq<char> {
    trim_end(trim_start(s))
}

/// `str::trim`: std documents that it removes leading and trailing characters with the
/// Unicode `White_Space` property; that is what is claimed here.
#[verifier::external_body]
pub(crate) fn trim(text: &str) -> (trimmed: &str)
    ensures
        trimmed@ == spec_trim(text@),
{
    text.trim()
}

/// ASCII upper-case letters to lower case; every other character unchanged.
pub open spec fn ascii_lower(c: char) -> char {
    if 'A' <= c && c <= 'Z' {
        ((c as u32) + 32) as char
    } else {
        c
    }
}

pub open spec fn spec_eq_ignore_ascii_case(a: Seq<char>, b: Seq<char>) -> bool {
    &&& a.len() == b.len()
    &&& forall|i: int| 0 <= i < a.len() ==> ascii_lower(#[trigger] a[i]) == ascii_lower(b[i])
}

/// `str::eq_ignore_ascii_case`: std documents it as `to_ascii_lowercase(a) ==
/// to_ascii_lowercase(b)`, which is claimed here character by character.
#[verifier::external_body]
pub(crate) fn eq_ignore_ascii_case(a: &str, b: &str) -> (equal: bool)
    ensures
        equal == spec_eq_ignore_ascii_case(a@, b@),
{
    a.eq_ignore_ascii_case(b)
}

/// The pieces of `s` between the separators, as `str::split` with a character gives them:
/// one piece more than there are separators.
pub open spec fn spec_split(s: Seq<char>, separator: char) -> Seq<Seq<char>>
    decreases s.len(),
{
    if s.len() == 0 {
        seq![Seq::<char>::empty()]
    } else {
        let pieces = spec_split(s.drop_last(), separator);
        if s.last() == separator {
            pieces.push(Seq::<char>::empty())
        } else {
            pieces.update(pieces.len() - 1, pieces.last().push(s.last()))
        }
    }
}

/// `str::split` on a comma, each piece copied: std documents the pieces as the substrings
/// between the separators, which is claimed here.
#[verifier::external_body]
pub(crate) fn split_commas(text: &str) -> (pieces: Vec<String>)
    ensures
        pieces@.map_values(|piece: String| piece@) == spec_split(text@, ','),
{
    text.split(',').map(|piece| piece.to_string()).collect()
}

pub open spec fn is_digit(c: char) -> bool {
    '0' <= c && c <= '9'
}

pub open spec fn digit_value(c: char) -> int {
    (c as u32) - ('0' as u32)
}

/// The number that a run of decimal digits spells.
pub open spec fn digits_value(s: Seq<char>) -> int
    decreases s.len(),
{
    if s.len() == 0 {
        0
    } else {
        digits_value(s.drop_last()) * 10 + digit_value(s.last())
    }
}

/// The digits of unsigned decimal text: all of it after an optional leading `+`.
pub open spec fn unsigned_digits(s: Seq<char>) -> Seq<char> {
    if s.len() > 0 && s[0] == '+' {
        s.skip(1)
    } else {
        s
    }
}

pub open spec fn all_digits(s: Seq<char>) -> bool {
    forall|i: int| 0 <= i < s.len() ==> is_digit(#[trigger] s[i])
}

/// Unsigned decimal text as `u64::from_str` reads it: an optional `+`, then at least one
/// digit and nothing else, with a value no larger than `max`.
pub open spec fn spec_parse_unsigned(s: Seq<char>, max: int) -> Option<int> {
    let digits = unsigned_digits(s);
    if digits.len() > 0 && all_digits(digits) && digits_value(digits) <= max {
        Some(digits_value(digits))
    } else {
        None
    }
}

proof fn lemma_digits_value_monotone(s: Seq<char>, i: int)
    requires
        0 <= i <= s.len(),
        forall|k: int| 0 <= k < s.len() ==> is_digit(#[trigger] s[k]),
    ensures
        digits_value(s.take(i)) <= digits_value(s),
        0 <= digits_value(s.take(i)),
    decreases s.len() - i,
{
    if i < s.len() {
        lemma_digits_value_monotone(s, i + 1);
        assert(s.take(i + 1).drop_last() =~= s.take(i));
        assert(digits_value(s.take(i + 1)) == digits_value(s.take(i)) * 10 + digit_value(s[i]));
        lemma_digits_value_nonnegative(s.take(i));
    } else {
        assert(s.take(i) =~= s);
        lemma_digits_value_nonnegative(s);
    }
}

proof fn lemma_digits_value_nonnegative(s: Seq<char>)
    requires
        forall|k: int| 0 <= k < s.len() ==> is_digit(#[trigger] s[k]),
    ensures
        0 <= digits_value(s),
    decreases s.len(),
{
    if s.len() > 0 {
        lemma_digits_value_nonnegative(s.drop_last());
    }
}

/// The characters of a text, in order.
pub fn text_chars(text: &str) -> (chars: Vec<char>)
    ensures
        chars@ == text@,
{
    let mut collected: Vec<char> = Vec::new();
    let chars = text.chars();
    let ghost all = chars.remaining();
    proof {
        assert(all == text@);
    }
    for c in it: chars
        invariant
            it.seq() == all,
            all == text@,
            collected@ == all.take(it.index()),
    {
        proof {
            assert(it.seq()[it.index()] == c);
        }
        collected.push(c);
        proof {
            assert(collected@ =~= all.take(it.index() + 1));
        }
    }
    proof {
        assert(all.take(all.len() as int) =~= all);
    }
    collected
}

/// Reads unsigned decimal text no larger than `max`, as `u64::from_str` does.
pub fn parse_unsigned(text: &str, max: u64) -> (value: Option<u64>)
    ensures
        match spec_parse_unsigned(text@, max as int) {
            Some(expected) => value == Some(expected as u64),
            None => value is None,
        },
        spec_parse_unsigned(text@, max as int) matches Some(n) ==> 0 <= n <= max,
{
    let chars = text_chars(text);
    let ghost s = text@;
    let start: usize = if chars.len() > 0 && chars[0] == '+' {
        1
    } else {
        0
    };
    let ghost digits = s.skip(start as int);
    proof {
        assert(digits =~= unsigned_digits(s));
    }
    if start >= chars.len() {
        return None;
    }
    let mut value: u64 = 0;
    let mut index: usize = start;
    proof {
        assert(digits.take(0) =~= Seq::<char>::empty());
    }
    while index < chars.len()
        invariant
            start <= index <= chars@.len(),
            chars@ == s,
            s == text@,
            digits == s.skip(start as int),
            digits == unsigned_digits(s),
            digits.len() == chars@.len() - start,
            forall|k: int| 0 <= k < index - start ==> is_digit(#[trigger] digits[k]),
            value == digits_value(digits.take(index - start)),
            value <= max,
        decreases chars@.len() - index,
    {
        let c = chars[index];
        let ghost k = index - start;
        proof {
            assert(digits[k] == c);
        }
        if !('0' <= c && c <= '9') {
            proof {
                assert(!is_digit(digits[k]));
                assert(!all_digits(digits));
            }
            return None;
        }
        proof {
            assert(digits.take(k + 1).drop_last() =~= digits.take(k));
            assert(forall|j: int| 0 <= j < k + 1 ==> is_digit(#[trigger] digits.take(k + 1)[j]));
        }
        let d = (c as u32 - '0' as u32) as u64;
        let next = match value.checked_mul(10) {
            Some(times) => times.checked_add(d),
            None => None,
        };
        match next {
            Some(next) if next <= max => {
                value = next;
            },
            _ => {
                proof {
                    assert(digits_value(digits.take(k + 1)) > max) by (nonlinear_arith)
                        requires
                            digits_value(digits.take(k + 1)) == value * 10 + digit_value(c),
                            next matches None || next->0 > max,
                            next matches Some(n) ==> n == value * 10 + digit_value(c),
                            next matches None ==> value * 10 + digit_value(c) > u64::MAX,
                            max <= u64::MAX,
                    ;
                    if all_digits(digits) {
                        lemma_digits_value_monotone(digits, k + 1);
                    }
                }
                return None;
            },
        }
        index = index + 1;
    }
    proof {
        assert(digits.take(index - start) =~= digits);
        lemma_digits_value_nonnegative(digits);
    }
    Some(value)
}

/// `String::push`: std documents that it appends the character to the end.
#[verifier::external_body]
pub(crate) fn push_char(text: &mut String, c: char)
    ensures
        final(text)@ == old(text)@.push(c),
{
    text.push(c);
}

} // verus!

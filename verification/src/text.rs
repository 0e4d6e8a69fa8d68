//! Decimal text for unsigned integers: writing it and reading it back.

use vstd::prelude::*;
use vstd::string::*;

verus! {

/// The character for one decimal digit.
pub open spec fn digit_char(d: int) -> char {
    if d == 0 {
        '0'
    } else if d == 1 {
        '1'
    } else if d == 2 {
        '2'
    } else if d == 3 {
        '3'
    } else if d == 4 {
        '4'
    } else if d == 5 {
        '5'
    } else if d == 6 {
        '6'
    } else if d == 7 {
        '7'
    } else if d == 8 {
        '8'
    } else {
        '9'
    }
}

/// The decimal numeral of `n`: no sign, no leading zeros, `"0"` for zero.
pub open spec fn decimal(n: nat) -> Seq<char>
    decreases n,
{
    if n < 10 {
        seq![digit_char(n as int)]
    } else {
        decimal(n / 10).push(digit_char((n % 10) as int))
    }
}

fn append_digit(text: &mut String, d: u64)
    requires
        d < 10,
    ensures
        final(text)@ == old(text)@.push(digit_char(d as int)),
{
    let literal = if d == 0 {
        "0"
    } else if d == 1 {
        "1"
    } else if d == 2 {
        "2"
    } else if d == 3 {
        "3"
    } else if d == 4 {
        "4"
    } else if d == 5 {
        "5"
    } else if d == 6 {
        "6"
    } else if d == 7 {
        "7"
    } else if d == 8 {
        "8"
    } else {
        "9"
    };
    proof {
        reveal_strlit("0");
        reveal_strlit("1");
        reveal_strlit("2");
        reveal_strlit("3");
        reveal_strlit("4");
        reveal_strlit("5");
        reveal_strlit("6");
        reveal_strlit("7");
        reveal_strlit("8");
        reveal_strlit("9");
        assert(literal@ =~= seq![digit_char(d as int)]);
        assert(text@ + literal@ =~= text@.push(digit_char(d as int)));
    }
    text.append(literal);
}

/// Appends the decimal numeral of `n` to `text`.
pub fn append_decimal(text: &mut String, n: u64)
    ensures
        final(text)@ == old(text)@ + decimal(n as nat),
    decreases n,
{
    if n >= 10 {
        append_decimal(text, n / 10);
        append_digit(text, n % 10);
        proof {
            assert(old(text)@ + decimal((n / 10) as nat).push(digit_char((n % 10) as int))
                =~= (old(text)@ + decimal((n / 10) as nat)).push(digit_char((n % 10) as int)));
        }
    } else {
        append_digit(text, n);
        proof {
            assert(old(text)@ + seq![digit_char(n as int)] =~= old(text)@.push(
                digit_char(n as int),
            ));
        }
    }
}

/// `prefix` followed by the decimal numeral of `n`.
pub fn numbered(prefix: &str, n: u64) -> (text: String)
    ensures
        text@ == prefix@ + decimal(n as nat),
{
    let mut text = prefix.to_owned();
    append_decimal(&mut text, n);
    text
}

/// `prefix`, the decimal numeral of `n`, then `suffix`.
pub fn numbered_between(prefix: &str, n: u64, suffix: &str) -> (text: String)
    ensures
        text@ == prefix@ + decimal(n as nat) + suffix@,
{
    let mut text = numbered(prefix, n);
    text.append(suffix);
    text
}


/// Whether a character is a decimal digit.
pub open spec fn is_digit(c: char) -> bool {
    '0' <= c <= '9'
}

/// Whether every character is a decimal digit.
pub open spec fn all_digits(s: Seq<char>) -> bool {
    forall|i: int| 0 <= i < s.len() ==> is_digit(#[trigger] s[i])
}

/// The number that a row of decimal digits denotes; zero for the empty row.
pub open spec fn digits_value(s: Seq<char>) -> nat
    decreases s.len(),
{
    if s.len() == 0 {
        0
    } else {
        digits_value(s.drop_last()) * 10 + (s.last() as nat - '0' as nat) as nat
    }
}

/// A numeral without its optional leading plus sign.
pub open spec fn unsigned_digits(s: Seq<char>) -> Seq<char> {
    if s.len() > 0 && s[0] == '+' {
        s.skip(1)
    } else {
        s
    }
}

/// The 32-bit unsigned number that a text denotes: an optional plus sign,
/// then one or more decimal digits whose value fits. Anything else denotes
/// nothing.
pub open spec fn parsed_u32(s: Seq<char>) -> Option<u32> {
    let digits = unsigned_digits(s);
    if digits.len() > 0 && all_digits(digits) && digits_value(digits) <= u32::MAX {
        Some(digits_value(digits) as u32)
    } else {
        None
    }
}

/// Whether `s` begins with `prefix`.
pub open spec fn has_prefix(s: Seq<char>, prefix: Seq<char>) -> bool {
    prefix.len() <= s.len() && s.subrange(0, prefix.len() as int) == prefix
}

/// What follows the first `count` characters of `s`; nothing if `s` is
/// shorter than that.
pub open spec fn after(s: Seq<char>, count: nat) -> Seq<char> {
    if count <= s.len() {
        s.skip(count as int)
    } else {
        Seq::empty()
    }
}

/// A decimal numeral is a non-empty row of digits that denotes the number
/// it was written for.
pub proof fn lemma_decimal_denotes(n: nat)
    ensures
        decimal(n).len() > 0,
        all_digits(decimal(n)),
        digits_value(decimal(n)) == n,
    decreases n,
{
    if n < 10 {
        let numeral = decimal(n);
        assert(numeral.drop_last() =~= Seq::<char>::empty());
        assert(digits_value(numeral.drop_last()) == 0);
    } else {
        lemma_decimal_denotes(n / 10);
        let numeral = decimal(n);
        assert(numeral.drop_last() =~= decimal(n / 10));
        assert(numeral.last() == digit_char((n % 10) as int));
    }
}

/// Reading a decimal numeral gives back the number it was written for.
pub proof fn law_decimal_round_trip(n: u32)
    ensures
        parsed_u32(decimal(n as nat)) == Some(n),
{
    lemma_decimal_denotes(n as nat);
    assert(is_digit(decimal(n as nat)[0]));
}

/// Whether `text` begins with `prefix`.
pub fn starts_with(text: &str, prefix: &str) -> (b: bool)
    ensures
        b == has_prefix(text@, prefix@),
{
    let wanted = prefix.unicode_len();
    if wanted == 0 {
        proof {
            assert(text@.subrange(0, 0) =~= prefix@);
        }
        return true;
    }
    let mut matched: usize = 0;
    for c in it: text.chars()
        invariant
            it.seq() == text@,
            wanted == prefix@.len(),
            matched == it.index(),
            matched < wanted,
            text@.subrange(0, matched as int) == prefix@.subrange(0, matched as int),
    {
        if c != prefix.get_char(matched) {
            proof {
                if has_prefix(text@, prefix@) {
                    assert(text@.subrange(0, wanted as int)[matched as int] == text@[matched as int]);
                }
            }
            return false;
        }
        proof {
            assert(text@.subrange(0, matched + 1) =~= text@.subrange(0, matched as int).push(
                text@[matched as int],
            ));
            assert(prefix@.subrange(0, matched + 1) =~= prefix@.subrange(0, matched as int).push(
                prefix@[matched as int],
            ));
        }
        matched = matched + 1;
        if matched == wanted {
            proof {
                assert(prefix@.subrange(0, wanted as int) =~= prefix@);
            }
            return true;
        }
    }
    false
}

/// Reads the 32-bit unsigned number that follows the first `skip`
/// characters of `text`: an optional plus sign, then decimal digits.
/// Returns `None` if nothing, or anything else, follows, or if the number
/// does not fit.
pub fn parse_u32_after(text: &str, skip: usize) -> (number: Option<u32>)
    ensures
        number == parsed_u32(after(text@, skip as nat)),
{
    let ghost body = after(text@, skip as nat);
    let mut to_skip: usize = skip;
    let mut at_start = true;
    let mut any_digit = false;
    let mut value: u64 = 0;
    let ghost mut first_digit: int = skip as int;
    for c in it: text.chars()
        invariant
            it.seq() == text@,
            body == after(text@, skip as nat),
            to_skip == if it.index() <= skip {
                skip - it.index()
            } else {
                0
            },
            at_start <==> it.index() <= skip,
            at_start ==> first_digit == skip && !any_digit && value == 0,
            !at_start ==> first_digit == skip + (if text@[skip as int] == '+' {
                1int
            } else {
                0int
            }),
            first_digit <= it.index() || at_start,
            any_digit <==> first_digit < it.index(),
            !at_start ==> all_digits(text@.subrange(first_digit, it.index() as int)),
            !at_start ==> value == if digits_value(text@.subrange(first_digit, it.index() as int))
                <= u32::MAX {
                digits_value(text@.subrange(first_digit, it.index() as int))
            } else {
                0x1_0000_0000
            },
    {
        let ghost index = it.index() as int;
        if to_skip > 0 {
            to_skip = to_skip - 1;
        } else if at_start && c == '+' {
            at_start = false;
            proof {
                first_digit = skip + 1;
                assert(text@.subrange(first_digit, index + 1) =~= Seq::<char>::empty());
            }
        } else if '0' <= c && c <= '9' {
            let digit = (c as u32 - '0' as u32) as u64;
            proof {
                let so_far = text@.subrange(first_digit, index);
                let longer = text@.subrange(first_digit, index + 1);
                assert(longer.drop_last() =~= so_far);
                assert(longer.last() == c);
                if at_start {
                    assert(so_far =~= Seq::<char>::empty());
                }
                assert(digits_value(longer) == digits_value(so_far) * 10 + digit);
                assert(all_digits(longer));
            }
            at_start = false;
            any_digit = true;
            value = if value * 10 + digit > 0xffff_ffff {
                0x1_0000_0000
            } else {
                value * 10 + digit
            };
        } else {
            proof {
                let digits = unsigned_digits(body);
                assert(body.len() > 0 && body[0] == text@[skip as int]);
                assert(digits[index - first_digit] == c);
            }
            return None;
        }
    }
    proof {
        let digits = unsigned_digits(body);
        if at_start {
            assert(body.len() == 0);
        } else {
            assert(digits =~= text@.subrange(first_digit, text@.len() as int));
        }
    }
    if any_digit && value <= 0xffff_ffff {
        Some(value as u32)
    } else {
        None
    }
}


/// Whether a character is white space: the characters with the Unicode
/// property `White_Space`.
pub open spec fn is_whitespace(c: char) -> bool {
    let code = c as u32;
    ||| 0x09 <= code <= 0x0d
    ||| code == 0x20
    ||| code == 0x85
    ||| code == 0xa0
    ||| code == 0x1680
    ||| 0x2000 <= code <= 0x200a
    ||| code == 0x2028
    ||| code == 0x2029
    ||| code == 0x202f
    ||| code == 0x205f
    ||| code == 0x3000
}

/// Number of white-space characters that `s` begins with.
pub open spec fn leading_whitespace(s: Seq<char>) -> nat
    decreases s.len(),
{
    if s.len() > 0 && is_whitespace(s[0]) {
        1 + leading_whitespace(s.drop_first())
    } else {
        0
    }
}

/// Number of white-space characters that `s` ends with.
pub open spec fn trailing_whitespace(s: Seq<char>) -> nat
    decreases s.len(),
{
    if s.len() > 0 && is_whitespace(s.last()) {
        1 + trailing_whitespace(s.drop_last())
    } else {
        0
    }
}

/// `s` without the white space that it begins and ends with.
pub open spec fn trimmed(s: Seq<char>) -> Seq<char> {
    if leading_whitespace(s) == s.len() {
        Seq::empty()
    } else {
        s.subrange(leading_whitespace(s) as int, s.len() - trailing_whitespace(s))
    }
}

/// Whether `a` comes before `b` in the order of strings: character by
/// character in the order of their code points, a text before its
/// extensions.
pub open spec fn precedes(a: Seq<char>, b: Seq<char>) -> bool
    decreases a.len(),
{
    if b.len() == 0 {
        false
    } else if a.len() == 0 {
        true
    } else if a[0] != b[0] {
        (a[0] as u32) < (b[0] as u32)
    } else {
        precedes(a.drop_first(), b.drop_first())
    }
}

proof fn lemma_leading_whitespace(s: Seq<char>, count: int)
    requires
        0 <= count <= s.len(),
        forall|j: int| 0 <= j < count ==> is_whitespace(#[trigger] s[j]),
        count < s.len() ==> !is_whitespace(s[count]),
    ensures
        leading_whitespace(s) == count,
    decreases count,
{
    if count > 0 {
        let rest = s.drop_first();
        assert forall|j: int| 0 <= j < count - 1 implies is_whitespace(#[trigger] rest[j]) by {
            assert(rest[j] == s[j + 1]);
        }
        lemma_leading_whitespace(rest, count - 1);
    }
}

proof fn lemma_trailing_whitespace(s: Seq<char>, count: int)
    requires
        0 <= count <= s.len(),
        forall|j: int| s.len() - count <= j < s.len() ==> is_whitespace(#[trigger] s[j]),
        count < s.len() ==> !is_whitespace(s[s.len() - count - 1]),
    ensures
        trailing_whitespace(s) == count,
    decreases count,
{
    if count > 0 {
        let rest = s.drop_last();
        assert forall|j: int| rest.len() - (count - 1) <= j < rest.len() implies is_whitespace(
            #[trigger] rest[j],
        ) by {
            assert(rest[j] == s[j]);
        }
        lemma_trailing_whitespace(rest, count - 1);
    }
}

proof fn lemma_precedes_after_common_prefix(a: Seq<char>, b: Seq<char>, common: int)
    requires
        0 <= common <= a.len(),
        common <= b.len(),
        a.take(common) == b.take(common),
    ensures
        precedes(a, b) == precedes(a.skip(common), b.skip(common)),
    decreases common,
{
    if common == 0 {
        assert(a.skip(0) =~= a);
        assert(b.skip(0) =~= b);
    } else {
        assert(a[0] == a.take(common)[0]);
        assert(b[0] == b.take(common)[0]);
        assert(a.drop_first().take(common - 1) =~= a.take(common).drop_first());
        assert(b.drop_first().take(common - 1) =~= b.take(common).drop_first());
        lemma_precedes_after_common_prefix(a.drop_first(), b.drop_first(), common - 1);
        assert(a.drop_first().skip(common - 1) =~= a.skip(common));
        assert(b.drop_first().skip(common - 1) =~= b.skip(common));
    }
}

fn char_is_whitespace(c: char) -> (b: bool)
    ensures
        b == is_whitespace(c),
{
    let code = c as u32;
    (0x09 <= code && code <= 0x0d) || code == 0x20 || code == 0x85 || code == 0xa0 || code
        == 0x1680 || (0x2000 <= code && code <= 0x200a) || code == 0x2028 || code == 0x2029
        || code == 0x202f || code == 0x205f || code == 0x3000
}

/// `text` without the white space that it begins and ends with.
pub fn trim(text: &str) -> (inner: &str)
    ensures
        inner@ == trimmed(text@),
{
    let length = text.unicode_len();
    let mut from: usize = length;
    let mut to: usize = 0;
    let mut i: usize = 0;
    for c in it: text.chars()
        invariant
            it.seq() == text@,
            length == text@.len(),
            i == it.index(),
            i <= length,
            to <= i,
            from == length || from < to,
            from == length ==> to == 0 && forall|j: int| 0 <= j < i ==> is_whitespace(
                #[trigger] text@[j],
            ),
            from < length ==> {
                &&& forall|j: int| 0 <= j < from ==> is_whitespace(#[trigger] text@[j])
                &&& !is_whitespace(text@[from as int])
                &&& !is_whitespace(text@[to - 1])
                &&& forall|j: int| to <= j < i ==> is_whitespace(#[trigger] text@[j])
            },
    {
        if !char_is_whitespace(c) {
            if from == length {
                from = i;
            }
            to = i + 1;
        }
        i = i + 1;
    }
    if from == length {
        proof {
            lemma_leading_whitespace(text@, length as int);
            reveal_strlit("");
            assert(""@ =~= Seq::<char>::empty());
        }
        ""
    } else {
        proof {
            lemma_leading_whitespace(text@, from as int);
            lemma_trailing_whitespace(text@, length - to);
        }
        text.substring_char(from, to)
    }
}

/// Whether `a` comes before `b` in the order of strings. The cost grows
/// with the square of the length of what the two have in common.
pub fn text_precedes(a: &str, b: &str) -> (before: bool)
    ensures
        before == precedes(a@, b@),
{
    let limit = b.unicode_len();
    let mut i: usize = 0;
    for c in it: a.chars()
        invariant
            it.seq() == a@,
            limit == b@.len(),
            i == it.index(),
            i <= limit,
            a@.take(i as int) == b@.take(i as int),
    {
        proof {
            lemma_precedes_after_common_prefix(a@, b@, i as int);
        }
        if i == limit {
            return false;
        }
        let d = b.get_char(i);
        if c != d {
            proof {
                assert(a@.skip(i as int)[0] == c);
                assert(b@.skip(i as int)[0] == d);
            }
            return (c as u32) < (d as u32);
        }
        proof {
            assert(a@.take(i + 1) =~= a@.take(i as int).push(c));
            assert(b@.take(i + 1) =~= b@.take(i as int).push(d));
        }
        i = i + 1;
    }
    proof {
        lemma_precedes_after_common_prefix(a@, b@, i as int);
        assert(a@.skip(i as int).len() == 0);
    }
    i < limit
}

} // verus!

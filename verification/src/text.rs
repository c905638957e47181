//! Numerals and small text pieces: the sixteen-digit hexadecimal form of a
//! sequence hash, its parser, and decimal numerals for messages.
use vstd::prelude::*;
use vstd::string::StringExecFns;

verus! {

/// The lower-case hexadecimal digit that stands for `d`.
pub open spec fn hex_digit(d: int) -> char {
    if d < 10 {
        ('0' as int + d) as char
    } else {
        ('a' as int + (d - 10)) as char
    }
}

/// The value of a hexadecimal digit, upper or lower case; nothing for any
/// other character.
pub open spec fn hex_digit_value(c: char) -> Option<nat> {
    if '0' <= c <= '9' {
        Some((c as int - '0' as int) as nat)
    } else if 'a' <= c <= 'f' {
        Some((c as int - 'a' as int + 10) as nat)
    } else if 'A' <= c <= 'F' {
        Some((c as int - 'A' as int + 10) as nat)
    } else {
        None
    }
}

/// The last `width` base-sixteen digits of `n`, most significant first.
pub open spec fn hex_numeral(n: nat, width: nat) -> Seq<char>
    decreases width,
{
    if width == 0 {
        Seq::empty()
    } else {
        hex_numeral(n / 16, (width - 1) as nat).push(hex_digit((n % 16) as int))
    }
}

/// Whether every character is a hexadecimal digit.
pub open spec fn all_hex_digits(s: Seq<char>) -> bool {
    forall|i: int| 0 <= i < s.len() ==> hex_digit_value(#[trigger] s[i]) is Some
}

/// The number that a run of hexadecimal digits denotes.
pub open spec fn hex_value(s: Seq<char>) -> nat
    decreases s.len(),
{
    if s.len() == 0 {
        0
    } else {
        hex_value(s.drop_last()) * 16 + hex_digit_value(s.last())->0
    }
}

/// The digits that follow an optional leading plus sign.
pub open spec fn unsigned_digits(s: Seq<char>) -> Seq<char> {
    if s.len() > 0 && s[0] == '+' {
        s.drop_first()
    } else {
        s
    }
}

/// The 64-bit number that `s` denotes in base sixteen: an optional plus sign,
/// then at least one digit and nothing but digits, and a value that fits.
pub open spec fn hex_u64(s: Seq<char>) -> Option<u64> {
    let digits = unsigned_digits(s);
    if digits.len() > 0 && all_hex_digits(digits) && hex_value(digits) <= u64::MAX {
        Some(hex_value(digits) as u64)
    } else {
        None
    }
}

/// The decimal digit that stands for `d`.
pub open spec fn decimal_digit(d: int) -> char {
    ('0' as int + d) as char
}

/// The decimal numeral of `n`, without leading zeros.
pub open spec fn decimal_numeral(n: nat) -> Seq<char>
    decreases n,
{
    if n < 10 {
        seq![decimal_digit(n as int)]
    } else {
        decimal_numeral(n / 10).push(decimal_digit((n % 10) as int))
    }
}

/// One hexadecimal digit as text.
fn hex_digit_text(d: u64) -> (s: &'static str)
    requires
        d < 16,
    ensures
        s@ == seq![hex_digit(d as int)],
{
    proof {
        reveal_strlit("0");
        reveal_strlit("1");
        reveal_strlit("2");
        reveal_strlit("3");
        reveal_strlit("4");
        reveal_strlit("5");
        reveal_strlit("6");
        reveal_strlit("7");
        reveal_strlit("8");
        reveal_strlit("9");
        reveal_strlit("a");
        reveal_strlit("b");
        reveal_strlit("c");
        reveal_strlit("d");
        reveal_strlit("e");
        reveal_strlit("f");
    }
    match d {
        0 => "0",
        1 => "1",
        2 => "2",
        3 => "3",
        4 => "4",
        5 => "5",
        6 => "6",
        7 => "7",
        8 => "8",
        9 => "9",
        10 => "a",
        11 => "b",
        12 => "c",
        13 => "d",
        14 => "e",
        _ => "f",
    }
}

/// The last `width` base-sixteen digits of `n`.
fn hex_digits(n: u64, width: usize) -> (s: String)
    ensures
        s@ == hex_numeral(n as nat, width as nat),
    decreases width,
{
    if width == 0 {
        String::new()
    } else {
        let mut s = hex_digits(n / 16, width - 1);
        s.append(hex_digit_text(n % 16));
        s
    }
}

/// `n` in base sixteen with sixteen digits, padded with zeros on the left.
pub fn hex_text(n: u64) -> (s: String)
    ensures
        s@ == hex_numeral(n as nat, 16),
{
    hex_digits(n, 16)
}

/// `n` in decimal.
pub fn decimal_text(n: u64) -> (s: String)
    ensures
        s@ == decimal_numeral(n as nat),
    decreases n,
{
    if n < 10 {
        hex_digit_text(n).to_owned()
    } else {
        let mut s = decimal_text(n / 10);
        s.append(hex_digit_text(n % 10));
        s
    }
}

/// The value of one character as a hexadecimal digit.
fn digit_value(c: char) -> (d: Option<u64>)
    ensures
        d is Some <==> hex_digit_value(c) is Some,
        d is Some ==> d->0 == hex_digit_value(c)->0 && d->0 < 16,
{
    let code = c as u32;
    if '0' <= c && c <= '9' {
        Some((code - 48) as u64)
    } else if 'a' <= c && c <= 'f' {
        Some((code - 87) as u64)
    } else if 'A' <= c && c <= 'F' {
        Some((code - 55) as u64)
    } else {
        None
    }
}

/// A prefix with a value above the 64-bit range keeps every longer run of
/// digits above it.
proof fn lemma_hex_value_grows(s: Seq<char>, n: int)
    requires
        0 <= n <= s.len(),
        all_hex_digits(s),
    ensures
        hex_value(s.take(n)) <= hex_value(s),
    decreases s.len(),
{
    if n == s.len() {
        assert(s.take(n) =~= s);
    } else {
        assert(s.drop_last().take(n) =~= s.take(n));
        lemma_hex_value_grows(s.drop_last(), n);
    }
}

/// Reads a 64-bit number written in base sixteen.
pub fn parse_hex(s: &str) -> (value: Option<u64>)
    ensures
        value == hex_u64(s@),
{
    let len = s.unicode_len();
    let start: usize = if len > 0 && s.get_char(0) == '+' { 1 } else { 0 };
    let ghost digits = unsigned_digits(s@);
    if start == len {
        return None;
    }
    let mut value: u64 = 0;
    let mut i: usize = start;
    while i < len
        invariant
            len == s@.len(),
            start <= i <= len,
            start <= 1,
            digits == unsigned_digits(s@),
            digits =~= s@.skip(start as int),
            all_hex_digits(digits.take(i - start)),
            value == hex_value(digits.take(i - start)),
        decreases len - i,
    {
        let c = s.get_char(i);
        let ghost done = digits.take(i - start);
        let ghost next = digits.take(i - start + 1);
        match digit_value(c) {
            None => {
                assert(digits[i - start] == c);
                return None;
            },
            Some(d) => {
                proof {
                    assert(next.drop_last() =~= done);
                    assert(next.last() == c);
                    assert forall|k: int| 0 <= k < next.len() implies hex_digit_value(
                        #[trigger] next[k],
                    ) is Some by {
                        if k < done.len() {
                            assert(done[k] == next[k]);
                        }
                    }
                }
                if value > (u64::MAX - d) / 16 {
                    proof {
                        if all_hex_digits(digits) {
                            lemma_hex_value_grows(digits, i - start + 1);
                        }
                    }
                    return None;
                }
                value = value * 16 + d;
            },
        }
        i = i + 1;
    }
    proof {
        assert(digits.take(len - start) =~= digits);
    }
    Some(value)
}

/// `width` base-sixteen digits can write exactly the numbers below this.
pub open spec fn hex_range(width: nat) -> nat
    decreases width,
{
    if width == 0 {
        1
    } else {
        16 * hex_range((width - 1) as nat)
    }
}

/// A numeral has as many characters as its width, all of them digits, and
/// denotes the number it was made from when that number fits the width.
pub proof fn hex_numeral_denotes_its_number(n: nat, width: nat)
    ensures
        hex_numeral(n, width).len() == width,
        all_hex_digits(hex_numeral(n, width)),
        n < hex_range(width) ==> hex_value(hex_numeral(n, width)) == n,
    decreases width,
{
    if width > 0 {
        let rest = hex_numeral(n / 16, (width - 1) as nat);
        hex_numeral_denotes_its_number(n / 16, (width - 1) as nat);
        let whole = hex_numeral(n, width);
        assert(whole.drop_last() =~= rest);
        assert(hex_digit_value(hex_digit((n % 16) as int)) == Some(n % 16));
        assert forall|i: int| 0 <= i < whole.len() implies hex_digit_value(
            #[trigger] whole[i],
        ) is Some by {
            if i < rest.len() {
                assert(rest[i] == whole[i]);
            }
        }
    }
}

/// Parsing the sixteen-digit text of a 64-bit number gives the number back.
pub proof fn hex_text_round_trips(n: u64)
    ensures
        hex_u64(hex_numeral(n as nat, 16)) == Some(n),
{
    hex_numeral_denotes_its_number(n as nat, 16);
    assert(hex_range(16) == 0x1_0000_0000_0000_0000) by {
        reveal_with_fuel(hex_range, 17);
    }
    let text = hex_numeral(n as nat, 16);
    assert(hex_digit_value(text[0]) is Some);
    assert(unsigned_digits(text) == text);
}

/// The number that a run of decimal digits denotes.
pub open spec fn decimal_value(s: Seq<char>) -> nat
    decreases s.len(),
{
    if s.len() == 0 {
        0
    } else {
        (decimal_value(s.drop_last()) * 10 + (s.last() as int - '0' as int)) as nat
    }
}

/// A decimal numeral is made of digits, denotes the number it was made from, and has
/// no leading zero but for zero itself.
pub proof fn decimal_numerals_denote_their_number(n: nat)
    ensures
        decimal_numeral(n).len() > 0,
        forall|i: int| 0 <= i < decimal_numeral(n).len() ==> '0' <= #[trigger] decimal_numeral(n)[i] <= '9',
        decimal_value(decimal_numeral(n)) == n,
        n > 0 ==> decimal_numeral(n)[0] != '0',
        n == 0 ==> decimal_numeral(n).len() == 1,
    decreases n,
{
    let s = decimal_numeral(n);
    reveal_with_fuel(decimal_value, 2);
    if n >= 10 {
        decimal_numerals_denote_their_number(n / 10);
        let rest = decimal_numeral(n / 10);
        assert(s.drop_last() =~= rest);
        assert(s[0] == rest[0]);
        assert forall|i: int| 0 <= i < s.len() implies '0' <= #[trigger] s[i] <= '9' by {
            if i < rest.len() {
                assert(s[i] == rest[i]);
            }
        }
    } else {
        assert(s.drop_last() =~= Seq::empty());
    }
}

/// Reading goes digit by digit: another digit behind a number that can be read gives
/// sixteen times the number and the value of the digit, as long as that fits; in upper
/// and lower case alike.
pub proof fn a_further_digit_is_read_behind_the_number(s: Seq<char>, value: u64, c: char, d: nat)
    requires
        hex_u64(s) == Some(value),
        d < 16,
        d < 10 ==> c as int == '0' as int + d,
        d >= 10 ==> c as int == 'a' as int + (d - 10) || c as int == 'A' as int + (d - 10),
    ensures
        value * 16 + d <= u64::MAX ==> hex_u64(s.push(c)) == Some((value * 16 + d) as u64),
        value * 16 + d > u64::MAX ==> hex_u64(s.push(c)) is None,
{
    let digits = unsigned_digits(s);
    let longer = unsigned_digits(s.push(c));
    assert(longer =~= digits.push(c));
    assert(longer.drop_last() =~= digits);
    assert forall|i: int| 0 <= i < longer.len() implies hex_digit_value(
        #[trigger] longer[i],
    ) is Some by {
        if i < digits.len() {
            assert(longer[i] == digits[i]);
        }
    }
}

/// One digit alone, with or without a plus sign, is its value; no text without digits
/// is a number.
pub proof fn a_single_digit_is_its_value(c: char, d: nat)
    requires
        d < 16,
        d < 10 ==> c as int == '0' as int + d,
        d >= 10 ==> c as int == 'a' as int + (d - 10) || c as int == 'A' as int + (d - 10),
    ensures
        hex_u64(seq![c]) == Some(d as u64),
        hex_u64(seq!['+', c]) == Some(d as u64),
        hex_u64(Seq::empty()) is None,
        hex_u64(seq!['+']) is None,
{
    reveal_with_fuel(hex_value, 2);
    assert(seq!['+', c].drop_first() =~= seq![c]);
    assert(seq![c].drop_last() =~= Seq::empty());
}

/// A text with any other character, but for a plus sign in front, is no number.
pub proof fn other_characters_make_no_number(s: Seq<char>, i: int)
    requires
        0 <= i < s.len(),
        i == 0 ==> s[0] != '+',
        !('0' <= s[i] <= '9'),
        !('a' <= s[i] <= 'f'),
        !('A' <= s[i] <= 'F'),
    ensures
        hex_u64(s) is None,
{
    let digits = unsigned_digits(s);
    if s[0] == '+' {
        assert(digits[i - 1] == s[i]);
    } else {
        assert(digits[i] == s[i]);
    }
}

/// A numeral is built digit by digit, and its digits are lower-case ones.
pub proof fn hex_numerals_have_lower_case_digits(n: nat, width: nat, i: int)
    requires
        0 <= i < width,
    ensures
        hex_numeral(n, width).len() == width,
        '0' <= hex_numeral(n, width)[i] <= '9' || 'a' <= hex_numeral(n, width)[i] <= 'f',
    decreases width,
{
    hex_numeral_denotes_its_number(n, width);
    if i < width - 1 {
        hex_numerals_have_lower_case_digits(n / 16, (width - 1) as nat, i);
        hex_numeral_denotes_its_number(n / 16, (width - 1) as nat);
    }
}

} // verus!

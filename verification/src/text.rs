//! Numbers and names as text.
use vstd::prelude::*;
use vstd::string::StringExecFns;

verus! {

/// The code of the character `0`.
pub const ZERO: u8 = 48;

/// The character of the digit `d`.
pub open spec fn digit(d: nat) -> char {
    (ZERO + d) as char
}

/// `n` in decimal, without leading zeros.
pub open spec fn decimal(n: nat) -> Seq<char>
    decreases n,
{
    if n < 10 {
        seq![digit(n)]
    } else {
        decimal(n / 10).push(digit(n % 10))
    }
}

/// `n` in decimal, with a minus sign where it is negative.
pub open spec fn signed_decimal(n: int) -> Seq<char> {
    if n < 0 {
        "-"@ + decimal((-n) as nat)
    } else {
        decimal(n as nat)
    }
}

/// The texts of a list of strings.
pub open spec fn string_texts(strings: Seq<String>) -> Seq<Seq<char>> {
    strings.map_values(|s: String| s@)
}

/// `c`, or its capital where it is one of `a` to `z`.
pub open spec fn ascii_upper(c: char) -> char {
    if 'a' <= c && c <= 'z' {
        (c as u32 - 32) as char
    } else {
        c
    }
}

/// Every character of `s` is an ASCII character.
pub open spec fn all_ascii(s: Seq<char>) -> bool {
    forall|i: int| 0 <= i < s.len() ==> (#[trigger] s[i] as u32) < 128
}

/// What Unicode makes of `s` in upper case, where `s` is not all ASCII.
pub uninterp spec fn unicode_uppercase(s: Seq<char>) -> Seq<char>;

/// `s` in upper case. Of an ASCII text each small letter becomes its capital and the rest stays as
/// it is.
pub open spec fn in_capitals(s: Seq<char>) -> Seq<char> {
    if all_ascii(s) {
        s.map_values(|c: char| ascii_upper(c))
    } else {
        unicode_uppercase(s)
    }
}

/// `String::push` puts the character at the end.
pub assume_specification[ String::push ](s: &mut String, c: char)
    ensures
        final(s)@ == old(s)@.push(c),
;

/// Wraps `str::to_uppercase`. Of an ASCII text each small letter becomes its capital and the rest
/// stays as it is; what becomes of a text with other characters is left to Unicode.
#[verifier::external_body]
pub(crate) fn to_uppercase(s: &str) -> (upper: String)
    ensures
        all_ascii(s@) ==> upper@ == s@.map_values(|c: char| ascii_upper(c)),
        !all_ascii(s@) ==> upper@ == unicode_uppercase(s@),
{
    s.to_uppercase()
}

/// `n` in decimal.
pub fn decimal_text(n: u64) -> (text: String)
    ensures
        text@ == decimal(n as nat),
    decreases n,
{
    let mut text = if n < 10 {
        String::new()
    } else {
        decimal_text(n / 10)
    };
    let d: u8 = (n % 10) as u8;
    text.push((ZERO + d) as char);
    text
}

/// `n` in decimal, with a minus sign where it is negative.
pub fn signed_decimal_text(n: i32) -> (text: String)
    ensures
        text@ == signed_decimal(n as int),
{
    if n < 0 {
        let magnitude: u64 = (-(n as i64)) as u64;
        "-".to_owned().concat(decimal_text(magnitude).as_str())
    } else {
        decimal_text(n as u64)
    }
}

/// Different numbers have different decimals.
pub proof fn law_decimals_differ(n: nat, m: nat)
    ensures
        decimal(n) == decimal(m) <==> n == m,
    decreases n,
{
    lemma_decimal_ends(n);
    lemma_decimal_ends(m);
    if decimal(n) == decimal(m) && n >= 10 && m >= 10 {
        assert(decimal(n).drop_last() =~= decimal(n / 10));
        assert(decimal(m).drop_last() =~= decimal(m / 10));
        law_decimals_differ(n / 10, m / 10);
    }
}

/// A decimal ends in its last digit, and has more than one just where the number is ten or more.
proof fn lemma_decimal_ends(n: nat)
    ensures
        decimal(n).len() > 0,
        decimal(n).len() == 1 <==> n < 10,
        decimal(n).last() as u32 == ZERO + n % 10,
    decreases n,
{
    if n >= 10 {
        lemma_decimal_ends(n / 10);
    }
}

/// The number that a row of digits stands for.
pub open spec fn digits_value(text: Seq<char>) -> int
    decreases text.len(),
{
    if text.len() == 0 {
        0
    } else {
        10 * digits_value(text.drop_last()) + (text.last() as int - '0' as int)
    }
}

/// The number that a row of digits, perhaps behind a minus sign, stands for.
pub open spec fn number_read(text: Seq<char>) -> int {
    if text.len() > 0 && text[0] == '-' {
        -digits_value(text.drop_first())
    } else {
        digits_value(text)
    }
}

/// `text` is a row of digits that stands for `n`, without leading zeros.
pub open spec fn names_number(text: Seq<char>, n: int) -> bool {
    &&& text.len() > 0
    &&& forall|i: int| 0 <= i < text.len() ==> '0' <= #[trigger] text[i] <= '9'
    &&& text[0] == '0' ==> text.len() == 1
    &&& digits_value(text) == n
}

/// `text` is a row of digits without leading zeros, behind a minus sign where `n` is negative, that
/// stands for `n`.
pub open spec fn names_signed(text: Seq<char>, n: int) -> bool {
    if n < 0 {
        text.len() > 0 && text[0] == '-' && names_number(text.drop_first(), -n)
    } else {
        names_number(text, n)
    }
}

/// A decimal is a row of digits that stands for its number, and no longer than it has to be.
pub proof fn law_decimal_is_read_back(n: nat)
    ensures
        names_number(decimal(n), n as int),
        decimal(n)[0] == '0' ==> n == 0,
    decreases n,
{
    reveal_with_fuel(digits_value, 2);
    if n < 10 {
        assert(decimal(n).drop_last() =~= seq![]);
    } else {
        law_decimal_is_read_back(n / 10);
        assert(decimal(n).drop_last() =~= decimal(n / 10));
    }
}

/// The decimal of a signed number stands for that number. It has a minus sign just where the number
/// is negative, and no dot.
pub proof fn law_signed_decimal_is_read_back(n: int)
    ensures
        number_read(signed_decimal(n)) == n,
        names_signed(signed_decimal(n), n),
        signed_decimal(n).len() > 0,
        signed_decimal(n)[0] == '-' <==> n < 0,
        forall|i: int| 0 <= i < signed_decimal(n).len() ==> #[trigger] signed_decimal(n)[i] != '.',
{
    reveal_strlit("-");
    assert("-"@.len() == 1);
    if n < 0 {
        law_decimal_is_read_back((-n) as nat);
        assert(signed_decimal(n).drop_first() =~= decimal((-n) as nat));
    } else {
        law_decimal_is_read_back(n as nat);
    }
}

/// The text that is made of a number stands for that number.
pub proof fn law_number_texts_are_read_back(n: u64, text: String, m: i32, signed: String)
    requires
        call_ensures(decimal_text, (n,), text),
        call_ensures(signed_decimal_text, (m,), signed),
    ensures
        names_number(text@, n as int),
        number_read(signed@) == m,
        names_signed(signed@, m as int),
{
    law_decimal_is_read_back(n as nat);
    law_signed_decimal_is_read_back(m as int);
}

/// An ASCII text in capitals is as long as it was: each small letter has become the capital 32
/// places before it, and every other character has stayed. What becomes of a text with other
/// characters is left to Unicode.
pub proof fn law_capitals(s: Seq<char>)
    ensures
        (forall|i: int| 0 <= i < s.len() ==> (#[trigger] s[i] as u32) < 128) ==> {
            &&& in_capitals(s).len() == s.len()
            &&& forall|i: int|
                0 <= i < s.len() ==> if 'a' <= #[trigger] s[i] <= 'z' {
                    in_capitals(s)[i] as u32 + 32 == s[i] as u32
                } else {
                    in_capitals(s)[i] == s[i]
                }
        },
        (exists|i: int| 0 <= i < s.len() && (#[trigger] s[i] as u32) >= 128) ==> in_capitals(s)
            == unicode_uppercase(s),
{
}

/// The part of a text before its first dot; all of it where there is none.
pub open spec fn before_dot(text: Seq<char>) -> Seq<char>
    decreases text.len(),
{
    if text.len() == 0 || text[0] == '.' {
        seq![]
    } else {
        seq![text[0]] + before_dot(text.drop_first())
    }
}

/// The part of a text behind its first dot; nothing where there is none.
pub open spec fn behind_dot(text: Seq<char>) -> Seq<char> {
    if before_dot(text).len() < text.len() {
        text.skip(before_dot(text).len() as int + 1)
    } else {
        seq![]
    }
}

/// A text that is made of a part without dots, a dot and a rest is taken apart at that dot.
pub proof fn lemma_dot(part: Seq<char>, rest: Seq<char>)
    requires
        forall|i: int| 0 <= i < part.len() ==> #[trigger] part[i] != '.',
    ensures
        before_dot(part + seq!['.'] + rest) == part,
        behind_dot(part + seq!['.'] + rest) == rest,
    decreases part.len(),
{
    let text = part + seq!['.'] + rest;
    if part.len() > 0 {
        lemma_dot(part.drop_first(), rest);
        assert(text.drop_first() =~= part.drop_first() + seq!['.'] + rest);
        assert(text[0] == part[0]);
        assert(seq![part[0]] + part.drop_first() =~= part);
    } else {
        assert(text[0] == '.');
        assert(before_dot(text) =~= part);
    }
    assert(behind_dot(text) =~= rest);
}

/// An ASCII text that is in capitals stays as it is.
pub proof fn law_capitals_stay(s: Seq<char>)
    requires
        all_ascii(s),
    ensures
        in_capitals(in_capitals(s)) == in_capitals(s),
{
    let upper = in_capitals(s);
    assert forall|i: int| 0 <= i < upper.len() implies (#[trigger] upper[i] as u32) < 128 by {
        assert(upper[i] == ascii_upper(s[i]));
    }
    assert(in_capitals(upper) =~= upper);
}

} // verus!

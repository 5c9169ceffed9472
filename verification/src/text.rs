//! Text of numbers and bytes.

use crate::bytes::same_bytes;
use vstd::prelude::*;
use vstd::utf8::encode_utf8_decode_utf8;

verus! {

/// The decimal digit of `d`.
pub open spec fn digit(d: int) -> char
    recommends
        0 <= d < 10,
{
    (48 + d) as char
}

/// `n` in decimal, without leading zeros.
pub open spec fn decimal(n: nat) -> Seq<char>
    decreases n,
{
    if n < 10 {
        seq![digit(n as int)]
    } else {
        decimal(n / 10).push(digit((n % 10) as int))
    }
}

/// `n` in decimal, with a leading `-` if it is negative.
pub open spec fn signed_decimal(n: int) -> Seq<char> {
    if n < 0 {
        seq!['-'] + decimal((-n) as nat)
    } else {
        decimal(n as nat)
    }
}

/// The lowercase hexadecimal digit of `d`.
pub open spec fn hex_digit(d: int) -> char
    recommends
        0 <= d < 16,
{
    if d < 10 {
        (48 + d) as char
    } else {
        (87 + d) as char
    }
}

/// Two lowercase hexadecimal digits for each of `bytes`.
pub open spec fn hex(bytes: Seq<u8>) -> Seq<char> {
    Seq::new(
        2 * bytes.len(),
        |i: int|
            if i % 2 == 0 {
                hex_digit(bytes[i / 2] as int / 16)
            } else {
                hex_digit(bytes[i / 2] as int % 16)
            },
    )
}

fn hex_digit_text(d: u8) -> (text: &'static str)
    requires
        d < 16,
    ensures
        text@ == seq![hex_digit(d as int)],
{
    proof {
        reveal_strlit("0");
        reveal_strlit("1");
        reveal_strlit("2");
        reveal_strlit("3");
        reveal_strlit("4");
        reveal_strlit("5");
        reveal_strlit("6");
        reveal_strlit("7");
        reveal_strlit("8");
        reveal_strlit("9");
        reveal_strlit("a");
        reveal_strlit("b");
        reveal_strlit("c");
        reveal_strlit("d");
        reveal_strlit("e");
        reveal_strlit("f");
    }
    match d {
        0 => "0",
        1 => "1",
        2 => "2",
        3 => "3",
        4 => "4",
        5 => "5",
        6 => "6",
        7 => "7",
        8 => "8",
        9 => "9",
        10 => "a",
        11 => "b",
        12 => "c",
        13 => "d",
        14 => "e",
        _ => "f",
    }
}

/// `n` in decimal.
pub fn decimal_text(n: u64) -> (text: String)
    ensures
        text@ == decimal(n as nat),
    decreases n,
{
    let last = hex_digit_text((n % 10) as u8);
    if n < 10 {
        last.to_owned()
    } else {
        let mut text = decimal_text(n / 10);
        text.append(last);
        text
    }
}

/// `n` in decimal, with a leading `-` if it is negative.
pub fn signed_decimal_text(n: i32) -> (text: String)
    ensures
        text@ == signed_decimal(n as int),
{
    if n < 0 {
        proof {
            reveal_strlit("-");
        }
        let mut text = "-".to_owned();
        text.append(decimal_text((-(n as i64)) as u64).as_str());
        text
    } else {
        decimal_text(n as u64)
    }
}

/// `bytes` in lowercase hexadecimal.
pub fn hex_text(bytes: &[u8]) -> (text: String)
    ensures
        text@ == hex(bytes@),
{
    let mut text = String::new();
    let mut done: usize = 0;
    while done < bytes.len()
        invariant
            done <= bytes@.len(),
            text@ == hex(bytes@.take(done as int)),
        decreases bytes@.len() - done,
    {
        let byte = bytes[done];
        text.append(hex_digit_text(byte / 16));
        text.append(hex_digit_text(byte % 16));
        done += 1;
        assert(text@ =~= hex(bytes@.take(done as int)));
    }
    assert(bytes@.take(done as int) =~= bytes@);
    text
}

/// `middle` between two texts.
pub fn between(before: &str, middle: &str, after: &str) -> (text: String)
    ensures
        text@ == before@ + middle@ + after@,
{
    let mut text = before.to_owned();
    text.append(middle);
    text.append(after);
    text
}

/// Whether `a` and `b` are the same text.
pub fn same_text(a: &str, b: &str) -> (same: bool)
    ensures
        same == (a@ == b@),
{
    proof {
        encode_utf8_decode_utf8(a@);
        encode_utf8_decode_utf8(b@);
    }
    same_bytes(a.as_bytes(), b.as_bytes())
}

/// The bytes can be read back from their hexadecimal digits.
pub proof fn hex_is_injective(a: Seq<u8>, b: Seq<u8>)
    requires
        hex(a) == hex(b),
    ensures
        a == b,
{
    assert(hex(a).len() == 2 * a.len());
    assert(hex(b).len() == 2 * b.len());
    assert forall|i: int| 0 <= i < a.len() implies a[i] == b[i] by {
        assert(hex(a)[2 * i] == hex(b)[2 * i]);
        assert(hex(a)[2 * i + 1] == hex(b)[2 * i + 1]);
        assert(hex(a)[2 * i] == hex_digit(a[i] as int / 16));
        assert(hex(a)[2 * i + 1] == hex_digit(a[i] as int % 16));
        assert(hex(b)[2 * i] == hex_digit(b[i] as int / 16));
        assert(hex(b)[2 * i + 1] == hex_digit(b[i] as int % 16));
    }
    assert(a =~= b);
}

/// The number that decimal digits stand for.
pub open spec fn value_of(digits: Seq<char>) -> nat
    decreases digits.len(),
{
    if digits.len() == 0 {
        0
    } else {
        value_of(digits.drop_last()) * 10 + (digits.last() as nat - 48) as nat
    }
}

/// A number in decimal is made of digits only, has no leading zero unless it is
/// zero, and stands for that number.
pub proof fn decimal_digits_stand_for_their_number(n: nat)
    ensures
        decimal(n).len() > 0,
        forall|i: int| 0 <= i < decimal(n).len() ==> '0' <= #[trigger] decimal(n)[i] <= '9',
        n > 0 ==> decimal(n)[0] != '0',
        n == 0 ==> decimal(n) == seq!['0'],
        value_of(decimal(n)) == n,
    decreases n,
{
    reveal_with_fuel(value_of, 2);
    if n >= 10 {
        decimal_digits_stand_for_their_number(n / 10);
        assert(decimal(n).drop_last() =~= decimal(n / 10));
        assert(decimal(n)[0] == decimal(n / 10)[0]);
    } else {
        assert(decimal(n).drop_last() =~= seq![]);
    }
}

/// The text of a number is that number: digits alone for one that is not
/// negative, and a minus sign and the digits of its opposite otherwise.
pub proof fn the_text_of_a_number_is_that_number(n: i32, text: String, m: u64, plain: String)
    requires
        call_ensures(signed_decimal_text, (n,), text),
        call_ensures(decimal_text, (m,), plain),
    ensures
        value_of(plain@) == m,
        forall|i: int| 0 <= i < plain@.len() ==> '0' <= #[trigger] plain@[i] <= '9',
        n >= 0 ==> value_of(text@) == n && text@.len() > 0 && text@[0] != '-',
        n < 0 ==> text@.len() > 1 && text@[0] == '-' && value_of(text@.skip(1)) == -n,
        n > 0 ==> text@[0] != '0',
{
    decimal_digits_stand_for_their_number(m as nat);
    if n < 0 {
        decimal_digits_stand_for_their_number((-n) as nat);
        assert(text@.skip(1) =~= decimal((-n) as nat));
    } else {
        decimal_digits_stand_for_their_number(n as nat);
        assert('0' <= decimal(n as nat)[0] <= '9');
    }
}

/// The number that a hexadecimal digit stands for.
pub open spec fn hex_value(digit: char) -> int {
    if digit <= '9' {
        digit as int - 48
    } else {
        digit as int - 87
    }
}

/// Each byte has two lowercase hexadecimal digits, the more significant one
/// first.
pub proof fn hexadecimal_digits_stand_for_their_byte(bytes: &[u8], text: String, i: int)
    requires
        call_ensures(hex_text, (bytes,), text),
        0 <= i < bytes@.len(),
    ensures
        text@.len() == 2 * bytes@.len(),
        hex_value(text@[2 * i]) * 16 + hex_value(text@[2 * i + 1]) == bytes@[i],
        0 <= hex_value(text@[2 * i]) < 16,
        0 <= hex_value(text@[2 * i + 1]) < 16,
        '0' <= text@[2 * i] <= '9' || 'a' <= text@[2 * i] <= 'f',
        '0' <= text@[2 * i + 1] <= '9' || 'a' <= text@[2 * i + 1] <= 'f',
{
    let byte = bytes@[i];
    assert(text@[2 * i] == hex_digit(byte as int / 16));
    assert(text@[2 * i + 1] == hex_digit(byte as int % 16));
    assert(0 <= byte as int / 16 < 16 && 0 <= byte as int % 16 < 16);
}

/// Two texts are the same exactly if they have the same characters, and one
/// between two others keeps all three.
pub proof fn texts_are_compared_and_joined_whole(
    a: &str,
    b: &str,
    c: &str,
    same: bool,
    joined: String,
)
    requires
        call_ensures(same_text, (a, b), same),
        call_ensures(between, (a, b, c), joined),
    ensures
        same <==> a@ == b@,
        joined@ == a@ + b@ + c@,
{
}

} // verus!

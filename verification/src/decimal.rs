//! Decimal numerals: reading an unsigned 32-bit number from text and writing
//! one back.

use vstd::prelude::*;
use vstd::string::*;
use vstd::utf8::*;

verus! {

/// Whether a byte is one of the ASCII digits `0` to `9`.
pub open spec fn is_digit(b: u8) -> bool {
    0x30 <= b <= 0x39
}

/// Whether every byte of a text is an ASCII digit.
pub open spec fn all_digits(s: Seq<u8>) -> bool {
    forall|i: int| 0 <= i < s.len() ==> is_digit(#[trigger] s[i])
}

/// The number that a string of ASCII digits denotes in base ten, most
/// significant digit first. The empty string denotes zero.
pub open spec fn digits_value(s: Seq<u8>) -> nat
    decreases s.len(),
{
    if s.len() == 0 {
        0
    } else {
        (digits_value(s.drop_last()) * 10 + (s.last() - 0x30)) as nat
    }
}

/// The digits of a numeral: the text without one leading plus sign.
pub open spec fn numeral_digits(s: Seq<u8>) -> Seq<u8> {
    if s.len() > 0 && s[0] == 0x2b {
        s.drop_first()
    } else {
        s
    }
}

/// What a text denotes as an unsigned 32-bit number: an optional plus sign
/// followed by one or more ASCII digits whose value is at most `u32::MAX`.
/// Leading zeros are accepted; a minus sign, blanks and the empty text are not.
pub open spec fn numeral_value(s: Seq<u8>) -> Option<u32> {
    let digits = numeral_digits(s);
    if digits.len() > 0 && all_digits(digits) && digits_value(digits) <= u32::MAX {
        Some(digits_value(digits) as u32)
    } else {
        None
    }
}

/// The character for a value below ten.
pub open spec fn digit_char(d: nat) -> char {
    (0x30 + d) as u8 as char
}

/// The shortest decimal numeral of a number: no sign, no leading zero.
pub open spec fn numeral(n: nat) -> Seq<char>
    decreases n,
{
    if n < 10 {
        seq![digit_char(n)]
    } else {
        numeral(n / 10).push(digit_char(n % 10))
    }
}

/// A longer string of digits denotes at least what its prefix denotes.
proof fn lemma_value_grows(s: Seq<u8>, k: int)
    requires
        all_digits(s),
        0 <= k <= s.len(),
    ensures
        digits_value(s.take(k)) <= digits_value(s),
    decreases s.len(),
{
    if k == s.len() {
        assert(s.take(k) =~= s);
    } else {
        assert(is_digit(s.last()));
        assert(s.drop_last().take(k) =~= s.take(k));
        assert(all_digits(s.drop_last()));
        lemma_value_grows(s.drop_last(), k);
    }
}

/// Reads an unsigned 32-bit number from a text.
pub fn parse_u32(text: &[u8]) -> (r: Option<u32>)
    ensures
        r == numeral_value(text@),
{
    let n: usize = text.len();
    let start: usize = if n > 0 && text[0] == 0x2b { 1 } else { 0 };
    let ghost digits = numeral_digits(text@);
    assert(digits =~= text@.skip(start as int));
    if start == n {
        return None;
    }
    let mut acc: u32 = 0;
    let mut i: usize = start;
    while i < n
        invariant
            start <= i <= n,
            n == text@.len(),
            digits == text@.skip(start as int),
            digits == numeral_digits(text@),
            all_digits(digits.take(i - start)),
            acc == digits_value(digits.take(i - start)),
        decreases n - i,
    {
        let b: u8 = text[i];
        let ghost k: int = i - start;
        assert(digits[k] == b);
        if b < 0x30 || b > 0x39 {
            assert(!is_digit(digits[k]));
            return None;
        }
        proof {
            assert(digits.take(k + 1).drop_last() =~= digits.take(k));
            assert(digits.take(k + 1).last() == b);
            assert forall|j: int| 0 <= j < k + 1 implies is_digit(
                #[trigger] digits.take(k + 1)[j],
            ) by {
                if j < k {
                    assert(digits.take(k)[j] == digits.take(k + 1)[j]);
                }
            }
        }
        let d: u32 = (b - 0x30) as u32;
        if acc > (u32::MAX - d) / 10 {
            proof {
                // the prefix already exceeds the range, and so does the whole
                assert(digits_value(digits.take(k + 1)) == acc * 10 + d);
                if all_digits(digits) {
                    lemma_value_grows(digits, k + 1);
                }
            }
            return None;
        }
        acc = acc * 10 + d;
        i = i + 1;
    }
    assert(digits.take(n - start) =~= digits);
    Some(acc)
}

/// The one-character text of a value below ten.
fn digit_text(d: u32) -> (r: &'static str)
    requires
        d < 10,
    ensures
        r@ == seq![digit_char(d as nat)],
{
    proof {
        reveal_strlit("0");
        reveal_strlit("1");
        reveal_strlit("2");
        reveal_strlit("3");
        reveal_strlit("4");
        reveal_strlit("5");
        reveal_strlit("6");
        reveal_strlit("7");
        reveal_strlit("8");
        reveal_strlit("9");
    }
    let r: &'static str = match d {
        0 => "0",
        1 => "1",
        2 => "2",
        3 => "3",
        4 => "4",
        5 => "5",
        6 => "6",
        7 => "7",
        8 => "8",
        _ => "9",
    };
    assert(r@ =~= seq![digit_char(d as nat)]);
    r
}

/// Appends the shortest decimal numeral of `n` to a text.
pub fn push_numeral(out: &mut String, n: u32)
    ensures
        final(out)@ == old(out)@ + numeral(n as nat),
    decreases n,
{
    if n >= 10 {
        push_numeral(out, n / 10);
    }
    out.append(digit_text(n % 10));
    assert(final(out)@ =~= old(out)@ + numeral(n as nat));
}

/// Every character of a numeral is an ASCII digit, and read as a string of
/// digits the numeral denotes the number it was written for.
pub proof fn lemma_numeral_digits(n: nat)
    ensures
        numeral(n).len() >= 1,
        is_ascii_chars(numeral(n)),
        all_digits(encode_utf8(numeral(n))),
        digits_value(encode_utf8(numeral(n))) == n,
        encode_utf8(numeral(n))[0] != 0x2b,
    decreases n,
{
    let t = numeral(n);
    if n >= 10 {
        lemma_numeral_digits(n / 10);
        let head = numeral(n / 10);
        is_ascii_chars_encode_utf8(head);
        assert(is_ascii_chars(t));
        is_ascii_chars_encode_utf8(t);
        assert(encode_utf8(t).drop_last() =~= encode_utf8(head));
        assert(encode_utf8(t).last() == t[t.len() - 1] as u8);
        assert(encode_utf8(t).last() == 0x30 + n % 10);
        assert(digits_value(encode_utf8(t)) == digits_value(encode_utf8(head)) * 10 + n % 10);
    } else {
        assert(is_ascii_chars(t));
        is_ascii_chars_encode_utf8(t);
        assert(encode_utf8(t).drop_last() =~= Seq::<u8>::empty());
        assert(encode_utf8(t).last() == t[0] as u8);
        assert(encode_utf8(t).last() == 0x30 + n);
        assert(digits_value(Seq::<u8>::empty()) == 0);
        assert(digits_value(encode_utf8(t)) == n);
    }
}

/// Every character of a numeral is one of `0` to `9`.
pub proof fn lemma_numeral_chars(n: nat)
    ensures
        forall|i: int| 0 <= i < numeral(n).len() ==> '0' <= #[trigger] numeral(n)[i] <= '9',
    decreases n,
{
    let t = numeral(n);
    if n >= 10 {
        lemma_numeral_chars(n / 10);
        assert('0' <= digit_char(n % 10) <= '9');
        assert forall|i: int| 0 <= i < t.len() implies '0' <= #[trigger] t[i] <= '9' by {
            if i < t.len() - 1 {
                assert(t[i] == numeral(n / 10)[i]);
            }
        }
    } else {
        assert('0' <= digit_char(n) <= '9');
    }
}

/// Two numbers with the same numeral are the same number.
pub proof fn numeral_is_injective(a: nat, b: nat)
    requires
        numeral(a) == numeral(b),
    ensures
        a == b,
{
    lemma_numeral_digits(a);
    lemma_numeral_digits(b);
}

/// Writing a number and reading the numeral back gives the number.
pub proof fn numeral_round_trip(n: u32)
    ensures
        numeral_value(encode_utf8(numeral(n as nat))) == Some(n),
{
    lemma_numeral_digits(n as nat);
}

} // verus!

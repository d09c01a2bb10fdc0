//! Wire framing for messages written to the backing process.
//!
//! Every message handed to the process's standard input is wrapped in a
//! length-prefixed header: `Content-Length: <decimal byte length>\r\n\r\n`
//! followed by the raw payload.  Lines read back from the process are
//! relayed without re-framing, so only the encoding direction lives here.

use vstd::prelude::*;
use vstd::string::*;

verus! {

/// The character standing for the decimal digit `d`.
pub open spec fn digit_char(d: nat) -> char {
    if d == 0 {
        '0'
    } else if d == 1 {
        '1'
    } else if d == 2 {
        '2'
    } else if d == 3 {
        '3'
    } else if d == 4 {
        '4'
    } else if d == 5 {
        '5'
    } else if d == 6 {
        '6'
    } else if d == 7 {
        '7'
    } else if d == 8 {
        '8'
    } else {
        '9'
    }
}

/// The digit a decimal character stands for (partial inverse of `digit_char`).
pub open spec fn char_digit(c: char) -> nat {
    if c == '0' {
        0
    } else if c == '1' {
        1
    } else if c == '2' {
        2
    } else if c == '3' {
        3
    } else if c == '4' {
        4
    } else if c == '5' {
        5
    } else if c == '6' {
        6
    } else if c == '7' {
        7
    } else if c == '8' {
        8
    } else {
        9
    }
}

/// Decimal rendering of `n`, most significant digit first, with no leading
/// zeros (except for `n == 0`, rendered as `"0"`).
pub open spec fn dec_digits(n: nat) -> Seq<char>
    decreases n,
{
    if n < 10 {
        seq![digit_char(n)]
    } else {
        dec_digits(n / 10).push(digit_char(n % 10))
    }
}

/// The number a digit string denotes, read left to right.
pub open spec fn dec_value(s: Seq<char>) -> nat
    decreases s.len(),
{
    if s.len() == 0 {
        0
    } else {
        dec_value(s.drop_last()) * 10 + char_digit(s.last())
    }
}

/// The decimal rendering of a number denotes that number: the header really
/// does state the exact payload length.
pub proof fn lemma_dec_digits_value(n: nat)
    ensures
        dec_value(dec_digits(n)) == n,
        dec_digits(n).len() >= 1,
        forall|i: int| 0 <= i < dec_digits(n).len() ==> char_digit(#[trigger] dec_digits(n)[i]) < 10,
    decreases n,
{
    if n < 10 {
        assert(dec_digits(n) =~= seq![digit_char(n)]);
        assert(dec_digits(n).drop_last() =~= Seq::<char>::empty());
        assert(dec_value(Seq::<char>::empty()) == 0);
        assert(dec_digits(n).last() == digit_char(n));
        assert(dec_value(dec_digits(n)) == dec_value(dec_digits(n).drop_last()) * 10
            + char_digit(dec_digits(n).last()));
        assert(dec_value(dec_digits(n)) == char_digit(digit_char(n)));
    } else {
        lemma_dec_digits_value(n / 10);
        let prefix = dec_digits(n / 10);
        assert(dec_digits(n) =~= prefix.push(digit_char(n % 10)));
        assert(dec_digits(n).drop_last() =~= prefix);
        assert(dec_digits(n).last() == digit_char(n % 10));
        assert(char_digit(digit_char(n % 10)) == n % 10);
        assert(dec_value(dec_digits(n)) == (n / 10) * 10 + n % 10);
        assert((n / 10) * 10 + n % 10 == n) by (nonlinear_arith);
        assert(forall|i: int|
            0 <= i < dec_digits(n).len() ==> char_digit(#[trigger] dec_digits(n)[i]) < 10);
    }
}

/// The byte length of a text payload, as its UTF-8 encoding has it.
pub open spec fn byte_len_chars(s: Seq<char>) -> nat {
    vstd::utf8::encode_utf8(s).len()
}

/// The byte length of a string slice.
pub open spec fn byte_len(s: &str) -> nat {
    s.spec_bytes().len()
}

/// The full framed form of a payload: the header naming the payload's exact
/// byte length, an empty separator line, then the payload itself.
pub open spec fn wrapped_chars(s: Seq<char>) -> Seq<char> {
    "Content-Length: "@ + dec_digits(byte_len_chars(s)) + "\r\n\r\n"@ + s
}

/// The framed form of a string slice.
pub open spec fn wrapped_message(msg: &str) -> Seq<char> {
    wrapped_chars(msg@)
}

fn digit_str(d: u64) -> (r: &'static str)
    requires
        d < 10,
    ensures
        r@ =~= seq![digit_char(d as nat)],
{
    proof {
        reveal_strlit("0");
        reveal_strlit("1");
        reveal_strlit("2");
        reveal_strlit("3");
        reveal_strlit("4");
        reveal_strlit("5");
        reveal_strlit("6");
        reveal_strlit("7");
        reveal_strlit("8");
        reveal_strlit("9");
    }
    match d {
        0 => "0",
        1 => "1",
        2 => "2",
        3 => "3",
        4 => "4",
        5 => "5",
        6 => "6",
        7 => "7",
        8 => "8",
        _ => "9",
    }
}

/// Renders `n` in decimal, most significant digit first.
pub fn u64_to_dec(n: u64) -> (r: String)
    ensures
        r@ == dec_digits(n as nat),
    decreases n,
{
    if n < 10 {
        String::from_str(digit_str(n))
    } else {
        let mut s = u64_to_dec(n / 10);
        s.append(digit_str(n % 10));
        proof {
            assert(s@ =~= dec_digits((n / 10) as nat).push(digit_char((n % 10) as nat)));
        }
        s
    }
}

/// Wraps one outbound message in the process's wire framing.
///
/// The header states the exact byte length of `msg`; the bytes after the
/// separator are `msg` itself, unchanged — also when `msg` is empty.
pub fn wrap_lsp_message(msg: &str) -> (r: String)
    requires
        byte_len(msg) <= usize::MAX,
    ensures
        r@ == wrapped_message(msg),
{
    let len: usize = msg.len();
    let mut s = String::from_str("Content-Length: ");
    let digits = u64_to_dec(len as u64);
    s.append(digits.as_str());
    s.append("\r\n\r\n");
    s.append(msg);
    proof {
        assert(s@ =~= wrapped_message(msg));
    }
    s
}

/// Framing invariant: the framed form of any payload decomposes into the
/// literal header prefix, the decimal rendering of the payload's byte
/// length, the separator, and then the payload byte for byte — for the
/// empty payload too.
pub proof fn lemma_wrap_framing(msg: &str)
    ensures
        wrapped_message(msg).take(16) == "Content-Length: "@,
        wrapped_message(msg).skip(16).take(dec_digits(byte_len(msg)).len() as int) == dec_digits(
            byte_len(msg),
        ),
        dec_value(dec_digits(byte_len(msg))) == byte_len(msg),
        wrapped_message(msg).skip(16 + dec_digits(byte_len(msg)).len() as int).take(4)
            == "\r\n\r\n"@,
        wrapped_message(msg).skip(16 + dec_digits(byte_len(msg)).len() as int + 4) == msg@,
{
    reveal_strlit("Content-Length: ");
    reveal_strlit("\r\n\r\n");
    lemma_dec_digits_value(byte_len(msg));
    let d = dec_digits(byte_len(msg)).len() as int;
    assert(wrapped_message(msg).take(16) =~= "Content-Length: "@);
    assert(wrapped_message(msg).skip(16).take(d) =~= dec_digits(byte_len(msg)));
    assert(wrapped_message(msg).skip(16 + d).take(4) =~= "\r\n\r\n"@);
    assert(wrapped_message(msg).skip(16 + d + 4) =~= msg@);
}

} // verus!

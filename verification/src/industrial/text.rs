//! Text building: decimal numbers, fixed-point values and lowercase hex.

use vstd::prelude::*;
use vstd::string::*;

verus! {

/// The character of a decimal digit.
pub open spec fn digit_char(d: int) -> char {
    if d == 0 {
        '0'
    } else if d == 1 {
        '1'
    } else if d == 2 {
        '2'
    } else if d == 3 {
        '3'
    } else if d == 4 {
        '4'
    } else if d == 5 {
        '5'
    } else if d == 6 {
        '6'
    } else if d == 7 {
        '7'
    } else if d == 8 {
        '8'
    } else {
        '9'
    }
}

/// Decimal digits of a natural number, most significant first, without
/// leading zeros (`0` is written as one digit).
pub open spec fn decimal_digits(n: nat) -> Seq<char>
    decreases n,
{
    if n < 10 {
        seq![digit_char(n as int)]
    } else {
        decimal_digits(n / 10).push(digit_char((n % 10) as int))
    }
}

/// Exactly `width` decimal digits of `n`, zero-padded on the left (the
/// digits of `n` modulo `10^width`).
pub open spec fn padded_digits(n: nat, width: nat) -> Seq<char>
    decreases width,
{
    if width == 0 {
        Seq::<char>::empty()
    } else {
        padded_digits(n / 10, (width - 1) as nat).push(digit_char((n % 10) as int))
    }
}

/// `padded_digits(n, width)` without its trailing zeros.
pub open spec fn trimmed_digits(n: nat, width: nat) -> Seq<char>
    decreases width,
{
    if width == 0 {
        Seq::<char>::empty()
    } else if n % 10 == 0 {
        trimmed_digits(n / 10, (width - 1) as nat)
    } else {
        padded_digits(n, width)
    }
}

/// Text of a fixed-point value given in millionths: an optional minus sign,
/// the whole part in decimal, and, where the fraction is not zero, a point
/// and the fraction's digits without trailing zeros.
pub open spec fn micro_text(v: int) -> Seq<char> {
    let mag: nat = if v < 0 {
        (-v) as nat
    } else {
        v as nat
    };
    let sign: Seq<char> = if v < 0 {
        seq!['-']
    } else {
        Seq::<char>::empty()
    };
    let frac: nat = mag % 1_000_000;
    let tail: Seq<char> = if frac == 0 {
        Seq::<char>::empty()
    } else {
        seq!['.'] + trimmed_digits(frac, 6)
    };
    sign + decimal_digits(mag / 1_000_000) + tail
}

/// One decimal digit as text.
pub fn digit_str(d: u8) -> (s: &'static str)
    requires
        d < 10,
    ensures
        s@ == seq![digit_char(d as int)],
{
    proof {
        reveal_strlit("0");
        reveal_strlit("1");
        reveal_strlit("2");
        reveal_strlit("3");
        reveal_strlit("4");
        reveal_strlit("5");
        reveal_strlit("6");
        reveal_strlit("7");
        reveal_strlit("8");
        reveal_strlit("9");
    }
    let s: &'static str = if d == 0 {
        "0"
    } else if d == 1 {
        "1"
    } else if d == 2 {
        "2"
    } else if d == 3 {
        "3"
    } else if d == 4 {
        "4"
    } else if d == 5 {
        "5"
    } else if d == 6 {
        "6"
    } else if d == 7 {
        "7"
    } else if d == 8 {
        "8"
    } else {
        "9"
    };
    assert(s@ =~= seq![digit_char(d as int)]);
    s
}

/// Appends the decimal digits of `n` to `out`.
pub fn push_decimal(out: &mut String, n: u128)
    ensures
        final(out)@ == old(out)@ + decimal_digits(n as nat),
    decreases n,
{
    if n < 10 {
        out.append(digit_str(n as u8));
        assert(out@ =~= old(out)@ + decimal_digits(n as nat));
    } else {
        push_decimal(out, n / 10);
        out.append(digit_str((n % 10) as u8));
        assert(out@ =~= old(out)@ + decimal_digits(n as nat));
    }
}

/// Appends exactly `width` zero-padded decimal digits of `n` to `out`.
pub fn push_padded(out: &mut String, n: u128, width: u8)
    ensures
        final(out)@ == old(out)@ + padded_digits(n as nat, width as nat),
    decreases width,
{
    if width == 0 {
        assert(out@ =~= old(out)@ + padded_digits(n as nat, width as nat));
    } else {
        push_padded(out, n / 10, width - 1);
        out.append(digit_str((n % 10) as u8));
        assert(out@ =~= old(out)@ + padded_digits(n as nat, width as nat));
    }
}

/// Appends `width` zero-padded decimal digits of `n`, without the trailing
/// zeros, to `out`.
pub fn push_trimmed(out: &mut String, n: u128, width: u8)
    ensures
        final(out)@ == old(out)@ + trimmed_digits(n as nat, width as nat),
    decreases width,
{
    if width == 0 {
        assert(out@ =~= old(out)@ + trimmed_digits(n as nat, width as nat));
    } else if n % 10 == 0 {
        push_trimmed(out, n / 10, width - 1);
    } else {
        push_padded(out, n, width);
    }
}

/// Decimal text of an unsigned number.
pub fn decimal_string(n: u128) -> (s: String)
    ensures
        s@ == decimal_digits(n as nat),
{
    let mut s: String = String::new();
    push_decimal(&mut s, n);
    assert(s@ =~= decimal_digits(n as nat));
    s
}

/// Magnitude of a signed number.
pub fn magnitude(v: i128) -> (m: u128)
    ensures
        m as int == (if v < 0 {
            -(v as int)
        } else {
            v as int
        }),
{
    if v < 0 {
        let below: i128 = -(v + 1);
        (below as u128) + 1
    } else {
        v as u128
    }
}

/// Appends the text of a fixed-point value given in millionths to `out`.
pub fn push_micro(out: &mut String, v: i128)
    ensures
        final(out)@ == old(out)@ + micro_text(v as int),
{
    proof {
        reveal_strlit("-");
        reveal_strlit(".");
    }
    let mag: u128 = magnitude(v);
    if v < 0 {
        out.append("-");
    }
    push_decimal(out, mag / 1_000_000);
    let frac: u128 = mag % 1_000_000;
    if frac != 0 {
        out.append(".");
        push_trimmed(out, frac, 6);
    }
    assert(out@ =~= old(out)@ + micro_text(v as int));
}

/// Text of a fixed-point value given in millionths.
pub fn micro_string(v: i128) -> (s: String)
    ensures
        s@ == micro_text(v as int),
{
    let mut s: String = String::new();
    push_micro(&mut s, v);
    assert(s@ =~= micro_text(v as int));
    s
}

/// The character of a hexadecimal digit, lowercase.
pub open spec fn hex_char(d: int) -> char {
    if d < 10 {
        digit_char(d)
    } else if d == 10 {
        'a'
    } else if d == 11 {
        'b'
    } else if d == 12 {
        'c'
    } else if d == 13 {
        'd'
    } else if d == 14 {
        'e'
    } else {
        'f'
    }
}

/// Lowercase hexadecimal text of a byte string: two digits per byte, the
/// high nibble first.
pub open spec fn hex_lower(bytes: Seq<u8>) -> Seq<char> {
    Seq::new(
        2 * bytes.len(),
        |i: int|
            if i % 2 == 0 {
                hex_char(bytes[i / 2] as int / 16)
            } else {
                hex_char(bytes[i / 2] as int % 16)
            },
    )
}

/// Calls `hex::encode`.  The contract states what that function documents
/// and its source shows: every input byte becomes two lowercase hexadecimal
/// digits, high nibble first, in input order.
#[verifier::external_body]
pub(crate) fn hex_encode(data: &[u8]) -> (s: String)
    ensures
        s@ == hex_lower(data@),
{
    hex::encode(data)
}

} // verus!

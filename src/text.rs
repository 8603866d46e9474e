//! Decimal rendering of the integer quantities that a snapshot holds.
use vstd::prelude::*;
use vstd::string::*;

verus! {

/// Bytes in one gigabyte (binary prefix).
pub const BYTES_PER_GB: u64 = 1073741824;

/// The character of a decimal digit.
pub open spec fn digit_char(d: nat) -> char {
    seq!['0', '1', '2', '3', '4', '5', '6', '7', '8', '9'][d as int]
}

/// The decimal numeral of `n`, most significant digit first, without leading zeros.
pub open spec fn decimal(n: nat) -> Seq<char>
    decreases n,
{
    if n < 10 {
        seq![digit_char(n)]
    } else {
        decimal(n / 10).push(digit_char(n % 10))
    }
}

/// `h` hundredths written with two decimals: `1234` is `12.34`.
pub open spec fn fixed2(h: nat) -> Seq<char> {
    decimal(h / 100) + seq!['.', digit_char((h % 100) / 10), digit_char(h % 10)]
}

/// A byte count in gigabytes, in hundredths, rounded half up.
pub open spec fn gb_hundredths(bytes: nat) -> nat {
    ((bytes * 100 + BYTES_PER_GB / 2) / (BYTES_PER_GB as int)) as nat
}

/// A byte count as gigabytes with two decimals.
pub open spec fn gb_text(bytes: nat) -> Seq<char> {
    fixed2(gb_hundredths(bytes))
}

/// `n` thousandths in its shortest decimal form: no trailing zero after the point,
/// and no point at all for a whole number (`12040` is `12.04`, `8000` is `8`).
pub open spec fn short_thousandths(n: nat) -> Seq<char> {
    let w = decimal(n / 1000);
    let f = n % 1000;
    if f == 0 {
        w
    } else if f % 100 == 0 {
        w + seq!['.', digit_char(f / 100)]
    } else if f % 10 == 0 {
        w + seq!['.', digit_char(f / 100), digit_char((f / 10) % 10)]
    } else {
        w + seq!['.', digit_char(f / 100), digit_char((f / 10) % 10), digit_char(f % 10)]
    }
}

/// A byte count as gigabytes, rounded to hundredths, in its shortest decimal form
/// (`1.5`, `8`, `0`).
pub open spec fn gb_short_text(bytes: nat) -> Seq<char> {
    short_thousandths(gb_hundredths(bytes) * 10)
}

/// A CUDA version code divided by 1000, in its shortest decimal form (`12040` is
/// `12.04`, `0` is `0`), with a leading minus for a negative code.
pub open spec fn cuda_text(v: int) -> Seq<char> {
    if v >= 0 {
        short_thousandths(v as nat)
    } else {
        seq!['-'] + short_thousandths((-v) as nat)
    }
}

/// `n` thousandths rounded half up to one decimal (`12040` is `12.0`, `11080` is `11.1`).
pub open spec fn tenths_of_thousandths(n: nat) -> Seq<char> {
    let t = (n + 50) / 100;
    decimal(t / 10) + seq!['.', digit_char(t % 10)]
}

/// A CUDA version code divided by 1000, with one decimal, rounded half away from zero.
pub open spec fn cuda_tenths_text(v: int) -> Seq<char> {
    if v >= 0 {
        tenths_of_thousandths(v as nat)
    } else {
        seq!['-'] + tenths_of_thousandths((-v) as nat)
    }
}

/// The one-character string of decimal digit `d`.
pub fn digit_str(d: u64) -> (r: &'static str)
    requires
        d < 10,
    ensures
        r@ == seq![digit_char(d as nat)],
{
    proof {
        reveal_strlit("0");
        reveal_strlit("1");
        reveal_strlit("2");
        reveal_strlit("3");
        reveal_strlit("4");
        reveal_strlit("5");
        reveal_strlit("6");
        reveal_strlit("7");
        reveal_strlit("8");
        reveal_strlit("9");
    }
    let r = if d == 0 {
        "0"
    } else if d == 1 {
        "1"
    } else if d == 2 {
        "2"
    } else if d == 3 {
        "3"
    } else if d == 4 {
        "4"
    } else if d == 5 {
        "5"
    } else if d == 6 {
        "6"
    } else if d == 7 {
        "7"
    } else if d == 8 {
        "8"
    } else {
        "9"
    };
    assert(r@ =~= seq![digit_char(d as nat)]);
    r
}

/// The decimal numeral of `n`.
pub fn decimal_text(n: u64) -> (r: String)
    ensures
        r@ == decimal(n as nat),
    decreases n,
{
    if n < 10 {
        String::from_str(digit_str(n))
    } else {
        let mut s = decimal_text(n / 10);
        s.append(digit_str(n % 10));
        assert(s@ =~= decimal(n as nat));
        s
    }
}

/// `h` hundredths with two decimals.
pub fn fixed2_text(h: u64) -> (r: String)
    ensures
        r@ == fixed2(h as nat),
{
    let mut s = decimal_text(h / 100);
    proof {
        reveal_strlit(".");
    }
    s.append(".");
    s.append(digit_str((h % 100) / 10));
    s.append(digit_str(h % 10));
    assert(s@ =~= fixed2(h as nat));
    s
}

/// A byte count in gigabytes, in hundredths, rounded half up.
fn gb_hundredths_value(bytes: u64) -> (h: u64)
    ensures
        h == gb_hundredths(bytes as nat),
        h <= 1717986918400,
{
    let scaled: u128 = bytes as u128 * 100 + (BYTES_PER_GB / 2) as u128;
    let h: u128 = scaled / (BYTES_PER_GB as u128);
    assert(h <= 1717986918400) by {
        assert(bytes as u128 * 100 + 536870912 <= 18446744073709551615u128 * 100 + 536870912);
        assert(h <= (18446744073709551615u128 * 100 + 536870912) / 1073741824) by (nonlinear_arith)
            requires
                h == scaled / 1073741824,
                scaled <= 18446744073709551615u128 * 100 + 536870912,
        ;
    }
    h as u64
}

/// A byte count as gigabytes with two decimals, rounded half up.
pub fn gb_string(bytes: u64) -> (r: String)
    ensures
        r@ == gb_text(bytes as nat),
{
    fixed2_text(gb_hundredths_value(bytes))
}

/// A byte count as gigabytes, rounded to hundredths, in its shortest decimal form.
pub fn gb_short_string(bytes: u64) -> (r: String)
    ensures
        r@ == gb_short_text(bytes as nat),
{
    let h = gb_hundredths_value(bytes);
    short_thousandths_text(h * 10)
}

/// `n` thousandths in its shortest decimal form.
pub fn short_thousandths_text(n: u64) -> (r: String)
    ensures
        r@ == short_thousandths(n as nat),
{
    let mut s = decimal_text(n / 1000);
    let f = n % 1000;
    proof {
        reveal_strlit(".");
    }
    if f != 0 {
        s.append(".");
        s.append(digit_str(f / 100));
        if f % 100 != 0 {
            s.append(digit_str((f / 10) % 10));
            if f % 10 != 0 {
                s.append(digit_str(f % 10));
            }
        }
    }
    assert(s@ =~= short_thousandths(n as nat));
    s
}

/// `n` thousandths rounded half up to one decimal.
fn tenths_string(n: u64) -> (r: String)
    requires
        n <= 2147483648,
    ensures
        r@ == tenths_of_thousandths(n as nat),
{
    let t = (n + 50) / 100;
    let mut s = decimal_text(t / 10);
    proof {
        reveal_strlit(".");
    }
    s.append(".");
    s.append(digit_str(t % 10));
    assert(s@ =~= tenths_of_thousandths(n as nat));
    s
}

/// A CUDA version code divided by 1000, in its shortest decimal form.
pub fn cuda_string(v: i32) -> (r: String)
    ensures
        r@ == cuda_text(v as int),
{
    if v >= 0 {
        short_thousandths_text(v as u64)
    } else {
        let mag: i64 = 0 - (v as i64);
        let mut s = String::from_str("-");
        proof {
            reveal_strlit("-");
        }
        let t = short_thousandths_text(mag as u64);
        s.append(t.as_str());
        s
    }
}

/// A CUDA version code divided by 1000, with one decimal.
pub fn cuda_tenths_string(v: i32) -> (r: String)
    ensures
        r@ == cuda_tenths_text(v as int),
{
    if v >= 0 {
        tenths_string(v as u64)
    } else {
        let mag: i64 = 0 - (v as i64);
        let mut s = String::from_str("-");
        proof {
            reveal_strlit("-");
        }
        let t = tenths_string(mag as u64);
        s.append(t.as_str());
        s
    }
}

} // verus!

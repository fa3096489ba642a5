use vstd::prelude::*;
use crate::value::Value;

verus! {

/// The decimal digit `d`, for `d` below ten.
pub open spec fn digit_text(d: nat) -> Seq<char> {
    if d == 0 { "0"@ }
    else if d == 1 { "1"@ }
    else if d == 2 { "2"@ }
    else if d == 3 { "3"@ }
    else if d == 4 { "4"@ }
    else if d == 5 { "5"@ }
    else if d == 6 { "6"@ }
    else if d == 7 { "7"@ }
    else if d == 8 { "8"@ }
    else { "9"@ }
}

/// The decimal digits of `n`, without leading zeros.
pub open spec fn decimal(n: nat) -> Seq<char>
    decreases n,
{
    if n < 10 {
        digit_text(n)
    } else {
        decimal(n / 10) + digit_text(n % 10)
    }
}

/// The decimal digits of `n`, padded with leading zeros to four places.
pub open spec fn decimal4(n: nat) -> Seq<char> {
    if n < 10 {
        "000"@ + decimal(n)
    } else if n < 100 {
        "00"@ + decimal(n)
    } else if n < 1000 {
        "0"@ + decimal(n)
    } else {
        decimal(n)
    }
}

/// The textual form of a value.
pub open spec fn value_text(v: Value) -> Seq<char> {
    match v {
        Value::Number(n) => if n < 0 { "-"@ + decimal((-n) as nat) } else { decimal(n as nat) },
        Value::Bool(b) => if b { "true"@ } else { "false"@ },
        Value::Unit => "()"@,
    }
}

fn digit_str(d: u64) -> (r: &'static str)
    requires
        d < 10,
    ensures
        r@ == digit_text(d as nat),
{
    if d == 0 { "0" }
    else if d == 1 { "1" }
    else if d == 2 { "2" }
    else if d == 3 { "3" }
    else if d == 4 { "4" }
    else if d == 5 { "5" }
    else if d == 6 { "6" }
    else if d == 7 { "7" }
    else if d == 8 { "8" }
    else { "9" }
}

/// Appends the decimal digits of `n` to `out`.
pub fn push_decimal(out: &mut String, n: u64)
    ensures
        final(out)@ == old(out)@ + decimal(n as nat),
    decreases n,
{
    if n >= 10 {
        push_decimal(out, n / 10);
    }
    out.append(digit_str(n % 10));
    proof {
        if n < 10 {
            assert(old(out)@ + decimal(n as nat) == old(out)@ + digit_text(n as nat));
        } else {
            assert(old(out)@ + decimal(n as nat) == old(out)@ + decimal((n / 10) as nat)
                + digit_text((n % 10) as nat));
        }
    }
}

/// Appends the decimal digits of `n`, padded with zeros to four places.
pub fn push_decimal4(out: &mut String, n: u64)
    ensures
        final(out)@ == old(out)@ + decimal4(n as nat),
{
    let ghost start = out@;
    if n < 10 {
        out.append("000");
    } else if n < 100 {
        out.append("00");
    } else if n < 1000 {
        out.append("0");
    }
    push_decimal(out, n);
    proof {
        if n < 10 {
            assert(out@ == start + ("000"@ + decimal(n as nat)));
        } else if n < 100 {
            assert(out@ == start + ("00"@ + decimal(n as nat)));
        } else if n < 1000 {
            assert(out@ == start + ("0"@ + decimal(n as nat)));
        }
    }
}

/// Appends the textual form of `v` to `out`.
pub fn push_value(out: &mut String, v: Value)
    ensures
        final(out)@ == old(out)@ + value_text(v),
{
    let ghost start = out@;
    match v {
        Value::Number(n) => {
            if n < 0 {
                out.append("-");
                let m: u64 = (0i128 - n as i128) as u64;
                push_decimal(out, m);
                assert(out@ == start + ("-"@ + decimal((-n) as nat)));
            } else {
                push_decimal(out, n as u64);
            }
        },
        Value::Bool(b) => {
            if b {
                out.append("true");
            } else {
                out.append("false");
            }
        },
        Value::Unit => {
            out.append("()");
        },
    }
}

} // verus!

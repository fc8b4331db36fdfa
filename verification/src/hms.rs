//! Rendering millisecond counts as clock faces: "HH:MM:SS",
//! "HH:MM:SS.cs" and "MM:SS".

use vstd::prelude::*;

use crate::text::ascii_to_string;
use crate::text::chars_of_bytes;

verus! {

/// The ASCII digit for one decimal place.
pub open spec fn digit_byte(d: int) -> u8
    recommends
        0 <= d < 10,
{
    (48 + d) as u8
}

/// The shortest decimal spelling of `n`, as ASCII bytes.
pub open spec fn dec_bytes(n: nat) -> Seq<u8>
    decreases n,
{
    if n < 10 {
        seq![digit_byte(n as int)]
    } else {
        dec_bytes(n / 10).push(digit_byte((n % 10) as int))
    }
}

/// Decimal spelling, zero-padded on the left to at least two places.
pub open spec fn pad2_bytes(n: nat) -> Seq<u8> {
    if n < 10 {
        seq![48u8] + dec_bytes(n)
    } else {
        dec_bytes(n)
    }
}

/// "HH:MM:SS". Hours are zero-padded to two places but keep all their
/// digits past ninety-nine.
pub open spec fn spec_format_hms(ms: u64) -> Seq<char> {
    let total = ms / 1000;
    chars_of_bytes(
        pad2_bytes((total / 3600) as nat) + seq![58u8] + pad2_bytes(((total % 3600) / 60) as nat)
            + seq![58u8] + pad2_bytes((total % 60) as nat),
    )
}

/// "HH:MM:SS.cs", with centiseconds after the dot.
pub open spec fn spec_format_hms_cs(ms: u64) -> Seq<char> {
    let total = ms / 1000;
    chars_of_bytes(
        pad2_bytes((total / 3600) as nat) + seq![58u8] + pad2_bytes(((total % 3600) / 60) as nat)
            + seq![58u8] + pad2_bytes((total % 60) as nat) + seq![46u8] + pad2_bytes(
            (((ms % 1000) / 10) as nat),
        ),
    )
}

/// "MM:SS". Minutes keep all their digits past ninety-nine.
pub open spec fn spec_format_ms(ms: u64) -> Seq<char> {
    let total = ms / 1000;
    chars_of_bytes(
        pad2_bytes((total / 60) as nat) + seq![58u8] + pad2_bytes((total % 60) as nat),
    )
}

/// Append the decimal digits of `n`; every appended byte is an ASCII digit.
fn push_dec_bytes(out: &mut Vec<u8>, n: u64)
    ensures
        final(out)@ == old(out)@ + dec_bytes(n as nat),
        forall|i: int|
            old(out)@.len() <= i < final(out)@.len() ==> 48 <= #[trigger] final(out)@[i] <= 57,
    decreases n,
{
    if n >= 10 {
        push_dec_bytes(out, n / 10);
    }
    out.push((n % 10) as u8 + 48);
    proof {
        assert(out@ =~= old(out)@ + dec_bytes(n as nat));
    }
}

/// Append `n` zero-padded to at least two decimal places; every appended
/// byte is an ASCII digit.
fn push_pad2_bytes(out: &mut Vec<u8>, n: u64)
    ensures
        final(out)@ == old(out)@ + pad2_bytes(n as nat),
        forall|i: int|
            old(out)@.len() <= i < final(out)@.len() ==> 48 <= #[trigger] final(out)@[i] <= 57,
{
    if n < 10 {
        out.push(48);
    }
    push_dec_bytes(out, n);
    proof {
        assert(out@ =~= old(out)@ + pad2_bytes(n as nat));
    }
}

/// Format milliseconds as "HH:MM:SS".
pub fn format_hms(ms: u64) -> (r: String)
    ensures
        r@ == spec_format_hms(ms),
{
    let total_secs = ms / 1000;
    let h = total_secs / 3600;
    let m = (total_secs % 3600) / 60;
    let s = total_secs % 60;
    let mut buf: Vec<u8> = Vec::new();
    push_pad2_bytes(&mut buf, h);
    buf.push(58);
    push_pad2_bytes(&mut buf, m);
    buf.push(58);
    push_pad2_bytes(&mut buf, s);
    proof {
        assert(buf@ =~= pad2_bytes((total_secs / 3600) as nat) + seq![58u8] + pad2_bytes(
            ((total_secs % 3600) / 60) as nat,
        ) + seq![58u8] + pad2_bytes((total_secs % 60) as nat));
    }
    ascii_to_string(&buf)
}

/// Format milliseconds as "HH:MM:SS.cs" (centiseconds).
pub fn format_hms_cs(ms: u64) -> (r: String)
    ensures
        r@ == spec_format_hms_cs(ms),
{
    let total_secs = ms / 1000;
    let cs = (ms % 1000) / 10;
    let h = total_secs / 3600;
    let m = (total_secs % 3600) / 60;
    let s = total_secs % 60;
    let mut buf: Vec<u8> = Vec::new();
    push_pad2_bytes(&mut buf, h);
    buf.push(58);
    push_pad2_bytes(&mut buf, m);
    buf.push(58);
    push_pad2_bytes(&mut buf, s);
    buf.push(46);
    push_pad2_bytes(&mut buf, cs);
    proof {
        assert(buf@ =~= pad2_bytes((total_secs / 3600) as nat) + seq![58u8] + pad2_bytes(
            ((total_secs % 3600) / 60) as nat,
        ) + seq![58u8] + pad2_bytes((total_secs % 60) as nat) + seq![46u8] + pad2_bytes(
            (((ms % 1000) / 10) as nat),
        ));
    }
    ascii_to_string(&buf)
}

/// Format milliseconds as "MM:SS".
pub fn format_ms(ms: u64) -> (r: String)
    ensures
        r@ == spec_format_ms(ms),
{
    let total_secs = ms / 1000;
    let m = total_secs / 60;
    let s = total_secs % 60;
    let mut buf: Vec<u8> = Vec::new();
    push_pad2_bytes(&mut buf, m);
    buf.push(58);
    push_pad2_bytes(&mut buf, s);
    proof {
        assert(buf@ =~= pad2_bytes((total_secs / 60) as nat) + seq![58u8] + pad2_bytes(
            (total_secs % 60) as nat,
        ));
    }
    ascii_to_string(&buf)
}

} // verus!

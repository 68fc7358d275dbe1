//! Fixed-point centisecond time codes and their decimal rendering.
//!
//! A time code is a non-negative number of centiseconds (1/100 s) from
//! the start of the audio.  Each subtitle format slices it into fields
//! (hours, minutes, seconds, and a fractional part) and renders each
//! field as a zero-padded decimal number.

use vstd::prelude::*;

verus! {

/// The decimal digit character for a value in `0..10`.
pub open spec fn digit_char(d: int) -> char {
    if d == 0 {
        '0'
    } else if d == 1 {
        '1'
    } else if d == 2 {
        '2'
    } else if d == 3 {
        '3'
    } else if d == 4 {
        '4'
    } else if d == 5 {
        '5'
    } else if d == 6 {
        '6'
    } else if d == 7 {
        '7'
    } else if d == 8 {
        '8'
    } else {
        '9'
    }
}

/// Decimal rendering of `v`, zero-padded on the left to at least
/// `width` characters.  Values needing more than `width` digits are
/// rendered in full.
pub open spec fn spec_decimal(v: nat, width: nat) -> Seq<char>
    decreases v, width,
{
    if v < 10 && width <= 1 {
        seq![digit_char(v as int)]
    } else {
        spec_decimal(v / 10, if width == 0 { 0 } else { (width - 1) as nat })
            + seq![digit_char((v % 10) as int)]
    }
}

/// The single-character string for a decimal digit.
fn digit_str(d: u64) -> (r: &'static str)
    requires
        d < 10,
    ensures
        r@ == seq![digit_char(d as int)],
{
    proof {
        reveal_strlit("0");
        reveal_strlit("1");
        reveal_strlit("2");
        reveal_strlit("3");
        reveal_strlit("4");
        reveal_strlit("5");
        reveal_strlit("6");
        reveal_strlit("7");
        reveal_strlit("8");
        reveal_strlit("9");
    }
    match d {
        0 => "0",
        1 => "1",
        2 => "2",
        3 => "3",
        4 => "4",
        5 => "5",
        6 => "6",
        7 => "7",
        8 => "8",
        _ => "9",
    }
}

/// The LRC timestamp of `t` centiseconds: `[MM:SS.CC]`, minutes
/// without an hours field.
pub open spec fn lrc_timestamp(t: int) -> Seq<char> {
    "["@ + spec_decimal((t / 6000) as nat, 2) + ":"@ + spec_decimal(((t / 100) % 60) as nat, 2)
        + "."@ + spec_decimal((t % 100) as nat, 2) + "]"@
}

/// The SRT timestamp of `t` centiseconds: `HH:MM:SS,mmm`, with
/// milliseconds `(t mod 100) * 10`.
pub open spec fn srt_timestamp(t: int) -> Seq<char> {
    spec_decimal((t / 360000) as nat, 2) + ":"@ + spec_decimal(((t / 6000) % 60) as nat, 2) + ":"@
        + spec_decimal(((t / 100) % 60) as nat, 2) + ","@ + spec_decimal(
        ((t % 100) * 10) as nat,
        3,
    )
}

/// The VTT timestamp of `t` centiseconds: `MM:SS.mmm`, minutes
/// without an hours field.
pub open spec fn vtt_timestamp(t: int) -> Seq<char> {
    spec_decimal((t / 6000) as nat, 2) + ":"@ + spec_decimal(((t / 100) % 60) as nat, 2) + "."@
        + spec_decimal(((t % 100) * 10) as nat, 3)
}

/// Appends the decimal rendering of `v`, zero-padded to at least
/// `width` characters, to `out`.
pub fn push_decimal(out: &mut String, v: u64, width: u64)
    ensures
        final(out)@ == old(out)@ + spec_decimal(v as nat, width as nat),
    decreases v, width,
{
    if v < 10 && width <= 1 {
        out.append(digit_str(v));
    } else {
        push_decimal(out, v / 10, if width == 0 { 0 } else { width - 1 });
        out.append(digit_str(v % 10));
        proof {
            assert(out@ =~= old(out)@ + spec_decimal(v as nat, width as nat));
        }
    }
}

/// Appends the LRC timestamp `[MM:SS.CC]` of `t` centiseconds.
pub fn push_lrc_timestamp(out: &mut String, t: i64)
    requires
        0 <= t,
    ensures
        final(out)@ == old(out)@ + lrc_timestamp(t as int),
{
    let tu = t as u64;
    out.append("[");
    push_decimal(out, tu / 6000, 2);
    out.append(":");
    push_decimal(out, (tu / 100) % 60, 2);
    out.append(".");
    push_decimal(out, tu % 100, 2);
    out.append("]");
    proof {
        assert(out@ =~= old(out)@ + lrc_timestamp(t as int));
    }
}

/// Appends the SRT timestamp `HH:MM:SS,mmm` of `t` centiseconds.
pub fn push_srt_timestamp(out: &mut String, t: i64)
    requires
        0 <= t,
    ensures
        final(out)@ == old(out)@ + srt_timestamp(t as int),
{
    let tu = t as u64;
    push_decimal(out, tu / 360000, 2);
    out.append(":");
    push_decimal(out, (tu / 6000) % 60, 2);
    out.append(":");
    push_decimal(out, (tu / 100) % 60, 2);
    out.append(",");
    push_decimal(out, (tu % 100) * 10, 3);
    proof {
        assert(out@ =~= old(out)@ + srt_timestamp(t as int));
    }
}

/// Appends the VTT timestamp `MM:SS.mmm` of `t` centiseconds.
pub fn push_vtt_timestamp(out: &mut String, t: i64)
    requires
        0 <= t,
    ensures
        final(out)@ == old(out)@ + vtt_timestamp(t as int),
{
    let tu = t as u64;
    push_decimal(out, tu / 6000, 2);
    out.append(":");
    push_decimal(out, (tu / 100) % 60, 2);
    out.append(".");
    push_decimal(out, (tu % 100) * 10, 3);
    proof {
        assert(out@ =~= old(out)@ + vtt_timestamp(t as int));
    }
}

/// Time-code round trip for the SRT encoding: for any time below 24
/// hours, the emitted hours, minutes, seconds, and millisecond fields
/// recover the original centisecond value exactly, up to the stated
/// 10 ms precision of the fraction.
pub proof fn lemma_round_trip_srt(t: int)
    requires
        0 <= t < 8640000,
    ensures
        (t / 360000) * 360000 + ((t / 6000) % 60) * 6000 + ((t / 100) % 60) * 100 + ((t % 100)
            * 10) / 10 == t,
{
    lemma_centi_fields(t);
    vstd::arithmetic::div_mod::lemma_div_denominator(t, 6000, 60);
    vstd::arithmetic::div_mod::lemma_fundamental_div_mod(t / 6000, 60);
}

/// Time-code round trip for the VTT encoding: the emitted minutes,
/// seconds, and millisecond fields recover the original centisecond
/// value exactly, up to the stated 10 ms precision of the fraction.
pub proof fn lemma_round_trip_vtt(t: int)
    requires
        0 <= t < 8640000,
    ensures
        (t / 6000) * 6000 + ((t / 100) % 60) * 100 + ((t % 100) * 10) / 10 == t,
{
    lemma_centi_fields(t);
}

/// Time-code round trip for the LRC encoding: the emitted minutes,
/// seconds, and centisecond fields recover the original value
/// exactly.
pub proof fn lemma_round_trip_lrc(t: int)
    requires
        0 <= t < 8640000,
    ensures
        (t / 6000) * 6000 + ((t / 100) % 60) * 100 + t % 100 == t,
{
    lemma_centi_fields(t);
}

/// Decomposition of a non-negative centisecond count into minutes,
/// leftover seconds, and leftover centiseconds, and of the 10 ms
/// fraction field back into centiseconds.
proof fn lemma_centi_fields(t: int)
    requires
        0 <= t,
    ensures
        (t / 6000) * 6000 + ((t / 100) % 60) * 100 + t % 100 == t,
        ((t % 100) * 10) / 10 == t % 100,
{
    vstd::arithmetic::div_mod::lemma_fundamental_div_mod(t, 100);
    vstd::arithmetic::div_mod::lemma_div_denominator(t, 100, 60);
    vstd::arithmetic::div_mod::lemma_fundamental_div_mod(t / 100, 60);
    vstd::arithmetic::div_mod::lemma_div_by_multiple(t % 100, 10);
}

} // verus!

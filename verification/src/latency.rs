//! Latency measurement between the peers: the sender writes its clock reading
//! (milliseconds within a 100 s window, taken from an SNTP answer) as decimal text on a
//! data channel; the receiver reads it back and compares it with its own reading.

use vstd::prelude::*;
use vstd::utf8::*;
use crate::decimal::{decimal_chars, format_u32, lemma_parse_format_roundtrip, parse_u32, parse_u32_spec};

verus! {

/// Latency measurement between the sender and the receiver side.
pub struct Latency {}

/// Milliseconds in a fraction of a second given in units of 2^-32 s, as
/// `sntpc::fraction_to_milliseconds` computes it.
pub open spec fn fraction_millis(sec_fraction: u32) -> int {
    (sec_fraction as int * 1000) / (u32::MAX as int)
}

/// The round trip of an SNTP request, in whole milliseconds, kept to its low 32 bits.
pub open spec fn roundtrip_millis(roundtrip_micros: u64) -> int {
    ((roundtrip_micros / 1000) as int) % 0x1_0000_0000
}

/// The clock reading that the latency measurement uses: the last two decimal digits of
/// the SNTP seconds, in milliseconds, plus the milliseconds of the seconds fraction,
/// less the round trip; 0 where those two digits are `00`.
pub open spec fn ntp_time_millis(sec: u32, sec_fraction: u32, roundtrip_micros: u64) -> int {
    let last_two = sec % 100;
    if last_two == 0 {
        0
    } else {
        last_two * 1000 + fraction_millis(sec_fraction) - roundtrip_millis(roundtrip_micros)
    }
}

/// Where the reading is defined: the seconds have at least two decimal digits, and the
/// round trip does not exceed what it is subtracted from.
pub open spec fn ntp_time_defined(sec: u32, sec_fraction: u32, roundtrip_micros: u64) -> bool {
    &&& sec >= 10
    &&& sec % 100 != 0 ==> roundtrip_millis(roundtrip_micros) <= (sec % 100) * 1000
        + fraction_millis(sec_fraction)
}

/// `sntpc::fraction_to_milliseconds`: whole milliseconds in `sec_fraction / 2^32` s,
/// computed as `sec_fraction * 1000 / u32::MAX` in `u64`.
#[verifier::external_body]
fn fraction_to_milliseconds(sec_fraction: u32) -> (ms: u32)
    ensures
        ms as int == fraction_millis(sec_fraction),
{
    sntpc::fraction_to_milliseconds(sec_fraction)
}

/// The low 32 bits of a `u64`.
fn low_u32(x: u64) -> (r: u32)
    ensures
        r as int == (x as int) % 0x1_0000_0000,
{
    let r = x as u32;
    assert(r == x % 0x1_0000_0000) by (bit_vector)
        requires
            r == x as u32,
    ;
    r
}

impl Latency {
    /// The clock reading of an SNTP answer (its seconds, seconds fraction and round
    /// trip in microseconds), in milliseconds.
    pub fn ntp_time_millis(sec: u32, sec_fraction: u32, roundtrip_micros: u64) -> (t: u32)
        requires
            ntp_time_defined(sec, sec_fraction, roundtrip_micros),
        ensures
            t as int == ntp_time_millis(sec, sec_fraction, roundtrip_micros),
            sec % 100 == 0 ==> t == 0,
            sec % 100 != 0 ==> t as int == (sec % 100) * 1000 + (sec_fraction as int * 1000)
                / 0xffff_ffff - ((roundtrip_micros / 1000) as int) % 0x1_0000_0000,
            t <= 100_000,
    {
        let last_two_digits = sec % 100;
        if last_two_digits == 0 {
            return 0;
        }
        let secs_in_millis: u32 = last_two_digits * 1000;
        let rtt_in_millis: u64 = roundtrip_micros / 1000;
        let fraction = fraction_to_milliseconds(sec_fraction);
        assert(fraction <= 1000) by {
            assert((sec_fraction as int * 1000) / (u32::MAX as int) <= 1000) by (nonlinear_arith)
                requires
                    sec_fraction <= u32::MAX,
            ;
        }
        (secs_in_millis + fraction) - low_u32(rtt_in_millis)
    }

    /// Whether `ntp_time_millis` is defined on an SNTP answer (see `ntp_time_defined`).
    pub fn ntp_time_is_defined(sec: u32, sec_fraction: u32, roundtrip_micros: u64) -> (b: bool)
        ensures
            b == ntp_time_defined(sec, sec_fraction, roundtrip_micros),
    {
        if sec < 10 {
            return false;
        }
        let last_two_digits = sec % 100;
        if last_two_digits == 0 {
            return true;
        }
        let fraction = fraction_to_milliseconds(sec_fraction);
        assert(fraction <= 1000) by {
            assert((sec_fraction as int * 1000) / (u32::MAX as int) <= 1000) by (nonlinear_arith)
                requires
                    sec_fraction <= u32::MAX,
            ;
        }
        low_u32(roundtrip_micros / 1000) <= last_two_digits * 1000 + fraction
    }

    /// After a failed SNTP request, when `failed` requests had failed before and at most
    /// `max_retries` are made: the new count of failures if another request is due,
    /// `None` if the clock cannot be read.
    pub fn sntp_retry_after_failure(failed: u32, max_retries: u32) -> (next: Option<u32>)
        requires
            failed < max_retries,
        ensures
            failed + 1 < max_retries ==> next == Some((failed + 1) as u32),
            failed + 1 >= max_retries ==> next is None,
    {
        let next = failed + 1;
        if next < max_retries {
            Some(next)
        } else {
            None
        }
    }

    /// The text that the sender writes for a clock reading: its decimal digits.
    pub fn format_time(time: u32) -> (text: String)
        ensures
            text@ == decimal_chars(time as nat),
    {
        format_u32(time)
    }

    /// The clock reading in a message that the receiver got: the message's bytes read
    /// as UTF-8 text and parsed as a `u32`; `None` where either step fails.
    pub fn parse_time(data: &[u8]) -> (time: Option<u32>)
        ensures
            time == parse_u32_spec(data@),
    {
        parse_u32(data)
    }

    /// The latency from a reading `sent` to a later reading `now`; `None` where `sent`
    /// is later than `now` (the difference would be negative).
    pub fn difference(now: u32, sent: u32) -> (d: Option<u32>)
        ensures
            d is Some <==> sent <= now,
            d matches Some(v) ==> sent + v == now,
    {
        now.checked_sub(sent)
    }
}

/// The clock reading is the last two decimal digits of the SNTP seconds in milliseconds,
/// plus the milliseconds of the fraction, less the round trip in milliseconds (low 32
/// bits); only where those two digits are `00` is it 0 regardless.
pub proof fn lemma_ntp_time_reading(sec: u32, sec_fraction: u32, roundtrip_micros: u64)
    ensures
        sec % 100 == 0 ==> ntp_time_millis(sec, sec_fraction, roundtrip_micros) == 0,
        sec % 100 != 0 ==> ntp_time_millis(sec, sec_fraction, roundtrip_micros) == (sec % 100)
            * 1000 + (sec_fraction as int * 1000) / 0xffff_ffff - ((roundtrip_micros / 1000) as int)
            % 0x1_0000_0000,
        sec % 100 != 0 && ntp_time_defined(sec, sec_fraction, roundtrip_micros)
            && (roundtrip_micros / 1000) as int % 0x1_0000_0000 < 1000 ==> ntp_time_millis(
            sec,
            sec_fraction,
            roundtrip_micros,
        ) > 0,
{
}

/// Whatever clock reading the sender writes on the latency channel, the receiver reads
/// back the same reading from the message's bytes.
pub proof fn lemma_time_message_roundtrip(time: u32)
    ensures
        parse_u32_spec(encode_utf8(decimal_chars(time as nat))) == Some(time),
{
    lemma_parse_format_roundtrip(time);
}

} // verus!

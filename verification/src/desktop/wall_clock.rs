//! Wall clock of the taskbar notification area: CMOS RTC decoding and `HH:MM:SS` /
//! `YYYY/MM/DD` formatting (with an uptime fallback when no RTC is available).
use vstd::prelude::*;

verus! {

/// Decoded RTC fields.
#[derive(Clone, Copy, Debug, PartialEq, Eq, Structural)]
pub struct RtcSnapshot {
    pub hour: u8,
    pub minute: u8,
    pub second: u8,
    pub year: u16,
    pub month: u8,
    pub day: u8,
}

/// Raw CMOS register values read through ports 0x70/0x71.
#[derive(Clone, Copy, Debug, PartialEq, Eq, Structural)]
pub struct CmosRegisters {
    /// Status register B.
    pub status_b: u8,
    pub seconds: u8,
    pub minutes: u8,
    pub hours: u8,
    pub day: u8,
    pub month: u8,
    pub year: u8,
}

/// Value of a packed BCD byte (each nibble a decimal digit, not checked).
pub open spec fn bcd_value(v: u8) -> nat {
    ((v as nat) / 16) * 10 + (v as nat) % 16
}

/// Decode a packed BCD byte.
pub fn from_bcd(v: u8) -> (r: u8)
    ensures
        r as nat == bcd_value(v),
{
    assert((v >> 4) == v / 16 && (v & 0x0F) == v % 16) by (bit_vector);
    ((v >> 4) * 10) + (v & 0x0F)
}

/// Hour in 24-hour form: BCD of the low 6 bits in 24-hour mode; otherwise a 12-hour value
/// (capped at 12) with the PM flag in bit 7.
pub open spec fn hour_24(status_b: u8, hour_raw: u8) -> nat {
    if status_b & 2 != 0 {
        bcd_value(hour_raw & 0x3F)
    } else {
        let pm = hour_raw & 0x80 != 0;
        let h12v = bcd_value(hour_raw & 0x7F);
        let h12 = if h12v <= 12 { h12v } else { 12 };
        if h12 == 12 {
            if pm { 12 } else { 0 }
        } else if pm {
            if h12 + 12 <= 23 { h12 + 12 } else { 23 }
        } else {
            h12
        }
    }
}

/// The snapshot the CMOS registers describe, or `None` for out-of-range values.
pub open spec fn decode_spec(c: CmosRegisters) -> Option<RtcSnapshot> {
    let sec = bcd_value(c.seconds & 0x7F);
    let min = bcd_value(c.minutes & 0x7F);
    let hour = hour_24(c.status_b, c.hours);
    let day = bcd_value(c.day & 0x3F);
    let month = bcd_value(c.month & 0x1F);
    let year = 2000 + bcd_value(c.year);
    if sec >= 60 || min >= 60 || hour >= 24 || month == 0 || month > 12 || day == 0 || day > 31 {
        None
    } else {
        Some(RtcSnapshot {
            hour: hour as u8,
            minute: min as u8,
            second: sec as u8,
            year: year as u16,
            month: month as u8,
            day: day as u8,
        })
    }
}

/// Decode CMOS clock registers; `None` on obviously invalid values.
pub fn decode_rtc(c: CmosRegisters) -> (r: Option<RtcSnapshot>)
    ensures
        r == decode_spec(c),
{
    let hour_24 = (c.status_b & 2) != 0;
    let sec = from_bcd(c.seconds & 0x7F);
    let min = from_bcd(c.minutes & 0x7F);
    let hour = if hour_24 {
        from_bcd(c.hours & 0x3F)
    } else {
        let pm = c.hours & 0x80 != 0;
        let h12 = from_bcd(c.hours & 0x7F);
        let h12 = if h12 <= 12 { h12 } else { 12 };
        if h12 == 12 {
            if pm { 12 } else { 0 }
        } else if pm {
            let v = h12 + 12;
            if v <= 23 { v } else { 23 }
        } else {
            h12
        }
    };
    let day = from_bcd(c.day & 0x3F);
    let month = from_bcd(c.month & 0x1F);
    let year2 = from_bcd(c.year);
    let year = 2000u16 + year2 as u16;
    if sec >= 60 || min >= 60 || hour >= 24 || month == 0 || month > 12 || day == 0 || day > 31 {
        return None;
    }
    Some(RtcSnapshot { hour, minute: min, second: sec, year, month, day })
}

/// Packed BCD of a value below 100: tens in the high nibble, units in the low one.
pub open spec fn to_bcd(v: nat) -> u8 {
    ((v / 10) * 16 + v % 10) as u8
}

proof fn lemma_bcd_round_trip(v: nat)
    requires
        v < 100,
    ensures
        bcd_value(to_bcd(v)) == v,
        (to_bcd(v) as nat) <= (v / 10) * 16 + 9,
{
    let a = v / 10;
    let b = v % 10;
    assert(to_bcd(v) as nat == a * 16 + b);
    assert((a * 16 + b) / 16 == a && (a * 16 + b) % 16 == b) by (nonlinear_arith)
        requires
            b < 10,
            a >= 0,
    ;
}

proof fn lemma_mask_small(x: u8)
    ensures
        x < 0x20 ==> x & 0x1F == x,
        x < 0x40 ==> x & 0x3F == x,
        x < 0x80 ==> x & 0x7F == x,
{
    assert(x < 0x20 ==> x & 0x1F == x) by (bit_vector);
    assert(x < 0x40 ==> x & 0x3F == x) by (bit_vector);
    assert(x < 0x80 ==> x & 0x7F == x) by (bit_vector);
}

/// Reading back what the RTC holds: in 24-hour mode, registers holding the BCD of a valid
/// time and date decode to exactly that time and date (hours 0 to 23 included).
pub proof fn lemma_decode_24h_round_trip(status_b: u8, h: nat, mi: nat, s: nat, y: nat, mo: nat, d: nat)
    requires
        status_b & 2 != 0,
        h < 24,
        mi < 60,
        s < 60,
        y < 100,
        1 <= mo <= 12,
        1 <= d <= 31,
    ensures
        decode_spec(
            CmosRegisters {
                status_b,
                seconds: to_bcd(s),
                minutes: to_bcd(mi),
                hours: to_bcd(h),
                day: to_bcd(d),
                month: to_bcd(mo),
                year: to_bcd(y),
            },
        ) == Some(
            RtcSnapshot {
                hour: h as u8,
                minute: mi as u8,
                second: s as u8,
                year: (2000 + y) as u16,
                month: mo as u8,
                day: d as u8,
            },
        ),
{
    lemma_bcd_round_trip(h);
    lemma_bcd_round_trip(mi);
    lemma_bcd_round_trip(s);
    lemma_bcd_round_trip(y);
    lemma_bcd_round_trip(mo);
    lemma_bcd_round_trip(d);
    lemma_mask_small(to_bcd(h));
    lemma_mask_small(to_bcd(mi));
    lemma_mask_small(to_bcd(s));
    lemma_mask_small(to_bcd(mo));
    lemma_mask_small(to_bcd(d));
}

/// In 12-hour mode the hour register holds the BCD hour 1 to 12 with bit 7 set after noon:
/// 12 AM is hour 0, 1 to 11 AM are themselves, 12 PM is 12 and 1 to 11 PM are 13 to 23.
pub proof fn lemma_decode_12h_hour(status_b: u8, h12: nat, pm: bool)
    requires
        status_b & 2 == 0,
        1 <= h12 <= 12,
    ensures
        hour_24(status_b, if pm { to_bcd(h12) | 0x80 } else { to_bcd(h12) }) == (h12 % 12) + (if pm { 12nat } else { 0nat }),
{
    lemma_bcd_round_trip(h12);
    let x = to_bcd(h12);
    assert(x < 0x80 ==> (x | 0x80) & 0x80 != 0 && (x | 0x80) & 0x7F == x && x & 0x80 == 0 && x & 0x7F == x) by (bit_vector);
}

/// The character `'0' + v` (callers pass values below 208).
pub open spec fn digit(v: nat) -> u8 {
    (48 + v) as u8
}

/// Two decimal digits of `v` (tens may exceed 9 for out-of-range input, like the display).
pub open spec fn two_digits(v: nat) -> Seq<u8> {
    seq![digit(v / 10), digit(v % 10)]
}

/// Clock fields `(h, m, s, year, month, day)` shown for `rtc`, or derived from the uptime.
pub open spec fn clock_fields(rtc: Option<RtcSnapshot>, uptime_secs: u32) -> (nat, nat, nat, nat, nat, nat) {
    match rtc {
        Some(r) => (r.hour as nat, r.minute as nat, r.second as nat, r.year as nat, r.month as nat, r.day as nat),
        None => {
            let t = (uptime_secs as nat) % 86400;
            (t / 3600, (t % 3600) / 60, t % 60, 2020 + ((uptime_secs as nat) / 86400) % 4000, 1, 1)
        },
    }
}

/// `HH:MM:SS`.
pub open spec fn time_text(f: (nat, nat, nat, nat, nat, nat)) -> Seq<u8> {
    two_digits(f.0) + seq![58u8] + two_digits(f.1) + seq![58u8] + two_digits(f.2)
}

/// `YYYY/MM/DD`.
pub open spec fn date_text(f: (nat, nat, nat, nat, nat, nat)) -> Seq<u8> {
    seq![digit(f.3 / 1000), digit((f.3 / 100) % 10), digit((f.3 / 10) % 10), digit(f.3 % 10)]
        + seq![47u8] + two_digits(f.4) + seq![47u8] + two_digits(f.5)
}

/// The number written by the decimal digit bytes `t[at..at + 2]`.
pub open spec fn two_digit_value(t: Seq<u8>, at: int) -> int {
    (t[at] - 48) * 10 + (t[at + 1] - 48)
}

/// Whether `t[at]` is a decimal digit byte.
pub open spec fn is_digit_at(t: Seq<u8>, at: int) -> bool {
    48 <= t[at] <= 57
}

/// The clock texts read back as the clock fields: `HH:MM:SS` and `YYYY/MM/DD` are made of
/// decimal digits and separators in fixed places, and the digits spell the hour, minute,
/// second, year, month and day (for fields in their two- and four-digit ranges).
pub proof fn lemma_clock_text_reads_back(f: (nat, nat, nat, nat, nat, nat))
    requires
        f.0 < 100,
        f.1 < 100,
        f.2 < 100,
        f.3 < 10000,
        f.4 < 100,
        f.5 < 100,
    ensures
        time_text(f).len() == 8,
        time_text(f)[2] == 58u8 && time_text(f)[5] == 58u8,
        is_digit_at(time_text(f), 0) && is_digit_at(time_text(f), 1) && is_digit_at(time_text(f), 3),
        is_digit_at(time_text(f), 4) && is_digit_at(time_text(f), 6) && is_digit_at(time_text(f), 7),
        two_digit_value(time_text(f), 0) == f.0,
        two_digit_value(time_text(f), 3) == f.1,
        two_digit_value(time_text(f), 6) == f.2,
        date_text(f).len() == 10,
        date_text(f)[4] == 47u8 && date_text(f)[7] == 47u8,
        is_digit_at(date_text(f), 0) && is_digit_at(date_text(f), 1) && is_digit_at(date_text(f), 2),
        is_digit_at(date_text(f), 3) && is_digit_at(date_text(f), 5) && is_digit_at(date_text(f), 6),
        is_digit_at(date_text(f), 8) && is_digit_at(date_text(f), 9),
        (date_text(f)[0] - 48) * 1000 + (date_text(f)[1] - 48) * 100 + two_digit_value(date_text(f), 2) == f.3,
        two_digit_value(date_text(f), 5) == f.4,
        two_digit_value(date_text(f), 8) == f.5,
{
    let t = time_text(f);
    let d = date_text(f);
    assert(t[0] == digit(f.0 / 10) && t[1] == digit(f.0 % 10) && t[2] == 58u8);
    assert(t[3] == digit(f.1 / 10) && t[4] == digit(f.1 % 10) && t[5] == 58u8);
    assert(t[6] == digit(f.2 / 10) && t[7] == digit(f.2 % 10));
    assert(d[0] == digit(f.3 / 1000) && d[1] == digit((f.3 / 100) % 10) && d[2] == digit((f.3 / 10) % 10));
    assert(d[3] == digit(f.3 % 10) && d[4] == 47u8 && d[5] == digit(f.4 / 10) && d[6] == digit(f.4 % 10));
    assert(d[7] == 47u8 && d[8] == digit(f.5 / 10) && d[9] == digit(f.5 % 10));
    let y = f.3;
    assert((y / 1000) * 1000 + ((y / 100) % 10) * 100 + ((y / 10) % 10) * 10 + y % 10 == y && y / 1000 < 10) by (nonlinear_arith)
        requires
            y < 10000,
    {
        assert(y == (y / 10) * 10 + y % 10);
        assert(y / 10 == (y / 100) * 10 + (y / 10) % 10);
        assert(y / 100 == (y / 1000) * 10 + (y / 100) % 10);
    }
}

/// Write two digits of `v` at `buf[pos]`, `buf[pos + 1]`.
fn push2(buf: &mut [u8], pos: usize, v: u32)
    requires
        pos + 2 <= old(buf)@.len(),
        v <= 255,
    ensures
        final(buf)@ == old(buf)@.update(pos as int, digit(v as nat / 10)).update(pos as int + 1, digit(v as nat % 10)),
{
    buf[pos] = 48 + (v / 10) as u8;
    buf[pos + 1] = 48 + (v % 10) as u8;
}

/// The six clock fields as machine integers.
fn clock_values(rtc: Option<RtcSnapshot>, uptime_secs: u32) -> (r: (u32, u32, u32, u16, u32, u32))
    ensures
        clock_fields(rtc, uptime_secs) == (r.0 as nat, r.1 as nat, r.2 as nat, r.3 as nat, r.4 as nat, r.5 as nat),
        r.0 <= 255 && r.1 <= 255 && r.2 <= 255 && r.4 <= 255 && r.5 <= 255,
{
    match rtc {
        Some(r) => (r.hour as u32, r.minute as u32, r.second as u32, r.year, r.month as u32, r.day as u32),
        None => {
            let t = uptime_secs % 86400;
            (t / 3600, (t % 3600) / 60, t % 60, 2020u16 + ((uptime_secs / 86400) % 4000) as u16, 1u32, 1u32)
        },
    }
}

/// Write `HH:MM:SS` at the front of `out`.
fn write_time(out: &mut [u8; 16], h: u32, m: u32, s: u32)
    requires
        h <= 255 && m <= 255 && s <= 255,
    ensures
        final(out)@.take(8) == two_digits(h as nat) + seq![58u8] + two_digits(m as nat) + seq![58u8] + two_digits(s as nat),
        final(out)@.skip(8) == old(out)@.skip(8),
{
    push2(out, 0, h);
    out[2] = 58;
    push2(out, 3, m);
    out[5] = 58;
    push2(out, 6, s);
    assert(out@.take(8) =~= two_digits(h as nat) + seq![58u8] + two_digits(m as nat) + seq![58u8] + two_digits(s as nat));
    assert(out@.skip(8) =~= old(out)@.skip(8));
}

/// Write `YYYY/MM/DD` at the front of `out`.
fn write_date(out: &mut [u8; 20], y: u16, mo: u32, d: u32)
    requires
        mo <= 255 && d <= 255,
    ensures
        final(out)@.take(10) == seq![digit(y as nat / 1000), digit((y as nat / 100) % 10), digit((y as nat / 10) % 10), digit(y as nat % 10)]
            + seq![47u8] + two_digits(mo as nat) + seq![47u8] + two_digits(d as nat),
        final(out)@.skip(10) == old(out)@.skip(10),
{
    let y4 = y as u32;
    out[0] = 48 + (y4 / 1000) as u8;
    out[1] = 48 + ((y4 / 100) % 10) as u8;
    out[2] = 48 + ((y4 / 10) % 10) as u8;
    out[3] = 48 + (y4 % 10) as u8;
    out[4] = 47;
    push2(out, 5, mo);
    out[7] = 47;
    push2(out, 8, d);
    assert(out@.take(10) =~= seq![digit(y as nat / 1000), digit((y as nat / 100) % 10), digit((y as nat / 10) % 10), digit(y as nat % 10)]
        + seq![47u8] + two_digits(mo as nat) + seq![47u8] + two_digits(d as nat));
    assert(out@.skip(10) =~= old(out)@.skip(10));
}

/// Format the clock into `time_out` (`HH:MM:SS`) and `date_out` (`YYYY/MM/DD`); returns
/// both lengths.
pub fn format_clock_lines(rtc: Option<RtcSnapshot>, uptime_secs: u32, time_out: &mut [u8; 16], date_out: &mut [u8; 20]) -> (r: (usize, usize))
    ensures
        r == (8usize, 10usize),
        final(time_out)@.take(8) == time_text(clock_fields(rtc, uptime_secs)),
        final(time_out)@.skip(8) == old(time_out)@.skip(8),
        final(date_out)@.take(10) == date_text(clock_fields(rtc, uptime_secs)),
        final(date_out)@.skip(10) == old(date_out)@.skip(10),
{
    let (h, m, s, y, mo, d) = clock_values(rtc, uptime_secs);
    write_time(time_out, h, m, s);
    write_date(date_out, y, mo, d);
    (8, 10)
}

} // verus!

//! A structured timestamp with a fixed offset from UTC, together with its
//! stored text form.
//!
//! The store keeps `created_at` as text.  The text grammar is fixed here:
//! `YYYY-MM-DDTHH:MM:SS` followed by `Z` or by a numeric offset `+HH:MM` /
//! `-HH:MM` (ISO-8601 / RFC 3339 at whole-second precision).  The writer
//! always emits the numeric-offset form; the reader also accepts `Z`.
//! Both directions are verified against the same specification, and
//! `lemma_parse_of_format` proves that reading back what was written
//! recovers the original value exactly.

use vstd::prelude::*;
use vstd::arithmetic::div_mod::lemma_fundamental_div_mod;

verus! {

/// A leap year of the proleptic Gregorian calendar.
pub open spec fn is_leap_year(y: int) -> bool {
    y % 4 == 0 && (y % 100 != 0 || y % 400 == 0)
}

/// How many days month `m` of year `y` has (`m` in `1..=12`).
pub open spec fn days_in_month(y: int, m: int) -> int {
    if m == 2 {
        if is_leap_year(y) {
            29
        } else {
            28
        }
    } else if m == 4 || m == 6 || m == 9 || m == 11 {
        30
    } else {
        31
    }
}

/// How many days month `m` of year `y` has, as an executable value.
fn days_in_month_exec(y: u32, m: u32) -> (r: u32)
    requires
        1 <= m <= 12,
    ensures
        r == days_in_month(y as int, m as int),
{
    if m == 2 {
        if y % 4 == 0 && (y % 100 != 0 || y % 400 == 0) {
            29
        } else {
            28
        }
    } else if m == 4 || m == 6 || m == 9 || m == 11 {
        30
    } else {
        31
    }
}

/// A timestamp at whole-second precision with a fixed offset east of UTC,
/// held as plain field values.
#[derive(Clone, Copy, PartialEq, Eq, Structural, Debug)]
pub struct Timestamp {
    /// Year, `0..=9999` (the four-digit range of the text form).
    pub year: u16,
    /// Month, `1..=12`.
    pub month: u8,
    /// Day of month, `1..=` the month's length.
    pub day: u8,
    /// Hour, `0..=23`.
    pub hour: u8,
    /// Minute, `0..=59`.
    pub minute: u8,
    /// Second, `0..=59`.
    pub second: u8,
    /// Offset east of UTC in whole minutes, strictly between -24h and +24h.
    pub offset_minutes: i32,
}

impl Timestamp {
    /// Field ranges that every well-formed timestamp satisfies.
    pub open spec fn wf(self) -> bool {
        &&& self.year <= 9999
        &&& 1 <= self.month <= 12
        &&& 1 <= self.day <= days_in_month(self.year as int, self.month as int)
        &&& self.hour <= 23
        &&& self.minute <= 59
        &&& self.second <= 59
        &&& -1439 <= self.offset_minutes <= 1439
    }

    /// Decides well-formedness of the field values.
    pub fn is_wf(&self) -> (r: bool)
        ensures
            r == self.wf(),
    {
        self.year <= 9999 && 1 <= self.month && self.month <= 12 && 1 <= self.day && self.day
            as u32 <= days_in_month_exec(self.year as u32, self.month as u32) && self.hour <= 23
            && self.minute <= 59 && self.second <= 59 && -1439 <= self.offset_minutes
            && self.offset_minutes <= 1439
    }
}

/// A raw clock reading: calendar and time-of-day fields as the system
/// clock reports them, before any range validation.
#[derive(Clone, Copy, PartialEq, Eq, Structural, Debug)]
pub struct ClockFields {
    /// Calendar year; the clock does not bound it to four digits.
    pub year: i64,
    /// Month as reported, expected `1..=12`.
    pub month: u32,
    /// Day of month as reported, expected in range for the month.
    pub day: u32,
    /// Hour as reported, expected `0..=23`.
    pub hour: u32,
    /// Minute as reported, expected `0..=59`.
    pub minute: u32,
    /// Second as reported, expected `0..=59`.
    pub second: u32,
    /// Local offset east of UTC in seconds, expected strictly within one day.
    pub offset_seconds: i32,
}

/// Whether a clock reading fits the timestamp type.
pub open spec fn clock_in_range(c: ClockFields) -> bool {
    &&& 0 <= c.year <= 9999
    &&& 1 <= c.month <= 12
    &&& 1 <= c.day <= days_in_month(c.year as int, c.month as int)
    &&& c.hour <= 23
    &&& c.minute <= 59
    &&& c.second <= 59
    &&& -86400 < c.offset_seconds < 86400
}

/// The offset in whole minutes that a reading denotes: seconds divided by
/// sixty, rounded toward zero.
pub open spec fn offset_minutes_of(secs: int) -> int {
    if secs < 0 {
        -((-secs) / 60)
    } else {
        secs / 60
    }
}

impl Timestamp {
    /// Validates a raw clock reading into a well-formed timestamp.
    ///
    /// Succeeds exactly when every field is in range for the stored text
    /// form; the offset is truncated to whole minutes toward zero.
    pub fn from_clock(c: &ClockFields) -> (r: Option<Timestamp>)
        ensures
            r is Some <==> clock_in_range(*c),
            r matches Some(t) ==> t.wf() && t.year == c.year && t.month == c.month && t.day
                == c.day && t.hour == c.hour && t.minute == c.minute && t.second == c.second
                && t.offset_minutes == offset_minutes_of(c.offset_seconds as int),
    {
        if !(0 <= c.year && c.year <= 9999 && 1 <= c.month && c.month <= 12 && c.hour <= 23
            && c.minute <= 59 && c.second <= 59 && -86400 < c.offset_seconds && c.offset_seconds
            < 86400) {
            return None;
        }
        if !(1 <= c.day && c.day <= days_in_month_exec(c.year as u32, c.month)) {
            return None;
        }
        let om: i32 = if c.offset_seconds < 0 {
            -((-c.offset_seconds) / 60)
        } else {
            c.offset_seconds / 60
        };
        proof {
            let x: int = if c.offset_seconds < 0 {
                -(c.offset_seconds as int)
            } else {
                c.offset_seconds as int
            };
            lemma_fundamental_div_mod(x, 60);
            vstd::arithmetic::div_mod::lemma_mod_bound(x, 60);
            assert(0 <= x / 60 < 1440);
        }
        Some(
            Timestamp {
                year: c.year as u16,
                month: c.month as u8,
                day: c.day as u8,
                hour: c.hour as u8,
                minute: c.minute as u8,
                second: c.second as u8,
                offset_minutes: om,
            },
        )
    }
}

/// The decimal digit character for `d` (`0..=9`).
pub open spec fn digit_char(d: int) -> char {
    if d == 0 {
        '0'
    } else if d == 1 {
        '1'
    } else if d == 2 {
        '2'
    } else if d == 3 {
        '3'
    } else if d == 4 {
        '4'
    } else if d == 5 {
        '5'
    } else if d == 6 {
        '6'
    } else if d == 7 {
        '7'
    } else if d == 8 {
        '8'
    } else {
        '9'
    }
}

/// Whether `c` is a decimal digit character.
pub open spec fn is_digit(c: char) -> bool {
    48 <= c as int <= 57
}

/// The numeric value of a digit character.
pub open spec fn digit_val(c: char) -> int {
    c as int - 48
}

/// Two-digit zero-padded decimal text for `n` (`0..=99`).
pub open spec fn pad2(n: int) -> Seq<char> {
    seq![digit_char(n / 10), digit_char(n % 10)]
}

/// Four-digit zero-padded decimal text for `n` (`0..=9999`).
pub open spec fn pad4(n: int) -> Seq<char> {
    pad2(n / 100) + pad2(n % 100)
}

/// The value of the two digit characters at `i`, `i + 1`.
pub open spec fn p2(s: Seq<char>, i: int) -> int {
    digit_val(s[i]) * 10 + digit_val(s[i + 1])
}

/// The value of the four digit characters starting at `i`.
pub open spec fn p4(s: Seq<char>, i: int) -> int {
    p2(s, i) * 100 + p2(s, i + 2)
}

/// The absolute value of the offset, in minutes.
pub open spec fn offset_abs(t: Timestamp) -> int {
    if t.offset_minutes < 0 {
        -(t.offset_minutes as int)
    } else {
        t.offset_minutes as int
    }
}

/// The sign character the writer emits for the offset.
pub open spec fn offset_sign_char(t: Timestamp) -> char {
    if t.offset_minutes < 0 {
        '-'
    } else {
        '+'
    }
}

/// The stored text form of `t`: `YYYY-MM-DDTHH:MM:SS+HH:MM` (25 characters,
/// numeric offset always present).
pub open spec fn fmt_rfc3339(t: Timestamp) -> Seq<char> {
    pad4(t.year as int) + seq!['-'] + pad2(t.month as int) + seq!['-'] + pad2(t.day as int)
        + seq!['T'] + pad2(t.hour as int) + seq![':'] + pad2(t.minute as int) + seq![':'] + pad2(
        t.second as int,
    ) + seq![offset_sign_char(t)] + pad2(offset_abs(t) / 60) + seq![':'] + pad2(offset_abs(t) % 60)
}

/// The date-and-time part of the grammar: positions 0..19 hold
/// `YYYY-MM-DDTHH:MM:SS`.
pub open spec fn core_shape_ok(s: Seq<char>) -> bool {
    &&& s.len() >= 19
    &&& is_digit(s[0])
    &&& is_digit(s[1])
    &&& is_digit(s[2])
    &&& is_digit(s[3])
    &&& s[4] == '-'
    &&& is_digit(s[5])
    &&& is_digit(s[6])
    &&& s[7] == '-'
    &&& is_digit(s[8])
    &&& is_digit(s[9])
    &&& s[10] == 'T'
    &&& is_digit(s[11])
    &&& is_digit(s[12])
    &&& s[13] == ':'
    &&& is_digit(s[14])
    &&& is_digit(s[15])
    &&& s[16] == ':'
    &&& is_digit(s[17])
    &&& is_digit(s[18])
}

/// The offset part of the grammar: either a single `Z` or `+HH:MM` / `-HH:MM`.
pub open spec fn offset_shape_ok(s: Seq<char>) -> bool {
    ||| (s.len() == 20 && s[19] == 'Z')
    ||| (s.len() == 25 && (s[19] == '+' || s[19] == '-') && is_digit(s[20]) && is_digit(s[21])
        && s[22] == ':' && is_digit(s[23]) && is_digit(s[24]))
}

/// The parsed offset in minutes east of UTC (`Z` means zero).
pub open spec fn parsed_offset_minutes(s: Seq<char>) -> int {
    if s.len() == 20 {
        0
    } else {
        let m = p2(s, 20) * 60 + p2(s, 23);
        if s[19] == '-' {
            -m
        } else {
            m
        }
    }
}

/// Range checks on the parsed fields.
pub open spec fn fields_in_range(s: Seq<char>) -> bool {
    &&& 1 <= p2(s, 5) <= 12
    &&& 1 <= p2(s, 8) <= days_in_month(p4(s, 0), p2(s, 5))
    &&& p2(s, 11) <= 23
    &&& p2(s, 14) <= 59
    &&& p2(s, 17) <= 59
    &&& (s.len() == 25 ==> p2(s, 20) <= 23 && p2(s, 23) <= 59)
}

/// Whether `s` is a well-formed stored timestamp.
pub open spec fn parse_ok(s: Seq<char>) -> bool {
    core_shape_ok(s) && offset_shape_ok(s) && fields_in_range(s)
}

/// The timestamp denoted by a well-formed stored text `s`.
pub open spec fn parsed_timestamp(s: Seq<char>) -> Timestamp {
    Timestamp {
        year: p4(s, 0) as u16,
        month: p2(s, 5) as u8,
        day: p2(s, 8) as u8,
        hour: p2(s, 11) as u8,
        minute: p2(s, 14) as u8,
        second: p2(s, 17) as u8,
        offset_minutes: parsed_offset_minutes(s) as i32,
    }
}

/// What parsing a stored text yields: the denoted timestamp where the text
/// is well-formed, and nothing otherwise.
pub open spec fn parse_rfc3339_spec(s: Seq<char>) -> Option<Timestamp> {
    if parse_ok(s) {
        Some(parsed_timestamp(s))
    } else {
        None
    }
}

/// A digit character carries exactly its digit value.
proof fn lemma_digit_char_val(d: int)
    requires
        0 <= d <= 9,
    ensures
        is_digit(digit_char(d)),
        digit_val(digit_char(d)) == d,
{
}

/// Two-digit padding followed by two-digit reading is the identity on
/// `0..=99`.
proof fn lemma_pad2_p2(n: int)
    requires
        0 <= n < 100,
    ensures
        pad2(n).len() == 2,
        is_digit(pad2(n)[0]),
        is_digit(pad2(n)[1]),
        p2(pad2(n), 0) == n,
{
    assert(0 <= n / 10 <= 9) by (nonlinear_arith)
        requires 0 <= n < 100;
    assert(0 <= n % 10 <= 9) by (nonlinear_arith);
    lemma_digit_char_val(n / 10);
    lemma_digit_char_val(n % 10);
    lemma_fundamental_div_mod(n, 10);
}

/// Every parse of a well-formed stored text is a well-formed timestamp.
pub proof fn lemma_parse_wf(s: Seq<char>)
    requires
        parse_ok(s),
    ensures
        parsed_timestamp(s).wf(),
{
    assert(p4(s, 0) <= 9999);
    assert(-1439 <= parsed_offset_minutes(s) <= 1439);
}

/// Reading back a written timestamp recovers it exactly: for every
/// well-formed `t`, parsing `fmt_rfc3339(t)` succeeds and yields `t`.
pub proof fn lemma_parse_of_format(t: Timestamp)
    requires
        t.wf(),
    ensures
        parse_rfc3339_spec(fmt_rfc3339(t)) == Some(t),
{
    let s = fmt_rfc3339(t);
    let y = t.year as int;
    let oa = offset_abs(t);
    lemma_pad2_p2(y / 100);
    lemma_pad2_p2(y % 100);
    lemma_pad2_p2(t.month as int);
    lemma_pad2_p2(t.day as int);
    lemma_pad2_p2(t.hour as int);
    lemma_pad2_p2(t.minute as int);
    lemma_pad2_p2(t.second as int);
    assert(0 <= oa / 60 <= 23) by (nonlinear_arith)
        requires 0 <= oa <= 1439;
    assert(0 <= oa % 60 <= 59) by (nonlinear_arith);
    lemma_pad2_p2(oa / 60);
    lemma_pad2_p2(oa % 60);
    assert(0 <= y / 100 < 100) by (nonlinear_arith)
        requires 0 <= y <= 9999;
    assert(0 <= y % 100 < 100) by (nonlinear_arith);
    assert(s.len() == 25);
    assert(s[0] == pad2(y / 100)[0]);
    assert(s[1] == pad2(y / 100)[1]);
    assert(s[2] == pad2(y % 100)[0]);
    assert(s[3] == pad2(y % 100)[1]);
    assert(s[4] == '-');
    assert(s[5] == pad2(t.month as int)[0]);
    assert(s[6] == pad2(t.month as int)[1]);
    assert(s[7] == '-');
    assert(s[8] == pad2(t.day as int)[0]);
    assert(s[9] == pad2(t.day as int)[1]);
    assert(s[10] == 'T');
    assert(s[11] == pad2(t.hour as int)[0]);
    assert(s[12] == pad2(t.hour as int)[1]);
    assert(s[13] == ':');
    assert(s[14] == pad2(t.minute as int)[0]);
    assert(s[15] == pad2(t.minute as int)[1]);
    assert(s[16] == ':');
    assert(s[17] == pad2(t.second as int)[0]);
    assert(s[18] == pad2(t.second as int)[1]);
    assert(s[19] == offset_sign_char(t));
    assert(s[20] == pad2(oa / 60)[0]);
    assert(s[21] == pad2(oa / 60)[1]);
    assert(s[22] == ':');
    assert(s[23] == pad2(oa % 60)[0]);
    assert(s[24] == pad2(oa % 60)[1]);
    assert(p2(s, 0) == y / 100);
    assert(p2(s, 2) == y % 100);
    assert(p4(s, 0) == y) by {
        lemma_fundamental_div_mod(y, 100);
    }
    assert(p2(s, 5) == t.month as int);
    assert(p2(s, 8) == t.day as int);
    assert(p2(s, 11) == t.hour as int);
    assert(p2(s, 14) == t.minute as int);
    assert(p2(s, 17) == t.second as int);
    assert(p2(s, 20) == oa / 60);
    assert(p2(s, 23) == oa % 60);
    assert(parsed_offset_minutes(s) == t.offset_minutes as int) by {
        lemma_fundamental_div_mod(oa, 60);
    }
    assert(parse_ok(s));
    assert(parsed_timestamp(s) == t);
}

/// The digit character for `d` as an executable value.
fn digit_of(d: u32) -> (c: char)
    requires
        d <= 9,
    ensures
        c == digit_char(d as int),
{
    match d {
        0 => '0',
        1 => '1',
        2 => '2',
        3 => '3',
        4 => '4',
        5 => '5',
        6 => '6',
        7 => '7',
        8 => '8',
        _ => '9',
    }
}

/// Appends the two-digit zero-padded form of `n` to `v`.
fn push_pad2(v: &mut Vec<char>, n: u32)
    requires
        n < 100,
    ensures
        final(v)@ == old(v)@ + pad2(n as int),
{
    v.push(digit_of(n / 10));
    v.push(digit_of(n % 10));
    assert(v@ =~= old(v)@ + pad2(n as int));
}

/// Appends the four-digit zero-padded form of `n` to `v`.
fn push_pad4(v: &mut Vec<char>, n: u32)
    requires
        n < 10000,
    ensures
        final(v)@ == old(v)@ + pad4(n as int),
{
    push_pad2(v, n / 100);
    push_pad2(v, n % 100);
    assert(v@ =~= old(v)@ + pad4(n as int));
}

/// Relies on `String` collecting a char iterator (`FromIterator<char>`):
/// the resulting string holds exactly the characters of `v` in order.
#[verifier::external_body]
fn chars_to_string(v: &Vec<char>) -> (r: String)
    ensures
        r@ == v@,
{
    v.iter().collect()
}

/// Writes `t` in its stored text form `YYYY-MM-DDTHH:MM:SS+HH:MM`.
pub fn format_rfc3339(t: &Timestamp) -> (r: String)
    requires
        t.wf(),
    ensures
        r@ == fmt_rfc3339(*t),
{
    let mut v: Vec<char> = Vec::new();
    push_pad4(&mut v, t.year as u32);
    v.push('-');
    push_pad2(&mut v, t.month as u32);
    v.push('-');
    push_pad2(&mut v, t.day as u32);
    v.push('T');
    push_pad2(&mut v, t.hour as u32);
    v.push(':');
    push_pad2(&mut v, t.minute as u32);
    v.push(':');
    push_pad2(&mut v, t.second as u32);
    let off: i32 = t.offset_minutes;
    if off < 0 {
        v.push('-');
    } else {
        v.push('+');
    }
    let oa: i32 = if off < 0 {
        -off
    } else {
        off
    };
    assert(oa as int == offset_abs(*t));
    push_pad2(&mut v, (oa / 60) as u32);
    v.push(':');
    push_pad2(&mut v, (oa % 60) as u32);
    assert(v@ =~= fmt_rfc3339(*t));
    chars_to_string(&v)
}

/// Reads the two digit characters of `s` at `i`, `i + 1`.
fn read2(s: &str, i: usize) -> (r: Option<u32>)
    requires
        s@.len() <= usize::MAX,
        i + 1 < s@.len(),
    ensures
        r matches Some(d) ==> is_digit(s@[i as int]) && is_digit(s@[i as int + 1]) && d == p2(
            s@,
            i as int,
        ) && d <= 99,
        r is None ==> !(is_digit(s@[i as int]) && is_digit(s@[i as int + 1])),
{
    let c0: u32 = s.get_char(i) as u32;
    let c1: u32 = s.get_char(i + 1) as u32;
    if 48 <= c0 && c0 <= 57 && 48 <= c1 && c1 <= 57 {
        Some((c0 - 48) * 10 + (c1 - 48))
    } else {
        None
    }
}

/// Checks that character `i` of `s` is exactly `c`.
fn expect_char(s: &str, i: usize, c: char) -> (r: bool)
    requires
        i < s@.len(),
    ensures
        r == (s@[i as int] == c),
{
    s.get_char(i) == c
}

/// Reads a stored timestamp text back into its structured form.
///
/// Accepts exactly the grammar `YYYY-MM-DDTHH:MM:SS` followed by `Z` or
/// `+HH:MM` / `-HH:MM`, with all fields in range and the day valid for its
/// calendar month; yields nothing otherwise.
pub fn parse_rfc3339(s: &str) -> (r: Option<Timestamp>)
    ensures
        r == parse_rfc3339_spec(s@),
{
    let n = s.unicode_len();
    if n != 20 && n != 25 {
        return None;
    }
    let y0 = match read2(s, 0) {
        Some(d) => d,
        None => {
            return None;
        },
    };
    let y1 = match read2(s, 2) {
        Some(d) => d,
        None => {
            return None;
        },
    };
    let mo = match read2(s, 5) {
        Some(d) => d,
        None => {
            return None;
        },
    };
    let da = match read2(s, 8) {
        Some(d) => d,
        None => {
            return None;
        },
    };
    let ho = match read2(s, 11) {
        Some(d) => d,
        None => {
            return None;
        },
    };
    let mi = match read2(s, 14) {
        Some(d) => d,
        None => {
            return None;
        },
    };
    let se = match read2(s, 17) {
        Some(d) => d,
        None => {
            return None;
        },
    };
    if !(expect_char(s, 4, '-') && expect_char(s, 7, '-') && expect_char(s, 10, 'T')
        && expect_char(s, 13, ':') && expect_char(s, 16, ':')) {
        return None;
    }
    if !(1 <= mo && mo <= 12 && ho <= 23 && mi <= 59 && se <= 59) {
        return None;
    }
    let yv: u32 = y0 * 100 + y1;
    assert(yv == p4(s@, 0));
    if !(1 <= da && da <= days_in_month_exec(yv, mo)) {
        return None;
    }
    let offset_minutes: i32;
    if n == 20 {
        if !expect_char(s, 19, 'Z') {
            return None;
        }
        offset_minutes = 0;
    } else {
        let neg = expect_char(s, 19, '-');
        if !(neg || expect_char(s, 19, '+')) {
            return None;
        }
        let oh = match read2(s, 20) {
            Some(d) => d,
            None => {
                return None;
            },
        };
        let om = match read2(s, 23) {
            Some(d) => d,
            None => {
                return None;
            },
        };
        if !expect_char(s, 22, ':') {
            return None;
        }
        if !(oh <= 23 && om <= 59) {
            return None;
        }
        let m: i32 = (oh as i32) * 60 + (om as i32);
        offset_minutes = if neg {
            -m
        } else {
            m
        };
    }
    let t = Timestamp {
        year: yv as u16,
        month: mo as u8,
        day: da as u8,
        hour: ho as u8,
        minute: mi as u8,
        second: se as u8,
        offset_minutes,
    };
    assert(parse_ok(s@));
    assert(t == parsed_timestamp(s@));
    Some(t)
}

} // verus!

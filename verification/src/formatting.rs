//! Text for the Reference Manager's Size and Date columns.
use vstd::prelude::*;

use crate::text::{decimal, decimal_chars, digit_char, extend_chars, string_of};

verus! {

/// `num / den` rounded to the nearest integer, ties to the even one.
pub open spec fn round_half_even(num: nat, den: nat) -> nat
    recommends
        den > 0,
{
    let q = num / den;
    let r = num % den;
    if 2 * r > den {
        q + 1
    } else if 2 * r < den {
        q
    } else if q % 2 == 0 {
        q
    } else {
        q + 1
    }
}

/// The spacing of `f64` values around `b`: 1 below 2^53, doubling with
/// every further bit.
pub open spec fn f64_ulp(b: nat) -> nat
    decreases b,
{
    if b < 0x20_0000_0000_0000 {
        1
    } else {
        2 * f64_ulp(b / 2)
    }
}

/// The value of `b as f64`: the nearest representable value, ties to even.
pub open spec fn as_f64_value(b: nat) -> nat {
    round_half_even(b, f64_ulp(b)) * f64_ulp(b)
}

/// `t` tenths written with one decimal: `12.3`.
pub open spec fn tenths_text(t: nat) -> Seq<char> {
    decimal(t / 10).push('.').push(digit_char(t % 10))
}

/// The Size column for a byte count: bytes below 1 KiB, then KB, MB and GB
/// with one decimal (binary units, `{:.1}` of the `f64` quotient, which
/// rounds ties to even).
pub open spec fn size_text(size: Option<u64>) -> Seq<char> {
    match size {
        Option::None => seq!['—'],
        Option::Some(b) => if b < 1024 {
            decimal(b as nat) + seq![' ', 'B']
        } else if b < 1024 * 1024 {
            tenths_text(round_half_even(b as nat * 10, 1024)) + seq![' ', 'K', 'B']
        } else if b < 1024 * 1024 * 1024 {
            tenths_text(round_half_even(b as nat * 10, 1024 * 1024)) + seq![' ', 'M', 'B']
        } else {
            tenths_text(round_half_even(as_f64_value(b as nat) * 10, 1024 * 1024 * 1024)) + seq![
                ' ',
                'G',
                'B',
            ]
        },
    }
}

fn round_half_even_exec(num: u128, den: u128) -> (r: u128)
    requires
        den > 0,
        num < 0x1_0000_0000_0000_0000_0000_0000_0000,
    ensures
        r == round_half_even(num as nat, den as nat),
{
    let q = num / den;
    let r = num % den;
    assert(q <= num) by (nonlinear_arith)
        requires
            den > 0,
            q == num / den,
    ;
    if r > den - r {
        q + 1
    } else if r < den - r {
        q
    } else if q % 2 == 0 {
        q
    } else {
        q + 1
    }
}

/// The value of `b as f64`, computed on integers.
fn as_f64_exact(b: u64) -> (v: u128)
    ensures
        v == as_f64_value(b as nat),
        v <= 0x1_0000_0000_0000_0000 * 0x1000,
{
    let mut x: u64 = b;
    let mut ulp: u128 = 1;
    while x >= 0x20_0000_0000_0000
        invariant
            ulp * f64_ulp(x as nat) == f64_ulp(b as nat),
            1 <= ulp <= 0x1000,
            x as nat * ulp <= b,
        decreases x,
    {
        assert(f64_ulp(x as nat) == 2 * f64_ulp((x / 2) as nat));
        assert(ulp * (2 * f64_ulp((x / 2) as nat)) == (ulp * 2) * f64_ulp((x / 2) as nat)) by (nonlinear_arith);
        assert((x / 2) as nat * (ulp * 2) <= x as nat * ulp) by (nonlinear_arith);
        assert(ulp * 2 <= 0x1000) by (nonlinear_arith)
            requires
                x as nat * ulp <= b,
                x >= 0x20_0000_0000_0000,
                b < 0x1_0000_0000_0000_0000,
        ;
        x = x / 2;
        ulp = ulp * 2;
    }
    assert(f64_ulp(x as nat) == 1);
    let q = round_half_even_exec(b as u128, ulp);
    assert(q <= b + 1) by (nonlinear_arith)
        requires
            q == round_half_even(b as nat, ulp as nat),
            ulp >= 1,
    {
        assert(b as nat / ulp as nat <= b);
    }
    assert(q * ulp <= 0x1_0000_0000_0000_0000 * 0x1000) by (nonlinear_arith)
        requires
            q <= b + 1,
            b < 0x1_0000_0000_0000_0000,
            ulp <= 0x1000,
    ;
    assert(ulp == f64_ulp(b as nat)) by (nonlinear_arith)
        requires
            ulp * f64_ulp(x as nat) == f64_ulp(b as nat),
            f64_ulp(x as nat) == 1,
    ;
    q * ulp
}

fn size_suffix(out: &mut Vec<char>, t: u128)
    requires
        t < 0x1_0000_0000_0000_0000_0000,
    ensures
        final(out)@ == old(out)@ + tenths_text(t as nat),
{
    let ghost start = out@;
    extend_chars(out, &decimal_chars(t / 10));
    out.push('.');
    let d = decimal_chars(t % 10);
    assert(decimal((t % 10) as nat) == seq![digit_char((t % 10) as nat)]);
    out.push(d[0]);
    assert(out@ =~= start + tenths_text(t as nat));
}

/// The Size column text for an optional byte count.
pub fn format_size(size_bytes: Option<u64>) -> (r: String)
    ensures
        r@ == size_text(size_bytes),
{
    let mut out: Vec<char> = Vec::new();
    match size_bytes {
        Option::None => {
            out.push('—');
        },
        Option::Some(b) => {
            if b < 1024 {
                out = decimal_chars(b as u128);
                out.push(' ');
                out.push('B');
            } else if b < 1024 * 1024 {
                let t = round_half_even_exec(b as u128 * 10, 1024);
                size_suffix(&mut out, t);
                out.push(' ');
                out.push('K');
                out.push('B');
            } else if b < 1024 * 1024 * 1024 {
                let t = round_half_even_exec(b as u128 * 10, 1024 * 1024);
                size_suffix(&mut out, t);
                out.push(' ');
                out.push('M');
                out.push('B');
            } else {
                let v = as_f64_exact(b);
                let t = round_half_even_exec(v * 10, 1024 * 1024 * 1024);
                size_suffix(&mut out, t);
                out.push(' ');
                out.push('G');
                out.push('B');
            }
        },
    }
    assert(out@ =~= size_text(size_bytes));
    string_of(&out)
}


/// Division truncating toward zero, as `/` on Rust integers does.
pub open spec fn tdiv(a: int, b: int) -> int {
    if a >= 0 {
        a / b
    } else {
        -((-a) / b)
    }
}

/// Proleptic Gregorian `(year, month, day)` of the day `days` after
/// 1970-01-01 (civil-from-days over 400-year eras starting in March).
pub open spec fn civil_from_days(days: int) -> (int, int, int) {
    let z = days + 719468;
    let era = if z >= 0 {
        z / 146097
    } else {
        tdiv(z - 146096, 146097)
    };
    let doe = z - era * 146097;
    let yoe = tdiv(doe - tdiv(doe, 1460) + tdiv(doe, 36524) - tdiv(doe, 146096), 365);
    let y = yoe + era * 400;
    let doy = doe - (365 * yoe + tdiv(yoe, 4) - tdiv(yoe, 100));
    let mp = tdiv(5 * doy + 2, 153);
    let d = doy - tdiv(153 * mp + 2, 5) + 1;
    let m = if mp < 10 {
        mp + 3
    } else {
        mp - 9
    };
    (if m <= 2 {
        y + 1
    } else {
        y
    }, m, d)
}

/// `s` left-padded with `0` to `width` characters.
pub open spec fn zero_pad(s: Seq<char>, width: nat) -> Seq<char> {
    if s.len() >= width {
        s
    } else {
        Seq::new((width - s.len()) as nat, |i: int| '0') + s
    }
}

/// `{:0w}` of an integer: sign first, the sign counting toward the width.
pub open spec fn padded_int(v: int, width: nat) -> Seq<char> {
    if v >= 0 {
        zero_pad(decimal(v as nat), width)
    } else {
        seq!['-'] + zero_pad(decimal((-v) as nat), (width - 1) as nat)
    }
}

/// `YYYY-MM-DD` for a time `secs` seconds after the Unix epoch.
pub open spec fn date_text(secs: int) -> Seq<char> {
    let (y, m, d) = civil_from_days(secs / 86400);
    padded_int(y, 4) + seq!['-'] + padded_int(m, 2) + seq!['-'] + padded_int(d, 2)
}

/// The Date column for an optional time in seconds since the epoch.
pub open spec fn date_text_opt(secs: Option<i64>) -> Seq<char> {
    match secs {
        Option::None => seq!['—'],
        Option::Some(s) => date_text(s as int),
    }
}

fn tdiv_exec(a: i128, b: i128) -> (r: i128)
    requires
        b > 0,
        a > i128::MIN,
    ensures
        r == tdiv(a as int, b as int),
{
    if a >= 0 {
        a / b
    } else {
        -((-a) / b)
    }
}

/// Appends `{:0width}` of `v`.
fn push_padded(out: &mut Vec<char>, v: i128, width: u64)
    requires
        v > i128::MIN,
        1 <= width <= 4,
    ensures
        final(out)@ == old(out)@ + padded_int(v as int, width as nat),
{
    let ghost start = out@;
    let (digits, w) = if v >= 0 {
        (decimal_chars(v as u128), width)
    } else {
        out.push('-');
        (decimal_chars((-v) as u128), width - 1)
    };
    let mut k: u64 = digits.len() as u64;
    while k < w
        invariant
            k <= w || k == digits@.len(),
            digits@.len() <= k,
            out@ == (if v >= 0 { start } else { start.push('-') }) + Seq::new(
                (k - digits@.len()) as nat,
                |i: int| '0',
            ),
        decreases w - k,
    {
        out.push('0');
        k += 1;
        assert(out@ =~= (if v >= 0 { start } else { start.push('-') }) + Seq::new(
            (k - digits@.len()) as nat,
            |i: int| '0',
        ));
    }
    extend_chars(out, &digits);
    assert(out@ =~= start + padded_int(v as int, width as nat));
}

/// The Date column text for a time given as whole seconds since the Unix
/// epoch: `YYYY-MM-DD`, or `—` when there is none.
#[verifier::rlimit(60)]
pub fn format_date(secs: Option<i64>) -> (r: String)
    ensures
        r@ == date_text_opt(secs),
{
    let secs = match secs {
        Option::None => {
            let mut out: Vec<char> = Vec::new();
            out.push('—');
            assert(out@ =~= seq!['—']);
            return string_of(&out);
        },
        Option::Some(s) => s,
    };
    let s = secs as i128;
    let days = if s >= 0 {
        s / 86400
    } else {
        -((-(s + 1)) / 86400) - 1
    };
    assert(days == (secs as int) / 86400) by (nonlinear_arith)
        requires
            s == secs as int,
            s >= 0 ==> days == s / 86400,
            s < 0 ==> days == -((-(s + 1)) / 86400) - 1,
    {
    }
    let z = days + 719468;
    let era = if z >= 0 {
        z / 146097
    } else {
        tdiv_exec(z - 146096, 146097)
    };
    let doe = z - era * 146097;
    let yoe = tdiv_exec(
        doe - tdiv_exec(doe, 1460) + tdiv_exec(doe, 36524) - tdiv_exec(doe, 146096),
        365,
    );
    let y = yoe + era * 400;
    let doy = doe - (365 * yoe + tdiv_exec(yoe, 4) - tdiv_exec(yoe, 100));
    let mp = tdiv_exec(5 * doy + 2, 153);
    let d = doy - tdiv_exec(153 * mp + 2, 5) + 1;
    let m = if mp < 10 {
        mp + 3
    } else {
        mp - 9
    };
    let year = if m <= 2 {
        y + 1
    } else {
        y
    };
    let mut out: Vec<char> = Vec::new();
    push_padded(&mut out, year, 4);
    out.push('-');
    push_padded(&mut out, m, 2);
    out.push('-');
    push_padded(&mut out, d, 2);
    assert(out@ =~= date_text(secs as int));
    string_of(&out)
}


/// A Gregorian leap year: divisible by 4, and by 400 when by 100.
pub open spec fn is_leap_year(year: int) -> bool {
    year % 4 == 0 && (year % 100 != 0 || year % 400 == 0)
}

/// The number of days of `month` (1 to 12) in `year`.
pub open spec fn days_in_month(year: int, month: int) -> int {
    if month == 2 {
        if is_leap_year(year) {
            29
        } else {
            28
        }
    } else if month == 4 || month == 6 || month == 9 || month == 11 {
        30
    } else {
        31
    }
}

/// The first day of the March-based year `y` of a 400-year era, counted
/// in days from the era's first day.
spec fn year_start(y: int) -> int {
    365 * y + y / 4 - y / 100
}

/// The count that, divided by 365, gives the year of the era holding the
/// era's day `doe`.
spec fn era_day_count(doe: int) -> int {
    doe - doe / 1460 + doe / 36524 - doe / 146096
}

/// The last day of the March-based year `yoe` of an era is its day 365
/// exactly when the February that ends it has 29 days.
spec fn era_year_is_long(yoe: int) -> bool {
    (yoe + 1) % 4 == 0 && ((yoe + 1) % 100 != 0 || yoe == 399)
}

/// Day `doe` of an era lies in the era year `era_day_count(doe) / 365`.
proof fn lemma_year_of_era(doe: int)
    requires
        0 <= doe <= 146096,
    ensures
        0 <= era_day_count(doe) / 365 <= 399,
        0 <= doe - year_start(era_day_count(doe) / 365),
        doe - year_start(era_day_count(doe) / 365) <= (if era_year_is_long(era_day_count(doe) / 365) {
            365int
        } else {
            364int
        }),
{
}


/// The length of the month `mp` of a March-based year (0 is March, 11 is
/// February).
spec fn march_month_length(mp: int, long: bool) -> int {
    if mp == 11 {
        if long {
            29
        } else {
            28
        }
    } else if mp == 1 || mp == 3 || mp == 6 || mp == 8 {
        30
    } else {
        31
    }
}

/// The month and day that the day `doy` of a March-based year falls on.
proof fn lemma_month_of_year(doy: int, long: bool)
    requires
        0 <= doy <= (if long {
            365int
        } else {
            364int
        }),
    ensures
        0 <= (5 * doy + 2) / 153 <= 11,
        1 <= doy - (153 * ((5 * doy + 2) / 153) + 2) / 5 + 1,
        doy - (153 * ((5 * doy + 2) / 153) + 2) / 5 + 1 <= march_month_length((5 * doy + 2) / 153, long),
{
}

/// Adding a multiple of 400 years keeps a year's leap status.
proof fn lemma_leap_year_shift(era: int, k: int)
    ensures
        is_leap_year(era * 400 + k) == is_leap_year(k),
{
    assert(era * 400 == 4 * (era * 100)) by (nonlinear_arith);
    assert(era * 400 == 100 * (era * 4)) by (nonlinear_arith);
    assert(era * 400 == 400 * era) by (nonlinear_arith);
    vstd::arithmetic::div_mod::lemma_mod_multiples_vanish(era * 100, k, 4);
    vstd::arithmetic::div_mod::lemma_mod_multiples_vanish(era * 4, k, 100);
    vstd::arithmetic::div_mod::lemma_mod_multiples_vanish(era, k, 400);
}

/// Every day counted from 1970-01-01 falls on a calendar date: its month
/// runs from 1 to 12 and its day from 1 to the length of that month in
/// that year.
pub proof fn lemma_civil_date_is_valid(days: int)
    ensures
        ({
            let (y, m, d) = civil_from_days(days);
            1 <= m <= 12 && 1 <= d <= days_in_month(y, m)
        }),
{
    let z = days + 719468;
    let era = if z >= 0 {
        z / 146097
    } else {
        tdiv(z - 146096, 146097)
    };
    let doe = z - era * 146097;
    assert(0 <= doe <= 146096);
    let c = era_day_count(doe);
    assert(tdiv(doe, 1460) == doe / 1460 && tdiv(doe, 36524) == doe / 36524 && tdiv(doe, 146096) == doe / 146096);
    assert(c >= 0);
    lemma_year_of_era(doe);
    let yoe = c / 365;
    assert(tdiv(c, 365) == yoe);
    assert(tdiv(yoe, 4) == yoe / 4 && tdiv(yoe, 100) == yoe / 100);
    let doy = doe - year_start(yoe);
    let long = era_year_is_long(yoe);
    lemma_month_of_year(doy, long);
    let mp = (5 * doy + 2) / 153;
    assert(tdiv(5 * doy + 2, 153) == mp);
    assert(tdiv(153 * mp + 2, 5) == (153 * mp + 2) / 5);
    lemma_leap_year_shift(era, yoe + 1);
    assert(is_leap_year(yoe + 1) == long);
    assert(era * 400 + (yoe + 1) == yoe + era * 400 + 1);
}

/// The calendar date after `date`.
pub open spec fn next_date(date: (int, int, int)) -> (int, int, int) {
    let (y, m, d) = date;
    if d < days_in_month(y, m) {
        (y, m, d + 1)
    } else if m < 12 {
        (y, m + 1, 1)
    } else {
        (y + 1, 1, 1)
    }
}

/// The era (400 years from a March 1st) holding the day `z` counted from
/// 0000-03-01.
spec fn era_of(z: int) -> int {
    if z >= 0 {
        z / 146097
    } else {
        tdiv(z - 146096, 146097)
    }
}

/// The date on the day `doy` of the March-based year `yoe` of era `era`.
spec fn era_date(era: int, yoe: int, doy: int) -> (int, int, int) {
    let mp = (5 * doy + 2) / 153;
    let d = doy - (153 * mp + 2) / 5 + 1;
    let m = if mp < 10 {
        mp + 3
    } else {
        mp - 9
    };
    (if m <= 2 {
        yoe + era * 400 + 1
    } else {
        yoe + era * 400
    }, m, d)
}

/// `civil_from_days` taken apart into its era, year of era and day of year.
proof fn lemma_civil_parts(days: int)
    ensures
        0 <= (days + 719468) - era_of(days + 719468) * 146097 <= 146096,
        ({
            let doe = (days + 719468) - era_of(days + 719468) * 146097;
            let yoe = era_day_count(doe) / 365;
            civil_from_days(days) == era_date(era_of(days + 719468), yoe, doe - year_start(yoe))
        }),
{
    let z = days + 719468;
    let era = era_of(z);
    let doe = z - era * 146097;
    assert(0 <= doe <= 146096);
    let c = era_day_count(doe);
    assert(tdiv(doe, 1460) == doe / 1460 && tdiv(doe, 36524) == doe / 36524 && tdiv(doe, 146096) == doe / 146096);
    lemma_year_of_era(doe);
    let yoe = c / 365;
    assert(tdiv(c, 365) == yoe);
    assert(tdiv(yoe, 4) == yoe / 4 && tdiv(yoe, 100) == yoe / 100);
    let doy = doe - year_start(yoe);
    lemma_month_of_year(doy, era_year_is_long(yoe));
    let mp = (5 * doy + 2) / 153;
    assert(tdiv(5 * doy + 2, 153) == mp);
    assert(tdiv(153 * mp + 2, 5) == (153 * mp + 2) / 5);
}

/// Within an era, the day after `doe` is either the next day of the same
/// year, or the first day of the next year when `doe` ends its year.
proof fn lemma_next_day_of_era(doe: int)
    requires
        0 <= doe < 146096,
    ensures
        ({
            let y0 = era_day_count(doe) / 365;
            let y1 = era_day_count(doe + 1) / 365;
            let last = if era_year_is_long(y0) {
                365int
            } else {
                364int
            };
            (y1 == y0 && doe - year_start(y0) < last) || (y1 == y0 + 1 && doe - year_start(y0) == last
                && doe + 1 - year_start(y1) == 0)
        }),
{
    lemma_year_of_era(doe);
    lemma_year_of_era(doe + 1);
}

/// Within a March-based year, the day after `doy` has the next date.
proof fn lemma_next_day_of_year(era: int, yoe: int, doy: int)
    requires
        0 <= yoe <= 399,
        0 <= doy < (if era_year_is_long(yoe) {
            365int
        } else {
            364int
        }),
    ensures
        era_date(era, yoe, doy + 1) == next_date(era_date(era, yoe, doy)),
{
    let long = era_year_is_long(yoe);
    lemma_month_of_year(doy, long);
    lemma_month_of_year(doy + 1, long);
    lemma_leap_year_shift(era, yoe + 1);
    assert(era * 400 + (yoe + 1) == yoe + era * 400 + 1);
}

/// The day after a day counted from 1970-01-01 has the next calendar date:
/// the dates run day by day through the Gregorian calendar.
pub proof fn lemma_civil_next_day(days: int)
    ensures
        civil_from_days(days + 1) == next_date(civil_from_days(days)),
{
    lemma_civil_parts(days);
    lemma_civil_parts(days + 1);
    let z = days + 719468;
    let era = era_of(z);
    let doe = z - era * 146097;
    let yoe = era_day_count(doe) / 365;
    let doy = doe - year_start(yoe);
    lemma_year_of_era(doe);
    if doe < 146096 {
        assert(era_of(z + 1) == era);
        lemma_next_day_of_era(doe);
        let y1 = era_day_count(doe + 1) / 365;
        if y1 == yoe {
            lemma_next_day_of_year(era, yoe, doy);
        } else {
            let long = era_year_is_long(yoe);
            lemma_month_of_year(doy, long);
            lemma_leap_year_shift(era, yoe + 1);
            assert(era * 400 + (yoe + 1) == yoe + era * 400 + 1);
            assert(era_date(era, y1, 0) == (yoe + 1 + era * 400, 3int, 1int));
        }
    } else {
        assert(era_of(z + 1) == era + 1);
        assert(era_day_count(0) / 365 == 0);
        assert(yoe == 399);
        lemma_leap_year_shift(era, 400);
        assert(era * 400 + 400 == 399 + era * 400 + 1);
        assert((era + 1) * 400 == era * 400 + 400) by (nonlinear_arith);
        assert(era_date(era + 1, 0, 0) == ((era + 1) * 400, 3int, 1int));
    }
}

/// Day 0 is 1970-01-01.
pub proof fn lemma_civil_epoch()
    ensures
        civil_from_days(0) == (1970int, 1int, 1int),
{
    lemma_civil_parts(0);
}

} // verus!

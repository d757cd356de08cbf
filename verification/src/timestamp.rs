//! UTC timestamps: the civil date and time of a count of seconds since
//! 1970-01-01T00:00:00Z, in the proleptic Gregorian calendar.
use vstd::prelude::*;
use crate::text::{decimal, u64_decimal};

verus! {

/// Whether `y` is a leap year.
pub open spec fn leap(y: int) -> bool {
    y % 4 == 0 && (y % 100 != 0 || y % 400 == 0)
}

/// The number of days in year `y`.
pub open spec fn year_len(y: int) -> nat {
    if leap(y) {
        366
    } else {
        365
    }
}

/// The number of days in month `m` (1 to 12) of year `y`.
pub open spec fn month_len(y: int, m: int) -> nat {
    if m == 2 {
        if leap(y) {
            29
        } else {
            28
        }
    } else if m == 4 || m == 6 || m == 9 || m == 11 {
        30
    } else {
        31
    }
}

/// The date `days` days into year `y` from the first of month `m`:
/// whole months are counted off in turn.
pub open spec fn date_in_year(days: nat, y: int, m: int) -> (int, int, int)
    decreases 12 - m,
{
    if m >= 12 || days < month_len(y, m) {
        (y, m, days + 1int)
    } else {
        date_in_year((days - month_len(y, m)) as nat, y, m + 1)
    }
}

/// The date `days` days after the first of January of year `y`: whole
/// years are counted off in turn, then whole months.
pub open spec fn civil_date(days: nat, y: int) -> (int, int, int)
    decreases days,
{
    if days < year_len(y) {
        date_in_year(days, y, 1)
    } else {
        civil_date((days - year_len(y)) as nat, y + 1)
    }
}

/// `n` in decimal, with leading zeros up to `width` digits.
pub open spec fn padded(n: nat, width: nat) -> Seq<char> {
    if decimal(n).len() >= width {
        decimal(n)
    } else {
        Seq::new((width - decimal(n).len()) as nat, |i: int| '0') + decimal(n)
    }
}

/// The timestamp text of `secs` seconds after the epoch:
/// `YYYY-MM-DDTHH:MM:SSZ`.
pub open spec fn timestamp_text(secs: nat) -> Seq<char> {
    let (y, m, d) = civil_date(secs / 86400, 1970);
    let rem = secs % 86400;
    padded(y as nat, 4) + "-"@ + padded(m as nat, 2) + "-"@ + padded(d as nat, 2) + "T"@ + padded(rem / 3600, 2)
        + ":"@ + padded((rem % 3600) / 60, 2) + ":"@ + padded(rem % 60, 2) + "Z"@
}

fn padded_decimal(n: u64, width: usize) -> (r: String)
    ensures
        r@ == padded(n as nat, width as nat),
{
    let digits = u64_decimal(n);
    let len = digits.unicode_len();
    let mut out = String::new();
    let mut k: usize = len;
    proof {
        assert(out@ =~= Seq::new(0, |i: int| '0'));
    }
    while k < width
        invariant
            len == decimal(n as nat).len(),
            digits@ == decimal(n as nat),
            len <= k,
            k <= width || k == len,
            out@ == Seq::new((k - len) as nat, |i: int| '0'),
        decreases width - k,
    {
        let ghost before = out@;
        out.append("0");
        proof {
            reveal_strlit("0");
            assert(out@ =~= Seq::new((k + 1 - len) as nat, |i: int| '0'));
        }
        k += 1;
    }
    out.append(digits.as_str());
    proof {
        if len >= width {
            assert(out@ =~= decimal(n as nat));
        } else {
            assert(out@ =~= padded(n as nat, width as nat));
        }
    }
    out
}

/// The civil date `days` days after 1970-01-01, as (year, month, day).
fn civil_date_of(days: u64) -> (r: (u64, u64, u64))
    ensures
        (r.0 as int, r.1 as int, r.2 as int) == civil_date(days as nat, 1970),
{
    let mut rest: u64 = days;
    let mut y: u64 = 1970;
    loop
        invariant
            civil_date(rest as nat, y as int) == civil_date(days as nat, 1970),
            1970 <= y,
            (y - 1970) * 365 <= days - rest,
            rest <= days,
        ensures
            civil_date(rest as nat, y as int) == civil_date(days as nat, 1970),
            rest < year_len(y as int),
        decreases rest,
    {
        let len: u64 = if y % 4 == 0 && (y % 100 != 0 || y % 400 == 0) {
            366
        } else {
            365
        };
        if rest < len {
            break;
        }
        rest = rest - len;
        y = y + 1;
    }
    let mut m: u64 = 1;
    loop
        invariant
            date_in_year(rest as nat, y as int, m as int) == civil_date(days as nat, 1970),
            1 <= m <= 12,
            rest < 366,
        ensures
            date_in_year(rest as nat, y as int, m as int) == civil_date(days as nat, 1970),
            m >= 12 || rest < month_len(y as int, m as int),
            1 <= m <= 12,
            rest < 366,
        decreases 12 - m,
    {
        let len: u64 = if m == 2 {
            if y % 4 == 0 && (y % 100 != 0 || y % 400 == 0) {
                29
            } else {
                28
            }
        } else if m == 4 || m == 6 || m == 9 || m == 11 {
            30
        } else {
            31
        };
        if m >= 12 || rest < len {
            break;
        }
        rest = rest - len;
        m = m + 1;
    }
    (y, m, rest + 1)
}

/// The timestamp text of `secs` seconds after the epoch, as
/// `YYYY-MM-DDTHH:MM:SSZ`.
pub fn utc_timestamp(secs: u64) -> (r: String)
    ensures
        r@ == timestamp_text(secs as nat),
{
    let (y, m, d) = civil_date_of(secs / 86400);
    let rem = secs % 86400;
    let mut t = padded_decimal(y, 4);
    t.append("-");
    t.append(padded_decimal(m, 2).as_str());
    t.append("-");
    t.append(padded_decimal(d, 2).as_str());
    t.append("T");
    t.append(padded_decimal(rem / 3600, 2).as_str());
    t.append(":");
    t.append(padded_decimal((rem % 3600) / 60, 2).as_str());
    t.append(":");
    t.append(padded_decimal(rem % 60, 2).as_str());
    t.append("Z");
    t
}

} // verus!

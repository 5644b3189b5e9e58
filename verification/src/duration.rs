use vstd::prelude::*;
use crate::text::{decimal, digit_char, push_char, push_decimal};

verus! {

pub const NANOS_PER_SEC: u32 = 1_000_000_000;
pub const SECS_PER_MINUTE: u64 = 60;
pub const MINUTES_PER_HOUR: u64 = 60;
pub const HOURS_PER_DAY: u64 = 24;
pub const DAYS_PER_YEAR: u64 = 364;
pub const SECS_PER_HOUR: u64 = 3600;
pub const SECS_PER_DAY: u64 = 86400;
pub const SECS_PER_YEAR: u64 = 31449600;

/// A span of time: whole seconds and the nanoseconds below one second, as
/// `std::time::Duration` holds it.
#[derive(Clone, Copy, Debug)]
pub struct Duration {
    secs: u64,
    nanos: u32,
}

impl Duration {
    #[verifier::type_invariant]
    spec fn nanos_below_one_second(self) -> bool {
        self.nanos < NANOS_PER_SEC
    }

    /// Whole seconds of the span.
    pub closed spec fn secs(self) -> u64 {
        self.secs
    }

    /// Nanoseconds of the span below one second.
    pub closed spec fn nanos(self) -> u32 {
        self.nanos
    }

    /// The span in nanoseconds.
    pub open spec fn total_nanos(self) -> nat {
        (self.secs() as nat) * (NANOS_PER_SEC as nat) + (self.nanos() as nat)
    }

    /// `secs` whole seconds and `nanos` further nanoseconds; nanoseconds of a
    /// second or more carry into the seconds (`Duration::new`).
    pub fn new(secs: u64, nanos: u32) -> (d: Duration)
        requires
            secs + nanos / NANOS_PER_SEC <= u64::MAX,
        ensures
            d.secs() == secs + nanos / NANOS_PER_SEC,
            d.nanos() == nanos % NANOS_PER_SEC,
    {
        let extra: u64 = (nanos / NANOS_PER_SEC) as u64;
        Duration { secs: secs + extra, nanos: nanos % NANOS_PER_SEC }
    }

    /// A span of whole seconds.
    pub fn from_secs(secs: u64) -> (d: Duration)
        ensures
            d.secs() == secs,
            d.nanos() == 0,
    {
        Duration { secs, nanos: 0 }
    }

    pub fn as_secs(&self) -> (r: u64)
        ensures
            r == self.secs(),
    {
        self.secs
    }

    pub fn subsec_nanos(&self) -> (r: u32)
        ensures
            r == self.nanos(),
            r < NANOS_PER_SEC,
    {
        proof {
            use_type_invariant(self);
        }
        self.nanos
    }

    /// The span multiplied by `rhs` (`Duration * u32`); the product must fit.
    pub fn mul_u32(self, rhs: u32) -> (d: Duration)
        requires
            self.secs() * rhs + (self.nanos() as int * rhs) / (NANOS_PER_SEC as int) <= u64::MAX,
        ensures
            d.secs() == self.secs() * rhs + (self.nanos() as int * rhs) / (NANOS_PER_SEC as int),
            d.nanos() == (self.nanos() as int * rhs) % (NANOS_PER_SEC as int),
            d.total_nanos() == self.total_nanos() * rhs,
    {
        proof {
            use_type_invariant(self);
        }
        let n: u64 = self.nanos as u64;
        let r: u64 = rhs as u64;
        assert(n * r < 1_000_000_000 * 4_294_967_296u64) by (nonlinear_arith)
            requires
                n < 1_000_000_000,
                r < 4_294_967_296u64,
        ;
        let total_nanos: u64 = n * r;
        let extra: u64 = total_nanos / (NANOS_PER_SEC as u64);
        let nanos: u32 = (total_nanos % (NANOS_PER_SEC as u64)) as u32;
        assert(self.secs * r <= u64::MAX) by (nonlinear_arith)
            requires
                self.secs * r + extra <= u64::MAX,
        ;
        let secs: u64 = self.secs * r + extra;
        let d = Duration { secs, nanos };
        assert(d.total_nanos() == self.total_nanos() * rhs) by (nonlinear_arith)
            requires
                d.total_nanos() == (secs as nat) * 1_000_000_000 + nanos,
                self.total_nanos() == (self.secs as nat) * 1_000_000_000 + n,
                secs == self.secs * r + extra,
                extra == (n * r) / 1_000_000_000,
                nanos == (n * r) % 1_000_000_000,
                r == rhs,
        ;
        d
    }
}

/// Day of the 364-day year `(secs / SECS_PER_DAY) % DAYS_PER_YEAR`.
pub open spec fn day_of_year(secs: nat) -> nat {
    (secs / (SECS_PER_DAY as nat)) % (DAYS_PER_YEAR as nat)
}

/// The month (0 to 11) that a day of the 364-day year falls in: the months
/// start on days 0, 30, 60, 91, 121, 151, 182, 212, 242, 273, 303 and 333.
pub open spec fn month_of_day(day: nat) -> nat {
    if day <= 29 {
        0
    } else if day <= 59 {
        1
    } else if day <= 90 {
        2
    } else if day <= 120 {
        3
    } else if day <= 150 {
        4
    } else if day <= 181 {
        5
    } else if day <= 211 {
        6
    } else if day <= 241 {
        7
    } else if day <= 272 {
        8
    } else if day <= 302 {
        9
    } else if day <= 332 {
        10
    } else {
        11
    }
}

/// The first day of month `m` of the 364-day year.
pub open spec fn month_start(m: nat) -> nat {
    if m == 0 {
        0
    } else if m == 1 {
        30
    } else if m == 2 {
        60
    } else if m == 3 {
        91
    } else if m == 4 {
        121
    } else if m == 5 {
        151
    } else if m == 6 {
        182
    } else if m == 7 {
        212
    } else if m == 8 {
        242
    } else if m == 9 {
        273
    } else if m == 10 {
        303
    } else {
        333
    }
}

/// Splitting of a span of whole seconds into years of 364 days, months of the
/// month table, days, hours, minutes and seconds.
pub trait MinDayMonthYears {
    /// The whole seconds of the span.
    spec fn whole_secs(&self) -> nat;

    fn submin_secs(&self) -> (r: u64)
        ensures
            r == self.whole_secs() % 60,
    ;

    fn as_minutes(&self) -> (r: u64)
        ensures
            r == self.whole_secs() / 60,
    ;

    fn subhour_minutes(&self) -> (r: u64)
        ensures
            r == (self.whole_secs() / 60) % 60,
    ;

    fn as_hours(&self) -> (r: u64)
        ensures
            r == self.whole_secs() / 3600,
    ;

    fn subday_hours(&self) -> (r: u64)
        ensures
            r == (self.whole_secs() / 3600) % 24,
    ;

    fn as_days(&self) -> (r: u64)
        ensures
            r == self.whole_secs() / 86400,
    ;

    fn subyear_days(&self) -> (r: u64)
        ensures
            r == day_of_year(self.whole_secs()),
    ;

    fn submonth_days(&self) -> (r: u64)
        ensures
            r == day_of_year(self.whole_secs()) - month_start(
                month_of_day(day_of_year(self.whole_secs())),
            ),
    ;

    fn as_months(&self) -> (r: u64)
        ensures
            r == (self.whole_secs() / 31449600) * 12 + month_of_day(day_of_year(self.whole_secs())),
    ;

    fn subyear_months(&self) -> (r: u64)
        ensures
            r == month_of_day(day_of_year(self.whole_secs())),
    ;

    fn as_years(&self) -> (r: u64)
        ensures
            r == self.whole_secs() / 31449600,
    ;
}

impl MinDayMonthYears for Duration {
    open spec fn whole_secs(&self) -> nat {
        self.secs() as nat
    }

    fn submin_secs(&self) -> (r: u64) {
        self.as_secs() % SECS_PER_MINUTE
    }

    fn as_minutes(&self) -> (r: u64) {
        self.as_secs() / SECS_PER_MINUTE
    }

    fn subhour_minutes(&self) -> (r: u64) {
        self.as_minutes() % MINUTES_PER_HOUR
    }

    fn as_hours(&self) -> (r: u64) {
        self.as_secs() / SECS_PER_HOUR
    }

    fn subday_hours(&self) -> (r: u64) {
        self.as_hours() % HOURS_PER_DAY
    }

    fn as_days(&self) -> (r: u64) {
        self.as_secs() / SECS_PER_DAY
    }

    fn subyear_days(&self) -> (r: u64) {
        self.as_days() % DAYS_PER_YEAR
    }

    fn submonth_days(&self) -> (r: u64) {
        let days = self.subyear_days();
        if days <= 29 {
            days - 0
        } else if days <= 59 {
            days - 30
        } else if days <= 90 {
            days - 60
        } else if days <= 120 {
            days - 91
        } else if days <= 150 {
            days - 121
        } else if days <= 181 {
            days - 151
        } else if days <= 211 {
            days - 182
        } else if days <= 241 {
            days - 212
        } else if days <= 272 {
            days - 242
        } else if days <= 302 {
            days - 273
        } else if days <= 332 {
            days - 303
        } else {
            days - 333
        }
    }

    fn as_months(&self) -> (r: u64) {
        let years = self.as_years();
        assert(years <= 586549402018u64) by {
            assert(self.secs() / 31449600 <= u64::MAX / 31449600);
        }
        years * 12 + self.subyear_months()
    }

    fn subyear_months(&self) -> (r: u64) {
        let days = self.subyear_days();
        if days <= 29 {
            0
        } else if days <= 59 {
            1
        } else if days <= 90 {
            2
        } else if days <= 120 {
            3
        } else if days <= 150 {
            4
        } else if days <= 181 {
            5
        } else if days <= 211 {
            6
        } else if days <= 241 {
            7
        } else if days <= 272 {
            8
        } else if days <= 302 {
            9
        } else if days <= 332 {
            10
        } else {
            11
        }
    }

    fn as_years(&self) -> (r: u64) {
        self.as_secs() / SECS_PER_YEAR
    }
}

/// A span of whole seconds is the sum of its years, days of the year, hours
/// of the day, minutes of the hour and seconds of the minute; the days of the
/// year are the start of their month plus the days of the month, which are
/// fewer than 31, and there are 12 months.
pub proof fn law_ymd_decomposition(secs: nat)
    ensures
        secs == (secs / (SECS_PER_YEAR as nat)) * (SECS_PER_YEAR as nat) + day_of_year(secs)
            * (SECS_PER_DAY as nat) + ((secs / 3600) % 24) * 3600 + ((secs / 60) % 60) * 60 + secs
            % 60,
        month_start(month_of_day(day_of_year(secs))) <= day_of_year(secs),
        day_of_year(secs) - month_start(month_of_day(day_of_year(secs))) < 31,
        month_of_day(day_of_year(secs)) < 12,
{
    let m = secs / 60;
    let h = secs / 3600;
    let d = secs / 86400;
    let y = secs / 31449600;
    assert(secs == 60 * m + secs % 60) by (nonlinear_arith)
        requires m == secs / 60;
    assert(m / 60 == h && m == 60 * h + m % 60) by (nonlinear_arith)
        requires m == secs / 60, h == secs / 3600;
    assert(h / 24 == d && h == 24 * d + h % 24) by (nonlinear_arith)
        requires h == secs / 3600, d == secs / 86400;
    assert(d / 364 == y && d == 364 * y + d % 364) by (nonlinear_arith)
        requires d == secs / 86400, y == secs / 31449600;
    assert(m % 60 == (secs / 60) % 60);
    assert(secs == y * 31449600 + (d % 364) * 86400 + (h % 24) * 3600 + (m % 60) * 60 + secs % 60)
        by (nonlinear_arith)
        requires
            secs == 60 * m + secs % 60,
            m == 60 * h + m % 60,
            h == 24 * d + h % 24,
            d == 364 * y + d % 364,
    ;
}

/// `decimal(n)` followed by `unit` when `n` is not zero, else nothing.
pub open spec fn unit_part(n: nat, unit: Seq<char>) -> Seq<char> {
    if n == 0 {
        Seq::empty()
    } else {
        decimal(n) + unit
    }
}

/// The Japanese rendering of a span of `secs` whole seconds: the non-zero
/// amounts of years (年), months (ヶ月), days (日) and hours (時間), then
/// minutes and seconds (分, 秒) when the minutes are not zero, else the
/// seconds (秒) when they are not zero; "0秒" when all of them are zero.
#[verifier::opaque]
pub open spec fn ymd_text(secs: nat) -> Seq<char> {
    let years = secs / (SECS_PER_YEAR as nat);
    let day = day_of_year(secs);
    let months = month_of_day(day);
    let days = (day - month_start(months)) as nat;
    let hours = (secs / 3600) % 24;
    let minutes = (secs / 60) % 60;
    let seconds = secs % 60;
    let body = unit_part(years, seq!['年']) + unit_part(months, seq!['ヶ', '月'])
        + unit_part(days, seq!['日']) + unit_part(hours, seq!['時', '間'])
        + if minutes != 0 {
            decimal(minutes) + seq!['分'] + decimal(seconds) + seq!['秒']
        } else {
            unit_part(seconds, seq!['秒'])
        };
    if body.len() == 0 {
        seq!['0', '秒']
    } else {
        body
    }
}

fn push_unit_part(s: &mut String, n: u64, u1: char, u2: Option<char>)
    ensures
        final(s)@ == old(s)@ + unit_part(
            n as nat,
            match u2 {
                Some(c2) => seq![u1, c2],
                None => seq![u1],
            },
        ),
{
    if n != 0 {
        push_decimal(s, n);
        push_char(s, u1);
        match u2 {
            Some(c2) => push_char(s, c2),
            None => {},
        }
    }
    assert(final(s)@ =~= old(s)@ + unit_part(
        n as nat,
        match u2 {
            Some(c2) => seq![u1, c2],
            None => seq![u1],
        },
    ));
}

/// Renders a span as years, months, days, hours, minutes and seconds.
pub fn ymd_to_string(dur: Duration) -> (result: String)
    ensures
        result@ == ymd_text(dur.secs() as nat),
{
    reveal(ymd_text);
    let mut result = String::new();
    push_unit_part(&mut result, dur.as_years(), '年', None);
    push_unit_part(&mut result, dur.subyear_months(), 'ヶ', Some('月'));
    push_unit_part(&mut result, dur.submonth_days(), '日', None);
    push_unit_part(&mut result, dur.subday_hours(), '時', Some('間'));
    let minutes = dur.subhour_minutes();
    let seconds = dur.submin_secs();
    if minutes != 0 {
        push_decimal(&mut result, minutes);
        push_char(&mut result, '分');
        push_decimal(&mut result, seconds);
        push_char(&mut result, '秒');
    } else {
        push_unit_part(&mut result, seconds, '秒', None);
    }
    if result.as_str().is_empty() {
        push_char(&mut result, '0');
        push_char(&mut result, '秒');
    }
    assert(result@ =~= ymd_text(dur.secs() as nat));
    result
}

proof fn lemma_decimal_digits(n: nat)
    ensures
        decimal(n).len() >= 1,
        forall|i: int| 0 <= i < decimal(n).len() ==> '0' <= #[trigger] decimal(n)[i] <= '9',
    decreases n,
{
    if n >= 10 {
        lemma_decimal_digits(n / 10);
        assert(decimal(n) == decimal(n / 10).push(digit_char((n % 10) as int)));
    }
}

proof fn lemma_concat_contains(a: Seq<char>, b: Seq<char>, c: char)
    ensures
        (a + b).contains(c) <==> (a.contains(c) || b.contains(c)),
{
    if (a + b).contains(c) {
        let i = choose|i: int| 0 <= i < (a + b).len() && (a + b)[i] == c;
        if i < a.len() {
            assert(a[i] == c);
        } else {
            assert(b[i - a.len()] == c);
        }
    }
    if a.contains(c) {
        let i = choose|i: int| 0 <= i < a.len() && a[i] == c;
        assert((a + b)[i] == c);
    }
    if b.contains(c) {
        let i = choose|i: int| 0 <= i < b.len() && b[i] == c;
        assert((a + b)[a.len() + i] == c);
    }
}

proof fn lemma_no_unit_in_decimal(n: nat, c: char)
    requires
        c > '9',
    ensures
        !decimal(n).contains(c),
{
    lemma_decimal_digits(n);
}

proof fn lemma_lit1_contains(a: char, c: char)
    ensures
        seq![a].contains(c) <==> c == a,
{
    if c == a {
        assert(seq![a][0] == c);
    }
}

proof fn lemma_lit2_contains(a: char, b: char, c: char)
    ensures
        seq![a, b].contains(c) <==> (c == a || c == b),
{
    if c == a {
        assert(seq![a, b][0] == c);
    }
    if c == b {
        assert(seq![a, b][1] == c);
    }
}

/// Whether the text of a unit part has the character `c`, for a character
/// that is no digit: exactly when the amount is not zero and the unit has it.
proof fn lemma_unit_part_contains(n: nat, unit: Seq<char>, c: char)
    requires
        c > '9',
    ensures
        unit_part(n, unit).contains(c) <==> (n != 0 && unit.contains(c)),
{
    if n != 0 {
        lemma_concat_contains(decimal(n), unit, c);
        lemma_no_unit_in_decimal(n, c);
    }
}

/// The parts of the rendering of a span of `secs` whole seconds, each told
/// by its own unit: the text names years (年) exactly when there are whole
/// years, months (ヶ月) exactly when there are whole months in the year,
/// days (日) exactly when there are days in the month, hours (時間) exactly
/// when there are hours in the day, and minutes (分) exactly when there are
/// minutes in the hour; with minutes it ends with the minutes and the
/// seconds of the minute, without them it ends with the seconds when there
/// are any; it starts with the years when there are any; and a span of no
/// seconds at all is "0秒".
pub proof fn law_ymd_text_parts(secs: nat)
    ensures
        ({
            let text = ymd_text(secs);
            let years = secs / 31449600;
            let day = (secs / 86400) % 364;
            let months = month_of_day(day);
            let days = day - month_start(months);
            let hours = (secs / 3600) % 24;
            let minutes = (secs / 60) % 60;
            let seconds = secs % 60;
            &&& text.contains('年') <==> years != 0
            &&& text.contains('月') <==> months != 0
            &&& text.contains('日') <==> days != 0
            &&& text.contains('時') <==> hours != 0
            &&& text.contains('分') <==> minutes != 0
            &&& minutes != 0 ==> (decimal(minutes as nat) + seq!['分'] + decimal(seconds as nat) + seq![
                '秒',
            ]).is_suffix_of(text)
            &&& minutes == 0 && seconds != 0 ==> (decimal(seconds as nat) + seq!['秒']).is_suffix_of(text)
            &&& years != 0 ==> (decimal(years as nat) + seq!['年']).is_prefix_of(text)
            &&& secs == 0 ==> text == seq!['0', '秒']
        }),
{
    reveal(ymd_text);
    let years = secs / 31449600;
    let day = day_of_year(secs);
    let months = month_of_day(day);
    let days = (day - month_start(months)) as nat;
    let hours = (secs / 3600) % 24;
    let minutes = (secs / 60) % 60;
    let seconds = secs % 60;
    law_ymd_decomposition(secs);
    let p1 = unit_part(years, seq!['年']);
    let p2 = unit_part(months, seq!['ヶ', '月']);
    let p3 = unit_part(days, seq!['日']);
    let p4 = unit_part(hours, seq!['時', '間']);
    let tail = if minutes != 0 {
        decimal(minutes) + seq!['分'] + decimal(seconds) + seq!['秒']
    } else {
        unit_part(seconds, seq!['秒'])
    };
    let body = p1 + p2 + p3 + p4 + tail;
    let text = ymd_text(secs);
    assert(text == if body.len() == 0 {
        seq!['0', '秒']
    } else {
        body
    });
    lemma_decimal_digits(years);
    lemma_decimal_digits(minutes);
    lemma_decimal_digits(seconds);
    lemma_decimal_digits(months);
    lemma_decimal_digits(days);
    lemma_decimal_digits(hours);
    if secs == 0 {
        assert(body.len() == 0);
    }
    let any = years != 0 || months != 0 || days != 0 || hours != 0 || minutes != 0 || seconds != 0;
    if any {
        assert(body.len() > 0);
    } else {
        assert(body.len() == 0);
    }
    let units: Seq<char> = seq!['年', '月', '日', '時', '分'];
    assert forall|k: int| 0 <= k < 5 implies (text.contains(#[trigger] units[k]) <==> (if k == 0 {
        years != 0
    } else if k == 1 {
        months != 0
    } else if k == 2 {
        days != 0
    } else if k == 3 {
        hours != 0
    } else {
        minutes != 0
    })) by {
        let c = units[k];
        assert(c > '9');
        lemma_lit1_contains('年', c);
        lemma_lit2_contains('ヶ', '月', c);
        lemma_lit1_contains('日', c);
        lemma_lit2_contains('時', '間', c);
        lemma_lit1_contains('分', c);
        lemma_lit1_contains('秒', c);
        lemma_lit2_contains('0', '秒', c);
        lemma_unit_part_contains(years, seq!['年'], c);
        lemma_unit_part_contains(months, seq!['ヶ', '月'], c);
        lemma_unit_part_contains(days, seq!['日'], c);
        lemma_unit_part_contains(hours, seq!['時', '間'], c);
        lemma_unit_part_contains(seconds, seq!['秒'], c);
        lemma_concat_contains(p1, p2, c);
        lemma_concat_contains(p1 + p2, p3, c);
        lemma_concat_contains(p1 + p2 + p3, p4, c);
        lemma_concat_contains(p1 + p2 + p3 + p4, tail, c);
        if minutes != 0 {
            lemma_concat_contains(decimal(minutes), seq!['分'], c);
            lemma_concat_contains(decimal(minutes) + seq!['分'], decimal(seconds), c);
            lemma_concat_contains(decimal(minutes) + seq!['分'] + decimal(seconds), seq!['秒'], c);
            lemma_no_unit_in_decimal(minutes, c);
            lemma_no_unit_in_decimal(seconds, c);
        }
    }
    assert(text.contains('年') <==> years != 0) by {
        assert(units[0] == '年');
    }
    assert(text.contains('月') <==> months != 0) by {
        assert(units[1] == '月');
    }
    assert(text.contains('日') <==> days != 0) by {
        assert(units[2] == '日');
    }
    assert(text.contains('時') <==> hours != 0) by {
        assert(units[3] == '時');
    }
    assert(text.contains('分') <==> minutes != 0) by {
        assert(units[4] == '分');
    }
    if minutes != 0 || seconds != 0 {
        assert(body.len() > 0);
        assert(tail.is_suffix_of(body)) by {
            let pre = p1 + p2 + p3 + p4;
            assert(body.subrange(pre.len() as int, body.len() as int) =~= tail);
        }
    }
    if years != 0 {
        assert(body.len() > 0);
        assert(p1.is_prefix_of(body)) by {
            assert(body.subrange(0, p1.len() as int) =~= p1);
        }
    }
}

} // verus!

//! What time it is: on the server, and in a city of the table.
use crate::cities::CityTimezones;
use crate::text::{
    decimal, digit, joined3, law_decimal, law_trimmed_twice, lower_text, lowercased, option_text, plain_text,
    result_text, to_lowercase, trim, trimmed,
};
use chrono::{DateTime, Utc};
use chrono_tz::Tz;
use vstd::prelude::*;

verus! {

/// How a time is written: the time of day, and in brackets the date and the
/// abbreviation of the time zone.
pub const CLOCK_FORMAT: &'static str = "%H:%M:%S (%Y-%m-%d %Z)";

/// The last second that the calendar reaches, counted from the Unix epoch.
pub const LAST_SECOND: i64 = 8_210_266_876_799;

/// What is answered where a city is not in the table.
pub const ZONE_NOT_FOUND: &'static str = "Не найден часовой пояс";

/// Whether `now`, in seconds from the Unix epoch, is a time that the clock can
/// show.
pub open spec fn on_the_clock(now: i64) -> bool {
    0 <= now <= LAST_SECOND
}

/// `n` with two digits, for `n` below 100.
pub open spec fn two_digits(n: nat) -> Seq<char> {
    seq![digit(n / 10), digit(n % 10)]
}

/// A time of day, `second` seconds after midnight.
pub open spec fn time_of_day(second: nat) -> Seq<char> {
    two_digits(second / 3600).push(':') + two_digits(second / 60 % 60).push(':') + two_digits(
        second % 60,
    )
}

/// Whether `year` is a leap year.
pub open spec fn leap_year(year: int) -> bool {
    year % 4 == 0 && (year % 100 != 0 || year % 400 == 0)
}

/// The number of days of a month.
pub open spec fn days_of_month(year: int, month: int) -> int {
    if month == 2 {
        if leap_year(year) {
            29
        } else {
            28
        }
    } else if month == 4 || month == 6 || month == 9 || month == 11 {
        30
    } else {
        31
    }
}

/// The number of days of a year that come before a month.
pub open spec fn days_before_month(year: int, month: int) -> int
    decreases month,
{
    if month <= 1 {
        0
    } else {
        days_before_month(year, month - 1) + days_of_month(year, month - 1)
    }
}

/// The number of days from 1 January 1970 to 1 January of `year`: a leap year in
/// every fourth, but for those that end a century, but for every fourth of
/// those.
pub open spec fn days_before_year(year: int) -> int {
    let y = year - 1;
    365 * (year - 1970) + (y / 4 - y / 100 + y / 400) - (1969int / 4 - 1969int / 100 + 1969int
        / 400)
}

/// Whether the date is the one `day` days after 1 January 1970.
pub open spec fn is_date(year: int, month: int, day_of_month: int, day: int) -> bool {
    &&& 1 <= month <= 12
    &&& 1 <= day_of_month <= days_of_month(year, month)
    &&& days_before_year(year) + days_before_month(year, month) + day_of_month - 1 == day
}

/// A year, with a sign where it takes more than four digits.
pub open spec fn year_text(year: int) -> Seq<char> {
    if year <= 9999 {
        decimal(year as nat)
    } else {
        "+"@ + decimal(year as nat)
    }
}

/// A date, and the abbreviation of a time zone.
pub open spec fn date_text(year: int, month: int, day_of_month: int, zone: Seq<char>) -> Seq<char> {
    year_text(year) + "-"@ + two_digits(month as nat) + "-"@ + two_digits(day_of_month as nat)
        + " "@ + zone
}

/// Whether `t` is how the clock shows `local`, a number of seconds from
/// midnight on 1 January 1970 in a time zone, where `zone` is the zone's
/// abbreviation.
pub open spec fn tells(t: Seq<char>, local: int, zone: Seq<char>) -> bool {
    exists|year: int, month: int, day_of_month: int| #[trigger]
        is_date(year, month, day_of_month, local / 86400) && t == time_of_day(
            (local % 86400) as nat,
        ) + " ("@ + date_text(year, month, day_of_month, zone) + ")"@
}

/// Whether `t` is how the clock shows `now` in a time zone: less than a day
/// apart from UTC.
pub open spec fn tells_in_some_zone(t: Seq<char>, now: int) -> bool {
    exists|local: int, zone: Seq<char>|
        now - 86400 < local < now + 86400 && #[trigger] tells(t, local, zone)
}

/// How the clock shows `now` in UTC.
pub open spec fn utc_text(now: i64) -> Seq<char> {
    choose|t: Seq<char>| tells(t, now as int, "UTC"@)
}

/// A year is over with December.
proof fn lemma_length_of_year(year: int)
    ensures
        days_before_year(year) + days_before_month(year, 12) + 31 == days_before_year(year + 1),
{
    let february = days_of_month(year, 2);
    assert(days_before_month(year, 12) == 306 + february) by {
        reveal_with_fuel(days_before_month, 13);
    }
    let y = year - 1;
    assert(year / 4 - y / 4 == if year % 4 == 0 { 1int } else { 0 });
    assert(year / 100 - y / 100 == if year % 100 == 0 { 1int } else { 0 });
    assert(year / 400 - y / 400 == if year % 400 == 0 { 1int } else { 0 });
    assert(year % 400 == 0 ==> year % 100 == 0);
    assert(year % 100 == 0 ==> year % 4 == 0);
}

/// Every day from 1 January 1970 on has a date.
pub proof fn law_every_day_has_a_date(day: int)
    requires
        0 <= day,
    ensures
        exists|year: int, month: int, day_of_month: int| #[trigger]
            is_date(year, month, day_of_month, day) && 1970 <= year,
    decreases day,
{
    if day == 0 {
        assert(is_date(1970, 1, 1, 0));
    } else {
        law_every_day_has_a_date(day - 1);
        let (y, m, d) = choose|y: int, m: int, d: int| #[trigger]
            is_date(y, m, d, day - 1) && 1970 <= y;
        if d < days_of_month(y, m) {
            assert(is_date(y, m, d + 1, day));
        } else if m < 12 {
            assert(is_date(y, m + 1, 1, day));
        } else {
            lemma_length_of_year(y);
            assert(days_before_month(y + 1, 1) == 0);
            assert(is_date(y + 1, 1, 1, day));
        }
    }
}

/// The clock can show every time from the Unix epoch on in UTC.
pub proof fn law_utc_is_shown(now: i64)
    requires
        0 <= now,
    ensures
        tells(utc_text(now), now as int, "UTC"@),
{
    let day = now as int / 86400;
    law_every_day_has_a_date(day);
    let (y, m, d) = choose|y: int, m: int, d: int| #[trigger]
        is_date(y, m, d, day) && 1970 <= y;
    let t = time_of_day((now as int % 86400) as nat) + " ("@ + date_text(y, m, d, "UTC"@) + ")"@;
    assert(tells(t, now as int, "UTC"@));
}

proof fn lemma_months(year: int, month: int, later: int)
    requires
        1 <= month < later,
    ensures
        days_before_month(year, month) + days_of_month(year, month) <= days_before_month(
            year,
            later,
        ),
    decreases later,
{
    if month < later - 1 {
        lemma_months(year, month, later - 1);
    }
}

proof fn lemma_before_month(year: int, month: int)
    ensures
        0 <= days_before_month(year, month),
    decreases month,
{
    if month > 1 {
        lemma_before_month(year, month - 1);
    }
}

proof fn lemma_day_of_year(year: int, month: int, day_of_month: int, day: int)
    requires
        is_date(year, month, day_of_month, day),
    ensures
        days_before_year(year) <= day < days_before_year(year + 1),
{
    lemma_length_of_year(year);
    lemma_before_month(year, month);
    if month < 12 {
        lemma_months(year, month, 12);
    }
}

/// A day has one date.
pub proof fn law_one_date(y1: int, m1: int, d1: int, y2: int, m2: int, d2: int, day: int)
    requires
        is_date(y1, m1, d1, day),
        is_date(y2, m2, d2, day),
    ensures
        y1 == y2,
        m1 == m2,
        d1 == d2,
{
    lemma_day_of_year(y1, m1, d1, day);
    lemma_day_of_year(y2, m2, d2, day);
    assert(y1 == y2);
    if m1 < m2 {
        lemma_months(y1, m1, m2);
    } else if m2 < m1 {
        lemma_months(y1, m2, m1);
    }
}

/// The clock shows a time in one way.
pub proof fn law_one_way_to_show(a: Seq<char>, b: Seq<char>, local: int, zone: Seq<char>)
    requires
        tells(a, local, zone),
        tells(b, local, zone),
    ensures
        a == b,
{
    let day = local / 86400;
    let second = (local % 86400) as nat;
    let (y1, m1, d1) = choose|y: int, m: int, d: int| #[trigger]
        is_date(y, m, d, day) && a == time_of_day(second) + " ("@ + date_text(y, m, d, zone)
            + ")"@;
    let (y2, m2, d2) = choose|y: int, m: int, d: int| #[trigger]
        is_date(y, m, d, day) && b == time_of_day(second) + " ("@ + date_text(y, m, d, zone)
            + ")"@;
    law_one_date(y1, m1, d1, y2, m2, d2, day);
}

proof fn lemma_two_digits(m: nat, n: nat)
    requires
        m < 100,
        n < 100,
        two_digits(m) == two_digits(n),
    ensures
        m == n,
{
    assert(two_digits(m)[0] == two_digits(n)[0]);
    assert(two_digits(m)[1] == two_digits(n)[1]);
}

proof fn lemma_time_of_day(a: nat, b: nat)
    requires
        a < 86400,
        b < 86400,
        time_of_day(a) == time_of_day(b),
    ensures
        a == b,
{
    let x = time_of_day(a);
    let y = time_of_day(b);
    assert(x.subrange(0, 2) =~= two_digits(a / 3600));
    assert(y.subrange(0, 2) =~= two_digits(b / 3600));
    assert(x.subrange(3, 5) =~= two_digits(a / 60 % 60));
    assert(y.subrange(3, 5) =~= two_digits(b / 60 % 60));
    assert(x.subrange(6, 8) =~= two_digits(a % 60));
    assert(y.subrange(6, 8) =~= two_digits(b % 60));
    lemma_two_digits(a / 3600, b / 3600);
    lemma_two_digits(a / 60 % 60, b / 60 % 60);
    lemma_two_digits(a % 60, b % 60);
}

proof fn lemma_year_text(a: int, b: int)
    requires
        0 <= a,
        0 <= b,
        year_text(a) == year_text(b),
    ensures
        a == b,
{
    reveal_strlit("+");
    law_decimal(a as nat, b as nat);
    law_decimal(b as nat, a as nat);
    if a > 9999 {
        assert(year_text(a)[0] == '+');
        assert(year_text(a).skip(1) =~= decimal(a as nat));
    }
    if b > 9999 {
        assert(year_text(b)[0] == '+');
        assert(year_text(b).skip(1) =~= decimal(b as nat));
    }
}

proof fn lemma_year_of_day(year: int, month: int, day_of_month: int, day: int)
    requires
        0 <= day,
        is_date(year, month, day_of_month, day),
    ensures
        1970 <= year,
{
    lemma_day_of_year(year, month, day_of_month, day);
    if year < 1970 {
        assert(365 * (year + 1 - 1970) + (year / 4 - year / 100 + year / 400) - 477 <= 0);
    }
}

/// What the clock shows tells one second only: two times that are shown alike in
/// a time zone are the same.
pub proof fn law_times_are_told_apart(t: Seq<char>, a: int, b: int, zone: Seq<char>)
    requires
        0 <= a,
        0 <= b,
        tells(t, a, zone),
        tells(t, b, zone),
    ensures
        a == b,
{
    let (y1, m1, d1) = choose|y: int, m: int, d: int| #[trigger]
        is_date(y, m, d, a / 86400) && t == time_of_day((a % 86400) as nat) + " ("@ + date_text(
            y,
            m,
            d,
            zone,
        ) + ")"@;
    let (y2, m2, d2) = choose|y: int, m: int, d: int| #[trigger]
        is_date(y, m, d, b / 86400) && t == time_of_day((b % 86400) as nat) + " ("@ + date_text(
            y,
            m,
            d,
            zone,
        ) + ")"@;
    lemma_year_of_day(y1, m1, d1, a / 86400);
    lemma_year_of_day(y2, m2, d2, b / 86400);
    lemma_shown(t, a, y1, m1, d1, zone);
    lemma_shown(t, b, y2, m2, d2, zone);
    lemma_time_of_day((a % 86400) as nat, (b % 86400) as nat);
    lemma_year_text(y1, y2);
    lemma_two_digits(m1 as nat, m2 as nat);
    lemma_two_digits(d1 as nat, d2 as nat);
}

/// Where the parts of what the clock shows stand.
proof fn lemma_shown(
    t: Seq<char>,
    local: int,
    year: int,
    month: int,
    day_of_month: int,
    zone: Seq<char>,
)
    requires
        t == time_of_day((local % 86400) as nat) + " ("@ + date_text(
            year,
            month,
            day_of_month,
            zone,
        ) + ")"@,
    ensures
        ({
            let n = t.len() - zone.len() - 18;
            &&& n == year_text(year).len()
            &&& t.subrange(0, 8) == time_of_day((local % 86400) as nat)
            &&& t.subrange(10, 10 + n) == year_text(year)
            &&& t.subrange(11 + n, 13 + n) == two_digits(month as nat)
            &&& t.subrange(14 + n, 16 + n) == two_digits(day_of_month as nat)
        }),
{
    reveal_strlit(" (");
    reveal_strlit(")");
    reveal_strlit("-");
    reveal_strlit(" ");
    let n = year_text(year).len() as int;
    let second = (local % 86400) as nat;
    assert(time_of_day(second).len() == 8);
    assert(t.len() == 18 + n + zone.len());
    assert(t.subrange(0, 8) =~= time_of_day(second));
    let date = date_text(year, month, day_of_month, zone);
    assert(t.subrange(10, t.len() - 1) =~= date);
    assert(date.subrange(0, n) =~= year_text(year));
    assert(date.subrange(n + 1, n + 3) =~= two_digits(month as nat));
    assert(date.subrange(n + 4, n + 6) =~= two_digits(day_of_month as nat));
    assert(t.subrange(10, 10 + n) =~= date.subrange(0, n));
    assert(t.subrange(11 + n, 13 + n) =~= date.subrange(n + 1, n + 3));
    assert(t.subrange(14 + n, 16 + n) =~= date.subrange(n + 4, n + 6));
}

/// Whether `zone` is the name of a time zone of the tz database.
pub uninterp spec fn zone_known(zone: Seq<char>) -> bool;

/// The time `now`, in the time zone `zone`, written as `format` says.
pub uninterp spec fn zone_text(zone: Seq<char>, now: i64, format: Seq<char>) -> Seq<char>;

/// `chrono::Utc::now`, as a number of seconds from the Unix epoch. What comes
/// back is the machine's affair; it lies within the calendar, and not before
/// the epoch, since the call does not return otherwise.
#[verifier::external_body]
pub(crate) fn utc_now() -> (r: i64)
    ensures
        on_the_clock(r),
{
    Utc::now().timestamp()
}

/// Whether `now` is a time that `utc_now` gave. What is known of it comes from a
/// call of `utc_now`, so no other time can be passed off for a reading.
pub closed spec fn read_from_clock(now: i64) -> bool {
    call_ensures(utc_now, (), now)
}

/// A reading of the clock is what a call of `utc_now` gave, and lies within the
/// calendar.
pub(crate) proof fn law_readings(now: i64)
    requires
        read_from_clock(now),
    ensures
        call_ensures(utc_now, (), now),
        on_the_clock(now),
{
}

/// What the clock says right now.
pub(crate) fn read_clock() -> (r: i64)
    ensures
        on_the_clock(r),
        read_from_clock(r),
{
    utc_now()
}

/// `DateTime::<Utc>::format`, for `CLOCK_FORMAT`: the time of day and, in
/// brackets, the date of the proleptic Gregorian calendar and the abbreviation
/// of the time zone.
#[verifier::external_body]
fn format_utc(now: i64, format: &str) -> (r: String)
    requires
        on_the_clock(now),
        format@ == CLOCK_FORMAT@,
    ensures
        tells(r@, now as int, "UTC"@),
{
    DateTime::<Utc>::from_timestamp(now, 0).unwrap().format(format).to_string()
}

/// `<Tz as FromStr>::from_str`, of which only success or failure is kept. It is
/// a look up in a table that is compiled in, so the outcome is named.
#[verifier::external_body]
fn is_zone(zone: &str) -> (r: bool)
    ensures
        r == zone_known(zone@),
{
    zone.parse::<Tz>().is_ok()
}

/// `DateTime::<Utc>::with_timezone` and the `format` of what it gives, for a
/// name that `Tz` parses. The result is named: it depends on the rules of the
/// zone, which are compiled in, on the time and on the format. In
/// `CLOCK_FORMAT` it is written as for UTC, by a clock that is less than a day
/// apart from UTC's.
#[verifier::external_body]
fn format_in_zone(zone: &str, now: i64, format: &str) -> (r: String)
    requires
        zone_known(zone@),
        on_the_clock(now),
        format@ == CLOCK_FORMAT@,
    ensures
        r@ == zone_text(zone@, now, format@),
        tells_in_some_zone(r@, now as int),
{
    let tz: Tz = zone.parse().unwrap();
    let utc = DateTime::<Utc>::from_timestamp(now, 0).unwrap();
    utc.with_timezone(&tz).format(format).to_string()
}

/// The name under which the table is asked for a city: the surrounding white
/// space and the case of the letters do not matter.
pub open spec fn city_key(city: Seq<char>) -> Seq<char> {
    lowercased(trimmed(city))
}

/// What is answered where the table has a name that is no time zone's.
pub open spec fn bad_zone(zone: Seq<char>) -> Seq<char> {
    "Внутренняя ошибка: неверный пояс '"@ + zone + "' в карте"@
}

/// The time in a zone of the table, given what the clock shows there.
pub open spec fn zone_time(zone: Seq<char>, shown: Option<Seq<char>>) -> Result<
    Seq<char>,
    Seq<char>,
> {
    match shown {
        Some(t) => Ok(t),
        None => Err(bad_zone(zone)),
    }
}

/// What the clock shows in `zone` at `now`, if there is such a zone.
pub open spec fn shown_in(zone: Seq<char>, now: i64) -> Option<Seq<char>> {
    if zone_known(zone) {
        Some(zone_text(zone, now, CLOCK_FORMAT@))
    } else {
        None
    }
}

/// The time at `now` in the city that the table has under the name `key`, or
/// what is wrong.
pub open spec fn time_under(
    key: Seq<char>,
    cities: Map<Seq<char>, Seq<char>>,
    now: i64,
) -> Result<Seq<char>, Seq<char>> {
    if cities.contains_key(key) {
        zone_time(cities[key], shown_in(cities[key], now))
    } else {
        Err(ZONE_NOT_FOUND@)
    }
}

/// The time at `now` in the city that the user named, or what is wrong.
pub open spec fn city_time(
    city: Seq<char>,
    cities: Map<Seq<char>, Seq<char>>,
    now: i64,
) -> Result<Seq<char>, Seq<char>> {
    time_under(city_key(city), cities, now)
}

/// Whether the time can be told in the city that the table has under the name
/// `key`: it has one, and the zone that it gives exists. Only there does it
/// matter what time it is.
pub open spec fn can_tell_under(key: Seq<char>, cities: Map<Seq<char>, Seq<char>>) -> bool {
    cities.contains_key(key) && zone_known(cities[key])
}

/// Whether the time can be told in the city that the user named.
pub open spec fn can_tell(city: Seq<char>, cities: Map<Seq<char>, Seq<char>>) -> bool {
    can_tell_under(city_key(city), cities)
}

/// Where the table has a zone for the city: the time there, if the clock could
/// show it, or else that the table is wrong.
pub fn zone_time_from(zone: &str, shown: Option<String>) -> (r: Result<String, String>)
    ensures
        result_text(r) == zone_time(zone@, option_text(shown)),
        shown matches Some(t) ==> (r matches Ok(told) && told@ == t@),
        shown is None ==> (r matches Err(e) && e@ == "Внутренняя ошибка: неверный пояс '"@ + zone@
            + "' в карте"@),
{
    match shown {
        Some(t) => Ok(t),
        None => Err(joined3("Внутренняя ошибка: неверный пояс '", zone, "' в карте")),
    }
}

/// The time of the server at `now`.
pub fn server_time_at(now: i64) -> (r: String)
    requires
        on_the_clock(now),
    ensures
        r@ == utc_text(now),
        tells(r@, now as int, "UTC"@),
{
    let r = format_utc(now, CLOCK_FORMAT);
    proof {
        law_one_way_to_show(r@, utc_text(now), now as int, "UTC"@);
    }
    r
}

/// The time at `now` in the city that the user named. A name in Russian letters
/// and ASCII characters is looked up in their lower case.
pub fn time_for_city_at(city_input: &str, city_tz_map: &CityTimezones, now: i64) -> (r: Result<
    String,
    String,
>)
    requires
        on_the_clock(now),
    ensures
        result_text(r) == city_time(city_input@, city_tz_map@, now),
        plain_text(trimmed(city_input@)) ==> result_text(r) == time_under(
            lower_text(trimmed(city_input@)),
            city_tz_map@,
            now,
        ),
        r matches Ok(t) ==> tells_in_some_zone(t@, now as int),
        ({
            let key = lowercased(trimmed(city_input@));
            let zone = city_tz_map@[key];
            &&& r is Ok <==> city_tz_map@.contains_key(key) && zone_known(zone)
            &&& r matches Ok(t) ==> t@ == zone_text(zone, now, CLOCK_FORMAT@)
            &&& r matches Err(e) ==> e@ == if city_tz_map@.contains_key(key) {
                "Внутренняя ошибка: неверный пояс '"@ + zone + "' в карте"@
            } else {
                "Не найден часовой пояс"@
            }
        }),
{
    let city_lowercase = to_lowercase(trim(city_input));
    match city_tz_map.get(city_lowercase.as_str()) {
        Some(zone) => {
            let shown = if is_zone(zone.as_str()) {
                Some(format_in_zone(zone.as_str(), now, CLOCK_FORMAT))
            } else {
                None
            };
            zone_time_from(zone.as_str(), shown)
        },
        None => Err(ZONE_NOT_FOUND.to_string()),
    }
}

/// Whether the time can be told in the city that the user named.
pub fn can_tell_time(city_input: &str, city_tz_map: &CityTimezones) -> (r: bool)
    ensures
        r == can_tell(city_input@, city_tz_map@),
        plain_text(trimmed(city_input@)) ==> r == can_tell_under(
            lower_text(trimmed(city_input@)),
            city_tz_map@,
        ),
        r <==> city_tz_map@.contains_key(lowercased(trimmed(city_input@))) && zone_known(
            city_tz_map@[lowercased(trimmed(city_input@))],
        ),
{
    let city_lowercase = to_lowercase(trim(city_input));
    match city_tz_map.get(city_lowercase.as_str()) {
        Some(zone) => is_zone(zone.as_str()),
        None => false,
    }
}

/// The time right now in the city that the user named. Where it cannot be told
/// the clock is not read, and what is wrong is said whatever the time; a time
/// that is told is one that the clock gave.
pub fn get_time_for_city(city_input: &str, city_tz_map: &CityTimezones) -> (r: Result<
    String,
    String,
>)
    ensures
        exists|now: i64|
            {
                &&& #[trigger] on_the_clock(now)
                &&& result_text(r) == city_time(city_input@, city_tz_map@, now)
                &&& plain_text(trimmed(city_input@)) ==> result_text(r) == time_under(
                    lower_text(trimmed(city_input@)),
                    city_tz_map@,
                    now,
                )
                &&& r matches Ok(t) ==> tells_in_some_zone(t@, now as int)
            },
        !can_tell(city_input@, city_tz_map@) ==> forall|now: i64|
            result_text(r) == #[trigger] city_time(city_input@, city_tz_map@, now),
        ({
            let key = lowercased(trimmed(city_input@));
            let zone = city_tz_map@[key];
            &&& r is Ok <==> city_tz_map@.contains_key(key) && zone_known(zone)
            &&& r matches Ok(t) ==> exists|now: i64| #[trigger]
                read_from_clock(now) && t@ == zone_text(zone, now, CLOCK_FORMAT@)
                    && tells_in_some_zone(t@, now as int)
            &&& r matches Err(e) ==> e@ == if city_tz_map@.contains_key(key) {
                "Внутренняя ошибка: неверный пояс '"@ + zone + "' в карте"@
            } else {
                "Не найден часовой пояс"@
            }
        }),
{
    let now: i64 = if can_tell_time(city_input, city_tz_map) {
        read_clock()
    } else {
        0
    };
    assert(on_the_clock(now));
    time_for_city_at(city_input, city_tz_map, now)
}

/// The table is asked for a city under its name in lower case, without the white
/// space around it. The time told is what the clock shows at `now` in the zone
/// that the table gives, and what is wrong is said in the words for it.
pub proof fn law_time_in_a_city(city: Seq<char>, cities: Map<Seq<char>, Seq<char>>, now: i64)
    ensures
        ({
            let key = lowercased(trimmed(city));
            let zone = cities[key];
            &&& cities.contains_key(key) && zone_known(zone) ==> city_time(city, cities, now)
                == Ok::<Seq<char>, Seq<char>>(
                zone_text(zone, now, "%H:%M:%S (%Y-%m-%d %Z)"@),
            )
            &&& cities.contains_key(key) && !zone_known(zone) ==> city_time(city, cities, now)
                == Err::<Seq<char>, Seq<char>>(
                "Внутренняя ошибка: неверный пояс '"@ + zone + "' в карте"@,
            )
            &&& !cities.contains_key(key) ==> city_time(city, cities, now) == Err::<
                Seq<char>,
                Seq<char>,
            >("Не найден часовой пояс"@)
        }),
{
}

/// What is told of a city hangs on the zone that the table gives it, and on
/// nothing else in the table: two cities with the same zone are told the same
/// time, also out of two tables.
pub proof fn law_same_zone_same_time(
    a: Seq<char>,
    b: Seq<char>,
    cities: Map<Seq<char>, Seq<char>>,
    others: Map<Seq<char>, Seq<char>>,
    now: i64,
)
    requires
        cities.contains_key(lowercased(trimmed(a))),
        others.contains_key(lowercased(trimmed(b))),
        cities[lowercased(trimmed(a))] == others[lowercased(trimmed(b))],
    ensures
        city_time(a, cities, now) == city_time(b, others, now),
{
}

/// Whether the time can be told in a city hangs on the table and on the zone that
/// it gives; wherever it can, it is told at every time.
pub proof fn law_when_time_can_be_told(
    city: Seq<char>,
    cities: Map<Seq<char>, Seq<char>>,
    now: i64,
)
    ensures
        can_tell(city, cities) <==> cities.contains_key(lowercased(trimmed(city))) && zone_known(
            cities[lowercased(trimmed(city))],
        ),
        can_tell(city, cities) <==> city_time(city, cities, now) is Ok,
{
}

/// Two ways to write a city that differ in white space around it or in the case
/// of the letters name the same city.
pub proof fn law_city_spelling(
    a: Seq<char>,
    b: Seq<char>,
    cities: Map<Seq<char>, Seq<char>>,
    now: i64,
)
    requires
        lowercased(trimmed(a)) == lowercased(trimmed(b)),
    ensures
        city_time(a, cities, now) == city_time(b, cities, now),
{
}

/// White space around a city does not matter.
pub proof fn law_city_white_space(city: Seq<char>, cities: Map<Seq<char>, Seq<char>>, now: i64)
    ensures
        city_time(trimmed(city), cities, now) == city_time(city, cities, now),
{
    law_trimmed_twice(city);
}

/// The time is told exactly where the table has the city and the zone that it
/// gives exists; a city that is not in the table is told apart from a zone that
/// does not exist.
pub proof fn law_city_time_cases(city: Seq<char>, cities: Map<Seq<char>, Seq<char>>, now: i64)
    ensures
        city_time(city, cities, now) is Ok <==> can_tell(city, cities),
        city_time(city, cities, now) == Err::<Seq<char>, Seq<char>>(ZONE_NOT_FOUND@)
            <==> !cities.contains_key(city_key(city)),
{
    reveal_strlit("Внутренняя ошибка: неверный пояс '");
    reveal_strlit("Не найден часовой пояс");
    let zone = cities[city_key(city)];
    assert(bad_zone(zone)[0] == 'В');
    assert(ZONE_NOT_FOUND@[0] == 'Н');
}

/// A city that is put into the table under the name by which it is asked for is
/// told the time of its zone, and other cities are told what they were told
/// before.
pub proof fn law_city_is_added(
    city: Seq<char>,
    other: Seq<char>,
    zone: Seq<char>,
    cities: Map<Seq<char>, Seq<char>>,
    now: i64,
)
    ensures
        city_time(city, cities.insert(city_key(city), zone), now) == zone_time(
            zone,
            shown_in(zone, now),
        ),
        city_key(other) != city_key(city) ==> city_time(
            other,
            cities.insert(city_key(city), zone),
            now,
        ) == city_time(other, cities, now),
{
}

} // verus!

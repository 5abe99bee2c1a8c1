//! What is answered to a message.
use crate::cities::CityTimezones;
use crate::clock::{
    bad_zone, can_tell, can_tell_time, city_time, law_utc_is_shown, on_the_clock, read_clock,
    read_from_clock, server_time_at, tells, tells_in_some_zone, time_for_city_at, time_under,
    utc_text, zone_known, zone_text, ZONE_NOT_FOUND,
};
use crate::intent::{
    begins, law_promises, names_city, promised, understand, understood, understood_with,
    weather_question, Intent, IntentView,
};
use crate::locale::{
    filled, format_locale, has_hole, hole, law_single_argument, law_three_arguments,
    law_two_arguments, texts, LocaleStrings,
};
use crate::text::{
    first_line, joined3, lower_text, lowercased, plain_text, result_text, same_text, trimmed,
    trimmed_start,
};
use crate::weather::{outcome_view, WeatherReport, WeatherReportView};
use vstd::prelude::*;

verus! {

/// What every conversation shares.
pub struct AppState {
    pub locale: LocaleStrings,
    pub city_tz_map: CityTimezones,
    pub web_port: u16,
}

/// What to do about a message.
#[derive(Debug, PartialEq, Eq)]
pub enum Plan {
    /// Say this.
    Say(String),
    /// Ask the weather service for `city`, and say what `weather_reply` makes of
    /// what came of it.
    AskWeather { city: String },
}

/// What a `Plan` holds.
pub enum PlanView {
    Say(Seq<char>),
    AskWeather { city: Seq<char> },
}

impl View for Plan {
    type V = PlanView;

    open spec fn view(&self) -> PlanView {
        match self {
            Plan::Say(text) => PlanView::Say(text@),
            Plan::AskWeather { city } => PlanView::AskWeather { city: city@ },
        }
    }
}

/// What is said to commands in the web chat.
pub const NO_COMMANDS: &'static str =
    "Команды для веб-чата пока не реализованы. Попробуйте в Telegram.\nИли используйте: 'Погода в ...', 'Время в ...'";

/// What is said to a question about the weather in `city`.
pub open spec fn weather_answer(
    locale: LocaleStrings,
    city: Seq<char>,
    outcome: Result<WeatherReportView, Seq<char>>,
) -> Seq<char> {
    match outcome {
        Ok(report) => filled(
            locale.weather_response@,
            seq![report.city, report.temp_rounded, report.description],
        ),
        Err(e) => filled(locale.weather_fetch_error@, seq![city, e]),
    }
}

/// What is said to a question about the time in `city`.
pub open spec fn time_answer(
    locale: LocaleStrings,
    city: Seq<char>,
    time: Result<Seq<char>, Seq<char>>,
) -> Seq<char> {
    match time {
        Ok(t) => filled(locale.time_response@, seq![city, t]),
        Err(e) => if e == ZONE_NOT_FOUND@ {
            filled(locale.time_zone_not_found@, seq![city])
        } else {
            filled(locale.time_fetch_error@, seq![city, e])
        },
    }
}

/// What is said to a question about the time on the server.
pub open spec fn server_time_answer(locale: LocaleStrings, time: Seq<char>) -> Seq<char> {
    filled(locale.time_server_response@, seq![time]) + "\n"@ + locale.time_city_suggestion@
}

/// What to do about the message `input` that asks for `intent`, at `now`.
pub open spec fn plan_of(
    intent: IntentView,
    input: Seq<char>,
    state: AppState,
    now: i64,
) -> PlanView {
    match intent {
        IntentView::Greeting => PlanView::Say(state.locale.greeting@),
        IntentView::StatusCheck => PlanView::Say(state.locale.status_check@),
        IntentView::Weather { city } => PlanView::AskWeather { city },
        IntentView::WeatherNoCity => PlanView::Say(state.locale.weather_request_city@),
        IntentView::Time { city } => PlanView::Say(
            time_answer(state.locale, city, city_time(city, state.city_tz_map@, now)),
        ),
        IntentView::TimeNoCity => PlanView::Say(state.locale.time_request_city@),
        IntentView::Fallback => PlanView::Say(state.locale.fallback_reply@),
        IntentView::ServerTime => PlanView::Say(
            server_time_answer(state.locale, utc_text(now)),
        ),
        IntentView::Slash => PlanView::Say(NO_COMMANDS@),
        IntentView::Unknown => PlanView::Say(
            filled(state.locale.unknown_command@, seq![input]),
        ),
    }
}

/// What holds of the plan for a question about the time in a city: a name in
/// Russian letters and ASCII characters is looked up in their lower case, and a
/// time that is told is how a clock shows `now`.
pub open spec fn tells_city_time(
    plan: PlanView,
    intent: IntentView,
    state: AppState,
    now: i64,
) -> bool {
    intent matches IntentView::Time { city } ==> {
        &&& plain_text(trimmed(city)) ==> plan == PlanView::Say(
            time_answer(
                state.locale,
                city,
                time_under(lower_text(trimmed(city)), state.city_tz_map@, now),
            ),
        )
        &&& city_time(city, state.city_tz_map@, now) matches Ok(t) ==> tells_in_some_zone(
            t,
            now as int,
        )
    }
}

/// Whether `plan` is what to do about the message `input` at `now`: it is the
/// plan for what the message asks for. What small talk is, where the message is
/// in Russian letters and ASCII characters, goes by their lower case. What the
/// bot promises is kept, and the weather is asked for a city that the message
/// names.
pub open spec fn is_plan_for(
    plan: PlanView,
    input: Seq<char>,
    state: AppState,
    now: i64,
) -> bool {
    &&& plan == plan_of(understood(input), input, state, now)
    &&& plain_text(trimmed(input)) ==> plan == plan_of(
        understood_with(input, lower_text(trimmed(input))),
        input,
        state,
        now,
    )
    &&& promised(input) matches Some(intent) ==> plan == plan_of(intent, input, state, now)
    &&& tells_city_time(plan, understood(input), state, now)
    &&& plan matches PlanView::AskWeather { city } ==> names_city(city, input)
}

/// Whether it matters what time it is when `intent` is answered: it does for
/// the time on the server, and for the time in a city where it can be told.
pub open spec fn depends_on_time(intent: IntentView, state: AppState) -> bool {
    match intent {
        IntentView::Time { city } => can_tell(city, state.city_tz_map@),
        IntentView::ServerTime => true,
        _ => false,
    }
}

/// What is said to a question about the weather in `city`, given what came of
/// asking the service.
pub fn weather_reply(
    locale: &LocaleStrings,
    city: &str,
    outcome: Result<WeatherReport, String>,
) -> (r: String)
    ensures
        r@ == weather_answer(*locale, city@, outcome_view(outcome)),
        outcome matches Ok(report) ==> r@ == filled(
            locale.weather_response@,
            seq![report.city@, report.temp.temp_rounded@, report.description@],
        ),
        outcome matches Err(e) ==> r@ == filled(locale.weather_fetch_error@, seq![city@, e@]),
{
    match outcome {
        Ok(report) => {
            let args = vec![
                report.city.as_str(),
                report.temp.temp_rounded.as_str(),
                report.description.as_str(),
            ];
            assert(texts(args@) =~= seq![report@.city, report@.temp_rounded, report@.description]);
            format_locale(locale.weather_response.as_str(), args.as_slice())
        },
        Err(e) => {
            let args = vec![city, e.as_str()];
            assert(texts(args@) =~= seq![city@, e@]);
            format_locale(locale.weather_fetch_error.as_str(), args.as_slice())
        },
    }
}

/// What is said to a question about the time in `city`, given what the clock
/// shows there.
pub fn time_reply(locale: &LocaleStrings, city: &str, time: Result<String, String>) -> (r: String)
    ensures
        r@ == time_answer(*locale, city@, result_text(time)),
        time matches Ok(t) ==> r@ == filled(locale.time_response@, seq![city@, t@]),
        time matches Err(e) ==> r@ == if e@ == "Не найден часовой пояс"@ {
            filled(locale.time_zone_not_found@, seq![city@])
        } else {
            filled(locale.time_fetch_error@, seq![city@, e@])
        },
{
    match time {
        Ok(t) => {
            let args = vec![city, t.as_str()];
            assert(texts(args@) =~= seq![city@, t@]);
            format_locale(locale.time_response.as_str(), args.as_slice())
        },
        Err(e) => if same_text(e.as_str(), ZONE_NOT_FOUND) {
            let args = vec![city];
            assert(texts(args@) =~= seq![city@]);
            format_locale(locale.time_zone_not_found.as_str(), args.as_slice())
        } else {
            let args = vec![city, e.as_str()];
            assert(texts(args@) =~= seq![city@, e@]);
            format_locale(locale.time_fetch_error.as_str(), args.as_slice())
        },
    }
}

/// What is said to a question about the time on the server, given what its
/// clock shows.
pub fn server_time_reply(locale: &LocaleStrings, time: &str) -> (r: String)
    ensures
        r@ == server_time_answer(*locale, time@),
        r@ == filled(locale.time_server_response@, seq![time@]) + "\n"@
            + locale.time_city_suggestion@,
{
    let args = vec![time];
    assert(texts(args@) =~= seq![time@]);
    let said = format_locale(locale.time_server_response.as_str(), args.as_slice());
    joined3(said.as_str(), "\n", locale.time_city_suggestion.as_str())
}

/// What to do about the message `input_text` that asks for `intent`, at `now`.
pub fn answer(intent: Intent, input_text: &str, state: &AppState, now: i64) -> (r: Plan)
    requires
        on_the_clock(now),
    ensures
        r@ == plan_of(intent@, input_text@, *state, now),
        tells_city_time(r@, intent@, *state, now),
        intent is Greeting ==> (r matches Plan::Say(t) && t@ == state.locale.greeting@),
        intent is StatusCheck ==> (r matches Plan::Say(t) && t@ == state.locale.status_check@),
        intent matches Intent::Weather { city } ==> (r matches Plan::AskWeather { city: asked }
            && asked@ == city@),
        intent is WeatherNoCity ==> (r matches Plan::Say(t) && t@
            == state.locale.weather_request_city@),
        intent is TimeNoCity ==> (r matches Plan::Say(t) && t@
            == state.locale.time_request_city@),
        intent is Fallback ==> (r matches Plan::Say(t) && t@ == state.locale.fallback_reply@),
        intent is ServerTime ==> (r matches Plan::Say(t) && t@ == filled(
            state.locale.time_server_response@,
            seq![utc_text(now)],
        ) + "\n"@ + state.locale.time_city_suggestion@),
        intent is Slash ==> (r matches Plan::Say(t) && t@ == NO_COMMANDS@),
        intent is Unknown ==> (r matches Plan::Say(t) && t@ == filled(
            state.locale.unknown_command@,
            seq![input_text@],
        )),
{
    let locale = &state.locale;
    match intent {
        Intent::Greeting => Plan::Say(locale.greeting.clone()),
        Intent::StatusCheck => Plan::Say(locale.status_check.clone()),
        Intent::Weather { city } => Plan::AskWeather { city },
        Intent::WeatherNoCity => Plan::Say(locale.weather_request_city.clone()),
        Intent::Time { city } => {
            let time = time_for_city_at(city.as_str(), &state.city_tz_map, now);
            Plan::Say(time_reply(locale, city.as_str(), time))
        },
        Intent::TimeNoCity => Plan::Say(locale.time_request_city.clone()),
        Intent::Fallback => Plan::Say(locale.fallback_reply.clone()),
        Intent::ServerTime => {
            let time = server_time_at(now);
            Plan::Say(server_time_reply(locale, time.as_str()))
        },
        Intent::Slash => Plan::Say(NO_COMMANDS.to_string()),
        Intent::Unknown => {
            let args = vec![input_text];
            assert(texts(args@) =~= seq![input_text@]);
            Plan::Say(format_locale(locale.unknown_command.as_str(), args.as_slice()))
        },
    }
}

/// Whether it matters what time it is when `intent` is answered.
pub fn needs_clock(intent: &Intent, state: &AppState) -> (r: bool)
    ensures
        r == depends_on_time(intent@, *state),
{
    match intent {
        Intent::Time { city } => can_tell_time(city.as_str(), &state.city_tz_map),
        Intent::ServerTime => true,
        _ => false,
    }
}

/// What to do about the message `input_text`, at `now`.
pub fn generate_response_at(input_text: &str, state: &AppState, now: i64) -> (r: Plan)
    requires
        on_the_clock(now),
    ensures
        is_plan_for(r@, input_text@, *state, now),
{
    let intent = understand(input_text);
    answer(intent, input_text, state, now)
}

/// What to do about the message `input_text`, right now. Where it does not
/// matter what time it is the clock is not read, and the plan is the one for any
/// time; where it does, the plan is the one for a time that the clock gave.
pub fn generate_response(input_text: &str, state: &AppState) -> (r: Plan)
    ensures
        exists|now: i64| #[trigger]
            on_the_clock(now) && is_plan_for(r@, input_text@, *state, now),
        !depends_on_time(understood(input_text@), *state) ==> forall|now: i64|
            r@ == #[trigger] plan_of(understood(input_text@), input_text@, *state, now),
        depends_on_time(understood(input_text@), *state) ==> exists|now: i64| #[trigger]
            read_from_clock(now) && is_plan_for(r@, input_text@, *state, now),
{
    let intent = understand(input_text);
    let now: i64 = if needs_clock(&intent, state) {
        read_clock()
    } else {
        0
    };
    assert(on_the_clock(now));
    answer(intent, input_text, state, now)
}

/// The weather is told in the words of the phrase for it: whatever the phrase has
/// around its three holes, with the city, the rounded temperature and the
/// description in their place, each as the report has it.
pub proof fn law_weather_is_said(
    locale: LocaleStrings,
    city: Seq<char>,
    report: WeatherReportView,
    a: Seq<char>,
    b: Seq<char>,
    c: Seq<char>,
    d: Seq<char>,
)
    requires
        locale.weather_response@ == a + hole() + b + hole() + c + hole() + d,
        !has_hole(a),
        !has_hole(a + report.city + b),
        !has_hole(a + report.city + b + report.temp_rounded + c),
    ensures
        weather_answer(locale, city, Ok(report)) == a + report.city + b + report.temp_rounded + c
            + report.description + d,
{
    law_three_arguments(
        a,
        b,
        c,
        d,
        report.city,
        report.temp_rounded,
        report.description,
    );
}

/// A failure to get the weather is told in the words of the phrase for it: with
/// the city that was asked for and what went wrong in place of its two holes.
pub proof fn law_weather_failure_is_said(
    locale: LocaleStrings,
    city: Seq<char>,
    e: Seq<char>,
    a: Seq<char>,
    b: Seq<char>,
    c: Seq<char>,
)
    requires
        locale.weather_fetch_error@ == a + hole() + b + hole() + c,
        !has_hole(a),
        !has_hole(a + city + b),
    ensures
        weather_answer(locale, city, Err(e)) == a + city + b + e + c,
{
    law_two_arguments(a, b, c, city, e);
}

/// Whatever the phrases are, they are filled with what was found out, and with
/// nothing else.
pub proof fn law_arguments_of_the_weather(
    locale: LocaleStrings,
    city: Seq<char>,
    report: WeatherReportView,
    e: Seq<char>,
)
    ensures
        weather_answer(locale, city, Ok(report)) == filled(
            locale.weather_response@,
            seq![report.city, report.temp_rounded, report.description],
        ),
        weather_answer(locale, city, Err(e)) == filled(
            locale.weather_fetch_error@,
            seq![city, e],
        ),
{
}

/// The time in a city is told in the words of the phrase for it: with the city as
/// it was named and the time in place of its two holes.
pub proof fn law_time_is_said(
    locale: LocaleStrings,
    city: Seq<char>,
    t: Seq<char>,
    a: Seq<char>,
    b: Seq<char>,
    c: Seq<char>,
)
    requires
        locale.time_response@ == a + hole() + b + hole() + c,
        !has_hole(a),
        !has_hole(a + city + b),
    ensures
        time_answer(locale, city, Ok(t)) == a + city + b + t + c,
{
    law_two_arguments(a, b, c, city, t);
}

/// Why the time could not be told is said in the words of one of two phrases: a
/// city without a time zone is named, and anything else is told with the city.
pub proof fn law_time_failure_is_said(
    locale: LocaleStrings,
    city: Seq<char>,
    e: Seq<char>,
    a: Seq<char>,
    b: Seq<char>,
    c: Seq<char>,
)
    requires
        !has_hole(a),
        !has_hole(a + city + b),
    ensures
        e == "Не найден часовой пояс"@ && locale.time_zone_not_found@ == a + hole() + b
            ==> time_answer(locale, city, Err(e)) == a + city + b,
        e != "Не найден часовой пояс"@ && locale.time_fetch_error@ == a + hole() + b + hole() + c
            ==> time_answer(locale, city, Err(e)) == a + city + b + e + c,
{
    law_single_argument(a, b, city);
    law_two_arguments(a, b, c, city, e);
}

/// Whatever the phrases are, they are filled with the city and with the time or
/// with what is wrong.
pub proof fn law_arguments_of_the_time(
    locale: LocaleStrings,
    city: Seq<char>,
    t: Seq<char>,
    e: Seq<char>,
)
    ensures
        time_answer(locale, city, Ok(t)) == filled(locale.time_response@, seq![city, t]),
        e == "Не найден часовой пояс"@ ==> time_answer(locale, city, Err(e)) == filled(
            locale.time_zone_not_found@,
            seq![city],
        ),
        e != "Не найден часовой пояс"@ ==> time_answer(locale, city, Err(e)) == filled(
            locale.time_fetch_error@,
            seq![city, e],
        ),
{
}

/// The time on the server is told in the words of the phrase for it, and the
/// suggestion to name a city follows on a line of its own.
pub proof fn law_server_time_is_said(
    locale: LocaleStrings,
    t: Seq<char>,
    a: Seq<char>,
    b: Seq<char>,
)
    ensures
        server_time_answer(locale, t) == filled(locale.time_server_response@, seq![t]) + "\n"@
            + locale.time_city_suggestion@,
        !has_hole(a) && locale.time_server_response@ == a + hole() + b ==> server_time_answer(
            locale,
            t,
        ) == a + t + b + "\n"@ + locale.time_city_suggestion@,
{
    if !has_hole(a) {
        law_single_argument(a, b, t);
    }
}

/// Small talk, questions without a city and commands are each answered with the
/// phrase for them, whatever the message and the time are; an unknown message is
/// repeated in the phrase for that.
pub proof fn law_fixed_answers(input: Seq<char>, state: AppState, now: i64)
    ensures
        plan_of(IntentView::Greeting, input, state, now) == PlanView::Say(state.locale.greeting@),
        plan_of(IntentView::StatusCheck, input, state, now) == PlanView::Say(
            state.locale.status_check@,
        ),
        plan_of(IntentView::WeatherNoCity, input, state, now) == PlanView::Say(
            state.locale.weather_request_city@,
        ),
        plan_of(IntentView::TimeNoCity, input, state, now) == PlanView::Say(
            state.locale.time_request_city@,
        ),
        plan_of(IntentView::Fallback, input, state, now) == PlanView::Say(
            state.locale.fallback_reply@,
        ),
        plan_of(IntentView::Slash, input, state, now) == PlanView::Say(
            "Команды для веб-чата пока не реализованы. Попробуйте в Telegram.\nИли используйте: 'Погода в ...', 'Время в ...'"@,
        ),
        plan_of(IntentView::Unknown, input, state, now) == PlanView::Say(
            filled(state.locale.unknown_command@, seq![input]),
        ),
{
}

/// An unknown message is repeated as it came, in place of the hole of the phrase
/// for it.
pub proof fn law_unknown_message_is_repeated(
    input: Seq<char>,
    state: AppState,
    now: i64,
    a: Seq<char>,
    b: Seq<char>,
)
    requires
        state.locale.unknown_command@ == a + hole() + b,
        !has_hole(a),
    ensures
        plan_of(IntentView::Unknown, input, state, now) == PlanView::Say(a + input + b),
{
    law_single_argument(a, b, input);
}

/// The weather service is asked for the very city that the message asks about.
pub proof fn law_weather_is_asked_for_the_city(
    city: Seq<char>,
    input: Seq<char>,
    state: AppState,
    now: i64,
)
    ensures
        plan_of(IntentView::Weather { city }, input, state, now) == (PlanView::AskWeather {
            city,
        }),
{
}

/// A question about the time in a city is answered with what the clock shows at
/// `now` in the zone that the table gives the city, with the words for a city
/// that the table lacks, or with what is wrong with the table. The city is named
/// as the message names it.
pub proof fn law_city_time_is_answered(
    city: Seq<char>,
    input: Seq<char>,
    state: AppState,
    now: i64,
)
    ensures
        ({
            let plan = plan_of(IntentView::Time { city }, input, state, now);
            let cities = state.city_tz_map@;
            let key = lowercased(trimmed(city));
            let wrong = "Внутренняя ошибка: неверный пояс '"@ + cities[key] + "' в карте"@;
            &&& cities.contains_key(key) && zone_known(cities[key]) ==> plan == PlanView::Say(
                filled(
                    state.locale.time_response@,
                    seq![city, zone_text(cities[key], now, "%H:%M:%S (%Y-%m-%d %Z)"@)],
                ),
            )
            &&& cities.contains_key(key) && !zone_known(cities[key]) ==> plan == PlanView::Say(
                filled(state.locale.time_fetch_error@, seq![city, wrong]),
            )
            &&& !cities.contains_key(key) ==> plan == PlanView::Say(
                filled(state.locale.time_zone_not_found@, seq![city]),
            )
        }),
{
    law_time_errors(state.locale, city, state.city_tz_map@[lowercased(trimmed(city))]);
}

/// A question about the time on the server is answered with how the clock shows
/// `now` in UTC, and with the suggestion to name a city.
pub proof fn law_server_time_is_answered(input: Seq<char>, state: AppState, now: i64)
    requires
        0 <= now,
    ensures
        exists|t: Seq<char>| #[trigger]
            tells(t, now as int, "UTC"@) && plan_of(IntentView::ServerTime, input, state, now)
                == PlanView::Say(
                filled(state.locale.time_server_response@, seq![t]) + "\n"@
                    + state.locale.time_city_suggestion@,
            ),
{
    law_utc_is_shown(now);
}

/// The time matters exactly to the question about the time on the server, and to
/// one about a city for which the table has a zone that exists.
pub proof fn law_what_needs_the_clock(intent: IntentView, state: AppState)
    ensures
        intent matches IntentView::Time { city } ==> (depends_on_time(intent, state)
            <==> state.city_tz_map@.contains_key(lowercased(trimmed(city))) && zone_known(
            state.city_tz_map@[lowercased(trimmed(city))],
        )),
        !(intent is Time) ==> (depends_on_time(intent, state) <==> intent is ServerTime),
{
}

/// A plan for a message is the plan for what the message asks for, and there is
/// one plan for a message at a time.
pub proof fn law_one_plan(
    plan: PlanView,
    other: PlanView,
    input: Seq<char>,
    state: AppState,
    now: i64,
)
    requires
        is_plan_for(plan, input, state, now),
    ensures
        plan == plan_of(understood(input), input, state, now),
        is_plan_for(other, input, state, now) ==> other == plan,
        plain_text(trimmed(input)) ==> plan == plan_of(
            understood_with(input, lower_text(trimmed(input))),
            input,
            state,
            now,
        ),
        plan matches PlanView::AskWeather { city } ==> names_city(city, input),
{
}

/// What comes of a message that begins with `"погода в "`, in any case: the
/// service is asked for the city that stands on the line behind, or the user is
/// asked for the city where nothing stands there.
pub proof fn law_weather_message_asks_the_service(
    plan: PlanView,
    input: Seq<char>,
    state: AppState,
    now: i64,
)
    requires
        is_plan_for(plan, input, state, now),
        begins("погода в "@, input),
    ensures
        ({
            let city = trimmed(first_line(trimmed_start(input.skip(9))));
            &&& city.len() > 0 ==> plan == (PlanView::AskWeather { city })
            &&& city.len() == 0 ==> plan == PlanView::Say(state.locale.weather_request_city@)
        }),
{
    law_promises(input);
}

/// What comes of a message that begins with `"время в "`, in any case, and is no
/// question about the weather: the time is told in the city that stands on the
/// line behind, or the user is asked for the city where nothing stands there.
pub proof fn law_time_message_is_told_the_time(
    plan: PlanView,
    input: Seq<char>,
    state: AppState,
    now: i64,
)
    requires
        is_plan_for(plan, input, state, now),
        begins("время в "@, input),
        weather_question(input) is None,
    ensures
        ({
            let city = trimmed(first_line(trimmed_start(input.skip(8))));
            let cities = state.city_tz_map@;
            let key = lowercased(trimmed(city));
            &&& city.len() == 0 ==> plan == PlanView::Say(state.locale.time_request_city@)
            &&& city.len() > 0 && cities.contains_key(key) && zone_known(cities[key]) ==> plan
                == PlanView::Say(
                filled(
                    state.locale.time_response@,
                    seq![city, zone_text(cities[key], now, "%H:%M:%S (%Y-%m-%d %Z)"@)],
                ),
            )
            &&& city.len() > 0 && !cities.contains_key(key) ==> plan == PlanView::Say(
                filled(state.locale.time_zone_not_found@, seq![city]),
            )
        }),
{
    law_promises(input);
    let city = trimmed(first_line(trimmed_start(input.skip(8))));
    law_city_time_is_answered(city, input, state, now);
}

/// A plan is seen as what it holds.
pub proof fn law_plan_is_seen_whole(text: String, city: String)
    ensures
        Plan::Say(text)@ == PlanView::Say(text@),
        (Plan::AskWeather { city })@ == (PlanView::AskWeather { city: city@ }),
{
}

/// What is done about a message depends on the time only where the message asks
/// for the time on the server, or for the time in a city where it can be told.
pub proof fn law_only_time_depends_on_time(
    intent: IntentView,
    input: Seq<char>,
    state: AppState,
    now: i64,
    later: i64,
)
    requires
        !depends_on_time(intent, state),
    ensures
        plan_of(intent, input, state, now) == plan_of(intent, input, state, later),
{
}

/// The weather service is asked exactly where the message asks for the weather
/// in a city.
pub proof fn law_weather_is_asked(intent: IntentView, input: Seq<char>, state: AppState, now: i64)
    ensures
        plan_of(intent, input, state, now) is AskWeather <==> intent is Weather,
{
}

/// A city that is not in the table is answered with the phrase for that, and a
/// table that gives the city a zone that does not exist is answered as a
/// failure.
pub proof fn law_time_errors(locale: LocaleStrings, city: Seq<char>, zone: Seq<char>)
    ensures
        time_answer(locale, city, Err(ZONE_NOT_FOUND@)) == filled(
            locale.time_zone_not_found@,
            seq![city],
        ),
        time_answer(locale, city, Err(bad_zone(zone))) == filled(
            locale.time_fetch_error@,
            seq![city, bad_zone(zone)],
        ),
{
    reveal_strlit("Внутренняя ошибка: неверный пояс '");
    reveal_strlit("Не найден часовой пояс");
    assert(bad_zone(zone)[0] == 'В');
    assert(ZONE_NOT_FOUND@[0] == 'Н');
}

} // verus!

//! What is sent to a Telegram chat.
use crate::clock::{
    can_tell, can_tell_time, city_time, on_the_clock, read_clock, read_from_clock,
    tells_in_some_zone, time_for_city_at, time_under, zone_known, zone_text,
};
use crate::intent::understood;
use crate::locale::{
    filled, format_locale, has_hole, hole, law_single_argument, law_three_arguments,
    law_two_arguments, texts, LocaleStrings,
};
use crate::reply::{
    depends_on_time, generate_response, generate_response_at, is_plan_for, plan_of,
    weather_answer, weather_reply, AppState, Plan, PlanView,
};
use crate::text::{
    decimal, joined3, lower_text, lowercased, plain_text, result_text, trimmed, trimmed_end,
    trimmed_start, u16_to_string,
};
use crate::weather::{outcome_view, WeatherReport, WeatherReportView};
use vstd::prelude::*;

verus! {

/// The commands that the bot has in Telegram.
#[derive(Debug, Clone, Copy, PartialEq, Eq)]
pub enum Command {
    /// List the commands.
    Help,
    /// Tell about the bot.
    About,
    /// Tell how the services are doing.
    Status,
    /// Tell the weather in Moscow.
    WeatherMoscow,
    /// Tell the time in London.
    TimeLondon,
}

/// The city of `Command::WeatherMoscow`.
pub const MOSCOW: &'static str = "Москва";

/// The city of `Command::TimeLondon`.
pub const LONDON: &'static str = "Лондон";

/// A message to send.
#[derive(Debug, PartialEq, Eq)]
pub struct Outgoing {
    pub text: String,
    /// Whether the keyboard goes with it.
    pub keyboard: bool,
}

/// What an `Outgoing` holds.
pub struct OutgoingView {
    pub text: Seq<char>,
    pub keyboard: bool,
}

impl View for Outgoing {
    type V = OutgoingView;

    open spec fn view(&self) -> OutgoingView {
        OutgoingView { text: self.text@, keyboard: self.keyboard }
    }
}

/// What made the bot ask for the weather.
#[derive(Debug, Clone, Copy, PartialEq, Eq)]
pub enum Origin {
    Command,
    Message,
}

/// What to do about a Telegram message.
#[derive(Debug, PartialEq, Eq)]
pub enum BotPlan {
    /// Send this.
    Send(Outgoing),
    /// Ask the weather service for `city`, and send what `weather_message` makes
    /// of what came of it.
    AskWeather { city: String, origin: Origin },
}

/// What a `BotPlan` holds.
pub enum BotPlanView {
    Send(OutgoingView),
    AskWeather { city: Seq<char>, origin: Origin },
}

impl View for BotPlan {
    type V = BotPlanView;

    open spec fn view(&self) -> BotPlanView {
        match self {
            BotPlan::Send(message) => BotPlanView::Send(message@),
            BotPlan::AskWeather { city, origin } => BotPlanView::AskWeather {
                city: city@,
                origin: *origin,
            },
        }
    }
}

/// The message `text`, with the keyboard.
pub open spec fn with_keyboard(text: Seq<char>) -> BotPlanView {
    BotPlanView::Send(OutgoingView { text, keyboard: true })
}

/// The message `text`, without the keyboard.
pub open spec fn bare(text: Seq<char>) -> BotPlanView {
    BotPlanView::Send(OutgoingView { text, keyboard: false })
}

/// What is said to `Command::TimeLondon`.
pub open spec fn london_answer(
    locale: LocaleStrings,
    time: Result<Seq<char>, Seq<char>>,
) -> Seq<char> {
    match time {
        Ok(t) => filled(locale.time_response@, seq![LONDON@, t]),
        Err(e) => filled(locale.time_fetch_error@, seq![LONDON@, e]),
    }
}

/// What to do about a command at `now`; `descriptions` is the list of the
/// commands.
pub open spec fn command_plan_of(
    command: Command,
    descriptions: Seq<char>,
    state: AppState,
    now: i64,
) -> BotPlanView {
    match command {
        Command::Help => with_keyboard(descriptions + "\n\n"@ + state.locale.help_extra@),
        Command::About => with_keyboard(
            filled(state.locale.about_text@, seq![decimal(state.web_port as nat)]),
        ),
        Command::Status => with_keyboard(state.locale.status_check_command@),
        Command::WeatherMoscow => BotPlanView::AskWeather {
            city: MOSCOW@,
            origin: Origin::Command,
        },
        Command::TimeLondon => bare(
            london_answer(state.locale, city_time(LONDON@, state.city_tz_map@, now)),
        ),
    }
}

/// The plan for a message in the web chat, carried over to Telegram: what is
/// said is sent with the keyboard.
pub open spec fn message_plan_of(plan: PlanView) -> BotPlanView {
    match plan {
        PlanView::Say(text) => with_keyboard(text),
        PlanView::AskWeather { city } => BotPlanView::AskWeather {
            city,
            origin: Origin::Message,
        },
    }
}

/// What to do about the Telegram message `q_text` at `now`, where `parsed` is
/// the command that it is, if it is one.
pub open spec fn bot_plan_of(
    parsed: Option<Command>,
    q_text: Seq<char>,
    descriptions: Seq<char>,
    state: AppState,
    now: i64,
) -> BotPlanView {
    match parsed {
        Some(command) => command_plan_of(command, descriptions, state, now),
        None => message_plan_of(plan_of(understood(q_text), q_text, state, now)),
    }
}

/// What holds of the plan for `Command::TimeLondon`: the table is asked for
/// London under the name `"лондон"`, and a time that is told is how a clock shows
/// `now`.
pub open spec fn tells_london_time(plan: BotPlanView, state: AppState, now: i64) -> bool {
    &&& plan == bare(
        london_answer(state.locale, time_under("лондон"@, state.city_tz_map@, now)),
    )
    &&& time_under("лондон"@, state.city_tz_map@, now) matches Ok(t) ==> tells_in_some_zone(
        t,
        now as int,
    )
}

/// Whether `plan` is what to do about the Telegram message `q_text` at `now`. A
/// message that is no command is answered by the plan that the web chat has for
/// it.
pub open spec fn is_bot_plan_for(
    plan: BotPlanView,
    parsed: Option<Command>,
    q_text: Seq<char>,
    descriptions: Seq<char>,
    state: AppState,
    now: i64,
) -> bool {
    &&& plan == bot_plan_of(parsed, q_text, descriptions, state, now)
    &&& parsed == Some(Command::TimeLondon) ==> tells_london_time(plan, state, now)
    &&& parsed is None ==> exists|message: PlanView| #[trigger]
        is_plan_for(message, q_text, state, now) && plan == message_plan_of(message)
}

/// What is sent about the weather in `city`. A command is answered with the
/// temperature in full and without the keyboard, a message with the temperature
/// rounded and with the keyboard.
pub open spec fn weather_message_of(
    locale: LocaleStrings,
    city: Seq<char>,
    origin: Origin,
    outcome: Result<WeatherReportView, Seq<char>>,
) -> OutgoingView {
    match origin {
        Origin::Command => OutgoingView {
            text: match outcome {
                Ok(report) => filled(
                    locale.weather_response@,
                    seq![report.city, report.temp, report.description],
                ),
                Err(e) => filled(locale.weather_fetch_error@, seq![city, e]),
            },
            keyboard: false,
        },
        Origin::Message => OutgoingView {
            text: weather_answer(locale, city, outcome),
            keyboard: true,
        },
    }
}

/// What is said to `Command::TimeLondon`, given what the clock shows there.
pub fn london_reply(locale: &LocaleStrings, time: Result<String, String>) -> (r: String)
    ensures
        r@ == london_answer(*locale, result_text(time)),
        time matches Ok(t) ==> r@ == filled(locale.time_response@, seq!["Лондон"@, t@]),
        time matches Err(e) ==> r@ == filled(locale.time_fetch_error@, seq!["Лондон"@, e@]),
{
    match time {
        Ok(t) => {
            let args = vec![LONDON, t.as_str()];
            assert(texts(args@) =~= seq![LONDON@, t@]);
            format_locale(locale.time_response.as_str(), args.as_slice())
        },
        Err(e) => {
            let args = vec![LONDON, e.as_str()];
            assert(texts(args@) =~= seq![LONDON@, e@]);
            format_locale(locale.time_fetch_error.as_str(), args.as_slice())
        },
    }
}

proof fn lemma_london()
    ensures
        plain_text(trimmed(LONDON@)),
        lower_text(trimmed(LONDON@)) == "лондон"@,
{
    reveal_strlit("Лондон");
    reveal_strlit("лондон");
    assert(trimmed_start(LONDON@) == LONDON@);
    assert(trimmed_end(LONDON@) == LONDON@);
    assert(lower_text(LONDON@) =~= "лондон"@);
}

/// What to do about a command at `now`; `descriptions` is the list of the
/// commands.
pub fn command_plan_at(command: Command, descriptions: &str, state: &AppState, now: i64) -> (r:
    BotPlan)
    requires
        on_the_clock(now),
    ensures
        r@ == command_plan_of(command, descriptions@, *state, now),
        command is TimeLondon ==> tells_london_time(r@, *state, now),
        command is Help ==> (r matches BotPlan::Send(message) && message.keyboard
            && message.text@ == descriptions@ + "\n\n"@ + state.locale.help_extra@),
        command is About ==> (r matches BotPlan::Send(message) && message.keyboard
            && message.text@ == filled(
            state.locale.about_text@,
            seq![decimal(state.web_port as nat)],
        )),
        command is Status ==> (r matches BotPlan::Send(message) && message.keyboard
            && message.text@ == state.locale.status_check_command@),
        command is WeatherMoscow ==> (r matches BotPlan::AskWeather { city, origin } && city@
            == "Москва"@ && origin == Origin::Command),
        command is TimeLondon ==> (r matches BotPlan::Send(message) && !message.keyboard),
{
    match command {
        Command::Help => {
            let text = joined3(descriptions, "\n\n", state.locale.help_extra.as_str());
            BotPlan::Send(Outgoing { text, keyboard: true })
        },
        Command::About => {
            let port = u16_to_string(state.web_port);
            let args = vec![port.as_str()];
            assert(texts(args@) =~= seq![port@]);
            let text = format_locale(state.locale.about_text.as_str(), args.as_slice());
            BotPlan::Send(Outgoing { text, keyboard: true })
        },
        Command::Status => BotPlan::Send(
            Outgoing { text: state.locale.status_check_command.clone(), keyboard: true },
        ),
        Command::WeatherMoscow => BotPlan::AskWeather {
            city: MOSCOW.to_string(),
            origin: Origin::Command,
        },
        Command::TimeLondon => {
            proof {
                lemma_london();
            }
            let time = time_for_city_at(LONDON, &state.city_tz_map, now);
            BotPlan::Send(Outgoing { text: london_reply(&state.locale, time), keyboard: false })
        },
    }
}

/// The plan for a message in the web chat, carried over to Telegram.
pub fn message_plan(plan: Plan) -> (r: BotPlan)
    ensures
        r@ == message_plan_of(plan@),
        plan matches Plan::Say(text) ==> (r matches BotPlan::Send(message) && message.keyboard
            && message.text@ == text@),
        plan matches Plan::AskWeather { city } ==> (r matches BotPlan::AskWeather {
            city: asked,
            origin,
        } && asked@ == city@ && origin == Origin::Message),
{
    match plan {
        Plan::Say(text) => BotPlan::Send(Outgoing { text, keyboard: true }),
        Plan::AskWeather { city } => BotPlan::AskWeather { city, origin: Origin::Message },
    }
}

/// What to do about the Telegram message `q_text` at `now`, where `parsed` is
/// the command that it is, if it is one.
pub fn telegram_message_handler_at(
    parsed: Option<Command>,
    q_text: &str,
    descriptions: &str,
    state: &AppState,
    now: i64,
) -> (r: BotPlan)
    requires
        on_the_clock(now),
    ensures
        is_bot_plan_for(r@, parsed, q_text@, descriptions@, *state, now),
{
    match parsed {
        Some(command) => command_plan_at(command, descriptions, state, now),
        None => message_plan(generate_response_at(q_text, state, now)),
    }
}

/// Whether it matters what time it is when the Telegram message `q_text` is
/// answered.
pub open spec fn bot_depends_on_time(
    parsed: Option<Command>,
    q_text: Seq<char>,
    state: AppState,
) -> bool {
    match parsed {
        Some(Command::TimeLondon) => can_tell(LONDON@, state.city_tz_map@),
        Some(_) => false,
        None => depends_on_time(understood(q_text), state),
    }
}

/// What to do about the Telegram message `q_text` right now, where `parsed` is
/// the command that it is, if it is one. Where it does not matter what time it
/// is the clock is not read, and the plan is the one for any time; where it does,
/// the plan is the one for a time that the clock gave.
pub fn telegram_message_handler(
    parsed: Option<Command>,
    q_text: &str,
    descriptions: &str,
    state: &AppState,
) -> (r: BotPlan)
    ensures
        exists|now: i64| #[trigger]
            on_the_clock(now) && is_bot_plan_for(
                r@,
                parsed,
                q_text@,
                descriptions@,
                *state,
                now,
            ),
        !bot_depends_on_time(parsed, q_text@, *state) ==> forall|now: i64|
            r@ == #[trigger] bot_plan_of(parsed, q_text@, descriptions@, *state, now),
        bot_depends_on_time(parsed, q_text@, *state) ==> exists|now: i64| #[trigger]
            read_from_clock(now) && is_bot_plan_for(
                r@,
                parsed,
                q_text@,
                descriptions@,
                *state,
                now,
            ),
{
    match parsed {
        Some(command) => {
            let needs_clock = match command {
                Command::TimeLondon => can_tell_time(LONDON, &state.city_tz_map),
                _ => false,
            };
            let now: i64 = if needs_clock {
                read_clock()
            } else {
                0
            };
            assert(on_the_clock(now));
            command_plan_at(command, descriptions, state, now)
        },
        None => {
            let plan = generate_response(q_text, state);
            let r = message_plan(plan);
            proof {
                if !depends_on_time(understood(q_text@), *state) {
                    assert forall|now: i64|
                        r@ == #[trigger] bot_plan_of(
                            parsed,
                            q_text@,
                            descriptions@,
                            *state,
                            now,
                        ) by {
                        assert(plan@ == plan_of(understood(q_text@), q_text@, *state, now));
                    }
                }
            }
            r
        },
    }
}

/// What is sent about the weather in `city`, given what came of asking the
/// service.
pub fn weather_message(
    locale: &LocaleStrings,
    city: &str,
    origin: Origin,
    outcome: Result<WeatherReport, String>,
) -> (r: Outgoing)
    ensures
        r@ == weather_message_of(*locale, city@, origin, outcome_view(outcome)),
        r.keyboard <==> origin == Origin::Message,
        outcome matches Ok(report) ==> {
            &&& origin == Origin::Command ==> r.text@ == filled(
                locale.weather_response@,
                seq![report.city@, report.temp.temp@, report.description@],
            )
            &&& origin == Origin::Message ==> r.text@ == filled(
                locale.weather_response@,
                seq![report.city@, report.temp.temp_rounded@, report.description@],
            )
        },
        outcome matches Err(e) ==> r.text@ == filled(
            locale.weather_fetch_error@,
            seq![city@, e@],
        ),
{
    match origin {
        Origin::Command => match outcome {
            Ok(report) => {
                let args = vec![
                    report.city.as_str(),
                    report.temp.temp.as_str(),
                    report.description.as_str(),
                ];
                assert(texts(args@) =~= seq![report@.city, report@.temp, report@.description]);
                let text = format_locale(locale.weather_response.as_str(), args.as_slice());
                Outgoing { text, keyboard: false }
            },
            Err(e) => {
                let args = vec![city, e.as_str()];
                assert(texts(args@) =~= seq![city@, e@]);
                let text = format_locale(locale.weather_fetch_error.as_str(), args.as_slice());
                Outgoing { text, keyboard: false }
            },
        },
        Origin::Message => Outgoing { text: weather_reply(locale, city, outcome), keyboard: true },
    }
}

/// The labels of the keyboard's buttons, row by row.
pub open spec fn keyboard_labels() -> Seq<Seq<Seq<char>>> {
    seq![
        seq!["/about"@, "/status"@],
        seq!["/WeatherMoscow"@, "/TimeLondon"@],
        seq!["/help"@],
    ]
}

/// The labels of the keyboard's buttons, row by row.
pub fn make_keyboard() -> (r: Vec<Vec<String>>)
    ensures
        r.deep_view() == keyboard_labels(),
        r@.len() == 3,
        r@[0]@.len() == 2 && r@[0]@[0]@ == "/about"@ && r@[0]@[1]@ == "/status"@,
        r@[1]@.len() == 2 && r@[1]@[0]@ == "/WeatherMoscow"@ && r@[1]@[1]@ == "/TimeLondon"@,
        r@[2]@.len() == 1 && r@[2]@[0]@ == "/help"@,
{
    let r = vec![
        vec!["/about".to_string(), "/status".to_string()],
        vec!["/WeatherMoscow".to_string(), "/TimeLondon".to_string()],
        vec!["/help".to_string()],
    ];
    assert(r[0].deep_view() =~= keyboard_labels()[0]);
    assert(r[1].deep_view() =~= keyboard_labels()[1]);
    assert(r[2].deep_view() =~= keyboard_labels()[2]);
    assert(r.deep_view() =~= keyboard_labels());
    r
}

/// The weather is told to a command in the words of the phrase for it: whatever
/// the phrase has around its three holes, with the city, the temperature in full,
/// sign and all, and the description in their place, each as the report has it.
pub proof fn law_weather_is_told_to_a_command(
    locale: LocaleStrings,
    city: Seq<char>,
    report: WeatherReportView,
    a: Seq<char>,
    b: Seq<char>,
    c: Seq<char>,
    d: Seq<char>,
)
    requires
        locale.weather_response@ == a + hole() + b + hole() + c + hole() + d,
        !has_hole(a),
        !has_hole(a + report.city + b),
        !has_hole(a + report.city + b + report.temp + c),
    ensures
        weather_message_of(locale, city, Origin::Command, Ok(report)) == (OutgoingView {
            text: a + report.city + b + report.temp + c + report.description + d,
            keyboard: false,
        }),
{
    law_three_arguments(a, b, c, d, report.city, report.temp, report.description);
}

/// Whatever the phrases are, they are filled with what was found out: a command
/// is told the temperature in full and a message the rounded one, both are told
/// the same failures, and the keyboard goes with messages only.
pub proof fn law_arguments_of_the_weather_message(
    locale: LocaleStrings,
    city: Seq<char>,
    report: WeatherReportView,
    e: Seq<char>,
)
    ensures
        weather_message_of(locale, city, Origin::Command, Ok(report)) == (OutgoingView {
            text: filled(
                locale.weather_response@,
                seq![report.city, report.temp, report.description],
            ),
            keyboard: false,
        }),
        weather_message_of(locale, city, Origin::Message, Ok(report)) == (OutgoingView {
            text: filled(
                locale.weather_response@,
                seq![report.city, report.temp_rounded, report.description],
            ),
            keyboard: true,
        }),
        weather_message_of(locale, city, Origin::Command, Err(e)) == (OutgoingView {
            text: filled(locale.weather_fetch_error@, seq![city, e]),
            keyboard: false,
        }),
        weather_message_of(locale, city, Origin::Message, Err(e)) == (OutgoingView {
            text: filled(locale.weather_fetch_error@, seq![city, e]),
            keyboard: true,
        }),
{
}

/// Where the temperature in full is the rounded one, a command and a message are
/// told the weather in the same words.
pub proof fn law_commands_and_messages_are_told_the_same(
    locale: LocaleStrings,
    city: Seq<char>,
    other: Seq<char>,
    report: WeatherReportView,
)
    requires
        report.temp == report.temp_rounded,
    ensures
        weather_message_of(locale, city, Origin::Command, Ok(report)).text == weather_message_of(
            locale,
            other,
            Origin::Message,
            Ok(report),
        ).text,
{
}

/// The time in London is told in the words of the phrase for the time in a city,
/// and why it could not be told in those of the phrase for that.
pub proof fn law_time_in_london_is_said(
    locale: LocaleStrings,
    t: Seq<char>,
    a: Seq<char>,
    b: Seq<char>,
    c: Seq<char>,
)
    ensures
        london_answer(locale, Ok(t)) == filled(locale.time_response@, seq!["Лондон"@, t]),
        london_answer(locale, Err(t)) == filled(locale.time_fetch_error@, seq!["Лондон"@, t]),
        !has_hole(a) && !has_hole(a + "Лондон"@ + b) && locale.time_response@ == a + hole() + b
            + hole() + c ==> london_answer(locale, Ok(t)) == a + "Лондон"@ + b + t + c,
        !has_hole(a) && !has_hole(a + "Лондон"@ + b) && locale.time_fetch_error@ == a + hole() + b
            + hole() + c ==> london_answer(locale, Err(t)) == a + "Лондон"@ + b + t + c,
{
    if !has_hole(a) && !has_hole(a + "Лондон"@ + b) {
        law_two_arguments(a, b, c, "Лондон"@, t);
    }
}

/// What each command but the one for the time is answered: the list of the
/// commands with the words that follow it, the words about the bot with its port,
/// and the words on the services, all of them with the keyboard; and the weather
/// in Moscow.
pub proof fn law_commands(descriptions: Seq<char>, state: AppState, now: i64)
    ensures
        command_plan_of(Command::Help, descriptions, state, now) == BotPlanView::Send(
            OutgoingView {
                text: descriptions + "\n\n"@ + state.locale.help_extra@,
                keyboard: true,
            },
        ),
        command_plan_of(Command::About, descriptions, state, now) == BotPlanView::Send(
            OutgoingView {
                text: filled(state.locale.about_text@, seq![decimal(state.web_port as nat)]),
                keyboard: true,
            },
        ),
        command_plan_of(Command::Status, descriptions, state, now) == BotPlanView::Send(
            OutgoingView { text: state.locale.status_check_command@, keyboard: true },
        ),
        command_plan_of(Command::WeatherMoscow, descriptions, state, now) == (
        BotPlanView::AskWeather { city: "Москва"@, origin: Origin::Command }),
{
}

/// The words about the bot give its port in decimal in place of their hole.
pub proof fn law_port_is_told(
    descriptions: Seq<char>,
    state: AppState,
    now: i64,
    a: Seq<char>,
    b: Seq<char>,
)
    requires
        state.locale.about_text@ == a + hole() + b,
        !has_hole(a),
    ensures
        command_plan_of(Command::About, descriptions, state, now) == BotPlanView::Send(
            OutgoingView { text: a + decimal(state.web_port as nat) + b, keyboard: true },
        ),
{
    law_single_argument(a, b, decimal(state.web_port as nat));
}

/// The command for the time in London is answered, without the keyboard, with
/// what the clock shows at `now` in the zone that the table gives London, or with
/// what is wrong.
pub proof fn law_time_in_london(descriptions: Seq<char>, state: AppState, now: i64)
    ensures
        ({
            let plan = command_plan_of(Command::TimeLondon, descriptions, state, now);
            let cities = state.city_tz_map@;
            let key = lowercased(trimmed("Лондон"@));
            let wrong = "Внутренняя ошибка: неверный пояс '"@ + cities[key] + "' в карте"@;
            &&& cities.contains_key(key) && zone_known(cities[key]) ==> plan
                == BotPlanView::Send(
                OutgoingView {
                    text: filled(
                        state.locale.time_response@,
                        seq!["Лондон"@, zone_text(cities[key], now, "%H:%M:%S (%Y-%m-%d %Z)"@)],
                    ),
                    keyboard: false,
                },
            )
            &&& cities.contains_key(key) && !zone_known(cities[key]) ==> plan
                == BotPlanView::Send(
                OutgoingView {
                    text: filled(state.locale.time_fetch_error@, seq!["Лондон"@, wrong]),
                    keyboard: false,
                },
            )
            &&& !cities.contains_key(key) ==> plan == BotPlanView::Send(
                OutgoingView {
                    text: filled(
                        state.locale.time_fetch_error@,
                        seq!["Лондон"@, "Не найден часовой пояс"@],
                    ),
                    keyboard: false,
                },
            )
        }),
{
}

/// Commands are answered as commands, and any other message as in the web chat:
/// what is said there is sent with the keyboard, and the weather is asked for the
/// same city.
pub proof fn law_commands_and_messages(
    command: Command,
    q_text: Seq<char>,
    descriptions: Seq<char>,
    state: AppState,
    now: i64,
    text: Seq<char>,
    city: Seq<char>,
)
    ensures
        bot_plan_of(Some(command), q_text, descriptions, state, now) == command_plan_of(
            command,
            descriptions,
            state,
            now,
        ),
        plan_of(understood(q_text), q_text, state, now) == PlanView::Say(text) ==> bot_plan_of(
            None,
            q_text,
            descriptions,
            state,
            now,
        ) == BotPlanView::Send(OutgoingView { text, keyboard: true }),
        plan_of(understood(q_text), q_text, state, now) == (PlanView::AskWeather { city })
            ==> bot_plan_of(None, q_text, descriptions, state, now) == (BotPlanView::AskWeather {
            city,
            origin: Origin::Message,
        }),
        message_plan_of(PlanView::Say(text)) == BotPlanView::Send(
            OutgoingView { text, keyboard: true },
        ),
        message_plan_of(PlanView::AskWeather { city }) == (BotPlanView::AskWeather {
            city,
            origin: Origin::Message,
        }),
{
}

/// The time matters to the command for the time in London, where the table has a
/// zone for it that exists, to no other command, and to other messages as in the
/// web chat.
pub proof fn law_what_needs_the_clock_in_telegram(
    command: Command,
    q_text: Seq<char>,
    state: AppState,
)
    ensures
        bot_depends_on_time(Some(command), q_text, state) <==> command == Command::TimeLondon
            && state.city_tz_map@.contains_key(lowercased(trimmed("Лондон"@))) && zone_known(
            state.city_tz_map@[lowercased(trimmed("Лондон"@))],
        ),
        bot_depends_on_time(None, q_text, state) <==> depends_on_time(understood(q_text), state),
{
}

/// There is one plan for a Telegram message at a time, and for a message that is
/// no command it is the plan of the web chat, carried over.
pub proof fn law_one_bot_plan(
    plan: BotPlanView,
    other: BotPlanView,
    parsed: Option<Command>,
    q_text: Seq<char>,
    descriptions: Seq<char>,
    state: AppState,
    now: i64,
)
    requires
        is_bot_plan_for(plan, parsed, q_text, descriptions, state, now),
    ensures
        plan == bot_plan_of(parsed, q_text, descriptions, state, now),
        is_bot_plan_for(other, parsed, q_text, descriptions, state, now) ==> other == plan,
        parsed is None ==> exists|message: PlanView| #[trigger]
            is_plan_for(message, q_text, state, now) && plan == message_plan_of(message),
{
}

/// What is sent and planned is seen as what it holds.
pub proof fn law_bot_plan_is_seen_whole(message: Outgoing, city: String, origin: Origin)
    ensures
        message@.text == message.text@,
        message@.keyboard == message.keyboard,
        BotPlan::Send(message)@ == BotPlanView::Send(message@),
        (BotPlan::AskWeather { city, origin })@ == (BotPlanView::AskWeather {
            city: city@,
            origin,
        }),
{
}

/// A message that is no command is answered in Telegram as it is in the web
/// chat, with the keyboard.
pub proof fn law_same_answer_as_in_the_web_chat(
    q_text: Seq<char>,
    descriptions: Seq<char>,
    state: AppState,
    now: i64,
    outcome: Result<WeatherReportView, Seq<char>>,
)
    ensures
        match plan_of(understood(q_text), q_text, state, now) {
            PlanView::Say(text) => bot_plan_of(None, q_text, descriptions, state, now)
                == with_keyboard(text),
            PlanView::AskWeather { city } => {
                &&& bot_plan_of(None, q_text, descriptions, state, now)
                    == (BotPlanView::AskWeather { city, origin: Origin::Message })
                &&& weather_message_of(state.locale, city, Origin::Message, outcome) == (
                OutgoingView {
                    text: weather_answer(state.locale, city, outcome),
                    keyboard: true,
                })
            },
        },
{
}

/// What is answered to a command does not depend on how it was written.
pub proof fn law_command_text_does_not_matter(
    command: Command,
    a: Seq<char>,
    b: Seq<char>,
    descriptions: Seq<char>,
    state: AppState,
    now: i64,
)
    ensures
        bot_plan_of(Some(command), a, descriptions, state, now) == bot_plan_of(
            Some(command),
            b,
            descriptions,
            state,
            now,
        ),
{
}

/// A failure of the weather service is told in the same words to a command and
/// to a message.
pub proof fn law_weather_failure(locale: LocaleStrings, city: Seq<char>, e: Seq<char>)
    ensures
        weather_message_of(locale, city, Origin::Command, Err(e)).text == weather_message_of(
            locale,
            city,
            Origin::Message,
            Err(e),
        ).text,
{
}

} // verus!

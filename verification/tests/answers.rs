use chrono::Utc;
use city_chat_bot::cities::CityTimezones;
use city_chat_bot::intent::Intent;
use city_chat_bot::locale::LocaleStrings;
use city_chat_bot::reply::{
    answer, generate_response, generate_response_at, needs_clock, server_time_reply, time_reply,
    weather_reply, AppState, Plan,
};
use city_chat_bot::telegram::{
    command_plan_at, london_reply, make_keyboard, message_plan, telegram_message_handler,
    telegram_message_handler_at, weather_message, BotPlan, Command, Origin, Outgoing,
};
use city_chat_bot::weather::{MainInfo, WeatherReport};

const NOW: i64 = 1_700_000_000;

fn locale() -> LocaleStrings {
    let s = |t: &str| t.to_string();
    LocaleStrings {
        greeting: s("greeting"),
        status_check: s("status_check"),
        status_check_command: s("status_check_command"),
        unknown_command: s("unknown [{}]"),
        fallback_reply: s("fallback_reply"),
        error_generic: s("error_generic"),
        weather_request_city: s("weather_request_city"),
        weather_fetch_error: s("weather error [{}] [{}]"),
        weather_response: s("weather [{}] [{}] [{}]"),
        time_request_city: s("time_request_city"),
        time_fetch_error: s("time error [{}] [{}]"),
        time_response: s("time [{}] [{}]"),
        time_zone_not_found: s("no zone [{}]"),
        time_zone_parse_error: s("time_zone_parse_error"),
        time_server_response: s("server [{}]"),
        time_city_suggestion: s("suggestion"),
        about_text: s("about [{}]"),
        help_extra: s("help_extra"),
    }
}

fn state() -> AppState {
    let mut city_tz_map = CityTimezones::new();
    city_tz_map.insert("лондон".to_string(), "Europe/London".to_string());
    city_tz_map.insert("атлантида".to_string(), "Atlantis".to_string());
    AppState { locale: locale(), city_tz_map, web_port: 6001 }
}

fn report() -> WeatherReport {
    WeatherReport {
        city: "Moscow".to_string(),
        temp: MainInfo { temp_rounded: "3.5".to_string(), temp: "3.46".to_string() },
        description: "ясно".to_string(),
    }
}

fn say(text: &str) -> Plan {
    Plan::Say(text.to_string())
}

fn send(text: &str, keyboard: bool) -> BotPlan {
    BotPlan::Send(Outgoing { text: text.to_string(), keyboard })
}

#[test]
fn answers_to_messages() {
    let st = state();
    let cases = [
        ("Привет", "greeting"),
        ("как дела", "status_check"),
        ("погода ", "weather_request_city"),
        ("время ", "time_request_city"),
        ("время в Лондон", "time [Лондон] [22:13:20 (2023-11-14 GMT)]"),
        ("время в Париж", "no zone [Париж]"),
        (
            "время в Атлантида",
            "time error [Атлантида] [Внутренняя ошибка: неверный пояс 'Atlantis' в карте]",
        ),
        ("который час", "server [22:13:20 (2023-11-14 UTC)]\nsuggestion"),
        (
            "/help",
            "Команды для веб-чата пока не реализованы. Попробуйте в Telegram.\nИли используйте: 'Погода в ...', 'Время в ...'",
        ),
        ("чепуха", "unknown [чепуха]"),
        ("  чепуха {} ", "unknown [  чепуха {} ]"),
        ("", "unknown []"),
    ];
    for (input, said) in cases {
        assert_eq!(generate_response_at(input, &st, NOW), say(said), "{}", input);
    }
}

#[test]
fn weather_is_asked_for() {
    assert_eq!(
        generate_response_at("погода в Рим ", &state(), NOW),
        Plan::AskWeather { city: "Рим".to_string() }
    );
}

#[test]
fn answer_where_no_city_was_captured() {
    assert_eq!(answer(Intent::Fallback, "x", &state(), NOW), say("fallback_reply"));
}

#[test]
fn answer_right_now() {
    let st = state();
    let before = Utc::now().timestamp();
    let plan = generate_response("время", &st);
    let after = Utc::now().timestamp();
    assert!((before..=after).any(|now| plan == generate_response_at("время", &st, now)));
    assert_eq!(generate_response("hello", &st), say("greeting"));
}

#[test]
fn only_the_time_needs_the_clock() {
    let st = state();
    let time = |city: &str| Intent::Time { city: city.to_string() };
    assert!(needs_clock(&Intent::ServerTime, &st));
    assert!(needs_clock(&time("Лондон"), &st));
    assert!(!needs_clock(&time("Париж"), &st));
    assert!(!needs_clock(&time("Атлантида"), &st));
    for intent in [
        Intent::Greeting,
        Intent::StatusCheck,
        Intent::Weather { city: "Лондон".to_string() },
        Intent::WeatherNoCity,
        Intent::TimeNoCity,
        Intent::Fallback,
        Intent::Slash,
        Intent::Unknown,
    ] {
        assert!(!needs_clock(&intent, &st), "{:?}", intent);
    }
    for input in ["привет", "погода в Рим", "время ", "время в Париж", "/help", "чепуха"] {
        assert_eq!(generate_response(input, &st), generate_response_at(input, &st, NOW));
        assert_eq!(
            telegram_message_handler(None, input, "list", &st),
            telegram_message_handler_at(None, input, "list", &st, NOW)
        );
    }
    for command in [Command::Help, Command::About, Command::Status, Command::WeatherMoscow] {
        assert_eq!(
            telegram_message_handler(Some(command), "", "list", &st),
            command_plan_at(command, "list", &st, NOW)
        );
    }
}

#[test]
fn london_right_now() {
    let st = state();
    let before = Utc::now().timestamp();
    let plan = telegram_message_handler(Some(Command::TimeLondon), "", "list", &st);
    let after = Utc::now().timestamp();
    assert!((before..=after)
        .any(|now| plan == command_plan_at(Command::TimeLondon, "list", &st, now)));
}

#[test]
fn what_is_said_of_the_weather() {
    let l = locale();
    assert_eq!(weather_reply(&l, "Москва", Ok(report())), "weather [Moscow] [3.5] [ясно]");
    assert_eq!(
        weather_reply(&l, "Москва", Err("Город не найден".to_string())),
        "weather error [Москва] [Город не найден]"
    );
}

#[test]
fn what_is_said_of_the_time() {
    let l = locale();
    assert_eq!(time_reply(&l, "Рим", Ok("t".to_string())), "time [Рим] [t]");
    assert_eq!(
        time_reply(&l, "Рим", Err("Не найден часовой пояс".to_string())),
        "no zone [Рим]"
    );
    assert_eq!(time_reply(&l, "Рим", Err("e".to_string())), "time error [Рим] [e]");
    assert_eq!(server_time_reply(&l, "t"), "server [t]\nsuggestion");
}

#[test]
fn answers_to_commands() {
    let st = state();
    let plan = |c: Command| command_plan_at(c, "list", &st, NOW);
    assert_eq!(plan(Command::Help), send("list\n\nhelp_extra", true));
    assert_eq!(plan(Command::About), send("about [6001]", true));
    assert_eq!(plan(Command::Status), send("status_check_command", true));
    assert_eq!(
        plan(Command::WeatherMoscow),
        BotPlan::AskWeather {
            city: "Москва".to_string(),
            origin: Origin::Command
        }
    );
    assert_eq!(
        plan(Command::TimeLondon),
        send("time [Лондон] [22:13:20 (2023-11-14 GMT)]", false)
    );
}

#[test]
fn london_without_a_table() {
    let mut st = state();
    st.city_tz_map = CityTimezones::new();
    assert_eq!(
        command_plan_at(Command::TimeLondon, "list", &st, NOW),
        send("time error [Лондон] [Не найден часовой пояс]", false)
    );
    assert_eq!(london_reply(&locale(), Ok("t".to_string())), "time [Лондон] [t]");
    assert_eq!(london_reply(&locale(), Err("e".to_string())), "time error [Лондон] [e]");
}

#[test]
fn ports_are_shown_in_decimal() {
    let mut st = state();
    for port in [0u16, 9, 10, 80, 6001, 65535] {
        st.web_port = port;
        assert_eq!(
            command_plan_at(Command::About, "", &st, NOW),
            send(&format!("about [{}]", port), true)
        );
    }
}

#[test]
fn telegram_answers_messages_as_the_web_chat_does() {
    let st = state();
    for input in ["Привет", "время", "погода в Рим", "/nothing", "чепуха"] {
        assert_eq!(
            telegram_message_handler_at(None, input, "list", &st, NOW),
            message_plan(generate_response_at(input, &st, NOW)),
            "{}",
            input
        );
    }
    assert_eq!(
        telegram_message_handler_at(None, "hi", "list", &st, NOW),
        send("greeting", true)
    );
    assert_eq!(
        telegram_message_handler_at(None, "погода в Рим", "list", &st, NOW),
        BotPlan::AskWeather { city: "Рим".to_string(), origin: Origin::Message }
    );
}

#[test]
fn telegram_answers_commands_whatever_their_text() {
    let st = state();
    assert_eq!(
        telegram_message_handler(Some(Command::Status), "погода в Рим", "list", &st),
        send("status_check_command", true)
    );
    assert_eq!(telegram_message_handler(None, "hi", "list", &st), send("greeting", true));
}

#[test]
fn weather_for_a_command_and_for_a_message() {
    let l = locale();
    let err = || Err("e".to_string());
    let out = |text: &str, keyboard: bool| Outgoing { text: text.to_string(), keyboard };
    assert_eq!(
        weather_message(&l, "Москва", Origin::Command, Ok(report())),
        out("weather [Moscow] [3.46] [ясно]", false)
    );
    assert_eq!(
        weather_message(&l, "Москва", Origin::Message, Ok(report())),
        out("weather [Moscow] [3.5] [ясно]", true)
    );
    assert_eq!(
        weather_message(&l, "Москва", Origin::Command, err()),
        out("weather error [Москва] [e]", false)
    );
    assert_eq!(
        weather_message(&l, "Москва", Origin::Message, err()),
        out("weather error [Москва] [e]", true)
    );
}

#[test]
fn buttons_of_the_keyboard() {
    assert_eq!(
        make_keyboard(),
        vec![
            vec!["/about", "/status"],
            vec!["/WeatherMoscow", "/TimeLondon"],
            vec!["/help"],
        ]
    );
}

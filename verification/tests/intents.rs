use city_chat_bot::intent::{classify, understand, Intent};

fn weather(city: &str) -> Intent {
    Intent::Weather { city: city.to_string() }
}

fn time(city: &str) -> Intent {
    Intent::Time { city: city.to_string() }
}

fn group(g: &str) -> Option<Option<String>> {
    Some(Some(g.to_string()))
}

#[test]
fn greetings() {
    for m in ["привет", "Привет", " ПРИВЕТ ", "здравствуй", "Hello", "hi\n", "HI"] {
        assert_eq!(understand(m), Intent::Greeting, "{}", m);
    }
    assert_eq!(understand("привет!"), Intent::Unknown);
}

#[test]
fn how_the_bot_is_doing() {
    assert_eq!(understand("Как твои дела?"), Intent::StatusCheck);
    assert_eq!(understand("как дела"), Intent::StatusCheck);
    assert_eq!(understand("как дела?"), Intent::Unknown);
    assert_eq!(understand("как твои дела"), Intent::Unknown);
}

#[test]
fn weather_in_a_city() {
    assert_eq!(understand("Погода в Москве"), weather("Москве"));
    assert_eq!(understand("какая погода в городе Томск"), weather("городе Томск"));
    assert_eq!(understand("Покажи ПОГОДУ для Нью-Йорк  "), weather("Нью-Йорк"));
    assert_eq!(understand("tell погода in London"), weather("London"));
    assert_eq!(understand("погода Рим"), weather("Рим"));
    assert_eq!(understand("погода в"), weather("в"));
    // A preposition is taken off the front of a word, too.
    assert_eq!(understand("погода Владивосток"), weather("ладивосток"));
    assert_eq!(understand("и погода, Рим\nи ещё"), weather(", Рим"));
}

#[test]
fn weather_without_a_city() {
    assert_eq!(understand("погода "), Intent::WeatherNoCity);
    assert_eq!(understand("погода\t \t"), Intent::WeatherNoCity);
    assert_eq!(understand("погода"), Intent::Unknown);
    assert_eq!(understand("weather in London"), Intent::Unknown);
}

#[test]
fn time_in_a_named_city() {
    assert_eq!(understand("Время в Лондоне"), time("Лондоне"));
    assert_eq!(understand("what time in London"), time("London"));
    assert_eq!(understand("Который час в Риме?"), time("Риме?"));
    assert_eq!(understand("часы"), time("ы"));
    assert_eq!(understand("/TimeLondon"), time("London"));
}

#[test]
fn time_without_a_city() {
    assert_eq!(understand("время "), Intent::TimeNoCity);
    assert_eq!(understand("время"), Intent::ServerTime);
    assert_eq!(understand("Который час"), Intent::ServerTime);
    assert_eq!(understand("what TIME"), Intent::ServerTime);
    assert_eq!(understand("сколько\nвремя"), Intent::ServerTime);
}

#[test]
fn weather_goes_before_time() {
    assert_eq!(understand("погода Рим время"), weather("Рим время"));
    assert_eq!(understand("время погода"), time("погода"));
}

#[test]
fn commands_and_the_rest() {
    assert_eq!(understand("/help"), Intent::Slash);
    assert_eq!(understand("/WeatherMoscow"), Intent::Slash);
    assert_eq!(understand("/"), Intent::Slash);
    assert_eq!(understand(" /help"), Intent::Unknown);
    assert_eq!(understand(""), Intent::Unknown);
    assert_eq!(understand("что-то"), Intent::Unknown);
}

#[test]
fn order_of_what_was_found() {
    assert_eq!(classify("/x", "hi", group("a"), group("b"), true), Intent::Greeting);
    assert_eq!(classify("/x", "как дела", group("a"), group("b"), true), Intent::StatusCheck);
    assert_eq!(classify("/x", "/x", group(" a "), group("b"), true), weather("a"));
    assert_eq!(classify("/x", "/x", group(" \n"), group("b"), true), Intent::WeatherNoCity);
    assert_eq!(classify("/x", "/x", Some(None), group("b"), true), Intent::Fallback);
    assert_eq!(classify("/x", "/x", None, group(" b"), true), time("b"));
    assert_eq!(classify("/x", "/x", None, group(""), true), Intent::TimeNoCity);
    assert_eq!(classify("/x", "/x", None, Some(None), true), Intent::Fallback);
    assert_eq!(classify("/x", "/x", None, None, true), Intent::ServerTime);
    assert_eq!(classify("/x", "/x", None, None, false), Intent::Slash);
    assert_eq!(classify("x", "x", None, None, false), Intent::Unknown);
    assert_eq!(classify("", "", None, None, false), Intent::Unknown);
}

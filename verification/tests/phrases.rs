use city_chat_bot::locale::{format_locale, locale_path};

#[test]
fn arguments_fill_holes_in_order() {
    assert_eq!(
        format_locale("Погода в {}: {}°C, {}.", &["Москва", "3.5", "ясно"]),
        "Погода в Москва: 3.5°C, ясно."
    );
}

#[test]
fn holes_without_an_argument_stay() {
    assert_eq!(format_locale("{} и {}", &["раз"]), "раз и {}");
    assert_eq!(format_locale("{} и {}", &[]), "{} и {}");
}

#[test]
fn arguments_without_a_hole_are_dropped() {
    assert_eq!(format_locale("пусто", &["раз", "два"]), "пусто");
    assert_eq!(format_locale("{}", &["раз", "два"]), "раз");
    assert_eq!(format_locale("", &["раз"]), "");
}

#[test]
fn a_hole_in_an_argument_takes_the_next_argument() {
    assert_eq!(format_locale("[{}] [{}]", &["a{}b", "c"]), "[acb] [{}]");
    assert_eq!(format_locale("{{}}", &["x"]), "{x}");
    assert_eq!(format_locale("{{}", &["x", "y"]), "{x");
    assert_eq!(format_locale("{}}", &["{", "y"]), "y");
}

#[test]
fn filling_in_parts_is_filling_at_once() {
    let phrase = "{}-{}-{}";
    let first = format_locale(phrase, &["1"]);
    assert_eq!(format_locale(&first, &["2", "3"]), format_locale(phrase, &["1", "2", "3"]));
}

#[test]
fn braces_that_are_not_together_are_no_hole() {
    assert_eq!(format_locale("{ } {0} }{", &["x"]), "{ } {0} }{");
}

#[test]
fn locale_file() {
    assert_eq!(locale_path("ru"), "locales/ru.toml");
    assert_eq!(locale_path(""), "locales/.toml");
}

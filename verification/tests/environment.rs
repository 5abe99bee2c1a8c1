use city_chat_bot::pages::INDEX_PAGE;
use city_chat_bot::settings::{default_lang, web_port};

fn port(v: &str) -> Option<u16> {
    web_port(Some(v.to_string()))
}

#[test]
fn port_of_the_web_server() {
    assert_eq!(web_port(None), Some(6001));
    assert_eq!(port("80"), Some(80));
    assert_eq!(port("+80"), Some(80));
    assert_eq!(port("0000000080"), Some(80));
    assert_eq!(port("0"), Some(0));
    assert_eq!(port("65535"), Some(65535));
}

#[test]
fn what_is_no_port() {
    for v in ["", "+", "-0", "-1", "++1", "65536", "99999999999999999999", " 80", "80 ", "8_0", "0x50", "٣", "x"] {
        assert_eq!(port(v), None, "{}", v);
    }
}

#[test]
fn ports_are_read_as_they_are_written() {
    for p in 0..=65535u16 {
        assert_eq!(port(&p.to_string()), Some(p));
    }
}

#[test]
fn language() {
    assert_eq!(default_lang(None), "ru");
    assert_eq!(default_lang(Some("en".to_string())), "en");
    assert_eq!(default_lang(Some(String::new())), "");
}

#[test]
fn start_page() {
    assert!(INDEX_PAGE.starts_with("<html><body><h1>Привет от Rust Ботa!</h1>"));
    assert!(INDEX_PAGE.contains("<a href=\"/static/chat.html\">веб-чат</a>"));
}

use chrono::{DateTime, Utc};
use city_chat_bot::cities::CityTimezones;
use city_chat_bot::clock::{
    can_tell_time, get_time_for_city, server_time_at, time_for_city_at, zone_time_from,
    LAST_SECOND, ZONE_NOT_FOUND,
};

fn table() -> CityTimezones {
    let mut t = CityTimezones::new();
    t.insert("москва".to_string(), "Europe/Moscow".to_string());
    t.insert("лондон".to_string(), "Europe/London".to_string());
    t.insert("нью-йорк".to_string(), "America/New_York".to_string());
    t.insert("атлантида".to_string(), "Atlantis/Center".to_string());
    t.insert("Казань".to_string(), "Europe/Moscow".to_string());
    t
}

#[test]
fn table_of_cities() {
    let mut t = table();
    assert_eq!(t.get("москва"), Some(&"Europe/Moscow".to_string()));
    assert_eq!(t.get("Москва"), None);
    t.insert("москва".to_string(), "UTC".to_string());
    assert_eq!(t.get("москва"), Some(&"UTC".to_string()));
    assert_eq!(CityTimezones::new().get("москва"), None);
}

#[test]
fn server_time_in_utc() {
    assert_eq!(server_time_at(0), "00:00:00 (1970-01-01 UTC)");
    assert_eq!(server_time_at(1_700_000_000), "22:13:20 (2023-11-14 UTC)");
    assert_eq!(server_time_at(86_399), "23:59:59 (1970-01-01 UTC)");
}

#[test]
fn time_in_a_city() {
    let t = table();
    assert_eq!(
        time_for_city_at("Москва", &t, 1_700_000_000),
        Ok("01:13:20 (2023-11-15 MSK)".to_string())
    );
    assert_eq!(
        time_for_city_at("Нью-Йорк", &t, 1_700_000_000),
        Ok("17:13:20 (2023-11-14 EST)".to_string())
    );
    assert_eq!(
        time_for_city_at("Лондон", &t, 1_720_000_000),
        Ok("10:46:40 (2024-07-03 BST)".to_string())
    );
}

#[test]
fn spelling_of_a_city_does_not_matter() {
    let t = table();
    let plain = time_for_city_at("москва", &t, 5);
    assert!(plain.is_ok());
    assert_eq!(time_for_city_at("  МОСКВА\n", &t, 5), plain);
    assert_eq!(time_for_city_at("\u{3000}МоСкВа\u{a0}", &t, 5), plain);
}

#[test]
fn city_that_is_not_in_the_table() {
    let t = table();
    assert_eq!(time_for_city_at("Париж", &t, 5), Err(ZONE_NOT_FOUND.to_string()));
    assert_eq!(time_for_city_at("", &t, 5), Err("Не найден часовой пояс".to_string()));
    // The table is asked in lower case, so a city that it has in upper case is not found.
    assert_eq!(time_for_city_at("Казань", &t, 5), Err(ZONE_NOT_FOUND.to_string()));
}

#[test]
fn zone_that_does_not_exist() {
    let t = table();
    assert_eq!(
        time_for_city_at("Атлантида", &t, 5),
        Err("Внутренняя ошибка: неверный пояс 'Atlantis/Center' в карте".to_string())
    );
    assert_eq!(
        zone_time_from("europe/moscow", None),
        Err("Внутренняя ошибка: неверный пояс 'europe/moscow' в карте".to_string())
    );
    assert_eq!(zone_time_from("UTC", Some("t".to_string())), Ok("t".to_string()));
}

#[test]
fn where_the_time_can_be_told() {
    let t = table();
    for city in ["Москва", " ЛОНДОН ", "Атлантида", "Париж", "Казань", ""] {
        assert_eq!(can_tell_time(city, &t), time_for_city_at(city, &t, 5).is_ok(), "{}", city);
    }
    assert!(can_tell_time("москва", &t));
    assert!(!can_tell_time("атлантида", &t));
    assert_eq!(get_time_for_city("атлантида", &t), time_for_city_at("атлантида", &t, 5));
}

#[test]
fn names_of_zones_are_case_sensitive() {
    let mut t = CityTimezones::new();
    t.insert("x".to_string(), "europe/moscow".to_string());
    assert!(time_for_city_at("x", &t, 5).is_err());
}

#[test]
fn the_clock_right_now() {
    let t = table();
    let before = Utc::now().timestamp();
    let shown = get_time_for_city("лондон", &t);
    let after = Utc::now().timestamp();
    assert!((before..=after).any(|now| shown == time_for_city_at("лондон", &t, now)));
    assert_eq!(get_time_for_city("Париж", &t), Err(ZONE_NOT_FOUND.to_string()));
}

#[test]
fn last_second_of_the_calendar() {
    assert_eq!(LAST_SECOND, DateTime::<Utc>::MAX_UTC.timestamp());
    assert_eq!(server_time_at(LAST_SECOND), "23:59:59 (+262142-12-31 UTC)");
    let t = table();
    assert_eq!(
        time_for_city_at("москва", &t, LAST_SECOND),
        Ok("02:59:59 (+262143-01-01 MSK)".to_string())
    );
}

#[test]
fn every_zone_tells_the_time() {
    for zone in chrono_tz::TZ_VARIANTS {
        let mut t = CityTimezones::new();
        t.insert("x".to_string(), zone.name().to_string());
        for now in [0, 1_700_000_000, 1_720_000_000, LAST_SECOND] {
            let shown = time_for_city_at("x", &t, now).unwrap();
            let b = shown.as_bytes();
            assert_eq!((b[2], b[5], b[8], b[9]), (b':', b':', b' ', b'('));
            assert!(shown[0..2].parse::<u32>().unwrap() < 24);
            assert!(shown[3..5].parse::<u32>().unwrap() < 60);
            assert!(shown[6..8].parse::<u32>().unwrap() < 60);
            assert!(shown.ends_with(')'));
        }
    }
}

#[test]
fn white_space_is_what_is_trimmed() {
    let mut t = CityTimezones::new();
    t.insert("x".to_string(), "UTC".to_string());
    for n in 0..=0x10ffffu32 {
        let white = (0x9..=0xd).contains(&n)
            || [0x20, 0x85, 0xa0, 0x1680, 0x2028, 0x2029, 0x202f, 0x205f, 0x3000].contains(&n)
            || (0x2000..=0x200a).contains(&n);
        if let Some(c) = char::from_u32(n) {
            let found = t.get(&format!("{}", c)).is_none()
                && time_for_city_at(&format!("{}x{}", c, c), &t, 0).is_ok();
            assert_eq!(found, white, "{:x}", n);
        }
    }
}

fn leap_year(year: i64) -> bool {
    year % 4 == 0 && (year % 100 != 0 || year % 400 == 0)
}

fn days_of_month(year: i64, month: i64) -> i64 {
    match month {
        2 if leap_year(year) => 29,
        2 => 28,
        4 | 6 | 9 | 11 => 30,
        _ => 31,
    }
}

fn days_before_year(year: i64) -> i64 {
    let y = year - 1;
    365 * (year - 1970) + (y / 4 - y / 100 + y / 400) - (1969 / 4 - 1969 / 100 + 1969 / 400)
}

#[test]
fn every_day_of_four_centuries_and_of_the_last_years() {
    for years in [1970..2371i64, 9990..10010, 262_130..262_143] {
        for year in years {
            let sign = if year > 9999 { "+" } else { "" };
            let mut day = days_before_year(year);
            for month in 1..=12i64 {
                for day_of_month in 1..=days_of_month(year, month) {
                    assert_eq!(
                        server_time_at(day * 86_400 + 3_600 + 120 + 3),
                        format!("01:02:03 ({}{}-{:02}-{:02} UTC)", sign, year, month, day_of_month)
                    );
                    day += 1;
                }
            }
            assert_eq!(day, days_before_year(year + 1));
        }
    }
}

#[test]
fn every_second_of_a_day() {
    for second in 0..86_400i64 {
        assert_eq!(
            server_time_at(second),
            format!(
                "{:02}:{:02}:{:02} (1970-01-01 UTC)",
                second / 3600,
                second / 60 % 60,
                second % 60
            )
        );
    }
}

#[test]
fn lower_case_of_russian_letters_and_ascii() {
    let plain = (0..0x80u32).chain(0x410..=0x44f).chain([0x401, 0x451]);
    for n in plain {
        let c = char::from_u32(n).unwrap();
        let lower = match n {
            0x41..=0x5a | 0x410..=0x42f => char::from_u32(n + 0x20).unwrap(),
            0x401 => 'ё',
            _ => c,
        };
        let mut t = CityTimezones::new();
        // What follows does not change how a letter maps.
        t.insert(format!("x{}x", lower), "UTC".to_string());
        t.insert(format!("x{}\u{3c3}\u{3c2}", lower), "UTC".to_string());
        t.insert(format!("x{}i\u{307}x", lower), "UTC".to_string());
        for city in [format!("X{}X", c), format!("x{}ΣΣ", c), format!("x{}İx", c)] {
            assert!(time_for_city_at(&city, &t, 0).is_ok(), "{}", city);
        }
    }
}

use city_chat_bot::weather::{
    after_error_body, after_json, after_send, error_message, weather_url, MainInfo, WeatherInfo,
    WeatherResponse, WeatherStep,
};

fn response(descriptions: &[&str]) -> WeatherResponse {
    WeatherResponse {
        weather: descriptions.iter().map(|d| WeatherInfo { description: d.to_string() }).collect(),
        main: MainInfo { temp_rounded: "3.5".to_string(), temp: "3.46".to_string() },
        name: "Москва".to_string(),
    }
}

#[test]
fn address_of_the_weather() {
    assert_eq!(
        weather_url("Нижний Новгород", "KEY"),
        "https://api.openweathermap.org/data/2.5/weather?q=Нижний Новгород&appid=KEY&units=metric&lang=ru"
    );
}

#[test]
fn network_error() {
    match after_send(Err("timeout".to_string())) {
        WeatherStep::Failed(m) => assert_eq!(m, "Ошибка сети: timeout"),
        other => panic!("{:?}", other),
    }
}

#[test]
fn what_to_read_of_the_reply() {
    for status in [200u16, 201, 204, 299] {
        assert!(matches!(after_send(Ok(status)), WeatherStep::ReadJson), "{}", status);
    }
    for status in [100u16, 199, 300, 304, 401, 404, 500, 999] {
        assert!(matches!(after_send(Ok(status)), WeatherStep::ReadErrorBody), "{}", status);
    }
}

#[test]
fn weather_is_told() {
    let report = after_json(Some(response(&["ясно", "дождь"]))).unwrap();
    assert_eq!(report.city, "Москва");
    assert_eq!(report.temp.temp_rounded, "3.5");
    assert_eq!(report.temp.temp, "3.46");
    assert_eq!(report.description, "ясно");
    assert_eq!(after_json(Some(response(&[]))).unwrap().description, "нет данных");
}

#[test]
fn reply_that_cannot_be_read() {
    assert_eq!(after_json(None).unwrap_err(), "Ошибка обработки ответа API погоды");
}

#[test]
fn unknown_city() {
    let body = "{\"cod\":\"404\",\"message\":\"city not found\"}";
    assert_eq!(after_error_body(404, Some(body.to_string())), "Город не найден");
    assert_eq!(after_error_body(500, Some("city not found".to_string())), "Город не найден");
    assert_eq!(error_message("s", Some("city not found".to_string())), "Город не найден");
}

#[test]
fn error_of_the_service() {
    assert_eq!(
        after_error_body(401, Some("City not found".to_string())),
        "Ошибка API погоды (401 Unauthorized)"
    );
    assert_eq!(after_error_body(404, Some(String::new())), "Ошибка API погоды (404 Not Found)");
    assert_eq!(after_error_body(503, None), "Ошибка API погоды (503 Service Unavailable)");
    assert_eq!(
        after_error_body(599, None),
        "Ошибка API погоды (599 <unknown status code>)"
    );
    assert_eq!(error_message("s", None), "Ошибка API погоды (s)");
}

#[test]
fn every_status_code_is_shown() {
    for status in 100..=999u16 {
        let m = after_error_body(status, None);
        assert!(m.starts_with(&format!("Ошибка API погоды ({} ", status)), "{}", m);
    }
}

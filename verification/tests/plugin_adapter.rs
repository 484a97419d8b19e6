use nu_plugin_weather::error::WeatherError;
use nu_plugin_weather::plugin::{
    resolve_api_key, transform_response, Weather, WeatherReport, API_KEY_NAME, CITY_PARAMETER,
    COMMAND_NAME, REPLY_FORMAT, TYPE_PARAMETER,
};
use nu_plugin_weather::request::Mode;

const CURRENT: &str = r#"{"dt":1700000000,"timezone":0,
  "main":{"temp":300.0,"feels_like":298.15},
  "weather":[{"main":"Clear","description":"clear sky"}]}"#;

const FORECAST: &str = r#"{"city":{"id":1,"name":"Huntington","population":49138,
  "timezone":-18000,"sunrise":1699963200,"sunset":1700000000},
  "list":[
   {"dt":1700006400,"main":{"temp":280.5,"feels_like":278.25},
    "weather":[{"main":"Rain","description":"light rain"}]},
   {"dt":1700049600,"main":{"temp":285,"feels_like":284},
    "weather":[{"main":"Clear","description":"clear sky"}]}]}"#;

fn text(value: &str) -> Option<String> {
    Some(value.to_string())
}

#[test]
fn names_known_to_the_host() {
    assert_eq!(COMMAND_NAME, "weather");
    assert_eq!(API_KEY_NAME, "open_weather_api_key");
    assert_eq!(CITY_PARAMETER, "city");
    assert_eq!(TYPE_PARAMETER, "type");
    assert_eq!(REPLY_FORMAT, "json");
}

#[test]
fn new_parameters_name_nothing() {
    let parameters = Weather::new();
    assert_eq!(parameters.api_key, None);
    assert_eq!(parameters.city, None);
    assert_eq!(parameters.info_type, None);
}

#[test]
fn missing_key_is_a_config_error_and_nothing_is_fetched() {
    let mut fetched = 0;
    let parameters = Weather {
        api_key: resolve_api_key(None, None),
        city: text("huntington"),
        info_type: text("current"),
    };
    match parameters.query() {
        Ok(query) => {
            if query.url().is_ok() {
                fetched += 1;
            }
        }
        Err(e) => assert_eq!(e, WeatherError::Config),
    }
    assert_eq!(fetched, 0);
    assert_eq!(Weather::new().query().unwrap_err(), WeatherError::Config);
}

#[test]
fn parameters_with_an_empty_key_give_no_query() {
    let parameters = Weather { api_key: text(""), city: None, info_type: None };
    assert_eq!(parameters.query().unwrap_err(), WeatherError::Config);
}

#[test]
fn absent_city_and_type_take_their_defaults() {
    let parameters = Weather { api_key: text("k"), city: None, info_type: None };
    let query = parameters.query().unwrap();
    assert_eq!(query.city, "huntington");
    assert_eq!(query.mode, Mode::Current);
    assert_eq!(query.api_key, "k");
    assert_eq!(
        query.url().unwrap(),
        "https://api.openweathermap.org/data/2.5/weather?q=huntington&appid=k"
    );
}

#[test]
fn named_city_and_type_are_taken() {
    let parameters = Weather { api_key: text("k"), city: text("new york"), info_type: text("forecast") };
    let query = parameters.query().unwrap();
    assert_eq!(query.city, "new york");
    assert_eq!(query.mode, Mode::Forecast);
    assert_eq!(
        query.url().unwrap(),
        "https://api.openweathermap.org/data/2.5/forecast?q=new%20york&mode=json&appid=k"
    );
    let current = Weather { api_key: text("k"), city: text("paris"), info_type: text("current") };
    assert_eq!(current.query().unwrap().mode, Mode::Current);
}

#[test]
fn any_other_type_asks_for_a_forecast() {
    let parameters = Weather { api_key: text("k"), city: None, info_type: text("hourly") };
    assert_eq!(parameters.query().unwrap().mode, Mode::Forecast);
}

#[test]
fn key_comes_from_the_configuration_first() {
    assert_eq!(resolve_api_key(text("configured"), text("environment")), text("configured"));
    assert_eq!(resolve_api_key(text("configured"), None), text("configured"));
    assert_eq!(resolve_api_key(None, text("environment")), text("environment"));
    assert_eq!(resolve_api_key(text(""), text("environment")), text("environment"));
    assert_eq!(resolve_api_key(None, None), None);
    assert_eq!(resolve_api_key(text(""), text("")), None);
    assert_eq!(resolve_api_key(text(""), None), None);
    assert_eq!(resolve_api_key(None, text("")), None);
}

#[test]
fn report_for_the_current_weather() {
    match transform_response(CURRENT, Mode::Current).unwrap() {
        WeatherReport::Current(entry) => {
            assert_eq!(entry.date, "Nov 14 2023");
            assert_eq!(entry.time, "10:13:20 pm");
            assert_eq!(entry.day_of_week, "Tuesday");
            assert_eq!(entry.main, "Clear");
            assert_eq!(entry.description, "clear sky");
            assert_eq!(entry.emoji, "\u{1F311}");
            let kelvin = f64::from_bits(entry.temperature.bits) as f32;
            assert_eq!(kelvin, 300.0);
            assert!((1.8 * (kelvin - 273.15) + 32.0 - 80.33).abs() < 0.001);
        }
        WeatherReport::Forecast(_) => panic!("a forecast for a request for the current weather"),
    }
}

#[test]
fn report_for_a_forecast() {
    match transform_response(FORECAST, Mode::Forecast).unwrap() {
        WeatherReport::Forecast(entries) => {
            assert_eq!(entries.len(), 2);
            assert_eq!(entries[0].date, "Nov 15 2023");
            assert_eq!(entries[0].time, "12:00:00 am");
            assert_eq!(entries[0].day_of_week, "Wednesday");
            assert_eq!(entries[0].main, "Rain");
            assert_eq!(entries[0].emoji, "\u{1F327}");
            assert_eq!(f64::from_bits(entries[0].temperature.bits), 280.5);
            assert_eq!(f64::from_bits(entries[0].feels_like.bits), 278.25);
            assert_eq!(entries[1].time, "12:00:00 pm");
            assert_eq!(entries[1].main, "Clear");
            assert_eq!(entries[1].emoji, "\u{2600}");
        }
        WeatherReport::Current(_) => panic!("one entry for a request for a forecast"),
    }
}

#[test]
fn forecast_without_readings_is_an_empty_report() {
    let body = r#"{"city":{"id":1,"name":"N","population":0,"timezone":0,"sunrise":0,"sunset":0},"list":[]}"#;
    match transform_response(body, Mode::Forecast).unwrap() {
        WeatherReport::Forecast(entries) => assert!(entries.is_empty()),
        WeatherReport::Current(_) => panic!("one entry for a request for a forecast"),
    }
}

#[test]
fn malformed_answer_is_never_an_empty_report() {
    let truncated = &FORECAST[..FORECAST.len() - 20];
    assert_eq!(
        transform_response(truncated, Mode::Forecast).unwrap_err(),
        WeatherError::UpstreamFormat
    );
    assert_eq!(
        transform_response(&CURRENT[..40], Mode::Current).unwrap_err(),
        WeatherError::UpstreamFormat
    );
    assert_eq!(transform_response("", Mode::Forecast).unwrap_err(), WeatherError::UpstreamFormat);
    assert_eq!(transform_response("", Mode::Current).unwrap_err(), WeatherError::UpstreamFormat);
}

#[test]
fn answer_of_the_other_mode_is_refused() {
    assert_eq!(
        transform_response(CURRENT, Mode::Forecast).unwrap_err(),
        WeatherError::UpstreamFormat
    );
    assert_eq!(
        transform_response(FORECAST, Mode::Current).unwrap_err(),
        WeatherError::UpstreamFormat
    );
}

#[test]
fn instant_beyond_the_calendar_fails_the_report() {
    let body = r#"{"dt":9223372036854775807,"main":{"temp":1,"feels_like":1},"weather":[{"main":"Fog","description":"fog"}]}"#;
    assert_eq!(transform_response(body, Mode::Current).unwrap_err(), WeatherError::Data);
}

#[test]
fn messages_and_labels() {
    assert_eq!(WeatherError::Config.message(), "Missing 'open_weather_api_key' key in config");
    assert_eq!(WeatherError::Config.label(), "key");
    assert_eq!(WeatherError::Transport.message(), "Could not load text from remote url");
    assert_eq!(WeatherError::Transport.label(), "could not load");
    assert_eq!(
        WeatherError::UpstreamFormat.message(),
        "Could not read the weather service's response"
    );
    assert_eq!(WeatherError::UpstreamFormat.label(), "could not parse");
    assert_eq!(WeatherError::Data.message(), "Timestamp outside the supported calendar range");
    assert_eq!(WeatherError::Data.label(), "out of range");
}

use nu_plugin_weather::condition::WeatherCondition;
use nu_plugin_weather::error::WeatherError;
use nu_plugin_weather::model::{ApiResponse, City, CurrentWeather, Kelvin, List, Main};
use nu_plugin_weather::normalize::{
    normalize_city, normalize_forecast, normalize_reading, normalize_with_city,
};

fn kelvin(value: f64) -> Kelvin {
    Kelvin { bits: value.to_bits() }
}

fn fahrenheit(kelvin: Kelvin) -> f32 {
    1.8 * (f64::from_bits(kelvin.bits) as f32 - 273.15) + 32.0
}

fn reading(dt: i64, timezone: Option<i64>, label: &str, description: &str) -> List {
    List {
        dt,
        main: Main { temp: kelvin(300.0), feels_like: kelvin(298.15) },
        weather: vec![CurrentWeather {
            main: WeatherCondition::from_label(label),
            description: description.to_string(),
        }],
        timezone,
    }
}

#[test]
fn clear_sky_late_in_the_evening() {
    let entry = normalize_reading(&reading(1_700_000_000, Some(0), "Clear", "clear sky")).unwrap();
    assert_eq!(entry.date, "Nov 14 2023");
    assert_eq!(entry.time, "10:13:20 pm");
    assert_eq!(entry.day_of_week, "Tuesday");
    assert_eq!(entry.main, "Clear");
    assert_eq!(entry.description, "clear sky");
    assert_eq!(entry.emoji, "\u{1F311}");
    assert_eq!(entry.temperature, kelvin(300.0));
    assert_eq!(entry.feels_like, kelvin(298.15));
    assert!((fahrenheit(entry.temperature) - 80.33).abs() < 0.001);
    assert!((fahrenheit(entry.feels_like) - 77.0).abs() < 0.001);
}

#[test]
fn the_offset_decides_between_sun_and_moon() {
    let evening = normalize_reading(&reading(1_700_000_000, None, "Clear", "clear sky")).unwrap();
    assert_eq!(evening.emoji, "\u{1F311}");
    let morning =
        normalize_reading(&reading(1_700_000_000, Some(-43_200), "Clear", "clear sky")).unwrap();
    assert_eq!(morning.time, "10:13:20 am");
    assert_eq!(morning.emoji, "\u{2600}");
    let afternoon =
        normalize_reading(&reading(1_700_000_000, Some(-21_600), "Clear", "clear sky")).unwrap();
    assert_eq!(afternoon.time, "04:13:20 pm");
    assert_eq!(afternoon.emoji, "\u{1F311}");
}

#[test]
fn absent_offset_counts_as_zero() {
    let without = normalize_reading(&reading(1_700_000_000, None, "Rain", "rain")).unwrap();
    let zero = normalize_reading(&reading(1_700_000_000, Some(0), "Rain", "rain")).unwrap();
    assert_eq!(without.date, zero.date);
    assert_eq!(without.time, zero.time);
    assert_eq!(without.day_of_week, zero.day_of_week);
    assert_eq!(without.emoji, zero.emoji);
}

#[test]
fn only_the_first_condition_is_shown() {
    let mut two = reading(1_700_000_000, None, "Snow", "light snow");
    two.weather.push(CurrentWeather {
        main: WeatherCondition::Rain,
        description: "light rain".to_string(),
    });
    let entry = normalize_reading(&two).unwrap();
    assert_eq!(entry.main, "Snow");
    assert_eq!(entry.description, "light snow");
    assert_eq!(entry.emoji, "\u{1F328}");
}

#[test]
fn unknown_condition_keeps_its_label_and_has_no_glyph() {
    let entry = normalize_reading(&reading(1_700_000_000, None, "Hail", "hail stones")).unwrap();
    assert_eq!(entry.main, "Hail");
    assert_eq!(entry.description, "hail stones");
    assert_eq!(entry.emoji, "");
}

#[test]
fn reading_without_a_condition_is_refused() {
    let mut bare = reading(1_700_000_000, None, "Clear", "clear sky");
    bare.weather.clear();
    assert_eq!(normalize_reading(&bare).unwrap_err(), WeatherError::UpstreamFormat);
}

#[test]
fn reading_beyond_the_calendar_is_a_data_error() {
    let far = reading(i64::MAX, None, "Clear", "clear sky");
    assert_eq!(normalize_reading(&far).unwrap_err(), WeatherError::Data);
    let overflowing = reading(i64::MAX, Some(1), "Clear", "clear sky");
    assert_eq!(normalize_reading(&overflowing).unwrap_err(), WeatherError::Data);
}

#[test]
fn a_missing_condition_is_reported_before_the_instant() {
    let mut both = reading(i64::MAX, None, "Clear", "clear sky");
    both.weather.clear();
    assert_eq!(normalize_reading(&both).unwrap_err(), WeatherError::UpstreamFormat);
}

#[test]
fn empty_forecast_gives_no_entries() {
    let entries = normalize_forecast(&Vec::new()).unwrap();
    assert!(entries.is_empty());
}

#[test]
fn forecast_keeps_length_and_order() {
    let readings = vec![
        reading(1_700_006_400, None, "Rain", "light rain"),
        reading(1_700_017_200, Some(3_600), "Snow", "light snow"),
        reading(1_700_028_000, None, "Clear", "clear sky"),
    ];
    let entries = normalize_forecast(&readings).unwrap();
    assert_eq!(entries.len(), 3);
    assert_eq!(entries[0].time, "12:00:00 am");
    assert_eq!(entries[0].date, "Nov 15 2023");
    assert_eq!(entries[0].main, "Rain");
    assert_eq!(entries[1].time, "04:00:00 am");
    assert_eq!(entries[1].main, "Snow");
    assert_eq!(entries[2].time, "06:00:00 am");
    assert_eq!(entries[2].main, "Clear");
    assert_eq!(entries[2].emoji, "\u{1F311}");
    for (entry, reading) in entries.iter().zip(readings.iter()) {
        let alone = normalize_reading(reading).unwrap();
        assert_eq!(entry.date, alone.date);
        assert_eq!(entry.time, alone.time);
        assert_eq!(entry.day_of_week, alone.day_of_week);
        assert_eq!(entry.main, alone.main);
        assert_eq!(entry.description, alone.description);
        assert_eq!(entry.emoji, alone.emoji);
        assert_eq!(entry.temperature, alone.temperature);
        assert_eq!(entry.feels_like, alone.feels_like);
    }
}

#[test]
fn one_refused_reading_fails_the_forecast_with_the_first_error() {
    let mut bare = reading(1_700_017_200, None, "Snow", "light snow");
    bare.weather.clear();
    let data_first = vec![
        reading(1_700_006_400, None, "Rain", "light rain"),
        reading(i64::MAX, None, "Rain", "light rain"),
        bare,
    ];
    assert_eq!(normalize_forecast(&data_first).unwrap_err(), WeatherError::Data);
    let mut bare = reading(1_700_017_200, None, "Snow", "light snow");
    bare.weather.clear();
    let format_first = vec![bare, reading(i64::MAX, None, "Rain", "light rain")];
    assert_eq!(normalize_forecast(&format_first).unwrap_err(), WeatherError::UpstreamFormat);
}

#[test]
fn city_summary() {
    let city = City {
        id: 4_809_537,
        name: "Huntington".to_string(),
        population: 49_138,
        timezone: -18_000,
        sunrise: 1_699_963_200,
        sunset: 1_700_000_000,
    };
    let summary = normalize_city(&city).unwrap();
    assert_eq!(summary.name, "Huntington");
    assert_eq!(summary.population, 49_138);
    assert_eq!(summary.sunrise_utc, "Nov 14 2023 12:00:00 pm");
    assert_eq!(summary.sunset_utc, "Nov 14 2023 10:13:20 pm");
    assert_eq!(summary.sunrise_local, "Nov 14 2023 07:00:00 am");
    assert_eq!(summary.sunset_local, "Nov 14 2023 05:13:20 pm");
}

#[test]
fn city_beyond_the_calendar_is_a_data_error() {
    let city = City {
        id: 1,
        name: "N".to_string(),
        population: 0,
        timezone: 1,
        sunrise: 0,
        sunset: i64::MAX,
    };
    assert_eq!(normalize_city(&city).unwrap_err(), WeatherError::Data);
}

#[test]
fn forecast_with_its_city() {
    let forecast = ApiResponse {
        city: City {
            id: 1,
            name: "Huntington".to_string(),
            population: 49_138,
            timezone: -18_000,
            sunrise: 1_699_963_200,
            sunset: 1_700_000_000,
        },
        list: vec![
            reading(1_700_006_400, None, "Rain", "light rain"),
            reading(1_700_017_200, None, "Snow", "light snow"),
        ],
    };
    let shown = normalize_with_city(&forecast).unwrap();
    assert_eq!(shown.city.name, "Huntington");
    assert_eq!(shown.city.sunrise_local, "Nov 14 2023 07:00:00 am");
    assert_eq!(shown.entries.len(), 2);
    assert_eq!(shown.entries[0].main, "Rain");
    assert_eq!(shown.entries[1].main, "Snow");
}

#[test]
fn forecast_with_a_city_beyond_the_calendar_is_a_data_error() {
    let mut bare = reading(1_700_017_200, None, "Snow", "light snow");
    bare.weather.clear();
    let forecast = ApiResponse {
        city: City {
            id: 1,
            name: "N".to_string(),
            population: 0,
            timezone: 0,
            sunrise: i64::MIN,
            sunset: 0,
        },
        list: vec![bare],
    };
    assert_eq!(normalize_with_city(&forecast).unwrap_err(), WeatherError::Data);
}

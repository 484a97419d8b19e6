//! The shapes of the weather service's answers.

use vstd::prelude::*;
use crate::condition::WeatherCondition;

verus! {

/// A temperature in Kelvin, held as the bit pattern of an IEEE 754 double.
/// The crate hands temperatures on as they were received; arithmetic on them
/// is the caller's.
#[derive(Debug, Clone, Copy, PartialEq, Eq, Structural)]
pub struct Kelvin {
    pub bits: u64,
}

/// The temperatures of a reading.
#[derive(Debug, Clone, Copy, PartialEq, Eq, Structural)]
pub struct Main {
    /// The measured temperature.
    pub temp: Kelvin,
    /// The temperature as it is felt.
    pub feels_like: Kelvin,
}

/// One condition entry of a reading.
#[derive(Debug)]
pub struct CurrentWeather {
    /// The condition.
    pub main: WeatherCondition,
    /// The service's description of it, such as `clear sky`.
    pub description: String,
}

/// The mathematical content of a `CurrentWeather`: the condition's label and
/// the description.
pub struct CurrentWeatherView {
    pub main: Seq<char>,
    pub description: Seq<char>,
}

impl View for CurrentWeather {
    type V = CurrentWeatherView;

    open spec fn view(&self) -> CurrentWeatherView {
        CurrentWeatherView { main: self.main@, description: self.description@ }
    }
}

/// One reading: the weather at one instant.
#[derive(Debug)]
pub struct List {
    /// The instant, in seconds since the UNIX epoch, UTC.
    pub dt: i64,
    /// The temperatures.
    pub main: Main,
    /// The condition entries, in the service's order. Only the first is shown.
    pub weather: Vec<CurrentWeather>,
    /// The offset of local time from UTC in seconds, where the reading has one.
    pub timezone: Option<i64>,
}

/// The mathematical content of a `List`.
pub struct ListView {
    pub dt: i64,
    pub main: Main,
    pub weather: Seq<CurrentWeatherView>,
    pub timezone: Option<i64>,
}

/// The contents of a vector of condition entries.
pub open spec fn conditions_view(weather: Seq<CurrentWeather>) -> Seq<CurrentWeatherView> {
    Seq::new(weather.len(), |i: int| weather[i]@)
}

impl View for List {
    type V = ListView;

    open spec fn view(&self) -> ListView {
        ListView {
            dt: self.dt,
            main: self.main,
            weather: conditions_view(self.weather@),
            timezone: self.timezone,
        }
    }
}

impl List {
    /// Whether every condition is the variant that its label calls for.
    pub open spec fn is_canonical(&self) -> bool {
        forall|i: int| 0 <= i < self.weather@.len() ==> (#[trigger] self.weather@[i]).main.is_canonical()
    }
}

/// The place a forecast is for.
#[derive(Debug)]
pub struct City {
    pub id: i32,
    pub name: String,
    pub population: i32,
    /// The offset of local time from UTC, in seconds.
    pub timezone: i64,
    /// Sunrise, in seconds since the UNIX epoch, UTC.
    pub sunrise: i64,
    /// Sunset, in seconds since the UNIX epoch, UTC.
    pub sunset: i64,
}

/// The mathematical content of a `City`.
pub struct CityView {
    pub id: i32,
    pub name: Seq<char>,
    pub population: i32,
    pub timezone: i64,
    pub sunrise: i64,
    pub sunset: i64,
}

impl View for City {
    type V = CityView;

    open spec fn view(&self) -> CityView {
        CityView {
            id: self.id,
            name: self.name@,
            population: self.population,
            timezone: self.timezone,
            sunrise: self.sunrise,
            sunset: self.sunset,
        }
    }
}

/// A forecast: the city and its readings in chronological order.
#[derive(Debug)]
pub struct ApiResponse {
    pub city: City,
    pub list: Vec<List>,
}

/// The mathematical content of an `ApiResponse`.
pub struct ApiResponseView {
    pub city: CityView,
    pub list: Seq<ListView>,
}

/// The contents of a vector of readings.
pub open spec fn readings_view(list: Seq<List>) -> Seq<ListView> {
    Seq::new(list.len(), |i: int| list[i]@)
}

impl View for ApiResponse {
    type V = ApiResponseView;

    open spec fn view(&self) -> ApiResponseView {
        ApiResponseView { city: self.city@, list: readings_view(self.list@) }
    }
}

impl ApiResponse {
    /// Whether every condition of every reading is the variant that its label
    /// calls for.
    pub open spec fn is_canonical(&self) -> bool {
        forall|i: int| 0 <= i < self.list@.len() ==> (#[trigger] self.list@[i]).is_canonical()
    }
}

} // verus!

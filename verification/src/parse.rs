//! The response parser: from the text of the service's answer to a reading
//! or a forecast.
//!
//! A field of the answer is `Missing`, `Malformed` or `Present`. A required
//! field must be present; an optional one may be missing. Members that this
//! module does not ask for are ignored. Every failure is `UpstreamFormat`.

use serde_json::Value;
use vstd::prelude::*;
use crate::condition::WeatherCondition;
use crate::error::WeatherError;
use crate::json::{
    integer, is_null, items, json_document, json_integer, json_is_null, json_items, json_member,
    json_number_bits, json_text, member, number_bits, parse_document, text,
};
use crate::model::{
    conditions_view, readings_view, ApiResponse, ApiResponseView, City, CityView, CurrentWeather,
    CurrentWeatherView, Kelvin, List, ListView, Main,
};

verus! {

/// What the answer holds under one key.
#[derive(Debug)]
pub enum Field<T> {
    /// No member under the key, or `null`.
    Missing,
    /// A member of the wrong shape.
    Malformed,
    /// The member's value.
    Present(T),
}

impl<T> Field<T> {
    /// The value of a required field.
    pub open spec fn required_value(self) -> Option<T> {
        match self {
            Field::Present(value) => Some(value),
            _ => None,
        }
    }

    /// The value of an optional field: `Some(None)` where it is missing,
    /// `None` where it is malformed.
    pub open spec fn optional_value(self) -> Option<Option<T>> {
        match self {
            Field::Missing => Some(None),
            Field::Present(value) => Some(Some(value)),
            Field::Malformed => None,
        }
    }

    /// The value of a field that must be there.
    pub fn required(self) -> (r: Result<T, WeatherError>)
        ensures
            match r {
                Ok(value) => self.required_value() == Some(value),
                Err(e) => e == WeatherError::UpstreamFormat && self.required_value() is None,
            },
    {
        match self {
            Field::Present(value) => Ok(value),
            _ => Err(WeatherError::UpstreamFormat),
        }
    }

    /// The value of a field that may be left out.
    pub fn optional(self) -> (r: Result<Option<T>, WeatherError>)
        ensures
            match r {
                Ok(value) => self.optional_value() == Some(value),
                Err(e) => e == WeatherError::UpstreamFormat && self.optional_value() is None,
            },
    {
        match self {
            Field::Missing => Ok(None),
            Field::Present(value) => Ok(Some(value)),
            Field::Malformed => Err(WeatherError::UpstreamFormat),
        }
    }
}

/// Puts a reading together from its fields. The instant, the temperatures
/// and the condition entries are required, and there must be at least one
/// entry; the offset is optional.
pub fn reading_from_parts(
    dt: Field<i64>,
    timezone: Field<i64>,
    main: Field<Main>,
    weather: Field<Vec<CurrentWeather>>,
) -> (r: Result<List, WeatherError>)
    ensures
        r is Ok <==> dt is Present && !(timezone is Malformed) && main is Present
            && weather is Present && weather->Present_0@.len() > 0,
        r is Ok ==> r->Ok_0.dt == dt->Present_0 && Some(r->Ok_0.timezone)
            == timezone.optional_value() && r->Ok_0.main == main->Present_0 && r->Ok_0.weather
            == weather->Present_0,
        r is Err ==> r->Err_0 == WeatherError::UpstreamFormat,
{
    let dt = dt.required()?;
    let timezone = timezone.optional()?;
    let main = main.required()?;
    let weather = weather.required()?;
    if weather.len() == 0 {
        return Err(WeatherError::UpstreamFormat);
    }
    Ok(List { dt, main, weather, timezone })
}

/// Puts a city together from its fields, all of them required.
pub fn city_from_parts(
    id: Field<i32>,
    name: Field<String>,
    population: Field<i32>,
    timezone: Field<i64>,
    sunrise: Field<i64>,
    sunset: Field<i64>,
) -> (r: Result<City, WeatherError>)
    ensures
        r is Ok <==> id is Present && name is Present && population is Present
            && timezone is Present && sunrise is Present && sunset is Present,
        r is Ok ==> r->Ok_0.id == id->Present_0 && r->Ok_0.name == name->Present_0
            && r->Ok_0.population == population->Present_0 && r->Ok_0.timezone
            == timezone->Present_0 && r->Ok_0.sunrise == sunrise->Present_0 && r->Ok_0.sunset
            == sunset->Present_0,
        r is Err ==> r->Err_0 == WeatherError::UpstreamFormat,
{
    let id = id.required()?;
    let name = name.required()?;
    let population = population.required()?;
    let timezone = timezone.required()?;
    let sunrise = sunrise.required()?;
    let sunset = sunset.required()?;
    Ok(City { id, name, population, timezone, sunrise, sunset })
}

/// Puts a forecast together from its city and its readings, both required.
/// A forecast without readings is valid.
pub fn forecast_from_parts(city: Field<City>, list: Field<Vec<List>>) -> (r: Result<
    ApiResponse,
    WeatherError,
>)
    ensures
        r is Ok <==> city is Present && list is Present,
        r is Ok ==> r->Ok_0.city == city->Present_0 && r->Ok_0.list == list->Present_0,
        r is Err ==> r->Err_0 == WeatherError::UpstreamFormat,
{
    let city = city.required()?;
    let list = list.required()?;
    Ok(ApiResponse { city, list })
}

/// The member of `value` under `key`, unless it is `null`.
pub open spec fn present_member(value: Value, key: Seq<char>) -> Option<Value> {
    match json_member(value, key) {
        Some(found) => if json_is_null(found) {
            None
        } else {
            Some(found)
        },
        None => None,
    }
}

/// The integer of `value` under `key`.
pub open spec fn integer_field(value: Value, key: Seq<char>) -> Field<i64> {
    match present_member(value, key) {
        Some(found) => match json_integer(found) {
            Some(number) => Field::Present(number),
            None => Field::Malformed,
        },
        None => Field::Missing,
    }
}

/// The integer of `value` under `key`, where it fits 32 signed bits.
pub open spec fn small_integer_field(value: Value, key: Seq<char>) -> Field<i32> {
    match integer_field(value, key) {
        Field::Present(number) => if i32::MIN <= number <= i32::MAX {
            Field::Present(number as i32)
        } else {
            Field::Malformed
        },
        Field::Malformed => Field::Malformed,
        Field::Missing => Field::Missing,
    }
}

/// The string of `value` under `key`.
pub open spec fn text_field(value: Value, key: Seq<char>) -> Field<Seq<char>> {
    match present_member(value, key) {
        Some(found) => match json_text(found) {
            Some(characters) => Field::Present(characters),
            None => Field::Malformed,
        },
        None => Field::Missing,
    }
}

/// The temperature of `value` under `key`.
pub open spec fn kelvin_field(value: Value, key: Seq<char>) -> Field<Kelvin> {
    match present_member(value, key) {
        Some(found) => match json_number_bits(found) {
            Some(bits) => Field::Present(Kelvin { bits }),
            None => Field::Malformed,
        },
        None => Field::Missing,
    }
}

/// The temperatures of a reading: the block under `key` with its members
/// `temp` and `feels_like`.
pub open spec fn temperatures_field(value: Value, key: Seq<char>) -> Field<Main> {
    match present_member(value, key) {
        Some(block) => match (kelvin_field(block, "temp"@), kelvin_field(block, "feels_like"@)) {
            (Field::Present(temp), Field::Present(feels_like)) => Field::Present(
                Main { temp, feels_like },
            ),
            _ => Field::Malformed,
        },
        None => Field::Missing,
    }
}

/// The condition entry that `entry` holds: its members `main` and
/// `description`, both strings.
pub open spec fn condition_of(entry: Value) -> Option<CurrentWeatherView> {
    match (text_field(entry, "main"@), text_field(entry, "description"@)) {
        (Field::Present(main), Field::Present(description)) => Some(
            CurrentWeatherView { main, description },
        ),
        _ => None,
    }
}

/// The condition entries that `entries` hold, in order; `None` where one of
/// them is malformed.
pub open spec fn conditions_of(entries: Seq<Value>) -> Option<Seq<CurrentWeatherView>> {
    if forall|i: int| 0 <= i < entries.len() ==> condition_of(#[trigger] entries[i]) is Some {
        Some(Seq::new(entries.len(), |i: int| condition_of(entries[i])->0))
    } else {
        None
    }
}

/// The condition entries of a reading: the array under `key`.
pub open spec fn conditions_field(value: Value, key: Seq<char>) -> Field<Seq<CurrentWeatherView>> {
    match present_member(value, key) {
        Some(found) => match json_items(found) {
            Some(entries) => match conditions_of(entries) {
                Some(conditions) => Field::Present(conditions),
                None => Field::Malformed,
            },
            None => Field::Malformed,
        },
        None => Field::Missing,
    }
}

/// The reading that `value` holds: `dt`, the optional `timezone`, the
/// temperatures under `main` and at least one entry under `weather`.
pub open spec fn reading_of(value: Value) -> Option<ListView> {
    match (
        integer_field(value, "dt"@),
        integer_field(value, "timezone"@).optional_value(),
        temperatures_field(value, "main"@),
        conditions_field(value, "weather"@),
    ) {
        (Field::Present(dt), Some(timezone), Field::Present(main), Field::Present(weather)) => {
            if weather.len() > 0 {
                Some(ListView { dt, main, weather, timezone })
            } else {
                None
            }
        },
        _ => None,
    }
}

/// The readings that `entries` hold, in order; `None` where one of them is
/// malformed.
pub open spec fn readings_of(entries: Seq<Value>) -> Option<Seq<ListView>> {
    if forall|i: int| 0 <= i < entries.len() ==> reading_of(#[trigger] entries[i]) is Some {
        Some(Seq::new(entries.len(), |i: int| reading_of(entries[i])->0))
    } else {
        None
    }
}

/// The readings of a forecast: the array under `key`.
pub open spec fn readings_field(value: Value, key: Seq<char>) -> Field<Seq<ListView>> {
    match present_member(value, key) {
        Some(found) => match json_items(found) {
            Some(entries) => match readings_of(entries) {
                Some(readings) => Field::Present(readings),
                None => Field::Malformed,
            },
            None => Field::Malformed,
        },
        None => Field::Missing,
    }
}

/// The city of a forecast: the block under `key`, with all six members.
pub open spec fn city_field(value: Value, key: Seq<char>) -> Field<CityView> {
    match present_member(value, key) {
        Some(block) => match (
            small_integer_field(block, "id"@),
            text_field(block, "name"@),
            small_integer_field(block, "population"@),
            integer_field(block, "timezone"@),
            integer_field(block, "sunrise"@),
            integer_field(block, "sunset"@),
        ) {
            (
                Field::Present(id),
                Field::Present(name),
                Field::Present(population),
                Field::Present(timezone),
                Field::Present(sunrise),
                Field::Present(sunset),
            ) => Field::Present(CityView { id, name, population, timezone, sunrise, sunset }),
            _ => Field::Malformed,
        },
        None => Field::Missing,
    }
}

/// The forecast that `value` holds: the block under `city` and the readings
/// under `list`.
pub open spec fn forecast_of(value: Value) -> Option<ApiResponseView> {
    match (city_field(value, "city"@), readings_field(value, "list"@)) {
        (Field::Present(city), Field::Present(list)) => Some(ApiResponseView { city, list }),
        _ => None,
    }
}

/// The reading that the text `body` denotes.
pub open spec fn current_in(body: Seq<char>) -> Option<ListView> {
    match json_document(body) {
        Some(document) => reading_of(document),
        None => None,
    }
}

/// The forecast that the text `body` denotes.
pub open spec fn forecast_in(body: Seq<char>) -> Option<ApiResponseView> {
    match json_document(body) {
        Some(document) => forecast_of(document),
        None => None,
    }
}

fn read_member<'a>(value: &'a Value, key: &str) -> (r: Option<&'a Value>)
    ensures
        r is Some <==> present_member(*value, key@) is Some,
        r is Some ==> present_member(*value, key@) == Some(*r->0),
{
    match member(value, key) {
        Some(found) => if is_null(found) {
            None
        } else {
            Some(found)
        },
        None => None,
    }
}

fn read_integer(value: &Value, key: &str) -> (r: Field<i64>)
    ensures
        r == integer_field(*value, key@),
{
    match read_member(value, key) {
        Some(found) => match integer(found) {
            Some(number) => Field::Present(number),
            None => Field::Malformed,
        },
        None => Field::Missing,
    }
}

fn read_small_integer(value: &Value, key: &str) -> (r: Field<i32>)
    ensures
        r == small_integer_field(*value, key@),
{
    match read_integer(value, key) {
        Field::Present(number) => if -2147483648 <= number && number <= 2147483647 {
            Field::Present(number as i32)
        } else {
            Field::Malformed
        },
        Field::Malformed => Field::Malformed,
        Field::Missing => Field::Missing,
    }
}

fn read_text(value: &Value, key: &str) -> (r: Field<String>)
    ensures
        match r {
            Field::Present(characters) => text_field(*value, key@) == Field::Present(characters@),
            Field::Malformed => text_field(*value, key@) is Malformed,
            Field::Missing => text_field(*value, key@) is Missing,
        },
{
    match read_member(value, key) {
        Some(found) => match text(found) {
            Some(characters) => Field::Present(characters.to_owned()),
            None => Field::Malformed,
        },
        None => Field::Missing,
    }
}

fn read_kelvin(value: &Value, key: &str) -> (r: Field<Kelvin>)
    ensures
        r == kelvin_field(*value, key@),
{
    match read_member(value, key) {
        Some(found) => match number_bits(found) {
            Some(bits) => Field::Present(Kelvin { bits }),
            None => Field::Malformed,
        },
        None => Field::Missing,
    }
}

fn read_temperatures(value: &Value, key: &str) -> (r: Field<Main>)
    ensures
        r == temperatures_field(*value, key@),
{
    match read_member(value, key) {
        Some(block) => match (read_kelvin(block, "temp"), read_kelvin(block, "feels_like")) {
            (Field::Present(temp), Field::Present(feels_like)) => Field::Present(
                Main { temp, feels_like },
            ),
            _ => Field::Malformed,
        },
        None => Field::Missing,
    }
}

fn read_condition(entry: &Value) -> (r: Option<CurrentWeather>)
    ensures
        match r {
            Some(condition) => condition_of(*entry) == Some(condition@)
                && condition.main.is_canonical(),
            None => condition_of(*entry) is None,
        },
{
    match (read_text(entry, "main"), read_text(entry, "description")) {
        (Field::Present(main), Field::Present(description)) => Some(
            CurrentWeather { main: WeatherCondition::from_label(main.as_str()), description },
        ),
        _ => None,
    }
}

fn read_conditions(value: &Value, key: &str) -> (r: Field<Vec<CurrentWeather>>)
    ensures
        match r {
            Field::Present(conditions) => conditions_field(*value, key@) == Field::Present(
                conditions_view(conditions@),
            ) && forall|i: int|
                0 <= i < conditions@.len() ==> (#[trigger] conditions@[i]).main.is_canonical(),
            Field::Malformed => conditions_field(*value, key@) is Malformed,
            Field::Missing => conditions_field(*value, key@) is Missing,
        },
{
    let entries = match read_member(value, key) {
        Some(found) => match items(found) {
            Some(entries) => entries,
            None => {
                return Field::Malformed;
            },
        },
        None => {
            return Field::Missing;
        },
    };
    let mut conditions: Vec<CurrentWeather> = Vec::new();
    let mut at: usize = 0;
    while at < entries.len()
        invariant
            present_member(*value, key@) is Some,
            json_items(present_member(*value, key@)->0) == Some(entries@),
            at <= entries@.len(),
            conditions@.len() == at,
            forall|i: int|
                0 <= i < at ==> condition_of(#[trigger] entries@[i]) == Some(conditions@[i]@),
            forall|i: int| 0 <= i < at ==> (#[trigger] conditions@[i]).main.is_canonical(),
        decreases entries@.len() - at,
    {
        match read_condition(&entries[at]) {
            Some(condition) => {
                conditions.push(condition);
            },
            None => {
                return Field::Malformed;
            },
        }
        at += 1;
    }
    assert(conditions_view(conditions@) =~= conditions_of(entries@)->0);
    Field::Present(conditions)
}

fn read_reading(value: &Value) -> (r: Result<List, WeatherError>)
    ensures
        match r {
            Ok(reading) => reading_of(*value) == Some(reading@) && reading.is_canonical(),
            Err(e) => e == WeatherError::UpstreamFormat && reading_of(*value) is None,
        },
{
    reading_from_parts(
        read_integer(value, "dt"),
        read_integer(value, "timezone"),
        read_temperatures(value, "main"),
        read_conditions(value, "weather"),
    )
}

fn read_readings(value: &Value, key: &str) -> (r: Field<Vec<List>>)
    ensures
        match r {
            Field::Present(readings) => readings_field(*value, key@) == Field::Present(
                readings_view(readings@),
            ) && forall|i: int|
                0 <= i < readings@.len() ==> (#[trigger] readings@[i]).is_canonical(),
            Field::Malformed => readings_field(*value, key@) is Malformed,
            Field::Missing => readings_field(*value, key@) is Missing,
        },
{
    let entries = match read_member(value, key) {
        Some(found) => match items(found) {
            Some(entries) => entries,
            None => {
                return Field::Malformed;
            },
        },
        None => {
            return Field::Missing;
        },
    };
    let mut readings: Vec<List> = Vec::new();
    let mut at: usize = 0;
    while at < entries.len()
        invariant
            present_member(*value, key@) is Some,
            json_items(present_member(*value, key@)->0) == Some(entries@),
            at <= entries@.len(),
            readings@.len() == at,
            forall|i: int| 0 <= i < at ==> reading_of(#[trigger] entries@[i]) == Some(readings@[i]@),
            forall|i: int| 0 <= i < at ==> (#[trigger] readings@[i]).is_canonical(),
        decreases entries@.len() - at,
    {
        match read_reading(&entries[at]) {
            Ok(reading) => {
                readings.push(reading);
            },
            Err(_) => {
                return Field::Malformed;
            },
        }
        at += 1;
    }
    assert(readings_view(readings@) =~= readings_of(entries@)->0);
    Field::Present(readings)
}

fn read_city(value: &Value, key: &str) -> (r: Field<City>)
    ensures
        match r {
            Field::Present(city) => city_field(*value, key@) == Field::Present(city@),
            Field::Malformed => city_field(*value, key@) is Malformed,
            Field::Missing => city_field(*value, key@) is Missing,
        },
{
    match read_member(value, key) {
        Some(block) => match city_from_parts(
            read_small_integer(block, "id"),
            read_text(block, "name"),
            read_small_integer(block, "population"),
            read_integer(block, "timezone"),
            read_integer(block, "sunrise"),
            read_integer(block, "sunset"),
        ) {
            Ok(city) => Field::Present(city),
            Err(_) => Field::Malformed,
        },
        None => Field::Missing,
    }
}

fn read_forecast(value: &Value) -> (r: Result<ApiResponse, WeatherError>)
    ensures
        match r {
            Ok(forecast) => forecast_of(*value) == Some(forecast@) && forecast.is_canonical(),
            Err(e) => e == WeatherError::UpstreamFormat && forecast_of(*value) is None,
        },
{
    forecast_from_parts(read_city(value, "city"), read_readings(value, "list"))
}

/// Parses the answer to a request for the current weather. Fails with
/// `UpstreamFormat` exactly when `body` is no JSON document or the document
/// holds no reading.
pub fn parse_current(body: &str) -> (r: Result<List, WeatherError>)
    ensures
        match r {
            Ok(reading) => current_in(body@) == Some(reading@) && reading.is_canonical(),
            Err(e) => e == WeatherError::UpstreamFormat && current_in(body@) is None,
        },
{
    match parse_document(body) {
        Ok(document) => read_reading(&document),
        Err(_) => Err(WeatherError::UpstreamFormat),
    }
}

/// Parses the answer to a request for a forecast. Fails with `UpstreamFormat`
/// exactly when `body` is no JSON document or the document holds no forecast;
/// one malformed reading fails the whole forecast.
pub fn parse_forecast(body: &str) -> (r: Result<ApiResponse, WeatherError>)
    ensures
        match r {
            Ok(forecast) => forecast_in(body@) == Some(forecast@) && forecast.is_canonical(),
            Err(e) => e == WeatherError::UpstreamFormat && forecast_in(body@) is None,
        },
{
    match parse_document(body) {
        Ok(document) => read_forecast(&document),
        Err(_) => Err(WeatherError::UpstreamFormat),
    }
}

} // verus!

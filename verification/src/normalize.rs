//! The normalizer: from readings to display records.

use vstd::prelude::*;
use vstd::string::*;
use crate::condition::glyph_for;
use crate::error::WeatherError;
use crate::local_time::{breakdown_at, in_common_years, instant_in_range, local_breakdown};
use crate::model::{
    readings_view, ApiResponse, ApiResponseView, City, CityView, Kelvin, List, ListView,
};

verus! {

/// One reading as it is shown. The temperatures are those of the reading,
/// in Kelvin: converting them is left to the caller.
#[derive(Debug)]
pub struct NormalizedEntry {
    /// The local calendar date.
    pub date: String,
    /// The local time on a 12-hour clock.
    pub time: String,
    /// The local weekday.
    pub day_of_week: String,
    /// The measured temperature.
    pub temperature: Kelvin,
    /// The temperature as it is felt.
    pub feels_like: Kelvin,
    /// The label of the first condition.
    pub main: String,
    /// The description of the first condition.
    pub description: String,
    /// The glyph of the first condition at the local hour.
    pub emoji: String,
}

/// The mathematical content of a `NormalizedEntry`.
pub struct NormalizedEntryView {
    pub date: Seq<char>,
    pub time: Seq<char>,
    pub day_of_week: Seq<char>,
    pub temperature: Kelvin,
    pub feels_like: Kelvin,
    pub main: Seq<char>,
    pub description: Seq<char>,
    pub emoji: Seq<char>,
}

impl View for NormalizedEntry {
    type V = NormalizedEntryView;

    open spec fn view(&self) -> NormalizedEntryView {
        NormalizedEntryView {
            date: self.date@,
            time: self.time@,
            day_of_week: self.day_of_week@,
            temperature: self.temperature,
            feels_like: self.feels_like,
            main: self.main@,
            description: self.description@,
            emoji: self.emoji@,
        }
    }
}

/// The contents of a vector of entries.
pub open spec fn entries_view(entries: Seq<NormalizedEntry>) -> Seq<NormalizedEntryView> {
    Seq::new(entries.len(), |i: int| entries[i]@)
}

/// The local instant of a reading: its instant shifted by its offset, or by
/// nothing where it has none.
pub open spec fn local_instant(reading: ListView) -> int {
    match reading.timezone {
        Some(offset) => reading.dt + offset,
        None => reading.dt as int,
    }
}

/// The entry for a reading. A reading without a condition is refused as
/// `UpstreamFormat`, one whose local instant cannot be broken down as `Data`.
/// Of the conditions only the first is shown.
pub open spec fn normalized(reading: ListView) -> Result<NormalizedEntryView, WeatherError> {
    if reading.weather.len() == 0 {
        Err(WeatherError::UpstreamFormat)
    } else if !instant_in_range(local_instant(reading)) {
        Err(WeatherError::Data)
    } else {
        let shown = breakdown_at(local_instant(reading));
        Ok(
            NormalizedEntryView {
                date: shown.date,
                time: shown.time,
                day_of_week: shown.day_of_week,
                temperature: reading.main.temp,
                feels_like: reading.main.feels_like,
                main: reading.weather[0].main,
                description: reading.weather[0].description,
                emoji: glyph_for(reading.weather[0].main, shown.hour),
            },
        )
    }
}

/// The entries for a sequence of readings, in the same order. The first
/// reading that is refused fails the whole sequence with its error.
pub open spec fn normalized_all(readings: Seq<ListView>) -> Result<
    Seq<NormalizedEntryView>,
    WeatherError,
>
    decreases readings.len(),
{
    if readings.len() == 0 {
        Ok(Seq::empty())
    } else {
        match normalized_all(readings.drop_last()) {
            Ok(front) => match normalized(readings.last()) {
                Ok(entry) => Ok(front.push(entry)),
                Err(e) => Err(e),
            },
            Err(e) => Err(e),
        }
    }
}

/// Reshapes one reading into its entry. A reading with a condition and a
/// local instant in the years 1 to 9999 always has one.
pub fn normalize_reading(reading: &List) -> (r: Result<NormalizedEntry, WeatherError>)
    ensures
        match r {
            Ok(entry) => normalized(reading@) == Ok::<NormalizedEntryView, WeatherError>(entry@),
            Err(e) => normalized(reading@) == Err::<NormalizedEntryView, WeatherError>(e),
        },
        reading@.weather.len() > 0 && in_common_years(local_instant(reading@)) ==> r is Ok,
{
    if reading.weather.len() == 0 {
        return Err(WeatherError::UpstreamFormat);
    }
    let offset = match reading.timezone {
        Some(offset) => offset,
        None => 0,
    };
    let shown = local_breakdown(reading.dt, offset)?;
    let first = &reading.weather[0];
    Ok(
        NormalizedEntry {
            date: shown.date,
            time: shown.time,
            day_of_week: shown.day_of_week,
            temperature: reading.main.temp,
            feels_like: reading.main.feels_like,
            main: first.main.label().to_owned(),
            description: first.description.clone(),
            emoji: first.main.emoji(shown.hour).to_owned(),
        },
    )
}

/// Reshapes the readings of a forecast into their entries, in the same
/// order. No readings give no entries; one refused reading fails them all.
pub fn normalize_forecast(readings: &Vec<List>) -> (r: Result<Vec<NormalizedEntry>, WeatherError>)
    ensures
        match r {
            Ok(entries) => normalized_all(readings_view(readings@)) == Ok::<
                Seq<NormalizedEntryView>,
                WeatherError,
            >(entries_view(entries@)),
            Err(e) => normalized_all(readings_view(readings@)) == Err::<
                Seq<NormalizedEntryView>,
                WeatherError,
            >(e),
        },
{
    let ghost all = readings_view(readings@);
    let mut entries: Vec<NormalizedEntry> = Vec::new();
    let mut at: usize = 0;
    assert(entries_view(entries@) =~= Seq::empty());
    while at < readings.len()
        invariant
            all == readings_view(readings@),
            at <= readings@.len(),
            normalized_all(all.take(at as int)) == Ok::<Seq<NormalizedEntryView>, WeatherError>(
                entries_view(entries@),
            ),
        decreases readings@.len() - at,
    {
        let ghost before = entries_view(entries@);
        proof {
            assert(all.take(at + 1).drop_last() =~= all.take(at as int));
            lemma_failure_spreads(all, at + 1);
        }
        match normalize_reading(&readings[at]) {
            Ok(entry) => {
                entries.push(entry);
                assert(entries_view(entries@) =~= before.push(entry@));
            },
            Err(e) => {
                return Err(e);
            },
        }
        at += 1;
    }
    assert(all.take(at as int) =~= all);
    Ok(entries)
}

/// A failure among the first `count` readings is the failure of the whole
/// sequence.
pub proof fn lemma_failure_spreads(readings: Seq<ListView>, count: int)
    requires
        0 <= count <= readings.len(),
    ensures
        normalized_all(readings.take(count)) is Err ==> normalized_all(readings)
            == normalized_all(readings.take(count)),
    decreases readings.len() - count,
{
    if count < readings.len() {
        assert(readings.take(count + 1).drop_last() =~= readings.take(count));
        lemma_failure_spreads(readings, count + 1);
    } else {
        assert(readings.take(count) =~= readings);
    }
}

/// Normalizing keeps length and order: where a sequence of readings is
/// accepted, there is one entry for each reading, at the reading's place.
/// Where it is refused, one of the readings is refused by itself.
pub proof fn lemma_forecast_keeps_order(readings: Seq<ListView>)
    ensures
        match normalized_all(readings) {
            Ok(entries) => entries.len() == readings.len() && forall|i: int|
                0 <= i < readings.len() ==> normalized(#[trigger] readings[i]) == Ok::<
                    NormalizedEntryView,
                    WeatherError,
                >(entries[i]),
            Err(e) => exists|i: int|
                0 <= i < readings.len() && normalized(#[trigger] readings[i]) == Err::<
                    NormalizedEntryView,
                    WeatherError,
                >(e),
        },
    decreases readings.len(),
{
    if readings.len() > 0 {
        let front = readings.drop_last();
        lemma_forecast_keeps_order(front);
        match normalized_all(front) {
            Ok(entries) => {
                match normalized(readings.last()) {
                    Ok(entry) => {
                        assert forall|i: int| 0 <= i < readings.len() implies normalized(
                            #[trigger] readings[i],
                        ) == Ok::<NormalizedEntryView, WeatherError>(entries.push(entry)[i]) by {
                            if i < front.len() {
                                assert(readings[i] == front[i]);
                            }
                        }
                    },
                    Err(e) => {
                        assert(normalized(readings[readings.len() - 1]) == Err::<
                            NormalizedEntryView,
                            WeatherError,
                        >(e));
                    },
                }
            },
            Err(e) => {
                let i = choose|i: int|
                    0 <= i < front.len() && normalized(#[trigger] front[i]) == Err::<
                        NormalizedEntryView,
                        WeatherError,
                    >(e);
                assert(readings[i] == front[i]);
            },
        }
    }
}

/// A forecast without readings normalizes to no entries.
pub proof fn lemma_empty_forecast()
    ensures
        normalized_all(Seq::<ListView>::empty()) == Ok::<Seq<NormalizedEntryView>, WeatherError>(
            Seq::empty(),
        ),
{
}

/// The city of a forecast as it is shown.
#[derive(Debug)]
pub struct NormalizedCity {
    pub name: String,
    pub population: i32,
    /// Sunrise in UTC, as date and time.
    pub sunrise_utc: String,
    /// Sunset in UTC, as date and time.
    pub sunset_utc: String,
    /// Sunrise on the city's clock, as date and time.
    pub sunrise_local: String,
    /// Sunset on the city's clock, as date and time.
    pub sunset_local: String,
}

/// The mathematical content of a `NormalizedCity`.
pub struct NormalizedCityView {
    pub name: Seq<char>,
    pub population: i32,
    pub sunrise_utc: Seq<char>,
    pub sunset_utc: Seq<char>,
    pub sunrise_local: Seq<char>,
    pub sunset_local: Seq<char>,
}

impl View for NormalizedCity {
    type V = NormalizedCityView;

    open spec fn view(&self) -> NormalizedCityView {
        NormalizedCityView {
            name: self.name@,
            population: self.population,
            sunrise_utc: self.sunrise_utc@,
            sunset_utc: self.sunset_utc@,
            sunrise_local: self.sunrise_local@,
            sunset_local: self.sunset_local@,
        }
    }
}

/// The calendar string of an instant: its date, a space, its time.
pub open spec fn calendar_text(secs: int) -> Seq<char> {
    breakdown_at(secs).date + seq![' '] + breakdown_at(secs).time
}

/// The summary of a city: its name and population, and sunrise and sunset
/// both in UTC and shifted by the city's offset. Refused as `Data` where one
/// of the four instants cannot be broken down.
pub open spec fn normalized_city(city: CityView) -> Result<NormalizedCityView, WeatherError> {
    if instant_in_range(city.sunrise as int) && instant_in_range(city.sunset as int)
        && instant_in_range(city.sunrise + city.timezone) && instant_in_range(
        city.sunset + city.timezone,
    ) {
        Ok(
            NormalizedCityView {
                name: city.name,
                population: city.population,
                sunrise_utc: calendar_text(city.sunrise as int),
                sunset_utc: calendar_text(city.sunset as int),
                sunrise_local: calendar_text(city.sunrise + city.timezone),
                sunset_local: calendar_text(city.sunset + city.timezone),
            },
        )
    } else {
        Err(WeatherError::Data)
    }
}

fn calendar_string(epoch_seconds: i64, offset_seconds: i64) -> (r: Result<String, WeatherError>)
    ensures
        r is Ok <==> instant_in_range(epoch_seconds + offset_seconds),
        r is Ok ==> r->Ok_0@ == calendar_text(epoch_seconds + offset_seconds),
        r is Err ==> r->Err_0 == WeatherError::Data,
{
    let shown = local_breakdown(epoch_seconds, offset_seconds)?;
    let mut text = shown.date;
    text.push(' ');
    text.append(shown.time.as_str());
    Ok(text)
}

/// Reshapes the city of a forecast into its summary.
pub fn normalize_city(city: &City) -> (r: Result<NormalizedCity, WeatherError>)
    ensures
        match r {
            Ok(summary) => normalized_city(city@) == Ok::<NormalizedCityView, WeatherError>(
                summary@,
            ),
            Err(e) => normalized_city(city@) == Err::<NormalizedCityView, WeatherError>(e),
        },
{
    let sunrise_utc = calendar_string(city.sunrise, 0)?;
    let sunset_utc = calendar_string(city.sunset, 0)?;
    let sunrise_local = calendar_string(city.sunrise, city.timezone)?;
    let sunset_local = calendar_string(city.sunset, city.timezone)?;
    Ok(
        NormalizedCity {
            name: city.name.clone(),
            population: city.population,
            sunrise_utc,
            sunset_utc,
            sunrise_local,
            sunset_local,
        },
    )
}

/// A forecast as it is shown where the city matters too: the summary of the
/// city and the entries in chronological order.
#[derive(Debug)]
pub struct CityForecast {
    pub city: NormalizedCity,
    pub entries: Vec<NormalizedEntry>,
}

/// The mathematical content of a `CityForecast`.
pub struct CityForecastView {
    pub city: NormalizedCityView,
    pub entries: Seq<NormalizedEntryView>,
}

impl View for CityForecast {
    type V = CityForecastView;

    open spec fn view(&self) -> CityForecastView {
        CityForecastView { city: self.city@, entries: entries_view(self.entries@) }
    }
}

/// The summary of a forecast with its city. A city that cannot be shown
/// fails it first, then the first reading that is refused.
pub open spec fn normalized_with_city(forecast: ApiResponseView) -> Result<
    CityForecastView,
    WeatherError,
> {
    match normalized_city(forecast.city) {
        Ok(city) => match normalized_all(forecast.list) {
            Ok(entries) => Ok(CityForecastView { city, entries }),
            Err(e) => Err(e),
        },
        Err(e) => Err(e),
    }
}

/// Reshapes a forecast into the summary of its city and its entries.
pub fn normalize_with_city(forecast: &ApiResponse) -> (r: Result<CityForecast, WeatherError>)
    ensures
        match r {
            Ok(shown) => normalized_with_city(forecast@) == Ok::<CityForecastView, WeatherError>(
                shown@,
            ),
            Err(e) => normalized_with_city(forecast@) == Err::<CityForecastView, WeatherError>(e),
        },
{
    let city = normalize_city(&forecast.city)?;
    let entries = normalize_forecast(&forecast.list)?;
    Ok(CityForecast { city, entries })
}

} // verus!

//! The decisions of one invocation: which request to make, and what to hand
//! back for the answer. Reading the configuration, fetching the URL and
//! replying to the host are the caller's part.

use vstd::prelude::*;
use vstd::string::*;
use crate::error::WeatherError;
use crate::json::json_document;
use crate::model::readings_view;
use crate::normalize::{
    entries_view, normalize_forecast, normalize_reading, normalized, normalized_all,
    NormalizedEntry, NormalizedEntryView,
};
use crate::parse::{current_in, forecast_in, parse_current, parse_forecast};
use crate::request::{mode_named, Mode, WeatherQuery, WeatherQueryView, DEFAULT_CITY};

verus! {

/// The name of the command on the host.
pub const COMMAND_NAME: &'static str = "weather";

/// The name under which the key source holds the API key.
pub const API_KEY_NAME: &'static str = "open_weather_api_key";

/// The name of the invocation parameter that holds the city.
pub const CITY_PARAMETER: &'static str = "city";

/// The name of the invocation parameter that holds the kind of report.
pub const TYPE_PARAMETER: &'static str = "type";

/// The format that the host is told to read the reply as.
pub const REPLY_FORMAT: &'static str = "json";

/// The parameters of one invocation as they arrive: the API key from the key
/// source, the city and the kind of report from the host, each possibly
/// absent.
#[derive(Debug)]
pub struct Weather {
    pub api_key: Option<String>,
    pub city: Option<String>,
    pub info_type: Option<String>,
}

/// The mathematical content of a `Weather`.
pub struct WeatherView {
    pub api_key: Option<Seq<char>>,
    pub city: Option<Seq<char>>,
    pub info_type: Option<Seq<char>>,
}

/// The characters of a string that may be absent.
pub open spec fn optional_text(text: Option<String>) -> Option<Seq<char>> {
    match text {
        Some(text) => Some(text@),
        None => None,
    }
}

impl View for Weather {
    type V = WeatherView;

    open spec fn view(&self) -> WeatherView {
        WeatherView {
            api_key: optional_text(self.api_key),
            city: optional_text(self.city),
            info_type: optional_text(self.info_type),
        }
    }
}

/// The key to use: the configured one, or else the one from the environment.
/// An empty key counts as none.
pub open spec fn resolved_key(configured: Option<Seq<char>>, environment: Option<Seq<char>>)
    -> Option<Seq<char>> {
    if configured is Some && configured->0.len() > 0 {
        configured
    } else if environment is Some && environment->0.len() > 0 {
        environment
    } else {
        None
    }
}

/// The query for the parameters of an invocation. Without a key there is
/// none, and so no request: the failure is `Config`. An absent city is
/// `DEFAULT_CITY`, an absent kind of report the current weather.
pub open spec fn query_for(parameters: WeatherView) -> Result<WeatherQueryView, WeatherError> {
    if parameters.api_key is Some && parameters.api_key->0.len() > 0 {
        Ok(
            WeatherQueryView {
                city: match parameters.city {
                    Some(city) => city,
                    None => DEFAULT_CITY@,
                },
                mode: match parameters.info_type {
                    Some(info_type) => mode_named(info_type),
                    None => Mode::Current,
                },
                api_key: parameters.api_key->0,
            },
        )
    } else {
        Err(WeatherError::Config)
    }
}

/// Picks the API key from the two places it may come from.
pub fn resolve_api_key(configured: Option<String>, environment: Option<String>) -> (r: Option<
    String,
>)
    ensures
        optional_text(r) == resolved_key(optional_text(configured), optional_text(environment)),
{
    match configured {
        Some(key) => if !key.as_str().is_empty() {
            return Some(key);
        },
        None => {},
    }
    match environment {
        Some(key) => if !key.as_str().is_empty() {
            return Some(key);
        },
        None => {},
    }
    None
}

impl Weather {
    /// The parameters of an invocation that names nothing.
    pub fn new() -> (r: Weather)
        ensures
            r.api_key is None,
            r.city is None,
            r.info_type is None,
    {
        Weather { api_key: None, city: None, info_type: None }
    }

    /// The query to make for these parameters.
    pub fn query(&self) -> (r: Result<WeatherQuery, WeatherError>)
        ensures
            match r {
                Ok(query) => query_for(self@) == Ok::<WeatherQueryView, WeatherError>(query@),
                Err(e) => query_for(self@) == Err::<WeatherQueryView, WeatherError>(e),
            },
    {
        let api_key = match &self.api_key {
            Some(key) => if key.as_str().is_empty() {
                return Err(WeatherError::Config);
            } else {
                key.clone()
            },
            None => {
                return Err(WeatherError::Config);
            },
        };
        let city = match &self.city {
            Some(city) => city.clone(),
            None => String::from_str(DEFAULT_CITY),
        };
        let mode = match &self.info_type {
            Some(info_type) => Mode::from_info_type(info_type.as_str()),
            None => Mode::Current,
        };
        Ok(WeatherQuery { city, mode, api_key })
    }
}

/// What an invocation hands back: one entry for the current weather, or the
/// entries of a forecast in chronological order.
#[derive(Debug)]
pub enum WeatherReport {
    Current(NormalizedEntry),
    Forecast(Vec<NormalizedEntry>),
}

/// The mathematical content of a `WeatherReport`.
pub enum WeatherReportView {
    Current(NormalizedEntryView),
    Forecast(Seq<NormalizedEntryView>),
}

impl View for WeatherReport {
    type V = WeatherReportView;

    open spec fn view(&self) -> WeatherReportView {
        match self {
            WeatherReport::Current(entry) => WeatherReportView::Current(entry@),
            WeatherReport::Forecast(entries) => WeatherReportView::Forecast(entries_view(entries@)),
        }
    }
}

/// The report for the answer `body` to a request in `mode`. An answer that
/// does not parse is refused as `UpstreamFormat`; a reading that cannot be
/// shown fails the report with its own error.
pub open spec fn report_for(body: Seq<char>, mode: Mode) -> Result<WeatherReportView, WeatherError> {
    match mode {
        Mode::Current => match current_in(body) {
            Some(reading) => match normalized(reading) {
                Ok(entry) => Ok(WeatherReportView::Current(entry)),
                Err(e) => Err(e),
            },
            None => Err(WeatherError::UpstreamFormat),
        },
        Mode::Forecast => match forecast_in(body) {
            Some(forecast) => match normalized_all(forecast.list) {
                Ok(entries) => Ok(WeatherReportView::Forecast(entries)),
                Err(e) => Err(e),
            },
            None => Err(WeatherError::UpstreamFormat),
        },
    }
}

/// Turns the answer `body` to a request in `mode` into the report to hand
/// back: parses it, then reshapes each reading.
pub fn transform_response(body: &str, mode: Mode) -> (r: Result<WeatherReport, WeatherError>)
    ensures
        match r {
            Ok(report) => report_for(body@, mode) == Ok::<WeatherReportView, WeatherError>(
                report@,
            ),
            Err(e) => report_for(body@, mode) == Err::<WeatherReportView, WeatherError>(e),
        },
{
    match mode {
        Mode::Current => {
            let reading = parse_current(body)?;
            let entry = normalize_reading(&reading)?;
            Ok(WeatherReport::Current(entry))
        },
        Mode::Forecast => {
            let forecast = parse_forecast(body)?;
            let entries = normalize_forecast(&forecast.list)?;
            Ok(WeatherReport::Forecast(entries))
        },
    }
}

/// Without a key there is no query, whatever the city and the kind of report:
/// the failure is `Config`, and nothing is left to fetch.
pub proof fn lemma_no_key_no_query(parameters: WeatherView)
    requires
        parameters.api_key is None || parameters.api_key->0.len() == 0,
    ensures
        query_for(parameters) == Err::<WeatherQueryView, WeatherError>(WeatherError::Config),
{
}

/// A body that is no JSON document is refused as `UpstreamFormat` in either
/// mode: it never counts as an empty report.
pub proof fn lemma_malformed_body_is_refused(body: Seq<char>, mode: Mode)
    requires
        json_document(body) is None,
    ensures
        report_for(body, mode) == Err::<WeatherReportView, WeatherError>(
            WeatherError::UpstreamFormat,
        ),
{
}

/// A forecast without readings is reported as no entries, not as a failure.
pub proof fn lemma_empty_forecast_is_reported(body: Seq<char>)
    requires
        forecast_in(body) is Some,
        forecast_in(body)->0.list.len() == 0,
    ensures
        report_for(body, Mode::Forecast) == Ok::<WeatherReportView, WeatherError>(
            WeatherReportView::Forecast(Seq::empty()),
        ),
{
}

} // verus!

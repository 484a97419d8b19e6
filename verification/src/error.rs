//! The failures an invocation can end in.

use vstd::prelude::*;

verus! {

/// Why an invocation produced no value. Every failure is final: nothing is
/// retried and no partial result is handed out.
#[derive(Debug, Clone, Copy, PartialEq, Eq, Structural)]
pub enum WeatherError {
    /// The API key is missing or empty.
    Config,
    /// The network call failed, timed out or was answered with an error status.
    Transport,
    /// The response is no JSON document or lacks a required field.
    UpstreamFormat,
    /// A timestamp in the response lies outside the calendar's range.
    Data,
}

/// The short message shown to the host for each failure.
pub open spec fn error_message(e: WeatherError) -> Seq<char> {
    match e {
        WeatherError::Config => "Missing 'open_weather_api_key' key in config"@,
        WeatherError::Transport => "Could not load text from remote url"@,
        WeatherError::UpstreamFormat => "Could not read the weather service's response"@,
        WeatherError::Data => "Timestamp outside the supported calendar range"@,
    }
}

/// The label attached to the place the failure points at.
pub open spec fn error_label(e: WeatherError) -> Seq<char> {
    match e {
        WeatherError::Config => "key"@,
        WeatherError::Transport => "could not load"@,
        WeatherError::UpstreamFormat => "could not parse"@,
        WeatherError::Data => "out of range"@,
    }
}

impl WeatherError {
    /// The short message for the host.
    pub fn message(&self) -> (r: &'static str)
        ensures
            r@ == error_message(*self),
    {
        match self {
            WeatherError::Config => "Missing 'open_weather_api_key' key in config",
            WeatherError::Transport => "Could not load text from remote url",
            WeatherError::UpstreamFormat => "Could not read the weather service's response",
            WeatherError::Data => "Timestamp outside the supported calendar range",
        }
    }

    /// The label for the originating field or span.
    pub fn label(&self) -> (r: &'static str)
        ensures
            r@ == error_label(*self),
    {
        match self {
            WeatherError::Config => "key",
            WeatherError::Transport => "could not load",
            WeatherError::UpstreamFormat => "could not parse",
            WeatherError::Data => "out of range",
        }
    }
}

} // verus!

//! The request builder: from a query to the URL of the service's endpoint.

use vstd::prelude::*;
use vstd::string::*;
use vstd::utf8::*;
use crate::error::WeatherError;

verus! {

/// The city asked for where the invocation names none.
pub const DEFAULT_CITY: &'static str = "huntington";

/// The endpoint for the current weather, up to the city.
pub const CURRENT_ENDPOINT: &'static str = "https://api.openweathermap.org/data/2.5/weather?q=";

/// The endpoint for a forecast, up to the city.
pub const FORECAST_ENDPOINT: &'static str = "https://api.openweathermap.org/data/2.5/forecast?q=";

/// What follows the city in a request for the current weather.
pub const CURRENT_KEY_PARAMETER: &'static str = "&appid=";

/// What follows the city in a request for a forecast.
pub const FORECAST_KEY_PARAMETER: &'static str = "&mode=json&appid=";

/// What is asked for: the weather now, or a forecast.
#[derive(Debug, Clone, Copy, PartialEq, Eq, Structural)]
pub enum Mode {
    Current,
    Forecast,
}

/// The mode that the invocation's `type` parameter selects: `current` asks
/// for the weather now, any other word for a forecast.
pub open spec fn mode_named(info_type: Seq<char>) -> Mode {
    if info_type == "current"@ {
        Mode::Current
    } else {
        Mode::Forecast
    }
}

impl Mode {
    /// The mode that the invocation's `type` parameter selects.
    pub fn from_info_type(info_type: &str) -> (r: Mode)
        ensures
            r == mode_named(info_type@),
    {
        if info_type.eq("current") {
            Mode::Current
        } else {
            Mode::Forecast
        }
    }
}

/// Whether `byte` may stand in a URL as it is: an ASCII letter or digit, or
/// one of `-`, `.`, `_`, `~`.
pub open spec fn is_unreserved(byte: u8) -> bool {
    ||| 0x30 <= byte <= 0x39
    ||| 0x41 <= byte <= 0x5a
    ||| 0x61 <= byte <= 0x7a
    ||| byte == 0x2d
    ||| byte == 0x2e
    ||| byte == 0x5f
    ||| byte == 0x7e
}

/// The upper-case hexadecimal digit for a value below 16.
pub open spec fn hex_digit(nibble: u8) -> char {
    if nibble < 10 {
        ((0x30 + nibble) as u8) as char
    } else {
        ((0x37 + nibble) as u8) as char
    }
}

/// One byte as it stands in a URL: itself where it is unreserved, else `%`
/// and its two hexadecimal digits.
pub open spec fn escaped(byte: u8) -> Seq<char> {
    if is_unreserved(byte) {
        seq![byte as char]
    } else {
        seq!['%', hex_digit(byte / 16), hex_digit(byte % 16)]
    }
}

/// The percent-encoding of a sequence of bytes.
pub open spec fn percent_encoded(bytes: Seq<u8>) -> Seq<char>
    decreases bytes.len(),
{
    if bytes.len() == 0 {
        Seq::empty()
    } else {
        percent_encoded(bytes.drop_last()) + escaped(bytes.last())
    }
}

/// The URL to fetch for `city` in `mode` with `api_key`. The city is
/// percent-encoded from its UTF-8 bytes; the key is inserted as it is.
pub open spec fn request_url(mode: Mode, city: Seq<char>, api_key: Seq<char>) -> Seq<char> {
    match mode {
        Mode::Current => CURRENT_ENDPOINT@ + percent_encoded(encode_utf8(city))
            + CURRENT_KEY_PARAMETER@ + api_key,
        Mode::Forecast => FORECAST_ENDPOINT@ + percent_encoded(encode_utf8(city))
            + FORECAST_KEY_PARAMETER@ + api_key,
    }
}

fn hex_digit_of(nibble: u8) -> (c: char)
    requires
        nibble < 16,
    ensures
        c == hex_digit(nibble),
{
    if nibble < 10 {
        (0x30 + nibble) as char
    } else {
        (0x37 + nibble) as char
    }
}

fn is_unreserved_byte(byte: u8) -> (r: bool)
    ensures
        r == is_unreserved(byte),
{
    (0x30 <= byte && byte <= 0x39) || (0x41 <= byte && byte <= 0x5a) || (0x61 <= byte && byte
        <= 0x7a) || byte == 0x2d || byte == 0x2e || byte == 0x5f || byte == 0x7e
}

/// Percent-encodes `text` from its UTF-8 bytes.
pub fn percent_encode(text: &str) -> (r: String)
    ensures
        r@ == percent_encoded(encode_utf8(text@)),
{
    let bytes = text.as_bytes();
    let mut encoded = String::new();
    let mut at: usize = 0;
    while at < bytes.len()
        invariant
            at <= bytes@.len(),
            bytes@ == encode_utf8(text@),
            encoded@ == percent_encoded(bytes@.take(at as int)),
        decreases bytes@.len() - at,
    {
        let byte = bytes[at];
        assert(bytes@.take(at + 1).drop_last() =~= bytes@.take(at as int));
        if is_unreserved_byte(byte) {
            encoded.push(byte as char);
        } else {
            encoded.push('%');
            encoded.push(hex_digit_of(byte / 16));
            encoded.push(hex_digit_of(byte % 16));
        }
        at += 1;
    }
    assert(bytes@.take(at as int) =~= bytes@);
    encoded
}

/// One request: what to ask the service for. Built once for an invocation
/// and not changed afterwards.
#[derive(Debug)]
pub struct WeatherQuery {
    /// The name of the city.
    pub city: String,
    /// The weather now, or a forecast.
    pub mode: Mode,
    /// The key that the service knows the caller by.
    pub api_key: String,
}

/// The mathematical content of a `WeatherQuery`.
pub struct WeatherQueryView {
    pub city: Seq<char>,
    pub mode: Mode,
    pub api_key: Seq<char>,
}

impl View for WeatherQuery {
    type V = WeatherQueryView;

    open spec fn view(&self) -> WeatherQueryView {
        WeatherQueryView { city: self.city@, mode: self.mode, api_key: self.api_key@ }
    }
}

impl WeatherQuery {
    /// The URL to fetch. Fails with `Config` exactly when the key is empty:
    /// no request is to be made without one.
    pub fn url(&self) -> (r: Result<String, WeatherError>)
        ensures
            r is Ok <==> self.api_key@.len() > 0,
            r is Ok ==> r->Ok_0@ == request_url(self.mode, self.city@, self.api_key@),
            r is Err ==> r->Err_0 == WeatherError::Config,
    {
        if self.api_key.as_str().is_empty() {
            return Err(WeatherError::Config);
        }
        let city = percent_encode(self.city.as_str());
        let mut url = match self.mode {
            Mode::Current => String::from_str(CURRENT_ENDPOINT),
            Mode::Forecast => String::from_str(FORECAST_ENDPOINT),
        };
        url.append(city.as_str());
        match self.mode {
            Mode::Current => url.append(CURRENT_KEY_PARAMETER),
            Mode::Forecast => url.append(FORECAST_KEY_PARAMETER),
        }
        url.append(self.api_key.as_str());
        Ok(url)
    }
}

/// Whether `c` is an unreserved character: an ASCII letter or digit, or one
/// of `-`, `.`, `_`, `~`.
pub open spec fn is_unreserved_char(c: char) -> bool {
    ||| '0' <= c <= '9'
    ||| 'A' <= c <= 'Z'
    ||| 'a' <= c <= 'z'
    ||| c == '-'
    ||| c == '.'
    ||| c == '_'
    ||| c == '~'
}

/// Percent-encoding yields only characters that may stand in a URL:
/// unreserved ones and `%`.
pub proof fn lemma_percent_encoded_is_safe(bytes: Seq<u8>)
    ensures
        forall|i: int|
            0 <= i < percent_encoded(bytes).len() ==> {
                let c = #[trigger] percent_encoded(bytes)[i];
                c == '%' || is_unreserved_char(c)
            },
    decreases bytes.len(),
{
    if bytes.len() > 0 {
        let front = percent_encoded(bytes.drop_last());
        let byte = bytes.last();
        lemma_percent_encoded_is_safe(bytes.drop_last());
        assert forall|i: int| 0 <= i < percent_encoded(bytes).len() implies {
            let c = #[trigger] percent_encoded(bytes)[i];
            c == '%' || is_unreserved_char(c)
        } by {
            if i >= front.len() {
                assert(percent_encoded(bytes)[i] == escaped(byte)[i - front.len()]);
            }
        }
    }
}

/// A city spelled with unreserved characters alone stands in the URL as it
/// is.
pub proof fn lemma_plain_city_is_verbatim(city: Seq<char>)
    requires
        forall|i: int| 0 <= i < city.len() ==> is_unreserved_char(#[trigger] city[i]),
    ensures
        percent_encoded(encode_utf8(city)) == city,
    decreases city.len(),
{
    is_ascii_chars_encode_utf8(city);
    let bytes = encode_utf8(city);
    if city.len() > 0 {
        let front = city.drop_last();
        is_ascii_chars_encode_utf8(front);
        lemma_plain_city_is_verbatim(front);
        assert(bytes.drop_last() =~= encode_utf8(front));
    }
}

} // verus!

//! The openweathermap.org client.
//!
//! This provider resolves the address to coordinates first: every weather
//! query is preceded by a geocoding call, and the weather query is only
//! planned once at least one coordinate match is in hand.  Current and
//! dated weather go to one unified endpoint; a dated query passes the
//! requested day as a single timestamp, fixed at midday UTC on that date.

use vstd::prelude::*;

use crate::dates::{
    is_date_shape, midday_timestamp, parse_date, parsed_date, parsed_day, parsed_month,
    parsed_year, valid_date, Date,
};
use crate::error::WeatherError;
use crate::provider::{FollowUp, Provider, WeatherRequest};
use crate::text::{dec_str, i64_to_string};
use crate::urlenc::{encode_pair, encoded_pair};

verus! {

/// Client for the openweathermap.org API, bound to one API key.
pub struct OpenWeatherMap {
    api_key: String,
}

/// What a dated or undated query asks the unified endpoint for: the
/// weather now, or the weather at one fixed point in time.
#[derive(Clone, Copy, Debug, PartialEq, Eq, Structural)]
pub enum OwmMode {
    Current,
    Timed { timestamp: i64 },
}

/// One geocoding match: the coordinates of an address, already rendered
/// as decimal text.
#[derive(Debug)]
pub struct GeoMatch {
    pub lat: String,
    pub lon: String,
}

/// The geocoding URL for an address: the best match only.
pub open spec fn owm_geocoding_url(key: Seq<char>, address: Seq<char>) -> Seq<char> {
    "http://api.openweathermap.org/geo/1.0/direct?"@ + encoded_pair("q"@, address) + "&"@
        + encoded_pair("limit"@, "1"@) + "&"@ + encoded_pair("appid"@, key)
}

/// The current-weather URL for a coordinate pair.
pub open spec fn owm_current_url(key: Seq<char>, lat: Seq<char>, lon: Seq<char>) -> Seq<char> {
    "https://api.openweathermap.org/data/3.0/onecall?"@ + encoded_pair("lat"@, lat) + "&"@
        + encoded_pair("lon"@, lon) + "&"@ + encoded_pair("exclude"@, "daily"@) + "&"@
        + encoded_pair("exclude"@, "minutely"@) + "&"@ + encoded_pair("exclude"@, "hourly"@)
        + "&"@ + encoded_pair("appid"@, key) + "&"@ + encoded_pair("units"@, "metric"@)
}

/// The timed-weather URL for a coordinate pair and a timestamp.
pub open spec fn owm_timed_url(key: Seq<char>, lat: Seq<char>, lon: Seq<char>, ts: int) -> Seq<
    char,
> {
    "https://api.openweathermap.org/data/3.0/onecall/timemachine?"@ + encoded_pair("lat"@, lat)
        + "&"@ + encoded_pair("lon"@, lon) + "&"@ + encoded_pair("dt"@, dec_str(ts)) + "&"@
        + encoded_pair("appid"@, key) + "&"@ + encoded_pair("units"@, "metric"@)
}

/// How this provider plans an undated query: a geocoding request first,
/// to be followed by a current-weather request.
pub open spec fn owm_plans_current(
    client: OpenWeatherMap,
    address: Seq<char>,
    r: Result<WeatherRequest, WeatherError>,
) -> bool {
    &&& r matches Ok(req)
    &&& req.url@ == owm_geocoding_url(client.key(), address)
    &&& req.follow_up == (FollowUp::OwmGeocode { mode: OwmMode::Current })
}

/// How this provider plans a dated query: strict date validation, then a
/// geocoding request carrying the midday timestamp of the requested day.
pub open spec fn owm_plans_timed(
    client: OpenWeatherMap,
    address: Seq<char>,
    date: Seq<char>,
    r: Result<WeatherRequest, WeatherError>,
) -> bool {
    if !is_date_shape(date) {
        r == Err::<WeatherRequest, WeatherError>(WeatherError::InvalidDateFormat)
    } else if !valid_date(parsed_year(date), parsed_month(date), parsed_day(date)) {
        r == Err::<WeatherRequest, WeatherError>(WeatherError::InvalidDateValue)
    } else {
        &&& r matches Ok(req)
        &&& req.url@ == owm_geocoding_url(client.key(), address)
        &&& (req.follow_up matches FollowUp::OwmGeocode { mode }
            && mode matches OwmMode::Timed { timestamp }
            && timestamp == midday_timestamp(parsed_date(date)))
    }
}

impl OpenWeatherMap {
    /// The API key this client is bound to.
    pub closed spec fn key(self) -> Seq<char> {
        self.api_key@
    }

    /// Creates a client bound to the given API key.
    pub fn new(api_key: String) -> (r: OpenWeatherMap)
        ensures
            r.key() == api_key@,
    {
        OpenWeatherMap { api_key }
    }

    /// The URL of the geocoding query for an address.
    pub fn geocoding_url(&self, address: &str) -> (u: String)
        ensures
            u@ == owm_geocoding_url(self.key(), address@),
    {
        let mut u = "http://api.openweathermap.org/geo/1.0/direct?".to_owned();
        let pair = encode_pair("q", address);
        u.append(pair.as_str());
        u.append("&");
        let pair = encode_pair("limit", "1");
        u.append(pair.as_str());
        u.append("&");
        let pair = encode_pair("appid", self.api_key.as_str());
        u.append(pair.as_str());
        u
    }

    /// The URL of the current-weather query for a coordinate match.
    fn current_url(&self, m: &GeoMatch) -> (u: String)
        ensures
            u@ == owm_current_url(self.key(), m.lat@, m.lon@),
    {
        let mut u = "https://api.openweathermap.org/data/3.0/onecall?".to_owned();
        let pair = encode_pair("lat", m.lat.as_str());
        u.append(pair.as_str());
        u.append("&");
        let pair = encode_pair("lon", m.lon.as_str());
        u.append(pair.as_str());
        u.append("&");
        let pair = encode_pair("exclude", "daily");
        u.append(pair.as_str());
        u.append("&");
        let pair = encode_pair("exclude", "minutely");
        u.append(pair.as_str());
        u.append("&");
        let pair = encode_pair("exclude", "hourly");
        u.append(pair.as_str());
        u.append("&");
        let pair = encode_pair("appid", self.api_key.as_str());
        u.append(pair.as_str());
        u.append("&");
        let pair = encode_pair("units", "metric");
        u.append(pair.as_str());
        u
    }

    /// The URL of the timed-weather query for a coordinate match and a
    /// timestamp.
    fn timed_url(&self, m: &GeoMatch, timestamp: i64) -> (u: String)
        ensures
            u@ == owm_timed_url(self.key(), m.lat@, m.lon@, timestamp as int),
    {
        let mut u = "https://api.openweathermap.org/data/3.0/onecall/timemachine?".to_owned();
        let pair = encode_pair("lat", m.lat.as_str());
        u.append(pair.as_str());
        u.append("&");
        let pair = encode_pair("lon", m.lon.as_str());
        u.append(pair.as_str());
        u.append("&");
        let ts = i64_to_string(timestamp);
        let pair = encode_pair("dt", ts.as_str());
        u.append(pair.as_str());
        u.append("&");
        let pair = encode_pair("appid", self.api_key.as_str());
        u.append(pair.as_str());
        u.append("&");
        let pair = encode_pair("units", "metric");
        u.append(pair.as_str());
        u
    }

    /// Plans the weather query that follows a geocoding response.
    ///
    /// Geocoding returns the best match only; with no match at all the
    /// address is unknown and no weather query is planned.
    pub fn weather_request(&self, matches: &Vec<GeoMatch>, mode: OwmMode) -> (r: Result<
        WeatherRequest,
        WeatherError,
    >)
        ensures
            matches@.len() == 0 ==> r == Err::<WeatherRequest, WeatherError>(
                WeatherError::AddressNotFound,
            ),
            matches@.len() > 0 && mode == OwmMode::Current ==> (r matches Ok(req) && req.url@
                == owm_current_url(self.key(), matches@[0].lat@, matches@[0].lon@)
                && req.follow_up == FollowUp::OwmCurrent),
            matches@.len() > 0 && (mode matches OwmMode::Timed { timestamp }) ==> (r matches Ok(
                req,
            ) && req.url@ == owm_timed_url(
                self.key(),
                matches@[0].lat@,
                matches@[0].lon@,
                mode->timestamp as int,
            ) && req.follow_up == FollowUp::OwmTimed),
    {
        if matches.len() == 0 {
            return Err(WeatherError::AddressNotFound);
        }
        let m0 = &matches[0];
        match mode {
            OwmMode::Current => Ok(
                WeatherRequest { url: self.current_url(m0), follow_up: FollowUp::OwmCurrent },
            ),
            OwmMode::Timed { timestamp } => Ok(
                WeatherRequest {
                    url: self.timed_url(m0, timestamp),
                    follow_up: FollowUp::OwmTimed,
                },
            ),
        }
    }

    /// Plans an undated query: geocode first, then current weather.
    pub fn plan_current(&self, address: &str) -> (r: Result<WeatherRequest, WeatherError>)
        ensures
            owm_plans_current(*self, address@, r),
    {
        Ok(
            WeatherRequest {
                url: self.geocoding_url(address),
                follow_up: FollowUp::OwmGeocode { mode: OwmMode::Current },
            },
        )
    }

    /// Plans a dated query: validate the date, then geocode first,
    /// carrying the midday timestamp of the requested day.
    pub fn plan_timed(&self, address: &str, date: &str) -> (r: Result<
        WeatherRequest,
        WeatherError,
    >)
        ensures
            owm_plans_timed(*self, address@, date@, r),
    {
        let d = match parse_date(date) {
            Ok(d) => d,
            Err(e) => {
                return Err(e);
            },
        };
        let ts = d.to_midday_timestamp();
        Ok(
            WeatherRequest {
                url: self.geocoding_url(address),
                follow_up: FollowUp::OwmGeocode { mode: OwmMode::Timed { timestamp: ts } },
            },
        )
    }
}

impl Provider for OpenWeatherMap {
    fn get_current_weather(&self, address: &str) -> (r: Result<WeatherRequest, WeatherError>) {
        self.plan_current(address)
    }

    fn get_timed_weather(&self, address: &str, date: &str, today: &Date) -> (r: Result<
        WeatherRequest,
        WeatherError,
    >) {
        self.plan_timed(address, date)
    }
}

} // verus!

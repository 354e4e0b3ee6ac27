//! The weatherapi.com client.
//!
//! This provider takes the address directly and distinguishes three
//! request shapes: current weather, history for a date on or before
//! today, and forecast for a later date.  A forecast asks for a window
//! that counts today through the target day inclusively, and only the
//! last day of the returned series is kept.

use vstd::prelude::*;

use crate::dates::{
    classify_date, date_le, day_number, is_date_shape, parse_date, parsed_date,
    parsed_day, parsed_month, parsed_year, valid_date, Date, TemporalMode,
};
use crate::error::WeatherError;
use crate::provider::{FollowUp, Provider, WeatherRequest};
use crate::text::{dec_str, i64_to_string};
use crate::urlenc::{encode_pair, encoded_pair};

verus! {

/// Client for the weatherapi.com API, bound to one API key.
pub struct WeatherApi {
    api_key: String,
}

/// The current-weather URL for an address.
pub open spec fn wapi_current_url(key: Seq<char>, address: Seq<char>) -> Seq<char> {
    "http://api.weatherapi.com/v1/current.json?"@ + encoded_pair("key"@, key) + "&"@
        + encoded_pair("q"@, address) + "&"@ + encoded_pair("aqi"@, "no"@)
}

/// The history URL for an address and a `YYYY-MM-DD` date string.
pub open spec fn wapi_history_url(key: Seq<char>, address: Seq<char>, date: Seq<char>) -> Seq<
    char,
> {
    "http://api.weatherapi.com/v1/history.json?"@ + encoded_pair("key"@, key) + "&"@
        + encoded_pair("q"@, address) + "&"@ + encoded_pair("dt"@, date)
}

/// The forecast URL for an address and a window of days.
pub open spec fn wapi_forecast_url(key: Seq<char>, address: Seq<char>, days: int) -> Seq<char> {
    "http://api.weatherapi.com/v1/forecast.json?"@ + encoded_pair("key"@, key) + "&"@
        + encoded_pair("q"@, address) + "&"@ + encoded_pair("days"@, dec_str(days)) + "&"@
        + encoded_pair("aqi"@, "no"@) + "&"@ + encoded_pair("alerts"@, "no"@)
}

/// How this provider plans an undated query: one direct current-weather
/// request.
pub open spec fn wapi_plans_current(
    client: WeatherApi,
    address: Seq<char>,
    r: Result<WeatherRequest, WeatherError>,
) -> bool {
    &&& r matches Ok(req)
    &&& req.url@ == wapi_current_url(client.key(), address)
    &&& req.follow_up == FollowUp::WapiCurrent
}

/// How this provider plans a dated query: strict date validation, then a
/// history request for a date on or before today, or a forecast request
/// whose window counts today through the target day inclusively.
pub open spec fn wapi_plans_timed(
    client: WeatherApi,
    address: Seq<char>,
    date: Seq<char>,
    today: Date,
    r: Result<WeatherRequest, WeatherError>,
) -> bool {
    if !is_date_shape(date) {
        r == Err::<WeatherRequest, WeatherError>(WeatherError::InvalidDateFormat)
    } else if !valid_date(parsed_year(date), parsed_month(date), parsed_day(date)) {
        r == Err::<WeatherRequest, WeatherError>(WeatherError::InvalidDateValue)
    } else if date_le(parsed_date(date), today) {
        &&& r matches Ok(req)
        &&& req.url@ == wapi_history_url(client.key(), address, date)
        &&& req.follow_up == FollowUp::WapiHistory
    } else {
        &&& r matches Ok(req)
        &&& req.url@ == wapi_forecast_url(
            client.key(),
            address,
            day_number(parsed_date(date)) - day_number(today) + 1,
        )
        &&& req.follow_up == FollowUp::WapiForecast
    }
}

impl WeatherApi {
    /// The API key this client is bound to.
    pub closed spec fn key(self) -> Seq<char> {
        self.api_key@
    }

    /// Creates a client bound to the given API key.
    pub fn new(api_key: String) -> (r: WeatherApi)
        ensures
            r.key() == api_key@,
    {
        WeatherApi { api_key }
    }

    /// The URL of the current-weather query for an address.
    fn current_url(&self, address: &str) -> (u: String)
        ensures
            u@ == wapi_current_url(self.key(), address@),
    {
        let mut u = "http://api.weatherapi.com/v1/current.json?".to_owned();
        let pair = encode_pair("key", self.api_key.as_str());
        u.append(pair.as_str());
        u.append("&");
        let pair = encode_pair("q", address);
        u.append(pair.as_str());
        u.append("&");
        let pair = encode_pair("aqi", "no");
        u.append(pair.as_str());
        u
    }

    /// The URL of the history query for an address and a date string.
    fn history_url(&self, address: &str, date: &str) -> (u: String)
        ensures
            u@ == wapi_history_url(self.key(), address@, date@),
    {
        let mut u = "http://api.weatherapi.com/v1/history.json?".to_owned();
        let pair = encode_pair("key", self.api_key.as_str());
        u.append(pair.as_str());
        u.append("&");
        let pair = encode_pair("q", address);
        u.append(pair.as_str());
        u.append("&");
        let pair = encode_pair("dt", date);
        u.append(pair.as_str());
        u
    }

    /// The URL of the forecast query for an address and a window length.
    fn forecast_url(&self, address: &str, days: i64) -> (u: String)
        ensures
            u@ == wapi_forecast_url(self.key(), address@, days as int),
    {
        let mut u = "http://api.weatherapi.com/v1/forecast.json?".to_owned();
        let pair = encode_pair("key", self.api_key.as_str());
        u.append(pair.as_str());
        u.append("&");
        let pair = encode_pair("q", address);
        u.append(pair.as_str());
        u.append("&");
        let ds = i64_to_string(days);
        let pair = encode_pair("days", ds.as_str());
        u.append(pair.as_str());
        u.append("&");
        let pair = encode_pair("aqi", "no");
        u.append(pair.as_str());
        u.append("&");
        let pair = encode_pair("alerts", "no");
        u.append(pair.as_str());
        u
    }

    /// Plans an undated query.
    pub fn plan_current(&self, address: &str) -> (r: Result<WeatherRequest, WeatherError>)
        ensures
            wapi_plans_current(*self, address@, r),
    {
        Ok(WeatherRequest { url: self.current_url(address), follow_up: FollowUp::WapiCurrent })
    }

    /// Plans a dated query: validate the date, then route it to history
    /// or forecast by comparing it with today's date.
    pub fn plan_timed(&self, address: &str, date: &str, today: &Date) -> (r: Result<
        WeatherRequest,
        WeatherError,
    >)
        requires
            today.wf(),
        ensures
            wapi_plans_timed(*self, address@, date@, *today, r),
    {
        let d = match parse_date(date) {
            Ok(d) => d,
            Err(e) => {
                return Err(e);
            },
        };
        match classify_date(&d, today) {
            TemporalMode::Historical => Ok(
                WeatherRequest {
                    url: self.history_url(address, date),
                    follow_up: FollowUp::WapiHistory,
                },
            ),
            TemporalMode::Forecast { days_from_now } => Ok(
                WeatherRequest {
                    url: self.forecast_url(address, days_from_now),
                    follow_up: FollowUp::WapiForecast,
                },
            ),
        }
    }
}

impl Provider for WeatherApi {
    fn get_current_weather(&self, address: &str) -> (r: Result<WeatherRequest, WeatherError>) {
        self.plan_current(address)
    }

    fn get_timed_weather(&self, address: &str, date: &str, today: &Date) -> (r: Result<
        WeatherRequest,
        WeatherError,
    >) {
        self.plan_timed(address, date, today)
    }
}

/// The named reshaping step applied to a forecast series: of the several
/// days the forecast endpoint returns, only the last one — the requested
/// target day — is kept.  An empty series is a malformed vendor response.
pub fn keep_last_forecast_day<T>(days: Vec<T>) -> (r: Result<Vec<T>, WeatherError>)
    ensures
        days@.len() == 0 ==> (r matches Err(e) && e matches WeatherError::UpstreamError(m)
            && m@ == "weather-api returned invalid data"@),
        days@.len() > 0 ==> (r matches Ok(kept) && kept@ == seq![days@.last()]),
{
    let ghost original = days@;
    let mut series = days;
    match series.pop() {
        None => Err(WeatherError::UpstreamError("weather-api returned invalid data".to_owned())),
        Some(last) => {
            let mut kept: Vec<T> = Vec::new();
            kept.push(last);
            proof {
                assert(kept@ =~= seq![original.last()]);
            }
            Ok(kept)
        },
    }
}

} // verus!

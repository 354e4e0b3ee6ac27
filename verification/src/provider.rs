//! The closed set of supported weather providers.
//!
//! Each provider is a tagged variant; extending the tool means adding a
//! variant, not subclassing.  The enum also carries the two spellings of a
//! provider's name: the canonical upper-snake-case form that names its
//! credential environment variable, and the pretty hyphenated form used on
//! the command line.

use vstd::prelude::*;

use crate::dates::{is_date_shape, parsed_day, parsed_month, parsed_year, valid_date, Date};
use crate::error::WeatherError;
use crate::provider::open_weather_map::{
    owm_plans_current, owm_plans_timed, OpenWeatherMap, OwmMode,
};
use crate::provider::weather_api::{wapi_plans_current, wapi_plans_timed, WeatherApi};
use crate::text::{eq_ignore_ascii_case, str_eq_ignore_ascii_case};

pub mod open_weather_map;
pub mod weather_api;

verus! {

/// A supported weather data provider.
#[derive(Clone, Copy, Debug, Hash, PartialEq, Eq, Structural)]
pub enum ProviderName {
    OpenWeatherMap,
    WeatherApi,
}

/// The canonical upper-snake-case name of a provider; it is also the name
/// of the environment variable holding its API key.
pub open spec fn spec_canonical_name(p: ProviderName) -> Seq<char> {
    match p {
        ProviderName::OpenWeatherMap => "OPEN_WEATHER_MAP"@,
        ProviderName::WeatherApi => "WEATHER_API"@,
    }
}

/// The pretty hyphenated lower-case name of a provider, as written on the
/// command line.
pub open spec fn spec_pretty_name(p: ProviderName) -> Seq<char> {
    match p {
        ProviderName::OpenWeatherMap => "open-weather-map"@,
        ProviderName::WeatherApi => "weather-api"@,
    }
}

impl Default for ProviderName {
    /// The provider used when nothing was selected or persisted.
    fn default() -> (r: Self)
        ensures
            r == ProviderName::OpenWeatherMap,
    {
        ProviderName::OpenWeatherMap
    }
}

impl ProviderName {
    /// All supported providers, in registry order.
    pub fn iter() -> (r: Vec<ProviderName>)
        ensures
            r@ == seq![ProviderName::OpenWeatherMap, ProviderName::WeatherApi],
    {
        let mut v: Vec<ProviderName> = Vec::new();
        v.push(ProviderName::OpenWeatherMap);
        v.push(ProviderName::WeatherApi);
        proof {
            assert(v@ =~= seq![ProviderName::OpenWeatherMap, ProviderName::WeatherApi]);
        }
        v
    }

    /// The canonical upper-snake-case name; it is also the name of the
    /// environment variable holding the provider's API key.
    pub fn canonical_name(&self) -> (r: String)
        ensures
            r@ == spec_canonical_name(*self),
    {
        match self {
            ProviderName::OpenWeatherMap => "OPEN_WEATHER_MAP".to_owned(),
            ProviderName::WeatherApi => "WEATHER_API".to_owned(),
        }
    }

    /// The pretty hyphenated lower-case name used on the command line:
    /// the canonical name with each letter lowered and each underscore
    /// replaced by a dash.
    pub fn get_pretty_name(&self) -> (r: String)
        ensures
            r@ == spec_pretty_name(*self),
    {
        match self {
            ProviderName::OpenWeatherMap => "open-weather-map".to_owned(),
            ProviderName::WeatherApi => "weather-api".to_owned(),
        }
    }

    /// Reads a provider name in its pretty hyphenated form, ignoring ASCII
    /// case.
    pub fn from_cli_name(s: &str) -> (r: Option<ProviderName>)
        ensures
            eq_ignore_ascii_case(s@, "open-weather-map"@) ==> r == Some(
                ProviderName::OpenWeatherMap,
            ),
            !eq_ignore_ascii_case(s@, "open-weather-map"@) && eq_ignore_ascii_case(
                s@,
                "weather-api"@,
            ) ==> r == Some(ProviderName::WeatherApi),
            !eq_ignore_ascii_case(s@, "open-weather-map"@) && !eq_ignore_ascii_case(
                s@,
                "weather-api"@,
            ) ==> r is None,
    {
        if str_eq_ignore_ascii_case(s, "open-weather-map") {
            Some(ProviderName::OpenWeatherMap)
        } else if str_eq_ignore_ascii_case(s, "weather-api") {
            Some(ProviderName::WeatherApi)
        } else {
            None
        }
    }

    /// Manufactures the client for this provider, bound to the given API
    /// key.
    pub fn get_provider_instance(&self, api_key: String) -> (r: ProviderClient)
        ensures
            *self == ProviderName::OpenWeatherMap ==> (r matches ProviderClient::OpenWeatherMap(c)
                && c.key() == api_key@),
            *self == ProviderName::WeatherApi ==> (r matches ProviderClient::WeatherApi(c)
                && c.key() == api_key@),
            r.spec_name() == *self,
    {
        match self {
            ProviderName::OpenWeatherMap => ProviderClient::OpenWeatherMap(
                OpenWeatherMap::new(api_key),
            ),
            ProviderName::WeatherApi => ProviderClient::WeatherApi(WeatherApi::new(api_key)),
        }
    }
}

/// What the unverified shell is to do with the HTTP response of a planned
/// request.
#[derive(Clone, Copy, Debug, PartialEq, Eq, Structural)]
pub enum FollowUp {
    /// Decode the geocoding matches, then ask the openweathermap client
    /// for the weather request that follows them.
    OwmGeocode { mode: OwmMode },
    /// Decode an openweathermap current-weather payload; the query is
    /// done.
    OwmCurrent,
    /// Decode an openweathermap timed-weather payload; the query is done.
    OwmTimed,
    /// Decode a weatherapi current-weather payload; the query is done.
    WapiCurrent,
    /// Decode a weatherapi history payload; the query is done.
    WapiHistory,
    /// Decode a weatherapi forecast payload and keep only its last day.
    WapiForecast,
}

/// One planned outbound HTTP query: the exact URL to fetch and what to do
/// with its response.
#[derive(Debug)]
pub struct WeatherRequest {
    pub url: String,
    pub follow_up: FollowUp,
}

/// The provider-tagged payload of one completed query: the JSON text to
/// show the user, labelled with the provider and request shape it came
/// from.
#[derive(Debug)]
pub enum Weather {
    FromOpenWeatherMapCurrent(String),
    FromOpenWeatherMapTimed(String),
    FromWeatherApiCurrent(String),
    FromWeatherApiTimed(String),
}

impl Weather {
    /// The JSON text carried by any of the variants.
    pub open spec fn json_spec(self) -> Seq<char> {
        match self {
            Weather::FromOpenWeatherMapCurrent(s) => s@,
            Weather::FromOpenWeatherMapTimed(s) => s@,
            Weather::FromWeatherApiCurrent(s) => s@,
            Weather::FromWeatherApiTimed(s) => s@,
        }
    }

    /// The JSON text to display.
    pub fn json(&self) -> (r: &String)
        ensures
            r@ == self.json_spec(),
    {
        match self {
            Weather::FromOpenWeatherMapCurrent(s) => s,
            Weather::FromOpenWeatherMapTimed(s) => s,
            Weather::FromWeatherApiCurrent(s) => s,
            Weather::FromWeatherApiTimed(s) => s,
        }
    }
}

/// The capability interface every provider client offers: planning the
/// query for the weather now, and planning the query for the weather on a
/// given date.
pub trait Provider {
    /// Plans the query answering "what is the weather at this address
    /// now".
    fn get_current_weather(&self, address: &str) -> (r: Result<WeatherRequest, WeatherError>)
        ensures
            r is Ok,
    ;

    /// Plans the query answering "what was or will be the weather at this
    /// address on this date".  Date validation is strict: a malformed or
    /// impossible date fails the query instead of degrading it.
    fn get_timed_weather(&self, address: &str, date: &str, today: &Date) -> (r: Result<
        WeatherRequest,
        WeatherError,
    >)
        requires
            today.wf(),
        ensures
            !is_date_shape(date@) ==> r == Err::<WeatherRequest, WeatherError>(
                WeatherError::InvalidDateFormat,
            ),
            is_date_shape(date@) && !valid_date(
                parsed_year(date@),
                parsed_month(date@),
                parsed_day(date@),
            ) ==> r == Err::<WeatherRequest, WeatherError>(WeatherError::InvalidDateValue),
            is_date_shape(date@) && valid_date(
                parsed_year(date@),
                parsed_month(date@),
                parsed_day(date@),
            ) ==> r is Ok,
    ;
}

/// The closed set of provider clients, dispatched by tag.
pub enum ProviderClient {
    OpenWeatherMap(OpenWeatherMap),
    WeatherApi(WeatherApi),
}

/// How the active client plans an undated query.
pub open spec fn plans_current(
    client: ProviderClient,
    address: Seq<char>,
    r: Result<WeatherRequest, WeatherError>,
) -> bool {
    match client {
        ProviderClient::OpenWeatherMap(c) => owm_plans_current(c, address, r),
        ProviderClient::WeatherApi(c) => wapi_plans_current(c, address, r),
    }
}

/// How the active client plans a dated query.
pub open spec fn plans_timed(
    client: ProviderClient,
    address: Seq<char>,
    date: Seq<char>,
    today: Date,
    r: Result<WeatherRequest, WeatherError>,
) -> bool {
    match client {
        ProviderClient::OpenWeatherMap(c) => owm_plans_timed(c, address, date, r),
        ProviderClient::WeatherApi(c) => wapi_plans_timed(c, address, date, today, r),
    }
}

/// The API key the client is bound to, whichever provider it belongs to.
pub open spec fn client_key(c: ProviderClient) -> Seq<char> {
    match c {
        ProviderClient::OpenWeatherMap(x) => x.key(),
        ProviderClient::WeatherApi(x) => x.key(),
    }
}

impl ProviderClient {
    /// The name of the provider this client belongs to.
    pub open spec fn spec_name(self) -> ProviderName {
        match self {
            ProviderClient::OpenWeatherMap(_) => ProviderName::OpenWeatherMap,
            ProviderClient::WeatherApi(_) => ProviderName::WeatherApi,
        }
    }

    /// The name of the provider this client belongs to.
    pub fn name(&self) -> (r: ProviderName)
        ensures
            r == self.spec_name(),
    {
        match self {
            ProviderClient::OpenWeatherMap(_) => ProviderName::OpenWeatherMap,
            ProviderClient::WeatherApi(_) => ProviderName::WeatherApi,
        }
    }

    /// Plans an undated query with the active provider.
    pub fn get_current_weather(&self, address: &str) -> (r: Result<WeatherRequest, WeatherError>)
        ensures
            plans_current(*self, address@, r),
    {
        match self {
            ProviderClient::OpenWeatherMap(c) => c.plan_current(address),
            ProviderClient::WeatherApi(c) => c.plan_current(address),
        }
    }

    /// Plans a dated query with the active provider.
    pub fn get_timed_weather(&self, address: &str, date: &str, today: &Date) -> (r: Result<
        WeatherRequest,
        WeatherError,
    >)
        requires
            today.wf(),
        ensures
            plans_timed(*self, address@, date@, *today, r),
    {
        match self {
            ProviderClient::OpenWeatherMap(c) => c.plan_timed(address, date),
            ProviderClient::WeatherApi(c) => c.plan_timed(address, date, today),
        }
    }
}

impl Provider for ProviderClient {
    fn get_current_weather(&self, address: &str) -> (r: Result<WeatherRequest, WeatherError>) {
        ProviderClient::get_current_weather(self, address)
    }

    fn get_timed_weather(&self, address: &str, date: &str, today: &Date) -> (r: Result<
        WeatherRequest,
        WeatherError,
    >) {
        ProviderClient::get_timed_weather(self, address, date, today)
    }
}

} // verus!

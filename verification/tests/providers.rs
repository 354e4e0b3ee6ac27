use elastio_task::dates::Date;
use elastio_task::error::WeatherError;
use elastio_task::prompt_agent::{CommandOutcome, InputSubcommand, SpaceTimeConfig};
use elastio_task::prompt_agent::{load_credentials, PromptAgent};
use elastio_task::provider::open_weather_map::{GeoMatch, OpenWeatherMap, OwmMode};
use elastio_task::provider::weather_api::{keep_last_forecast_day, WeatherApi};
use elastio_task::provider::{FollowUp, Provider, ProviderName, Weather};

fn some_day() -> Date {
    Date {
        year: 2023,
        month: 4,
        day: 10,
    }
}

#[test]
fn test_provider_names() {
    let p = ProviderName::OpenWeatherMap;
    assert_eq!(p.canonical_name(), "OPEN_WEATHER_MAP");
    assert_eq!(p.get_pretty_name(), "open-weather-map");
    let p = ProviderName::WeatherApi;
    assert_eq!(p.canonical_name(), "WEATHER_API");
    assert_eq!(p.get_pretty_name(), "weather-api");
    assert_eq!(ProviderName::default(), ProviderName::OpenWeatherMap);
}

#[test]
fn test_from_cli_name_is_case_insensitive() {
    assert_eq!(
        ProviderName::from_cli_name("Open-Weather-Map"),
        Some(ProviderName::OpenWeatherMap)
    );
    assert_eq!(
        ProviderName::from_cli_name("weather-api"),
        Some(ProviderName::WeatherApi)
    );
    assert_eq!(ProviderName::from_cli_name("weather_api"), None);
}

#[test]
fn test_weather_api_current_url() {
    let client = WeatherApi::new(String::from("KEY"));
    let request = client.get_current_weather("Odesa, Ukraine").unwrap();
    assert_eq!(
        request.url,
        "http://api.weatherapi.com/v1/current.json?key=KEY&q=Odesa%2C+Ukraine&aqi=no"
    );
    assert_eq!(request.follow_up, FollowUp::WapiCurrent);
}

#[test]
fn test_weather_api_history_url() {
    let client = WeatherApi::new(String::from("KEY"));
    let request = client
        .get_timed_weather("Odesa, Ukraine", "2020-01-01", &some_day())
        .unwrap();
    assert_eq!(
        request.url,
        "http://api.weatherapi.com/v1/history.json?key=KEY&q=Odesa%2C+Ukraine&dt=2020-01-01"
    );
    assert_eq!(request.follow_up, FollowUp::WapiHistory);
}

#[test]
fn test_weather_api_forecast_url_window() {
    let client = WeatherApi::new(String::from("KEY"));
    let request = client
        .get_timed_weather("Odesa, Ukraine", "2023-04-12", &some_day())
        .unwrap();
    assert_eq!(
        request.url,
        "http://api.weatherapi.com/v1/forecast.json?key=KEY&q=Odesa%2C+Ukraine&days=3&aqi=no&alerts=no"
    );
    assert_eq!(request.follow_up, FollowUp::WapiForecast);
}

#[test]
fn test_weather_api_rejects_bad_dates() {
    let client = WeatherApi::new(String::from("KEY"));
    assert!(matches!(
        client.get_timed_weather("Odesa, Ukraine", "2000-12-32", &some_day()),
        Err(WeatherError::InvalidDateValue)
    ));
    assert!(matches!(
        client.get_timed_weather("Odesa, Ukraine", "088-04-01", &some_day()),
        Err(WeatherError::InvalidDateFormat)
    ));
}

#[test]
fn test_keep_last_forecast_day() {
    // A three-day window ending on the target day keeps the target day only.
    let days = vec![
        String::from("2023-04-10"),
        String::from("2023-04-11"),
        String::from("2023-04-12"),
    ];
    assert_eq!(
        keep_last_forecast_day(days).unwrap(),
        vec![String::from("2023-04-12")]
    );
    let empty: Vec<i32> = vec![];
    assert!(matches!(
        keep_last_forecast_day(empty),
        Err(WeatherError::UpstreamError(_))
    ));
}

#[test]
fn test_open_weather_map_geocoding_url() {
    let client = OpenWeatherMap::new(String::from("KEY"));
    let request = client
        .get_current_weather("Mykolaiv, Lviv oblast, Ukraine")
        .unwrap();
    assert_eq!(
        request.url,
        "http://api.openweathermap.org/geo/1.0/direct?q=Mykolaiv%2C+Lviv+oblast%2C+Ukraine&limit=1&appid=KEY"
    );
    assert_eq!(
        request.follow_up,
        FollowUp::OwmGeocode {
            mode: OwmMode::Current
        }
    );
}

#[test]
fn test_open_weather_map_timed_mode_carries_midday_timestamp() {
    let client = OpenWeatherMap::new(String::from("KEY"));
    let request = client
        .get_timed_weather("Mykolaiv, Lviv oblast, Ukraine", "2023-04-12", &some_day())
        .unwrap();
    assert_eq!(
        request.follow_up,
        FollowUp::OwmGeocode {
            mode: OwmMode::Timed {
                timestamp: 1681300800
            }
        }
    );
}

#[test]
fn test_open_weather_map_weather_request_urls() {
    let client = OpenWeatherMap::new(String::from("KEY"));
    let matches = vec![GeoMatch {
        lat: String::from("49.84"),
        lon: String::from("24.03"),
    }];
    let request = client.weather_request(&matches, OwmMode::Current).unwrap();
    assert_eq!(
        request.url,
        "https://api.openweathermap.org/data/3.0/onecall?lat=49.84&lon=24.03&exclude=daily&exclude=minutely&exclude=hourly&appid=KEY&units=metric"
    );
    assert_eq!(request.follow_up, FollowUp::OwmCurrent);

    let request = client
        .weather_request(
            &matches,
            OwmMode::Timed {
                timestamp: -5334811200,
            },
        )
        .unwrap();
    assert_eq!(
        request.url,
        "https://api.openweathermap.org/data/3.0/onecall/timemachine?lat=49.84&lon=24.03&dt=-5334811200&appid=KEY&units=metric"
    );
    assert_eq!(request.follow_up, FollowUp::OwmTimed);
}

#[test]
fn test_geocoding_without_matches_is_address_not_found() {
    let client = OpenWeatherMap::new(String::from("KEY"));
    let matches: Vec<GeoMatch> = vec![];
    assert!(matches!(
        client.weather_request(&matches, OwmMode::Current),
        Err(WeatherError::AddressNotFound)
    ));
}

#[test]
fn test_get_command_plans_the_active_provider_query() {
    let credentials = load_credentials(
        Some(String::from("owm-key")),
        Some(String::from("wapi-key")),
    )
    .unwrap();
    let agent = PromptAgent::new(ProviderName::WeatherApi, &credentials).unwrap();
    let outcome = agent
        .process_command(
            InputSubcommand::Get(SpaceTimeConfig {
                address: String::from("L'aquila, Italy"),
                date: None,
            }),
            &some_day(),
        )
        .unwrap();
    match outcome {
        CommandOutcome::Weather {
            request,
            address,
            date,
        } => {
            assert_eq!(
                request.url,
                "http://api.weatherapi.com/v1/current.json?key=wapi-key&q=L%27aquila%2C+Italy&aqi=no"
            );
            assert_eq!(address, "L'aquila, Italy");
            assert!(date.is_none());
        }
        other => panic!("expected a weather request, got {:?}", other),
    }
}

#[test]
fn test_weather_payload_round_trip() {
    let w = Weather::FromWeatherApiTimed(String::from("{\"forecast\":{}}"));
    assert_eq!(w.json(), "{\"forecast\":{}}");
}

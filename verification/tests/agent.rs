use elastio_task::dates::Date;
use elastio_task::error::WeatherError;
use elastio_task::prompt_agent::{
    load_credentials, parse_args, resolve_provider, select, ArgsParse, CommandOutcome,
    CredentialMap, InputSubcommand, PromptAgent, SpaceTimeConfig,
};
use elastio_task::provider::ProviderName;

fn full_credentials() -> CredentialMap {
    load_credentials(
        Some(String::from("owm-key")),
        Some(String::from("wapi-key")),
    )
    .unwrap()
}

fn some_day() -> Date {
    Date {
        year: 2023,
        month: 4,
        day: 10,
    }
}

#[test]
fn test_get_available_providers() {
    let available_providers = full_credentials();
    for provider in ProviderName::iter() {
        assert!(available_providers.get(&provider).is_some());
    }
}

#[test]
fn test_load_credentials_missing_first() {
    let r = load_credentials(None, Some(String::from("wapi-key")));
    assert!(matches!(
        r,
        Err(WeatherError::MissingCredential(ProviderName::OpenWeatherMap))
    ));
}

#[test]
fn test_load_credentials_missing_second() {
    let r = load_credentials(Some(String::from("owm-key")), None);
    assert!(matches!(
        r,
        Err(WeatherError::MissingCredential(ProviderName::WeatherApi))
    ));
}

#[test]
fn test_select_unknown_provider() {
    let partial = CredentialMap::new(Some(String::from("owm-key")), None);
    let r = select(ProviderName::WeatherApi, &partial);
    assert!(matches!(
        r,
        Err(WeatherError::UnknownProvider(ProviderName::WeatherApi))
    ));
}

#[test]
fn test_resolve_provider_fallback() {
    let credentials = full_credentials();
    assert_eq!(
        resolve_provider(ProviderName::WeatherApi, &credentials).unwrap(),
        (ProviderName::WeatherApi, false)
    );

    let partial = CredentialMap::new(Some(String::from("owm-key")), None);
    let (chosen, fell_back) = resolve_provider(ProviderName::WeatherApi, &partial).unwrap();
    assert_eq!(chosen, ProviderName::OpenWeatherMap);
    assert!(fell_back);

    let empty = CredentialMap::new(None, None);
    assert!(matches!(
        resolve_provider(ProviderName::WeatherApi, &empty),
        Err(WeatherError::UnknownProvider(ProviderName::WeatherApi))
    ));
}

#[test]
fn test_process_command_configure() {
    let credentials = full_credentials();
    let agent = PromptAgent::new(ProviderName::default(), &credentials).unwrap();
    let current_provider = agent.current_provider_name();

    let result = agent.process_command(
        InputSubcommand::Configure(ProviderName::OpenWeatherMap),
        &some_day(),
    );
    assert!(result.is_ok());

    let result = agent.process_command(InputSubcommand::Configure(current_provider), &some_day());
    assert!(result.is_ok());
}

#[test]
fn test_configure_active_provider_is_noop() {
    let credentials = full_credentials();
    let agent = PromptAgent::new(ProviderName::OpenWeatherMap, &credentials).unwrap();
    let outcome = agent
        .process_command(
            InputSubcommand::Configure(ProviderName::OpenWeatherMap),
            &some_day(),
        )
        .unwrap();
    assert!(matches!(
        outcome,
        CommandOutcome::AlreadyInUse(ProviderName::OpenWeatherMap)
    ));
}

#[test]
fn test_switch_then_current_provider_reports_new_name() {
    let credentials = full_credentials();
    let agent = PromptAgent::new(ProviderName::OpenWeatherMap, &credentials).unwrap();
    let outcome = agent
        .process_command(
            InputSubcommand::Configure(ProviderName::WeatherApi),
            &some_day(),
        )
        .unwrap();
    let persisted = match outcome {
        CommandOutcome::SwitchProvider { from, to } => {
            assert_eq!(from, ProviderName::OpenWeatherMap);
            assert_eq!(to, ProviderName::WeatherApi);
            to
        }
        other => panic!("expected a switch, got {:?}", other),
    };

    // A fresh agent for the persisted identifier reports it.
    let reloaded = PromptAgent::new(persisted, &credentials).unwrap();
    let report = reloaded
        .process_command(InputSubcommand::CurrentProvider, &some_day())
        .unwrap();
    assert!(matches!(
        report,
        CommandOutcome::CurrentProvider(ProviderName::WeatherApi)
    ));
}

#[test]
fn test_process_command_current_provider() {
    let credentials = full_credentials();
    let agent = PromptAgent::new(ProviderName::default(), &credentials).unwrap();
    let result = agent.process_command(InputSubcommand::CurrentProvider, &some_day());
    assert!(result.is_ok());
}

#[test]
fn test_process_command_with_invalid_date_format() {
    let credentials = full_credentials();
    let agent = PromptAgent::new(ProviderName::default(), &credentials).unwrap();

    let space_time_config = SpaceTimeConfig {
        address: String::from("São Paulo"),
        date: Some(String::from("2000-12-32")),
    };

    let result = agent.process_command(InputSubcommand::Get(space_time_config), &some_day());

    assert!(result.is_err());
}

#[test]
fn test_process_command_rejects_wrong_digit_count() {
    let credentials = full_credentials();
    let agent = PromptAgent::new(ProviderName::default(), &credentials).unwrap();
    let space_time_config = SpaceTimeConfig {
        address: String::from("São Paulo"),
        date: Some(String::from("2023-3-31")),
    };
    let result = agent.process_command(InputSubcommand::Get(space_time_config), &some_day());
    assert!(matches!(result, Err(WeatherError::InvalidDateFormat)));
}

#[test]
fn test_parse_args_grammar() {
    let args = vec![String::from("get"), String::from("L'aquila, Italy")];
    match parse_args(&args) {
        ArgsParse::Command(InputSubcommand::Get(cfg)) => {
            assert_eq!(cfg.address, "L'aquila, Italy");
            assert!(cfg.date.is_none());
        }
        other => panic!("unexpected parse: {:?}", other),
    }

    let args = vec![
        String::from("get"),
        String::from("Palermo, Italy"),
        String::from("2023-04-07"),
    ];
    match parse_args(&args) {
        ArgsParse::Command(InputSubcommand::Get(cfg)) => {
            assert_eq!(cfg.address, "Palermo, Italy");
            assert_eq!(cfg.date.as_deref(), Some("2023-04-07"));
        }
        other => panic!("unexpected parse: {:?}", other),
    }

    let args = vec![String::from("configure"), String::from("WEATHER-API")];
    assert!(matches!(
        parse_args(&args),
        ArgsParse::Command(InputSubcommand::Configure(ProviderName::WeatherApi))
    ));

    let args = vec![String::from("current-provider")];
    assert!(matches!(
        parse_args(&args),
        ArgsParse::Command(InputSubcommand::CurrentProvider)
    ));

    let args = vec![String::from("--help")];
    assert!(matches!(parse_args(&args), ArgsParse::Help));

    let args = vec![String::from("frobnicate")];
    assert!(matches!(parse_args(&args), ArgsParse::Invalid));

    let args = vec![String::from("configure"), String::from("acme-weather")];
    assert!(matches!(parse_args(&args), ArgsParse::Invalid));

    let args: Vec<String> = vec![];
    assert!(matches!(parse_args(&args), ArgsParse::Invalid));
}

#[test]
fn test_parse_command_usage_outcomes() {
    let credentials = full_credentials();
    let agent = PromptAgent::new(ProviderName::default(), &credentials).unwrap();

    let outcome = agent
        .parse_command(&vec![String::from("--help")], &some_day())
        .unwrap();
    assert!(matches!(outcome, CommandOutcome::Usage { error: false }));

    let outcome = agent
        .parse_command(&vec![String::from("frobnicate")], &some_day())
        .unwrap();
    assert!(matches!(outcome, CommandOutcome::Usage { error: true }));
}

#[test]
fn test_error_messages_name_the_provider() {
    let e = WeatherError::MissingCredential(ProviderName::WeatherApi);
    assert_eq!(
        e.message(),
        "missing API credential for provider weather-api"
    );
    let e = WeatherError::InvalidDateFormat;
    assert_eq!(e.message(), "entered date should be in the YYYY-MM-DD format");
}

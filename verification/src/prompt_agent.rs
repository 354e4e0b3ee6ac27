//! The prompt agent: the credential registry and the command router.
//!
//! The agent owns the active provider client and decides, for every parsed
//! command, what is to happen: which HTTP query to issue, whether the
//! persisted provider selection changes, or what to report.  It performs no
//! I/O itself; the unverified shell reads the environment, the clock, the
//! configuration file and the network, and hands the agent plain values.
//!
//! Only a `SwitchProvider` outcome changes persisted state: `configure`
//! with the already-active provider is a no-op that merely reports the
//! fact, and every other command leaves the selection untouched.

use vstd::prelude::*;

use crate::dates::Date;
use crate::error::WeatherError;
use crate::provider::{
    client_key, plans_current, plans_timed, ProviderClient, ProviderName, WeatherRequest,
};
use crate::text::{eq_ignore_ascii_case, str_eq};

verus! {

/// The where and when of a weather request: an address, and optionally a
/// `YYYY-MM-DD` date.
#[derive(Debug)]
pub struct SpaceTimeConfig {
    pub address: String,
    pub date: Option<String>,
}

/// A parsed command.
#[derive(Debug)]
pub enum InputSubcommand {
    /// Switch the active provider.
    Configure(ProviderName),
    /// Fetch weather for an address, now or on a date.
    Get(SpaceTimeConfig),
    /// Report the active provider.
    CurrentProvider,
}

/// What one command amounts to.  The shell executes the outcome: it
/// fetches a planned query, persists a provider switch, or prints a
/// report.
#[derive(Debug)]
pub enum CommandOutcome {
    /// Fetch this planned query and display the result for the given
    /// address and optional date.
    Weather { request: WeatherRequest, address: String, date: Option<String> },
    /// The requested provider is already active; nothing is persisted.
    AlreadyInUse(ProviderName),
    /// Persist `to` as the active provider.
    SwitchProvider { from: ProviderName, to: ProviderName },
    /// Report the active provider.
    CurrentProvider(ProviderName),
    /// Print usage; `error` says whether this answers a help request or
    /// rejects unrecognized input.
    Usage { error: bool },
}

/// The credential registry: one API key per supported provider, loaded
/// once at startup and never mutated afterwards.
pub struct CredentialMap {
    open_weather_map_key: Option<String>,
    weather_api_key: Option<String>,
}

impl CredentialMap {
    /// The key stored for a provider, if any.
    pub closed spec fn spec_get(self, p: ProviderName) -> Option<Seq<char>> {
        match p {
            ProviderName::OpenWeatherMap => match self.open_weather_map_key {
                Some(k) => Some(k@),
                None => None,
            },
            ProviderName::WeatherApi => match self.weather_api_key {
                Some(k) => Some(k@),
                None => None,
            },
        }
    }

    /// The registry holds a key for the provider.
    pub open spec fn contains(self, p: ProviderName) -> bool {
        self.spec_get(p) is Some
    }

    /// The registry holds a key for every supported provider.
    pub open spec fn complete(self) -> bool {
        forall|p: ProviderName| self.contains(p)
    }

    /// Assembles a registry from one optional key per provider.  A partial
    /// registry can arise when a persisted selection outlives the
    /// credentials it was made with; lookups handle it defensively.
    pub fn new(open_weather_map_key: Option<String>, weather_api_key: Option<String>) -> (r:
        CredentialMap)
        ensures
            r.spec_get(ProviderName::OpenWeatherMap) == opt_view(open_weather_map_key),
            r.spec_get(ProviderName::WeatherApi) == opt_view(weather_api_key),
    {
        CredentialMap { open_weather_map_key, weather_api_key }
    }

    /// Looks up the key stored for a provider.
    pub fn get(&self, p: &ProviderName) -> (r: Option<&String>)
        ensures
            r matches Some(k) ==> self.spec_get(*p) == Some(k@),
            r is None <==> !self.contains(*p),
    {
        match p {
            ProviderName::OpenWeatherMap => match &self.open_weather_map_key {
                Some(k) => Some(k),
                None => None,
            },
            ProviderName::WeatherApi => match &self.weather_api_key {
                Some(k) => Some(k),
                None => None,
            },
        }
    }
}

/// Builds the credential registry from the two credential lookups, one per
/// supported provider in registry order.
///
/// Loading is all or nothing: either every provider has its key and the
/// registry is complete, or the first provider whose key is absent is
/// named in a `MissingCredential` error and no partial registry exists.
pub fn load_credentials(
    open_weather_map_key: Option<String>,
    weather_api_key: Option<String>,
) -> (r: Result<CredentialMap, WeatherError>)
    ensures
        (open_weather_map_key is Some && weather_api_key is Some) <==> r is Ok,
        r matches Ok(m) ==> {
            &&& m.complete()
            &&& m.spec_get(ProviderName::OpenWeatherMap) == Some(open_weather_map_key.unwrap()@)
            &&& m.spec_get(ProviderName::WeatherApi) == Some(weather_api_key.unwrap()@)
        },
        open_weather_map_key is None ==> r == Err::<CredentialMap, WeatherError>(
            WeatherError::MissingCredential(ProviderName::OpenWeatherMap),
        ),
        open_weather_map_key is Some && weather_api_key is None ==> r == Err::<
            CredentialMap,
            WeatherError,
        >(WeatherError::MissingCredential(ProviderName::WeatherApi)),
{
    let owm = match open_weather_map_key {
        Some(k) => k,
        None => {
            return Err(WeatherError::MissingCredential(ProviderName::OpenWeatherMap));
        },
    };
    let wapi = match weather_api_key {
        Some(k) => k,
        None => {
            return Err(WeatherError::MissingCredential(ProviderName::WeatherApi));
        },
    };
    let m = CredentialMap { open_weather_map_key: Some(owm), weather_api_key: Some(wapi) };
    proof {
        assert forall|p: ProviderName| m.contains(p) by {
            if p != ProviderName::OpenWeatherMap {
                assert(p == ProviderName::WeatherApi);
            }
        }
    }
    Ok(m)
}

/// Constructs the client for a provider, bound to the key the registry
/// holds for it; a provider without a credential is rejected.
pub fn select(provider_name: ProviderName, credentials: &CredentialMap) -> (r: Result<
    ProviderClient,
    WeatherError,
>)
    ensures
        credentials.contains(provider_name) <==> r is Ok,
        r matches Ok(c) ==> c.spec_name() == provider_name && Some(client_key(c))
            == credentials.spec_get(provider_name),
        !credentials.contains(provider_name) ==> r == Err::<ProviderClient, WeatherError>(
            WeatherError::UnknownProvider(provider_name),
        ),
{
    match credentials.get(&provider_name) {
        Some(key) => Ok(provider_name.get_provider_instance(key.clone())),
        None => Err(WeatherError::UnknownProvider(provider_name)),
    }
}

/// Settles which provider to activate: the requested one if its credential
/// is present, otherwise any available provider as a surfaced fallback
/// (the flag is true), and an `UnknownProvider` error only when no
/// credential is available at all.
pub fn resolve_provider(requested: ProviderName, credentials: &CredentialMap) -> (r: Result<
    (ProviderName, bool),
    WeatherError,
>)
    ensures
        credentials.contains(requested) ==> r == Ok::<(ProviderName, bool), WeatherError>(
            (requested, false),
        ),
        !credentials.contains(requested) && (exists|p: ProviderName| credentials.contains(p))
            ==> (r matches Ok(pair) && credentials.contains(pair.0) && pair.1 == true),
        (forall|p: ProviderName| !credentials.contains(p)) ==> r == Err::<
            (ProviderName, bool),
            WeatherError,
        >(WeatherError::UnknownProvider(requested)),
{
    if credentials.get(&requested).is_some() {
        return Ok((requested, false));
    }
    if credentials.get(&ProviderName::OpenWeatherMap).is_some() {
        return Ok((ProviderName::OpenWeatherMap, true));
    }
    if credentials.get(&ProviderName::WeatherApi).is_some() {
        return Ok((ProviderName::WeatherApi, true));
    }
    proof {
        assert forall|p: ProviderName| !credentials.contains(p) by {
            if p != ProviderName::OpenWeatherMap {
                assert(p == ProviderName::WeatherApi);
            }
        }
    }
    Err(WeatherError::UnknownProvider(requested))
}

/// The agent managing the conversation between the user and the active
/// provider.
pub struct PromptAgent {
    current_provider: ProviderClient,
    current_provider_name: ProviderName,
}

/// The outcome of a `configure` command: a no-op report when the provider
/// is already active, otherwise a switch to be persisted.
pub open spec fn configure_outcome(current: ProviderName, requested: ProviderName) -> CommandOutcome {
    if requested == current {
        CommandOutcome::AlreadyInUse(requested)
    } else {
        CommandOutcome::SwitchProvider { from: current, to: requested }
    }
}

/// The outcome of a `current-provider` command.
pub open spec fn report_outcome(current: ProviderName) -> CommandOutcome {
    CommandOutcome::CurrentProvider(current)
}

/// The view of an optional string.
pub open spec fn opt_view(o: Option<String>) -> Option<Seq<char>> {
    match o {
        Some(s) => Some(s@),
        None => None,
    }
}

/// How a `get` command turns out: the result mirrors the query planned by
/// the active client, wrapped together with the address and date it was
/// asked for.
pub open spec fn get_outcome(
    client: ProviderClient,
    address: Seq<char>,
    date: Option<Seq<char>>,
    today: Date,
    r: Result<CommandOutcome, WeatherError>,
) -> bool {
    match date {
        None => match r {
            Ok(out) => out matches CommandOutcome::Weather { request, address: a, date: d }
                && plans_current(client, address, Ok(request)) && a@ == address && d is None,
            Err(e) => plans_current(client, address, Err(e)),
        },
        Some(ds) => match r {
            Ok(out) => out matches CommandOutcome::Weather { request, address: a, date: d }
                && plans_timed(client, address, ds, today, Ok(request)) && a@ == address && (
            d matches Some(d2) && d2@ == ds),
            Err(e) => plans_timed(client, address, ds, today, Err(e)),
        },
    }
}

impl PromptAgent {
    /// The name of the active provider.
    pub closed spec fn spec_provider_name(self) -> ProviderName {
        self.current_provider_name
    }

    /// The active provider client.
    pub closed spec fn spec_client(self) -> ProviderClient {
        self.current_provider
    }

    /// The client always belongs to the active provider.
    pub open spec fn wf(self) -> bool {
        self.spec_client().spec_name() == self.spec_provider_name()
    }

    /// Creates an agent for the given provider, whose credential must be
    /// in the registry.
    pub fn new(provider_name: ProviderName, credentials: &CredentialMap) -> (r: Result<
        PromptAgent,
        WeatherError,
    >)
        ensures
            credentials.contains(provider_name) <==> r is Ok,
            r matches Ok(agent) ==> {
                &&& agent.wf()
                &&& agent.spec_provider_name() == provider_name
                &&& Some(client_key(agent.spec_client())) == credentials.spec_get(provider_name)
            },
            !credentials.contains(provider_name) ==> r == Err::<PromptAgent, WeatherError>(
                WeatherError::UnknownProvider(provider_name),
            ),
    {
        match select(provider_name, credentials) {
            Ok(client) => Ok(
                PromptAgent { current_provider: client, current_provider_name: provider_name },
            ),
            Err(e) => Err(e),
        }
    }

    /// The name of the active provider.
    pub fn current_provider_name(&self) -> (r: ProviderName)
        ensures
            r == self.spec_provider_name(),
    {
        self.current_provider_name
    }

    /// Routes one parsed command to its outcome.
    ///
    /// A `get` with a date is validated strictly and planned by the active
    /// client; `configure` with the active provider is a no-op that only
    /// reports "already in use", any other `configure` asks the shell to
    /// persist the switch; `current-provider` reports the active name.
    pub fn process_command(&self, command: InputSubcommand, today: &Date) -> (r: Result<
        CommandOutcome,
        WeatherError,
    >)
        requires
            today.wf(),
        ensures
            command matches InputSubcommand::Configure(p) ==> r == Ok::<
                CommandOutcome,
                WeatherError,
            >(configure_outcome(self.spec_provider_name(), p)),
            command matches InputSubcommand::CurrentProvider ==> r == Ok::<
                CommandOutcome,
                WeatherError,
            >(report_outcome(self.spec_provider_name())),
            command matches InputSubcommand::Get(cfg) ==> get_outcome(
                self.spec_client(),
                cfg.address@,
                opt_view(cfg.date),
                *today,
                r,
            ),
    {
        match command {
            InputSubcommand::Get(cfg) => {
                let SpaceTimeConfig { address, date } = cfg;
                match date {
                    Some(ds) => {
                        match self.current_provider.get_timed_weather(
                            address.as_str(),
                            ds.as_str(),
                            today,
                        ) {
                            Ok(request) => Ok(
                                CommandOutcome::Weather { request, address, date: Some(ds) },
                            ),
                            Err(e) => Err(e),
                        }
                    },
                    None => {
                        match self.current_provider.get_current_weather(address.as_str()) {
                            Ok(request) => Ok(
                                CommandOutcome::Weather { request, address, date: None },
                            ),
                            Err(e) => Err(e),
                        }
                    },
                }
            },
            InputSubcommand::Configure(provider_name) => {
                if provider_name == self.current_provider_name {
                    Ok(CommandOutcome::AlreadyInUse(provider_name))
                } else {
                    Ok(
                        CommandOutcome::SwitchProvider {
                            from: self.current_provider_name,
                            to: provider_name,
                        },
                    )
                }
            },
            InputSubcommand::CurrentProvider => {
                Ok(CommandOutcome::CurrentProvider(self.current_provider_name))
            },
        }
    }
}

/// A single-argument help request.
pub open spec fn is_help_request(a: Seq<String>) -> bool {
    a.len() == 1 && (a[0]@ == "--help"@ || a[0]@ == "-h"@ || a[0]@ == "help"@)
}

/// A `get` command: an address and optionally a date.
pub open spec fn parses_to_get(a: Seq<String>) -> bool {
    (a.len() == 2 || a.len() == 3) && a[0]@ == "get"@
}

/// A `configure` command naming a known provider, case-insensitively.
pub open spec fn parses_to_configure(a: Seq<String>) -> bool {
    a.len() == 2 && a[0]@ == "configure"@ && (eq_ignore_ascii_case(a[1]@, "open-weather-map"@)
        || eq_ignore_ascii_case(a[1]@, "weather-api"@))
}

/// The provider a well-formed `configure` command names.
pub open spec fn configured_provider(a: Seq<String>) -> ProviderName {
    if eq_ignore_ascii_case(a[1]@, "open-weather-map"@) {
        ProviderName::OpenWeatherMap
    } else {
        ProviderName::WeatherApi
    }
}

/// A `current-provider` command.
pub open spec fn parses_to_current_provider(a: Seq<String>) -> bool {
    a.len() == 1 && a[0]@ == "current-provider"@
}

/// Input that is neither a known command nor a help request.
pub open spec fn is_unrecognized(a: Seq<String>) -> bool {
    &&& !is_help_request(a)
    &&& !parses_to_get(a)
    &&& !parses_to_configure(a)
    &&& !parses_to_current_provider(a)
}

/// The result of reading a raw argument list (the arguments after the
/// program name).
#[derive(Debug)]
pub enum ArgsParse {
    /// A well-formed command.
    Command(InputSubcommand),
    /// A help request: print usage, succeed.
    Help,
    /// Unrecognized input: print usage, fail.
    Invalid,
}

/// Reads the raw argument list into a command, a help request, or a
/// rejection.
pub fn parse_args(args: &Vec<String>) -> (r: ArgsParse)
    ensures
        is_help_request(args@) ==> r is Help,
        parses_to_current_provider(args@) ==> r == ArgsParse::Command(
            InputSubcommand::CurrentProvider,
        ),
        parses_to_configure(args@) ==> r == ArgsParse::Command(
            InputSubcommand::Configure(configured_provider(args@)),
        ),
        parses_to_get(args@) ==> (r matches ArgsParse::Command(c) && c matches
            InputSubcommand::Get(cfg) && cfg.address@ == args@[1]@ && (args@.len() == 2
            ==> cfg.date is None) && (args@.len() == 3 ==> (cfg.date matches Some(d) && d@
            == args@[2]@))),
        is_unrecognized(args@) ==> r is Invalid,
{
    proof {
        reveal_strlit("--help");
        reveal_strlit("-h");
        reveal_strlit("help");
        reveal_strlit("current-provider");
        reveal_strlit("get");
        reveal_strlit("configure");
        // The keywords all differ in length, so matching one rules the
        // others out.
        assert("--help"@.len() == 6);
        assert("-h"@.len() == 2);
        assert("help"@.len() == 4);
        assert("current-provider"@.len() == 16);
        assert("get"@.len() == 3);
        assert("configure"@.len() == 9);
    }
    if args.len() == 1 {
        let a0 = args[0].as_str();
        if str_eq(a0, "--help") || str_eq(a0, "-h") || str_eq(a0, "help") {
            return ArgsParse::Help;
        }
        if str_eq(a0, "current-provider") {
            return ArgsParse::Command(InputSubcommand::CurrentProvider);
        }
        return ArgsParse::Invalid;
    }
    if args.len() == 2 || args.len() == 3 {
        let a0 = args[0].as_str();
        if str_eq(a0, "get") {
            let address = args[1].clone();
            let date = if args.len() == 3 {
                Some(args[2].clone())
            } else {
                None
            };
            return ArgsParse::Command(InputSubcommand::Get(SpaceTimeConfig { address, date }));
        }
        if args.len() == 2 && str_eq(a0, "configure") {
            match ProviderName::from_cli_name(args[1].as_str()) {
                Some(p) => {
                    return ArgsParse::Command(InputSubcommand::Configure(p));
                },
                None => {
                    return ArgsParse::Invalid;
                },
            }
        }
        return ArgsParse::Invalid;
    }
    ArgsParse::Invalid
}

impl PromptAgent {
    /// Reads a raw argument list and routes the command it holds.
    ///
    /// A help request and unrecognized input both end in a `Usage`
    /// outcome, which changes nothing; a well-formed command is processed.
    pub fn parse_command(&self, args: &Vec<String>, today: &Date) -> (r: Result<
        CommandOutcome,
        WeatherError,
    >)
        requires
            today.wf(),
        ensures
            is_help_request(args@) ==> r == Ok::<CommandOutcome, WeatherError>(
                CommandOutcome::Usage { error: false },
            ),
            is_unrecognized(args@) ==> r == Ok::<CommandOutcome, WeatherError>(
                CommandOutcome::Usage { error: true },
            ),
            parses_to_current_provider(args@) ==> r == Ok::<CommandOutcome, WeatherError>(
                report_outcome(self.spec_provider_name()),
            ),
            parses_to_configure(args@) ==> r == Ok::<CommandOutcome, WeatherError>(
                configure_outcome(self.spec_provider_name(), configured_provider(args@)),
            ),
            parses_to_get(args@) ==> get_outcome(
                self.spec_client(),
                args@[1]@,
                if args@.len() == 3 {
                    Some(args@[2]@)
                } else {
                    None
                },
                *today,
                r,
            ),
    {
        match parse_args(args) {
            ArgsParse::Help => Ok(CommandOutcome::Usage { error: false }),
            ArgsParse::Invalid => Ok(CommandOutcome::Usage { error: true }),
            ArgsParse::Command(command) => self.process_command(command, today),
        }
    }
}

/// Law: configuring the provider that is already active is a no-op.  The
/// outcome only reports "already in use"; no `SwitchProvider` outcome is
/// produced, so nothing is persisted and the in-memory selection is
/// untouched.
pub proof fn lemma_configure_active_is_noop(current: ProviderName)
    ensures
        configure_outcome(current, current) == CommandOutcome::AlreadyInUse(current),
{
}

/// Law: switching providers and then asking for the current provider
/// reports the new identifier.  A `configure` for a different provider
/// asks the shell to persist exactly `requested`; an agent later selected
/// for that persisted identifier reports it.
pub proof fn lemma_switch_then_report(
    current: ProviderName,
    requested: ProviderName,
    reloaded: PromptAgent,
)
    requires
        requested != current,
        reloaded.spec_provider_name() == requested,
    ensures
        configure_outcome(current, requested) == (CommandOutcome::SwitchProvider {
            from: current,
            to: requested,
        }),
        report_outcome(reloaded.spec_provider_name()) == CommandOutcome::CurrentProvider(
            requested,
        ),
{
}

} // verus!


//! The settings of the sentry, read from environment variables.

use crate::decimal::{
    decimal_text, decimal_text_beyond_is_refused, decimal_value, parse_undoes_decimal_text,
    parse_unsigned, parsed_unsigned, parsed_unsigned_is_bounded, row_of_digits_is_parsed,
    IntegerError,
};
use crate::endpoint::{parsed_url, url_parsed, BeaconUrl, UrlParts};
use crate::ingress::option_text;
use crate::ipv4::{
    dotted, only_dotted_texts_are_read, parse_ipv4, parsed_ipv4, Ipv4Address,
};
use crate::text::{
    blank, blank_is_all_space, characters, is_blank, is_space, joined, piece_bounds, pieces, pieces_hold_no_separator, pieces_of_joined,
    pieces_without_separator, same_text, texts, trim_bounds, trimmed, trimmed_bounds,
    trimming_is_idempotent,
};
use vstd::prelude::*;

verus! {

/// The environment variables that the sentry reads.
#[derive(Clone, Copy, Debug, PartialEq, Eq, Structural)]
pub enum Variable {
    BeaconApiUrl,
    IngressSocket,
    DataDir,
    ListenAddress,
    EnrAddress,
    TcpPort,
    DiscoveryPort,
    QuicPort,
    PeerTarget,
    BootEnrs,
    Log,
    LogJson,
}

impl Variable {
    /// The name of the variable.
    pub open spec fn name(self) -> Seq<char> {
        match self {
            Variable::BeaconApiUrl => "FORKT_BEACON_API_URL"@,
            Variable::IngressSocket => "FORKT_INGRESS_SOCKET"@,
            Variable::DataDir => "FORKT_CONSENSUS_DATA_DIR"@,
            Variable::ListenAddress => "FORKT_CONSENSUS_LISTEN_ADDRESS"@,
            Variable::EnrAddress => "FORKT_CONSENSUS_ENR_ADDRESS"@,
            Variable::TcpPort => "FORKT_CONSENSUS_TCP_PORT"@,
            Variable::DiscoveryPort => "FORKT_CONSENSUS_DISCOVERY_PORT"@,
            Variable::QuicPort => "FORKT_CONSENSUS_QUIC_PORT"@,
            Variable::PeerTarget => "FORKT_CONSENSUS_PEER_TARGET"@,
            Variable::BootEnrs => "FORKT_CONSENSUS_BOOT_ENRS"@,
            Variable::Log => "FORKT_LOG"@,
            Variable::LogJson => "FORKT_LOG_JSON"@,
        }
    }

    /// Every variable, once.
    pub fn all() -> (result: [Variable; 12])
        ensures
            forall|variable: Variable| #[trigger] result@.contains(variable),
            result@.no_duplicates(),
    {
        let result: [Variable; 12] = [
            Variable::BeaconApiUrl,
            Variable::IngressSocket,
            Variable::DataDir,
            Variable::ListenAddress,
            Variable::EnrAddress,
            Variable::TcpPort,
            Variable::DiscoveryPort,
            Variable::QuicPort,
            Variable::PeerTarget,
            Variable::BootEnrs,
            Variable::Log,
            Variable::LogJson,
        ];
        assert forall|variable: Variable| #[trigger] result@.contains(variable) by {
            let i: int = match variable {
                Variable::BeaconApiUrl => 0,
                Variable::IngressSocket => 1,
                Variable::DataDir => 2,
                Variable::ListenAddress => 3,
                Variable::EnrAddress => 4,
                Variable::TcpPort => 5,
                Variable::DiscoveryPort => 6,
                Variable::QuicPort => 7,
                Variable::PeerTarget => 8,
                Variable::BootEnrs => 9,
                Variable::Log => 10,
                Variable::LogJson => 11,
            };
            assert(result@[i] == variable);
        }
        result
    }

    /// The name of the variable.
    pub fn key(self) -> (result: &'static str)
        ensures
            result@ == self.name(),
    {
        match self {
            Variable::BeaconApiUrl => "FORKT_BEACON_API_URL",
            Variable::IngressSocket => "FORKT_INGRESS_SOCKET",
            Variable::DataDir => "FORKT_CONSENSUS_DATA_DIR",
            Variable::ListenAddress => "FORKT_CONSENSUS_LISTEN_ADDRESS",
            Variable::EnrAddress => "FORKT_CONSENSUS_ENR_ADDRESS",
            Variable::TcpPort => "FORKT_CONSENSUS_TCP_PORT",
            Variable::DiscoveryPort => "FORKT_CONSENSUS_DISCOVERY_PORT",
            Variable::QuicPort => "FORKT_CONSENSUS_QUIC_PORT",
            Variable::PeerTarget => "FORKT_CONSENSUS_PEER_TARGET",
            Variable::BootEnrs => "FORKT_CONSENSUS_BOOT_ENRS",
            Variable::Log => "FORKT_LOG",
            Variable::LogJson => "FORKT_LOG_JSON",
        }
    }
}

/// Why the text of a variable does not have the wanted form.
#[derive(Clone, Copy, Debug, PartialEq, Eq, Structural)]
pub enum ValueError {
    /// An integer was wanted.
    Integer(IntegerError),
    /// `true` or `false` was wanted.
    Boolean,
    /// An IPv4 address was wanted.
    Address,
}

impl ValueError {
    /// What is wrong with the text, in words.
    pub open spec fn words(self) -> Seq<char> {
        match self {
            ValueError::Integer(error) => error.words(),
            ValueError::Boolean => "provided string was not `true` or `false`"@,
            ValueError::Address => "invalid IPv4 address syntax"@,
        }
    }

    /// What is wrong with the text, in words.
    pub fn message(&self) -> (result: String)
        ensures
            result@ == self.words(),
    {
        match self {
            ValueError::Integer(error) => error.message(),
            ValueError::Boolean => "provided string was not `true` or `false`".to_owned(),
            ValueError::Address => "invalid IPv4 address syntax".to_owned(),
        }
    }
}

/// What can be read from the text of a variable.
pub trait FromText: Sized {
    /// What the text stands for.
    spec fn from_text_spec(text: Seq<char>) -> Result<Self, ValueError>;

    /// Reads the text.
    fn from_text(text: &str) -> (result: Result<Self, ValueError>)
        ensures
            result == Self::from_text_spec(text@),
    ;
}

impl FromText for u16 {
    open spec fn from_text_spec(text: Seq<char>) -> Result<u16, ValueError> {
        match parsed_unsigned(text, u16::MAX as nat) {
            Ok(n) => Ok(n as u16),
            Err(error) => Err(ValueError::Integer(error)),
        }
    }

    fn from_text(text: &str) -> (result: Result<u16, ValueError>) {
        proof {
            parsed_unsigned_is_bounded(text@, u16::MAX as nat);
        }
        match parse_unsigned(text, u16::MAX as u64) {
            Ok(n) => Ok(n as u16),
            Err(error) => Err(ValueError::Integer(error)),
        }
    }
}

impl FromText for usize {
    open spec fn from_text_spec(text: Seq<char>) -> Result<usize, ValueError> {
        match parsed_unsigned(text, usize::MAX as nat) {
            Ok(n) => Ok(n as usize),
            Err(error) => Err(ValueError::Integer(error)),
        }
    }

    fn from_text(text: &str) -> (result: Result<usize, ValueError>) {
        proof {
            parsed_unsigned_is_bounded(text@, usize::MAX as nat);
        }
        match parse_unsigned(text, usize::MAX as u64) {
            Ok(n) => Ok(n as usize),
            Err(error) => Err(ValueError::Integer(error)),
        }
    }
}

impl FromText for bool {
    open spec fn from_text_spec(text: Seq<char>) -> Result<bool, ValueError> {
        if text == "true"@ {
            Ok(true)
        } else if text == "false"@ {
            Ok(false)
        } else {
            Err(ValueError::Boolean)
        }
    }

    fn from_text(text: &str) -> (result: Result<bool, ValueError>) {
        if same_text(text, "true") {
            Ok(true)
        } else if same_text(text, "false") {
            Ok(false)
        } else {
            Err(ValueError::Boolean)
        }
    }
}

impl FromText for Ipv4Address {
    open spec fn from_text_spec(text: Seq<char>) -> Result<Ipv4Address, ValueError> {
        match parsed_ipv4(text) {
            Some(address) => Ok(address),
            None => Err(ValueError::Address),
        }
    }

    fn from_text(text: &str) -> (result: Result<Ipv4Address, ValueError>) {
        match parse_ipv4(text) {
            Some(address) => Ok(address),
            None => Err(ValueError::Address),
        }
    }
}

/// The environment of the process: names and values, in the order in which they are looked up.
#[derive(Clone, Debug)]
pub struct Environment {
    pub variables: Vec<(String, String)>,
}

impl View for Environment {
    type V = Seq<(Seq<char>, Seq<char>)>;

    open spec fn view(&self) -> Seq<(Seq<char>, Seq<char>)> {
        self.variables@.map_values(|entry: (String, String)| (entry.0@, entry.1@))
    }
}

/// The value of the first variable of that name.
pub open spec fn value_of(environment: Seq<(Seq<char>, Seq<char>)>, name: Seq<char>) -> Option<
    Seq<char>,
>
    decreases environment.len(),
{
    if environment.len() == 0 {
        None
    } else if environment[0].0 == name {
        Some(environment[0].1)
    } else {
        value_of(environment.drop_first(), name)
    }
}

/// The value of the first variable of that name, or `default` where there is none.
pub open spec fn value_or(
    environment: Seq<(Seq<char>, Seq<char>)>,
    variable: Variable,
    default: Seq<char>,
) -> Seq<char> {
    match value_of(environment, variable.name()) {
        Some(value) => value,
        None => default,
    }
}

impl Environment {
    /// The value of a variable.
    pub fn value(&self, variable: Variable) -> (result: Option<String>)
        ensures
            match result {
                Some(value) => value_of(self@, variable.name()) == Some(value@),
                None => value_of(self@, variable.name()) is None,
            },
    {
        let key: &'static str = variable.key();
        assert(self@.skip(0) == self@);
        for i in 0..self.variables.len()
            invariant
                key@ == variable.name(),
                self@.len() == self.variables@.len(),
                value_of(self@, variable.name()) == value_of(
                    self@.skip(i as int),
                    variable.name(),
                ),
        {
            let entry: &(String, String) = &self.variables[i];
            assert(self@.skip(i as int)[0] == (entry.0@, entry.1@));
            assert(self@.skip(i as int).drop_first() == self@.skip(i + 1));
            if same_text(entry.0.as_str(), key) {
                return Some(entry.1.clone());
            }
        }
        None
    }

    /// The value of a variable, or `default` where it is not set.
    pub fn value_or(&self, variable: Variable, default: &str) -> (result: String)
        ensures
            result@ == value_or(self@, variable, default@),
    {
        match self.value(variable) {
            Some(value) => value,
            None => default.to_owned(),
        }
    }
}

/// What came of loading the `.env` file.
#[derive(Clone, Debug)]
pub enum DotenvOutcome {
    /// It was read, and its variables are set.
    Loaded,
    /// There is none.
    NotFound,
    /// It could not be read or understood; why, in words.
    Failed(String),
}

/// Why the settings cannot be used.
#[derive(Clone, Debug, PartialEq, Eq)]
pub enum ConfigError {
    /// The `.env` file could not be loaded; why, in words.
    Dotenv(String),
    /// The variable is not set, or is blank.
    Required(Variable),
    /// The URL of the Beacon API is no URL; why, in words.
    InvalidUrl(String),
    /// The URL of the Beacon API is neither `http` nor `https`.
    UnsupportedScheme,
    /// The announced address is no IPv4 address.
    InvalidEnrAddress(ValueError),
    /// The variable does not have the wanted form.
    Invalid(Variable, ValueError),
    /// The number of wanted peers is out of range.
    PeerTargetOutOfRange,
    /// The path of the ingress socket is empty.
    EmptyIngressSocket,
}

/// What a [`ConfigError`] says.
pub enum ConfigFault {
    Dotenv(Seq<char>),
    Required(Variable),
    InvalidUrl(Seq<char>),
    UnsupportedScheme,
    InvalidEnrAddress(ValueError),
    Invalid(Variable, ValueError),
    PeerTargetOutOfRange,
    EmptyIngressSocket,
}

impl View for ConfigError {
    type V = ConfigFault;

    open spec fn view(&self) -> ConfigFault {
        match self {
            ConfigError::Dotenv(words) => ConfigFault::Dotenv(words@),
            ConfigError::Required(variable) => ConfigFault::Required(*variable),
            ConfigError::InvalidUrl(words) => ConfigFault::InvalidUrl(words@),
            ConfigError::UnsupportedScheme => ConfigFault::UnsupportedScheme,
            ConfigError::InvalidEnrAddress(error) => ConfigFault::InvalidEnrAddress(*error),
            ConfigError::Invalid(variable, error) => ConfigFault::Invalid(*variable, *error),
            ConfigError::PeerTargetOutOfRange => ConfigFault::PeerTargetOutOfRange,
            ConfigError::EmptyIngressSocket => ConfigFault::EmptyIngressSocket,
        }
    }
}

impl ConfigFault {
    /// What is wrong, in words.
    pub open spec fn words(self) -> Seq<char> {
        match self {
            ConfigFault::Dotenv(_) => "failed to load .env"@,
            ConfigFault::Required(variable) => variable.name() + " is required"@,
            ConfigFault::InvalidUrl(_) => "FORKT_BEACON_API_URL is not a valid URL"@,
            ConfigFault::UnsupportedScheme => "FORKT_BEACON_API_URL must use http or https"@,
            ConfigFault::InvalidEnrAddress(_) =>
                "FORKT_CONSENSUS_ENR_ADDRESS is not a valid IPv4 address"@,
            ConfigFault::Invalid(variable, error) => variable.name() + " is invalid: "@
                + error.words(),
            ConfigFault::PeerTargetOutOfRange =>
                "FORKT_CONSENSUS_PEER_TARGET must be between 1 and 500"@,
            ConfigFault::EmptyIngressSocket => "FORKT_INGRESS_SOCKET must not be empty"@,
        }
    }

    /// What lies behind it, in words, where there is more to say.
    pub open spec fn cause_words(self) -> Option<Seq<char>> {
        match self {
            ConfigFault::Dotenv(words) => Some(words),
            ConfigFault::InvalidUrl(words) => Some(words),
            ConfigFault::InvalidEnrAddress(error) => Some(error.words()),
            _ => None,
        }
    }
}

impl ConfigError {
    /// What is wrong, in words.
    pub fn message(&self) -> (result: String)
        ensures
            result@ == self@.words(),
    {
        match self {
            ConfigError::Dotenv(_) => "failed to load .env".to_owned(),
            ConfigError::Required(variable) => variable.key().to_owned().concat(" is required"),
            ConfigError::InvalidUrl(_) => "FORKT_BEACON_API_URL is not a valid URL".to_owned(),
            ConfigError::UnsupportedScheme =>
                "FORKT_BEACON_API_URL must use http or https".to_owned(),
            ConfigError::InvalidEnrAddress(_) =>
                "FORKT_CONSENSUS_ENR_ADDRESS is not a valid IPv4 address".to_owned(),
            ConfigError::Invalid(variable, error) => variable.key().to_owned().concat(
                " is invalid: ",
            ).concat(error.message().as_str()),
            ConfigError::PeerTargetOutOfRange =>
                "FORKT_CONSENSUS_PEER_TARGET must be between 1 and 500".to_owned(),
            ConfigError::EmptyIngressSocket => "FORKT_INGRESS_SOCKET must not be empty".to_owned(),
        }
    }

    /// What lies behind it, in words, where there is more to say.
    pub fn cause(&self) -> (result: Option<String>)
        ensures
            match result {
                Some(words) => self@.cause_words() == Some(words@),
                None => self@.cause_words() is None,
            },
    {
        match self {
            ConfigError::Dotenv(words) => Some(words.clone()),
            ConfigError::InvalidUrl(words) => Some(words.clone()),
            ConfigError::InvalidEnrAddress(error) => Some(error.message()),
            _ => None,
        }
    }
}

/// The value of a variable that has to be set to something that is not blank.
pub open spec fn required_value(
    environment: Seq<(Seq<char>, Seq<char>)>,
    variable: Variable,
) -> Result<Seq<char>, ConfigFault> {
    match value_of(environment, variable.name()) {
        Some(value) => if is_blank(value) {
            Err(ConfigFault::Required(variable))
        } else {
            Ok(value)
        },
        None => Err(ConfigFault::Required(variable)),
    }
}

/// The value of a variable that has to be set to something that is not blank.
pub fn required(environment: &Environment, variable: Variable) -> (result: Result<
    String,
    ConfigError,
>)
    ensures
        match result {
            Ok(value) => required_value(environment@, variable) == Ok::<Seq<char>, ConfigFault>(
                value@,
            ),
            Err(e) => required_value(environment@, variable) == Err::<Seq<char>, ConfigFault>(e@),
        },
{
    match environment.value(variable) {
        Some(value) => if blank(value.as_str()) {
            Err(ConfigError::Required(variable))
        } else {
            Ok(value)
        },
        None => Err(ConfigError::Required(variable)),
    }
}

/// What the value of a variable, or else its default, stands for.
pub open spec fn parsed_value<T: FromText>(
    environment: Seq<(Seq<char>, Seq<char>)>,
    variable: Variable,
    default: Seq<char>,
) -> Result<T, ConfigFault> {
    match T::from_text_spec(value_or(environment, variable, default)) {
        Ok(value) => Ok(value),
        Err(error) => Err(ConfigFault::Invalid(variable, error)),
    }
}

/// Reads the value of a variable, or else its default.
pub fn parse<T: FromText>(environment: &Environment, variable: Variable, default: &str) -> (result:
    Result<T, ConfigError>)
    ensures
        match result {
            Ok(value) => parsed_value::<T>(environment@, variable, default@) == Ok::<
                T,
                ConfigFault,
            >(value),
            Err(e) => parsed_value::<T>(environment@, variable, default@) == Err::<T, ConfigFault>(
                e@,
            ),
        },
{
    match T::from_text(environment.value_or(variable, default).as_str()) {
        Ok(value) => Ok(value),
        Err(error) => Err(ConfigError::Invalid(variable, error)),
    }
}

/// The entries of a comma-separated list: what stands between the commas, without the white
/// space around it, where that leaves anything.
pub open spec fn csv_entries(text: Seq<char>) -> Seq<Seq<char>> {
    pieces(text, ',').map_values(|piece: Seq<char>| trimmed(piece)).filter(
        |entry: Seq<char>| entry.len() > 0,
    )
}

/// Whether a text can be an entry of a comma-separated list: it holds something, has no white
/// space around it and holds no comma.
pub open spec fn is_clean(entry: Seq<char>) -> bool {
    &&& entry.len() > 0
    &&& trimmed(entry) == entry
    &&& !entry.contains(',')
}

/// The entries of a comma-separated list.
pub fn split_csv(value: &str) -> (result: Vec<String>)
    ensures
        texts(result@) == csv_entries(value@),
{
    let chars: Vec<char> = characters(value);
    let bounds: Vec<(usize, usize)> = piece_bounds(&chars, ',');
    let ghost entries = pieces(value@, ',').map_values(|piece: Seq<char>| trimmed(piece));
    let ghost kept = |entry: Seq<char>| entry.len() > 0;
    let mut result: Vec<String> = Vec::new();
    assert(texts(result@) == entries.take(0).filter(kept)) by {
        reveal(Seq::filter);
    }
    for i in 0..bounds.len()
        invariant
            chars@ == value@,
            entries == pieces(value@, ',').map_values(|piece: Seq<char>| trimmed(piece)),
            kept == (|entry: Seq<char>| entry.len() > 0),
            bounds@.len() == entries.len(),
            forall|j: int|
                #![trigger bounds@[j]]
                0 <= j < bounds@.len() ==> bounds@[j].0 <= bounds@[j].1 <= chars@.len() && pieces(
                    value@,
                    ',',
                )[j] == chars@.subrange(bounds@[j].0 as int, bounds@[j].1 as int),
            texts(result@) == entries.take(i as int).filter(kept),
    {
        let ghost before = result@;
        let (start, end) = trim_bounds(&chars, bounds[i].0, bounds[i].1);
        let ghost entry = entries[i as int];
        assert(entry == value@.subrange(start as int, end as int));
        assert(entries.take(i + 1).drop_last() == entries.take(i as int));
        assert(entries.take(i + 1).last() == entry);
        assert(entries.take(i + 1).filter(kept) == if kept(entry) {
            entries.take(i as int).filter(kept).push(entry)
        } else {
            entries.take(i as int).filter(kept)
        }) by {
            reveal(Seq::filter);
        }
        if start < end {
            result.push(value.substring_char(start, end).to_owned());
            assert(texts(result@) == texts(before).push(entry));
        }
    }
    assert(entries.take(entries.len() as int) == entries);
    result
}

/// The address to announce: none where the variable is not set or is blank.
pub open spec fn announced_address(environment: Seq<(Seq<char>, Seq<char>)>) -> Result<
    Option<Ipv4Address>,
    ConfigFault,
> {
    match value_of(environment, Variable::EnrAddress.name()) {
        Some(value) => if is_blank(value) {
            Ok(None)
        } else {
            match Ipv4Address::from_text_spec(value) {
                Ok(address) => Ok(Some(address)),
                Err(error) => Err(ConfigFault::InvalidEnrAddress(error)),
            }
        },
        None => Ok(None),
    }
}

/// The address to announce: none where the variable is not set or is blank.
pub fn enr_address(environment: &Environment) -> (result: Result<Option<Ipv4Address>, ConfigError>)
    ensures
        match result {
            Ok(address) => announced_address(environment@) == Ok::<
                Option<Ipv4Address>,
                ConfigFault,
            >(address),
            Err(e) => announced_address(environment@) == Err::<Option<Ipv4Address>, ConfigFault>(
                e@,
            ),
        },
{
    match environment.value(Variable::EnrAddress) {
        Some(value) => if blank(value.as_str()) {
            Ok(None)
        } else {
            match Ipv4Address::from_text(value.as_str()) {
                Ok(address) => Ok(Some(address)),
                Err(error) => Err(ConfigError::InvalidEnrAddress(error)),
            }
        },
        None => Ok(None),
    }
}

/// The settings of the sentry.
#[derive(Clone, Debug)]
pub struct Config {
    pub beacon_api_url: BeaconUrl,
    pub ingress_socket: String,
    pub data_dir: String,
    pub listen_address: Ipv4Address,
    pub enr_address: Option<Ipv4Address>,
    pub tcp_port: u16,
    pub discovery_port: u16,
    pub quic_port: u16,
    pub target_peers: usize,
    pub extra_boot_enrs: Vec<String>,
    pub log_filter: String,
    pub log_json: bool,
}

/// What a [`Config`] holds.
pub struct Settings {
    pub beacon_api_url: UrlParts,
    pub ingress_socket: Seq<char>,
    pub data_dir: Seq<char>,
    pub listen_address: Ipv4Address,
    pub enr_address: Option<Ipv4Address>,
    pub tcp_port: u16,
    pub discovery_port: u16,
    pub quic_port: u16,
    pub target_peers: usize,
    pub extra_boot_enrs: Seq<Seq<char>>,
    pub log_filter: Seq<char>,
    pub log_json: bool,
}

impl View for Config {
    type V = Settings;

    open spec fn view(&self) -> Settings {
        Settings {
            beacon_api_url: self.beacon_api_url@,
            ingress_socket: self.ingress_socket@,
            data_dir: self.data_dir@,
            listen_address: self.listen_address,
            enr_address: self.enr_address,
            tcp_port: self.tcp_port,
            discovery_port: self.discovery_port,
            quic_port: self.quic_port,
            target_peers: self.target_peers,
            extra_boot_enrs: texts(self.extra_boot_enrs@),
            log_filter: self.log_filter@,
            log_json: self.log_json,
        }
    }
}

impl Settings {
    /// Whether the sentry can run with these settings.
    pub open spec fn usable(self) -> bool {
        &&& self.beacon_api_url.scheme == "http"@ || self.beacon_api_url.scheme == "https"@
        &&& 1 <= self.target_peers <= 500
        &&& self.ingress_socket.len() > 0
        &&& forall|i: int|
            0 <= i < self.extra_boot_enrs.len() ==> is_clean(#[trigger] self.extra_boot_enrs[i])
    }
}

/// The settings that an environment gives, once the URL of the Beacon API has been parsed.
/// Of several faults the first in this order is reported.
pub open spec fn settings_with_url(
    environment: Seq<(Seq<char>, Seq<char>)>,
    parsed: Result<UrlParts, Seq<char>>,
) -> Result<Settings, ConfigFault> {
    let listen = parsed_value::<Ipv4Address>(environment, Variable::ListenAddress, "0.0.0.0"@);
    let announced = announced_address(environment);
    let tcp = parsed_value::<u16>(environment, Variable::TcpPort, "9000"@);
    let discovery = parsed_value::<u16>(environment, Variable::DiscoveryPort, "9000"@);
    let quic = parsed_value::<u16>(environment, Variable::QuicPort, "9001"@);
    let peers = parsed_value::<usize>(environment, Variable::PeerTarget, "100"@);
    let json = parsed_value::<bool>(environment, Variable::LogJson, "false"@);
    let socket = value_or(environment, Variable::IngressSocket, "/run/forkt/consensus.sock"@);
    if parsed is Err {
        Err(ConfigFault::InvalidUrl(parsed->Err_0))
    } else if parsed->Ok_0.scheme != "http"@ && parsed->Ok_0.scheme != "https"@ {
        Err(ConfigFault::UnsupportedScheme)
    } else if listen is Err {
        Err(listen->Err_0)
    } else if announced is Err {
        Err(announced->Err_0)
    } else if tcp is Err {
        Err(tcp->Err_0)
    } else if discovery is Err {
        Err(discovery->Err_0)
    } else if quic is Err {
        Err(quic->Err_0)
    } else if peers is Err {
        Err(peers->Err_0)
    } else if json is Err {
        Err(json->Err_0)
    } else if !(1 <= peers->Ok_0 <= 500) {
        Err(ConfigFault::PeerTargetOutOfRange)
    } else if socket.len() == 0 {
        Err(ConfigFault::EmptyIngressSocket)
    } else {
        Ok(
            Settings {
                beacon_api_url: parsed->Ok_0,
                ingress_socket: socket,
                data_dir: value_or(environment, Variable::DataDir, "./data/consensus"@),
                listen_address: listen->Ok_0,
                enr_address: announced->Ok_0,
                tcp_port: tcp->Ok_0,
                discovery_port: discovery->Ok_0,
                quic_port: quic->Ok_0,
                target_peers: peers->Ok_0,
                extra_boot_enrs: csv_entries(value_or(environment, Variable::BootEnrs, seq![])),
                log_filter: value_or(environment, Variable::Log, "info,lighthouse_network=info"@),
                log_json: json->Ok_0,
            },
        )
    }
}

/// The settings that an environment gives after the `.env` file was looked at.
pub open spec fn settings_of(
    dotenv: DotenvOutcome,
    environment: Seq<(Seq<char>, Seq<char>)>,
) -> Result<Settings, ConfigFault> {
    match dotenv {
        DotenvOutcome::Failed(words) => Err(ConfigFault::Dotenv(words@)),
        _ => match required_value(environment, Variable::BeaconApiUrl) {
            Ok(value) => settings_with_url(environment, parsed_url(value)),
            Err(fault) => Err(fault),
        },
    }
}

impl Config {
    /// Reads the settings from the environment, given what came of parsing the URL of the
    /// Beacon API.
    pub fn with_url(environment: &Environment, parsed: Result<BeaconUrl, String>) -> (result:
        Result<Config, ConfigError>)
        ensures
            ({
                let url = match parsed {
                    Ok(url) => Ok::<UrlParts, Seq<char>>(url@),
                    Err(words) => Err(words@),
                };
                match result {
                    Ok(config) => settings_with_url(environment@, url) == Ok::<
                        Settings,
                        ConfigFault,
                    >(config@) && config@.usable(),
                    Err(e) => settings_with_url(environment@, url) == Err::<Settings, ConfigFault>(
                        e@,
                    ),
                }
            }),
    {
        let beacon_api_url: BeaconUrl = match parsed {
            Ok(url) => url,
            Err(words) => {
                return Err(ConfigError::InvalidUrl(words));
            },
        };
        if !same_text(beacon_api_url.scheme.as_str(), "http") && !same_text(
            beacon_api_url.scheme.as_str(),
            "https",
        ) {
            return Err(ConfigError::UnsupportedScheme);
        }
        let listen_address: Ipv4Address = match parse::<Ipv4Address>(
            environment,
            Variable::ListenAddress,
            "0.0.0.0",
        ) {
            Ok(address) => address,
            Err(e) => {
                return Err(e);
            },
        };
        let enr_address: Option<Ipv4Address> = match enr_address(environment) {
            Ok(address) => address,
            Err(e) => {
                return Err(e);
            },
        };
        let tcp_port: u16 = match parse::<u16>(environment, Variable::TcpPort, "9000") {
            Ok(port) => port,
            Err(e) => {
                return Err(e);
            },
        };
        let discovery_port: u16 = match parse::<u16>(environment, Variable::DiscoveryPort, "9000") {
            Ok(port) => port,
            Err(e) => {
                return Err(e);
            },
        };
        let quic_port: u16 = match parse::<u16>(environment, Variable::QuicPort, "9001") {
            Ok(port) => port,
            Err(e) => {
                return Err(e);
            },
        };
        let target_peers: usize = match parse::<usize>(environment, Variable::PeerTarget, "100") {
            Ok(count) => count,
            Err(e) => {
                return Err(e);
            },
        };
        let log_json: bool = match parse::<bool>(environment, Variable::LogJson, "false") {
            Ok(json) => json,
            Err(e) => {
                return Err(e);
            },
        };
        if target_peers < 1 || target_peers > 500 {
            return Err(ConfigError::PeerTargetOutOfRange);
        }
        let ingress_socket: String = environment.value_or(
            Variable::IngressSocket,
            "/run/forkt/consensus.sock",
        );
        if ingress_socket.as_str().is_empty() {
            return Err(ConfigError::EmptyIngressSocket);
        }
        proof {
            reveal_strlit("");
            assert(""@ == Seq::<char>::empty());
        }
        let extra_boot_enrs: Vec<String> = split_csv(
            environment.value_or(Variable::BootEnrs, "").as_str(),
        );
        proof {
            let list = value_or(environment@, Variable::BootEnrs, seq![]);
            assert forall|i: int| 0 <= i < csv_entries(list).len() implies is_clean(
                #[trigger] csv_entries(list)[i],
            ) by {
                csv_entries_are_clean(list, i);
            }
        }
        Ok(
            Config {
                beacon_api_url,
                ingress_socket,
                data_dir: environment.value_or(Variable::DataDir, "./data/consensus"),
                listen_address,
                enr_address,
                tcp_port,
                discovery_port,
                quic_port,
                target_peers,
                extra_boot_enrs,
                log_filter: environment.value_or(Variable::Log, "info,lighthouse_network=info"),
                log_json,
            },
        )
    }

    /// Reads the settings from the environment, after the `.env` file was looked at.
    pub fn load(dotenv: DotenvOutcome, environment: &Environment) -> (result: Result<
        Config,
        ConfigError,
    >)
        ensures
            match result {
                Ok(config) => settings_of(dotenv, environment@) == Ok::<Settings, ConfigFault>(
                    config@,
                ) && config@.usable(),
                Err(e) => settings_of(dotenv, environment@) == Err::<Settings, ConfigFault>(e@),
            },
    {
        match dotenv {
            DotenvOutcome::Failed(words) => {
                return Err(ConfigError::Dotenv(words));
            },
            _ => {},
        }
        match required(environment, Variable::BeaconApiUrl) {
            Ok(value) => Config::with_url(environment, BeaconUrl::parse(value.as_str())),
            Err(e) => Err(e),
        }
    }
}

/// Every entry of a comma-separated list holds something, has no white space around it and
/// holds no comma.
pub proof fn csv_entries_are_clean(text: Seq<char>, i: int)
    requires
        0 <= i < csv_entries(text).len(),
    ensures
        is_clean(csv_entries(text)[i]),
{
    let entries = pieces(text, ',').map_values(|piece: Seq<char>| trimmed(piece));
    let kept = |entry: Seq<char>| entry.len() > 0;
    let entry = csv_entries(text)[i];
    entries.lemma_filter_pred(kept, i);
    assert(kept(entry));
    filtered_is_from(entries, kept, i);
    let j = choose|j: int| 0 <= j < entries.len() && entries[j] == entry;
    let piece = pieces(text, ',')[j];
    pieces_hold_no_separator(text, ',');
    trimming_is_idempotent(piece);
    let bounds = trimmed_bounds(piece);
    assert(!piece.contains(','));
    assert forall|k: int| 0 <= k < entry.len() implies entry[k] != ',' by {
        assert(piece[bounds.0 + k] == entry[k]);
    }
}

/// What is left of a list after filtering stood in the list.
proof fn filtered_is_from<A>(list: Seq<A>, kept: spec_fn(A) -> bool, i: int)
    requires
        0 <= i < list.filter(kept).len(),
    ensures
        exists|j: int| 0 <= j < list.len() && list[j] == list.filter(kept)[i],
    decreases list.len(),
{
    reveal(Seq::filter);
    if list.len() > 0 {
        let rest = list.drop_last();
        if i < rest.filter(kept).len() {
            filtered_is_from(rest, kept, i);
            let j = choose|j: int| 0 <= j < rest.len() && rest[j] == rest.filter(kept)[i];
            assert(list[j] == list.filter(kept)[i]);
        } else {
            assert(list[list.len() - 1] == list.filter(kept)[i]);
        }
    }
}

/// The entries of two lists with a comma between them are those of the first and then those
/// of the second.
pub proof fn csv_entries_of_joined(left: Seq<char>, right: Seq<char>)
    ensures
        csv_entries(left.push(',') + right) == csv_entries(left) + csv_entries(right),
{
    let trim = |piece: Seq<char>| trimmed(piece);
    let kept = |entry: Seq<char>| entry.len() > 0;
    pieces_of_joined(left, right, ',');
    let a = pieces(left, ',');
    let b = pieces(right, ',');
    assert((a + b).map_values(trim) == a.map_values(trim) + b.map_values(trim));
    Seq::filter_distributes_over_add(a.map_values(trim), b.map_values(trim), kept);
}

/// A comma-separated list with nothing in it has no entries.
pub proof fn csv_entries_of_nothing()
    ensures
        csv_entries(seq![]) == Seq::<Seq<char>>::empty(),
{
    reveal_with_fuel(Seq::filter, 2);
    let entries = pieces(seq![], ',').map_values(|piece: Seq<char>| trimmed(piece));
    assert(entries.len() == 1 && entries[0].len() == 0);
    assert(entries.drop_last().len() == 0);
}

/// Where nothing but the URL of the Beacon API is set, the sentry listens on every address
/// on TCP and discovery port 9000 and QUIC port 9001, announces no address, wants 100 peers,
/// adds no boot nodes, and keeps its data, its socket and its log at their usual places.
pub proof fn default_settings(
    environment: Seq<(Seq<char>, Seq<char>)>,
    parsed: Result<UrlParts, Seq<char>>,
)
    requires
        forall|variable: Variable|
            variable != Variable::BeaconApiUrl ==> value_of(
                environment,
                #[trigger] variable.name(),
            ) is None,
        parsed is Ok,
        parsed->Ok_0.scheme == "http"@ || parsed->Ok_0.scheme == "https"@,
    ensures
        settings_with_url(environment, parsed) == Ok::<Settings, ConfigFault>(
            Settings {
                beacon_api_url: parsed->Ok_0,
                ingress_socket: "/run/forkt/consensus.sock"@,
                data_dir: "./data/consensus"@,
                listen_address: Ipv4Address { a: 0, b: 0, c: 0, d: 0 },
                enr_address: None,
                tcp_port: 9000,
                discovery_port: 9000,
                quic_port: 9001,
                target_peers: 100,
                extra_boot_enrs: seq![],
                log_filter: "info,lighthouse_network=info"@,
                log_json: false,
            },
        ),
{
    reveal_strlit("/run/forkt/consensus.sock");
    reveal_strlit("true");
    reveal_strlit("false");
    reveal_strlit("0.0.0.0");
    reveal_strlit("9000");
    reveal_strlit("9001");
    reveal_strlit("100");
    assert("true"@.len() == 4 && "false"@.len() == 5);
    csv_entries_of_nothing();
    assert("9000"@ == seq!['9', '0', '0', '0']);
    assert("9001"@ == seq!['9', '0', '0', '1']);
    assert("100"@ == seq!['1', '0', '0']);
    assert(decimal_value(seq!['9', '0', '0', '0']) == 9000) by {
        reveal_with_fuel(decimal_value, 5);
    }
    assert(decimal_value(seq!['9', '0', '0', '1']) == 9001) by {
        reveal_with_fuel(decimal_value, 5);
    }
    assert(decimal_value(seq!['1', '0', '0']) == 100) by {
        reveal_with_fuel(decimal_value, 4);
    }
    row_of_digits_is_parsed(seq!['9', '0', '0', '0'], u16::MAX as nat);
    row_of_digits_is_parsed(seq!['9', '0', '0', '1'], u16::MAX as nat);
    row_of_digits_is_parsed(seq!['1', '0', '0'], usize::MAX as nat);
    assert(parsed_ipv4("0.0.0.0"@) == Some(Ipv4Address { a: 0, b: 0, c: 0, d: 0 })) by {
        let zero = seq!['0'];
        let one = zero.push('.') + zero;
        let two = one.push('.') + zero;
        let three = two.push('.') + zero;
        assert("0.0.0.0"@ == three);
        assert(pieces(zero, '.') == seq![zero]) by {
            reveal_with_fuel(pieces, 2);
            assert(zero.drop_last() == Seq::<char>::empty());
        }
        pieces_of_joined(zero, zero, '.');
        pieces_of_joined(one, zero, '.');
        pieces_of_joined(two, zero, '.');
        assert(pieces(three, '.') == seq![zero, zero, zero, zero]);
        assert(decimal_value(zero) == 0) by {
            reveal_with_fuel(decimal_value, 2);
        }
    }
}

/// Nothing in the environment but the variables of the sentry has a say in the settings.
pub proof fn only_named_variables_count(
    dotenv: DotenvOutcome,
    left: Seq<(Seq<char>, Seq<char>)>,
    right: Seq<(Seq<char>, Seq<char>)>,
)
    requires
        forall|variable: Variable|
            value_of(left, #[trigger] variable.name()) == value_of(right, variable.name()),
    ensures
        settings_of(dotenv, left) == settings_of(dotenv, right),
{
    assert(value_of(left, Variable::BeaconApiUrl.name()) == value_of(
        right,
        Variable::BeaconApiUrl.name(),
    ));
    assert(value_of(left, Variable::EnrAddress.name()) == value_of(
        right,
        Variable::EnrAddress.name(),
    ));
    assert forall|variable: Variable, default: Seq<char>| #[trigger]
        value_or(left, variable, default) == value_or(right, variable, default) by {
        assert(value_of(left, variable.name()) == value_of(right, variable.name()));
    }
}

/// The comma-separated list of the given entries.
pub open spec fn csv_text(entries: Seq<Seq<char>>) -> Seq<char>
    decreases entries.len(),
{
    if entries.len() == 0 {
        seq![]
    } else if entries.len() == 1 {
        entries[0]
    } else {
        csv_text(entries.drop_last()).push(',') + entries.last()
    }
}

/// A clean entry alone is a list of one.
proof fn csv_entries_of_one(entry: Seq<char>)
    requires
        is_clean(entry),
    ensures
        csv_entries(entry) == seq![entry],
{
    pieces_without_separator(entry, ',');
    let entries = pieces(entry, ',').map_values(|piece: Seq<char>| trimmed(piece));
    assert(entries == seq![entry]);
    reveal_with_fuel(Seq::filter, 2);
    assert(entries.drop_last().len() == 0);
}

/// A list of clean entries is split back into the entries.
pub proof fn split_undoes_csv_text(entries: Seq<Seq<char>>)
    requires
        forall|i: int| 0 <= i < entries.len() ==> is_clean(#[trigger] entries[i]),
    ensures
        csv_entries(csv_text(entries)) == entries,
    decreases entries.len(),
{
    if entries.len() == 0 {
        csv_entries_of_nothing();
    } else {
        assert(is_clean(entries[entries.len() - 1]));
        csv_entries_of_one(entries.last());
        if entries.len() == 1 {
            assert(entries == seq![entries[0]]);
        } else {
            split_undoes_csv_text(entries.drop_last());
            csv_entries_of_joined(csv_text(entries.drop_last()), entries.last());
            assert(entries == entries.drop_last() + seq![entries.last()]);
        }
    }
}

/// Whether the first variable of that name in the environment has that value; `None` is that
/// there is none of that name.
pub open spec fn sets(environment: Environment, name: Seq<char>, value: Option<Seq<char>>) -> bool {
    let variables = environment.variables@;
    match value {
        Some(text) => exists|i: int|
            0 <= i < variables.len() && (#[trigger] variables[i]).0@ == name && variables[i].1@
                == text && forall|j: int| 0 <= j < i ==> (#[trigger] variables[j]).0@ != name,
        None => forall|i: int| 0 <= i < variables.len() ==> (#[trigger] variables[i]).0@ != name,
    }
}

/// The given text, or else `default`.
pub open spec fn given_or(value: Option<Seq<char>>, default: Seq<char>) -> Seq<char> {
    match value {
        Some(text) => text,
        None => default,
    }
}

/// Looking a variable up from the `k`-th on finds the first of that name from there on.
proof fn looked_up_from(environment: Seq<(Seq<char>, Seq<char>)>, name: Seq<char>, k: int)
    requires
        0 <= k <= environment.len(),
    ensures
        match value_of(environment.skip(k), name) {
            Some(text) => exists|i: int|
                k <= i < environment.len() && (#[trigger] environment[i]).0 == name
                    && environment[i].1 == text && forall|j: int|
                    k <= j < i ==> (#[trigger] environment[j]).0 != name,
            None => forall|i: int|
                k <= i < environment.len() ==> (#[trigger] environment[i]).0 != name,
        },
    decreases environment.len() - k,
{
    let rest = environment.skip(k);
    if k < environment.len() {
        assert(rest[0] == environment[k]);
        if rest[0].0 == name {
            assert(environment[k].0 == name);
        } else {
            assert(rest.drop_first() == environment.skip(k + 1));
            looked_up_from(environment, name, k + 1);
            match value_of(environment.skip(k + 1), name) {
                Some(text) => {
                    let i = choose|i: int|
                        k + 1 <= i < environment.len() && (#[trigger] environment[i]).0 == name
                            && environment[i].1 == text && forall|j: int|
                            k + 1 <= j < i ==> (#[trigger] environment[j]).0 != name;
                    assert(k <= i < environment.len() && environment[i].0 == name
                        && environment[i].1 == text && forall|j: int|
                        k <= j < i ==> (#[trigger] environment[j]).0 != name);
                },
                None => {},
            }
        }
    }
}

/// What is looked up is what is set.
proof fn looked_up(environment: Environment, name: Seq<char>, value: Option<Seq<char>>)
    ensures
        sets(environment, name, value) <==> value_of(environment@, name) == value,
{
    let all = environment@;
    let variables = environment.variables@;
    assert(all.skip(0) == all);
    looked_up_from(all, name, 0);
    assert forall|i: int| 0 <= i < variables.len() implies (#[trigger] all[i]) == (
        variables[i].0@,
        variables[i].1@,
    ) by {}
    assert forall|i: int| 0 <= i < variables.len() implies (#[trigger] variables[i]).0@
        == all[i].0 && variables[i].1@ == all[i].1 by {}
    let found = value_of(all, name);
    match found {
        Some(text) => {
            let i = choose|i: int|
                0 <= i < all.len() && (#[trigger] all[i]).0 == name && all[i].1 == text
                    && forall|j: int| 0 <= j < i ==> (#[trigger] all[j]).0 != name;
            assert forall|j: int| 0 <= j < i implies (#[trigger] variables[j]).0@ != name by {
                assert(all[j].0 != name);
            }
            assert(variables[i].0@ == name && variables[i].1@ == text);
            match value {
                Some(other) => {
                    if sets(environment, name, value) {
                        let k = choose|k: int|
                            0 <= k < variables.len() && (#[trigger] variables[k]).0@ == name
                                && variables[k].1@ == other && forall|j: int|
                                0 <= j < k ==> (#[trigger] variables[j]).0@ != name;
                        assert(k == i);
                    }
                },
                None => {},
            }
        },
        None => {
            assert forall|i: int| 0 <= i < variables.len() implies (#[trigger] variables[i]).0@
                != name by {
                assert(all[i].0 != name);
            }
        },
    }
}

/// The value of a variable is that of the first variable of its name.
pub proof fn the_first_of_a_name_counts(
    environment: Environment,
    variable: Variable,
    key: &'static str,
    result: Option<String>,
)
    requires
        call_ensures(Variable::key, (variable,), key),
        call_ensures(Environment::value, (&environment, variable), result),
    ensures
        sets(environment, key@, option_text(result)),
{
    looked_up(environment, key@, option_text(result));
}

/// Each variable has its own name.
pub proof fn names_of_variables(variable: Variable, key: &'static str)
    requires
        call_ensures(Variable::key, (variable,), key),
    ensures
        key@ == match variable {
            Variable::BeaconApiUrl => "FORKT_BEACON_API_URL"@,
            Variable::IngressSocket => "FORKT_INGRESS_SOCKET"@,
            Variable::DataDir => "FORKT_CONSENSUS_DATA_DIR"@,
            Variable::ListenAddress => "FORKT_CONSENSUS_LISTEN_ADDRESS"@,
            Variable::EnrAddress => "FORKT_CONSENSUS_ENR_ADDRESS"@,
            Variable::TcpPort => "FORKT_CONSENSUS_TCP_PORT"@,
            Variable::DiscoveryPort => "FORKT_CONSENSUS_DISCOVERY_PORT"@,
            Variable::QuicPort => "FORKT_CONSENSUS_QUIC_PORT"@,
            Variable::PeerTarget => "FORKT_CONSENSUS_PEER_TARGET"@,
            Variable::BootEnrs => "FORKT_CONSENSUS_BOOT_ENRS"@,
            Variable::Log => "FORKT_LOG"@,
            Variable::LogJson => "FORKT_LOG_JSON"@,
        },
{
}

/// Whether the settings were read from the environment.
pub open spec fn is_read_from(config: Config, environment: Environment) -> bool {
    ||| exists|dotenv: DotenvOutcome| #[trigger]
        call_ensures(Config::load, (dotenv, &environment), Ok::<Config, ConfigError>(config))
    ||| exists|parsed: Result<BeaconUrl, String>| #[trigger]
        call_ensures(Config::with_url, (&environment, parsed), Ok::<Config, ConfigError>(config))
}

/// The settings that were read are those that the environment gives with the URL in them.
proof fn read_with_url(config: Config, environment: Environment)
    requires
        is_read_from(config, environment),
    ensures
        settings_with_url(environment@, Ok(config@.beacon_api_url)) == Ok::<Settings, ConfigFault>(
            config@,
        ),
{
    if exists|dotenv: DotenvOutcome| #[trigger]
        call_ensures(Config::load, (dotenv, &environment), Ok::<Config, ConfigError>(config)) {
        let dotenv = choose|dotenv: DotenvOutcome| #[trigger]
            call_ensures(Config::load, (dotenv, &environment), Ok::<Config, ConfigError>(config));
        assert(settings_of(dotenv, environment@) == Ok::<Settings, ConfigFault>(config@));
    } else {
        let parsed = choose|parsed: Result<BeaconUrl, String>| #[trigger]
            call_ensures(Config::with_url, (&environment, parsed), Ok::<Config, ConfigError>(config));
        assert(config@.usable());
    }
}

/// What the defaults that are numbers stand for.
proof fn default_numbers()
    ensures
        parsed_unsigned("9000"@, 65535) == Ok::<nat, IntegerError>(9000),
        parsed_unsigned("9001"@, 65535) == Ok::<nat, IntegerError>(9001),
        parsed_unsigned("100"@, usize::MAX as nat) == Ok::<nat, IntegerError>(100),
{
    reveal_strlit("9000");
    reveal_strlit("9001");
    reveal_strlit("100");
    assert("9000"@ == seq!['9', '0', '0', '0']);
    assert("9001"@ == seq!['9', '0', '0', '1']);
    assert("100"@ == seq!['1', '0', '0']);
    assert(decimal_value(seq!['9', '0', '0', '0']) == 9000) by {
        reveal_with_fuel(decimal_value, 5);
    }
    assert(decimal_value(seq!['9', '0', '0', '1']) == 9001) by {
        reveal_with_fuel(decimal_value, 5);
    }
    assert(decimal_value(seq!['1', '0', '0']) == 100) by {
        reveal_with_fuel(decimal_value, 4);
    }
    row_of_digits_is_parsed(seq!['9', '0', '0', '0'], 65535);
    row_of_digits_is_parsed(seq!['9', '0', '0', '1'], 65535);
    row_of_digits_is_parsed(seq!['1', '0', '0'], usize::MAX as nat);
}

/// The TCP port is the number that `FORKT_CONSENSUS_TCP_PORT` is set to, and 9000 where that is not set,
/// whatever else is set.
pub proof fn the_tcp_port_has_its_own_variable(
    config: Config,
    environment: Environment,
    value: Option<Seq<char>>,
)
    requires
        is_read_from(config, environment),
        sets(environment, "FORKT_CONSENSUS_TCP_PORT"@, value),
    ensures
        value matches Some(text) ==> parsed_unsigned(text, 65535) == Ok::<nat, IntegerError>(
            config.tcp_port as nat,
        ),
        value is None ==> config.tcp_port == 9000,
        forall|n: nat|
            value == Some(#[trigger] decimal_text(n)) ==> n <= 65535 && config.tcp_port == n,
{
    read_with_url(config, environment);
    looked_up(environment, "FORKT_CONSENSUS_TCP_PORT"@, value);
    default_numbers();
    match value {
        Some(text) => {
            parsed_unsigned_is_bounded(text, 65535);
            assert forall|n: nat| value == Some(#[trigger] decimal_text(n)) implies n <= 65535
                && config.tcp_port == n by {
                if n <= 65535 {
                    parse_undoes_decimal_text(n, 65535);
                } else {
                    decimal_text_beyond_is_refused(n, 65535);
                }
            }
        },
        None => {},
    }
}

/// The discovery port is the number that `FORKT_CONSENSUS_DISCOVERY_PORT` is set to, and 9000 where that is not set,
/// whatever else is set.
pub proof fn the_discovery_port_has_its_own_variable(
    config: Config,
    environment: Environment,
    value: Option<Seq<char>>,
)
    requires
        is_read_from(config, environment),
        sets(environment, "FORKT_CONSENSUS_DISCOVERY_PORT"@, value),
    ensures
        value matches Some(text) ==> parsed_unsigned(text, 65535) == Ok::<nat, IntegerError>(
            config.discovery_port as nat,
        ),
        value is None ==> config.discovery_port == 9000,
        forall|n: nat|
            value == Some(#[trigger] decimal_text(n)) ==> n <= 65535 && config.discovery_port == n,
{
    read_with_url(config, environment);
    looked_up(environment, "FORKT_CONSENSUS_DISCOVERY_PORT"@, value);
    default_numbers();
    match value {
        Some(text) => {
            parsed_unsigned_is_bounded(text, 65535);
            assert forall|n: nat| value == Some(#[trigger] decimal_text(n)) implies n <= 65535
                && config.discovery_port == n by {
                if n <= 65535 {
                    parse_undoes_decimal_text(n, 65535);
                } else {
                    decimal_text_beyond_is_refused(n, 65535);
                }
            }
        },
        None => {},
    }
}

/// The QUIC port is the number that `FORKT_CONSENSUS_QUIC_PORT` is set to, and 9001 where that is not set,
/// whatever else is set.
pub proof fn the_quic_port_has_its_own_variable(
    config: Config,
    environment: Environment,
    value: Option<Seq<char>>,
)
    requires
        is_read_from(config, environment),
        sets(environment, "FORKT_CONSENSUS_QUIC_PORT"@, value),
    ensures
        value matches Some(text) ==> parsed_unsigned(text, 65535) == Ok::<nat, IntegerError>(
            config.quic_port as nat,
        ),
        value is None ==> config.quic_port == 9001,
        forall|n: nat|
            value == Some(#[trigger] decimal_text(n)) ==> n <= 65535 && config.quic_port == n,
{
    read_with_url(config, environment);
    looked_up(environment, "FORKT_CONSENSUS_QUIC_PORT"@, value);
    default_numbers();
    match value {
        Some(text) => {
            parsed_unsigned_is_bounded(text, 65535);
            assert forall|n: nat| value == Some(#[trigger] decimal_text(n)) implies n <= 65535
                && config.quic_port == n by {
                if n <= 65535 {
                    parse_undoes_decimal_text(n, 65535);
                } else {
                    decimal_text_beyond_is_refused(n, 65535);
                }
            }
        },
        None => {},
    }
}

/// The number of wanted peers is the number that `FORKT_CONSENSUS_PEER_TARGET` is set to, and
/// 100 where that is not set, whatever else is set; it lies between 1 and 500.
pub proof fn the_peer_target_has_its_own_variable(
    config: Config,
    environment: Environment,
    value: Option<Seq<char>>,
)
    requires
        is_read_from(config, environment),
        sets(environment, "FORKT_CONSENSUS_PEER_TARGET"@, value),
    ensures
        1 <= config.target_peers <= 500,
        value matches Some(text) ==> parsed_unsigned(text, usize::MAX as nat) == Ok::<
            nat,
            IntegerError,
        >(config.target_peers as nat),
        value is None ==> config.target_peers == 100,
        forall|n: nat| value == Some(#[trigger] decimal_text(n)) ==> config.target_peers == n,
{
    read_with_url(config, environment);
    looked_up(environment, "FORKT_CONSENSUS_PEER_TARGET"@, value);
    default_numbers();
    match value {
        Some(text) => {
            parsed_unsigned_is_bounded(text, usize::MAX as nat);
            assert forall|n: nat| value == Some(#[trigger] decimal_text(n)) implies
                config.target_peers == n by {
                if n <= usize::MAX {
                    parse_undoes_decimal_text(n, usize::MAX as nat);
                } else {
                    decimal_text_beyond_is_refused(n, usize::MAX as nat);
                }
            }
        },
        None => {},
    }
}

/// The address to listen on is the one that `FORKT_CONSENSUS_LISTEN_ADDRESS` is set to, and
/// every address where that is not set, whatever else is set.
pub proof fn the_listen_address_has_its_own_variable(
    config: Config,
    environment: Environment,
    value: Option<Seq<char>>,
)
    requires
        is_read_from(config, environment),
        sets(environment, "FORKT_CONSENSUS_LISTEN_ADDRESS"@, value),
    ensures
        value matches Some(text) ==> text == dotted(config.listen_address),
        value is None ==> config.listen_address == (Ipv4Address { a: 0, b: 0, c: 0, d: 0 }),
{
    read_with_url(config, environment);
    looked_up(environment, "FORKT_CONSENSUS_LISTEN_ADDRESS"@, value);
    default_address();
    only_dotted_texts_are_read(
        value_or(environment@, Variable::ListenAddress, "0.0.0.0"@),
        config.listen_address,
    );
}

/// The default address is every address.
proof fn default_address()
    ensures
        parsed_ipv4("0.0.0.0"@) == Some(Ipv4Address { a: 0, b: 0, c: 0, d: 0 }),
{
    let every = Ipv4Address { a: 0, b: 0, c: 0, d: 0 };
    let zero = seq!['0'];
    reveal_strlit("0.0.0.0");
    assert(decimal_text(0) == zero);
    reveal_with_fuel(joined, 5);
    let parts = seq![zero, zero, zero, zero];
    assert(parts.drop_last() == seq![zero, zero, zero]);
    assert(parts.drop_last().drop_last() == seq![zero, zero]);
    assert(parts.drop_last().drop_last().drop_last() == seq![zero]);
    assert("0.0.0.0"@ == dotted(every));
    only_dotted_texts_are_read("0.0.0.0"@, every);
}

/// The address that is announced is the one that `FORKT_CONSENSUS_ENR_ADDRESS` is set to; none
/// is announced where that is not set or holds nothing but white space, whatever else is set.
pub proof fn the_announced_address_has_its_own_variable(
    config: Config,
    environment: Environment,
    value: Option<Seq<char>>,
)
    requires
        is_read_from(config, environment),
        sets(environment, "FORKT_CONSENSUS_ENR_ADDRESS"@, value),
    ensures
        value is None ==> config.enr_address is None,
        value matches Some(text) ==> match config.enr_address {
            Some(address) => text == dotted(address),
            None => forall|i: int| 0 <= i < text.len() ==> is_space(#[trigger] text[i]),
        },
{
    read_with_url(config, environment);
    looked_up(environment, "FORKT_CONSENSUS_ENR_ADDRESS"@, value);
    match value {
        Some(text) => {
            blank_is_all_space(text);
            if config.enr_address is Some {
                only_dotted_texts_are_read(text, config.enr_address->0);
            }
        },
        None => {},
    }
}

/// The extra boot records are the entries of the list that `FORKT_CONSENSUS_BOOT_ENRS` is set
/// to; there are none where that is not set, whatever else is set.
pub proof fn the_boot_records_have_their_own_variable(
    config: Config,
    environment: Environment,
    value: Option<Seq<char>>,
)
    requires
        is_read_from(config, environment),
        sets(environment, "FORKT_CONSENSUS_BOOT_ENRS"@, value),
    ensures
        value is None ==> config.extra_boot_enrs@.len() == 0,
        value matches Some(text) ==> config.extra_boot_enrs@.len() == csv_entries(text).len()
            && forall|i: int|
            0 <= i < config.extra_boot_enrs@.len() ==> (#[trigger] config.extra_boot_enrs@[i])@
                == csv_entries(text)[i],
{
    read_with_url(config, environment);
    looked_up(environment, "FORKT_CONSENSUS_BOOT_ENRS"@, value);
    csv_entries_of_nothing();
    let entries = texts(config.extra_boot_enrs@);
    assert(entries == config@.extra_boot_enrs);
    assert forall|i: int| 0 <= i < config.extra_boot_enrs@.len() implies (
    #[trigger] config.extra_boot_enrs@[i])@ == entries[i] by {}
}

/// The log is JSON where `FORKT_LOG_JSON` is set to `true`, and is not where that is set to
/// `false` or not at all, whatever else is set.
pub proof fn the_form_of_the_log_has_its_own_variable(
    config: Config,
    environment: Environment,
    value: Option<Seq<char>>,
)
    requires
        is_read_from(config, environment),
        sets(environment, "FORKT_LOG_JSON"@, value),
    ensures
        value matches Some(text) ==> text == if config.log_json {
            "true"@
        } else {
            "false"@
        },
        value is None ==> !config.log_json,
{
    read_with_url(config, environment);
    looked_up(environment, "FORKT_LOG_JSON"@, value);
    reveal_strlit("true");
    reveal_strlit("false");
    assert("true"@.len() == 4 && "false"@.len() == 5);
}

/// The path of the ingress socket is what `FORKT_INGRESS_SOCKET` is set to, as it stands, and has its usual value where that
/// is not set, whatever else is set.
pub proof fn the_ingress_socket_has_its_own_variable(
    config: Config,
    environment: Environment,
    value: Option<Seq<char>>,
)
    requires
        is_read_from(config, environment),
        sets(environment, "FORKT_INGRESS_SOCKET"@, value),
    ensures
        value matches Some(text) ==> config.ingress_socket@ == text,
        value is None ==> config.ingress_socket@ == "/run/forkt/consensus.sock"@,
{
    read_with_url(config, environment);
    looked_up(environment, "FORKT_INGRESS_SOCKET"@, value);
}

/// The data directory is what `FORKT_CONSENSUS_DATA_DIR` is set to, as it stands, and has its usual value where that
/// is not set, whatever else is set.
pub proof fn the_data_dir_has_its_own_variable(
    config: Config,
    environment: Environment,
    value: Option<Seq<char>>,
)
    requires
        is_read_from(config, environment),
        sets(environment, "FORKT_CONSENSUS_DATA_DIR"@, value),
    ensures
        value matches Some(text) ==> config.data_dir@ == text,
        value is None ==> config.data_dir@ == "./data/consensus"@,
{
    read_with_url(config, environment);
    looked_up(environment, "FORKT_CONSENSUS_DATA_DIR"@, value);
}

/// The filter of the log is what `FORKT_LOG` is set to, as it stands, and has its usual value where that
/// is not set, whatever else is set.
pub proof fn the_log_filter_has_its_own_variable(
    config: Config,
    environment: Environment,
    value: Option<Seq<char>>,
)
    requires
        is_read_from(config, environment),
        sets(environment, "FORKT_LOG"@, value),
    ensures
        value matches Some(text) ==> config.log_filter@ == text,
        value is None ==> config.log_filter@ == "info,lighthouse_network=info"@,
{
    read_with_url(config, environment);
    looked_up(environment, "FORKT_LOG"@, value);
}

/// The URL of the Beacon API is what the text that `FORKT_BEACON_API_URL` is set to is parsed
/// to; the text is not blank, and the URL uses `http` or `https`.
pub proof fn the_url_has_its_own_variable(
    dotenv: DotenvOutcome,
    config: Config,
    environment: Environment,
    value: Option<Seq<char>>,
)
    requires
        call_ensures(Config::load, (dotenv, &environment), Ok::<Config, ConfigError>(config)),
        sets(environment, "FORKT_BEACON_API_URL"@, value),
    ensures
        value matches Some(text) && url_parsed(text) == Ok::<(Seq<char>, Seq<char>), Seq<char>>(
            (config.beacon_api_url.text@, config.beacon_api_url.scheme@),
        ) && !(forall|i: int| 0 <= i < text.len() ==> is_space(#[trigger] text[i])),
        config.beacon_api_url.scheme@ == "http"@ || config.beacon_api_url.scheme@ == "https"@,
{
    looked_up(environment, "FORKT_BEACON_API_URL"@, value);
    blank_is_all_space(value->0);
}

/// A URL that has already been parsed is taken over as it is.
pub proof fn a_parsed_url_is_taken_over(environment: Environment, url: BeaconUrl, config: Config)
    requires
        call_ensures(
            Config::with_url,
            (&environment, Ok::<BeaconUrl, String>(url)),
            Ok::<Config, ConfigError>(config),
        ),
    ensures
        config.beacon_api_url.text@ == url.text@,
        config.beacon_api_url.scheme@ == url.scheme@,
        url.scheme@ == "http"@ || url.scheme@ == "https"@,
{
    assert(config@.beacon_api_url == url@);
}

/// Each setting depends on its own variable alone: where two environments agree on a variable,
/// the setting of that variable is the same in both.
pub proof fn settings_depend_on_their_own_variable(
    configs: (Config, Config),
    environments: (Environment, Environment),
    name: Seq<char>,
    value: Option<Seq<char>>,
)
    requires
        is_read_from(configs.0, environments.0),
        is_read_from(configs.1, environments.1),
        sets(environments.0, name, value),
        sets(environments.1, name, value),
    ensures
        name == "FORKT_INGRESS_SOCKET"@ ==> configs.0.ingress_socket@ == configs.1.ingress_socket@,
        name == "FORKT_CONSENSUS_DATA_DIR"@ ==> configs.0.data_dir@ == configs.1.data_dir@,
        name == "FORKT_CONSENSUS_LISTEN_ADDRESS"@ ==> configs.0.listen_address
            == configs.1.listen_address,
        name == "FORKT_CONSENSUS_ENR_ADDRESS"@ ==> configs.0.enr_address == configs.1.enr_address,
        name == "FORKT_CONSENSUS_TCP_PORT"@ ==> configs.0.tcp_port == configs.1.tcp_port,
        name == "FORKT_CONSENSUS_DISCOVERY_PORT"@ ==> configs.0.discovery_port
            == configs.1.discovery_port,
        name == "FORKT_CONSENSUS_QUIC_PORT"@ ==> configs.0.quic_port == configs.1.quic_port,
        name == "FORKT_CONSENSUS_PEER_TARGET"@ ==> configs.0.target_peers
            == configs.1.target_peers,
        name == "FORKT_CONSENSUS_BOOT_ENRS"@ ==> texts(configs.0.extra_boot_enrs@) == texts(
            configs.1.extra_boot_enrs@,
        ),
        name == "FORKT_LOG"@ ==> configs.0.log_filter@ == configs.1.log_filter@,
        name == "FORKT_LOG_JSON"@ ==> configs.0.log_json == configs.1.log_json,
{
    read_with_url(configs.0, environments.0);
    read_with_url(configs.1, environments.1);
    looked_up(environments.0, name, value);
    looked_up(environments.1, name, value);
}

/// Whether a text is the text of no address.
pub open spec fn is_no_address(text: Seq<char>) -> bool {
    forall|address: Ipv4Address| text != #[trigger] dotted(address)
}

/// A text is read as an address unless it is the text of none.
proof fn no_address_is_read(text: Seq<char>)
    ensures
        parsed_ipv4(text) is None <==> is_no_address(text),
{
    match parsed_ipv4(text) {
        Some(address) => {
            only_dotted_texts_are_read(text, address);
            assert(text == dotted(address));
        },
        None => {
            assert forall|address: Ipv4Address| text != #[trigger] dotted(address) by {
                only_dotted_texts_are_read(text, address);
            }
        },
    }
}

/// The settings are refused for the first fault in this order, and for nothing else: the scheme
/// of the URL, the address to listen on, the announced address, the TCP, discovery and QUIC
/// ports, the number of peers, the form of the log, the range of the number of peers, and the
/// ingress socket. Where there is no fault they are given.
pub proof fn the_first_fault_counts(
    environment: Environment,
    url: BeaconUrl,
    listen: Option<Seq<char>>,
    announced: Option<Seq<char>>,
    tcp: Option<Seq<char>>,
    discovery: Option<Seq<char>>,
    quic: Option<Seq<char>>,
    peers: Option<Seq<char>>,
    json: Option<Seq<char>>,
    socket: Option<Seq<char>>,
    result: Result<Config, ConfigError>,
)
    requires
        sets(environment, "FORKT_CONSENSUS_LISTEN_ADDRESS"@, listen),
        sets(environment, "FORKT_CONSENSUS_ENR_ADDRESS"@, announced),
        sets(environment, "FORKT_CONSENSUS_TCP_PORT"@, tcp),
        sets(environment, "FORKT_CONSENSUS_DISCOVERY_PORT"@, discovery),
        sets(environment, "FORKT_CONSENSUS_QUIC_PORT"@, quic),
        sets(environment, "FORKT_CONSENSUS_PEER_TARGET"@, peers),
        sets(environment, "FORKT_LOG_JSON"@, json),
        sets(environment, "FORKT_INGRESS_SOCKET"@, socket),
        call_ensures(Config::with_url, (&environment, Ok::<BeaconUrl, String>(url)), result),
    ensures
        ({
            let tcp_port = parsed_unsigned(given_or(tcp, "9000"@), 65535);
            let discovery_port = parsed_unsigned(given_or(discovery, "9000"@), 65535);
            let quic_port = parsed_unsigned(given_or(quic, "9001"@), 65535);
            let count = parsed_unsigned(given_or(peers, "100"@), usize::MAX as nat);
            let form = given_or(json, "false"@);
            if url.scheme@ != "http"@ && url.scheme@ != "https"@ {
                result == Err::<Config, ConfigError>(ConfigError::UnsupportedScheme)
            } else if is_no_address(given_or(listen, "0.0.0.0"@)) {
                result == Err::<Config, ConfigError>(
                    ConfigError::Invalid(Variable::ListenAddress, ValueError::Address),
                )
            } else if announced matches Some(text) && is_no_address(text) && !(forall|i: int|
                0 <= i < text.len() ==> is_space(#[trigger] text[i])) {
                result == Err::<Config, ConfigError>(
                    ConfigError::InvalidEnrAddress(ValueError::Address),
                )
            } else if tcp_port is Err {
                result == Err::<Config, ConfigError>(
                    ConfigError::Invalid(Variable::TcpPort, ValueError::Integer(tcp_port->Err_0)),
                )
            } else if discovery_port is Err {
                result == Err::<Config, ConfigError>(
                    ConfigError::Invalid(
                        Variable::DiscoveryPort,
                        ValueError::Integer(discovery_port->Err_0),
                    ),
                )
            } else if quic_port is Err {
                result == Err::<Config, ConfigError>(
                    ConfigError::Invalid(Variable::QuicPort, ValueError::Integer(quic_port->Err_0)),
                )
            } else if count is Err {
                result == Err::<Config, ConfigError>(
                    ConfigError::Invalid(Variable::PeerTarget, ValueError::Integer(count->Err_0)),
                )
            } else if form != "true"@ && form != "false"@ {
                result == Err::<Config, ConfigError>(
                    ConfigError::Invalid(Variable::LogJson, ValueError::Boolean),
                )
            } else if count->Ok_0 < 1 || 500 < count->Ok_0 {
                result == Err::<Config, ConfigError>(ConfigError::PeerTargetOutOfRange)
            } else if socket matches Some(path) && path.len() == 0 {
                result == Err::<Config, ConfigError>(ConfigError::EmptyIngressSocket)
            } else {
                result is Ok
            }
        }),
{
    looked_up(environment, "FORKT_CONSENSUS_LISTEN_ADDRESS"@, listen);
    looked_up(environment, "FORKT_CONSENSUS_ENR_ADDRESS"@, announced);
    looked_up(environment, "FORKT_CONSENSUS_TCP_PORT"@, tcp);
    looked_up(environment, "FORKT_CONSENSUS_DISCOVERY_PORT"@, discovery);
    looked_up(environment, "FORKT_CONSENSUS_QUIC_PORT"@, quic);
    looked_up(environment, "FORKT_CONSENSUS_PEER_TARGET"@, peers);
    looked_up(environment, "FORKT_LOG_JSON"@, json);
    looked_up(environment, "FORKT_INGRESS_SOCKET"@, socket);
    no_address_is_read(given_or(listen, "0.0.0.0"@));
    match announced {
        Some(text) => {
            no_address_is_read(text);
            blank_is_all_space(text);
        },
        None => {},
    }
    parsed_unsigned_is_bounded(given_or(peers, "100"@), usize::MAX as nat);
    reveal_strlit("/run/forkt/consensus.sock");
}

/// A URL that could not be parsed is refused with the words of the parser, whatever is set.
pub proof fn a_url_that_is_none_is_refused(
    environment: Environment,
    words: String,
    result: Result<Config, ConfigError>,
)
    requires
        call_ensures(Config::with_url, (&environment, Err::<BeaconUrl, String>(words)), result),
    ensures
        result matches Err(ConfigError::InvalidUrl(said)) && said@ == words@,
{
}

/// Before anything else, a `.env` file that could not be loaded is a fault, and then a URL that
/// is not set, or is blank, or is none.
pub proof fn faults_before_the_settings(
    dotenv: DotenvOutcome,
    environment: Environment,
    value: Option<Seq<char>>,
    result: Result<Config, ConfigError>,
)
    requires
        sets(environment, "FORKT_BEACON_API_URL"@, value),
        call_ensures(Config::load, (dotenv, &environment), result),
    ensures
        match dotenv {
            DotenvOutcome::Failed(words) => result matches Err(ConfigError::Dotenv(said)) && said@
                == words@,
            _ => match value {
                None => result == Err::<Config, ConfigError>(
                    ConfigError::Required(Variable::BeaconApiUrl),
                ),
                Some(text) => if forall|i: int|
                    0 <= i < text.len() ==> is_space(#[trigger] text[i]) {
                    result == Err::<Config, ConfigError>(
                        ConfigError::Required(Variable::BeaconApiUrl),
                    )
                } else {
                    url_parsed(text) matches Err(words) ==> (result matches Err(
                        ConfigError::InvalidUrl(said),
                    ) && said@ == words)
                },
            },
        },
{
    looked_up(environment, "FORKT_BEACON_API_URL"@, value);
    match value {
        Some(text) => {
            blank_is_all_space(text);
        },
        None => {},
    }
}

/// Loading the settings comes to the same as giving the URL that the variable is parsed to.
pub proof fn loading_is_reading_with_the_parsed_url(
    dotenv: DotenvOutcome,
    environment: Environment,
    text: Seq<char>,
    url: BeaconUrl,
    results: (Result<Config, ConfigError>, Result<Config, ConfigError>),
)
    requires
        !(dotenv is Failed),
        sets(environment, "FORKT_BEACON_API_URL"@, Some(text)),
        !(forall|i: int| 0 <= i < text.len() ==> is_space(#[trigger] text[i])),
        url_parsed(text) == Ok::<(Seq<char>, Seq<char>), Seq<char>>((url.text@, url.scheme@)),
        call_ensures(Config::load, (dotenv, &environment), results.0),
        call_ensures(Config::with_url, (&environment, Ok::<BeaconUrl, String>(url)), results.1),
    ensures
        results.0 is Ok <==> results.1 is Ok,
        results.0 is Ok ==> results.0->Ok_0@ == results.1->Ok_0@,
        results.0 is Err ==> results.0->Err_0@ == results.1->Err_0@,
{
    looked_up(environment, "FORKT_BEACON_API_URL"@, Some(text));
    blank_is_all_space(text);
}

/// A required variable is handed out as it stands where it is set to something that is not
/// blank, and is missing otherwise.
pub proof fn required_values_are_not_blank(
    environment: Environment,
    variable: Variable,
    key: &'static str,
    value: Option<Seq<char>>,
    result: Result<String, ConfigError>,
)
    requires
        call_ensures(Variable::key, (variable,), key),
        sets(environment, key@, value),
        call_ensures(required, (&environment, variable), result),
    ensures
        match result {
            Ok(text) => value == Some(text@) && !(forall|i: int|
                0 <= i < text@.len() ==> is_space(#[trigger] text@[i])),
            Err(e) => e == ConfigError::Required(variable) && (value matches Some(text) ==> (
            forall|i: int| 0 <= i < text.len() ==> is_space(#[trigger] text[i]))),
        },
{
    looked_up(environment, key@, value);
    match value {
        Some(text) => {
            blank_is_all_space(text);
        },
        None => {},
    }
}

/// What is read of a variable is what is read of its text, or of the default where it is not
/// set; and a fault names the variable.
pub proof fn values_are_read_from_their_text<T: FromText>(
    environment: Environment,
    variable: Variable,
    key: &'static str,
    value: Option<Seq<char>>,
    default: &str,
    text: &str,
    read: Result<T, ValueError>,
    result: Result<T, ConfigError>,
)
    requires
        call_ensures(Variable::key, (variable,), key),
        sets(environment, key@, value),
        text@ == given_or(value, default@),
        call_ensures(T::from_text, (text,), read),
        call_ensures(parse::<T>, (&environment, variable, default), result),
    ensures
        read matches Ok(found) ==> result == Ok::<T, ConfigError>(found),
        read matches Err(e) ==> result == Err::<T, ConfigError>(ConfigError::Invalid(variable, e)),
{
    looked_up(environment, key@, value);
}

/// Ports are read from 0 to 65535 and no further.
pub proof fn ports_are_read(text: &str, n: nat, result: Result<u16, ValueError>)
    requires
        text@ == decimal_text(n),
        call_ensures(<u16 as FromText>::from_text, (text,), result),
    ensures
        n <= 65535 ==> (result matches Ok(port) && port == n),
        n > 65535 ==> result == Err::<u16, ValueError>(
            ValueError::Integer(IntegerError::Overflow),
        ),
{
    if n <= 65535 {
        parse_undoes_decimal_text(n, 65535);
    } else {
        decimal_text_beyond_is_refused(n, 65535);
    }
}

/// Counts are read as far as a machine word goes and no further.
pub proof fn counts_are_read(text: &str, n: nat, result: Result<usize, ValueError>)
    requires
        text@ == decimal_text(n),
        call_ensures(<usize as FromText>::from_text, (text,), result),
    ensures
        n <= usize::MAX ==> (result matches Ok(count) && count == n),
        n > usize::MAX ==> result == Err::<usize, ValueError>(
            ValueError::Integer(IntegerError::Overflow),
        ),
{
    if n <= usize::MAX {
        parse_undoes_decimal_text(n, usize::MAX as nat);
    } else {
        decimal_text_beyond_is_refused(n, usize::MAX as nat);
    }
}

/// Only `true` and `false` are read as such.
pub proof fn truth_is_read(text: &str, result: Result<bool, ValueError>)
    requires
        call_ensures(<bool as FromText>::from_text, (text,), result),
    ensures
        result == Ok::<bool, ValueError>(true) <==> text@ == seq!['t', 'r', 'u', 'e'],
        result == Ok::<bool, ValueError>(false) <==> text@ == seq!['f', 'a', 'l', 's', 'e'],
        result matches Err(e) ==> e == ValueError::Boolean,
{
    reveal_strlit("true");
    reveal_strlit("false");
    assert("true"@ == seq!['t', 'r', 'u', 'e']);
    assert("false"@ == seq!['f', 'a', 'l', 's', 'e']);
    assert(seq!['t', 'r', 'u', 'e'].len() != seq!['f', 'a', 'l', 's', 'e'].len());
}

/// Addresses are read from their text and from nothing else.
pub proof fn addresses_are_read(text: &str, result: Result<Ipv4Address, ValueError>)
    requires
        call_ensures(<Ipv4Address as FromText>::from_text, (text,), result),
    ensures
        match result {
            Ok(address) => text@ == dotted(address),
            Err(e) => e == ValueError::Address && is_no_address(text@),
        },
{
    no_address_is_read(text@);
    if result is Ok {
        only_dotted_texts_are_read(text@, result->Ok_0);
    }
}

/// A text without a comma is a list of what is left of it without the white space around it,
/// where that is anything.
pub proof fn csv_entries_of_one_piece(text: Seq<char>)
    requires
        !text.contains(','),
    ensures
        csv_entries(text) == if trimmed(text).len() > 0 {
            seq![trimmed(text)]
        } else {
            Seq::<Seq<char>>::empty()
        },
{
    pieces_without_separator(text, ',');
    let entries = pieces(text, ',').map_values(|piece: Seq<char>| trimmed(piece));
    assert(entries == seq![trimmed(text)]);
    reveal_with_fuel(Seq::filter, 2);
    assert(entries.drop_last().len() == 0);
}

/// Splitting two lists with a comma between them gives what splitting each of them gives, in
/// order; and splitting a text without a comma gives that text without the white space around
/// it, where that leaves anything.
pub proof fn lists_are_split_at_commas(
    texts_given: (&str, &str, &str),
    results: (Vec<String>, Vec<String>, Vec<String>),
)
    requires
        texts_given.2@ == texts_given.0@.push(',') + texts_given.1@,
        call_ensures(split_csv, (texts_given.0,), results.0),
        call_ensures(split_csv, (texts_given.1,), results.1),
        call_ensures(split_csv, (texts_given.2,), results.2),
    ensures
        texts(results.2@) == texts(results.0@) + texts(results.1@),
        !texts_given.0@.contains(',') && trimmed(texts_given.0@).len() > 0 ==> texts(results.0@)
            == seq![trimmed(texts_given.0@)],
        !texts_given.0@.contains(',') && trimmed(texts_given.0@).len() == 0 ==> results.0@.len()
            == 0,
{
    csv_entries_of_joined(texts_given.0@, texts_given.1@);
    if !texts_given.0@.contains(',') {
        csv_entries_of_one_piece(texts_given.0@);
        assert(texts(results.0@).len() == results.0@.len());
    }
}

/// A fault in a variable is told with the name of the variable, and with what is wrong with its
/// text where there is more to say.
pub proof fn faults_name_their_variable(
    variable: Variable,
    error: ValueError,
    key: &'static str,
    words: String,
    messages: (String, String),
    cause: Option<String>,
)
    requires
        call_ensures(Variable::key, (variable,), key),
        call_ensures(ValueError::message, (&error,), words),
        call_ensures(ConfigError::message, (&ConfigError::Required(variable),), messages.0),
        call_ensures(ConfigError::message, (&ConfigError::Invalid(variable, error),), messages.1),
        call_ensures(ConfigError::cause, (&ConfigError::InvalidEnrAddress(error),), cause),
    ensures
        messages.0@ == key@ + " is required"@,
        messages.1@ == key@ + " is invalid: "@ + words@,
        cause matches Some(said) && said@ == words@,
{
}

/// What lies behind a fault is told in the words that came with it, and of other faults there is
/// nothing more to tell.
pub proof fn causes_are_told_as_they_came(error: ConfigError, cause: Option<String>)
    requires
        call_ensures(ConfigError::cause, (&error,), cause),
    ensures
        error matches ConfigError::Dotenv(words) ==> (cause matches Some(said) && said@ == words@),
        error matches ConfigError::InvalidUrl(words) ==> (cause matches Some(said) && said@
            == words@),
        cause is None <==> !(error is Dotenv) && !(error is InvalidUrl) && !(error
            is InvalidEnrAddress),
{
}

} // verus!

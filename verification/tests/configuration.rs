use forkt_lighthouse::config::{
    enr_address, parse, required, split_csv, Config, ConfigError, DotenvOutcome, Environment,
    ValueError, Variable,
};
use forkt_lighthouse::decimal::IntegerError;
use forkt_lighthouse::endpoint::BeaconUrl;
use forkt_lighthouse::ipv4::Ipv4Address;

fn environment(variables: &[(&str, &str)]) -> Environment {
    Environment {
        variables: variables.iter().map(|(k, v)| (k.to_string(), v.to_string())).collect(),
    }
}

fn with_url(variables: &[(&str, &str)]) -> Environment {
    let mut all = vec![("FORKT_BEACON_API_URL", "http://localhost:5052")];
    all.extend_from_slice(variables);
    environment(&all)
}

fn load(variables: &[(&str, &str)]) -> Result<Config, ConfigError> {
    Config::load(DotenvOutcome::NotFound, &with_url(variables))
}

fn refusal(variables: &[(&str, &str)]) -> ConfigError {
    match load(variables) {
        Ok(config) => panic!("{:?}", config),
        Err(error) => error,
    }
}

#[test]
fn defaults() {
    let config = Config::load(DotenvOutcome::Loaded, &with_url(&[])).unwrap();
    assert_eq!(config.beacon_api_url.text, "http://localhost:5052/");
    assert_eq!(config.beacon_api_url.scheme, "http");
    assert_eq!(config.ingress_socket, "/run/forkt/consensus.sock");
    assert_eq!(config.data_dir, "./data/consensus");
    assert_eq!(config.listen_address, Ipv4Address { a: 0, b: 0, c: 0, d: 0 });
    assert_eq!(config.enr_address, None);
    assert_eq!(config.tcp_port, 9000);
    assert_eq!(config.discovery_port, 9000);
    assert_eq!(config.quic_port, 9001);
    assert_eq!(config.target_peers, 100);
    assert!(config.extra_boot_enrs.is_empty());
    assert_eq!(config.log_filter, "info,lighthouse_network=info");
    assert!(!config.log_json);
}

#[test]
fn everything_set() {
    let config = load(&[
        ("FORKT_INGRESS_SOCKET", "/tmp/s"),
        ("FORKT_CONSENSUS_DATA_DIR", "/var/lib/forkt"),
        ("FORKT_CONSENSUS_LISTEN_ADDRESS", "10.0.0.1"),
        ("FORKT_CONSENSUS_ENR_ADDRESS", "203.0.113.7"),
        ("FORKT_CONSENSUS_TCP_PORT", "1"),
        ("FORKT_CONSENSUS_DISCOVERY_PORT", "2"),
        ("FORKT_CONSENSUS_QUIC_PORT", "65535"),
        ("FORKT_CONSENSUS_PEER_TARGET", "500"),
        ("FORKT_CONSENSUS_BOOT_ENRS", " enr:-a , ,enr:-b,"),
        ("FORKT_LOG", "debug"),
        ("FORKT_LOG_JSON", "true"),
    ])
    .unwrap();
    assert_eq!(config.ingress_socket, "/tmp/s");
    assert_eq!(config.data_dir, "/var/lib/forkt");
    assert_eq!(config.listen_address, Ipv4Address { a: 10, b: 0, c: 0, d: 1 });
    assert_eq!(config.enr_address, Some(Ipv4Address { a: 203, b: 0, c: 113, d: 7 }));
    assert_eq!((config.tcp_port, config.discovery_port, config.quic_port), (1, 2, 65535));
    assert_eq!(config.target_peers, 500);
    assert_eq!(config.extra_boot_enrs, vec!["enr:-a", "enr:-b"]);
    assert_eq!(config.log_filter, "debug");
    assert!(config.log_json);
}

#[test]
fn a_broken_dotenv_file() {
    let error =
        Config::load(DotenvOutcome::Failed("line 3".to_owned()), &environment(&[])).unwrap_err();
    assert_eq!(error, ConfigError::Dotenv("line 3".to_owned()));
    assert_eq!(error.message(), "failed to load .env");
    assert_eq!(error.cause(), Some("line 3".to_owned()));
}

#[test]
fn the_url_is_required() {
    for variables in [vec![], vec![("FORKT_BEACON_API_URL", "")], vec![("FORKT_BEACON_API_URL", " \t")]] {
        let error = Config::load(DotenvOutcome::NotFound, &environment(&variables)).unwrap_err();
        assert_eq!(error, ConfigError::Required(Variable::BeaconApiUrl));
        assert_eq!(error.message(), "FORKT_BEACON_API_URL is required");
        assert_eq!(error.cause(), None);
    }
}

#[test]
fn the_url_has_to_be_one() {
    let error = Config::load(
        DotenvOutcome::NotFound,
        &environment(&[("FORKT_BEACON_API_URL", "localhost")]),
    )
    .unwrap_err();
    assert_eq!(error, ConfigError::InvalidUrl("relative URL without a base".to_owned()));
    assert_eq!(error.message(), "FORKT_BEACON_API_URL is not a valid URL");
    assert_eq!(error.cause(), Some("relative URL without a base".to_owned()));
}

#[test]
fn the_url_has_to_use_http() {
    for url in ["ftp://localhost/", "file:///tmp", "localhost:5052"] {
        let error =
            Config::load(DotenvOutcome::NotFound, &environment(&[("FORKT_BEACON_API_URL", url)]))
                .unwrap_err();
        assert_eq!(error, ConfigError::UnsupportedScheme);
        assert_eq!(error.message(), "FORKT_BEACON_API_URL must use http or https");
    }
}

#[test]
fn urls_are_normalised() {
    let url = BeaconUrl::parse(" HTTPS://Example.COM:443/a/../b ").unwrap();
    assert_eq!(url.text, "https://example.com/b");
    assert_eq!(url.scheme, "https");
    assert_eq!(BeaconUrl::parse("http://").unwrap_err(), "empty host");
    assert_eq!(BeaconUrl::parse("http://a:b/").unwrap_err(), "invalid port number");
}

#[test]
fn paths_are_joined_to_urls() {
    let url = BeaconUrl::parse("http://localhost:5052").unwrap();
    assert_eq!(url.join("eth/v1/x").unwrap(), "http://localhost:5052/eth/v1/x");
    let url = BeaconUrl::parse("http://localhost:5052/api/v").unwrap();
    assert_eq!(url.join("eth/v1/x").unwrap(), "http://localhost:5052/api/eth/v1/x");
    let url = BeaconUrl::parse("mailto:a@example.com").unwrap();
    assert_eq!(url.join("eth").unwrap_err(), "relative URL with a cannot-be-a-base base");
}

#[test]
fn what_came_of_parsing_decides() {
    let url = BeaconUrl { text: "https://x/".to_owned(), scheme: "https".to_owned() };
    let config = Config::with_url(&environment(&[]), Ok(url)).unwrap();
    assert_eq!(config.beacon_api_url.text, "https://x/");
    let url = BeaconUrl { text: "wss://x/".to_owned(), scheme: "wss".to_owned() };
    assert_eq!(
        Config::with_url(&environment(&[]), Ok(url)).unwrap_err(),
        ConfigError::UnsupportedScheme
    );
    assert_eq!(
        Config::with_url(&environment(&[]), Err("bad".to_owned())).unwrap_err(),
        ConfigError::InvalidUrl("bad".to_owned())
    );
}

#[test]
fn values_that_do_not_have_the_wanted_form() {
    let overflow = ValueError::Integer(IntegerError::Overflow);
    let empty = ValueError::Integer(IntegerError::Empty);
    let digit = ValueError::Integer(IntegerError::InvalidDigit);
    let cases = [
        ("FORKT_CONSENSUS_LISTEN_ADDRESS", "", Variable::ListenAddress, ValueError::Address,
            "FORKT_CONSENSUS_LISTEN_ADDRESS is invalid: invalid IPv4 address syntax"),
        ("FORKT_CONSENSUS_TCP_PORT", "65536", Variable::TcpPort, overflow,
            "FORKT_CONSENSUS_TCP_PORT is invalid: number too large to fit in target type"),
        ("FORKT_CONSENSUS_DISCOVERY_PORT", "", Variable::DiscoveryPort, empty,
            "FORKT_CONSENSUS_DISCOVERY_PORT is invalid: cannot parse integer from empty string"),
        ("FORKT_CONSENSUS_QUIC_PORT", "-1", Variable::QuicPort, digit,
            "FORKT_CONSENSUS_QUIC_PORT is invalid: invalid digit found in string"),
        ("FORKT_CONSENSUS_PEER_TARGET", "many", Variable::PeerTarget, digit,
            "FORKT_CONSENSUS_PEER_TARGET is invalid: invalid digit found in string"),
        ("FORKT_LOG_JSON", "yes", Variable::LogJson, ValueError::Boolean,
            "FORKT_LOG_JSON is invalid: provided string was not `true` or `false`"),
    ];
    for (name, value, variable, reason, message) in cases {
        let error = refusal(&[(name, value)]);
        assert_eq!(error, ConfigError::Invalid(variable, reason));
        assert_eq!(error.message(), message);
        assert_eq!(error.cause(), None);
    }
}

#[test]
fn the_announced_address() {
    assert_eq!(enr_address(&environment(&[])), Ok(None));
    assert_eq!(enr_address(&environment(&[("FORKT_CONSENSUS_ENR_ADDRESS", "  ")])), Ok(None));
    assert_eq!(
        enr_address(&environment(&[("FORKT_CONSENSUS_ENR_ADDRESS", "1.2.3.4")])),
        Ok(Some(Ipv4Address { a: 1, b: 2, c: 3, d: 4 }))
    );
    let error = refusal(&[("FORKT_CONSENSUS_ENR_ADDRESS", " 1.2.3.4")]);
    assert_eq!(error, ConfigError::InvalidEnrAddress(ValueError::Address));
    assert_eq!(error.message(), "FORKT_CONSENSUS_ENR_ADDRESS is not a valid IPv4 address");
    assert_eq!(error.cause(), Some("invalid IPv4 address syntax".to_owned()));
}

#[test]
fn the_number_of_peers_is_bounded() {
    for count in ["0", "501", "100000"] {
        let error = refusal(&[("FORKT_CONSENSUS_PEER_TARGET", count)]);
        assert_eq!(error, ConfigError::PeerTargetOutOfRange);
        assert_eq!(error.message(), "FORKT_CONSENSUS_PEER_TARGET must be between 1 and 500");
    }
    assert_eq!(load(&[("FORKT_CONSENSUS_PEER_TARGET", "1")]).unwrap().target_peers, 1);
}

#[test]
fn the_socket_must_not_be_empty() {
    let error = refusal(&[("FORKT_INGRESS_SOCKET", "")]);
    assert_eq!(error, ConfigError::EmptyIngressSocket);
    assert_eq!(error.message(), "FORKT_INGRESS_SOCKET must not be empty");
    assert_eq!(load(&[("FORKT_INGRESS_SOCKET", " ")]).unwrap().ingress_socket, " ");
}

#[test]
fn the_first_fault_is_reported() {
    let all = [
        ("FORKT_INGRESS_SOCKET", ""),
        ("FORKT_CONSENSUS_PEER_TARGET", "0"),
        ("FORKT_LOG_JSON", "x"),
        ("FORKT_CONSENSUS_QUIC_PORT", "x"),
        ("FORKT_CONSENSUS_DISCOVERY_PORT", "x"),
        ("FORKT_CONSENSUS_TCP_PORT", "x"),
        ("FORKT_CONSENSUS_ENR_ADDRESS", "x"),
        ("FORKT_CONSENSUS_LISTEN_ADDRESS", "x"),
    ];
    let messages = [
        "FORKT_INGRESS_SOCKET must not be empty",
        "FORKT_CONSENSUS_PEER_TARGET must be between 1 and 500",
        "FORKT_LOG_JSON is invalid: provided string was not `true` or `false`",
        "FORKT_CONSENSUS_QUIC_PORT is invalid: invalid digit found in string",
        "FORKT_CONSENSUS_DISCOVERY_PORT is invalid: invalid digit found in string",
        "FORKT_CONSENSUS_TCP_PORT is invalid: invalid digit found in string",
        "FORKT_CONSENSUS_ENR_ADDRESS is not a valid IPv4 address",
        "FORKT_CONSENSUS_LISTEN_ADDRESS is invalid: invalid IPv4 address syntax",
    ];
    for n in 1..=all.len() {
        assert_eq!(refusal(&all[..n]).message(), messages[n - 1]);
    }
}

#[test]
fn the_first_variable_of_a_name_counts() {
    let env = environment(&[("FORKT_LOG", "a"), ("FORKT_LOG", "b")]);
    assert_eq!(env.value(Variable::Log), Some("a".to_owned()));
    assert_eq!(env.value(Variable::LogJson), None);
    assert_eq!(env.value_or(Variable::LogJson, "d"), "d");
    assert_eq!(required(&env, Variable::Log), Ok("a".to_owned()));
    assert_eq!(parse::<u16>(&env, Variable::TcpPort, "7"), Ok(7));
}

#[test]
fn other_variables_have_no_say() {
    let with_others = load(&[("PATH", "/bin"), ("FORKT_CONSENSUS_TCP_PORTS", "x"), ("", "")]);
    assert_eq!(format!("{:?}", with_others), format!("{:?}", load(&[])));
}

#[test]
fn a_required_value_is_not_trimmed() {
    let env = environment(&[("FORKT_BEACON_API_URL", " x ")]);
    assert_eq!(required(&env, Variable::BeaconApiUrl), Ok(" x ".to_owned()));
}

#[test]
fn comma_separated_lists() {
    assert_eq!(split_csv(""), Vec::<String>::new());
    assert_eq!(split_csv(" , ,,\t"), Vec::<String>::new());
    assert_eq!(split_csv("a"), vec!["a"]);
    assert_eq!(split_csv("a,b"), vec!["a", "b"]);
    assert_eq!(split_csv(" a b ,\u{3000}c\u{a0},,d,"), vec!["a b", "c", "d"]);
}

#[test]
fn lists_are_split_as_std_splits_them() {
    for text in ["", ",", "a", " a", "a , b", ",,a,,", "\u{85}x\u{2028}, \u{200b} ,y z", "\u{1F600},\u{e9} "] {
        let expected: Vec<String> = text
            .split(',')
            .map(str::trim)
            .filter(|entry| !entry.is_empty())
            .map(str::to_owned)
            .collect();
        assert_eq!(split_csv(text), expected, "{:?}", text);
    }
}

#[test]
fn joined_lists_have_the_entries_of_both() {
    let (left, right) = ("a, b", " c ,,d");
    let joined = format!("{},{}", left, right);
    let mut both = split_csv(left);
    both.extend(split_csv(right));
    assert_eq!(split_csv(&joined), both);
}

#[test]
fn names_of_the_variables() {
    assert_eq!(Variable::BeaconApiUrl.key(), "FORKT_BEACON_API_URL");
    assert_eq!(Variable::BootEnrs.key(), "FORKT_CONSENSUS_BOOT_ENRS");
    let mut names: Vec<&str> = Variable::all().iter().map(|variable| variable.key()).collect();
    names.sort();
    assert_eq!(
        names,
        vec![
            "FORKT_BEACON_API_URL",
            "FORKT_CONSENSUS_BOOT_ENRS",
            "FORKT_CONSENSUS_DATA_DIR",
            "FORKT_CONSENSUS_DISCOVERY_PORT",
            "FORKT_CONSENSUS_ENR_ADDRESS",
            "FORKT_CONSENSUS_LISTEN_ADDRESS",
            "FORKT_CONSENSUS_PEER_TARGET",
            "FORKT_CONSENSUS_QUIC_PORT",
            "FORKT_CONSENSUS_TCP_PORT",
            "FORKT_INGRESS_SOCKET",
            "FORKT_LOG",
            "FORKT_LOG_JSON",
        ]
    );
}

#[test]
fn clean_entries_are_split_back() {
    let rows: [&[&str]; 4] = [&[], &["enr:-a"], &["enr:-a", "enr:-b c"], &["x", "y", "x"]];
    for entries in rows {
        assert_eq!(split_csv(&entries.join(",")), entries);
    }
}

#[test]
fn extra_boot_records_are_clean() {
    let config = load(&[("FORKT_CONSENSUS_BOOT_ENRS", " enr:-a ,, enr:-b\t,")]).unwrap();
    assert_eq!(config.extra_boot_enrs, vec!["enr:-a", "enr:-b"]);
}

use forkt_lighthouse::bootstrap::{
    BootstrapError, Checkpoint, FinalityData, GenesisData, HeaderData, HeaderMessage, SignedHeader,
};
use forkt_lighthouse::clock::{ClockError, Epoch, Slot};
use forkt_lighthouse::decimal::IntegerError;
use forkt_lighthouse::endpoint::BeaconUrl;
use forkt_lighthouse::hash::{Hash256, HashError};
use forkt_lighthouse::startup::{Mainnet, Outcome, Startup, StartupError};

const MAINNET: &str = "0x4b363db94e286120d76eb905340fdd4e54bfe9f06bf33ff6cf5ad27f511bfe95";
const OTHER: &str = "0x0000000000000000000000000000000000000000000000000000000000000001";

fn constants() -> Outcome {
    Outcome::Constants(Mainnet {
        genesis_validators_root: Hash256::parse(MAINNET).unwrap(),
        genesis_time: 1606824023,
        seconds_per_slot: 12,
    })
}

fn genesis(root: &str) -> Outcome {
    Outcome::Genesis(GenesisData { genesis_validators_root: root.to_owned() })
}

fn answers(slot: &str, epoch: &str, finalized_root: &str) -> Outcome {
    Outcome::Answers(
        HeaderData {
            root: OTHER.to_owned(),
            header: SignedHeader { message: HeaderMessage { slot: slot.to_owned() } },
        },
        FinalityData {
            finalized: Checkpoint { epoch: epoch.to_owned(), root: finalized_root.to_owned() },
        },
    )
}

fn good() -> Vec<Outcome> {
    vec![
        constants(),
        Outcome::Clock(Some(1700000000)),
        genesis(MAINNET),
        answers("9999999", "312497", MAINNET),
        Outcome::ForkDigest([1, 2, 3, 4]),
        Outcome::Joined,
        Outcome::Opened,
    ]
}

fn begin() -> Startup {
    Startup::begin(BeaconUrl::parse("http://localhost:5052").unwrap())
}

fn name(startup: &Startup) -> &'static str {
    match startup {
        Startup::LookUpConstants { .. } => "constants",
        Startup::ReadClock { .. } => "clock",
        Startup::AskGenesis { .. } => "genesis",
        Startup::AskStatus { .. } => "answers",
        Startup::ComputeForkDigest { .. } => "fork digest",
        Startup::Join { .. } => "join",
        Startup::OpenSocket { .. } => "open",
        Startup::Serve { .. } => "serve",
        Startup::Stop(_) => "stop",
    }
}

fn after(outcomes: &[Outcome]) -> Startup {
    outcomes.iter().fold(begin(), |startup, outcome| startup.step(outcome.clone()))
}

fn stopped(startup: Startup) -> StartupError {
    match startup {
        Startup::Stop(error) => error,
        other => panic!("{:?}", other),
    }
}

#[test]
fn the_order_of_the_start() {
    let order = [
        "constants", "clock", "genesis", "answers", "fork digest", "join", "open", "serve",
    ];
    let outcomes = good();
    for n in 0..8 {
        assert_eq!(name(&after(&outcomes[..n])), order[n]);
    }
}

#[test]
fn what_is_known_on_joining() {
    match after(&good()[..4]) {
        Startup::ComputeForkDigest { input, slot, .. } => {
            assert_eq!(input.genesis_validators_root, Hash256::parse(MAINNET).unwrap());
            assert_eq!(input.epoch, Epoch(312499));
            assert_eq!(slot, Slot(7764664));
        }
        other => panic!("{:?}", other),
    }
    match after(&good()[..5]) {
        Startup::Join { bootstrap, slot, status } => {
            assert_eq!(bootstrap.base_url.text, "http://localhost:5052/");
            assert_eq!(bootstrap.genesis_validators_root, Hash256::parse(MAINNET).unwrap());
            assert_eq!(slot, Slot(7764664));
            assert_eq!(status.fork_digest(), [1, 2, 3, 4]);
            assert_eq!(status.sync_info().head_slot, Slot(9999999));
        }
        other => panic!("{:?}", other),
    }
}

#[test]
fn nothing_is_joined_on_another_chain() {
    let mut outcomes = good();
    outcomes[2] = genesis(OTHER);
    for n in 3..8 {
        assert_eq!(
            stopped(after(&outcomes[..n])),
            StartupError::Api(BootstrapError::WrongGenesis)
        );
    }
    outcomes[2] = genesis("0x0");
    assert_eq!(
        stopped(after(&outcomes)),
        StartupError::Api(BootstrapError::Hash(HashError::OddLength))
    );
}

#[test]
fn nothing_is_joined_without_a_status() {
    let mut outcomes = good();
    outcomes[3] = answers("x", "1", MAINNET);
    assert_eq!(
        stopped(after(&outcomes[..4])),
        StartupError::Api(BootstrapError::Integer(IntegerError::InvalidDigit))
    );
    outcomes[3] = answers("1", "1", "");
    assert_eq!(name(&after(&outcomes[..4])), "fork digest");
    assert_eq!(
        stopped(after(&outcomes)),
        StartupError::Api(BootstrapError::Hash(HashError::InvalidLength))
    );
}

#[test]
fn nothing_is_asked_with_a_wrong_clock() {
    let mut outcomes = good();
    outcomes[1] = Outcome::Clock(Some(1606824022));
    assert_eq!(stopped(after(&outcomes)), StartupError::Clock(ClockError::BeforeGenesis));
    outcomes[1] = Outcome::Clock(None);
    assert_eq!(stopped(after(&outcomes)), StartupError::Clock(ClockError::BeforeUnixEpoch));
}

#[test]
fn what_cannot_be_done_stops_the_start() {
    for n in 0..7 {
        let mut outcomes = good();
        outcomes[n] = Outcome::NotDone;
        assert_eq!(stopped(after(&outcomes[..=n])), StartupError::NotDone);
        assert_eq!(stopped(after(&outcomes)), StartupError::NotDone);
    }
    let mut outcomes = good();
    outcomes.push(Outcome::NotDone);
    assert_eq!(name(&after(&outcomes)), "serve");
}

#[test]
fn no_step_is_left_out() {
    for n in 0..7 {
        let mut outcomes = good();
        outcomes.remove(n);
        assert_eq!(name(&after(&outcomes)), name(&after(&good()[..n])));
    }
}

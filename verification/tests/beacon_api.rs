use forkt_lighthouse::bootstrap::{
    parse_hash, parse_u64, BeaconBootstrap, BootstrapError, Checkpoint, FinalityData, GenesisData,
    HeaderData, HeaderMessage, Resource, SignedHeader,
};
use forkt_lighthouse::clock::{current_slot, ClockError, Epoch, Slot};
use forkt_lighthouse::decimal::IntegerError;
use forkt_lighthouse::endpoint::BeaconUrl;
use forkt_lighthouse::hash::{Hash256, HashError};
use forkt_lighthouse::status::{
    refresh_status, update_peer_status, StatusMessage, StatusMessageV1, SyncInfo, SyncStatus,
};

const MAINNET: &str = "0x4b363db94e286120d76eb905340fdd4e54bfe9f06bf33ff6cf5ad27f511bfe95";
const OTHER: &str = "0x0000000000000000000000000000000000000000000000000000000000000001";

fn mainnet() -> Hash256 {
    Hash256::parse(MAINNET).unwrap()
}

fn url() -> BeaconUrl {
    BeaconUrl::parse("http://localhost:5052").unwrap()
}

fn genesis(root: &str) -> GenesisData {
    GenesisData { genesis_validators_root: root.to_owned() }
}

fn head(root: &str, slot: &str) -> HeaderData {
    HeaderData {
        root: root.to_owned(),
        header: SignedHeader { message: HeaderMessage { slot: slot.to_owned() } },
    }
}

fn finality(root: &str, epoch: &str) -> FinalityData {
    FinalityData { finalized: Checkpoint { epoch: epoch.to_owned(), root: root.to_owned() } }
}

fn bootstrap() -> BeaconBootstrap {
    BeaconBootstrap::connect(url(), mainnet(), &genesis(MAINNET)).unwrap()
}

#[test]
fn the_expected_chain() {
    let bootstrap = bootstrap();
    assert_eq!(bootstrap.genesis_validators_root, mainnet());
    assert_eq!(bootstrap.base_url.text, "http://localhost:5052/");
    let upper = format!("0x{}", MAINNET[2..].to_uppercase());
    assert!(BeaconBootstrap::connect(url(), mainnet(), &genesis(&upper)).is_ok());
}

#[test]
fn another_chain() {
    let error = BeaconBootstrap::connect(url(), mainnet(), &genesis(OTHER)).unwrap_err();
    assert_eq!(error, BootstrapError::WrongGenesis);
    assert_eq!(error.message(), "beacon API genesis validators root is not Ethereum Mainnet");
}

#[test]
fn an_answer_without_a_hash() {
    let error = BeaconBootstrap::connect(url(), mainnet(), &genesis("0x00")).unwrap_err();
    assert_eq!(error, BootstrapError::Hash(HashError::InvalidLength));
    assert_eq!(error.message(), "invalid hash from beacon API: invalid string length");
}

#[test]
fn urls_of_the_resources() {
    assert_eq!(
        Resource::Genesis.url(&url()).unwrap(),
        "http://localhost:5052/eth/v1/beacon/genesis"
    );
    assert_eq!(
        Resource::Head.url(&url()).unwrap(),
        "http://localhost:5052/eth/v1/beacon/headers/head"
    );
    assert_eq!(
        Resource::Finality.url(&url()).unwrap(),
        "http://localhost:5052/eth/v1/beacon/states/head/finality_checkpoints"
    );
}

#[test]
fn a_status() {
    let message = bootstrap()
        .status(&head(OTHER, "9999999"), &finality(MAINNET, "312497"), [1, 2, 3, 4])
        .unwrap();
    match message {
        StatusMessage::V2(status) => {
            assert_eq!(status.fork_digest, [1, 2, 3, 4]);
            assert_eq!(status.finalized_root, mainnet());
            assert_eq!(status.finalized_epoch, Epoch(312497));
            assert_eq!(status.head_root, Hash256::parse(OTHER).unwrap());
            assert_eq!(status.head_slot, Slot(9999999));
            assert_eq!(status.earliest_available_slot, Slot(10000000));
        }
        StatusMessage::V1(status) => panic!("{:?}", status),
    }
}

#[test]
fn a_status_at_the_last_slot() {
    let last = u64::MAX.to_string();
    let message =
        bootstrap().status(&head(OTHER, &last), &finality(MAINNET, "1"), [0; 4]).unwrap();
    assert_eq!(message.sync_info().earliest_available_slot, Some(Slot(u64::MAX)));
}

#[test]
fn what_the_fork_digest_is_computed_from() {
    for (slot, epoch) in [("0", 0), ("31", 0), ("32", 1), ("9999999", 312499)] {
        let input =
            bootstrap().fork_digest_input(&head("", slot), &finality("", "5")).unwrap();
        assert_eq!(input.genesis_validators_root, mainnet());
        assert_eq!(input.epoch, Epoch(epoch));
    }
}

#[test]
fn the_first_fault_of_the_answers() {
    let empty = BootstrapError::Integer(IntegerError::Empty);
    let digit = BootstrapError::Integer(IntegerError::InvalidDigit);
    let odd = BootstrapError::Hash(HashError::OddLength);
    let length = BootstrapError::Hash(HashError::InvalidLength);
    let api = bootstrap();
    let cases = [
        (head("0x", ""), finality("0x0", "x"), empty, Some(empty)),
        (head("0x", "1"), finality("0x0", "x"), digit, Some(digit)),
        (head("0x", "1"), finality("0x0", "1"), odd, None),
        (head("0x", "1"), finality(OTHER, "1"), length, None),
    ];
    for (head, finality, fault, digest_fault) in cases {
        assert_eq!(api.status(&head, &finality, [0; 4]), Err(fault));
        assert_eq!(api.fork_digest_input(&head, &finality).err(), digest_fault);
    }
}

#[test]
fn integers_and_hashes_in_answers() {
    assert_eq!(parse_u64("18446744073709551615"), Ok(u64::MAX));
    let error = parse_u64("18446744073709551616").unwrap_err();
    assert_eq!(error, BootstrapError::Integer(IntegerError::Overflow));
    assert_eq!(
        error.message(),
        "invalid integer from beacon API: number too large to fit in target type"
    );
    assert_eq!(parse_hash(MAINNET), Ok(mainnet()));
    assert_eq!(
        parse_hash(&MAINNET.replace('9', "'")).unwrap_err().message(),
        "invalid hash from beacon API: invalid character '\\'' at position 7"
    );
}

#[test]
fn slots() {
    assert_eq!(current_slot(Some(1606824023), 1606824023, 12), Ok(Slot(0)));
    assert_eq!(current_slot(Some(1606824034), 1606824023, 12), Ok(Slot(0)));
    assert_eq!(current_slot(Some(1606824035), 1606824023, 12), Ok(Slot(1)));
    assert_eq!(current_slot(Some(1700000000), 1606824023, 12), Ok(Slot(7764664)));
    assert_eq!(Slot(7764664).epoch(), Epoch(242645));
    assert_eq!(Slot(4).next(), Slot(5));
}

#[test]
fn one_slot_length_later() {
    for now in [1606824023u64, 1606824034, 1606824035, 1700000000] {
        let slot = current_slot(Some(now), 1606824023, 12).unwrap();
        assert_eq!(current_slot(Some(now + 12), 1606824023, 12), Ok(Slot(slot.0 + 1)));
    }
}

#[test]
fn clocks_that_are_wrong() {
    assert_eq!(current_slot(Some(1606824022), 1606824023, 12), Err(ClockError::BeforeGenesis));
    assert_eq!(current_slot(None, 1606824023, 12), Err(ClockError::BeforeUnixEpoch));
    assert_eq!(
        ClockError::BeforeGenesis.message(),
        "system clock predates Ethereum Mainnet beacon genesis"
    );
    let later = std::time::UNIX_EPOCH + std::time::Duration::from_secs(1);
    assert_eq!(
        ClockError::BeforeUnixEpoch.message(),
        std::time::UNIX_EPOCH.duration_since(later).unwrap_err().to_string()
    );
}

fn first_version(fork_digest: [u8; 4]) -> StatusMessage {
    StatusMessage::V1(StatusMessageV1 {
        fork_digest,
        finalized_root: mainnet(),
        finalized_epoch: Epoch(3),
        head_root: mainnet(),
        head_slot: Slot(100),
    })
}

#[test]
fn what_is_kept_of_a_peer() {
    let ours =
        bootstrap().status(&head(OTHER, "7"), &finality(MAINNET, "1"), [1, 2, 3, 4]).unwrap();
    assert_eq!(
        update_peer_status(&first_version([1, 2, 3, 4]), &ours),
        Some(SyncStatus::Synced {
            info: SyncInfo {
                head_slot: Slot(100),
                head_root: mainnet(),
                finalized_epoch: Epoch(3),
                finalized_root: mainnet(),
                earliest_available_slot: None,
            }
        })
    );
    assert_eq!(update_peer_status(&first_version([1, 2, 3, 5]), &ours), None);
    assert_eq!(
        update_peer_status(&ours, &first_version([1, 2, 3, 4])),
        Some(SyncStatus::Synced { info: ours.sync_info() })
    );
    assert_eq!(ours.sync_info().earliest_available_slot, Some(Slot(8)));
}

#[test]
fn the_given_digest_is_announced() {
    let api = bootstrap();
    let (head, finality) = (head(OTHER, "9999999"), finality(MAINNET, "1"));
    let status = api.status(&head, &finality, [1, 2, 3, 4]).unwrap();
    assert_eq!(status.fork_digest(), [1, 2, 3, 4]);
    let input = api.fork_digest_input(&head, &finality).unwrap();
    assert_eq!(input.epoch, status.sync_info().head_slot.epoch());
}

#[test]
fn a_failed_refresh_changes_nothing() {
    let (old, new) = (first_version([0; 4]), first_version([9; 4]));
    assert_eq!(refresh_status::<String>(old, Ok(new)), (new, None));
    assert_eq!(
        refresh_status(old, Err("timeout".to_owned())),
        (old, Some("timeout".to_owned()))
    );
    let mut status = old;
    for fetched in [Err("a"), Ok(new), Err("b"), Err("c")] {
        status = refresh_status(status, fetched).0;
    }
    assert_eq!(status, new);
}

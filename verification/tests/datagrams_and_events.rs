use forkt_lighthouse::clock::{Epoch, Slot};
use forkt_lighthouse::config::{Config, Environment};
use forkt_lighthouse::endpoint::BeaconUrl;
use forkt_lighthouse::hash::Hash256;
use forkt_lighthouse::ingress::{
    AggregateAttestation, BeaconBlock, DroppedEvidence, IngressPublisher, IngressTimestamp,
    PayloadHeader, SendOutcome, SendReport, WallClock, INGRESS_SCHEMA_VERSION,
};
use forkt_lighthouse::ipv4::Ipv4Address;
use forkt_lighthouse::network::{
    boot_nodes, client_version, handle_network_event, network_settings, Action, AppRequestId,
    GossipKind, MainnetConstant, MessageAcceptance, NetworkEvent, Notice, PubsubMessage,
    RpcRequest, RpcResponse,
};
use forkt_lighthouse::status::{StatusMessage, StatusMessageV2, SyncStatus};

fn hash(byte: u8) -> Hash256 {
    Hash256 { bytes: [byte; 32] }
}

fn text(digits: &str) -> String {
    format!("0x{}", digits.repeat(32))
}

fn publisher() -> IngressPublisher {
    IngressPublisher::new("/run/forkt/consensus.sock".to_owned())
}

fn observed_at() -> IngressTimestamp {
    publisher().now(WallClock { seconds: 1700000000, nanoseconds: 5 }, 77)
}

fn block(execution_payload: Option<PayloadHeader>) -> BeaconBlock {
    BeaconBlock {
        canonical_root: hash(0x01),
        parent_root: hash(0xab),
        state_root: hash(0xff),
        slot: Slot(12),
        proposer_index: 34,
        execution_payload,
    }
}

fn payload() -> PayloadHeader {
    PayloadHeader { block_hash: hash(0x10), parent_hash: hash(0x2f), block_number: 5, timestamp: 6 }
}

fn status(fork_digest: [u8; 4]) -> StatusMessage {
    StatusMessage::V2(StatusMessageV2 {
        fork_digest,
        finalized_root: hash(1),
        finalized_epoch: Epoch(2),
        head_root: hash(3),
        head_slot: Slot(4),
        earliest_available_slot: Slot(5),
    })
}

fn handle(event: NetworkEvent) -> Vec<Action> {
    handle_network_event(event, &status([1; 4]), &publisher())
}

fn peer() -> String {
    "16Uiu2HAm".to_owned()
}

#[test]
fn timestamps() {
    let clock = WallClock { seconds: -1, nanoseconds: 999_999_999 };
    assert_eq!(publisher().destination, "/run/forkt/consensus.sock");
    assert_eq!(publisher().now(clock, 0).monotonic_ns, 0);
    assert_eq!(publisher().now(clock, 0).wall_clock, clock);
    assert_eq!(publisher().now(clock, u64::MAX as u128).monotonic_ns, u64::MAX);
    assert_eq!(publisher().now(clock, u64::MAX as u128 + 1).monotonic_ns, u64::MAX);
    assert_eq!(publisher().now(clock, u128::MAX).monotonic_ns, u64::MAX);
}

#[test]
fn the_datagram_on_a_block() {
    let event = publisher().publish_block(
        observed_at(),
        "id".to_owned(),
        "topic".to_owned(),
        peer(),
        Some("Lighthouse".to_owned()),
        &block(Some(payload())),
    );
    assert_eq!(event.kind, "beacon_block");
    assert_eq!(event.schema_version, 2);
    assert_eq!(INGRESS_SCHEMA_VERSION, 2);
    assert_eq!(event.wall_clock, WallClock { seconds: 1700000000, nanoseconds: 5 });
    assert_eq!(event.monotonic_ns, 77);
    assert_eq!(event.source_peer_id, peer());
    assert_eq!(event.source_client.as_deref(), Some("Lighthouse"));
    assert_eq!(event.gossip_message_id, "id");
    assert_eq!(event.gossip_topic, "topic");
    assert_eq!(event.beacon_block_root, text("01"));
    assert_eq!(event.beacon_parent_root, text("ab"));
    assert_eq!(event.beacon_state_root, text("ff"));
    assert_eq!(event.slot, 12);
    assert_eq!(event.proposer_index, 34);
    let execution = event.execution.unwrap();
    assert_eq!(execution.block_hash, text("10"));
    assert_eq!(execution.parent_hash, text("2f"));
    assert_eq!(execution.block_number, 5);
    assert_eq!(execution.timestamp, 6);
    assert_eq!(Hash256::parse(&event.beacon_parent_root), Ok(hash(0xab)));
}

#[test]
fn a_block_without_an_execution_payload() {
    let event = publisher().publish_block(
        observed_at(),
        "id".to_owned(),
        "topic".to_owned(),
        peer(),
        None,
        &block(None),
    );
    assert!(event.execution.is_none());
    assert_eq!(event.source_client, None);
}

#[test]
fn the_datagram_on_an_aggregate() {
    let event = publisher().publish_aggregate(
        observed_at(),
        "id".to_owned(),
        "topic".to_owned(),
        peer(),
        None,
        &AggregateAttestation {
            slot: Slot(1),
            beacon_block_root: hash(0x0a),
            target_epoch: Epoch(2),
            target_root: hash(0xa0),
            committee_index: Some(3),
            aggregator_index: 4,
            set_aggregation_bits: 5,
        },
    );
    assert_eq!(event.kind, "aggregate_attestation");
    assert_eq!(event.schema_version, 2);
    assert_eq!(event.wall_clock.seconds, 1700000000);
    assert_eq!(event.monotonic_ns, 77);
    assert_eq!(event.source_peer_id, peer());
    assert_eq!(event.source_client, None);
    assert_eq!(event.gossip_message_id, "id");
    assert_eq!(event.gossip_topic, "topic");
    assert_eq!(event.slot, 1);
    assert_eq!(event.beacon_block_root, text("0a"));
    assert_eq!(event.target_epoch, 2);
    assert_eq!(event.target_root, text("a0"));
    assert_eq!(event.committee_index, Some(3));
    assert_eq!(event.aggregator_index, 4);
    assert_eq!(event.attester_count, 5);
}

#[test]
fn the_first_drop_and_every_hundredth_is_reported() {
    let mut dropped = DroppedEvidence::new();
    let mut reported = vec![];
    for _ in 0..350 {
        assert_eq!(dropped.record(SendOutcome::Sent), None);
        if let Some(report) = dropped.record(SendOutcome::WouldBlock) {
            reported.push(report);
        }
    }
    assert_eq!(dropped.count, 350);
    assert_eq!(
        reported,
        vec![
            SendReport::Dropped(1),
            SendReport::Dropped(100),
            SendReport::Dropped(200),
            SendReport::Dropped(300),
        ]
    );
}

#[test]
fn other_failures_are_always_reported() {
    let mut dropped = DroppedEvidence { count: 41 };
    assert_eq!(dropped.record(SendOutcome::NotSerialized), Some(SendReport::NotSerialized));
    assert_eq!(dropped.record(SendOutcome::Failed), Some(SendReport::NotDelivered));
    assert_eq!(dropped.count, 41);
}

#[test]
fn the_count_of_drops_wraps_around() {
    let mut dropped = DroppedEvidence { count: u64::MAX };
    assert_eq!(dropped.record(SendOutcome::WouldBlock), Some(SendReport::Dropped(0)));
}

#[test]
fn a_block_is_ignored_and_published() {
    let actions = handle(NetworkEvent::PubsubMessage {
        observed_at: observed_at(),
        id: "id".to_owned(),
        source: peer(),
        topic: "topic".to_owned(),
        message: PubsubMessage::BeaconBlock { block: block(Some(payload())), client: "c".to_owned() },
    });
    assert_eq!(actions.len(), 2);
    match &actions[0] {
        Action::ReportValidation { source, message_id, acceptance } => {
            assert_eq!(source, &peer());
            assert_eq!(message_id, "id");
            assert_eq!(*acceptance, MessageAcceptance::Ignore);
        }
        other => panic!("{:?}", other),
    }
    match &actions[1] {
        Action::Publish(event) => {
            assert_eq!(event.beacon_block_root, text("01"));
            assert_eq!(event.source_peer_id, peer());
            assert_eq!(event.source_client.as_deref(), Some("c"));
            assert_eq!(event.gossip_message_id, "id");
            assert_eq!(event.gossip_topic, "topic");
            assert_eq!(event.monotonic_ns, 77);
        }
        other => panic!("{:?}", other),
    }
}

#[test]
fn another_message_is_only_ignored() {
    let actions = handle(NetworkEvent::PubsubMessage {
        observed_at: observed_at(),
        id: "id".to_owned(),
        source: peer(),
        topic: "topic".to_owned(),
        message: PubsubMessage::Other,
    });
    assert_eq!(actions.len(), 1);
    assert!(matches!(
        &actions[0],
        Action::ReportValidation { acceptance: MessageAcceptance::Ignore, .. }
    ));
}

#[test]
fn status_is_requested() {
    let actions = handle(NetworkEvent::StatusPeer { peer_id: peer() });
    assert_eq!(actions.len(), 1);
    match &actions[0] {
        Action::RequestStatus { peer_id, request_id, status: sent } => {
            assert_eq!(peer_id, &peer());
            assert_eq!(*request_id, AppRequestId::Router);
            assert_eq!(*sent, status([1; 4]));
        }
        other => panic!("{:?}", other),
    }
}

#[test]
fn a_status_request_is_answered_on_every_fork() {
    for (digest, same_fork) in [([1; 4], true), ([2; 4], false)] {
        let actions = handle(NetworkEvent::RequestReceived {
            peer_id: peer(),
            request_id: 17,
            request: RpcRequest::Status(status(digest)),
        });
        assert_eq!(actions.len(), 2);
        match &actions[0] {
            Action::UpdateSyncStatus { peer_id, sync_status } => {
                assert!(same_fork);
                assert_eq!(peer_id, &peer());
                assert_eq!(*sync_status, SyncStatus::Synced { info: status(digest).sync_info() });
            }
            Action::Report(Notice::ForkMismatch { peer_id }) => {
                assert!(!same_fork);
                assert_eq!(peer_id, &peer());
            }
            other => panic!("{:?}", other),
        }
        match &actions[1] {
            Action::RespondStatus { peer_id, request_id, status: sent } => {
                assert_eq!(peer_id, &peer());
                assert_eq!(*request_id, 17);
                assert_eq!(*sent, status([1; 4]));
            }
            other => panic!("{:?}", other),
        }
    }
}

#[test]
fn a_status_response_is_taken_note_of() {
    let response = |digest| NetworkEvent::ResponseReceived {
        peer_id: peer(),
        response: RpcResponse::Status(status(digest)),
    };
    let actions = handle(response([1; 4]));
    assert_eq!(actions.len(), 1);
    assert!(matches!(
        &actions[0],
        Action::UpdateSyncStatus { sync_status: SyncStatus::Synced { .. }, .. }
    ));
    let actions = handle(response([1, 1, 1, 0]));
    assert_eq!(actions.len(), 1);
    assert!(matches!(&actions[0], Action::Report(Notice::ForkMismatch { .. })));
}

#[test]
fn events_that_are_only_reported() {
    let p = peer;
    let report = |event| {
        let mut actions = handle(event);
        assert_eq!(actions.len(), 1);
        match actions.pop() {
            Some(Action::Report(notice)) => format!("{:?}", notice),
            other => panic!("{:?}", other),
        }
    };
    let of_peer = |name: &str| format!("{} {{ peer_id: \"16Uiu2HAm\" }}", name);
    assert_eq!(report(NetworkEvent::PeerConnectedIncoming { peer_id: p() }), of_peer("PeerConnected"));
    assert_eq!(report(NetworkEvent::PeerConnectedOutgoing { peer_id: p() }), of_peer("PeerConnected"));
    assert_eq!(report(NetworkEvent::PeerDisconnected { peer_id: p() }), of_peer("PeerDisconnected"));
    assert_eq!(
        report(NetworkEvent::RequestReceived {
            peer_id: p(),
            request_id: 18,
            request: RpcRequest::Other("Ping".to_owned()),
        }),
        "UnsupportedRequest { peer_id: \"16Uiu2HAm\", request: \"Ping\" }"
    );
    assert_eq!(
        report(NetworkEvent::RpcFailed { peer_id: p(), error: "e".to_owned() }),
        "RpcFailed { peer_id: \"16Uiu2HAm\", error: \"e\" }"
    );
    assert_eq!(
        report(NetworkEvent::NewListenAddr { address: "a".to_owned() }),
        "ListenerActive { address: \"a\" }"
    );
    assert_eq!(report(NetworkEvent::ZeroListeners), "NoListeners");
}

#[test]
fn events_that_call_for_nothing() {
    assert!(handle(NetworkEvent::PartialDataColumnSidecar).is_empty());
    assert!(handle(NetworkEvent::PeerUpdatedCustodyGroupCount).is_empty());
    let other = NetworkEvent::ResponseReceived { peer_id: peer(), response: RpcResponse::Other };
    assert!(handle(other).is_empty());
}

#[test]
fn joining_the_network() {
    let url = BeaconUrl { text: "http://x/".to_owned(), scheme: "http".to_owned() };
    let variables = vec![
        ("FORKT_CONSENSUS_DATA_DIR".to_owned(), "/d".to_owned()),
        ("FORKT_CONSENSUS_ENR_ADDRESS".to_owned(), "1.2.3.4".to_owned()),
        ("FORKT_CONSENSUS_DISCOVERY_PORT".to_owned(), "9002".to_owned()),
    ];
    let config = Config::with_url(&Environment { variables }, Ok(url)).unwrap();
    let settings = network_settings(&config, "0.1.0");
    assert_eq!(settings.network_dir, "/d");
    assert_eq!(settings.listen_address, Ipv4Address { a: 0, b: 0, c: 0, d: 0 });
    assert_eq!((settings.tcp_port, settings.discovery_port, settings.quic_port), (9000, 9002, 9001));
    assert_eq!(settings.enr_address, Some(Ipv4Address { a: 1, b: 2, c: 3, d: 4 }));
    assert_eq!(settings.target_peers, 100);
    assert_eq!(settings.client_version, "forkt-lighthouse/0.1.0");
    assert!(!settings.upnp_enabled);
    assert_eq!(settings.topics, vec![GossipKind::BeaconBlock]);
    assert_eq!(client_version("1"), "forkt-lighthouse/1");
}

#[test]
fn boot_nodes_in_order() {
    let extra: Vec<Result<u8, String>> = vec![Ok(3), Ok(1)];
    assert_eq!(boot_nodes(Some(vec![9, 8]), extra.clone()), Ok(vec![9, 8, 3, 1]));
    assert_eq!(boot_nodes(None, extra), Ok(vec![3, 1]));
    let extra = vec![Ok(3), Err("a".to_owned()), Err("b".to_owned())];
    assert_eq!(boot_nodes(Some(vec![9u8]), extra), Err("a".to_owned()));
}

#[test]
fn constants_of_mainnet() {
    let found: Result<Option<u8>, String> = Ok(Some(1));
    assert_eq!(MainnetConstant::GenesisTime.require(found), Ok(1));
    let failed: Result<Option<u8>, String> = Err("broken".to_owned());
    assert_eq!(MainnetConstant::GenesisTime.require(failed), Err("broken".to_owned()));
    for (constant, words) in [
        (MainnetConstant::Definition, "Lighthouse was built without Ethereum Mainnet constants"),
        (MainnetConstant::GenesisValidatorsRoot, "Mainnet genesis validators root is unavailable"),
        (MainnetConstant::GenesisTime, "Mainnet genesis time is unavailable"),
    ] {
        let missing: Result<Option<u8>, String> = Ok(None);
        assert_eq!(constant.require(missing), Err(words.to_owned()));
    }
}

//! The consensus network: how to join it, and what to do on each of its events.

use crate::config::{
    is_read_from, sets, the_announced_address_has_its_own_variable,
    the_data_dir_has_its_own_variable, the_discovery_port_has_its_own_variable,
    the_listen_address_has_its_own_variable, the_peer_target_has_its_own_variable,
    the_quic_port_has_its_own_variable, the_tcp_port_has_its_own_variable, Config, Environment,
    Settings,
};
use crate::decimal::decimal_text;
use crate::hash::hash_text;
use crate::ingress::{BeaconBlock, ConsensusIngress, IngressPublisher, IngressTimestamp};
use crate::ipv4::{dotted, Ipv4Address};
use crate::status::{
    peer_sync_status, update_peer_status, StatusMessage, StatusMessageV2, SyncStatus,
};
use crate::text::is_space;
use vstd::prelude::*;

verus! {

/// What is gossiped on a topic.
#[derive(Clone, Copy, Debug, PartialEq, Eq, Structural)]
pub enum GossipKind {
    BeaconBlock,
}

/// How to join the network.
#[derive(Clone, Debug)]
pub struct NetworkSettings {
    pub network_dir: String,
    pub listen_address: Ipv4Address,
    pub tcp_port: u16,
    pub discovery_port: u16,
    pub quic_port: u16,
    pub enr_address: Option<Ipv4Address>,
    pub target_peers: usize,
    pub client_version: String,
    pub upnp_enabled: bool,
    pub topics: Vec<GossipKind>,
}

impl NetworkSettings {
    /// Whether this is how the given settings say to join: with their directory, addresses,
    /// ports and number of peers, without UPnP, for beacon blocks only.
    pub open spec fn follows(self, settings: Settings, version: Seq<char>) -> bool {
        &&& self.network_dir@ == settings.data_dir
        &&& self.listen_address == settings.listen_address
        &&& self.tcp_port == settings.tcp_port
        &&& self.discovery_port == settings.discovery_port
        &&& self.quic_port == settings.quic_port
        &&& self.enr_address == settings.enr_address
        &&& self.target_peers == settings.target_peers
        &&& self.client_version@ == client_name(version)
        &&& !self.upnp_enabled
        &&& self.topics@ == seq![GossipKind::BeaconBlock]
    }
}

/// What the sentry calls itself.
pub open spec fn client_name(version: Seq<char>) -> Seq<char> {
    "forkt-lighthouse/"@ + version
}

/// What the sentry calls itself, to peers and to the Beacon API.
pub fn client_version(version: &str) -> (result: String)
    ensures
        result@ == client_name(version@),
{
    "forkt-lighthouse/".to_owned().concat(version)
}

/// How to join the network with the given settings.
pub fn network_settings(config: &Config, version: &str) -> (result: NetworkSettings)
    ensures
        result.follows(config@, version@),
{
    let mut topics: Vec<GossipKind> = Vec::new();
    topics.push(GossipKind::BeaconBlock);
    NetworkSettings {
        network_dir: config.data_dir.clone(),
        listen_address: config.listen_address,
        tcp_port: config.tcp_port,
        discovery_port: config.discovery_port,
        quic_port: config.quic_port,
        enr_address: config.enr_address,
        target_peers: config.target_peers,
        client_version: client_version(version),
        upnp_enabled: false,
        topics,
    }
}

/// A constant of Mainnet that the sentry cannot run without.
#[derive(Clone, Copy, Debug, PartialEq, Eq, Structural)]
pub enum MainnetConstant {
    Definition,
    GenesisValidatorsRoot,
    GenesisTime,
}

impl MainnetConstant {
    /// What to say where the constant is missing.
    pub open spec fn missing_words(self) -> Seq<char> {
        match self {
            MainnetConstant::Definition =>
                "Lighthouse was built without Ethereum Mainnet constants"@,
            MainnetConstant::GenesisValidatorsRoot =>
                "Mainnet genesis validators root is unavailable"@,
            MainnetConstant::GenesisTime => "Mainnet genesis time is unavailable"@,
        }
    }

    /// What to say where the constant is missing.
    pub fn missing_message(self) -> (result: String)
        ensures
            result@ == self.missing_words(),
    {
        match self {
            MainnetConstant::Definition =>
                "Lighthouse was built without Ethereum Mainnet constants".to_owned(),
            MainnetConstant::GenesisValidatorsRoot =>
                "Mainnet genesis validators root is unavailable".to_owned(),
            MainnetConstant::GenesisTime => "Mainnet genesis time is unavailable".to_owned(),
        }
    }

    /// The value of the constant, given what came of looking it up, or what to say: the words
    /// of the failure, or that the constant is missing.
    pub fn require<T>(self, found: Result<Option<T>, String>) -> (result: Result<T, String>)
        ensures
            match found {
                Ok(Some(value)) => result == Ok::<T, String>(value),
                Ok(None) => result matches Err(words) && words@ == self.missing_words(),
                Err(words) => result == Err::<T, String>(words),
            },
    {
        match found {
            Ok(Some(value)) => Ok(value),
            Ok(None) => Err(self.missing_message()),
            Err(words) => Err(words),
        }
    }
}

/// The boot nodes that come with the network.
pub open spec fn built_in_nodes<T>(built_in: Option<Vec<T>>) -> Seq<T> {
    match built_in {
        Some(nodes) => nodes@,
        None => seq![],
    }
}

/// The boot nodes to start from: those that come with the network and then the extra ones, or
/// the first error in reading the extra ones.
pub fn boot_nodes<T, E>(built_in: Option<Vec<T>>, extra: Vec<Result<T, E>>) -> (result: Result<
    Vec<T>,
    E,
>)
    ensures
        match result {
            Ok(nodes) => {
                &&& forall|i: int| 0 <= i < extra@.len() ==> (#[trigger] extra@[i]) is Ok
                &&& nodes@ == built_in_nodes(built_in) + extra@.map_values(
                    |node: Result<T, E>| node->Ok_0,
                )
            },
            Err(error) => exists|i: int|
                0 <= i < extra@.len() && #[trigger] extra@[i] == Err::<T, E>(error) && forall|j: int|
                    0 <= j < i ==> (#[trigger] extra@[j]) is Ok,
        },
{
    let mut nodes: Vec<T> = match built_in {
        Some(nodes) => nodes,
        None => Vec::new(),
    };
    let ghost start = built_in_nodes(built_in);
    let ghost read = extra@.map_values(|node: Result<T, E>| node->Ok_0);
    let ghost all = extra@;
    assert(nodes@ == start + read.take(0));
    for node in it: extra
        invariant
            it.seq() == all,
            read == all.map_values(|node: Result<T, E>| node->Ok_0),
            nodes@ == start + read.take(it.index()),
            forall|i: int| 0 <= i < it.index() ==> (#[trigger] all[i]) is Ok,
    {
        let ghost n = it.index();
        assert(all[n] == node);
        match node {
            Ok(node) => {
                nodes.push(node);
                assert(read.take(n + 1) == read.take(n).push(node));
            },
            Err(error) => {
                return Err(error);
            },
        }
    }
    assert(read.take(read.len() as int) == read);
    Ok(nodes)
}

/// What peers may do with a message: hand it on, punish its sender, or neither.
#[derive(Clone, Copy, Debug, PartialEq, Eq, Structural)]
pub enum MessageAcceptance {
    Accept,
    Reject,
    Ignore,
}

/// A decoded gossip message.
#[derive(Clone, Debug)]
pub enum PubsubMessage {
    /// A beacon block, and the client of the peer that forwarded it.
    BeaconBlock { block: BeaconBlock, client: String },
    /// Anything else.
    Other,
}

/// A request of a peer.
#[derive(Clone, Debug)]
pub enum RpcRequest {
    Status(StatusMessage),
    /// Anything else, in words.
    Other(String),
}

/// A response of a peer.
#[derive(Clone, Debug)]
pub enum RpcResponse {
    Status(StatusMessage),
    Other,
}

/// What happens on the network.
#[derive(Clone, Debug)]
pub enum NetworkEvent {
    /// A gossip message came in.
    PubsubMessage {
        observed_at: IngressTimestamp,
        id: String,
        source: String,
        topic: String,
        message: PubsubMessage,
    },
    /// It is time to exchange status with a peer.
    StatusPeer { peer_id: String },
    /// A peer sent a request; `request_id` tells it from the other requests.
    RequestReceived { peer_id: String, request_id: u64, request: RpcRequest },
    ResponseReceived { peer_id: String, response: RpcResponse },
    PeerConnectedIncoming { peer_id: String },
    PeerConnectedOutgoing { peer_id: String },
    PeerDisconnected { peer_id: String },
    RpcFailed { peer_id: String, error: String },
    NewListenAddr { address: String },
    ZeroListeners,
    PartialDataColumnSidecar,
    PeerUpdatedCustodyGroupCount,
}

/// On whose behalf a request is sent.
#[derive(Clone, Copy, Debug, PartialEq, Eq, Structural)]
pub enum AppRequestId {
    Router,
}

/// What is worth a line in the log.
#[derive(Clone, Debug)]
pub enum Notice {
    /// A peer is on another fork.
    ForkMismatch { peer_id: String },
    PeerConnected { peer_id: String },
    PeerDisconnected { peer_id: String },
    /// A request was not answered.
    UnsupportedRequest { peer_id: String, request: String },
    RpcFailed { peer_id: String, error: String },
    ListenerActive { address: String },
    NoListeners,
}

/// What to do on an event.
#[derive(Clone, Debug)]
pub enum Action {
    /// Say what peers may do with a message.
    ReportValidation { source: String, message_id: String, acceptance: MessageAcceptance },
    /// Send a datagram to the sensor.
    Publish(ConsensusIngress),
    /// Ask a peer for its status, giving ours.
    RequestStatus { peer_id: String, request_id: AppRequestId, status: StatusMessage },
    /// Answer the request of a peer that asked for our status.
    RespondStatus { peer_id: String, request_id: u64, status: StatusMessage },
    /// Record how the chain of a peer stands to ours.
    UpdateSyncStatus { peer_id: String, sync_status: SyncStatus },
    Report(Notice),
}

/// Whether `action` is what a peer's status calls for: to record the peer as synced, with what
/// it says, or to note that it is on another fork.
pub open spec fn takes_note(
    action: Action,
    peer_id: String,
    remote: StatusMessage,
    local: StatusMessage,
) -> bool {
    match peer_sync_status(remote, local) {
        Some(sync_status) => action == (Action::UpdateSyncStatus { peer_id, sync_status }),
        None => action == Action::Report(Notice::ForkMismatch { peer_id }),
    }
}

/// Whether `actions` are what `event` calls for while our own status is `status`.
pub open spec fn handles(actions: Seq<Action>, event: NetworkEvent, status: StatusMessage) -> bool {
    match event {
        NetworkEvent::PubsubMessage { observed_at, id, source, topic, message } => {
            let ignored = Action::ReportValidation {
                source,
                message_id: id,
                acceptance: MessageAcceptance::Ignore,
            };
            match message {
                PubsubMessage::BeaconBlock { block, client } => {
                    &&& actions.len() == 2
                    &&& actions[0] == ignored
                    &&& actions[1] matches Action::Publish(datagram)
                    &&& datagram.describes(block)
                    &&& datagram.was_observed(observed_at, id@, topic@, source@, Some(client@))
                },
                PubsubMessage::Other => actions == seq![ignored],
            }
        },
        NetworkEvent::StatusPeer { peer_id } => actions == seq![
            Action::RequestStatus { peer_id, request_id: AppRequestId::Router, status },
        ],
        NetworkEvent::RequestReceived {
            peer_id,
            request_id,
            request: RpcRequest::Status(remote),
        } => {
            &&& actions.len() == 2
            &&& takes_note(actions[0], peer_id, remote, status)
            &&& actions[1] == (Action::RespondStatus { peer_id, request_id, status })
        },
        NetworkEvent::RequestReceived { peer_id, request: RpcRequest::Other(request), .. } => {
            actions == seq![Action::Report(Notice::UnsupportedRequest { peer_id, request })]
        },
        NetworkEvent::ResponseReceived { peer_id, response: RpcResponse::Status(remote) } => {
            &&& actions.len() == 1
            &&& takes_note(actions[0], peer_id, remote, status)
        },
        NetworkEvent::ResponseReceived { peer_id, response: RpcResponse::Other } => actions.len()
            == 0,
        NetworkEvent::PeerConnectedIncoming { peer_id } => actions == seq![
            Action::Report(Notice::PeerConnected { peer_id }),
        ],
        NetworkEvent::PeerConnectedOutgoing { peer_id } => actions == seq![
            Action::Report(Notice::PeerConnected { peer_id }),
        ],
        NetworkEvent::PeerDisconnected { peer_id } => actions == seq![
            Action::Report(Notice::PeerDisconnected { peer_id }),
        ],
        NetworkEvent::RpcFailed { peer_id, error } => actions == seq![
            Action::Report(Notice::RpcFailed { peer_id, error }),
        ],
        NetworkEvent::NewListenAddr { address } => actions == seq![
            Action::Report(Notice::ListenerActive { address }),
        ],
        NetworkEvent::ZeroListeners => actions == seq![Action::Report(Notice::NoListeners)],
        NetworkEvent::PartialDataColumnSidecar => actions.len() == 0,
        NetworkEvent::PeerUpdatedCustodyGroupCount => actions.len() == 0,
    }
}

/// What a peer's status calls for.
fn note_status(peer_id: String, remote: &StatusMessage, local: &StatusMessage) -> (result: Action)
    ensures
        takes_note(result, peer_id, *remote, *local),
{
    match update_peer_status(remote, local) {
        Some(sync_status) => Action::UpdateSyncStatus { peer_id, sync_status },
        None => Action::Report(Notice::ForkMismatch { peer_id }),
    }
}

/// What to do on an event, in order, while our own status is `status`.
pub fn handle_network_event(
    event: NetworkEvent,
    status: &StatusMessage,
    publisher: &IngressPublisher,
) -> (result: Vec<Action>)
    ensures
        handles(result@, event, *status),
{
    let mut actions: Vec<Action> = Vec::new();
    match event {
        NetworkEvent::PubsubMessage { observed_at, id, source, topic, message } => {
            actions.push(
                Action::ReportValidation {
                    source: source.clone(),
                    message_id: id.clone(),
                    acceptance: MessageAcceptance::Ignore,
                },
            );
            match message {
                PubsubMessage::BeaconBlock { block, client } => {
                    actions.push(
                        Action::Publish(
                            publisher.publish_block(
                                observed_at,
                                id,
                                topic,
                                source,
                                Some(client),
                                &block,
                            ),
                        ),
                    );
                },
                PubsubMessage::Other => {},
            }
        },
        NetworkEvent::StatusPeer { peer_id } => {
            actions.push(
                Action::RequestStatus {
                    peer_id,
                    request_id: AppRequestId::Router,
                    status: *status,
                },
            );
        },
        NetworkEvent::RequestReceived { peer_id, request_id, request } => match request {
            RpcRequest::Status(remote) => {
                actions.push(note_status(peer_id.clone(), &remote, status));
                actions.push(Action::RespondStatus { peer_id, request_id, status: *status });
            },
            RpcRequest::Other(request) => {
                actions.push(Action::Report(Notice::UnsupportedRequest { peer_id, request }));
            },
        },
        NetworkEvent::ResponseReceived { peer_id, response } => match response {
            RpcResponse::Status(remote) => {
                actions.push(note_status(peer_id, &remote, status));
            },
            RpcResponse::Other => {},
        },
        NetworkEvent::PeerConnectedIncoming { peer_id } => {
            actions.push(Action::Report(Notice::PeerConnected { peer_id }));
        },
        NetworkEvent::PeerConnectedOutgoing { peer_id } => {
            actions.push(Action::Report(Notice::PeerConnected { peer_id }));
        },
        NetworkEvent::PeerDisconnected { peer_id } => {
            actions.push(Action::Report(Notice::PeerDisconnected { peer_id }));
        },
        NetworkEvent::RpcFailed { peer_id, error } => {
            actions.push(Action::Report(Notice::RpcFailed { peer_id, error }));
        },
        NetworkEvent::NewListenAddr { address } => {
            actions.push(Action::Report(Notice::ListenerActive { address }));
        },
        NetworkEvent::ZeroListeners => {
            actions.push(Action::Report(Notice::NoListeners));
        },
        NetworkEvent::PartialDataColumnSidecar => {},
        NetworkEvent::PeerUpdatedCustodyGroupCount => {},
    }
    actions
}

/// No message is ever handed on, and no sender punished: whatever is said of a message is
/// that it is to be ignored.
pub proof fn messages_are_not_relayed(
    actions: Seq<Action>,
    event: NetworkEvent,
    status: StatusMessage,
    i: int,
)
    requires
        handles(actions, event, status),
        0 <= i < actions.len(),
        actions[i] is ReportValidation,
    ensures
        actions[i]->acceptance == MessageAcceptance::Ignore,
{
}

/// Every gossip message is reported to the network before anything else is done about it.
pub proof fn every_message_is_reported(
    actions: Seq<Action>,
    event: NetworkEvent,
    status: StatusMessage,
)
    requires
        handles(actions, event, status),
        event is PubsubMessage,
    ensures
        actions.len() >= 1,
        actions[0] == (Action::ReportValidation {
            source: event->source,
            message_id: event->id,
            acceptance: MessageAcceptance::Ignore,
        }),
{
}

/// A datagram goes out for a gossiped beacon block and for nothing else; it names the peer
/// that forwarded the block and the time at which the block was observed.
pub proof fn only_blocks_are_published(
    actions: Seq<Action>,
    event: NetworkEvent,
    status: StatusMessage,
)
    requires
        handles(actions, event, status),
    ensures
        (exists|i: int| 0 <= i < actions.len() && (#[trigger] actions[i]) is Publish) <==> (event
            is PubsubMessage && event->message is BeaconBlock),
        forall|i: int|
            0 <= i < actions.len() && (#[trigger] actions[i]) is Publish ==> {
                let datagram = actions[i]->Publish_0;
                &&& datagram.source_peer_id@ == event->source@
                &&& datagram.wall_clock == event->observed_at.wall_clock
                &&& datagram.monotonic_ns == event->observed_at.monotonic_ns
            },
{
    if event is PubsubMessage && event->message is BeaconBlock {
        assert(actions[1] is Publish);
    }
}

/// A peer that asks for our status is told it, in answer to that request, whatever fork the
/// peer is on.
pub proof fn status_requests_are_answered(
    actions: Seq<Action>,
    peer_id: String,
    request_id: u64,
    remote: StatusMessage,
    status: StatusMessage,
)
    requires
        handles(
            actions,
            NetworkEvent::RequestReceived {
                peer_id,
                request_id,
                request: RpcRequest::Status(remote),
            },
            status,
        ),
    ensures
        actions.contains(Action::RespondStatus { peer_id, request_id, status }),
{
    assert(actions[1] == (Action::RespondStatus { peer_id, request_id, status }));
}

/// Only a request for our status is answered, and the answer is our status, goes to the peer
/// that asked, and is to the request that came in.
pub proof fn only_status_requests_are_answered(
    actions: Seq<Action>,
    event: NetworkEvent,
    status: StatusMessage,
    i: int,
)
    requires
        handles(actions, event, status),
        0 <= i < actions.len(),
        actions[i] is RespondStatus,
    ensures
        event matches NetworkEvent::RequestReceived { peer_id, request_id, request } && request
            is Status && actions[i] == (Action::RespondStatus { peer_id, request_id, status }),
{
}

/// A peer is recorded only as synced, with what it said itself, and it was on our fork when it
/// said it.
pub proof fn peers_on_other_forks_are_not_followed(
    actions: Seq<Action>,
    event: NetworkEvent,
    status: StatusMessage,
    i: int,
)
    requires
        handles(actions, event, status),
        0 <= i < actions.len(),
        actions[i] is UpdateSyncStatus,
    ensures
        exists|peer_id: String, remote: StatusMessage|
            {
                &&& brings_status(event, peer_id, remote)
                &&& remote.digest() == status.digest()
                &&& #[trigger] says(actions[i], peer_id, remote)
            },
{
    match event {
        NetworkEvent::RequestReceived { peer_id, request: RpcRequest::Status(remote), .. } => {
            assert(says(actions[i], peer_id, remote));
        },
        NetworkEvent::ResponseReceived { peer_id, response: RpcResponse::Status(remote) } => {
            assert(says(actions[i], peer_id, remote));
        },
        _ => {},
    }
}

/// Whether the peer says in a request or in a response that its status is `remote`.
pub open spec fn brings_status(event: NetworkEvent, peer_id: String, remote: StatusMessage) -> bool {
    match event {
        NetworkEvent::RequestReceived { peer_id: peer, request, .. } => peer == peer_id && request
            == RpcRequest::Status(remote),
        NetworkEvent::ResponseReceived { peer_id: peer, response } => peer == peer_id && response
            == RpcResponse::Status(remote),
        _ => false,
    }
}

/// Whether `action` records the peer as synced, with what it said.
pub open spec fn says(action: Action, peer_id: String, remote: StatusMessage) -> bool {
    action == (Action::UpdateSyncStatus {
        peer_id,
        sync_status: SyncStatus::Synced { info: remote.info() },
    })
}

/// The sentry joins with the directory, the addresses, the ports and the number of peers of its
/// own settings, under its name and version, without UPnP, for beacon blocks only.
pub proof fn the_network_is_joined_as_configured(
    config: Config,
    version: &str,
    result: NetworkSettings,
)
    requires
        call_ensures(network_settings, (&config, version), result),
    ensures
        result.network_dir@ == config.data_dir@,
        result.listen_address.a == config.listen_address.a,
        result.listen_address.b == config.listen_address.b,
        result.listen_address.c == config.listen_address.c,
        result.listen_address.d == config.listen_address.d,
        result.tcp_port == config.tcp_port,
        result.discovery_port == config.discovery_port,
        result.quic_port == config.quic_port,
        result.enr_address == config.enr_address,
        result.target_peers == config.target_peers,
        result.client_version@ == "forkt-lighthouse/"@ + version@,
        !result.upnp_enabled,
        result.topics@.len() == 1,
        result.topics@[0] == GossipKind::BeaconBlock,
{
}

/// The ports and the number of peers that the network is joined with are the numbers that the
/// environment sets them to, each by its own variable.
pub proof fn the_network_is_joined_on_the_ports_that_are_set(
    environment: Environment,
    config: Config,
    version: &str,
    result: NetworkSettings,
    tcp: nat,
    discovery: nat,
    quic: nat,
    peers: nat,
)
    requires
        is_read_from(config, environment),
        sets(environment, "FORKT_CONSENSUS_TCP_PORT"@, Some(decimal_text(tcp))),
        sets(environment, "FORKT_CONSENSUS_DISCOVERY_PORT"@, Some(decimal_text(discovery))),
        sets(environment, "FORKT_CONSENSUS_QUIC_PORT"@, Some(decimal_text(quic))),
        sets(environment, "FORKT_CONSENSUS_PEER_TARGET"@, Some(decimal_text(peers))),
        call_ensures(network_settings, (&config, version), result),
    ensures
        result.tcp_port == tcp,
        result.discovery_port == discovery,
        result.quic_port == quic,
        result.target_peers == peers,
{
    the_tcp_port_has_its_own_variable(config, environment, Some(decimal_text(tcp)));
    the_discovery_port_has_its_own_variable(config, environment, Some(decimal_text(discovery)));
    the_quic_port_has_its_own_variable(config, environment, Some(decimal_text(quic)));
    the_peer_target_has_its_own_variable(config, environment, Some(decimal_text(peers)));
}

/// The directory and the addresses that the network is joined with are those that the
/// environment sets, each by its own variable.
pub proof fn the_network_is_joined_on_the_addresses_that_are_set(
    environment: Environment,
    config: Config,
    version: &str,
    result: NetworkSettings,
    directory: Seq<char>,
    listen: Seq<char>,
    announced: Seq<char>,
)
    requires
        is_read_from(config, environment),
        sets(environment, "FORKT_CONSENSUS_DATA_DIR"@, Some(directory)),
        sets(environment, "FORKT_CONSENSUS_LISTEN_ADDRESS"@, Some(listen)),
        sets(environment, "FORKT_CONSENSUS_ENR_ADDRESS"@, Some(announced)),
        call_ensures(network_settings, (&config, version), result),
    ensures
        result.network_dir@ == directory,
        dotted(result.listen_address) == listen,
        result.enr_address matches Some(address) ==> dotted(address) == announced,
        result.enr_address is None ==> forall|i: int|
            0 <= i < announced.len() ==> is_space(#[trigger] announced[i]),
{
    the_data_dir_has_its_own_variable(config, environment, Some(directory));
    the_listen_address_has_its_own_variable(config, environment, Some(listen));
    the_announced_address_has_its_own_variable(config, environment, Some(announced));
}

/// The sentry calls itself by its name and then its version.
pub proof fn the_name_comes_before_the_version(version: &str, result: String)
    requires
        call_ensures(client_version, (version,), result),
    ensures
        result@ == "forkt-lighthouse/"@ + version@,
{
}

/// A constant that was found is handed out as it is; one that could not be looked up is told in
/// the words of the failure, and one that is missing in words of its own.
pub proof fn constants_are_handed_out<T>(
    constant: MainnetConstant,
    found: Result<Option<T>, String>,
    missing: String,
    result: Result<T, String>,
)
    requires
        call_ensures(MainnetConstant::missing_message, (constant,), missing),
        call_ensures(MainnetConstant::require::<T>, (constant, found), result),
    ensures
        found matches Ok(Some(value)) ==> result == Ok::<T, String>(value),
        found matches Ok(None) ==> (result matches Err(words) && words@ == missing@),
        found matches Err(failure) ==> (result matches Err(words) && words@ == failure@),
{
}

/// The boot nodes are those that come with the network, in order, and then the extra ones, in
/// order; the first extra one that cannot be read is the fault.
pub proof fn boot_nodes_are_kept_in_order<T, E>(
    built_in: Vec<T>,
    extra: Vec<Result<T, E>>,
    result: Result<Vec<T>, E>,
)
    requires
        call_ensures(boot_nodes::<T, E>, (Some(built_in), extra), result),
    ensures
        result is Ok <==> (forall|i: int| 0 <= i < extra@.len() ==> (#[trigger] extra@[i]) is Ok),
        result matches Ok(nodes) ==> {
            &&& nodes@.len() == built_in@.len() + extra@.len()
            &&& forall|i: int| 0 <= i < built_in@.len() ==> #[trigger] nodes@[i] == built_in@[i]
            &&& forall|i: int|
                0 <= i < extra@.len() ==> (#[trigger] extra@[i]) == Ok::<T, E>(
                    nodes@[built_in@.len() + i],
                )
        },
{
}

/// Without boot nodes of the network, the boot nodes are the extra ones.
pub proof fn extra_boot_nodes_are_enough<T, E>(
    extra: Vec<Result<T, E>>,
    result: Result<Vec<T>, E>,
)
    requires
        call_ensures(boot_nodes::<T, E>, (None::<Vec<T>>, extra), result),
    ensures
        result matches Ok(nodes) ==> nodes@.len() == extra@.len() && forall|i: int|
            0 <= i < extra@.len() ==> (#[trigger] extra@[i]) == Ok::<T, E>(nodes@[i]),
{
}

/// A gossiped block is ignored and then published: the datagram is on that very block, and says
/// when, how and from whom it came in.
pub proof fn a_gossiped_block_is_published(
    observed_at: IngressTimestamp,
    id: String,
    source: String,
    topic: String,
    block: BeaconBlock,
    client: String,
    status: StatusMessage,
    publisher: IngressPublisher,
    actions: Vec<Action>,
)
    requires
        call_ensures(
            handle_network_event,
            (
                NetworkEvent::PubsubMessage {
                    observed_at,
                    id,
                    source,
                    topic,
                    message: PubsubMessage::BeaconBlock { block, client },
                },
                &status,
                &publisher,
            ),
            actions,
        ),
    ensures
        actions@.len() == 2,
        actions@[0] matches Action::ReportValidation { source: peer, message_id, acceptance }
            && peer@ == source@ && message_id@ == id@ && acceptance == MessageAcceptance::Ignore,
        actions@[1] matches Action::Publish(event) && event.kind@ == "beacon_block"@
            && event.schema_version == 2 && event.slot == block.slot.0 && event.proposer_index
            == block.proposer_index && event.beacon_block_root@ == hash_text(
            block.canonical_root.bytes@,
        ) && event.beacon_parent_root@ == hash_text(block.parent_root.bytes@)
            && event.beacon_state_root@ == hash_text(block.state_root.bytes@)
            && event.monotonic_ns == observed_at.monotonic_ns && event.wall_clock.seconds
            == observed_at.wall_clock.seconds && event.wall_clock.nanoseconds
            == observed_at.wall_clock.nanoseconds && event.source_peer_id@ == source@
            && event.gossip_message_id@ == id@ && event.gossip_topic@ == topic@
            && event.source_client is Some && event.source_client->0@ == client@,
        actions@[1] matches Action::Publish(event) ==> match block.execution_payload {
            Some(payload) => event.execution matches Some(execution) && execution.block_hash@
                == hash_text(payload.block_hash.bytes@) && execution.parent_hash@ == hash_text(
                payload.parent_hash.bytes@,
            ) && execution.block_number == payload.block_number && execution.timestamp
                == payload.timestamp,
            None => event.execution is None,
        },
{
}

/// Any other gossip message is ignored, and nothing more is done about it.
pub proof fn other_messages_are_ignored(
    observed_at: IngressTimestamp,
    id: String,
    source: String,
    topic: String,
    status: StatusMessage,
    publisher: IngressPublisher,
    actions: Vec<Action>,
)
    requires
        call_ensures(
            handle_network_event,
            (
                NetworkEvent::PubsubMessage {
                    observed_at,
                    id,
                    source,
                    topic,
                    message: PubsubMessage::Other,
                },
                &status,
                &publisher,
            ),
            actions,
        ),
    ensures
        actions@.len() == 1,
        actions@[0] matches Action::ReportValidation { source: peer, message_id, acceptance }
            && peer@ == source@ && message_id@ == id@ && acceptance == MessageAcceptance::Ignore,
{
}

/// Whether `action` records the peer as synced with what it said of its chain, field by field,
/// where its fork digest is ours, and notes that it is on another fork where it is not.
pub open spec fn records(
    action: Action,
    peer: Seq<char>,
    remote: StatusMessageV2,
    digest: Seq<u8>,
) -> bool {
    if remote.fork_digest@ == digest {
        &&& action matches Action::UpdateSyncStatus { peer_id, sync_status }
        &&& peer_id@ == peer
        &&& sync_status matches SyncStatus::Synced { info }
        &&& info.head_slot.0 == remote.head_slot.0
        &&& info.head_root.bytes@ == remote.head_root.bytes@
        &&& info.finalized_epoch.0 == remote.finalized_epoch.0
        &&& info.finalized_root.bytes@ == remote.finalized_root.bytes@
        &&& info.earliest_available_slot == Some(remote.earliest_available_slot)
    } else {
        action matches Action::Report(Notice::ForkMismatch { peer_id }) && peer_id@ == peer
    }
}

/// A peer that sends its status in a request is recorded where it is on our fork, and its
/// request is answered with our status whether it is or not.
pub proof fn status_requests_are_recorded_and_answered(
    peer: String,
    number: u64,
    remote: StatusMessageV2,
    ours: StatusMessageV2,
    publisher: IngressPublisher,
    actions: Vec<Action>,
)
    requires
        call_ensures(
            handle_network_event,
            (
                NetworkEvent::RequestReceived {
                    peer_id: peer,
                    request_id: number,
                    request: RpcRequest::Status(StatusMessage::V2(remote)),
                },
                &StatusMessage::V2(ours),
                &publisher,
            ),
            actions,
        ),
    ensures
        actions@.len() == 2,
        records(actions@[0], peer@, remote, ours.fork_digest@),
        actions@[1] matches Action::RespondStatus { peer_id, request_id, status } && peer_id@
            == peer@ && request_id == number && status == StatusMessage::V2(ours),
{
}

/// A peer that sends its status in a response is recorded where it is on our fork.
pub proof fn status_responses_are_recorded(
    peer: String,
    remote: StatusMessageV2,
    ours: StatusMessageV2,
    publisher: IngressPublisher,
    actions: Vec<Action>,
)
    requires
        call_ensures(
            handle_network_event,
            (
                NetworkEvent::ResponseReceived {
                    peer_id: peer,
                    response: RpcResponse::Status(StatusMessage::V2(remote)),
                },
                &StatusMessage::V2(ours),
                &publisher,
            ),
            actions,
        ),
    ensures
        actions@.len() == 1,
        records(actions@[0], peer@, remote, ours.fork_digest@),
{
}

/// A peer whose status is due is asked for it, and told ours.
pub proof fn status_is_exchanged_when_due(
    peer: String,
    ours: StatusMessage,
    publisher: IngressPublisher,
    actions: Vec<Action>,
)
    requires
        call_ensures(
            handle_network_event,
            (NetworkEvent::StatusPeer { peer_id: peer }, &ours, &publisher),
            actions,
        ),
    ensures
        actions@.len() == 1,
        actions@[0] matches Action::RequestStatus { peer_id, request_id, status } && peer_id@
            == peer@ && request_id == AppRequestId::Router && status == ours,
{
}

/// Peers that come and go, requests that are not supported, requests that failed and listeners
/// are reported, each with what is known of it, and nothing is done about them.
pub proof fn the_rest_is_reported(
    event: NetworkEvent,
    ours: StatusMessage,
    publisher: IngressPublisher,
    actions: Vec<Action>,
)
    requires
        call_ensures(handle_network_event, (event, &ours, &publisher), actions),
    ensures
        event matches NetworkEvent::PeerConnectedIncoming { peer_id: peer } ==> actions@.len() == 1
            && (actions@[0] matches Action::Report(Notice::PeerConnected { peer_id }) && peer_id@
            == peer@),
        event matches NetworkEvent::PeerConnectedOutgoing { peer_id: peer } ==> actions@.len() == 1
            && (actions@[0] matches Action::Report(Notice::PeerConnected { peer_id }) && peer_id@
            == peer@),
        event matches NetworkEvent::PeerDisconnected { peer_id: peer } ==> actions@.len() == 1 && (
        actions@[0] matches Action::Report(Notice::PeerDisconnected { peer_id }) && peer_id@
            == peer@),
        event matches NetworkEvent::RequestReceived {
            peer_id: peer,
            request: RpcRequest::Other(words),
            ..
        } ==> actions@.len() == 1 && (actions@[0] matches Action::Report(
            Notice::UnsupportedRequest { peer_id, request },
        ) && peer_id@ == peer@ && request@ == words@),
        event matches NetworkEvent::RpcFailed { peer_id: peer, error: words } ==> actions@.len()
            == 1 && (actions@[0] matches Action::Report(Notice::RpcFailed { peer_id, error })
            && peer_id@ == peer@ && error@ == words@),
        event matches NetworkEvent::NewListenAddr { address: at } ==> actions@.len() == 1 && (
        actions@[0] matches Action::Report(Notice::ListenerActive { address }) && address@ == at@),
        event is ZeroListeners ==> actions@.len() == 1 && (actions@[0] matches Action::Report(
            notice,
        ) && notice is NoListeners),
        event matches NetworkEvent::ResponseReceived { response: RpcResponse::Other, .. }
            ==> actions@.len() == 0,
        event is PartialDataColumnSidecar || event is PeerUpdatedCustodyGroupCount
            ==> actions@.len() == 0,
{
}

/// A status that a peer sends, in a request or in a response and in either version, is recorded
/// as it is to be for our own status; a peer that is not recorded is reported to be on another
/// fork.
pub proof fn statuses_are_recorded_as_they_are_to_be(
    peer: String,
    number: u64,
    remote: StatusMessage,
    ours: StatusMessage,
    recorded: Option<SyncStatus>,
    publisher: IngressPublisher,
    actions: (Vec<Action>, Vec<Action>),
)
    requires
        call_ensures(update_peer_status, (&remote, &ours), recorded),
        call_ensures(
            handle_network_event,
            (
                NetworkEvent::RequestReceived {
                    peer_id: peer,
                    request_id: number,
                    request: RpcRequest::Status(remote),
                },
                &ours,
                &publisher,
            ),
            actions.0,
        ),
        call_ensures(
            handle_network_event,
            (
                NetworkEvent::ResponseReceived {
                    peer_id: peer,
                    response: RpcResponse::Status(remote),
                },
                &ours,
                &publisher,
            ),
            actions.1,
        ),
    ensures
        actions.0@.len() == 2,
        actions.1@.len() == 1,
        actions.0@[0] == actions.1@[0],
        actions.0@[1] matches Action::RespondStatus { peer_id, request_id, status } && peer_id@
            == peer@ && request_id == number && status == ours,
        match recorded {
            Some(entry) => actions.1@[0] matches Action::UpdateSyncStatus { peer_id, sync_status }
                && peer_id@ == peer@ && sync_status == entry,
            None => actions.1@[0] matches Action::Report(Notice::ForkMismatch { peer_id })
                && peer_id@ == peer@,
        },
{
}

} // verus!

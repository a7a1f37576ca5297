//! The datagrams that go to the sensor: what they say, and what is reported of sending them.

use crate::clock::{Epoch, Slot};
use crate::hash::{hash_text, parse_undoes_text, parsed_hash, Hash256, HashError};
use vstd::prelude::*;
use vstd::utf8::encode_utf8;

verus! {

/// The version of the form of the datagrams.
pub const INGRESS_SCHEMA_VERSION: u16 = 2;

/// A time of day in UTC: seconds since the Unix epoch, and nanoseconds of the second.
#[derive(Clone, Copy, Debug, PartialEq, Eq, Structural)]
pub struct WallClock {
    pub seconds: i64,
    pub nanoseconds: u32,
}

/// When a message was observed: the time of day, and the nanoseconds since the publisher
/// was started.
#[derive(Clone, Copy, Debug, PartialEq, Eq, Structural)]
pub struct IngressTimestamp {
    pub wall_clock: WallClock,
    pub monotonic_ns: u64,
}

/// What is observed of a beacon block.
#[derive(Clone, Copy, Debug, PartialEq, Eq)]
pub struct BeaconBlock {
    pub canonical_root: Hash256,
    pub parent_root: Hash256,
    pub state_root: Hash256,
    pub slot: Slot,
    pub proposer_index: u64,
    /// The execution payload, in the forks that have one.
    pub execution_payload: Option<PayloadHeader>,
}

/// What is observed of an execution payload.
#[derive(Clone, Copy, Debug, PartialEq, Eq)]
pub struct PayloadHeader {
    pub block_hash: Hash256,
    pub parent_hash: Hash256,
    pub block_number: u64,
    pub timestamp: u64,
}

/// What is observed of an aggregate attestation.
#[derive(Clone, Copy, Debug, PartialEq, Eq)]
pub struct AggregateAttestation {
    pub slot: Slot,
    pub beacon_block_root: Hash256,
    pub target_epoch: Epoch,
    pub target_root: Hash256,
    pub committee_index: Option<u64>,
    pub aggregator_index: u64,
    /// How many of the aggregation bits are set.
    pub set_aggregation_bits: usize,
}

/// The datagram on a beacon block.
#[derive(Clone, Debug)]
pub struct ConsensusIngress {
    pub kind: &'static str,
    pub schema_version: u16,
    pub wall_clock: WallClock,
    pub monotonic_ns: u64,
    pub source_peer_id: String,
    pub source_client: Option<String>,
    pub gossip_message_id: String,
    pub gossip_topic: String,
    pub beacon_block_root: String,
    pub beacon_parent_root: String,
    pub beacon_state_root: String,
    pub slot: u64,
    pub proposer_index: u64,
    pub execution: Option<ExecutionPayload>,
}

/// The datagram on an aggregate attestation.
#[derive(Clone, Debug)]
pub struct ConsensusIngressAggregate {
    pub kind: &'static str,
    pub schema_version: u16,
    pub wall_clock: WallClock,
    pub monotonic_ns: u64,
    pub source_peer_id: String,
    pub source_client: Option<String>,
    pub gossip_message_id: String,
    pub gossip_topic: String,
    pub slot: u64,
    pub beacon_block_root: String,
    pub target_epoch: u64,
    pub target_root: String,
    pub committee_index: Option<u64>,
    pub aggregator_index: u64,
    pub attester_count: u64,
}

/// The execution payload in a datagram.
#[derive(Clone, Debug)]
pub struct ExecutionPayload {
    pub block_hash: String,
    pub parent_hash: String,
    pub block_number: u64,
    pub timestamp: u64,
}

impl ExecutionPayload {
    /// Whether this is what a datagram says of the payload.
    pub open spec fn describes(self, payload: PayloadHeader) -> bool {
        &&& self.block_hash@ == hash_text(payload.block_hash@)
        &&& self.parent_hash@ == hash_text(payload.parent_hash@)
        &&& self.block_number == payload.block_number
        &&& self.timestamp == payload.timestamp
    }
}

impl ConsensusIngress {
    /// Whether this is what the datagram says of the block.
    pub open spec fn describes(self, block: BeaconBlock) -> bool {
        &&& self.kind@ == "beacon_block"@
        &&& self.schema_version == 2
        &&& self.beacon_block_root@ == hash_text(block.canonical_root@)
        &&& self.beacon_parent_root@ == hash_text(block.parent_root@)
        &&& self.beacon_state_root@ == hash_text(block.state_root@)
        &&& self.slot == block.slot.0
        &&& self.proposer_index == block.proposer_index
        &&& match block.execution_payload {
            Some(payload) => self.execution matches Some(execution) && execution.describes(payload),
            None => self.execution is None,
        }
    }

    /// Whether this is what the datagram says of how the block came in.
    pub open spec fn was_observed(
        self,
        observed_at: IngressTimestamp,
        gossip_message_id: Seq<char>,
        gossip_topic: Seq<char>,
        source: Seq<char>,
        client_version: Option<Seq<char>>,
    ) -> bool {
        &&& self.wall_clock == observed_at.wall_clock
        &&& self.monotonic_ns == observed_at.monotonic_ns
        &&& self.gossip_message_id@ == gossip_message_id
        &&& self.gossip_topic@ == gossip_topic
        &&& self.source_peer_id@ == source
        &&& option_text(self.source_client) == client_version
    }
}

impl ConsensusIngressAggregate {
    /// Whether this is what the datagram says of the attestation.
    pub open spec fn describes(self, aggregate: AggregateAttestation) -> bool {
        &&& self.kind@ == "aggregate_attestation"@
        &&& self.schema_version == 2
        &&& self.slot == aggregate.slot.0
        &&& self.beacon_block_root@ == hash_text(aggregate.beacon_block_root@)
        &&& self.target_epoch == aggregate.target_epoch.0
        &&& self.target_root@ == hash_text(aggregate.target_root@)
        &&& self.committee_index == aggregate.committee_index
        &&& self.aggregator_index == aggregate.aggregator_index
        &&& self.attester_count == aggregate.set_aggregation_bits
    }

    /// Whether this is what the datagram says of how the attestation came in.
    pub open spec fn was_observed(
        self,
        observed_at: IngressTimestamp,
        gossip_message_id: Seq<char>,
        gossip_topic: Seq<char>,
        source: Seq<char>,
        client_version: Option<Seq<char>>,
    ) -> bool {
        &&& self.wall_clock == observed_at.wall_clock
        &&& self.monotonic_ns == observed_at.monotonic_ns
        &&& self.gossip_message_id@ == gossip_message_id
        &&& self.gossip_topic@ == gossip_topic
        &&& self.source_peer_id@ == source
        &&& option_text(self.source_client) == client_version
    }
}

/// The text that may be there.
pub open spec fn option_text(text: Option<String>) -> Option<Seq<char>> {
    match text {
        Some(text) => Some(text@),
        None => None,
    }
}

/// The clock reading as the datagrams carry it: as many nanoseconds as 64 bits hold.
pub open spec fn monotonic_reading(elapsed_ns: u128) -> u64 {
    if elapsed_ns <= u64::MAX {
        elapsed_ns as u64
    } else {
        u64::MAX
    }
}

/// Makes the datagrams for one destination.
#[derive(Clone, Debug)]
pub struct IngressPublisher {
    /// The path of the socket of the sensor.
    pub destination: String,
}

impl IngressPublisher {
    /// A publisher for the given destination.
    pub fn new(destination: String) -> (result: IngressPublisher)
        ensures
            result.destination == destination,
    {
        IngressPublisher { destination }
    }

    /// The timestamp for the given time of day and the given nanoseconds since the start.
    pub fn now(&self, wall_clock: WallClock, elapsed_ns: u128) -> (result: IngressTimestamp)
        ensures
            result.wall_clock == wall_clock,
            result.monotonic_ns == monotonic_reading(elapsed_ns),
    {
        let monotonic_ns: u64 = if elapsed_ns <= u64::MAX as u128 {
            elapsed_ns as u64
        } else {
            u64::MAX
        };
        IngressTimestamp { wall_clock, monotonic_ns }
    }

    /// The datagram on a beacon block.
    pub fn publish_block(
        &self,
        observed_at: IngressTimestamp,
        gossip_message_id: String,
        gossip_topic: String,
        source: String,
        client_version: Option<String>,
        block: &BeaconBlock,
    ) -> (result: ConsensusIngress)
        ensures
            result.describes(*block),
            result.was_observed(
                observed_at,
                gossip_message_id@,
                gossip_topic@,
                source@,
                option_text(client_version),
            ),
    {
        let execution: Option<ExecutionPayload> = match &block.execution_payload {
            Some(payload) => Some(
                ExecutionPayload {
                    block_hash: payload.block_hash.to_text(),
                    parent_hash: payload.parent_hash.to_text(),
                    block_number: payload.block_number,
                    timestamp: payload.timestamp,
                },
            ),
            None => None,
        };
        ConsensusIngress {
            kind: "beacon_block",
            schema_version: INGRESS_SCHEMA_VERSION,
            wall_clock: observed_at.wall_clock,
            monotonic_ns: observed_at.monotonic_ns,
            source_peer_id: source,
            source_client: client_version,
            gossip_message_id,
            gossip_topic,
            beacon_block_root: block.canonical_root.to_text(),
            beacon_parent_root: block.parent_root.to_text(),
            beacon_state_root: block.state_root.to_text(),
            slot: block.slot.0,
            proposer_index: block.proposer_index,
            execution,
        }
    }

    /// The datagram on an aggregate attestation.
    pub fn publish_aggregate(
        &self,
        observed_at: IngressTimestamp,
        gossip_message_id: String,
        gossip_topic: String,
        source: String,
        client_version: Option<String>,
        aggregate: &AggregateAttestation,
    ) -> (result: ConsensusIngressAggregate)
        ensures
            result.describes(*aggregate),
            result.was_observed(
                observed_at,
                gossip_message_id@,
                gossip_topic@,
                source@,
                option_text(client_version),
            ),
    {
        ConsensusIngressAggregate {
            kind: "aggregate_attestation",
            schema_version: INGRESS_SCHEMA_VERSION,
            wall_clock: observed_at.wall_clock,
            monotonic_ns: observed_at.monotonic_ns,
            source_peer_id: source,
            source_client: client_version,
            gossip_message_id,
            gossip_topic,
            slot: aggregate.slot.0,
            beacon_block_root: aggregate.beacon_block_root.to_text(),
            target_epoch: aggregate.target_epoch.0,
            target_root: aggregate.target_root.to_text(),
            committee_index: aggregate.committee_index,
            aggregator_index: aggregate.aggregator_index,
            attester_count: aggregate.set_aggregation_bits as u64,
        }
    }
}

/// What came of sending a datagram.
#[derive(Clone, Copy, Debug, PartialEq, Eq, Structural)]
pub enum SendOutcome {
    /// It could not be written down.
    NotSerialized,
    /// It was sent.
    Sent,
    /// The queue of the sensor is full, and the datagram was dropped.
    WouldBlock,
    /// It could not be sent for another reason.
    Failed,
}

/// What is to be reported of sending a datagram.
#[derive(Clone, Copy, Debug, PartialEq, Eq, Structural)]
pub enum SendReport {
    /// It could not be written down.
    NotSerialized,
    /// So many datagrams have been dropped by now.
    Dropped(u64),
    /// It could not be delivered.
    NotDelivered,
}

/// How many datagrams have been dropped because the queue of the sensor was full.
#[derive(Clone, Copy, Debug, PartialEq, Eq, Structural)]
pub struct DroppedEvidence {
    pub count: u64,
}

/// The count after another outcome. It starts again at zero after the largest value.
pub open spec fn count_after(count: u64, outcome: SendOutcome) -> u64 {
    match outcome {
        SendOutcome::WouldBlock => if count == u64::MAX {
            0
        } else {
            (count + 1) as u64
        },
        _ => count,
    }
}

/// Whether a drop is reported when it brings the count to `count`: the first one is, and
/// every hundredth.
pub open spec fn drop_is_reported(count: u64) -> bool {
    count == 1 || count % 100 == 0
}

/// What is reported of an outcome, given the count after it.
pub open spec fn report_of(outcome: SendOutcome, count: u64) -> Option<SendReport> {
    match outcome {
        SendOutcome::NotSerialized => Some(SendReport::NotSerialized),
        SendOutcome::Sent => None,
        SendOutcome::WouldBlock => if drop_is_reported(count) {
            Some(SendReport::Dropped(count))
        } else {
            None
        },
        SendOutcome::Failed => Some(SendReport::NotDelivered),
    }
}

impl DroppedEvidence {
    /// Nothing dropped yet.
    pub fn new() -> (result: DroppedEvidence)
        ensures
            result.count == 0,
    {
        DroppedEvidence { count: 0 }
    }

    /// Takes note of what came of sending a datagram, and says what to report of it.
    pub fn record(&mut self, outcome: SendOutcome) -> (result: Option<SendReport>)
        ensures
            final(self).count == count_after(old(self).count, outcome),
            result == report_of(outcome, final(self).count),
    {
        match outcome {
            SendOutcome::NotSerialized => Some(SendReport::NotSerialized),
            SendOutcome::Sent => None,
            SendOutcome::WouldBlock => {
                self.count = self.count.wrapping_add(1);
                if self.count == 1 || self.count % 100 == 0 {
                    Some(SendReport::Dropped(self.count))
                } else {
                    None
                }
            },
            SendOutcome::Failed => Some(SendReport::NotDelivered),
        }
    }
}

/// The count after a row of outcomes.
pub open spec fn count_after_all(count: u64, outcomes: Seq<SendOutcome>) -> u64
    decreases outcomes.len(),
{
    if outcomes.len() == 0 {
        count
    } else {
        count_after(count_after_all(count, outcomes.drop_last()), outcomes.last())
    }
}

/// How many drops there are in a row of outcomes.
pub open spec fn drops(outcomes: Seq<SendOutcome>) -> nat
    decreases outcomes.len(),
{
    if outcomes.len() == 0 {
        0
    } else {
        drops(outcomes.drop_last()) + if outcomes.last() == SendOutcome::WouldBlock {
            1nat
        } else {
            0
        }
    }
}

/// How many drops are reported in a row of outcomes.
pub open spec fn reported_drops(count: u64, outcomes: Seq<SendOutcome>) -> nat
    decreases outcomes.len(),
{
    if outcomes.len() == 0 {
        0
    } else {
        let report = report_of(outcomes.last(), count_after_all(count, outcomes));
        reported_drops(count, outcomes.drop_last()) + if report matches Some(SendReport::Dropped(_)) {
            1nat
        } else {
            0
        }
    }
}

/// From the start on, the count is the number of drops, whatever else came between them.
pub proof fn count_is_number_of_drops(outcomes: Seq<SendOutcome>)
    requires
        drops(outcomes) <= u64::MAX,
    ensures
        count_after_all(0, outcomes) == drops(outcomes),
    decreases outcomes.len(),
{
    if outcomes.len() > 0 {
        count_is_number_of_drops(outcomes.drop_last());
    }
}

/// From the start on, of `n` drops the first is reported and one for every full hundred,
/// whatever else came between them.
pub proof fn reports_of_drops(outcomes: Seq<SendOutcome>)
    requires
        drops(outcomes) <= u64::MAX,
    ensures
        reported_drops(0, outcomes) == drops(outcomes) / 100 + if drops(outcomes) >= 1 {
            1nat
        } else {
            0
        },
    decreases outcomes.len(),
{
    if outcomes.len() > 0 {
        reports_of_drops(outcomes.drop_last());
        count_is_number_of_drops(outcomes);
    }
}

/// A later observation never carries an earlier clock reading.
pub proof fn readings_do_not_go_back(earlier_ns: u128, later_ns: u128)
    requires
        earlier_ns <= later_ns,
    ensures
        monotonic_reading(earlier_ns) <= monotonic_reading(later_ns),
{
}

/// The roots of a block can be read back from the datagram on it.
pub proof fn block_references_can_be_read(event: ConsensusIngress, block: BeaconBlock)
    requires
        event.describes(block),
    ensures
        parsed_hash(encode_utf8(event.beacon_block_root@)) == Ok::<Seq<u8>, HashError>(
            block.canonical_root@,
        ),
        parsed_hash(encode_utf8(event.beacon_parent_root@)) == Ok::<Seq<u8>, HashError>(
            block.parent_root@,
        ),
        parsed_hash(encode_utf8(event.beacon_state_root@)) == Ok::<Seq<u8>, HashError>(
            block.state_root@,
        ),
        event.execution is Some <==> block.execution_payload is Some,
        event.execution is Some ==> parsed_hash(
            encode_utf8(event.execution->0.block_hash@),
        ) == Ok::<Seq<u8>, HashError>(block.execution_payload->0.block_hash@) && parsed_hash(
            encode_utf8(event.execution->0.parent_hash@),
        ) == Ok::<Seq<u8>, HashError>(block.execution_payload->0.parent_hash@),
{
    parse_undoes_text(block.canonical_root);
    parse_undoes_text(block.parent_root);
    parse_undoes_text(block.state_root);
    if block.execution_payload is Some {
        parse_undoes_text(block.execution_payload->0.block_hash);
        parse_undoes_text(block.execution_payload->0.parent_hash);
    }
}

/// A publisher sends where it was told to.
pub proof fn a_publisher_keeps_its_destination(destination: String, publisher: IngressPublisher)
    requires
        call_ensures(IngressPublisher::new, (destination,), publisher),
    ensures
        publisher.destination@ == destination@,
{
}

/// A reading is the time of day that was given and the nanoseconds that have passed, all of
/// them where 64 bits hold them; after that it stands at the largest value.
pub proof fn readings_are_the_time_that_has_passed(
    publisher: IngressPublisher,
    wall_clock: WallClock,
    elapsed_ns: u128,
    reading: IngressTimestamp,
)
    requires
        call_ensures(IngressPublisher::now, (&publisher, wall_clock, elapsed_ns), reading),
    ensures
        reading.wall_clock.seconds == wall_clock.seconds,
        reading.wall_clock.nanoseconds == wall_clock.nanoseconds,
        elapsed_ns < 0x1_0000_0000_0000_0000 ==> reading.monotonic_ns == elapsed_ns,
        elapsed_ns >= 0x1_0000_0000_0000_0000 ==> reading.monotonic_ns == 0xffff_ffff_ffff_ffff,
{
}

/// Two readings of one publisher lie as far apart as the observations, as long as 64 bits hold
/// the nanoseconds.
pub proof fn readings_keep_distances(
    publisher: IngressPublisher,
    clocks: (WallClock, WallClock),
    elapsed_ns: (u128, u128),
    readings: (IngressTimestamp, IngressTimestamp),
)
    requires
        call_ensures(IngressPublisher::now, (&publisher, clocks.0, elapsed_ns.0), readings.0),
        call_ensures(IngressPublisher::now, (&publisher, clocks.1, elapsed_ns.1), readings.1),
        elapsed_ns.0 < 0x1_0000_0000_0000_0000,
        elapsed_ns.1 < 0x1_0000_0000_0000_0000,
    ensures
        readings.1.monotonic_ns - readings.0.monotonic_ns == elapsed_ns.1 - elapsed_ns.0,
{
}

/// The datagram on a block carries the numbers and the roots of that very block, and of its
/// execution payload where it has one.
pub proof fn a_block_datagram_is_on_the_block(
    publisher: IngressPublisher,
    observed_at: IngressTimestamp,
    id: String,
    topic: String,
    source: String,
    client: Option<String>,
    block: BeaconBlock,
    event: ConsensusIngress,
)
    requires
        call_ensures(
            IngressPublisher::publish_block,
            (&publisher, observed_at, id, topic, source, client, &block),
            event,
        ),
    ensures
        event.kind@ == "beacon_block"@,
        event.schema_version == 2,
        event.slot == block.slot.0,
        event.proposer_index == block.proposer_index,
        event.beacon_block_root@ == hash_text(block.canonical_root.bytes@),
        event.beacon_parent_root@ == hash_text(block.parent_root.bytes@),
        event.beacon_state_root@ == hash_text(block.state_root.bytes@),
        event.execution is Some <==> block.execution_payload is Some,
        block.execution_payload matches Some(payload) ==> {
            &&& event.execution->0.block_hash@ == hash_text(payload.block_hash.bytes@)
            &&& event.execution->0.parent_hash@ == hash_text(payload.parent_hash.bytes@)
            &&& event.execution->0.block_number == payload.block_number
            &&& event.execution->0.timestamp == payload.timestamp
        },
{
}

/// The datagram on a block says when, how and from whom that block came in.
pub proof fn a_block_datagram_says_how_the_block_came_in(
    publisher: IngressPublisher,
    observed_at: IngressTimestamp,
    id: String,
    topic: String,
    source: String,
    client: Option<String>,
    block: BeaconBlock,
    event: ConsensusIngress,
)
    requires
        call_ensures(
            IngressPublisher::publish_block,
            (&publisher, observed_at, id, topic, source, client, &block),
            event,
        ),
    ensures
        event.wall_clock.seconds == observed_at.wall_clock.seconds,
        event.wall_clock.nanoseconds == observed_at.wall_clock.nanoseconds,
        event.monotonic_ns == observed_at.monotonic_ns,
        event.gossip_message_id@ == id@,
        event.gossip_topic@ == topic@,
        event.source_peer_id@ == source@,
        event.source_client is Some <==> client is Some,
        client matches Some(name) ==> event.source_client->0@ == name@,
{
}

/// Datagrams on two blocks differ as the blocks do: they lie as many slots apart, and name the
/// same root, proposer and payload only where the blocks have the same.
pub proof fn block_datagrams_differ_as_the_blocks_do(
    publisher: IngressPublisher,
    observed_at: (IngressTimestamp, IngressTimestamp),
    ids: (String, String),
    topics: (String, String),
    sources: (String, String),
    clients: (Option<String>, Option<String>),
    blocks: (BeaconBlock, BeaconBlock),
    events: (ConsensusIngress, ConsensusIngress),
)
    requires
        call_ensures(
            IngressPublisher::publish_block,
            (&publisher, observed_at.0, ids.0, topics.0, sources.0, clients.0, &blocks.0),
            events.0,
        ),
        call_ensures(
            IngressPublisher::publish_block,
            (&publisher, observed_at.1, ids.1, topics.1, sources.1, clients.1, &blocks.1),
            events.1,
        ),
    ensures
        events.1.slot - events.0.slot == blocks.1.slot.0 - blocks.0.slot.0,
        events.1.proposer_index - events.0.proposer_index == blocks.1.proposer_index
            - blocks.0.proposer_index,
        events.0.beacon_block_root@ == events.1.beacon_block_root@ <==> blocks.0.canonical_root@
            == blocks.1.canonical_root@,
        events.0.beacon_parent_root@ == events.1.beacon_parent_root@ <==> blocks.0.parent_root@
            == blocks.1.parent_root@,
        events.0.beacon_state_root@ == events.1.beacon_state_root@ <==> blocks.0.state_root@
            == blocks.1.state_root@,
        events.0.beacon_block_root@ == events.1.beacon_parent_root@ <==> blocks.0.canonical_root@
            == blocks.1.parent_root@,
{
    parse_undoes_text(blocks.0.canonical_root);
    parse_undoes_text(blocks.1.canonical_root);
    parse_undoes_text(blocks.0.parent_root);
    parse_undoes_text(blocks.1.parent_root);
    parse_undoes_text(blocks.0.state_root);
    parse_undoes_text(blocks.1.state_root);
}

/// The datagram on an attestation carries the numbers and the roots of that very attestation,
/// and says when, how and from whom it came in.
pub proof fn an_aggregate_datagram_is_on_the_aggregate(
    publisher: IngressPublisher,
    observed_at: IngressTimestamp,
    id: String,
    topic: String,
    source: String,
    client: Option<String>,
    aggregate: AggregateAttestation,
    event: ConsensusIngressAggregate,
)
    requires
        call_ensures(
            IngressPublisher::publish_aggregate,
            (&publisher, observed_at, id, topic, source, client, &aggregate),
            event,
        ),
    ensures
        event.kind@ == "aggregate_attestation"@,
        event.schema_version == 2,
        event.slot == aggregate.slot.0,
        event.beacon_block_root@ == hash_text(aggregate.beacon_block_root.bytes@),
        event.target_epoch == aggregate.target_epoch.0,
        event.target_root@ == hash_text(aggregate.target_root.bytes@),
        event.committee_index == aggregate.committee_index,
        event.aggregator_index == aggregate.aggregator_index,
        event.attester_count == aggregate.set_aggregation_bits,
        event.wall_clock.seconds == observed_at.wall_clock.seconds,
        event.wall_clock.nanoseconds == observed_at.wall_clock.nanoseconds,
        event.monotonic_ns == observed_at.monotonic_ns,
        event.gossip_message_id@ == id@,
        event.gossip_topic@ == topic@,
        event.source_peer_id@ == source@,
        event.source_client is Some <==> client is Some,
        client matches Some(name) ==> event.source_client->0@ == name@,
{
}

/// Counting starts at nothing.
pub proof fn counting_starts_at_zero(evidence: DroppedEvidence)
    requires
        call_ensures(DroppedEvidence::new, (), evidence),
    ensures
        evidence.count == 0,
{
}

/// A drop is counted once, and nothing else is. It is reported, with the number of drops by
/// then, exactly where that is one or a multiple of a hundred; a datagram that could not be
/// written down or delivered is always reported, and one that was sent never.
pub proof fn each_outcome_is_counted_and_reported(
    evidence: &mut DroppedEvidence,
    outcome: SendOutcome,
    report: Option<SendReport>,
)
    requires
        call_ensures(DroppedEvidence::record, (evidence, outcome), report),
    ensures
        !(outcome is WouldBlock) ==> final(evidence).count == old(evidence).count,
        outcome is WouldBlock && old(evidence).count < u64::MAX ==> final(evidence).count
            == old(evidence).count + 1,
        outcome is WouldBlock && old(evidence).count == u64::MAX ==> final(evidence).count == 0,
        outcome is WouldBlock ==> match report {
            Some(SendReport::Dropped(count)) => count == final(evidence).count && (count == 1
                || count % 100 == 0),
            Some(_) => false,
            None => final(evidence).count != 1 && final(evidence).count % 100 != 0,
        },
        outcome is Sent ==> report is None,
        outcome is NotSerialized ==> report == Some(SendReport::NotSerialized),
        outcome is Failed ==> report == Some(SendReport::NotDelivered),
{
}

} // verus!

//! What the sentry takes from a Beacon API: proof that it follows Mainnet, and the head and
//! the finalized checkpoint for the status handshake.

use crate::clock::{Epoch, Slot};
use crate::decimal::{
    decimal_text, parse_undoes_decimal_text, parse_unsigned, parsed_unsigned,
    parsed_unsigned_is_bounded, IntegerError,
};
use crate::endpoint::{url_joined, BeaconUrl};
use crate::hash::{hash_text, parse_undoes_text, parsed_hash, Hash256, HashError};
use crate::status::{
    peer_sync_status, update_peer_status, StatusMessage, StatusMessageV2, SyncStatus,
};
use vstd::prelude::*;
use vstd::utf8::encode_utf8;

verus! {

/// How long to wait for an answer of the Beacon API, in seconds.
pub const REQUEST_TIMEOUT_SECONDS: u64 = 10;

/// How long after one status the next one is fetched, in seconds.
pub const REFRESH_INTERVAL_SECONDS: u64 = 6;

/// Why the answers of the Beacon API cannot be used.
#[derive(Clone, Copy, Debug, PartialEq, Eq, Structural)]
pub enum BootstrapError {
    /// A root is no hash.
    Hash(HashError),
    /// A slot or an epoch is no integer.
    Integer(IntegerError),
    /// The API follows another chain.
    WrongGenesis,
}

impl BootstrapError {
    /// What is wrong, in words.
    pub open spec fn words(self) -> Seq<char> {
        match self {
            BootstrapError::Hash(error) => "invalid hash from beacon API: "@ + error.words(),
            BootstrapError::Integer(error) => "invalid integer from beacon API: "@ + error.words(),
            BootstrapError::WrongGenesis =>
                "beacon API genesis validators root is not Ethereum Mainnet"@,
        }
    }

    /// What is wrong, in words.
    pub fn message(&self) -> (result: String)
        ensures
            result@ == self.words(),
    {
        match self {
            BootstrapError::Hash(error) => "invalid hash from beacon API: ".to_owned().concat(
                error.message().as_str(),
            ),
            BootstrapError::Integer(error) => "invalid integer from beacon API: ".to_owned().concat(
                error.message().as_str(),
            ),
            BootstrapError::WrongGenesis =>
                "beacon API genesis validators root is not Ethereum Mainnet".to_owned(),
        }
    }
}

/// The answer on the genesis of the chain.
#[derive(Clone, Debug)]
pub struct GenesisData {
    pub genesis_validators_root: String,
}

/// The answer on the head of the chain.
#[derive(Clone, Debug)]
pub struct HeaderData {
    pub root: String,
    pub header: SignedHeader,
}

/// A block header with its signature left out.
#[derive(Clone, Debug)]
pub struct SignedHeader {
    pub message: HeaderMessage,
}

/// What is read of a block header.
#[derive(Clone, Debug)]
pub struct HeaderMessage {
    pub slot: String,
}

/// The answer on finality.
#[derive(Clone, Debug)]
pub struct FinalityData {
    pub finalized: Checkpoint,
}

/// A checkpoint.
#[derive(Clone, Debug)]
pub struct Checkpoint {
    pub epoch: String,
    pub root: String,
}

/// The hash in an answer.
pub open spec fn answered_hash(value: Seq<char>) -> Result<Seq<u8>, BootstrapError> {
    match parsed_hash(encode_utf8(value)) {
        Ok(hash) => Ok(hash),
        Err(error) => Err(BootstrapError::Hash(error)),
    }
}

/// Reads a hash in an answer.
pub fn parse_hash(value: &str) -> (result: Result<Hash256, BootstrapError>)
    ensures
        match result {
            Ok(hash) => answered_hash(value@) == Ok::<Seq<u8>, BootstrapError>(hash@),
            Err(e) => answered_hash(value@) == Err::<Seq<u8>, BootstrapError>(e),
        },
{
    match Hash256::parse(value) {
        Ok(hash) => Ok(hash),
        Err(error) => Err(BootstrapError::Hash(error)),
    }
}

/// The integer in an answer.
pub open spec fn answered_u64(value: Seq<char>) -> Result<u64, BootstrapError> {
    match parsed_unsigned(value, u64::MAX as nat) {
        Ok(n) => Ok(n as u64),
        Err(error) => Err(BootstrapError::Integer(error)),
    }
}

/// Reads an integer in an answer.
pub fn parse_u64(value: &str) -> (result: Result<u64, BootstrapError>)
    ensures
        result == answered_u64(value@),
{
    proof {
        parsed_unsigned_is_bounded(value@, u64::MAX as nat);
    }
    match parse_unsigned(value, u64::MAX) {
        Ok(n) => Ok(n),
        Err(error) => Err(BootstrapError::Integer(error)),
    }
}

/// A Beacon API that follows the wanted chain.
#[derive(Clone, Debug)]
pub struct BeaconBootstrap {
    pub base_url: BeaconUrl,
    pub genesis_validators_root: Hash256,
}

/// Which resource of the Beacon API is asked for.
#[derive(Clone, Copy, Debug, PartialEq, Eq, Structural)]
pub enum Resource {
    Genesis,
    Head,
    Finality,
}

impl Resource {
    /// The path of the resource, relative to the URL of the API.
    pub open spec fn path_spec(self) -> Seq<char> {
        match self {
            Resource::Genesis => "eth/v1/beacon/genesis"@,
            Resource::Head => "eth/v1/beacon/headers/head"@,
            Resource::Finality => "eth/v1/beacon/states/head/finality_checkpoints"@,
        }
    }

    /// The path of the resource, relative to the URL of the API.
    pub fn path(self) -> (result: &'static str)
        ensures
            result@ == self.path_spec(),
    {
        match self {
            Resource::Genesis => "eth/v1/beacon/genesis",
            Resource::Head => "eth/v1/beacon/headers/head",
            Resource::Finality => "eth/v1/beacon/states/head/finality_checkpoints",
        }
    }

    /// The URL of the resource; the error is in words.
    pub fn url(self, base_url: &BeaconUrl) -> (result: Result<String, String>)
        ensures
            match result {
                Ok(text) => url_joined(base_url@.text, self.path_spec()) == Ok::<
                    Seq<char>,
                    Seq<char>,
                >(text@),
                Err(words) => url_joined(base_url@.text, self.path_spec()) == Err::<
                    Seq<char>,
                    Seq<char>,
                >(words@),
            },
    {
        base_url.join(self.path())
    }
}

/// What a fork digest is computed from.
#[derive(Clone, Copy, Debug, PartialEq, Eq)]
pub struct ForkDigestInput {
    pub genesis_validators_root: Hash256,
    pub epoch: Epoch,
}

/// Why the sentry does not use an API that answers with this genesis; `None` where it does.
pub open spec fn genesis_refusal(expected: Seq<u8>, answer: Seq<char>) -> Option<BootstrapError> {
    match answered_hash(answer) {
        Ok(observed) => if observed == expected {
            None
        } else {
            Some(BootstrapError::WrongGenesis)
        },
        Err(e) => Some(e),
    }
}

/// Why no status can be made of the answers on the head and on finality; `None` where one can.
/// The slot is looked at first, then the epoch, the finalized root and the head root.
pub open spec fn status_refusal(head: HeaderData, finality: FinalityData) -> Option<
    BootstrapError,
> {
    let slot = answered_u64(head.header.message.slot@);
    let epoch = answered_u64(finality.finalized.epoch@);
    let finalized_root = answered_hash(finality.finalized.root@);
    let head_root = answered_hash(head.root@);
    if slot is Err {
        Some(slot->Err_0)
    } else if epoch is Err {
        Some(epoch->Err_0)
    } else if finalized_root is Err {
        Some(finalized_root->Err_0)
    } else if head_root is Err {
        Some(head_root->Err_0)
    } else {
        None
    }
}

/// The epoch that the fork digest is computed for: the one of the head. It is not computed
/// where the slot, or else the finalized epoch, cannot be read.
pub open spec fn digest_epoch(head: HeaderData, finality: FinalityData) -> Result<
    Epoch,
    BootstrapError,
> {
    let slot = answered_u64(head.header.message.slot@);
    let epoch = answered_u64(finality.finalized.epoch@);
    if slot is Err {
        Err(slot->Err_0)
    } else if epoch is Err {
        Err(epoch->Err_0)
    } else {
        Ok(Slot(slot->Ok_0).epoch_spec())
    }
}

/// Whether `message` is the status for these answers and this fork digest.
pub open spec fn is_status_for(
    message: StatusMessage,
    head: HeaderData,
    finality: FinalityData,
    fork_digest: [u8; 4],
) -> bool {
    &&& message matches StatusMessage::V2(status)
    &&& status.fork_digest == fork_digest
    &&& answered_u64(head.header.message.slot@) == Ok::<u64, BootstrapError>(status.head_slot.0)
    &&& answered_hash(head.root@) == Ok::<Seq<u8>, BootstrapError>(status.head_root@)
    &&& answered_u64(finality.finalized.epoch@) == Ok::<u64, BootstrapError>(
        status.finalized_epoch.0,
    )
    &&& answered_hash(finality.finalized.root@) == Ok::<Seq<u8>, BootstrapError>(
        status.finalized_root@,
    )
    &&& status.earliest_available_slot == status.head_slot.next_spec()
}

impl BeaconBootstrap {
    /// Takes up an API, given its answer on the genesis of the chain: only where the root of
    /// the genesis validators is the expected one.
    pub fn connect(
        base_url: BeaconUrl,
        expected_genesis_root: Hash256,
        genesis: &GenesisData,
    ) -> (result: Result<BeaconBootstrap, BootstrapError>)
        ensures
            match result {
                Ok(bootstrap) => genesis_refusal(
                    expected_genesis_root@,
                    genesis.genesis_validators_root@,
                ) is None && bootstrap.base_url == base_url && bootstrap.genesis_validators_root
                    == expected_genesis_root,
                Err(e) => genesis_refusal(
                    expected_genesis_root@,
                    genesis.genesis_validators_root@,
                ) == Some(e),
            },
    {
        match parse_hash(genesis.genesis_validators_root.as_str()) {
            Ok(observed) => if observed.same(&expected_genesis_root) {
                Ok(BeaconBootstrap { base_url, genesis_validators_root: expected_genesis_root })
            } else {
                Err(BootstrapError::WrongGenesis)
            },
            Err(e) => Err(e),
        }
    }

    /// What the fork digest of the status is to be computed from: the expected genesis and
    /// the epoch of the head. Fails where the slot, or else the epoch, cannot be read.
    pub fn fork_digest_input(&self, head: &HeaderData, finality: &FinalityData) -> (result: Result<
        ForkDigestInput,
        BootstrapError,
    >)
        ensures
            match result {
                Ok(input) => input.genesis_validators_root == self.genesis_validators_root
                    && digest_epoch(*head, *finality) == Ok::<Epoch, BootstrapError>(input.epoch),
                Err(e) => digest_epoch(*head, *finality) == Err::<Epoch, BootstrapError>(e),
            },
    {
        let head_slot: Slot = match parse_u64(head.header.message.slot.as_str()) {
            Ok(n) => Slot(n),
            Err(e) => {
                return Err(e);
            },
        };
        match parse_u64(finality.finalized.epoch.as_str()) {
            Ok(_) => {},
            Err(e) => {
                return Err(e);
            },
        }
        Ok(
            ForkDigestInput {
                genesis_validators_root: self.genesis_validators_root,
                epoch: head_slot.epoch(),
            },
        )
    }

    /// The status to announce, given the answers on the head and on finality and the fork
    /// digest for them.
    pub fn status(&self, head: &HeaderData, finality: &FinalityData, fork_digest: [u8; 4]) -> (result:
        Result<StatusMessage, BootstrapError>)
        ensures
            match result {
                Ok(message) => status_refusal(*head, *finality) is None && is_status_for(
                    message,
                    *head,
                    *finality,
                    fork_digest,
                ),
                Err(e) => status_refusal(*head, *finality) == Some(e),
            },
    {
        let head_slot: Slot = match parse_u64(head.header.message.slot.as_str()) {
            Ok(n) => Slot(n),
            Err(e) => {
                return Err(e);
            },
        };
        let finalized_epoch: Epoch = match parse_u64(finality.finalized.epoch.as_str()) {
            Ok(n) => Epoch(n),
            Err(e) => {
                return Err(e);
            },
        };
        let finalized_root: Hash256 = match parse_hash(finality.finalized.root.as_str()) {
            Ok(hash) => hash,
            Err(e) => {
                return Err(e);
            },
        };
        let head_root: Hash256 = match parse_hash(head.root.as_str()) {
            Ok(hash) => hash,
            Err(e) => {
                return Err(e);
            },
        };
        Ok(
            StatusMessage::V2(
                StatusMessageV2 {
                    fork_digest,
                    finalized_root,
                    finalized_epoch,
                    head_root,
                    head_slot,
                    earliest_available_slot: head_slot.next(),
                },
            ),
        )
    }
}

/// An API is taken up exactly where the root in its answer is the expected one.
pub proof fn only_the_expected_chain_is_taken_up(expected: Hash256, answer: Seq<char>)
    ensures
        genesis_refusal(expected@, answer) is None <==> answered_hash(answer) == Ok::<
            Seq<u8>,
            BootstrapError,
        >(expected@),
{
}

/// An API that answers with the text of the expected root is taken up.
pub proof fn the_expected_chain_is_taken_up(expected: Hash256)
    ensures
        genesis_refusal(expected@, hash_text(expected@)) is None,
{
    parse_undoes_text(expected);
}

/// An API that answers with the text of any other root is refused.
pub proof fn another_chain_is_refused(expected: Hash256, other: Hash256)
    requires
        expected@ != other@,
    ensures
        genesis_refusal(expected@, hash_text(other@)) == Some(BootstrapError::WrongGenesis),
{
    parse_undoes_text(other);
}

/// Where there is no fork digest to compute there is no status either, for the same reason;
/// and where a status can be made there is a fork digest to compute.
pub proof fn digest_faults_are_status_faults(head: HeaderData, finality: FinalityData)
    ensures
        digest_epoch(head, finality) is Err ==> status_refusal(head, finality) == Some(
            digest_epoch(head, finality)->Err_0,
        ),
        status_refusal(head, finality) is None ==> digest_epoch(head, finality) is Ok,
{
}

/// The sentry claims no history: the earliest slot that it says it has lies after its head,
/// unless there is no later slot.
pub proof fn no_history_is_claimed(
    message: StatusMessage,
    head: HeaderData,
    finality: FinalityData,
    fork_digest: [u8; 4],
)
    requires
        is_status_for(message, head, finality, fork_digest),
        message.info().head_slot.0 < u64::MAX,
    ensures
        message.info().earliest_available_slot matches Some(slot) && slot.0
            == message.info().head_slot.0 + 1,
{
}

/// The status carries the fork digest that it was given, which is the one to be computed for
/// the epoch of the head that it announces; and a peer is on our fork exactly where its status
/// carries that digest too.
pub proof fn the_given_digest_is_announced(
    message: StatusMessage,
    head: HeaderData,
    finality: FinalityData,
    fork_digest: [u8; 4],
    remote: StatusMessage,
)
    requires
        is_status_for(message, head, finality, fork_digest),
    ensures
        message.digest() == fork_digest@,
        digest_epoch(head, finality) == Ok::<Epoch, BootstrapError>(
            message.info().head_slot.epoch_spec(),
        ),
        peer_sync_status(remote, message) is Some <==> remote.digest() == fork_digest@,
{
}

/// The API is waited for ten seconds, and the status is fetched twice in a slot of twelve.
pub proof fn how_long_to_wait()
    ensures
        REQUEST_TIMEOUT_SECONDS == 10,
        2 * REFRESH_INTERVAL_SECONDS == 12,
{
}

/// A hash or an integer in an answer is read as it is anywhere else, and a fault says which of
/// the two was wanted.
pub proof fn answers_are_read(
    value: &str,
    hashes: (Result<Hash256, HashError>, Result<Hash256, BootstrapError>),
    numbers: (Result<u64, IntegerError>, Result<u64, BootstrapError>),
)
    requires
        call_ensures(Hash256::parse, (value,), hashes.0),
        call_ensures(parse_hash, (value,), hashes.1),
        call_ensures(parse_unsigned, (value, 0xffff_ffff_ffff_ffff), numbers.0),
        call_ensures(parse_u64, (value,), numbers.1),
    ensures
        hashes.0 matches Ok(hash) ==> (hashes.1 matches Ok(read) && read@ == hash@),
        hashes.0 matches Err(e) ==> hashes.1 == Err::<Hash256, BootstrapError>(
            BootstrapError::Hash(e),
        ),
        numbers.0 matches Ok(n) ==> numbers.1 == Ok::<u64, BootstrapError>(n),
        numbers.0 matches Err(e) ==> numbers.1 == Err::<u64, BootstrapError>(
            BootstrapError::Integer(e),
        ),
{
}

/// Each resource is asked for under its own path of the API.
pub proof fn resources_have_their_paths(
    resource: Resource,
    base_url: BeaconUrl,
    result: Result<String, String>,
)
    requires
        call_ensures(Resource::url, (resource, &base_url), result),
    ensures
        ({
            let path = match resource {
                Resource::Genesis => "eth/v1/beacon/genesis"@,
                Resource::Head => "eth/v1/beacon/headers/head"@,
                Resource::Finality => "eth/v1/beacon/states/head/finality_checkpoints"@,
            };
            match url_joined(base_url.text@, path) {
                Ok(text) => result matches Ok(joined) && joined@ == text,
                Err(words) => result matches Err(said) && said@ == words,
            }
        }),
{
}

/// An API is taken up exactly where the root that it answers with is the expected one, byte by
/// byte; it is then kept with the URL and the root that were given.
pub proof fn an_api_is_taken_up_for_its_root(
    base_url: BeaconUrl,
    expected: Hash256,
    genesis: GenesisData,
    answer: &str,
    read: Result<Hash256, HashError>,
    result: Result<BeaconBootstrap, BootstrapError>,
)
    requires
        answer@ == genesis.genesis_validators_root@,
        call_ensures(Hash256::parse, (answer,), read),
        call_ensures(BeaconBootstrap::connect, (base_url, expected, &genesis), result),
    ensures
        read matches Ok(observed) ==> (result is Ok <==> observed.bytes@ == expected.bytes@),
        read matches Ok(observed) ==> observed.bytes@ != expected.bytes@ ==> result == Err::<
            BeaconBootstrap,
            BootstrapError,
        >(BootstrapError::WrongGenesis),
        read matches Err(e) ==> result == Err::<BeaconBootstrap, BootstrapError>(
            BootstrapError::Hash(e),
        ),
        result matches Ok(bootstrap) ==> bootstrap.base_url.text@ == base_url.text@
            && bootstrap.base_url.scheme@ == base_url.scheme@
            && bootstrap.genesis_validators_root.bytes@ == expected.bytes@,
{
}

/// The fork digest is asked for with the root that the API was taken up for and the epoch that
/// the slot of the head lies in; a slot, or else an epoch, that is no integer is refused.
pub proof fn the_digest_is_asked_for_the_head(
    bootstrap: BeaconBootstrap,
    head: HeaderData,
    finality: FinalityData,
    texts: (&str, &str),
    numbers: (Result<u64, IntegerError>, Result<u64, IntegerError>),
    result: Result<ForkDigestInput, BootstrapError>,
)
    requires
        texts.0@ == head.header.message.slot@,
        texts.1@ == finality.finalized.epoch@,
        call_ensures(parse_unsigned, (texts.0, 0xffff_ffff_ffff_ffff), numbers.0),
        call_ensures(parse_unsigned, (texts.1, 0xffff_ffff_ffff_ffff), numbers.1),
        call_ensures(BeaconBootstrap::fork_digest_input, (&bootstrap, &head, &finality), result),
    ensures
        match numbers {
            (Err(e), _) => result == Err::<ForkDigestInput, BootstrapError>(
                BootstrapError::Integer(e),
            ),
            (_, Err(e)) => result == Err::<ForkDigestInput, BootstrapError>(
                BootstrapError::Integer(e),
            ),
            (Ok(slot), Ok(_)) => {
                &&& result matches Ok(input)
                &&& input.genesis_validators_root.bytes@ == bootstrap.genesis_validators_root.bytes@
                &&& 32 * input.epoch.0 <= slot < 32 * input.epoch.0 + 32
            },
        },
{
}

/// The status says, field by field, what the answers say: the head of the one and the finalized
/// checkpoint of the other, with the given fork digest and no history up to the head. A slot, an
/// epoch, a finalized root or a head root that cannot be read is refused, in this order.
pub proof fn a_status_says_what_the_answers_say(
    bootstrap: BeaconBootstrap,
    head: HeaderData,
    finality: FinalityData,
    fork_digest: [u8; 4],
    texts: (&str, &str, &str, &str),
    numbers: (Result<u64, IntegerError>, Result<u64, IntegerError>),
    roots: (Result<Hash256, HashError>, Result<Hash256, HashError>),
    result: Result<StatusMessage, BootstrapError>,
)
    requires
        texts.0@ == head.header.message.slot@,
        texts.1@ == finality.finalized.epoch@,
        texts.2@ == finality.finalized.root@,
        texts.3@ == head.root@,
        call_ensures(parse_unsigned, (texts.0, 0xffff_ffff_ffff_ffff), numbers.0),
        call_ensures(parse_unsigned, (texts.1, 0xffff_ffff_ffff_ffff), numbers.1),
        call_ensures(Hash256::parse, (texts.2,), roots.0),
        call_ensures(Hash256::parse, (texts.3,), roots.1),
        call_ensures(BeaconBootstrap::status, (&bootstrap, &head, &finality, fork_digest), result),
    ensures
        if numbers.0 is Err {
            result == Err::<StatusMessage, BootstrapError>(
                BootstrapError::Integer(numbers.0->Err_0),
            )
        } else if numbers.1 is Err {
            result == Err::<StatusMessage, BootstrapError>(
                BootstrapError::Integer(numbers.1->Err_0),
            )
        } else if roots.0 is Err {
            result == Err::<StatusMessage, BootstrapError>(BootstrapError::Hash(roots.0->Err_0))
        } else if roots.1 is Err {
            result == Err::<StatusMessage, BootstrapError>(BootstrapError::Hash(roots.1->Err_0))
        } else {
            &&& result matches Ok(StatusMessage::V2(status))
            &&& status.fork_digest@ == fork_digest@
            &&& status.head_slot.0 == numbers.0->Ok_0
            &&& status.finalized_epoch.0 == numbers.1->Ok_0
            &&& status.finalized_root.bytes@ == roots.0->Ok_0.bytes@
            &&& status.head_root.bytes@ == roots.1->Ok_0.bytes@
            &&& numbers.0->Ok_0 < 0xffff_ffff_ffff_ffff ==> status.earliest_available_slot.0
                == numbers.0->Ok_0 + 1
            &&& numbers.0->Ok_0 == 0xffff_ffff_ffff_ffff ==> status.earliest_available_slot.0
                == 0xffff_ffff_ffff_ffff
        },
{
}

/// A head and a checkpoint that the API writes in decimal and in hexadecimal are announced as
/// they are, and a peer that announces the same is recorded with them.
pub proof fn written_answers_are_announced(
    bootstrap: BeaconBootstrap,
    head: HeaderData,
    finality: FinalityData,
    fork_digest: [u8; 4],
    slot: u64,
    epoch: u64,
    roots: (Hash256, Hash256),
    local: StatusMessage,
    result: Result<StatusMessage, BootstrapError>,
    recorded: Option<SyncStatus>,
)
    requires
        head.header.message.slot@ == decimal_text(slot as nat),
        head.root@ == hash_text(roots.0.bytes@),
        finality.finalized.epoch@ == decimal_text(epoch as nat),
        finality.finalized.root@ == hash_text(roots.1.bytes@),
        call_ensures(BeaconBootstrap::status, (&bootstrap, &head, &finality, fork_digest), result),
        result matches Ok(message) ==> call_ensures(
            update_peer_status,
            (&message, &local),
            recorded,
        ),
    ensures
        result matches Ok(StatusMessage::V2(status)) && status.head_slot.0 == slot
            && status.head_root.bytes@ == roots.0.bytes@ && status.finalized_epoch.0 == epoch
            && status.finalized_root.bytes@ == roots.1.bytes@ && status.fork_digest@
            == fork_digest@,
        recorded matches Some(entry) ==> (entry matches SyncStatus::Synced { info }
            && info.head_slot.0 == slot && info.head_root.bytes@ == roots.0.bytes@
            && info.finalized_epoch.0 == epoch && info.finalized_root.bytes@ == roots.1.bytes@),
{
    parse_undoes_decimal_text(slot as nat, u64::MAX as nat);
    parse_undoes_decimal_text(epoch as nat, u64::MAX as nat);
    parse_undoes_text(roots.0);
    parse_undoes_text(roots.1);
}

/// A fault in an answer is told with what was wanted and with what is wrong with it.
pub proof fn faults_in_answers_are_told(
    hash: HashError,
    integer: IntegerError,
    words: (String, String),
    messages: (String, String),
)
    requires
        call_ensures(HashError::message, (&hash,), words.0),
        call_ensures(IntegerError::message, (&integer,), words.1),
        call_ensures(BootstrapError::message, (&BootstrapError::Hash(hash),), messages.0),
        call_ensures(BootstrapError::message, (&BootstrapError::Integer(integer),), messages.1),
    ensures
        messages.0@ == "invalid hash from beacon API: "@ + words.0@,
        messages.1@ == "invalid integer from beacon API: "@ + words.1@,
{
}

} // verus!

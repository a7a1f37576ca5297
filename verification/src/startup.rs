//! The start of the sentry: what is to be done next, given what came of each thing done.

use crate::bootstrap::{
    digest_epoch, genesis_refusal, is_status_for, status_refusal, BeaconBootstrap, BootstrapError,
    FinalityData, ForkDigestInput, GenesisData, HeaderData,
};
use crate::clock::{current_slot, slot_at, slot_covers_now, ClockError, Epoch, Slot};
use crate::endpoint::BeaconUrl;
use crate::hash::Hash256;
use crate::status::StatusMessage;
use vstd::prelude::*;

verus! {

/// The constants of Mainnet that the start depends on.
#[derive(Clone, Copy, Debug, PartialEq, Eq)]
pub struct Mainnet {
    pub genesis_validators_root: Hash256,
    pub genesis_time: u64,
    pub seconds_per_slot: u64,
}

/// Why the sentry does not start.
#[derive(Clone, Copy, Debug, PartialEq, Eq, Structural)]
pub enum StartupError {
    /// Something that was to be done could not be done.
    NotDone,
    /// The clock gives no slot.
    Clock(ClockError),
    /// The answers of the Beacon API cannot be used.
    Api(BootstrapError),
}

/// What is to be done next, with what is known by then.
#[derive(Clone, Debug)]
pub enum Startup {
    /// Look up the constants of Mainnet.
    LookUpConstants { base_url: BeaconUrl },
    /// Read the system clock.
    ReadClock { base_url: BeaconUrl, mainnet: Mainnet },
    /// Ask the Beacon API for the genesis of its chain.
    AskGenesis { base_url: BeaconUrl, mainnet: Mainnet, slot: Slot },
    /// Ask the Beacon API for its head and for finality.
    AskStatus { bootstrap: BeaconBootstrap, slot: Slot },
    /// Compute the fork digest of the first status.
    ComputeForkDigest {
        bootstrap: BeaconBootstrap,
        slot: Slot,
        head: HeaderData,
        finality: FinalityData,
        input: ForkDigestInput,
    },
    /// Join the network.
    Join { bootstrap: BeaconBootstrap, slot: Slot, status: StatusMessage },
    /// Open the socket for the datagrams.
    OpenSocket { bootstrap: BeaconBootstrap, status: StatusMessage },
    /// Serve the network.
    Serve { bootstrap: BeaconBootstrap, status: StatusMessage },
    /// Stop.
    Stop(StartupError),
}

/// What came of what was to be done.
#[derive(Clone, Debug)]
pub enum Outcome {
    /// The constants of Mainnet.
    Constants(Mainnet),
    /// The seconds since the Unix epoch; `None` where the clock stands before it.
    Clock(Option<u64>),
    /// The answer on the genesis of the chain.
    Genesis(GenesisData),
    /// The answers on the head and on finality.
    Answers(HeaderData, FinalityData),
    /// The fork digest.
    ForkDigest([u8; 4]),
    /// The network has been joined.
    Joined,
    /// The socket has been opened.
    Opened,
    /// It could not be done.
    NotDone,
}

impl Startup {
    /// Whether `next` is to be done after `self`, given what came of it. What is not an outcome
    /// of `self` changes nothing, and neither does anything after the last step.
    pub open spec fn leads_to(self, outcome: Outcome, next: Startup) -> bool {
        if self is Serve || self is Stop {
            next == self
        } else if outcome is NotDone {
            next == Startup::Stop(StartupError::NotDone)
        } else {
            match (self, outcome) {
                (Startup::LookUpConstants { base_url }, Outcome::Constants(mainnet)) => next
                    == (Startup::ReadClock { base_url, mainnet }),
                (Startup::ReadClock { base_url, mainnet }, Outcome::Clock(now)) => match slot_at(
                    now,
                    mainnet.genesis_time,
                    mainnet.seconds_per_slot,
                ) {
                    Ok(slot) => next == (Startup::AskGenesis { base_url, mainnet, slot }),
                    Err(e) => next == Startup::Stop(StartupError::Clock(e)),
                },
                (
                    Startup::AskGenesis { base_url, mainnet, slot },
                    Outcome::Genesis(genesis),
                ) => match genesis_refusal(
                    mainnet.genesis_validators_root@,
                    genesis.genesis_validators_root@,
                ) {
                    None => next == (Startup::AskStatus {
                        bootstrap: BeaconBootstrap {
                            base_url,
                            genesis_validators_root: mainnet.genesis_validators_root,
                        },
                        slot,
                    }),
                    Some(e) => next == Startup::Stop(StartupError::Api(e)),
                },
                (
                    Startup::AskStatus { bootstrap, slot },
                    Outcome::Answers(head, finality),
                ) => match digest_epoch(head, finality) {
                    Ok(epoch) => next == (Startup::ComputeForkDigest {
                        bootstrap,
                        slot,
                        head,
                        finality,
                        input: ForkDigestInput {
                            genesis_validators_root: bootstrap.genesis_validators_root,
                            epoch,
                        },
                    }),
                    Err(e) => next == Startup::Stop(StartupError::Api(e)),
                },
                (
                    Startup::ComputeForkDigest { bootstrap, slot, head, finality, .. },
                    Outcome::ForkDigest(fork_digest),
                ) => match status_refusal(head, finality) {
                    None => {
                        &&& next matches Startup::Join { bootstrap: b, slot: s, status }
                        &&& b == bootstrap
                        &&& s == slot
                        &&& is_status_for(status, head, finality, fork_digest)
                    },
                    Some(e) => next == Startup::Stop(StartupError::Api(e)),
                },
                (Startup::Join { bootstrap, status, .. }, Outcome::Joined) => next
                    == (Startup::OpenSocket { bootstrap, status }),
                (Startup::OpenSocket { bootstrap, status }, Outcome::Opened) => next
                    == (Startup::Serve { bootstrap, status }),
                _ => next == self,
            }
        }
    }

    /// The first thing to be done.
    pub fn begin(base_url: BeaconUrl) -> (result: Startup)
        ensures
            result == (Startup::LookUpConstants { base_url }),
    {
        Startup::LookUpConstants { base_url }
    }

    /// What is to be done next, given what came of what was to be done.
    pub fn step(self, outcome: Outcome) -> (result: Startup)
        requires
            self matches Startup::ReadClock { mainnet, .. } ==> outcome matches Outcome::Clock(
                Some(now),
            ) ==> now >= mainnet.genesis_time ==> mainnet.seconds_per_slot > 0,
        ensures
            self.leads_to(outcome, result),
    {
        match (self, outcome) {
            (Startup::Serve { bootstrap, status }, _) => Startup::Serve { bootstrap, status },
            (Startup::Stop(e), _) => Startup::Stop(e),
            (_, Outcome::NotDone) => Startup::Stop(StartupError::NotDone),
            (Startup::LookUpConstants { base_url }, Outcome::Constants(mainnet)) => {
                Startup::ReadClock { base_url, mainnet }
            },
            (Startup::ReadClock { base_url, mainnet }, Outcome::Clock(now)) => match current_slot(
                now,
                mainnet.genesis_time,
                mainnet.seconds_per_slot,
            ) {
                Ok(slot) => Startup::AskGenesis { base_url, mainnet, slot },
                Err(e) => Startup::Stop(StartupError::Clock(e)),
            },
            (Startup::AskGenesis { base_url, mainnet, slot }, Outcome::Genesis(genesis)) => {
                match BeaconBootstrap::connect(base_url, mainnet.genesis_validators_root, &genesis) {
                    Ok(bootstrap) => Startup::AskStatus { bootstrap, slot },
                    Err(e) => Startup::Stop(StartupError::Api(e)),
                }
            },
            (Startup::AskStatus { bootstrap, slot }, Outcome::Answers(head, finality)) => {
                match bootstrap.fork_digest_input(&head, &finality) {
                    Ok(input) => Startup::ComputeForkDigest {
                        bootstrap,
                        slot,
                        head,
                        finality,
                        input,
                    },
                    Err(e) => Startup::Stop(StartupError::Api(e)),
                }
            },
            (
                Startup::ComputeForkDigest { bootstrap, slot, head, finality, .. },
                Outcome::ForkDigest(fork_digest),
            ) => match bootstrap.status(&head, &finality, fork_digest) {
                Ok(status) => Startup::Join { bootstrap, slot, status },
                Err(e) => Startup::Stop(StartupError::Api(e)),
            },
            (Startup::Join { bootstrap, status, .. }, Outcome::Joined) => {
                Startup::OpenSocket { bootstrap, status }
            },
            (Startup::OpenSocket { bootstrap, status }, Outcome::Opened) => {
                Startup::Serve { bootstrap, status }
            },
            (unchanged, _) => unchanged,
        }
    }
}

/// Whether `steps` are what is to be done in turn from the beginning on, given what came of
/// each.
pub open spec fn is_run(base_url: BeaconUrl, steps: Seq<Startup>, outcomes: Seq<Outcome>) -> bool {
    &&& steps.len() == outcomes.len() + 1
    &&& steps[0] == (Startup::LookUpConstants { base_url })
    &&& forall|i: int|
        0 <= i < outcomes.len() ==> steps[i].leads_to(#[trigger] outcomes[i], steps[i + 1])
}

impl Startup {
    /// Whether the network or the sensor is met in this step.
    pub open spec fn meets_others(self) -> bool {
        self is Join || self is OpenSocket || self is Serve
    }

    /// The Beacon API that has been taken up, and the first status; `None` where others are not
    /// met yet.
    pub open spec fn taken_up(self) -> Option<(BeaconBootstrap, StatusMessage)> {
        match self {
            Startup::Join { bootstrap, status, .. } => Some((bootstrap, status)),
            Startup::OpenSocket { bootstrap, status } => Some((bootstrap, status)),
            Startup::Serve { bootstrap, status } => Some((bootstrap, status)),
            _ => None,
        }
    }
}

/// Whether the constants of Mainnet were looked up in step `a` and are `mainnet`.
pub open spec fn constants_at(
    steps: Seq<Startup>,
    outcomes: Seq<Outcome>,
    a: int,
    mainnet: Mainnet,
) -> bool {
    steps[a] is LookUpConstants && outcomes[a] == Outcome::Constants(mainnet)
}

/// Whether the Beacon API answered in step `b` with the genesis of Mainnet.
pub open spec fn genesis_verified_at(
    steps: Seq<Startup>,
    outcomes: Seq<Outcome>,
    b: int,
    mainnet: Mainnet,
) -> bool {
    &&& steps[b] is AskGenesis
    &&& outcomes[b] matches Outcome::Genesis(genesis)
    &&& genesis_refusal(
        mainnet.genesis_validators_root@,
        genesis.genesis_validators_root@,
    ) is None
}

/// Whether the Beacon API answered in step `c` on its head and on finality, the fork digest
/// for the epoch of that head was computed in step `d`, for the genesis of Mainnet, and
/// `status` is the status for them.
pub open spec fn status_made_at(
    steps: Seq<Startup>,
    outcomes: Seq<Outcome>,
    c: int,
    d: int,
    mainnet: Mainnet,
    status: StatusMessage,
) -> bool {
    &&& steps[c] is AskStatus
    &&& outcomes[c] matches Outcome::Answers(head, finality)
    &&& steps[d] matches Startup::ComputeForkDigest { input, .. }
    &&& digest_epoch(head, finality) == Ok::<Epoch, BootstrapError>(input.epoch)
    &&& input.genesis_validators_root == mainnet.genesis_validators_root
    &&& outcomes[d] matches Outcome::ForkDigest(fork_digest)
    &&& is_status_for(status, head, finality, fork_digest)
}

/// Whether, before step `n`, the constants of Mainnet were looked up in step `a`, the Beacon
/// API was verified against them in step `b`, and the status that is held in step `n` was made
/// in steps `c` and `d`.
pub open spec fn verified_before(
    base_url: BeaconUrl,
    steps: Seq<Startup>,
    outcomes: Seq<Outcome>,
    n: int,
    a: int,
    b: int,
    c: int,
    d: int,
) -> bool {
    &&& 0 <= a < b < c < d < n
    &&& outcomes[a] matches Outcome::Constants(mainnet)
    &&& constants_at(steps, outcomes, a, mainnet)
    &&& genesis_verified_at(steps, outcomes, b, mainnet)
    &&& steps[n].taken_up() matches Some((bootstrap, status))
    &&& bootstrap.base_url == base_url
    &&& bootstrap.genesis_validators_root == mainnet.genesis_validators_root
    &&& status_made_at(steps, outcomes, c, d, mainnet, status)
}

/// The steps that led to step `n`, as far as it has come.
proof fn trail(base_url: BeaconUrl, steps: Seq<Startup>, outcomes: Seq<Outcome>, n: int) -> (at: (
    int,
    int,
    int,
    int,
))
    requires
        is_run(base_url, steps, outcomes),
        0 <= n < steps.len(),
    ensures
        steps[n] matches Startup::LookUpConstants { base_url: u } ==> u == base_url,
        steps[n] matches Startup::ReadClock { base_url: u, mainnet } ==> {
            &&& u == base_url
            &&& 0 <= at.0 < n
            &&& constants_at(steps, outcomes, at.0, mainnet)
        },
        steps[n] matches Startup::AskGenesis { base_url: u, mainnet, .. } ==> {
            &&& u == base_url
            &&& 0 <= at.0 < n
            &&& constants_at(steps, outcomes, at.0, mainnet)
        },
        steps[n] matches Startup::AskStatus { bootstrap, .. } ==> {
            &&& 0 <= at.0 < at.1 < n
            &&& outcomes[at.0] matches Outcome::Constants(mainnet)
            &&& constants_at(steps, outcomes, at.0, mainnet)
            &&& genesis_verified_at(steps, outcomes, at.1, mainnet)
            &&& bootstrap.base_url == base_url
            &&& bootstrap.genesis_validators_root == mainnet.genesis_validators_root
        },
        steps[n] matches Startup::ComputeForkDigest { bootstrap, head, finality, input, .. } ==> {
            &&& 0 <= at.0 < at.1 < at.2 < n
            &&& outcomes[at.0] matches Outcome::Constants(mainnet)
            &&& constants_at(steps, outcomes, at.0, mainnet)
            &&& genesis_verified_at(steps, outcomes, at.1, mainnet)
            &&& bootstrap.base_url == base_url
            &&& bootstrap.genesis_validators_root == mainnet.genesis_validators_root
            &&& steps[at.2] is AskStatus
            &&& outcomes[at.2] == Outcome::Answers(head, finality)
            &&& digest_epoch(head, finality) == Ok::<Epoch, BootstrapError>(input.epoch)
            &&& input.genesis_validators_root == mainnet.genesis_validators_root
        },
        steps[n].meets_others() ==> verified_before(
            base_url,
            steps,
            outcomes,
            n,
            at.0,
            at.1,
            at.2,
            at.3,
        ),
    decreases n,
{
    if n == 0 {
        (0, 0, 0, 0)
    } else {
        let at = trail(base_url, steps, outcomes, n - 1);
        let before = steps[n - 1];
        assert(before.leads_to(outcomes[n - 1], steps[n]));
        if before is LookUpConstants && steps[n] is ReadClock {
            (n - 1, at.1, at.2, at.3)
        } else if before is AskGenesis && steps[n] is AskStatus {
            (at.0, n - 1, at.2, at.3)
        } else if before is AskStatus && steps[n] is ComputeForkDigest {
            (at.0, at.1, n - 1, at.3)
        } else if before is ComputeForkDigest && steps[n] is Join {
            (at.0, at.1, at.2, n - 1)
        } else {
            at
        }
    }
}

/// Nothing is joined, opened or served before the configured Beacon API has been verified as
/// Mainnet and a first status has been made of its answers, whatever comes of each step.
pub proof fn nothing_is_joined_unverified(
    base_url: BeaconUrl,
    steps: Seq<Startup>,
    outcomes: Seq<Outcome>,
    n: int,
)
    requires
        is_run(base_url, steps, outcomes),
        0 <= n < steps.len(),
        steps[n].meets_others(),
    ensures
        exists|a: int, b: int, c: int, d: int| #[trigger]
            verified_before(base_url, steps, outcomes, n, a, b, c, d),
{
    let at = trail(base_url, steps, outcomes, n);
    assert(verified_before(base_url, steps, outcomes, n, at.0, at.1, at.2, at.3));
}

/// A start that has stopped stays so: nothing is done after that.
pub proof fn a_stop_is_final(
    base_url: BeaconUrl,
    steps: Seq<Startup>,
    outcomes: Seq<Outcome>,
    earlier: int,
    later: int,
)
    requires
        is_run(base_url, steps, outcomes),
        0 <= earlier <= later < steps.len(),
        steps[earlier] is Stop,
    ensures
        steps[later] == steps[earlier],
    decreases later - earlier,
{
    if earlier < later {
        a_stop_is_final(base_url, steps, outcomes, earlier, later - 1);
        assert(steps[later - 1].leads_to(outcomes[later - 1], steps[later]));
    }
}

/// Where the Beacon API answers with another genesis, nothing is done any more: the network is
/// never joined.
pub proof fn another_chain_is_never_joined(
    base_url: BeaconUrl,
    steps: Seq<Startup>,
    outcomes: Seq<Outcome>,
    asked: int,
    later: int,
)
    requires
        is_run(base_url, steps, outcomes),
        0 <= asked < later < steps.len(),
        steps[asked] matches Startup::AskGenesis { mainnet, .. } && outcomes[asked] matches Outcome::Genesis(
            genesis,
        ) && genesis_refusal(
            mainnet.genesis_validators_root@,
            genesis.genesis_validators_root@,
        ) is Some,
    ensures
        steps[later] is Stop,
        !steps[later].meets_others(),
{
    assert(steps[asked].leads_to(outcomes[asked], steps[asked + 1]));
    a_stop_is_final(base_url, steps, outcomes, asked + 1, later);
}

/// What cannot be done stops the start, and nothing is done after that.
pub proof fn a_failure_stops_the_start(
    base_url: BeaconUrl,
    steps: Seq<Startup>,
    outcomes: Seq<Outcome>,
    failed: int,
    later: int,
)
    requires
        is_run(base_url, steps, outcomes),
        0 <= failed < later < steps.len(),
        outcomes[failed] is NotDone,
        !(steps[failed] is Serve),
    ensures
        steps[later] is Stop,
{
    assert(steps[failed].leads_to(outcomes[failed], steps[failed + 1]));
    a_stop_is_final(base_url, steps, outcomes, failed + 1, later);
}

/// Whether the network was joined in step `a`, and the socket opened in step `b`, before step
/// `n`.
pub open spec fn joined_before(
    steps: Seq<Startup>,
    outcomes: Seq<Outcome>,
    n: int,
    a: int,
    b: int,
) -> bool {
    &&& 0 <= a < b < n
    &&& steps[a] is Join
    &&& outcomes[a] is Joined
    &&& steps[b] is OpenSocket
    &&& outcomes[b] is Opened
}

/// The steps in which the network was joined and the socket opened, as far as the start has
/// come.
proof fn joining_trail(
    base_url: BeaconUrl,
    steps: Seq<Startup>,
    outcomes: Seq<Outcome>,
    n: int,
) -> (at: (int, int))
    requires
        is_run(base_url, steps, outcomes),
        0 <= n < steps.len(),
    ensures
        steps[n] is OpenSocket ==> 0 <= at.0 < n && steps[at.0] is Join && outcomes[at.0] is Joined,
        steps[n] is Serve ==> joined_before(steps, outcomes, n, at.0, at.1),
    decreases n,
{
    if n == 0 {
        (0, 0)
    } else {
        let at = joining_trail(base_url, steps, outcomes, n - 1);
        let before = steps[n - 1];
        assert(before.leads_to(outcomes[n - 1], steps[n]));
        if before is Join && steps[n] is OpenSocket {
            (n - 1, at.1)
        } else if before is OpenSocket && steps[n] is Serve {
            (at.0, n - 1)
        } else {
            at
        }
    }
}

/// The network is served only after it has been joined and then the socket opened.
pub proof fn serving_comes_last(
    base_url: BeaconUrl,
    steps: Seq<Startup>,
    outcomes: Seq<Outcome>,
    n: int,
)
    requires
        is_run(base_url, steps, outcomes),
        0 <= n < steps.len(),
        steps[n] is Serve,
    ensures
        exists|a: int, b: int| #[trigger] joined_before(steps, outcomes, n, a, b),
{
    let at = joining_trail(base_url, steps, outcomes, n);
    assert(joined_before(steps, outcomes, n, at.0, at.1));
}

/// Where everything is done, the clock stands after genesis, the Beacon API answers with the
/// genesis of Mainnet and a status can be made of its answers, the sentry comes to serve.
pub proof fn a_good_start_serves(
    base_url: BeaconUrl,
    steps: Seq<Startup>,
    outcomes: Seq<Outcome>,
    mainnet: Mainnet,
    now: u64,
    genesis: GenesisData,
    head: HeaderData,
    finality: FinalityData,
    fork_digest: [u8; 4],
)
    requires
        is_run(base_url, steps, outcomes),
        outcomes == seq![
            Outcome::Constants(mainnet),
            Outcome::Clock(Some(now)),
            Outcome::Genesis(genesis),
            Outcome::Answers(head, finality),
            Outcome::ForkDigest(fork_digest),
            Outcome::Joined,
            Outcome::Opened,
        ],
        now >= mainnet.genesis_time,
        genesis_refusal(
            mainnet.genesis_validators_root@,
            genesis.genesis_validators_root@,
        ) is None,
        status_refusal(head, finality) is None,
    ensures
        steps[7] matches Startup::Serve { bootstrap, status } && bootstrap.base_url == base_url
            && is_status_for(status, head, finality, fork_digest),
{
    assert(steps[0].leads_to(outcomes[0], steps[1]));
    assert(steps[1].leads_to(outcomes[1], steps[2]));
    assert(steps[2].leads_to(outcomes[2], steps[3]));
    assert(steps[3].leads_to(outcomes[3], steps[4]));
    assert(steps[4].leads_to(outcomes[4], steps[5]));
    assert(steps[5].leads_to(outcomes[5], steps[6]));
    assert(steps[6].leads_to(outcomes[6], steps[7]));
}

/// The start begins with the constants, and keeps the URL that it was given.
pub proof fn the_start_begins_with_the_constants(base_url: BeaconUrl, first: Startup)
    requires
        call_ensures(Startup::begin, (base_url,), first),
    ensures
        first matches Startup::LookUpConstants { base_url: kept } && kept.text@ == base_url.text@
            && kept.scheme@ == base_url.scheme@,
{
}

/// After the constants the clock is read, with the constants as they were found.
pub proof fn the_clock_comes_after_the_constants(
    base_url: BeaconUrl,
    mainnet: Mainnet,
    next: Startup,
)
    requires
        call_ensures(
            Startup::step,
            (Startup::LookUpConstants { base_url }, Outcome::Constants(mainnet)),
            next,
        ),
    ensures
        next matches Startup::ReadClock { base_url: kept, mainnet: found } && kept.text@
            == base_url.text@ && found.genesis_validators_root.bytes@
            == mainnet.genesis_validators_root.bytes@ && found.genesis_time == mainnet.genesis_time
            && found.seconds_per_slot == mainnet.seconds_per_slot,
{
}

/// After the clock the API is asked for its genesis, with the slot that the clock gives; a clock
/// that gives none stops the start.
pub proof fn the_genesis_comes_after_the_clock(
    base_url: BeaconUrl,
    mainnet: Mainnet,
    now: Option<u64>,
    slot: Result<Slot, ClockError>,
    next: Startup,
)
    requires
        call_ensures(
            current_slot,
            (now, mainnet.genesis_time, mainnet.seconds_per_slot),
            slot,
        ),
        call_ensures(
            Startup::step,
            (Startup::ReadClock { base_url, mainnet }, Outcome::Clock(now)),
            next,
        ),
    ensures
        match slot {
            Ok(current) => next matches Startup::AskGenesis {
                base_url: kept,
                mainnet: known,
                slot: found,
            } && kept.text@ == base_url.text@ && known.genesis_validators_root.bytes@
                == mainnet.genesis_validators_root.bytes@ && found.0 == current.0,
            Err(e) => next == Startup::Stop(StartupError::Clock(e)),
        },
{
}

/// After the genesis the API is asked for its head and for finality where it is taken up;
/// otherwise the start stops for what is wrong with the answer.
pub proof fn the_answers_come_after_the_genesis(
    base_url: BeaconUrl,
    mainnet: Mainnet,
    slot: Slot,
    genesis: GenesisData,
    taken_up: Result<BeaconBootstrap, BootstrapError>,
    next: Startup,
)
    requires
        call_ensures(
            BeaconBootstrap::connect,
            (base_url, mainnet.genesis_validators_root, &genesis),
            taken_up,
        ),
        call_ensures(
            Startup::step,
            (Startup::AskGenesis { base_url, mainnet, slot }, Outcome::Genesis(genesis)),
            next,
        ),
    ensures
        match taken_up {
            Ok(api) => next matches Startup::AskStatus { bootstrap, slot: kept }
                && bootstrap.base_url.text@ == api.base_url.text@
                && bootstrap.genesis_validators_root.bytes@ == api.genesis_validators_root.bytes@
                && kept.0 == slot.0,
            Err(e) => next == Startup::Stop(StartupError::Api(e)),
        },
{
}

/// After the answers the fork digest is computed for them; answers that it cannot be computed
/// for stop the start.
pub proof fn the_digest_comes_after_the_answers(
    api: BeaconBootstrap,
    slot: Slot,
    head: HeaderData,
    finality: FinalityData,
    asked: Result<ForkDigestInput, BootstrapError>,
    next: Startup,
)
    requires
        call_ensures(BeaconBootstrap::fork_digest_input, (&api, &head, &finality), asked),
        call_ensures(
            Startup::step,
            (
                Startup::AskStatus { bootstrap: api, slot },
                Outcome::Answers(head, finality),
            ),
            next,
        ),
    ensures
        match asked {
            Ok(wanted) => next matches Startup::ComputeForkDigest {
                bootstrap,
                slot: kept,
                head: kept_head,
                finality: kept_finality,
                input,
            } && bootstrap == api && kept.0 == slot.0 && kept_head == head && kept_finality
                == finality && input.epoch.0 == wanted.epoch.0
                && input.genesis_validators_root.bytes@ == wanted.genesis_validators_root.bytes@,
            Err(e) => next == Startup::Stop(StartupError::Api(e)),
        },
{
}

/// After the fork digest the network is joined at the slot of the clock, with the status for the
/// answers and that digest; answers that no status can be made of stop the start.
pub proof fn joining_comes_after_the_digest(
    api: BeaconBootstrap,
    slot: Slot,
    head: HeaderData,
    finality: FinalityData,
    input: ForkDigestInput,
    fork_digest: [u8; 4],
    made: Result<StatusMessage, BootstrapError>,
    next: Startup,
)
    requires
        call_ensures(BeaconBootstrap::status, (&api, &head, &finality, fork_digest), made),
        call_ensures(
            Startup::step,
            (
                Startup::ComputeForkDigest { bootstrap: api, slot, head, finality, input },
                Outcome::ForkDigest(fork_digest),
            ),
            next,
        ),
    ensures
        match made {
            Ok(message) => next matches Startup::Join { bootstrap, slot: kept, status }
                && bootstrap == api && kept.0 == slot.0 && status.digest() == message.digest()
                && status.info().head_slot.0 == message.info().head_slot.0
                && status.info().head_root.bytes@ == message.info().head_root.bytes@
                && status.info().finalized_epoch.0 == message.info().finalized_epoch.0
                && status.info().finalized_root.bytes@ == message.info().finalized_root.bytes@
                && status.info().earliest_available_slot == message.info().earliest_available_slot,
            Err(e) => next == Startup::Stop(StartupError::Api(e)),
        },
{
}

/// Once the network has been joined the socket is opened, and once that has been opened the
/// network is served, with the same API and the same status.
pub proof fn serving_comes_after_joining_and_opening(
    api: BeaconBootstrap,
    slot: Slot,
    message: StatusMessage,
    nexts: (Startup, Startup),
)
    requires
        call_ensures(
            Startup::step,
            (Startup::Join { bootstrap: api, slot, status: message }, Outcome::Joined),
            nexts.0,
        ),
        call_ensures(
            Startup::step,
            (Startup::OpenSocket { bootstrap: api, status: message }, Outcome::Opened),
            nexts.1,
        ),
    ensures
        nexts.0 == (Startup::OpenSocket { bootstrap: api, status: message }),
        nexts.1 == (Startup::Serve { bootstrap: api, status: message }),
{
}

/// Whether `outcome` is what can come of `step`, other than that it could not be done.
pub open spec fn belongs_to(outcome: Outcome, step: Startup) -> bool {
    match step {
        Startup::LookUpConstants { .. } => outcome is Constants,
        Startup::ReadClock { .. } => outcome is Clock,
        Startup::AskGenesis { .. } => outcome is Genesis,
        Startup::AskStatus { .. } => outcome is Answers,
        Startup::ComputeForkDigest { .. } => outcome is ForkDigest,
        Startup::Join { .. } => outcome is Joined,
        Startup::OpenSocket { .. } => outcome is Opened,
        Startup::Serve { .. } => false,
        Startup::Stop(_) => false,
    }
}

/// What could not be done stops the start, unless it is over already; and what does not belong
/// to a step changes nothing.
pub proof fn what_does_not_belong_changes_nothing(step: Startup, outcome: Outcome, next: Startup)
    requires
        call_ensures(Startup::step, (step, outcome), next),
        !belongs_to(outcome, step),
    ensures
        outcome is NotDone && !(step is Serve) && !(step is Stop) ==> next == Startup::Stop(
            StartupError::NotDone,
        ),
        !(outcome is NotDone) || step is Serve || step is Stop ==> next == step,
{
}

/// A good start joins at the slot that has begun by the clock, with the API that was given and
/// the root of Mainnet.
pub proof fn a_good_start_joins_at_the_current_slot(
    base_url: BeaconUrl,
    steps: Seq<Startup>,
    outcomes: Seq<Outcome>,
    mainnet: Mainnet,
    now: u64,
    genesis: GenesisData,
    head: HeaderData,
    finality: FinalityData,
    fork_digest: [u8; 4],
)
    requires
        is_run(base_url, steps, outcomes),
        outcomes == seq![
            Outcome::Constants(mainnet),
            Outcome::Clock(Some(now)),
            Outcome::Genesis(genesis),
            Outcome::Answers(head, finality),
            Outcome::ForkDigest(fork_digest),
        ],
        now >= mainnet.genesis_time,
        mainnet.seconds_per_slot > 0,
        genesis_refusal(
            mainnet.genesis_validators_root@,
            genesis.genesis_validators_root@,
        ) is None,
        status_refusal(head, finality) is None,
    ensures
        steps[5] matches Startup::Join { bootstrap, slot, status } && bootstrap.base_url
            == base_url && bootstrap.genesis_validators_root == mainnet.genesis_validators_root
            && mainnet.genesis_time + slot.0 * mainnet.seconds_per_slot <= now
            < mainnet.genesis_time + (slot.0 + 1) * mainnet.seconds_per_slot && status.digest()
            == fork_digest@,
{
    slot_covers_now(now, mainnet.genesis_time, mainnet.seconds_per_slot);
    assert(steps[0].leads_to(outcomes[0], steps[1]));
    assert(steps[1].leads_to(outcomes[1], steps[2]));
    assert(steps[2].leads_to(outcomes[2], steps[3]));
    assert(steps[3].leads_to(outcomes[3], steps[4]));
    assert(steps[4].leads_to(outcomes[4], steps[5]));
}

} // verus!

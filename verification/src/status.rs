//! The status handshake with other peers.

use crate::clock::{Epoch, Slot};
use crate::hash::Hash256;
use vstd::prelude::*;

verus! {

/// The first version of the status message.
#[derive(Clone, Copy, Debug, PartialEq, Eq)]
pub struct StatusMessageV1 {
    pub fork_digest: [u8; 4],
    pub finalized_root: Hash256,
    pub finalized_epoch: Epoch,
    pub head_root: Hash256,
    pub head_slot: Slot,
}

/// The second version of the status message.
#[derive(Clone, Copy, Debug, PartialEq, Eq)]
pub struct StatusMessageV2 {
    pub fork_digest: [u8; 4],
    pub finalized_root: Hash256,
    pub finalized_epoch: Epoch,
    pub head_root: Hash256,
    pub head_slot: Slot,
    pub earliest_available_slot: Slot,
}

/// What a peer says of its chain.
#[derive(Clone, Copy, Debug, PartialEq, Eq)]
pub enum StatusMessage {
    V1(StatusMessageV1),
    V2(StatusMessageV2),
}

/// What is kept of the chain of a peer.
#[derive(Clone, Copy, Debug, PartialEq, Eq)]
pub struct SyncInfo {
    pub head_slot: Slot,
    pub head_root: Hash256,
    pub finalized_epoch: Epoch,
    pub finalized_root: Hash256,
    pub earliest_available_slot: Option<Slot>,
}

/// How the chain of a peer stands to ours.
#[derive(Clone, Copy, Debug, PartialEq, Eq)]
pub enum SyncStatus {
    /// The peer is where we are.
    Synced { info: SyncInfo },
    /// The peer is ahead of us.
    Advanced { info: SyncInfo },
    /// The peer is behind us.
    Behind { info: SyncInfo },
    /// The peer is of no use to us.
    IrrelevantPeer,
    /// Nothing is known of the peer.
    Unknown,
}

impl StatusMessage {
    /// The digest of the fork that the peer is on.
    pub open spec fn digest(self) -> Seq<u8> {
        match self {
            StatusMessage::V1(status) => status.fork_digest@,
            StatusMessage::V2(status) => status.fork_digest@,
        }
    }

    /// What is kept of the message: all but the digest.
    pub open spec fn info(self) -> SyncInfo {
        match self {
            StatusMessage::V1(status) => SyncInfo {
                head_slot: status.head_slot,
                head_root: status.head_root,
                finalized_epoch: status.finalized_epoch,
                finalized_root: status.finalized_root,
                earliest_available_slot: None,
            },
            StatusMessage::V2(status) => SyncInfo {
                head_slot: status.head_slot,
                head_root: status.head_root,
                finalized_epoch: status.finalized_epoch,
                finalized_root: status.finalized_root,
                earliest_available_slot: Some(status.earliest_available_slot),
            },
        }
    }

    /// The digest of the fork that the peer is on.
    pub fn fork_digest(&self) -> (result: [u8; 4])
        ensures
            result@ == self.digest(),
    {
        match self {
            StatusMessage::V1(status) => status.fork_digest,
            StatusMessage::V2(status) => status.fork_digest,
        }
    }

    /// What is kept of the message: all but the digest.
    pub fn sync_info(&self) -> (result: SyncInfo)
        ensures
            result == self.info(),
    {
        match self {
            StatusMessage::V1(status) => SyncInfo {
                head_slot: status.head_slot,
                head_root: status.head_root,
                finalized_epoch: status.finalized_epoch,
                finalized_root: status.finalized_root,
                earliest_available_slot: None,
            },
            StatusMessage::V2(status) => SyncInfo {
                head_slot: status.head_slot,
                head_root: status.head_root,
                finalized_epoch: status.finalized_epoch,
                finalized_root: status.finalized_root,
                earliest_available_slot: Some(status.earliest_available_slot),
            },
        }
    }
}

/// What a peer is recorded as, given its status: as synced, with what it said of its chain, and
/// as nothing where it is on another fork.
pub open spec fn peer_sync_status(remote: StatusMessage, local: StatusMessage) -> Option<
    SyncStatus,
> {
    if remote.digest() == local.digest() {
        Some(SyncStatus::Synced { info: remote.info() })
    } else {
        None
    }
}

/// What to record a peer as, given its status: nothing where the peer is on another fork.
pub fn update_peer_status(remote: &StatusMessage, local: &StatusMessage) -> (result: Option<
    SyncStatus,
>)
    ensures
        result == peer_sync_status(*remote, *local),
{
    let theirs: [u8; 4] = remote.fork_digest();
    let ours: [u8; 4] = local.fork_digest();
    for i in 0..4
        invariant
            theirs@ == remote.digest(),
            ours@ == local.digest(),
            forall|j: int| 0 <= j < i ==> theirs@[j] == ours@[j],
    {
        if theirs[i] != ours[i] {
            return None;
        }
    }
    assert(theirs@ == ours@);
    Some(SyncStatus::Synced { info: remote.sync_info() })
}

/// The status to announce after an attempt to fetch a new one: a failed attempt leaves it as
/// it was.
pub open spec fn refreshed<E>(
    current: StatusMessage,
    fetched: Result<StatusMessage, E>,
) -> StatusMessage {
    match fetched {
        Ok(next) => next,
        Err(_) => current,
    }
}

/// The status to announce after an attempt to fetch a new one, and what to report of the
/// attempt: why it failed, where it did.
pub fn refresh_status<E>(current: StatusMessage, fetched: Result<StatusMessage, E>) -> (result: (
    StatusMessage,
    Option<E>,
))
    ensures
        result.0 == refreshed(current, fetched),
        match fetched {
            Ok(_) => result.1 is None,
            Err(error) => result.1 == Some(error),
        },
{
    match fetched {
        Ok(next) => (next, None),
        Err(error) => (current, Some(error)),
    }
}

/// The status to announce after a row of attempts.
pub open spec fn refreshed_by_all<E>(
    initial: StatusMessage,
    attempts: Seq<Result<StatusMessage, E>>,
) -> StatusMessage
    decreases attempts.len(),
{
    if attempts.len() == 0 {
        initial
    } else {
        refreshed(refreshed_by_all(initial, attempts.drop_last()), attempts.last())
    }
}

/// However many attempts fail, the status that was fetched last is the one that is announced.
pub proof fn the_last_success_is_announced<E>(
    initial: StatusMessage,
    attempts: Seq<Result<StatusMessage, E>>,
    i: int,
)
    requires
        0 <= i < attempts.len(),
        attempts[i] is Ok,
        forall|j: int| i < j < attempts.len() ==> (#[trigger] attempts[j]) is Err,
    ensures
        refreshed_by_all(initial, attempts) == attempts[i]->Ok_0,
    decreases attempts.len(),
{
    if i < attempts.len() - 1 {
        assert(attempts[attempts.len() - 1] is Err);
        the_last_success_is_announced(initial, attempts.drop_last(), i);
    }
}

/// Where every attempt fails, the initial status stays.
pub proof fn failures_change_nothing<E>(
    initial: StatusMessage,
    attempts: Seq<Result<StatusMessage, E>>,
)
    requires
        forall|j: int| 0 <= j < attempts.len() ==> (#[trigger] attempts[j]) is Err,
    ensures
        refreshed_by_all(initial, attempts) == initial,
    decreases attempts.len(),
{
    if attempts.len() > 0 {
        assert(attempts[attempts.len() - 1] is Err);
        failures_change_nothing(initial, attempts.drop_last());
    }
}

/// What is kept of a message of the first version is, field by field, what the peer said; such
/// a message says nothing of the slots that the peer has.
pub proof fn first_versions_are_kept_field_by_field(status: StatusMessageV1, info: SyncInfo)
    requires
        call_ensures(StatusMessage::sync_info, (&StatusMessage::V1(status),), info),
    ensures
        info.head_slot.0 == status.head_slot.0,
        info.head_root.bytes@ == status.head_root.bytes@,
        info.finalized_epoch.0 == status.finalized_epoch.0,
        info.finalized_root.bytes@ == status.finalized_root.bytes@,
        info.earliest_available_slot is None,
{
}

/// What is kept of a message of the second version is, field by field, what the peer said.
pub proof fn second_versions_are_kept_field_by_field(status: StatusMessageV2, info: SyncInfo)
    requires
        call_ensures(StatusMessage::sync_info, (&StatusMessage::V2(status),), info),
    ensures
        info.head_slot.0 == status.head_slot.0,
        info.head_root.bytes@ == status.head_root.bytes@,
        info.finalized_epoch.0 == status.finalized_epoch.0,
        info.finalized_root.bytes@ == status.finalized_root.bytes@,
        info.earliest_available_slot matches Some(slot) && slot.0
            == status.earliest_available_slot.0,
{
}

/// The fork digest of a message is the one that it carries.
pub proof fn messages_carry_their_fork_digest(
    first: StatusMessageV1,
    second: StatusMessageV2,
    digests: ([u8; 4], [u8; 4]),
)
    requires
        call_ensures(StatusMessage::fork_digest, (&StatusMessage::V1(first),), digests.0),
        call_ensures(StatusMessage::fork_digest, (&StatusMessage::V2(second),), digests.1),
    ensures
        digests.0@ == first.fork_digest@,
        digests.1@ == second.fork_digest@,
{
}

/// A peer is recorded exactly where its fork digest is ours, whichever versions the two
/// messages have; it is recorded as synced, and what is kept of it depends on its own message
/// alone.
pub proof fn peers_on_our_fork_are_recorded(
    remote: StatusMessage,
    local: StatusMessage,
    digests: ([u8; 4], [u8; 4]),
    info: SyncInfo,
    result: Option<SyncStatus>,
)
    requires
        call_ensures(update_peer_status, (&remote, &local), result),
        call_ensures(StatusMessage::fork_digest, (&remote,), digests.0),
        call_ensures(StatusMessage::fork_digest, (&local,), digests.1),
        call_ensures(StatusMessage::sync_info, (&remote,), info),
    ensures
        result is Some <==> digests.0@ == digests.1@,
        result matches Some(status) ==> status == (SyncStatus::Synced { info }),
{
}

/// A peer on our fork is recorded with what it said of its own chain, field by field.
pub proof fn peers_are_recorded_field_by_field(
    status: StatusMessageV2,
    local: StatusMessage,
    result: Option<SyncStatus>,
)
    requires
        call_ensures(update_peer_status, (&StatusMessage::V2(status), &local), result),
        result is Some,
    ensures
        result matches Some(SyncStatus::Synced { info }) && info.head_slot.0 == status.head_slot.0
            && info.head_root.bytes@ == status.head_root.bytes@ && info.finalized_epoch.0
            == status.finalized_epoch.0 && info.finalized_root.bytes@
            == status.finalized_root.bytes@ && info.earliest_available_slot == Some(
            status.earliest_available_slot,
        ),
{
}

/// An attempt to fetch a new status that succeeds is announced and not reported; one that fails
/// leaves what is announced as it was, and is reported with its reason.
pub proof fn a_refresh_announces_what_was_fetched<E>(
    current: StatusMessage,
    fetched: Result<StatusMessage, E>,
    result: (StatusMessage, Option<E>),
)
    requires
        call_ensures(refresh_status::<E>, (current, fetched), result),
    ensures
        fetched matches Ok(next) ==> result.0 == next && result.1 is None,
        fetched matches Err(error) ==> result.0 == current && result.1 == Some(error),
{
}

} // verus!

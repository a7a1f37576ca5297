//! Slots and epochs of the beacon chain.

use vstd::arithmetic::div_mod::lemma_fundamental_div_mod;
use vstd::prelude::*;

verus! {

/// How many slots an epoch has on Mainnet.
pub const SLOTS_PER_EPOCH: u64 = 32;

/// A slot of the beacon chain.
#[derive(Clone, Copy, Debug, PartialEq, Eq, Structural)]
pub struct Slot(pub u64);

/// An epoch of the beacon chain.
#[derive(Clone, Copy, Debug, PartialEq, Eq, Structural)]
pub struct Epoch(pub u64);

impl Slot {
    /// The epoch that the slot lies in.
    pub open spec fn epoch_spec(self) -> Epoch {
        Epoch((self.0 / SLOTS_PER_EPOCH) as u64)
    }

    /// The epoch that the slot lies in.
    pub fn epoch(self) -> (result: Epoch)
        ensures
            result == self.epoch_spec(),
    {
        Epoch(self.0 / SLOTS_PER_EPOCH)
    }

    /// The slot after this one; the last slot of all stays where it is.
    pub open spec fn next_spec(self) -> Slot {
        if self.0 == u64::MAX {
            self
        } else {
            Slot((self.0 + 1) as u64)
        }
    }

    /// The slot after this one; the last slot of all stays where it is.
    pub fn next(self) -> (result: Slot)
        ensures
            result == self.next_spec(),
    {
        Slot(self.0.saturating_add(1))
    }
}

/// Why the system clock gives no slot.
#[derive(Clone, Copy, Debug, PartialEq, Eq, Structural)]
pub enum ClockError {
    /// The clock stands before the Unix epoch.
    BeforeUnixEpoch,
    /// The clock stands before the genesis of the beacon chain.
    BeforeGenesis,
}

impl ClockError {
    /// What is wrong with the clock, in words.
    pub open spec fn words(self) -> Seq<char> {
        match self {
            ClockError::BeforeUnixEpoch => "second time provided was later than self"@,
            ClockError::BeforeGenesis =>
                "system clock predates Ethereum Mainnet beacon genesis"@,
        }
    }

    /// What is wrong with the clock, in words.
    pub fn message(&self) -> (result: String)
        ensures
            result@ == self.words(),
    {
        match self {
            ClockError::BeforeUnixEpoch => "second time provided was later than self".to_owned(),
            ClockError::BeforeGenesis =>
                "system clock predates Ethereum Mainnet beacon genesis".to_owned(),
        }
    }
}

/// The slot at `now`, in seconds since the Unix epoch; `None` is a clock that stands before it.
pub open spec fn slot_at(now: Option<u64>, genesis_time: u64, seconds_per_slot: u64) -> Result<
    Slot,
    ClockError,
> {
    match now {
        None => Err(ClockError::BeforeUnixEpoch),
        Some(seconds) => if seconds < genesis_time {
            Err(ClockError::BeforeGenesis)
        } else {
            Ok(Slot(((seconds - genesis_time) / seconds_per_slot as int) as u64))
        },
    }
}

/// The slot at `now`, in seconds since the Unix epoch; `None` is a clock that stands before it.
pub fn current_slot(now: Option<u64>, genesis_time: u64, seconds_per_slot: u64) -> (result: Result<
    Slot,
    ClockError,
>)
    requires
        now matches Some(seconds) && seconds >= genesis_time ==> seconds_per_slot > 0,
    ensures
        result == slot_at(now, genesis_time, seconds_per_slot),
{
    match now {
        None => Err(ClockError::BeforeUnixEpoch),
        Some(seconds) => if seconds < genesis_time {
            Err(ClockError::BeforeGenesis)
        } else {
            Ok(Slot((seconds - genesis_time) / seconds_per_slot))
        },
    }
}

/// The current slot has begun and the next one has not.
pub proof fn slot_covers_now(now: u64, genesis_time: u64, seconds_per_slot: u64)
    requires
        now >= genesis_time,
        seconds_per_slot > 0,
    ensures
        slot_at(Some(now), genesis_time, seconds_per_slot) matches Ok(slot) && genesis_time
            + slot.0 * seconds_per_slot <= now < genesis_time + (slot.0 + 1) * seconds_per_slot,
{
    let elapsed = now - genesis_time;
    let length = seconds_per_slot as int;
    lemma_fundamental_div_mod(elapsed, length);
    let slot = elapsed / length;
    assert(0 <= slot <= elapsed) by (nonlinear_arith)
        requires
            slot == elapsed / length,
            elapsed >= 0,
            length > 0,
    ;
    assert(slot * length == length * slot) by (nonlinear_arith);
    assert((slot + 1) * length == slot * length + length) by (nonlinear_arith);
}

/// The slot does not go back while the clock goes on.
pub proof fn slots_do_not_go_back(
    earlier: u64,
    later: u64,
    genesis_time: u64,
    seconds_per_slot: u64,
)
    requires
        genesis_time <= earlier <= later,
        seconds_per_slot > 0,
    ensures
        slot_at(Some(earlier), genesis_time, seconds_per_slot)->Ok_0.0 <= slot_at(
            Some(later),
            genesis_time,
            seconds_per_slot,
        )->Ok_0.0,
{
    slot_covers_now(earlier, genesis_time, seconds_per_slot);
    slot_covers_now(later, genesis_time, seconds_per_slot);
    let a = slot_at(Some(earlier), genesis_time, seconds_per_slot)->Ok_0.0 as int;
    let b = slot_at(Some(later), genesis_time, seconds_per_slot)->Ok_0.0 as int;
    let length = seconds_per_slot as int;
    assert(a <= b) by (nonlinear_arith)
        requires
            a * length <= earlier - genesis_time,
            later - genesis_time < (b + 1) * length,
            earlier <= later,
            length > 0,
    ;
}

/// One slot length later the slot is the next one.
pub proof fn a_slot_later_is_the_next_slot(now: u64, genesis_time: u64, seconds_per_slot: u64)
    requires
        now >= genesis_time,
        seconds_per_slot > 0,
        now + seconds_per_slot <= u64::MAX,
    ensures
        slot_at(
            Some((now + seconds_per_slot) as u64),
            genesis_time,
            seconds_per_slot,
        )->Ok_0.0 == slot_at(Some(now), genesis_time, seconds_per_slot)->Ok_0.0 + 1,
{
    let later = (now + seconds_per_slot) as u64;
    slot_covers_now(now, genesis_time, seconds_per_slot);
    slot_covers_now(later, genesis_time, seconds_per_slot);
    let a = slot_at(Some(now), genesis_time, seconds_per_slot)->Ok_0.0 as int;
    let b = slot_at(Some(later), genesis_time, seconds_per_slot)->Ok_0.0 as int;
    let length = seconds_per_slot as int;
    let elapsed = now - genesis_time;
    assert(b == a + 1) by (nonlinear_arith)
        requires
            a * length <= elapsed < (a + 1) * length,
            b * length <= elapsed + length < (b + 1) * length,
            length > 0,
    ;
}

/// There is a slot exactly from genesis on; before that, and before the Unix epoch, the clock is
/// refused for what it is.
pub proof fn there_is_a_slot_from_genesis_on(
    now: Option<u64>,
    genesis_time: u64,
    seconds_per_slot: u64,
    result: Result<Slot, ClockError>,
)
    requires
        call_ensures(current_slot, (now, genesis_time, seconds_per_slot), result),
    ensures
        result is Ok <==> (now matches Some(seconds) && seconds >= genesis_time),
        now is None ==> result == Err::<Slot, ClockError>(ClockError::BeforeUnixEpoch),
        now matches Some(seconds) ==> seconds < genesis_time ==> result == Err::<Slot, ClockError>(
            ClockError::BeforeGenesis,
        ),
{
}

/// The slot that is read from the clock has begun at that time, and the next one has not.
pub proof fn the_slot_read_covers_now(
    now: u64,
    genesis_time: u64,
    seconds_per_slot: u64,
    result: Result<Slot, ClockError>,
)
    requires
        call_ensures(current_slot, (Some(now), genesis_time, seconds_per_slot), result),
        now >= genesis_time,
        seconds_per_slot > 0,
    ensures
        result matches Ok(slot) && genesis_time + slot.0 * seconds_per_slot <= now < genesis_time
            + (slot.0 + 1) * seconds_per_slot,
{
    slot_covers_now(now, genesis_time, seconds_per_slot);
}

/// An epoch has 32 slots, and a slot lies in the epoch that it is said to lie in.
pub proof fn slots_lie_in_their_epoch(slot: Slot, epoch: Epoch)
    requires
        call_ensures(Slot::epoch, (slot,), epoch),
    ensures
        32 * epoch.0 <= slot.0 < 32 * epoch.0 + 32,
{
}

/// The next slot comes right after a slot, except that there is none after the last.
pub proof fn the_next_slot_comes_right_after(slot: Slot, next: Slot)
    requires
        call_ensures(Slot::next, (slot,), next),
    ensures
        slot.0 < 0xffff_ffff_ffff_ffff ==> next.0 == slot.0 + 1,
        slot.0 == 0xffff_ffff_ffff_ffff ==> next.0 == slot.0,
{
}

} // verus!

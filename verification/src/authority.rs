//! Conflict resolution for prop ownership.
//!
//! Every prop carries an [`Authority`] record `{player, counter}`. An
//! incoming update is accepted exactly when the stored counter is at most
//! the incoming one; an accepted update replaces the whole record (so an
//! owner can renew its authority without changing hands) and applies the
//! transform fields alongside it. A stale update (incoming counter strictly
//! below the stored one) changes nothing. A local claim bumps the counter by
//! one and takes ownership unilaterally; ties between concurrent claims are
//! resolved by whichever record is applied last.

use vstd::prelude::*;

use crate::ids::PlayerUuid;
use crate::messages::{Authority, AuthorityV, UpdateProp, UpdatePropV};
use crate::world::{PropEntry, PropEntryV};

verus! {

/// Whether an incoming authority record wins against the stored one.
pub open spec fn accepts(current: AuthorityV, incoming: AuthorityV) -> bool {
    current.counter <= incoming.counter
}

/// The state of one prop after one inbound update addressed to it: the
/// authority record and the transform are replaced together when the update
/// is accepted, and nothing changes when it is stale.
pub open spec fn apply_update_spec(e: PropEntryV, m: UpdatePropV) -> PropEntryV {
    if accepts(e.authority, m.authority) {
        PropEntryV {
            authority: m.authority,
            position: m.position,
            rotation: m.rotation,
            linear_velocity: m.linear_velocity,
            angular_velocity: m.angular_velocity,
            changed: true,
            ..e
        }
    } else {
        e
    }
}

/// Applies one inbound update to a prop it addresses.
pub fn apply_update(e: &mut PropEntry, m: &UpdateProp)
    ensures
        final(e)@ == apply_update_spec(old(e)@, m@),
{
    if e.authority.counter <= m.authority.counter {
        e.authority = m.authority.clone();
        e.position = m.position;
        e.rotation = m.rotation;
        e.linear_velocity = m.linear_velocity;
        e.angular_velocity = m.angular_velocity;
        e.changed = true;
    }
}

/// The state of one prop after a whole sequence of inbound updates, applied
/// in arrival order.
pub open spec fn apply_updates_spec(e: PropEntryV, ms: Seq<UpdatePropV>) -> PropEntryV
    decreases ms.len(),
{
    if ms.len() == 0 {
        e
    } else {
        apply_updates_spec(apply_update_spec(e, ms[0]), ms.skip(1))
    }
}

/// Splitting a sequence of updates applies the two halves in order.
pub proof fn lemma_apply_updates_concat(e: PropEntryV, ms1: Seq<UpdatePropV>, ms2: Seq<UpdatePropV>)
    ensures
        apply_updates_spec(e, ms1 + ms2) == apply_updates_spec(apply_updates_spec(e, ms1), ms2),
    decreases ms1.len(),
{
    if ms1.len() == 0 {
        assert(ms1 + ms2 =~= ms2);
    } else {
        assert((ms1 + ms2)[0] == ms1[0]);
        assert((ms1 + ms2).skip(1) =~= ms1.skip(1) + ms2);
        lemma_apply_updates_concat(apply_update_spec(e, ms1[0]), ms1.skip(1), ms2);
    }
}

/// A whole sequence of updates never lowers the stored counter.
pub proof fn lemma_counter_nondecreasing(e: PropEntryV, ms: Seq<UpdatePropV>)
    ensures
        e.authority.counter <= apply_updates_spec(e, ms).authority.counter,
    decreases ms.len(),
{
    if ms.len() > 0 {
        lemma_counter_nondecreasing(apply_update_spec(e, ms[0]), ms.skip(1));
    }
}

/// Authority monotonicity: across any sequence of inbound updates to one
/// prop, the stored counter is non-decreasing over time, whatever mixture of
/// stale and fresh updates arrives.
pub proof fn lemma_authority_monotonic(e: PropEntryV, ms: Seq<UpdatePropV>, i: int, j: int)
    requires
        0 <= i <= j <= ms.len(),
    ensures
        apply_updates_spec(e, ms.take(i)).authority.counter <= apply_updates_spec(
            e,
            ms.take(j),
        ).authority.counter,
{
    assert(ms.take(j) =~= ms.take(i) + ms.take(j).skip(i));
    lemma_apply_updates_concat(e, ms.take(i), ms.take(j).skip(i));
    lemma_counter_nondecreasing(apply_updates_spec(e, ms.take(i)), ms.take(j).skip(i));
}

/// Stale rejection: an update whose counter is strictly below the stored one
/// changes neither the authority record nor any transform field.
pub proof fn lemma_stale_rejected(e: PropEntryV, m: UpdatePropV)
    requires
        m.authority.counter < e.authority.counter,
    ensures
        apply_update_spec(e, m) == e,
{
}

/// The state of a held prop after the local claim rule: ownership taken,
/// counter bumped, and the prop marked locally held.
pub open spec fn claim_spec(e: PropEntryV, local: Seq<char>) -> PropEntryV {
    PropEntryV {
        authority: AuthorityV { player: local, counter: (e.authority.counter + 1) as u64 },
        local: true,
        ..e
    }
}

/// What the ownership pass over a held prop decided, so the embedding layer
/// can mirror it in the engine.
#[derive(Clone, Copy, Debug, PartialEq, Eq, Structural)]
pub enum PickupAction {
    /// The prop was owned elsewhere and this peer now claims it; broadcast
    /// follows on the next publish tick.
    Claim,
    /// Ownership moved to another peer while the prop was held locally: the
    /// pending interaction must be cancelled and the held object released.
    Release,
    /// Nothing changed.
    Keep,
}

/// The ownership pass over the one prop the local player is pulling or
/// holding: claim it when another peer owns it and it is not yet held
/// locally; release it when it is held locally but ownership has moved away.
pub fn update_prop_authority(e: &mut PropEntry, local: &PlayerUuid) -> (r: PickupAction)
    requires
        !old(e)@.local && old(e)@.authority.player != local@ ==> old(e)@.authority.counter
            < u64::MAX,
    ensures
        old(e)@.local && old(e)@.authority.player != local@ ==> r == PickupAction::Release
            && final(e)@ == (PropEntryV { local: false, ..old(e)@ }),
        !old(e)@.local && old(e)@.authority.player != local@ ==> r == PickupAction::Claim
            && final(e)@ == claim_spec(old(e)@, local@),
        old(e)@.authority.player == local@ ==> r == PickupAction::Keep && *final(e) == *old(e),
{
    if e.local {
        if !(e.authority.player == *local) {
            e.local = false;
            return PickupAction::Release;
        }
        PickupAction::Keep
    } else {
        if !(e.authority.player == *local) {
            e.authority.counter = e.authority.counter + 1;
            e.authority.player = local.clone();
            e.local = true;
            return PickupAction::Claim;
        }
        PickupAction::Keep
    }
}

} // verus!

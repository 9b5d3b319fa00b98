//! Outbound replication: once per tick, the local player's state and the
//! state of every locally owned, changed prop are published to all peers
//! over the reliable channel.

use vstd::prelude::*;

use crate::ids::{PeerId, PlayerUuid};
use crate::messages::{
    LinearVelocity, Message, PlayerPosition, Position, Rotation, UpdateProp, UpdatePropV,
};
use crate::world::{lemma_props_view_index, props_view, updates_view, PropEntry, PropEntryV};

verus! {

/// The local player's state as sampled from the engine this tick.
#[derive(Clone, Debug)]
pub struct LocalPlayerSample {
    pub uuid: PlayerUuid,
    pub position: Position,
    pub rotation: Rotation,
    pub linear_velocity: LinearVelocity,
}

/// Builds the position broadcast for the local player. Nothing is published
/// while the transport has no peer id yet or there is no local player to
/// sample: both are benign not-yet-ready states and the tick is a no-op.
pub fn sync_local_player_to_network(
    socket_id: Option<PeerId>,
    local_player: Option<&LocalPlayerSample>,
) -> (r: Option<Message>)
    ensures
        match (socket_id, local_player) {
            (Some(id), Some(s)) => r matches Some(m) && m@ == crate::messages::MessageV::PlayerPosition(
                crate::messages::PlayerPositionV {
                    player_uuid: s.uuid@,
                    peer_id: id,
                    position: s.position,
                    rotation: s.rotation,
                    linear_velocity: s.linear_velocity,
                },
            ),
            _ => r is None,
        },
{
    match (socket_id, local_player) {
        (Some(id), Some(s)) => Some(
            Message::PlayerPosition(
                PlayerPosition {
                    player_uuid: s.uuid.clone(),
                    peer_id: id,
                    position: s.position,
                    rotation: s.rotation,
                    linear_velocity: s.linear_velocity,
                },
            ),
        ),
        _ => None,
    }
}

/// A prop is published this tick exactly when its transform changed since
/// the last publish and the local player holds its authority.
pub open spec fn publishable(e: PropEntryV, local: Seq<char>) -> bool {
    e.changed && e.authority.player == local
}

/// The update message a prop entry publishes.
pub open spec fn update_of(e: PropEntryV) -> UpdatePropV {
    UpdatePropV {
        authority: e.authority,
        prop_uuid: e.prop_uuid,
        position: e.position,
        rotation: e.rotation,
        linear_velocity: e.linear_velocity,
        angular_velocity: e.angular_velocity,
    }
}

/// The updates published for a prop table, in table order.
pub open spec fn props_to_publish(ps: Seq<PropEntryV>, local: Seq<char>) -> Seq<UpdatePropV>
    decreases ps.len(),
{
    if ps.len() == 0 {
        Seq::empty()
    } else {
        (if publishable(ps[0], local) {
            seq![update_of(ps[0])]
        } else {
            Seq::empty()
        }) + props_to_publish(ps.skip(1), local)
    }
}

pub proof fn lemma_props_to_publish_concat(a: Seq<PropEntryV>, b: Seq<PropEntryV>, local: Seq<char>)
    ensures
        props_to_publish(a + b, local) == props_to_publish(a, local) + props_to_publish(b, local),
    decreases a.len(),
{
    if a.len() == 0 {
        assert(a + b =~= b);
        assert(props_to_publish(a, local) =~= Seq::<UpdatePropV>::empty());
        assert(props_to_publish(a, local) + props_to_publish(b, local) =~= props_to_publish(
            b,
            local,
        ));
    } else {
        assert((a + b)[0] == a[0]);
        assert((a + b).skip(1) =~= a.skip(1) + b);
        lemma_props_to_publish_concat(a.skip(1), b, local);
        let head = if publishable(a[0], local) {
            seq![update_of(a[0])]
        } else {
            Seq::<UpdatePropV>::empty()
        };
        assert(head + (props_to_publish(a.skip(1), local) + props_to_publish(b, local)) =~= (head
            + props_to_publish(a.skip(1), local)) + props_to_publish(b, local));
    }
}

pub proof fn lemma_props_to_publish_one(e: PropEntryV, local: Seq<char>)
    ensures
        props_to_publish(seq![e], local) == if publishable(e, local) {
            seq![update_of(e)]
        } else {
            Seq::<UpdatePropV>::empty()
        },
{
    assert(seq![e].skip(1) =~= Seq::<PropEntryV>::empty());
    assert(props_to_publish(Seq::<PropEntryV>::empty(), local) =~= Seq::<UpdatePropV>::empty());
    if publishable(e, local) {
        assert(seq![update_of(e)] + Seq::<UpdatePropV>::empty() =~= seq![update_of(e)]);
    } else {
        assert(Seq::<UpdatePropV>::empty() + Seq::<UpdatePropV>::empty()
            =~= Seq::<UpdatePropV>::empty());
    }
}

/// The prop table once the publish tick has run: every change mark is
/// consumed, so an unchanged prop is not published again next tick.
pub open spec fn cleared(ps: Seq<PropEntryV>) -> Seq<PropEntryV> {
    ps.map_values(|e: PropEntryV| PropEntryV { changed: false, ..e })
}

/// Collects the update broadcast for every locally owned prop whose
/// transform changed since the last publish tick, and consumes the change
/// marks. Nothing is published (and nothing consumed) while the transport
/// has no peer id or there is no local player: the tick is a no-op.
pub fn sync_local_props_to_network(
    socket_id: Option<PeerId>,
    local_player: Option<&PlayerUuid>,
    props: &mut Vec<PropEntry>,
) -> (msgs: Vec<UpdateProp>)
    ensures
        match (socket_id, local_player) {
            (Some(_), Some(local)) => {
                &&& updates_view(msgs@) == props_to_publish(props_view(old(props)@), local@)
                &&& props_view(final(props)@) == cleared(props_view(old(props)@))
            },
            _ => msgs@.len() == 0 && final(props)@ == old(props)@,
        },
{
    broadcast use lemma_props_view_index;

    let local = match (socket_id, local_player) {
        (Some(_), Some(local)) => local,
        _ => {
            return Vec::new();
        },
    };
    let ghost start = props_view(props@);
    let mut msgs: Vec<UpdateProp> = Vec::new();
    let mut j: usize = 0;
    while j < props.len()
        invariant
            j <= props.len(),
            props@.len() == start.len(),
            updates_view(msgs@) == props_to_publish(start.take(j as int), local@),
            forall|k: int|
                0 <= k < j ==> props_view(props@)[k] == (PropEntryV { changed: false, ..start[k] }),
            forall|k: int| j <= k < start.len() ==> props_view(props@)[k] == start[k],
        decreases props.len() - j,
    {
        let ghost before = props@;
        let ghost msgs_before = updates_view(msgs@);
        proof {
            assert(start.take(j + 1) =~= start.take(j as int) + seq![start[j as int]]);
            lemma_props_to_publish_concat(start.take(j as int), seq![start[j as int]], local@);
            lemma_props_to_publish_one(start[j as int], local@);
        }
        if props[j].changed && props[j].authority.player == *local {
            let e = props[j].clone();
            let msg = UpdateProp {
                authority: e.authority,
                prop_uuid: e.prop_uuid,
                position: e.position,
                rotation: e.rotation,
                linear_velocity: e.linear_velocity,
                angular_velocity: e.angular_velocity,
            };
            msgs.push(msg);
            proof {
                assert(updates_view(msgs@) =~= msgs_before.push(update_of(start[j as int])));
                assert(updates_view(msgs@) =~= props_to_publish(start.take(j + 1), local@));
            }
        } else {
            proof {
                assert(updates_view(msgs@) =~= props_to_publish(start.take(j + 1), local@));
            }
        }
        let mut e2 = props[j].clone();
        e2.changed = false;
        props[j] = e2;
        proof {
            assert(before[j as int]@ == start[j as int]);
            assert(forall|k: int| 0 <= k < before.len() && k != j ==> props@[k] == before[k]);
            assert forall|k: int| 0 <= k < j + 1 implies props_view(props@)[k] == (PropEntryV {
                changed: false,
                ..start[k]
            }) by {
                assert(props_view(props@)[k] == props@[k]@);
                if k < j {
                    assert(props@[k] == before[k]);
                    assert(props_view(before)[k] == before[k]@);
                }
            }
        }
        j += 1;
    }
    proof {
        assert(start.take(start.len() as int) =~= start);
        assert(props_view(props@) =~= cleared(start));
    }
    msgs
}

} // verus!

//! The inbound half of one tick, as one literal ordered call sequence:
//! spawn announcements first, then prop updates, then player positions,
//! then transfer messages. The embedding layer routes one tick's packets
//! into a [`RoutedBatch`] and hands the whole batch here; what comes back is
//! everything it must mirror in the engine (a stand-in to spawn, assembled
//! avatars to load).

use vstd::prelude::*;

use crate::messages::{Position, SpawnCubeV, UpdateProp, PlayerPosition, SpawnCube, AvatarPartEnum};
use crate::router::RoutedBatch;
use crate::transfer::{handle_avatar_parts, parts_view, transfer_fold, TransferSession};
use crate::world::{
    apply_player_positions, apply_updates_to_props, handle_spawn_cube, new_prop_entry,
    player_position, players_view, positions_view, props_view, spawn_cubes_view, update_prop,
    updates_view, ExternalPlayer, PlayerEntry, PropEntry,
};

verus! {

/// What the engine must mirror after one inbound pass.
pub struct InboundEffects {
    /// A remote player seen for the first time: the engine spawns its
    /// stand-in entity and audio sink.
    pub spawned: Option<ExternalPlayer>,
    /// Every avatar whose transfer completed this tick, assembled, in
    /// arrival order: each goes to the asset store.
    pub completed_avatars: Vec<Vec<u8>>,
}

/// Applies one routed batch to the replicated world, in the dispatcher's
/// order: spawns, then prop updates, then player positions, then transfer
/// messages.
pub fn apply_inbound(
    batch: &RoutedBatch,
    props: &mut Vec<PropEntry>,
    players: &mut Vec<PlayerEntry>,
    session: &mut TransferSession,
    spawn_at: Position,
) -> (r: InboundEffects)
    requires
        old(session).wf(),
    ensures
        final(session).wf(),
        ({
            let props1 = props_view(old(props)@) + batch@.spawn_cubes.map_values(
                |m: SpawnCubeV| new_prop_entry(m),
            );
            let props2 = apply_updates_to_props(props1, batch@.update_props);
            let (players1, spawned) = apply_player_positions(
                players_view(old(players)@),
                batch@.player_positions,
                spawn_at,
            );
            let (s2, players2, done) = transfer_fold(old(session)@, players1, batch@.avatar_parts);
            &&& props_view(final(props)@) == props2
            &&& players_view(final(players)@) == players2
            &&& final(session)@ == s2
            &&& match (r.spawned, spawned) {
                (Some(a), Some(b)) => a@ == b,
                (None, None) => true,
                _ => false,
            }
            &&& r.completed_avatars@.map_values(|b: Vec<u8>| b@) == done
        }),
{
    proof {
        assert(batch@.spawn_cubes =~= spawn_cubes_view(batch.spawn_cubes@));
        assert(batch@.update_props =~= updates_view(batch.update_props@));
        assert(batch@.player_positions =~= positions_view(batch.player_positions@));
        assert(batch@.avatar_parts =~= parts_view(batch.avatar_parts@));
    }
    handle_spawn_cube(&batch.spawn_cubes, props);
    update_prop(&batch.update_props, props);
    let spawned = player_position(&batch.player_positions, players, spawn_at);
    let completed_avatars = handle_avatar_parts(&batch.avatar_parts, session, players);
    InboundEffects { spawned, completed_avatars }
}

} // verus!

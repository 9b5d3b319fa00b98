//! The locally replicated world: the table of shared props and the table of
//! remote players, with the tick operations that apply inbound messages and
//! tear down state for disconnected peers.
//!
//! Entities live in plain vectors; a message addresses an entity by its
//! uuid, exactly as the engine-side queries did.

use vstd::prelude::*;

use crate::ids::{PeerId, PlayerUuid, PropUuid};
use crate::messages::{
    AngularVelocity, Authority, AuthorityV, LinearVelocity, PlayerPosition, PlayerPositionV,
    Position, Rotation, SpawnCube, SpawnCubeV, UpdateProp, UpdatePropV,
};
use crate::transfer::LoadingBar;

verus! {

/// Bit pattern of 1.0 in the 32-bit transform encoding: the scalar component
/// of the identity rotation a freshly spawned prop starts with.
pub const QUAT_UNIT_BITS: u32 = 0x3F80_0000;

/// One shared prop as this peer sees it: identity, ownership, transform, and
/// the local bookkeeping flags.
#[derive(Debug)]
pub struct PropEntry {
    pub prop_uuid: PropUuid,
    pub authority: Authority,
    pub position: Position,
    pub rotation: Rotation,
    pub linear_velocity: LinearVelocity,
    pub angular_velocity: AngularVelocity,
    /// Whether this peer currently holds the prop through a local
    /// interaction (the engine's held-object marker).
    pub local: bool,
    /// Whether the transform was written since the last publish tick.
    pub changed: bool,
}

pub ghost struct PropEntryV {
    pub prop_uuid: Seq<char>,
    pub authority: AuthorityV,
    pub position: Position,
    pub rotation: Rotation,
    pub linear_velocity: LinearVelocity,
    pub angular_velocity: AngularVelocity,
    pub local: bool,
    pub changed: bool,
}

impl View for PropEntry {
    type V = PropEntryV;

    open spec fn view(&self) -> PropEntryV {
        PropEntryV {
            prop_uuid: self.prop_uuid@,
            authority: self.authority@,
            position: self.position,
            rotation: self.rotation,
            linear_velocity: self.linear_velocity,
            angular_velocity: self.angular_velocity,
            local: self.local,
            changed: self.changed,
        }
    }
}

impl Clone for PropEntry {
    fn clone(&self) -> (r: PropEntry)
        ensures
            r@ == self@,
    {
        PropEntry {
            prop_uuid: self.prop_uuid.clone(),
            authority: self.authority.clone(),
            position: self.position,
            rotation: self.rotation,
            linear_velocity: self.linear_velocity,
            angular_velocity: self.angular_velocity,
            local: self.local,
            changed: self.changed,
        }
    }
}

/// The locally spawned stand-in for a remote player: its cross-peer identity
/// and the transport peer it arrived through.
#[derive(Clone, Debug)]
pub struct ExternalPlayer {
    pub uuid: PlayerUuid,
    pub peer_id: PeerId,
}

pub ghost struct ExternalPlayerV {
    pub uuid: Seq<char>,
    pub peer_id: PeerId,
}

impl View for ExternalPlayer {
    type V = ExternalPlayerV;

    open spec fn view(&self) -> ExternalPlayerV {
        ExternalPlayerV { uuid: self.uuid@, peer_id: self.peer_id }
    }
}

/// A remote player's locally maintained state.
#[derive(Debug)]
pub struct PlayerEntry {
    pub player: ExternalPlayer,
    pub position: Position,
    pub rotation: Rotation,
    pub linear_velocity: LinearVelocity,
    /// Progress of an inbound avatar transfer from this player, if one is
    /// being shown.
    pub loading_bar: Option<LoadingBar>,
}

pub ghost struct PlayerEntryV {
    pub player: ExternalPlayerV,
    pub position: Position,
    pub rotation: Rotation,
    pub linear_velocity: LinearVelocity,
    pub loading_bar: Option<LoadingBar>,
}

impl View for PlayerEntry {
    type V = PlayerEntryV;

    open spec fn view(&self) -> PlayerEntryV {
        PlayerEntryV {
            player: self.player@,
            position: self.position,
            rotation: self.rotation,
            linear_velocity: self.linear_velocity,
            loading_bar: self.loading_bar,
        }
    }
}

impl Clone for PlayerEntry {
    fn clone(&self) -> (r: PlayerEntry)
        ensures
            r@ == self@,
    {
        PlayerEntry {
            player: ExternalPlayer {
                uuid: self.player.uuid.clone(),
                peer_id: self.player.peer_id,
            },
            position: self.position,
            rotation: self.rotation,
            linear_velocity: self.linear_velocity,
            loading_bar: self.loading_bar,
        }
    }
}

/// The views of a table of props.
pub open spec fn props_view(props: Seq<PropEntry>) -> Seq<PropEntryV> {
    props.map_values(|e: PropEntry| e@)
}

pub broadcast proof fn lemma_props_view_index(props: Seq<PropEntry>, k: int)
    requires
        0 <= k < props.len(),
    ensures
        #[trigger] props_view(props)[k] == props[k]@,
{
}

/// The views of a table of players.
pub open spec fn players_view(players: Seq<PlayerEntry>) -> Seq<PlayerEntryV> {
    players.map_values(|e: PlayerEntry| e@)
}

pub broadcast proof fn lemma_players_view_index(players: Seq<PlayerEntry>, k: int)
    requires
        0 <= k < players.len(),
    ensures
        #[trigger] players_view(players)[k] == players[k]@,
{
}

pub open spec fn updates_view(events: Seq<UpdateProp>) -> Seq<UpdatePropV> {
    events.map_values(|m: UpdateProp| m@)
}

pub open spec fn positions_view(events: Seq<PlayerPosition>) -> Seq<PlayerPositionV> {
    events.map_values(|m: PlayerPosition| m@)
}

pub open spec fn spawn_cubes_view(events: Seq<SpawnCube>) -> Seq<SpawnCubeV> {
    events.map_values(|m: SpawnCube| m@)
}

// ---------------------------------------------------------------------------
// Inbound prop updates
// ---------------------------------------------------------------------------

/// One inbound update hits every prop whose uuid it names and leaves the
/// others alone.
pub open spec fn apply_update_to_props(ps: Seq<PropEntryV>, m: UpdatePropV) -> Seq<PropEntryV> {
    ps.map_values(
        |e: PropEntryV|
            if e.prop_uuid == m.prop_uuid {
                crate::authority::apply_update_spec(e, m)
            } else {
                e
            },
    )
}

/// The prop table after a batch of inbound updates, applied in arrival order.
pub open spec fn apply_updates_to_props(ps: Seq<PropEntryV>, ms: Seq<UpdatePropV>) -> Seq<
    PropEntryV,
>
    decreases ms.len(),
{
    if ms.len() == 0 {
        ps
    } else {
        apply_updates_to_props(apply_update_to_props(ps, ms[0]), ms.skip(1))
    }
}

pub proof fn lemma_apply_updates_to_props_concat(
    ps: Seq<PropEntryV>,
    ms1: Seq<UpdatePropV>,
    ms2: Seq<UpdatePropV>,
)
    ensures
        apply_updates_to_props(ps, ms1 + ms2) == apply_updates_to_props(
            apply_updates_to_props(ps, ms1),
            ms2,
        ),
    decreases ms1.len(),
{
    if ms1.len() == 0 {
        assert(ms1 + ms2 =~= ms2);
    } else {
        assert((ms1 + ms2)[0] == ms1[0]);
        assert((ms1 + ms2).skip(1) =~= ms1.skip(1) + ms2);
        lemma_apply_updates_to_props_concat(apply_update_to_props(ps, ms1[0]), ms1.skip(1), ms2);
    }
}

pub proof fn lemma_apply_updates_to_props_one(ps: Seq<PropEntryV>, m: UpdatePropV)
    ensures
        apply_updates_to_props(ps, seq![m]) == apply_update_to_props(ps, m),
{
    assert(seq![m].skip(1) =~= Seq::<UpdatePropV>::empty());
    assert(apply_updates_to_props(apply_update_to_props(ps, m), Seq::<UpdatePropV>::empty())
        == apply_update_to_props(ps, m));
}

/// Applies a batch of inbound prop updates to the prop table, in arrival
/// order: each update is matched against every prop by uuid and resolved by
/// the authority rule.
pub fn update_prop(events: &Vec<UpdateProp>, props: &mut Vec<PropEntry>)
    ensures
        props_view(final(props)@) == apply_updates_to_props(
            props_view(old(props)@),
            updates_view(events@),
        ),
{
    broadcast use lemma_props_view_index;
    let ghost all_events = updates_view(events@);
    let mut i: usize = 0;
    while i < events.len()
        invariant
            i <= events.len(),
            all_events == updates_view(events@),
            all_events.len() == events@.len(),
            props_view(props@) == apply_updates_to_props(
                props_view(old(props)@),
                all_events.take(i as int),
            ),
        decreases events.len() - i,
    {
        let m = &events[i];
        let ghost mv = m@;
        let ghost start = props_view(props@);
        let mut j: usize = 0;
        while j < props.len()
            invariant
                j <= props.len(),
                mv == m@,
                props@.len() == start.len(),
                forall|k: int|
                    0 <= k < j ==> props_view(props@)[k] == (if start[k].prop_uuid == mv.prop_uuid {
                        crate::authority::apply_update_spec(start[k], mv)
                    } else {
                        start[k]
                    }),
                forall|k: int| j <= k < start.len() ==> props_view(props@)[k] == start[k],
            decreases props.len() - j,
        {
            let ghost before = props@;
            if props[j].prop_uuid == m.prop_uuid {
                let mut e = props[j].clone();
                crate::authority::apply_update(&mut e, m);
                props[j] = e;
                proof {
                    assert(before[j as int]@ == start[j as int]);
                    assert(forall|k: int|
                        0 <= k < before.len() && k != j ==> props@[k] == before[k]);
                    assert forall|k: int| 0 <= k < j + 1 implies props_view(props@)[k] == (
                    if start[k].prop_uuid == mv.prop_uuid {
                        crate::authority::apply_update_spec(start[k], mv)
                    } else {
                        start[k]
                    }) by {
                        assert(props_view(props@)[k] == props@[k]@);
                        if k < j {
                            assert(props@[k] == before[k]);
                            assert(props_view(before)[k] == before[k]@);
                        }
                    }
                }
            } else {
                proof {
                    assert(before[j as int]@ == start[j as int]);
                    assert forall|k: int| 0 <= k < j + 1 implies props_view(props@)[k] == (
                    if start[k].prop_uuid == mv.prop_uuid {
                        crate::authority::apply_update_spec(start[k], mv)
                    } else {
                        start[k]
                    }) by {
                        assert(props_view(props@)[k] == props@[k]@);
                        if k < j {
                            assert(props_view(before)[k] == before[k]@);
                        }
                    }
                }
            }
            j += 1;
        }
        proof {
            assert(props_view(props@) =~= apply_update_to_props(start, mv));
            assert(all_events.take(i + 1) =~= all_events.take(i as int) + seq![mv]);
            lemma_apply_updates_to_props_concat(
                props_view(old(props)@),
                all_events.take(i as int),
                seq![mv],
            );
            lemma_apply_updates_to_props_one(
                apply_updates_to_props(props_view(old(props)@), all_events.take(i as int)),
                mv,
            );
        }
        i += 1;
    }
    proof {
        assert(all_events.take(events@.len() as int) =~= all_events);
    }
}

// ---------------------------------------------------------------------------
// Inbound player positions
// ---------------------------------------------------------------------------

/// One inbound player-position update hits every player entry whose uuid it
/// names.
pub open spec fn apply_position_to_players(ps: Seq<PlayerEntryV>, m: PlayerPositionV) -> Seq<
    PlayerEntryV,
> {
    ps.map_values(
        |e: PlayerEntryV|
            if e.player.uuid == m.player_uuid {
                PlayerEntryV {
                    position: m.position,
                    rotation: m.rotation,
                    linear_velocity: m.linear_velocity,
                    ..e
                }
            } else {
                e
            },
    )
}

/// Whether some player entry carries this uuid.
pub open spec fn player_known(ps: Seq<PlayerEntryV>, uuid: Seq<char>) -> bool {
    exists|k: int| 0 <= k < ps.len() && ps[k].player.uuid == uuid
}

/// The entry a previously unseen player starts with: identity from the
/// message, transform at the configured spawn point, and the placeholder
/// progress bar the engine shows until an avatar transfer begins.
pub open spec fn new_player_entry(m: PlayerPositionV, spawn_at: Position) -> PlayerEntryV {
    PlayerEntryV {
        player: ExternalPlayerV { uuid: m.player_uuid, peer_id: m.peer_id },
        position: spawn_at,
        rotation: Rotation { x: 0, y: 0, z: 0, w: QUAT_UNIT_BITS },
        linear_velocity: LinearVelocity { x: 0, y: 0, z: 0 },
        loading_bar: Some(LoadingBar { len: 1, current: 1 }),
    }
}

/// The player table after a batch of inbound position updates: each is
/// applied to the matching entries in arrival order; the first update from
/// an unseen uuid spawns a new entry and cuts the batch short (the rest of
/// the batch is dropped, as a fresh update will supersede it next tick).
pub open spec fn apply_player_positions(
    ps: Seq<PlayerEntryV>,
    ms: Seq<PlayerPositionV>,
    spawn_at: Position,
) -> (Seq<PlayerEntryV>, Option<ExternalPlayerV>)
    decreases ms.len(),
{
    if ms.len() == 0 {
        (ps, None)
    } else {
        let ps2 = apply_position_to_players(ps, ms[0]);
        if !player_known(ps2, ms[0].player_uuid) {
            (
                ps2.push(new_player_entry(ms[0], spawn_at)),
                Some(ExternalPlayerV { uuid: ms[0].player_uuid, peer_id: ms[0].peer_id }),
            )
        } else {
            apply_player_positions(ps2, ms.skip(1), spawn_at)
        }
    }
}

/// Appends the local stand-in entity for a remote player that has not been
/// seen before, placed at the configured spawn point.
pub fn spawn_external_player(
    players: &mut Vec<PlayerEntry>,
    uuid: PlayerUuid,
    peer_id: PeerId,
    spawn_at: Position,
)
    ensures
        players_view(final(players)@) == players_view(old(players)@).push(
            new_player_entry(
                PlayerPositionV {
                    player_uuid: uuid@,
                    peer_id,
                    position: spawn_at,
                    rotation: Rotation { x: 0, y: 0, z: 0, w: QUAT_UNIT_BITS },
                    linear_velocity: LinearVelocity { x: 0, y: 0, z: 0 },
                },
                spawn_at,
            ),
        ),
{
    let entry = PlayerEntry {
        player: ExternalPlayer { uuid, peer_id },
        position: spawn_at,
        rotation: Rotation { x: 0, y: 0, z: 0, w: QUAT_UNIT_BITS },
        linear_velocity: LinearVelocity { x: 0, y: 0, z: 0 },
        loading_bar: Some(LoadingBar { len: 1, current: 1 }),
    };
    players.push(entry);
    proof {
        broadcast use lemma_players_view_index;

        assert(players_view(final(players)@) =~= players_view(old(players)@).push(
            new_player_entry(
                PlayerPositionV {
                    player_uuid: uuid@,
                    peer_id,
                    position: spawn_at,
                    rotation: Rotation { x: 0, y: 0, z: 0, w: QUAT_UNIT_BITS },
                    linear_velocity: LinearVelocity { x: 0, y: 0, z: 0 },
                },
                spawn_at,
            ),
        ));
    }
}

/// Applies a batch of inbound player positions: updates the matching
/// entries, and spawns a stand-in for the first unseen player, reporting who
/// was spawned so the embedding layer can create the engine-side entity and
/// its audio sink.
pub fn player_position(
    events: &Vec<PlayerPosition>,
    players: &mut Vec<PlayerEntry>,
    spawn_at: Position,
) -> (spawned: Option<ExternalPlayer>)
    ensures
        ({
            let (ps, sp) = apply_player_positions(
                players_view(old(players)@),
                positions_view(events@),
                spawn_at,
            );
            &&& players_view(final(players)@) == ps
            &&& match (spawned, sp) {
                (Some(a), Some(b)) => a@ == b,
                (None, None) => true,
                _ => false,
            }
        }),
{
    broadcast use lemma_players_view_index;

    let ghost all_events = positions_view(events@);
    let ghost goal = apply_player_positions(players_view(old(players)@), all_events, spawn_at);
    proof {
        assert(all_events.skip(0) =~= all_events);
    }
    let mut i: usize = 0;
    while i < events.len()
        invariant
            i <= events.len(),
            all_events == positions_view(events@),
            all_events.len() == events@.len(),
            goal == apply_player_positions(players_view(old(players)@), all_events, spawn_at),
            goal == apply_player_positions(
                players_view(players@),
                all_events.skip(i as int),
                spawn_at,
            ),
        decreases events.len() - i,
    {
        let m = &events[i];
        let ghost mv = m@;
        let ghost start = players_view(players@);
        proof {
            assert(all_events.skip(i as int)[0] == mv);
            assert(all_events.skip(i as int).skip(1) =~= all_events.skip(i + 1));
        }
        let mut j: usize = 0;
        while j < players.len()
            invariant
                j <= players.len(),
                mv == m@,
                players@.len() == start.len(),
                forall|k: int|
                    0 <= k < j ==> players_view(players@)[k] == (if start[k].player.uuid
                        == mv.player_uuid {
                        PlayerEntryV {
                            position: mv.position,
                            rotation: mv.rotation,
                            linear_velocity: mv.linear_velocity,
                            ..start[k]
                        }
                    } else {
                        start[k]
                    }),
                forall|k: int| j <= k < start.len() ==> players_view(players@)[k] == start[k],
            decreases players.len() - j,
        {
            let ghost before = players@;
            if players[j].player.uuid == m.player_uuid {
                let mut e = players[j].clone();
                e.position = m.position;
                e.rotation = m.rotation;
                e.linear_velocity = m.linear_velocity;
                players[j] = e;
                proof {
                    assert(before[j as int]@ == start[j as int]);
                    assert(forall|k: int|
                        0 <= k < before.len() && k != j ==> players@[k] == before[k]);
                    assert forall|k: int| 0 <= k < j + 1 implies players_view(players@)[k] == (
                    if start[k].player.uuid == mv.player_uuid {
                        PlayerEntryV {
                            position: mv.position,
                            rotation: mv.rotation,
                            linear_velocity: mv.linear_velocity,
                            ..start[k]
                        }
                    } else {
                        start[k]
                    }) by {
                        assert(players_view(players@)[k] == players@[k]@);
                        if k < j {
                            assert(players@[k] == before[k]);
                            assert(players_view(before)[k] == before[k]@);
                        }
                    }
                }
            } else {
                proof {
                    assert(before[j as int]@ == start[j as int]);
                    assert forall|k: int| 0 <= k < j + 1 implies players_view(players@)[k] == (
                    if start[k].player.uuid == mv.player_uuid {
                        PlayerEntryV {
                            position: mv.position,
                            rotation: mv.rotation,
                            linear_velocity: mv.linear_velocity,
                            ..start[k]
                        }
                    } else {
                        start[k]
                    }) by {
                        assert(players_view(players@)[k] == players@[k]@);
                        if k < j {
                            assert(players_view(before)[k] == before[k]@);
                        }
                    }
                }
            }
            j += 1;
        }
        proof {
            assert(players_view(players@) =~= apply_position_to_players(start, mv));
        }
        let mut exists_entry = false;
        let mut j2: usize = 0;
        while j2 < players.len()
            invariant
                j2 <= players.len(),
                mv == m@,
                exists_entry == exists|k: int|
                    0 <= k < j2 && players_view(players@)[k].player.uuid == mv.player_uuid,
            decreases players.len() - j2,
        {
            if players[j2].player.uuid == m.player_uuid {
                exists_entry = true;
                proof {
                    assert(players_view(players@)[j2 as int] == players@[j2 as int]@);
                }
            } else {
                proof {
                    assert(players_view(players@)[j2 as int] == players@[j2 as int]@);
                }
            }
            j2 += 1;
        }
        if !exists_entry {
            proof {
                assert(!player_known(players_view(players@), mv.player_uuid));
            }
            let uuid = m.player_uuid.clone();
            let peer_id = m.peer_id;
            spawn_external_player(players, uuid, peer_id, spawn_at);
            return Some(ExternalPlayer { uuid: m.player_uuid.clone(), peer_id: m.peer_id });
        }
        proof {
            assert(player_known(players_view(players@), mv.player_uuid));
        }
        i += 1;
    }
    proof {
        assert(all_events.skip(events@.len() as int) =~= Seq::<PlayerPositionV>::empty());
    }
    None
}

/// The first player entry carrying this uuid, if any: inbound voice frames
/// are appended to that player's audio sink.
pub fn find_player(players: &Vec<PlayerEntry>, uuid: &PlayerUuid) -> (r: Option<usize>)
    ensures
        match r {
            Some(i) => {
                &&& i < players@.len()
                &&& players_view(players@)[i as int].player.uuid == uuid@
                &&& forall|k: int|
                    0 <= k < i ==> players_view(players@)[k].player.uuid != uuid@
            },
            None => !player_known(players_view(players@), uuid@),
        },
{
    broadcast use lemma_players_view_index;

    let mut i: usize = 0;
    while i < players.len()
        invariant
            i <= players@.len(),
            forall|k: int| 0 <= k < i ==> players_view(players@)[k].player.uuid != uuid@,
        decreases players.len() - i,
    {
        if players[i].player.uuid == *uuid {
            return Some(i);
        }
        i += 1;
    }
    None
}

// ---------------------------------------------------------------------------
// Disconnect cleanup
// ---------------------------------------------------------------------------

/// The player table with every entry of one transport peer removed.
pub open spec fn remove_peer(ps: Seq<PlayerEntryV>, peer: PeerId) -> Seq<PlayerEntryV>
    decreases ps.len(),
{
    if ps.len() == 0 {
        Seq::empty()
    } else {
        let rest = remove_peer(ps.skip(1), peer);
        if ps[0].player.peer_id == peer {
            rest
        } else {
            seq![ps[0]] + rest
        }
    }
}

/// The player table with every entry of each disconnected peer removed.
pub open spec fn remove_peers(ps: Seq<PlayerEntryV>, peers: Seq<PeerId>) -> Seq<PlayerEntryV>
    decreases peers.len(),
{
    if peers.len() == 0 {
        ps
    } else {
        remove_peers(remove_peer(ps, peers[0]), peers.skip(1))
    }
}

pub proof fn lemma_remove_peer_concat(a: Seq<PlayerEntryV>, b: Seq<PlayerEntryV>, peer: PeerId)
    ensures
        remove_peer(a + b, peer) == remove_peer(a, peer) + remove_peer(b, peer),
    decreases a.len(),
{
    if a.len() == 0 {
        assert(a + b =~= b);
        assert(remove_peer(a, peer) + remove_peer(b, peer) =~= remove_peer(b, peer));
    } else {
        assert((a + b)[0] == a[0]);
        assert((a + b).skip(1) =~= a.skip(1) + b);
        lemma_remove_peer_concat(a.skip(1), b, peer);
        if a[0].player.peer_id == peer {
        } else {
            assert(seq![a[0]] + (remove_peer(a.skip(1), peer) + remove_peer(b, peer)) =~= (seq![
                a[0],
            ] + remove_peer(a.skip(1), peer)) + remove_peer(b, peer));
        }
    }
}

/// One entry survives removal exactly when it belongs to another peer.
pub proof fn lemma_remove_peer_one(x: PlayerEntryV, peer: PeerId)
    ensures
        remove_peer(seq![x], peer) == if x.player.peer_id == peer {
            Seq::<PlayerEntryV>::empty()
        } else {
            seq![x]
        },
{
    assert(seq![x].skip(1) =~= Seq::<PlayerEntryV>::empty());
    assert(remove_peer(Seq::<PlayerEntryV>::empty(), peer) == Seq::<PlayerEntryV>::empty());
    if x.player.peer_id != peer {
        assert(seq![x] + Seq::<PlayerEntryV>::empty() =~= seq![x]);
    }
}

/// Removes every player entry whose transport peer matches one disconnected
/// peer.
fn remove_one_peer(players: &mut Vec<PlayerEntry>, peer: PeerId)
    ensures
        players_view(final(players)@) == remove_peer(players_view(old(players)@), peer),
{
    broadcast use lemma_players_view_index;

    let ghost orig = players_view(players@);
    let mut out: Vec<PlayerEntry> = Vec::new();
    let mut j: usize = 0;
    while j < players.len()
        invariant
            j <= players.len(),
            orig == players_view(players@),
            players_view(out@) == remove_peer(orig.take(j as int), peer),
        decreases players.len() - j,
    {
        proof {
            assert(orig.take(j + 1) =~= orig.take(j as int) + seq![orig[j as int]]);
            lemma_remove_peer_concat(orig.take(j as int), seq![orig[j as int]], peer);
            lemma_remove_peer_one(orig[j as int], peer);
        }
        if !(players[j].player.peer_id == peer) {
            let e = players[j].clone();
            out.push(e);
            proof {
                assert(players_view(out@) =~= remove_peer(orig.take(j + 1), peer));
            }
        } else {
            proof {
                assert(players_view(out@) =~= remove_peer(orig.take(j + 1), peer));
            }
        }
        j += 1;
    }
    proof {
        assert(orig.take(players@.len() as int) =~= orig);
    }
    *players = out;
}

/// Tears down the local entities of every peer the transport reports
/// disconnected.
pub fn remove_dead_players(disconnected: &Vec<PeerId>, players: &mut Vec<PlayerEntry>)
    ensures
        players_view(final(players)@) == remove_peers(players_view(old(players)@), disconnected@),
{
    proof {
        assert(disconnected@.skip(0) =~= disconnected@);
    }
    let mut i: usize = 0;
    while i < disconnected.len()
        invariant
            i <= disconnected.len(),
            remove_peers(players_view(old(players)@), disconnected@) == remove_peers(
                players_view(players@),
                disconnected@.skip(i as int),
            ),
        decreases disconnected.len() - i,
    {
        proof {
            assert(disconnected@.skip(i as int)[0] == disconnected@[i as int]);
            assert(disconnected@.skip(i as int).skip(1) =~= disconnected@.skip(i + 1));
        }
        remove_one_peer(players, disconnected[i]);
        i += 1;
    }
    proof {
        assert(disconnected@.skip(disconnected@.len() as int) =~= Seq::<PeerId>::empty());
    }
}

/// Removing one peer's entries never brings another peer's entries in: an
/// absent peer stays absent.
pub proof fn lemma_remove_peer_preserves_absence(ps: Seq<PlayerEntryV>, p: PeerId, q: PeerId)
    requires
        forall|k: int| 0 <= k < ps.len() ==> ps[k].player.peer_id != q,
    ensures
        forall|k: int|
            0 <= k < remove_peer(ps, p).len() ==> remove_peer(ps, p)[k].player.peer_id != q,
    decreases ps.len(),
{
    if ps.len() > 0 {
        assert(forall|k: int| 0 <= k < ps.skip(1).len() ==> ps.skip(1)[k].player.peer_id != q);
        lemma_remove_peer_preserves_absence(ps.skip(1), p, q);
        if ps[0].player.peer_id != p {
            assert(forall|k: int|
                1 <= k < remove_peer(ps, p).len() ==> remove_peer(ps, p)[k] == remove_peer(
                    ps.skip(1),
                    p,
                )[k - 1]);
        }
    }
}

/// One peer's entries are gone after its own removal.
pub proof fn lemma_remove_peer_removes(ps: Seq<PlayerEntryV>, p: PeerId)
    ensures
        forall|k: int|
            0 <= k < remove_peer(ps, p).len() ==> remove_peer(ps, p)[k].player.peer_id != p,
    decreases ps.len(),
{
    if ps.len() > 0 {
        lemma_remove_peer_removes(ps.skip(1), p);
        if ps[0].player.peer_id != p {
            assert(forall|k: int|
                1 <= k < remove_peer(ps, p).len() ==> remove_peer(ps, p)[k] == remove_peer(
                    ps.skip(1),
                    p,
                )[k - 1]);
        }
    }
}

/// Disconnect cleanup over a whole batch of disconnected peers: afterwards
/// no entry of any of them remains in the player table.
pub proof fn lemma_remove_peers_clean(ps: Seq<PlayerEntryV>, peers: Seq<PeerId>)
    ensures
        forall|k: int, p: int|
            0 <= k < remove_peers(ps, peers).len() && 0 <= p < peers.len() ==> remove_peers(
                ps,
                peers,
            )[k].player.peer_id != peers[p],
    decreases peers.len(),
{
    if peers.len() > 0 {
        let cleaned = remove_peer(ps, peers[0]);
        lemma_remove_peer_removes(ps, peers[0]);
        lemma_remove_peers_clean(cleaned, peers.skip(1));
        lemma_remove_peers_preserve_absence(cleaned, peers.skip(1), peers[0]);
        assert(forall|p: int| 1 <= p < peers.len() ==> peers[p] == peers.skip(1)[p - 1]);
    }
}

/// A peer absent from the table stays absent through any further removals.
pub proof fn lemma_remove_peers_preserve_absence(ps: Seq<PlayerEntryV>, peers: Seq<PeerId>, q: PeerId)
    requires
        forall|k: int| 0 <= k < ps.len() ==> ps[k].player.peer_id != q,
    ensures
        forall|k: int|
            0 <= k < remove_peers(ps, peers).len() ==> remove_peers(ps, peers)[k].player.peer_id
                != q,
    decreases peers.len(),
{
    if peers.len() > 0 {
        lemma_remove_peer_preserves_absence(ps, peers[0], q);
        lemma_remove_peers_preserve_absence(remove_peer(ps, peers[0]), peers.skip(1), q);
    }
}

/// After cleanup, a position update from a player whose stand-in is gone
/// changes no remaining entry: the only thing it can still do is spawn a
/// fresh stand-in.
pub proof fn lemma_position_update_ignores_absent_uuid(ps: Seq<PlayerEntryV>, m: PlayerPositionV)
    requires
        !player_known(ps, m.player_uuid),
    ensures
        apply_position_to_players(ps, m) =~= ps,
{
    assert forall|k: int| 0 <= k < ps.len() implies apply_position_to_players(ps, m)[k] == ps[k] by {
        assert(ps[k].player.uuid != m.player_uuid);
    }
}

// ---------------------------------------------------------------------------
// Prop spawning
// ---------------------------------------------------------------------------

/// Builds the spawn announcement for a cube the local player creates: a
/// fresh prop identity, owned by the creator with the counter starting at
/// zero, at the chosen position. The same message is broadcast to the peers
/// and applied locally.
pub fn make_spawn_cube(local: &PlayerUuid, position: Position) -> (r: SpawnCube)
    ensures
        r@.authority.player == local@,
        r@.authority.counter == 0,
        r@.prop_uuid.len() == 36,
        r@.position == position,
{
    SpawnCube {
        authority: Authority { player: local.clone(), counter: 0 },
        prop_uuid: crate::ids::fresh_prop_uuid(),
        position,
    }
}

/// The entry a newly announced prop starts with: identity and ownership from
/// the message, at the announced position, at rest, with the identity
/// rotation.
pub open spec fn new_prop_entry(m: SpawnCubeV) -> PropEntryV {
    PropEntryV {
        prop_uuid: m.prop_uuid,
        authority: m.authority,
        position: m.position,
        rotation: Rotation { x: 0, y: 0, z: 0, w: QUAT_UNIT_BITS },
        linear_velocity: LinearVelocity { x: 0, y: 0, z: 0 },
        angular_velocity: AngularVelocity { x: 0, y: 0, z: 0 },
        local: false,
        changed: false,
    }
}

/// Adds one prop entry to the table for every spawn announcement in the
/// batch, in order.
pub fn handle_spawn_cube(events: &Vec<SpawnCube>, props: &mut Vec<PropEntry>)
    ensures
        props_view(final(props)@) == props_view(old(props)@) + spawn_cubes_view(
            events@,
        ).map_values(|m: SpawnCubeV| new_prop_entry(m)),
{
    broadcast use lemma_props_view_index;

    let mut i: usize = 0;
    while i < events.len()
        invariant
            i <= events.len(),
            props_view(props@) == props_view(old(props)@) + spawn_cubes_view(events@).take(
                i as int,
            ).map_values(|m: SpawnCubeV| new_prop_entry(m)),
        decreases events.len() - i,
    {
        let m = &events[i];
        let entry = PropEntry {
            prop_uuid: m.prop_uuid.clone(),
            authority: m.authority.clone(),
            position: m.position,
            rotation: Rotation { x: 0, y: 0, z: 0, w: QUAT_UNIT_BITS },
            linear_velocity: LinearVelocity { x: 0, y: 0, z: 0 },
            angular_velocity: AngularVelocity { x: 0, y: 0, z: 0 },
            local: false,
            changed: false,
        };
        let ghost before = props@;
        props.push(entry);
        proof {
            let ghost rhs = props_view(old(props)@) + spawn_cubes_view(events@).take(
                i + 1,
            ).map_values(|m: SpawnCubeV| new_prop_entry(m));
            assert(props@[before.len() as int]@ == new_prop_entry(
                spawn_cubes_view(events@)[i as int],
            ));
            assert(spawn_cubes_view(events@).len() == events@.len());
            assert(props_view(before).len() == before.len());
            assert(before.len() == old(props)@.len() + i);
            assert(rhs.len() == before.len() + 1);
            assert forall|k: int| 0 <= k < props@.len() implies props_view(props@)[k] == rhs[k] by {
                assert(props_view(props@)[k] == props@[k]@);
                if k < before.len() {
                    assert(props@[k] == before[k]);
                    assert(props_view(before)[k] == before[k]@);
                }
            }
            assert(props_view(props@) =~= rhs);
        }
        i += 1;
    }
    proof {
        assert(spawn_cubes_view(events@).take(events@.len() as int) =~= spawn_cubes_view(events@));
    }
}

} // verus!

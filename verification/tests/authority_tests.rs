use peersync::authority::{apply_update, update_prop_authority, PickupAction};
use peersync::ids::{PeerId, PlayerUuid, PropUuid};
use peersync::messages::{
    AngularVelocity, Authority, LinearVelocity, PlayerPosition, Position, Rotation, UpdateProp,
};
use peersync::world::{
    find_player, make_spawn_cube, handle_spawn_cube, player_position, remove_dead_players,
    spawn_external_player, update_prop, PlayerEntry, PropEntry,
};

fn uuid(s: &str) -> PlayerUuid {
    PlayerUuid(String::from(s))
}

fn prop_at_counter(owner: &str, counter: u64) -> PropEntry {
    PropEntry {
        prop_uuid: PropUuid(String::from("prop-1")),
        authority: Authority {
            player: uuid(owner),
            counter,
        },
        position: Position { x: 0, y: 0, z: 0 },
        rotation: Rotation { x: 0, y: 0, z: 0, w: 0 },
        linear_velocity: LinearVelocity { x: 0, y: 0, z: 0 },
        angular_velocity: AngularVelocity { x: 0, y: 0, z: 0 },
        local: false,
        changed: false,
    }
}

fn update_for(owner: &str, counter: u64, x: u32) -> UpdateProp {
    UpdateProp {
        authority: Authority {
            player: uuid(owner),
            counter,
        },
        prop_uuid: PropUuid(String::from("prop-1")),
        position: Position { x, y: 0, z: 0 },
        rotation: Rotation { x: 0, y: 0, z: 0, w: 0 },
        linear_velocity: LinearVelocity { x: x, y: 0, z: 0 },
        angular_velocity: AngularVelocity { x: 0, y: 0, z: 0 },
    }
}

#[test]
fn stale_update_is_rejected_entirely() {
    // Stored counter 5; an incoming update with counter 3 must change
    // neither the authority record nor any transform field.
    let mut e = prop_at_counter("a", 5);
    apply_update(&mut e, &update_for("b", 3, 99));
    assert_eq!(e.authority.counter, 5);
    assert_eq!(e.authority.player, uuid("a"));
    assert_eq!(e.position, Position { x: 0, y: 0, z: 0 });
    assert!(!e.changed);
}

#[test]
fn equal_counter_update_is_accepted() {
    let mut e = prop_at_counter("a", 5);
    apply_update(&mut e, &update_for("b", 5, 42));
    assert_eq!(e.authority.player, uuid("b"));
    assert_eq!(e.authority.counter, 5);
    assert_eq!(e.position.x, 42);
    assert!(e.changed);
}

#[test]
fn authority_counter_is_monotone_across_mixed_updates() {
    let mut e = prop_at_counter("a", 0);
    let updates = [
        update_for("b", 2, 1),
        update_for("c", 1, 2), // stale, dropped
        update_for("a", 2, 3), // renewal at equal counter
        update_for("d", 9, 4),
        update_for("b", 5, 5), // stale, dropped
    ];
    let mut last = 0u64;
    for u in updates.iter() {
        apply_update(&mut e, u);
        assert!(e.authority.counter >= last);
        last = e.authority.counter;
    }
    assert_eq!(e.authority.counter, 9);
    assert_eq!(e.authority.player, uuid("d"));
    assert_eq!(e.position.x, 4);
}

#[test]
fn claim_bumps_counter_and_takes_ownership() {
    let mut e = prop_at_counter("remote", 4);
    let r = update_prop_authority(&mut e, &uuid("local"));
    assert_eq!(r, PickupAction::Claim);
    assert_eq!(e.authority.counter, 5);
    assert_eq!(e.authority.player, uuid("local"));
    assert!(e.local);
}

#[test]
fn losing_authority_releases_held_prop() {
    let mut e = prop_at_counter("remote", 7);
    e.local = true;
    let r = update_prop_authority(&mut e, &uuid("local"));
    assert_eq!(r, PickupAction::Release);
    assert!(!e.local);
    // ownership record itself is untouched by the release
    assert_eq!(e.authority.player, uuid("remote"));
    assert_eq!(e.authority.counter, 7);
}

#[test]
fn own_prop_is_kept_without_a_new_claim() {
    let mut e = prop_at_counter("local", 3);
    e.local = true;
    let r = update_prop_authority(&mut e, &uuid("local"));
    assert_eq!(r, PickupAction::Keep);
    assert_eq!(e.authority.counter, 3);
    assert!(e.local);
}

#[test]
fn concurrent_claims_converge_to_last_applied() {
    // Peer A and peer B both claim the same prop while unaware of each
    // other: each goes 0 -> 1 with itself as owner. When B then receives
    // A's update at the equal counter, B accepts it, so both sides end at
    // owner A, counter 1.
    let mut prop_at_a = prop_at_counter("n", 0);
    let mut prop_at_b = prop_at_counter("n", 0);

    let a = update_prop_authority(&mut prop_at_a, &uuid("a"));
    let b = update_prop_authority(&mut prop_at_b, &uuid("b"));
    assert_eq!(a, PickupAction::Claim);
    assert_eq!(b, PickupAction::Claim);
    assert_eq!(prop_at_a.authority.counter, 1);
    assert_eq!(prop_at_b.authority.counter, 1);

    // A's broadcast as B receives it.
    let from_a = UpdateProp {
        authority: prop_at_a.authority.clone(),
        prop_uuid: prop_at_a.prop_uuid.clone(),
        position: prop_at_a.position,
        rotation: prop_at_a.rotation,
        linear_velocity: prop_at_a.linear_velocity,
        angular_velocity: prop_at_a.angular_velocity,
    };
    apply_update(&mut prop_at_b, &from_a);

    assert_eq!(prop_at_b.authority.player, uuid("a"));
    assert_eq!(prop_at_b.authority.counter, 1);
    assert_eq!(prop_at_a.authority.player, uuid("a"));
    assert_eq!(prop_at_a.authority.counter, 1);
}

#[test]
fn update_prop_only_touches_matching_uuid() {
    let mut props = vec![prop_at_counter("a", 1), {
        let mut other = prop_at_counter("a", 1);
        other.prop_uuid = PropUuid(String::from("prop-2"));
        other
    }];
    update_prop(&vec![update_for("b", 2, 10)], &mut props);
    assert_eq!(props[0].authority.player, uuid("b"));
    assert_eq!(props[0].position.x, 10);
    assert_eq!(props[1].authority.player, uuid("a"));
    assert_eq!(props[1].position.x, 0);
}

fn position_msg(who: &str, peer: u64, x: u32) -> PlayerPosition {
    PlayerPosition {
        player_uuid: uuid(who),
        peer_id: PeerId(peer),
        position: Position { x, y: 0, z: 0 },
        rotation: Rotation { x: 0, y: 0, z: 0, w: 0 },
        linear_velocity: LinearVelocity { x: 0, y: 0, z: 0 },
    }
}

#[test]
fn player_position_updates_known_player() {
    let mut players: Vec<PlayerEntry> = Vec::new();
    let spawn = Position { x: 0, y: 7, z: 0 };
    spawn_external_player(&mut players, uuid("p1"), PeerId(1), spawn);
    let spawned = player_position(&vec![position_msg("p1", 1, 55)], &mut players, spawn);
    assert!(spawned.is_none());
    assert_eq!(players.len(), 1);
    assert_eq!(players[0].position.x, 55);
}

#[test]
fn player_position_spawns_unseen_player_and_stops_the_batch() {
    let mut players: Vec<PlayerEntry> = Vec::new();
    let spawn = Position { x: 0, y: 7, z: 0 };
    let events = vec![position_msg("new", 3, 55), position_msg("new", 3, 77)];
    let spawned = player_position(&events, &mut players, spawn);
    let spawned = spawned.expect("an unseen uuid must spawn a stand-in");
    assert_eq!(spawned.uuid, uuid("new"));
    assert_eq!(spawned.peer_id, PeerId(3));
    assert_eq!(players.len(), 1);
    // the new entry starts at the spawn point; the rest of the batch was
    // dropped, so the second event's transform was not applied
    assert_eq!(players[0].position, spawn);
    assert_eq!(players[0].player.peer_id, PeerId(3));
}

#[test]
fn disconnect_removes_every_entity_of_that_peer() {
    let mut players: Vec<PlayerEntry> = Vec::new();
    let spawn = Position { x: 0, y: 0, z: 0 };
    spawn_external_player(&mut players, uuid("p1"), PeerId(1), spawn);
    spawn_external_player(&mut players, uuid("p2"), PeerId(2), spawn);
    spawn_external_player(&mut players, uuid("p3"), PeerId(1), spawn);

    remove_dead_players(&vec![PeerId(1)], &mut players);

    assert_eq!(players.len(), 1);
    assert_eq!(players[0].player.uuid, uuid("p2"));

    // a later update for a removed uuid finds no entry to change: it can
    // only spawn a fresh stand-in, never resurrect the old state
    let spawned = player_position(&vec![position_msg("p2", 2, 9)], &mut players, spawn);
    assert!(spawned.is_none());
    assert_eq!(players[0].position.x, 9);
}

#[test]
fn spawn_cube_batch_appends_props() {
    let mut props: Vec<PropEntry> = Vec::new();
    let cube = make_spawn_cube(&uuid("me"), Position { x: 1, y: 2, z: 3 });
    assert_eq!(cube.authority.counter, 0);
    assert_eq!(cube.authority.player, uuid("me"));
    assert_eq!(cube.prop_uuid.0.chars().count(), 36);
    handle_spawn_cube(&vec![cube.clone()], &mut props);
    assert_eq!(props.len(), 1);
    assert_eq!(props[0].prop_uuid, cube.prop_uuid);
    assert_eq!(props[0].position.x, 1);
    assert!(!props[0].local);
}

#[test]
fn voice_frames_route_to_the_matching_player() {
    let mut players: Vec<PlayerEntry> = Vec::new();
    let spawn = Position { x: 0, y: 0, z: 0 };
    spawn_external_player(&mut players, uuid("p1"), PeerId(1), spawn);
    spawn_external_player(&mut players, uuid("p2"), PeerId(2), spawn);
    assert_eq!(find_player(&players, &uuid("p2")), Some(1));
    assert_eq!(find_player(&players, &uuid("p1")), Some(0));
    assert_eq!(find_player(&players, &uuid("p3")), None);
}

use peersync::codec::encode;
use peersync::ids::{PeerId, PlayerUuid, PropUuid};
use peersync::messages::{
    AngularVelocity, Authority, AvatarPartEnum, DeleteProp, LinearVelocity, Message,
    PlayerPosition, Position, Rotation, SpawnCube, UpdateProp, VoiceMsg,
};
use peersync::router::route_messages;
use peersync::sync::{
    sync_local_player_to_network, sync_local_props_to_network, LocalPlayerSample,
};
use peersync::tick::apply_inbound;
use peersync::transfer::TransferSession;
use peersync::world::{PlayerEntry, PropEntry};
use peersync::messages::AvatarPart;

fn uuid(s: &str) -> PlayerUuid {
    PlayerUuid(String::from(s))
}

fn zero_position() -> Position {
    Position { x: 0, y: 0, z: 0 }
}

fn zero_rotation() -> Rotation {
    Rotation { x: 0, y: 0, z: 0, w: 0 }
}

fn packet(peer: u64, m: &Message) -> (PeerId, Vec<u8>) {
    (PeerId(peer), encode(m))
}

fn some_update(counter: u64) -> Message {
    Message::UpdateProp(UpdateProp {
        authority: Authority {
            player: uuid("a"),
            counter,
        },
        prop_uuid: PropUuid(String::from("p")),
        position: zero_position(),
        rotation: zero_rotation(),
        linear_velocity: LinearVelocity { x: 0, y: 0, z: 0 },
        angular_velocity: AngularVelocity { x: 0, y: 0, z: 0 },
    })
}

#[test]
fn routing_fans_out_by_kind_with_reliable_first() {
    let spawn = Message::SpawnCube(SpawnCube {
        authority: Authority {
            player: uuid("a"),
            counter: 0,
        },
        prop_uuid: PropUuid(String::from("p")),
        position: zero_position(),
    });
    let delete = Message::DeleteProp(DeleteProp {
        authority: Authority {
            player: uuid("a"),
            counter: 1,
        },
        prop_uuid: PropUuid(String::from("p")),
    });
    let pos = Message::PlayerPosition(PlayerPosition {
        player_uuid: uuid("a"),
        peer_id: PeerId(1),
        position: zero_position(),
        rotation: zero_rotation(),
        linear_velocity: LinearVelocity { x: 0, y: 0, z: 0 },
    });
    let voice = Message::VoiceChat(VoiceMsg {
        data: vec![1, 2, 3],
        uuid: uuid("a"),
        channels: 1,
    });
    let done = Message::AvatarPart(AvatarPartEnum::Done);

    let reliable = vec![
        packet(1, &spawn),
        packet(1, &some_update(5)),
        packet(1, &done),
        packet(1, &delete),
    ];
    let unreliable = vec![packet(1, &pos), packet(1, &voice), packet(1, &some_update(6))];

    let r = route_messages(&reliable, &unreliable);
    assert_eq!(r.spawn_cubes.len(), 1);
    assert_eq!(r.delete_props.len(), 1);
    assert_eq!(r.player_positions.len(), 1);
    assert_eq!(r.voice_chat.len(), 1);
    assert_eq!(r.avatar_parts.len(), 1);
    // updates from both channels, reliable one first
    assert_eq!(r.update_props.len(), 2);
    assert_eq!(r.update_props[0].authority.counter, 5);
    assert_eq!(r.update_props[1].authority.counter, 6);
}

#[test]
fn routing_drops_malformed_packets_and_continues() {
    let reliable = vec![
        (PeerId(1), vec![255u8, 0, 1]),
        packet(1, &some_update(9)),
        (PeerId(1), Vec::new()),
    ];
    let r = route_messages(&reliable, &Vec::new());
    assert_eq!(r.update_props.len(), 1);
    assert_eq!(r.update_props[0].authority.counter, 9);
}

#[test]
fn routing_drops_chunks_from_the_unreliable_channel() {
    let done = Message::AvatarPart(AvatarPartEnum::Done);
    let r = route_messages(&Vec::new(), &vec![packet(1, &done)]);
    assert_eq!(r.avatar_parts.len(), 0);
    let r2 = route_messages(&vec![packet(1, &done)], &Vec::new());
    assert_eq!(r2.avatar_parts.len(), 1);
}

#[test]
fn local_player_publish_waits_for_socket_and_player() {
    let sample = LocalPlayerSample {
        uuid: uuid("me"),
        position: Position { x: 3, y: 0, z: 0 },
        rotation: zero_rotation(),
        linear_velocity: LinearVelocity { x: 0, y: 0, z: 0 },
    };
    assert!(sync_local_player_to_network(None, Some(&sample)).is_none());
    assert!(sync_local_player_to_network(Some(PeerId(7)), None).is_none());

    let m = sync_local_player_to_network(Some(PeerId(7)), Some(&sample))
        .expect("ready state must publish");
    match m {
        Message::PlayerPosition(p) => {
            assert_eq!(p.player_uuid, uuid("me"));
            assert_eq!(p.peer_id, PeerId(7));
            assert_eq!(p.position.x, 3);
        }
        _ => panic!("the local player publishes a position message"),
    }
}

fn prop(owner: &str, uuid_str: &str, changed: bool) -> PropEntry {
    PropEntry {
        prop_uuid: PropUuid(String::from(uuid_str)),
        authority: Authority {
            player: uuid(owner),
            counter: 1,
        },
        position: zero_position(),
        rotation: zero_rotation(),
        linear_velocity: LinearVelocity { x: 0, y: 0, z: 0 },
        angular_velocity: AngularVelocity { x: 0, y: 0, z: 0 },
        local: false,
        changed,
    }
}

#[test]
fn prop_publish_filters_by_ownership_and_change() {
    let mut props = vec![
        prop("me", "p1", true),   // published
        prop("me", "p2", false),  // unchanged: skipped
        prop("other", "p3", true), // not owned: skipped
        prop("me", "p4", true),   // published
    ];
    let local = uuid("me");
    let msgs = sync_local_props_to_network(Some(PeerId(1)), Some(&local), &mut props);
    assert_eq!(msgs.len(), 2);
    assert_eq!(msgs[0].prop_uuid, PropUuid(String::from("p1")));
    assert_eq!(msgs[1].prop_uuid, PropUuid(String::from("p4")));
    // the publish tick consumed every change mark
    assert!(props.iter().all(|p| !p.changed));
}

#[test]
fn prop_publish_is_a_no_op_before_ready() {
    let mut props = vec![prop("me", "p1", true)];
    let local = uuid("me");
    assert!(sync_local_props_to_network(None, Some(&local), &mut props).is_empty());
    assert!(sync_local_props_to_network(Some(PeerId(1)), None, &mut props).is_empty());
    // nothing consumed: the change is still pending for the next tick
    assert!(props[0].changed);
}

#[test]
fn inbound_pass_applies_one_tick_in_order() {
    // One reliable batch carrying a spawn, an update for it, a position of
    // an unseen player, and a complete one-chunk transfer.
    let spawn = Message::SpawnCube(SpawnCube {
        authority: Authority {
            player: uuid("a"),
            counter: 0,
        },
        prop_uuid: PropUuid(String::from("p")),
        position: Position { x: 1, y: 2, z: 3 },
    });
    let update = some_update(4);
    let pos = Message::PlayerPosition(PlayerPosition {
        player_uuid: uuid("a"),
        peer_id: PeerId(9),
        position: zero_position(),
        rotation: zero_rotation(),
        linear_velocity: LinearVelocity { x: 0, y: 0, z: 0 },
    });
    let len = Message::AvatarPart(AvatarPartEnum::Len(uuid("a"), 3));
    let part = Message::AvatarPart(AvatarPartEnum::AvatarPart(AvatarPart {
        uuid: uuid("a"),
        avatar_name: String::from("a.vrm"),
        data: vec![1, 2, 3],
    }));
    let done = Message::AvatarPart(AvatarPartEnum::Done);

    let reliable = vec![
        packet(9, &spawn),
        packet(9, &update),
        packet(9, &pos),
        packet(9, &len),
        packet(9, &part),
        packet(9, &done),
    ];
    let batch = route_messages(&reliable, &Vec::new());

    let mut props: Vec<PropEntry> = Vec::new();
    let mut players: Vec<PlayerEntry> = Vec::new();
    let mut session = TransferSession::idle();
    let spawn_at = Position { x: 0, y: 7, z: 0 };
    let effects = apply_inbound(&batch, &mut props, &mut players, &mut session, spawn_at);

    // the spawned prop took the later update
    assert_eq!(props.len(), 1);
    assert_eq!(props[0].authority.counter, 4);
    // the unseen player got a stand-in
    let newcomer = effects.spawned.expect("the unseen player spawns a stand-in");
    assert_eq!(newcomer.uuid, uuid("a"));
    assert_eq!(players.len(), 1);
    // the one-chunk transfer completed in the same tick
    assert_eq!(effects.completed_avatars, vec![vec![1, 2, 3]]);
    assert!(session.received.is_empty());
}

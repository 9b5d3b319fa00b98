use peersync::codec::{decode, encode};
use peersync::ids::{PeerId, PlayerUuid, PropUuid};
use peersync::messages::{
    AngularVelocity, Authority, AvatarPart, AvatarPartEnum, DeleteProp, LinearVelocity, Message,
    PlayerPosition, Position, Rotation, SpawnCube, UpdateProp, VoiceMsg,
};

fn sample_authority() -> Authority {
    Authority {
        player: PlayerUuid(String::from("11111111-2222-3333-4444-555555555555")),
        counter: 7,
    }
}

fn sample_position() -> Position {
    Position {
        x: 0x3F80_0000,
        y: 0xBF80_0000,
        z: 0,
    }
}

fn sample_rotation() -> Rotation {
    Rotation {
        x: 1,
        y: 2,
        z: 3,
        w: 0x3F80_0000,
    }
}

fn round_trip(m: Message) -> Message {
    let bytes = encode(&m);
    decode(bytes.as_slice()).expect("a freshly encoded message must decode")
}

#[test]
fn round_trip_spawn_cube() {
    let m = Message::SpawnCube(SpawnCube {
        authority: sample_authority(),
        prop_uuid: PropUuid(String::from("aaaaaaaa-bbbb-cccc-dddd-eeeeeeeeeeee")),
        position: sample_position(),
    });
    assert_eq!(round_trip(m.clone()), m);
}

#[test]
fn round_trip_update_prop() {
    let m = Message::UpdateProp(UpdateProp {
        authority: sample_authority(),
        prop_uuid: PropUuid(String::from("prop-1")),
        position: sample_position(),
        rotation: sample_rotation(),
        linear_velocity: LinearVelocity { x: 5, y: 6, z: 7 },
        angular_velocity: AngularVelocity {
            x: 8,
            y: 9,
            z: 0xFFFF_FFFF,
        },
    });
    assert_eq!(round_trip(m.clone()), m);
}

#[test]
fn round_trip_delete_prop() {
    let m = Message::DeleteProp(DeleteProp {
        authority: sample_authority(),
        prop_uuid: PropUuid(String::from("")),
    });
    assert_eq!(round_trip(m.clone()), m);
}

#[test]
fn round_trip_player_position() {
    let m = Message::PlayerPosition(PlayerPosition {
        player_uuid: PlayerUuid(String::from("player with spaces and unicode \u{00e9}\u{4e16}")),
        peer_id: PeerId(u64::MAX),
        position: sample_position(),
        rotation: sample_rotation(),
        linear_velocity: LinearVelocity { x: 0, y: 0, z: 0 },
    });
    assert_eq!(round_trip(m.clone()), m);
}

#[test]
fn round_trip_voice_chat() {
    let m = Message::VoiceChat(VoiceMsg {
        data: vec![0, 1, 2, 254, 255],
        uuid: PlayerUuid(String::from("v")),
        channels: 2,
    });
    assert_eq!(round_trip(m.clone()), m);
}

#[test]
fn round_trip_voice_chat_empty_payload() {
    let m = Message::VoiceChat(VoiceMsg {
        data: Vec::new(),
        uuid: PlayerUuid(String::new()),
        channels: 1,
    });
    assert_eq!(round_trip(m.clone()), m);
}

#[test]
fn round_trip_avatar_len() {
    let m = Message::AvatarPart(AvatarPartEnum::Len(
        PlayerUuid(String::from("sender")),
        25_000,
    ));
    assert_eq!(round_trip(m.clone()), m);
}

#[test]
fn round_trip_avatar_part() {
    let m = Message::AvatarPart(AvatarPartEnum::AvatarPart(AvatarPart {
        uuid: PlayerUuid(String::from("sender")),
        avatar_name: String::from("suzah.vrm"),
        data: vec![42; 10_000],
    }));
    assert_eq!(round_trip(m.clone()), m);
}

#[test]
fn round_trip_avatar_done() {
    let m = Message::AvatarPart(AvatarPartEnum::Done);
    assert_eq!(round_trip(m.clone()), m);
}

#[test]
fn decode_rejects_empty_input() {
    assert!(decode(&[]).is_err());
}

#[test]
fn decode_rejects_unknown_tag() {
    assert!(decode(&[200]).is_err());
}

#[test]
fn decode_rejects_truncated_message() {
    let bytes = encode(&Message::AvatarPart(AvatarPartEnum::Len(
        PlayerUuid(String::from("sender")),
        25_000,
    )));
    assert!(decode(&bytes[..bytes.len() - 1]).is_err());
}

#[test]
fn decode_rejects_trailing_bytes() {
    let mut bytes = encode(&Message::AvatarPart(AvatarPartEnum::Done));
    bytes.push(0);
    assert!(decode(bytes.as_slice()).is_err());
}

#[test]
fn decode_rejects_invalid_utf8_string() {
    // A DeleteProp whose authority string bytes are not valid UTF-8.
    let mut bytes = vec![3u8]; // DeleteProp tag
    bytes.extend_from_slice(&2u64.to_le_bytes()); // authority.player length
    bytes.extend_from_slice(&[0xC3, 0x28]); // invalid UTF-8 pair
    bytes.extend_from_slice(&5u64.to_le_bytes()); // authority.counter
    bytes.extend_from_slice(&0u64.to_le_bytes()); // prop uuid length
    assert!(decode(bytes.as_slice()).is_err());
}

#[test]
fn decode_rejects_overlong_length_prefix() {
    // A VoiceChat whose data length claims more bytes than the input holds.
    let mut bytes = vec![5u8]; // VoiceChat tag
    bytes.extend_from_slice(&u64::MAX.to_le_bytes());
    bytes.extend_from_slice(&[1, 2, 3]);
    assert!(decode(bytes.as_slice()).is_err());
}

#[test]
fn decode_rejects_unknown_chunk_tag() {
    let bytes = vec![6u8, 9u8];
    assert!(decode(bytes.as_slice()).is_err());
}

#[test]
fn encoding_is_deterministic() {
    let m = Message::AvatarPart(AvatarPartEnum::Len(
        PlayerUuid(String::from("sender")),
        123,
    ));
    assert_eq!(encode(&m), encode(&m));
}

#[test]
fn fresh_uuids_are_well_formed_and_distinct() {
    let a = peersync::ids::fresh_player_uuid();
    let b = peersync::ids::fresh_player_uuid();
    let p = peersync::ids::fresh_prop_uuid();
    assert_eq!(a.0.chars().count(), 36);
    assert_eq!(p.0.chars().count(), 36);
    assert_ne!(a.0, b.0);
    // hyphenated form: separators at the documented offsets
    let chars: Vec<char> = a.0.chars().collect();
    assert_eq!(chars[8], '-');
    assert_eq!(chars[13], '-');
    assert_eq!(chars[18], '-');
    assert_eq!(chars[23], '-');
}

use peersync::ids::{PeerId, PlayerUuid};
use peersync::messages::{AvatarPart, AvatarPartEnum, Position};
use peersync::transfer::{
    handle_avatar_part, LoadingBar, PartSender, TransferSession, CHUNK_SIZE,
    SEND_ATTEMPTS_PER_TICK,
};
use peersync::world::{spawn_external_player, PlayerEntry};

fn uuid(s: &str) -> PlayerUuid {
    PlayerUuid(String::from(s))
}

fn payload(n: usize) -> Vec<u8> {
    (0..n).map(|i| (i % 251) as u8).collect()
}

#[test]
fn sender_splits_payload_into_bounded_chunks() {
    let data = payload(25_000);
    let mut s = PartSender::begin(&data, uuid("me"), String::from("suzah.vrm"));
    let mut sizes = Vec::new();
    while let Some(part) = s.current_part() {
        assert_eq!(part.uuid, uuid("me"));
        assert_eq!(part.avatar_name, "suzah.vrm");
        sizes.push(part.data.len());
        s.on_send_outcome(true);
    }
    assert!(s.is_done());
    assert_eq!(sizes, vec![10_000, 10_000, 5_000]);
    assert_eq!(CHUNK_SIZE, 10_000);
    assert_eq!(SEND_ATTEMPTS_PER_TICK, 10);
}

#[test]
fn sender_of_empty_payload_is_immediately_done() {
    let s = PartSender::begin(&Vec::new(), uuid("me"), String::from("a.vrm"));
    assert!(s.is_done());
    assert!(s.current_part().is_none());
}

#[test]
fn sender_of_exact_chunk_multiple_has_no_short_chunk() {
    let data = payload(20_000);
    let mut s = PartSender::begin(&data, uuid("me"), String::from("a.vrm"));
    let mut sizes = Vec::new();
    while let Some(part) = s.current_part() {
        sizes.push(part.data.len());
        s.on_send_outcome(true);
    }
    assert_eq!(sizes, vec![10_000, 10_000]);
}

#[test]
fn backpressure_retries_the_same_chunk() {
    // When the channel reports full, the very same chunk must be the next
    // attempted one, and the reassembled sequence shows nothing skipped or
    // duplicated.
    let data = payload(25_000);
    let mut s = PartSender::begin(&data, uuid("me"), String::from("a.vrm"));

    let first_attempt = s.current_part().unwrap();
    s.on_send_outcome(false); // channel full
    let second_attempt = s.current_part().unwrap();
    assert_eq!(first_attempt, second_attempt);

    // deliver everything, with a rejection before each chunk
    let mut delivered: Vec<u8> = Vec::new();
    while let Some(part) = s.current_part() {
        s.on_send_outcome(false);
        assert_eq!(s.current_part().unwrap(), part);
        delivered.extend_from_slice(&part.data);
        s.on_send_outcome(true);
    }
    assert!(s.is_done());
    assert_eq!(delivered, data);
}

#[test]
fn reassembly_is_exact() {
    // Len(25000), then parts of 10000, 10000 and 5000 bytes in order, then
    // Done: the assembled buffer is exactly the 25000-byte concatenation.
    let data = payload(25_000);
    let mut session = TransferSession::idle();
    session.on_len(uuid("peer"), 25_000);
    let mut sent = 0;
    while sent < data.len() {
        let end = (sent + 10_000).min(data.len());
        session.on_part(&AvatarPart {
            uuid: uuid("peer"),
            avatar_name: String::from("a.vrm"),
            data: data[sent..end].to_vec(),
        });
        sent = end;
    }
    let assembled = session.on_done();
    assert_eq!(assembled.len(), 25_000);
    assert_eq!(assembled, data);
    assert!(session.received.is_empty());
}

#[test]
fn sender_to_receiver_end_to_end() {
    let data = payload(23_456);
    let mut s = PartSender::begin(&data, uuid("me"), String::from("a.vrm"));
    let mut session = TransferSession::idle();
    session.on_len(uuid("me"), data.len());
    let mut reject = true;
    while let Some(part) = s.current_part() {
        if reject {
            // every other attempt bounces off the full channel
            s.on_send_outcome(false);
            reject = false;
            continue;
        }
        session.on_part(&part);
        s.on_send_outcome(true);
        reject = true;
    }
    assert!(s.is_done());
    assert_eq!(session.on_done(), data);
}

#[test]
fn loading_bar_completion() {
    let done = LoadingBar {
        len: 100,
        current: 100,
    };
    let part_way = LoadingBar {
        len: 100,
        current: 99,
    };
    assert!(done.is_complete());
    assert!(!part_way.is_complete());
}

#[test]
fn transfer_events_drive_the_progress_bar() {
    let spawn = Position { x: 0, y: 0, z: 0 };
    let mut players: Vec<PlayerEntry> = Vec::new();
    spawn_external_player(&mut players, uuid("peer"), PeerId(1), spawn);
    spawn_external_player(&mut players, uuid("other"), PeerId(2), spawn);
    let mut session = TransferSession::idle();

    let done = handle_avatar_part(
        &AvatarPartEnum::Len(uuid("peer"), 15_000),
        &mut session,
        &mut players,
    );
    assert!(done.is_none());
    assert_eq!(
        players[0].loading_bar,
        Some(LoadingBar {
            len: 15_000,
            current: 0
        })
    );

    let done = handle_avatar_part(
        &AvatarPartEnum::AvatarPart(AvatarPart {
            uuid: uuid("peer"),
            avatar_name: String::from("a.vrm"),
            data: payload(10_000),
        }),
        &mut session,
        &mut players,
    );
    assert!(done.is_none());
    assert_eq!(
        players[0].loading_bar,
        Some(LoadingBar {
            len: 15_000,
            current: 10_000
        })
    );
    // the other player's bar is untouched
    assert_eq!(
        players[1].loading_bar,
        Some(LoadingBar { len: 1, current: 1 })
    );

    let done = handle_avatar_part(
        &AvatarPartEnum::AvatarPart(AvatarPart {
            uuid: uuid("peer"),
            avatar_name: String::from("a.vrm"),
            data: payload(5_000),
        }),
        &mut session,
        &mut players,
    );
    assert!(done.is_none());
    assert_eq!(
        players[0].loading_bar,
        Some(LoadingBar {
            len: 15_000,
            current: 15_000
        })
    );
    assert!(players[0].loading_bar.unwrap().is_complete());

    let assembled = handle_avatar_part(&AvatarPartEnum::Done, &mut session, &mut players)
        .expect("the terminal message must hand the bytes out");
    assert_eq!(assembled.len(), 15_000);
    let mut expected = payload(10_000);
    expected.extend_from_slice(&payload(5_000));
    assert_eq!(assembled, expected);
}

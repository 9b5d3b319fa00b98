//! Chunked asset transfer: the sending side splits an avatar payload into
//! bounded chunks and retries under backpressure; the receiving side
//! reassembles the chunks in arrival order.
//!
//! The protocol is `Len(uuid, total)`, then each chunk as an `AvatarPart` in
//! order, then `Done`. Chunk sends are non-blocking: when the reliable
//! channel reports it is full, the chunk stays at the front of the queue and
//! is retried on a later tick, so delivery is at-least-once and in order,
//! throttled to the channel's own capacity.

use vstd::prelude::*;
use vstd::slice::{slice_subrange, slice_to_vec};

use crate::ids::PlayerUuid;
use crate::messages::{AvatarPart, AvatarPartEnum, AvatarPartEnumV};
use crate::world::{players_view, lemma_players_view_index, PlayerEntry, PlayerEntryV};

verus! {

/// Fixed size of every chunk but the last.
pub const CHUNK_SIZE: usize = 10_000;

/// How many chunk sends one tick attempts at most, to bound per-tick work.
pub const SEND_ATTEMPTS_PER_TICK: usize = 10;

/// Progress indicator for one inbound transfer: bytes expected and bytes
/// received so far.
#[derive(Clone, Copy, Debug, PartialEq, Eq, Structural)]
pub struct LoadingBar {
    pub len: usize,
    pub current: usize,
}

impl LoadingBar {
    /// The transfer this bar tracks has delivered every expected byte.
    pub fn is_complete(&self) -> (r: bool)
        ensures
            r == (self.current == self.len),
    {
        self.current == self.len
    }
}

// ---------------------------------------------------------------------------
// Chunking
// ---------------------------------------------------------------------------

/// The chunk sequence of a payload: full chunks of [`CHUNK_SIZE`] bytes, then
/// whatever remains; an empty payload has no chunks.
pub open spec fn chunks_of(payload: Seq<u8>) -> Seq<Seq<u8>>
    decreases payload.len(),
{
    if payload.len() == 0 {
        Seq::empty()
    } else if payload.len() <= CHUNK_SIZE {
        seq![payload]
    } else {
        seq![payload.take(CHUNK_SIZE as int)] + chunks_of(payload.skip(CHUNK_SIZE as int))
    }
}

/// The bytes of a chunk sequence, concatenated in order.
pub open spec fn concat_chunks(cs: Seq<Seq<u8>>) -> Seq<u8>
    decreases cs.len(),
{
    if cs.len() == 0 {
        Seq::empty()
    } else {
        cs[0] + concat_chunks(cs.skip(1))
    }
}

pub proof fn lemma_concat_chunks_concat(a: Seq<Seq<u8>>, b: Seq<Seq<u8>>)
    ensures
        concat_chunks(a + b) == concat_chunks(a) + concat_chunks(b),
    decreases a.len(),
{
    if a.len() == 0 {
        assert(a + b =~= b);
        assert(concat_chunks(a) =~= Seq::<u8>::empty());
        assert(concat_chunks(a) + concat_chunks(b) =~= concat_chunks(b));
    } else {
        assert((a + b)[0] == a[0]);
        assert((a + b).skip(1) =~= a.skip(1) + b);
        lemma_concat_chunks_concat(a.skip(1), b);
        assert(concat_chunks(a + b) == a[0] + concat_chunks(a.skip(1) + b));
        assert(concat_chunks(a) == a[0] + concat_chunks(a.skip(1)));
        assert(a[0] + (concat_chunks(a.skip(1)) + concat_chunks(b)) =~= (a[0] + concat_chunks(
            a.skip(1),
        )) + concat_chunks(b));
    }
}

/// Chunking loses, duplicates and reorders nothing: a payload chunked by
/// the sender and reassembled in arrival order comes out byte-identical,
/// whatever backpressure rejections delayed the chunks in between.
pub proof fn lemma_chunks_concat(payload: Seq<u8>)
    ensures
        concat_chunks(chunks_of(payload)) == payload,
    decreases payload.len(),
{
    if payload.len() == 0 {
    } else if payload.len() <= CHUNK_SIZE {
        assert(seq![payload].skip(1) =~= Seq::<Seq<u8>>::empty());
        assert(concat_chunks(Seq::<Seq<u8>>::empty()) =~= Seq::<u8>::empty());
        assert(payload + Seq::<u8>::empty() =~= payload);
    } else {
        let head = payload.take(CHUNK_SIZE as int);
        let tail = payload.skip(CHUNK_SIZE as int);
        lemma_chunks_concat(tail);
        assert((seq![head] + chunks_of(tail)).skip(1) =~= chunks_of(tail));
        assert((seq![head] + chunks_of(tail))[0] == head);
        assert(concat_chunks(chunks_of(payload)) == head + concat_chunks(chunks_of(tail)));
        assert(head + tail =~= payload);
    }
}

/// Every chunk of a payload is non-empty and at most [`CHUNK_SIZE`] bytes.
pub proof fn lemma_chunks_bounded(payload: Seq<u8>)
    ensures
        forall|k: int|
            0 <= k < chunks_of(payload).len() ==> 0 < #[trigger] chunks_of(payload)[k].len()
                <= CHUNK_SIZE,
    decreases payload.len(),
{
    if payload.len() == 0 {
    } else if payload.len() <= CHUNK_SIZE {
    } else {
        let head = payload.take(CHUNK_SIZE as int);
        let tail = payload.skip(CHUNK_SIZE as int);
        lemma_chunks_bounded(tail);
        assert(forall|k: int|
            1 <= k < chunks_of(payload).len() ==> chunks_of(payload)[k] == chunks_of(tail)[k - 1]);
    }
}

// ---------------------------------------------------------------------------
// Sending side
// ---------------------------------------------------------------------------

/// The sending side of one avatar transfer: the full chunk list and the index
/// of the first chunk not yet accepted by the channel.
#[derive(Debug)]
pub struct PartSender {
    pub uuid: PlayerUuid,
    pub avatar_name: String,
    pub chunks: Vec<Vec<u8>>,
    pub next: usize,
}

impl PartSender {
    pub open spec fn wf(&self) -> bool {
        self.next <= self.chunks@.len()
    }

    pub open spec fn chunk_views(&self) -> Seq<Seq<u8>> {
        self.chunks@.map_values(|c: Vec<u8>| c@)
    }

    /// The chunks the channel has accepted so far, in order.
    pub open spec fn sent(&self) -> Seq<Seq<u8>> {
        self.chunk_views().take(self.next as int)
    }

    /// The chunks still to send, in order; the first is the next attempted.
    pub open spec fn pending(&self) -> Seq<Seq<u8>> {
        self.chunk_views().skip(self.next as int)
    }

    /// Opens a transfer: splits the payload into chunks of [`CHUNK_SIZE`]
    /// bytes (the last one shorter), none of them sent yet. The caller
    /// announces `Len(uuid, payload.len())` on the reliable channel before
    /// the first chunk goes out.
    pub fn begin(payload: &Vec<u8>, uuid: PlayerUuid, avatar_name: String) -> (s: PartSender)
        ensures
            s.wf(),
            s.chunk_views() == chunks_of(payload@),
            s.next == 0,
            s.uuid == uuid,
            s.avatar_name@ == avatar_name@,
    {
        let mut chunks: Vec<Vec<u8>> = Vec::new();
        let mut pos: usize = 0;
        proof {
            assert(payload@.skip(0) =~= payload@);
        }
        while payload.len() - pos > CHUNK_SIZE
            invariant
                pos <= payload@.len(),
                chunks_of(payload@) == chunks@.map_values(|c: Vec<u8>| c@) + chunks_of(
                    payload@.skip(pos as int),
                ),
            decreases payload.len() - pos,
        {
            let ghost built = chunks@.map_values(|c: Vec<u8>| c@);
            let piece = slice_to_vec(slice_subrange(payload.as_slice(), pos, pos + CHUNK_SIZE));
            chunks.push(piece);
            proof {
                let rest = payload@.skip(pos as int);
                assert(rest.take(CHUNK_SIZE as int) =~= payload@.subrange(
                    pos as int,
                    pos + CHUNK_SIZE,
                ));
                assert(rest.skip(CHUNK_SIZE as int) =~= payload@.skip(pos + CHUNK_SIZE));
                assert(chunks@.map_values(|c: Vec<u8>| c@) =~= built + seq![
                    payload@.subrange(pos as int, pos + CHUNK_SIZE),
                ]);
                assert(built + (seq![rest.take(CHUNK_SIZE as int)] + chunks_of(
                    rest.skip(CHUNK_SIZE as int),
                )) =~= (built + seq![rest.take(CHUNK_SIZE as int)]) + chunks_of(
                    payload@.skip(pos + CHUNK_SIZE),
                ));
            }
            pos = pos + CHUNK_SIZE;
        }
        let ghost built = chunks@.map_values(|c: Vec<u8>| c@);
        if payload.len() - pos > 0 {
            let piece = slice_to_vec(slice_subrange(payload.as_slice(), pos, payload.len()));
            chunks.push(piece);
            proof {
                let rest = payload@.skip(pos as int);
                assert(rest =~= payload@.subrange(pos as int, payload@.len() as int));
                assert(chunks@.map_values(|c: Vec<u8>| c@) =~= built + seq![rest]);
                assert(chunks_of(rest) == seq![rest]);
                assert(chunks_of(payload@) =~= chunks@.map_values(|c: Vec<u8>| c@));
            }
        } else {
            proof {
                let rest = payload@.skip(pos as int);
                assert(rest =~= Seq::<u8>::empty());
                assert(chunks_of(rest) =~= Seq::<Seq<u8>>::empty());
                assert(chunks_of(payload@) =~= chunks@.map_values(|c: Vec<u8>| c@));
            }
        }
        PartSender { uuid, avatar_name, chunks, next: 0 }
    }

    /// The number of chunks still pending.
    pub fn remaining(&self) -> (r: usize)
        requires
            self.wf(),
        ensures
            r == self.pending().len(),
    {
        self.chunks.len() - self.next
    }

    /// The message for the next pending chunk, or nothing when every chunk
    /// has been accepted and the terminal `Done` is due.
    pub fn current_part(&self) -> (r: Option<AvatarPart>)
        requires
            self.wf(),
        ensures
            match r {
                Some(p) => {
                    &&& self.next < self.chunk_views().len()
                    &&& p@.uuid == self.uuid@
                    &&& p@.avatar_name == self.avatar_name@
                    &&& p@.data == self.pending()[0]
                },
                None => self.next == self.chunk_views().len(),
            },
    {
        if self.next < self.chunks.len() {
            let data = slice_to_vec(self.chunks[self.next].as_slice());
            Some(
                AvatarPart {
                    uuid: self.uuid.clone(),
                    avatar_name: self.avatar_name.clone(),
                    data,
                },
            )
        } else {
            None
        }
    }

    /// Records the channel's verdict on the current chunk. An accepted chunk
    /// leaves the queue; a rejected one (backpressure) stays at the front,
    /// so the very same chunk is the next attempted — nothing is skipped and
    /// nothing is sent twice.
    pub fn on_send_outcome(&mut self, accepted: bool)
        requires
            old(self).wf(),
            old(self).next < old(self).chunk_views().len(),
        ensures
            final(self).wf(),
            accepted ==> final(self).next == old(self).next + 1 && final(self).chunks@ == old(
                self,
            ).chunks@ && final(self).uuid == old(self).uuid && final(self).avatar_name == old(
                self,
            ).avatar_name,
            !accepted ==> *final(self) == *old(self),
            final(self).sent() + final(self).pending() == old(self).sent() + old(self).pending(),
    {
        proof {
            assert(old(self).sent() + old(self).pending() =~= old(self).chunk_views());
        }
        if accepted {
            let n = self.chunks.len();
            proof {
                assert(old(self).chunk_views().len() == n as int);
            }
            self.next = self.next + 1;
        }
        proof {
            assert(self.sent() + self.pending() =~= self.chunk_views());
        }
    }

    /// Every chunk has been accepted: the terminal `Done` message is due.
    pub fn is_done(&self) -> (r: bool)
        requires
            self.wf(),
        ensures
            r == (self.pending().len() == 0),
    {
        self.next == self.chunks.len()
    }
}

/// Backpressure safety: whatever mixture of accepted and rejected sends led
/// to a sender state, the chunks already sent followed by the chunks still
/// pending are exactly the original chunk sequence — none skipped, none
/// duplicated.
pub proof fn lemma_backpressure_retry(s: PartSender)
    requires
        s.wf(),
    ensures
        s.sent() + s.pending() == s.chunk_views(),
{
    assert(s.sent() + s.pending() =~= s.chunk_views());
}

// ---------------------------------------------------------------------------
// Receiving side
// ---------------------------------------------------------------------------

/// The receiving side of one avatar transfer: who is sending, how many bytes
/// were announced, and the bytes received so far (with the ghost record of
/// the chunks they arrived in).
pub struct TransferSession {
    pub sender: PlayerUuid,
    pub total_len: usize,
    pub received: Vec<u8>,
    pub parts: Ghost<Seq<Seq<u8>>>,
}

pub ghost struct TransferSessionV {
    pub sender: Seq<char>,
    pub total_len: usize,
    pub received: Seq<u8>,
    pub parts: Seq<Seq<u8>>,
}

impl View for TransferSession {
    type V = TransferSessionV;

    open spec fn view(&self) -> TransferSessionV {
        TransferSessionV {
            sender: self.sender@,
            total_len: self.total_len,
            received: self.received@,
            parts: self.parts@,
        }
    }
}

impl TransferSession {
    /// The received buffer is exactly the arrived chunks, concatenated in
    /// arrival order.
    pub open spec fn wf(&self) -> bool {
        self.received@ == concat_chunks(self.parts@)
    }

    /// An idle session with nothing received, as the receiver starts before
    /// any announcement has arrived.
    pub fn idle() -> (s: TransferSession)
        ensures
            s.wf(),
            s.sender@ == Seq::<char>::empty(),
            s.total_len == 0,
            s.received@ == Seq::<u8>::empty(),
            s.parts@ == Seq::<Seq<u8>>::empty(),
    {
        TransferSession {
            sender: PlayerUuid(String::new()),
            total_len: 0,
            received: Vec::new(),
            parts: Ghost(Seq::empty()),
        }
    }

    /// Opens the session on a length announcement: records the sender and
    /// the announced total and discards anything previously buffered.
    pub fn on_len(&mut self, sender: PlayerUuid, total_len: usize)
        ensures
            final(self).wf(),
            final(self).sender == sender,
            final(self).total_len == total_len,
            final(self).received@ == Seq::<u8>::empty(),
            final(self).parts@ == Seq::<Seq<u8>>::empty(),
    {
        self.sender = sender;
        self.total_len = total_len;
        self.received = Vec::new();
        self.parts = Ghost(Seq::empty());
    }

    /// Appends one arrived chunk to the buffer, in arrival order.
    pub fn on_part(&mut self, part: &AvatarPart)
        requires
            old(self).wf(),
        ensures
            final(self).wf(),
            final(self).received@ == old(self).received@ + part.data@,
            final(self).parts@ == old(self).parts@.push(part.data@),
            final(self).sender == old(self).sender,
            final(self).total_len == old(self).total_len,
    {
        let mut data = slice_to_vec(part.data.as_slice());
        self.received.append(&mut data);
        proof {
            self.parts@ = self.parts@.push(part.data@);
            lemma_concat_chunks_concat(old(self).parts@, seq![part.data@]);
            assert(old(self).parts@.push(part.data@) =~= old(self).parts@ + seq![part.data@]);
            assert(seq![part.data@].skip(1) =~= Seq::<Seq<u8>>::empty());
            assert(concat_chunks(Seq::<Seq<u8>>::empty()) =~= Seq::<u8>::empty());
            assert(concat_chunks(seq![part.data@]) =~= part.data@);
            assert(self.received@ =~= concat_chunks(self.parts@));
        }
    }

    /// Finalizes the transfer on the terminal message: hands the assembled
    /// buffer out for the asset store and clears the session for the next
    /// transfer.
    pub fn on_done(&mut self) -> (r: Vec<u8>)
        requires
            old(self).wf(),
        ensures
            final(self).wf(),
            r@ == old(self).received@,
            r@ == concat_chunks(old(self).parts@),
            final(self).received@ == Seq::<u8>::empty(),
            final(self).parts@ == Seq::<Seq<u8>>::empty(),
            final(self).sender == old(self).sender,
            final(self).total_len == old(self).total_len,
    {
        let mut out: Vec<u8> = Vec::new();
        core::mem::swap(&mut out, &mut self.received);
        proof {
            self.parts@ = Seq::empty();
        }
        out
    }
}

// ---------------------------------------------------------------------------
// Receiver event handling, with transfer progress shown on the sender's
// stand-in entity
// ---------------------------------------------------------------------------

/// The player table after a length announcement: every entry of the sending
/// player gets a fresh progress bar.
pub open spec fn set_bar(ps: Seq<PlayerEntryV>, uuid: Seq<char>, len: usize) -> Seq<PlayerEntryV> {
    ps.map_values(
        |e: PlayerEntryV|
            if e.player.uuid == uuid {
                PlayerEntryV { loading_bar: Some(LoadingBar { len, current: 0 }), ..e }
            } else {
                e
            },
    )
}

/// The player table after a chunk arrived: the sending player's progress bar,
/// where one is shown, advances to the bytes received so far.
pub open spec fn set_bar_progress(ps: Seq<PlayerEntryV>, uuid: Seq<char>, current: usize) -> Seq<
    PlayerEntryV,
> {
    ps.map_values(
        |e: PlayerEntryV|
            if e.player.uuid == uuid {
                match e.loading_bar {
                    Some(bar) => PlayerEntryV {
                        loading_bar: Some(LoadingBar { len: bar.len, current }),
                        ..e
                    },
                    None => e,
                }
            } else {
                e
            },
    )
}

fn apply_bar(players: &mut Vec<PlayerEntry>, uuid: &PlayerUuid, len: usize)
    ensures
        players_view(final(players)@) == set_bar(players_view(old(players)@), uuid@, len),
{
    broadcast use lemma_players_view_index;

    let ghost start = players_view(players@);
    let mut j: usize = 0;
    while j < players.len()
        invariant
            j <= players.len(),
            players@.len() == start.len(),
            forall|k: int|
                0 <= k < j ==> players_view(players@)[k] == (if start[k].player.uuid == uuid@ {
                    PlayerEntryV {
                        loading_bar: Some(LoadingBar { len, current: 0 }),
                        ..start[k]
                    }
                } else {
                    start[k]
                }),
            forall|k: int| j <= k < start.len() ==> players_view(players@)[k] == start[k],
        decreases players.len() - j,
    {
        let ghost before = players@;
        if players[j].player.uuid == *uuid {
            let mut e = players[j].clone();
            e.loading_bar = Some(LoadingBar { len, current: 0 });
            players[j] = e;
            proof {
                assert(before[j as int]@ == start[j as int]);
                assert(forall|k: int|
                    0 <= k < before.len() && k != j ==> players@[k] == before[k]);
                assert forall|k: int| 0 <= k < j + 1 implies players_view(players@)[k] == (
                if start[k].player.uuid == uuid@ {
                    PlayerEntryV {
                        loading_bar: Some(LoadingBar { len, current: 0 }),
                        ..start[k]
                    }
                } else {
                    start[k]
                }) by {
                    assert(players_view(players@)[k] == players@[k]@);
                    if k < j {
                        assert(players@[k] == before[k]);
                        assert(players_view(before)[k] == before[k]@);
                    }
                }
            }
        } else {
            proof {
                assert(before[j as int]@ == start[j as int]);
                assert forall|k: int| 0 <= k < j + 1 implies players_view(players@)[k] == (
                if start[k].player.uuid == uuid@ {
                    PlayerEntryV {
                        loading_bar: Some(LoadingBar { len, current: 0 }),
                        ..start[k]
                    }
                } else {
                    start[k]
                }) by {
                    assert(players_view(players@)[k] == players@[k]@);
                    if k < j {
                        assert(players_view(before)[k] == before[k]@);
                    }
                }
            }
        }
        j += 1;
    }
    proof {
        assert(players_view(players@) =~= set_bar(start, uuid@, len));
    }
}

fn apply_bar_progress(players: &mut Vec<PlayerEntry>, uuid: &PlayerUuid, current: usize)
    ensures
        players_view(final(players)@) == set_bar_progress(
            players_view(old(players)@),
            uuid@,
            current,
        ),
{
    broadcast use lemma_players_view_index;

    let ghost start = players_view(players@);
    let mut j: usize = 0;
    while j < players.len()
        invariant
            j <= players.len(),
            players@.len() == start.len(),
            forall|k: int|
                0 <= k < j ==> players_view(players@)[k] == (if start[k].player.uuid == uuid@ {
                    match start[k].loading_bar {
                        Some(bar) => PlayerEntryV {
                            loading_bar: Some(LoadingBar { len: bar.len, current }),
                            ..start[k]
                        },
                        None => start[k],
                    }
                } else {
                    start[k]
                }),
            forall|k: int| j <= k < start.len() ==> players_view(players@)[k] == start[k],
        decreases players.len() - j,
    {
        let ghost before = players@;
        if players[j].player.uuid == *uuid {
            match players[j].loading_bar {
                Some(bar) => {
                    let mut e = players[j].clone();
                    e.loading_bar = Some(LoadingBar { len: bar.len, current });
                    players[j] = e;
                },
                None => {},
            }
            proof {
                assert(before[j as int]@ == start[j as int]);
                assert(forall|k: int|
                    0 <= k < before.len() && k != j ==> players@[k] == before[k]);
                assert forall|k: int| 0 <= k < j + 1 implies players_view(players@)[k] == (
                if start[k].player.uuid == uuid@ {
                    match start[k].loading_bar {
                        Some(bar) => PlayerEntryV {
                            loading_bar: Some(LoadingBar { len: bar.len, current }),
                            ..start[k]
                        },
                        None => start[k],
                    }
                } else {
                    start[k]
                }) by {
                    assert(players_view(players@)[k] == players@[k]@);
                    if k < j {
                        assert(players@[k] == before[k]);
                        assert(players_view(before)[k] == before[k]@);
                    }
                }
            }
        } else {
            proof {
                assert(before[j as int]@ == start[j as int]);
                assert forall|k: int| 0 <= k < j + 1 implies players_view(players@)[k] == (
                if start[k].player.uuid == uuid@ {
                    match start[k].loading_bar {
                        Some(bar) => PlayerEntryV {
                            loading_bar: Some(LoadingBar { len: bar.len, current }),
                            ..start[k]
                        },
                        None => start[k],
                    }
                } else {
                    start[k]
                }) by {
                    assert(players_view(players@)[k] == players@[k]@);
                    if k < j {
                        assert(players_view(before)[k] == before[k]@);
                    }
                }
            }
        }
        j += 1;
    }
    proof {
        assert(players_view(players@) =~= set_bar_progress(start, uuid@, current));
    }
}

/// What one inbound transfer message does to the session, to the progress
/// bars, and what it hands out: a length announcement opens the session and
/// puts a fresh bar on the sender's stand-in; a chunk is appended in arrival
/// order and advances that bar; the terminal message hands the assembled
/// bytes out and clears the session.
pub open spec fn transfer_step(
    s: TransferSessionV,
    ps: Seq<PlayerEntryV>,
    ev: AvatarPartEnumV,
) -> (TransferSessionV, Seq<PlayerEntryV>, Option<Seq<u8>>) {
    match ev {
        AvatarPartEnumV::Len(uuid, len) => (
            TransferSessionV {
                sender: uuid,
                total_len: len,
                received: Seq::empty(),
                parts: Seq::empty(),
            },
            set_bar(ps, uuid, len),
            None,
        ),
        AvatarPartEnumV::AvatarPart(part) => {
            let s2 = TransferSessionV {
                received: s.received + part.data,
                parts: s.parts.push(part.data),
                ..s
            };
            (s2, set_bar_progress(ps, s.sender, s2.received.len() as usize), None)
        },
        AvatarPartEnumV::Done => (
            TransferSessionV { received: Seq::empty(), parts: Seq::empty(), ..s },
            ps,
            Some(s.received),
        ),
    }
}

/// The session, the progress bars and the payloads handed out after a whole
/// batch of inbound transfer messages, in arrival order.
pub open spec fn transfer_fold(
    s: TransferSessionV,
    ps: Seq<PlayerEntryV>,
    evs: Seq<AvatarPartEnumV>,
) -> (TransferSessionV, Seq<PlayerEntryV>, Seq<Seq<u8>>)
    decreases evs.len(),
{
    if evs.len() == 0 {
        (s, ps, Seq::empty())
    } else {
        let (s1, p1, done) = transfer_step(s, ps, evs[0]);
        let (s2, p2, rest) = transfer_fold(s1, p1, evs.skip(1));
        let head = match done {
            Some(bytes) => seq![bytes],
            None => Seq::<Seq<u8>>::empty(),
        };
        (s2, p2, head + rest)
    }
}

/// Handles one inbound transfer message: [`transfer_step`] says exactly what
/// happened.
pub fn handle_avatar_part(
    event: &AvatarPartEnum,
    session: &mut TransferSession,
    players: &mut Vec<PlayerEntry>,
) -> (completed: Option<Vec<u8>>)
    requires
        old(session).wf(),
    ensures
        final(session).wf(),
        ({
            let (s2, ps2, done) = transfer_step(
                old(session)@,
                players_view(old(players)@),
                event@,
            );
            &&& final(session)@ == s2
            &&& players_view(final(players)@) == ps2
            &&& match (completed, done) {
                (Some(b), Some(d)) => b@ == d,
                (None, None) => true,
                _ => false,
            }
        }),
{
    match event {
        AvatarPartEnum::Len(uuid, len) => {
            session.on_len(uuid.clone(), *len);
            apply_bar(players, uuid, *len);
            None
        },
        AvatarPartEnum::AvatarPart(part) => {
            session.on_part(part);
            let current = session.received.len();
            let sender = session.sender.clone();
            apply_bar_progress(players, &sender, current);
            None
        },
        AvatarPartEnum::Done => {
            let bytes = session.on_done();
            Some(bytes)
        },
    }
}

/// The views of a batch of transfer messages.
pub open spec fn parts_view(events: Seq<AvatarPartEnum>) -> Seq<AvatarPartEnumV> {
    events.map_values(|e: AvatarPartEnum| e@)
}

/// Handles one tick's batch of inbound transfer messages in arrival order,
/// returning every payload whose terminal message arrived, in order.
pub fn handle_avatar_parts(
    events: &Vec<AvatarPartEnum>,
    session: &mut TransferSession,
    players: &mut Vec<PlayerEntry>,
) -> (completed: Vec<Vec<u8>>)
    requires
        old(session).wf(),
    ensures
        final(session).wf(),
        ({
            let (s2, ps2, done) = transfer_fold(
                old(session)@,
                players_view(old(players)@),
                parts_view(events@),
            );
            &&& final(session)@ == s2
            &&& players_view(final(players)@) == ps2
            &&& completed@.map_values(|b: Vec<u8>| b@) == done
        }),
{
    let ghost all_events = parts_view(events@);
    let ghost goal = transfer_fold(old(session)@, players_view(old(players)@), all_events);
    proof {
        assert(all_events.skip(0) =~= all_events);
    }
    let mut completed: Vec<Vec<u8>> = Vec::new();
    let mut i: usize = 0;
    while i < events.len()
        invariant
            i <= events.len(),
            session.wf(),
            all_events == parts_view(events@),
            all_events.len() == events@.len(),
            goal == transfer_fold(old(session)@, players_view(old(players)@), all_events),
            ({
                let (s2, ps2, rest) = transfer_fold(
                    session@,
                    players_view(players@),
                    all_events.skip(i as int),
                );
                &&& goal.0 == s2
                &&& goal.1 == ps2
                &&& goal.2 == completed@.map_values(|b: Vec<u8>| b@) + rest
            }),
        decreases events.len() - i,
    {
        let ghost remaining = all_events.skip(i as int);
        let ghost done_before = completed@.map_values(|b: Vec<u8>| b@);
        proof {
            assert(remaining[0] == events@[i as int]@);
            assert(remaining.skip(1) =~= all_events.skip(i + 1));
        }
        match handle_avatar_part(&events[i], session, players) {
            Some(bytes) => {
                completed.push(bytes);
                proof {
                    let (s1, p1, done) = transfer_step(
                        session@,
                        players_view(players@),
                        remaining[0],
                    );
                    assert(completed@.map_values(|b: Vec<u8>| b@) =~= done_before + seq![
                        completed@[completed@.len() - 1]@,
                    ]);
                    let (s2, p2, rest) = transfer_fold(
                        session@,
                        players_view(players@),
                        all_events.skip(i + 1),
                    );
                    assert(done_before + (seq![completed@[completed@.len() - 1]@] + rest) =~= (
                    done_before + seq![completed@[completed@.len() - 1]@]) + rest);
                }
            },
            None => {
                proof {
                    let (s2, p2, rest) = transfer_fold(
                        session@,
                        players_view(players@),
                        all_events.skip(i + 1),
                    );
                    assert(Seq::<Seq<u8>>::empty() + rest =~= rest);
                }
            },
        }
        i += 1;
    }
    proof {
        assert(all_events.skip(events@.len() as int) =~= Seq::<AvatarPartEnumV>::empty());
        assert(completed@.map_values(|b: Vec<u8>| b@) + Seq::<Seq<u8>>::empty()
            =~= completed@.map_values(|b: Vec<u8>| b@));
    }
    completed
}

} // verus!

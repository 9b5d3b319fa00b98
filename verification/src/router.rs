//! Inbound message routing: raw packets from both channels are decoded and
//! fanned out to per-kind queues, which the owning components drain later in
//! the same tick.
//!
//! A malformed packet is dropped and never aborts the rest of the batch.
//! The reliable channel is drained before the unreliable one, so structural
//! events (spawn, delete, chunks) are seen before the position deltas that
//! may refer to them. An asset chunk arriving on the unreliable channel does
//! not belong to the protocol and is dropped.

use vstd::prelude::*;

use crate::codec::{decode, spec_decode};
use crate::ids::PeerId;
use crate::messages::{
    AvatarPartEnum, AvatarPartEnumV, DeleteProp, DeletePropV, Message, MessageV, PlayerPosition,
    PlayerPositionV, SpawnCube, SpawnCubeV, UpdateProp, UpdatePropV, VoiceMsg, VoiceMsgV,
};

verus! {

/// The per-kind queues one routing pass fills.
pub struct RoutedBatch {
    pub spawn_cubes: Vec<SpawnCube>,
    pub update_props: Vec<UpdateProp>,
    pub delete_props: Vec<DeleteProp>,
    pub player_positions: Vec<PlayerPosition>,
    pub voice_chat: Vec<VoiceMsg>,
    pub avatar_parts: Vec<AvatarPartEnum>,
}

pub ghost struct RoutedBatchV {
    pub spawn_cubes: Seq<SpawnCubeV>,
    pub update_props: Seq<UpdatePropV>,
    pub delete_props: Seq<DeletePropV>,
    pub player_positions: Seq<PlayerPositionV>,
    pub voice_chat: Seq<VoiceMsgV>,
    pub avatar_parts: Seq<AvatarPartEnumV>,
}

impl View for RoutedBatch {
    type V = RoutedBatchV;

    open spec fn view(&self) -> RoutedBatchV {
        RoutedBatchV {
            spawn_cubes: self.spawn_cubes@.map_values(|m: SpawnCube| m@),
            update_props: self.update_props@.map_values(|m: UpdateProp| m@),
            delete_props: self.delete_props@.map_values(|m: DeleteProp| m@),
            player_positions: self.player_positions@.map_values(|m: PlayerPosition| m@),
            voice_chat: self.voice_chat@.map_values(|m: VoiceMsg| m@),
            avatar_parts: self.avatar_parts@.map_values(|m: AvatarPartEnum| m@),
        }
    }
}

/// The payloads of a batch of (peer, packet) pairs, in order.
pub open spec fn raw_views(pairs: Seq<(PeerId, Vec<u8>)>) -> Seq<Seq<u8>> {
    pairs.map_values(|p: (PeerId, Vec<u8>)| p.1@)
}

/// The messages a batch of raw packets decodes to, in order, with malformed
/// packets dropped.
pub open spec fn decoded_seq(raws: Seq<Seq<u8>>) -> Seq<MessageV>
    decreases raws.len(),
{
    if raws.len() == 0 {
        Seq::empty()
    } else {
        (match spec_decode(raws[0]) {
            Some(m) => seq![m],
            None => Seq::empty(),
        }) + decoded_seq(raws.skip(1))
    }
}

/// Where one decoded message goes. A chunk message is queued only from the
/// reliable channel (`allow_parts`); elsewhere it is dropped.
pub open spec fn route_one_spec(r: RoutedBatchV, m: MessageV, allow_parts: bool) -> RoutedBatchV {
    match m {
        MessageV::SpawnCube(x) => RoutedBatchV { spawn_cubes: r.spawn_cubes.push(x), ..r },
        MessageV::UpdateProp(x) => RoutedBatchV { update_props: r.update_props.push(x), ..r },
        MessageV::DeleteProp(x) => RoutedBatchV { delete_props: r.delete_props.push(x), ..r },
        MessageV::PlayerPosition(x) => RoutedBatchV {
            player_positions: r.player_positions.push(x),
            ..r
        },
        MessageV::VoiceChat(x) => RoutedBatchV { voice_chat: r.voice_chat.push(x), ..r },
        MessageV::AvatarPart(x) => if allow_parts {
            RoutedBatchV { avatar_parts: r.avatar_parts.push(x), ..r }
        } else {
            r
        },
    }
}

/// The queues after routing a sequence of decoded messages, in order.
pub open spec fn route_spec(r: RoutedBatchV, ms: Seq<MessageV>, allow_parts: bool) -> RoutedBatchV
    decreases ms.len(),
{
    if ms.len() == 0 {
        r
    } else {
        route_spec(route_one_spec(r, ms[0], allow_parts), ms.skip(1), allow_parts)
    }
}

fn route_channel(out: &mut RoutedBatch, packets: &Vec<(PeerId, Vec<u8>)>, allow_parts: bool)
    ensures
        final(out)@ == route_spec(old(out)@, decoded_seq(raw_views(packets@)), allow_parts),
{
    let ghost goal = route_spec(old(out)@, decoded_seq(raw_views(packets@)), allow_parts);
    proof {
        assert(raw_views(packets@).skip(0) =~= raw_views(packets@));
    }
    let mut i: usize = 0;
    while i < packets.len()
        invariant
            i <= packets.len(),
            goal == route_spec(old(out)@, decoded_seq(raw_views(packets@)), allow_parts),
            goal == route_spec(
                out@,
                decoded_seq(raw_views(packets@).skip(i as int)),
                allow_parts,
            ),
        decreases packets.len() - i,
    {
        let ghost remaining = raw_views(packets@).skip(i as int);
        proof {
            assert(remaining[0] == packets@[i as int].1@);
            assert(remaining.skip(1) =~= raw_views(packets@).skip(i + 1));
        }
        match decode(packets[i].1.as_slice()) {
            Ok(m) => {
                proof {
                    let head = seq![m@];
                    let rest = decoded_seq(remaining.skip(1));
                    assert(decoded_seq(remaining) == head + rest);
                    assert((head + rest)[0] == m@);
                    assert((head + rest).skip(1) =~= rest);
                }
                let ghost ob = out@;
                let ghost mv = m@;
                match m {
                    Message::SpawnCube(x) => {
                        out.spawn_cubes.push(x);
                        proof {
                            assert(out@.spawn_cubes =~= ob.spawn_cubes.push(mv->SpawnCube_0));
                        }
                    },
                    Message::UpdateProp(x) => {
                        out.update_props.push(x);
                        proof {
                            assert(out@.update_props =~= ob.update_props.push(mv->UpdateProp_0));
                        }
                    },
                    Message::DeleteProp(x) => {
                        out.delete_props.push(x);
                        proof {
                            assert(out@.delete_props =~= ob.delete_props.push(mv->DeleteProp_0));
                        }
                    },
                    Message::PlayerPosition(x) => {
                        out.player_positions.push(x);
                        proof {
                            assert(out@.player_positions =~= ob.player_positions.push(
                                mv->PlayerPosition_0,
                            ));
                        }
                    },
                    Message::VoiceChat(x) => {
                        out.voice_chat.push(x);
                        proof {
                            assert(out@.voice_chat =~= ob.voice_chat.push(mv->VoiceChat_0));
                        }
                    },
                    Message::AvatarPart(x) => {
                        if allow_parts {
                            out.avatar_parts.push(x);
                            proof {
                                assert(out@.avatar_parts =~= ob.avatar_parts.push(
                                    mv->AvatarPart_0,
                                ));
                            }
                        }
                    },
                }
                proof {
                    assert(out@ == route_one_spec(ob, mv, allow_parts));
                }
            },
            Err(_) => {
                proof {
                    assert(decoded_seq(remaining) == Seq::<MessageV>::empty() + decoded_seq(
                        remaining.skip(1),
                    ));
                    assert(Seq::<MessageV>::empty() + decoded_seq(remaining.skip(1))
                        =~= decoded_seq(remaining.skip(1)));
                }
            },
        }
        i += 1;
    }
    proof {
        assert(raw_views(packets@).skip(packets@.len() as int) =~= Seq::<Seq<u8>>::empty());
    }
}

/// Drains one tick's packets: every reliable packet is routed first, then
/// every unreliable one; each decoded message is queued for its kind's
/// handler, malformed packets are dropped, and chunk messages are accepted
/// from the reliable channel only.
pub fn route_messages(
    reliable: &Vec<(PeerId, Vec<u8>)>,
    unreliable: &Vec<(PeerId, Vec<u8>)>,
) -> (r: RoutedBatch)
    ensures
        r@ == route_spec(
            route_spec(
                RoutedBatchV {
                    spawn_cubes: Seq::empty(),
                    update_props: Seq::empty(),
                    delete_props: Seq::empty(),
                    player_positions: Seq::empty(),
                    voice_chat: Seq::empty(),
                    avatar_parts: Seq::empty(),
                },
                decoded_seq(raw_views(reliable@)),
                true,
            ),
            decoded_seq(raw_views(unreliable@)),
            false,
        ),
{
    let mut out = RoutedBatch {
        spawn_cubes: Vec::new(),
        update_props: Vec::new(),
        delete_props: Vec::new(),
        player_positions: Vec::new(),
        voice_chat: Vec::new(),
        avatar_parts: Vec::new(),
    };
    proof {
        assert(out@.spawn_cubes =~= Seq::<SpawnCubeV>::empty());
        assert(out@.update_props =~= Seq::<UpdatePropV>::empty());
        assert(out@.delete_props =~= Seq::<DeletePropV>::empty());
        assert(out@.player_positions =~= Seq::<PlayerPositionV>::empty());
        assert(out@.voice_chat =~= Seq::<VoiceMsgV>::empty());
        assert(out@.avatar_parts =~= Seq::<AvatarPartEnumV>::empty());
    }
    route_channel(&mut out, reliable, true);
    route_channel(&mut out, unreliable, false);
    out
}

} // verus!

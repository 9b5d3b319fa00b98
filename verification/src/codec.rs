//! Binary wire codec for [`Message`].
//!
//! Every field is written in a fixed little-endian layout: integers as their
//! little-endian bytes, byte blobs and strings as a 64-bit length followed by
//! the raw bytes (strings as UTF-8). Decoding rejects any malformed input
//! with a [`DecodeError`] instead of panicking, since wire bytes come from
//! untrusted peers. Encoding and decoding are exact inverses
//! ([`lemma_round_trip`]).

use vstd::prelude::*;
use vstd::bytes::*;
use vstd::utf8::*;
use vstd::slice::{slice_subrange, slice_to_vec};
use vstd::string::StrSliceExecFns;

use crate::ids::{PeerId, PlayerUuid, PropUuid};
use crate::messages::{
    AngularVelocity, Authority, AuthorityV, AvatarPart, AvatarPartEnum, AvatarPartEnumV,
    AvatarPartV, DeleteProp, DeletePropV, LinearVelocity, Message, MessageV, PlayerPosition,
    PlayerPositionV, Position, Rotation, SpawnCube, SpawnCubeV, UpdateProp, UpdatePropV, VoiceMsg,
    VoiceMsgV,
};

verus! {

/// A wire message that could not be parsed; the message is dropped and
/// processing continues with the next one.
#[derive(Clone, Copy, Debug, PartialEq, Eq, Structural)]
pub struct DecodeError;

// ---------------------------------------------------------------------------
// Spec-level encoders
// ---------------------------------------------------------------------------

pub open spec fn enc_u8(x: u8) -> Seq<u8> {
    seq![x]
}

pub open spec fn enc_u16(x: u16) -> Seq<u8> {
    spec_u16_to_le_bytes(x)
}

pub open spec fn enc_u32(x: u32) -> Seq<u8> {
    spec_u32_to_le_bytes(x)
}

pub open spec fn enc_u64(x: u64) -> Seq<u8> {
    spec_u64_to_le_bytes(x)
}

/// A byte blob: 64-bit length, then the bytes themselves.
pub open spec fn enc_bytes(b: Seq<u8>) -> Seq<u8> {
    enc_u64(b.len() as u64) + b
}

/// A string: its UTF-8 bytes as a blob.
pub open spec fn enc_str(s: Seq<char>) -> Seq<u8> {
    enc_bytes(encode_utf8(s))
}

// ---------------------------------------------------------------------------
// Spec-level decoders: each returns the parsed value and the remaining input,
// or `None` on malformed input.
// ---------------------------------------------------------------------------

pub open spec fn dec_u8(s: Seq<u8>) -> Option<(u8, Seq<u8>)> {
    if s.len() >= 1 {
        Some((s[0], s.skip(1)))
    } else {
        None
    }
}

pub open spec fn dec_u16(s: Seq<u8>) -> Option<(u16, Seq<u8>)> {
    if s.len() >= 2 {
        Some((spec_u16_from_le_bytes(s.subrange(0, 2)), s.skip(2)))
    } else {
        None
    }
}

pub open spec fn dec_u32(s: Seq<u8>) -> Option<(u32, Seq<u8>)> {
    if s.len() >= 4 {
        Some((spec_u32_from_le_bytes(s.subrange(0, 4)), s.skip(4)))
    } else {
        None
    }
}

pub open spec fn dec_u64(s: Seq<u8>) -> Option<(u64, Seq<u8>)> {
    if s.len() >= 8 {
        Some((spec_u64_from_le_bytes(s.subrange(0, 8)), s.skip(8)))
    } else {
        None
    }
}

pub open spec fn dec_bytes(s: Seq<u8>) -> Option<(Seq<u8>, Seq<u8>)> {
    match dec_u64(s) {
        Some((n, r)) => if n as int <= r.len() {
            Some((r.take(n as int), r.skip(n as int)))
        } else {
            None
        },
        None => None,
    }
}

pub open spec fn dec_str(s: Seq<u8>) -> Option<(Seq<char>, Seq<u8>)> {
    match dec_bytes(s) {
        Some((b, r)) => if valid_utf8(b) {
            Some((decode_utf8(b), r))
        } else {
            None
        },
        None => None,
    }
}

pub open spec fn dec_usize(s: Seq<u8>) -> Option<(usize, Seq<u8>)> {
    match dec_u64(s) {
        Some((n, r)) => if n <= usize::MAX as u64 {
            Some((n as usize, r))
        } else {
            None
        },
        None => None,
    }
}

// ---------------------------------------------------------------------------
// Round-trip lemmas for the primitives: decoding an encoded value from the
// front of any input yields the value and leaves the rest untouched.
// ---------------------------------------------------------------------------

pub proof fn lemma_dec_u8(x: u8, rest: Seq<u8>)
    ensures
        dec_u8(enc_u8(x) + rest) == Some((x, rest)),
{
    let s = enc_u8(x) + rest;
    assert(s[0] == x);
    assert(s.skip(1) =~= rest);
}

pub proof fn lemma_dec_u16(x: u16, rest: Seq<u8>)
    ensures
        dec_u16(enc_u16(x) + rest) == Some((x, rest)),
{
    lemma_auto_spec_u16_to_from_le_bytes();
    let s = enc_u16(x) + rest;
    assert(s.subrange(0, 2) =~= enc_u16(x));
    assert(s.skip(2) =~= rest);
}

pub proof fn lemma_dec_u32(x: u32, rest: Seq<u8>)
    ensures
        dec_u32(enc_u32(x) + rest) == Some((x, rest)),
{
    lemma_auto_spec_u32_to_from_le_bytes();
    let s = enc_u32(x) + rest;
    assert(s.subrange(0, 4) =~= enc_u32(x));
    assert(s.skip(4) =~= rest);
}

pub proof fn lemma_dec_u64(x: u64, rest: Seq<u8>)
    ensures
        dec_u64(enc_u64(x) + rest) == Some((x, rest)),
{
    lemma_auto_spec_u64_to_from_le_bytes();
    let s = enc_u64(x) + rest;
    assert(s.subrange(0, 8) =~= enc_u64(x));
    assert(s.skip(8) =~= rest);
}

pub proof fn lemma_dec_bytes(b: Seq<u8>, rest: Seq<u8>)
    requires
        b.len() <= usize::MAX,
    ensures
        dec_bytes(enc_bytes(b) + rest) == Some((b, rest)),
{
    let n = b.len() as u64;
    let s = enc_bytes(b) + rest;
    assert(s =~= enc_u64(n) + (b + rest));
    lemma_dec_u64(n, b + rest);
    let r = (b + rest);
    assert(n as int == b.len());
    assert(r.take(n as int) =~= b);
    assert(r.skip(n as int) =~= rest);
}

pub proof fn lemma_dec_str(t: Seq<char>, rest: Seq<u8>)
    requires
        encode_utf8(t).len() <= usize::MAX,
    ensures
        dec_str(enc_str(t) + rest) == Some((t, rest)),
{
    lemma_dec_bytes(encode_utf8(t), rest);
    broadcast use encode_utf8_valid_utf8;
    broadcast use encode_utf8_decode_utf8;

    assert(decode_utf8(encode_utf8(t)) == t);
}

pub proof fn lemma_dec_usize(x: usize, rest: Seq<u8>)
    ensures
        dec_usize(enc_u64(x as u64) + rest) == Some((x, rest)),
{
    lemma_dec_u64(x as u64, rest);
}

// ---------------------------------------------------------------------------
// Exec encoders: each appends one encoded value to the output buffer.
// ---------------------------------------------------------------------------

pub fn push_u8(out: &mut Vec<u8>, x: u8)
    ensures
        final(out)@ == old(out)@ + enc_u8(x),
{
    out.push(x);
    proof {
        assert(final(out)@ =~= old(out)@ + enc_u8(x));
    }
}

pub fn push_u16(out: &mut Vec<u8>, x: u16)
    ensures
        final(out)@ == old(out)@ + enc_u16(x),
{
    let mut b = u16_to_le_bytes(x);
    out.append(&mut b);
}

pub fn push_u32(out: &mut Vec<u8>, x: u32)
    ensures
        final(out)@ == old(out)@ + enc_u32(x),
{
    let mut b = u32_to_le_bytes(x);
    out.append(&mut b);
}

pub fn push_u64(out: &mut Vec<u8>, x: u64)
    ensures
        final(out)@ == old(out)@ + enc_u64(x),
{
    let mut b = u64_to_le_bytes(x);
    out.append(&mut b);
}

pub fn push_bytes(out: &mut Vec<u8>, b: &Vec<u8>)
    ensures
        final(out)@ == old(out)@ + enc_bytes(b@),
{
    push_u64(out, b.len() as u64);
    let mut copy = slice_to_vec(b.as_slice());
    out.append(&mut copy);
    proof {
        assert(final(out)@ =~= old(out)@ + enc_bytes(b@));
    }
}

pub fn push_str(out: &mut Vec<u8>, s: &String)
    ensures
        final(out)@ == old(out)@ + enc_str(s@),
{
    let bytes = s.as_str().as_bytes_vec();
    push_bytes(out, &bytes);
}

// ---------------------------------------------------------------------------
// Exec decoders: each takes one value off the front of the input slice.
// ---------------------------------------------------------------------------

/// Relies on `String::from_utf8`: it succeeds exactly on valid UTF-8 input,
/// and the returned string's UTF-8 encoding is the input bytes themselves.
#[verifier::external_body]
fn bytes_to_string(v: Vec<u8>) -> (r: Option<String>)
    ensures
        r is Some <==> valid_utf8(v@),
        r matches Some(s) ==> encode_utf8(s@) == v@,
{
    String::from_utf8(v).ok()
}

pub fn take_u8<'a>(s: &'a [u8]) -> (r: Result<(u8, &'a [u8]), DecodeError>)
    ensures
        r matches Ok((x, rest)) ==> dec_u8(s@) == Some((x, rest@)),
        r is Err ==> dec_u8(s@) is None,
{
    if s.len() < 1 {
        return Err(DecodeError);
    }
    let x = s[0];
    let rest = slice_subrange(s, 1, s.len());
    proof {
        assert(rest@ =~= s@.skip(1));
    }
    Ok((x, rest))
}

pub fn take_u16<'a>(s: &'a [u8]) -> (r: Result<(u16, &'a [u8]), DecodeError>)
    ensures
        r matches Ok((x, rest)) ==> dec_u16(s@) == Some((x, rest@)),
        r is Err ==> dec_u16(s@) is None,
{
    if s.len() < 2 {
        return Err(DecodeError);
    }
    let head = slice_subrange(s, 0, 2);
    let x = u16_from_le_bytes(head);
    let rest = slice_subrange(s, 2, s.len());
    proof {
        assert(rest@ =~= s@.skip(2));
    }
    Ok((x, rest))
}

pub fn take_u32<'a>(s: &'a [u8]) -> (r: Result<(u32, &'a [u8]), DecodeError>)
    ensures
        r matches Ok((x, rest)) ==> dec_u32(s@) == Some((x, rest@)),
        r is Err ==> dec_u32(s@) is None,
{
    if s.len() < 4 {
        return Err(DecodeError);
    }
    let head = slice_subrange(s, 0, 4);
    let x = u32_from_le_bytes(head);
    let rest = slice_subrange(s, 4, s.len());
    proof {
        assert(rest@ =~= s@.skip(4));
    }
    Ok((x, rest))
}

pub fn take_u64<'a>(s: &'a [u8]) -> (r: Result<(u64, &'a [u8]), DecodeError>)
    ensures
        r matches Ok((x, rest)) ==> dec_u64(s@) == Some((x, rest@)),
        r is Err ==> dec_u64(s@) is None,
{
    if s.len() < 8 {
        return Err(DecodeError);
    }
    let head = slice_subrange(s, 0, 8);
    let x = u64_from_le_bytes(head);
    let rest = slice_subrange(s, 8, s.len());
    proof {
        assert(rest@ =~= s@.skip(8));
    }
    Ok((x, rest))
}

pub fn take_bytes<'a>(s: &'a [u8]) -> (r: Result<(Vec<u8>, &'a [u8]), DecodeError>)
    ensures
        r matches Ok((b, rest)) ==> dec_bytes(s@) == Some((b@, rest@)),
        r is Err ==> dec_bytes(s@) is None,
{
    let (n, after_len) = match take_u64(s) {
        Ok(v) => v,
        Err(e) => {
            return Err(e);
        },
    };
    if n > after_len.len() as u64 {
        return Err(DecodeError);
    }
    let n_usize = n as usize;
    let data_slice = slice_subrange(after_len, 0, n_usize);
    let data = slice_to_vec(data_slice);
    let rest = slice_subrange(after_len, n_usize, after_len.len());
    proof {
        assert(data@ =~= after_len@.take(n as int));
        assert(rest@ =~= after_len@.skip(n as int));
    }
    Ok((data, rest))
}

pub fn take_str<'a>(s: &'a [u8]) -> (r: Result<(String, &'a [u8]), DecodeError>)
    ensures
        r matches Ok((t, rest)) ==> dec_str(s@) == Some((t@, rest@)),
        r is Err ==> dec_str(s@) is None,
{
    let (bytes, rest) = match take_bytes(s) {
        Ok(v) => v,
        Err(e) => {
            return Err(e);
        },
    };
    let ghost bytes_view = bytes@;
    match bytes_to_string(bytes) {
        Some(t) => {
            proof {
                broadcast use encode_utf8_valid_utf8;
                broadcast use encode_utf8_decode_utf8;

                assert(decode_utf8(bytes_view) == t@);
            }
            Ok((t, rest))
        },
        None => Err(DecodeError),
    }
}

pub fn take_usize<'a>(s: &'a [u8]) -> (r: Result<(usize, &'a [u8]), DecodeError>)
    ensures
        r matches Ok((x, rest)) ==> dec_usize(s@) == Some((x, rest@)),
        r is Err ==> dec_usize(s@) is None,
{
    let (n, rest) = match take_u64(s) {
        Ok(v) => v,
        Err(e) => {
            return Err(e);
        },
    };
    if n > usize::MAX as u64 {
        return Err(DecodeError);
    }
    Ok((n as usize, rest))
}

// ---------------------------------------------------------------------------
// Spec-level layout of the composite fields and of whole messages
// ---------------------------------------------------------------------------

pub open spec fn enc_position(p: Position) -> Seq<u8> {
    enc_u32(p.x) + enc_u32(p.y) + enc_u32(p.z)
}

pub open spec fn enc_rotation(r: Rotation) -> Seq<u8> {
    enc_u32(r.x) + enc_u32(r.y) + enc_u32(r.z) + enc_u32(r.w)
}

pub open spec fn enc_linear_velocity(v: LinearVelocity) -> Seq<u8> {
    enc_u32(v.x) + enc_u32(v.y) + enc_u32(v.z)
}

pub open spec fn enc_angular_velocity(v: AngularVelocity) -> Seq<u8> {
    enc_u32(v.x) + enc_u32(v.y) + enc_u32(v.z)
}

pub open spec fn enc_authority(a: AuthorityV) -> Seq<u8> {
    enc_str(a.player) + enc_u64(a.counter)
}

pub open spec fn enc_spawn_cube(m: SpawnCubeV) -> Seq<u8> {
    enc_authority(m.authority) + enc_str(m.prop_uuid) + enc_position(m.position)
}

pub open spec fn enc_update_prop(m: UpdatePropV) -> Seq<u8> {
    enc_authority(m.authority) + enc_str(m.prop_uuid) + enc_position(m.position) + enc_rotation(
        m.rotation,
    ) + enc_linear_velocity(m.linear_velocity) + enc_angular_velocity(m.angular_velocity)
}

pub open spec fn enc_delete_prop(m: DeletePropV) -> Seq<u8> {
    enc_authority(m.authority) + enc_str(m.prop_uuid)
}

pub open spec fn enc_player_position(m: PlayerPositionV) -> Seq<u8> {
    enc_str(m.player_uuid) + enc_u64(m.peer_id.0) + enc_position(m.position) + enc_rotation(
        m.rotation,
    ) + enc_linear_velocity(m.linear_velocity)
}

pub open spec fn enc_voice_msg(m: VoiceMsgV) -> Seq<u8> {
    enc_bytes(m.data) + enc_str(m.uuid) + enc_u16(m.channels)
}

pub open spec fn enc_avatar_part(m: AvatarPartV) -> Seq<u8> {
    enc_str(m.uuid) + enc_str(m.avatar_name) + enc_bytes(m.data)
}

pub open spec fn enc_avatar_part_enum(m: AvatarPartEnumV) -> Seq<u8> {
    match m {
        AvatarPartEnumV::Len(uuid, len) => enc_u8(TAG_PART_LEN) + enc_str(uuid) + enc_u64(
            len as u64,
        ),
        AvatarPartEnumV::AvatarPart(part) => enc_u8(TAG_PART_DATA) + enc_avatar_part(part),
        AvatarPartEnumV::Done => enc_u8(TAG_PART_DONE),
    }
}

pub const TAG_SPAWN_CUBE: u8 = 1;

pub const TAG_UPDATE_PROP: u8 = 2;

pub const TAG_DELETE_PROP: u8 = 3;

pub const TAG_PLAYER_POSITION: u8 = 4;

pub const TAG_VOICE_CHAT: u8 = 5;

pub const TAG_AVATAR_PART: u8 = 6;

pub const TAG_PART_LEN: u8 = 1;

pub const TAG_PART_DATA: u8 = 2;

pub const TAG_PART_DONE: u8 = 3;

/// The full wire form of one message: a one-byte kind tag, then the fields.
pub open spec fn spec_encode(m: MessageV) -> Seq<u8> {
    match m {
        MessageV::SpawnCube(x) => enc_u8(TAG_SPAWN_CUBE) + enc_spawn_cube(x),
        MessageV::UpdateProp(x) => enc_u8(TAG_UPDATE_PROP) + enc_update_prop(x),
        MessageV::DeleteProp(x) => enc_u8(TAG_DELETE_PROP) + enc_delete_prop(x),
        MessageV::PlayerPosition(x) => enc_u8(TAG_PLAYER_POSITION) + enc_player_position(x),
        MessageV::VoiceChat(x) => enc_u8(TAG_VOICE_CHAT) + enc_voice_msg(x),
        MessageV::AvatarPart(x) => enc_u8(TAG_AVATAR_PART) + enc_avatar_part_enum(x),
    }
}

pub open spec fn dec_position(s: Seq<u8>) -> Option<(Position, Seq<u8>)> {
    match dec_u32(s) {
        Some((x, s)) => match dec_u32(s) {
            Some((y, s)) => match dec_u32(s) {
                Some((z, s)) => Some((Position { x, y, z }, s)),
                None => None,
            },
            None => None,
        },
        None => None,
    }
}

pub open spec fn dec_rotation(s: Seq<u8>) -> Option<(Rotation, Seq<u8>)> {
    match dec_u32(s) {
        Some((x, s)) => match dec_u32(s) {
            Some((y, s)) => match dec_u32(s) {
                Some((z, s)) => match dec_u32(s) {
                    Some((w, s)) => Some((Rotation { x, y, z, w }, s)),
                    None => None,
                },
                None => None,
            },
            None => None,
        },
        None => None,
    }
}

pub open spec fn dec_linear_velocity(s: Seq<u8>) -> Option<(LinearVelocity, Seq<u8>)> {
    match dec_u32(s) {
        Some((x, s)) => match dec_u32(s) {
            Some((y, s)) => match dec_u32(s) {
                Some((z, s)) => Some((LinearVelocity { x, y, z }, s)),
                None => None,
            },
            None => None,
        },
        None => None,
    }
}

pub open spec fn dec_angular_velocity(s: Seq<u8>) -> Option<(AngularVelocity, Seq<u8>)> {
    match dec_u32(s) {
        Some((x, s)) => match dec_u32(s) {
            Some((y, s)) => match dec_u32(s) {
                Some((z, s)) => Some((AngularVelocity { x, y, z }, s)),
                None => None,
            },
            None => None,
        },
        None => None,
    }
}

pub open spec fn dec_authority(s: Seq<u8>) -> Option<(AuthorityV, Seq<u8>)> {
    match dec_str(s) {
        Some((player, s)) => match dec_u64(s) {
            Some((counter, s)) => Some((AuthorityV { player, counter }, s)),
            None => None,
        },
        None => None,
    }
}

pub open spec fn dec_spawn_cube(s: Seq<u8>) -> Option<(SpawnCubeV, Seq<u8>)> {
    match dec_authority(s) {
        Some((authority, s)) => match dec_str(s) {
            Some((prop_uuid, s)) => match dec_position(s) {
                Some((position, s)) => Some((SpawnCubeV { authority, prop_uuid, position }, s)),
                None => None,
            },
            None => None,
        },
        None => None,
    }
}

pub open spec fn dec_update_prop(s: Seq<u8>) -> Option<(UpdatePropV, Seq<u8>)> {
    match dec_authority(s) {
        Some((authority, s)) => match dec_str(s) {
            Some((prop_uuid, s)) => match dec_position(s) {
                Some((position, s)) => match dec_rotation(s) {
                    Some((rotation, s)) => match dec_linear_velocity(s) {
                        Some((linear_velocity, s)) => match dec_angular_velocity(s) {
                            Some((angular_velocity, s)) => Some(
                                (
                                    UpdatePropV {
                                        authority,
                                        prop_uuid,
                                        position,
                                        rotation,
                                        linear_velocity,
                                        angular_velocity,
                                    },
                                    s,
                                ),
                            ),
                            None => None,
                        },
                        None => None,
                    },
                    None => None,
                },
                None => None,
            },
            None => None,
        },
        None => None,
    }
}

pub open spec fn dec_delete_prop(s: Seq<u8>) -> Option<(DeletePropV, Seq<u8>)> {
    match dec_authority(s) {
        Some((authority, s)) => match dec_str(s) {
            Some((prop_uuid, s)) => Some((DeletePropV { authority, prop_uuid }, s)),
            None => None,
        },
        None => None,
    }
}

pub open spec fn dec_player_position(s: Seq<u8>) -> Option<(PlayerPositionV, Seq<u8>)> {
    match dec_str(s) {
        Some((player_uuid, s)) => match dec_u64(s) {
            Some((peer, s)) => match dec_position(s) {
                Some((position, s)) => match dec_rotation(s) {
                    Some((rotation, s)) => match dec_linear_velocity(s) {
                        Some((linear_velocity, s)) => Some(
                            (
                                PlayerPositionV {
                                    player_uuid,
                                    peer_id: PeerId(peer),
                                    position,
                                    rotation,
                                    linear_velocity,
                                },
                                s,
                            ),
                        ),
                        None => None,
                    },
                    None => None,
                },
                None => None,
            },
            None => None,
        },
        None => None,
    }
}

pub open spec fn dec_voice_msg(s: Seq<u8>) -> Option<(VoiceMsgV, Seq<u8>)> {
    match dec_bytes(s) {
        Some((data, s)) => match dec_str(s) {
            Some((uuid, s)) => match dec_u16(s) {
                Some((channels, s)) => Some((VoiceMsgV { data, uuid, channels }, s)),
                None => None,
            },
            None => None,
        },
        None => None,
    }
}

pub open spec fn dec_avatar_part(s: Seq<u8>) -> Option<(AvatarPartV, Seq<u8>)> {
    match dec_str(s) {
        Some((uuid, s)) => match dec_str(s) {
            Some((avatar_name, s)) => match dec_bytes(s) {
                Some((data, s)) => Some((AvatarPartV { uuid, avatar_name, data }, s)),
                None => None,
            },
            None => None,
        },
        None => None,
    }
}

pub open spec fn dec_avatar_part_enum(s: Seq<u8>) -> Option<(AvatarPartEnumV, Seq<u8>)> {
    match dec_u8(s) {
        Some((tag, s)) => if tag == TAG_PART_LEN {
            match dec_str(s) {
                Some((uuid, s)) => match dec_usize(s) {
                    Some((len, s)) => Some((AvatarPartEnumV::Len(uuid, len), s)),
                    None => None,
                },
                None => None,
            }
        } else if tag == TAG_PART_DATA {
            match dec_avatar_part(s) {
                Some((part, s)) => Some((AvatarPartEnumV::AvatarPart(part), s)),
                None => None,
            }
        } else if tag == TAG_PART_DONE {
            Some((AvatarPartEnumV::Done, s))
        } else {
            None
        },
        None => None,
    }
}

/// The unique message a byte string is the wire form of, if any: the kind tag
/// selects the layout, the fields follow, and no trailing bytes may remain.
pub open spec fn spec_decode(s: Seq<u8>) -> Option<MessageV> {
    match dec_u8(s) {
        Some((tag, s)) => if tag == TAG_SPAWN_CUBE {
            match dec_spawn_cube(s) {
                Some((m, s)) => if s.len() == 0 {
                    Some(MessageV::SpawnCube(m))
                } else {
                    None
                },
                None => None,
            }
        } else if tag == TAG_UPDATE_PROP {
            match dec_update_prop(s) {
                Some((m, s)) => if s.len() == 0 {
                    Some(MessageV::UpdateProp(m))
                } else {
                    None
                },
                None => None,
            }
        } else if tag == TAG_DELETE_PROP {
            match dec_delete_prop(s) {
                Some((m, s)) => if s.len() == 0 {
                    Some(MessageV::DeleteProp(m))
                } else {
                    None
                },
                None => None,
            }
        } else if tag == TAG_PLAYER_POSITION {
            match dec_player_position(s) {
                Some((m, s)) => if s.len() == 0 {
                    Some(MessageV::PlayerPosition(m))
                } else {
                    None
                },
                None => None,
            }
        } else if tag == TAG_VOICE_CHAT {
            match dec_voice_msg(s) {
                Some((m, s)) => if s.len() == 0 {
                    Some(MessageV::VoiceChat(m))
                } else {
                    None
                },
                None => None,
            }
        } else if tag == TAG_AVATAR_PART {
            match dec_avatar_part_enum(s) {
                Some((m, s)) => if s.len() == 0 {
                    Some(MessageV::AvatarPart(m))
                } else {
                    None
                },
                None => None,
            }
        } else {
            None
        },
        None => None,
    }
}

// ---------------------------------------------------------------------------
// Validity of field values, and the round-trip law
// ---------------------------------------------------------------------------

/// A string is representable on the wire when its UTF-8 form fits in memory;
/// every string held by an executable `String` satisfies this.
pub open spec fn wf_str(s: Seq<char>) -> bool {
    encode_utf8(s).len() <= usize::MAX
}

pub open spec fn wf_authority(a: AuthorityV) -> bool {
    wf_str(a.player)
}

/// A message whose variable-length fields all fit in memory; every message
/// value built from executable `String`s and `Vec`s satisfies this.
pub open spec fn wf_message(m: MessageV) -> bool {
    match m {
        MessageV::SpawnCube(x) => wf_authority(x.authority) && wf_str(x.prop_uuid),
        MessageV::UpdateProp(x) => wf_authority(x.authority) && wf_str(x.prop_uuid),
        MessageV::DeleteProp(x) => wf_authority(x.authority) && wf_str(x.prop_uuid),
        MessageV::PlayerPosition(x) => wf_str(x.player_uuid),
        MessageV::VoiceChat(x) => wf_str(x.uuid) && x.data.len() <= usize::MAX,
        MessageV::AvatarPart(x) => match x {
            AvatarPartEnumV::Len(uuid, _) => wf_str(uuid),
            AvatarPartEnumV::AvatarPart(p) => wf_str(p.uuid) && wf_str(p.avatar_name) && p.data.len()
                <= usize::MAX,
            AvatarPartEnumV::Done => true,
        },
    }
}

pub proof fn lemma_dec_position(p: Position, rest: Seq<u8>)
    ensures
        dec_position(enc_position(p) + rest) == Some((p, rest)),
{
    let s = enc_position(p) + rest;
    assert(s =~= enc_u32(p.x) + (enc_u32(p.y) + (enc_u32(p.z) + rest)));
    lemma_dec_u32(p.x, enc_u32(p.y) + (enc_u32(p.z) + rest));
    lemma_dec_u32(p.y, enc_u32(p.z) + rest);
    lemma_dec_u32(p.z, rest);
}

pub proof fn lemma_dec_rotation(r: Rotation, rest: Seq<u8>)
    ensures
        dec_rotation(enc_rotation(r) + rest) == Some((r, rest)),
{
    let s = enc_rotation(r) + rest;
    assert(s =~= enc_u32(r.x) + (enc_u32(r.y) + (enc_u32(r.z) + (enc_u32(r.w) + rest))));
    lemma_dec_u32(r.x, enc_u32(r.y) + (enc_u32(r.z) + (enc_u32(r.w) + rest)));
    lemma_dec_u32(r.y, enc_u32(r.z) + (enc_u32(r.w) + rest));
    lemma_dec_u32(r.z, enc_u32(r.w) + rest);
    lemma_dec_u32(r.w, rest);
}

pub proof fn lemma_dec_linear_velocity(v: LinearVelocity, rest: Seq<u8>)
    ensures
        dec_linear_velocity(enc_linear_velocity(v) + rest) == Some((v, rest)),
{
    let s = enc_linear_velocity(v) + rest;
    assert(s =~= enc_u32(v.x) + (enc_u32(v.y) + (enc_u32(v.z) + rest)));
    lemma_dec_u32(v.x, enc_u32(v.y) + (enc_u32(v.z) + rest));
    lemma_dec_u32(v.y, enc_u32(v.z) + rest);
    lemma_dec_u32(v.z, rest);
}

pub proof fn lemma_dec_angular_velocity(v: AngularVelocity, rest: Seq<u8>)
    ensures
        dec_angular_velocity(enc_angular_velocity(v) + rest) == Some((v, rest)),
{
    let s = enc_angular_velocity(v) + rest;
    assert(s =~= enc_u32(v.x) + (enc_u32(v.y) + (enc_u32(v.z) + rest)));
    lemma_dec_u32(v.x, enc_u32(v.y) + (enc_u32(v.z) + rest));
    lemma_dec_u32(v.y, enc_u32(v.z) + rest);
    lemma_dec_u32(v.z, rest);
}

pub proof fn lemma_dec_authority(a: AuthorityV, rest: Seq<u8>)
    requires
        wf_authority(a),
    ensures
        dec_authority(enc_authority(a) + rest) == Some((a, rest)),
{
    let s = enc_authority(a) + rest;
    assert(s =~= enc_str(a.player) + (enc_u64(a.counter) + rest));
    lemma_dec_str(a.player, enc_u64(a.counter) + rest);
    lemma_dec_u64(a.counter, rest);
}

pub proof fn lemma_dec_spawn_cube(m: SpawnCubeV, rest: Seq<u8>)
    requires
        wf_authority(m.authority),
        wf_str(m.prop_uuid),
    ensures
        dec_spawn_cube(enc_spawn_cube(m) + rest) == Some((m, rest)),
{
    let s = enc_spawn_cube(m) + rest;
    assert(s =~= enc_authority(m.authority) + (enc_str(m.prop_uuid) + (enc_position(m.position)
        + rest)));
    lemma_dec_authority(m.authority, enc_str(m.prop_uuid) + (enc_position(m.position) + rest));
    lemma_dec_str(m.prop_uuid, enc_position(m.position) + rest);
    lemma_dec_position(m.position, rest);
}

pub proof fn lemma_dec_update_prop(m: UpdatePropV, rest: Seq<u8>)
    requires
        wf_authority(m.authority),
        wf_str(m.prop_uuid),
    ensures
        dec_update_prop(enc_update_prop(m) + rest) == Some((m, rest)),
{
    let tail4 = enc_angular_velocity(m.angular_velocity) + rest;
    let tail3 = enc_linear_velocity(m.linear_velocity) + tail4;
    let tail2 = enc_rotation(m.rotation) + tail3;
    let tail1 = enc_position(m.position) + tail2;
    let tail0 = enc_str(m.prop_uuid) + tail1;
    let s = enc_update_prop(m) + rest;
    assert(s =~= enc_authority(m.authority) + tail0);
    lemma_dec_authority(m.authority, tail0);
    lemma_dec_str(m.prop_uuid, tail1);
    lemma_dec_position(m.position, tail2);
    lemma_dec_rotation(m.rotation, tail3);
    lemma_dec_linear_velocity(m.linear_velocity, tail4);
    lemma_dec_angular_velocity(m.angular_velocity, rest);
}

pub proof fn lemma_dec_delete_prop(m: DeletePropV, rest: Seq<u8>)
    requires
        wf_authority(m.authority),
        wf_str(m.prop_uuid),
    ensures
        dec_delete_prop(enc_delete_prop(m) + rest) == Some((m, rest)),
{
    let s = enc_delete_prop(m) + rest;
    assert(s =~= enc_authority(m.authority) + (enc_str(m.prop_uuid) + rest));
    lemma_dec_authority(m.authority, enc_str(m.prop_uuid) + rest);
    lemma_dec_str(m.prop_uuid, rest);
}

pub proof fn lemma_dec_player_position(m: PlayerPositionV, rest: Seq<u8>)
    requires
        wf_str(m.player_uuid),
    ensures
        dec_player_position(enc_player_position(m) + rest) == Some((m, rest)),
{
    let tail3 = enc_linear_velocity(m.linear_velocity) + rest;
    let tail2 = enc_rotation(m.rotation) + tail3;
    let tail1 = enc_position(m.position) + tail2;
    let tail0 = enc_u64(m.peer_id.0) + tail1;
    let s = enc_player_position(m) + rest;
    assert(s =~= enc_str(m.player_uuid) + tail0);
    lemma_dec_str(m.player_uuid, tail0);
    lemma_dec_u64(m.peer_id.0, tail1);
    lemma_dec_position(m.position, tail2);
    lemma_dec_rotation(m.rotation, tail3);
    lemma_dec_linear_velocity(m.linear_velocity, rest);
    assert(PeerId(m.peer_id.0) == m.peer_id);
}

pub proof fn lemma_dec_voice_msg(m: VoiceMsgV, rest: Seq<u8>)
    requires
        wf_str(m.uuid),
        m.data.len() <= usize::MAX,
    ensures
        dec_voice_msg(enc_voice_msg(m) + rest) == Some((m, rest)),
{
    let s = enc_voice_msg(m) + rest;
    assert(s =~= enc_bytes(m.data) + (enc_str(m.uuid) + (enc_u16(m.channels) + rest)));
    lemma_dec_bytes(m.data, enc_str(m.uuid) + (enc_u16(m.channels) + rest));
    lemma_dec_str(m.uuid, enc_u16(m.channels) + rest);
    lemma_dec_u16(m.channels, rest);
}

pub proof fn lemma_dec_avatar_part(m: AvatarPartV, rest: Seq<u8>)
    requires
        wf_str(m.uuid),
        wf_str(m.avatar_name),
        m.data.len() <= usize::MAX,
    ensures
        dec_avatar_part(enc_avatar_part(m) + rest) == Some((m, rest)),
{
    let s = enc_avatar_part(m) + rest;
    assert(s =~= enc_str(m.uuid) + (enc_str(m.avatar_name) + (enc_bytes(m.data) + rest)));
    lemma_dec_str(m.uuid, enc_str(m.avatar_name) + (enc_bytes(m.data) + rest));
    lemma_dec_str(m.avatar_name, enc_bytes(m.data) + rest);
    lemma_dec_bytes(m.data, rest);
}

pub proof fn lemma_dec_avatar_part_enum(m: AvatarPartEnumV, rest: Seq<u8>)
    requires
        wf_message(MessageV::AvatarPart(m)),
    ensures
        dec_avatar_part_enum(enc_avatar_part_enum(m) + rest) == Some((m, rest)),
{
    match m {
        AvatarPartEnumV::Len(uuid, len) => {
            let s = enc_avatar_part_enum(m) + rest;
            assert(s =~= enc_u8(TAG_PART_LEN) + (enc_str(uuid) + (enc_u64(len as u64) + rest)));
            lemma_dec_u8(TAG_PART_LEN, enc_str(uuid) + (enc_u64(len as u64) + rest));
            lemma_dec_str(uuid, enc_u64(len as u64) + rest);
            lemma_dec_usize(len, rest);
        },
        AvatarPartEnumV::AvatarPart(part) => {
            let s = enc_avatar_part_enum(m) + rest;
            assert(s =~= enc_u8(TAG_PART_DATA) + (enc_avatar_part(part) + rest));
            lemma_dec_u8(TAG_PART_DATA, enc_avatar_part(part) + rest);
            lemma_dec_avatar_part(part, rest);
        },
        AvatarPartEnumV::Done => {
            let s = enc_avatar_part_enum(m) + rest;
            assert(s =~= enc_u8(TAG_PART_DONE) + rest);
            lemma_dec_u8(TAG_PART_DONE, rest);
        },
    }
}

/// Round-trip law: decoding the encoding of any valid message yields exactly
/// that message.
pub proof fn lemma_round_trip(m: MessageV)
    requires
        wf_message(m),
    ensures
        spec_decode(spec_encode(m)) == Some(m),
{
    let empty = Seq::<u8>::empty();
    match m {
        MessageV::SpawnCube(x) => {
            assert(spec_encode(m) =~= enc_u8(TAG_SPAWN_CUBE) + (enc_spawn_cube(x) + empty));
            lemma_dec_u8(TAG_SPAWN_CUBE, enc_spawn_cube(x) + empty);
            assert(enc_spawn_cube(x) + empty =~= enc_spawn_cube(x));
            lemma_dec_spawn_cube(x, empty);
        },
        MessageV::UpdateProp(x) => {
            assert(spec_encode(m) =~= enc_u8(TAG_UPDATE_PROP) + (enc_update_prop(x) + empty));
            lemma_dec_u8(TAG_UPDATE_PROP, enc_update_prop(x) + empty);
            assert(enc_update_prop(x) + empty =~= enc_update_prop(x));
            lemma_dec_update_prop(x, empty);
        },
        MessageV::DeleteProp(x) => {
            assert(spec_encode(m) =~= enc_u8(TAG_DELETE_PROP) + (enc_delete_prop(x) + empty));
            lemma_dec_u8(TAG_DELETE_PROP, enc_delete_prop(x) + empty);
            assert(enc_delete_prop(x) + empty =~= enc_delete_prop(x));
            lemma_dec_delete_prop(x, empty);
        },
        MessageV::PlayerPosition(x) => {
            assert(spec_encode(m) =~= enc_u8(TAG_PLAYER_POSITION) + (enc_player_position(x)
                + empty));
            lemma_dec_u8(TAG_PLAYER_POSITION, enc_player_position(x) + empty);
            assert(enc_player_position(x) + empty =~= enc_player_position(x));
            lemma_dec_player_position(x, empty);
        },
        MessageV::VoiceChat(x) => {
            assert(spec_encode(m) =~= enc_u8(TAG_VOICE_CHAT) + (enc_voice_msg(x) + empty));
            lemma_dec_u8(TAG_VOICE_CHAT, enc_voice_msg(x) + empty);
            assert(enc_voice_msg(x) + empty =~= enc_voice_msg(x));
            lemma_dec_voice_msg(x, empty);
        },
        MessageV::AvatarPart(x) => {
            assert(spec_encode(m) =~= enc_u8(TAG_AVATAR_PART) + (enc_avatar_part_enum(x) + empty));
            lemma_dec_u8(TAG_AVATAR_PART, enc_avatar_part_enum(x) + empty);
            assert(enc_avatar_part_enum(x) + empty =~= enc_avatar_part_enum(x));
            lemma_dec_avatar_part_enum(x, empty);
        },
    }
}

// ---------------------------------------------------------------------------
// Exec encoding
// ---------------------------------------------------------------------------

fn push_position(out: &mut Vec<u8>, p: Position)
    ensures
        final(out)@ == old(out)@ + enc_position(p),
{
    push_u32(out, p.x);
    push_u32(out, p.y);
    push_u32(out, p.z);
    proof {
        assert(final(out)@ =~= old(out)@ + enc_position(p));
    }
}

fn push_rotation(out: &mut Vec<u8>, r: Rotation)
    ensures
        final(out)@ == old(out)@ + enc_rotation(r),
{
    push_u32(out, r.x);
    push_u32(out, r.y);
    push_u32(out, r.z);
    push_u32(out, r.w);
    proof {
        assert(final(out)@ =~= old(out)@ + enc_rotation(r));
    }
}

fn push_linear_velocity(out: &mut Vec<u8>, v: LinearVelocity)
    ensures
        final(out)@ == old(out)@ + enc_linear_velocity(v),
{
    push_u32(out, v.x);
    push_u32(out, v.y);
    push_u32(out, v.z);
    proof {
        assert(final(out)@ =~= old(out)@ + enc_linear_velocity(v));
    }
}

fn push_angular_velocity(out: &mut Vec<u8>, v: AngularVelocity)
    ensures
        final(out)@ == old(out)@ + enc_angular_velocity(v),
{
    push_u32(out, v.x);
    push_u32(out, v.y);
    push_u32(out, v.z);
    proof {
        assert(final(out)@ =~= old(out)@ + enc_angular_velocity(v));
    }
}

fn push_authority(out: &mut Vec<u8>, a: &Authority)
    ensures
        final(out)@ == old(out)@ + enc_authority(a@),
{
    push_str(out, &a.player.0);
    push_u64(out, a.counter);
    proof {
        assert(final(out)@ =~= old(out)@ + enc_authority(a@));
    }
}

fn push_spawn_cube(out: &mut Vec<u8>, m: &SpawnCube)
    ensures
        final(out)@ == old(out)@ + enc_spawn_cube(m@),
{
    push_authority(out, &m.authority);
    push_str(out, &m.prop_uuid.0);
    push_position(out, m.position);
    proof {
        assert(final(out)@ =~= old(out)@ + enc_spawn_cube(m@));
    }
}

fn push_update_prop(out: &mut Vec<u8>, m: &UpdateProp)
    ensures
        final(out)@ == old(out)@ + enc_update_prop(m@),
{
    push_authority(out, &m.authority);
    push_str(out, &m.prop_uuid.0);
    push_position(out, m.position);
    push_rotation(out, m.rotation);
    push_linear_velocity(out, m.linear_velocity);
    push_angular_velocity(out, m.angular_velocity);
    proof {
        assert(final(out)@ =~= old(out)@ + enc_update_prop(m@));
    }
}

fn push_delete_prop(out: &mut Vec<u8>, m: &DeleteProp)
    ensures
        final(out)@ == old(out)@ + enc_delete_prop(m@),
{
    push_authority(out, &m.authority);
    push_str(out, &m.prop_uuid.0);
    proof {
        assert(final(out)@ =~= old(out)@ + enc_delete_prop(m@));
    }
}

fn push_player_position(out: &mut Vec<u8>, m: &PlayerPosition)
    ensures
        final(out)@ == old(out)@ + enc_player_position(m@),
{
    push_str(out, &m.player_uuid.0);
    push_u64(out, m.peer_id.0);
    push_position(out, m.position);
    push_rotation(out, m.rotation);
    push_linear_velocity(out, m.linear_velocity);
    proof {
        assert(final(out)@ =~= old(out)@ + enc_player_position(m@));
    }
}

fn push_voice_msg(out: &mut Vec<u8>, m: &VoiceMsg)
    ensures
        final(out)@ == old(out)@ + enc_voice_msg(m@),
{
    push_bytes(out, &m.data);
    push_str(out, &m.uuid.0);
    push_u16(out, m.channels);
    proof {
        assert(final(out)@ =~= old(out)@ + enc_voice_msg(m@));
    }
}

fn push_avatar_part(out: &mut Vec<u8>, m: &AvatarPart)
    ensures
        final(out)@ == old(out)@ + enc_avatar_part(m@),
{
    push_str(out, &m.uuid.0);
    push_str(out, &m.avatar_name);
    push_bytes(out, &m.data);
    proof {
        assert(final(out)@ =~= old(out)@ + enc_avatar_part(m@));
    }
}

fn push_avatar_part_enum(out: &mut Vec<u8>, m: &AvatarPartEnum)
    ensures
        final(out)@ == old(out)@ + enc_avatar_part_enum(m@),
{
    match m {
        AvatarPartEnum::Len(uuid, len) => {
            push_u8(out, TAG_PART_LEN);
            push_str(out, &uuid.0);
            push_u64(out, *len as u64);
        },
        AvatarPartEnum::AvatarPart(part) => {
            push_u8(out, TAG_PART_DATA);
            push_avatar_part(out, part);
        },
        AvatarPartEnum::Done => {
            push_u8(out, TAG_PART_DONE);
        },
    }
    proof {
        assert(final(out)@ =~= old(out)@ + enc_avatar_part_enum(m@));
    }
}

/// Serializes one message into its wire form.
pub fn encode(m: &Message) -> (r: Vec<u8>)
    ensures
        r@ == spec_encode(m@),
{
    let mut out: Vec<u8> = Vec::new();
    match m {
        Message::SpawnCube(x) => {
            push_u8(&mut out, TAG_SPAWN_CUBE);
            push_spawn_cube(&mut out, x);
        },
        Message::UpdateProp(x) => {
            push_u8(&mut out, TAG_UPDATE_PROP);
            push_update_prop(&mut out, x);
        },
        Message::DeleteProp(x) => {
            push_u8(&mut out, TAG_DELETE_PROP);
            push_delete_prop(&mut out, x);
        },
        Message::PlayerPosition(x) => {
            push_u8(&mut out, TAG_PLAYER_POSITION);
            push_player_position(&mut out, x);
        },
        Message::VoiceChat(x) => {
            push_u8(&mut out, TAG_VOICE_CHAT);
            push_voice_msg(&mut out, x);
        },
        Message::AvatarPart(x) => {
            push_u8(&mut out, TAG_AVATAR_PART);
            push_avatar_part_enum(&mut out, x);
        },
    }
    proof {
        assert(out@ =~= spec_encode(m@));
    }
    out
}

// ---------------------------------------------------------------------------
// Exec decoding
// ---------------------------------------------------------------------------

fn take_position<'a>(s: &'a [u8]) -> (r: Result<(Position, &'a [u8]), DecodeError>)
    ensures
        r matches Ok((v, rest)) ==> dec_position(s@) == Some((v, rest@)),
        r is Err ==> dec_position(s@) is None,
{
    let (x, s) = take_u32(s)?;
    let (y, s) = take_u32(s)?;
    let (z, s) = take_u32(s)?;
    Ok((Position { x, y, z }, s))
}

fn take_rotation<'a>(s: &'a [u8]) -> (r: Result<(Rotation, &'a [u8]), DecodeError>)
    ensures
        r matches Ok((v, rest)) ==> dec_rotation(s@) == Some((v, rest@)),
        r is Err ==> dec_rotation(s@) is None,
{
    let (x, s) = take_u32(s)?;
    let (y, s) = take_u32(s)?;
    let (z, s) = take_u32(s)?;
    let (w, s) = take_u32(s)?;
    Ok((Rotation { x, y, z, w }, s))
}

fn take_linear_velocity<'a>(s: &'a [u8]) -> (r: Result<(LinearVelocity, &'a [u8]), DecodeError>)
    ensures
        r matches Ok((v, rest)) ==> dec_linear_velocity(s@) == Some((v, rest@)),
        r is Err ==> dec_linear_velocity(s@) is None,
{
    let (x, s) = take_u32(s)?;
    let (y, s) = take_u32(s)?;
    let (z, s) = take_u32(s)?;
    Ok((LinearVelocity { x, y, z }, s))
}

fn take_angular_velocity<'a>(s: &'a [u8]) -> (r: Result<(AngularVelocity, &'a [u8]), DecodeError>)
    ensures
        r matches Ok((v, rest)) ==> dec_angular_velocity(s@) == Some((v, rest@)),
        r is Err ==> dec_angular_velocity(s@) is None,
{
    let (x, s) = take_u32(s)?;
    let (y, s) = take_u32(s)?;
    let (z, s) = take_u32(s)?;
    Ok((AngularVelocity { x, y, z }, s))
}

fn take_authority<'a>(s: &'a [u8]) -> (r: Result<(Authority, &'a [u8]), DecodeError>)
    ensures
        r matches Ok((v, rest)) ==> dec_authority(s@) == Some((v@, rest@)),
        r is Err ==> dec_authority(s@) is None,
{
    let (player, s) = take_str(s)?;
    let (counter, s) = take_u64(s)?;
    Ok((Authority { player: PlayerUuid(player), counter }, s))
}

fn take_spawn_cube<'a>(s: &'a [u8]) -> (r: Result<(SpawnCube, &'a [u8]), DecodeError>)
    ensures
        r matches Ok((v, rest)) ==> dec_spawn_cube(s@) == Some((v@, rest@)),
        r is Err ==> dec_spawn_cube(s@) is None,
{
    let (authority, s) = take_authority(s)?;
    let (prop_uuid, s) = take_str(s)?;
    let (position, s) = take_position(s)?;
    Ok((SpawnCube { authority, prop_uuid: PropUuid(prop_uuid), position }, s))
}

fn take_update_prop<'a>(s: &'a [u8]) -> (r: Result<(UpdateProp, &'a [u8]), DecodeError>)
    ensures
        r matches Ok((v, rest)) ==> dec_update_prop(s@) == Some((v@, rest@)),
        r is Err ==> dec_update_prop(s@) is None,
{
    let (authority, s) = take_authority(s)?;
    let (prop_uuid, s) = take_str(s)?;
    let (position, s) = take_position(s)?;
    let (rotation, s) = take_rotation(s)?;
    let (linear_velocity, s) = take_linear_velocity(s)?;
    let (angular_velocity, s) = take_angular_velocity(s)?;
    Ok(
        (
            UpdateProp {
                authority,
                prop_uuid: PropUuid(prop_uuid),
                position,
                rotation,
                linear_velocity,
                angular_velocity,
            },
            s,
        ),
    )
}

fn take_delete_prop<'a>(s: &'a [u8]) -> (r: Result<(DeleteProp, &'a [u8]), DecodeError>)
    ensures
        r matches Ok((v, rest)) ==> dec_delete_prop(s@) == Some((v@, rest@)),
        r is Err ==> dec_delete_prop(s@) is None,
{
    let (authority, s) = take_authority(s)?;
    let (prop_uuid, s) = take_str(s)?;
    Ok((DeleteProp { authority, prop_uuid: PropUuid(prop_uuid) }, s))
}

fn take_player_position<'a>(s: &'a [u8]) -> (r: Result<(PlayerPosition, &'a [u8]), DecodeError>)
    ensures
        r matches Ok((v, rest)) ==> dec_player_position(s@) == Some((v@, rest@)),
        r is Err ==> dec_player_position(s@) is None,
{
    let (player_uuid, s) = take_str(s)?;
    let (peer, s) = take_u64(s)?;
    let (position, s) = take_position(s)?;
    let (rotation, s) = take_rotation(s)?;
    let (linear_velocity, s) = take_linear_velocity(s)?;
    Ok(
        (
            PlayerPosition {
                player_uuid: PlayerUuid(player_uuid),
                peer_id: PeerId(peer),
                position,
                rotation,
                linear_velocity,
            },
            s,
        ),
    )
}

fn take_voice_msg<'a>(s: &'a [u8]) -> (r: Result<(VoiceMsg, &'a [u8]), DecodeError>)
    ensures
        r matches Ok((v, rest)) ==> dec_voice_msg(s@) == Some((v@, rest@)),
        r is Err ==> dec_voice_msg(s@) is None,
{
    let (data, s) = take_bytes(s)?;
    let (uuid, s) = take_str(s)?;
    let (channels, s) = take_u16(s)?;
    Ok((VoiceMsg { data, uuid: PlayerUuid(uuid), channels }, s))
}

fn take_avatar_part<'a>(s: &'a [u8]) -> (r: Result<(AvatarPart, &'a [u8]), DecodeError>)
    ensures
        r matches Ok((v, rest)) ==> dec_avatar_part(s@) == Some((v@, rest@)),
        r is Err ==> dec_avatar_part(s@) is None,
{
    let (uuid, s) = take_str(s)?;
    let (avatar_name, s) = take_str(s)?;
    let (data, s) = take_bytes(s)?;
    Ok((AvatarPart { uuid: PlayerUuid(uuid), avatar_name, data }, s))
}

fn take_avatar_part_enum<'a>(s: &'a [u8]) -> (r: Result<(AvatarPartEnum, &'a [u8]), DecodeError>)
    ensures
        r matches Ok((v, rest)) ==> dec_avatar_part_enum(s@) == Some((v@, rest@)),
        r is Err ==> dec_avatar_part_enum(s@) is None,
{
    let (tag, s) = take_u8(s)?;
    if tag == TAG_PART_LEN {
        let (uuid, s) = take_str(s)?;
        let (len, s) = take_usize(s)?;
        Ok((AvatarPartEnum::Len(PlayerUuid(uuid), len), s))
    } else if tag == TAG_PART_DATA {
        let (part, s) = take_avatar_part(s)?;
        Ok((AvatarPartEnum::AvatarPart(part), s))
    } else if tag == TAG_PART_DONE {
        Ok((AvatarPartEnum::Done, s))
    } else {
        Err(DecodeError)
    }
}

/// Parses one wire message. Fails with [`DecodeError`] on any input that is
/// not exactly the encoding of one message; a failure never panics, so a
/// malformed message from a peer can be dropped and processing can continue.
pub fn decode(bytes: &[u8]) -> (r: Result<Message, DecodeError>)
    ensures
        r matches Ok(m) ==> spec_decode(bytes@) == Some(m@),
        r is Err ==> spec_decode(bytes@) is None,
{
    let (tag, s) = take_u8(bytes)?;
    if tag == TAG_SPAWN_CUBE {
        let (m, s) = take_spawn_cube(s)?;
        if s.len() != 0 {
            return Err(DecodeError);
        }
        Ok(Message::SpawnCube(m))
    } else if tag == TAG_UPDATE_PROP {
        let (m, s) = take_update_prop(s)?;
        if s.len() != 0 {
            return Err(DecodeError);
        }
        Ok(Message::UpdateProp(m))
    } else if tag == TAG_DELETE_PROP {
        let (m, s) = take_delete_prop(s)?;
        if s.len() != 0 {
            return Err(DecodeError);
        }
        Ok(Message::DeleteProp(m))
    } else if tag == TAG_PLAYER_POSITION {
        let (m, s) = take_player_position(s)?;
        if s.len() != 0 {
            return Err(DecodeError);
        }
        Ok(Message::PlayerPosition(m))
    } else if tag == TAG_VOICE_CHAT {
        let (m, s) = take_voice_msg(s)?;
        if s.len() != 0 {
            return Err(DecodeError);
        }
        Ok(Message::VoiceChat(m))
    } else if tag == TAG_AVATAR_PART {
        let (m, s) = take_avatar_part_enum(s)?;
        if s.len() != 0 {
            return Err(DecodeError);
        }
        Ok(Message::AvatarPart(m))
    } else {
        Err(DecodeError)
    }
}

} // verus!



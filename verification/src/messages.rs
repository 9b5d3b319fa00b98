//! The wire messages exchanged between peers, and their mathematical views.
//!
//! Transform components carry their scalar coordinates as 32-bit patterns:
//! the sync layer never interprets a coordinate, it only moves it between
//! peers bit-exactly, so each scalar is held and transported as the raw
//! 32-bit value the engine handed over.

use vstd::prelude::*;

use crate::ids::{PeerId, PlayerUuid, PropUuid};

verus! {

/// A prop's world position; each coordinate is an opaque 32-bit pattern.
#[derive(Clone, Copy, Debug, PartialEq, Eq, Structural)]
pub struct Position {
    pub x: u32,
    pub y: u32,
    pub z: u32,
}

/// A prop's orientation quaternion; each component is an opaque 32-bit pattern.
#[derive(Clone, Copy, Debug, PartialEq, Eq, Structural)]
pub struct Rotation {
    pub x: u32,
    pub y: u32,
    pub z: u32,
    pub w: u32,
}

/// Linear velocity; each coordinate is an opaque 32-bit pattern.
#[derive(Clone, Copy, Debug, PartialEq, Eq, Structural)]
pub struct LinearVelocity {
    pub x: u32,
    pub y: u32,
    pub z: u32,
}

/// Angular velocity; each coordinate is an opaque 32-bit pattern.
#[derive(Clone, Copy, Debug, PartialEq, Eq, Structural)]
pub struct AngularVelocity {
    pub x: u32,
    pub y: u32,
    pub z: u32,
}

/// The ownership record attached to every prop: who currently writes it, and
/// the monotone counter that arbitrates between concurrent claims.
#[derive(Debug)]
pub struct Authority {
    pub player: PlayerUuid,
    pub counter: u64,
}

impl Clone for Authority {
    fn clone(&self) -> (r: Authority)
        ensures
            r == *self,
    {
        Authority { player: self.player.clone(), counter: self.counter }
    }
}

/// Mathematical view of an [`Authority`] record.
pub ghost struct AuthorityV {
    pub player: Seq<char>,
    pub counter: u64,
}

impl View for Authority {
    type V = AuthorityV;

    open spec fn view(&self) -> AuthorityV {
        AuthorityV { player: self.player@, counter: self.counter }
    }
}

impl PartialEq for Authority {
    fn eq(&self, other: &Authority) -> (r: bool)
        ensures
            r == (self@ == other@),
    {
        self.player == other.player && self.counter == other.counter
    }
}

impl vstd::std_specs::cmp::PartialEqSpecImpl for Authority {
    open spec fn obeys_eq_spec() -> bool {
        true
    }

    open spec fn eq_spec(&self, other: &Authority) -> bool {
        self@ == other@
    }
}

/// Announces a newly spawned prop, with its initial ownership and position.
#[derive(Clone, Debug)]
pub struct SpawnCube {
    pub authority: Authority,
    pub prop_uuid: PropUuid,
    pub position: Position,
}

pub ghost struct SpawnCubeV {
    pub authority: AuthorityV,
    pub prop_uuid: Seq<char>,
    pub position: Position,
}

impl View for SpawnCube {
    type V = SpawnCubeV;

    open spec fn view(&self) -> SpawnCubeV {
        SpawnCubeV {
            authority: self.authority@,
            prop_uuid: self.prop_uuid@,
            position: self.position,
        }
    }
}

impl PartialEq for SpawnCube {
    fn eq(&self, other: &SpawnCube) -> (r: bool)
        ensures
            r == (self@ == other@),
    {
        self.authority == other.authority && self.prop_uuid == other.prop_uuid
            && self.position == other.position
    }
}

impl vstd::std_specs::cmp::PartialEqSpecImpl for SpawnCube {
    open spec fn obeys_eq_spec() -> bool {
        true
    }

    open spec fn eq_spec(&self, other: &SpawnCube) -> bool {
        self@ == other@
    }
}

/// Publishes the owning peer's latest state for one prop.
#[derive(Clone, Debug)]
pub struct UpdateProp {
    pub authority: Authority,
    pub prop_uuid: PropUuid,
    pub position: Position,
    pub rotation: Rotation,
    pub linear_velocity: LinearVelocity,
    pub angular_velocity: AngularVelocity,
}

pub ghost struct UpdatePropV {
    pub authority: AuthorityV,
    pub prop_uuid: Seq<char>,
    pub position: Position,
    pub rotation: Rotation,
    pub linear_velocity: LinearVelocity,
    pub angular_velocity: AngularVelocity,
}

impl View for UpdateProp {
    type V = UpdatePropV;

    open spec fn view(&self) -> UpdatePropV {
        UpdatePropV {
            authority: self.authority@,
            prop_uuid: self.prop_uuid@,
            position: self.position,
            rotation: self.rotation,
            linear_velocity: self.linear_velocity,
            angular_velocity: self.angular_velocity,
        }
    }
}

impl PartialEq for UpdateProp {
    fn eq(&self, other: &UpdateProp) -> (r: bool)
        ensures
            r == (self@ == other@),
    {
        self.authority == other.authority && self.prop_uuid == other.prop_uuid
            && self.position == other.position && self.rotation == other.rotation
            && self.linear_velocity == other.linear_velocity
            && self.angular_velocity == other.angular_velocity
    }
}

impl vstd::std_specs::cmp::PartialEqSpecImpl for UpdateProp {
    open spec fn obeys_eq_spec() -> bool {
        true
    }

    open spec fn eq_spec(&self, other: &UpdateProp) -> bool {
        self@ == other@
    }
}

/// Announces that a prop was removed from the shared world.
#[derive(Clone, Debug)]
pub struct DeleteProp {
    pub authority: Authority,
    pub prop_uuid: PropUuid,
}

pub ghost struct DeletePropV {
    pub authority: AuthorityV,
    pub prop_uuid: Seq<char>,
}

impl View for DeleteProp {
    type V = DeletePropV;

    open spec fn view(&self) -> DeletePropV {
        DeletePropV { authority: self.authority@, prop_uuid: self.prop_uuid@ }
    }
}

impl PartialEq for DeleteProp {
    fn eq(&self, other: &DeleteProp) -> (r: bool)
        ensures
            r == (self@ == other@),
    {
        self.authority == other.authority && self.prop_uuid == other.prop_uuid
    }
}

impl vstd::std_specs::cmp::PartialEqSpecImpl for DeleteProp {
    open spec fn obeys_eq_spec() -> bool {
        true
    }

    open spec fn eq_spec(&self, other: &DeleteProp) -> bool {
        self@ == other@
    }
}

/// Publishes a player's avatar state to the other peers.
#[derive(Clone, Debug)]
pub struct PlayerPosition {
    pub player_uuid: PlayerUuid,
    pub peer_id: PeerId,
    pub position: Position,
    pub rotation: Rotation,
    pub linear_velocity: LinearVelocity,
}

pub ghost struct PlayerPositionV {
    pub player_uuid: Seq<char>,
    pub peer_id: PeerId,
    pub position: Position,
    pub rotation: Rotation,
    pub linear_velocity: LinearVelocity,
}

impl View for PlayerPosition {
    type V = PlayerPositionV;

    open spec fn view(&self) -> PlayerPositionV {
        PlayerPositionV {
            player_uuid: self.player_uuid@,
            peer_id: self.peer_id,
            position: self.position,
            rotation: self.rotation,
            linear_velocity: self.linear_velocity,
        }
    }
}

impl PartialEq for PlayerPosition {
    fn eq(&self, other: &PlayerPosition) -> (r: bool)
        ensures
            r == (self@ == other@),
    {
        self.player_uuid == other.player_uuid && self.peer_id == other.peer_id
            && self.position == other.position && self.rotation == other.rotation
            && self.linear_velocity == other.linear_velocity
    }
}

impl vstd::std_specs::cmp::PartialEqSpecImpl for PlayerPosition {
    open spec fn obeys_eq_spec() -> bool {
        true
    }

    open spec fn eq_spec(&self, other: &PlayerPosition) -> bool {
        self@ == other@
    }
}

/// One compressed voice frame in flight from the speaking peer.
#[derive(Clone, Debug)]
pub struct VoiceMsg {
    pub data: Vec<u8>,
    pub uuid: PlayerUuid,
    pub channels: u16,
}

pub ghost struct VoiceMsgV {
    pub data: Seq<u8>,
    pub uuid: Seq<char>,
    pub channels: u16,
}

impl View for VoiceMsg {
    type V = VoiceMsgV;

    open spec fn view(&self) -> VoiceMsgV {
        VoiceMsgV { data: self.data@, uuid: self.uuid@, channels: self.channels }
    }
}

impl PartialEq for VoiceMsg {
    fn eq(&self, other: &VoiceMsg) -> (r: bool)
        ensures
            r == (self@ == other@),
    {
        bytes_eq(&self.data, &other.data) && self.uuid == other.uuid
            && self.channels == other.channels
    }
}

impl vstd::std_specs::cmp::PartialEqSpecImpl for VoiceMsg {
    open spec fn obeys_eq_spec() -> bool {
        true
    }

    open spec fn eq_spec(&self, other: &VoiceMsg) -> bool {
        self@ == other@
    }
}

/// One chunk of an avatar asset in transfer.
#[derive(Clone, Debug)]
pub struct AvatarPart {
    pub uuid: PlayerUuid,
    pub avatar_name: String,
    pub data: Vec<u8>,
}

pub ghost struct AvatarPartV {
    pub uuid: Seq<char>,
    pub avatar_name: Seq<char>,
    pub data: Seq<u8>,
}

impl View for AvatarPart {
    type V = AvatarPartV;

    open spec fn view(&self) -> AvatarPartV {
        AvatarPartV { uuid: self.uuid@, avatar_name: self.avatar_name@, data: self.data@ }
    }
}

impl PartialEq for AvatarPart {
    fn eq(&self, other: &AvatarPart) -> (r: bool)
        ensures
            r == (self@ == other@),
    {
        self.uuid == other.uuid && self.avatar_name == other.avatar_name
            && bytes_eq(&self.data, &other.data)
    }
}

impl vstd::std_specs::cmp::PartialEqSpecImpl for AvatarPart {
    open spec fn obeys_eq_spec() -> bool {
        true
    }

    open spec fn eq_spec(&self, other: &AvatarPart) -> bool {
        self@ == other@
    }
}

/// The asset-transfer protocol messages: the announced total length, each
/// chunk in order, then the terminal marker.
#[derive(Clone, Debug)]
pub enum AvatarPartEnum {
    Len(PlayerUuid, usize),
    AvatarPart(AvatarPart),
    Done,
}

pub ghost enum AvatarPartEnumV {
    Len(Seq<char>, usize),
    AvatarPart(AvatarPartV),
    Done,
}

impl View for AvatarPartEnum {
    type V = AvatarPartEnumV;

    open spec fn view(&self) -> AvatarPartEnumV {
        match self {
            AvatarPartEnum::Len(uuid, len) => AvatarPartEnumV::Len(uuid@, *len),
            AvatarPartEnum::AvatarPart(part) => AvatarPartEnumV::AvatarPart(part@),
            AvatarPartEnum::Done => AvatarPartEnumV::Done,
        }
    }
}

impl PartialEq for AvatarPartEnum {
    fn eq(&self, other: &AvatarPartEnum) -> (r: bool)
        ensures
            r == (self@ == other@),
    {
        match (self, other) {
            (AvatarPartEnum::Len(u1, l1), AvatarPartEnum::Len(u2, l2)) => u1 == u2 && l1 == l2,
            (AvatarPartEnum::AvatarPart(p1), AvatarPartEnum::AvatarPart(p2)) => p1 == p2,
            (AvatarPartEnum::Done, AvatarPartEnum::Done) => true,
            _ => false,
        }
    }
}

impl vstd::std_specs::cmp::PartialEqSpecImpl for AvatarPartEnum {
    open spec fn obeys_eq_spec() -> bool {
        true
    }

    open spec fn eq_spec(&self, other: &AvatarPartEnum) -> bool {
        self@ == other@
    }
}

/// The closed set of wire messages.
#[derive(Clone, Debug)]
pub enum Message {
    SpawnCube(SpawnCube),
    UpdateProp(UpdateProp),
    DeleteProp(DeleteProp),
    PlayerPosition(PlayerPosition),
    VoiceChat(VoiceMsg),
    AvatarPart(AvatarPartEnum),
}

pub ghost enum MessageV {
    SpawnCube(SpawnCubeV),
    UpdateProp(UpdatePropV),
    DeleteProp(DeletePropV),
    PlayerPosition(PlayerPositionV),
    VoiceChat(VoiceMsgV),
    AvatarPart(AvatarPartEnumV),
}

impl View for Message {
    type V = MessageV;

    open spec fn view(&self) -> MessageV {
        match self {
            Message::SpawnCube(m) => MessageV::SpawnCube(m@),
            Message::UpdateProp(m) => MessageV::UpdateProp(m@),
            Message::DeleteProp(m) => MessageV::DeleteProp(m@),
            Message::PlayerPosition(m) => MessageV::PlayerPosition(m@),
            Message::VoiceChat(m) => MessageV::VoiceChat(m@),
            Message::AvatarPart(m) => MessageV::AvatarPart(m@),
        }
    }
}

impl PartialEq for Message {
    fn eq(&self, other: &Message) -> (r: bool)
        ensures
            r == (self@ == other@),
    {
        match (self, other) {
            (Message::SpawnCube(m1), Message::SpawnCube(m2)) => m1 == m2,
            (Message::UpdateProp(m1), Message::UpdateProp(m2)) => m1 == m2,
            (Message::DeleteProp(m1), Message::DeleteProp(m2)) => m1 == m2,
            (Message::PlayerPosition(m1), Message::PlayerPosition(m2)) => m1 == m2,
            (Message::VoiceChat(m1), Message::VoiceChat(m2)) => m1 == m2,
            (Message::AvatarPart(m1), Message::AvatarPart(m2)) => m1 == m2,
            _ => false,
        }
    }
}

impl vstd::std_specs::cmp::PartialEqSpecImpl for Message {
    open spec fn obeys_eq_spec() -> bool {
        true
    }

    open spec fn eq_spec(&self, other: &Message) -> bool {
        self@ == other@
    }
}

/// Compares two byte vectors element by element.
pub fn bytes_eq(a: &Vec<u8>, b: &Vec<u8>) -> (r: bool)
    ensures
        r == (a@ == b@),
{
    if a.len() != b.len() {
        return false;
    }
    let mut i: usize = 0;
    while i < a.len()
        invariant
            i <= a.len(),
            a@.len() == b@.len(),
            forall|j: int| 0 <= j < i ==> a@[j] == b@[j],
        decreases a.len() - i,
    {
        if a[i] != b[i] {
            return false;
        }
        i += 1;
    }
    proof {
        assert(a@ =~= b@);
    }
    true
}

} // verus!

//! Identifiers used across the peer mesh: transport-level peer ids and
//! process-wide unique player / prop ids.

use vstd::prelude::*;

verus! {

/// Transport-assigned identifier for one directly connected peer. Opaque to
/// the sync layer; stable for the connection's lifetime.
#[derive(Clone, Copy, Debug, PartialEq, Eq, Hash, Structural)]
pub struct PeerId(pub u64);

/// Process-wide unique identifier for a player, generated once on creation
/// and never reassigned. Distinct from [`PeerId`], which changes across
/// connections.
#[derive(Debug)]
pub struct PlayerUuid(pub String);

impl Clone for PlayerUuid {
    fn clone(&self) -> (r: PlayerUuid)
        ensures
            r == *self,
    {
        PlayerUuid(self.0.clone())
    }
}

impl View for PlayerUuid {
    type V = Seq<char>;

    open spec fn view(&self) -> Seq<char> {
        self.0@
    }
}

impl PartialEq for PlayerUuid {
    fn eq(&self, other: &PlayerUuid) -> (r: bool)
        ensures
            r == (self@ == other@),
    {
        self.0 == other.0
    }
}

impl vstd::std_specs::cmp::PartialEqSpecImpl for PlayerUuid {
    open spec fn obeys_eq_spec() -> bool {
        true
    }

    open spec fn eq_spec(&self, other: &PlayerUuid) -> bool {
        self@ == other@
    }
}

/// Process-wide unique identifier for a shared prop.
#[derive(Debug)]
pub struct PropUuid(pub String);

impl Clone for PropUuid {
    fn clone(&self) -> (r: PropUuid)
        ensures
            r == *self,
    {
        PropUuid(self.0.clone())
    }
}

impl View for PropUuid {
    type V = Seq<char>;

    open spec fn view(&self) -> Seq<char> {
        self.0@
    }
}

impl PartialEq for PropUuid {
    fn eq(&self, other: &PropUuid) -> (r: bool)
        ensures
            r == (self@ == other@),
    {
        self.0 == other.0
    }
}

impl vstd::std_specs::cmp::PartialEqSpecImpl for PropUuid {
    open spec fn obeys_eq_spec() -> bool {
        true
    }

    open spec fn eq_spec(&self, other: &PropUuid) -> bool {
        self@ == other@
    }
}

/// Relies on `uuid::Uuid::new_v4` and `uuid::Uuid::to_string`: a freshly
/// generated random (version 4) UUID, rendered in the hyphenated textual
/// form, which is always 36 characters long. The value itself is random, so
/// nothing more is promised of it.
#[verifier::external_body]
fn fresh_uuid_string() -> (r: String)
    ensures
        r@.len() == 36,
{
    uuid::Uuid::new_v4().to_string()
}

/// Generates a fresh random identifier for a newly created player.
pub fn fresh_player_uuid() -> (r: PlayerUuid)
    ensures
        r@.len() == 36,
{
    PlayerUuid(fresh_uuid_string())
}

/// Generates a fresh random identifier for a newly created prop.
pub fn fresh_prop_uuid() -> (r: PropUuid)
    ensures
        r@.len() == 36,
{
    PropUuid(fresh_uuid_string())
}

} // verus!

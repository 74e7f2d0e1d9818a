//! A player on a Minecraft server: two players are the same player when their
//! UUIDs are equal, whatever their names.
use vstd::prelude::*;

verus! {

#[derive(Debug)]
pub struct MinecraftPlayer {
    pub name: String,
    pub uuid: String,
}

pub struct MinecraftPlayerView {
    pub name: Seq<char>,
    pub uuid: Seq<char>,
}

impl View for MinecraftPlayer {
    type V = MinecraftPlayerView;

    open spec fn view(&self) -> MinecraftPlayerView {
        MinecraftPlayerView { name: self.name@, uuid: self.uuid@ }
    }
}

impl DeepView for MinecraftPlayer {
    type V = MinecraftPlayerView;

    open spec fn deep_view(&self) -> MinecraftPlayerView {
        self@
    }
}

impl Clone for MinecraftPlayer {
    fn clone(&self) -> (r: Self)
        ensures
            r == *self,
    {
        MinecraftPlayer { name: self.name.clone(), uuid: self.uuid.clone() }
    }
}

impl MinecraftPlayer {
    pub fn new(name: String, uuid: String) -> (p: MinecraftPlayer)
        ensures
            p.name == name,
            p.uuid == uuid,
    {
        MinecraftPlayer { name, uuid }
    }

    /// The player's identifier: its UUID.
    pub fn get_id(&self) -> (s: String)
        ensures
            s@ == self.uuid@,
    {
        self.uuid.clone()
    }

    pub fn get_name(&self) -> (s: String)
        ensures
            s@ == self.name@,
    {
        self.name.clone()
    }
}

impl PartialEq for MinecraftPlayer {
    fn eq(&self, other: &Self) -> (res: bool) {
        self.uuid == other.uuid
    }
}

impl vstd::std_specs::cmp::PartialEqSpecImpl for MinecraftPlayer {
    open spec fn obeys_eq_spec() -> bool {
        true
    }

    open spec fn eq_spec(&self, other: &Self) -> bool {
        self.uuid@ == other.uuid@
    }
}

impl Eq for MinecraftPlayer {}

} // verus!

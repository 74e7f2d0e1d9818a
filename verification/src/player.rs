//! A player of any kind of instance.
use vstd::prelude::*;

use crate::generic::player::{GenericPlayer, GenericPlayerView};
use crate::minecraft::player::{MinecraftPlayer, MinecraftPlayerView};

verus! {

#[derive(Debug, PartialEq, Eq)]
pub enum Player {
    MinecraftPlayer(MinecraftPlayer),
    GenericPlayer(GenericPlayer),
}

pub enum PlayerView {
    MinecraftPlayer(MinecraftPlayerView),
    GenericPlayer(GenericPlayerView),
}

impl View for Player {
    type V = PlayerView;

    open spec fn view(&self) -> PlayerView {
        match self {
            Player::MinecraftPlayer(p) => PlayerView::MinecraftPlayer(p@),
            Player::GenericPlayer(p) => PlayerView::GenericPlayer(p@),
        }
    }
}

impl DeepView for Player {
    type V = PlayerView;

    open spec fn deep_view(&self) -> PlayerView {
        self@
    }
}

impl Clone for Player {
    fn clone(&self) -> (r: Self)
        ensures
            r == *self,
    {
        match self {
            Player::MinecraftPlayer(p) => Player::MinecraftPlayer(p.clone()),
            Player::GenericPlayer(p) => Player::GenericPlayer(p.clone()),
        }
    }
}

impl Player {
    /// The player's identifier.
    pub fn get_id(&self) -> (s: String)
        ensures
            s@ == match self {
                Player::MinecraftPlayer(p) => p.uuid@,
                Player::GenericPlayer(p) => p.id@,
            },
    {
        match self {
            Player::MinecraftPlayer(p) => p.get_id(),
            Player::GenericPlayer(p) => p.get_id(),
        }
    }

    /// The player's name.
    pub fn get_name(&self) -> (s: String)
        ensures
            s@ == match self {
                Player::MinecraftPlayer(p) => p.name@,
                Player::GenericPlayer(p) => p.name@,
            },
    {
        match self {
            Player::MinecraftPlayer(p) => p.get_name(),
            Player::GenericPlayer(p) => p.get_name(),
        }
    }
}

} // verus!

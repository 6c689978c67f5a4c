use vstd::prelude::*;

use crate::character::PlayerDirection;
use crate::character::Position;

verus! {

/// The record of the player state that is handed to an external collaborator
/// to persist: a name for the stored entry, the direction the player faces,
/// and, once one has been reported, the player position.
#[derive(Debug)]
pub struct PlayerData {
    pub name: String,
    pub player_direction: PlayerDirection,
    pub player_position: Option<Position>,
}

impl PlayerData {
    /// A fresh record: an empty name, the default facing and no position
    /// reported yet.
    pub fn new() -> (s: Self)
        ensures
            s.name@ == Seq::<char>::empty(),
            s.player_direction == PlayerDirection::Downwards,
            s.player_position is None,
    {
        Self {
            name: String::new(),
            player_direction: Default::default(),
            player_position: None,
        }
    }

    /// Records the direction the player currently faces.
    pub fn set_player_direction(&mut self, player_current_direction: &PlayerDirection)
        ensures
            final(self).player_direction == *player_current_direction,
            final(self).name == old(self).name,
            final(self).player_position == old(self).player_position,
    {
        self.player_direction = *player_current_direction;
    }

    /// Records the player position under its two coordinates.
    pub fn set_player_position(&mut self, x: i32, y: i32)
        ensures
            final(self).player_position == Some(Position { x, y }),
            final(self).name == old(self).name,
            final(self).player_direction == old(self).player_direction,
    {
        self.player_position = Some(Position { x, y });
    }
}

} // verus!

use vstd::prelude::*;

use crate::character::resolved_direction;
use crate::character::resolved_motion;
use crate::character::Motion;
use crate::character::MovementInput;
use crate::character::PlayerDirection;
use crate::character::PlayerStatus;

verus! {

/// One of the eight animation clips of the player sprite: a standing pose
/// or a walk cycle for each of the four directions.
#[derive(Clone, Copy, Debug, PartialEq, Eq, Structural)]
pub enum AnimationClip {
    IdleFront,
    IdleBack,
    IdleLeft,
    IdleRight,
    WalkRight,
    WalkLeft,
    WalkDownwards,
    WalkUpwards,
}

/// The standing pose shown while the player faces the given direction.
pub open spec fn idle_clip(direction: PlayerDirection) -> AnimationClip {
    match direction {
        PlayerDirection::Downwards => AnimationClip::IdleFront,
        PlayerDirection::Upwards => AnimationClip::IdleBack,
        PlayerDirection::Left => AnimationClip::IdleLeft,
        PlayerDirection::Right => AnimationClip::IdleRight,
    }
}

/// The walk cycle shown while the player walks in the given direction.
pub open spec fn walk_clip(direction: PlayerDirection) -> AnimationClip {
    match direction {
        PlayerDirection::Right => AnimationClip::WalkRight,
        PlayerDirection::Left => AnimationClip::WalkLeft,
        PlayerDirection::Downwards => AnimationClip::WalkDownwards,
        PlayerDirection::Upwards => AnimationClip::WalkUpwards,
    }
}

/// The direction a motion vector is read as, checking the components in the
/// fixed order x positive, x negative, y negative, y positive; a zero vector
/// is read as no direction at all.
pub open spec fn motion_direction(motion: Motion) -> Option<PlayerDirection> {
    if motion.x > 0 {
        Some(PlayerDirection::Right)
    } else if motion.x < 0 {
        Some(PlayerDirection::Left)
    } else if motion.y < 0 {
        Some(PlayerDirection::Upwards)
    } else if motion.y > 0 {
        Some(PlayerDirection::Downwards)
    } else {
        None
    }
}

/// The direction the animation reads from a resolved motion is exactly the
/// direction the movement resolver picked for that frame's input: the
/// sprite walks the way the character moves.
pub proof fn lemma_animation_follows_movement(input: MovementInput)
    ensures
        motion_direction(resolved_motion(input)) == resolved_direction(input),
{
}

/// Selects the clip the player sprite shows each frame from the motion the
/// character reports, and remembers the last nonzero direction as the facing
/// the sprite holds while standing still.
#[derive(Clone, Copy, Debug, PartialEq, Eq, Structural)]
pub struct PlayerAnimation {
    pub current_player_motion: PlayerStatus,
    pub current_player_direction: PlayerDirection,
    pub idle_player_direction: PlayerDirection,
}

impl PlayerAnimation {
    /// The `PlayerAnimation` constructor.
    pub fn new() -> (s: Self)
        ensures
            s.current_player_motion == PlayerStatus::Idle,
            s.current_player_direction == PlayerDirection::Downwards,
            s.idle_player_direction == PlayerDirection::Downwards,
    {
        Self {
            current_player_motion: Default::default(),
            current_player_direction: Default::default(),
            idle_player_direction: Default::default(),
        }
    }

    /// Takes the facing the player held when it was last saved and picks the
    /// standing pose to start from.
    pub fn apply_initial_direction(&mut self, direction: PlayerDirection) -> (clip: AnimationClip)
        ensures
            final(self).idle_player_direction == direction,
            final(self).current_player_motion == old(self).current_player_motion,
            final(self).current_player_direction == old(self).current_player_direction,
            clip == idle_clip(direction),
    {
        self.idle_player_direction = direction;
        match self.idle_player_direction {
            PlayerDirection::Downwards => AnimationClip::IdleFront,
            PlayerDirection::Upwards => AnimationClip::IdleBack,
            PlayerDirection::Left => AnimationClip::IdleLeft,
            PlayerDirection::Right => AnimationClip::IdleRight,
        }
    }

    /// The decision taken each frame outside the physics step: on the menu
    /// key edge the remembered facing is broadcast for the collaborator
    /// that persists it, and on any other frame nothing is.
    pub fn process_frame(&self, menu_just_pressed: bool) -> (r: Option<PlayerDirection>)
        ensures
            r == (if menu_just_pressed {
                Some(self.idle_player_direction)
            } else {
                None::<PlayerDirection>
            }),
    {
        if menu_just_pressed {
            Some(self.idle_player_direction)
        } else {
            None
        }
    }

    /// Receives the motion the character reports for a frame and picks the
    /// clip to play: the walk cycle of the direction the motion is read as,
    /// which also becomes the remembered facing, or, for a zero motion, the
    /// standing pose of the remembered facing. A zero motion always leaves
    /// the player animation idle, whatever state it was in before.
    pub fn _on_player_animate(&mut self, motion: Motion) -> (clip: AnimationClip)
        ensures
            motion.x == 0 && motion.y == 0 ==> final(self).current_player_motion
                == PlayerStatus::Idle,
            match motion_direction(motion) {
                Some(direction) => {
                    &&& final(self).current_player_motion == PlayerStatus::Walking
                    &&& final(self).current_player_direction == direction
                    &&& final(self).idle_player_direction == direction
                    &&& clip == walk_clip(direction)
                },
                None => {
                    &&& final(self).current_player_motion == PlayerStatus::Idle
                    &&& final(self).current_player_direction == old(
                        self,
                    ).current_player_direction
                    &&& final(self).idle_player_direction == old(self).idle_player_direction
                    &&& clip == idle_clip(old(self).idle_player_direction)
                },
            },
    {
        if motion.x > 0 {
            self.current_player_direction = PlayerDirection::Right;
            self.current_player_motion = PlayerStatus::Walking;
        } else if motion.x < 0 {
            self.current_player_direction = PlayerDirection::Left;
            self.current_player_motion = PlayerStatus::Walking;
        } else if motion.y < 0 {
            self.current_player_direction = PlayerDirection::Upwards;
            self.current_player_motion = PlayerStatus::Walking;
        } else if motion.y > 0 {
            self.current_player_direction = PlayerDirection::Downwards;
            self.current_player_motion = PlayerStatus::Walking;
        } else {
            self.current_player_motion = PlayerStatus::Idle;
        }
        if self.current_player_motion == PlayerStatus::Idle {
            match self.idle_player_direction {
                PlayerDirection::Downwards => AnimationClip::IdleFront,
                PlayerDirection::Upwards => AnimationClip::IdleBack,
                PlayerDirection::Left => AnimationClip::IdleLeft,
                PlayerDirection::Right => AnimationClip::IdleRight,
            }
        } else if self.current_player_direction == PlayerDirection::Right {
            self.idle_player_direction = PlayerDirection::Right;
            AnimationClip::WalkRight
        } else if self.current_player_direction == PlayerDirection::Left {
            self.idle_player_direction = PlayerDirection::Left;
            AnimationClip::WalkLeft
        } else if self.current_player_direction == PlayerDirection::Downwards {
            self.idle_player_direction = PlayerDirection::Downwards;
            AnimationClip::WalkDownwards
        } else {
            self.idle_player_direction = PlayerDirection::Upwards;
            AnimationClip::WalkUpwards
        }
    }
}

} // verus!

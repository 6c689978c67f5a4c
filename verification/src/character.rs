use vstd::prelude::*;

verus! {

/// Speed, in world units per second, given to the motion vector along the
/// axis the player walks on.
pub const VELOCITY: i32 = 300;

/// The current behaviour of the player, recomputed every frame from the
/// input state.
#[derive(Clone, Copy, Debug, PartialEq, Eq, Structural)]
pub enum PlayerStatus {
    Idle,
    Walking,
    Interacting,
}

impl Default for PlayerStatus {
    fn default() -> (r: Self)
        ensures
            r == PlayerStatus::Idle,
    {
        PlayerStatus::Idle
    }
}

/// The last nonzero movement axis; retained while standing still so the
/// sprite keeps facing the way it last walked.
#[derive(Clone, Copy, Debug, PartialEq, Eq, Structural)]
pub enum PlayerDirection {
    Upwards,
    Downwards,
    Left,
    Right,
}

impl Default for PlayerDirection {
    fn default() -> (r: Self)
        ensures
            r == PlayerDirection::Downwards,
    {
        PlayerDirection::Downwards
    }
}

/// Whether a dialogue box is currently on screen and capturing the player's
/// attention.
#[derive(Clone, Copy, Debug, PartialEq, Eq, Structural)]
pub enum DialogueBoxStatus {
    Active,
    Inactive,
}

/// Whether the in-game menu is currently open.
#[derive(Clone, Copy, Debug, PartialEq, Eq, Structural)]
pub enum MenuStatus {
    Open,
    Closed,
}

/// The (x, y) velocity the player moves with on the 2D map.
#[derive(Clone, Copy, Debug, PartialEq, Eq, Structural)]
pub struct Motion {
    pub x: i32,
    pub y: i32,
}

/// An absolute (x, y) coordinate on the 2D map.
#[derive(Clone, Copy, Debug, PartialEq, Eq, Structural)]
pub struct Position {
    pub x: i32,
    pub y: i32,
}

/// A snapshot of the four directional input signals for one frame.
#[derive(Clone, Copy, Debug, PartialEq, Eq, Structural)]
pub struct MovementInput {
    pub left: bool,
    pub right: bool,
    pub up: bool,
    pub down: bool,
}

/// What the interaction logic reads of the object the player last collided
/// with: whether it carries an "Interact" child node, which marks it as
/// holding data for the player.
#[derive(Clone, Copy, Debug, PartialEq, Eq, Structural)]
pub struct CollisionBody {
    pub has_interact_node: bool,
}

/// The direction the movement resolver picks for a frame: the first pressed
/// direction in the fixed priority order Left > Right > Up > Down, or none
/// when no directional input is pressed.
pub open spec fn resolved_direction(input: MovementInput) -> Option<PlayerDirection> {
    if input.left {
        Some(PlayerDirection::Left)
    } else if input.right {
        Some(PlayerDirection::Right)
    } else if input.up {
        Some(PlayerDirection::Upwards)
    } else if input.down {
        Some(PlayerDirection::Downwards)
    } else {
        None
    }
}

/// The motion vector the resolver emits for a frame: full speed along the
/// axis of the winning direction, zero when no direction is pressed.
pub open spec fn resolved_motion(input: MovementInput) -> Motion {
    match resolved_direction(input) {
        Some(PlayerDirection::Left) => Motion { x: (-VELOCITY) as i32, y: 0 },
        Some(PlayerDirection::Right) => Motion { x: VELOCITY, y: 0 },
        Some(PlayerDirection::Upwards) => Motion { x: 0, y: (-VELOCITY) as i32 },
        Some(PlayerDirection::Downwards) => Motion { x: 0, y: VELOCITY },
        None => Motion { x: 0, y: 0 },
    }
}

/// The status the resolver emits for a frame: walking exactly when some
/// directional input is pressed.
pub open spec fn resolved_status(input: MovementInput) -> PlayerStatus {
    if resolved_direction(input) is Some {
        PlayerStatus::Walking
    } else {
        PlayerStatus::Idle
    }
}

/// For every snapshot of the four directional inputs the movement resolver
/// yields exactly one outcome among moving left, right, up, down and idling,
/// following the fixed priority order Left > Right > Up > Down > none.
pub proof fn lemma_movement_priority(input: MovementInput)
    ensures
        resolved_direction(input) == Some(PlayerDirection::Left) <==> input.left,
        resolved_direction(input) == Some(PlayerDirection::Right) <==> (!input.left
            && input.right),
        resolved_direction(input) == Some(PlayerDirection::Upwards) <==> (!input.left
            && !input.right && input.up),
        resolved_direction(input) == Some(PlayerDirection::Downwards) <==> (!input.left
            && !input.right && !input.up && input.down),
        resolved_direction(input) is None <==> (!input.left && !input.right && !input.up
            && !input.down),
        resolved_status(input) == PlayerStatus::Walking <==> resolved_direction(input) is Some,
        resolved_status(input) == PlayerStatus::Idle <==> resolved_direction(input) is None,
{
}

/// What the frame logic decides at the start of a physics frame: the motion
/// payload for the sprite animation, and, unless an interaction froze the
/// player, the motion to move the body with.
#[derive(Clone, Copy, Debug, PartialEq, Eq, Structural)]
pub struct FrameStart {
    pub animate: Motion,
    pub movement: Option<Motion>,
}

/// The key edges delivered with a physics frame.
#[derive(Clone, Copy, Debug, PartialEq, Eq, Structural)]
pub struct FrameEvents {
    pub interact_just_pressed: bool,
    pub menu_just_pressed: bool,
}

/// What the frame logic decides once the body has moved: whether to notify
/// listeners that the player starts interacting, and whether to broadcast
/// the player's position for the menu.
#[derive(Clone, Copy, Debug, PartialEq, Eq, Structural)]
pub struct FrameActions {
    pub notify_interacting: bool,
    pub emit_position: Option<Position>,
}

/// The player on the map: its per-frame behaviour, the state of the
/// surrounding dialogue box and menu, and its motion and position.
#[derive(Clone, Copy, Debug, PartialEq, Eq, Structural)]
pub struct PlayerCharacter {
    pub player_status: PlayerStatus,
    pub menu_status: MenuStatus,
    pub dialogue_box_status: DialogueBoxStatus,
    pub motion: Motion,
    pub current_position: Position,
    pub counter: i32,
}

impl PlayerCharacter {
    /// The `PlayerCharacter` constructor.
    pub fn new() -> (s: Self)
        ensures
            s.player_status == PlayerStatus::Idle,
            s.menu_status == MenuStatus::Closed,
            s.dialogue_box_status == DialogueBoxStatus::Inactive,
            s.motion == (Motion { x: 0, y: 0 }),
            s.current_position == (Position { x: 0, y: 0 }),
            s.counter == 0,
    {
        Self {
            player_status: Default::default(),
            menu_status: MenuStatus::Closed,
            dialogue_box_status: DialogueBoxStatus::Inactive,
            motion: Motion { x: 0, y: 0 },
            current_position: Position { x: 0, y: 0 },
            counter: 0,
        }
    }

    /// Manages the player motion on the map and updates the player status
    /// from one frame's directional input: the first pressed direction in
    /// the order Left > Right > Up > Down wins, and no pressed direction
    /// leaves the player idle with zero motion.
    pub fn move_character(&mut self, input: &MovementInput)
        ensures
            final(self).motion == resolved_motion(*input),
            final(self).player_status == resolved_status(*input),
            final(self).menu_status == old(self).menu_status,
            final(self).dialogue_box_status == old(self).dialogue_box_status,
            final(self).current_position == old(self).current_position,
            final(self).counter == old(self).counter,
    {
        if input.left {
            self.motion.x = -VELOCITY;
            self.motion.y = 0;
            self.player_status = PlayerStatus::Walking;
        } else if input.right {
            self.motion.x = VELOCITY;
            self.motion.y = 0;
            self.player_status = PlayerStatus::Walking;
        } else if input.up {
            self.motion.y = -VELOCITY;
            self.motion.x = 0;
            self.player_status = PlayerStatus::Walking;
        } else if input.down {
            self.motion.y = VELOCITY;
            self.motion.x = 0;
            self.player_status = PlayerStatus::Walking;
        } else {
            self.motion.x = 0;
            self.motion.y = 0;
            self.player_status = PlayerStatus::Idle;
        }
    }

    /// The motion payload to animate the sprite with this frame.
    pub fn animate_character(&self) -> (m: Motion)
        ensures
            m == self.motion,
    {
        self.motion
    }

    /// Given the object colliding with the player, decides whether the
    /// interaction is valid: the object must carry an "Interact" child node
    /// and no dialogue may currently be active.
    pub fn is_valid_interaction(&self, coll_body: &CollisionBody) -> (r: bool)
        ensures
            r == (coll_body.has_interact_node && self.dialogue_box_status
                == DialogueBoxStatus::Inactive),
    {
        if coll_body.has_interact_node && self.dialogue_box_status == DialogueBoxStatus::Inactive {
            true
        } else {
            false
        }
    }

    /// The "Interaction" behaviour of the player character: if the player
    /// collided with some object that is allowed to interact with it and no
    /// dialogue is active, the listeners are to be notified that the player
    /// is interacting.
    pub fn interact(&self, collision_data: Option<CollisionBody>) -> (notify: bool)
        ensures
            notify == (match collision_data {
                Some(coll_body) => coll_body.has_interact_node && self.dialogue_box_status
                    == DialogueBoxStatus::Inactive,
                None => false,
            }),
    {
        match collision_data {
            Some(coll_body) => self.is_valid_interaction(&coll_body),
            None => false,
        }
    }

    /// Acts as an intermediary when some event blocks any action of the
    /// player: a dialogue or an open menu puts the player in the
    /// interacting state with zero motion, and any other notification
    /// returns the player to its default state.
    pub fn handle_interaction(&mut self, signal_info: String)
        ensures
            signal_info@ == "on_dialogue"@ ==> {
                &&& final(self).player_status == PlayerStatus::Interacting
                &&& final(self).motion == (Motion { x: 0, y: 0 })
                &&& final(self).dialogue_box_status == DialogueBoxStatus::Active
                &&& final(self).menu_status == old(self).menu_status
            },
            signal_info@ == "menu_active"@ ==> {
                &&& final(self).player_status == PlayerStatus::Interacting
                &&& final(self).motion == (Motion { x: 0, y: 0 })
                &&& final(self).menu_status == MenuStatus::Open
                &&& final(self).dialogue_box_status == old(self).dialogue_box_status
            },
            signal_info@ != "on_dialogue"@ && signal_info@ != "menu_active"@ ==> {
                &&& final(self).player_status == PlayerStatus::Idle
                &&& final(self).dialogue_box_status == DialogueBoxStatus::Inactive
                &&& final(self).menu_status == MenuStatus::Closed
                &&& final(self).motion == old(self).motion
            },
            final(self).current_position == old(self).current_position,
            final(self).counter == old(self).counter,
    {
        proof {
            reveal_strlit("on_dialogue");
            reveal_strlit("menu_active");
            assert("on_dialogue"@[0] != "menu_active"@[0]);
        }
        let on_dialogue: &str = "on_dialogue";
        let menu_active: &str = "menu_active";
        if signal_info == on_dialogue.to_owned() {
            self.player_status = PlayerStatus::Interacting;
            self.motion.x = 0;
            self.motion.y = 0;
            self.dialogue_box_status = DialogueBoxStatus::Active;
        } else if signal_info == menu_active.to_owned() {
            self.player_status = PlayerStatus::Interacting;
            self.motion.x = 0;
            self.motion.y = 0;
            self.menu_status = MenuStatus::Open;
        } else {
            self.player_status = Default::default();
            self.dialogue_box_status = DialogueBoxStatus::Inactive;
            self.menu_status = MenuStatus::Closed;
        }
    }

    /// Opens a physics frame: hands out the motion to animate the sprite
    /// with, and, unless the player is interacting, resolves the frame's
    /// directional input into the motion to move the body with.
    pub fn begin_physics_frame(&mut self, input: &MovementInput) -> (r: FrameStart)
        ensures
            r.animate == old(self).motion,
            old(self).player_status == PlayerStatus::Interacting ==> {
                &&& *final(self) == *old(self)
                &&& r.movement is None
            },
            old(self).player_status != PlayerStatus::Interacting ==> {
                &&& r.movement == Some(resolved_motion(*input))
                &&& final(self).motion == resolved_motion(*input)
                &&& final(self).player_status == resolved_status(*input)
                &&& final(self).menu_status == old(self).menu_status
                &&& final(self).dialogue_box_status == old(self).dialogue_box_status
                &&& final(self).current_position == old(self).current_position
                &&& final(self).counter == old(self).counter
            },
    {
        let animate = self.animate_character();
        if self.player_status != PlayerStatus::Interacting {
            self.move_character(input);
            FrameStart { animate, movement: Some(self.motion) }
        } else {
            FrameStart { animate, movement: None }
        }
    }

    /// Closes a physics frame after the body has moved: records the position
    /// the move ended at, and decides whether to notify listeners of a
    /// beginning interaction and whether to broadcast the position for the
    /// menu.
    pub fn finish_physics_frame(
        &mut self,
        events: &FrameEvents,
        collision_data: Option<CollisionBody>,
        position: Position,
    ) -> (r: FrameActions)
        ensures
            final(self).current_position == position,
            final(self).counter as int == (if old(self).counter == i32::MAX {
                i32::MIN as int
            } else {
                old(self).counter + 1
            }),
            final(self).player_status == old(self).player_status,
            final(self).menu_status == old(self).menu_status,
            final(self).dialogue_box_status == old(self).dialogue_box_status,
            final(self).motion == old(self).motion,
            r.notify_interacting == (events.interact_just_pressed && old(self).player_status
                != PlayerStatus::Interacting && (match collision_data {
                Some(coll_body) => coll_body.has_interact_node && old(self).dialogue_box_status
                    == DialogueBoxStatus::Inactive,
                None => false,
            })),
            r.emit_position == (if events.menu_just_pressed {
                Some(position)
            } else {
                None::<Position>
            }),
    {
        self.current_position = position;
        self.counter = if self.counter == i32::MAX {
            i32::MIN
        } else {
            self.counter + 1
        };
        let notify_interacting = if events.interact_just_pressed && self.player_status
            != PlayerStatus::Interacting {
            self.interact(collision_data)
        } else {
            false
        };
        let emit_position = if events.menu_just_pressed {
            Some(self.current_position)
        } else {
            None
        };
        FrameActions { notify_interacting, emit_position }
    }
}

} // verus!

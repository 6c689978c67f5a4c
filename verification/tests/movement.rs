use gameplay::character::CollisionBody;
use gameplay::character::DialogueBoxStatus;
use gameplay::character::FrameEvents;
use gameplay::character::MenuStatus;
use gameplay::character::Motion;
use gameplay::character::MovementInput;
use gameplay::character::PlayerCharacter;
use gameplay::character::PlayerStatus;
use gameplay::character::Position;
use gameplay::character::VELOCITY;

fn input(left: bool, right: bool, up: bool, down: bool) -> MovementInput {
    MovementInput { left, right, up, down }
}

#[test]
fn left_wins_over_every_other_direction() {
    let mut pc = PlayerCharacter::new();
    pc.move_character(&input(true, true, true, true));
    assert_eq!(pc.motion, Motion { x: -VELOCITY, y: 0 });
    assert_eq!(pc.player_status, PlayerStatus::Walking);
}

#[test]
fn right_wins_when_left_is_released() {
    let mut pc = PlayerCharacter::new();
    pc.move_character(&input(false, true, true, true));
    assert_eq!(pc.motion, Motion { x: VELOCITY, y: 0 });
    assert_eq!(pc.player_status, PlayerStatus::Walking);
}

#[test]
fn up_wins_over_down() {
    let mut pc = PlayerCharacter::new();
    pc.move_character(&input(false, false, true, true));
    assert_eq!(pc.motion, Motion { x: 0, y: -VELOCITY });
    assert_eq!(pc.player_status, PlayerStatus::Walking);
}

#[test]
fn down_alone_moves_downwards() {
    let mut pc = PlayerCharacter::new();
    pc.move_character(&input(false, false, false, true));
    assert_eq!(pc.motion, Motion { x: 0, y: VELOCITY });
    assert_eq!(pc.player_status, PlayerStatus::Walking);
}

#[test]
fn no_input_leaves_the_player_idle() {
    let mut pc = PlayerCharacter::new();
    pc.move_character(&input(false, false, true, false));
    pc.move_character(&input(false, false, false, false));
    assert_eq!(pc.motion, Motion { x: 0, y: 0 });
    assert_eq!(pc.player_status, PlayerStatus::Idle);
}

#[test]
fn new_character_starts_idle_at_the_origin() {
    let pc = PlayerCharacter::new();
    assert_eq!(pc.player_status, PlayerStatus::Idle);
    assert_eq!(pc.menu_status, MenuStatus::Closed);
    assert_eq!(pc.dialogue_box_status, DialogueBoxStatus::Inactive);
    assert_eq!(pc.motion, Motion { x: 0, y: 0 });
    assert_eq!(pc.current_position, Position { x: 0, y: 0 });
    assert_eq!(pc.counter, 0);
}

#[test]
fn animate_character_hands_out_the_current_motion() {
    let mut pc = PlayerCharacter::new();
    pc.move_character(&input(true, false, false, false));
    assert_eq!(pc.animate_character(), Motion { x: -VELOCITY, y: 0 });
}

#[test]
fn frame_is_frozen_while_interacting() {
    let mut pc = PlayerCharacter::new();
    pc.handle_interaction("on_dialogue".to_string());
    let start = pc.begin_physics_frame(&input(true, false, false, false));
    assert_eq!(start.movement, None);
    assert_eq!(start.animate, Motion { x: 0, y: 0 });
    assert_eq!(pc.player_status, PlayerStatus::Interacting);
}

#[test]
fn frame_moves_and_reports_the_old_motion_for_animation() {
    let mut pc = PlayerCharacter::new();
    pc.move_character(&input(false, false, true, false));
    let start = pc.begin_physics_frame(&input(false, true, false, false));
    assert_eq!(start.animate, Motion { x: 0, y: -VELOCITY });
    assert_eq!(start.movement, Some(Motion { x: VELOCITY, y: 0 }));
    assert_eq!(pc.player_status, PlayerStatus::Walking);
}

#[test]
fn finish_frame_records_position_and_counts() {
    let mut pc = PlayerCharacter::new();
    let events = FrameEvents { interact_just_pressed: false, menu_just_pressed: true };
    let actions = pc.finish_physics_frame(&events, None, Position { x: 7, y: -3 });
    assert_eq!(pc.current_position, Position { x: 7, y: -3 });
    assert_eq!(pc.counter, 1);
    assert!(!actions.notify_interacting);
    assert_eq!(actions.emit_position, Some(Position { x: 7, y: -3 }));
}

#[test]
fn finish_frame_notifies_only_for_a_qualifying_collision() {
    let mut pc = PlayerCharacter::new();
    let events = FrameEvents { interact_just_pressed: true, menu_just_pressed: false };
    let body = CollisionBody { has_interact_node: true };
    let actions = pc.finish_physics_frame(&events, Some(body), Position { x: 0, y: 0 });
    assert!(actions.notify_interacting);
    assert_eq!(actions.emit_position, None);

    let plain = CollisionBody { has_interact_node: false };
    let actions = pc.finish_physics_frame(&events, Some(plain), Position { x: 0, y: 0 });
    assert!(!actions.notify_interacting);
}

#[test]
fn counter_wraps_at_the_top_of_its_range() {
    let mut pc = PlayerCharacter::new();
    pc.counter = i32::MAX;
    let events = FrameEvents { interact_just_pressed: false, menu_just_pressed: false };
    pc.finish_physics_frame(&events, None, Position { x: 0, y: 0 });
    assert_eq!(pc.counter, i32::MIN);
}

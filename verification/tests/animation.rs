use gameplay::animation::AnimationClip;
use gameplay::animation::PlayerAnimation;
use gameplay::character::Motion;
use gameplay::character::PlayerDirection;
use gameplay::character::PlayerStatus;

#[test]
fn new_animation_faces_downwards_and_idles() {
    let pa = PlayerAnimation::new();
    assert_eq!(pa.current_player_motion, PlayerStatus::Idle);
    assert_eq!(pa.current_player_direction, PlayerDirection::Downwards);
    assert_eq!(pa.idle_player_direction, PlayerDirection::Downwards);
}

#[test]
fn initial_direction_picks_the_matching_standing_pose() {
    let mut pa = PlayerAnimation::new();
    assert_eq!(
        pa.apply_initial_direction(PlayerDirection::Left),
        AnimationClip::IdleLeft
    );
    assert_eq!(pa.idle_player_direction, PlayerDirection::Left);
    assert_eq!(
        pa.apply_initial_direction(PlayerDirection::Upwards),
        AnimationClip::IdleBack
    );
    assert_eq!(
        pa.apply_initial_direction(PlayerDirection::Downwards),
        AnimationClip::IdleFront
    );
    assert_eq!(
        pa.apply_initial_direction(PlayerDirection::Right),
        AnimationClip::IdleRight
    );
}

#[test]
fn each_motion_sign_picks_its_walk_cycle() {
    let mut pa = PlayerAnimation::new();
    assert_eq!(
        pa._on_player_animate(Motion { x: 300, y: 0 }),
        AnimationClip::WalkRight
    );
    assert_eq!(
        pa._on_player_animate(Motion { x: -300, y: 0 }),
        AnimationClip::WalkLeft
    );
    assert_eq!(
        pa._on_player_animate(Motion { x: 0, y: -300 }),
        AnimationClip::WalkUpwards
    );
    assert_eq!(
        pa._on_player_animate(Motion { x: 0, y: 300 }),
        AnimationClip::WalkDownwards
    );
    assert_eq!(pa.current_player_motion, PlayerStatus::Walking);
}

#[test]
fn the_x_axis_is_checked_before_the_y_axis() {
    let mut pa = PlayerAnimation::new();
    assert_eq!(
        pa._on_player_animate(Motion { x: 1, y: 5 }),
        AnimationClip::WalkRight
    );
    assert_eq!(
        pa._on_player_animate(Motion { x: -1, y: -5 }),
        AnimationClip::WalkLeft
    );
}

#[test]
fn zero_motion_always_idles_whatever_came_before() {
    let mut pa = PlayerAnimation::new();
    pa._on_player_animate(Motion { x: 300, y: 0 });
    assert_eq!(pa.current_player_motion, PlayerStatus::Walking);
    pa._on_player_animate(Motion { x: 0, y: 0 });
    assert_eq!(pa.current_player_motion, PlayerStatus::Idle);

    pa.apply_initial_direction(PlayerDirection::Upwards);
    pa._on_player_animate(Motion { x: 0, y: 0 });
    assert_eq!(pa.current_player_motion, PlayerStatus::Idle);
}

#[test]
fn the_facing_is_broadcast_only_on_the_menu_key_edge() {
    let mut pa = PlayerAnimation::new();
    pa._on_player_animate(Motion { x: 300, y: 0 });
    assert_eq!(pa.process_frame(true), Some(PlayerDirection::Right));
    assert_eq!(pa.process_frame(false), None);
}

#[test]
fn standing_still_keeps_the_last_facing() {
    let mut pa = PlayerAnimation::new();
    pa._on_player_animate(Motion { x: 0, y: -300 });
    assert_eq!(pa.idle_player_direction, PlayerDirection::Upwards);
    let clip = pa._on_player_animate(Motion { x: 0, y: 0 });
    assert_eq!(clip, AnimationClip::IdleBack);
    assert_eq!(pa.idle_player_direction, PlayerDirection::Upwards);

    pa._on_player_animate(Motion { x: -300, y: 0 });
    let clip = pa._on_player_animate(Motion { x: 0, y: 0 });
    assert_eq!(clip, AnimationClip::IdleLeft);
}

use openkdsim::animation::{
    Animation, AnimationContext, AnimationId, PlayCommand, SPEED_NORMAL, SPEED_QUICK_SHIFT,
    SPEED_STICK_DOWN_TURN,
};
use openkdsim::camera::{CamR1JumpState, CameraMode};
use openkdsim::katamari::CamRelativeDir;
use openkdsim::mission::TutorialMove;
use openkdsim::prince::{PrinceTurnType, PrinceViewMode, PushDir};

fn idle_context() -> AnimationContext {
    AnimationContext {
        camera_mode: CameraMode::Normal,
        r1_jump_state: None,
        r1_height_below_half: false,
        r1_height_nonpositive: false,
        airborne: false,
        view_mode: PrinceViewMode::Normal,
        turn_type: PrinceTurnType::NoTurn,
        ouji_wheel_spin: false,
        ouji_dash: false,
        quick_shifting: false,
        huffing: false,
        kat_immobile: true,
        kat_wheel_spin: false,
        kat_climbing: false,
        kat_braking: false,
        at_jog_speed: false,
        below_idle_speed: true,
        angle_speed_positive: false,
        avg_push_positive: false,
        avg_push_zero: true,
        avg_len_positive: false,
        cam_relative_dir: None,
        brake_push_dir: None,
        side_dir: None,
    }
}

fn rolling_context() -> AnimationContext {
    let mut c = idle_context();
    c.turn_type = PrinceTurnType::BothSticks;
    c.kat_immobile = false;
    c.below_idle_speed = false;
    c.at_jog_speed = true;
    c.avg_push_positive = true;
    c.avg_push_zero = false;
    c.avg_len_positive = true;
    c.cam_relative_dir = Some(CamRelativeDir::Forwards);
    c
}

#[test]
fn animation_codes() {
    assert!(AnimationId::Idle1.is_idle());
    assert!(AnimationId::Idle2.is_idle());
    assert!(!AnimationId::IdleHuff.is_idle());
    assert!(!AnimationId::JogUp.is_idle());
    assert_eq!(AnimationId::WalkUpNoPush.to_u8(), 13);
    assert_eq!(AnimationId::from_u8(13), Some(AnimationId::WalkUpNoPush));
    assert_eq!(AnimationId::from_u8(10), None);
    for code in 0..=255u8 {
        if let Some(id) = AnimationId::from_u8(code) {
            assert_eq!(id.to_u8(), code);
        }
    }
    assert_eq!(u8::from(AnimationId::Idle1), 0);
    assert_eq!(AnimationId::default(), AnimationId::Idle1);
}

#[test]
fn new_animation_plays_on_fourth_request() {
    let mut a = Animation::new(1);
    assert_eq!(a.play(AnimationId::JogUp, SPEED_NORMAL, false, 1), None);
    assert_eq!(a.play(AnimationId::JogUp, SPEED_NORMAL, false, 1), None);
    assert_eq!(a.play(AnimationId::JogUp, SPEED_NORMAL, false, 1), None);
    assert_eq!(
        a.play(AnimationId::JogUp, SPEED_NORMAL, false, 1),
        Some(PlayCommand { player_idx: 1, id: AnimationId::JogUp, speed_bits: SPEED_NORMAL, repeat: false })
    );
    assert_eq!(a.id, AnimationId::JogUp);
    // the active animation is not replayed
    assert_eq!(a.play(AnimationId::JogUp, SPEED_NORMAL, false, 0), None);
    // a non-idle request rerolls the next idle animation from the random bit
    assert_eq!(a.next_idle_animation, AnimationId::Idle2);
    // a repeating request plays at once
    assert!(a.play(AnimationId::Spin, SPEED_NORMAL, true, 1).is_some());
    assert_eq!(a.next_idle_animation, AnimationId::Idle1);
}

#[test]
fn interrupted_requests_start_over() {
    let mut a = Animation::new(0);
    a.play(AnimationId::WalkUp, SPEED_NORMAL, false, 0);
    a.play(AnimationId::WalkUp, SPEED_NORMAL, false, 0);
    a.play(AnimationId::WalkDown, SPEED_NORMAL, false, 0);
    assert_eq!(a.unknown_0xf, 1);
    assert_eq!(a.alt_id, AnimationId::WalkDown);
    a.play(AnimationId::WalkDown, SPEED_NORMAL, false, 0);
    a.play(AnimationId::WalkDown, SPEED_NORMAL, false, 0);
    assert!(a.play(AnimationId::WalkDown, SPEED_NORMAL, false, 0).is_some());
}

#[test]
fn idle_and_turn_decisions() {
    let a = Animation::new(0);
    let d = a.decide(&idle_context());
    assert_eq!(d.request.unwrap().id, AnimationId::Idle1);
    let mut huff = idle_context();
    huff.huffing = true;
    assert_eq!(a.decide(&huff).request.unwrap().id, AnimationId::IdleHuff);
    let mut pinch = idle_context();
    pinch.avg_len_positive = true;
    assert_eq!(a.decide(&pinch).request.unwrap().id, AnimationId::Pinch);
    let mut spinning = idle_context();
    spinning.kat_wheel_spin = true;
    assert_eq!(a.decide(&spinning).request, None);

    let mut turn = idle_context();
    turn.turn_type = PrinceTurnType::RightStickDown;
    let d = a.decide(&turn);
    let r = d.request.unwrap();
    assert_eq!((r.id, r.speed_bits), (AnimationId::WalkAroundRight, SPEED_STICK_DOWN_TURN));
    assert_eq!(d.tutorial_move, Some(TutorialMove::ShiftLeftOrRight));
}

#[test]
fn rolling_braking_and_boost_decisions() {
    let a = Animation::new(0);
    assert_eq!(a.decide(&rolling_context()).request.unwrap().id, AnimationId::JogUp);
    let mut slow = rolling_context();
    slow.at_jog_speed = false;
    assert_eq!(a.decide(&slow).request.unwrap().id, AnimationId::WalkUp);
    let mut brake = rolling_context();
    brake.kat_braking = true;
    brake.brake_push_dir = Some(PushDir::Backwards);
    let d = a.decide(&brake);
    assert_eq!(d.request.unwrap().id, AnimationId::BrakeDown);
    assert_eq!(d.tutorial_move, Some(TutorialMove::RollBackwards));
    let mut boost = rolling_context();
    boost.ouji_dash = true;
    assert_eq!(a.decide(&boost).request.unwrap().id, AnimationId::Boost);
    let mut shift = rolling_context();
    shift.quick_shifting = true;
    let r = a.decide(&shift).request.unwrap();
    assert_eq!((r.id, r.speed_bits), (AnimationId::JogUp, SPEED_QUICK_SHIFT));
    let mut air = rolling_context();
    air.airborne = true;
    assert_eq!(a.decide(&air).request.unwrap().id, AnimationId::JogUp);
}

#[test]
fn r1_jump_decisions() {
    let a = Animation::new(0);
    let mut c = idle_context();
    c.camera_mode = CameraMode::R1Jump;
    c.r1_jump_state = Some(CamR1JumpState::Rising);
    c.r1_height_below_half = true;
    assert_eq!(a.decide(&c).request.unwrap().id, AnimationId::Flip);
    c.r1_jump_state = Some(CamR1JumpState::Falling);
    c.r1_height_nonpositive = true;
    let r = a.decide(&c).request.unwrap();
    assert_eq!(r.id, AnimationId::R1Jump);
    assert!(r.repeat);
}

#[test]
fn update_requests_the_decided_animation() {
    let mut a = Animation::new(0);
    let c = rolling_context();
    let mut started = None;
    for _ in 0..4 {
        let (cmd, t) = a.update(&c, 0);
        assert_eq!(t, None);
        if cmd.is_some() {
            started = cmd;
        }
    }
    assert_eq!(started.unwrap().id, AnimationId::JogUp);
    assert_eq!(a.id, AnimationId::JogUp);
}

#[test]
fn saturated_counter_restarts_on_another_animation() {
    let mut a = Animation::new(0);
    a.unknown_0xf = 255;
    a.alt_id = AnimationId::WalkUp;
    assert!(a.play(AnimationId::WalkDown, SPEED_NORMAL, false, 0).is_none());
    assert_eq!(a.unknown_0xf, 1);
    assert_eq!(a.alt_id, AnimationId::WalkDown);
    assert_eq!(a.id, AnimationId::Idle1);

    let mut b = Animation::new(0);
    b.unknown_0xf = 255;
    b.alt_id = AnimationId::WalkUp;
    let (cmd, _) = b.update(&rolling_context(), 0);
    assert!(cmd.is_none());
    assert_eq!(b.unknown_0xf, 1);
    assert_eq!(b.alt_id, AnimationId::JogUp);
}

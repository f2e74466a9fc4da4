use openkdsim::camera::CameraMode;
use openkdsim::flags::KatPhysicsFlags;
use openkdsim::input::{GachaDir, Input};
use openkdsim::mission::{GameMode, TutorialMove};
use openkdsim::prince::{
    OujiState, PrinceParams, PrinceSidewaysDir, PrinceTurnType, PrinceViewMode, Prince,
    PushAngleClass, TurnInputs, ViewModeAction, ViewModeEnd, QUICK_SHIFT_MOVING_FLAG,
};

fn initialized_prince() -> Prince {
    let mut p = Prince::new();
    p.init(0);
    p
}

#[test]
fn end_boost_clears_spin_and_boost() {
    let mut o = OujiState::default();
    o.dash = true;
    o.dash_start = true;
    o.wheel_spin = true;
    o.wheel_spin_start = true;
    o.huff = true;
    o.end_boost();
    assert!(!o.dash && !o.dash_start && !o.wheel_spin && !o.wheel_spin_start);
    assert!(o.huff);
    let once = o;
    o.end_boost();
    assert_eq!(o, once);
}

#[test]
fn default_boost_gachas_by_size() {
    let params = PrinceParams::new();
    assert_eq!(params.gachas_for_boost(0), 5);
    assert_eq!(params.gachas_for_boost(499), 5);
    assert_eq!(params.gachas_for_boost(500), 6);
    assert_eq!(params.gachas_for_boost(4999), 6);
    assert_eq!(params.gachas_for_boost(5000), 7);
    assert_eq!(params.gachas_for_boost(9999), 7);
    // the last threshold applies to every larger size
    assert_eq!(params.gachas_for_boost(10000), 8);
    assert_eq!(params.gachas_for_boost(12000), 8);
}

#[test]
fn init_sets_mission_defaults() {
    let p = initialized_prince();
    assert_eq!(p.boost_energy, 240);
    assert_eq!(p.boost_max_energy, 240);
    assert_eq!(p.huff_duration, 240);
    assert_eq!(p.gacha_window_duration, 14);
    assert_eq!(p.gachas_for_spin, 3);
    assert_eq!(p.boost_recharge, 18);
    assert_eq!(p.boost_recharge_frequency, 100);
    assert_eq!(p.flags & 0x100, 0x100);
    assert_eq!(p.get_view_mode(), PrinceViewMode::Normal);
}

/// One tick of alternating stick pushes: returns the tutorial move of the gacha update.
fn gacha_tick(p: &mut Prince, params: &PrinceParams, k: &mut KatPhysicsFlags, left_up: bool) -> Option<TutorialMove> {
    p.update_push_dirs(left_up, !left_up, !left_up, left_up);
    p.update_gachas(params, k, CameraMode::Normal, GameMode::Normal, None, false, 100)
}

#[test]
fn three_gachas_spin_and_more_boost() {
    let params = PrinceParams::new();
    let mut p = initialized_prince();
    let mut k = KatPhysicsFlags::default();
    gacha_tick(&mut p, &params, &mut k, true);
    assert_eq!(p.gacha_count, 1);
    assert_eq!(p.last_gacha_direction, Some(GachaDir::Right));
    assert_eq!(p.gacha_window_timer, 13);
    gacha_tick(&mut p, &params, &mut k, false);
    assert_eq!(p.last_gacha_direction, Some(GachaDir::Left));
    assert!(!p.oujistate.wheel_spin);
    gacha_tick(&mut p, &params, &mut k, true);
    assert_eq!(p.gacha_count, 3);
    assert!(p.oujistate.wheel_spin_start);
    assert!(p.oujistate.wheel_spin);
    assert!(p.oujistate.dash);
    // the same push held again is no gacha; the window ticks down
    p.update_push_dirs(true, false, false, true);
    p.update_gachas(&params, &mut k, CameraMode::Normal, GameMode::Normal, None, false, 100);
    assert_eq!(p.gacha_count, 3);
    assert_eq!(p.gacha_window_timer, 12);
    assert!(!p.oujistate.wheel_spin_start);
}

#[test]
fn expired_gacha_window_resets_count() {
    let params = PrinceParams::new();
    let mut p = initialized_prince();
    let mut k = KatPhysicsFlags::default();
    gacha_tick(&mut p, &params, &mut k, true);
    assert_eq!(p.gacha_count, 1);
    for _ in 0..14 {
        p.update_push_dirs(true, false, false, true);
        p.update_gachas(&params, &mut k, CameraMode::Normal, GameMode::Normal, None, false, 100);
    }
    assert_eq!(p.gacha_window_timer, 0);
    assert_eq!(p.gacha_count, 0);
}

#[test]
fn huffing_prince_ends_spin() {
    let params = PrinceParams::new();
    let mut p = initialized_prince();
    let mut k = KatPhysicsFlags::default();
    k.wheel_spin = true;
    p.is_huffing = true;
    p.oujistate.dash = true;
    p.oujistate.wheel_spin = true;
    p.gacha_count = 4;
    let m = p.update_gachas(&params, &mut k, CameraMode::Normal, GameMode::Normal, None, false, 100);
    assert_eq!(m, None);
    assert!(!p.oujistate.dash && !p.oujistate.wheel_spin);
    assert_eq!(p.gacha_count, 0);
    assert!(!k.wheel_spin);
}

#[test]
fn boost_running_out_starts_huff() {
    let params = PrinceParams::new();
    let mut p = initialized_prince();
    let mut k = KatPhysicsFlags::default();
    p.oujistate.dash = true;
    p.oujistate.wheel_spin = true;
    p.boost_energy = 1;
    p.update_gachas(&params, &mut k, CameraMode::Normal, GameMode::Normal, None, false, 100);
    assert!(p.is_huffing);
    assert_eq!(p.huff_timer, 240);
    assert_eq!(p.boost_energy, 240);
    assert!(!p.oujistate.dash);
}

#[test]
fn huff_timer_ticks_down() {
    let mut p = initialized_prince();
    p.huff_timer = 2;
    p.update_huff();
    assert!(p.is_huffing);
    assert!(p.oujistate.huff);
    p.update_huff();
    assert!(!p.is_huffing);
    assert_eq!(p.huff_timer, 0);
    p.update_huff();
    assert_eq!(p.huff_timer, 0);
}

#[test]
fn boost_recharges_every_frequency_ticks() {
    let mut p = initialized_prince();
    p.boost_energy = 100;
    for _ in 0..99 {
        p.update_boost_recharge();
    }
    assert_eq!(p.no_dash_ticks, 99);
    assert_eq!(p.boost_energy, 100);
    p.update_boost_recharge();
    assert_eq!(p.no_dash_ticks, 0);
    assert_eq!(p.boost_energy, 118);
    // a recharge stops at the maximum energy
    p.boost_energy = 230;
    p.no_dash_ticks = 99;
    p.update_boost_recharge();
    assert_eq!(p.boost_energy, 240);
    p.oujistate.dash = true;
    p.no_dash_ticks = 5;
    p.update_boost_recharge();
    assert_eq!(p.no_dash_ticks, 0);
}

#[test]
fn flip_starts_from_stick_clicks_and_runs_out() {
    let mut p = initialized_prince();
    p.flip_duration = 4;
    let mut input = Input::default();
    input.set_stick_state(0, 10, 0, 10, false, true, true, false);
    assert!(p.read_input(&input, true));
    assert!(p.oujistate.jump_180);
    assert_eq!(p.flip_timer, 4);
    assert_eq!(p.get_sticks_pushed(), 3);
    // a flip cannot start again while flipping
    assert!(!p.should_init_flip(&input, true));
    assert!(!p.advance_flip());
    assert_eq!(p.get_turn_type(), PrinceTurnType::Flip);
    assert_eq!(p.oujistate.jump_180_leap, 96);
    assert!(!p.advance_flip());
    assert!(!p.advance_flip());
    assert!(p.advance_flip());
    assert!(!p.oujistate.jump_180);
    assert_eq!(p.flip_timer, 0);
}

#[test]
fn no_flip_beyond_the_stick_limit() {
    let mut p = initialized_prince();
    let mut input = Input::default();
    input.set_stick_state(0, 0, 0, 0, true, false, false, true);
    assert!(!p.read_input(&input, false));
    assert!(!p.oujistate.jump_180);
    assert_eq!(p.get_sticks_pushed(), 0);
}

#[test]
fn view_modes_start_and_end() {
    let mut p = initialized_prince();
    p.oujistate.dash = true;
    let mut k = KatPhysicsFlags::default();
    k.immobile = true;
    let mut input = Input::default();
    input.set_trigger_state(true, false, false, false, false, false, false, false, false);
    let a = p.update_view_mode(&mut k, &input, false, false, false, true, None);
    assert_eq!(a, ViewModeAction::StartL1Look);
    assert_eq!(a.tutorial_move(), Some(TutorialMove::LookL1));
    assert_eq!(p.get_view_mode(), PrinceViewMode::L1Look);
    assert!(!p.oujistate.dash);
    // while looking, the look follows the stick until the camera scales up
    assert_eq!(p.update_view_mode(&mut k, &input, false, false, false, true, None), ViewModeAction::UpdateL1Look);
    assert_eq!(p.update_view_mode(&mut k, &input, true, false, false, true, None), ViewModeAction::EndL1Look);
    assert_eq!(p.get_view_mode(), PrinceViewMode::Normal);
    // both L1 and R1 pressed: nothing
    input.set_trigger_state(true, false, false, false, true, false, false, false, false);
    assert_eq!(p.update_view_mode(&mut k, &input, false, false, false, true, None), ViewModeAction::NoChange);
    // versus mode never starts a view mode
    input.set_trigger_state(false, false, false, false, true, false, false, false, false);
    assert_eq!(p.update_view_mode(&mut k, &input, false, false, true, true, None), ViewModeAction::NoChange);
    assert_eq!(p.update_view_mode(&mut k, &input, false, false, false, true, None), ViewModeAction::StartR1Jump);
    assert_eq!(p.try_end_view_mode(false, CameraMode::R1Jump), ViewModeEnd::Continue);
    assert_eq!(p.try_end_view_mode(false, CameraMode::Normal), ViewModeEnd::EndedResetCamera);
    assert_eq!(p.get_view_mode(), PrinceViewMode::Normal);
}

fn turn(ls_neutral: bool, rs_neutral: bool, ls_up: bool, rs_up: bool, opposed: bool, class: PushAngleClass) -> TurnInputs {
    TurnInputs {
        no_input: false,
        ls_neutral,
        rs_neutral,
        ls_up,
        rs_up,
        sticks_opposed: opposed,
        kat_moving: true,
        push_class: class,
    }
}

#[test]
fn turn_types_from_sticks() {
    let mut p = initialized_prince();
    assert_eq!(p.update_angle(turn(true, false, false, true, false, PushAngleClass::Forwards)), None);
    assert_eq!(p.get_turn_type(), PrinceTurnType::RightStickUp);
    p.update_angle(turn(false, true, false, false, false, PushAngleClass::Forwards));
    assert_eq!(p.get_turn_type(), PrinceTurnType::LeftStickDown);
    assert_eq!(
        p.update_angle(turn(false, false, true, true, false, PushAngleClass::Backwards)),
        Some(TutorialMove::RollBackwards)
    );
    assert_eq!(p.get_turn_type(), PrinceTurnType::BothSticks);
    assert_eq!(
        p.update_angle(turn(false, false, true, true, false, PushAngleClass::SidewaysLeft)),
        Some(TutorialMove::RollSideways)
    );
    assert_eq!(p.get_push_sideways_dir(), Some(PrinceSidewaysDir::Left));
    assert_eq!(
        p.update_angle(turn(false, false, true, false, true, PushAngleClass::Forwards)),
        Some(TutorialMove::QuickShift)
    );
    assert_eq!(p.get_flags() & QUICK_SHIFT_MOVING_FLAG, QUICK_SHIFT_MOVING_FLAG);
    // the flag only lasts one decision
    p.update_angle(turn(false, false, true, true, false, PushAngleClass::RightDiagonal));
    assert_eq!(p.get_flags() & QUICK_SHIFT_MOVING_FLAG, 0);
    assert_eq!(p.get_push_sideways_dir(), None);
    // no input
    p.is_quick_shifting = true;
    let mut none = turn(true, true, false, false, false, PushAngleClass::Forwards);
    none.no_input = true;
    assert_eq!(p.update_angle(none), None);
    assert_eq!(p.get_turn_type(), PrinceTurnType::NoTurn);
    assert!(!p.get_is_quick_shifting());
}

#[test]
fn boost_drains_energy_except_in_tutorial() {
    let params = PrinceParams::new();
    let mut p = initialized_prince();
    let mut k = KatPhysicsFlags::default();
    p.oujistate.dash = true;
    p.boost_energy = 10;
    p.update_gachas(&params, &mut k, CameraMode::Normal, GameMode::Normal, None, false, 100);
    assert_eq!(p.boost_energy, 9);
    p.update_gachas(&params, &mut k, CameraMode::Normal, GameMode::Tutorial, Some(2), false, 100);
    assert_eq!(p.boost_energy, 9);
    // the shoot camera keeps the prince boosting without draining
    p.update_gachas(&params, &mut k, CameraMode::Shoot, GameMode::Normal, None, false, 100);
    assert_eq!(p.boost_energy, 9);
    assert!(p.oujistate.dash);
}

#[test]
fn flip_of_no_duration_ends_at_once() {
    let mut p = initialized_prince();
    p.flip_duration = 0;
    p.flip_timer = 1;
    p.oujistate.jump_180 = true;
    assert!(p.advance_flip());
    assert_eq!(p.oujistate.jump_180_leap, 0);
    assert!(!p.falling_from_flip);
    assert!(!p.oujistate.jump_180);
}

#[test]
fn flip_first_half_flag() {
    let mut p = initialized_prince();
    p.flip_duration = 4;
    p.flip_timer = 4;
    p.advance_flip();
    assert!(p.falling_from_flip);
    p.advance_flip();
    assert!(p.falling_from_flip);
    p.advance_flip();
    assert!(!p.falling_from_flip);
    assert_eq!(p.oujistate.jump_180_leap, 32);
}

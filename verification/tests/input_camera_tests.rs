use openkdsim::camera::{CamR1JumpState, Camera, CameraMode, CameraParams};
use openkdsim::input::{AnalogPushDirs, Input, StickPushDir};

#[test]
fn set_stick_state_stores_axes_and_clicks() {
    let mut input = Input::default();
    input.set_trigger_state(true, false, false, false, false, false, false, false, true);
    input.set_stick_state(-128, 127, 5, -5, true, false, false, true);
    assert_eq!(input.ls_x, -128);
    assert_eq!(input.ls_y, 127);
    assert_eq!(input.rs_x, 5);
    assert_eq!(input.rs_y, -5);
    assert!(input.l3_down);
    assert!(!input.r3_down);
    assert!(!input.l3_held);
    assert!(input.r3_held);
    // the trigger state set before is kept
    assert!(input.l1_down);
    assert!(input.cross_click);
}

#[test]
fn any_trigger_down_sees_each_trigger() {
    let mut input = Input::default();
    assert!(!input.any_trigger_down());
    input.set_trigger_state(false, false, false, false, false, false, false, true, false);
    assert!(input.any_trigger_down());
    input.set_trigger_state(false, false, false, false, false, false, false, false, true);
    // the cross button is no trigger
    assert!(!input.any_trigger_down());
    input.set_trigger_state(false, false, true, false, false, false, false, false, false);
    assert!(input.any_trigger_down());
}

#[test]
fn push_dirs_from_comparisons_and_changes() {
    let mut dirs = AnalogPushDirs::default();
    dirs.update_from_comparisons(true, false, false, true);
    assert_eq!(dirs.left, Some(StickPushDir::Up));
    assert_eq!(dirs.right, Some(StickPushDir::Down));
    // "up" wins when both comparisons hold
    dirs.update_from_comparisons(true, true, false, false);
    assert_eq!(dirs.left, Some(StickPushDir::Up));
    assert_eq!(dirs.right, None);

    let last = AnalogPushDirs { left: Some(StickPushDir::Up), right: None };
    let current = AnalogPushDirs { left: Some(StickPushDir::Up), right: Some(StickPushDir::Down) };
    let mut changed = AnalogPushDirs::default();
    changed.compute_changed(&last, &current);
    assert_eq!(changed.left, None);
    assert_eq!(changed.right, Some(StickPushDir::Down));

    changed.clear();
    assert_eq!(changed, AnalogPushDirs { left: None, right: None });
}

#[test]
fn camera_mode_codes_roundtrip() {
    for code in 0..13 {
        let mode = CameraMode::from_i32(code);
        assert!(!matches!(mode, CameraMode::Unknown(_)));
        assert_eq!(mode.to_u8() as i32, code);
    }
    assert_eq!(CameraMode::from_i32(5), CameraMode::Shoot);
    assert_eq!(CameraMode::from_i32(12), CameraMode::VsResult);
    assert_eq!(CameraMode::from_i32(13), CameraMode::Unknown(13));
    assert_eq!(CameraMode::from_i32(-1), CameraMode::Unknown(-1));
    assert_eq!(CameraMode::Unknown(40).to_u8(), 40);
    let via_from: CameraMode = CameraMode::from(2);
    assert_eq!(via_from, CameraMode::L1Look);
    let code: u8 = u8::from(CameraMode::ClearGoalProp);
    assert_eq!(code, 11);
    assert_eq!(CameraMode::default(), CameraMode::Normal);
}

#[test]
fn r1_jump_state_codes() {
    let a = CamR1JumpState::Rising.to_u8();
    let b = CamR1JumpState::AtPeak.to_u8();
    let c = CamR1JumpState::Falling.to_u8();
    assert_eq!((a, b, c), (0, 1, 2));
    assert_eq!(u8::from(CamR1JumpState::AtPeak), 1);
}

#[test]
fn camera_modes_start_shoot_timers() {
    let mut cam = Camera::new(CameraParams::default());
    assert_eq!(cam.get_mode(), CameraMode::Normal);
    cam.set_mode(CameraMode::Shoot);
    assert_eq!(cam.get_mode(), CameraMode::Shoot);
    assert_eq!(cam.shoot_timer, 0x3c);
    cam.shoot_timer = 7;
    cam.set_mode(CameraMode::L1Look);
    assert_eq!(cam.shoot_timer, 7);
    cam.set_mode(CameraMode::ShootRet);
    assert_eq!(cam.shoot_timer, 0x14);
    assert!(!cam.is_scaling_up());
    assert_eq!(cam.get_r1_jump_state(), None);
}

#[test]
fn camera_effect_and_reset() {
    let mut cam = Camera::new(CameraParams { shoot_timer_init: 1, shoot_ret_timer_init: 2 });
    cam.set_cam_eff_1P(3);
    assert!(cam.cam_eff_1P);
    cam.set_cam_eff_1P(0);
    assert!(!cam.cam_eff_1P);
    cam.set_cam_eff_1P(-4);
    assert!(!cam.cam_eff_1P);
    cam.set_cam_eff_1P(1);
    cam.cam_eff_1P_related = true;
    cam.reset_state();
    assert!(!cam.cam_eff_1P && !cam.cam_eff_1P_related);
    assert!(cam.apply_easing);
}

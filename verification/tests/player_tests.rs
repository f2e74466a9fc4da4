use openkdsim::camera::{CameraMode, CameraParams};
use openkdsim::player::{update_prince_and_kat, Player, PlayerUpdateStep};
use openkdsim::prince::PrinceViewMode;

#[test]
fn frozen_game_only_updates_collision_rays() {
    assert_eq!(update_prince_and_kat(true), vec![PlayerUpdateStep::UpdateCollisionRays]);
}

#[test]
fn running_game_updates_in_order() {
    assert_eq!(
        update_prince_and_kat(false),
        vec![
            PlayerUpdateStep::UpdatePrince,
            PlayerUpdateStep::UpdateKatamari,
            PlayerUpdateStep::UpdatePrinceTransform,
            PlayerUpdateStep::UpdateAnimation,
            PlayerUpdateStep::UpdateRoyalWarp,
        ]
    );
}

#[test]
fn shooting_mode_reset_returns_to_normal() {
    let mut player = Player::new(1, CameraParams::default());
    assert_eq!(player.animation.player_idx, 1);
    player.prince.set_view_mode(PrinceViewMode::L1Look);
    player.prince.set_ignore_input_timer(30);
    player.set_camera_mode(CameraMode::L1Look);
    assert_eq!(player.camera.get_mode(), CameraMode::L1Look);
    player.set_shooting_mode(true, false);
    assert_eq!(player.prince.get_view_mode(), PrinceViewMode::L1Look);
    player.set_shooting_mode(false, true);
    assert_eq!(player.prince.get_view_mode(), PrinceViewMode::Normal);
    assert_eq!(player.prince.ignore_input_timer, 0);
    assert_eq!(player.camera.get_mode(), CameraMode::Normal);
}

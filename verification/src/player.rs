use vstd::prelude::*;
use crate::animation::Animation;
use crate::camera::{Camera, CameraMode, CameraParams};
use crate::input::Input;
use crate::katamari::Katamari;
use crate::prince::{view_mode_ended, Prince};

verus! {

/// One step of a player's tick, in the order the game performs them.
#[derive(Debug, Clone, Copy, PartialEq, Eq, Structural)]
pub enum PlayerUpdateStep {
    /// Recompute the katamari's collision rays only.
    UpdateCollisionRays,
    /// Update the prince from the player's input.
    UpdatePrince,
    /// Update the katamari (velocity, collision and props).
    UpdateKatamari,
    /// Move the prince to the updated katamari.
    UpdatePrinceTransform,
    /// Pick the prince's animation.
    UpdateAnimation,
    /// Warp the player back if the katamari fell below the stage.
    UpdateRoyalWarp,
}

/// The steps of a player's tick: while the game is frozen only the collision rays
/// follow the katamari; otherwise the prince, the katamari, the prince's transform,
/// the animation and the royal warp are updated in this order.
pub open spec fn player_update_steps(freeze: bool) -> Seq<PlayerUpdateStep> {
    if freeze {
        seq![PlayerUpdateStep::UpdateCollisionRays]
    } else {
        seq![
            PlayerUpdateStep::UpdatePrince,
            PlayerUpdateStep::UpdateKatamari,
            PlayerUpdateStep::UpdatePrinceTransform,
            PlayerUpdateStep::UpdateAnimation,
            PlayerUpdateStep::UpdateRoyalWarp,
        ]
    }
}

/// The steps that update the prince and katamari of one player on this tick
/// (see `player_update_steps`); the caller performs them in order.
pub fn update_prince_and_kat(freeze: bool) -> (steps: Vec<PlayerUpdateStep>)
    ensures
        steps@ == player_update_steps(freeze),
{
    let mut steps: Vec<PlayerUpdateStep> = Vec::new();
    if freeze {
        steps.push(PlayerUpdateStep::UpdateCollisionRays);
    } else {
        steps.push(PlayerUpdateStep::UpdatePrince);
        steps.push(PlayerUpdateStep::UpdateKatamari);
        steps.push(PlayerUpdateStep::UpdatePrinceTransform);
        steps.push(PlayerUpdateStep::UpdateAnimation);
        steps.push(PlayerUpdateStep::UpdateRoyalWarp);
    }
    assert(steps@ =~= player_update_steps(freeze));
    steps
}

/// The prince is always updated before the katamari, and the katamari before the
/// prince's transform and animation, which read it.
pub proof fn law_prince_before_katamari()
    ensures
        player_update_steps(false)[0] == PlayerUpdateStep::UpdatePrince,
        player_update_steps(false)[1] == PlayerUpdateStep::UpdateKatamari,
        player_update_steps(false)[2] == PlayerUpdateStep::UpdatePrinceTransform,
        player_update_steps(true).len() == 1,
{
}

/// The state of one player: the prince's animation, the camera, the input, the
/// katamari and the prince.
#[derive(Debug)]
pub struct Player {
    pub animation: Animation,
    pub camera: Camera,
    pub input: Input,
    pub katamari: Katamari,
    pub prince: Prince,
}

impl Player {
    /// A player with fresh state for player index `player_idx`.
    pub fn new(player_idx: u8, camera_params: CameraParams) -> (r: Player)
        ensures
            r.animation.player_idx == player_idx,
            r.animation.unknown_0xf == 0,
            r.camera.mode == CameraMode::Normal,
            r.camera.params == camera_params,
            r.katamari.hit_history@ == Seq::<(u8, u8)>::empty(),
            r.prince.view_mode == crate::prince::PrinceViewMode::Normal,
    {
        Player {
            animation: Animation::new(player_idx),
            camera: Camera::new(camera_params),
            input: Input {
                ls_x: 0,
                ls_y: 0,
                rs_x: 0,
                rs_y: 0,
                l1_down: false,
                l1_held: false,
                l2_down: false,
                l2_held: false,
                l3_down: false,
                l3_held: false,
                r1_down: false,
                r1_held: false,
                r2_down: false,
                r2_held: false,
                r3_down: false,
                r3_held: false,
                cross_click: false,
            },
            katamari: Katamari::default(),
            prince: Prince::new(),
        }
    }

    /// Switches the camera to `mode`.
    pub fn set_camera_mode(&mut self, mode: CameraMode)
        ensures
            final(self).camera.mode == mode,
            final(self).camera.params == old(self).camera.params,
            final(self).prince == old(self).prince,
    {
        self.camera.set_mode(mode);
    }

    /// Enters or leaves the shooting mode. (The game ignores `_fg`.) A reset returns the
    /// prince to the normal view mode with no ignored input, and the camera to its normal
    /// mode; otherwise nothing changes.
    pub fn set_shooting_mode(&mut self, _fg: bool, reset: bool)
        ensures
            reset ==> final(self).prince == view_mode_ended(old(self).prince)
                && final(self).camera.mode == CameraMode::Normal
                && final(self).camera.shoot_timer == old(self).camera.shoot_timer,
            !reset ==> final(self).prince == old(self).prince && final(self).camera == old(self).camera,
    {
        if reset {
            self.prince.end_view_mode();
            self.camera.set_mode(CameraMode::Normal);
        }
    }
}

} // verus!

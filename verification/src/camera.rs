use vstd::prelude::*;

verus! {

/// The camera's behavioral mode.
#[derive(Debug, Clone, Copy, PartialEq, Eq, Structural)]
pub enum CameraMode {
    Normal,
    R1Jump,
    L1Look,
    HitByProp,
    Clear,
    Shoot,
    ShootRet,
    Ending1,
    Ending2,
    Ending3,
    AreaChange,
    ClearGoalProp,
    VsResult,
    Unknown(i32),
}

/// The camera mode encoded by the integer `value`; integers outside `0..=12` are kept
/// as `Unknown(value)`.
pub open spec fn camera_mode_of(value: i32) -> CameraMode {
    if value == 0 {
        CameraMode::Normal
    } else if value == 1 {
        CameraMode::R1Jump
    } else if value == 2 {
        CameraMode::L1Look
    } else if value == 3 {
        CameraMode::HitByProp
    } else if value == 4 {
        CameraMode::Clear
    } else if value == 5 {
        CameraMode::Shoot
    } else if value == 6 {
        CameraMode::ShootRet
    } else if value == 7 {
        CameraMode::Ending1
    } else if value == 8 {
        CameraMode::Ending2
    } else if value == 9 {
        CameraMode::Ending3
    } else if value == 10 {
        CameraMode::AreaChange
    } else if value == 11 {
        CameraMode::ClearGoalProp
    } else if value == 12 {
        CameraMode::VsResult
    } else {
        CameraMode::Unknown(value)
    }
}

/// The byte that encodes `mode`; an unknown mode is its integer truncated to a byte.
pub open spec fn camera_mode_code(mode: CameraMode) -> u8 {
    match mode {
        CameraMode::Normal => 0,
        CameraMode::R1Jump => 1,
        CameraMode::L1Look => 2,
        CameraMode::HitByProp => 3,
        CameraMode::Clear => 4,
        CameraMode::Shoot => 5,
        CameraMode::ShootRet => 6,
        CameraMode::Ending1 => 7,
        CameraMode::Ending2 => 8,
        CameraMode::Ending3 => 9,
        CameraMode::AreaChange => 10,
        CameraMode::ClearGoalProp => 11,
        CameraMode::VsResult => 12,
        CameraMode::Unknown(value) => value as u8,
    }
}

impl CameraMode {
    /// Decode a camera mode from its integer value.
    pub fn from_i32(value: i32) -> (r: CameraMode)
        ensures
            r == camera_mode_of(value),
    {
        match value {
            0 => CameraMode::Normal,
            1 => CameraMode::R1Jump,
            2 => CameraMode::L1Look,
            3 => CameraMode::HitByProp,
            4 => CameraMode::Clear,
            5 => CameraMode::Shoot,
            6 => CameraMode::ShootRet,
            7 => CameraMode::Ending1,
            8 => CameraMode::Ending2,
            9 => CameraMode::Ending3,
            10 => CameraMode::AreaChange,
            11 => CameraMode::ClearGoalProp,
            12 => CameraMode::VsResult,
            _ => CameraMode::Unknown(value),
        }
    }

    /// Encode this camera mode as a byte.
    pub fn to_u8(self) -> (r: u8)
        ensures
            r == camera_mode_code(self),
    {
        match self {
            CameraMode::Normal => 0,
            CameraMode::R1Jump => 1,
            CameraMode::L1Look => 2,
            CameraMode::HitByProp => 3,
            CameraMode::Clear => 4,
            CameraMode::Shoot => 5,
            CameraMode::ShootRet => 6,
            CameraMode::Ending1 => 7,
            CameraMode::Ending2 => 8,
            CameraMode::Ending3 => 9,
            CameraMode::AreaChange => 10,
            CameraMode::ClearGoalProp => 11,
            CameraMode::VsResult => 12,
            CameraMode::Unknown(value) => value as u8,
        }
    }

    /// Returns `true` for the thirteen named modes, `false` for `Unknown`.
    pub open spec fn is_known(self) -> bool {
        !(self is Unknown)
    }
}

impl Default for CameraMode {
    fn default() -> (r: Self)
        ensures
            r == CameraMode::Normal,
    {
        CameraMode::Normal
    }
}

impl From<i32> for CameraMode {
    fn from(value: i32) -> (r: Self) {
        CameraMode::from_i32(value)
    }
}

impl vstd::std_specs::convert::FromSpecImpl<i32> for CameraMode {
    open spec fn obeys_from_spec() -> bool {
        true
    }

    open spec fn from_spec(value: i32) -> Self {
        camera_mode_of(value)
    }
}

impl From<CameraMode> for u8 {
    fn from(mode: CameraMode) -> (r: u8) {
        mode.to_u8()
    }
}

impl vstd::std_specs::convert::FromSpecImpl<CameraMode> for u8 {
    open spec fn obeys_from_spec() -> bool {
        true
    }

    open spec fn from_spec(mode: CameraMode) -> u8 {
        camera_mode_code(mode)
    }
}

/// Decoding the code of a named camera mode gives the mode back.
pub proof fn law_camera_mode_code_roundtrip(mode: CameraMode)
    requires
        mode.is_known(),
    ensures
        camera_mode_of(camera_mode_code(mode) as i32) == mode,
{
}

/// Every integer in `0..=12` decodes to a named mode whose code is that integer.
pub proof fn law_camera_mode_value_roundtrip(value: i32)
    requires
        0 <= value <= 12,
    ensures
        camera_mode_of(value).is_known(),
        camera_mode_code(camera_mode_of(value)) == value,
{
}

/// An integer outside `0..=12` decodes to `Unknown` holding that integer.
pub proof fn law_camera_mode_unknown_kept(value: i32)
    requires
        !(0 <= value <= 12),
    ensures
        camera_mode_of(value) == CameraMode::Unknown(value),
{
}

/// A camera override that locks the camera to the prince
/// after some prop collisions.
#[derive(Debug, Clone, Copy, PartialEq, Eq, Structural)]
pub enum CamOverrideType {
    PrinceLocked,
}

/// Different camera states when transitioning into and out of an R1 jump.
#[derive(Debug, Clone, Copy, PartialEq, Eq, Structural)]
pub enum CamR1JumpState {
    /// At the start of a jump when the prince is gaining height.
    Rising,
    /// During a jump when the prince is at max height.
    AtPeak,
    /// At the end of a jump when the prince loses height.
    Falling,
}

/// The byte that encodes an R1 jump state.
pub open spec fn r1_jump_state_code(state: CamR1JumpState) -> u8 {
    match state {
        CamR1JumpState::Rising => 0,
        CamR1JumpState::AtPeak => 1,
        CamR1JumpState::Falling => 2,
    }
}

impl CamR1JumpState {
    /// Encode this R1 jump state as a byte.
    pub fn to_u8(self) -> (r: u8)
        ensures
            r == r1_jump_state_code(self),
    {
        match self {
            CamR1JumpState::Rising => 0,
            CamR1JumpState::AtPeak => 1,
            CamR1JumpState::Falling => 2,
        }
    }
}

impl From<CamR1JumpState> for u8 {
    fn from(state: CamR1JumpState) -> (r: u8) {
        state.to_u8()
    }
}

impl vstd::std_specs::convert::FromSpecImpl<CamR1JumpState> for u8 {
    open spec fn obeys_from_spec() -> bool {
        true
    }

    open spec fn from_spec(state: CamR1JumpState) -> u8 {
        r1_jump_state_code(state)
    }
}

/// The discrete parameters of the camera.
#[derive(Debug, Clone, Copy, PartialEq, Eq, Structural)]
pub struct CameraParams {
    /// The duration of the shoot camera mode.
    pub shoot_timer_init: u16,
    /// The duration of the return from the shoot camera mode.
    pub shoot_ret_timer_init: u16,
}

impl Default for CameraParams {
    fn default() -> (r: Self)
        ensures
            r.shoot_timer_init == 0x3c,
            r.shoot_ret_timer_init == 0x14,
    {
        CameraParams { shoot_timer_init: 0x3c, shoot_ret_timer_init: 0x14 }
    }
}

/// The discrete state of a player's camera.
#[allow(non_snake_case)]
#[derive(Debug, Clone, Copy, PartialEq, Eq, Structural)]
pub struct Camera {
    /// The camera's mode.
    pub mode: CameraMode,
    /// The ticks left in the shoot mode, or in the return from it.
    pub shoot_timer: u16,
    /// The camera is zooming out after the katamari grew.
    pub scale_up_in_progress: bool,
    /// The stage of the R1 jump, during one.
    pub r1_jump_state: Option<CamR1JumpState>,
    /// The frontend's first-player camera effect is on.
    pub cam_eff_1P: bool,
    /// A flag that goes with the first-player camera effect.
    pub cam_eff_1P_related: bool,
    /// The camera eases towards its targets.
    pub apply_easing: bool,
    pub params: CameraParams,
}

/// The shoot timer after switching to `mode`: the shoot mode and the return from it
/// start their timers; other modes keep it.
pub open spec fn shoot_timer_after_mode(c: Camera, mode: CameraMode) -> u16 {
    match mode {
        CameraMode::Shoot => c.params.shoot_timer_init,
        CameraMode::ShootRet => c.params.shoot_ret_timer_init,
        _ => c.shoot_timer,
    }
}

impl Camera {
    /// A camera in the normal mode, with the given parameters.
    pub fn new(params: CameraParams) -> (r: Camera)
        ensures
            r.mode == CameraMode::Normal,
            r.shoot_timer == 0,
            !r.scale_up_in_progress,
            r.r1_jump_state is None,
            !r.cam_eff_1P,
            !r.cam_eff_1P_related,
            !r.apply_easing,
            r.params == params,
    {
        Camera {
            mode: CameraMode::Normal,
            shoot_timer: 0,
            scale_up_in_progress: false,
            r1_jump_state: None,
            cam_eff_1P: false,
            cam_eff_1P_related: false,
            apply_easing: false,
            params,
        }
    }

    pub fn get_mode(&self) -> (r: CameraMode)
        ensures
            r == self.mode,
    {
        self.mode
    }

    pub fn is_scaling_up(&self) -> (r: bool)
        ensures
            r == self.scale_up_in_progress,
    {
        self.scale_up_in_progress
    }

    pub fn get_r1_jump_state(&self) -> (r: Option<CamR1JumpState>)
        ensures
            r == self.r1_jump_state,
    {
        self.r1_jump_state
    }

    /// Switches the camera to `mode`, starting the shoot timers of the shoot modes.
    /// (The shoot mode also records the camera position, which the caller keeps.)
    pub fn set_mode(&mut self, mode: CameraMode)
        ensures
            *final(self) == (Camera {
                mode: mode,
                shoot_timer: shoot_timer_after_mode(*old(self), mode),
                ..*old(self)
            }),
    {
        self.mode = mode;
        match mode {
            CameraMode::Shoot => {
                self.shoot_timer = self.params.shoot_timer_init;
            },
            CameraMode::ShootRet => {
                self.shoot_timer = self.params.shoot_ret_timer_init;
            },
            _ => {},
        }
    }

    /// Turns the first-player camera effect on for a positive value, off otherwise.
    #[allow(non_snake_case)]
    pub fn set_cam_eff_1P(&mut self, cam_eff_1P: i32)
        ensures
            *final(self) == (Camera { cam_eff_1P: cam_eff_1P > 0, ..*old(self) }),
    {
        self.cam_eff_1P = cam_eff_1P > 0;
    }

    /// Resets the camera state at the start of a mission or after a royal warp: the
    /// camera eases again and the first-player camera effect is off. (The caller moves
    /// the camera to its normal position.)
    pub fn reset_state(&mut self)
        ensures
            *final(self) == (Camera {
                apply_easing: true,
                cam_eff_1P: false,
                cam_eff_1P_related: false,
                ..*old(self)
            }),
    {
        self.apply_easing = true;
        self.cam_eff_1P = false;
        self.cam_eff_1P_related = false;
    }
}

} // verus!

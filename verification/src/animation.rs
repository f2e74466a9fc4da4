use vstd::prelude::*;
use crate::camera::{CameraMode, CamR1JumpState};
use crate::katamari::CamRelativeDir;
use crate::mission::TutorialMove;
use crate::prince::{PrinceSidewaysDir, PrinceTurnType, PrinceViewMode, PushDir};

verus! {

/// The animations the frontend can play for the prince.
#[derive(Debug, Clone, Copy, PartialEq, Eq, Structural)]
pub enum AnimationId {
    Idle1,
    IdleHuff,
    WalkUp,
    JogUp,
    WalkDown,
    WalkRight,
    WalkLeft,
    Spin,
    Boost,
    WalkUpHuff,
    WalkUpNoPush,
    WalkRightNoPush,
    WalkLeftNoPush,
    WalkAroundLeft,
    WalkAroundRight,
    BrakeUp,
    BrakeDown,
    BrakeLeft,
    BrakeRight,
    VsMode0x16,
    L1Look,
    R1Jump,
    Flip,
    L1LookUnused0x1a,
    Climb,
    Idle2,
    VsMode0x22,
    Pinch,
    WalkDownNoPush,
}

/// The byte by which the frontend identifies an animation.
pub open spec fn animation_code(id: AnimationId) -> u8 {
    match id {
        AnimationId::Idle1 => 0,
        AnimationId::IdleHuff => 1,
        AnimationId::WalkUp => 2,
        AnimationId::JogUp => 3,
        AnimationId::WalkDown => 4,
        AnimationId::WalkRight => 5,
        AnimationId::WalkLeft => 6,
        AnimationId::Spin => 7,
        AnimationId::Boost => 8,
        AnimationId::WalkUpHuff => 9,
        AnimationId::WalkUpNoPush => 13,
        AnimationId::WalkRightNoPush => 14,
        AnimationId::WalkLeftNoPush => 15,
        AnimationId::WalkAroundLeft => 16,
        AnimationId::WalkAroundRight => 17,
        AnimationId::BrakeUp => 18,
        AnimationId::BrakeDown => 19,
        AnimationId::BrakeLeft => 20,
        AnimationId::BrakeRight => 21,
        AnimationId::VsMode0x16 => 22,
        AnimationId::L1Look => 23,
        AnimationId::R1Jump => 24,
        AnimationId::Flip => 25,
        AnimationId::L1LookUnused0x1a => 26,
        AnimationId::Climb => 27,
        AnimationId::Idle2 => 28,
        AnimationId::VsMode0x22 => 34,
        AnimationId::Pinch => 38,
        AnimationId::WalkDownNoPush => 40,
    }
}

/// The animation identified by the byte `code`, if any.
pub open spec fn animation_of_code(code: u8) -> Option<AnimationId> {
    if code == 0 {
        Some(AnimationId::Idle1)
    } else if code == 1 {
        Some(AnimationId::IdleHuff)
    } else if code == 2 {
        Some(AnimationId::WalkUp)
    } else if code == 3 {
        Some(AnimationId::JogUp)
    } else if code == 4 {
        Some(AnimationId::WalkDown)
    } else if code == 5 {
        Some(AnimationId::WalkRight)
    } else if code == 6 {
        Some(AnimationId::WalkLeft)
    } else if code == 7 {
        Some(AnimationId::Spin)
    } else if code == 8 {
        Some(AnimationId::Boost)
    } else if code == 9 {
        Some(AnimationId::WalkUpHuff)
    } else if code == 13 {
        Some(AnimationId::WalkUpNoPush)
    } else if code == 14 {
        Some(AnimationId::WalkRightNoPush)
    } else if code == 15 {
        Some(AnimationId::WalkLeftNoPush)
    } else if code == 16 {
        Some(AnimationId::WalkAroundLeft)
    } else if code == 17 {
        Some(AnimationId::WalkAroundRight)
    } else if code == 18 {
        Some(AnimationId::BrakeUp)
    } else if code == 19 {
        Some(AnimationId::BrakeDown)
    } else if code == 20 {
        Some(AnimationId::BrakeLeft)
    } else if code == 21 {
        Some(AnimationId::BrakeRight)
    } else if code == 22 {
        Some(AnimationId::VsMode0x16)
    } else if code == 23 {
        Some(AnimationId::L1Look)
    } else if code == 24 {
        Some(AnimationId::R1Jump)
    } else if code == 25 {
        Some(AnimationId::Flip)
    } else if code == 26 {
        Some(AnimationId::L1LookUnused0x1a)
    } else if code == 27 {
        Some(AnimationId::Climb)
    } else if code == 28 {
        Some(AnimationId::Idle2)
    } else if code == 34 {
        Some(AnimationId::VsMode0x22)
    } else if code == 38 {
        Some(AnimationId::Pinch)
    } else if code == 40 {
        Some(AnimationId::WalkDownNoPush)
    } else {
        None
    }
}

/// A non-huff idle animation.
pub open spec fn animation_is_idle(id: AnimationId) -> bool {
    id == AnimationId::Idle1 || id == AnimationId::Idle2
}

impl AnimationId {
    /// Returns `true` if this animation id is a non-huff idle animation.
    pub fn is_idle(self) -> (r: bool)
        ensures
            r == animation_is_idle(self),
    {
        match self {
            AnimationId::Idle1 => true,
            AnimationId::Idle2 => true,
            _ => false,
        }
    }

    /// The byte that identifies this animation.
    pub fn to_u8(self) -> (r: u8)
        ensures
            r == animation_code(self),
    {
        match self {
            AnimationId::Idle1 => 0,
            AnimationId::IdleHuff => 1,
            AnimationId::WalkUp => 2,
            AnimationId::JogUp => 3,
            AnimationId::WalkDown => 4,
            AnimationId::WalkRight => 5,
            AnimationId::WalkLeft => 6,
            AnimationId::Spin => 7,
            AnimationId::Boost => 8,
            AnimationId::WalkUpHuff => 9,
            AnimationId::WalkUpNoPush => 13,
            AnimationId::WalkRightNoPush => 14,
            AnimationId::WalkLeftNoPush => 15,
            AnimationId::WalkAroundLeft => 16,
            AnimationId::WalkAroundRight => 17,
            AnimationId::BrakeUp => 18,
            AnimationId::BrakeDown => 19,
            AnimationId::BrakeLeft => 20,
            AnimationId::BrakeRight => 21,
            AnimationId::VsMode0x16 => 22,
            AnimationId::L1Look => 23,
            AnimationId::R1Jump => 24,
            AnimationId::Flip => 25,
            AnimationId::L1LookUnused0x1a => 26,
            AnimationId::Climb => 27,
            AnimationId::Idle2 => 28,
            AnimationId::VsMode0x22 => 34,
            AnimationId::Pinch => 38,
            AnimationId::WalkDownNoPush => 40,
        }
    }

    /// The animation identified by the byte `code`, if any.
    pub fn from_u8(code: u8) -> (r: Option<AnimationId>)
        ensures
            r == animation_of_code(code),
    {
        match code {
            0 => Some(AnimationId::Idle1),
            1 => Some(AnimationId::IdleHuff),
            2 => Some(AnimationId::WalkUp),
            3 => Some(AnimationId::JogUp),
            4 => Some(AnimationId::WalkDown),
            5 => Some(AnimationId::WalkRight),
            6 => Some(AnimationId::WalkLeft),
            7 => Some(AnimationId::Spin),
            8 => Some(AnimationId::Boost),
            9 => Some(AnimationId::WalkUpHuff),
            13 => Some(AnimationId::WalkUpNoPush),
            14 => Some(AnimationId::WalkRightNoPush),
            15 => Some(AnimationId::WalkLeftNoPush),
            16 => Some(AnimationId::WalkAroundLeft),
            17 => Some(AnimationId::WalkAroundRight),
            18 => Some(AnimationId::BrakeUp),
            19 => Some(AnimationId::BrakeDown),
            20 => Some(AnimationId::BrakeLeft),
            21 => Some(AnimationId::BrakeRight),
            22 => Some(AnimationId::VsMode0x16),
            23 => Some(AnimationId::L1Look),
            24 => Some(AnimationId::R1Jump),
            25 => Some(AnimationId::Flip),
            26 => Some(AnimationId::L1LookUnused0x1a),
            27 => Some(AnimationId::Climb),
            28 => Some(AnimationId::Idle2),
            34 => Some(AnimationId::VsMode0x22),
            38 => Some(AnimationId::Pinch),
            40 => Some(AnimationId::WalkDownNoPush),
            _ => None,
        }
    }
}

impl Default for AnimationId {
    fn default() -> (r: Self)
        ensures
            r == AnimationId::Idle1,
    {
        AnimationId::Idle1
    }
}

impl From<AnimationId> for u8 {
    fn from(id: AnimationId) -> (r: u8) {
        id.to_u8()
    }
}

impl vstd::std_specs::convert::FromSpecImpl<AnimationId> for u8 {
    open spec fn obeys_from_spec() -> bool {
        true
    }

    open spec fn from_spec(id: AnimationId) -> u8 {
        animation_code(id)
    }
}

/// Every animation is recovered from its byte, so no two animations share a byte.
pub proof fn law_animation_code_roundtrip(id: AnimationId)
    ensures
        animation_of_code(animation_code(id)) == Some(id),
{
}

/// Two animations with the same byte are the same animation.
pub proof fn law_animation_code_injective(a: AnimationId, b: AnimationId)
    requires
        animation_code(a) == animation_code(b),
    ensures
        a == b,
{
    law_animation_code_roundtrip(a);
    law_animation_code_roundtrip(b);
}


/// The bit pattern of the playback speed `1.0`.
pub const SPEED_NORMAL: u32 = 0x3f80_0000;
/// The bit pattern of the playback speed `0.85` (turning with one stick pushed down).
pub const SPEED_STICK_DOWN_TURN: u32 = 0x3f59_999a;
/// The bit pattern of the playback speed `1.7` (quick shifting).
pub const SPEED_QUICK_SHIFT: u32 = 0x3fd9_999a;

/// A request to the frontend to play an animation.
#[derive(Debug, Clone, Copy, PartialEq, Eq, Structural)]
pub struct PlayCommand {
    /// The player whose prince plays the animation.
    pub player_idx: u8,
    /// The animation to play.
    pub id: AnimationId,
    /// The bit pattern of the playback speed.
    pub speed_bits: u32,
    /// Whether the animation is played even when it repeats the current one.
    pub repeat: bool,
}

/// The animation state of a player. Playback speeds are held as the bit patterns of
/// their `f32` values: the logic only stores them and compares them for equality, and
/// two speeds are equal exactly when their bit patterns are. A caller that converts an
/// `f32` speed writes `0.0` for `-0.0` (so that the two zeros compare equal, as `f32`
/// values do) and passes no NaN (which as an `f32` equals nothing, itself included).
#[derive(Debug, Clone, Copy, PartialEq, Eq, Structural)]
pub struct Animation {
    /// The next idle animation that will play when the player is idle
    /// (changes randomly between `Idle1` and `Idle2`).
    pub next_idle_animation: AnimationId,
    /// The player index associated to this animation state.
    pub player_idx: u8,
    /// The active animation.
    pub id: AnimationId,
    /// The number of consecutive requests of `alt_id` (a new animation plays on its
    /// fourth consecutive request).
    pub unknown_0xf: u8,
    /// The most recently requested animation.
    pub alt_id: AnimationId,
    /// The bit pattern of the active animation's playback speed.
    pub speed_bits: u32,
}

/// A request of `id` at `speed_bits` from the state `a` keeps the debounce counter
/// within a byte: the counter is incremented only when the request is not repeating,
/// is not of the active animation at its speed, and repeats the pending animation; the
/// counter must then be below `u8::MAX`. Every other request resets it.
pub open spec fn play_defined(a: Animation, id: AnimationId, speed_bits: u32, repeat: bool) -> bool {
    !repeat && !(a.id == id && a.speed_bits == speed_bits) && a.unknown_0xf != 0 && a.alt_id == id
        ==> a.unknown_0xf < u8::MAX
}

/// The next idle animation after a request of `id` with the random value `rng2`:
/// requesting a non-idle animation rerolls it from the random value's low bit.
pub open spec fn next_idle_after(a: Animation, id: AnimationId, rng2: u32) -> AnimationId {
    if !animation_is_idle(id) {
        if rng2 & 1 == 1 { AnimationId::Idle1 } else { AnimationId::Idle2 }
    } else {
        a.next_idle_animation
    }
}

/// Whether a request of `id` at `speed_bits` starts playing. A repeating request always
/// plays; otherwise the request of the active animation at its speed does nothing, and a
/// new animation plays on its fourth consecutive request.
pub open spec fn play_starts(a: Animation, id: AnimationId, speed_bits: u32, repeat: bool) -> bool {
    repeat || !(a.id == id && a.speed_bits == speed_bits) && a.unknown_0xf != 0 && a.alt_id == id
        && a.unknown_0xf + 1 >= 4
}

/// The animation state after the request of `id` at `speed_bits`.
pub open spec fn play_requested(a: Animation, id: AnimationId, speed_bits: u32, repeat: bool, rng2: u32) -> Animation {
    let a1 = Animation { next_idle_animation: next_idle_after(a, id, rng2), ..a };
    if repeat {
        Animation { speed_bits, id, alt_id: id, unknown_0xf: 0, ..a1 }
    } else if a1.id == id && a1.speed_bits == speed_bits {
        a1
    } else if a1.unknown_0xf == 0 || a1.alt_id != id {
        Animation { unknown_0xf: 1, alt_id: id, ..a1 }
    } else if a1.unknown_0xf + 1 < 4 {
        Animation { unknown_0xf: (a1.unknown_0xf + 1) as u8, ..a1 }
    } else {
        Animation { speed_bits, id, alt_id: id, unknown_0xf: 0, ..a1 }
    }
}

impl Animation {
    /// A fresh animation state for player `player_idx`.
    pub fn new(player_idx: u8) -> (r: Animation)
        ensures
            r == (Animation {
                next_idle_animation: AnimationId::Idle1,
                player_idx,
                id: AnimationId::Idle1,
                unknown_0xf: 0,
                alt_id: AnimationId::Idle1,
                speed_bits: 0,
            }),
    {
        Animation {
            next_idle_animation: AnimationId::Idle1,
            player_idx,
            id: AnimationId::Idle1,
            unknown_0xf: 0,
            alt_id: AnimationId::Idle1,
            speed_bits: 0,
        }
    }

    /// Request the animation `id` at the speed `speed_bits` (compared with the active
    /// speed by bit pattern: see [`Animation`]). `rng2` is the next value of
    /// the game's second random number generator; it is read only when `id` is not an
    /// idle animation (so the caller draws it only then). Returns the command to send to
    /// the frontend when the animation starts playing.
    pub fn play(&mut self, id: AnimationId, speed_bits: u32, repeat: bool, rng2: u32) -> (r: Option<PlayCommand>)
        requires
            play_defined(*old(self), id, speed_bits, repeat),
        ensures
            *final(self) == play_requested(*old(self), id, speed_bits, repeat, rng2),
            r == if play_starts(*old(self), id, speed_bits, repeat) {
                Some(PlayCommand { player_idx: old(self).player_idx, id, speed_bits, repeat })
            } else {
                None
            },
    {
        if !id.is_idle() {
            self.next_idle_animation = if rng2 & 1 == 1 { AnimationId::Idle1 } else { AnimationId::Idle2 };
        }
        if !repeat {
            if self.id == id && self.speed_bits == speed_bits {
                return None;
            }
            if self.unknown_0xf == 0 || self.alt_id != id {
                self.unknown_0xf = 1;
                self.alt_id = id;
                return None;
            }
            self.unknown_0xf = self.unknown_0xf + 1;
            if self.unknown_0xf < 4 {
                return None;
            }
        }
        self.speed_bits = speed_bits;
        self.id = id;
        self.alt_id = id;
        self.unknown_0xf = 0;
        Some(PlayCommand { player_idx: self.player_idx, id, speed_bits, repeat })
    }
}

/// An animation that starts playing becomes the active animation at the requested
/// speed, and the debounce counter restarts.
pub proof fn law_started_animation_is_active(a: Animation, id: AnimationId, speed_bits: u32, repeat: bool, rng2: u32)
    requires
        play_starts(a, id, speed_bits, repeat),
    ensures
        play_requested(a, id, speed_bits, repeat, rng2).id == id,
        play_requested(a, id, speed_bits, repeat, rng2).speed_bits == speed_bits,
        play_requested(a, id, speed_bits, repeat, rng2).unknown_0xf == 0,
{
}

/// A new non-repeating animation starts only on its fourth consecutive request: after
/// a first request (of an animation other than the active one at its speed, with no
/// earlier pending request of it), the first three requests leave the active animation
/// and its speed as they are and hold the animation as pending; the fourth makes it
/// active at the requested speed. A repeating request starts at once.
pub proof fn law_new_animation_debounced(a: Animation, id: AnimationId, speed_bits: u32, rng2: u32)
    requires
        !(a.id == id && a.speed_bits == speed_bits),
        a.unknown_0xf == 0 || a.alt_id != id,
    ensures
        ({
            let a1 = play_requested(a, id, speed_bits, false, rng2);
            let a2 = play_requested(a1, id, speed_bits, false, rng2);
            let a3 = play_requested(a2, id, speed_bits, false, rng2);
            let a4 = play_requested(a3, id, speed_bits, false, rng2);
            &&& !play_starts(a, id, speed_bits, false)
            &&& !play_starts(a1, id, speed_bits, false)
            &&& !play_starts(a2, id, speed_bits, false)
            &&& play_starts(a3, id, speed_bits, false)
            &&& a1.id == a.id && a1.speed_bits == a.speed_bits && a1.alt_id == id
            &&& a2.id == a.id && a2.speed_bits == a.speed_bits && a2.alt_id == id
            &&& a3.id == a.id && a3.speed_bits == a.speed_bits && a3.alt_id == id
            &&& a4.id == id && a4.alt_id == id && a4.speed_bits == speed_bits && a4.unknown_0xf == 0
            &&& play_starts(a, id, speed_bits, true)
            &&& play_defined(a, id, speed_bits, false) && play_defined(a1, id, speed_bits, false)
            &&& play_defined(a2, id, speed_bits, false) && play_defined(a3, id, speed_bits, false)
        }),
{
}

/// Requesting the active animation at its speed, without repeat, changes nothing but
/// the next idle animation, and plays nothing.
pub proof fn law_same_animation_not_replayed(a: Animation, rng2: u32)
    ensures
        !play_starts(a, a.id, a.speed_bits, false),
        play_requested(a, a.id, a.speed_bits, false, rng2)
            == (Animation { next_idle_animation: next_idle_after(a, a.id, rng2), ..a }),
{
}


/// What the animation logic reads of the prince, katamari and camera in one tick.
/// The comparisons of floating-point quantities are made by the caller:
/// `r1_height_below_half` is `r1_jump_height_ratio < 0.5`,
/// `r1_height_nonpositive` is `r1_jump_height_ratio <= 0.0`,
/// `at_jog_speed` is `max_speed_ratio >= max_speed_ratio_to_jog`,
/// `below_idle_speed` is `max_speed_ratio < max_speed_ratio_to_idle`,
/// `angle_speed_positive` is `prince angle speed > 0.0`,
/// `avg_push_positive` / `avg_push_zero` compare the average push length with zero,
/// and `avg_len_positive` is `input_avg_len > 0.0`.
#[derive(Debug, Clone, Copy, PartialEq, Eq, Structural)]
pub struct AnimationContext {
    pub camera_mode: CameraMode,
    pub r1_jump_state: Option<CamR1JumpState>,
    pub r1_height_below_half: bool,
    pub r1_height_nonpositive: bool,
    pub airborne: bool,
    pub view_mode: PrinceViewMode,
    pub turn_type: PrinceTurnType,
    /// The prince's shared spin flag.
    pub ouji_wheel_spin: bool,
    /// The prince's shared dash flag.
    pub ouji_dash: bool,
    pub quick_shifting: bool,
    pub huffing: bool,
    pub kat_immobile: bool,
    /// The katamari's physics spin flag.
    pub kat_wheel_spin: bool,
    pub kat_climbing: bool,
    pub kat_braking: bool,
    pub at_jog_speed: bool,
    pub below_idle_speed: bool,
    pub angle_speed_positive: bool,
    pub avg_push_positive: bool,
    pub avg_push_zero: bool,
    pub avg_len_positive: bool,
    pub cam_relative_dir: Option<CamRelativeDir>,
    pub brake_push_dir: Option<PushDir>,
    pub side_dir: Option<PrinceSidewaysDir>,
}

/// An animation request: the animation, the bit pattern of its speed and whether it repeats.
#[derive(Debug, Clone, Copy, PartialEq, Eq, Structural)]
pub struct AnimationRequest {
    pub id: AnimationId,
    pub speed_bits: u32,
    pub repeat: bool,
}

/// The outcome of the animation decision for one tick.
#[derive(Debug, Clone, Copy, PartialEq, Eq, Structural)]
pub struct AnimationDecision {
    /// The animation to request, if any.
    pub request: Option<AnimationRequest>,
    /// The tutorial move the player is holding, if any.
    pub tutorial_move: Option<TutorialMove>,
}

/// A request of `id` at speed `speed_bits` that does not repeat, with tutorial move `t`.
pub open spec fn plain_request(id: AnimationId, speed_bits: u32, t: Option<TutorialMove>) -> AnimationDecision {
    AnimationDecision { request: Some(AnimationRequest { id, speed_bits, repeat: false }), tutorial_move: t }
}

/// The outcome of trying the idle animation.
#[derive(Debug, Clone, Copy, PartialEq, Eq, Structural)]
pub enum IdleAttempt {
    /// Moving too fast to idle.
    NotIdle,
    /// Idling while the katamari spins: nothing is played.
    IdleNoPlay,
    /// Idling with this animation.
    IdlePlay(AnimationId),
}

/// The idle attempt: a spinning katamari idles without an animation; a katamari that
/// moves at or above the idle speed does not idle; otherwise the prince idles with the
/// pinch animation when the sticks are pushed without any push effect, else with the
/// huff idle while huffing, else with the next idle animation.
pub open spec fn spec_idle_attempt(next_idle: AnimationId, c: AnimationContext) -> IdleAttempt {
    if c.kat_wheel_spin {
        IdleAttempt::IdleNoPlay
    } else if !c.kat_immobile && !c.below_idle_speed {
        IdleAttempt::NotIdle
    } else if c.avg_push_positive || !c.avg_len_positive {
        IdleAttempt::IdlePlay(if c.huffing { AnimationId::IdleHuff } else { next_idle })
    } else {
        IdleAttempt::IdlePlay(AnimationId::Pinch)
    }
}

/// The pinch animation applies: the sticks are pushed but produce no push.
pub open spec fn pinch_applies(c: AnimationContext) -> bool {
    c.avg_len_positive && c.avg_push_zero
}

/// The decision after an idle attempt: the idle animation, nothing, or `otherwise`.
pub open spec fn after_idle(attempt: IdleAttempt, otherwise: AnimationDecision) -> AnimationDecision {
    match attempt {
        IdleAttempt::IdlePlay(i) => plain_request(i, SPEED_NORMAL, None),
        IdleAttempt::IdleNoPlay => AnimationDecision { request: None, tutorial_move: None },
        IdleAttempt::NotIdle => otherwise,
    }
}

/// The walking animation without a push, by the movement direction relative to the camera.
pub open spec fn no_push_walk(dir: Option<CamRelativeDir>) -> AnimationId {
    match dir {
        Some(CamRelativeDir::Backwards) => AnimationId::WalkDownNoPush,
        Some(CamRelativeDir::Left) => AnimationId::WalkLeftNoPush,
        Some(CamRelativeDir::Right) => AnimationId::WalkRightNoPush,
        _ => AnimationId::WalkUpNoPush,
    }
}

/// The animation while rolling the katamari without braking, by direction.
pub open spec fn rolling_animation(c: AnimationContext) -> AnimationId {
    match c.cam_relative_dir {
        Some(CamRelativeDir::Forwards) => if pinch_applies(c) {
            AnimationId::Pinch
        } else if !c.at_jog_speed {
            AnimationId::WalkUp
        } else if c.huffing {
            AnimationId::WalkUpHuff
        } else {
            AnimationId::JogUp
        },
        Some(CamRelativeDir::Backwards) => AnimationId::WalkDown,
        Some(CamRelativeDir::Left) => AnimationId::WalkLeft,
        Some(CamRelativeDir::Right) => AnimationId::WalkRight,
        None => if pinch_applies(c) { AnimationId::Pinch } else { AnimationId::JogUp },
    }
}

/// The animation while braking, by the push direction of the brake.
pub open spec fn braking_animation(next_idle: AnimationId, c: AnimationContext) -> AnimationId {
    match c.brake_push_dir {
        Some(PushDir::Forwards) => AnimationId::BrakeUp,
        Some(PushDir::Backwards) => AnimationId::BrakeDown,
        Some(PushDir::Sideways) => if c.side_dir == Some(PrinceSidewaysDir::Left) {
            AnimationId::BrakeLeft
        } else if c.side_dir == Some(PrinceSidewaysDir::Right) {
            AnimationId::BrakeRight
        } else {
            next_idle
        },
        None => next_idle,
    }
}

/// The animation while quick shifting.
pub open spec fn quick_shift_animation(c: AnimationContext) -> AnimationId {
    if !c.kat_immobile && c.at_jog_speed {
        if c.cam_relative_dir == Some(CamRelativeDir::Backwards) {
            AnimationId::WalkDown
        } else {
            AnimationId::JogUp
        }
    } else if c.angle_speed_positive {
        AnimationId::WalkAroundRight
    } else {
        AnimationId::WalkAroundLeft
    }
}

/// The decision while both sticks are pushed.
pub open spec fn both_sticks_decision(next_idle: AnimationId, c: AnimationContext) -> AnimationDecision {
    if c.ouji_wheel_spin {
        plain_request(AnimationId::Spin, SPEED_NORMAL, None)
    } else if c.ouji_dash {
        plain_request(AnimationId::Boost, SPEED_NORMAL, None)
    } else if c.quick_shifting {
        plain_request(quick_shift_animation(c), SPEED_QUICK_SHIFT, None)
    } else {
        after_idle(
            spec_idle_attempt(next_idle, c),
            if c.kat_climbing {
                plain_request(AnimationId::Climb, SPEED_NORMAL, None)
            } else if !c.kat_braking {
                plain_request(rolling_animation(c), SPEED_NORMAL, None)
            } else {
                plain_request(braking_animation(next_idle, c), SPEED_NORMAL, Some(TutorialMove::RollBackwards))
            },
        )
    }
}

/// The decision while grounded in the normal view mode, by the prince's turn type.
pub open spec fn grounded_decision(next_idle: AnimationId, c: AnimationContext) -> AnimationDecision {
    let shift = Some(TutorialMove::ShiftLeftOrRight);
    match c.turn_type {
        PrinceTurnType::NoTurn => after_idle(
            spec_idle_attempt(next_idle, c),
            plain_request(no_push_walk(c.cam_relative_dir), SPEED_NORMAL, None),
        ),
        PrinceTurnType::LeftStickUp => plain_request(AnimationId::WalkAroundRight, SPEED_NORMAL, shift),
        PrinceTurnType::RightStickUp => plain_request(AnimationId::WalkAroundLeft, SPEED_NORMAL, shift),
        PrinceTurnType::LeftStickDown => plain_request(AnimationId::WalkAroundLeft, SPEED_STICK_DOWN_TURN, shift),
        PrinceTurnType::RightStickDown => plain_request(AnimationId::WalkAroundRight, SPEED_STICK_DOWN_TURN, shift),
        PrinceTurnType::Flip => plain_request(AnimationId::Flip, SPEED_NORMAL, None),
        PrinceTurnType::BothSticks => both_sticks_decision(next_idle, c),
    }
}

/// The animation decision of one tick: during an R1 jump, the flip while rising below
/// half height and otherwise the R1 jump animation (repeating once the height is not
/// positive); when grounded, the L1 look animation or the grounded decision; when
/// airborne, jogging.
pub open spec fn spec_animation_decision(next_idle: AnimationId, c: AnimationContext) -> AnimationDecision {
    if c.camera_mode == CameraMode::R1Jump {
        if c.r1_jump_state == Some(CamR1JumpState::Rising) && c.r1_height_below_half {
            plain_request(AnimationId::Flip, SPEED_NORMAL, None)
        } else {
            AnimationDecision {
                request: Some(AnimationRequest { id: AnimationId::R1Jump, speed_bits: SPEED_NORMAL, repeat: c.r1_height_nonpositive }),
                tutorial_move: None,
            }
        }
    } else if !c.airborne {
        if c.view_mode == PrinceViewMode::L1Look {
            plain_request(AnimationId::L1Look, SPEED_NORMAL, None)
        } else {
            grounded_decision(next_idle, c)
        }
    } else {
        plain_request(AnimationId::JogUp, SPEED_NORMAL, None)
    }
}

fn plain(id: AnimationId, speed_bits: u32, t: Option<TutorialMove>) -> (r: AnimationDecision)
    ensures
        r == plain_request(id, speed_bits, t),
{
    AnimationDecision { request: Some(AnimationRequest { id, speed_bits, repeat: false }), tutorial_move: t }
}

fn idle_attempt(next_idle: AnimationId, c: &AnimationContext) -> (r: IdleAttempt)
    ensures
        r == spec_idle_attempt(next_idle, *c),
{
    if c.kat_wheel_spin {
        IdleAttempt::IdleNoPlay
    } else if !c.kat_immobile && !c.below_idle_speed {
        IdleAttempt::NotIdle
    } else if c.avg_push_positive || !c.avg_len_positive {
        IdleAttempt::IdlePlay(if c.huffing { AnimationId::IdleHuff } else { next_idle })
    } else {
        IdleAttempt::IdlePlay(AnimationId::Pinch)
    }
}

fn rolling(c: &AnimationContext) -> (r: AnimationId)
    ensures
        r == rolling_animation(*c),
{
    let pinch = c.avg_len_positive && c.avg_push_zero;
    match c.cam_relative_dir {
        Some(CamRelativeDir::Forwards) => if pinch {
            AnimationId::Pinch
        } else if !c.at_jog_speed {
            AnimationId::WalkUp
        } else if c.huffing {
            AnimationId::WalkUpHuff
        } else {
            AnimationId::JogUp
        },
        Some(CamRelativeDir::Backwards) => AnimationId::WalkDown,
        Some(CamRelativeDir::Left) => AnimationId::WalkLeft,
        Some(CamRelativeDir::Right) => AnimationId::WalkRight,
        None => if pinch { AnimationId::Pinch } else { AnimationId::JogUp },
    }
}

fn braking(next_idle: AnimationId, c: &AnimationContext) -> (r: AnimationId)
    ensures
        r == braking_animation(next_idle, *c),
{
    match c.brake_push_dir {
        Some(PushDir::Forwards) => AnimationId::BrakeUp,
        Some(PushDir::Backwards) => AnimationId::BrakeDown,
        Some(PushDir::Sideways) => match c.side_dir {
            Some(PrinceSidewaysDir::Left) => AnimationId::BrakeLeft,
            Some(PrinceSidewaysDir::Right) => AnimationId::BrakeRight,
            None => next_idle,
        },
        None => next_idle,
    }
}

fn both_sticks(next_idle: AnimationId, c: &AnimationContext) -> (r: AnimationDecision)
    ensures
        r == both_sticks_decision(next_idle, *c),
{
    if c.ouji_wheel_spin {
        plain(AnimationId::Spin, SPEED_NORMAL, None)
    } else if c.ouji_dash {
        plain(AnimationId::Boost, SPEED_NORMAL, None)
    } else if c.quick_shifting {
        let id = if !c.kat_immobile && c.at_jog_speed {
            match c.cam_relative_dir {
                Some(CamRelativeDir::Backwards) => AnimationId::WalkDown,
                _ => AnimationId::JogUp,
            }
        } else if c.angle_speed_positive {
            AnimationId::WalkAroundRight
        } else {
            AnimationId::WalkAroundLeft
        };
        plain(id, SPEED_QUICK_SHIFT, None)
    } else {
        match idle_attempt(next_idle, c) {
            IdleAttempt::IdlePlay(i) => plain(i, SPEED_NORMAL, None),
            IdleAttempt::IdleNoPlay => AnimationDecision { request: None, tutorial_move: None },
            IdleAttempt::NotIdle => if c.kat_climbing {
                plain(AnimationId::Climb, SPEED_NORMAL, None)
            } else if !c.kat_braking {
                plain(rolling(c), SPEED_NORMAL, None)
            } else {
                plain(braking(next_idle, c), SPEED_NORMAL, Some(TutorialMove::RollBackwards))
            },
        }
    }
}

fn grounded(next_idle: AnimationId, c: &AnimationContext) -> (r: AnimationDecision)
    ensures
        r == grounded_decision(next_idle, *c),
{
    let shift = Some(TutorialMove::ShiftLeftOrRight);
    match c.turn_type {
        PrinceTurnType::NoTurn => match idle_attempt(next_idle, c) {
            IdleAttempt::IdlePlay(i) => plain(i, SPEED_NORMAL, None),
            IdleAttempt::IdleNoPlay => AnimationDecision { request: None, tutorial_move: None },
            IdleAttempt::NotIdle => {
                let id = match c.cam_relative_dir {
                    Some(CamRelativeDir::Backwards) => AnimationId::WalkDownNoPush,
                    Some(CamRelativeDir::Left) => AnimationId::WalkLeftNoPush,
                    Some(CamRelativeDir::Right) => AnimationId::WalkRightNoPush,
                    _ => AnimationId::WalkUpNoPush,
                };
                plain(id, SPEED_NORMAL, None)
            },
        },
        PrinceTurnType::LeftStickUp => plain(AnimationId::WalkAroundRight, SPEED_NORMAL, shift),
        PrinceTurnType::RightStickUp => plain(AnimationId::WalkAroundLeft, SPEED_NORMAL, shift),
        PrinceTurnType::LeftStickDown => plain(AnimationId::WalkAroundLeft, SPEED_STICK_DOWN_TURN, shift),
        PrinceTurnType::RightStickDown => plain(AnimationId::WalkAroundRight, SPEED_STICK_DOWN_TURN, shift),
        PrinceTurnType::Flip => plain(AnimationId::Flip, SPEED_NORMAL, None),
        PrinceTurnType::BothSticks => both_sticks(next_idle, c),
    }
}

impl Animation {
    /// Decide which animation to request this tick (and which tutorial move is held).
    pub fn decide(&self, c: &AnimationContext) -> (r: AnimationDecision)
        ensures
            r == spec_animation_decision(self.next_idle_animation, *c),
    {
        if c.camera_mode == CameraMode::R1Jump {
            let rising = match c.r1_jump_state {
                Some(CamR1JumpState::Rising) => true,
                _ => false,
            };
            if rising && c.r1_height_below_half {
                plain(AnimationId::Flip, SPEED_NORMAL, None)
            } else {
                AnimationDecision {
                    request: Some(AnimationRequest { id: AnimationId::R1Jump, speed_bits: SPEED_NORMAL, repeat: c.r1_height_nonpositive }),
                    tutorial_move: None,
                }
            }
        } else if !c.airborne {
            if c.view_mode == PrinceViewMode::L1Look {
                plain(AnimationId::L1Look, SPEED_NORMAL, None)
            } else {
                grounded(self.next_idle_animation, c)
            }
        } else {
            plain(AnimationId::JogUp, SPEED_NORMAL, None)
        }
    }

    /// The main animation update: decide, then request the animation. `rng2` is read
    /// only when the requested animation is not an idle animation.
    /// Returns the command for the frontend (if an animation starts) and the tutorial
    /// move held by the player.
    pub fn update(&mut self, c: &AnimationContext, rng2: u32) -> (r: (Option<PlayCommand>, Option<TutorialMove>))
        requires
            match spec_animation_decision(old(self).next_idle_animation, *c).request {
                Some(q) => play_defined(*old(self), q.id, q.speed_bits, q.repeat),
                None => true,
            },
        ensures
            ({
                let d = spec_animation_decision(old(self).next_idle_animation, *c);
                &&& r.1 == d.tutorial_move
                &&& match d.request {
                    Some(q) => {
                        &&& *final(self) == play_requested(*old(self), q.id, q.speed_bits, q.repeat, rng2)
                        &&& r.0 == if play_starts(*old(self), q.id, q.speed_bits, q.repeat) {
                            Some(PlayCommand { player_idx: old(self).player_idx, id: q.id, speed_bits: q.speed_bits, repeat: q.repeat })
                        } else {
                            None
                        }
                    },
                    None => *final(self) == *old(self) && r.0 is None,
                }
            }),
    {
        let d = self.decide(c);
        match d.request {
            Some(q) => {
                let cmd = self.play(q.id, q.speed_bits, q.repeat, rng2);
                (cmd, d.tutorial_move)
            },
            None => (None, d.tutorial_move),
        }
    }
}

/// During an R1 jump the prince plays the flip or the R1 jump animation, and no
/// tutorial move is held.
pub proof fn law_r1_jump_animation(next_idle: AnimationId, c: AnimationContext)
    requires
        c.camera_mode == CameraMode::R1Jump,
    ensures
        ({
            let d = spec_animation_decision(next_idle, c);
            &&& d.request is Some
            &&& d.request->0.id == AnimationId::Flip || d.request->0.id == AnimationId::R1Jump
            &&& d.tutorial_move is None
        }),
{
}

/// Braking while rolling with both sticks (not spinning, boosting, quick shifting,
/// idling or climbing) always holds the "roll backwards" tutorial move.
pub proof fn law_braking_holds_roll_backwards(next_idle: AnimationId, c: AnimationContext)
    requires
        c.camera_mode != CameraMode::R1Jump,
        !c.airborne,
        c.view_mode != PrinceViewMode::L1Look,
        c.turn_type == PrinceTurnType::BothSticks,
        !c.ouji_wheel_spin,
        !c.ouji_dash,
        !c.quick_shifting,
        spec_idle_attempt(next_idle, c) == IdleAttempt::NotIdle,
        !c.kat_climbing,
        c.kat_braking,
    ensures
        spec_animation_decision(next_idle, c).tutorial_move == Some(TutorialMove::RollBackwards),
{
}

/// A spinning katamari with no stick input plays no animation.
pub proof fn law_spinning_without_input_plays_nothing(next_idle: AnimationId, c: AnimationContext)
    requires
        c.camera_mode != CameraMode::R1Jump,
        !c.airborne,
        c.view_mode != PrinceViewMode::L1Look,
        c.turn_type == PrinceTurnType::NoTurn,
        c.kat_wheel_spin,
    ensures
        spec_animation_decision(next_idle, c).request is None,
{
}

/// Rolling with both sticks on the ground (normal view mode, no R1 jump), not spinning,
/// boosting, quick shifting, climbing or braking, with the katamari moving at least at
/// idle speed: the prince walks in the katamari's direction relative to the camera:
/// left when it rolls left, right when it rolls right, down when it rolls backwards.
pub proof fn law_rolling_walks_with_the_katamari(next_idle: AnimationId, c: AnimationContext)
    requires
        c.camera_mode != CameraMode::R1Jump,
        !c.airborne,
        c.view_mode != PrinceViewMode::L1Look,
        c.turn_type == PrinceTurnType::BothSticks,
        !c.ouji_wheel_spin,
        !c.ouji_dash,
        !c.quick_shifting,
        !c.kat_wheel_spin,
        !c.kat_immobile,
        !c.below_idle_speed,
        !c.kat_climbing,
        !c.kat_braking,
    ensures
        c.cam_relative_dir == Some(CamRelativeDir::Left) ==> spec_animation_decision(next_idle, c).request
            == Some(AnimationRequest { id: AnimationId::WalkLeft, speed_bits: SPEED_NORMAL, repeat: false }),
        c.cam_relative_dir == Some(CamRelativeDir::Right) ==> spec_animation_decision(next_idle, c).request
            == Some(AnimationRequest { id: AnimationId::WalkRight, speed_bits: SPEED_NORMAL, repeat: false }),
        c.cam_relative_dir == Some(CamRelativeDir::Backwards) ==> spec_animation_decision(next_idle, c).request
            == Some(AnimationRequest { id: AnimationId::WalkDown, speed_bits: SPEED_NORMAL, repeat: false }),
        spec_animation_decision(next_idle, c).tutorial_move is None,
{
}

/// Rolling forwards with both sticks (same conditions as rolling sideways): the pinch
/// when the sticks push without effect, else walking below jog speed, else jogging
/// (the huffing jog while huffing). Braking instead holds the roll-backwards move and
/// brakes in the brake's push direction: up, down, or to the prince's side.
pub proof fn law_rolling_forwards_and_braking(next_idle: AnimationId, c: AnimationContext)
    requires
        c.camera_mode != CameraMode::R1Jump,
        !c.airborne,
        c.view_mode != PrinceViewMode::L1Look,
        c.turn_type == PrinceTurnType::BothSticks,
        !c.ouji_wheel_spin,
        !c.ouji_dash,
        !c.quick_shifting,
        !c.kat_wheel_spin,
        !c.kat_immobile,
        !c.below_idle_speed,
        !c.kat_climbing,
    ensures
        ({
            let d = spec_animation_decision(next_idle, c);
            let id = d.request->0.id;
            &&& d.request is Some
            &&& d.request->0.speed_bits == SPEED_NORMAL
            &&& !c.kat_braking && c.cam_relative_dir == Some(CamRelativeDir::Forwards) ==> {
                &&& c.avg_len_positive && c.avg_push_zero ==> id == AnimationId::Pinch
                &&& !(c.avg_len_positive && c.avg_push_zero) && !c.at_jog_speed ==> id == AnimationId::WalkUp
                &&& !(c.avg_len_positive && c.avg_push_zero) && c.at_jog_speed && c.huffing ==> id == AnimationId::WalkUpHuff
                &&& !(c.avg_len_positive && c.avg_push_zero) && c.at_jog_speed && !c.huffing ==> id == AnimationId::JogUp
            }
            &&& c.kat_braking ==> {
                &&& d.tutorial_move == Some(TutorialMove::RollBackwards)
                &&& c.brake_push_dir == Some(PushDir::Forwards) ==> id == AnimationId::BrakeUp
                &&& c.brake_push_dir == Some(PushDir::Backwards) ==> id == AnimationId::BrakeDown
                &&& c.brake_push_dir == Some(PushDir::Sideways) && c.side_dir == Some(PrinceSidewaysDir::Left) ==> id == AnimationId::BrakeLeft
                &&& c.brake_push_dir == Some(PushDir::Sideways) && c.side_dir == Some(PrinceSidewaysDir::Right) ==> id == AnimationId::BrakeRight
            }
        }),
{
}

/// On the ground in the normal view mode, turning with one stick walks around the
/// katamari while holding the shift move: pushing the left stick up or the right stick
/// down walks around to the right, the other two to the left; pushing a stick down
/// walks at the slower stick-down speed. Spinning plays the spin and boosting the
/// boost (with both sticks); airborne the prince jogs, and in the L1 look it looks.
pub proof fn law_turns_spin_boost_and_air(next_idle: AnimationId, c: AnimationContext)
    requires
        c.camera_mode != CameraMode::R1Jump,
    ensures
        ({
            let d = spec_animation_decision(next_idle, c);
            let shift = Some(TutorialMove::ShiftLeftOrRight);
            let ground = !c.airborne && c.view_mode != PrinceViewMode::L1Look;
            &&& ground && c.turn_type == PrinceTurnType::LeftStickUp ==> d == plain_request(AnimationId::WalkAroundRight, SPEED_NORMAL, shift)
            &&& ground && c.turn_type == PrinceTurnType::RightStickUp ==> d == plain_request(AnimationId::WalkAroundLeft, SPEED_NORMAL, shift)
            &&& ground && c.turn_type == PrinceTurnType::LeftStickDown ==> d == plain_request(AnimationId::WalkAroundLeft, SPEED_STICK_DOWN_TURN, shift)
            &&& ground && c.turn_type == PrinceTurnType::RightStickDown ==> d == plain_request(AnimationId::WalkAroundRight, SPEED_STICK_DOWN_TURN, shift)
            &&& ground && c.turn_type == PrinceTurnType::Flip ==> d == plain_request(AnimationId::Flip, SPEED_NORMAL, None)
            &&& ground && c.turn_type == PrinceTurnType::BothSticks && c.ouji_wheel_spin ==> d == plain_request(AnimationId::Spin, SPEED_NORMAL, None)
            &&& ground && c.turn_type == PrinceTurnType::BothSticks && !c.ouji_wheel_spin && c.ouji_dash ==> d == plain_request(AnimationId::Boost, SPEED_NORMAL, None)
            &&& c.airborne ==> d == plain_request(AnimationId::JogUp, SPEED_NORMAL, None)
            &&& !c.airborne && c.view_mode == PrinceViewMode::L1Look ==> d == plain_request(AnimationId::L1Look, SPEED_NORMAL, None)
        }),
{
}

/// A prince idling on the ground (a still or slow katamari that is not spinning) plays
/// an idle animation: the pinch when the sticks push without effect, else the huffing
/// idle while huffing, else the next idle animation; with no stick pushed the turn-less
/// prince idles the same way.
pub proof fn law_idle_animation(next_idle: AnimationId, c: AnimationContext)
    requires
        c.camera_mode != CameraMode::R1Jump,
        !c.airborne,
        c.view_mode != PrinceViewMode::L1Look,
        c.turn_type == PrinceTurnType::NoTurn || (c.turn_type == PrinceTurnType::BothSticks && !c.ouji_wheel_spin
            && !c.ouji_dash && !c.quick_shifting),
        !c.kat_wheel_spin,
        c.kat_immobile || c.below_idle_speed,
    ensures
        ({
            let id = spec_animation_decision(next_idle, c).request->0.id;
            &&& spec_animation_decision(next_idle, c).request is Some
            &&& (c.avg_push_positive || !c.avg_len_positive) && c.huffing ==> id == AnimationId::IdleHuff
            &&& (c.avg_push_positive || !c.avg_len_positive) && !c.huffing ==> id == next_idle
            &&& !(c.avg_push_positive || !c.avg_len_positive) ==> id == AnimationId::Pinch
        }),
{
}

} // verus!

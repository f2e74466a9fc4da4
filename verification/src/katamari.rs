use vstd::prelude::*;
use crate::flags::{
    shell_ray_index,    grounded_ray_of, physics_flags_reset, KatCollisionRayType, hit_flags_le, hit_flags_with, law_apply_hit_attr_commutes, law_apply_hit_attr_monotone, initial_physics_flags, no_hit_flags, GroundedRay, HitAttribute, KatHitFlags, KatInclineMoveType, KatPhysicsFlags,
    ShellRay,
};
use crate::history::{history_after_push, HitHistory};
use crate::prince::{OujiState, PushDir};
use crate::camera::{camera_mode_code, CameraMode};

verus! {

/// The "urgency" of the "something's coming" alarm.
#[derive(Debug, Clone, Copy, PartialEq, Eq, Structural)]
pub enum AlarmType {
    Closest,
    Closer,
    Close,
}

/// The state of the boost visual effect.
#[derive(Debug, Clone, Copy, PartialEq, Eq, Structural)]
pub enum KatBoostEffectState {
    Build,
    StopBuilding,
    Release,
    End,
}

/// The katamari's direction of movement relative to the camera's forward direction.
#[derive(Debug, Clone, Copy, PartialEq, Eq, Structural)]
pub enum CamRelativeDir {
    Forwards,
    Backwards,
    Left,
    Right,
}

/// Debug switches of the katamari.
#[derive(Debug, Clone, Copy, PartialEq, Eq, Structural)]
pub struct DebugConfig {
    pub draw_collision_rays: bool,
}

impl Default for DebugConfig {
    fn default() -> (r: Self)
        ensures
            !r.draw_collision_rays,
    {
        DebugConfig { draw_collision_rays: false }
    }
}

/// The number of floor contacts whose ray index is remembered.
pub const MAX_FLOOR_CONTACTS: usize = 32;

/// All surface triangles are either a floor or a wall, told apart by the
/// y component of their unit normal vectors.
#[derive(Debug, Clone, Copy, PartialEq, Eq, Structural)]
pub enum SurfaceType {
    Floor,
    Wall,
}

/// What `Katamari::record_surface_contact` reports: a floor or a wall was contacted,
/// or a floor was contacted by a top shell ray, in which case no contact is recorded.
#[derive(Debug, Clone, Copy, PartialEq, Eq, Structural)]
pub enum RecordSurfaceContactResult {
    Floor,
    Wall,
    ShellTop,
}

impl SurfaceType {
    /// The surface type a contact result reports; a top shell contact reports none.
    pub fn from_record_result(value: RecordSurfaceContactResult) -> (r: Result<SurfaceType, ()>)
        ensures
            value == RecordSurfaceContactResult::Floor ==> r == Ok::<SurfaceType, ()>(SurfaceType::Floor),
            value == RecordSurfaceContactResult::Wall ==> r == Ok::<SurfaceType, ()>(SurfaceType::Wall),
            value == RecordSurfaceContactResult::ShellTop ==> r is Err,
    {
        match value {
            RecordSurfaceContactResult::Floor => Ok(SurfaceType::Floor),
            RecordSurfaceContactResult::Wall => Ok(SurfaceType::Wall),
            RecordSurfaceContactResult::ShellTop => Err(()),
        }
    }
}

/// The three possible results of `Katamari::try_init_vault`.
#[derive(Debug, Clone, Copy, PartialEq, Eq, Structural)]
pub enum TryInitVaultResult {
    /// The katamari is not vaulting.
    NoVault,
    /// The katamari just started a new vault.
    InitVault,
    /// The katamari is continuing a vault from a previous tick.
    OldVault,
}

/// What the geometry of the current contacts says about being stuck; each field is a
/// comparison that the caller makes on the contact vectors.
#[derive(Debug, Clone, Copy, PartialEq, Eq, Structural)]
pub struct StuckContacts {
    /// With one wall and a floor: the wall-to-floor angle is over the stuck threshold.
    pub wall_floor_angle_over_threshold: bool,
    /// The katamari center moved since the previous tick.
    pub moved: bool,
    /// With two walls: the angle between their unit normals (the arccosine of their dot
    /// product) is over the wall-to-wall stuck threshold.
    pub walls_angle_over_threshold: bool,
}

/// The discrete state of a katamari: its surface contacts, airborne and climbing
/// timers, vault ray and stuckness.
#[derive(Debug)]
pub struct Katamari {
    pub physics_flags: KatPhysicsFlags,
    pub hit_flags: KatHitFlags,
    /// The hit flags of the previous tick.
    pub last_hit_flags: KatHitFlags,
    /// The hit flags of the tick before the previous one.
    pub older_hit_flags: KatHitFlags,
    /// The number of ticks the katamari has been spinning.
    pub spin_ticks: u32,
    /// The physics flags of the previous tick.
    pub last_physics_flags: KatPhysicsFlags,
    /// The number of floor surfaces contacted this tick.
    pub num_floor_contacts: u8,
    /// The number of wall surfaces contacted this tick.
    pub num_wall_contacts: u8,
    /// The number of floor surfaces contacted on the previous tick.
    pub last_num_floor_contacts: u8,
    /// The number of wall surfaces contacted on the previous tick.
    pub last_num_wall_contacts: u8,
    /// The ray index of each floor contact, in the order they were recorded.
    pub floor_contact_ray_idxs: Vec<i8>,
    /// The number of ticks the katamari has been airborne.
    pub airborne_ticks: u16,
    /// The number of ticks the katamari has been falling.
    pub falling_ticks: u16,
    /// A counter that lets a climb survive a few ticks without a wall.
    pub is_climbing_0x898: u16,
    /// The number of ticks of the current wall climb.
    pub wallclimb_ticks: u16,
    /// Ticks before the next wall climb may begin.
    pub wallclimb_cooldown_timer: u16,
    /// The number of ticks spent at the maximum climb height.
    pub wallclimb_max_height_ticks: u16,
    /// The number of ticks the katamari has been moving uphill.
    pub move_uphill_ticks: u16,
    /// The number of ticks the katamari has been moving downhill.
    pub move_downhill_ticks: u16,
    /// The primary floor contact ray, if any.
    pub fc_ray_idx: Option<u16>,
    /// The ray the katamari is vaulting on, if any.
    pub vault_ray_idx: Option<u16>,
    /// The number of ticks of the current vault.
    pub vault_ticks: u32,
    /// The number of collision rays (the bottom ray, the mesh rays, then the prop rays).
    pub num_collision_rays: usize,
    /// The index of the first prop ray.
    pub first_prop_ray_index: u16,
    /// The katamari's direction of movement relative to the camera, if it moves.
    pub cam_relative_dir: Option<CamRelativeDir>,
    /// The number of consecutive ticks the katamari was stuck between walls.
    pub stuck_ticks: u8,
    /// Ticks during which props cannot hurt the katamari again.
    pub prop_pseudo_iframes_timer: u8,
    /// Ticks during which prop collisions are ignored.
    pub prop_ignore_collision_timer: u32,
    /// The contacts of the last ticks.
    pub hit_history: HitHistory,
    /// If false, the katamari can't detach props from bonking or being stuck.
    pub can_detach_props: bool,
    /// The push direction of the current brake, if any.
    pub brake_push_dir: Option<PushDir>,
    /// Ticks before the brake effect plays again.
    pub brake_vfx_timer: i16,
    /// The stage of the boost visual effect, once a boost started.
    pub boost_effect_state: Option<KatBoostEffectState>,
    /// The ticks counted in the current stage of the boost effect.
    pub boost_effect_timer: u16,
    /// Ticks left showing the speed display after a boost starts.
    pub sw_speed_disp_timer: u16,
    /// The prince's push direction when the katamari last did not brake.
    pub input_push_dir: Option<PushDir>,
    /// Whether the "something's coming" alarm is on.
    pub alarm_mode: bool,
    /// The urgency of the alarm, if any.
    pub alarm_type: Option<AlarmType>,
}

/// The number an alarm type is reported by.
pub open spec fn alarm_type_code(t: AlarmType) -> i32 {
    match t {
        AlarmType::Closest => 0,
        AlarmType::Closer => 1,
        AlarmType::Close => 2,
    }
}

/// Whether the katamari is stuck between walls on this tick.
pub open spec fn stuck_between_walls_now(
    small_ledge_climb: bool,
    num_wall_contacts: u8,
    num_floor_contacts: u8,
    stuck_ticks: u8,
    c: StuckContacts,
) -> bool {
    if small_ledge_climb {
        true
    } else if num_wall_contacts == 0 {
        false
    } else if num_wall_contacts == 1 {
        num_floor_contacts != 0 && c.wall_floor_angle_over_threshold && c.moved
    } else if num_wall_contacts == 2 {
        c.walls_angle_over_threshold || stuck_ticks > 0
    } else {
        true
    }
}

/// The stuck tick counter after a tick: it counts up while stuck and starts over at 1
/// once it passes the detach cooldown; it drops to 0 when not stuck.
pub open spec fn stuck_ticks_after(stuck: bool, stuck_ticks: u8, cooldown: u8) -> u8 {
    if !stuck {
        0
    } else if stuck_ticks + 1 > cooldown {
        1
    } else {
        (stuck_ticks + 1) as u8
    }
}

/// Whether being stuck makes the katamari detach props on this tick.
pub open spec fn stuck_detaches_props(
    stuck: bool,
    stuck_ticks: u8,
    cooldown: u8,
    detaching_props: bool,
    can_detach_props: bool,
) -> bool {
    stuck && stuck_ticks + 1 > cooldown && !detaching_props && can_detach_props
}

/// The physics flags `f` with the airborne flag set to `airborne`.
#[verifier::opaque]
pub open spec fn flags_set_airborne(f: KatPhysicsFlags, airborne: bool) -> KatPhysicsFlags {
    KatPhysicsFlags { airborne: airborne, ..f }
}

fn flags_with_airborne(f: KatPhysicsFlags, airborne: bool) -> (r: KatPhysicsFlags)
    ensures
        r == flags_set_airborne(f, airborne),
{
    proof {
        reveal(flags_set_airborne);
    }
    KatPhysicsFlags { airborne: airborne, ..f }
}

/// The physics flags `f` after a tick without surface contacts: the katamari pivots
/// on its bottom ray, the climb ends unless `keep_climb`, and it is airborne unless it
/// was climbing.
#[verifier::opaque]
pub open spec fn flags_without_contacts(f: KatPhysicsFlags, keep_climb: bool) -> KatPhysicsFlags {
    KatPhysicsFlags {
        grounded_ray_type: GroundedRay::Bottom,
        climbing: if keep_climb { f.climbing } else { false },
        at_max_climb_height: if keep_climb { f.at_max_climb_height } else { false },
        airborne: !f.climbing,
        ..f
    }
}

fn flags_with_no_contacts(f: KatPhysicsFlags, keep_climb: bool) -> (r: KatPhysicsFlags)
    ensures
        r == flags_without_contacts(f, keep_climb),
{
    proof {
        reveal(flags_without_contacts);
    }
    KatPhysicsFlags {
        grounded_ray_type: GroundedRay::Bottom,
        climbing: if keep_climb { f.climbing } else { false },
        at_max_climb_height: if keep_climb { f.at_max_climb_height } else { false },
        airborne: !f.climbing,
        ..f
    }
}

/// The physics flags `f` without the floor contact flag.
#[verifier::opaque]
pub open spec fn flags_drop_floor_contact(f: KatPhysicsFlags) -> KatPhysicsFlags {
    KatPhysicsFlags { contacts_floor: false, ..f }
}

fn flags_with_floor_contact_dropped(f: KatPhysicsFlags) -> (r: KatPhysicsFlags)
    ensures
        r == flags_drop_floor_contact(f),
{
    proof {
        reveal(flags_drop_floor_contact);
    }
    KatPhysicsFlags { contacts_floor: false, ..f }
}

/// The physics flags `f` after the reset at the start of a collision update.
#[verifier::opaque]
pub open spec fn flags_collision_reset(f: KatPhysicsFlags) -> KatPhysicsFlags {
    physics_flags_reset(f)
}

fn flags_after_collision_reset(f: KatPhysicsFlags) -> (r: KatPhysicsFlags)
    ensures
        r == flags_collision_reset(f),
{
    proof {
        reveal(flags_collision_reset);
    }
    let mut g = f;
    g.reset_for_collision_update();
    g
}

/// The physics flags `f` with the spin flag set to `spin`.
#[verifier::opaque]
pub open spec fn flags_set_wheel_spin(f: KatPhysicsFlags, spin: bool) -> KatPhysicsFlags {
    KatPhysicsFlags { wheel_spin: spin, ..f }
}

fn flags_with_wheel_spin(f: KatPhysicsFlags, spin: bool) -> (r: KatPhysicsFlags)
    ensures
        r == flags_set_wheel_spin(f, spin),
{
    proof {
        reveal(flags_set_wheel_spin);
    }
    KatPhysicsFlags { wheel_spin: spin, ..f }
}

/// The physics flags `f` of a stopped katamari.
#[verifier::opaque]
pub open spec fn flags_set_immobile(f: KatPhysicsFlags) -> KatPhysicsFlags {
    KatPhysicsFlags { immobile: true, ..f }
}

fn flags_with_immobile(f: KatPhysicsFlags) -> (r: KatPhysicsFlags)
    ensures
        r == flags_set_immobile(f),
{
    proof {
        reveal(flags_set_immobile);
    }
    KatPhysicsFlags { immobile: true, ..f }
}

/// The physics flags `f` after a recorded floor (`floor`) or wall contact, which may
/// also mark a down-slanted ceiling contact.
#[verifier::opaque]
pub open spec fn flags_set_contact(f: KatPhysicsFlags, floor: bool, slanted_ceiling: bool) -> KatPhysicsFlags {
    KatPhysicsFlags {
        contacts_floor: f.contacts_floor || floor,
        contacts_wall: f.contacts_wall || !floor,
        contacts_down_slanted_ceiling: f.contacts_down_slanted_ceiling || slanted_ceiling,
        ..f
    }
}

fn flags_with_contact(f: KatPhysicsFlags, floor: bool, slanted_ceiling: bool) -> (r: KatPhysicsFlags)
    ensures
        r == flags_set_contact(f, floor, slanted_ceiling),
{
    proof {
        reveal(flags_set_contact);
    }
    KatPhysicsFlags {
        contacts_floor: f.contacts_floor || floor,
        contacts_wall: f.contacts_wall || !floor,
        contacts_down_slanted_ceiling: f.contacts_down_slanted_ceiling || slanted_ceiling,
        ..f
    }
}

/// The physics flags `f` with the braking flag set to `braking`.
#[verifier::opaque]
pub open spec fn flags_set_braking(f: KatPhysicsFlags, braking: bool) -> KatPhysicsFlags {
    KatPhysicsFlags { braking: braking, ..f }
}

fn flags_with_braking(f: KatPhysicsFlags, braking: bool) -> (r: KatPhysicsFlags)
    ensures
        r == flags_set_braking(f, braking),
        r.braking == braking,
{
    proof {
        reveal(flags_set_braking);
    }
    KatPhysicsFlags { braking: braking, ..f }
}

/// The physics flags `f` while a climb goes on: climbing on the bottom ray.
#[verifier::opaque]
pub open spec fn flags_keep_climbing(f: KatPhysicsFlags) -> KatPhysicsFlags {
    KatPhysicsFlags { climbing: true, grounded_ray_type: GroundedRay::Bottom, ..f }
}

fn flags_with_climbing_kept(f: KatPhysicsFlags) -> (r: KatPhysicsFlags)
    ensures
        r == flags_keep_climbing(f),
{
    proof {
        reveal(flags_keep_climbing);
    }
    KatPhysicsFlags { climbing: true, grounded_ray_type: GroundedRay::Bottom, ..f }
}

/// The physics flags `f` with the climb ended.
#[verifier::opaque]
pub open spec fn flags_end_climb(f: KatPhysicsFlags) -> KatPhysicsFlags {
    KatPhysicsFlags { climbing: false, at_max_climb_height: false, ..f }
}

fn flags_with_climb_ended(f: KatPhysicsFlags) -> (r: KatPhysicsFlags)
    ensures
        r == flags_end_climb(f),
{
    proof {
        reveal(flags_end_climb);
    }
    KatPhysicsFlags { climbing: false, at_max_climb_height: false, ..f }
}

/// The physics flags `f` with the stuck-between-walls and detaching-props flags set.
#[verifier::opaque]
pub open spec fn flags_set_stuck(f: KatPhysicsFlags, stuck: bool, detaching: bool) -> KatPhysicsFlags {
    KatPhysicsFlags { stuck_between_walls: stuck, detaching_props: detaching, ..f }
}

fn flags_with_stuck(f: KatPhysicsFlags, stuck: bool, detaching: bool) -> (r: KatPhysicsFlags)
    ensures
        r == flags_set_stuck(f, stuck, detaching),
{
    proof {
        reveal(flags_set_stuck);
    }
    KatPhysicsFlags { stuck_between_walls: stuck, detaching_props: detaching, ..f }
}


/// The outcome of a brake check.
#[derive(Debug, Clone, Copy, PartialEq, Eq, Structural)]
pub enum BrakeState {
    /// Not pushing hard enough to elicit katamari movement.
    NoPush,
    /// Pushing against velocity.
    PushBrake,
    /// Pushing towards velocity.
    PushNoBrake,
    /// The camera is in the shoot mode.
    Shoot,
}

/// Which movement a brake stops; it picks the speed limit, the brake force and the effect.
#[derive(Debug, Clone, Copy, PartialEq, Eq, Structural)]
pub enum BrakeKind {
    /// Braking boost movement.
    Boost,
    /// Braking forwards movement with backwards input.
    Backward,
    /// Braking backwards movement with forwards input.
    Forward,
    /// Braking sideways movement with sideways input.
    Sideways,
}

/// The visual effect of a brake.
#[derive(Debug, Clone, Copy, PartialEq, Eq, Structural)]
pub enum BrakeVfx {
    BrakeForward,
    BrakeBackward,
    BrakeSideways,
}

/// The kind of brake for a boosting prince (`dash`) or for the angle between the
/// katamari's velocity and the camera: past the backwards limit, or inside the
/// forwards limit; anything else is sideways.
pub open spec fn brake_kind_of(dash: bool, angle_backward: bool, angle_forward: bool) -> BrakeKind {
    if dash {
        BrakeKind::Boost
    } else if angle_backward {
        BrakeKind::Backward
    } else if angle_forward {
        BrakeKind::Forward
    } else {
        BrakeKind::Sideways
    }
}

/// The effect a kind of brake plays.
pub open spec fn brake_vfx_of(kind: BrakeKind) -> BrakeVfx {
    match kind {
        BrakeKind::Boost => BrakeVfx::BrakeForward,
        BrakeKind::Backward => BrakeVfx::BrakeBackward,
        BrakeKind::Forward => BrakeVfx::BrakeForward,
        BrakeKind::Sideways => BrakeVfx::BrakeSideways,
    }
}

/// The kind of brake: see `brake_kind_of`.
pub fn brake_kind(dash: bool, angle_backward: bool, angle_forward: bool) -> (r: BrakeKind)
    ensures
        r == brake_kind_of(dash, angle_backward, angle_forward),
{
    if dash {
        BrakeKind::Boost
    } else if angle_backward {
        BrakeKind::Backward
    } else if angle_forward {
        BrakeKind::Forward
    } else {
        BrakeKind::Sideways
    }
}

fn brake_vfx(kind: BrakeKind) -> (r: BrakeVfx)
    ensures
        r == brake_vfx_of(kind),
{
    match kind {
        BrakeKind::Boost => BrakeVfx::BrakeForward,
        BrakeKind::Backward => BrakeVfx::BrakeBackward,
        BrakeKind::Forward => BrakeVfx::BrakeForward,
        BrakeKind::Sideways => BrakeVfx::BrakeSideways,
    }
}

/// What a brake check reads; each field is a comparison the caller makes on the
/// katamari's velocity, the camera and the prince's push.
#[derive(Debug, Clone, Copy, PartialEq, Eq, Structural)]
pub struct BrakeContext {
    /// The camera is in the shoot mode.
    pub camera_shoot: bool,
    /// The prince pushes hard enough to brake.
    pub pushing: bool,
    /// The push points against the katamari's velocity.
    pub against_velocity: bool,
    /// The kind of brake (see `brake_kind`).
    pub kind: BrakeKind,
    /// The speed reaches the brakeable share of the kind's speed limit.
    pub fast_enough: bool,
    /// The lateral angle between velocity and push is past the minimum brake angle.
    pub past_min_angle: bool,
    /// The prince's push direction.
    pub push_dir: Option<PushDir>,
    /// Ticks between two plays of the brake effect during one brake.
    pub vfx_cooldown: u8,
}

/// What a brake check makes the game play.
#[derive(Debug, Clone, Copy, PartialEq, Eq, Structural)]
pub struct BrakeEffects {
    pub state: BrakeState,
    /// A new brake starts (its force is the one of the context's kind).
    pub started: bool,
    /// The brake effect to play at the bottom of the katamari, if any.
    pub vfx: Option<BrakeVfx>,
    /// The brake sound to play, by the push direction it is played for.
    pub sound: Option<PushDir>,
}

/// Whether a brake check in context `c` brakes: the prince pushes a grounded katamari
/// against its velocity, fast enough or while already braking, at a wide enough angle.
pub open spec fn brake_applies(c: BrakeContext, airborne: bool, braking: bool) -> bool {
    !c.camera_shoot && c.pushing && !airborne && c.against_velocity && (braking || c.fast_enough)
        && c.past_min_angle
}

/// The result state of a brake check.
pub open spec fn brake_state_of(c: BrakeContext, airborne: bool, braking: bool) -> BrakeState {
    if c.camera_shoot {
        BrakeState::Shoot
    } else if !c.pushing || airborne {
        BrakeState::NoPush
    } else if !c.against_velocity {
        BrakeState::PushNoBrake
    } else if brake_applies(c, airborne, braking) {
        BrakeState::PushBrake
    } else {
        BrakeState::NoPush
    }
}


/// What a wall climb check reads; each field is a comparison the caller makes on the
/// katamari's geometry and the prince's input.
#[derive(Debug, Clone, Copy, PartialEq, Eq, Structural)]
pub struct ClimbContext {
    /// The katamari touches a prop whose lowest point is above the katamari's bottom
    /// minus the largest height a wall climb may gain.
    pub contact_prop_climbable: bool,
    /// The angle between the push velocity and the wall is within the climb limit.
    pub wall_angle_ok: bool,
    /// The prince's input is suited to a wall climb.
    pub has_wallclimb_input: bool,
    /// The katamari moves faster than a wall climb may start at.
    pub too_fast_to_start: bool,
    /// The lateral push is similar enough to the wall normal.
    pub push_similar_to_wall: bool,
}

/// Whether a prop the katamari touches lets it climb freely: exactly one wall, no
/// floor, and a climbable prop.
pub open spec fn climb_prop_free(walls: u8, floors: u8, c: ClimbContext) -> bool {
    walls == 1 && floors == 0 && c.contact_prop_climbable
}

/// Whether the checks before the angle checks let a climb go on: they are skipped on a
/// free prop; otherwise climbing must be enabled and no shell ray hit; a small ledge
/// climb skips the remaining checks and allows several walls, and off free surfaces the
/// climb cooldown must be over, the katamari grounded on this and the previous tick and
/// on flat ground. Several walls stop a climb unless those checks were skipped for a
/// small ledge; and a wall must be touched or a climb be under way.
pub open spec fn climb_prechecks_pass(k: Katamari, c: ClimbContext) -> bool {
    let free_prop = climb_prop_free(k.num_wall_contacts, k.num_floor_contacts, c);
    let hit_flags = if free_prop { KatHitFlags { wall_climb_free: true, ..k.hit_flags } } else { k.hit_flags };
    let checks_ok = free_prop || (!hit_flags.wall_climb_disabled && k.physics_flags.hit_shell_ray is None
        && (hit_flags.small_ledge_climb || hit_flags.wall_climb_free || (k.wallclimb_cooldown_timer == 0
        && !k.last_physics_flags.airborne && !k.physics_flags.airborne
        && k.physics_flags.incline_move_type == KatInclineMoveType::Flatground)));
    let check_multiple_walls = free_prop || !hit_flags.small_ledge_climb;
    &&& checks_ok
    &&& !(check_multiple_walls && k.num_wall_contacts > 1)
    &&& (k.physics_flags.contacts_wall || k.physics_flags.climbing)
}

/// Whether a climb check reaches the start of a new climb.
pub open spec fn climb_reaches_start(k: Katamari, c: ClimbContext) -> bool {
    climb_prechecks_pass(k, c) && c.wall_angle_ok && c.has_wallclimb_input && !k.physics_flags.climbing
}

/// The hit flags `f` with the free climb flag set.
#[verifier::opaque]
pub open spec fn hit_flags_set_climb_free(f: KatHitFlags) -> KatHitFlags {
    KatHitFlags { wall_climb_free: true, ..f }
}

fn hit_flags_with_climb_free(f: KatHitFlags) -> (r: KatHitFlags)
    ensures
        r == hit_flags_set_climb_free(f),
{
    proof {
        reveal(hit_flags_set_climb_free);
    }
    KatHitFlags { wall_climb_free: true, ..f }
}

/// The physics flags `f` with the maximum climb height flag cleared.
#[verifier::opaque]
pub open spec fn flags_clear_max_climb_height(f: KatPhysicsFlags) -> KatPhysicsFlags {
    KatPhysicsFlags { at_max_climb_height: false, ..f }
}

fn flags_with_max_climb_height_cleared(f: KatPhysicsFlags) -> (r: KatPhysicsFlags)
    ensures
        r == flags_clear_max_climb_height(f),
{
    proof {
        reveal(flags_clear_max_climb_height);
    }
    KatPhysicsFlags { at_max_climb_height: false, ..f }
}

/// Whether the katamari may climb the wall it touches.
pub open spec fn can_climb(k: Katamari, c: ClimbContext) -> bool {
    let free_prop = climb_prop_free(k.num_wall_contacts, k.num_floor_contacts, c);
    let wall_climb_free = free_prop || k.hit_flags.wall_climb_free;
    &&& climb_prechecks_pass(k, c)
    &&& c.wall_angle_ok
    &&& c.has_wallclimb_input
    &&& (k.physics_flags.climbing || wall_climb_free || !c.too_fast_to_start)
    &&& c.push_similar_to_wall
}


/// What the incline update reads; each field is a comparison the caller makes on the
/// contacted floor and the katamari's velocity.
#[derive(Debug, Clone, Copy, PartialEq, Eq, Structural)]
pub struct InclineContext {
    /// The game is in its ending stage, which has no gravity.
    pub ending_mode: bool,
    /// The contacted floor is steep enough to accelerate the katamari.
    pub steep_floor: bool,
    /// The katamari's lateral speed along its push is positive.
    pub moving_laterally: bool,
    /// The lateral velocity points against the slope by more than the threshold.
    pub against_slope: bool,
    /// The lateral velocity points against the slope, or across it within the threshold.
    pub not_with_slope: bool,
}

/// What the incline update did, for the caller to apply the accelerations.
#[derive(Debug, Clone, Copy, PartialEq, Eq, Structural)]
pub enum InclineOutcome {
    /// The ending stage: gravity is cleared and nothing else changes.
    NoGravity,
    /// A wall climb: the incline counters restart and gravity is cleared.
    Climbing,
    /// Airborne: gravity applies and the incline movement ends.
    Airborne,
    /// The incline movement ended (the prince's uphill push strength resets).
    Ended,
    /// Moving uphill.
    Uphill,
    /// Moving downhill.
    Downhill,
}

/// The incline movement type on a steep floor: from rest the katamari starts downhill;
/// moving, it is flat ground against a wall, else by the direction of its velocity.
pub open spec fn incline_type_on_slope(immobile: bool, contacts_wall: bool, c: InclineContext) -> KatInclineMoveType {
    if !immobile && c.moving_laterally {
        if contacts_wall {
            KatInclineMoveType::Flatground
        } else if c.against_slope {
            KatInclineMoveType::Uphill
        } else if c.not_with_slope {
            KatInclineMoveType::Flatground
        } else {
            KatInclineMoveType::Downhill
        }
    } else {
        KatInclineMoveType::Downhill
    }
}

/// The outcome of the incline update of katamari `k`.
pub open spec fn incline_outcome(k: Katamari, c: InclineContext) -> InclineOutcome {
    if c.ending_mode {
        InclineOutcome::NoGravity
    } else if k.physics_flags.climbing {
        InclineOutcome::Climbing
    } else if k.physics_flags.airborne {
        InclineOutcome::Airborne
    } else if k.hit_flags.force_flatground || !c.steep_floor {
        InclineOutcome::Ended
    } else {
        match incline_type_on_slope(k.physics_flags.immobile, k.physics_flags.contacts_wall, c) {
            KatInclineMoveType::Uphill => InclineOutcome::Uphill,
            KatInclineMoveType::Downhill => InclineOutcome::Downhill,
            KatInclineMoveType::Flatground => InclineOutcome::Ended,
        }
    }
}

/// The physics flags `f` with the incline movement type `t` and the immobile flag `immobile`.
#[verifier::opaque]
pub open spec fn flags_set_incline(f: KatPhysicsFlags, t: KatInclineMoveType, immobile: bool) -> KatPhysicsFlags {
    KatPhysicsFlags { incline_move_type: t, immobile: immobile, ..f }
}

fn flags_with_incline(f: KatPhysicsFlags, t: KatInclineMoveType, immobile: bool) -> (r: KatPhysicsFlags)
    ensures
        r == flags_set_incline(f, t, immobile),
{
    proof {
        reveal(flags_set_incline);
    }
    KatPhysicsFlags { incline_move_type: t, immobile: immobile, ..f }
}


/// The hit flags `f` after contacting surfaces with the attributes `attrs`, in order.
pub open spec fn hit_flags_after_attrs(f: KatHitFlags, attrs: Seq<HitAttribute>) -> KatHitFlags
    decreases attrs.len(),
{
    if attrs.len() == 0 {
        f
    } else {
        hit_flags_with(hit_flags_after_attrs(f, attrs.drop_last()), attrs.last())
    }
}

/// The hit flags at the start of a contact update: none, or the semi-translucent map
/// and special camera flags when the katamari touched a semi-translucent map surface.
pub open spec fn initial_contact_hit_flags(semi_translucent: bool) -> KatHitFlags {
    if semi_translucent {
        KatHitFlags { map_semi_translucent: true, special_camera: true, ..no_hit_flags() }
    } else {
        no_hit_flags()
    }
}

/// The attributes of contacted floors (each with whether it is sloped) and walls.
pub open spec fn contact_attrs(floors: Seq<(HitAttribute, bool)>, walls: Seq<HitAttribute>) -> Seq<HitAttribute> {
    floors.map_values(|f: (HitAttribute, bool)| f.0) + walls
}

/// The physics flags `f` with the sloped and flat floor flags set.
#[verifier::opaque]
pub open spec fn flags_set_floor_kinds(f: KatPhysicsFlags, sloped: bool, flat: bool) -> KatPhysicsFlags {
    KatPhysicsFlags { on_sloped_floor: sloped, on_flat_floor: flat, ..f }
}

fn flags_with_floor_kinds(f: KatPhysicsFlags, sloped: bool, flat: bool) -> (r: KatPhysicsFlags)
    ensures
        r == flags_set_floor_kinds(f, sloped, flat),
{
    proof {
        reveal(flags_set_floor_kinds);
    }
    KatPhysicsFlags { on_sloped_floor: sloped, on_flat_floor: flat, ..f }
}

fn apply_attrs(h: &mut KatHitFlags, attrs: &Vec<HitAttribute>)
    ensures
        *final(h) == hit_flags_after_attrs(*old(h), attrs@),
{
    let ghost start = *h;
    let mut i: usize = 0;
    while i < attrs.len()
        invariant
            i <= attrs.len(),
            *h == hit_flags_after_attrs(start, attrs@.take(i as int)),
        decreases attrs.len() - i,
    {
        proof {
            assert(attrs@.take(i + 1).drop_last() =~= attrs@.take(i as int));
        }
        h.apply_hit_attr(attrs[i]);
        i = i + 1;
    }
    proof {
        assert(attrs@.take(attrs.len() as int) =~= attrs@);
    }
}

proof fn lemma_hit_flags_after_concat(f: KatHitFlags, a: Seq<HitAttribute>, b: Seq<HitAttribute>)
    ensures
        hit_flags_after_attrs(hit_flags_after_attrs(f, a), b) == hit_flags_after_attrs(f, a + b),
    decreases b.len(),
{
    if b.len() > 0 {
        lemma_hit_flags_after_concat(f, a, b.drop_last());
        assert((a + b).drop_last() =~= a + b.drop_last());
    } else {
        assert(a + b =~= a);
    }
}


/// The type of the collision ray with index `idx`: none where there is no ray at that
/// index; otherwise the bottom ray first, then the mesh rays up to the first prop ray,
/// then the prop rays.
pub open spec fn ray_type_of(k: Katamari, idx: u16) -> Option<KatCollisionRayType> {
    if (idx as int) >= k.num_collision_rays {
        None
    } else if idx == 0 {
        Some(KatCollisionRayType::Bottom)
    } else if idx < k.first_prop_ray_index {
        Some(KatCollisionRayType::Mesh)
    } else {
        Some(KatCollisionRayType::Prop)
    }
}

/// The physics flags `f` with the grounded ray type `g`.
#[verifier::opaque]
pub open spec fn flags_set_grounded_ray(f: KatPhysicsFlags, g: GroundedRay) -> KatPhysicsFlags {
    KatPhysicsFlags { grounded_ray_type: g, ..f }
}

fn flags_with_grounded_ray(f: KatPhysicsFlags, g: GroundedRay) -> (r: KatPhysicsFlags)
    ensures
        r == flags_set_grounded_ray(f, g),
{
    proof {
        reveal(flags_set_grounded_ray);
    }
    KatPhysicsFlags { grounded_ray_type: g, ..f }
}

/// The grounded ray after a vault check with result `r`: the bottom ray without a
/// vault, else the type of the vault ray; the bottom ray in any case while climbing.
pub open spec fn grounded_ray_after_vault(k: Katamari, r: TryInitVaultResult) -> GroundedRay {
    if r == TryInitVaultResult::NoVault || k.physics_flags.climbing {
        GroundedRay::Bottom
    } else {
        match k.vault_ray_idx {
            Some(idx) => grounded_ray_of(ray_type_of(k, idx)->0),
            None => k.physics_flags.grounded_ray_type,
        }
    }
}

/// The direction of movement relative to the camera: none while immobile; backwards or
/// forwards past the sideways threshold; otherwise right or left.
pub open spec fn cam_relative_dir_of(immobile: bool, backwards: bool, forwards: bool, right: bool) -> Option<CamRelativeDir> {
    if immobile {
        None
    } else if backwards {
        Some(CamRelativeDir::Backwards)
    } else if forwards {
        Some(CamRelativeDir::Forwards)
    } else if right {
        Some(CamRelativeDir::Right)
    } else {
        Some(CamRelativeDir::Left)
    }
}


/// The durations of the boost visual effect's stages.
#[derive(Debug, Clone, Copy, PartialEq, Eq, Structural)]
pub struct BoostEffectParams {
    /// Ticks the effect builds up.
    pub build_duration: u16,
    /// Ticks the effect takes to release.
    pub release_duration: u16,
    /// Ticks the effect takes to release in water.
    pub release_duration_in_water: u16,
}

impl Default for BoostEffectParams {
    fn default() -> (r: Self)
        ensures
            r.build_duration == 14,
            r.release_duration == 15,
            r.release_duration_in_water == 10,
    {
        BoostEffectParams { build_duration: 14, release_duration: 15, release_duration_in_water: 10 }
    }
}

/// The ticks the speed display shows after a boost starts.
pub const SW_SPEED_DISP_DURATION: u16 = 0xf;

/// One tick of the boost effect while the prince boosts (or just started to): the effect
/// builds up (not while starting in water) for `build_duration` ticks, then holds until
/// the katamari brakes or stops spinning, then releases over its release duration and
/// ends; water releases it at once. Gives the new stage, timer, and whether the effect
/// shows.
pub open spec fn boost_effect_step(
    state: Option<KatBoostEffectState>,
    timer: u16,
    in_water: bool,
    braking: bool,
    wheel_spin: bool,
    p: BoostEffectParams,
) -> (Option<KatBoostEffectState>, u16, bool) {
    match state {
        Some(KatBoostEffectState::Build) => if !in_water || timer > 0 {
            let t = (timer + 1) as u16;
            if in_water {
                (Some(KatBoostEffectState::Release), p.release_duration_in_water, true)
            } else if t > p.build_duration {
                (Some(KatBoostEffectState::StopBuilding), t, true)
            } else {
                (state, t, true)
            }
        } else {
            (state, timer, false)
        },
        Some(KatBoostEffectState::StopBuilding) => if in_water {
            (Some(KatBoostEffectState::Release), p.release_duration_in_water, true)
        } else if braking || !wheel_spin {
            (Some(KatBoostEffectState::Release), p.release_duration, true)
        } else {
            (state, timer, true)
        },
        Some(KatBoostEffectState::Release) => {
            let t = (timer - 1) as u16;
            (if t == 0 { Some(KatBoostEffectState::End) } else { state }, t, false)
        },
        _ => (state, timer, false),
    }
}

/// The boost effect step is defined: a building timer can count one more tick and a
/// releasing timer has ticks left.
pub open spec fn boost_effect_step_defined(state: Option<KatBoostEffectState>, timer: u16, in_water: bool) -> bool {
    &&& state == Some(KatBoostEffectState::Build) && (!in_water || timer > 0) ==> timer < u16::MAX
    &&& state == Some(KatBoostEffectState::Release) ==> timer > 0
}

/// The speed display after one tick: outside versus mode, while boosting without
/// spinning it counts down and shows until it runs out; without a boost (or in versus
/// mode) it is off.
pub open spec fn sw_speed_disp_step(timer: u16, dash: bool, wheel_spin: bool, is_vs_mode: bool, shown: bool) -> (u16, bool) {
    if !is_vs_mode && dash {
        if !wheel_spin && timer > 0 {
            ((timer - 1) as u16, timer - 1 > 0)
        } else {
            (timer, shown)
        }
    } else {
        (timer, false)
    }
}

/// The boost effect stage and timer after the start of a tick in which the prince may
/// start a boost: a new boost builds its effect from zero.
pub open spec fn boost_effect_started(k: Katamari, dash_start: bool) -> (Option<KatBoostEffectState>, u16) {
    if dash_start {
        (Some(KatBoostEffectState::Build), 0)
    } else {
        (k.boost_effect_state, k.boost_effect_timer)
    }
}

/// The boost effect update of katamari `k` for a prince with shared state `o`: the
/// new stage, timer and whether the effect shows.
pub open spec fn boost_effect_after(k: Katamari, o: OujiState, p: BoostEffectParams) -> (Option<KatBoostEffectState>, u16, bool) {
    let (s1, t1) = boost_effect_started(k, o.dash_start);
    if o.dash || o.dash_start {
        boost_effect_step(s1, t1, k.physics_flags.in_water, k.physics_flags.braking, o.wheel_spin, p)
    } else {
        (s1, t1, false)
    }
}

/// The speed display update of katamari `k` for a prince with shared state `o`.
pub open spec fn sw_speed_disp_after(k: Katamari, o: OujiState, is_vs_mode: bool) -> (u16, bool) {
    let t = if o.dash_start { SW_SPEED_DISP_DURATION } else { k.sw_speed_disp_timer };
    sw_speed_disp_step(t, o.dash, o.wheel_spin, is_vs_mode, o.sw_speed_disp)
}

fn boost_effect_step_value(
    state: Option<KatBoostEffectState>,
    timer: u16,
    in_water: bool,
    braking: bool,
    wheel_spin: bool,
    p: BoostEffectParams,
) -> (r: (Option<KatBoostEffectState>, u16, bool))
    requires
        boost_effect_step_defined(state, timer, in_water),
    ensures
        r == boost_effect_step(state, timer, in_water, braking, wheel_spin, p),
{
    match state {
        Some(KatBoostEffectState::Build) => if !in_water || timer > 0 {
            let t: u16 = timer + 1;
            if in_water {
                (Some(KatBoostEffectState::Release), p.release_duration_in_water, true)
            } else if t > p.build_duration {
                (Some(KatBoostEffectState::StopBuilding), t, true)
            } else {
                (state, t, true)
            }
        } else {
            (state, timer, false)
        },
        Some(KatBoostEffectState::StopBuilding) => if in_water {
            (Some(KatBoostEffectState::Release), p.release_duration_in_water, true)
        } else if braking || !wheel_spin {
            (Some(KatBoostEffectState::Release), p.release_duration, true)
        } else {
            (state, timer, true)
        },
        Some(KatBoostEffectState::Release) => {
            let t: u16 = timer - 1;
            (if t == 0 { Some(KatBoostEffectState::End) } else { state }, t, false)
        },
        _ => (state, timer, false),
    }
}

fn sw_speed_disp_value(timer: u16, dash: bool, wheel_spin: bool, is_vs_mode: bool, shown: bool) -> (r: (u16, bool))
    ensures
        r == sw_speed_disp_step(timer, dash, wheel_spin, is_vs_mode, shown),
{
    if !is_vs_mode && dash {
        if !wheel_spin && timer > 0 {
            (timer - 1, timer - 1 > 0)
        } else {
            (timer, shown)
        }
    } else {
        (timer, false)
    }
}


/// The shell ray of the `i`-th point of the shell that checks fast movement: the top,
/// left, right and bottom points (the 0th point has no shell ray).
pub open spec fn fast_shell_ray_of(i: u8) -> Option<ShellRay> {
    if i == 1 {
        Some(ShellRay::TopCenter)
    } else if i == 2 {
        Some(ShellRay::Left)
    } else if i == 3 {
        Some(ShellRay::Right)
    } else if i == 4 {
        Some(ShellRay::Bottom)
    } else {
        None
    }
}

/// The shell ray of the `i`-th point of the shell that checks surfaces: the top, left,
/// right, top-left and top-right points.
pub open spec fn surface_shell_ray_of(i: u8) -> ShellRay {
    if i == 0 {
        ShellRay::TopCenter
    } else if i == 1 {
        ShellRay::Left
    } else if i == 2 {
        ShellRay::Right
    } else if i == 3 {
        ShellRay::TopLeft
    } else {
        ShellRay::TopRight
    }
}

/// The shell ray of the `i`-th point of the fast-movement shell (see `fast_shell_ray_of`).
pub fn fast_shell_ray(i: u8) -> (r: Option<ShellRay>)
    ensures
        r == fast_shell_ray_of(i),
{
    if i == 1 {
        Some(ShellRay::TopCenter)
    } else if i == 2 {
        Some(ShellRay::Left)
    } else if i == 3 {
        Some(ShellRay::Right)
    } else if i == 4 {
        Some(ShellRay::Bottom)
    } else {
        None
    }
}

/// The shell ray of the `i`-th point of the surface shell (see `surface_shell_ray_of`).
pub fn surface_shell_ray(i: u8) -> (r: ShellRay)
    requires
        i < 5,
    ensures
        r == surface_shell_ray_of(i),
{
    if i == 0 {
        ShellRay::TopCenter
    } else if i == 1 {
        ShellRay::Left
    } else if i == 2 {
        ShellRay::Right
    } else if i == 3 {
        ShellRay::TopLeft
    } else {
        ShellRay::TopRight
    }
}

/// The ray index by which a contact of the shell ray `ray` is recorded: the negated
/// index of the shell ray, or 0 without one.
pub open spec fn shell_contact_ray_idx(ray: Option<ShellRay>) -> i16 {
    match ray {
        Some(r) => -(shell_ray_index(r) as int) as i16,
        None => 0,
    }
}

/// The physics flags `f` with the shell ray `ray` recorded as hit.
#[verifier::opaque]
pub open spec fn flags_set_shell_ray(f: KatPhysicsFlags, ray: Option<ShellRay>) -> KatPhysicsFlags {
    KatPhysicsFlags { hit_shell_ray: ray, ..f }
}

fn flags_with_shell_ray(f: KatPhysicsFlags, ray: Option<ShellRay>) -> (r: KatPhysicsFlags)
    ensures
        r == flags_set_shell_ray(f, ray),
{
    proof {
        reveal(flags_set_shell_ray);
    }
    KatPhysicsFlags { hit_shell_ray: ray, ..f }
}

/// The physics flags `f` at the start of the vault and climb update: no fast ground
/// hit yet, and, with contacts, the unidentified flag 0x20 is off.
#[verifier::opaque]
pub open spec fn flags_begin_vault_and_climb(f: KatPhysicsFlags, has_contacts: bool) -> KatPhysicsFlags {
    KatPhysicsFlags {
        hit_ground_fast: false,
        unknown_0x20: if has_contacts { false } else { f.unknown_0x20 },
        ..f
    }
}

fn flags_at_vault_and_climb(f: KatPhysicsFlags, has_contacts: bool) -> (r: KatPhysicsFlags)
    ensures
        r == flags_begin_vault_and_climb(f, has_contacts),
{
    proof {
        reveal(flags_begin_vault_and_climb);
    }
    KatPhysicsFlags {
        hit_ground_fast: false,
        unknown_0x20: if has_contacts { false } else { f.unknown_0x20 },
        ..f
    }
}

/// A boost effect that releases counts its timer down and ends when it runs out; an
/// ended effect stays ended; water releases a building or holding effect at once.
pub proof fn law_boost_effect_stages(timer: u16, in_water: bool, braking: bool, wheel_spin: bool, p: BoostEffectParams)
    ensures
        timer > 0 ==> boost_effect_step(Some(KatBoostEffectState::Release), timer, in_water, braking, wheel_spin, p)
            == (if timer == 1 { Some(KatBoostEffectState::End) } else { Some(KatBoostEffectState::Release) },
            (timer - 1) as u16, false),
        boost_effect_step(Some(KatBoostEffectState::End), timer, in_water, braking, wheel_spin, p)
            == (Some(KatBoostEffectState::End), timer, false),
        in_water ==> boost_effect_step(Some(KatBoostEffectState::StopBuilding), timer, in_water, braking, wheel_spin, p).0
            == Some(KatBoostEffectState::Release),
        in_water && timer > 0 && timer < u16::MAX ==> boost_effect_step(Some(KatBoostEffectState::Build), timer, in_water, braking, wheel_spin, p).0
            == Some(KatBoostEffectState::Release),
{
}

/// The effect shows exactly while it builds or holds (a building effect that has not
/// started in water shows).
pub proof fn law_boost_effect_shows_while_building(state: Option<KatBoostEffectState>, timer: u16, in_water: bool, braking: bool, wheel_spin: bool, p: BoostEffectParams)
    ensures
        boost_effect_step(state, timer, in_water, braking, wheel_spin, p).2 == (state == Some(KatBoostEffectState::StopBuilding)
            || (state == Some(KatBoostEffectState::Build) && (!in_water || timer > 0))),
{
}

/// What a vault check gives for the primary floor ray `fc`, the current vault ray
/// `vault`, and whether `fc` is strictly longer than the katamari's radius.
pub open spec fn vault_result(fc: Option<u16>, vault: Option<u16>, longer: bool) -> TryInitVaultResult {
    if fc is None {
        TryInitVaultResult::NoVault
    } else if fc == vault {
        TryInitVaultResult::OldVault
    } else if !longer {
        TryInitVaultResult::NoVault
    } else {
        TryInitVaultResult::InitVault
    }
}

impl Default for Katamari {
    /// A katamari with no contacts, timers or history, no alarm, and no vault ray.
    fn default() -> (r: Self)
        ensures
            r.physics_flags == initial_physics_flags(),
            r.last_physics_flags == initial_physics_flags(),
            r.hit_flags == no_hit_flags(),
            r.last_hit_flags == no_hit_flags(),
            r.older_hit_flags == no_hit_flags(),
            r.spin_ticks == 0,
            r.num_floor_contacts == 0,
            r.num_wall_contacts == 0,
            r.last_num_floor_contacts == 0,
            r.last_num_wall_contacts == 0,
            r.floor_contact_ray_idxs@ == Seq::new(MAX_FLOOR_CONTACTS as nat, |i: int| 0i8),
            r.airborne_ticks == 0,
            r.falling_ticks == 0,
            r.is_climbing_0x898 == 0,
            r.wallclimb_ticks == 0,
            r.wallclimb_cooldown_timer == 0,
            r.wallclimb_max_height_ticks == 0,
            r.move_uphill_ticks == 0,
            r.move_downhill_ticks == 0,
            r.fc_ray_idx is None,
            r.vault_ray_idx is None,
            r.vault_ticks == 0,
            r.num_collision_rays == 0,
            r.first_prop_ray_index == 0,
            r.cam_relative_dir is None,
            r.stuck_ticks == 0,
            r.prop_pseudo_iframes_timer == 0,
            r.prop_ignore_collision_timer == 0,
            r.hit_history@ == Seq::<(u8, u8)>::empty(),
            !r.can_detach_props,
            r.brake_push_dir is None,
            r.brake_vfx_timer == 0,
            r.boost_effect_state is None,
            r.boost_effect_timer == 0,
            r.sw_speed_disp_timer == 0,
            r.input_push_dir is None,
            !r.alarm_mode,
            r.alarm_type is None,
    {
        let mut idxs: Vec<i8> = Vec::new();
        let mut i: usize = 0;
        while i < MAX_FLOOR_CONTACTS
            invariant
                i <= MAX_FLOOR_CONTACTS,
                idxs@ == Seq::new(i as nat, |k: int| 0i8),
            decreases MAX_FLOOR_CONTACTS - i,
        {
            idxs.push(0);
            i = i + 1;
            assert(idxs@ =~= Seq::new(i as nat, |k: int| 0i8));
        }
        Katamari {
            physics_flags: KatPhysicsFlags::default(),
            last_physics_flags: KatPhysicsFlags::default(),
            hit_flags: KatHitFlags::default(),
            last_hit_flags: KatHitFlags::default(),
            older_hit_flags: KatHitFlags::default(),
            spin_ticks: 0,
            num_floor_contacts: 0,
            num_wall_contacts: 0,
            last_num_floor_contacts: 0,
            last_num_wall_contacts: 0,
            floor_contact_ray_idxs: idxs,
            airborne_ticks: 0,
            falling_ticks: 0,
            is_climbing_0x898: 0,
            wallclimb_ticks: 0,
            wallclimb_cooldown_timer: 0,
            wallclimb_max_height_ticks: 0,
            move_uphill_ticks: 0,
            move_downhill_ticks: 0,
            fc_ray_idx: None,
            vault_ray_idx: None,
            vault_ticks: 0,
            num_collision_rays: 0,
            first_prop_ray_index: 0,
            cam_relative_dir: None,
            stuck_ticks: 0,
            prop_pseudo_iframes_timer: 0,
            prop_ignore_collision_timer: 0,
            hit_history: HitHistory::new(),
            can_detach_props: false,
            brake_push_dir: None,
            brake_vfx_timer: 0,
            boost_effect_state: None,
            boost_effect_timer: 0,
            sw_speed_disp_timer: 0,
            input_push_dir: None,
            alarm_mode: false,
            alarm_type: None,
        }
    }
}

impl Katamari {
    /// The alarm state, as the numbers the game reads: whether the alarm is on, and
    /// its urgency (the closest one where none is set).
    pub fn get_alarm(&self, alarm_mode: &mut i32, alarm_type: &mut i32)
        ensures
            *final(alarm_mode) == (if self.alarm_mode { 1i32 } else { 0i32 }),
            *final(alarm_type) == match self.alarm_type {
                Some(t) => alarm_type_code(t),
                None => 0i32,
            },
    {
        *alarm_mode = if self.alarm_mode { 1 } else { 0 };
        *alarm_type = match self.alarm_type {
            Some(AlarmType::Closest) => 0,
            Some(AlarmType::Closer) => 1,
            Some(AlarmType::Close) => 2,
            None => 0,
        };
    }

    /// The number of contacted surfaces of the given type.
    pub fn get_num_surface_contacts(&self, surface_type: SurfaceType) -> (r: u8)
        ensures
            surface_type == SurfaceType::Floor ==> r == self.num_floor_contacts,
            surface_type == SurfaceType::Wall ==> r == self.num_wall_contacts,
    {
        match surface_type {
            SurfaceType::Floor => self.num_floor_contacts,
            SurfaceType::Wall => self.num_wall_contacts,
        }
    }

    /// Counts one more contacted surface of the given type.
    pub fn inc_num_surface_contacts(&mut self, surface_type: SurfaceType)
        requires
            surface_type == SurfaceType::Floor ==> old(self).num_floor_contacts < u8::MAX,
            surface_type == SurfaceType::Wall ==> old(self).num_wall_contacts < u8::MAX,
        ensures
            surface_type == SurfaceType::Floor ==> final(self).num_floor_contacts
                == old(self).num_floor_contacts + 1 && final(self).num_wall_contacts
                == old(self).num_wall_contacts,
            surface_type == SurfaceType::Wall ==> final(self).num_wall_contacts
                == old(self).num_wall_contacts + 1 && final(self).num_floor_contacts
                == old(self).num_floor_contacts,
            final(self).last_num_floor_contacts == old(self).last_num_floor_contacts,
            final(self).last_num_wall_contacts == old(self).last_num_wall_contacts,
            final(self).physics_flags == old(self).physics_flags,
            *final(self) == (Katamari {
                num_floor_contacts: final(self).num_floor_contacts,
                num_wall_contacts: final(self).num_wall_contacts,
                ..*old(self)
            }),
    {
        match surface_type {
            SurfaceType::Floor => self.num_floor_contacts = self.num_floor_contacts + 1,
            SurfaceType::Wall => self.num_wall_contacts = self.num_wall_contacts + 1,
        }
    }

    /// Starts a collision update: this tick's contact counts become the previous
    /// tick's, no surface or floor ray is contacted yet, the per-tick contact flags are
    /// reset and the prop collision timers tick down. Returns whether the collision goes
    /// on (it does not in the versus state 2).
    pub fn begin_contact_update(&mut self) -> (proceeds: bool)
        ensures
            proceeds == (old(self).physics_flags.vs_mode_state != 2),
            final(self).last_num_floor_contacts == old(self).num_floor_contacts,
            final(self).last_num_wall_contacts == old(self).num_wall_contacts,
            final(self).num_floor_contacts == 0,
            final(self).num_wall_contacts == 0,
            final(self).fc_ray_idx is None,
            final(self).vault_ray_idx == old(self).vault_ray_idx,
            final(self).physics_flags == flags_collision_reset(old(self).physics_flags),
            final(self).prop_pseudo_iframes_timer == (if old(self).prop_pseudo_iframes_timer > 0 {
                old(self).prop_pseudo_iframes_timer - 1
            } else {
                0
            }),
            final(self).prop_ignore_collision_timer == (if old(self).prop_ignore_collision_timer > 0 {
                old(self).prop_ignore_collision_timer - 1
            } else {
                0
            }),
            final(self).floor_contact_ray_idxs@ == old(self).floor_contact_ray_idxs@,
            *final(self) == (Katamari {
                last_num_floor_contacts: final(self).last_num_floor_contacts,
                last_num_wall_contacts: final(self).last_num_wall_contacts,
                num_floor_contacts: final(self).num_floor_contacts,
                num_wall_contacts: final(self).num_wall_contacts,
                fc_ray_idx: final(self).fc_ray_idx,
                prop_pseudo_iframes_timer: final(self).prop_pseudo_iframes_timer,
                prop_ignore_collision_timer: final(self).prop_ignore_collision_timer,
                physics_flags: final(self).physics_flags,
                ..*old(self)
            }),
    {
        let proceeds = self.physics_flags.vs_mode_state != 2;
        let iframes: u8 = if self.prop_pseudo_iframes_timer > 0 { self.prop_pseudo_iframes_timer - 1 } else { 0 };
        let ignore: u32 = if self.prop_ignore_collision_timer > 0 { self.prop_ignore_collision_timer - 1 } else { 0 };
        self.last_num_floor_contacts = self.num_floor_contacts;
        self.last_num_wall_contacts = self.num_wall_contacts;
        self.num_floor_contacts = 0;
        self.num_wall_contacts = 0;
        self.fc_ray_idx = None;
        self.prop_pseudo_iframes_timer = iframes;
        self.prop_ignore_collision_timer = ignore;
        self.physics_flags = flags_after_collision_reset(self.physics_flags);
        proceeds
    }

    /// Classifies a contact that a ray made with a surface whose normal does
    /// (`is_floor_normal`) or does not point up past the floor threshold.
    /// A floor hit by a top shell ray (index -1, -5 or -6) is reported and nothing is
    /// recorded; otherwise the floor's ray index is remembered and the floor or wall
    /// contact flag is set, and a surface whose normal points down at a slant
    /// (`slanted_ceiling`, the caller's comparison of the normal) marks a down-slanted
    /// ceiling contact.
    pub fn record_surface_contact(&mut self, is_floor_normal: bool, ray_idx: i16, slanted_ceiling: bool) -> (r:
        RecordSurfaceContactResult)
        requires
            is_floor_normal && ray_idx != -1 && ray_idx != -5 && ray_idx != -6
                ==> old(self).num_floor_contacts < old(self).floor_contact_ray_idxs.len(),
        ensures
            r == (if !is_floor_normal {
                RecordSurfaceContactResult::Wall
            } else if ray_idx == -1 || ray_idx == -5 || ray_idx == -6 {
                RecordSurfaceContactResult::ShellTop
            } else {
                RecordSurfaceContactResult::Floor
            }),
            r == RecordSurfaceContactResult::ShellTop ==> *final(self) == *old(self),
            r == RecordSurfaceContactResult::Floor ==> *final(self) == (Katamari {
                physics_flags: flags_set_contact(old(self).physics_flags, true, slanted_ceiling),
                floor_contact_ray_idxs: final(self).floor_contact_ray_idxs,
                ..*old(self)
            }) && final(self).floor_contact_ray_idxs@ == old(self).floor_contact_ray_idxs@.update(
                old(self).num_floor_contacts as int,
                ray_idx as i8,
            ),
            r == RecordSurfaceContactResult::Wall ==> *final(self) == (Katamari {
                physics_flags: flags_set_contact(old(self).physics_flags, false, slanted_ceiling),
                ..*old(self)
            }),
    {
        if is_floor_normal {
            if ray_idx == -1 || ray_idx == -5 || ray_idx == -6 {
                return RecordSurfaceContactResult::ShellTop;
            }
            let idx = self.num_floor_contacts as usize;
            self.floor_contact_ray_idxs.set(idx, #[verifier::truncate] (ray_idx as i8));
            self.physics_flags = flags_with_contact(self.physics_flags, true, slanted_ceiling);
            RecordSurfaceContactResult::Floor
        } else {
            self.physics_flags = flags_with_contact(self.physics_flags, false, slanted_ceiling);
            RecordSurfaceContactResult::Wall
        }
    }

    /// Updates the airborne and falling timers from the airborne flag of the previous
    /// contact update, then records whether the katamari is airborne now.
    /// `is_falling` says whether the katamari's vertical velocity points down.
    pub fn update_airborne_timers(&mut self, new_airborne: bool, is_falling: bool)
        requires
            old(self).physics_flags.airborne ==> old(self).airborne_ticks < u16::MAX,
            old(self).physics_flags.airborne && is_falling ==> old(self).falling_ticks < u16::MAX,
        ensures
            final(self).airborne_ticks == (if old(self).physics_flags.airborne {
                old(self).airborne_ticks + 1
            } else {
                0
            }),
            final(self).falling_ticks == (if !old(self).physics_flags.airborne {
                0
            } else if is_falling {
                old(self).falling_ticks + 1
            } else {
                old(self).falling_ticks as int
            }),
            final(self).physics_flags == flags_set_airborne(old(self).physics_flags, new_airborne),
            *final(self) == (Katamari {
                airborne_ticks: final(self).airborne_ticks,
                falling_ticks: final(self).falling_ticks,
                physics_flags: final(self).physics_flags,
                ..*old(self)
            }),
    {
        let was_airborne = self.physics_flags.airborne;
        let airborne_ticks: u16 = if was_airborne { self.airborne_ticks + 1 } else { 0 };
        let falling_ticks: u16 = if !was_airborne {
            0
        } else if is_falling {
            self.falling_ticks + 1
        } else {
            self.falling_ticks
        };
        self.airborne_ticks = airborne_ticks;
        self.falling_ticks = falling_ticks;
        self.physics_flags = flags_with_airborne(self.physics_flags, new_airborne);
    }

    /// Ends the current wall climb, if one is ongoing. A climb whose grace counter is
    /// still running only uses up one tick of it. Ending a climb starts the cooldown
    /// before the next one.
    pub fn end_wall_climb(&mut self)
        ensures
            old(self).physics_flags.climbing && old(self).is_climbing_0x898 > 0 ==> final(self).is_climbing_0x898 == old(self).is_climbing_0x898 - 1 && final(self).physics_flags
                == old(self).physics_flags && final(self).wallclimb_ticks == old(self).wallclimb_ticks && final(self).wallclimb_cooldown_timer == old(self).wallclimb_cooldown_timer && final(self).wallclimb_max_height_ticks == old(self).wallclimb_max_height_ticks,
            old(self).physics_flags.climbing && old(self).is_climbing_0x898 == 0 ==> final(self).wallclimb_ticks == 0 && final(self).wallclimb_cooldown_timer == 10,
            !old(self).physics_flags.climbing ==> final(self).wallclimb_ticks == old(self).wallclimb_ticks && final(self).wallclimb_cooldown_timer == old(self).wallclimb_cooldown_timer,
            !(old(self).physics_flags.climbing && old(self).is_climbing_0x898 > 0) ==> final(self).physics_flags == flags_end_climb(old(self).physics_flags) && final(self).wallclimb_max_height_ticks == 0 && final(self).is_climbing_0x898
                == old(self).is_climbing_0x898,
            *final(self) == (Katamari {
                is_climbing_0x898: final(self).is_climbing_0x898,
                wallclimb_ticks: final(self).wallclimb_ticks,
                wallclimb_cooldown_timer: final(self).wallclimb_cooldown_timer,
                wallclimb_max_height_ticks: final(self).wallclimb_max_height_ticks,
                physics_flags: final(self).physics_flags,
                ..*old(self)
            }),
    {
        let climbing = self.physics_flags.climbing;
        if climbing && self.is_climbing_0x898 > 0 {
            self.is_climbing_0x898 = self.is_climbing_0x898 - 1;
        } else {
            let wallclimb_ticks: u16 = if climbing { 0 } else { self.wallclimb_ticks };
            let cooldown: u16 = if climbing { 10 } else { self.wallclimb_cooldown_timer };
            self.wallclimb_ticks = wallclimb_ticks;
            self.wallclimb_cooldown_timer = cooldown;
            self.physics_flags = flags_with_climb_ended(self.physics_flags);
            self.wallclimb_max_height_ticks = 0;
        }
    }

    /// Ends the current wall climb without touching its cooldown or grace counter.
    pub fn another_end_wallclimb(&mut self)
        ensures
            final(self).physics_flags == flags_end_climb(old(self).physics_flags),
            final(self).wallclimb_max_height_ticks == 0,
            final(self).wallclimb_ticks == old(self).wallclimb_ticks,
            final(self).wallclimb_cooldown_timer == old(self).wallclimb_cooldown_timer,
            final(self).is_climbing_0x898 == old(self).is_climbing_0x898,
            *final(self) == (Katamari {
                wallclimb_max_height_ticks: final(self).wallclimb_max_height_ticks,
                physics_flags: final(self).physics_flags,
                ..*old(self)
            }),
    {
        self.physics_flags = flags_with_climb_ended(self.physics_flags);
        self.wallclimb_max_height_ticks = 0;
    }

    /// Checks the primary floor contact ray for a vault. `ray_longer_than_radius` says
    /// whether that ray is strictly longer than the katamari's radius. A new vault
    /// remembers its ray.
    pub fn try_init_vault(&mut self, ray_longer_than_radius: bool) -> (r: TryInitVaultResult)
        ensures
            r == vault_result(old(self).fc_ray_idx, old(self).vault_ray_idx, ray_longer_than_radius),
            r == TryInitVaultResult::InitVault ==> *final(self) == (Katamari {
                vault_ray_idx: old(self).fc_ray_idx,
                ..*old(self)
            }),
            r != TryInitVaultResult::InitVault ==> *final(self) == *old(self),
    {
        match self.fc_ray_idx {
            None => {
                return TryInitVaultResult::NoVault;
            },
            Some(fc) => {
                match self.vault_ray_idx {
                    Some(v) => {
                        if v == fc {
                            return TryInitVaultResult::OldVault;
                        }
                    },
                    None => {},
                }
            },
        }
        if !ray_longer_than_radius {
            return TryInitVaultResult::NoVault;
        }
        self.vault_ray_idx = self.fc_ray_idx;
        TryInitVaultResult::InitVault
    }

    /// Decides whether the katamari brakes this tick. A new brake remembers the push
    /// direction, plays its sound, and plays its effect unless the prince's wheel spins;
    /// during a brake the effect replays every `vfx_cooldown` ticks. Pushing with the
    /// velocity ends a brake and the prince's boost.
    pub fn compute_brake_state(&mut self, oujistate: &mut OujiState, c: BrakeContext) -> (r:
        BrakeEffects)
        requires
            brake_applies(c, old(self).physics_flags.airborne, old(self).physics_flags.braking)
                && !old(self).physics_flags.braking ==> c.push_dir is Some,
            brake_applies(c, old(self).physics_flags.airborne, old(self).physics_flags.braking)
                && old(self).physics_flags.braking ==> old(self).brake_vfx_timer > i16::MIN,
        ensures
            r.state == brake_state_of(c, old(self).physics_flags.airborne, old(self).physics_flags.braking),
            r.started == (brake_applies(c, old(self).physics_flags.airborne, old(self).physics_flags.braking)
                && !old(self).physics_flags.braking),
            final(self).physics_flags == (if c.camera_shoot {
                old(self).physics_flags
            } else {
                flags_set_braking(
                    old(self).physics_flags,
                    brake_applies(c, old(self).physics_flags.airborne, old(self).physics_flags.braking),
                )
            }),
            *final(self) == (Katamari {
                physics_flags: final(self).physics_flags,
                brake_push_dir: final(self).brake_push_dir,
                brake_vfx_timer: final(self).brake_vfx_timer,
                ..*old(self)
            }),
            r.started ==> r.vfx == (if old(oujistate).wheel_spin { None } else { Some(brake_vfx_of(c.kind)) })
                && r.sound == c.push_dir && final(self).brake_push_dir == c.push_dir
                && final(self).brake_vfx_timer == 0,
            r.state == BrakeState::PushBrake && !r.started ==> r.sound is None && (if old(self).brake_vfx_timer - 1 < 1 {
                final(self).brake_vfx_timer == c.vfx_cooldown && r.vfx == Some(brake_vfx_of(c.kind))
            } else {
                final(self).brake_vfx_timer == old(self).brake_vfx_timer - 1 && r.vfx is None
            }) && final(self).brake_push_dir == old(self).brake_push_dir,
            r.state != BrakeState::PushBrake ==> r.vfx is None && r.sound is None
                && final(self).brake_vfx_timer == old(self).brake_vfx_timer
                && final(self).brake_push_dir == old(self).brake_push_dir,
            r.state == BrakeState::PushNoBrake ==> *final(oujistate) == (OujiState { dash: false, ..*old(oujistate) }),
            r.state != BrakeState::PushNoBrake ==> *final(oujistate) == *old(oujistate),
    {
        let (e, braking, dir, timer) = self.brake_decision(oujistate.wheel_spin, c);
        if !c.camera_shoot {
            self.physics_flags = flags_with_braking(self.physics_flags, braking);
        }
        self.brake_push_dir = dir;
        self.brake_vfx_timer = timer;
        match e.state {
            BrakeState::PushNoBrake => {
                oujistate.dash = false;
            },
            _ => {},
        }
        e
    }

    /// The brake decision without its effects on the state: the effects, the new
    /// braking flag, the brake's push direction and the effect timer.
    fn brake_decision(&self, wheel_spin: bool, c: BrakeContext) -> (r: (BrakeEffects, bool, Option<PushDir>, i16))
        requires
            brake_applies(c, self.physics_flags.airborne, self.physics_flags.braking)
                && !self.physics_flags.braking ==> c.push_dir is Some,
            brake_applies(c, self.physics_flags.airborne, self.physics_flags.braking)
                && self.physics_flags.braking ==> self.brake_vfx_timer > i16::MIN,
        ensures
            r.0.state == brake_state_of(c, self.physics_flags.airborne, self.physics_flags.braking),
            r.0.started == (brake_applies(c, self.physics_flags.airborne, self.physics_flags.braking)
                && !self.physics_flags.braking),
            r.1 == brake_applies(c, self.physics_flags.airborne, self.physics_flags.braking),
            r.0.started ==> r.0.vfx == (if wheel_spin { None } else { Some(brake_vfx_of(c.kind)) })
                && r.0.sound == c.push_dir && r.2 == c.push_dir && r.3 == 0,
            r.0.state == BrakeState::PushBrake && !r.0.started ==> r.0.sound is None && (if self.brake_vfx_timer - 1 < 1 {
                r.3 == c.vfx_cooldown && r.0.vfx == Some(brake_vfx_of(c.kind))
            } else {
                r.3 == self.brake_vfx_timer - 1 && r.0.vfx is None
            }) && r.2 == self.brake_push_dir,
            r.0.state != BrakeState::PushBrake ==> r.0.vfx is None && r.0.sound is None
                && r.3 == self.brake_vfx_timer && r.2 == self.brake_push_dir,
    {
        let braking = self.physics_flags.braking;
        let keep = (self.brake_push_dir, self.brake_vfx_timer);
        let none = BrakeEffects { state: BrakeState::NoPush, started: false, vfx: None, sound: None };
        if c.camera_shoot {
            return (BrakeEffects { state: BrakeState::Shoot, started: false, vfx: None, sound: None }, false, keep.0, keep.1);
        }
        if !c.pushing || self.physics_flags.airborne {
            return (none, false, keep.0, keep.1);
        }
        if !c.against_velocity {
            return (BrakeEffects { state: BrakeState::PushNoBrake, started: false, vfx: None, sound: None }, false, keep.0, keep.1);
        }
        if !(braking || c.fast_enough) || !c.past_min_angle {
            return (none, false, keep.0, keep.1);
        }
        let kind_vfx = brake_vfx(c.kind);
        if !braking {
            let vfx = if wheel_spin { None } else { Some(kind_vfx) };
            (BrakeEffects { state: BrakeState::PushBrake, started: true, vfx: vfx, sound: c.push_dir }, true, c.push_dir, 0)
        } else {
            let t: i16 = self.brake_vfx_timer - 1;
            if t < 1 {
                (BrakeEffects { state: BrakeState::PushBrake, started: false, vfx: Some(kind_vfx), sound: None }, true, keep.0, c.vfx_cooldown as i16)
            } else {
                (BrakeEffects { state: BrakeState::PushBrake, started: false, vfx: None, sound: None }, true, keep.0, t)
            }
        }
    }

    /// The pure part of a climb check: whether the katamari may climb, and whether
    /// the check reaches the start of a new climb.
    fn climb_check(&self, c: ClimbContext) -> (r: (bool, bool))
        ensures
            r.0 == can_climb(*self, c),
            r.1 == climb_reaches_start(*self, c),
    {
        let free_prop = self.num_wall_contacts == 1 && self.num_floor_contacts == 0
            && c.contact_prop_climbable;
        let wall_climb_free = free_prop || self.hit_flags.wall_climb_free;
        let mut check_multiple_walls = true;
        if !free_prop {
            if self.hit_flags.wall_climb_disabled {
                return (false, false);
            }
            if self.physics_flags.hit_shell_ray.is_some() {
                return (false, false);
            }
            if self.hit_flags.small_ledge_climb {
                check_multiple_walls = false;
            } else if !wall_climb_free {
                if self.wallclimb_cooldown_timer > 0 {
                    return (false, false);
                }
                if self.last_physics_flags.airborne {
                    return (false, false);
                }
                if self.physics_flags.airborne {
                    return (false, false);
                }
                match self.physics_flags.incline_move_type {
                    KatInclineMoveType::Flatground => {},
                    _ => {
                        return (false, false);
                    },
                }
            }
        }
        if check_multiple_walls && self.num_wall_contacts > 1 {
            return (false, false);
        }
        if !self.physics_flags.contacts_wall && !self.physics_flags.climbing {
            return (false, false);
        }
        if !c.wall_angle_ok || !c.has_wallclimb_input {
            return (false, false);
        }
        let start = !self.physics_flags.climbing;
        if start && !wall_climb_free && c.too_fast_to_start {
            return (false, start);
        }
        (c.push_similar_to_wall, start)
    }

    /// Decides whether the katamari may climb the wall it touches (see `can_climb`).
    /// A climbable prop marks the climb as free. A check that reaches the start of a
    /// new climb clears the maximum-height flag.
    pub fn can_climb_wall_contact(&mut self, c: ClimbContext) -> (r: bool)
        ensures
            r == can_climb(*old(self), c),
            final(self).hit_flags == (if climb_prop_free(old(self).num_wall_contacts, old(self).num_floor_contacts, c) {
                hit_flags_set_climb_free(old(self).hit_flags)
            } else {
                old(self).hit_flags
            }),
            final(self).physics_flags == (if climb_reaches_start(*old(self), c) {
                flags_clear_max_climb_height(old(self).physics_flags)
            } else {
                old(self).physics_flags
            }),
            final(self).num_wall_contacts == old(self).num_wall_contacts,
            final(self).num_floor_contacts == old(self).num_floor_contacts,
            final(self).wallclimb_cooldown_timer == old(self).wallclimb_cooldown_timer,
            *final(self) == (Katamari {
                hit_flags: final(self).hit_flags,
                physics_flags: final(self).physics_flags,
                ..*old(self)
            }),
    {
        let (ok, start) = self.climb_check(c);
        let free_prop = self.num_wall_contacts == 1 && self.num_floor_contacts == 0
            && c.contact_prop_climbable;
        if free_prop {
            self.hit_flags = hit_flags_with_climb_free(self.hit_flags);
        }
        if start {
            self.physics_flags = flags_with_max_climb_height_cleared(self.physics_flags);
        }
        ok
    }

    /// A lone floor contact made by the top shell ray, with no wall, is no floor
    /// contact; returns whether it was dropped.
    pub fn drop_top_shell_floor_contact(&mut self) -> (dropped: bool)
        ensures
            dropped == (old(self).physics_flags.hit_shell_ray == Some(ShellRay::TopCenter)
                && old(self).physics_flags.contacts_floor && !old(self).physics_flags.contacts_wall
                && old(self).num_floor_contacts == 1),
            final(self).physics_flags == (if dropped {
                flags_drop_floor_contact(old(self).physics_flags)
            } else {
                old(self).physics_flags
            }),
            final(self).num_floor_contacts == old(self).num_floor_contacts,
            *final(self) == (Katamari {
                physics_flags: final(self).physics_flags,
                ..*old(self)
            }),
    {
        let top = match self.physics_flags.hit_shell_ray {
            Some(ShellRay::TopCenter) => true,
            _ => false,
        };
        let dropped = top && self.physics_flags.contacts_floor && !self.physics_flags.contacts_wall
            && self.num_floor_contacts == 1;
        if dropped {
            self.physics_flags = flags_with_floor_contact_dropped(self.physics_flags);
        }
        dropped
    }

    /// Updates the climb and airborne state on a tick without any surface contact.
    /// A climb whose grace counter still runs uses up one tick of it and goes on
    /// (returning true, and changing nothing else, when it is at its maximum height and
    /// `long_push` says the prince pushes nearly fully); otherwise the climb ends,
    /// starting the cooldown if one was under way. Then the katamari pivots on its bottom
    /// ray, the vault ends and the airborne timers run (`is_falling` says whether it falls);
    /// it is airborne unless it was climbing, in which case the timers run once more.
    pub fn update_without_contacts(&mut self, long_push: bool, is_falling: bool) -> (kept: bool)
        requires
            ({
                let k = *old(self);
                let grace = k.physics_flags.climbing && k.is_climbing_0x898 >= 1;
                let kept = grace && k.physics_flags.at_max_climb_height && long_push;
                let extra = if k.physics_flags.climbing { 1int } else { 0int };
                &&& !kept && k.physics_flags.airborne ==> k.airborne_ticks + 1 + extra <= u16::MAX
                &&& !kept && k.physics_flags.airborne && is_falling ==> k.falling_ticks + 1 + extra <= u16::MAX
            }),
        ensures
            ({
                let k = *old(self);
                let was_climbing = k.physics_flags.climbing;
                let grace = was_climbing && k.is_climbing_0x898 >= 1;
                let run = if k.physics_flags.airborne { 1int } else { 0int };
                let extra = if was_climbing { 1int } else { 0int };
                &&& kept == (grace && k.physics_flags.at_max_climb_height && long_push)
                &&& grace ==> final(self).is_climbing_0x898 == k.is_climbing_0x898 - 1
                &&& !grace ==> final(self).is_climbing_0x898 == k.is_climbing_0x898
                &&& kept ==> final(self).physics_flags == k.physics_flags
                    && final(self).vault_ray_idx == k.vault_ray_idx
                    && final(self).airborne_ticks == k.airborne_ticks
                    && final(self).falling_ticks == k.falling_ticks
                    && final(self).wallclimb_ticks == k.wallclimb_ticks
                    && final(self).wallclimb_cooldown_timer == k.wallclimb_cooldown_timer
                    && final(self).wallclimb_max_height_ticks == k.wallclimb_max_height_ticks
                &&& !kept ==> final(self).physics_flags == flags_without_contacts(k.physics_flags, grace)
                    && final(self).vault_ray_idx is None
                    && final(self).airborne_ticks == (if k.physics_flags.airborne { k.airborne_ticks + 1 } else { 0int }) + extra
                    && final(self).falling_ticks == (if k.physics_flags.airborne { k.falling_ticks as int } else { 0int }) + (if is_falling { run + extra } else { 0int })
                    && final(self).wallclimb_ticks == (if was_climbing && !grace { 0 } else { k.wallclimb_ticks })
                    && final(self).wallclimb_cooldown_timer == (if was_climbing && !grace { 10 } else { k.wallclimb_cooldown_timer })
                    && final(self).wallclimb_max_height_ticks == (if grace { k.wallclimb_max_height_ticks } else { 0 })
            }),
            *final(self) == (Katamari {
                is_climbing_0x898: final(self).is_climbing_0x898,
                wallclimb_ticks: final(self).wallclimb_ticks,
                wallclimb_cooldown_timer: final(self).wallclimb_cooldown_timer,
                wallclimb_max_height_ticks: final(self).wallclimb_max_height_ticks,
                airborne_ticks: final(self).airborne_ticks,
                falling_ticks: final(self).falling_ticks,
                vault_ray_idx: final(self).vault_ray_idx,
                physics_flags: final(self).physics_flags,
                ..*old(self)
            }),
    {
        let was_climbing = self.physics_flags.climbing;
        let grace = was_climbing && self.is_climbing_0x898 >= 1;
        if grace {
            self.is_climbing_0x898 = self.is_climbing_0x898 - 1;
            if self.physics_flags.at_max_climb_height && long_push {
                return true;
            }
        }
        let wallclimb_ticks: u16 = if was_climbing && !grace { 0 } else { self.wallclimb_ticks };
        let cooldown: u16 = if was_climbing && !grace { 10 } else { self.wallclimb_cooldown_timer };
        let max_height_ticks: u16 = if grace { self.wallclimb_max_height_ticks } else { 0 };
        let was_airborne = self.physics_flags.airborne;
        let base_airborne: u16 = if was_airborne { self.airborne_ticks + 1 } else { 0 };
        let base_falling: u16 = if !was_airborne {
            0
        } else if is_falling {
            self.falling_ticks + 1
        } else {
            self.falling_ticks
        };
        let airborne_ticks: u16 = if was_climbing { base_airborne + 1 } else { base_airborne };
        let falling_ticks: u16 = if was_climbing && is_falling { base_falling + 1 } else { base_falling };
        self.wallclimb_ticks = wallclimb_ticks;
        self.wallclimb_cooldown_timer = cooldown;
        self.wallclimb_max_height_ticks = max_height_ticks;
        self.airborne_ticks = airborne_ticks;
        self.falling_ticks = falling_ticks;
        self.vault_ray_idx = None;
        self.physics_flags = flags_with_no_contacts(self.physics_flags, grace);
        false
    }

    fn incline_type_value(&self, c: InclineContext) -> (r: KatInclineMoveType)
        ensures
            r == incline_type_on_slope(self.physics_flags.immobile, self.physics_flags.contacts_wall, c),
    {
        if !self.physics_flags.immobile && c.moving_laterally {
            if self.physics_flags.contacts_wall {
                KatInclineMoveType::Flatground
            } else if c.against_slope {
                KatInclineMoveType::Uphill
            } else if c.not_with_slope {
                KatInclineMoveType::Flatground
            } else {
                KatInclineMoveType::Downhill
            }
        } else {
            KatInclineMoveType::Downhill
        }
    }

    /// Updates the incline movement (see `incline_outcome`). On a steep floor the
    /// katamari moves uphill or downhill, counting the ticks of that movement and
    /// restarting the other count; starting downhill from rest makes it mobile with ten
    /// ticks of downhill movement already counted. Every other grounded or airborne case
    /// ends the incline movement: both counts restart and the type is flat ground.
    pub fn update_incline(&mut self, c: InclineContext) -> (r: InclineOutcome)
        requires
            incline_outcome(*old(self), c) == InclineOutcome::Uphill ==> old(self).move_uphill_ticks < u16::MAX,
            incline_outcome(*old(self), c) == InclineOutcome::Downhill && !old(self).physics_flags.immobile
                && c.moving_laterally ==> old(self).move_downhill_ticks < u16::MAX,
        ensures
            r == incline_outcome(*old(self), c),
            r == InclineOutcome::NoGravity ==> final(self).physics_flags == old(self).physics_flags
                && final(self).move_uphill_ticks == old(self).move_uphill_ticks
                && final(self).move_downhill_ticks == old(self).move_downhill_ticks,
            r == InclineOutcome::Climbing ==> final(self).physics_flags == old(self).physics_flags
                && final(self).move_uphill_ticks == 0 && final(self).move_downhill_ticks == 0,
            r == InclineOutcome::Airborne || r == InclineOutcome::Ended ==> final(self).physics_flags
                == flags_set_incline(old(self).physics_flags, KatInclineMoveType::Flatground, old(self).physics_flags.immobile)
                && final(self).move_uphill_ticks == 0 && final(self).move_downhill_ticks == 0,
            r == InclineOutcome::Uphill ==> final(self).physics_flags
                == flags_set_incline(old(self).physics_flags, KatInclineMoveType::Uphill, old(self).physics_flags.immobile)
                && final(self).move_uphill_ticks == old(self).move_uphill_ticks + 1 && final(self).move_downhill_ticks == 0,
            r == InclineOutcome::Downhill ==> final(self).physics_flags
                == flags_set_incline(old(self).physics_flags, KatInclineMoveType::Downhill, false)
                && final(self).move_uphill_ticks == 0 && final(self).move_downhill_ticks == (if !old(
                self).physics_flags.immobile && c.moving_laterally {
                old(self).move_downhill_ticks + 1
            } else {
                11
            }),
            *final(self) == (Katamari {
                move_uphill_ticks: final(self).move_uphill_ticks,
                move_downhill_ticks: final(self).move_downhill_ticks,
                physics_flags: final(self).physics_flags,
                ..*old(self)
            }),
    {
        if c.ending_mode {
            return InclineOutcome::NoGravity;
        }
        if self.physics_flags.climbing {
            self.move_downhill_ticks = 0;
            self.move_uphill_ticks = 0;
            return InclineOutcome::Climbing;
        }
        let immobile = self.physics_flags.immobile;
        if self.physics_flags.airborne {
            self.move_downhill_ticks = 0;
            self.move_uphill_ticks = 0;
            self.physics_flags = flags_with_incline(self.physics_flags, KatInclineMoveType::Flatground, immobile);
            return InclineOutcome::Airborne;
        }
        if self.hit_flags.force_flatground || !c.steep_floor {
            self.move_downhill_ticks = 0;
            self.move_uphill_ticks = 0;
            self.physics_flags = flags_with_incline(self.physics_flags, KatInclineMoveType::Flatground, immobile);
            return InclineOutcome::Ended;
        }
        let t = self.incline_type_value(c);
        match t {
            KatInclineMoveType::Uphill => {
                let up: u16 = self.move_uphill_ticks + 1;
                self.move_uphill_ticks = up;
                self.move_downhill_ticks = 0;
                self.physics_flags = flags_with_incline(self.physics_flags, KatInclineMoveType::Uphill, immobile);
                InclineOutcome::Uphill
            },
            KatInclineMoveType::Downhill => {
                let from_rest = immobile || !c.moving_laterally;
                let down: u16 = if from_rest { 11 } else { self.move_downhill_ticks + 1 };
                self.move_downhill_ticks = down;
                self.move_uphill_ticks = 0;
                self.physics_flags = flags_with_incline(self.physics_flags, KatInclineMoveType::Downhill, false);
                InclineOutcome::Downhill
            },
            KatInclineMoveType::Flatground => {
                self.move_downhill_ticks = 0;
                self.move_uphill_ticks = 0;
                self.physics_flags = flags_with_incline(self.physics_flags, KatInclineMoveType::Flatground, immobile);
                InclineOutcome::Ended
            },
        }
    }

    /// Keeps a wall climb going: the climb's grace counter is set unless it is at its
    /// maximum height, the climb cooldown is over, the katamari climbs on its bottom ray
    /// and no floor or vault ray is in use. Returns whether a new climb starts (the
    /// caller then records the climb's starting height and radius).
    pub fn maintain_wallclimb(&mut self) -> (started: bool)
        ensures
            started == !old(self).physics_flags.climbing,
            final(self).is_climbing_0x898 == (if old(self).physics_flags.at_max_climb_height {
                old(self).is_climbing_0x898
            } else {
                1
            }),
            final(self).wallclimb_cooldown_timer == 0,
            final(self).physics_flags == flags_keep_climbing(old(self).physics_flags),
            final(self).vault_ray_idx is None,
            final(self).fc_ray_idx is None,
            *final(self) == (Katamari {
                is_climbing_0x898: final(self).is_climbing_0x898,
                wallclimb_cooldown_timer: final(self).wallclimb_cooldown_timer,
                physics_flags: final(self).physics_flags,
                vault_ray_idx: final(self).vault_ray_idx,
                fc_ray_idx: final(self).fc_ray_idx,
                ..*old(self)
            }),
    {
        if !self.physics_flags.at_max_climb_height {
            self.is_climbing_0x898 = 1;
        }
        self.wallclimb_cooldown_timer = 0;
        let started = !self.physics_flags.climbing;
        self.physics_flags = flags_with_climbing_kept(self.physics_flags);
        self.vault_ray_idx = None;
        self.fc_ray_idx = None;
        started
    }

    /// Recomputes the flags that the contacted surfaces give: the hit flags start over
    /// (with the semi-translucent map flags when `semi_translucent`) and take the
    /// attributes of every contacted floor, then of every wall; the katamari is on a
    /// sloped floor, and on a flat floor, when some contacted floor is of that kind.
    pub fn process_surface_contact_flags(
        &mut self,
        semi_translucent: bool,
        floors: &Vec<(HitAttribute, bool)>,
        walls: &Vec<HitAttribute>,
    )
        ensures
            final(self).hit_flags == hit_flags_after_attrs(
                initial_contact_hit_flags(semi_translucent),
                contact_attrs(floors@, walls@),
            ),
            final(self).physics_flags == flags_set_floor_kinds(
                old(self).physics_flags,
                exists|i: int| 0 <= i < floors.len() && (#[trigger] floors@[i]).1,
                exists|i: int| 0 <= i < floors.len() && !(#[trigger] floors@[i]).1,
            ),
            *final(self) == (Katamari {
                hit_flags: final(self).hit_flags,
                physics_flags: final(self).physics_flags,
                ..*old(self)
            }),
    {
        let mut h = KatHitFlags::default();
        if semi_translucent {
            h.map_semi_translucent = true;
            h.special_camera = true;
        }
        let ghost start = h;
        let mut floor_attrs: Vec<HitAttribute> = Vec::new();
        let mut sloped = false;
        let mut flat = false;
        let mut i: usize = 0;
        while i < floors.len()
            invariant
                i <= floors.len(),
                floor_attrs@ == floors@.take(i as int).map_values(|f: (HitAttribute, bool)| f.0),
                sloped == exists|j: int| 0 <= j < i && (#[trigger] floors@[j]).1,
                flat == exists|j: int| 0 <= j < i && !(#[trigger] floors@[j]).1,
            decreases floors.len() - i,
        {
            let f = floors[i];
            floor_attrs.push(f.0);
            if f.1 {
                sloped = true;
            } else {
                flat = true;
            }
            i = i + 1;
            proof {
                assert(floor_attrs@ =~= floors@.take(i as int).map_values(|f: (HitAttribute, bool)| f.0));
            }
        }
        proof {
            assert(floors@.take(floors.len() as int) =~= floors@);
        }
        apply_attrs(&mut h, &floor_attrs);
        apply_attrs(&mut h, walls);
        proof {
            lemma_hit_flags_after_concat(start, floor_attrs@, walls@);
        }
        self.hit_flags = h;
        self.physics_flags = flags_with_floor_kinds(self.physics_flags, sloped, flat);
    }

    /// Starts a katamari update: the climb cooldown ticks down, this tick's flags become
    /// the previous tick's, the katamari spins as the prince does, and the spin tick
    /// counter runs while the prince spins or just started to (otherwise it restarts).
    /// Returns whether the katamari spins.
    pub fn begin_update(&mut self, oujistate: &OujiState) -> (spinning: bool)
        requires
            (oujistate.wheel_spin || oujistate.dash_start) ==> old(self).spin_ticks < u32::MAX,
        ensures
            spinning == (oujistate.wheel_spin || oujistate.dash_start),
            final(self).wallclimb_cooldown_timer == (if old(self).wallclimb_cooldown_timer > 0 {
                old(self).wallclimb_cooldown_timer - 1
            } else {
                0
            }),
            final(self).last_physics_flags == old(self).physics_flags,
            final(self).older_hit_flags == old(self).last_hit_flags,
            final(self).last_hit_flags == old(self).hit_flags,
            final(self).physics_flags == flags_set_wheel_spin(old(self).physics_flags, oujistate.wheel_spin),
            final(self).spin_ticks == (if spinning { old(self).spin_ticks + 1 } else { 0 }),
            final(self).hit_flags == old(self).hit_flags,
            *final(self) == (Katamari {
                wallclimb_cooldown_timer: final(self).wallclimb_cooldown_timer,
                last_physics_flags: final(self).last_physics_flags,
                older_hit_flags: final(self).older_hit_flags,
                last_hit_flags: final(self).last_hit_flags,
                spin_ticks: final(self).spin_ticks,
                physics_flags: final(self).physics_flags,
                ..*old(self)
            }),
    {
        let cooldown: u16 = if self.wallclimb_cooldown_timer > 0 { self.wallclimb_cooldown_timer - 1 } else { 0 };
        let spinning = oujistate.wheel_spin || oujistate.dash_start;
        let spin_ticks: u32 = if spinning { self.spin_ticks + 1 } else { 0 };
        self.wallclimb_cooldown_timer = cooldown;
        self.last_physics_flags = self.physics_flags;
        self.older_hit_flags = self.last_hit_flags;
        self.last_hit_flags = self.hit_flags;
        self.spin_ticks = spin_ticks;
        self.physics_flags = flags_with_wheel_spin(self.physics_flags, oujistate.wheel_spin);
        spinning
    }

    /// The type of the collision ray with index `ray_idx` (see `ray_type_of`).
    pub fn ray_type_by_idx(&self, ray_idx: u16) -> (r: Option<KatCollisionRayType>)
        ensures
            r == ray_type_of(*self, ray_idx),
    {
        if (ray_idx as usize) >= self.num_collision_rays {
            None
        } else if ray_idx == 0 {
            Some(KatCollisionRayType::Bottom)
        } else if ray_idx < self.first_prop_ray_index {
            Some(KatCollisionRayType::Mesh)
        } else {
            Some(KatCollisionRayType::Prop)
        }
    }

    /// The katamari pivots on its bottom ray: no vault and no primary floor ray.
    pub fn set_bottom_ray_contact(&mut self)
        ensures
            final(self).physics_flags == flags_set_grounded_ray(old(self).physics_flags, GroundedRay::Bottom),
            final(self).vault_ray_idx is None,
            final(self).fc_ray_idx is None,
            final(self).vault_ticks == 0,
            *final(self) == (Katamari {
                physics_flags: final(self).physics_flags,
                vault_ray_idx: final(self).vault_ray_idx,
                fc_ray_idx: final(self).fc_ray_idx,
                vault_ticks: final(self).vault_ticks,
                ..*old(self)
            }),
    {
        self.physics_flags = flags_with_grounded_ray(self.physics_flags, GroundedRay::Bottom);
        self.vault_ray_idx = None;
        self.fc_ray_idx = None;
        self.vault_ticks = 0;
    }

    /// Sets the grounded ray after a vault check with result `r` (see
    /// `grounded_ray_after_vault`): without a vault the katamari pivots on its bottom ray;
    /// a new vault restarts the vault tick count.
    pub fn update_grounded_ray_after_vault(&mut self, r: TryInitVaultResult)
        requires
            r != TryInitVaultResult::NoVault && old(self).vault_ray_idx is Some ==> ray_type_of(
                *old(self),
                old(self).vault_ray_idx->0,
            ) is Some,
            r == TryInitVaultResult::InitVault ==> old(self).vault_ray_idx is Some,
        ensures
            final(self).physics_flags == flags_set_grounded_ray(
                old(self).physics_flags,
                grounded_ray_after_vault(*old(self), r),
            ),
            r == TryInitVaultResult::NoVault ==> final(self).vault_ray_idx is None && final(self).fc_ray_idx is None
                && final(self).vault_ticks == 0,
            r == TryInitVaultResult::InitVault ==> final(self).vault_ray_idx == old(self).vault_ray_idx
                && final(self).fc_ray_idx == old(self).fc_ray_idx && final(self).vault_ticks == 0,
            r == TryInitVaultResult::OldVault ==> final(self).vault_ray_idx == old(self).vault_ray_idx
                && final(self).fc_ray_idx == old(self).fc_ray_idx && final(self).vault_ticks == old(self).vault_ticks,
            *final(self) == (Katamari {
                physics_flags: final(self).physics_flags,
                vault_ray_idx: final(self).vault_ray_idx,
                fc_ray_idx: final(self).fc_ray_idx,
                vault_ticks: final(self).vault_ticks,
                ..*old(self)
            }),
    {
        let g = match r {
            TryInitVaultResult::NoVault => GroundedRay::Bottom,
            _ => match self.vault_ray_idx {
                Some(idx) => {
                    let t = self.ray_type_by_idx(idx);
                    GroundedRay::from_opt_ray_type(t)
                },
                None => self.physics_flags.grounded_ray_type,
            },
        };
        let g2 = if self.physics_flags.climbing { GroundedRay::Bottom } else { g };
        let (vault, fc, ticks) = match r {
            TryInitVaultResult::NoVault => (None, None, 0u32),
            TryInitVaultResult::InitVault => (self.vault_ray_idx, self.fc_ray_idx, 0u32),
            TryInitVaultResult::OldVault => (self.vault_ray_idx, self.fc_ray_idx, self.vault_ticks),
        };
        self.vault_ray_idx = vault;
        self.fc_ray_idx = fc;
        self.vault_ticks = ticks;
        self.physics_flags = flags_with_grounded_ray(self.physics_flags, g2);
    }

    /// Records the katamari's direction of movement relative to the camera (see
    /// `cam_relative_dir_of`); `backwards`, `forwards` and `right` are the caller's
    /// comparisons of its lateral velocity with the camera's directions.
    pub fn update_cam_relative_dir(&mut self, backwards: bool, forwards: bool, right: bool)
        ensures
            final(self).cam_relative_dir == cam_relative_dir_of(old(self).physics_flags.immobile, backwards, forwards, right),
            final(self).physics_flags == old(self).physics_flags,
            *final(self) == (Katamari {
                cam_relative_dir: final(self).cam_relative_dir,
                ..*old(self)
            }),
    {
        let d = if self.physics_flags.immobile {
            None
        } else if backwards {
            Some(CamRelativeDir::Backwards)
        } else if forwards {
            Some(CamRelativeDir::Forwards)
        } else if right {
            Some(CamRelativeDir::Right)
        } else {
            Some(CamRelativeDir::Left)
        };
        self.cam_relative_dir = d;
    }

    /// Stops the katamari: it becomes immobile and may climb again at once. (The caller
    /// clears its speed and velocities.)
    pub fn set_immobile(&mut self)
        ensures
            final(self).physics_flags == flags_set_immobile(old(self).physics_flags),
            final(self).wallclimb_cooldown_timer == 0,
            final(self).airborne_ticks == old(self).airborne_ticks,
            final(self).vault_ray_idx == old(self).vault_ray_idx,
            *final(self) == (Katamari {
                physics_flags: final(self).physics_flags,
                wallclimb_cooldown_timer: final(self).wallclimb_cooldown_timer,
                ..*old(self)
            }),
    {
        self.physics_flags = flags_with_immobile(self.physics_flags);
        self.wallclimb_cooldown_timer = 0;
    }

    /// The discrete part of a royal warp: the katamari stops, its vault ends and its
    /// airborne and falling timers restart. (The caller moves it and resets its rays.)
    pub fn update_royal_warp(&mut self)
        ensures
            final(self).physics_flags == flags_set_immobile(old(self).physics_flags),
            final(self).wallclimb_cooldown_timer == 0,
            final(self).vault_ray_idx is None,
            final(self).airborne_ticks == 0,
            final(self).falling_ticks == 0,
            *final(self) == (Katamari {
                physics_flags: final(self).physics_flags,
                wallclimb_cooldown_timer: final(self).wallclimb_cooldown_timer,
                vault_ray_idx: final(self).vault_ray_idx,
                airborne_ticks: final(self).airborne_ticks,
                falling_ticks: final(self).falling_ticks,
                ..*old(self)
            }),
    {
        self.vault_ray_idx = None;
        self.set_immobile();
        self.airborne_ticks = 0;
        self.falling_ticks = 0;
    }

    pub fn is_in_water(&self) -> (r: bool)
        ensures
            r == self.physics_flags.in_water,
    {
        self.physics_flags.in_water
    }

    pub fn get_brake_push_dir(&self) -> (r: Option<PushDir>)
        ensures
            r == self.brake_push_dir,
    {
        self.brake_push_dir
    }

    pub fn get_cam_relative_dir(&self) -> (r: Option<CamRelativeDir>)
        ensures
            r == self.cam_relative_dir,
    {
        self.cam_relative_dir
    }

    /// Updates the boost effect and the speed display at the start of a velocity
    /// update (see `boost_effect_after` and `sw_speed_disp_after`): a prince that starts
    /// to boost starts the effect and the speed display. Nothing changes in the versus
    /// state 2. Returns whether a boost starts (the caller then aims the katamari's
    /// velocity away from the prince).
    pub fn update_boost_effect(&mut self, oujistate: &mut OujiState, p: BoostEffectParams, is_vs_mode: bool) -> (started: bool)
        requires
            old(self).physics_flags.vs_mode_state != 2 && (old(oujistate).dash || old(oujistate).dash_start) ==> ({
                let (s1, t1) = boost_effect_started(*old(self), old(oujistate).dash_start);
                boost_effect_step_defined(s1, t1, old(self).physics_flags.in_water)
            }),
        ensures
            old(self).physics_flags.vs_mode_state == 2 ==> !started && *final(self) == *old(self)
                && *final(oujistate) == *old(oujistate),
            old(self).physics_flags.vs_mode_state != 2 ==> ({
                let (s, t, shown) = boost_effect_after(*old(self), *old(oujistate), p);
                let (sw, disp) = sw_speed_disp_after(*old(self), *old(oujistate), is_vs_mode);
                &&& started == old(oujistate).dash_start
                &&& *final(self) == (Katamari {
                    boost_effect_state: s,
                    boost_effect_timer: t,
                    sw_speed_disp_timer: sw,
                    ..*old(self)
                })
                &&& *final(oujistate) == (OujiState { dash_effect: shown, sw_speed_disp: disp, ..*old(oujistate) })
            }),
    {
        if self.physics_flags.vs_mode_state == 2 {
            return false;
        }
        let o = *oujistate;
        let (s1, t1) = if o.dash_start {
            (Some(KatBoostEffectState::Build), 0u16)
        } else {
            (self.boost_effect_state, self.boost_effect_timer)
        };
        let (s2, t2, shown) = if o.dash || o.dash_start {
            boost_effect_step_value(s1, t1, self.physics_flags.in_water, self.physics_flags.braking, o.wheel_spin, p)
        } else {
            (s1, t1, false)
        };
        let sw1: u16 = if o.dash_start { SW_SPEED_DISP_DURATION } else { self.sw_speed_disp_timer };
        let (sw2, disp) = sw_speed_disp_value(sw1, o.dash, o.wheel_spin, is_vs_mode, o.sw_speed_disp);
        self.boost_effect_state = s2;
        self.boost_effect_timer = t2;
        self.sw_speed_disp_timer = sw2;
        *oujistate = OujiState { dash_effect: shown, sw_speed_disp: disp, ..o };
        o.dash_start
    }

    /// Shares the katamari's state with the prince: the camera mode, climbing, water
    /// contact, submersion and versus attack.
    pub fn share_state_with_prince(&self, oujistate: &mut OujiState, camera_mode: CameraMode)
        ensures
            *final(oujistate) == (OujiState {
                camera_mode: camera_mode_code(camera_mode),
                climb_wall: self.physics_flags.climbing,
                hit_water: self.physics_flags.in_water,
                submerge: self.physics_flags.under_water,
                vs_attack: self.physics_flags.vs_attack,
                ..*old(oujistate)
            }),
    {
        let o = *oujistate;
        *oujistate = OujiState {
            camera_mode: camera_mode.to_u8(),
            climb_wall: self.physics_flags.climbing,
            hit_water: self.physics_flags.in_water,
            submerge: self.physics_flags.under_water,
            vs_attack: self.physics_flags.vs_attack,
            ..o
        };
    }

    /// After the brake check: while not braking the katamari remembers the prince's push
    /// direction, and the prince's shared brake flag follows the katamari's.
    pub fn record_push_after_brake(&mut self, oujistate: &mut OujiState, push_dir: Option<PushDir>)
        ensures
            *final(self) == (Katamari {
                input_push_dir: if old(self).physics_flags.braking { old(self).input_push_dir } else { push_dir },
                ..*old(self)
            }),
            *final(oujistate) == (OujiState { brake: old(self).physics_flags.braking, ..*old(oujistate) }),
    {
        if !self.physics_flags.braking {
            self.input_push_dir = push_dir;
        }
        oujistate.brake = self.physics_flags.braking;
    }

    /// Records which shell ray hit (when `ray` names one; otherwise the previously hit
    /// shell ray stays) and returns the ray index by which the contact is recorded.
    pub fn mark_shell_hit(&mut self, ray: Option<ShellRay>) -> (ray_idx: i16)
        ensures
            *final(self) == (Katamari {
                physics_flags: if ray is Some {
                    flags_set_shell_ray(old(self).physics_flags, ray)
                } else {
                    old(self).physics_flags
                },
                ..*old(self)
            }),
            ray is Some ==> ray_idx == shell_contact_ray_idx(ray),
            ray is None ==> ray_idx == shell_contact_ray_idx(old(self).physics_flags.hit_shell_ray),
    {
        let current = match ray {
            Some(_) => ray,
            None => self.physics_flags.hit_shell_ray,
        };
        if ray.is_some() {
            self.physics_flags = flags_with_shell_ray(self.physics_flags, ray);
        }
        match current {
            Some(r) => {
                let idx: u8 = r.index();
                -(idx as i16)
            },
            None => 0,
        }
    }

    /// Starts the vault and climb update: no fast ground hit yet this tick and, when
    /// the katamari touches some surface, the unidentified flag 0x20 is off. Returns
    /// whether it touches a surface.
    pub fn begin_vault_and_climb(&mut self) -> (has_contacts: bool)
        requires
            old(self).num_wall_contacts + old(self).num_floor_contacts <= u8::MAX,
        ensures
            has_contacts == (old(self).num_wall_contacts + old(self).num_floor_contacts != 0),
            *final(self) == (Katamari {
                physics_flags: flags_begin_vault_and_climb(old(self).physics_flags, has_contacts),
                ..*old(self)
            }),
    {
        let has_contacts = self.num_wall_contacts + self.num_floor_contacts != 0;
        self.physics_flags = flags_at_vault_and_climb(self.physics_flags, has_contacts);
        has_contacts
    }

    /// Records this tick's contact counts in the history and decides whether the
    /// katamari is stuck between walls. While stuck, the stuck tick counter runs; past
    /// the detach cooldown it starts over, and props are detached (the returned value)
    /// unless they are being detached already or the katamari can't detach props.
    pub fn resolve_being_stuck(&mut self, c: StuckContacts, detach_cooldown: u8) -> (detach:
        bool)
        requires
            old(self).stuck_ticks < u8::MAX,
        ensures
            ({
                let stuck = stuck_between_walls_now(
                    old(self).hit_flags.small_ledge_climb,
                    old(self).num_wall_contacts,
                    old(self).num_floor_contacts,
                    old(self).stuck_ticks,
                    c,
                );
                &&& final(self).stuck_ticks == stuck_ticks_after(
                    stuck,
                    old(self).stuck_ticks,
                    detach_cooldown,
                )
                &&& detach == stuck_detaches_props(
                    stuck,
                    old(self).stuck_ticks,
                    detach_cooldown,
                    old(self).physics_flags.detaching_props,
                    old(self).can_detach_props,
                )
                &&& final(self).physics_flags == flags_set_stuck(
                    old(self).physics_flags,
                    stuck,
                    old(self).physics_flags.detaching_props || detach,
                )
            }),
            final(self).hit_history@ == history_after_push(
                old(self).hit_history@,
                (old(self).num_wall_contacts, old(self).num_floor_contacts),
            ),
            final(self).num_wall_contacts == old(self).num_wall_contacts,
            final(self).num_floor_contacts == old(self).num_floor_contacts,
            *final(self) == (Katamari {
                hit_history: final(self).hit_history,
                stuck_ticks: final(self).stuck_ticks,
                physics_flags: final(self).physics_flags,
                ..*old(self)
            }),
    {
        self.hit_history.push(self.num_wall_contacts, self.num_floor_contacts);
        let stuck = if self.hit_flags.small_ledge_climb {
            true
        } else if self.num_wall_contacts == 0 {
            false
        } else if self.num_wall_contacts == 1 {
            self.num_floor_contacts != 0 && c.wall_floor_angle_over_threshold && c.moved
        } else if self.num_wall_contacts == 2 {
            c.walls_angle_over_threshold || self.stuck_ticks > 0
        } else {
            true
        };
        let counted: u8 = self.stuck_ticks + 1;
        let past_cooldown = counted > detach_cooldown;
        let stuck_ticks: u8 = if !stuck {
            0
        } else if past_cooldown {
            1
        } else {
            counted
        };
        let detach = stuck && past_cooldown && !self.physics_flags.detaching_props
            && self.can_detach_props;
        let detaching = self.physics_flags.detaching_props || detach;
        self.stuck_ticks = stuck_ticks;
        self.physics_flags = flags_with_stuck(self.physics_flags, stuck, detaching);
        detach
    }
}

/// A vault that starts on a ray continues on the next check of the same ray, whatever
/// that ray's length is then.
pub proof fn law_vault_started_then_continues(fc: Option<u16>, vault: Option<u16>, longer: bool, longer_next: bool)
    requires
        vault_result(fc, vault, longer) == TryInitVaultResult::InitVault,
    ensures
        vault_result(fc, fc, longer_next) == TryInitVaultResult::OldVault,
{
}

/// Without a primary floor ray there is never a vault.
pub proof fn law_no_floor_ray_no_vault(vault: Option<u16>, longer: bool)
    ensures
        vault_result(None, vault, longer) == TryInitVaultResult::NoVault,
{
}

/// With a detach cooldown of at least one tick, the stuck tick counter never passes
/// the cooldown, so it never overflows.
pub proof fn law_stuck_ticks_bounded(stuck: bool, stuck_ticks: u8, cooldown: u8)
    requires
        1 <= cooldown,
        stuck_ticks < u8::MAX,
    ensures
        stuck_ticks_after(stuck, stuck_ticks, cooldown) <= cooldown,
{
}

/// A katamari that is not stuck has no stuck ticks and detaches nothing.
pub proof fn law_not_stuck_resets(stuck_ticks: u8, cooldown: u8, detaching: bool, can_detach: bool)
    ensures
        stuck_ticks_after(false, stuck_ticks, cooldown) == 0,
        !stuck_detaches_props(false, stuck_ticks, cooldown, detaching, can_detach),
{
}

/// Three or more walls, or a small ledge climb, always count as stuck; no wall
/// (and no ledge climb) never does.
pub proof fn law_stuck_by_wall_count(ledge: bool, walls: u8, floors: u8, ticks: u8, c: StuckContacts)
    ensures
        walls >= 3 ==> stuck_between_walls_now(ledge, walls, floors, ticks, c),
        ledge ==> stuck_between_walls_now(ledge, walls, floors, ticks, c),
        walls == 0 && !ledge ==> !stuck_between_walls_now(ledge, walls, floors, ticks, c),
{
}

/// Props are detached at most once per cooldown period: right after a detach the
/// counter starts over at 1, and with a cooldown of at least one tick the next tick
/// cannot detach again.
pub proof fn law_detach_starts_over(stuck_ticks: u8, cooldown: u8, detaching: bool, can_detach: bool, stuck_next: bool)
    requires
        1 <= cooldown,
        stuck_ticks < u8::MAX,
        stuck_detaches_props(true, stuck_ticks, cooldown, detaching, can_detach),
    ensures
        stuck_ticks_after(true, stuck_ticks, cooldown) == 1,
        !stuck_detaches_props(stuck_next, 1, cooldown, false, can_detach) || cooldown == 1,
{
}

/// Ending a climb twice leaves the flags as ending it once.
pub proof fn law_end_climb_idempotent(f: KatPhysicsFlags)
    ensures
        flags_end_climb(flags_end_climb(f)) == flags_end_climb(f),
        !flags_end_climb(f).climbing,
        !flags_end_climb(f).at_max_climb_height,
{
    reveal(flags_end_climb);
}

/// A brake check brakes exactly when it reports `PushBrake`; in the shoot camera mode it
/// never does.
pub proof fn law_brake_state_matches_braking(c: BrakeContext, airborne: bool, braking: bool)
    ensures
        (brake_state_of(c, airborne, braking) == BrakeState::PushBrake) == brake_applies(c, airborne, braking),
        c.camera_shoot ==> brake_state_of(c, airborne, braking) == BrakeState::Shoot,
        airborne && !c.camera_shoot ==> brake_state_of(c, airborne, braking) == BrakeState::NoPush,
{
}

/// A wall climb needs suitable input and a small enough angle, and never happens while
/// climbing is disabled, unless a climbable prop makes it free.
pub proof fn law_climb_requirements(k: Katamari, c: ClimbContext)
    ensures
        !c.has_wallclimb_input ==> !can_climb(k, c),
        !c.wall_angle_ok ==> !can_climb(k, c),
        !climb_prop_free(k.num_wall_contacts, k.num_floor_contacts, c) && k.hit_flags.wall_climb_disabled
            ==> !can_climb(k, c),
        can_climb(k, c) ==> k.physics_flags.contacts_wall || k.physics_flags.climbing,
{
}

/// On a steep floor a katamari at rest always starts moving downhill, and a moving
/// katamari against a wall never moves uphill or downhill.
pub proof fn law_incline_on_steep_floor(k: Katamari, c: InclineContext)
    requires
        !c.ending_mode,
        !k.physics_flags.climbing,
        !k.physics_flags.airborne,
        !k.hit_flags.force_flatground,
        c.steep_floor,
    ensures
        k.physics_flags.immobile || !c.moving_laterally ==> incline_outcome(k, c) == InclineOutcome::Downhill,
        !k.physics_flags.immobile && c.moving_laterally && k.physics_flags.contacts_wall
            ==> incline_outcome(k, c) == InclineOutcome::Ended,
{
}

/// A flat or forced-flat floor never moves the katamari uphill or downhill.
pub proof fn law_no_incline_without_slope(k: Katamari, c: InclineContext)
    requires
        !c.steep_floor || k.hit_flags.force_flatground,
    ensures
        incline_outcome(k, c) != InclineOutcome::Uphill,
        incline_outcome(k, c) != InclineOutcome::Downhill,
{
}

/// The order in which two contacted surfaces are processed does not change the hit flags.
pub proof fn law_contact_order_irrelevant(
    f: KatHitFlags,
    a: Seq<HitAttribute>,
    x: HitAttribute,
    y: HitAttribute,
    b: Seq<HitAttribute>,
)
    ensures
        hit_flags_after_attrs(f, a + seq![x, y] + b) == hit_flags_after_attrs(f, a + seq![y, x] + b),
{
    lemma_hit_flags_after_concat(f, a + seq![x, y], b);
    lemma_hit_flags_after_concat(f, a + seq![y, x], b);
    let g = hit_flags_after_attrs(f, a);
    let s1 = a + seq![x, y];
    let s2 = a + seq![y, x];
    assert(s1.last() == y && s2.last() == x);
    assert(s1.drop_last() =~= a.push(x));
    assert(s2.drop_last() =~= a.push(y));
    assert(a.push(x).drop_last() =~= a);
    assert(a.push(y).drop_last() =~= a);
    assert(hit_flags_after_attrs(f, a.push(x)) == hit_flags_with(g, x));
    assert(hit_flags_after_attrs(f, a.push(y)) == hit_flags_with(g, y));
    assert(hit_flags_after_attrs(f, s1) == hit_flags_with(hit_flags_with(g, x), y));
    assert(hit_flags_after_attrs(f, s2) == hit_flags_with(hit_flags_with(g, y), x));
    law_apply_hit_attr_commutes(g, x, y);
}

/// Contacting more surfaces never clears a hit flag.
pub proof fn law_more_contacts_more_flags(f: KatHitFlags, a: Seq<HitAttribute>, b: Seq<HitAttribute>)
    ensures
        hit_flags_le(hit_flags_after_attrs(f, a), hit_flags_after_attrs(f, a + b)),
    decreases b.len(),
{
    lemma_hit_flags_after_concat(f, a, b);
    if b.len() > 0 {
        law_more_contacts_more_flags(f, a, b.drop_last());
        lemma_hit_flags_after_concat(f, a, b.drop_last());
        let g = hit_flags_after_attrs(hit_flags_after_attrs(f, a), b.drop_last());
        law_apply_hit_attr_monotone(g, b.last());
    } else {
        assert(a + b =~= a);
    }
}

/// The discrete decisions of an impact with a wall or the ground, made from the
/// katamari's flags before the impact's force and direction are computed.
#[derive(Debug, Clone, Copy, PartialEq, Eq, Structural)]
pub struct WallImpact {
    /// The katamari moved fast on a tick where a shell ray hit (flag 0x1d).
    pub fast_collision: bool,
    /// The katamari touches at least one wall.
    pub contacts_wall: bool,
    /// The impact halves the katamari's speed.
    pub should_halve_speed: bool,
    /// The impact may bonk the katamari and knock props off it.
    pub can_bonk_and_lose_props: bool,
    /// The impact counts as a landing: it is no fast collision in the air with no wall
    /// in the first ten falling ticks.
    pub landed_from_fast_fall: bool,
}

/// The impact decisions of a katamari whose fast-shell-hit flag 0x1d is `fast`, which
/// touches `num_wall_contacts` walls and has been falling for `falling_ticks` ticks.
pub open spec fn wall_impact_of(fast: bool, num_wall_contacts: u8, falling_ticks: u16) -> WallImpact {
    let wall = num_wall_contacts > 0;
    WallImpact {
        fast_collision: fast,
        contacts_wall: wall,
        should_halve_speed: fast && wall,
        can_bonk_and_lose_props: !fast || (fast && wall),
        landed_from_fast_fall: !(fast && !wall && falling_ticks < 10),
    }
}

/// Whether an airborne impact is a soft landing, which only stops the vertical motion:
/// the katamari touches a floor, the collision is not fast, and it spins or has been
/// airborne for fewer than five ticks.
pub open spec fn lands_softly_of(f: KatPhysicsFlags, airborne_ticks: u16) -> bool {
    f.contacts_floor && !f.moved_fast_shell_hit_0x1d && (f.wheel_spin || airborne_ticks < 5)
}

/// Whether an airborne impact marks a fast ground hit: it counts as a landing, the
/// katamari touches no wall, is airborne, and has fallen for at least seven ticks (the
/// fall ratio `falling_ticks / 70` reaches `0.1`).
pub open spec fn fast_ground_hit_of(f: KatPhysicsFlags, num_wall_contacts: u8, falling_ticks: u16) -> bool {
    wall_impact_of(f.moved_fast_shell_hit_0x1d, num_wall_contacts, falling_ticks).landed_from_fast_fall
        && !f.contacts_wall && f.airborne && falling_ticks >= 7
}

/// The physics flags `f` with the fast ground hit marked.
#[verifier::opaque]
pub open spec fn flags_set_hit_ground_fast(f: KatPhysicsFlags) -> KatPhysicsFlags {
    KatPhysicsFlags { hit_ground_fast: true, ..f }
}

fn flags_with_hit_ground_fast(f: KatPhysicsFlags) -> (r: KatPhysicsFlags)
    ensures
        r == flags_set_hit_ground_fast(f),
{
    proof {
        reveal(flags_set_hit_ground_fast);
    }
    KatPhysicsFlags { hit_ground_fast: true, ..f }
}

impl Katamari {
    /// The discrete decisions of an impact on this tick.
    pub fn wall_impact(&self) -> (r: WallImpact)
        ensures
            r == wall_impact_of(self.physics_flags.moved_fast_shell_hit_0x1d, self.num_wall_contacts, self.falling_ticks),
    {
        let fast = self.physics_flags.moved_fast_shell_hit_0x1d;
        let wall = self.num_wall_contacts > 0;
        let should_halve_speed = fast && wall;
        WallImpact {
            fast_collision: fast,
            contacts_wall: wall,
            should_halve_speed,
            can_bonk_and_lose_props: !fast || should_halve_speed,
            landed_from_fast_fall: !(fast && !wall && self.falling_ticks < 10),
        }
    }

    /// Whether an airborne impact on this tick is a soft landing.
    pub fn lands_softly(&self) -> (r: bool)
        ensures
            r == lands_softly_of(self.physics_flags, self.airborne_ticks),
    {
        self.physics_flags.contacts_floor && !self.physics_flags.moved_fast_shell_hit_0x1d
            && (self.physics_flags.wheel_spin || self.airborne_ticks < 5)
    }

    /// After an airborne impact that is no soft landing: marks the fast ground hit when
    /// the impact counts as a landing after a long enough fall, and returns whether it
    /// did. Nothing else changes.
    pub fn mark_fast_ground_hit(&mut self) -> (marked: bool)
        ensures
            marked == fast_ground_hit_of(old(self).physics_flags, old(self).num_wall_contacts, old(self).falling_ticks),
            final(self).physics_flags == (if marked {
                flags_set_hit_ground_fast(old(self).physics_flags)
            } else {
                old(self).physics_flags
            }),
            *final(self) == (Katamari { physics_flags: final(self).physics_flags, ..*old(self) }),
    {
        let impact = self.wall_impact();
        let marked = impact.landed_from_fast_fall && !self.physics_flags.contacts_wall
            && self.physics_flags.airborne && self.falling_ticks >= 7;
        if marked {
            self.physics_flags = flags_with_hit_ground_fast(self.physics_flags);
        }
        marked
    }

    /// An impact while touching a floor or a wall ends the air time: both the airborne
    /// and the falling tick counters drop to zero. Returns whether they did.
    pub fn end_air_time_on_contact(&mut self) -> (ended: bool)
        ensures
            ended == (old(self).physics_flags.contacts_floor || old(self).physics_flags.contacts_wall),
            ended ==> final(self).airborne_ticks == 0 && final(self).falling_ticks == 0,
            !ended ==> final(self).airborne_ticks == old(self).airborne_ticks
                && final(self).falling_ticks == old(self).falling_ticks,
            *final(self) == (Katamari {
                airborne_ticks: final(self).airborne_ticks,
                falling_ticks: final(self).falling_ticks,
                ..*old(self)
            }),
    {
        let ended = self.physics_flags.contacts_floor || self.physics_flags.contacts_wall;
        if ended {
            self.airborne_ticks = 0;
            self.falling_ticks = 0;
        }
        ended
    }
}

/// An impact that halves the katamari's speed may also bonk it; an impact that is no
/// fast collision may bonk it and never halves its speed; and a fast collision in the
/// air with no wall in the first ten falling ticks neither bonks it, nor counts as a
/// landing, nor marks a fast ground hit.
pub proof fn law_fast_fall_impact(f: KatPhysicsFlags, num_wall_contacts: u8, falling_ticks: u16)
    ensures
        wall_impact_of(f.moved_fast_shell_hit_0x1d, num_wall_contacts, falling_ticks).should_halve_speed
            ==> wall_impact_of(f.moved_fast_shell_hit_0x1d, num_wall_contacts, falling_ticks).can_bonk_and_lose_props,
        f.moved_fast_shell_hit_0x1d && num_wall_contacts == 0 && falling_ticks < 10 ==> {
            let w = wall_impact_of(f.moved_fast_shell_hit_0x1d, num_wall_contacts, falling_ticks);
            &&& !w.can_bonk_and_lose_props
            &&& !w.landed_from_fast_fall
            &&& !fast_ground_hit_of(f, num_wall_contacts, falling_ticks)
        },
        !f.moved_fast_shell_hit_0x1d ==> wall_impact_of(f.moved_fast_shell_hit_0x1d, num_wall_contacts, falling_ticks).can_bonk_and_lose_props
            && !wall_impact_of(f.moved_fast_shell_hit_0x1d, num_wall_contacts, falling_ticks).should_halve_speed,
{
}

/// Whether the katamari counts as airborne after an impact with contacts: it touches a
/// wall but no floor, and is not climbing.
pub open spec fn airborne_with_contacts(f: KatPhysicsFlags) -> bool {
    !f.contacts_floor && f.contacts_wall && !f.climbing
}

/// The vault ray after a vault check with result `r`.
pub open spec fn vault_ray_after_check(k: Katamari, r: TryInitVaultResult) -> Option<u16> {
    match r {
        TryInitVaultResult::NoVault => None,
        TryInitVaultResult::InitVault => k.fc_ray_idx,
        TryInitVaultResult::OldVault => k.vault_ray_idx,
    }
}

/// The grounded ray after a vault check with result `r`: the bottom ray without a
/// vault or while climbing, else the type of the vaulted ray.
pub open spec fn grounded_ray_with_contacts(k: Katamari, r: TryInitVaultResult) -> GroundedRay {
    if r == TryInitVaultResult::NoVault || k.physics_flags.climbing {
        GroundedRay::Bottom
    } else {
        match vault_ray_after_check(k, r) {
            Some(idx) => grounded_ray_of(ray_type_of(k, idx)->0),
            None => k.physics_flags.grounded_ray_type,
        }
    }
}

/// What the airborne, grounded ray and climb-ending updates of the flags change.
proof fn lemma_flag_updates(f: KatPhysicsFlags, airborne: bool, g: GroundedRay)
    ensures
        flags_set_airborne(f, airborne).airborne == airborne,
        flags_set_airborne(f, airborne).climbing == f.climbing,
        flags_set_airborne(f, airborne).grounded_ray_type == f.grounded_ray_type,
        flags_set_grounded_ray(f, g).airborne == f.airborne,
        flags_set_grounded_ray(f, g).climbing == f.climbing,
        flags_set_grounded_ray(f, g).grounded_ray_type == g,
        flags_end_climb(f).airborne == f.airborne,
        flags_end_climb(f).climbing == false,
        flags_end_climb(f).grounded_ray_type == f.grounded_ray_type,
{
    reveal(flags_set_airborne);
    reveal(flags_set_grounded_ray);
    reveal(flags_end_climb);
}

impl Katamari {
    /// The vault and climb update of a tick with surface contacts, after the impact:
    /// the airborne timers run (the katamari is airborne when it touches a wall but no
    /// floor and does not climb), the primary floor ray is checked for a vault
    /// (`ray_longer_than_radius` says whether it is longer than the radius), the
    /// grounded ray follows the vault, and an airborne katamari ends its wall climb.
    /// `is_falling` says whether the vertical velocity points down.
    pub fn update_vault_with_contacts(&mut self, is_falling: bool, ray_longer_than_radius: bool) -> (r: TryInitVaultResult)
        requires
            old(self).physics_flags.airborne ==> old(self).airborne_ticks < u16::MAX,
            old(self).physics_flags.airborne && is_falling ==> old(self).falling_ticks < u16::MAX,
            old(self).fc_ray_idx matches Some(i) ==> ray_type_of(*old(self), i) is Some,
            old(self).vault_ray_idx matches Some(i) ==> ray_type_of(*old(self), i) is Some,
        ensures
            r == vault_result(old(self).fc_ray_idx, old(self).vault_ray_idx, ray_longer_than_radius),
            ({
                let airborne = airborne_with_contacts(old(self).physics_flags);
                let f = flags_set_grounded_ray(
                    flags_set_airborne(old(self).physics_flags, airborne),
                    grounded_ray_with_contacts(*old(self), r),
                );
                &&& final(self).physics_flags == (if airborne { flags_end_climb(f) } else { f })
                &&& final(self).wallclimb_max_height_ticks == (if airborne {
                    0
                } else {
                    old(self).wallclimb_max_height_ticks
                })
            }),
            final(self).airborne_ticks == (if old(self).physics_flags.airborne {
                old(self).airborne_ticks + 1
            } else {
                0
            }),
            final(self).falling_ticks == (if !old(self).physics_flags.airborne {
                0
            } else if is_falling {
                old(self).falling_ticks + 1
            } else {
                old(self).falling_ticks as int
            }),
            final(self).vault_ray_idx == vault_ray_after_check(*old(self), r),
            final(self).fc_ray_idx == (if r == TryInitVaultResult::NoVault { None } else { old(self).fc_ray_idx }),
            final(self).vault_ticks == (if r == TryInitVaultResult::OldVault { old(self).vault_ticks } else { 0 }),
            final(self).physics_flags.airborne == airborne_with_contacts(old(self).physics_flags),
            final(self).physics_flags.climbing == old(self).physics_flags.climbing,
            old(self).physics_flags.climbing ==> final(self).physics_flags.grounded_ray_type == GroundedRay::Bottom
                && !final(self).physics_flags.airborne,
            *final(self) == (Katamari {
                physics_flags: final(self).physics_flags,
                airborne_ticks: final(self).airborne_ticks,
                falling_ticks: final(self).falling_ticks,
                vault_ray_idx: final(self).vault_ray_idx,
                fc_ray_idx: final(self).fc_ray_idx,
                vault_ticks: final(self).vault_ticks,
                wallclimb_max_height_ticks: final(self).wallclimb_max_height_ticks,
                ..*old(self)
            }),
    {
        let airborne = !self.physics_flags.contacts_floor && self.physics_flags.contacts_wall
            && !self.physics_flags.climbing;
        let ghost f0 = self.physics_flags;
        self.update_airborne_timers(airborne, is_falling);
        let ghost k1 = *self;
        let r = self.try_init_vault(ray_longer_than_radius);
        let ghost k2 = *self;
        proof {
            lemma_flag_updates(f0, airborne, GroundedRay::Bottom);
            assert(k2.physics_flags.climbing == f0.climbing);
            assert(grounded_ray_after_vault(k2, r) == grounded_ray_with_contacts(*old(self), r));
        }
        self.update_grounded_ray_after_vault(r);
        let ghost f3 = self.physics_flags;
        proof {
            lemma_flag_updates(k2.physics_flags, airborne, grounded_ray_after_vault(k2, r));
        }
        if self.physics_flags.airborne {
            self.end_wall_climb();
            proof {
                lemma_flag_updates(f3, airborne, GroundedRay::Bottom);
            }
        }
        r
    }
}

/// With exactly two wall contacts whose normals meet at an angle over the stuck
/// threshold, the katamari is stuck between walls whatever its earlier stuck ticks:
/// the stuck flag is set and the stuck tick counter is at least one.
pub proof fn law_sharp_two_walls_stuck(
    small_ledge_climb: bool,
    num_floor_contacts: u8,
    stuck_ticks: u8,
    c: StuckContacts,
    cooldown: u8,
    f: KatPhysicsFlags,
    detaching: bool,
)
    requires
        c.walls_angle_over_threshold,
        stuck_ticks < u8::MAX,
    ensures
        stuck_between_walls_now(small_ledge_climb, 2, num_floor_contacts, stuck_ticks, c),
        stuck_ticks_after(true, stuck_ticks, cooldown) >= 1,
        flags_set_stuck(f, true, detaching).stuck_between_walls,
        !flags_set_stuck(f, false, detaching).stuck_between_walls,
        stuck_ticks_after(false, stuck_ticks, cooldown) == 0,
{
    reveal(flags_set_stuck);
}

/// Stuckness with one or two walls and no small ledge climb: one wall is stuck exactly
/// when the katamari also touches a floor, the wall meets the floor at an angle over the
/// threshold and the katamari moved; two walls at an angle within the threshold stay
/// stuck exactly while the stuck tick counter runs. While stuck, the counter counts up
/// until it passes the cooldown, and props are detached exactly on the tick it passes
/// the cooldown, unless they are being detached already or cannot be.
pub proof fn law_stuck_one_or_two_walls(floors: u8, ticks: u8, c: StuckContacts, cooldown: u8, detaching: bool, can_detach: bool)
    requires
        ticks < u8::MAX,
    ensures
        stuck_between_walls_now(false, 1, floors, ticks, c)
            == (floors > 0 && c.wall_floor_angle_over_threshold && c.moved),
        !c.walls_angle_over_threshold ==> stuck_between_walls_now(false, 2, floors, ticks, c) == (ticks > 0),
        ticks + 1 <= cooldown ==> stuck_ticks_after(true, ticks, cooldown) == ticks + 1,
        stuck_detaches_props(true, ticks, cooldown, detaching, can_detach)
            == (ticks + 1 > cooldown && !detaching && can_detach),
{
}

} // verus!

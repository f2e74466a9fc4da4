use vstd::prelude::*;

verus! {

/// The special surface attributes that a collision surface can carry.
/// `Other` stands for every attribute that sets none of the katamari's hit flags.
#[derive(Debug, Clone, Copy, PartialEq, Eq, Structural)]
pub enum HitAttribute {
    NoAttribute,
    BottomOfSea,
    NoReactionNoSlope,
    WallClimbFree,
    WallClimbDisabled,
    Turntable,
    SmallLedgeClimb0x8,
    SpeedCheckOff,
    MapSemiTranslucent,
    SpecialCamera,
    Other,
}

/// The direction the katamari is moving relative to the slope of the surface it's moving on.
#[derive(Debug, Clone, Copy, PartialEq, Eq, Structural)]
pub enum KatInclineMoveType {
    Flatground,
    Uphill,
    Downhill,
}

impl Default for KatInclineMoveType {
    fn default() -> (r: Self)
        ensures
            r == KatInclineMoveType::Flatground,
    {
        KatInclineMoveType::Flatground
    }
}

/// The extra "shell" collision rays which extend along the top half of the katamari.
#[derive(Debug, Clone, Copy, PartialEq, Eq, Structural)]
pub enum ShellRay {
    TopCenter,
    Left,
    Right,
    Bottom,
    TopLeft,
    TopRight,
}

/// The index by which the game numbers each shell ray.
pub open spec fn shell_ray_index(ray: ShellRay) -> u8 {
    match ray {
        ShellRay::TopCenter => 1,
        ShellRay::Left => 2,
        ShellRay::Right => 3,
        ShellRay::Bottom => 4,
        ShellRay::TopLeft => 5,
        ShellRay::TopRight => 6,
    }
}

impl ShellRay {
    /// The shell ray's index.
    pub fn index(self) -> (r: u8)
        ensures
            r == shell_ray_index(self),
    {
        match self {
            ShellRay::TopCenter => 1,
            ShellRay::Left => 2,
            ShellRay::Right => 3,
            ShellRay::Bottom => 4,
            ShellRay::TopLeft => 5,
            ShellRay::TopRight => 6,
        }
    }
}

/// The different types of rays making up the katamari's collision:
/// the single `Bottom` ray straight down from the center, the `Mesh` rays of the
/// katamari's boundary mesh, and `Prop` rays induced by attached props with vault points.
#[derive(Debug, Clone, Copy, PartialEq, Eq, Structural)]
pub enum KatCollisionRayType {
    Bottom,
    Mesh,
    Prop,
}

/// The type of boundary ray currently acting as the katamari's pivot.
#[derive(Debug, Clone, Copy, PartialEq, Eq, Structural)]
pub enum GroundedRay {
    Bottom,
    Mesh,
    Prop,
}

/// The grounded ray corresponding to a collision ray type.
pub open spec fn grounded_ray_of(t: KatCollisionRayType) -> GroundedRay {
    match t {
        KatCollisionRayType::Bottom => GroundedRay::Bottom,
        KatCollisionRayType::Mesh => GroundedRay::Mesh,
        KatCollisionRayType::Prop => GroundedRay::Prop,
    }
}

impl GroundedRay {
    pub fn is_bottom(self) -> (r: bool)
        ensures
            r == (self == GroundedRay::Bottom),
    {
        match self {
            GroundedRay::Bottom => true,
            _ => false,
        }
    }

    pub fn is_not_bottom(self) -> (r: bool)
        ensures
            r == (self != GroundedRay::Bottom),
    {
        match self {
            GroundedRay::Bottom => false,
            _ => true,
        }
    }

    /// The grounded ray of the given collision ray type.
    pub fn from_ray_type(value: KatCollisionRayType) -> (r: GroundedRay)
        ensures
            r == grounded_ray_of(value),
    {
        match value {
            KatCollisionRayType::Bottom => GroundedRay::Bottom,
            KatCollisionRayType::Mesh => GroundedRay::Mesh,
            KatCollisionRayType::Prop => GroundedRay::Prop,
        }
    }

    /// The grounded ray of an optional collision ray type, which must be present.
    pub fn from_opt_ray_type(value: Option<KatCollisionRayType>) -> (r: GroundedRay)
        requires
            value is Some,
        ensures
            r == grounded_ray_of(value->0),
    {
        match value {
            Some(t) => GroundedRay::from_ray_type(t),
            None => GroundedRay::Bottom,
        }
    }
}

impl Default for GroundedRay {
    fn default() -> (r: Self)
        ensures
            r == GroundedRay::Bottom,
    {
        GroundedRay::Bottom
    }
}

impl From<KatCollisionRayType> for GroundedRay {
    fn from(value: KatCollisionRayType) -> (r: Self) {
        GroundedRay::from_ray_type(value)
    }
}

impl vstd::std_specs::convert::FromSpecImpl<KatCollisionRayType> for GroundedRay {
    open spec fn obeys_from_spec() -> bool {
        true
    }

    open spec fn from_spec(value: KatCollisionRayType) -> Self {
        grounded_ray_of(value)
    }
}

/// Exactly one of `is_bottom` and `is_not_bottom` holds of every grounded ray.
pub proof fn law_grounded_ray_bottom_exclusive(g: GroundedRay)
    ensures
        (g == GroundedRay::Bottom) != (g != GroundedRay::Bottom),
        (grounded_ray_of(KatCollisionRayType::Bottom) == GroundedRay::Bottom),
{
}

/// Physics flags of the katamari (a few of which are not true/false values).
#[derive(Debug, Clone, Copy, PartialEq, Eq, Structural)]
pub struct KatPhysicsFlags {
    /// The katamari has no surface contacts.
    pub airborne: bool,
    /// The katamari is climbing a wall.
    pub climbing: bool,
    /// The katamari is at its maximum climb height.
    pub at_max_climb_height: bool,
    /// The katamari is braking.
    pub braking: bool,
    /// The katamari just bonked something (only true the tick it bonks).
    pub bonked: bool,
    /// The katamari is contacting a wall.
    pub contacts_wall: bool,
    /// The katamari is contacting a floor.
    pub contacts_floor: bool,
    /// The katamari is in water.
    pub in_water: bool,
    /// A copy of `in_water`.
    pub in_water_0x8: bool,
    /// The katamari was hit by a moving prop.
    pub hit_by_moving_prop: bool,
    /// The katamari is contacting a prop.
    pub contacts_prop_0xa: bool,
    /// The katamari is contacting the bottom of a downward-slanting surface.
    pub contacts_down_slanted_ceiling: bool,
    /// The katamari moved more than its own radius during the last tick.
    pub moved_fast_shell_hit: bool,
    /// A katamari shell ray hit a surface.
    pub kat_hit_surface_maybe_0xd: bool,
    /// The shell ray which collided with something.
    pub hit_shell_ray: Option<ShellRay>,
    /// The katamari is completely submerged underwater.
    pub under_water: bool,
    /// The katamari is not moving.
    pub immobile: bool,
    /// The type of boundary ray currently acting as the pivot.
    pub grounded_ray_type: GroundedRay,
    /// The katamari is contacting a non-flat floor.
    pub on_sloped_floor: bool,
    /// The katamari is contacting a flat floor.
    pub on_flat_floor: bool,
    /// The katamari moved a lot on a tick where its shell rays collided with something.
    pub moved_fast_shell_hit_0x14: bool,
    /// The direction of movement relative to the slope of the floor.
    pub incline_move_type: KatInclineMoveType,
    /// The katamari is spinning.
    pub wheel_spin: bool,
    /// Not boosting and input below the "min push" threshold.
    pub no_input_push: bool,
    /// The katamari moved more than its radius on the previous tick.
    pub moved_fast: bool,
    /// The katamari is considered stuck between walls.
    pub stuck_between_walls: bool,
    /// The katamari is detaching props.
    pub detaching_props: bool,
    /// The katamari should emit the "puff of smoke" vfx as it moves.
    pub can_emit_smoke: bool,
    /// The katamari moved a lot on a tick where its shell rays collided with something.
    pub moved_fast_shell_hit_0x1d: bool,
    /// Versus mode attack flag.
    pub vs_attack: bool,
    /// Versus mode state.
    pub vs_mode_state: u8,
    /// Unidentified flag.
    pub unknown_0x20: bool,
    /// Set on the tick when the katamari hits the ground after a long enough fall.
    pub hit_ground_fast: bool,
}

/// The physics flags that a new katamari starts with: all false, no shell ray hit,
/// grounded on the bottom ray, on flat ground, versus state zero.
pub open spec fn initial_physics_flags() -> KatPhysicsFlags {
    KatPhysicsFlags {
        airborne: false,
        climbing: false,
        at_max_climb_height: false,
        braking: false,
        bonked: false,
        contacts_wall: false,
        contacts_floor: false,
        in_water: false,
        in_water_0x8: false,
        hit_by_moving_prop: false,
        contacts_prop_0xa: false,
        contacts_down_slanted_ceiling: false,
        moved_fast_shell_hit: false,
        kat_hit_surface_maybe_0xd: false,
        hit_shell_ray: None,
        under_water: false,
        immobile: false,
        grounded_ray_type: GroundedRay::Bottom,
        on_sloped_floor: false,
        on_flat_floor: false,
        moved_fast_shell_hit_0x14: false,
        incline_move_type: KatInclineMoveType::Flatground,
        wheel_spin: false,
        no_input_push: false,
        moved_fast: false,
        stuck_between_walls: false,
        detaching_props: false,
        can_emit_smoke: false,
        moved_fast_shell_hit_0x1d: false,
        vs_attack: false,
        vs_mode_state: 0,
        unknown_0x20: false,
        hit_ground_fast: false,
    }
}

/// The flags `f` after the reset at the start of a collision update: the per-tick
/// contact flags are cleared and every other flag is kept.
pub open spec fn physics_flags_reset(f: KatPhysicsFlags) -> KatPhysicsFlags {
    KatPhysicsFlags {
        contacts_down_slanted_ceiling: false,
        moved_fast_shell_hit: false,
        kat_hit_surface_maybe_0xd: false,
        hit_shell_ray: None,
        moved_fast_shell_hit_0x1d: false,
        hit_by_moving_prop: false,
        contacts_prop_0xa: false,
        stuck_between_walls: false,
        detaching_props: false,
        contacts_wall: false,
        contacts_floor: false,
        ..f
    }
}

impl Default for KatPhysicsFlags {
    fn default() -> (r: Self)
        ensures
            r == initial_physics_flags(),
    {
        KatPhysicsFlags {
            airborne: false,
            climbing: false,
            at_max_climb_height: false,
            braking: false,
            bonked: false,
            contacts_wall: false,
            contacts_floor: false,
            in_water: false,
            in_water_0x8: false,
            hit_by_moving_prop: false,
            contacts_prop_0xa: false,
            contacts_down_slanted_ceiling: false,
            moved_fast_shell_hit: false,
            kat_hit_surface_maybe_0xd: false,
            hit_shell_ray: None,
            under_water: false,
            immobile: false,
            grounded_ray_type: GroundedRay::Bottom,
            on_sloped_floor: false,
            on_flat_floor: false,
            moved_fast_shell_hit_0x14: false,
            incline_move_type: KatInclineMoveType::Flatground,
            wheel_spin: false,
            no_input_push: false,
            moved_fast: false,
            stuck_between_walls: false,
            detaching_props: false,
            can_emit_smoke: false,
            moved_fast_shell_hit_0x1d: false,
            vs_attack: false,
            vs_mode_state: 0,
            unknown_0x20: false,
            hit_ground_fast: false,
        }
    }
}

impl KatPhysicsFlags {
    /// Reset the per-tick contact flags at the start of a katamari collision update.
    pub fn reset_for_collision_update(&mut self)
        ensures
            *final(self) == physics_flags_reset(*old(self)),
    {
        let f = *self;
        *self = KatPhysicsFlags {
            contacts_down_slanted_ceiling: false,
            moved_fast_shell_hit: false,
            kat_hit_surface_maybe_0xd: false,
            hit_shell_ray: None,
            moved_fast_shell_hit_0x1d: false,
            hit_by_moving_prop: false,
            contacts_prop_0xa: false,
            stuck_between_walls: false,
            detaching_props: false,
            contacts_wall: false,
            contacts_floor: false,
            ..f
        };
    }
}

/// Resetting the physics flags twice is the same as resetting them once.
pub proof fn law_physics_flags_reset_idempotent(f: KatPhysicsFlags)
    ensures
        physics_flags_reset(physics_flags_reset(f)) == physics_flags_reset(f),
{
}

/// A group of flags which record if the katamari is contacting certain special types of
/// surfaces with non-standard `HitAttribute` values.
#[derive(Debug, Clone, Copy, PartialEq, Eq, Structural)]
pub struct KatHitFlags {
    /// Ignore the "pushing downward" incline effect.
    pub force_flatground: bool,
    /// True while climbing a prop and on certain surfaces.
    pub wall_climb_free: bool,
    /// Climbing over a small ledge.
    pub small_ledge_climb: bool,
    /// Speed is uncapped while moving downhill.
    pub speed_check_off: bool,
    /// Unidentified flag.
    pub flag_0x4: bool,
    /// Unidentified flag.
    pub flag_0x5: bool,
    /// The camera should be zoomed in.
    pub special_camera: bool,
    /// Contacting a "NoReactionNoSlope" surface.
    pub no_reaction_no_slope: bool,
    /// The "turntable" spin effect should be applied.
    pub on_turntable: bool,
    /// Climbing is disabled.
    pub wall_climb_disabled: bool,
    /// Contacting a "MapSemiTranslucent" surface.
    pub map_semi_translucent: bool,
}

/// All hit flags false.
pub open spec fn no_hit_flags() -> KatHitFlags {
    KatHitFlags {
        force_flatground: false,
        wall_climb_free: false,
        small_ledge_climb: false,
        speed_check_off: false,
        flag_0x4: false,
        flag_0x5: false,
        special_camera: false,
        no_reaction_no_slope: false,
        on_turntable: false,
        wall_climb_disabled: false,
        map_semi_translucent: false,
    }
}

/// The flags `f` after contacting a surface with attribute `attr`: the flags that
/// belong to `attr` are turned on and all others kept.
pub open spec fn hit_flags_with(f: KatHitFlags, attr: HitAttribute) -> KatHitFlags {
    match attr {
        HitAttribute::BottomOfSea => KatHitFlags { force_flatground: true, ..f },
        HitAttribute::NoReactionNoSlope => KatHitFlags {
            no_reaction_no_slope: true,
            force_flatground: true,
            ..f
        },
        HitAttribute::WallClimbFree => KatHitFlags { wall_climb_free: true, ..f },
        HitAttribute::WallClimbDisabled => KatHitFlags { wall_climb_disabled: true, ..f },
        HitAttribute::Turntable => KatHitFlags { on_turntable: true, ..f },
        HitAttribute::SmallLedgeClimb0x8 => KatHitFlags {
            wall_climb_free: true,
            small_ledge_climb: true,
            ..f
        },
        HitAttribute::SpeedCheckOff => KatHitFlags { speed_check_off: true, ..f },
        HitAttribute::MapSemiTranslucent => KatHitFlags { map_semi_translucent: true, ..f },
        HitAttribute::SpecialCamera => KatHitFlags { special_camera: true, ..f },
        _ => f,
    }
}

/// Every flag set in `a` is set in `b`.
pub open spec fn hit_flags_le(a: KatHitFlags, b: KatHitFlags) -> bool {
    &&& a.force_flatground ==> b.force_flatground
    &&& a.wall_climb_free ==> b.wall_climb_free
    &&& a.small_ledge_climb ==> b.small_ledge_climb
    &&& a.speed_check_off ==> b.speed_check_off
    &&& a.flag_0x4 ==> b.flag_0x4
    &&& a.flag_0x5 ==> b.flag_0x5
    &&& a.special_camera ==> b.special_camera
    &&& a.no_reaction_no_slope ==> b.no_reaction_no_slope
    &&& a.on_turntable ==> b.on_turntable
    &&& a.wall_climb_disabled ==> b.wall_climb_disabled
    &&& a.map_semi_translucent ==> b.map_semi_translucent
}

impl Default for KatHitFlags {
    fn default() -> (r: Self)
        ensures
            r == no_hit_flags(),
    {
        KatHitFlags {
            force_flatground: false,
            wall_climb_free: false,
            small_ledge_climb: false,
            speed_check_off: false,
            flag_0x4: false,
            flag_0x5: false,
            special_camera: false,
            no_reaction_no_slope: false,
            on_turntable: false,
            wall_climb_disabled: false,
            map_semi_translucent: false,
        }
    }
}

impl KatHitFlags {
    /// Set all flags to false.
    pub fn clear(&mut self)
        ensures
            *final(self) == no_hit_flags(),
    {
        self.force_flatground = false;
        self.wall_climb_free = false;
        self.small_ledge_climb = false;
        self.speed_check_off = false;
        self.flag_0x4 = false;
        self.flag_0x5 = false;
        self.special_camera = false;
        self.no_reaction_no_slope = false;
        self.on_turntable = false;
        self.wall_climb_disabled = false;
        self.map_semi_translucent = false;
    }

    /// Turn on the flags applicable to the hit attribute `attr`.
    pub fn apply_hit_attr(&mut self, attr: HitAttribute)
        ensures
            *final(self) == hit_flags_with(*old(self), attr),
    {
        let f = *self;
        *self = match attr {
            HitAttribute::BottomOfSea => KatHitFlags { force_flatground: true, ..f },
            HitAttribute::NoReactionNoSlope => KatHitFlags {
                no_reaction_no_slope: true,
                force_flatground: true,
                ..f
            },
            HitAttribute::WallClimbFree => KatHitFlags { wall_climb_free: true, ..f },
            HitAttribute::WallClimbDisabled => KatHitFlags { wall_climb_disabled: true, ..f },
            HitAttribute::Turntable => KatHitFlags { on_turntable: true, ..f },
            HitAttribute::SmallLedgeClimb0x8 => KatHitFlags {
                wall_climb_free: true,
                small_ledge_climb: true,
                ..f
            },
            HitAttribute::SpeedCheckOff => KatHitFlags { speed_check_off: true, ..f },
            HitAttribute::MapSemiTranslucent => KatHitFlags { map_semi_translucent: true, ..f },
            HitAttribute::SpecialCamera => KatHitFlags { special_camera: true, ..f },
            _ => f,
        };
    }
}

/// Applying a hit attribute never turns a flag off.
pub proof fn law_apply_hit_attr_monotone(f: KatHitFlags, attr: HitAttribute)
    ensures
        hit_flags_le(f, hit_flags_with(f, attr)),
{
}

/// Applying the same hit attribute twice is the same as applying it once.
pub proof fn law_apply_hit_attr_idempotent(f: KatHitFlags, attr: HitAttribute)
    ensures
        hit_flags_with(hit_flags_with(f, attr), attr) == hit_flags_with(f, attr),
{
}

/// The order in which two hit attributes are applied does not matter.
#[verifier::rlimit(50)]
pub proof fn law_apply_hit_attr_commutes(f: KatHitFlags, a: HitAttribute, b: HitAttribute)
    ensures
        hit_flags_with(hit_flags_with(f, a), b) == hit_flags_with(hit_flags_with(f, b), a),
{
    match a {
        HitAttribute::BottomOfSea => {},
        HitAttribute::NoReactionNoSlope => {},
        HitAttribute::WallClimbFree => {},
        HitAttribute::WallClimbDisabled => {},
        HitAttribute::Turntable => {},
        HitAttribute::SmallLedgeClimb0x8 => {},
        HitAttribute::SpeedCheckOff => {},
        HitAttribute::MapSemiTranslucent => {},
        HitAttribute::SpecialCamera => {},
        _ => {},
    }
}

/// Contacting an attribute-free surface (`NoAttribute`) changes no flag.
pub proof fn law_apply_no_attr_unchanged(f: KatHitFlags)
    ensures
        hit_flags_with(f, HitAttribute::NoAttribute) == f,
{
}

} // verus!

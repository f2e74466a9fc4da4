use openkdsim::flags::{
    GroundedRay, HitAttribute, KatCollisionRayType, KatHitFlags, KatInclineMoveType, ShellRay,
};
use openkdsim::history::HitHistoryElt;
use openkdsim::katamari::{
    brake_kind, fast_shell_ray, surface_shell_ray, AlarmType, BoostEffectParams, KatBoostEffectState, BrakeContext, CamRelativeDir, BrakeKind, BrakeState, BrakeVfx, ClimbContext, InclineContext,
    InclineOutcome, Katamari,
    RecordSurfaceContactResult, StuckContacts, SurfaceType, TryInitVaultResult, WallImpact,
};
use openkdsim::camera::CameraMode;
use openkdsim::prince::{OujiState, PushDir};

fn no_stuck_geometry() -> StuckContacts {
    StuckContacts { wall_floor_angle_over_threshold: false, moved: false, walls_angle_over_threshold: false }
}

#[test]
fn alarm_is_reported_as_numbers() {
    let mut k = Katamari::default();
    let mut mode = -1;
    let mut ty = -1;
    k.get_alarm(&mut mode, &mut ty);
    assert_eq!((mode, ty), (0, 0));
    k.alarm_mode = true;
    k.alarm_type = Some(AlarmType::Close);
    k.get_alarm(&mut mode, &mut ty);
    assert_eq!((mode, ty), (1, 2));
    k.alarm_type = Some(AlarmType::Closer);
    k.get_alarm(&mut mode, &mut ty);
    assert_eq!(ty, 1);
}

#[test]
fn surface_contacts_are_counted_per_type() {
    let mut k = Katamari::default();
    k.inc_num_surface_contacts(SurfaceType::Floor);
    k.inc_num_surface_contacts(SurfaceType::Floor);
    k.inc_num_surface_contacts(SurfaceType::Wall);
    assert_eq!(k.get_num_surface_contacts(SurfaceType::Floor), 2);
    assert_eq!(k.get_num_surface_contacts(SurfaceType::Wall), 1);
    k.begin_contact_update();
    assert_eq!(k.last_num_floor_contacts, 2);
    assert_eq!(k.last_num_wall_contacts, 1);
    assert_eq!(k.num_floor_contacts, 0);
    assert_eq!(k.num_wall_contacts, 0);
    assert_eq!(k.fc_ray_idx, None);
}

#[test]
fn surface_type_of_record_result() {
    assert_eq!(SurfaceType::from_record_result(RecordSurfaceContactResult::Floor), Ok(SurfaceType::Floor));
    assert_eq!(SurfaceType::from_record_result(RecordSurfaceContactResult::Wall), Ok(SurfaceType::Wall));
    assert_eq!(SurfaceType::from_record_result(RecordSurfaceContactResult::ShellTop), Err(()));
}

#[test]
fn record_surface_contact_classifies() {
    let mut k = Katamari::default();
    // a top shell ray on a floor records nothing
    assert_eq!(k.record_surface_contact(true, -5, false), RecordSurfaceContactResult::ShellTop);
    assert!(!k.physics_flags.contacts_floor);
    // a floor remembers its ray index at the current floor count
    k.num_floor_contacts = 2;
    assert_eq!(k.record_surface_contact(true, 7, false), RecordSurfaceContactResult::Floor);
    assert!(k.physics_flags.contacts_floor);
    assert_eq!(k.floor_contact_ray_idxs[2], 7);
    assert_eq!(k.floor_contact_ray_idxs[0], 0);
    // a wall, whatever the ray
    assert_eq!(k.record_surface_contact(false, -1, true), RecordSurfaceContactResult::Wall);
    assert!(k.physics_flags.contacts_wall);
    assert!(k.physics_flags.contacts_down_slanted_ceiling);
}

#[test]
fn airborne_timers_count_while_airborne() {
    let mut k = Katamari::default();
    k.airborne_ticks = 9;
    k.falling_ticks = 9;
    // grounded before: the timers restart
    k.update_airborne_timers(true, true);
    assert_eq!((k.airborne_ticks, k.falling_ticks), (0, 0));
    assert!(k.physics_flags.airborne);
    k.update_airborne_timers(true, true);
    k.update_airborne_timers(true, false);
    assert_eq!((k.airborne_ticks, k.falling_ticks), (2, 1));
    k.update_airborne_timers(false, false);
    assert!(!k.physics_flags.airborne);
    assert_eq!(k.airborne_ticks, 3);
}

#[test]
fn end_wall_climb_uses_grace_then_ends() {
    let mut k = Katamari::default();
    k.physics_flags.climbing = true;
    k.physics_flags.at_max_climb_height = true;
    k.is_climbing_0x898 = 1;
    k.wallclimb_ticks = 30;
    k.end_wall_climb();
    assert!(k.physics_flags.climbing);
    assert_eq!(k.is_climbing_0x898, 0);
    assert_eq!(k.wallclimb_ticks, 30);
    k.end_wall_climb();
    assert!(!k.physics_flags.climbing);
    assert!(!k.physics_flags.at_max_climb_height);
    assert_eq!(k.wallclimb_ticks, 0);
    assert_eq!(k.wallclimb_cooldown_timer, 10);
    // ending when not climbing leaves the cooldown alone
    k.wallclimb_cooldown_timer = 3;
    k.end_wall_climb();
    assert_eq!(k.wallclimb_cooldown_timer, 3);
    k.physics_flags.climbing = true;
    k.another_end_wallclimb();
    assert!(!k.physics_flags.climbing);
    assert_eq!(k.wallclimb_cooldown_timer, 3);
}

#[test]
fn vault_starts_then_continues() {
    let mut k = Katamari::default();
    assert_eq!(k.try_init_vault(true), TryInitVaultResult::NoVault);
    k.fc_ray_idx = Some(4);
    assert_eq!(k.try_init_vault(false), TryInitVaultResult::NoVault);
    assert_eq!(k.vault_ray_idx, None);
    assert_eq!(k.try_init_vault(true), TryInitVaultResult::InitVault);
    assert_eq!(k.vault_ray_idx, Some(4));
    assert_eq!(k.try_init_vault(false), TryInitVaultResult::OldVault);
    k.fc_ray_idx = Some(5);
    assert_eq!(k.try_init_vault(true), TryInitVaultResult::InitVault);
    assert_eq!(k.vault_ray_idx, Some(5));
}

#[test]
fn stuck_between_walls_detaches_after_cooldown() {
    let mut k = Katamari::default();
    k.can_detach_props = true;
    k.num_wall_contacts = 3;
    let mut detaches = vec![];
    for _ in 0..5 {
        detaches.push(k.resolve_being_stuck(no_stuck_geometry(), 2));
        assert!(k.physics_flags.stuck_between_walls);
        assert!(k.stuck_ticks <= 2);
        // an ongoing detach is not started again
        k.physics_flags.detaching_props = false;
    }
    assert_eq!(detaches, vec![false, false, true, false, true]);
    assert_eq!(k.hit_history.get(0), Some(HitHistoryElt { num_wall_contacts: 3, num_floor_contacts: 0 }));
    // free again: the counter resets
    k.num_wall_contacts = 0;
    assert!(!k.resolve_being_stuck(no_stuck_geometry(), 2));
    assert_eq!(k.stuck_ticks, 0);
    assert!(!k.physics_flags.stuck_between_walls);
}

#[test]
fn stuck_cases_by_wall_count() {
    let mut k = Katamari::default();
    // one wall and a floor at a steep angle while moving
    k.num_wall_contacts = 1;
    k.num_floor_contacts = 1;
    let steep = StuckContacts { wall_floor_angle_over_threshold: true, moved: true, walls_angle_over_threshold: false };
    k.resolve_being_stuck(steep, 15);
    assert!(k.physics_flags.stuck_between_walls);
    assert_eq!(k.stuck_ticks, 1);
    // two walls stay stuck while the counter runs
    k.num_wall_contacts = 2;
    k.resolve_being_stuck(no_stuck_geometry(), 15);
    assert_eq!(k.stuck_ticks, 2);
    // one wall without the steep angle is not stuck
    k.num_wall_contacts = 1;
    k.resolve_being_stuck(no_stuck_geometry(), 15);
    assert_eq!(k.stuck_ticks, 0);
    // a small ledge climb is always stuck, and without permission nothing detaches
    k.hit_flags.small_ledge_climb = true;
    k.num_wall_contacts = 0;
    assert!(!k.resolve_being_stuck(no_stuck_geometry(), 0));
    assert_eq!(k.stuck_ticks, 1);
}

fn brake_context(kind: BrakeKind) -> BrakeContext {
    BrakeContext {
        camera_shoot: false,
        pushing: true,
        against_velocity: true,
        kind,
        fast_enough: true,
        past_min_angle: true,
        push_dir: Some(PushDir::Backwards),
        vfx_cooldown: 3,
    }
}

#[test]
fn brake_kind_priority() {
    assert_eq!(brake_kind(true, true, true), BrakeKind::Boost);
    assert_eq!(brake_kind(false, true, true), BrakeKind::Backward);
    assert_eq!(brake_kind(false, false, true), BrakeKind::Forward);
    assert_eq!(brake_kind(false, false, false), BrakeKind::Sideways);
}

#[test]
fn brake_starts_and_replays_effect() {
    let mut k = Katamari::default();
    let mut ouji = OujiState::default();
    let c = brake_context(BrakeKind::Backward);
    let e = k.compute_brake_state(&mut ouji, c);
    assert_eq!(e.state, BrakeState::PushBrake);
    assert!(e.started);
    assert_eq!(e.vfx, Some(BrakeVfx::BrakeBackward));
    assert_eq!(e.sound, Some(PushDir::Backwards));
    assert!(k.physics_flags.braking);
    assert_eq!(k.brake_push_dir, Some(PushDir::Backwards));
    assert_eq!(k.brake_vfx_timer, 0);
    // the next tick of the brake replays the effect at once (timer below 1)
    let e = k.compute_brake_state(&mut ouji, c);
    assert!(!e.started);
    assert_eq!(e.vfx, Some(BrakeVfx::BrakeBackward));
    assert_eq!(k.brake_vfx_timer, 3);
    // then counts down
    let e = k.compute_brake_state(&mut ouji, c);
    assert_eq!(e.vfx, None);
    assert_eq!(k.brake_vfx_timer, 2);
}

#[test]
fn brake_other_outcomes() {
    let mut k = Katamari::default();
    let mut ouji = OujiState::default();
    ouji.dash = true;
    // pushing with the velocity ends the boost
    let mut c = brake_context(BrakeKind::Forward);
    c.against_velocity = false;
    let e = k.compute_brake_state(&mut ouji, c);
    assert_eq!(e.state, BrakeState::PushNoBrake);
    assert!(!ouji.dash);
    // shoot camera mode changes nothing
    k.physics_flags.braking = true;
    c.camera_shoot = true;
    assert_eq!(k.compute_brake_state(&mut ouji, c).state, BrakeState::Shoot);
    assert!(k.physics_flags.braking);
    // airborne: no push, braking ends
    k.physics_flags.airborne = true;
    c.camera_shoot = false;
    assert_eq!(k.compute_brake_state(&mut ouji, c).state, BrakeState::NoPush);
    assert!(!k.physics_flags.braking);
    // too slow to start a brake
    k.physics_flags.airborne = false;
    let mut slow = brake_context(BrakeKind::Sideways);
    slow.fast_enough = false;
    let e = k.compute_brake_state(&mut ouji, slow);
    assert_eq!(e.state, BrakeState::NoPush);
    assert!(!e.started);
    // a spinning prince starts a brake without the effect
    ouji.wheel_spin = true;
    let e = k.compute_brake_state(&mut ouji, brake_context(BrakeKind::Sideways));
    assert!(e.started);
    assert_eq!(e.vfx, None);
}

fn climb_context() -> ClimbContext {
    ClimbContext {
        contact_prop_climbable: false,
        wall_angle_ok: true,
        has_wallclimb_input: true,
        too_fast_to_start: false,
        push_similar_to_wall: true,
    }
}

#[test]
fn climb_checks() {
    let mut k = Katamari::default();
    k.num_wall_contacts = 1;
    k.physics_flags.contacts_wall = true;
    k.physics_flags.at_max_climb_height = true;
    assert!(k.can_climb_wall_contact(climb_context()));
    assert!(!k.physics_flags.at_max_climb_height);
    // cooldown running
    k.wallclimb_cooldown_timer = 1;
    assert!(!k.can_climb_wall_contact(climb_context()));
    // ... unless a climbable prop makes it free
    let mut prop = climb_context();
    prop.contact_prop_climbable = true;
    prop.too_fast_to_start = true;
    assert!(k.can_climb_wall_contact(prop));
    assert!(k.hit_flags.wall_climb_free);
    // disabled climbing
    let mut k = Katamari::default();
    k.num_wall_contacts = 1;
    k.physics_flags.contacts_wall = true;
    k.hit_flags.wall_climb_disabled = true;
    assert!(!k.can_climb_wall_contact(climb_context()));
    // sloped ground, two walls, no input
    let mut k = Katamari::default();
    k.physics_flags.contacts_wall = true;
    k.physics_flags.incline_move_type = KatInclineMoveType::Uphill;
    k.num_wall_contacts = 1;
    assert!(!k.can_climb_wall_contact(climb_context()));
    k.physics_flags.incline_move_type = KatInclineMoveType::Flatground;
    k.num_wall_contacts = 2;
    assert!(!k.can_climb_wall_contact(climb_context()));
    k.num_wall_contacts = 1;
    let mut no_input = climb_context();
    no_input.has_wallclimb_input = false;
    assert!(!k.can_climb_wall_contact(no_input));
    // too fast to start a new climb, but fine while climbing
    let mut fast = climb_context();
    fast.too_fast_to_start = true;
    assert!(!k.can_climb_wall_contact(fast));
    k.physics_flags.climbing = true;
    assert!(k.can_climb_wall_contact(fast));
}

#[test]
fn top_shell_floor_contact_is_dropped() {
    let mut k = Katamari::default();
    k.physics_flags.hit_shell_ray = Some(ShellRay::TopCenter);
    k.physics_flags.contacts_floor = true;
    k.num_floor_contacts = 1;
    assert!(k.drop_top_shell_floor_contact());
    assert!(!k.physics_flags.contacts_floor);
    k.physics_flags.contacts_floor = true;
    k.physics_flags.contacts_wall = true;
    assert!(!k.drop_top_shell_floor_contact());
    assert!(k.physics_flags.contacts_floor);
}

#[test]
fn ticks_without_contacts() {
    let mut k = Katamari::default();
    k.vault_ray_idx = Some(3);
    k.physics_flags.grounded_ray_type = GroundedRay::Mesh;
    assert!(!k.update_without_contacts(false, true));
    assert!(k.physics_flags.airborne);
    assert_eq!(k.physics_flags.grounded_ray_type, GroundedRay::Bottom);
    assert_eq!(k.vault_ray_idx, None);
    assert_eq!((k.airborne_ticks, k.falling_ticks), (0, 0));
    assert!(!k.update_without_contacts(false, true));
    assert_eq!((k.airborne_ticks, k.falling_ticks), (1, 1));

    // a climb at its maximum height with a full push keeps going
    let mut k = Katamari::default();
    k.physics_flags.climbing = true;
    k.physics_flags.at_max_climb_height = true;
    k.is_climbing_0x898 = 2;
    assert!(k.update_without_contacts(true, false));
    assert_eq!(k.is_climbing_0x898, 1);
    assert!(k.physics_flags.climbing);
    // a climb whose grace is over ends, starts the cooldown, and is not airborne yet
    k.is_climbing_0x898 = 0;
    assert!(!k.update_without_contacts(true, false));
    assert!(!k.physics_flags.climbing);
    assert!(!k.physics_flags.airborne);
    assert_eq!(k.wallclimb_cooldown_timer, 10);
    assert_eq!(k.airborne_ticks, 1);
}

fn steep(moving: bool, against: bool, not_with: bool) -> InclineContext {
    InclineContext { ending_mode: false, steep_floor: true, moving_laterally: moving, against_slope: against, not_with_slope: not_with }
}

#[test]
fn incline_movement() {
    let mut k = Katamari::default();
    k.physics_flags.immobile = true;
    // at rest on a steep floor: start downhill
    assert_eq!(k.update_incline(steep(false, false, false)), InclineOutcome::Downhill);
    assert!(!k.physics_flags.immobile);
    assert_eq!(k.physics_flags.incline_move_type, KatInclineMoveType::Downhill);
    assert_eq!(k.move_downhill_ticks, 11);
    assert_eq!(k.update_incline(steep(true, false, false)), InclineOutcome::Downhill);
    assert_eq!(k.move_downhill_ticks, 12);
    // uphill restarts the downhill count
    assert_eq!(k.update_incline(steep(true, true, true)), InclineOutcome::Uphill);
    assert_eq!((k.move_uphill_ticks, k.move_downhill_ticks), (1, 0));
    // across the slope: flat ground
    assert_eq!(k.update_incline(steep(true, false, true)), InclineOutcome::Ended);
    assert_eq!((k.move_uphill_ticks, k.move_downhill_ticks), (0, 0));
    assert_eq!(k.physics_flags.incline_move_type, KatInclineMoveType::Flatground);
    // against a wall: flat ground
    k.physics_flags.contacts_wall = true;
    assert_eq!(k.update_incline(steep(true, true, true)), InclineOutcome::Ended);
    // ending stage, climbing, airborne
    let mut ending = steep(true, true, true);
    ending.ending_mode = true;
    assert_eq!(k.update_incline(ending), InclineOutcome::NoGravity);
    k.physics_flags.airborne = true;
    assert_eq!(k.update_incline(steep(true, true, true)), InclineOutcome::Airborne);
    k.physics_flags.climbing = true;
    k.move_uphill_ticks = 4;
    assert_eq!(k.update_incline(steep(true, true, true)), InclineOutcome::Climbing);
    assert_eq!(k.move_uphill_ticks, 0);
}

#[test]
fn maintain_wallclimb_keeps_climbing() {
    let mut k = Katamari::default();
    k.wallclimb_cooldown_timer = 4;
    k.fc_ray_idx = Some(2);
    k.vault_ray_idx = Some(2);
    k.physics_flags.grounded_ray_type = GroundedRay::Prop;
    assert!(k.maintain_wallclimb());
    assert!(k.physics_flags.climbing);
    assert_eq!(k.is_climbing_0x898, 1);
    assert_eq!(k.wallclimb_cooldown_timer, 0);
    assert_eq!(k.physics_flags.grounded_ray_type, GroundedRay::Bottom);
    assert_eq!((k.fc_ray_idx, k.vault_ray_idx), (None, None));
    k.physics_flags.at_max_climb_height = true;
    k.is_climbing_0x898 = 0;
    assert!(!k.maintain_wallclimb());
    assert_eq!(k.is_climbing_0x898, 0);
}

#[test]
fn surface_contact_flags_from_attributes() {
    let mut k = Katamari::default();
    k.hit_flags.wall_climb_disabled = true;
    let floors = vec![(HitAttribute::SpeedCheckOff, true), (HitAttribute::NoAttribute, true)];
    let walls = vec![HitAttribute::WallClimbFree];
    k.process_surface_contact_flags(true, &floors, &walls);
    // the flags start over
    assert!(!k.hit_flags.wall_climb_disabled);
    assert!(k.hit_flags.speed_check_off);
    assert!(k.hit_flags.wall_climb_free);
    assert!(k.hit_flags.map_semi_translucent && k.hit_flags.special_camera);
    assert!(k.physics_flags.on_sloped_floor);
    assert!(!k.physics_flags.on_flat_floor);
    k.process_surface_contact_flags(false, &vec![(HitAttribute::NoAttribute, false)], &vec![]);
    assert_eq!(k.hit_flags, KatHitFlags::default());
    assert!(k.physics_flags.on_flat_floor);
    assert!(!k.physics_flags.on_sloped_floor);
}

#[test]
fn collision_update_prelude() {
    let mut k = Katamari::default();
    k.num_floor_contacts = 2;
    k.physics_flags.contacts_floor = true;
    k.physics_flags.airborne = true;
    k.prop_pseudo_iframes_timer = 1;
    k.fc_ray_idx = Some(1);
    assert!(k.begin_contact_update());
    assert_eq!(k.last_num_floor_contacts, 2);
    assert!(!k.physics_flags.contacts_floor);
    assert!(k.physics_flags.airborne);
    assert_eq!(k.prop_pseudo_iframes_timer, 0);
    assert_eq!(k.prop_ignore_collision_timer, 0);
    k.physics_flags.vs_mode_state = 2;
    assert!(!k.begin_contact_update());
}

#[test]
fn update_prelude_follows_the_prince_spin() {
    let mut k = Katamari::default();
    k.wallclimb_cooldown_timer = 2;
    k.hit_flags.on_turntable = true;
    let mut ouji = OujiState::default();
    ouji.dash_start = true;
    assert!(k.begin_update(&ouji));
    assert_eq!(k.spin_ticks, 1);
    assert!(!k.physics_flags.wheel_spin);
    assert_eq!(k.wallclimb_cooldown_timer, 1);
    assert!(k.last_hit_flags.on_turntable);
    ouji.dash_start = false;
    ouji.wheel_spin = true;
    k.hit_flags.on_turntable = false;
    assert!(k.begin_update(&ouji));
    assert_eq!(k.spin_ticks, 2);
    assert!(k.physics_flags.wheel_spin);
    assert!(k.older_hit_flags.on_turntable);
    assert!(!k.last_hit_flags.on_turntable);
    ouji.wheel_spin = false;
    assert!(!k.begin_update(&ouji));
    assert_eq!(k.spin_ticks, 0);
    assert_eq!(k.wallclimb_cooldown_timer, 0);
    assert!(k.last_physics_flags.wheel_spin);
}

#[test]
fn contact_order_does_not_change_hit_flags() {
    let mut a = Katamari::default();
    let mut b = Katamari::default();
    let floors_ab = vec![(HitAttribute::Turntable, false), (HitAttribute::BottomOfSea, true)];
    let floors_ba = vec![(HitAttribute::BottomOfSea, true), (HitAttribute::Turntable, false)];
    a.process_surface_contact_flags(false, &floors_ab, &vec![HitAttribute::WallClimbDisabled]);
    b.process_surface_contact_flags(false, &floors_ba, &vec![HitAttribute::WallClimbDisabled]);
    assert_eq!(a.hit_flags, b.hit_flags);
    assert!(a.hit_flags.on_turntable && a.hit_flags.force_flatground && a.hit_flags.wall_climb_disabled);
    assert_eq!(a.physics_flags, b.physics_flags);
}

#[test]
fn ray_types_by_index() {
    let mut k = Katamari::default();
    // no rays at all: no ray type, not even the bottom one
    assert_eq!(k.ray_type_by_idx(0), None);
    k.first_prop_ray_index = 18;
    k.num_collision_rays = 20;
    assert_eq!(k.ray_type_by_idx(0), Some(KatCollisionRayType::Bottom));
    assert_eq!(k.ray_type_by_idx(17), Some(KatCollisionRayType::Mesh));
    assert_eq!(k.ray_type_by_idx(18), Some(KatCollisionRayType::Prop));
    assert_eq!(k.ray_type_by_idx(19), Some(KatCollisionRayType::Prop));
    assert_eq!(k.ray_type_by_idx(20), None);
}

#[test]
fn grounded_ray_follows_the_vault() {
    let mut k = Katamari::default();
    k.first_prop_ray_index = 18;
    k.num_collision_rays = 20;
    k.fc_ray_idx = Some(19);
    let r = k.try_init_vault(true);
    assert_eq!(r, TryInitVaultResult::InitVault);
    k.vault_ticks = 5;
    k.update_grounded_ray_after_vault(r);
    assert_eq!(k.physics_flags.grounded_ray_type, GroundedRay::Prop);
    assert_eq!(k.vault_ticks, 0);
    k.fc_ray_idx = Some(19);
    let r = k.try_init_vault(true);
    assert_eq!(r, TryInitVaultResult::OldVault);
    k.vault_ticks = 3;
    k.update_grounded_ray_after_vault(r);
    assert_eq!(k.vault_ticks, 3);
    // while climbing, the bottom ray
    k.physics_flags.climbing = true;
    k.update_grounded_ray_after_vault(TryInitVaultResult::OldVault);
    assert_eq!(k.physics_flags.grounded_ray_type, GroundedRay::Bottom);
    k.physics_flags.climbing = false;
    k.update_grounded_ray_after_vault(TryInitVaultResult::NoVault);
    assert_eq!(k.physics_flags.grounded_ray_type, GroundedRay::Bottom);
    assert_eq!((k.vault_ray_idx, k.fc_ray_idx), (None, None));
    k.set_bottom_ray_contact();
    assert_eq!(k.vault_ticks, 0);
}

#[test]
fn camera_relative_direction() {
    let mut k = Katamari::default();
    k.update_cam_relative_dir(true, false, false);
    assert_eq!(k.cam_relative_dir, Some(CamRelativeDir::Backwards));
    k.update_cam_relative_dir(false, true, false);
    assert_eq!(k.cam_relative_dir, Some(CamRelativeDir::Forwards));
    k.update_cam_relative_dir(false, false, true);
    assert_eq!(k.cam_relative_dir, Some(CamRelativeDir::Right));
    k.update_cam_relative_dir(false, false, false);
    assert_eq!(k.cam_relative_dir, Some(CamRelativeDir::Left));
    k.physics_flags.immobile = true;
    k.update_cam_relative_dir(true, false, false);
    assert_eq!(k.cam_relative_dir, None);
}

#[test]
fn royal_warp_stops_the_katamari() {
    let mut k = Katamari::default();
    k.airborne_ticks = 40;
    k.falling_ticks = 30;
    k.vault_ray_idx = Some(3);
    k.wallclimb_cooldown_timer = 8;
    k.update_royal_warp();
    assert!(k.physics_flags.immobile);
    assert_eq!((k.airborne_ticks, k.falling_ticks), (0, 0));
    assert_eq!(k.vault_ray_idx, None);
    assert_eq!(k.wallclimb_cooldown_timer, 0);
}

#[test]
fn boost_effect_builds_holds_and_releases() {
    let params = BoostEffectParams { build_duration: 2, release_duration: 3, release_duration_in_water: 1 };
    let mut k = Katamari::default();
    let mut ouji = OujiState::default();
    ouji.dash_start = true;
    ouji.dash = true;
    ouji.wheel_spin = true;
    assert!(k.update_boost_effect(&mut ouji, params, false));
    assert_eq!(k.boost_effect_state, Some(KatBoostEffectState::Build));
    assert_eq!(k.boost_effect_timer, 1);
    assert!(ouji.dash_effect);
    assert_eq!(k.sw_speed_disp_timer, 15);
    ouji.dash_start = false;
    k.update_boost_effect(&mut ouji, params, false);
    assert_eq!(k.boost_effect_timer, 2);
    k.update_boost_effect(&mut ouji, params, false);
    assert_eq!(k.boost_effect_state, Some(KatBoostEffectState::StopBuilding));
    // holding while spinning
    k.update_boost_effect(&mut ouji, params, false);
    assert_eq!(k.boost_effect_state, Some(KatBoostEffectState::StopBuilding));
    assert!(ouji.dash_effect);
    // the spin stops: release over three ticks
    ouji.wheel_spin = false;
    k.update_boost_effect(&mut ouji, params, false);
    assert_eq!((k.boost_effect_state, k.boost_effect_timer), (Some(KatBoostEffectState::Release), 3));
    // the speed display counts down while boosting without spinning
    assert_eq!(k.sw_speed_disp_timer, 14);
    assert!(ouji.sw_speed_disp);
    k.update_boost_effect(&mut ouji, params, false);
    assert!(!ouji.dash_effect);
    k.update_boost_effect(&mut ouji, params, false);
    k.update_boost_effect(&mut ouji, params, false);
    assert_eq!((k.boost_effect_state, k.boost_effect_timer), (Some(KatBoostEffectState::End), 0));
    k.update_boost_effect(&mut ouji, params, false);
    assert_eq!(k.boost_effect_state, Some(KatBoostEffectState::End));
    // versus mode hides the speed display
    k.update_boost_effect(&mut ouji, params, true);
    assert!(!ouji.sw_speed_disp);
}

#[test]
fn boost_effect_in_water_and_vs_state() {
    let params = BoostEffectParams::default();
    let mut k = Katamari::default();
    k.physics_flags.in_water = true;
    let mut ouji = OujiState::default();
    ouji.dash_start = true;
    ouji.dash = true;
    k.update_boost_effect(&mut ouji, params, false);
    // a boost started in water does not build
    assert_eq!((k.boost_effect_state, k.boost_effect_timer), (Some(KatBoostEffectState::Build), 0));
    assert!(!ouji.dash_effect);
    k.physics_flags.vs_mode_state = 2;
    ouji.dash_start = false;
    ouji.dash_effect = true;
    assert!(!k.update_boost_effect(&mut ouji, params, false));
    assert!(ouji.dash_effect);
}

#[test]
fn state_shared_with_the_prince() {
    let mut k = Katamari::default();
    k.physics_flags.climbing = true;
    k.physics_flags.under_water = true;
    let mut ouji = OujiState::default();
    k.share_state_with_prince(&mut ouji, CameraMode::Shoot);
    assert_eq!(ouji.camera_mode, 5);
    assert!(ouji.climb_wall && ouji.submerge && !ouji.hit_water);
    k.record_push_after_brake(&mut ouji, Some(PushDir::Sideways));
    assert_eq!(k.input_push_dir, Some(PushDir::Sideways));
    assert!(!ouji.brake);
    k.physics_flags.braking = true;
    k.record_push_after_brake(&mut ouji, Some(PushDir::Forwards));
    assert_eq!(k.input_push_dir, Some(PushDir::Sideways));
    assert!(ouji.brake);
}

#[test]
fn shell_hits_and_vault_prelude() {
    assert_eq!(fast_shell_ray(0), None);
    assert_eq!(fast_shell_ray(4), Some(ShellRay::Bottom));
    assert_eq!(surface_shell_ray(3), ShellRay::TopLeft);
    let mut k = Katamari::default();
    assert_eq!(k.mark_shell_hit(None), 0);
    assert_eq!(k.mark_shell_hit(Some(ShellRay::TopRight)), -6);
    // no new shell ray: the previous one stays
    assert_eq!(k.mark_shell_hit(None), -6);
    assert_eq!(k.physics_flags.hit_shell_ray, Some(ShellRay::TopRight));
    k.physics_flags.hit_ground_fast = true;
    k.physics_flags.unknown_0x20 = true;
    assert!(!k.begin_vault_and_climb());
    assert!(!k.physics_flags.hit_ground_fast);
    assert!(k.physics_flags.unknown_0x20);
    k.num_wall_contacts = 1;
    assert!(k.begin_vault_and_climb());
    assert!(!k.physics_flags.unknown_0x20);
}

#[test]
fn wall_impact_decisions() {
    let mut k = Katamari::default();
    assert_eq!(
        k.wall_impact(),
        WallImpact {
            fast_collision: false,
            contacts_wall: false,
            should_halve_speed: false,
            can_bonk_and_lose_props: true,
            landed_from_fast_fall: true,
        }
    );
    k.physics_flags.moved_fast_shell_hit_0x1d = true;
    k.falling_ticks = 9;
    let w = k.wall_impact();
    assert!(!w.can_bonk_and_lose_props);
    assert!(!w.landed_from_fast_fall);
    assert!(!w.should_halve_speed);
    k.falling_ticks = 10;
    assert!(k.wall_impact().landed_from_fast_fall);
    k.num_wall_contacts = 1;
    let w = k.wall_impact();
    assert!(w.should_halve_speed);
    assert!(w.can_bonk_and_lose_props);
    assert!(w.contacts_wall);
}

#[test]
fn soft_landing_and_fast_ground_hit() {
    let mut k = Katamari::default();
    k.physics_flags.contacts_floor = true;
    k.airborne_ticks = 4;
    assert!(k.lands_softly());
    k.airborne_ticks = 5;
    assert!(!k.lands_softly());
    k.physics_flags.wheel_spin = true;
    assert!(k.lands_softly());
    k.physics_flags.moved_fast_shell_hit_0x1d = true;
    assert!(!k.lands_softly());

    let mut k = Katamari::default();
    k.physics_flags.airborne = true;
    k.falling_ticks = 6;
    assert!(!k.mark_fast_ground_hit());
    assert!(!k.physics_flags.hit_ground_fast);
    k.falling_ticks = 7;
    assert!(k.mark_fast_ground_hit());
    assert!(k.physics_flags.hit_ground_fast);

    let mut k = Katamari::default();
    k.physics_flags.airborne = true;
    k.physics_flags.moved_fast_shell_hit_0x1d = true;
    k.falling_ticks = 8;
    assert!(!k.mark_fast_ground_hit());
    k.physics_flags.contacts_wall = true;
    k.num_wall_contacts = 1;
    assert!(!k.mark_fast_ground_hit());
}

#[test]
fn contact_ends_air_time() {
    let mut k = Katamari::default();
    k.airborne_ticks = 12;
    k.falling_ticks = 8;
    assert!(!k.end_air_time_on_contact());
    assert_eq!((k.airborne_ticks, k.falling_ticks), (12, 8));
    k.physics_flags.contacts_wall = true;
    assert!(k.end_air_time_on_contact());
    assert_eq!((k.airborne_ticks, k.falling_ticks), (0, 0));
}

#[test]
fn vault_update_with_contacts() {
    // touching only a wall: airborne, and a vault on a mesh ray starts
    let mut k = Katamari::default();
    k.first_prop_ray_index = 18;
    k.num_collision_rays = 20;
    k.physics_flags.contacts_wall = true;
    k.fc_ray_idx = Some(5);
    k.vault_ticks = 4;
    k.wallclimb_max_height_ticks = 3;
    let r = k.update_vault_with_contacts(true, true);
    assert_eq!(r, TryInitVaultResult::InitVault);
    assert!(k.physics_flags.airborne);
    assert_eq!(k.physics_flags.grounded_ray_type, GroundedRay::Mesh);
    assert_eq!(k.vault_ray_idx, Some(5));
    assert_eq!(k.vault_ticks, 0);
    assert_eq!(k.wallclimb_max_height_ticks, 0);
    assert_eq!((k.airborne_ticks, k.falling_ticks), (0, 0));
    // next tick, still airborne and falling: the timers run and the vault continues
    let r = k.update_vault_with_contacts(true, false);
    assert_eq!(r, TryInitVaultResult::OldVault);
    assert_eq!((k.airborne_ticks, k.falling_ticks), (1, 1));
    // a climbing katamari is not airborne and pivots on its bottom ray
    k.physics_flags.climbing = true;
    k.wallclimb_max_height_ticks = 3;
    let r = k.update_vault_with_contacts(false, false);
    assert_eq!(r, TryInitVaultResult::OldVault);
    assert!(!k.physics_flags.airborne);
    assert!(k.physics_flags.climbing);
    assert_eq!(k.physics_flags.grounded_ray_type, GroundedRay::Bottom);
    assert_eq!(k.wallclimb_max_height_ticks, 3);
    // on a floor without a primary floor ray: no vault, bottom ray
    let mut k = Katamari::default();
    k.physics_flags.contacts_floor = true;
    assert_eq!(k.update_vault_with_contacts(false, true), TryInitVaultResult::NoVault);
    assert!(!k.physics_flags.airborne);
    assert_eq!(k.vault_ray_idx, None);
}

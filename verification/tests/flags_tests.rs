use openkdsim::flags::{
    GroundedRay, HitAttribute, KatCollisionRayType, KatHitFlags, KatPhysicsFlags, ShellRay,
};

#[test]
fn grounded_ray_bottom_checks() {
    assert!(GroundedRay::Bottom.is_bottom());
    assert!(!GroundedRay::Bottom.is_not_bottom());
    assert!(GroundedRay::Mesh.is_not_bottom());
    assert!(!GroundedRay::Prop.is_bottom());
    assert_eq!(GroundedRay::from_ray_type(KatCollisionRayType::Prop), GroundedRay::Prop);
    assert_eq!(GroundedRay::from(KatCollisionRayType::Mesh), GroundedRay::Mesh);
    assert_eq!(GroundedRay::from_opt_ray_type(Some(KatCollisionRayType::Bottom)), GroundedRay::Bottom);
    assert_eq!(GroundedRay::default(), GroundedRay::Bottom);
}

#[test]
fn shell_ray_indices() {
    let idxs: Vec<u8> = [
        ShellRay::TopCenter,
        ShellRay::Left,
        ShellRay::Right,
        ShellRay::Bottom,
        ShellRay::TopLeft,
        ShellRay::TopRight,
    ]
    .iter()
    .map(|r| r.index())
    .collect();
    assert_eq!(idxs, vec![1, 2, 3, 4, 5, 6]);
}

#[test]
fn reset_for_collision_update_clears_contacts_only() {
    let mut f = KatPhysicsFlags::default();
    f.contacts_wall = true;
    f.contacts_floor = true;
    f.hit_shell_ray = Some(ShellRay::Left);
    f.stuck_between_walls = true;
    f.airborne = true;
    f.wheel_spin = true;
    f.reset_for_collision_update();
    assert!(!f.contacts_wall);
    assert!(!f.contacts_floor);
    assert_eq!(f.hit_shell_ray, None);
    assert!(!f.stuck_between_walls);
    // flags that are not per-tick contacts stay
    assert!(f.airborne);
    assert!(f.wheel_spin);
    // a second reset changes nothing
    let once = f;
    f.reset_for_collision_update();
    assert_eq!(f, once);
}

#[test]
fn apply_hit_attr_sets_the_attribute_flags() {
    let mut h = KatHitFlags::default();
    h.apply_hit_attr(HitAttribute::SmallLedgeClimb0x8);
    assert!(h.small_ledge_climb);
    assert!(h.wall_climb_free);
    assert!(!h.force_flatground);
    h.apply_hit_attr(HitAttribute::NoReactionNoSlope);
    assert!(h.no_reaction_no_slope);
    assert!(h.force_flatground);
    // applying again changes nothing; "no attribute" changes nothing
    let before = h;
    h.apply_hit_attr(HitAttribute::NoReactionNoSlope);
    h.apply_hit_attr(HitAttribute::NoAttribute);
    h.apply_hit_attr(HitAttribute::Other);
    assert_eq!(h, before);
    h.clear();
    assert_eq!(h, KatHitFlags::default());
}

#[test]
fn apply_hit_attr_order_does_not_matter() {
    let mut a = KatHitFlags::default();
    a.apply_hit_attr(HitAttribute::Turntable);
    a.apply_hit_attr(HitAttribute::SpecialCamera);
    let mut b = KatHitFlags::default();
    b.apply_hit_attr(HitAttribute::SpecialCamera);
    b.apply_hit_attr(HitAttribute::Turntable);
    assert_eq!(a, b);
    assert!(a.on_turntable && a.special_camera);
}

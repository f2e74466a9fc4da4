use openkdsim::props::{
    AddPropArgs, GlobalPathState, NamePropConfig, PropAnimationType, PropGlobalState, PropNode, Props,
};

fn args(name_idx: u16, disp_off_area_no: u16) -> AddPropArgs {
    AddPropArgs {
        name_idx,
        loc_pos_type: 0,
        random_group_id: 0,
        mono_move_type: 3,
        mono_hit_on_area: 2,
        link_action: u16::MAX,
        extra_action_type: 7,
        unique_name_id: u16::MAX,
        disp_off_area_no,
        vs_drop_flag: 1,
        comment_id: 12,
        comment_group_id: u16::MAX,
        twin_id: u16::MAX,
        shake_off_flag: 1,
    }
}

fn config() -> NamePropConfig {
    NamePropConfig { internal_name: b"kitchen_fork".to_vec(), innate_motion_type: 4 }
}

#[test]
fn global_paths_init_appends_256_idle_paths() {
    let mut v = vec![GlobalPathState { flags: 3, stalled: 1, double_speed: true }];
    GlobalPathState::init(&mut v);
    assert_eq!(v.len(), 257);
    assert_eq!(v[0], GlobalPathState { flags: 3, stalled: 1, double_speed: true });
    assert!(v[1..].iter().all(|p| *p == GlobalPathState::default()));
    assert_eq!(GlobalPathState::default(), GlobalPathState { flags: 0, stalled: 0, double_speed: false });
}

#[test]
fn prop_from_args() {
    let p = PropNode::new(9, &args(40, 5), 1, &config());
    assert_eq!(p.get_ctrl_idx(), 9);
    assert_eq!(p.get_name_idx(), 40);
    assert!(p.is_initialized());
    assert!(!p.is_attached());
    assert_eq!(p.global_state, PropGlobalState::Unattached);
    assert_eq!(p.hit_on_area, 2);
    assert_eq!(p.move_type, 3);
    assert_eq!(p.link_action, None);
    assert_eq!(p.extra_action_type, Some(7));
    assert_eq!(p.unique_name_id, None);
    assert_eq!(p.comment_id, Some(12));
    assert_eq!(p.comment_group_id, None);
    assert!(!p.has_twin);
    assert_eq!(p.twin_id, None);
    assert!(p.disable_wobble);
    assert!(p.vs_drop_flag);
    assert_eq!(p.init_area, 1);
    assert_eq!(p.innate_motion_type, 4);
    assert_eq!(p.display_off_area, 5);
    assert_eq!(p.alpha_byte, 255);
    let uninit = PropNode::new(0, &args(u16::MAX, 0), 0, &config());
    assert!(!uninit.is_initialized());
}

#[test]
fn attach_status_bytes() {
    let mut p = PropNode::new(0, &args(1, 0), 0, &config());
    p.collect_diam_mm = 300;
    assert_eq!(p.get_attach_status(299), [0, 0, 255]);
    assert_eq!(p.get_attach_status(300), [2, 0, 255]);
    p.global_state = PropGlobalState::Attached;
    p.set_disabled(5);
    p.display_off = true;
    p.has_subobject = true;
    p.animation_type = PropAnimationType::PathFleeing;
    p.alpha_byte = 128;
    assert_eq!(p.get_attach_status(1000), [0x1f, 3, 128]);
    p.set_disabled(0);
    assert!(!p.force_disabled);
    assert_eq!(PropAnimationType::PutterSwing.to_u8(), 5);
}

fn props_with(areas: &[u16]) -> Props {
    let mut props = Props::default();
    for (i, area) in areas.iter().enumerate() {
        props.add_prop(i as u16, &args(i as u16, *area), 0, &config(), true);
    }
    props
}

#[test]
fn get_prop_and_get_mut_prop() {
    let mut props = props_with(&[1, 2]);
    assert_eq!(props.get_prop(1).unwrap().get_ctrl_idx(), 1);
    assert!(props.get_prop(2).is_none());
    props.get_mut_prop(0).unwrap().set_disabled(1);
    assert!(props.props[0].force_disabled);
    assert!(props.get_mut_prop(7).is_none());
}

#[test]
fn add_prop_needs_shape_data() {
    let mut props = Props::default();
    props.add_prop(0, &args(3, 0), 0, &config(), false);
    assert!(props.props.is_empty());
    props.add_prop(0, &args(3, 0), 0, &config(), true);
    assert_eq!(props.props.len(), 1);
}

#[test]
fn change_next_area_destroys_props_of_that_area() {
    let mut props = props_with(&[2, 3, 2, 4]);
    props.change_next_area(2);
    let ctrl: Vec<u16> = props.props.iter().map(|p| p.get_ctrl_idx()).collect();
    assert_eq!(ctrl, vec![1, 3]);
    // loading the same area again destroys nothing more
    props.change_next_area(2);
    assert_eq!(props.props.len(), 2);
}

#[test]
fn internal_prop_names() {
    let mut props = props_with(&[0, 0]);
    assert_eq!(props.get_internal_prop_name(0), Vec::<u8>::new());
    props.config = Some(vec![
        NamePropConfig { internal_name: b"zero".to_vec(), innate_motion_type: 0 },
        NamePropConfig { internal_name: b"one".to_vec(), innate_motion_type: 0 },
    ]);
    assert_eq!(props.get_internal_prop_name(1), b"one".to_vec());
    // no such prop: name index 0
    assert_eq!(props.get_internal_prop_name(9), b"zero".to_vec());
    props.props[0].name_idx = 30;
    assert_eq!(props.get_internal_prop_name(0), Vec::<u8>::new());
}

#[test]
fn attach_statuses_stop_at_first_uninitialized_prop() {
    let mut props = props_with(&[0, 0, 0]);
    props.props[1].global_state = PropGlobalState::Attached;
    props.props[2].name_idx = u16::MAX;
    let mut out = vec![0xaa; 10];
    let n = props.get_attach_statuses(&mut out, 10);
    assert_eq!(n, 2);
    assert_eq!(&out[0..6], &[2, 0, 255, 3, 0, 255]);
    assert_eq!(&out[6..], &[0xaa; 4]);
}

#[test]
fn prop_is_intangible_up_to_its_hit_area() {
    let mut p = PropNode::new(9, &args(40, 5), 1, &config());
    assert_eq!(p.get_hit_on_area(), Some(2));
    assert!(p.intangible_in_area(0));
    assert!(p.intangible_in_area(2));
    assert!(!p.intangible_in_area(3));
    p.hit_on_area = u8::MAX;
    assert_eq!(p.get_hit_on_area(), None);
    assert!(!p.intangible_in_area(0));
}

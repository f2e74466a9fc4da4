use vstd::prelude::*;

verus! {

/// The number of global path states a mission holds.
pub const NUM_GLOBAL_PATH_STATES: usize = 256;

/// State about a single path, which may have multiple props moving along it at once.
/// Updating this state allows individual props on the path to affect all such props.
#[derive(Debug, Clone, Copy, PartialEq, Eq, Structural)]
pub struct GlobalPathState {
    /// Flags: &1:reversed, &2:stalled.
    pub flags: u8,
    /// If >0, all objects on the path are stalled.
    pub stalled: u8,
    /// If true, all objects on the path are moving double speed.
    pub double_speed: bool,
}

/// The state of a path that no prop has touched yet.
pub open spec fn idle_path() -> GlobalPathState {
    GlobalPathState { flags: 0, stalled: 0, double_speed: false }
}

impl Default for GlobalPathState {
    fn default() -> (r: Self)
        ensures
            r == idle_path(),
    {
        GlobalPathState { flags: 0, stalled: 0, double_speed: false }
    }
}

impl GlobalPathState {
    /// Initialize the vector of global path states: appends one idle state per path.
    pub fn init(vec: &mut Vec<GlobalPathState>)
        ensures
            final(vec)@ == old(vec)@ + Seq::new(NUM_GLOBAL_PATH_STATES as nat, |i: int| idle_path()),
    {
        let ghost start = vec@;
        let mut i: usize = 0;
        while i < NUM_GLOBAL_PATH_STATES
            invariant
                i <= NUM_GLOBAL_PATH_STATES,
                vec@ == start + Seq::new(i as nat, |k: int| idle_path()),
            decreases NUM_GLOBAL_PATH_STATES - i,
        {
            vec.push(GlobalPathState::default());
            i = i + 1;
            assert(vec@ =~= start + Seq::new(i as nat, |k: int| idle_path()));
        }
    }
}

/// The global state of a prop.
#[derive(Debug, Clone, Copy, PartialEq, Eq, Structural)]
pub enum PropGlobalState {
    /// Normal unattached state.
    Unattached,
    /// Normal attached state.
    Attached,
    /// Briefly, just after being knocked airborne, while intangible to the katamari.
    AirborneIntangible,
}

/// The animation a prop is playing.
#[derive(Debug, Clone, Copy, PartialEq, Eq, Structural)]
pub enum PropAnimationType {
    Waiting,
    MovingForward,
    Animation2,
    PathFleeing,
    Animation4,
    PutterSwing,
}

/// The byte that encodes an animation type.
pub open spec fn animation_type_code(t: PropAnimationType) -> u8 {
    match t {
        PropAnimationType::Waiting => 0,
        PropAnimationType::MovingForward => 1,
        PropAnimationType::Animation2 => 2,
        PropAnimationType::PathFleeing => 3,
        PropAnimationType::Animation4 => 4,
        PropAnimationType::PutterSwing => 5,
    }
}

impl PropAnimationType {
    /// The byte that encodes this animation type.
    pub fn to_u8(self) -> (r: u8)
        ensures
            r == animation_type_code(self),
    {
        match self {
            PropAnimationType::Waiting => 0,
            PropAnimationType::MovingForward => 1,
            PropAnimationType::Animation2 => 2,
            PropAnimationType::PathFleeing => 3,
            PropAnimationType::Animation4 => 4,
            PropAnimationType::PutterSwing => 5,
        }
    }
}

/// Different animation types are encoded by different bytes.
pub proof fn law_animation_type_code_injective(a: PropAnimationType, b: PropAnimationType)
    ensures
        animation_type_code(a) == animation_type_code(b) ==> a == b,
{
}

/// The integer arguments the game hands over when it adds a prop.
/// (The prop's position, rotation and scale are not read by the logic here.)
#[derive(Debug, Clone, Copy, PartialEq, Eq)]
pub struct AddPropArgs {
    pub name_idx: u16,
    pub loc_pos_type: u16,
    pub random_group_id: u16,
    pub mono_move_type: u16,
    pub mono_hit_on_area: u16,
    pub link_action: u16,
    pub extra_action_type: u16,
    pub unique_name_id: u16,
    pub disp_off_area_no: u16,
    pub vs_drop_flag: u16,
    pub comment_id: u16,
    pub comment_group_id: u16,
    pub twin_id: u16,
    pub shake_off_flag: u16,
}

/// The per-name configuration of props.
#[derive(Debug)]
pub struct NamePropConfig {
    /// The internal name of the prop, as bytes.
    pub internal_name: Vec<u8>,
    /// Encodes motion behavior innate to this prop's name index.
    pub innate_motion_type: u8,
}

/// `u16::MAX` stands for "none" in the prop arguments.
pub open spec fn max_to_none(x: u16) -> Option<u16> {
    if x == u16::MAX {
        None
    } else {
        Some(x)
    }
}

fn u16_max_to_none(x: u16) -> (r: Option<u16>)
    ensures
        r == max_to_none(x),
{
    if x == u16::MAX {
        None
    } else {
        Some(x)
    }
}

/// The area up to which the prop `p` stays intangible, if any.
pub open spec fn hit_on_area_of(p: PropNode) -> Option<u8> {
    if p.hit_on_area == u8::MAX { None } else { Some(p.hit_on_area) }
}

/// The discrete state of a prop.
#[derive(Debug, Clone, Copy, PartialEq, Eq, Structural)]
pub struct PropNode {
    /// The unique id of this prop.
    pub ctrl_idx: u16,
    /// The object type of this prop.
    pub name_idx: u16,
    /// Some flags.
    pub flags: u8,
    pub global_state: PropGlobalState,
    /// Some more flags.
    pub flags2: u8,
    /// If true, the prop won't update.
    pub force_disabled: bool,
    /// If true, the prop won't be displayed.
    pub display_off: bool,
    /// The alpha level of the prop, quantized to a byte (255 is opaque).
    pub alpha_byte: u8,
    pub move_type: u16,
    /// The prop is intangible until the player loads this area.
    pub hit_on_area: u8,
    /// Encodes the behavior of this prop relative to its child/parent.
    pub link_action: Option<u16>,
    /// Encodes motion behavior innate to this prop's name index.
    pub innate_motion_type: u8,
    /// The state index of the innate motion action.
    pub innate_motion_state: u8,
    /// If true, the prop cannot wobble.
    pub disable_wobble: bool,
    /// The area in which this prop loaded.
    pub init_area: u8,
    pub extra_action_type: Option<u16>,
    /// The unique name id of this prop, if it has one.
    pub unique_name_id: Option<u16>,
    /// The area at which this prop is destroyed.
    pub display_off_area: u16,
    pub vs_drop_flag: bool,
    /// The prop's animation type.
    pub animation_type: PropAnimationType,
    /// The king message played when this prop is collected, if any.
    pub comment_id: Option<u16>,
    /// The king message played when all props of this group are collected, if any.
    pub comment_group_id: Option<u16>,
    /// True if the prop isn't moving.
    pub stationary: bool,
    /// The minimum katamari diameter needed to collect this object (in mm).
    pub collect_diam_mm: i32,
    /// True if this prop has a twin prop on the Gemini mission.
    pub has_twin: bool,
    /// The twin ID of this prop, if any.
    pub twin_id: Option<u16>,
    /// True if the prop has at least one subobject.
    pub has_subobject: bool,
}

/// The prop that `PropNode::new` builds from its arguments.
pub open spec fn prop_from_args(
    ctrl_idx: u16,
    args: AddPropArgs,
    area: u8,
    innate_motion_type: u8,
) -> PropNode {
    PropNode {
        ctrl_idx: ctrl_idx,
        name_idx: args.name_idx,
        flags: 0,
        global_state: PropGlobalState::Unattached,
        flags2: 0,
        force_disabled: false,
        display_off: false,
        alpha_byte: 255,
        move_type: args.mono_move_type,
        hit_on_area: args.mono_hit_on_area as u8,
        link_action: max_to_none(args.link_action),
        innate_motion_type: innate_motion_type,
        innate_motion_state: 0,
        disable_wobble: args.shake_off_flag != 0,
        init_area: area,
        extra_action_type: max_to_none(args.extra_action_type),
        unique_name_id: max_to_none(args.unique_name_id),
        display_off_area: args.disp_off_area_no,
        vs_drop_flag: args.vs_drop_flag != 0,
        animation_type: PropAnimationType::Waiting,
        comment_id: max_to_none(args.comment_id),
        comment_group_id: max_to_none(args.comment_group_id),
        stationary: true,
        collect_diam_mm: 0,
        has_twin: args.twin_id != u16::MAX,
        twin_id: max_to_none(args.twin_id),
        has_subobject: false,
    }
}

/// The status byte of a prop: bit 1 attached, 2 collectible, 4 has a subobject,
/// 8 disabled, 0x10 hidden.
pub open spec fn attach_status_flags(p: PropNode, kat_diam_int: i32) -> int {
    (if p.global_state == PropGlobalState::Attached { 1int } else { 0int })
        + (if p.collect_diam_mm <= kat_diam_int { 2int } else { 0int })
        + (if p.has_subobject { 4int } else { 0int })
        + (if p.force_disabled { 8int } else { 0int })
        + (if p.display_off { 16int } else { 0int })
}

/// The three status bytes of a prop: flags, animation type and alpha.
pub open spec fn attach_status(p: PropNode, kat_diam_int: i32) -> Seq<u8> {
    seq![attach_status_flags(p, kat_diam_int) as u8, animation_type_code(p.animation_type), p.alpha_byte]
}

impl PropNode {
    /// Creates a prop from the arguments the game hands over.
    /// `area` is the area the prop loads in; `config` is the configuration of its name.
    pub fn new(ctrl_idx: u16, args: &AddPropArgs, area: u8, config: &NamePropConfig) -> (r: PropNode)
        requires
            args.mono_hit_on_area <= 255,
        ensures
            r == prop_from_args(ctrl_idx, *args, area, config.innate_motion_type),
    {
        PropNode {
            ctrl_idx: ctrl_idx,
            name_idx: args.name_idx,
            flags: 0,
            global_state: PropGlobalState::Unattached,
            flags2: 0,
            force_disabled: false,
            display_off: false,
            alpha_byte: 255,
            move_type: args.mono_move_type,
            hit_on_area: args.mono_hit_on_area as u8,
            link_action: u16_max_to_none(args.link_action),
            innate_motion_type: config.innate_motion_type,
            innate_motion_state: 0,
            disable_wobble: args.shake_off_flag != 0,
            init_area: area,
            extra_action_type: u16_max_to_none(args.extra_action_type),
            unique_name_id: u16_max_to_none(args.unique_name_id),
            display_off_area: args.disp_off_area_no,
            vs_drop_flag: args.vs_drop_flag != 0,
            animation_type: PropAnimationType::Waiting,
            comment_id: u16_max_to_none(args.comment_id),
            comment_group_id: u16_max_to_none(args.comment_group_id),
            stationary: true,
            collect_diam_mm: 0,
            has_twin: args.twin_id != u16::MAX,
            twin_id: u16_max_to_none(args.twin_id),
            has_subobject: false,
        }
    }

    pub fn get_ctrl_idx(&self) -> (r: u16)
        ensures
            r == self.ctrl_idx,
    {
        self.ctrl_idx
    }

    pub fn get_name_idx(&self) -> (r: u16)
        ensures
            r == self.name_idx,
    {
        self.name_idx
    }

    /// A prop slot is initialized when it holds a real name index.
    pub fn is_initialized(&self) -> (r: bool)
        ensures
            r == (self.name_idx != u16::MAX),
    {
        self.name_idx != u16::MAX
    }

    pub fn is_attached(&self) -> (r: bool)
        ensures
            r == (self.global_state == PropGlobalState::Attached),
    {
        match self.global_state {
            PropGlobalState::Attached => true,
            _ => false,
        }
    }

    /// Any nonzero value disables the prop.
    pub fn set_disabled(&mut self, force_disabled: i32)
        ensures
            *final(self) == (PropNode { force_disabled: force_disabled != 0, ..*old(self) }),
    {
        self.force_disabled = force_disabled != 0;
    }

    /// The prop is destroyed when the given area loads if it is its "display off" area.
    pub fn check_destroy_on_area_load(&self, area: u8) -> (keep: bool)
        ensures
            keep == (self.display_off_area != area as u16),
    {
        self.display_off_area != area as u16
    }

    /// The three status bytes of this prop: flags, animation type and quantized alpha.
    pub fn get_attach_status(&self, kat_diam_int: i32) -> (r: [u8; 3])
        ensures
            r@ == attach_status(*self, kat_diam_int),
    {
        let mut status: u8 = 0;
        if self.is_attached() {
            status = status + 1;
        }
        if self.collect_diam_mm <= kat_diam_int {
            status = status + 2;
        }
        if self.has_subobject {
            status = status + 4;
        }
        if self.force_disabled {
            status = status + 8;
        }
        if self.display_off {
            status = status + 16;
        }
        let r = [status, self.animation_type.to_u8(), self.alpha_byte];
        assert(r@ =~= attach_status(*self, kat_diam_int));
        r
    }

    /// The area up to which the prop stays intangible, if any: the byte `u8::MAX`
    /// stands for none, as the maximum of a field does for the prop's other optional
    /// fields.
    pub fn get_hit_on_area(&self) -> (r: Option<u8>)
        ensures
            r == hit_on_area_of(*self),
    {
        if self.hit_on_area == u8::MAX {
            None
        } else {
            Some(self.hit_on_area)
        }
    }

    /// Whether the katamari skips the mesh collision check with this prop while the
    /// loaded area is `area`: the prop is intangible up to and including its
    /// `hit_on_area`.
    pub fn intangible_in_area(&self, area: u8) -> (r: bool)
        ensures
            r == (match hit_on_area_of(*self) {
                Some(h) => area <= h,
                None => false,
            }),
            r == (self.hit_on_area != u8::MAX && area <= self.hit_on_area),
    {
        match self.get_hit_on_area() {
            Some(h) => area <= h,
            None => false,
        }
    }
}

/// Whether a prop survives the loading of `area`.
pub open spec fn kept_on_area_load(area: u8) -> spec_fn(PropNode) -> bool {
    |p: PropNode| p.display_off_area != area as u16
}

/// The number of props at the front of `s` that are initialized.
pub open spec fn leading_initialized(s: Seq<PropNode>, n: int) -> bool {
    &&& 0 <= n <= s.len()
    &&& forall|i: int| 0 <= i < n ==> (#[trigger] s[i]).name_idx != u16::MAX
    &&& n < s.len() ==> s[n].name_idx == u16::MAX
}

/// State of all props in the current mission.
#[derive(Debug)]
pub struct Props {
    pub props: Vec<PropNode>,
    pub global_paths: GlobalPathState,
    pub config: Option<Vec<NamePropConfig>>,
}

impl Default for Props {
    fn default() -> (r: Self)
        ensures
            r.props@ == Seq::<PropNode>::empty(),
            r.global_paths == idle_path(),
            r.config is None,
    {
        Props { props: Vec::new(), global_paths: GlobalPathState::default(), config: None }
    }
}

impl Props {
    /// The prop with control index `ctrl_idx`, if there is one.
    pub fn get_prop(&self, ctrl_idx: usize) -> (r: Option<&PropNode>)
        ensures
            ctrl_idx < self.props.len() ==> r == Some(&self.props@[ctrl_idx as int]),
            ctrl_idx >= self.props.len() ==> r is None,
    {
        if ctrl_idx < self.props.len() {
            Some(&self.props[ctrl_idx])
        } else {
            None
        }
    }

    /// A mutable reference to the prop with control index `ctrl_idx`, if there is one.
    pub fn get_mut_prop(&mut self, ctrl_idx: usize) -> (r: Option<&mut PropNode>)
        ensures
            ctrl_idx < old(self).props.len() <==> r is Some,
            r is None ==> *final(self) == *old(self),
            match r {
                Some(p) => {
                    &&& *p == old(self).props@[ctrl_idx as int]
                    &&& final(self).props@ == old(self).props@.update(ctrl_idx as int, *final(p))
                    &&& final(self).global_paths == old(self).global_paths
                    &&& final(self).config == old(self).config
                },
                None => true,
            },
    {
        if ctrl_idx < self.props.len() {
            Some(&mut self.props[ctrl_idx])
        } else {
            None
        }
    }

    /// Destroys the props whose "display off" area is the area that loads next;
    /// the others stay, in their order.
    pub fn change_next_area(&mut self, area: u8)
        ensures
            final(self).props@ == old(self).props@.filter(kept_on_area_load(area)),
            final(self).global_paths == old(self).global_paths,
            final(self).config == old(self).config,
    {
        let ghost before = self.props@;
        let ghost keep = kept_on_area_load(area);
        let mut kept: Vec<PropNode> = Vec::new();
        let mut i: usize = 0;
        while i < self.props.len()
            invariant
                self.props@ == before,
                keep == kept_on_area_load(area),
                i <= before.len(),
                kept@ == before.take(i as int).filter(keep),
            decreases before.len() - i,
        {
            let p = self.props[i];
            proof {
                assert(before.take(i + 1) =~= before.take(i as int).push(p));
                before.take(i as int).lemma_filter_push(p, keep);
            }
            if p.check_destroy_on_area_load(area) {
                kept.push(p);
            }
            i = i + 1;
        }
        proof {
            assert(before.take(before.len() as int) =~= before);
        }
        self.props = kept;
    }

    /// The internal name of the prop with control index `ctrl_idx`: the name of its
    /// name index in the configuration (name index 0 where there is no such prop),
    /// or no bytes where there is no configuration or no such name.
    pub fn get_internal_prop_name(&self, ctrl_idx: usize) -> (r: Vec<u8>)
        ensures
            r@ == internal_prop_name(*self, ctrl_idx as int),
    {
        match &self.config {
            Some(configs) => {
                let name_idx: u16 = match self.get_prop(ctrl_idx) {
                    Some(p) => p.get_name_idx(),
                    None => 0,
                };
                if (name_idx as usize) < configs.len() {
                    let name = &configs[name_idx as usize].internal_name;
                    let mut out: Vec<u8> = Vec::new();
                    let mut k: usize = 0;
                    while k < name.len()
                        invariant
                            k <= name.len(),
                            out@ == name@.take(k as int),
                        decreases name.len() - k,
                    {
                        out.push(name[k]);
                        k = k + 1;
                        assert(out@ =~= name@.take(k as int));
                    }
                    assert(name@.take(name.len() as int) =~= name@);
                    out
                } else {
                    Vec::new()
                }
            },
            None => Vec::new(),
        }
    }

    /// Writes the three status bytes of each prop, in order, to `out`, stopping at the
    /// first prop that is not initialized; returns how many props were written.
    pub fn get_attach_statuses(&self, out: &mut Vec<u8>, kat_diam_int: i32) -> (n: i32)
        requires
            old(out).len() >= 3 * self.props.len(),
            self.props.len() <= i32::MAX,
        ensures
            leading_initialized(self.props@, n as int),
            final(out).len() == old(out).len(),
            forall|i: int, j: int|
                0 <= i < n && 0 <= j < 3 ==> #[trigger] final(out)@[3 * i + j]
                    == attach_status(self.props@[i], kat_diam_int)[j],
            forall|k: int|
                3 * n <= k < final(out).len() ==> #[trigger] final(out)@[k] == old(out)@[k],
    {
        let mut i: usize = 0;
        while i < self.props.len()
            invariant_except_break
                forall|m: int| 0 <= m < i ==> (#[trigger] self.props@[m]).name_idx != u16::MAX,
            invariant
                i <= self.props.len(),
                self.props.len() <= i32::MAX,
                out.len() == old(out).len(),
                out.len() >= 3 * self.props.len(),
                forall|m: int, j: int|
                    0 <= m < i && 0 <= j < 3 ==> #[trigger] out@[3 * m + j]
                        == attach_status(self.props@[m], kat_diam_int)[j],
                forall|k: int| 3 * i <= k < out.len() ==> #[trigger] out@[k] == old(out)@[k],
            ensures
                leading_initialized(self.props@, i as int),
                forall|m: int, j: int|
                    0 <= m < i && 0 <= j < 3 ==> #[trigger] out@[3 * m + j]
                        == attach_status(self.props@[m], kat_diam_int)[j],
                forall|k: int| 3 * i <= k < out.len() ==> #[trigger] out@[k] == old(out)@[k],
                out.len() == old(out).len(),
            decreases self.props.len() - i,
        {
            let p = &self.props[i];
            if !p.is_initialized() {
                break;
            }
            let status = p.get_attach_status(kat_diam_int);
            let ghost prev = out@;
            out.set(3 * i, status[0]);
            out.set(3 * i + 1, status[1]);
            out.set(3 * i + 2, status[2]);
            proof {
                assert forall|m: int, j: int|
                    0 <= m < i + 1 && 0 <= j < 3 implies #[trigger] out@[3 * m + j]
                        == attach_status(self.props@[m], kat_diam_int)[j] by {
                    if m < i {
                        assert(prev[3 * m + j] == attach_status(self.props@[m], kat_diam_int)[j]);
                    } else {
                        assert(status@[j] == attach_status(self.props@[m], kat_diam_int)[j]);
                    }
                }
                assert forall|k: int| 3 * (i + 1) <= k < out.len() implies #[trigger] out@[k]
                    == old(out)@[k] by {
                    assert(prev[k] == old(out)@[k]);
                }
            }
            i = i + 1;
        }
        i as i32
    }

    /// Creates a prop from the given arguments and adds it to the prop list, when the
    /// prop's shape data is present (`has_mono_data`); otherwise nothing changes.
    pub fn add_prop(
        &mut self,
        ctrl_idx: u16,
        args: &AddPropArgs,
        area: u8,
        config: &NamePropConfig,
        has_mono_data: bool,
    )
        requires
            args.mono_hit_on_area <= 255,
        ensures
            has_mono_data ==> final(self).props@ == old(self).props@.push(
                prop_from_args(ctrl_idx, *args, area, config.innate_motion_type),
            ),
            !has_mono_data ==> final(self).props@ == old(self).props@,
            final(self).global_paths == old(self).global_paths,
            final(self).config == old(self).config,
    {
        if has_mono_data {
            let prop = PropNode::new(ctrl_idx, args, area, config);
            self.props.push(prop);
        }
    }
}

/// The internal name `get_internal_prop_name` gives back.
pub open spec fn internal_prop_name(s: Props, ctrl_idx: int) -> Seq<u8> {
    match s.config {
        Some(configs) => {
            let name_idx: int = if 0 <= ctrl_idx < s.props.len() {
                s.props@[ctrl_idx].name_idx as int
            } else {
                0
            };
            if name_idx < configs.len() {
                configs@[name_idx].internal_name@
            } else {
                Seq::empty()
            }
        },
        None => Seq::empty(),
    }
}

/// After an area loads, no remaining prop has that area as its "display off" area,
/// and every prop that does not is still there.
pub proof fn law_area_change_destroys_exactly(props: Seq<PropNode>, area: u8)
    ensures
        forall|i: int|
            0 <= i < props.filter(kept_on_area_load(area)).len() ==> (#[trigger] props.filter(
                kept_on_area_load(area),
            )[i]).display_off_area != area as u16,
        forall|i: int|
            0 <= i < props.len() && props[i].display_off_area != area as u16 ==> props.filter(
                kept_on_area_load(area),
            ).contains(#[trigger] props[i]),
{
    broadcast use Seq::lemma_filter_pred, Seq::lemma_filter_contains;
    let f = kept_on_area_load(area);
    assert forall|i: int| 0 <= i < props.filter(f).len() implies (#[trigger] props.filter(
        f,
    )[i]).display_off_area != area as u16 by {
        props.lemma_filter_pred(f, i);
    }
    assert forall|i: int|
        0 <= i < props.len() && props[i].display_off_area != area as u16 implies props.filter(
        f,
    ).contains(#[trigger] props[i]) by {
        props.lemma_filter_contains(f, i);
    }
}

/// Loading the same area twice destroys nothing more the second time.
pub proof fn law_area_change_idempotent(props: Seq<PropNode>, area: u8)
    ensures
        props.filter(kept_on_area_load(area)).filter(kept_on_area_load(area))
            == props.filter(kept_on_area_load(area)),
    decreases props.len(),
{
    let f = kept_on_area_load(area);
    if props.len() > 0 {
        let init = props.drop_last();
        let last = props.last();
        law_area_change_idempotent(init, area);
        assert(props =~= init.push(last));
        init.lemma_filter_push(last, f);
        if f(last) {
            init.filter(f).lemma_filter_push(last, f);
        }
    } else {
        reveal(Seq::filter);
    }
}

} // verus!

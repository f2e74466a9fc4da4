use vstd::prelude::*;
use crate::camera::CameraMode;
use crate::flags::KatPhysicsFlags;
use crate::input::{AnalogPushDirs, GachaDir, Input, StickPushDir, spec_stick_push_dir, spec_changed_dir};
use crate::mission::{GameMode, TutorialMove};

verus! {

/// Various one-byte fields of the prince that are shared with the game frontend.
#[derive(Debug, Clone, Copy, PartialEq, Eq, Structural)]
pub struct OujiState {
    pub dash_start: bool,
    pub wheel_spin_start: bool,
    pub dash: bool,
    pub wheel_spin: bool,
    pub jump_180: bool,
    pub sw_speed_disp: bool,
    pub climb_wall: bool,
    pub huff: bool,
    pub camera_mode: u8,
    pub dash_effect: bool,
    pub hit_water: bool,
    pub submerge: bool,
    /// A copy of the camera's R1 jump state.
    pub camera_state: u8,
    pub jump_180_leap: u8,
    pub brake: bool,
    pub tutorial_flag_1: u8,
    pub tutorial_flag_2: u8,
    pub tutorial_trigger_1: u8,
    pub tutorial_trigger_2: u8,
    pub power_charge: u8,
    pub fire_to_enemy: u8,
    pub search: u8,
    pub attack_1: u8,
    pub attack_2: u8,
    pub tarai: u8,
    pub attack_wait: u8,
    pub vs_attack: bool,
}

/// The shared state with every flag false and every byte zero.
pub open spec fn ouji_zero() -> OujiState {
    OujiState {
        dash_start: false,
        wheel_spin_start: false,
        dash: false,
        wheel_spin: false,
        jump_180: false,
        sw_speed_disp: false,
        climb_wall: false,
        huff: false,
        camera_mode: 0,
        dash_effect: false,
        hit_water: false,
        submerge: false,
        camera_state: 0,
        jump_180_leap: 0,
        brake: false,
        tutorial_flag_1: 0,
        tutorial_flag_2: 0,
        tutorial_trigger_1: 0,
        tutorial_trigger_2: 0,
        power_charge: 0,
        fire_to_enemy: 0,
        search: 0,
        attack_1: 0,
        attack_2: 0,
        tarai: 0,
        attack_wait: 0,
        vs_attack: false,
    }
}

impl Default for OujiState {
    fn default() -> (r: Self)
        ensures
            r == ouji_zero(),
    {
        OujiState {
            dash_start: false,
            wheel_spin_start: false,
            dash: false,
            wheel_spin: false,
            jump_180: false,
            sw_speed_disp: false,
            climb_wall: false,
            huff: false,
            camera_mode: 0,
            dash_effect: false,
            hit_water: false,
            submerge: false,
            camera_state: 0,
            jump_180_leap: 0,
            brake: false,
            tutorial_flag_1: 0,
            tutorial_flag_2: 0,
            tutorial_trigger_1: 0,
            tutorial_trigger_2: 0,
            power_charge: 0,
            fire_to_enemy: 0,
            search: 0,
            attack_1: 0,
            attack_2: 0,
            tarai: 0,
            attack_wait: 0,
            vs_attack: false,
        }
    }
}

/// The state `o` with boosting and spinning ended.
pub open spec fn ouji_boost_ended(o: OujiState) -> OujiState {
    OujiState { dash_start: false, dash: false, wheel_spin_start: false, wheel_spin: false, ..o }
}

impl OujiState {
    /// End boosting and spinning.
    pub fn end_boost(&mut self)
        ensures
            *final(self) == ouji_boost_ended(*old(self)),
    {
        let o = *self;
        *self = OujiState { dash_start: false, dash: false, wheel_spin_start: false, wheel_spin: false, ..o };
    }
}

/// Ending a boost twice is the same as ending it once, and leaves the prince neither
/// boosting nor spinning.
pub proof fn law_end_boost_idempotent(o: OujiState)
    ensures
        ouji_boost_ended(ouji_boost_ended(o)) == ouji_boost_ended(o),
        !ouji_boost_ended(o).dash && !ouji_boost_ended(o).wheel_spin,
{
}

/// The prince's view mode, which distinguishes being in the R1 and L1 states.
#[derive(Debug, Clone, Copy, PartialEq, Eq, Structural)]
pub enum PrinceViewMode {
    Normal,
    R1Jump,
    L1Look,
}

impl Default for PrinceViewMode {
    fn default() -> (r: Self)
        ensures
            r == PrinceViewMode::Normal,
    {
        PrinceViewMode::Normal
    }
}

/// The directions that the prince can push the katamari.
#[derive(Debug, Clone, Copy, PartialEq, Eq, Structural)]
pub enum PushDir {
    Forwards,
    Backwards,
    Sideways,
}

/// The directions that the prince can push the katamari sideways.
#[derive(Debug, Clone, Copy, PartialEq, Eq, Structural)]
pub enum PrinceSidewaysDir {
    Left,
    Right,
}

/// Classifies the ways the prince can be turning around the katamari.
#[derive(Debug, Clone, Copy, PartialEq, Eq, Structural)]
pub enum PrinceTurnType {
    /// No analog input.
    NoTurn,
    /// Left stick up, right stick neutral.
    LeftStickUp,
    /// Right stick up, left stick neutral.
    RightStickUp,
    /// Left stick down, right stick neutral.
    LeftStickDown,
    /// Right stick down, left stick neutral.
    RightStickDown,
    /// R1 flip in progress.
    Flip,
    /// Both sticks are non-neutral.
    BothSticks,
}


/// The number of post-spin gachas needed to boost, starting at a katamari diameter.
#[derive(Debug, Clone, Copy, PartialEq, Eq, Structural)]
pub struct BoostGachaParam {
    /// The minimum katamari diameter (in mm) at which this gacha value applies.
    /// (Each threshold is a whole number of centimeters, so comparing it to the katamari's
    /// truncated diameter in mm decides exactly as comparing centimeters.)
    pub min_diam_mm: i32,
    /// The number of post-spin gachas needed to boost.
    pub num_gachas: u8,
}

/// The gacha counts of the prince.
#[derive(Debug, Clone, Copy, PartialEq, Eq)]
pub struct PrinceParams {
    /// The number of gachas needed to spin.
    pub prince_gachas_for_spin: u8,
    /// The number of post-spin gachas needed to boost, which varies by size.
    /// The thresholds are in increasing order.
    pub prince_extra_gachas_for_boost: [BoostGachaParam; 4],
}

/// The index of the first threshold at or after `i` that is above `diam_mm`
/// (or the length of `s` when there is none).
pub open spec fn first_threshold_above(s: Seq<BoostGachaParam>, diam_mm: i32, i: int) -> int
    decreases s.len() - i,
{
    if i >= s.len() {
        s.len() as int
    } else if s[i].min_diam_mm > diam_mm {
        i
    } else {
        first_threshold_above(s, diam_mm, i + 1)
    }
}

/// The boost gacha count is defined for `diam_mm`: the first threshold is not above
/// it, and the count fits in a byte.
pub open spec fn boost_gachas_defined(p: PrinceParams, diam_mm: i32) -> bool {
    let s = p.prince_extra_gachas_for_boost@;
    let k = first_threshold_above(s, diam_mm, 0);
    &&& 0 < k
    &&& p.prince_gachas_for_spin + s[k - 1].num_gachas <= u8::MAX
}

/// The number of gachas needed to boost at diameter `diam_mm`: the spin gachas plus the
/// extra gachas of the largest threshold not above the diameter (the last threshold
/// applies to every larger diameter).
pub open spec fn boost_gachas(p: PrinceParams, diam_mm: i32) -> int {
    let s = p.prince_extra_gachas_for_boost@;
    p.prince_gachas_for_spin + s[first_threshold_above(s, diam_mm, 0) - 1].num_gachas
}

proof fn lemma_first_threshold_skip(s: Seq<BoostGachaParam>, diam_mm: i32, i: int, j: int)
    requires
        0 <= i <= j <= s.len(),
        forall|k: int| i <= k < j ==> #[trigger] s[k].min_diam_mm <= diam_mm,
    ensures
        first_threshold_above(s, diam_mm, i) == first_threshold_above(s, diam_mm, j),
    decreases j - i,
{
    if i < j {
        lemma_first_threshold_skip(s, diam_mm, i + 1, j);
    }
}

impl PrinceParams {
    /// The default gacha counts: 3 gachas to spin; 2, 3, 4 or 5 more to boost from
    /// diameters of 0cm, 50cm, 5m and 10m on.
    pub fn new() -> (r: PrinceParams)
        ensures
            r.prince_gachas_for_spin == 3,
            r.prince_extra_gachas_for_boost@ == seq![
                BoostGachaParam { min_diam_mm: 0, num_gachas: 2 },
                BoostGachaParam { min_diam_mm: 500, num_gachas: 3 },
                BoostGachaParam { min_diam_mm: 5000, num_gachas: 4 },
                BoostGachaParam { min_diam_mm: 10000, num_gachas: 5 },
            ],
    {
        let v = [
            BoostGachaParam { min_diam_mm: 0, num_gachas: 2 },
            BoostGachaParam { min_diam_mm: 500, num_gachas: 3 },
            BoostGachaParam { min_diam_mm: 5000, num_gachas: 4 },
            BoostGachaParam { min_diam_mm: 10000, num_gachas: 5 },
        ];
        PrinceParams { prince_gachas_for_spin: 3, prince_extra_gachas_for_boost: v }
    }

    /// Compute the number of gachas needed to boost at the katamari diameter `diam_mm`.
    pub fn gachas_for_boost(&self, diam_mm: i32) -> (r: u8)
        requires
            boost_gachas_defined(*self, diam_mm),
        ensures
            r == boost_gachas(*self, diam_mm),
    {
        let ghost s = self.prince_extra_gachas_for_boost@;
        let n = self.prince_extra_gachas_for_boost.len();
        let mut i: usize = 0;
        while i < n
            invariant
                n == s.len(),
                s == self.prince_extra_gachas_for_boost@,
                0 <= i <= n,
                forall|k: int| 0 <= k < i ==> #[trigger] s[k].min_diam_mm <= diam_mm,
                boost_gachas_defined(*self, diam_mm),
            decreases n - i,
        {
            if self.prince_extra_gachas_for_boost[i].min_diam_mm > diam_mm {
                proof {
                    lemma_first_threshold_skip(s, diam_mm, 0, i as int);
                }
                return self.prince_gachas_for_spin + self.prince_extra_gachas_for_boost[i - 1].num_gachas;
            }
            i = i + 1;
        }
        proof {
            lemma_first_threshold_skip(s, diam_mm, 0, n as int);
        }
        self.prince_gachas_for_spin + self.prince_extra_gachas_for_boost[n - 1].num_gachas
    }
}


/// The discrete state of the prince: input flags, gachas, boost energy, huffing,
/// view mode and flip timing. (Positions, angles and analog magnitudes are floats and
/// are kept by the caller.)
#[derive(Debug, Clone, Copy, PartialEq, Eq)]
pub struct Prince {
    /// The player index controlling this prince.
    pub player: u8,
    /// Bit flags: `0x100` is set once the transform has been updated,
    /// `0x40000` while quick shifting against a moving katamari.
    pub flags: u32,
    /// The prince's view mode.
    pub view_mode: PrinceViewMode,
    /// A versus-mode flag set when a huff starts.
    pub vs_mode_huff_related_flag: bool,
    /// True if the prince is huffing.
    pub is_huffing: bool,
    /// Bit flags: `&1` = left stick pushed, `&2` = right stick pushed.
    pub sticks_pushed: u8,
    /// On the second half of a flip, where the prince is falling.
    pub falling_from_flip: bool,
    /// The prince is rotating quickly around the katamari.
    pub is_quick_shifting: bool,
    /// Fields shared with the game frontend.
    pub oujistate: OujiState,
    /// The previous tick's `oujistate`.
    pub last_oujistate: OujiState,
    /// If >0, input is ignored; if <0, input is ignored until changed; if 0, input is read.
    pub ignore_input_timer: i16,
    /// The number of ticks a flip takes.
    pub flip_duration: u16,
    /// The number of ticks allowed between gachas before the gacha count resets.
    pub gacha_window_duration: u16,
    /// The number of gachas needed to initiate a spin.
    pub gachas_for_spin: u16,
    /// The maximum boost energy.
    pub boost_max_energy: u16,
    /// The amount of boost energy gained per recharge.
    pub boost_recharge: u16,
    /// The number of ticks between boost recharges.
    pub boost_recharge_frequency: u16,
    /// The duration of a huff, in ticks.
    pub huff_duration: u16,
    /// The number of ticks remaining in the current flip.
    pub flip_timer: u16,
    /// Input push directions which just changed this tick.
    pub push_dirs_changed: AnalogPushDirs,
    /// Current input push directions.
    pub push_dirs: AnalogPushDirs,
    /// Input push directions on the previous tick.
    pub last_push_dirs: AnalogPushDirs,
    /// The previous gacha direction.
    pub last_gacha_direction: Option<GachaDir>,
    /// The remaining ticks before the gacha count resets.
    pub gacha_window_timer: u16,
    /// True if a gacha has been performed since the last spin.
    pub did_gacha_since_last_spin: bool,
    /// The number of gachas counted without the gacha timer expiring.
    pub gacha_count: u8,
    /// The amount of remaining boost energy.
    pub boost_energy: u16,
    /// The number of ticks since the prince last boosted.
    pub no_dash_ticks: u16,
    /// The remaining ticks in the current huff.
    pub huff_timer: u16,
    /// The direction the prince is pushing the katamari, if any.
    pub push_dir: Option<PushDir>,
    /// The direction the prince is pushing the katamari sideways, if any.
    pub push_sideways_dir: Option<PrinceSidewaysDir>,
    /// The type of turning the prince is doing.
    pub turn_type: PrinceTurnType,
    /// The lock caused by large collision impacts is active.
    pub impact_lock_active: bool,
}

/// What the caller must do to the camera after `Prince::try_end_view_mode`.
#[derive(Debug, Clone, Copy, PartialEq, Eq, Structural)]
pub enum ViewModeEnd {
    /// The view mode continues.
    Continue,
    /// The view mode ended; the camera mode stays as it is.
    EndedKeepCamera,
    /// The view mode ended; the camera returns to its normal mode.
    EndedResetCamera,
}

/// The sticks-pushed bit flags of `input`: bit 1 for a non-neutral left stick,
/// bit 2 for a non-neutral right stick.
pub open spec fn spec_sticks_pushed(input: Input) -> u8 {
    ((if input.ls_x != 0 || input.ls_y != 0 { 1u8 } else { 0u8 })
        + (if input.rs_x != 0 || input.rs_y != 0 { 2u8 } else { 0u8 })) as u8
}

/// The state `p` with the view mode ended.
pub open spec fn view_mode_ended(p: Prince) -> Prince {
    Prince { view_mode: PrinceViewMode::Normal, ignore_input_timer: 0, ..p }
}

/// Both analog sticks are pushed.
pub open spec fn both_sticks_pushed(sticks_pushed: u8) -> bool {
    sticks_pushed & 3 == 3
}

/// The camera action that ends (or keeps) the current view mode: an R1 jump ends at once
/// in preclear mode, otherwise when the camera is back to normal; an L1 look ends in
/// preclear mode or when both sticks are pushed.
pub open spec fn spec_view_mode_end(p: Prince, preclear_enabled: bool, camera_mode: CameraMode) -> ViewModeEnd {
    match p.view_mode {
        PrinceViewMode::R1Jump => if preclear_enabled {
            ViewModeEnd::EndedKeepCamera
        } else if camera_mode == CameraMode::Normal {
            ViewModeEnd::EndedResetCamera
        } else {
            ViewModeEnd::Continue
        },
        PrinceViewMode::L1Look => if preclear_enabled || both_sticks_pushed(p.sticks_pushed) {
            ViewModeEnd::EndedResetCamera
        } else {
            ViewModeEnd::Continue
        },
        PrinceViewMode::Normal => ViewModeEnd::Continue,
    }
}

/// The prince should begin a flip: not already jumping or flipping, its transform has
/// been updated, one stick is clicked while the other is held, and both sticks are
/// within the analog limit that allows a flip.
pub open spec fn spec_should_init_flip(p: Prince, input: Input, sticks_within_flip_limit: bool) -> bool {
    &&& p.view_mode != PrinceViewMode::R1Jump
    &&& !p.oujistate.jump_180
    &&& p.flags & 0x100 != 0
    &&& ((input.l3_held && input.r3_down) || (input.r3_held && input.l3_down))
    &&& sticks_within_flip_limit
}

/// The state `p` after one tick of the huff timer.
pub open spec fn huff_ticked(p: Prince) -> Prince {
    let t = if p.huff_timer == 0 { 0 } else { (p.huff_timer - 1) as u16 };
    Prince {
        huff_timer: t,
        is_huffing: t != 0,
        oujistate: OujiState { huff: t != 0, ..p.oujistate },
        ..p
    }
}

/// The state `p` after one tick of boost recharging: while not boosting, every
/// `boost_recharge_frequency` ticks the energy grows by the recharge, up to the maximum
/// boost energy; while boosting the counter restarts.
pub open spec fn boost_recharged(p: Prince) -> Prince {
    if !p.oujistate.dash {
        let t = p.no_dash_ticks + 1;
        if t >= p.boost_recharge_frequency {
            let e = p.boost_energy + p.boost_recharge;
            Prince {
                no_dash_ticks: 0,
                boost_energy: (if e <= p.boost_max_energy { e } else { p.boost_max_energy as int }) as u16,
                ..p
            }
        } else {
            Prince { no_dash_ticks: t as u16, ..p }
        }
    } else {
        Prince { no_dash_ticks: 0, ..p }
    }
}

/// The no-boost tick counter of `p` can count one more tick.
pub open spec fn boost_recharge_fits(p: Prince) -> bool {
    !p.oujistate.dash ==> p.no_dash_ticks < u16::MAX
}

/// Every boost recharge stops at the maximum boost energy: an energy within the
/// maximum stays within it, and a recharge tick adds the recharge up to the maximum.
pub proof fn law_boost_recharge_capped(p: Prince)
    requires
        p.boost_energy <= p.boost_max_energy,
    ensures
        boost_recharged(p).boost_energy <= p.boost_max_energy,
        !p.oujistate.dash && p.no_dash_ticks + 1 >= p.boost_recharge_frequency ==> boost_recharged(p).boost_energy
            == if p.boost_energy + p.boost_recharge <= p.boost_max_energy {
            p.boost_energy + p.boost_recharge
        } else {
            p.boost_max_energy as int
        },
{
}

impl Prince {
    /// A prince with every counter zero, no input, and the default gacha counts.
    pub fn new() -> (r: Prince)
        ensures
            r.view_mode == PrinceViewMode::Normal,
            r.oujistate == ouji_zero(),
            r.flags == 0,
            r.boost_energy == 0,
            r.gacha_count == 0,
            r.huff_timer == 0,
            r.flip_timer == 0,
    {
        Prince {
            player: 0,
            flags: 0,
            view_mode: PrinceViewMode::Normal,
            vs_mode_huff_related_flag: false,
            is_huffing: false,
            sticks_pushed: 0,
            falling_from_flip: false,
            is_quick_shifting: false,
            oujistate: OujiState::default(),
            last_oujistate: OujiState::default(),
            ignore_input_timer: 0,
            flip_duration: 0,
            gacha_window_duration: 0,
            gachas_for_spin: 0,
            boost_max_energy: 0,
            boost_recharge: 0,
            boost_recharge_frequency: 0,
            huff_duration: 0,
            flip_timer: 0,
            push_dirs_changed: AnalogPushDirs { left: None, right: None },
            push_dirs: AnalogPushDirs { left: None, right: None },
            last_push_dirs: AnalogPushDirs { left: None, right: None },
            last_gacha_direction: None,
            gacha_window_timer: 0,
            did_gacha_since_last_spin: false,
            gacha_count: 0,
            boost_energy: 0,
            no_dash_ticks: 0,
            huff_timer: 0,
            push_dir: None,
            push_sideways_dir: None,
            turn_type: PrinceTurnType::NoTurn,
            impact_lock_active: false,
        }
    }
}


/// The state `p` after its transform was updated.
pub open spec fn transform_marked(p: Prince) -> Prince {
    Prince { flags: p.flags | 0x100, ..p }
}

/// The state `p` initialized for player `player` at the start of a mission: timers
/// zero, no push direction, default huff, gacha, boost and recharge settings, a full
/// boost, normal view mode and input read as usual.
pub open spec fn prince_initialized(p: Prince, player: u8) -> Prince {
    Prince {
        player,
        no_dash_ticks: 0,
        huff_timer: 0,
        push_dir: None,
        huff_duration: 240,
        gacha_window_duration: 14,
        boost_max_energy: 240,
        gachas_for_spin: 3,
        boost_recharge: 18,
        boost_recharge_frequency: 100,
        flags: p.flags | 0x100,
        boost_energy: 240,
        view_mode: PrinceViewMode::Normal,
        ignore_input_timer: 0,
        ..p
    }
}

/// The state `p` at the start of a flip.
pub open spec fn flip_started(p: Prince) -> Prince {
    Prince {
        oujistate: OujiState { jump_180: true, ..p.oujistate },
        view_mode: PrinceViewMode::Normal,
        ignore_input_timer: 0,
        flip_timer: p.flip_duration,
        ..p
    }
}

/// The state `p` after the push directions were recomputed from the stick comparisons
/// (only in the normal view mode; while the versus huff flag is set both are cleared).
pub open spec fn push_dirs_updated(p: Prince, ls_above: bool, ls_below: bool, rs_above: bool, rs_below: bool) -> Prince {
    if p.view_mode == PrinceViewMode::Normal {
        if !p.vs_mode_huff_related_flag {
            let cur = AnalogPushDirs {
                left: spec_stick_push_dir(ls_above, ls_below),
                right: spec_stick_push_dir(rs_above, rs_below),
            };
            Prince {
                last_push_dirs: p.push_dirs,
                push_dirs: cur,
                push_dirs_changed: AnalogPushDirs {
                    left: spec_changed_dir(p.push_dirs.left, cur.left),
                    right: spec_changed_dir(p.push_dirs.right, cur.right),
                },
                ..p
            }
        } else {
            Prince {
                last_push_dirs: p.push_dirs,
                push_dirs: AnalogPushDirs { left: None, right: None },
                push_dirs_changed: AnalogPushDirs { left: None, right: None },
                ..p
            }
        }
    } else {
        p
    }
}

/// The state `p` with spinning and boosting ended and the gacha count reset.
pub open spec fn spin_and_boost_ended(p: Prince) -> Prince {
    Prince { oujistate: ouji_boost_ended(p.oujistate), gacha_count: 0, ..p }
}

/// The flags `k` of a katamari that stopped spinning.
pub open spec fn kat_spin_ended(k: KatPhysicsFlags) -> KatPhysicsFlags {
    KatPhysicsFlags { wheel_spin: false, ..k }
}

/// The state `p` after its boost state was reset: spin and boost ended, a full boost
/// energy and no gacha window.
pub open spec fn boost_state_reset(p: Prince) -> Prince {
    Prince {
        boost_energy: p.boost_max_energy,
        gacha_window_timer: 0,
        ..spin_and_boost_ended(p)
    }
}

impl Prince {
    /// Initialize the prince's discrete state at the start of a mission.
    pub fn init(&mut self, player: u8)
        ensures
            *final(self) == prince_initialized(*old(self), player),
    {
        self.player = player;
        self.no_dash_ticks = 0;
        self.huff_timer = 0;
        self.push_dir = None;
        self.huff_duration = 240;
        self.gacha_window_duration = 14;
        self.boost_max_energy = 0xf0;
        self.gachas_for_spin = 3;
        self.boost_recharge = 18;
        self.boost_recharge_frequency = 100;
        self.mark_transform_updated();
        self.boost_energy = self.boost_max_energy;
        self.view_mode = PrinceViewMode::Normal;
        self.ignore_input_timer = 0;
    }

    /// Record that the prince's transform was updated this tick.
    pub fn mark_transform_updated(&mut self)
        ensures
            *final(self) == transform_marked(*old(self)),
    {
        self.flags = self.flags | 0x100;
    }

    pub fn get_oujistate(&self) -> (r: OujiState)
        ensures
            r == self.oujistate,
    {
        self.oujistate
    }

    pub fn get_push_dir(&self) -> (r: Option<PushDir>)
        ensures
            r == self.push_dir,
    {
        self.push_dir
    }

    pub fn get_flags(&self) -> (r: u32)
        ensures
            r == self.flags,
    {
        self.flags
    }

    pub fn get_is_huffing(&self) -> (r: bool)
        ensures
            r == self.is_huffing,
    {
        self.is_huffing
    }

    pub fn get_turn_type(&self) -> (r: PrinceTurnType)
        ensures
            r == self.turn_type,
    {
        self.turn_type
    }

    pub fn get_push_sideways_dir(&self) -> (r: Option<PrinceSidewaysDir>)
        ensures
            r == self.push_sideways_dir,
    {
        self.push_sideways_dir
    }

    pub fn get_is_quick_shifting(&self) -> (r: bool)
        ensures
            r == self.is_quick_shifting,
    {
        self.is_quick_shifting
    }

    pub fn get_sticks_pushed(&self) -> (r: u8)
        ensures
            r == self.sticks_pushed,
    {
        self.sticks_pushed
    }

    pub fn get_view_mode(&self) -> (r: PrinceViewMode)
        ensures
            r == self.view_mode,
    {
        self.view_mode
    }

    pub fn set_view_mode(&mut self, view_mode: PrinceViewMode)
        ensures
            *final(self) == (Prince { view_mode, ..*old(self) }),
    {
        self.view_mode = view_mode;
    }

    pub fn set_ignore_input_timer(&mut self, value: i16)
        ensures
            *final(self) == (Prince { ignore_input_timer: value, ..*old(self) }),
    {
        self.ignore_input_timer = value;
    }

    /// Record which sticks are pushed at all.
    pub fn update_sticks_pushed(&mut self, input: &Input)
        ensures
            *final(self) == (Prince { sticks_pushed: spec_sticks_pushed(*input), ..*old(self) }),
    {
        let left: u8 = if input.ls_x != 0 || input.ls_y != 0 { 1 } else { 0 };
        let right: u8 = if input.rs_x != 0 || input.rs_y != 0 { 2 } else { 0 };
        self.sticks_pushed = left + right;
    }

    /// Returns `true` if the prince should begin a flip. `sticks_within_flip_limit` tells
    /// whether both analog sticks are within the maximum magnitude that allows a flip.
    pub fn should_init_flip(&self, input: &Input, sticks_within_flip_limit: bool) -> (r: bool)
        ensures
            r == spec_should_init_flip(*self, *input, sticks_within_flip_limit),
    {
        if self.view_mode == PrinceViewMode::R1Jump || self.oujistate.jump_180 {
            return false;
        }
        if self.flags & 0x100 == 0 {
            return false;
        }
        let both_sticks_down = (input.l3_held && input.r3_down) || (input.r3_held && input.l3_down);
        if !both_sticks_down {
            return false;
        }
        sticks_within_flip_limit
    }

    /// Start a flip: the prince leaves any view mode and reads input again.
    pub fn start_flip(&mut self)
        ensures
            *final(self) == flip_started(*old(self)),
    {
        let p = self.oujistate;
        self.oujistate = OujiState { jump_180: true, ..p };
        self.view_mode = PrinceViewMode::Normal;
        self.ignore_input_timer = 0;
        self.flip_timer = self.flip_duration;
    }

    /// Read the discrete part of the player input: which sticks are pushed and whether
    /// a flip starts. Returns `true` when a flip started (the caller then returns the
    /// camera to its normal mode and records the flip's lateral offset).
    pub fn read_input(&mut self, input: &Input, sticks_within_flip_limit: bool) -> (r: bool)
        ensures
            ({
                let q = Prince { sticks_pushed: spec_sticks_pushed(*input), ..*old(self) };
                &&& r == spec_should_init_flip(q, *input, sticks_within_flip_limit)
                &&& *final(self) == if r { flip_started(q) } else { q }
            }),
    {
        self.update_sticks_pushed(input);
        if self.should_init_flip(input, sticks_within_flip_limit) {
            self.start_flip();
            true
        } else {
            false
        }
    }

    /// Tick the huff timer; the prince is huffing while it is nonzero.
    pub fn update_huff(&mut self)
        ensures
            *final(self) == huff_ticked(*old(self)),
    {
        if self.huff_timer != 0 {
            self.huff_timer = self.huff_timer - 1;
        }
        self.is_huffing = self.huff_timer != 0;
        let o = self.oujistate;
        self.oujistate = OujiState { huff: self.huff_timer != 0, ..o };
    }

    /// Reset the view mode back to `Normal` and read input again.
    pub fn end_view_mode(&mut self)
        ensures
            *final(self) == view_mode_ended(*old(self)),
    {
        self.view_mode = PrinceViewMode::Normal;
        self.ignore_input_timer = 0;
    }

    /// Decide if the current non-normal view mode should end, and if so end it.
    /// The result tells the caller whether to return the camera to its normal mode.
    pub fn try_end_view_mode(&mut self, preclear_enabled: bool, camera_mode: CameraMode) -> (r: ViewModeEnd)
        ensures
            r == spec_view_mode_end(*old(self), preclear_enabled, camera_mode),
            *final(self) == if r == ViewModeEnd::Continue { *old(self) } else { view_mode_ended(*old(self)) },
    {
        let r = match self.view_mode {
            PrinceViewMode::R1Jump => {
                if preclear_enabled {
                    ViewModeEnd::EndedKeepCamera
                } else if camera_mode == CameraMode::Normal {
                    ViewModeEnd::EndedResetCamera
                } else {
                    ViewModeEnd::Continue
                }
            },
            PrinceViewMode::L1Look => {
                if preclear_enabled || self.sticks_pushed & 3 == 3 {
                    ViewModeEnd::EndedResetCamera
                } else {
                    ViewModeEnd::Continue
                }
            },
            PrinceViewMode::Normal => ViewModeEnd::Continue,
        };
        match r {
            ViewModeEnd::Continue => {},
            _ => self.end_view_mode(),
        }
        r
    }

    /// Recharge boost energy while the prince is not boosting.
    pub fn update_boost_recharge(&mut self)
        requires
            boost_recharge_fits(*old(self)),
        ensures
            *final(self) == boost_recharged(*old(self)),
    {
        if !self.oujistate.dash {
            self.no_dash_ticks = self.no_dash_ticks + 1;
            if self.no_dash_ticks >= self.boost_recharge_frequency {
                self.no_dash_ticks = 0;
                let e: u32 = self.boost_energy as u32 + self.boost_recharge as u32;
                self.boost_energy = if e <= self.boost_max_energy as u32 { e as u16 } else { self.boost_max_energy };
            }
        } else {
            self.no_dash_ticks = 0;
        }
    }

    /// Recompute the push directions from the comparisons of each stick's y axis with the
    /// minimum push length `t`: `ls_above` is `ls_y > t`, `ls_below` is `ls_y < -t`, and
    /// likewise for the right stick.
    pub fn update_push_dirs(&mut self, ls_above: bool, ls_below: bool, rs_above: bool, rs_below: bool)
        ensures
            *final(self) == push_dirs_updated(*old(self), ls_above, ls_below, rs_above, rs_below),
    {
        if self.view_mode == PrinceViewMode::Normal {
            self.last_push_dirs = self.push_dirs;
            if !self.vs_mode_huff_related_flag {
                self.push_dirs.update_from_comparisons(ls_above, ls_below, rs_above, rs_below);
                let last = self.last_push_dirs;
                let cur = self.push_dirs;
                self.push_dirs_changed.compute_changed(&last, &cur);
            } else {
                self.push_dirs.clear();
                self.push_dirs_changed.clear();
            }
        }
    }

    /// Exit the spin and boost state and reset the gacha count.
    pub fn end_spin_and_boost(&mut self, kat_flags: &mut KatPhysicsFlags)
        ensures
            *final(self) == spin_and_boost_ended(*old(self)),
            *final(kat_flags) == kat_spin_ended(*old(kat_flags)),
    {
        self.oujistate.end_boost();
        self.gacha_count = 0;
        let k = *kat_flags;
        *kat_flags = KatPhysicsFlags { wheel_spin: false, ..k };
    }

    /// End the spin and boost, refill the boost energy and close the gacha window.
    pub fn reset_boost_state(&mut self, kat_flags: &mut KatPhysicsFlags)
        ensures
            *final(self) == boost_state_reset(*old(self)),
            *final(kat_flags) == kat_spin_ended(*old(kat_flags)),
    {
        self.end_spin_and_boost(kat_flags);
        self.boost_energy = self.boost_max_energy;
        self.gacha_window_timer = 0;
    }

    /// Update gachas while huffing: outside versus mode, spinning and boosting end.
    pub fn update_gachas_while_huffing(&mut self, kat_flags: &mut KatPhysicsFlags, is_vs_mode: bool)
        ensures
            is_vs_mode ==> *final(self) == *old(self),
            !is_vs_mode ==> *final(self) == spin_and_boost_ended(*old(self)),
            is_vs_mode ==> *final(kat_flags) == *old(kat_flags),
            !is_vs_mode ==> *final(kat_flags) == kat_spin_ended(*old(kat_flags)),
    {
        if !is_vs_mode {
            self.end_spin_and_boost(kat_flags);
        }
    }
}


/// Gachas are blocked outside the normal game mode, except in the tutorial past its
/// first page.
pub open spec fn gachas_blocked(mode: GameMode, tutorial_page: Option<u32>) -> bool {
    match mode {
        GameMode::Normal => false,
        GameMode::Tutorial => tutorial_page == Some(0u32),
        GameMode::Ending => true,
    }
}

/// The gacha performed by the stick pushes: one stick just changed to a direction
/// opposite to the other stick's. The gacha goes right when the right stick is pushed
/// down, otherwise left.
pub open spec fn spec_new_gacha_dir(changed: AnalogPushDirs, push: AnalogPushDirs) -> Option<GachaDir> {
    let new_gacha = (changed.left is Some && push.right is Some && changed.left != push.right)
        || (changed.right is Some && push.left is Some && changed.right != push.left);
    if !new_gacha {
        None
    } else if push.right == Some(StickPushDir::Down) {
        Some(GachaDir::Right)
    } else {
        Some(GachaDir::Left)
    }
}

/// A non-spinning airborne katamari ends the prince's spin and boost.
pub open spec fn airborne_ends_spin(p: Prince, k: KatPhysicsFlags) -> bool {
    !p.oujistate.wheel_spin && k.airborne
}

/// The prince at the start of a gacha tick: the spin and boost end when
/// `airborne_ends_spin`, and the "just started" flags are cleared.
pub open spec fn gacha_prelude(p: Prince, k: KatPhysicsFlags) -> Prince {
    if airborne_ends_spin(p, k) {
        Prince {
            oujistate: OujiState {
                dash_start: false,
                dash: false,
                wheel_spin_start: false,
                wheel_spin: false,
                ..p.oujistate
            },
            gacha_count: 0,
            ..p
        }
    } else {
        Prince { oujistate: OujiState { dash_start: false, wheel_spin_start: false, ..p.oujistate }, ..p }
    }
}

/// The katamari flags at the start of a gacha tick.
pub open spec fn gacha_prelude_kat(p: Prince, k: KatPhysicsFlags) -> KatPhysicsFlags {
    if airborne_ends_spin(p, k) { kat_spin_ended(k) } else { k }
}

/// Boosting drains one unit of energy per tick, except in the tutorial.
pub open spec fn boost_drains(p: Prince, mode: GameMode) -> bool {
    p.oujistate.dash && mode != GameMode::Tutorial
}

/// The state `p` after the boost drained its energy this tick (if it does).
pub open spec fn gacha_drained(p: Prince, mode: GameMode) -> Prince {
    if boost_drains(p, mode) { Prince { boost_energy: (p.boost_energy - 1) as u16, ..p } } else { p }
}

/// The boost uses up its last unit of energy this tick.
pub open spec fn boost_runs_out(p: Prince, mode: GameMode) -> bool {
    boost_drains(p, mode) && p.boost_energy == 1
}

/// The state `p` after the boost energy ran out: spin and boost end, the gacha count
/// and window reset, the energy refills and a huff starts.
pub open spec fn boost_exhausted(p: Prince) -> Prince {
    Prince {
        oujistate: OujiState {
            dash_start: false,
            dash: false,
            wheel_spin_start: false,
            wheel_spin: false,
            ..p.oujistate
        },
        gacha_count: 0,
        boost_energy: p.boost_max_energy,
        gacha_window_timer: 0,
        huff_timer: p.huff_duration,
        is_huffing: true,
        vs_mode_huff_related_flag: true,
        ..p
    }
}

/// The state `p` after counting this tick's gacha, if any: the gacha direction is
/// recorded, the gacha window reopens and the count grows by one.
pub open spec fn gacha_recorded(p: Prince) -> Prince {
    let g = spec_new_gacha_dir(p.push_dirs_changed, p.push_dirs);
    if g is Some {
        Prince {
            last_gacha_direction: g,
            gacha_window_timer: p.gacha_window_duration,
            gacha_count: (p.gacha_count + 1) as u8,
            ..p
        }
    } else {
        p
    }
}

/// The spin and boost flags after the gacha count `p.gacha_count` in an open window:
/// reaching the spin count starts a spin; from the spin count up to (not including) the
/// boost count the prince spins and dashes; past the boost count it dashes without
/// spinning.
pub open spec fn gacha_window_ouji(p: Prince, params: PrinceParams, just: bool, boost: int) -> OujiState {
    let spin = params.prince_gachas_for_spin;
    let o1 = if just && p.gacha_count == spin {
        OujiState { wheel_spin_start: true, ..p.oujistate }
    } else {
        p.oujistate
    };
    if p.gacha_count >= spin && p.gacha_count < boost {
        OujiState { dash: true, wheel_spin: true, ..o1 }
    } else if p.gacha_count > boost {
        OujiState { dash: true, wheel_spin: false, ..o1 }
    } else {
        o1
    }
}

/// The state after the gacha window step of `p`, whose gacha (if any) was `just`
/// recorded. While the window is open it ticks down and the spin and boost flags follow
/// the gacha count (the tick a gacha reaches the boost count changes nothing more);
/// once it has expired the count resets and the spin and boost end.
pub open spec fn gacha_window_step(p: Prince, params: PrinceParams, just: bool, diam_mm: i32) -> Prince {
    if p.gacha_window_timer > 0 {
        let p4 = Prince { gacha_window_timer: (p.gacha_window_timer - 1) as u16, ..p };
        let boost = boost_gachas(params, diam_mm);
        if just && p4.gacha_count == boost {
            p4
        } else {
            Prince { oujistate: gacha_window_ouji(p4, params, just, boost), ..p4 }
        }
    } else {
        Prince {
            gacha_count: 0,
            oujistate: OujiState { dash: false, wheel_spin: false, ..p.oujistate },
            ..p
        }
    }
}

/// The tutorial move reported by the gacha window step: in the tutorial, boosting
/// without spinning in an open window reports the `Boost` move.
pub open spec fn gacha_window_move(p: Prince, params: PrinceParams, just: bool, diam_mm: i32, mode: GameMode) -> Option<TutorialMove> {
    let q = gacha_window_step(p, params, just, diam_mm);
    let boost = boost_gachas(params, diam_mm);
    if p.gacha_window_timer > 0 && !(just && q.gacha_count == boost) && !q.oujistate.wheel_spin
        && q.oujistate.dash && mode == GameMode::Tutorial {
        Some(TutorialMove::Boost)
    } else {
        None
    }
}

/// This tick's stick pushes perform a gacha.
pub open spec fn gacha_performed(p: Prince) -> bool {
    spec_new_gacha_dir(p.push_dirs_changed, p.push_dirs) is Some
}

/// The state `p` after counting this tick's gacha and stepping the gacha window.
pub open spec fn gacha_counted(p: Prince, params: PrinceParams, diam_mm: i32) -> Prince {
    gacha_window_step(gacha_recorded(p), params, gacha_performed(p), diam_mm)
}

/// The tutorial move reported after counting this tick's gacha.
pub open spec fn gacha_counted_move(p: Prince, params: PrinceParams, diam_mm: i32, mode: GameMode) -> Option<TutorialMove> {
    gacha_window_move(gacha_recorded(p), params, gacha_performed(p), diam_mm, mode)
}

/// The gacha logic runs past its early exits: the prince is not huffing, the camera is
/// not in shoot mode, gachas are not blocked and the boost did not just run out.
pub open spec fn gachas_counted_this_tick(p: Prince, k: KatPhysicsFlags, camera_mode: CameraMode, mode: GameMode, tutorial_page: Option<u32>) -> bool {
    &&& !p.is_huffing
    &&& camera_mode != CameraMode::Shoot
    &&& !gachas_blocked(mode, tutorial_page)
    &&& !boost_runs_out(gacha_prelude(p, k), mode)
}

/// The prince after one tick of gacha processing. A huffing prince only ends its spin
/// and boost (outside versus mode); otherwise, after `gacha_prelude`, the shoot camera
/// mode keeps the prince dashing, blocked gachas change nothing more, a boost running
/// out of energy starts a huff, and otherwise the gacha is counted.
#[verifier::opaque]
pub open spec fn gacha_tick(
    p: Prince,
    params: PrinceParams,
    k: KatPhysicsFlags,
    camera_mode: CameraMode,
    mode: GameMode,
    tutorial_page: Option<u32>,
    is_vs_mode: bool,
    diam_mm: i32,
) -> Prince {
    if p.is_huffing {
        if is_vs_mode { p } else { spin_and_boost_ended(p) }
    } else {
        let p1 = gacha_prelude(p, k);
        if camera_mode == CameraMode::Shoot {
            Prince { oujistate: OujiState { dash: true, ..p1.oujistate }, ..p1 }
        } else if gachas_blocked(mode, tutorial_page) {
            p1
        } else if boost_runs_out(p1, mode) {
            boost_exhausted(p1)
        } else {
            gacha_counted(gacha_drained(p1, mode), params, diam_mm)
        }
    }
}

/// The katamari stops spinning in this tick of gacha processing: exactly when the
/// prince's spin and boost end (a huff outside versus mode, an airborne katamari that
/// was not spinning, or a boost running out of energy).
#[verifier::opaque]
pub open spec fn gacha_tick_stops_kat(
    p: Prince,
    k: KatPhysicsFlags,
    camera_mode: CameraMode,
    mode: GameMode,
    tutorial_page: Option<u32>,
    is_vs_mode: bool,
) -> bool {
    if p.is_huffing {
        !is_vs_mode
    } else {
        airborne_ends_spin(p, k) || (camera_mode != CameraMode::Shoot && !gachas_blocked(mode, tutorial_page)
            && boost_runs_out(gacha_prelude(p, k), mode))
    }
}

/// The katamari flags went from `k` to `k2`, stopping its spin exactly when `stops`.
#[verifier::opaque]
pub open spec fn kat_spin_stopped_if(k: KatPhysicsFlags, k2: KatPhysicsFlags, stops: bool) -> bool {
    &&& stops ==> k2 == kat_spin_ended(k)
    &&& !stops ==> k2 == k
}

/// The tutorial move performed in one tick of gacha processing.
#[verifier::opaque]
pub open spec fn gacha_tick_move(
    p: Prince,
    params: PrinceParams,
    k: KatPhysicsFlags,
    camera_mode: CameraMode,
    mode: GameMode,
    tutorial_page: Option<u32>,
    diam_mm: i32,
) -> Option<TutorialMove> {
    if gachas_counted_this_tick(p, k, camera_mode, mode, tutorial_page) {
        gacha_counted_move(gacha_drained(gacha_prelude(p, k), mode), params, diam_mm, mode)
    } else {
        None
    }
}

/// The gacha tick of `p` is defined: the tutorial has a page in tutorial mode, a
/// draining boost has energy left, the gacha count does not overflow, and the boost
/// gacha count is defined while the gacha window is open.
#[verifier::opaque]
pub open spec fn gacha_tick_defined(
    p: Prince,
    params: PrinceParams,
    k: KatPhysicsFlags,
    camera_mode: CameraMode,
    mode: GameMode,
    tutorial_page: Option<u32>,
    diam_mm: i32,
) -> bool {
    let p1 = gacha_prelude(p, k);
    let p2 = gacha_drained(p1, mode);
    &&& !p.is_huffing && camera_mode != CameraMode::Shoot && mode == GameMode::Tutorial ==> tutorial_page is Some
    &&& !p.is_huffing && camera_mode != CameraMode::Shoot && !gachas_blocked(mode, tutorial_page)
        && boost_drains(p1, mode) ==> p1.boost_energy > 0
    &&& gachas_counted_this_tick(p, k, camera_mode, mode, tutorial_page) ==> {
        &&& gacha_performed(p2) ==> p2.gacha_count < u8::MAX
        &&& gacha_recorded(p2).gacha_window_timer > 0 ==> boost_gachas_defined(params, diam_mm)
    }
}

impl Prince {
    fn gacha_prelude_value(p: Prince, k: KatPhysicsFlags) -> (r: Prince)
        ensures
            r == gacha_prelude(p, k),
    {
        let o = p.oujistate;
        if !o.wheel_spin && k.airborne {
            let o2 = OujiState { dash_start: false, dash: false, wheel_spin_start: false, wheel_spin: false, ..o };
            Prince { oujistate: o2, gacha_count: 0, ..p }
        } else {
            let o2 = OujiState { dash_start: false, wheel_spin_start: false, ..o };
            Prince { oujistate: o2, ..p }
        }
    }

    fn new_gacha_dir(&self) -> (r: Option<GachaDir>)
        ensures
            r == spec_new_gacha_dir(self.push_dirs_changed, self.push_dirs),
    {
        let change = self.push_dirs_changed;
        let push = self.push_dirs;
        let left_opposes = match (change.left, push.right) {
            (Some(StickPushDir::Up), Some(StickPushDir::Down)) => true,
            (Some(StickPushDir::Down), Some(StickPushDir::Up)) => true,
            _ => false,
        };
        let right_opposes = match (change.right, push.left) {
            (Some(StickPushDir::Up), Some(StickPushDir::Down)) => true,
            (Some(StickPushDir::Down), Some(StickPushDir::Up)) => true,
            _ => false,
        };
        if !(left_opposes || right_opposes) {
            None
        } else if push.right == Some(StickPushDir::Down) {
            Some(GachaDir::Right)
        } else {
            Some(GachaDir::Left)
        }
    }

    fn gacha_recorded_value(p: Prince) -> (r: Prince)
        requires
            spec_new_gacha_dir(p.push_dirs_changed, p.push_dirs) is Some ==> p.gacha_count < u8::MAX,
        ensures
            r == gacha_recorded(p),
    {
        match p.new_gacha_dir() {
            Some(g) => Prince {
                last_gacha_direction: Some(g),
                gacha_window_timer: p.gacha_window_duration,
                gacha_count: p.gacha_count + 1,
                ..p
            },
            None => p,
        }
    }

    fn gacha_window_ouji_value(p: Prince, params: &PrinceParams, just: bool, boost: u8) -> (r: OujiState)
        ensures
            r == gacha_window_ouji(p, *params, just, boost as int),
    {
        let spin = params.prince_gachas_for_spin;
        let count = p.gacha_count;
        let o = p.oujistate;
        let o1 = if just && count == spin { OujiState { wheel_spin_start: true, ..o } } else { o };
        if count >= spin && count < boost {
            OujiState { dash: true, wheel_spin: true, ..o1 }
        } else if count > boost {
            OujiState { dash: true, wheel_spin: false, ..o1 }
        } else {
            o1
        }
    }

    fn gacha_window_value(p: Prince, params: &PrinceParams, just: bool, diam_mm: i32) -> (r: Prince)
        requires
            p.gacha_window_timer > 0 ==> boost_gachas_defined(*params, diam_mm),
        ensures
            r == gacha_window_step(p, *params, just, diam_mm),
    {
        if p.gacha_window_timer > 0 {
            let p4 = Prince { gacha_window_timer: p.gacha_window_timer - 1, ..p };
            let boost = params.gachas_for_boost(diam_mm);
            if just && p4.gacha_count == boost {
                p4
            } else {
                let o = Prince::gacha_window_ouji_value(p4, params, just, boost);
                Prince { oujistate: o, ..p4 }
            }
        } else {
            let o = p.oujistate;
            Prince { gacha_count: 0, oujistate: OujiState { dash: false, wheel_spin: false, ..o }, ..p }
        }
    }

    fn gacha_window_move_value(p: Prince, params: &PrinceParams, just: bool, diam_mm: i32, mode: GameMode) -> (r: Option<TutorialMove>)
        requires
            p.gacha_window_timer > 0 ==> boost_gachas_defined(*params, diam_mm),
        ensures
            r == gacha_window_move(p, *params, just, diam_mm, mode),
    {
        let q = Prince::gacha_window_value(p, params, just, diam_mm);
        if p.gacha_window_timer > 0 {
            let boost = params.gachas_for_boost(diam_mm);
            if !(just && q.gacha_count == boost) && !q.oujistate.wheel_spin && q.oujistate.dash
                && mode == GameMode::Tutorial {
                return Some(TutorialMove::Boost);
            }
        }
        None
    }

    fn boost_exhausted_value(p: Prince) -> (r: Prince)
        ensures
            r == boost_exhausted(p),
    {
        let o = p.oujistate;
        Prince {
            oujistate: OujiState { dash_start: false, dash: false, wheel_spin_start: false, wheel_spin: false, ..o },
            gacha_count: 0,
            boost_energy: p.boost_max_energy,
            gacha_window_timer: 0,
            huff_timer: p.huff_duration,
            is_huffing: true,
            vs_mode_huff_related_flag: true,
            ..p
        }
    }

    fn gacha_counted_value(p: Prince, params: &PrinceParams, diam_mm: i32, mode: GameMode) -> (r: (Prince, Option<TutorialMove>))
        requires
            gacha_performed(p) ==> p.gacha_count < u8::MAX,
            gacha_recorded(p).gacha_window_timer > 0 ==> boost_gachas_defined(*params, diam_mm),
        ensures
            r.0 == gacha_counted(p, *params, diam_mm),
            r.1 == gacha_counted_move(p, *params, diam_mm, mode),
    {
        let just = p.new_gacha_dir().is_some();
        let p3 = Prince::gacha_recorded_value(p);
        let p5 = Prince::gacha_window_value(p3, params, just, diam_mm);
        let t = Prince::gacha_window_move_value(p3, params, just, diam_mm, mode);
        (p5, t)
    }

    /// Update the gacha count from this tick's stick pushes, and with it the spin and
    /// boost state, the boost energy and huffing. Returns the tutorial move performed.
    /// `tutorial_page` is the tutorial's current page (present in tutorial mode) and
    /// `diam_mm` the katamari's truncated diameter.
    fn gacha_tick_unhuffed(
        p: Prince,
        params: &PrinceParams,
        k: KatPhysicsFlags,
        camera_mode: CameraMode,
        mode: GameMode,
        tutorial_page: Option<u32>,
        is_vs_mode: bool,
        diam_mm: i32,
    ) -> (r: (Prince, bool, Option<TutorialMove>))
        requires
            !p.is_huffing,
            gacha_tick_defined(p, *params, k, camera_mode, mode, tutorial_page, diam_mm),
        ensures
            r.0 == gacha_tick(p, *params, k, camera_mode, mode, tutorial_page, is_vs_mode, diam_mm),
            r.1 == gacha_tick_stops_kat(p, k, camera_mode, mode, tutorial_page, is_vs_mode),
            r.2 == gacha_tick_move(p, *params, k, camera_mode, mode, tutorial_page, diam_mm),
    {
        reveal(gacha_tick);
        reveal(gacha_tick_move);
        reveal(gacha_tick_stops_kat);
        reveal(gacha_tick_defined);
        let p1 = Prince::gacha_prelude_value(p, k);
        let stops1 = !p.oujistate.wheel_spin && k.airborne;
        if camera_mode == CameraMode::Shoot {
            let o = p1.oujistate;
            return (Prince { oujistate: OujiState { dash: true, ..o }, ..p1 }, stops1, None);
        }
        let block_gachas = match mode {
            GameMode::Normal => false,
            GameMode::Tutorial => match tutorial_page {
                Some(page) => page == 0,
                None => true,
            },
            GameMode::Ending => true,
        };
        if block_gachas {
            return (p1, stops1, None);
        }
        let drains = p1.oujistate.dash && mode != GameMode::Tutorial;
        if drains && p1.boost_energy == 1 {
            return (Prince::boost_exhausted_value(p1), true, None);
        }
        let p2 = if drains { Prince { boost_energy: p1.boost_energy - 1, ..p1 } } else { p1 };
        let (p5, t) = Prince::gacha_counted_value(p2, params, diam_mm, mode);
        (p5, stops1, t)
    }

    /// Update the gacha count from this tick's stick pushes, and with it the spin and
    /// boost state, the boost energy and huffing. Returns the tutorial move performed.
    /// `tutorial_page` is the tutorial's current page (present in tutorial mode) and
    /// `diam_mm` the katamari's truncated diameter.
    pub fn update_gachas(
        &mut self,
        params: &PrinceParams,
        kat_flags: &mut KatPhysicsFlags,
        camera_mode: CameraMode,
        mode: GameMode,
        tutorial_page: Option<u32>,
        is_vs_mode: bool,
        diam_mm: i32,
    ) -> (r: Option<TutorialMove>)
        requires
            gacha_tick_defined(*old(self), *params, *old(kat_flags), camera_mode, mode, tutorial_page, diam_mm),
        ensures
            *final(self) == gacha_tick(*old(self), *params, *old(kat_flags), camera_mode, mode, tutorial_page, is_vs_mode, diam_mm),
            kat_spin_stopped_if(
                *old(kat_flags),
                *final(kat_flags),
                gacha_tick_stops_kat(*old(self), *old(kat_flags), camera_mode, mode, tutorial_page, is_vs_mode),
            ),
            r == gacha_tick_move(*old(self), *params, *old(kat_flags), camera_mode, mode, tutorial_page, diam_mm),
    {
        let k = *kat_flags;
        let stops = Prince::gacha_stops_kat_value(self, &k, camera_mode, mode, tutorial_page, is_vs_mode);
        let r = if self.is_huffing {
            self.update_gachas_huffing(params, k, camera_mode, mode, tutorial_page, is_vs_mode, diam_mm)
        } else {
            self.update_gachas_unhuffed(params, k, camera_mode, mode, tutorial_page, is_vs_mode, diam_mm)
        };
        Prince::stop_kat_spin_if(kat_flags, stops);
        r
    }

    fn update_gachas_huffing(
        &mut self,
        params: &PrinceParams,
        k: KatPhysicsFlags,
        camera_mode: CameraMode,
        mode: GameMode,
        tutorial_page: Option<u32>,
        is_vs_mode: bool,
        diam_mm: i32,
    ) -> (r: Option<TutorialMove>)
        requires
            old(self).is_huffing,
        ensures
            *final(self) == gacha_tick(*old(self), *params, k, camera_mode, mode, tutorial_page, is_vs_mode, diam_mm),
            r == gacha_tick_move(*old(self), *params, k, camera_mode, mode, tutorial_page, diam_mm),
    {
        proof {
            reveal(gacha_tick);
            reveal(gacha_tick_move);
        }
        if !is_vs_mode {
            let p = *self;
            let o = p.oujistate;
            let o2 = OujiState { dash_start: false, dash: false, wheel_spin_start: false, wheel_spin: false, ..o };
            *self = Prince { oujistate: o2, gacha_count: 0, ..p };
        }
        None
    }

    fn update_gachas_unhuffed(
        &mut self,
        params: &PrinceParams,
        k: KatPhysicsFlags,
        camera_mode: CameraMode,
        mode: GameMode,
        tutorial_page: Option<u32>,
        is_vs_mode: bool,
        diam_mm: i32,
    ) -> (r: Option<TutorialMove>)
        requires
            !old(self).is_huffing,
            gacha_tick_defined(*old(self), *params, k, camera_mode, mode, tutorial_page, diam_mm),
        ensures
            *final(self) == gacha_tick(*old(self), *params, k, camera_mode, mode, tutorial_page, is_vs_mode, diam_mm),
            r == gacha_tick_move(*old(self), *params, k, camera_mode, mode, tutorial_page, diam_mm),
    {
        let res = Prince::gacha_tick_unhuffed(*self, params, k, camera_mode, mode, tutorial_page, is_vs_mode, diam_mm);
        *self = res.0;
        res.2
    }

    fn gacha_stops_kat_value(
        p: &Prince,
        k: &KatPhysicsFlags,
        camera_mode: CameraMode,
        mode: GameMode,
        tutorial_page: Option<u32>,
        is_vs_mode: bool,
    ) -> (r: bool)
        ensures
            r == gacha_tick_stops_kat(*p, *k, camera_mode, mode, tutorial_page, is_vs_mode),
    {
        proof {
            reveal(gacha_tick_stops_kat);
        }
        if p.is_huffing {
            return !is_vs_mode;
        }
        if !p.oujistate.wheel_spin && k.airborne {
            return true;
        }
        if camera_mode == CameraMode::Shoot {
            return false;
        }
        let blocked = match mode {
            GameMode::Normal => false,
            GameMode::Tutorial => match tutorial_page {
                Some(page) => page == 0,
                None => false,
            },
            GameMode::Ending => true,
        };
        if blocked {
            return false;
        }
        p.oujistate.dash && mode != GameMode::Tutorial && p.boost_energy == 1
    }

    fn stop_kat_spin_if(kat_flags: &mut KatPhysicsFlags, stops: bool)
        ensures
            kat_spin_stopped_if(*old(kat_flags), *final(kat_flags), stops),
    {
        proof {
            reveal(kat_spin_stopped_if);
        }
        if stops {
            let k = *kat_flags;
            *kat_flags = KatPhysicsFlags { wheel_spin: false, ..k };
        }
    }
}


/// A huffing prince outside versus mode stops dashing and spinning and loses its gachas,
/// and the katamari stops spinning.
pub proof fn law_huffing_stops_boost(
    p: Prince,
    params: PrinceParams,
    k: KatPhysicsFlags,
    camera_mode: CameraMode,
    mode: GameMode,
    tutorial_page: Option<u32>,
    diam_mm: i32,
)
    requires
        p.is_huffing,
    ensures
        ({
            let q = gacha_tick(p, params, k, camera_mode, mode, tutorial_page, false, diam_mm);
            &&& !q.oujistate.dash
            &&& !q.oujistate.wheel_spin
            &&& q.gacha_count == 0
            &&& gacha_tick_stops_kat(p, k, camera_mode, mode, tutorial_page, false)
        }),
{
    reveal(gacha_tick);
    reveal(gacha_tick_stops_kat);
}

/// When a boost uses up its last unit of energy, the prince starts a full huff with a
/// refilled boost, neither it nor the katamari keeps spinning, and no tutorial move is made.
pub proof fn law_exhausted_boost_starts_huff(
    p: Prince,
    params: PrinceParams,
    k: KatPhysicsFlags,
    camera_mode: CameraMode,
    mode: GameMode,
    tutorial_page: Option<u32>,
    is_vs_mode: bool,
    diam_mm: i32,
)
    requires
        !p.is_huffing,
        camera_mode != CameraMode::Shoot,
        !gachas_blocked(mode, tutorial_page),
        boost_runs_out(gacha_prelude(p, k), mode),
    ensures
        ({
            let q = gacha_tick(p, params, k, camera_mode, mode, tutorial_page, is_vs_mode, diam_mm);
            &&& q.is_huffing
            &&& q.huff_timer == p.huff_duration
            &&& q.boost_energy == p.boost_max_energy
            &&& !q.oujistate.dash && !q.oujistate.wheel_spin
            &&& q.gacha_count == 0
            &&& gacha_tick_stops_kat(p, k, camera_mode, mode, tutorial_page, is_vs_mode)
            &&& gacha_tick_move(p, params, k, camera_mode, mode, tutorial_page, diam_mm) is None
        }),
{
    reveal(gacha_tick);
    reveal(gacha_tick_stops_kat);
    reveal(gacha_tick_move);
}

/// When no gacha is performed and the gacha window has run out, the gacha count resets
/// and the prince neither dashes nor spins.
pub proof fn law_expired_window_resets(
    p: Prince,
    params: PrinceParams,
    k: KatPhysicsFlags,
    camera_mode: CameraMode,
    mode: GameMode,
    tutorial_page: Option<u32>,
    is_vs_mode: bool,
    diam_mm: i32,
)
    requires
        gachas_counted_this_tick(p, k, camera_mode, mode, tutorial_page),
        !gacha_performed(gacha_prelude(p, k)),
        gacha_prelude(p, k).gacha_window_timer == 0,
    ensures
        ({
            let q = gacha_tick(p, params, k, camera_mode, mode, tutorial_page, is_vs_mode, diam_mm);
            &&& q.gacha_count == 0
            &&& !q.oujistate.dash
            &&& !q.oujistate.wheel_spin
        }),
{
    reveal(gacha_tick);
}

/// Each counted gacha tick spends exactly one unit of boost energy while dashing outside
/// the tutorial, and none otherwise.
pub proof fn law_boost_energy_drain(
    p: Prince,
    params: PrinceParams,
    k: KatPhysicsFlags,
    camera_mode: CameraMode,
    mode: GameMode,
    tutorial_page: Option<u32>,
    is_vs_mode: bool,
    diam_mm: i32,
)
    requires
        gachas_counted_this_tick(p, k, camera_mode, mode, tutorial_page),
        gacha_tick_defined(p, params, k, camera_mode, mode, tutorial_page, diam_mm),
    ensures
        gacha_tick(p, params, k, camera_mode, mode, tutorial_page, is_vs_mode, diam_mm).boost_energy
            == p.boost_energy - (if boost_drains(gacha_prelude(p, k), mode) { 1int } else { 0int }),
{
    reveal(gacha_tick);
    reveal(gacha_tick_defined);
}

/// A gacha that brings the count to the spin count (below the boost count) inside a
/// gacha window starts a spin: the prince spins and dashes.
pub proof fn law_gacha_reaching_spin_count_spins(
    p: Prince,
    params: PrinceParams,
    k: KatPhysicsFlags,
    camera_mode: CameraMode,
    mode: GameMode,
    tutorial_page: Option<u32>,
    is_vs_mode: bool,
    diam_mm: i32,
)
    requires
        gachas_counted_this_tick(p, k, camera_mode, mode, tutorial_page),
        gacha_tick_defined(p, params, k, camera_mode, mode, tutorial_page, diam_mm),
        gacha_performed(gacha_drained(gacha_prelude(p, k), mode)),
        gacha_drained(gacha_prelude(p, k), mode).gacha_count + 1 == params.prince_gachas_for_spin,
        params.prince_gachas_for_spin < boost_gachas(params, diam_mm),
        gacha_drained(gacha_prelude(p, k), mode).gacha_window_duration > 0,
    ensures
        ({
            let q = gacha_tick(p, params, k, camera_mode, mode, tutorial_page, is_vs_mode, diam_mm);
            &&& q.oujistate.wheel_spin_start
            &&& q.oujistate.wheel_spin
            &&& q.oujistate.dash
        }),
{
    reveal(gacha_tick);
    reveal(gacha_tick_defined);
}


/// What the caller must do after `Prince::update_view_mode`.
#[derive(Debug, Clone, Copy, PartialEq, Eq, Structural)]
pub enum ViewModeAction {
    /// Nothing changes.
    NoChange,
    /// An L1 look started: the katamari becomes immobile and the camera enters `L1Look`.
    StartL1Look,
    /// An R1 jump started: the katamari becomes immobile and the camera enters `R1Jump`.
    StartR1Jump,
    /// The L1 look ended because the camera is scaling up; the camera returns to normal.
    EndL1Look,
    /// The L1 look continues; the camera follows the left stick.
    UpdateL1Look,
}

/// The tutorial move performed by a view mode action.
pub open spec fn view_mode_action_move(a: ViewModeAction) -> Option<TutorialMove> {
    match a {
        ViewModeAction::StartL1Look => Some(TutorialMove::LookL1),
        ViewModeAction::StartR1Jump => Some(TutorialMove::JumpR1),
        _ => None,
    }
}

impl ViewModeAction {
    /// The tutorial move performed by this action, if any.
    pub fn tutorial_move(self) -> (r: Option<TutorialMove>)
        ensures
            r == view_mode_action_move(self),
    {
        match self {
            ViewModeAction::StartL1Look => Some(TutorialMove::LookL1),
            ViewModeAction::StartR1Jump => Some(TutorialMove::JumpR1),
            _ => None,
        }
    }
}

/// The katamari is slow enough to enter a view mode: never in versus mode; always when
/// immobile; when not boosting and on a floor, if its speed ratio is within the limit
/// (`slow_enough`); otherwise not.
pub open spec fn under_view_mode_speed(p: Prince, k: KatPhysicsFlags, is_vs_mode: bool, slow_enough: bool) -> bool {
    if is_vs_mode {
        false
    } else if k.immobile {
        true
    } else if !p.oujistate.dash && k.contacts_floor {
        slow_enough
    } else {
        false
    }
}

/// The action of the view mode update for the prince `p`: in the normal view mode,
/// when the camera is neither scaling up nor in preclear mode, the tutorial (if any) is
/// past its first page, the katamari is slow enough and the prince is not flipping, L1
/// alone starts an L1 look and R1 alone an R1 jump; an L1 look ends when the camera
/// scales up and otherwise continues.
pub open spec fn spec_view_mode_action(
    p: Prince,
    k: KatPhysicsFlags,
    input: Input,
    camera_scaling_up: bool,
    preclear_enabled: bool,
    is_vs_mode: bool,
    slow_enough: bool,
    tutorial_page: Option<u32>,
) -> ViewModeAction {
    match p.view_mode {
        PrinceViewMode::Normal => {
            let can = (tutorial_page is None || tutorial_page->0 > 0)
                && under_view_mode_speed(p, k, is_vs_mode, slow_enough) && !p.oujistate.jump_180;
            if camera_scaling_up || preclear_enabled || !can {
                ViewModeAction::NoChange
            } else if input.l1_down && !input.r1_down {
                ViewModeAction::StartL1Look
            } else if input.r1_down && !input.l1_down {
                ViewModeAction::StartR1Jump
            } else {
                ViewModeAction::NoChange
            }
        },
        PrinceViewMode::L1Look => if camera_scaling_up {
            ViewModeAction::EndL1Look
        } else {
            ViewModeAction::UpdateL1Look
        },
        PrinceViewMode::R1Jump => ViewModeAction::NoChange,
    }
}

/// The prince after the view mode action `a`: starting a view mode ends the spin and
/// boost; ending the L1 look returns to the normal view mode.
#[verifier::opaque]
pub open spec fn view_mode_applied(p: Prince, a: ViewModeAction) -> Prince {
    match a {
        ViewModeAction::StartL1Look => Prince { view_mode: PrinceViewMode::L1Look, ..spin_and_boost_ended(p) },
        ViewModeAction::StartR1Jump => Prince { view_mode: PrinceViewMode::R1Jump, ..spin_and_boost_ended(p) },
        ViewModeAction::EndL1Look => view_mode_ended(p),
        _ => p,
    }
}

/// Whether a view mode action starts a view mode.
pub open spec fn view_mode_action_starts(a: ViewModeAction) -> bool {
    a == ViewModeAction::StartL1Look || a == ViewModeAction::StartR1Jump
}

/// The katamari flags went from `k` to `k2`: when `stops`, the katamari stopped
/// spinning and became immobile; otherwise nothing changed.
#[verifier::opaque]
pub open spec fn kat_stopped_for_view_mode_if(k: KatPhysicsFlags, k2: KatPhysicsFlags, stops: bool) -> bool {
    &&& stops ==> k2 == (KatPhysicsFlags { wheel_spin: false, immobile: true, ..k })
    &&& !stops ==> k2 == k
}

impl Prince {
    fn view_mode_value(p: Prince, a: ViewModeAction) -> (r: Prince)
        ensures
            r == view_mode_applied(p, a),
    {
        proof {
            reveal(view_mode_applied);
        }
        let o = p.oujistate;
        let o2 = OujiState { dash_start: false, dash: false, wheel_spin_start: false, wheel_spin: false, ..o };
        match a {
            ViewModeAction::StartL1Look => Prince { oujistate: o2, gacha_count: 0, view_mode: PrinceViewMode::L1Look, ..p },
            ViewModeAction::StartR1Jump => Prince { oujistate: o2, gacha_count: 0, view_mode: PrinceViewMode::R1Jump, ..p },
            ViewModeAction::EndL1Look => Prince { view_mode: PrinceViewMode::Normal, ignore_input_timer: 0, ..p },
            _ => p,
        }
    }

    fn stop_kat_for_view_mode_if(kat_flags: &mut KatPhysicsFlags, stops: bool)
        ensures
            kat_stopped_for_view_mode_if(*old(kat_flags), *final(kat_flags), stops),
    {
        proof {
            reveal(kat_stopped_for_view_mode_if);
        }
        if stops {
            let k = *kat_flags;
            *kat_flags = KatPhysicsFlags { wheel_spin: false, immobile: true, ..k };
        }
    }

    fn view_mode_action_value(
        p: &Prince,
        k: &KatPhysicsFlags,
        input: &Input,
        camera_scaling_up: bool,
        preclear_enabled: bool,
        is_vs_mode: bool,
        slow_enough: bool,
        tutorial_page: Option<u32>,
    ) -> (r: ViewModeAction)
        ensures
            r == spec_view_mode_action(*p, *k, *input, camera_scaling_up, preclear_enabled, is_vs_mode, slow_enough, tutorial_page),
    {
        match p.view_mode {
            PrinceViewMode::Normal => {
                let under = if is_vs_mode {
                    false
                } else if k.immobile {
                    true
                } else if !p.oujistate.dash && k.contacts_floor {
                    slow_enough
                } else {
                    false
                };
                let page_ok = match tutorial_page {
                    Some(page) => page > 0,
                    None => true,
                };
                let can = page_ok && under && !p.oujistate.jump_180;
                if camera_scaling_up || preclear_enabled || !can {
                    ViewModeAction::NoChange
                } else if input.l1_down && !input.r1_down {
                    ViewModeAction::StartL1Look
                } else if input.r1_down && !input.l1_down {
                    ViewModeAction::StartR1Jump
                } else {
                    ViewModeAction::NoChange
                }
            },
            PrinceViewMode::L1Look => {
                if camera_scaling_up {
                    ViewModeAction::EndL1Look
                } else {
                    ViewModeAction::UpdateL1Look
                }
            },
            PrinceViewMode::R1Jump => ViewModeAction::NoChange,
        }
    }

    /// Update the prince's view mode from the L1/R1 triggers. `slow_enough` tells
    /// whether the katamari's speed ratio for the current push direction is within the
    /// limit that allows a view mode. Starting a view mode ends the spin and boost and
    /// makes the katamari immobile; the caller applies the returned action to the
    /// camera and to the katamari's motion.
    pub fn update_view_mode(
        &mut self,
        kat_flags: &mut KatPhysicsFlags,
        input: &Input,
        camera_scaling_up: bool,
        preclear_enabled: bool,
        is_vs_mode: bool,
        slow_enough: bool,
        tutorial_page: Option<u32>,
    ) -> (r: ViewModeAction)
        ensures
            r == spec_view_mode_action(*old(self), *old(kat_flags), *input, camera_scaling_up, preclear_enabled, is_vs_mode, slow_enough, tutorial_page),
            *final(self) == view_mode_applied(*old(self), r),
            kat_stopped_for_view_mode_if(*old(kat_flags), *final(kat_flags), view_mode_action_starts(r)),
    {
        let a = Prince::view_mode_action_value(self, kat_flags, input, camera_scaling_up, preclear_enabled, is_vs_mode, slow_enough, tutorial_page);
        *self = Prince::view_mode_value(*self, a);
        let starts = match a {
            ViewModeAction::StartL1Look => true,
            ViewModeAction::StartR1Jump => true,
            _ => false,
        };
        Prince::stop_kat_for_view_mode_if(kat_flags, starts);
        a
    }
}

/// Starting an L1 look or R1 jump always ends the prince's spin and boost.
pub proof fn law_view_mode_start_ends_boost(p: Prince, a: ViewModeAction)
    requires
        view_mode_action_starts(a),
    ensures
        !view_mode_applied(p, a).oujistate.dash,
        !view_mode_applied(p, a).oujistate.wheel_spin,
        view_mode_applied(p, a).view_mode != PrinceViewMode::Normal,
{
    reveal(view_mode_applied);
}

/// The state `p` after one flip tick: the flip timer ticks down, the prince is flipping,
/// it falls during the second half, and the frontend's leap value is the remaining
/// fraction of the flip in 128ths; when the timer reaches zero the flip ends and input
/// is read again. (A flip of duration zero has no fraction: its leap value is zero and
/// it is not in its first half.)
#[verifier::opaque]
pub open spec fn flip_advanced(p: Prince) -> Prince {
    let t = (p.flip_timer - 1) as u16;
    let leap = flip_leap(t, p.flip_duration);
    let o = OujiState { jump_180_leap: leap, ..p.oujistate };
    let q = Prince {
        flip_timer: t,
        turn_type: PrinceTurnType::Flip,
        falling_from_flip: flip_first_half(t, p.flip_duration),
        ..p
    };
    if t == 0 {
        Prince { oujistate: OujiState { jump_180: false, ..o }, ignore_input_timer: 0, ..q }
    } else {
        Prince { oujistate: o, ..q }
    }
}

/// The leap value with `t` flip ticks left of `d`: the remaining fraction of the flip
/// in 128ths (zero for a flip of duration zero).
pub open spec fn flip_leap(t: u16, d: u16) -> u8 {
    if d == 0 {
        0
    } else {
        (t * 128 / (d as int)) as u8
    }
}

/// Whether a flip with `t` ticks left of `d` is in its first half (never for a flip of
/// duration zero).
pub open spec fn flip_first_half(t: u16, d: u16) -> bool {
    d != 0 && 2 * (d - t) <= d
}

impl Prince {
    fn flip_leap_value(t: u16, d: u16) -> (r: u8)
        requires
            t <= d,
        ensures
            r == flip_leap(t, d),
    {
        if d == 0 {
            0
        } else {
            let t32: u32 = t as u32;
            let d32: u32 = d as u32;
            assert(t32 * 128 <= 65535 * 128) by (nonlinear_arith)
                requires
                    t32 <= 65535,
            ;
            let leap_wide: u32 = t32 * 128 / d32;
            assert(leap_wide as int == (t32 as int) * 128 / (d32 as int));
            assert((t32 as int) * 128 / (d32 as int) <= 128) by (nonlinear_arith)
                requires
                    t32 <= d32,
                    d32 > 0,
            ;
            leap_wide as u8
        }
    }

    fn flip_first_half_value(t: u16, d: u16) -> (r: bool)
        requires
            t <= d,
        ensures
            r == flip_first_half(t, d),
    {
        if d == 0 {
            false
        } else {
            2 * ((d - t) as u32) <= d as u32
        }
    }

    /// Advance the current flip by one tick. Returns `true` when the flip ended
    /// (the caller then turns the prince half way around the katamari).
    pub fn advance_flip(&mut self) -> (ended: bool)
        requires
            0 < old(self).flip_timer <= old(self).flip_duration + 1,
        ensures
            ended == (old(self).flip_timer == 1),
            *final(self) == flip_advanced(*old(self)),
    {
        proof {
            reveal(flip_advanced);
        }
        let t: u16 = self.flip_timer - 1;
        let d: u16 = self.flip_duration;
        let leap = Prince::flip_leap_value(t, d);
        let falling = Prince::flip_first_half_value(t, d);
        let p = *self;
        let o = p.oujistate;
        let o1 = OujiState { jump_180_leap: leap, ..o };
        if t == 0 {
            *self = Prince {
                flip_timer: t,
                turn_type: PrinceTurnType::Flip,
                falling_from_flip: falling,
                oujistate: OujiState { jump_180: false, ..o1 },
                ignore_input_timer: 0,
                ..p
            };
            true
        } else {
            *self = Prince {
                flip_timer: t,
                turn_type: PrinceTurnType::Flip,
                falling_from_flip: falling,
                oujistate: o1,
                ..p
            };
            false
        }
    }
}

/// How the direction of the summed stick input lies, relative to the roll thresholds.
#[derive(Debug, Clone, Copy, PartialEq, Eq, Structural)]
pub enum PushAngleClass {
    /// Below the roll-forwards threshold.
    Forwards,
    /// Between the forwards and sideways thresholds, to the right.
    RightDiagonal,
    /// Between the forwards and sideways thresholds, to the left.
    LeftDiagonal,
    /// Past the roll-backwards threshold.
    Backwards,
    /// Within the sideways threshold of straight right.
    SidewaysRight,
    /// Within the sideways threshold of straight left.
    SidewaysLeft,
}

/// What the turn decision reads; each field is a comparison the caller makes on the
/// analog sticks.
#[derive(Debug, Clone, Copy, PartialEq, Eq, Structural)]
pub struct TurnInputs {
    /// There is no analog input (or the katamari is in the VS state that ignores it).
    pub no_input: bool,
    /// The left stick is neutral.
    pub ls_neutral: bool,
    /// The right stick is neutral.
    pub rs_neutral: bool,
    /// The left stick points up.
    pub ls_up: bool,
    /// The right stick points up.
    pub rs_up: bool,
    /// The angle between the two sticks is at least a right angle (a quick shift).
    pub sticks_opposed: bool,
    /// The katamari moves.
    pub kat_moving: bool,
    /// The direction of the summed push.
    pub push_class: PushAngleClass,
}

/// The flag that marks a quick shift while the katamari moves.
pub const QUICK_SHIFT_MOVING_FLAG: u32 = 0x40000;

/// The turn type the sticks give.
pub open spec fn turn_type_of(t: TurnInputs) -> PrinceTurnType {
    if t.no_input {
        PrinceTurnType::NoTurn
    } else if t.ls_neutral {
        if t.rs_neutral {
            PrinceTurnType::NoTurn
        } else if t.rs_up {
            PrinceTurnType::RightStickUp
        } else {
            PrinceTurnType::RightStickDown
        }
    } else if t.rs_neutral {
        if t.ls_up {
            PrinceTurnType::LeftStickUp
        } else {
            PrinceTurnType::LeftStickDown
        }
    } else {
        PrinceTurnType::BothSticks
    }
}

/// The tutorial move that the sticks hold: only pushing with both sticks holds one.
pub open spec fn turn_tutorial_move(t: TurnInputs) -> Option<TutorialMove> {
    if turn_type_of(t) != PrinceTurnType::BothSticks {
        None
    } else if t.sticks_opposed {
        Some(TutorialMove::QuickShift)
    } else {
        match t.push_class {
            PushAngleClass::Forwards => Some(TutorialMove::RollForwards),
            PushAngleClass::RightDiagonal => Some(TutorialMove::RollToTheRight),
            PushAngleClass::LeftDiagonal => Some(TutorialMove::RollToTheLeft),
            PushAngleClass::Backwards => Some(TutorialMove::RollBackwards),
            PushAngleClass::SidewaysRight => Some(TutorialMove::RollSideways),
            PushAngleClass::SidewaysLeft => Some(TutorialMove::RollSideways),
        }
    }
}

/// The sideways direction of a push.
pub open spec fn sideways_dir_of(c: PushAngleClass) -> Option<PrinceSidewaysDir> {
    match c {
        PushAngleClass::SidewaysRight => Some(PrinceSidewaysDir::Right),
        PushAngleClass::SidewaysLeft => Some(PrinceSidewaysDir::Left),
        _ => None,
    }
}

/// The prince after the turn decision: the quick-shift flag is set only for a quick
/// shift of a moving katamari; without input the quick shift ends; a push with both
/// sticks records its sideways direction.
#[verifier::opaque]
pub open spec fn turn_applied(p: Prince, t: TurnInputs) -> Prince {
    let both = turn_type_of(t) == PrinceTurnType::BothSticks;
    Prince {
        flags: if both && t.sticks_opposed && t.kat_moving {
            (p.flags & 0xfffbffffu32) | QUICK_SHIFT_MOVING_FLAG
        } else {
            p.flags & 0xfffbffffu32
        },
        turn_type: turn_type_of(t),
        is_quick_shifting: if t.no_input { false } else { p.is_quick_shifting },
        push_sideways_dir: if both && !t.sticks_opposed { sideways_dir_of(t.push_class) } else { p.push_sideways_dir },
        ..p
    }
}

impl Prince {
    fn turn_value(p: Prince, t: TurnInputs) -> (r: Prince)
        ensures
            r == turn_applied(p, t),
    {
        proof {
            reveal(turn_applied);
        }
        let cleared: u32 = p.flags & 0xfffbffffu32;
        if t.no_input {
            return Prince { flags: cleared, turn_type: PrinceTurnType::NoTurn, is_quick_shifting: false, ..p };
        }
        if t.ls_neutral {
            let tt = if t.rs_neutral {
                PrinceTurnType::NoTurn
            } else if t.rs_up {
                PrinceTurnType::RightStickUp
            } else {
                PrinceTurnType::RightStickDown
            };
            return Prince { flags: cleared, turn_type: tt, ..p };
        }
        if t.rs_neutral {
            let tt = if t.ls_up { PrinceTurnType::LeftStickUp } else { PrinceTurnType::LeftStickDown };
            return Prince { flags: cleared, turn_type: tt, ..p };
        }
        if t.sticks_opposed {
            let f: u32 = if t.kat_moving { cleared | QUICK_SHIFT_MOVING_FLAG } else { cleared };
            return Prince { flags: f, turn_type: PrinceTurnType::BothSticks, ..p };
        }
        let dir = match t.push_class {
            PushAngleClass::SidewaysRight => Some(PrinceSidewaysDir::Right),
            PushAngleClass::SidewaysLeft => Some(PrinceSidewaysDir::Left),
            _ => None,
        };
        Prince { flags: cleared, turn_type: PrinceTurnType::BothSticks, push_sideways_dir: dir, ..p }
    }

    fn turn_move(t: TurnInputs) -> (r: Option<TutorialMove>)
        ensures
            r == turn_tutorial_move(t),
    {
        if t.no_input || t.ls_neutral || t.rs_neutral {
            return None;
        }
        if t.sticks_opposed {
            return Some(TutorialMove::QuickShift);
        }
        match t.push_class {
            PushAngleClass::Forwards => Some(TutorialMove::RollForwards),
            PushAngleClass::RightDiagonal => Some(TutorialMove::RollToTheRight),
            PushAngleClass::LeftDiagonal => Some(TutorialMove::RollToTheLeft),
            PushAngleClass::Backwards => Some(TutorialMove::RollBackwards),
            PushAngleClass::SidewaysRight => Some(TutorialMove::RollSideways),
            PushAngleClass::SidewaysLeft => Some(TutorialMove::RollSideways),
        }
    }

    /// Decides how the prince turns around the katamari from the analog sticks (see
    /// `turn_type_of`, `turn_tutorial_move` and `turn_applied`); returns the tutorial
    /// move the sticks hold. The caller turns the prince's angle by the returned turn
    /// type and move.
    pub fn update_angle(&mut self, t: TurnInputs) -> (r: Option<TutorialMove>)
        requires
            !t.no_input ==> !(t.ls_neutral && t.rs_neutral),
        ensures
            r == turn_tutorial_move(t),
            *final(self) == turn_applied(*old(self), t),
    {
        *self = Prince::turn_value(*self, t);
        Prince::turn_move(t)
    }
}

/// Without analog input the prince does not turn and holds no tutorial move.
pub proof fn law_no_input_no_turn(p: Prince, t: TurnInputs)
    requires
        t.no_input,
    ensures
        turn_applied(p, t).turn_type == PrinceTurnType::NoTurn,
        !turn_applied(p, t).is_quick_shifting,
        turn_tutorial_move(t) is None,
{
    reveal(turn_applied);
}

/// A tutorial move is held exactly when both sticks push.
pub proof fn law_tutorial_move_needs_both_sticks(t: TurnInputs)
    ensures
        turn_tutorial_move(t) is Some <==> turn_type_of(t) == PrinceTurnType::BothSticks,
{
}

/// In an open gacha window, a gacha count past the boost count releases the spin into
/// the boost (dashing, not spinning); a count from the spin count up to, not including,
/// the boost count spins and dashes. An expired window ends both and resets the count.
pub proof fn law_gacha_window_spin_and_boost(p: Prince, params: PrinceParams, just: bool, diam_mm: i32)
    ensures
        p.gacha_window_timer > 0 && p.gacha_count > boost_gachas(params, diam_mm) ==> {
            let q = gacha_window_step(p, params, just, diam_mm);
            q.oujistate.dash && !q.oujistate.wheel_spin
        },
        p.gacha_window_timer > 0 && params.prince_gachas_for_spin <= p.gacha_count
            && p.gacha_count < boost_gachas(params, diam_mm) ==> {
            let q = gacha_window_step(p, params, just, diam_mm);
            q.oujistate.dash && q.oujistate.wheel_spin
        },
        p.gacha_window_timer == 0 ==> {
            let q = gacha_window_step(p, params, just, diam_mm);
            !q.oujistate.dash && !q.oujistate.wheel_spin && q.gacha_count == 0
        },
{
}

/// A gacha tick that counts gachas (no huff, no shoot camera, gachas not blocked, the
/// boost not running out, the katamari not leaving the ground without a spin) in an open
/// window with a gacha count past the boost count for the katamari's diameter leaves
/// the prince boosting: dashing and not spinning. This tick's gacha, if there is one,
/// raises the count by one and reopens the window.
pub proof fn law_gacha_tick_past_boost_boosts(
    p: Prince,
    params: PrinceParams,
    k: KatPhysicsFlags,
    camera_mode: CameraMode,
    mode: GameMode,
    tutorial_page: Option<u32>,
    is_vs_mode: bool,
    diam_mm: i32,
)
    requires
        gachas_counted_this_tick(p, k, camera_mode, mode, tutorial_page),
        !airborne_ends_spin(p, k),
        p.gacha_count < u8::MAX,
        gacha_performed(p) ==> p.gacha_window_duration > 0 && p.gacha_count + 1 > boost_gachas(params, diam_mm),
        !gacha_performed(p) ==> p.gacha_window_timer > 0 && p.gacha_count > boost_gachas(params, diam_mm),
    ensures
        gacha_tick(p, params, k, camera_mode, mode, tutorial_page, is_vs_mode, diam_mm).oujistate.dash,
        !gacha_tick(p, params, k, camera_mode, mode, tutorial_page, is_vs_mode, diam_mm).oujistate.wheel_spin,
{
    reveal(gacha_tick);
    let p1 = gacha_drained(gacha_prelude(p, k), mode);
    assert(gacha_performed(p1) == gacha_performed(p));
    law_gacha_window_spin_and_boost(gacha_recorded(p1), params, gacha_performed(p1), diam_mm);
}

/// With input, the turn type names the stick that is pushed alone and its direction:
/// the left stick alone turns by the left stick, up or down as it points, the right
/// stick alone likewise, and both sticks give the both-sticks turn.
pub proof fn law_turn_type_follows_sticks(p: Prince, t: TurnInputs)
    requires
        !t.no_input,
    ensures
        t.ls_neutral && !t.rs_neutral && t.rs_up ==> turn_applied(p, t).turn_type == PrinceTurnType::RightStickUp,
        t.ls_neutral && !t.rs_neutral && !t.rs_up ==> turn_applied(p, t).turn_type == PrinceTurnType::RightStickDown,
        !t.ls_neutral && t.rs_neutral && t.ls_up ==> turn_applied(p, t).turn_type == PrinceTurnType::LeftStickUp,
        !t.ls_neutral && t.rs_neutral && !t.ls_up ==> turn_applied(p, t).turn_type == PrinceTurnType::LeftStickDown,
        !t.ls_neutral && !t.rs_neutral ==> turn_applied(p, t).turn_type == PrinceTurnType::BothSticks,
        t.ls_neutral && t.rs_neutral ==> turn_applied(p, t).turn_type == PrinceTurnType::NoTurn,
{
    reveal(turn_applied);
}

/// In the normal view mode, outside versus mode and preclear, with the camera not
/// scaling up and the tutorial (if any) past its first page, a prince that is neither
/// dashing nor flipping, whose katamari is immobile or on a floor and slow enough,
/// starts an L1 look when L1 alone is pressed and an R1 jump when R1 alone is pressed.
/// A katamari that is neither immobile nor slow enough on a floor, or versus mode,
/// never starts one.
pub proof fn law_view_mode_starts(
    p: Prince,
    k: KatPhysicsFlags,
    input: Input,
    camera_scaling_up: bool,
    preclear_enabled: bool,
    is_vs_mode: bool,
    slow_enough: bool,
    tutorial_page: Option<u32>,
)
    requires
        p.view_mode == PrinceViewMode::Normal,
    ensures
        ({
            let a = spec_view_mode_action(p, k, input, camera_scaling_up, preclear_enabled, is_vs_mode, slow_enough, tutorial_page);
            let may = !is_vs_mode && !preclear_enabled && !camera_scaling_up
                && (tutorial_page is None || tutorial_page->0 > 0) && !p.oujistate.dash
                && !p.oujistate.jump_180 && (k.immobile || (k.contacts_floor && slow_enough));
            &&& may && input.l1_down && !input.r1_down ==> a == ViewModeAction::StartL1Look
                && view_mode_applied(p, a).view_mode == PrinceViewMode::L1Look
            &&& may && input.r1_down && !input.l1_down ==> a == ViewModeAction::StartR1Jump
                && view_mode_applied(p, a).view_mode == PrinceViewMode::R1Jump
            &&& (is_vs_mode || (!k.immobile && !(k.contacts_floor && slow_enough))) ==> !view_mode_action_starts(a)
        }),
{
    reveal(view_mode_applied);
}

/// The gacha that reaches the spin count starts the spin (the spin-start flag is set);
/// in an open window a count below the spin count neither spins nor dashes beyond what
/// the prince already did.
pub proof fn law_gacha_window_spin_start(p: Prince, params: PrinceParams, boost: int)
    ensures
        p.gacha_count == params.prince_gachas_for_spin ==> gacha_window_ouji(p, params, true, boost).wheel_spin_start,
        p.gacha_count != params.prince_gachas_for_spin ==> gacha_window_ouji(p, params, true, boost).wheel_spin_start
            == p.oujistate.wheel_spin_start,
        p.gacha_count < params.prince_gachas_for_spin && p.gacha_count <= boost ==> {
            let o = gacha_window_ouji(p, params, true, boost);
            o.dash == p.oujistate.dash && o.wheel_spin == p.oujistate.wheel_spin
        },
{
}

/// In the L1 look, a camera scaling up ends the look and returns the prince to the
/// normal view mode; otherwise the look continues. An R1 jump is not changed by the
/// view mode update.
pub proof fn law_view_mode_in_look_or_jump(
    p: Prince,
    k: KatPhysicsFlags,
    input: Input,
    camera_scaling_up: bool,
    preclear_enabled: bool,
    is_vs_mode: bool,
    slow_enough: bool,
    tutorial_page: Option<u32>,
)
    ensures
        ({
            let a = spec_view_mode_action(p, k, input, camera_scaling_up, preclear_enabled, is_vs_mode, slow_enough, tutorial_page);
            &&& p.view_mode == PrinceViewMode::L1Look && camera_scaling_up ==> a == ViewModeAction::EndL1Look
                && view_mode_applied(p, a).view_mode == PrinceViewMode::Normal
            &&& p.view_mode == PrinceViewMode::L1Look && !camera_scaling_up ==> a == ViewModeAction::UpdateL1Look
                && view_mode_applied(p, a) == p
            &&& p.view_mode == PrinceViewMode::R1Jump ==> a == ViewModeAction::NoChange && view_mode_applied(p, a) == p
        }),
{
    reveal(view_mode_applied);
}

} // verus!

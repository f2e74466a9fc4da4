use vstd::prelude::*;

verus! {

/// Holds all controller input that can occur in a single tick.
/// Each analog axis is quantized to a signed byte. For buttons, `down` means this is
/// the first tick the button is pressed and `held` that it is being held down.
#[derive(Debug, Default, Clone, Copy, PartialEq, Eq)]
pub struct Input {
    /// Left stick x axis input.
    pub ls_x: i8,
    /// Left stick y axis input.
    pub ls_y: i8,
    /// Right stick x axis input.
    pub rs_x: i8,
    /// Right stick y axis input.
    pub rs_y: i8,
    pub l1_down: bool,
    pub l1_held: bool,
    pub l2_down: bool,
    pub l2_held: bool,
    pub l3_down: bool,
    pub l3_held: bool,
    pub r1_down: bool,
    pub r1_held: bool,
    pub r2_down: bool,
    pub r2_held: bool,
    pub r3_down: bool,
    pub r3_held: bool,
    pub cross_click: bool,
}

impl Input {
    /// True when any shoulder trigger (L1, L2, R1, R2) is pressed or held.
    pub open spec fn spec_any_trigger_down(self) -> bool {
        self.l1_down || self.l1_held || self.l2_down || self.l2_held || self.r1_down
            || self.r1_held || self.r2_down || self.r2_held
    }

    /// Store the quantized analog stick axes and the stick-click buttons.
    /// (The quantization of each axis from `[-1, 1]` to a signed byte happens before this call.)
    pub fn set_stick_state(
        &mut self,
        ls_x: i8,
        ls_y: i8,
        rs_x: i8,
        rs_y: i8,
        l3_down: bool,
        r3_down: bool,
        l3_held: bool,
        r3_held: bool,
    )
        ensures
            *final(self) == (Input {
                ls_x,
                ls_y,
                rs_x,
                rs_y,
                l3_down,
                r3_down,
                l3_held,
                r3_held,
                ..*old(self)
            }),
    {
        self.ls_x = ls_x;
        self.ls_y = ls_y;
        self.rs_x = rs_x;
        self.rs_y = rs_y;
        self.l3_down = l3_down;
        self.r3_down = r3_down;
        self.l3_held = l3_held;
        self.r3_held = r3_held;
    }

    /// Store the shoulder-trigger buttons and the cross button.
    pub fn set_trigger_state(
        &mut self,
        l1_down: bool,
        l1_held: bool,
        l2_down: bool,
        l2_held: bool,
        r1_down: bool,
        r1_held: bool,
        r2_down: bool,
        r2_held: bool,
        cross_click: bool,
    )
        ensures
            *final(self) == (Input {
                l1_down,
                l1_held,
                l2_down,
                l2_held,
                r1_down,
                r1_held,
                r2_down,
                r2_held,
                cross_click,
                ..*old(self)
            }),
    {
        self.l1_down = l1_down;
        self.l1_held = l1_held;
        self.l2_down = l2_down;
        self.l2_held = l2_held;
        self.r1_down = r1_down;
        self.r1_held = r1_held;
        self.r2_down = r2_down;
        self.r2_held = r2_held;
        self.cross_click = cross_click;
    }

    /// Returns `true` when any shoulder trigger is pressed or held.
    pub fn any_trigger_down(&self) -> (r: bool)
        ensures
            r == self.spec_any_trigger_down(),
    {
        self.l1_down || self.l1_held || self.l2_down || self.l2_held || self.r1_down
            || self.r1_held || self.r2_down || self.r2_held
    }
}

/// The possible directions a single stick can push.
#[derive(Debug, Clone, Copy, PartialEq, Eq, Structural)]
pub enum StickPushDir {
    Up,
    Down,
}

/// The push direction of a stick whose y axis is above the push threshold (`above`)
/// or below its negation (`below`); "up" wins when both hold.
pub open spec fn spec_stick_push_dir(above: bool, below: bool) -> Option<StickPushDir> {
    if above {
        Some(StickPushDir::Up)
    } else if below {
        Some(StickPushDir::Down)
    } else {
        None
    }
}

/// The "changed" direction from `last` to `current`: `None` when they agree,
/// otherwise the current direction.
pub open spec fn spec_changed_dir(last: Option<StickPushDir>, current: Option<StickPushDir>) -> Option<StickPushDir> {
    if last != current {
        current
    } else {
        None
    }
}

/// The push directions of both sticks.
#[derive(Debug, Default, Clone, Copy, PartialEq, Eq, Structural)]
pub struct AnalogPushDirs {
    pub left: Option<StickPushDir>,
    pub right: Option<StickPushDir>,
}

fn stick_push_dir(above: bool, below: bool) -> (r: Option<StickPushDir>)
    ensures
        r == spec_stick_push_dir(above, below),
{
    if above {
        Some(StickPushDir::Up)
    } else if below {
        Some(StickPushDir::Down)
    } else {
        None
    }
}

fn changed_dir(last: Option<StickPushDir>, current: Option<StickPushDir>) -> (r: Option<StickPushDir>)
    ensures
        r == spec_changed_dir(last, current),
{
    let same = match (last, current) {
        (None, None) => true,
        (Some(StickPushDir::Up), Some(StickPushDir::Up)) => true,
        (Some(StickPushDir::Down), Some(StickPushDir::Down)) => true,
        _ => false,
    };
    if !same {
        current
    } else {
        None
    }
}

impl AnalogPushDirs {
    /// Clears this struct to have no push directions.
    pub fn clear(&mut self)
        ensures
            final(self).left is None,
            final(self).right is None,
    {
        self.left = None;
        self.right = None;
    }

    /// Computes the push directions of both sticks from the comparisons of their y axes
    /// with the minimum push length `t`: `ls_above` is `ls_y > t`, `ls_below` is `ls_y < -t`,
    /// and likewise for the right stick.
    pub fn update_from_comparisons(&mut self, ls_above: bool, ls_below: bool, rs_above: bool, rs_below: bool)
        ensures
            final(self).left == spec_stick_push_dir(ls_above, ls_below),
            final(self).right == spec_stick_push_dir(rs_above, rs_below),
    {
        self.left = stick_push_dir(ls_above, ls_below);
        self.right = stick_push_dir(rs_above, rs_below);
    }

    /// Computes the "changed" input directions from the `last` directions to the `current` ones.
    /// If `last` and `current` are the same direction the "changed" dir is `None`.
    /// If they're different directions, the "changed" dir is the `current` dir.
    pub fn compute_changed(&mut self, last: &AnalogPushDirs, current: &AnalogPushDirs)
        ensures
            final(self).left == spec_changed_dir(last.left, current.left),
            final(self).right == spec_changed_dir(last.right, current.right),
    {
        self.left = changed_dir(last.left, current.left);
        self.right = changed_dir(last.right, current.right);
    }
}

/// The direction of a gacha (alternating stick pushes).
#[derive(Debug, Clone, Copy, PartialEq, Eq, Structural)]
pub enum GachaDir {
    Left,
    Right,
}

} // verus!

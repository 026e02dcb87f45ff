//! The in-memory mirror of the device: axis positions and button states.
use vstd::prelude::*;
use crate::types::Command;
use crate::util::MAX_LEVEL;

verus! {

/// The number of axes; their identifiers run from 1 to this number.
pub const AXIS_COUNT: usize = 16;

/// The number of button slots, one for every `u8` identifier.
pub const BUTTON_COUNT: usize = 256;

/// The neutral axis position that the device starts from.
pub const NEUTRAL_LEVEL: i32 = 16383;

/// The mathematical content of a device state.
pub struct DeviceView {
    /// `axes[id - 1]` is the position of the axis with identifier `id`.
    pub axes: Seq<i32>,
    /// `buttons[id]` tells whether the button with identifier `id` is held.
    pub buttons: Seq<bool>,
}

/// `v` limited to the device's range `[0, MAX_LEVEL]`.
pub open spec fn clamp_level(v: i32) -> i32 {
    if v < 0 {
        0
    } else if v > MAX_LEVEL {
        MAX_LEVEL
    } else {
        v
    }
}

impl DeviceView {
    /// The shape of a device state, with every axis inside the device's range.
    pub open spec fn wf(self) -> bool {
        &&& self.axes.len() == AXIS_COUNT
        &&& self.buttons.len() == BUTTON_COUNT
        &&& forall|i: int| 0 <= i < AXIS_COUNT ==> 0 <= #[trigger] self.axes[i] <= MAX_LEVEL
    }

    /// The state after setting the axis with identifier `id`; an identifier
    /// outside `1..=AXIS_COUNT` changes nothing.
    pub open spec fn with_axis(self, id: u32, value: i32) -> DeviceView {
        if 1 <= id <= AXIS_COUNT {
            DeviceView { axes: self.axes.update(id - 1, clamp_level(value)), ..self }
        } else {
            self
        }
    }

    /// The state after setting the button with identifier `id`.
    pub open spec fn with_button(self, id: u8, pressed: bool) -> DeviceView {
        DeviceView { buttons: self.buttons.update(id as int, pressed), ..self }
    }

    /// The state after applying one command: its axis part, then its button part.
    pub open spec fn apply(self, cmd: Command) -> DeviceView {
        let s1 = match cmd.axis_part() {
            Some((a, v)) => self.with_axis(a.spec_id(), v),
            None => self,
        };
        match cmd.button_part() {
            Some((b, p)) => s1.with_button(b, p),
            None => s1,
        }
    }

    /// The state after applying the commands in order.
    pub open spec fn apply_all(self, cmds: Seq<Command>) -> DeviceView
        decreases cmds.len(),
    {
        if cmds.len() == 0 {
            self
        } else {
            self.apply_all(cmds.drop_last()).apply(cmds.last())
        }
    }
}

/// The in-memory state of the device.
pub struct DeviceState {
    axes: Vec<i32>,
    buttons: Vec<bool>,
}

impl View for DeviceState {
    type V = DeviceView;

    closed spec fn view(&self) -> DeviceView {
        DeviceView { axes: self.axes@, buttons: self.buttons@ }
    }
}

impl DeviceState {
    /// Every axis at the neutral position and every button released.
    pub open spec fn neutral() -> DeviceView {
        DeviceView {
            axes: Seq::new(AXIS_COUNT as nat, |i: int| NEUTRAL_LEVEL),
            buttons: Seq::new(BUTTON_COUNT as nat, |i: int| false),
        }
    }

    /// A state with every axis at the neutral position and every button released.
    pub fn new() -> (r: DeviceState)
        ensures
            r@ == Self::neutral(),
            r@.wf(),
    {
        let mut axes: Vec<i32> = Vec::new();
        while axes.len() < AXIS_COUNT
            invariant
                axes@.len() <= AXIS_COUNT,
                forall|i: int| 0 <= i < axes@.len() ==> #[trigger] axes@[i] == NEUTRAL_LEVEL,
            decreases AXIS_COUNT - axes@.len(),
        {
            axes.push(NEUTRAL_LEVEL);
        }
        let mut buttons: Vec<bool> = Vec::new();
        while buttons.len() < BUTTON_COUNT
            invariant
                buttons@.len() <= BUTTON_COUNT,
                forall|i: int| 0 <= i < buttons@.len() ==> !#[trigger] buttons@[i],
            decreases BUTTON_COUNT - buttons@.len(),
        {
            buttons.push(false);
        }
        let r = DeviceState { axes, buttons };
        assert(r@.axes =~= Self::neutral().axes);
        assert(r@.buttons =~= Self::neutral().buttons);
        r
    }

    /// The position of the axis with identifier `id`, from 1 to `AXIS_COUNT`.
    pub fn axis(&self, id: u32) -> (r: i32)
        requires
            self@.wf(),
            1 <= id <= AXIS_COUNT,
        ensures
            r == self@.axes[id - 1],
    {
        self.axes[(id - 1) as usize]
    }

    /// Whether the button with identifier `id` is held.
    pub fn button(&self, id: u8) -> (r: bool)
        requires
            self@.wf(),
        ensures
            r == self@.buttons[id as int],
    {
        self.buttons[id as usize]
    }

    /// Sets the axis with identifier `id` to `value` limited to the device's
    /// range; an identifier outside `1..=AXIS_COUNT` is ignored.
    pub fn apply_axis(&mut self, id: u32, value: i32)
        requires
            old(self)@.wf(),
        ensures
            final(self)@ == old(self)@.with_axis(id, value),
            final(self)@.wf(),
    {
        if 1 <= id && id <= AXIS_COUNT as u32 {
            let level = if value < 0 {
                0
            } else if value > MAX_LEVEL {
                MAX_LEVEL
            } else {
                value
            };
            self.axes.set((id - 1) as usize, level);
        }
    }

    /// Sets the state of the button with identifier `id`.
    pub fn apply_button(&mut self, id: u8, pressed: bool)
        requires
            old(self)@.wf(),
        ensures
            final(self)@ == old(self)@.with_button(id, pressed),
            final(self)@.wf(),
    {
        self.buttons.set(id as usize, pressed);
    }

    /// Applies one command: its axis part, then its button part.
    pub fn apply_command(&mut self, cmd: Command)
        requires
            old(self)@.wf(),
        ensures
            final(self)@ == old(self)@.apply(cmd),
            final(self)@.wf(),
    {
        match cmd {
            Command::AxisOnly(a, v) => {
                self.apply_axis(a.id(), v);
            },
            Command::ButtonOnly(b, p) => {
                self.apply_button(b, p);
            },
            Command::Both(a, v, b, p) => {
                self.apply_axis(a.id(), v);
                self.apply_button(b, p);
            },
            Command::Neither => {},
        }
    }
}

/// The state of button `b` after the commands in order, starting from
/// `initial`: the state that the last command naming `b` gives it, or
/// `initial` when none does.
pub open spec fn last_press(cmds: Seq<Command>, b: u8, initial: bool) -> bool
    decreases cmds.len(),
{
    if cmds.len() == 0 {
        initial
    } else {
        match cmds.last().button_part() {
            Some((id, p)) if id == b => p,
            _ => last_press(cmds.drop_last(), b, initial),
        }
    }
}

/// Applying a command keeps a well-formed state well formed.
pub proof fn lemma_apply_keeps_wf(d: DeviceView, cmd: Command)
    requires
        d.wf(),
    ensures
        d.apply(cmd).wf(),
{
}

/// Applying commands in order keeps a well-formed state well formed.
pub proof fn lemma_apply_all_keeps_wf(d: DeviceView, cmds: Seq<Command>)
    requires
        d.wf(),
    ensures
        d.apply_all(cmds).wf(),
    decreases cmds.len(),
{
    if cmds.len() > 0 {
        lemma_apply_all_keeps_wf(d, cmds.drop_last());
        lemma_apply_keeps_wf(d.apply_all(cmds.drop_last()), cmds.last());
    }
}

/// Commands take effect in the order given: after applying a sequence of
/// commands, each button holds the state that the last command naming it
/// set, and keeps its earlier state when no command names it.
pub proof fn lemma_last_press_wins(d: DeviceView, cmds: Seq<Command>, b: u8)
    requires
        d.wf(),
    ensures
        d.apply_all(cmds).buttons[b as int] == last_press(cmds, b, d.buttons[b as int]),
    decreases cmds.len(),
{
    if cmds.len() > 0 {
        lemma_last_press_wins(d, cmds.drop_last(), b);
        lemma_apply_all_keeps_wf(d, cmds.drop_last());
    }
}

/// A command with only an axis part leaves every button as it was, and a
/// command with neither part leaves the whole state as it was.
pub proof fn lemma_partial_commands(d: DeviceView, a: crate::types::Axis, v: i32)
    requires
        d.wf(),
    ensures
        d.apply(Command::AxisOnly(a, v)).buttons == d.buttons,
        d.apply(Command::Neither) == d,
{
}

} // verus!

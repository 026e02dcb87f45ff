//! The command model: axes, the wire-level command shape and its decoded form.
use vstd::prelude::*;
use crate::util::{axis_of_lower, lower_of, map_axis};

verus! {

/// One continuous control channel of the device.
#[derive(Clone, Copy, Debug, PartialEq, Eq, Structural)]
pub enum Axis {
    X,
    Y,
    Z,
    Rx,
    Ry,
    Rz,
    Slider,
    DialSlider,
    Wheel,
    Accel,
    Brake,
    Clutch,
    Steering,
    Aileron,
    Rudder,
    Throttle,
}

impl Axis {
    /// The device's identifier of the axis, from 1 to 16.
    pub open spec fn spec_id(self) -> u32 {
        match self {
            Axis::X => 1,
            Axis::Y => 2,
            Axis::Z => 3,
            Axis::Rx => 4,
            Axis::Ry => 5,
            Axis::Rz => 6,
            Axis::Slider => 7,
            Axis::DialSlider => 8,
            Axis::Wheel => 9,
            Axis::Accel => 10,
            Axis::Brake => 11,
            Axis::Clutch => 12,
            Axis::Steering => 13,
            Axis::Aileron => 14,
            Axis::Rudder => 15,
            Axis::Throttle => 16,
        }
    }

    /// The device's identifier of the axis.
    #[verifier::when_used_as_spec(spec_id)]
    pub fn id(self) -> (r: u32)
        ensures
            r == self.spec_id(),
            1 <= r <= 16,
    {
        match self {
            Axis::X => 1,
            Axis::Y => 2,
            Axis::Z => 3,
            Axis::Rx => 4,
            Axis::Ry => 5,
            Axis::Rz => 6,
            Axis::Slider => 7,
            Axis::DialSlider => 8,
            Axis::Wheel => 9,
            Axis::Accel => 10,
            Axis::Brake => 11,
            Axis::Clutch => 12,
            Axis::Steering => 13,
            Axis::Aileron => 14,
            Axis::Rudder => 15,
            Axis::Throttle => 16,
        }
    }

    /// The canonical name of the axis, in lower-case ASCII.
    pub open spec fn name(self) -> Seq<char> {
        match self {
            Axis::X => seq!['x'],
            Axis::Y => seq!['y'],
            Axis::Z => seq!['z'],
            Axis::Rx => seq!['r', 'x'],
            Axis::Ry => seq!['r', 'y'],
            Axis::Rz => seq!['r', 'z'],
            Axis::Slider => seq!['s', 'l', 'i', 'd', 'e', 'r'],
            Axis::DialSlider => seq!['d', 'i', 'a', 'l', 's', 'l', 'i', 'd', 'e', 'r'],
            Axis::Wheel => seq!['w', 'h', 'e', 'e', 'l'],
            Axis::Accel => seq!['a', 'c', 'c', 'e', 'l'],
            Axis::Brake => seq!['b', 'r', 'a', 'k', 'e'],
            Axis::Clutch => seq!['c', 'l', 'u', 't', 'c', 'h'],
            Axis::Steering => seq!['s', 't', 'e', 'e', 'r', 'i', 'n', 'g'],
            Axis::Aileron => seq!['a', 'i', 'l', 'e', 'r', 'o', 'n'],
            Axis::Rudder => seq!['r', 'u', 'd', 'd', 'e', 'r'],
            Axis::Throttle => seq!['t', 'h', 'r', 'o', 't', 't', 'l', 'e'],
        }
    }

    /// The characters of the canonical name of the axis.
    pub fn name_chars(self) -> (r: Vec<char>)
        ensures
            r@ == self.name(),
    {
        let r = match self {
            Axis::X => vec!['x'],
            Axis::Y => vec!['y'],
            Axis::Z => vec!['z'],
            Axis::Rx => vec!['r', 'x'],
            Axis::Ry => vec!['r', 'y'],
            Axis::Rz => vec!['r', 'z'],
            Axis::Slider => vec!['s', 'l', 'i', 'd', 'e', 'r'],
            Axis::DialSlider => vec!['d', 'i', 'a', 'l', 's', 'l', 'i', 'd', 'e', 'r'],
            Axis::Wheel => vec!['w', 'h', 'e', 'e', 'l'],
            Axis::Accel => vec!['a', 'c', 'c', 'e', 'l'],
            Axis::Brake => vec!['b', 'r', 'a', 'k', 'e'],
            Axis::Clutch => vec!['c', 'l', 'u', 't', 'c', 'h'],
            Axis::Steering => vec!['s', 't', 'e', 'e', 'r', 'i', 'n', 'g'],
            Axis::Aileron => vec!['a', 'i', 'l', 'e', 'r', 'o', 'n'],
            Axis::Rudder => vec!['r', 'u', 'd', 'd', 'e', 'r'],
            Axis::Throttle => vec!['t', 'h', 'r', 'o', 't', 't', 'l', 'e'],
        };
        assert(r@ =~= self.name());
        r
    }
}

/// An axis sub-command as it arrives: a symbolic axis name and a position in
/// the device's native range, not yet clamped.
#[derive(Clone, Debug)]
pub struct AxisCommand {
    pub axis: String,
    pub value: i32,
}

/// A button sub-command: the button's identifier and whether it is held.
#[derive(Clone, Copy, Debug, PartialEq, Eq, Structural)]
pub struct ButtonCommand {
    pub button: u8,
    pub pressed: bool,
}

/// A command as it arrives: either sub-command may be absent on its own.
#[derive(Clone, Debug)]
pub struct AppCommand {
    pub axis: Option<AxisCommand>,
    pub button: Option<ButtonCommand>,
}

/// A decoded command, with its axis already resolved.
#[derive(Clone, Copy, Debug, PartialEq, Eq, Structural)]
pub enum Command {
    AxisOnly(Axis, i32),
    ButtonOnly(u8, bool),
    Both(Axis, i32, u8, bool),
    Neither,
}

impl Command {
    /// The axis part of the command, if any.
    pub open spec fn axis_part(self) -> Option<(Axis, i32)> {
        match self {
            Command::AxisOnly(a, v) => Some((a, v)),
            Command::Both(a, v, _, _) => Some((a, v)),
            _ => None,
        }
    }

    /// The button part of the command, if any.
    pub open spec fn button_part(self) -> Option<(u8, bool)> {
        match self {
            Command::ButtonOnly(b, p) => Some((b, p)),
            Command::Both(_, _, b, p) => Some((b, p)),
            _ => None,
        }
    }

    /// The command made of the given parts.
    pub open spec fn from_parts(axis: Option<(Axis, i32)>, button: Option<(u8, bool)>) -> Command {
        match (axis, button) {
            (Some((a, v)), Some((b, p))) => Command::Both(a, v, b, p),
            (Some((a, v)), None) => Command::AxisOnly(a, v),
            (None, Some((b, p))) => Command::ButtonOnly(b, p),
            (None, None) => Command::Neither,
        }
    }
}

impl AppCommand {
    /// The resolved axis part: absent when the axis sub-command is absent or
    /// names no known axis.
    pub open spec fn resolved_axis(self) -> Option<(Axis, i32)> {
        match self.axis {
            Some(ac) => match axis_of_lower(lower_of(ac.axis@)) {
                Some(a) => Some((a, ac.value)),
                None => None,
            },
            None => None,
        }
    }

    /// The decoded form of the command.
    pub open spec fn spec_resolve(self) -> Command {
        Command::from_parts(
            self.resolved_axis(),
            match self.button {
                Some(bc) => Some((bc.button, bc.pressed)),
                None => None,
            },
        )
    }

    /// Resolves the axis name and turns the two optional sub-commands into one
    /// tagged command. An axis sub-command whose name is unknown is dropped;
    /// the button sub-command, if present, is kept.
    pub fn resolve(&self) -> (r: Command)
        ensures
            r == self.spec_resolve(),
    {
        let axis = match &self.axis {
            Some(ac) => match map_axis(ac.axis.as_str()) {
                Some(a) => Some((a, ac.value)),
                None => None,
            },
            None => None,
        };
        match (axis, self.button) {
            (Some((a, v)), Some(bc)) => Command::Both(a, v, bc.button, bc.pressed),
            (Some((a, v)), None) => Command::AxisOnly(a, v),
            (None, Some(bc)) => Command::ButtonOnly(bc.button, bc.pressed),
            (None, None) => Command::Neither,
        }
    }
}

} // verus!

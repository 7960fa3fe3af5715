//! The outbound plain-text directives: the fixed subscription set sent once
//! at startup, and the two tiling-direction commands sent reactively.

use vstd::prelude::*;
use crate::policy::Direction;

verus! {

/// The text of the tiling-direction command for the given direction.
pub open spec fn spec_direction_command(d: Direction) -> Seq<char> {
    match d {
        Direction::Vertical => "command set-tiling-direction vertical"@,
        Direction::Horizontal => "command set-tiling-direction horizontal"@,
    }
}

/// Renders a tiling direction as the command text the window manager takes.
pub fn direction_command(d: Direction) -> (r: &'static str)
    ensures
        r@ == spec_direction_command(d),
{
    match d {
        Direction::Vertical => "command set-tiling-direction vertical",
        Direction::Horizontal => "command set-tiling-direction horizontal",
    }
}

/// The subscription directives to send once at startup, in order: one per
/// event name in the fixed set.
pub fn subscription_commands() -> (r: Vec<&'static str>)
    ensures
        r@.len() == 3,
        r@[0]@ == "sub -e focus_changed"@,
        r@[1]@ == "sub -e focused_container_moved"@,
        r@[2]@ == "sub -e application_exiting"@,
{
    let mut cmds: Vec<&'static str> = Vec::new();
    cmds.push("sub -e focus_changed");
    cmds.push("sub -e focused_container_moved");
    cmds.push("sub -e application_exiting");
    cmds
}

} // verus!

//! One movement cycle: displace the cursor, wait, put it back.
//!
//! The cycle is planned here and carried out elsewhere. The plan is a list
//! of commands for whoever holds the cursor; it depends on nothing but the
//! settings and the position that the cursor was read at.

use vstd::prelude::*;
use vstd::string::StringExecFns;
use crate::config::MouseMoverConfig;
use crate::error::{ErrorView, KtmmError};

verus! {

/// One thing to do with the cursor.
#[derive(Debug, Clone, Copy, PartialEq, Eq, Structural)]
pub enum CursorCommand {
    /// Put the cursor at the absolute position (x, y).
    MoveTo { x: i32, y: i32 },
    /// Leave the cursor alone for this many milliseconds.
    Pause { millis: u64 },
}

/// The text of the error for a displaced position that no pair of
/// coordinates can hold.
pub const TARGET_OUT_OF_RANGE: &'static str = "displaced position is out of the coordinate range";

/// Whether `position` moved by `delta` is still a pair of coordinates.
pub open spec fn target_in_range(position: (i32, i32), delta: (i32, i32)) -> bool {
    &&& i32::MIN <= position.0 + delta.0 <= i32::MAX
    &&& i32::MIN <= position.1 + delta.1 <= i32::MAX
}

/// `position` moved by `delta`, each axis on its own. Meant for pairs that
/// are `target_in_range`.
pub open spec fn displaced_position(position: (i32, i32), delta: (i32, i32)) -> (i32, i32) {
    ((position.0 + delta.0) as i32, (position.1 + delta.1) as i32)
}

/// The commands of one cycle that starts with the cursor at `position`: to
/// the displaced position, the pause, back to `position`.
pub open spec fn cycle_commands(config: MouseMoverConfig, position: (i32, i32)) -> Seq<
    CursorCommand,
> {
    let target = displaced_position(position, config.movement_pixels);
    seq![
        CursorCommand::MoveTo { x: target.0, y: target.1 },
        CursorCommand::Pause { millis: config.return_delay_ms },
        CursorCommand::MoveTo { x: position.0, y: position.1 },
    ]
}

/// The positions that one cycle sends the cursor to, in order.
pub open spec fn cycle_positions(config: MouseMoverConfig, position: (i32, i32)) -> Seq<
    (i32, i32),
> {
    seq![displaced_position(position, config.movement_pixels), position]
}

/// The positions that a list of commands sends the cursor to, in order.
pub open spec fn moves_of(commands: Seq<CursorCommand>) -> Seq<(i32, i32)>
    decreases commands.len(),
{
    if commands.len() == 0 {
        Seq::empty()
    } else {
        let before = moves_of(commands.drop_last());
        match commands.last() {
            CursorCommand::MoveTo { x, y } => before.push((x, y)),
            CursorCommand::Pause { .. } => before,
        }
    }
}

/// Moves `position` by `delta`, or returns `None` where the result leaves the
/// coordinate range on either axis.
pub fn displaced(position: (i32, i32), delta: (i32, i32)) -> (target: Option<(i32, i32)>)
    ensures
        target_in_range(position, delta) ==> target == Some(displaced_position(position, delta)),
        !target_in_range(position, delta) ==> target is None,
{
    let x: Option<i32> = position.0.checked_add(delta.0);
    let y: Option<i32> = position.1.checked_add(delta.1);
    match (x, y) {
        (Some(x), Some(y)) => Some((x, y)),
        _ => None,
    }
}

/// Plans one cycle for a cursor that was read at `position`.
///
/// The plan moves the cursor by `config.movement_pixels`, waits
/// `config.return_delay_ms` and moves it back to `position`. Whatever moved
/// the cursor during the wait is overridden by the way back. Where the
/// displaced position is out of range there is no plan, and the error says
/// so.
pub fn plan_cycle(config: &MouseMoverConfig, position: (i32, i32)) -> (plan: Result<
    Vec<CursorCommand>,
    KtmmError,
>)
    ensures
        target_in_range(position, config.movement_pixels) ==> plan is Ok && plan->Ok_0@
            == cycle_commands(*config, position),
        !target_in_range(position, config.movement_pixels) ==> plan is Err && plan->Err_0@
            == ErrorView::MouseControl(TARGET_OUT_OF_RANGE@),
{
    match displaced(position, config.movement_pixels) {
        Some(target) => {
            let mut commands: Vec<CursorCommand> = Vec::new();
            commands.push(CursorCommand::MoveTo { x: target.0, y: target.1 });
            commands.push(CursorCommand::Pause { millis: config.return_delay_ms });
            commands.push(CursorCommand::MoveTo { x: position.0, y: position.1 });
            Ok(commands)
        },
        None => Err(KtmmError::MouseControlError(String::from_str(TARGET_OUT_OF_RANGE))),
    }
}

/// A plan sends the cursor to the positions of its cycle: first the displaced
/// position, then the one it started from.
pub proof fn lemma_cycle_moves(config: MouseMoverConfig, position: (i32, i32))
    ensures
        moves_of(cycle_commands(config, position)) == cycle_positions(config, position),
{
    let commands = cycle_commands(config, position);
    let two = commands.drop_last();
    let one = two.drop_last();
    assert(one.drop_last() =~= Seq::<CursorCommand>::empty());
    assert(moves_of(one.drop_last()) =~= Seq::<(i32, i32)>::empty());
    assert(moves_of(one) =~= seq![displaced_position(position, config.movement_pixels)]);
    assert(moves_of(two) == moves_of(one));
    assert(moves_of(commands) =~= cycle_positions(config, position));
}

} // verus!

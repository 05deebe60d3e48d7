//! A cursor that exists in memory only, to run cycles without touching the
//! real one.

use vstd::prelude::*;
use crate::config::MouseMoverConfig;
use crate::cycle::{
    cycle_positions, displaced_position, lemma_cycle_moves, moves_of, plan_cycle, target_in_range,
    CursorCommand, TARGET_OUT_OF_RANGE,
};
use crate::error::{ErrorView, KtmmError};

verus! {

/// A cursor that stays where it was put and remembers every position that it
/// was sent to, oldest first.
#[derive(Debug)]
pub struct RecordingMouse {
    position: (i32, i32),
    positions: Vec<(i32, i32)>,
}

impl RecordingMouse {
    /// Where the cursor is.
    pub closed spec fn position(&self) -> (i32, i32) {
        self.position
    }

    /// The positions that the cursor was sent to, oldest first.
    pub closed spec fn recorded(&self) -> Seq<(i32, i32)> {
        self.positions@
    }

    /// A cursor at `position` that has not been moved yet.
    pub fn new(position: (i32, i32)) -> (mouse: Self)
        ensures
            mouse.position() == position,
            mouse.recorded() == Seq::<(i32, i32)>::empty(),
    {
        RecordingMouse { position, positions: Vec::new() }
    }

    /// Where the cursor is.
    pub fn get_cursor_position(&self) -> (position: (i32, i32))
        ensures
            position == self.position(),
    {
        self.position
    }

    /// Puts the cursor at (x, y) and records the position.
    pub fn move_cursor_to(&mut self, x: i32, y: i32)
        ensures
            final(self).position() == (x, y),
            final(self).recorded() == old(self).recorded().push((x, y)),
    {
        self.position = (x, y);
        self.positions.push((x, y));
    }

    /// The positions that the cursor was sent to, oldest first.
    pub fn get_positions(&self) -> (positions: Vec<(i32, i32)>)
        ensures
            positions@ == self.recorded(),
    {
        let mut positions: Vec<(i32, i32)> = Vec::new();
        let mut i: usize = 0;
        while i < self.positions.len()
            invariant
                i <= self.positions.len(),
                positions@ == self.positions@.take(i as int),
            decreases self.positions.len() - i,
        {
            positions.push(self.positions[i]);
            i = i + 1;
            assert(self.positions@.take(i as int) =~= self.positions@.take(i - 1).push(
                self.positions@[i - 1],
            ));
        }
        assert(self.positions@.take(i as int) =~= self.positions@);
        positions
    }

    /// Carries out a list of commands, first to last: the cursor goes where
    /// each move sends it; a pause takes no time here.
    pub fn perform(&mut self, commands: &Vec<CursorCommand>)
        ensures
            final(self).recorded() == old(self).recorded() + moves_of(commands@),
            final(self).position() == if moves_of(commands@).len() == 0 {
                old(self).position()
            } else {
                moves_of(commands@).last()
            },
    {
        let mut i: usize = 0;
        assert(commands@.take(0) =~= Seq::<CursorCommand>::empty());
        assert(self.recorded() =~= old(self).recorded() + moves_of(commands@.take(0)));
        while i < commands.len()
            invariant
                i <= commands.len(),
                self.recorded() == old(self).recorded() + moves_of(commands@.take(i as int)),
                self.position() == if moves_of(commands@.take(i as int)).len() == 0 {
                    old(self).position()
                } else {
                    moves_of(commands@.take(i as int)).last()
                },
            decreases commands.len() - i,
        {
            let ghost before = commands@.take(i as int);
            let ghost upto = commands@.take(i + 1);
            assert(upto.drop_last() =~= before);
            assert(upto.last() == commands@[i as int]);
            match commands[i] {
                CursorCommand::MoveTo { x, y } => {
                    self.move_cursor_to(x, y);
                    assert(moves_of(upto) == moves_of(before).push((x, y)));
                    assert(self.recorded() =~= old(self).recorded() + moves_of(upto));
                },
                CursorCommand::Pause { .. } => {
                    assert(moves_of(upto) == moves_of(before));
                },
            }
            i = i + 1;
        }
        assert(commands@.take(i as int) =~= commands@);
    }

    /// Runs one movement cycle on this cursor: it is read, displaced by
    /// `config.movement_pixels` and put back.
    ///
    /// Where the displaced position is out of range nothing is moved and the
    /// error says so.
    pub fn move_mouse_once(&mut self, config: &MouseMoverConfig) -> (outcome: Result<
        (),
        KtmmError,
    >)
        ensures
            target_in_range(old(self).position(), config.movement_pixels) ==> {
                &&& outcome is Ok
                &&& final(self).position() == old(self).position()
                &&& final(self).recorded() == old(self).recorded() + cycle_positions(
                    *config,
                    old(self).position(),
                )
            },
            !target_in_range(old(self).position(), config.movement_pixels) ==> {
                &&& outcome is Err
                &&& outcome->Err_0@ == ErrorView::MouseControl(TARGET_OUT_OF_RANGE@)
                &&& final(self).position() == old(self).position()
                &&& final(self).recorded() == old(self).recorded()
            },
    {
        let position = self.get_cursor_position();
        match plan_cycle(config, position) {
            Ok(commands) => {
                proof {
                    lemma_cycle_moves(*config, position);
                }
                self.perform(&commands);
                Ok(())
            },
            Err(e) => Err(e),
        }
    }
}

/// What one successful cycle with `config` does to a recording cursor: it is
/// back where it was, and the displaced position and the starting position
/// were added to the record, in that order.
pub open spec fn cycle_effect(
    config: MouseMoverConfig,
    before: RecordingMouse,
    after: RecordingMouse,
) -> bool {
    &&& after.position() == before.position()
    &&& after.recorded() == before.recorded() + cycle_positions(config, before.position())
}

/// One cycle records exactly two positions: the displaced one, (x + dx,
/// y + dy), then the one that the cursor started from, (x, y).
pub proof fn lemma_one_cycle_records_two(
    config: MouseMoverConfig,
    before: RecordingMouse,
    after: RecordingMouse,
)
    requires
        config.well_formed(),
        target_in_range(before.position(), config.movement_pixels),
        cycle_effect(config, before, after),
    ensures
        ({
            let base = before.recorded().len() as int;
            let added = after.recorded().subrange(base, after.recorded().len() as int);
            &&& after.recorded().len() == base + 2
            &&& after.recorded().subrange(0, base) == before.recorded()
            &&& added.len() == 2
            &&& added[0].0 == before.position().0 + config.movement_pixels.0
            &&& added[0].1 == before.position().1 + config.movement_pixels.1
            &&& added[1] == before.position()
        }),
{
    let base = before.recorded().len() as int;
    assert(after.recorded().subrange(0, base) =~= before.recorded());
}

/// Any number of cycles in a row, with nothing else moving the cursor,
/// record two positions each: the displaced position and the starting
/// position, in turn. `states` holds the cursor before the first cycle and
/// after each one.
pub proof fn lemma_cycles_alternate(config: MouseMoverConfig, states: Seq<RecordingMouse>)
    requires
        states.len() >= 1,
        forall|k: int|
            0 <= k < states.len() - 1 ==> cycle_effect(config, #[trigger] states[k], states[k + 1]),
    ensures
        states.last().position() == states[0].position(),
        states.last().recorded().len() == states[0].recorded().len() + 2 * (states.len() - 1),
        states.last().recorded().subrange(0, states[0].recorded().len() as int)
            == states[0].recorded(),
        forall|i: int|
            0 <= i < states.len() - 1 ==> {
                &&& #[trigger] states.last().recorded()[states[0].recorded().len() + 2 * i]
                    == displaced_position(states[0].position(), config.movement_pixels)
                &&& states.last().recorded()[states[0].recorded().len() + 2 * i + 1]
                    == states[0].position()
            },
    decreases states.len(),
{
    let base = states[0].recorded().len() as int;
    if states.len() == 1 {
        assert(states.last().recorded().subrange(0, base) =~= states[0].recorded());
    } else {
        let shorter = states.drop_last();
        let n = states.len() - 1;
        assert forall|k: int| 0 <= k < shorter.len() - 1 implies cycle_effect(
            config,
            #[trigger] shorter[k],
            shorter[k + 1],
        ) by {
            assert(cycle_effect(config, states[k], states[k + 1]));
        }
        lemma_cycles_alternate(config, shorter);
        let before = shorter.last();
        let after = states.last();
        assert(before == states[n - 1]);
        assert(cycle_effect(config, states[n - 1], states[n - 1 + 1]));
        assert(shorter[0] == states[0]);
        assert(after.recorded().subrange(0, base) =~= states[0].recorded()) by {
            assert(before.recorded().subrange(0, base) == states[0].recorded());
        }
        assert forall|i: int| 0 <= i < states.len() - 1 implies {
            &&& #[trigger] after.recorded()[base + 2 * i] == displaced_position(
                states[0].position(),
                config.movement_pixels,
            )
            &&& after.recorded()[base + 2 * i + 1] == states[0].position()
        } by {
            if i < n - 1 {
                assert(before.recorded()[base + 2 * i] == displaced_position(
                    states[0].position(),
                    config.movement_pixels,
                ));
            }
        }
    }
}

} // verus!

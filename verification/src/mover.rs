//! The mouse mover: its settings and the state of its loop.

use vstd::prelude::*;
use crate::config::MouseMoverConfig;
use crate::cycle::{cycle_commands, plan_cycle, target_in_range, CursorCommand, TARGET_OUT_OF_RANGE};
use crate::error::{ErrorView, KtmmError};
use crate::interval_loop::{step, step_spec, LoopAction, LoopEvent, LoopState};
use crate::platform::{check_accessibility_permissions, failure_of, permission_failure, Platform};

verus! {

/// A mouse mover. It holds no handle to the cursor: the program reads the
/// cursor and hands the position in, and carries out what the mover returns.
#[derive(Debug)]
pub struct MouseMover {
    /// The settings that the mover was made with.
    pub config: MouseMoverConfig,
    state: LoopState,
}

impl MouseMover {
    /// The settings of this mover.
    pub closed spec fn settings(&self) -> MouseMoverConfig {
        self.config
    }

    /// Where the loop of this mover stands.
    pub closed spec fn loop_state(&self) -> LoopState {
        self.state
    }

    /// Whether the loop of this mover was started and has not been stopped.
    pub open spec fn running(&self) -> bool {
        self.loop_state() is Waiting || self.loop_state() is Moving
    }

    /// A mover with the given settings, not started yet.
    pub fn new(config: MouseMoverConfig) -> (mover: Self)
        ensures
            mover.settings() == config,
            mover.loop_state() == LoopState::Idle,
    {
        MouseMover { config, state: LoopState::Idle }
    }

    /// A mover with the default settings, not started yet.
    pub fn default() -> (mover: Self)
        ensures
            mover.settings().interval_secs == 60,
            mover.settings().movement_pixels == (1i32, 1i32),
            mover.settings().return_delay_ms == 6,
            mover.loop_state() == LoopState::Idle,
    {
        MouseMover::new(MouseMoverConfig::default())
    }

    /// Where the loop of this mover stands.
    pub fn state(&self) -> (state: LoopState)
        ensures
            state == self.loop_state(),
    {
        self.state
    }

    /// Whether the loop of this mover was started and has not been stopped.
    pub fn is_running(&self) -> (running: bool)
        ensures
            running == self.running(),
    {
        match self.state {
            LoopState::Waiting { .. } => true,
            LoopState::Moving => true,
            _ => false,
        }
    }

    /// Tells whether this process may control the mouse on `platform`.
    /// `wayland_display_present` says whether the environment names a Wayland
    /// display. The mover is not changed.
    pub fn check_permissions(&self, platform: Platform, wayland_display_present: bool) -> (outcome:
        Result<(), KtmmError>)
        ensures
            failure_of(outcome) == permission_failure(platform, wayland_display_present),
    {
        check_accessibility_permissions(platform, wayland_display_present)
    }

    /// Plans one movement cycle for a cursor that was read at `position`:
    /// move by `config.movement_pixels`, wait `config.return_delay_ms`, move
    /// back. The mover is not changed. There is no plan, and an error, where
    /// the displaced position is out of range.
    pub fn move_mouse_once(&self, position: (i32, i32)) -> (plan: Result<
        Vec<CursorCommand>,
        KtmmError,
    >)
        ensures
            target_in_range(position, self.settings().movement_pixels) ==> plan is Ok && plan->Ok_0@
                == cycle_commands(self.settings(), position),
            !target_in_range(position, self.settings().movement_pixels) ==> plan is Err
                && plan->Err_0@ == ErrorView::MouseControl(TARGET_OUT_OF_RANGE@),
    {
        plan_cycle(&self.config, position)
    }

    /// Starts the loop: probes the permission first and, where it is
    /// granted, takes the first step of a loop whose flag reads true.
    ///
    /// Where the probe fails its error is returned and the mover is left as
    /// it was. Otherwise the result is the first action to carry out. A
    /// mover that was stopped stays stopped, and the action is to leave.
    pub fn start(&mut self, platform: Platform, wayland_display_present: bool) -> (outcome: Result<
        LoopAction,
        KtmmError,
    >)
        ensures
            final(self).settings() == old(self).settings(),
            permission_failure(platform, wayland_display_present) matches Some(failure) ==> {
                &&& outcome is Err
                &&& outcome->Err_0@ == failure
                &&& final(self).loop_state() == old(self).loop_state()
            },
            permission_failure(platform, wayland_display_present) is None ==> {
                &&& outcome is Ok
                &&& (final(self).loop_state(), outcome->Ok_0) == step_spec(
                    old(self).loop_state(),
                    old(self).settings(),
                    LoopEvent::Flag { running: true },
                )
            },
    {
        match self.check_permissions(platform, wayland_display_present) {
            Ok(_) => Ok(self.handle(LoopEvent::Flag { running: true })),
            Err(e) => Err(e),
        }
    }

    /// Takes the loop over `event` to its next state and returns what the
    /// program is to do next.
    pub fn handle(&mut self, event: LoopEvent) -> (action: LoopAction)
        ensures
            final(self).settings() == old(self).settings(),
            (final(self).loop_state(), action) == step_spec(
                old(self).loop_state(),
                old(self).settings(),
                event,
            ),
    {
        let next: (LoopState, LoopAction) = step(self.state, &self.config, event);
        self.state = next.0;
        next.1
    }

    /// Stops the loop, for good. Stopping a stopped mover changes nothing.
    pub fn stop(&mut self)
        ensures
            final(self).settings() == old(self).settings(),
            final(self).loop_state() == LoopState::Stopped,
            !final(self).running(),
    {
        self.state = LoopState::Stopped;
    }
}

} // verus!

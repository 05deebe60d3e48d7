//! The interval loop as a state machine.
//!
//! The loop waits one interval, runs one movement cycle, and starts over,
//! until it is told to stop. The wait is cut into short slices, and the
//! cancellation flag is read between them, so a stop request is seen within
//! one slice however long the interval is.
//!
//! The machine decides; the program around it acts. After each action the
//! program reports what happened as an event, and `step` answers with the
//! next state and the next action.

use vstd::prelude::*;
use crate::config::MouseMoverConfig;

verus! {

/// The length of one slice of the wait, in milliseconds.
pub const CHECK_INTERVAL_MS: u64 = 100;

/// Where the loop stands.
#[derive(Debug, Clone, Copy, PartialEq, Eq, Structural)]
pub enum LoopState {
    /// Not started yet.
    Idle,
    /// On the way to the next cycle. `remaining` counts the slices that are
    /// still to be slept once the action at hand is done.
    Waiting { remaining: u128 },
    /// A movement cycle is under way.
    Moving,
    /// Told to stop. Nothing follows.
    Stopped,
}

/// What the program reports to the loop.
#[derive(Debug, Clone, Copy, PartialEq, Eq, Structural)]
pub enum LoopEvent {
    /// The cancellation flag was read; `running` is what it held.
    Flag { running: bool },
    /// The movement cycle has ended; `failed` tells whether it reported an
    /// error.
    CycleEnded { failed: bool },
}

/// What the loop asks the program to do next.
#[derive(Debug, Clone, Copy, PartialEq, Eq, Structural)]
pub enum LoopAction {
    /// Sleep for `millis` milliseconds, then read the flag and report it.
    Sleep { millis: u64 },
    /// Run one movement cycle, then report how it ended.
    MoveMouse,
    /// Read the flag and report it, without waiting.
    Poll,
    /// Leave the loop.
    Exit,
}

/// The number of slices in one interval.
pub open spec fn slices_per_interval(config: MouseMoverConfig) -> nat {
    (config.interval_secs * 1000 / (CHECK_INTERVAL_MS as int)) as nat
}

/// The step of a loop that is still running and has `remaining` slices to
/// sleep: the next slice, or the cycle once none is left.
pub open spec fn continue_wait(remaining: nat) -> (LoopState, LoopAction) {
    if remaining == 0 {
        (LoopState::Moving, LoopAction::MoveMouse)
    } else {
        (
            LoopState::Waiting { remaining: (remaining - 1) as u128 },
            LoopAction::Sleep { millis: CHECK_INTERVAL_MS },
        )
    }
}

/// The transition function of the loop.
///
/// - From `Stopped` nothing leads away.
/// - A flag that reads false stops a loop that is idle or waiting.
/// - A flag that reads true lets an idle loop start its first wait, and a
///   waiting loop sleep its next slice or, with none left, start the cycle.
/// - The end of a cycle leads to the next wait, whether the cycle failed or
///   not, and the flag is read next.
/// - A cycle under way is not cut short: a flag report in `Moving` asks for
///   the cycle again. A cycle report outside `Moving` asks for the flag.
pub open spec fn step_spec(state: LoopState, config: MouseMoverConfig, event: LoopEvent) -> (
    LoopState,
    LoopAction,
) {
    match state {
        LoopState::Stopped => (LoopState::Stopped, LoopAction::Exit),
        LoopState::Idle => match event {
            LoopEvent::Flag { running } => if running {
                continue_wait(slices_per_interval(config))
            } else {
                (LoopState::Stopped, LoopAction::Exit)
            },
            LoopEvent::CycleEnded { .. } => (LoopState::Idle, LoopAction::Poll),
        },
        LoopState::Waiting { remaining } => match event {
            LoopEvent::Flag { running } => if running {
                continue_wait(remaining as nat)
            } else {
                (LoopState::Stopped, LoopAction::Exit)
            },
            LoopEvent::CycleEnded { .. } => (LoopState::Waiting { remaining }, LoopAction::Poll),
        },
        LoopState::Moving => match event {
            LoopEvent::Flag { .. } => (LoopState::Moving, LoopAction::MoveMouse),
            LoopEvent::CycleEnded { .. } => (
                LoopState::Waiting { remaining: slices_per_interval(config) as u128 },
                LoopAction::Poll,
            ),
        },
    }
}

/// The state and the action after `ticks` more flag reports that all read
/// true, starting from a state whose action at hand is `action`.
pub open spec fn after_ticks(
    state: LoopState,
    action: LoopAction,
    config: MouseMoverConfig,
    ticks: nat,
) -> (LoopState, LoopAction)
    decreases ticks,
{
    if ticks == 0 {
        (state, action)
    } else {
        let earlier = after_ticks(state, action, config, (ticks - 1) as nat);
        step_spec(earlier.0, config, LoopEvent::Flag { running: true })
    }
}

/// The number of slices in one interval.
pub fn interval_slices(config: &MouseMoverConfig) -> (slices: u128)
    ensures
        slices == slices_per_interval(*config),
{
    (config.interval_secs as u128) * 1000 / (CHECK_INTERVAL_MS as u128)
}

/// The step of a running loop with `remaining` slices to sleep.
fn continue_waiting(remaining: u128) -> (next: (LoopState, LoopAction))
    ensures
        next == continue_wait(remaining as nat),
{
    if remaining == 0 {
        (LoopState::Moving, LoopAction::MoveMouse)
    } else {
        (
            LoopState::Waiting { remaining: remaining - 1 },
            LoopAction::Sleep { millis: CHECK_INTERVAL_MS },
        )
    }
}

/// Takes the loop from `state` over `event` to its next state, and tells what
/// the program is to do next.
pub fn step(state: LoopState, config: &MouseMoverConfig, event: LoopEvent) -> (next: (
    LoopState,
    LoopAction,
))
    ensures
        next == step_spec(state, *config, event),
{
    match state {
        LoopState::Stopped => (LoopState::Stopped, LoopAction::Exit),
        LoopState::Idle => match event {
            LoopEvent::Flag { running } => if running {
                continue_waiting(interval_slices(config))
            } else {
                (LoopState::Stopped, LoopAction::Exit)
            },
            LoopEvent::CycleEnded { .. } => (LoopState::Idle, LoopAction::Poll),
        },
        LoopState::Waiting { remaining } => match event {
            LoopEvent::Flag { running } => if running {
                continue_waiting(remaining)
            } else {
                (LoopState::Stopped, LoopAction::Exit)
            },
            LoopEvent::CycleEnded { .. } => (LoopState::Waiting { remaining }, LoopAction::Poll),
        },
        LoopState::Moving => match event {
            LoopEvent::Flag { .. } => (LoopState::Moving, LoopAction::MoveMouse),
            LoopEvent::CycleEnded { .. } => (
                LoopState::Waiting { remaining: interval_slices(config) },
                LoopAction::Poll,
            ),
        },
    }
}

/// A stop request ends a waiting loop at the next flag report, however many
/// slices of the interval are left.
pub proof fn lemma_cancel_ends_wait(config: MouseMoverConfig, remaining: u128)
    ensures
        step_spec(LoopState::Waiting { remaining }, config, LoopEvent::Flag { running: false }) == (
            LoopState::Stopped,
            LoopAction::Exit,
        ),
{
}

/// The loop never asks for a sleep longer than one slice, and only a waiting
/// loop sleeps: so the flag of a waiting loop is read again within one slice,
/// whatever the interval.
pub proof fn lemma_sleep_is_one_slice(state: LoopState, config: MouseMoverConfig, event: LoopEvent)
    ensures
        step_spec(state, config, event).1 matches LoopAction::Sleep { millis } ==> millis
            == CHECK_INTERVAL_MS,
        step_spec(state, config, event).1 is Sleep ==> step_spec(state, config, event).0 is Waiting,
{
}

/// Once stopped, always stopped.
pub proof fn lemma_stopped_is_terminal(config: MouseMoverConfig, event: LoopEvent)
    ensures
        step_spec(LoopState::Stopped, config, event) == (LoopState::Stopped, LoopAction::Exit),
{
}

/// A waiting loop whose flag keeps reading true sleeps every slice that is
/// left, and only then starts the cycle: after `k` reports with `k` no
/// larger than `remaining`, `remaining - k` slices are left, and the report
/// after the last slice starts the cycle.
pub proof fn lemma_wait_runs_full_interval(config: MouseMoverConfig, remaining: u128, k: nat)
    requires
        k <= remaining,
    ensures
        after_ticks(LoopState::Waiting { remaining }, LoopAction::Poll, config, k).0
            == (LoopState::Waiting { remaining: (remaining - k) as u128 }),
        k >= 1 ==> after_ticks(LoopState::Waiting { remaining }, LoopAction::Poll, config, k).1
            == (LoopAction::Sleep { millis: CHECK_INTERVAL_MS }),
        k == remaining ==> after_ticks(
            LoopState::Waiting { remaining },
            LoopAction::Poll,
            config,
            (remaining + 1) as nat,
        ) == (LoopState::Moving, LoopAction::MoveMouse),
    decreases k,
{
    if k > 0 {
        lemma_wait_runs_full_interval(config, remaining, (k - 1) as nat);
    }
    if k == remaining {
        let start = LoopState::Waiting { remaining };
        assert(after_ticks(start, LoopAction::Poll, config, (remaining + 1) as nat) == step_spec(
            after_ticks(start, LoopAction::Poll, config, remaining as nat).0,
            config,
            LoopEvent::Flag { running: true },
        ));
    }
}

/// A cycle that fails does not stop the loop: however the cycle ended, the
/// loop goes on to the next wait, and with the flag still reading true the
/// next cycle starts when that interval is over.
pub proof fn lemma_failed_cycle_does_not_stop_loop(config: MouseMoverConfig, failed: bool)
    ensures
        step_spec(LoopState::Moving, config, LoopEvent::CycleEnded { failed }) == step_spec(
            LoopState::Moving,
            config,
            LoopEvent::CycleEnded { failed: !failed },
        ),
        step_spec(LoopState::Moving, config, LoopEvent::CycleEnded { failed }) == (
            LoopState::Waiting { remaining: slices_per_interval(config) as u128 },
            LoopAction::Poll,
        ),
        after_ticks(
            step_spec(LoopState::Moving, config, LoopEvent::CycleEnded { failed }).0,
            step_spec(LoopState::Moving, config, LoopEvent::CycleEnded { failed }).1,
            config,
            slices_per_interval(config) + 1,
        ) == (LoopState::Moving, LoopAction::MoveMouse),
{
    let slices = slices_per_interval(config) as u128;
    lemma_wait_runs_full_interval(config, slices, slices as nat);
}

} // verus!

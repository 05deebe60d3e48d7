use ktmm::interval_loop::{
    interval_slices, step, LoopAction, LoopEvent, LoopState, CHECK_INTERVAL_MS,
};
use ktmm::platform::Platform;
use ktmm::{KtmmError, MouseMover, MouseMoverConfig};

fn every(interval_secs: u64) -> MouseMoverConfig {
    MouseMoverConfig { interval_secs, movement_pixels: (1, 1), return_delay_ms: 6 }
}

const RUNNING: LoopEvent = LoopEvent::Flag { running: true };
const CANCELLED: LoopEvent = LoopEvent::Flag { running: false };
const SLICE: LoopAction = LoopAction::Sleep { millis: 100 };

#[test]
fn slice_is_a_tenth_of_a_second() {
    assert_eq!(CHECK_INTERVAL_MS, 100);
}

#[test]
fn slices_in_an_interval() {
    assert_eq!(interval_slices(&every(0)), 0);
    assert_eq!(interval_slices(&every(1)), 10);
    assert_eq!(interval_slices(&every(60)), 600);
    assert_eq!(interval_slices(&every(u64::MAX)), 184467440737095516150);
}

#[test]
fn idle_loop_starts_its_first_wait() {
    assert_eq!(
        step(LoopState::Idle, &every(1), RUNNING),
        (LoopState::Waiting { remaining: 9 }, SLICE)
    );
    assert_eq!(
        step(LoopState::Idle, &every(60), RUNNING),
        (LoopState::Waiting { remaining: 599 }, SLICE)
    );
}

#[test]
fn idle_loop_that_is_cancelled_stops() {
    assert_eq!(step(LoopState::Idle, &every(1), CANCELLED), (LoopState::Stopped, LoopAction::Exit));
}

#[test]
fn interval_of_zero_moves_at_once() {
    assert_eq!(step(LoopState::Idle, &every(0), RUNNING), (LoopState::Moving, LoopAction::MoveMouse));
}

#[test]
fn waiting_loop_sleeps_slice_by_slice() {
    assert_eq!(
        step(LoopState::Waiting { remaining: 9 }, &every(1), RUNNING),
        (LoopState::Waiting { remaining: 8 }, SLICE)
    );
    assert_eq!(
        step(LoopState::Waiting { remaining: 1 }, &every(1), RUNNING),
        (LoopState::Waiting { remaining: 0 }, SLICE)
    );
    assert_eq!(
        step(LoopState::Waiting { remaining: 0 }, &every(1), RUNNING),
        (LoopState::Moving, LoopAction::MoveMouse)
    );
}

#[test]
fn cancelling_a_wait_stops_at_the_next_slice() {
    for remaining in [0u128, 1, 9, 599, u128::MAX] {
        assert_eq!(
            step(LoopState::Waiting { remaining }, &every(60), CANCELLED),
            (LoopState::Stopped, LoopAction::Exit)
        );
    }
}

#[test]
fn cycle_end_leads_to_the_next_wait_failed_or_not() {
    for failed in [false, true] {
        assert_eq!(
            step(LoopState::Moving, &every(1), LoopEvent::CycleEnded { failed }),
            (LoopState::Waiting { remaining: 10 }, LoopAction::Poll)
        );
    }
}

#[test]
fn cycle_under_way_is_not_cut_short() {
    assert_eq!(step(LoopState::Moving, &every(1), RUNNING), (LoopState::Moving, LoopAction::MoveMouse));
    assert_eq!(
        step(LoopState::Moving, &every(1), CANCELLED),
        (LoopState::Moving, LoopAction::MoveMouse)
    );
}

#[test]
fn cycle_report_outside_a_cycle_asks_for_the_flag() {
    let ended = LoopEvent::CycleEnded { failed: true };
    assert_eq!(step(LoopState::Idle, &every(1), ended), (LoopState::Idle, LoopAction::Poll));
    assert_eq!(
        step(LoopState::Waiting { remaining: 4 }, &every(1), ended),
        (LoopState::Waiting { remaining: 4 }, LoopAction::Poll)
    );
}

#[test]
fn stopped_is_terminal() {
    for event in [RUNNING, CANCELLED, LoopEvent::CycleEnded { failed: false }] {
        assert_eq!(step(LoopState::Stopped, &every(1), event), (LoopState::Stopped, LoopAction::Exit));
    }
}

// Runs the loop against a script: the flag reads true `reads_before_cancel`
// times and false from then on, and the cycles whose number is in
// `failing_cycles` fail. Returns the number of slices slept before each
// cycle, and the number of slices slept after the last one.
fn run(config: &MouseMoverConfig, reads_before_cancel: usize, failing: &[usize]) -> (Vec<u64>, u64) {
    let mut mover = MouseMover::new(config.clone());
    let mut reads = 0usize;
    let mut slept = 0u64;
    let mut waits = Vec::new();
    let mut action = LoopAction::Poll;
    for _ in 0..100_000 {
        let event = match action {
            LoopAction::Exit => return (waits, slept),
            LoopAction::MoveMouse => {
                let failed = failing.contains(&waits.len());
                waits.push(slept);
                slept = 0;
                LoopEvent::CycleEnded { failed }
            }
            LoopAction::Sleep { millis } => {
                assert_eq!(millis, 100);
                slept += 1;
                reads += 1;
                LoopEvent::Flag { running: reads <= reads_before_cancel }
            }
            LoopAction::Poll => {
                reads += 1;
                LoopEvent::Flag { running: reads <= reads_before_cancel }
            }
        };
        action = mover.handle(event);
    }
    panic!("the loop did not stop");
}

#[test]
fn loop_moves_after_each_full_interval() {
    // 1 s is ten slices. The flag is read once before the first slice of each
    // wait and once after each slice: eleven reads a cycle, so the 34th read
    // is the one before the fourth wait, and the 35th comes a slice later.
    let (waits, tail) = run(&every(1), 34, &[]);
    assert_eq!(waits, vec![10, 10, 10]);
    assert_eq!(tail, 1);
}

#[test]
fn loop_stops_in_the_middle_of_a_wait() {
    let (waits, tail) = run(&every(60), 5, &[]);
    assert_eq!(waits, Vec::<u64>::new());
    assert_eq!(tail, 5);
}

#[test]
fn loop_that_is_cancelled_before_it_starts_never_moves() {
    let (waits, tail) = run(&every(1), 0, &[]);
    assert_eq!(waits, Vec::<u64>::new());
    assert_eq!(tail, 0);
}

#[test]
fn failed_cycle_does_not_stop_the_loop() {
    let (waits, _) = run(&every(1), 35, &[0]);
    assert_eq!(waits, vec![10, 10, 10]);
    let (waits, _) = run(&every(1), 35, &[0, 1, 2]);
    assert_eq!(waits, vec![10, 10, 10]);
}

#[test]
fn new_mover_is_idle() {
    let mover = MouseMover::new(every(30));
    assert_eq!(mover.state(), LoopState::Idle);
    assert!(!mover.is_running());
    let mover = MouseMover::default();
    assert_eq!(mover.state(), LoopState::Idle);
    assert_eq!(mover.config.interval_secs, 60);
    assert_eq!(mover.config.movement_pixels, (1, 1));
    assert_eq!(mover.config.return_delay_ms, 6);
}

#[test]
fn start_with_permission_begins_to_wait() {
    let mut mover = MouseMover::new(every(1));
    let action = mover.start(Platform::Linux, false).unwrap();
    assert_eq!(action, SLICE);
    assert_eq!(mover.state(), LoopState::Waiting { remaining: 9 });
    assert!(mover.is_running());
}

#[test]
fn start_without_permission_leaves_the_mover_idle() {
    let mut mover = MouseMover::new(every(1));
    assert!(matches!(mover.start(Platform::Linux, true), Err(KtmmError::PlatformError(_))));
    assert_eq!(mover.state(), LoopState::Idle);
    assert!(!mover.is_running());

    assert!(matches!(mover.start(Platform::Unsupported, false), Err(KtmmError::UnsupportedPlatform)));
    assert_eq!(mover.state(), LoopState::Idle);
}

#[test]
fn stop_is_final() {
    let mut mover = MouseMover::new(every(1));
    mover.start(Platform::Windows, false).unwrap();
    mover.stop();
    assert_eq!(mover.state(), LoopState::Stopped);
    assert!(!mover.is_running());
    mover.stop();
    assert_eq!(mover.state(), LoopState::Stopped);
    assert_eq!(mover.handle(RUNNING), LoopAction::Exit);
    assert_eq!(mover.start(Platform::Windows, false).unwrap(), LoopAction::Exit);
    assert_eq!(mover.state(), LoopState::Stopped);
    assert_eq!(mover.config.interval_secs, 1);
}

#[test]
fn mover_is_running_while_it_moves() {
    let mut mover = MouseMover::new(every(0));
    assert_eq!(mover.start(Platform::MacOs, false).unwrap(), LoopAction::MoveMouse);
    assert_eq!(mover.state(), LoopState::Moving);
    assert!(mover.is_running());
    assert_eq!(mover.handle(LoopEvent::CycleEnded { failed: true }), LoopAction::Poll);
    assert_eq!(mover.state(), LoopState::Waiting { remaining: 0 });
    assert_eq!(mover.handle(CANCELLED), LoopAction::Exit);
    assert!(!mover.is_running());
}

use bot_core::clock::{Clock, Duration, Instant};
use bot_core::models::{
    CaptureMode, CycleRunStopMode, InputMethod, KeyBinding, KeyBindingConfiguration, Settings,
};
use bot_core::operation::{
    duration_from, duration_from_instant, duration_from_instant_at, Operation,
    OperationConfiguration,
};

const SEC: u128 = 1_000_000_000;

fn at(secs: u128) -> Instant {
    Instant { nanos: secs * SEC }
}

fn config(mode: CycleRunStopMode) -> OperationConfiguration {
    OperationConfiguration { mode, run_duration_millis: 10_000, stop_duration_millis: 4_000 }
}

fn unbound() -> KeyBindingConfiguration {
    KeyBindingConfiguration { key: KeyBinding { code: 0 }, enabled: false }
}

#[test]
fn configuration_comes_from_settings() {
    let settings = Settings {
        cycle_run_stop: CycleRunStopMode::Repeat,
        cycle_run_duration_millis: 11,
        cycle_stop_duration_millis: 22,
        capture_mode: CaptureMode::BitBlt,
        input_method: InputMethod::Default,
        input_method_rpc_server_url: String::new(),
        platform_start_key: unbound(),
        platform_end_key: unbound(),
        platform_add_key: unbound(),
    };
    let config = OperationConfiguration::from(&settings);
    assert_eq!(config.mode, CycleRunStopMode::Repeat);
    assert_eq!(config.run_duration_millis, 11);
    assert_eq!(config.stop_duration_millis, 22);
}

#[test]
fn halting_tells_the_halted_states() {
    let c = config(CycleRunStopMode::Repeat);
    assert!(Operation::Halting.halting());
    assert!(Operation::HaltUntil { instant: at(1), config: c }.halting());
    assert!(Operation::TemporaryHalting { resume: Duration { nanos: 1 }, config: c }.halting());
    assert!(!Operation::Running.halting());
    assert!(!Operation::RunUntil { instant: at(1), config: c }.halting());
}

#[test]
fn phases_last_as_configured() {
    let c = config(CycleRunStopMode::Repeat);
    assert_eq!(
        Operation::halt_until_at(at(5), c),
        Operation::HaltUntil { instant: at(9), config: c }
    );
    assert_eq!(
        Operation::run_until_at(at(5), c),
        Operation::RunUntil { instant: at(15), config: c }
    );
}

#[test]
fn clock_driven_phases_start_now() {
    let c = config(CycleRunStopMode::Repeat);
    let clock = Clock::start();
    let before = clock.now();
    let operation = Operation::halt_until(&clock, c);
    let after = clock.now();
    match operation {
        Operation::HaltUntil { instant, .. } => {
            assert!(instant.nanos >= before.nanos + 4 * SEC);
            assert!(instant.nanos <= after.nanos + 4 * SEC);
        }
        _ => panic!("not halted"),
    }
    match Operation::run_until(&clock, c) {
        Operation::RunUntil { instant, .. } => {
            assert!(instant.nanos >= after.nanos + 10 * SEC);
            assert!(instant.nanos <= clock.now().nanos + 10 * SEC);
        }
        _ => panic!("not running"),
    }
    assert!(after.nanos >= before.nanos);
}

#[test]
fn tick_keeps_unfinished_phases() {
    let c = config(CycleRunStopMode::Repeat);
    let halt = Operation::HaltUntil { instant: at(9), config: c };
    let run = Operation::RunUntil { instant: at(9), config: c };
    assert_eq!(halt.update_tick_at(at(8)), halt);
    assert_eq!(run.update_tick_at(at(8)), run);
}

#[test]
fn tick_keeps_open_ended_states() {
    let c = config(CycleRunStopMode::Once);
    let paused = Operation::TemporaryHalting { resume: Duration { nanos: 3 }, config: c };
    assert_eq!(Operation::Halting.update_tick_at(at(8)), Operation::Halting);
    assert_eq!(Operation::Running.update_tick_at(at(8)), Operation::Running);
    assert_eq!(paused.update_tick_at(at(8)), paused);
}

#[test]
fn repeating_cycle_alternates() {
    let c = config(CycleRunStopMode::Repeat);
    let run = Operation::run_until_at(at(0), c);
    let halt = run.update_tick_at(at(10));
    assert_eq!(halt, Operation::HaltUntil { instant: at(14), config: c });
    let again = halt.update_tick_at(at(14));
    assert_eq!(again, Operation::RunUntil { instant: at(24), config: c });
    assert_eq!(again.update_tick_at(at(14)), again);
}

#[test]
fn single_cycle_halts_for_good() {
    let c = config(CycleRunStopMode::Once);
    let run = Operation::run_until_at(at(0), c);
    let halted = run.update_tick_at(at(11));
    assert_eq!(halted, Operation::Halting);
    assert_eq!(halted.update_tick_at(at(1000)), Operation::Halting);
}

#[test]
fn cycle_that_is_off_still_stops_at_the_end_of_a_run() {
    let c = config(CycleRunStopMode::Off);
    let run = Operation::RunUntil { instant: at(1), config: c };
    assert_eq!(run.update_tick_at(at(1)), Operation::HaltUntil { instant: at(5), config: c });
}

#[test]
fn tick_by_the_clock() {
    let c = config(CycleRunStopMode::Once);
    let clock = Clock::start();
    let due = Operation::RunUntil { instant: Instant { nanos: 0 }, config: c };
    assert_eq!(due.update_tick(&clock), Operation::Halting);
    let far = Operation::RunUntil { instant: at(1_000_000), config: c };
    assert_eq!(far.update_tick(&clock), far);
}

#[test]
fn durations_are_written_as_clock_times() {
    assert_eq!(duration_from(Duration { nanos: 0 }), "00:00:00");
    assert_eq!(duration_from(Duration { nanos: 59 * SEC + 999_999_999 }), "00:00:59");
    assert_eq!(duration_from(Duration { nanos: 3_661 * SEC }), "01:01:01");
    assert_eq!(duration_from(Duration { nanos: 360_000 * SEC }), "100:00:00");
    assert_eq!(duration_from_instant_at(at(90), at(30)), "00:01:00");
    assert_eq!(duration_from_instant_at(at(30), at(90)), "00:00:00");
    let clock = Clock::start();
    assert_eq!(duration_from_instant(&clock, Instant { nanos: 0 }), "00:00:00");
}

#[test]
fn operations_describe_themselves() {
    let c = config(CycleRunStopMode::Repeat);
    assert_eq!(
        Operation::HaltUntil { instant: at(65), config: c }.describe_at(at(0)),
        "Halting for 00:01:05"
    );
    assert_eq!(
        Operation::TemporaryHalting { resume: Duration { nanos: 61 * SEC }, config: c }
            .describe_at(at(0)),
        "Halting temporarily with 00:01:01 remaining"
    );
    assert_eq!(Operation::Halting.describe_at(at(0)), "Halting");
    assert_eq!(Operation::Running.describe_at(at(0)), "Running");
    assert_eq!(
        Operation::RunUntil { instant: at(3600), config: c }.describe_at(at(0)),
        "Running for 01:00:00"
    );
    let clock = Clock::start();
    assert_eq!(Operation::Halting.describe(&clock), "Halting");
}

use bot_core::clock::{Duration, Instant};
use bot_core::debug::mid_point;
use bot_core::geometry::{Point, Rect};
use bot_core::models::{
    Action, ActionCondition, ActionMove, CycleRunStopMode, Position,
};
use bot_core::operation::{Operation, OperationConfiguration};
use bot_core::panel::actions::{delete_action, filter_actions, import_actions, ActionsPopup};
use bot_core::player::solve_rune::{update_solving_rune_state, SolvingRune, State as RuneState};
use bot_core::player::solve_shape::{
    next_shape_detection, update_solving_shape_state, SolvingShape, State as ShapeState,
};
use bot_core::player::threads_of_fate::{
    next_threads_of_fate_detection, update_threads_of_fate_state, State as FateState,
    ThreadsOfFateState,
};
use bot_core::player::timeout::Timeout;
use bot_core::player::{Player, PlayerAction, PlayerContext, PlayerEntity};
use bot_core::resources::{
    Detector, Input, InputCommand, KeyKind, MouseKind, Resources, ShapeCursor, Sighting,
    SolvingState,
};
use bot_core::services::operation::{config_operation_at, update_operation_at, OperationUpdate};
use bot_core::services::{EventBus, EventKind};
use bot_core::solvers::shape::{ShapeFrame, TransparentShapeSolver};
use bot_core::text::{chars_of, parse_number, split_pieces, to_hms, to_two_digits};

fn resources() -> Resources {
    Resources {
        input: Input { all_keys_cleared: true, sent: vec![] },
        detector: Detector::blank(),
        operation: Operation::Running,
        tick: 0,
    }
}

fn player(state: Player, action: PlayerAction) -> PlayerEntity {
    PlayerEntity {
        state,
        context: PlayerContext {
            action: Some(action),
            is_stationary: true,
            interact_key: KeyKind::Code(1),
            validating_rune: false,
            threads_of_fate_fail_count: 0,
            threads_of_fate_permanently_stopped: false,
        },
    }
}

fn action(condition: ActionCondition) -> Action {
    Action::Move(ActionMove {
        position: Position { x: 0, y: 0 },
        condition,
        wait_after_move_millis: 0,
    })
}

#[test]
fn centres_lie_within() {
    for rect in [Rect::new(3, 4, 1, 1), Rect::new(-9, -9, 7, 2), Rect::new(0, 0, 100, 3)] {
        assert!(rect.contains(mid_point(rect)));
    }
}

#[test]
fn clock_texts_fall_into_their_numbers() {
    let text = to_hms(123, 4, 56);
    let parts = split_pieces(&chars_of(&text), ':');
    let numbers: Vec<Option<u64>> = parts.iter().map(parse_number).collect();
    assert_eq!(numbers, vec![Some(123), Some(4), Some(56)]);
    assert_eq!(parse_number(&chars_of(&to_two_digits(5))), Some(5));
}

#[test]
fn rune_attempt_ends_whatever_is_seen() {
    for answer in [None, Some(SolvingState::Solving)] {
        let begun = SolvingRune { state: RuneState::Calibrating(Timeout::default()), stuck_count: 0 };
        let mut p = player(Player::SolvingRune(begun), PlayerAction::SolveRune);
        let mut r = resources();
        r.detector.rune_arrows = answer;
        let mut ticks = 0;
        while matches!(p.state, Player::SolvingRune(_)) {
            update_solving_rune_state(&mut r, &mut p);
            ticks += 1;
            assert!(ticks <= 319);
        }
        assert_eq!(ticks, if answer.is_none() { 127 } else { 31 + 152 });
    }
}

#[test]
fn shape_attempt_ends_in_time() {
    let mut shape = SolvingShape::default();
    shape.state = ShapeState::Solving(Timeout::default());
    let mut p = player(Player::SolvingShape(shape), PlayerAction::SolveShape);
    let mut r = resources();
    r.detector.lie_detector_shape = Sighting::At(Rect::new(0, 0, 9, 9));
    r.detector.shape_cursor = ShapeCursor::At(Point::new(1, 1));
    r.detector.smoothed_cursor = Some(Point::new(1, 1));
    let mut ticks = 0;
    while matches!(p.state, Player::SolvingShape(_)) {
        update_solving_shape_state(&mut r, &mut p);
        r.tick += 1;
        ticks += 1;
    }
    assert_eq!(ticks, 547);
    assert_eq!(r.input.sent.len(), 546);
    let moves = |command: &InputCommand| {
        matches!(command, InputCommand::Mouse { kind: MouseKind::Move, .. })
    };
    assert!(r.input.sent.iter().all(moves));
}

#[test]
fn unwanted_answers_change_nothing() {
    let shape = SolvingShape::default();
    let blank = Detector::blank();
    assert_eq!(next_shape_detection(&shape, 31, &blank), None);
    let mut without = player(Player::SolvingShape(shape), PlayerAction::SolveShape);
    let mut with = without.clone();
    let mut r = resources();
    r.tick = 31;
    update_solving_shape_state(&mut r, &mut without);
    r.detector.lie_detector_shape_preparing = Some(false);
    r.detector.lie_detector_shape = Sighting::Missing;
    update_solving_shape_state(&mut r, &mut with);
    assert!(matches!((without.state, with.state),
        (Player::SolvingShape(a), Player::SolvingShape(b)) if a == b));

    let tof = ThreadsOfFateState::new(1, 0, KeyKind::Code(1));
    assert_eq!(next_threads_of_fate_detection(&tof, &blank), None);
    let mut without = player(Player::ThreadsOfFate(tof), PlayerAction::ThreadsOfFate);
    let mut with = without.clone();
    let mut r = resources();
    update_threads_of_fate_state(&mut r, &mut without);
    r.detector.tof_dialog_visible = Some(true);
    r.detector.tof_bulb = Sighting::At(Rect::new(0, 0, 2, 2));
    update_threads_of_fate_state(&mut r, &mut with);
    assert!(matches!((without.state, with.state),
        (Player::ThreadsOfFate(a), Player::ThreadsOfFate(b)) if a == b));
}

fn fate(state: FateState) -> PlayerEntity {
    let mut tof = ThreadsOfFateState::new(2, 0, KeyKind::Code(1));
    tof.state = state;
    player(Player::ThreadsOfFate(tof), PlayerAction::ThreadsOfFate)
}

#[test]
fn finished_quest_is_clicked_once_per_round() {
    let mut p = fate(FateState::FindComplete(Timeout::default()));
    let mut r = resources();
    r.detector.tof_maple_mailbox = Some(true);
    r.detector.tof_complete = Sighting::At(Rect::new(10, 20, 4, 6));
    let mut handed_in = 0;
    while let Player::ThreadsOfFate(tof) = p.state {
        handed_in = tof.complete_executed_count;
        update_threads_of_fate_state(&mut r, &mut p);
    }
    assert_eq!(handed_in, 1);
    let clicks = r.input.sent.iter().filter(|command| {
        matches!(command, InputCommand::Mouse { x: 12, y: 23, kind: MouseKind::Click })
    });
    assert_eq!(clicks.count(), 1);
}

#[test]
fn failed_search_scrolls_ten_times() {
    let mut p = fate(FateState::FindUnravelling(Timeout::default(), 0));
    let mut r = resources();
    r.detector.tof_unravelling = Sighting::Missing;
    for _ in 0..95 {
        update_threads_of_fate_state(&mut r, &mut p);
        assert!(matches!(p.state, Player::ThreadsOfFate(_)));
    }
    update_threads_of_fate_state(&mut r, &mut p);
    assert!(matches!(p.state, Player::Idle));
    assert_eq!(r.input.sent, vec![InputCommand::Key(KeyKind::Down); 10]);
    assert_eq!(p.context.threads_of_fate_fail_count, 1);
}

#[test]
fn handing_in_ends_whatever_is_seen() {
    for (dialog, expected) in [(false, 24), (true, 30)] {
        let mut p = fate(FateState::InteractComplete(Timeout::default(), 0, 0));
        let mut r = resources();
        r.detector.tof_dialog_visible = Some(dialog);
        let mut ticks = 0;
        let tof = loop {
            update_threads_of_fate_state(&mut r, &mut p);
            ticks += 1;
            match p.state {
                Player::ThreadsOfFate(tof) => match tof.state {
                    FateState::InteractComplete(..) => {}
                    _ => break tof,
                },
                _ => panic!("the round is over"),
            }
        };
        assert_eq!(ticks, expected);
        assert_eq!(tof.state, FateState::ClickBulb(Timeout::default(), 0));
        assert_eq!(tof.complete_executed_count, 1);
        assert!(tof.complete_used && !tof.completed && !tof.success);
    }
}

#[test]
fn misses_in_a_row_are_reckoned_up_to_a_limit() {
    let region = Rect::new(0, 0, 500, 500);
    let mut solver: TransparentShapeSolver<i64> = TransparentShapeSolver::new(3);
    let found = ShapeFrame {
        cursor: None,
        target: Some(100),
        velocity: 3,
        reckoned: 0,
        local: Point::new(100, 0),
    };
    assert_eq!(solver.solve(found, region), Some(Point::new(100, 0)));
    for k in 1..=25i64 {
        let reckoned = solver.last_target.unwrap() + 2 * solver.velocity;
        let frame = ShapeFrame {
            cursor: None,
            target: None,
            velocity: 99,
            reckoned,
            local: Point::new(reckoned as i32, 0),
        };
        let position = solver.solve(frame, region);
        assert_eq!(position.is_some(), k <= 20);
        assert_eq!(solver.last_target, Some(100 + 6 * k.min(20)));
        assert_eq!(solver.velocity, 3);
        assert_eq!(solver.miss_count as i64, k);
    }
}

#[test]
fn pause_after_the_deadline_leaves_no_time() {
    let config = OperationConfiguration {
        mode: CycleRunStopMode::Once,
        run_duration_millis: 5,
        stop_duration_millis: 3,
    };
    let run = Operation::RunUntil { instant: Instant { nanos: 10 }, config };
    let paused = Instant { nanos: 15 };
    let halted = update_operation_at(run, OperationUpdate::TemporaryHalt, paused);
    assert_eq!(
        halted,
        Operation::TemporaryHalting { resume: Duration { nanos: 0 }, config }
    );
    let resumed = Instant { nanos: 40 };
    assert_eq!(
        update_operation_at(halted, OperationUpdate::Run, resumed),
        Operation::RunUntil { instant: resumed, config }
    );
}

#[test]
fn phases_never_outlast_their_configuration() {
    let config = OperationConfiguration {
        mode: CycleRunStopMode::Repeat,
        run_duration_millis: 5,
        stop_duration_millis: 3,
    };
    let milli = 1_000_000;
    let mut operation = Operation::run_until_at(Instant { nanos: 0 }, config);
    for tick in 1..200u128 {
        let now = Instant { nanos: tick * milli };
        operation = match tick % 7 {
            2 => update_operation_at(operation, OperationUpdate::TemporaryHalt, now),
            3 => update_operation_at(operation, OperationUpdate::Run, now),
            5 => config_operation_at(operation, config, now),
            _ => operation.update_tick_at(now),
        };
        match operation {
            Operation::RunUntil { instant, .. } => assert!(instant.nanos <= now.nanos + 5 * milli),
            Operation::HaltUntil { instant, .. } => assert!(instant.nanos <= now.nanos + 3 * milli),
            Operation::TemporaryHalting { resume, .. } => {
                assert!(resume.nanos <= Duration::from_millis(5).nanos);
            }
            Operation::Halting | Operation::Running => {}
        }
    }
}

#[test]
fn every_event_type_has_its_own_place() {
    let kinds = [
        EventKind::Mediator,
        EventKind::Database,
        EventKind::Control,
        EventKind::World,
        EventKind::Operation,
        EventKind::Input,
    ];
    let mut bus: EventBus<usize> = EventBus::new();
    for (i, kind) in kinds.into_iter().enumerate() {
        bus.subscribe(kind, i);
    }
    for (i, kind) in kinds.into_iter().enumerate() {
        assert_eq!(bus.emit(kind), Some(&i));
    }
}

#[test]
fn lists_keep_a_head() {
    let linked = action(ActionCondition::Linked);
    let head = action(ActionCondition::Any);
    let list = vec![head, linked, linked];
    let left = delete_action(list.clone(), 0).unwrap();
    assert_eq!(left[0].condition(), ActionCondition::Any);
    assert_eq!(filter_actions(&left, ActionCondition::Any).len(), 2);
    assert_eq!(import_actions(vec![], &vec![linked, head])[0], head);

    let mut popup = ActionsPopup::closed();
    popup.click_item(head, 0);
    assert!(!popup.linkable(&list));
    popup.click_item(linked, 2);
    assert!(popup.linkable(&list));
    let edited = popup.submit(list, linked, ActionCondition::Linked).unwrap();
    assert_eq!(edited[0], head);
}

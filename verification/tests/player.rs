use bot_core::debug::ArrowsComplete;
use bot_core::geometry::{Point, Rect};
use bot_core::operation::Operation;
use bot_core::player::solve_rune::{
    last_rune_result, next_rune_detection, update_solving_rune_state, SolvingRune,
    State as RuneState,
};
use bot_core::player::solve_shape::{
    next_shape_detection, update_solving_shape_state, SolvingShape, State as ShapeState,
};
use bot_core::player::threads_of_fate::{
    next_threads_of_fate_detection, update_threads_of_fate_state, State as FateState,
    ThreadsOfFateState,
};
use bot_core::player::timeout::Timeout;
use bot_core::player::{next_action, Player, PlayerAction, PlayerContext, PlayerEntity};
use bot_core::resources::{
    Detection, Detector, Input, InputCommand, KeyKind, MouseKind, Resources, ShapeCursor, Sighting,
    SolvingState,
};

const INTERACT: KeyKind = KeyKind::Code(77);
const REST: InputCommand = InputCommand::Mouse { x: 1100, y: 550, kind: MouseKind::Move };

fn resources() -> Resources {
    Resources {
        input: Input { all_keys_cleared: true, sent: Vec::new() },
        detector: Detector::blank(),
        operation: Operation::Running,
        tick: 0,
    }
}

fn context(action: Option<PlayerAction>) -> PlayerContext {
    PlayerContext {
        action,
        is_stationary: true,
        interact_key: INTERACT,
        validating_rune: false,
        threads_of_fate_fail_count: 0,
        threads_of_fate_permanently_stopped: false,
    }
}

fn running(ticks: u32) -> Timeout {
    Timeout { current: ticks, started: true }
}

fn rune(state: RuneState, stuck_count: u32) -> PlayerEntity {
    PlayerEntity {
        state: Player::SolvingRune(SolvingRune { state, stuck_count }),
        context: context(Some(PlayerAction::SolveRune)),
    }
}

fn rune_state(player: &PlayerEntity) -> RuneState {
    match player.state {
        Player::SolvingRune(rune) => rune.state,
        _ => panic!("not solving a rune"),
    }
}

fn shape_of(player: &PlayerEntity) -> SolvingShape {
    match player.state {
        Player::SolvingShape(ref shape) => SolvingShape {
            state: shape.state,
            region: shape.region,
            solver_fresh: shape.solver_fresh,
            target_cursor: shape.target_cursor,
            smoothed_cursor: shape.smoothed_cursor,
        },
        _ => panic!("not solving a shape"),
    }
}

fn fate_of(player: &PlayerEntity) -> ThreadsOfFateState {
    match player.state {
        Player::ThreadsOfFate(tof) => tof,
        _ => panic!("not in threads of fate"),
    }
}

fn fate(state: FateState) -> PlayerEntity {
    let mut tof = ThreadsOfFateState::new(3, 0, INTERACT);
    tof.state = state;
    PlayerEntity {
        state: Player::ThreadsOfFate(tof),
        context: context(Some(PlayerAction::ThreadsOfFate)),
    }
}

#[test]
fn context_methods() {
    let mut c = context(Some(PlayerAction::SolveRune));
    assert_eq!(next_action(&c), Some(PlayerAction::SolveRune));
    c.clear_action_completed();
    assert_eq!(next_action(&c), None);
    c.start_validating_rune();
    assert!(c.validating_rune);
    c.track_threads_of_fate_fail_count();
    assert!(!c.is_threads_of_fate_fail_count_limit_reached());
    c.track_threads_of_fate_fail_count();
    assert!(c.is_threads_of_fate_fail_count_limit_reached());
    c.clear_threads_of_fate_fail_count();
    assert!(!c.is_threads_of_fate_fail_count_limit_reached());
    c.set_threads_of_fate_permanently_stopped();
    assert!(c.threads_of_fate_permanently_stopped);
}

#[test]
fn rune_waits_for_a_standing_player() {
    let mut player = PlayerEntity {
        state: Player::SolvingRune(SolvingRune::default()),
        context: context(Some(PlayerAction::SolveRune)),
    };
    let mut r = resources();
    for _ in 0..16 {
        update_solving_rune_state(&mut r, &mut player);
        assert!(matches!(rune_state(&player), RuneState::Precondition(_)));
    }
    update_solving_rune_state(&mut r, &mut player);
    assert!(matches!(rune_state(&player), RuneState::Calibrating(_)));
    assert!(r.input.sent.is_empty());
}

#[test]
fn rune_is_called_off_when_a_key_is_stuck() {
    let mut player = rune(RuneState::Precondition(running(15)), 0);
    player.context.is_stationary = false;
    let mut r = resources();
    for _ in 0..299 {
        update_solving_rune_state(&mut r, &mut player);
        assert!(matches!(rune_state(&player), RuneState::Precondition(_)));
    }
    assert!(r.input.sent.is_empty());
    update_solving_rune_state(&mut r, &mut player);
    assert!(matches!(player.state, Player::Idle));
    assert_eq!(player.context.action, None);
    assert!(!player.context.validating_rune);
    assert_eq!(
        r.input.sent,
        vec![
            InputCommand::KeyUp(KeyKind::Up),
            InputCommand::KeyUp(KeyKind::Down),
            InputCommand::KeyUp(KeyKind::Left),
            InputCommand::KeyUp(KeyKind::Right),
        ]
    );
}

#[test]
fn rune_precondition_needs_released_keys_too() {
    let mut player = rune(RuneState::Precondition(running(15)), 5);
    let mut r = resources();
    r.input.all_keys_cleared = false;
    update_solving_rune_state(&mut r, &mut player);
    match player.state {
        Player::SolvingRune(rune) => assert_eq!(rune.stuck_count, 6),
        _ => panic!("dropped"),
    }
    r.input.all_keys_cleared = true;
    update_solving_rune_state(&mut r, &mut player);
    match player.state {
        Player::SolvingRune(rune) => {
            assert_eq!(rune.stuck_count, 0);
            assert!(matches!(rune.state, RuneState::Calibrating(_)));
        }
        _ => panic!("dropped"),
    }
}

#[test]
fn rune_calibration_opens_the_rune_and_asks_the_solver() {
    let mut player = rune(RuneState::Calibrating(Timeout::default()), 0);
    let mut r = resources();
    update_solving_rune_state(&mut r, &mut player);
    assert_eq!(r.input.sent, vec![InputCommand::Key(INTERACT)]);

    let mut player = rune(RuneState::Calibrating(running(29)), 0);
    let mut r = resources();
    r.detector.rune_arrows = Some(SolvingState::Solving);
    update_solving_rune_state(&mut r, &mut player);
    assert!(matches!(rune_state(&player), RuneState::Solving(_)));

    let mut player = rune(RuneState::Calibrating(running(29)), 0);
    r.detector.rune_arrows = Some(SolvingState::Calibrating);
    update_solving_rune_state(&mut r, &mut player);
    assert!(matches!(rune_state(&player), RuneState::Calibrating(_)));

    let mut player = rune(RuneState::Calibrating(running(30)), 0);
    r.detector.rune_arrows = Some(SolvingState::Solving);
    update_solving_rune_state(&mut r, &mut player);
    assert!(matches!(rune_state(&player), RuneState::Calibrating(_)));
}

#[test]
fn rune_calibration_gives_up_after_its_time() {
    let mut player = rune(RuneState::Calibrating(running(125)), 0);
    let mut r = resources();
    update_solving_rune_state(&mut r, &mut player);
    assert!(matches!(player.state, Player::Idle));
    assert_eq!(player.context.action, None);
    assert!(player.context.validating_rune);
}

fn arrows(keys: [KeyKind; 4]) -> ArrowsComplete {
    ArrowsComplete { bboxes: [Rect::new(1, 2, 3, 4); 4], spins: [false, true, false, false], keys }
}

#[test]
fn solved_runes_are_kept_when_they_end_the_solving() {
    let keys = [KeyKind::Left, KeyKind::Up, KeyKind::Right, KeyKind::Down];
    let mut seen = Detector::blank();
    let attempt = |state: RuneState| SolvingRune { state, stuck_count: 0 };
    let solving = attempt(RuneState::Solving(running(3)));
    assert!(last_rune_result(&solving, &seen).is_none());
    seen.rune_arrows = Some(SolvingState::Solving);
    assert!(last_rune_result(&solving, &seen).is_none());
    seen.rune_arrows = Some(SolvingState::Complete(arrows(keys)));
    let kept = last_rune_result(&solving, &seen).unwrap();
    assert_eq!(kept.keys, keys);
    assert_eq!(kept.bboxes, arrows(keys).bboxes);
    assert_eq!(kept.spins, arrows(keys).spins);
    for state in [
        RuneState::Solving(Timeout::default()),
        RuneState::Solving(running(150)),
        RuneState::Calibrating(running(29)),
        RuneState::PressKeys(running(1), keys, 0),
    ] {
        assert!(last_rune_result(&attempt(state), &seen).is_none());
    }
}

#[test]
fn copies_of_a_shape_attempt_start_with_a_fresh_solver() {
    let mut shape = SolvingShape::default();
    shape.state = ShapeState::Solving(running(5));
    shape.region = Rect::new(1, 2, 3, 4);
    shape.solver_fresh = false;
    shape.target_cursor = Some(Point::new(5, 6));
    shape.smoothed_cursor = Some(Point::new(7, 8));
    let player = shape_player(shape);
    for copy in [shape_of(&player.clone()), shape_of(&player).clone()] {
        assert!(copy.solver_fresh);
        assert_eq!(copy.state, ShapeState::Solving(running(5)));
        assert_eq!(copy.region, Rect::new(1, 2, 3, 4));
        assert_eq!(copy.target_cursor, Some(Point::new(5, 6)));
        assert_eq!(copy.smoothed_cursor, Some(Point::new(7, 8)));
    }
    assert!(!shape_of(&player).solver_fresh);

    let player = fate(FateState::ClickAsk(running(2), 1, true));
    assert_eq!(fate_of(&player.clone()), fate_of(&player));
}

#[test]
fn rune_solving_follows_the_solver() {
    let keys = [KeyKind::Left, KeyKind::Up, KeyKind::Right, KeyKind::Down];
    let mut r = resources();

    let mut player = rune(RuneState::Solving(running(3)), 0);
    r.detector.rune_arrows = Some(SolvingState::Solving);
    update_solving_rune_state(&mut r, &mut player);
    assert!(matches!(rune_state(&player), RuneState::Solving(Timeout { current: 4, .. })));

    r.detector.rune_arrows = Some(SolvingState::Complete(arrows(keys)));
    update_solving_rune_state(&mut r, &mut player);
    match rune_state(&player) {
        RuneState::PressKeys(timeout, pressed, 0) => {
            assert_eq!(timeout, Timeout::default());
            assert_eq!(pressed, keys);
        }
        _ => panic!("presses no keys"),
    }

    let mut player = rune(RuneState::Solving(running(3)), 0);
    r.detector.rune_arrows = Some(SolvingState::Error);
    update_solving_rune_state(&mut r, &mut player);
    assert!(matches!(player.state, Player::Idle));
    assert!(player.context.validating_rune);

    let mut player = rune(RuneState::Solving(running(150)), 0);
    r.detector.rune_arrows = None;
    update_solving_rune_state(&mut r, &mut player);
    assert!(matches!(player.state, Player::Idle));
}

#[test]
fn rune_keys_are_pressed_in_order_ten_ticks_apart() {
    let keys = [KeyKind::Left, KeyKind::Up, KeyKind::Right, KeyKind::Down];
    let mut player = rune(RuneState::PressKeys(Timeout::default(), keys, 0), 0);
    let mut r = resources();
    let mut pressed_at = Vec::new();
    for tick in 0..40 {
        let before = r.input.sent.len();
        update_solving_rune_state(&mut r, &mut player);
        if r.input.sent.len() > before {
            pressed_at.push(tick);
        }
    }
    assert_eq!(pressed_at, vec![0, 10, 20, 30]);
    assert_eq!(r.input.sent, keys.map(InputCommand::Key).to_vec());
    assert!(matches!(player.state, Player::Idle));
    assert!(player.context.validating_rune);
}

#[test]
fn rune_without_an_action_is_dropped() {
    let mut player = rune(RuneState::Solving(running(3)), 0);
    player.context.action = None;
    let mut r = resources();
    update_solving_rune_state(&mut r, &mut player);
    assert!(matches!(player.state, Player::Idle));
    assert!(!player.context.validating_rune);
}

#[test]
fn rune_solver_runs_only_when_wanted() {
    let blank = Detector::blank();
    let calibrating = |ticks| SolvingRune { state: RuneState::Calibrating(running(ticks)), stuck_count: 0 };
    assert_eq!(next_rune_detection(&calibrating(29), &blank), Some(Detection::RuneArrows));
    assert_eq!(next_rune_detection(&calibrating(30), &blank), None);
    assert_eq!(next_rune_detection(&calibrating(125), &blank), None);
    let solving = SolvingRune { state: RuneState::Solving(running(1)), stuck_count: 0 };
    assert_eq!(next_rune_detection(&solving, &blank), Some(Detection::RuneArrows));
    let mut seen = blank;
    seen.rune_arrows = Some(SolvingState::Solving);
    assert_eq!(next_rune_detection(&solving, &seen), None);
    assert_eq!(next_rune_detection(&SolvingRune::default(), &blank), None);
}

fn shape_player(shape: SolvingShape) -> PlayerEntity {
    PlayerEntity {
        state: Player::SolvingShape(shape),
        context: context(Some(PlayerAction::SolveShape)),
    }
}

#[test]
fn shape_waits_for_the_lie_detector() {
    let mut r = resources();
    r.tick = 31;
    let mut player = shape_player(SolvingShape::default());
    update_solving_shape_state(&mut r, &mut player);
    assert_eq!(shape_of(&player), SolvingShape::default());

    r.tick = 60;
    r.detector.lie_detector_shape_preparing = Some(true);
    update_solving_shape_state(&mut r, &mut player);
    assert_eq!(shape_of(&player), SolvingShape::default());

    r.detector.lie_detector_shape_preparing = Some(false);
    r.detector.lie_detector_shape = Sighting::At(Rect::new(100, 200, 50, 10));
    update_solving_shape_state(&mut r, &mut player);
    let shape = shape_of(&player);
    assert_eq!(shape.state, ShapeState::Solving(Timeout::default()));
    assert_eq!(shape.region, Rect::new(100, 220, 755, 505));
    assert!(shape.solver_fresh);
    assert_eq!(shape.describe(), "Solving");
}

#[test]
fn shape_ends_without_a_title() {
    let mut r = resources();
    r.tick = 30;
    r.detector.lie_detector_shape_preparing = Some(false);
    r.detector.lie_detector_shape = Sighting::Missing;
    let mut player = shape_player(SolvingShape::default());
    update_solving_shape_state(&mut r, &mut player);
    assert!(matches!(player.state, Player::Idle));
    assert_eq!(player.context.action, None);
}

#[test]
fn shape_mouse_follows_the_target() {
    let mut shape = SolvingShape::default();
    shape.state = ShapeState::Solving(running(5));
    let mut player = shape_player(shape);
    let mut r = resources();
    r.tick = 8;
    r.detector.lie_detector_shape = Sighting::At(Rect::new(100, 200, 9, 9));
    r.detector.shape_cursor = ShapeCursor::At(Point::new(50, 60));
    r.detector.smoothed_cursor = Some(Point::new(48, 59));
    update_solving_shape_state(&mut r, &mut player);
    let shape = shape_of(&player);
    assert_eq!(shape.target_cursor, Some(Point::new(50, 60)));
    assert_eq!(shape.smoothed_cursor, Some(Point::new(48, 59)));
    assert!(!shape.solver_fresh);
    assert_eq!(
        r.input.sent,
        vec![InputCommand::Mouse { x: 48, y: 59, kind: MouseKind::Move }]
    );

    r.tick = 9;
    r.detector.shape_cursor = ShapeCursor::At(Point::new(1, 1));
    r.detector.smoothed_cursor = Some(Point::new(49, 60));
    update_solving_shape_state(&mut r, &mut player);
    assert_eq!(shape_of(&player).target_cursor, Some(Point::new(50, 60)));
    assert_eq!(r.input.sent.len(), 2);
}

#[test]
fn shape_ends_with_the_lie_detector_or_in_time() {
    let mut shape = SolvingShape::default();
    shape.state = ShapeState::Solving(running(5));
    let mut player = shape_player(shape);
    let mut r = resources();
    r.detector.lie_detector_shape = Sighting::Missing;
    update_solving_shape_state(&mut r, &mut player);
    assert!(matches!(player.state, Player::Idle));
    assert!(r.input.sent.is_empty());

    let mut shape = SolvingShape::default();
    shape.state = ShapeState::Solving(running(545));
    let mut player = shape_player(shape);
    r.detector.lie_detector_shape = Sighting::At(Rect::new(100, 200, 9, 9));
    update_solving_shape_state(&mut r, &mut player);
    assert!(matches!(player.state, Player::Idle));
    assert_eq!(player.context.action, None);

    let mut shape = SolvingShape::default();
    shape.state = ShapeState::Solving(running(544));
    let mut player = shape_player(shape);
    update_solving_shape_state(&mut r, &mut player);
    assert!(matches!(player.state, Player::SolvingShape(_)));
}

#[test]
fn shape_detections_come_in_order() {
    let mut seen = Detector::blank();
    let waiting = SolvingShape::default();
    assert_eq!(next_shape_detection(&waiting, 31, &seen), None);
    assert_eq!(
        next_shape_detection(&waiting, 30, &seen),
        Some(Detection::LieDetectorShapePreparing)
    );
    seen.lie_detector_shape_preparing = Some(false);
    assert_eq!(next_shape_detection(&waiting, 30, &seen), Some(Detection::LieDetectorShape));
    seen.lie_detector_shape = Sighting::Missing;
    assert_eq!(next_shape_detection(&waiting, 30, &seen), None);

    let mut solving = SolvingShape::default();
    solving.state = ShapeState::Solving(running(1));
    let mut seen = Detector::blank();
    assert_eq!(next_shape_detection(&solving, 16, &seen), Some(Detection::LieDetectorShape));
    seen.lie_detector_shape = Sighting::Missing;
    assert_eq!(next_shape_detection(&solving, 16, &seen), None);
    seen.lie_detector_shape = Sighting::At(Rect::new(100, 200, 9, 9));
    assert_eq!(
        next_shape_detection(&solving, 16, &seen),
        Some(Detection::ShapeCursor { region: solving.region, fresh: true })
    );
    seen.shape_cursor = ShapeCursor::At(Point::new(7, 8));
    assert_eq!(
        next_shape_detection(&solving, 16, &seen),
        Some(Detection::SmoothedCursor { from: Point::new(7, 8), to: Point::new(7, 8) })
    );
    seen.smoothed_cursor = Some(Point::new(7, 8));
    assert_eq!(next_shape_detection(&solving, 16, &seen), None);
    seen.smoothed_cursor = None;
    solving.smoothed_cursor = Some(Point::new(1, 2));
    assert_eq!(
        next_shape_detection(&solving, 16, &seen),
        Some(Detection::SmoothedCursor { from: Point::new(1, 2), to: Point::new(7, 8) })
    );
    assert_eq!(next_shape_detection(&solving, 17, &seen), None);
}

#[test]
fn fate_bulb_is_clicked_until_the_mailbox_opens() {
    let mut player = fate(FateState::ClickBulb(Timeout::default(), 0));
    let mut r = resources();
    r.detector.tof_bulb = Sighting::At(Rect::new(10, 10, 4, 6));
    let mut clicks = 0;
    for _ in 0..10 {
        update_threads_of_fate_state(&mut r, &mut player);
    }
    for command in &r.input.sent {
        if let InputCommand::Mouse { x, y, kind: MouseKind::Click } = command {
            assert_eq!((*x, *y), (12, 13));
            clicks += 1;
        }
    }
    assert_eq!(clicks, 1);
    assert_eq!(r.input.sent[0], REST);
    r.detector.tof_maple_mailbox = Some(true);
    update_threads_of_fate_state(&mut r, &mut player);
    assert!(matches!(fate_of(&player).state, FateState::FindComplete(_)));
    assert_eq!(fate_of(&player).describe(), "FindComplete");
}

#[test]
fn fate_dialog_over_the_bulb_is_dismissed_once() {
    let mut player = fate(FateState::ClickBulb(running(0), 0));
    let mut r = resources();
    r.detector.tof_dialog_visible = Some(true);
    update_threads_of_fate_state(&mut r, &mut player);
    update_threads_of_fate_state(&mut r, &mut player);
    assert_eq!(r.input.sent, vec![InputCommand::Key(INTERACT)]);
    assert!(matches!(fate_of(&player).state, FateState::ClickBulb(_, 1)));
}

#[test]
fn fate_fails_when_the_mailbox_does_not_open() {
    let mut player = fate(FateState::ClickBulb(running(30), 0));
    let mut r = resources();
    update_threads_of_fate_state(&mut r, &mut player);
    assert!(matches!(player.state, Player::Idle));
    assert_eq!(player.context.action, None);
    assert_eq!(player.context.threads_of_fate_fail_count, 1);
    assert!(!player.context.threads_of_fate_permanently_stopped);

    let fails = player.context.threads_of_fate_fail_count;
    let mut player = fate(FateState::ClickBulb(running(30), 0));
    player.context.threads_of_fate_fail_count = fails;
    update_threads_of_fate_state(&mut r, &mut player);
    assert!(player.context.threads_of_fate_permanently_stopped);
}

#[test]
fn fate_finished_quest_is_handed_in_once() {
    let mut player = fate(FateState::FindComplete(Timeout::default()));
    let mut r = resources();
    r.detector.tof_complete = Sighting::At(Rect::new(0, 0, 20, 20));
    update_threads_of_fate_state(&mut r, &mut player);
    let tof = fate_of(&player);
    assert!(matches!(tof.state, FateState::InteractComplete(_, 0, 0)));
    assert!(tof.found_complete && tof.complete_used);
    assert_eq!(
        r.input.sent,
        vec![InputCommand::Mouse { x: 10, y: 10, kind: MouseKind::Click }, REST]
    );

    r.input.sent.clear();
    r.detector = Detector::blank();
    let mut ticks = 0;
    while matches!(fate_of(&player).state, FateState::InteractComplete(..)) {
        update_threads_of_fate_state(&mut r, &mut player);
        ticks += 1;
    }
    assert_eq!(ticks, 24);
    assert_eq!(r.input.sent, vec![InputCommand::Key(INTERACT)]);
    let tof = fate_of(&player);
    assert!(matches!(tof.state, FateState::ClickBulb(..)));
    assert_eq!(tof.complete_executed_count, 1);

    let mut again = tof;
    again.state = FateState::FindComplete(Timeout::default());
    let mut player = fate(FateState::FindComplete(Timeout::default()));
    player.state = Player::ThreadsOfFate(again);
    r.detector.tof_complete = Sighting::At(Rect::new(0, 0, 20, 20));
    update_threads_of_fate_state(&mut r, &mut player);
    let tof = fate_of(&player);
    assert!(matches!(tof.state, FateState::FindUnravelling(_, 0)));
    assert!(!tof.found_complete);
    assert_eq!(tof.complete_executed_count, 1);
}

#[test]
fn fate_scrolls_for_the_quest_and_gives_up() {
    let mut player = fate(FateState::FindUnravelling(running(30), 0));
    let mut r = resources();
    update_threads_of_fate_state(&mut r, &mut player);
    assert_eq!(r.input.sent, vec![InputCommand::Key(KeyKind::Down); 5]);
    assert!(matches!(fate_of(&player).state, FateState::FindUnravelling(_, 1)));

    let mut player = fate(FateState::FindUnravelling(running(30), 2));
    update_threads_of_fate_state(&mut r, &mut player);
    assert!(matches!(player.state, Player::Idle));
    assert_eq!(player.context.threads_of_fate_fail_count, 1);

    let mut player = fate(FateState::FindUnravelling(running(30), 2));
    r.detector.tof_unravelling = Sighting::At(Rect::new(2, 2, 2, 2));
    update_threads_of_fate_state(&mut r, &mut player);
    assert!(matches!(fate_of(&player).state, FateState::ClickUnravelling(_)));
}

#[test]
fn fate_character_is_asked() {
    let mut r = resources();
    let mut player = fate(FateState::ClickUnravelling(running(30)));
    update_threads_of_fate_state(&mut r, &mut player);
    assert!(matches!(fate_of(&player).state, FateState::WaitFateCharacterUI(_)));

    let mut player = fate(FateState::WaitFateCharacterUI(running(9)));
    r.detector.tof_fate_character_ui = Some(true);
    update_threads_of_fate_state(&mut r, &mut player);
    assert!(matches!(fate_of(&player).state, FateState::ClickFateCharacter(_)));

    let mut player = fate(FateState::ClickFateCharacter(running(14)));
    r.detector.tof_fate_character = Sighting::At(Rect::new(4, 4, 2, 2));
    update_threads_of_fate_state(&mut r, &mut player);
    assert_eq!(fate_of(&player).state, FateState::ClickAsk(Timeout::default(), 0, false));

    let mut player = fate(FateState::ClickAsk(running(1), 0, false));
    r.detector.tof_ask_button = Sighting::At(Rect::new(4, 4, 2, 2));
    update_threads_of_fate_state(&mut r, &mut player);
    assert_eq!(fate_of(&player).state, FateState::ClickAsk(running(2), 0, true));

    r.detector.tof_dialog_visible = Some(true);
    update_threads_of_fate_state(&mut r, &mut player);
    assert_eq!(fate_of(&player).state, FateState::InteractDialog(Timeout::default(), 0, 0));
}

#[test]
fn fate_ask_fails_after_two_attempts() {
    let mut r = resources();
    let mut player = fate(FateState::ClickAsk(running(10), 0, true));
    update_threads_of_fate_state(&mut r, &mut player);
    assert_eq!(fate_of(&player).state, FateState::ClickAsk(Timeout::default(), 1, false));
    assert!(!player.context.threads_of_fate_permanently_stopped);
    let mut player = fate(FateState::ClickAsk(running(10), 1, false));
    r.detector.tof_dialog_visible = Some(true);
    update_threads_of_fate_state(&mut r, &mut player);
    assert!(matches!(player.state, Player::Idle));
    assert_eq!(player.context.threads_of_fate_fail_count, 1);
    assert!(player.context.threads_of_fate_permanently_stopped);
}

#[test]
fn fate_dialog_success_forgets_failures() {
    let mut r = resources();
    let mut player = fate(FateState::InteractDialog(running(8), 4, 3));
    player.context.threads_of_fate_fail_count = 1;
    update_threads_of_fate_state(&mut r, &mut player);
    assert!(matches!(player.state, Player::Idle));
    assert_eq!(player.context.threads_of_fate_fail_count, 0);

    let mut player = fate(FateState::InteractDialog(running(8), 11, 0));
    r.detector.tof_dialog_visible = Some(true);
    update_threads_of_fate_state(&mut r, &mut player);
    assert!(matches!(player.state, Player::Idle));
    assert_eq!(player.context.threads_of_fate_fail_count, 0);

    let mut player = fate(FateState::InteractDialog(running(8), 3, 2));
    update_threads_of_fate_state(&mut r, &mut player);
    assert_eq!(fate_of(&player).state, FateState::InteractDialog(Timeout::default(), 4, 0));
    assert_eq!(r.input.sent, vec![InputCommand::Key(INTERACT)]);
}

#[test]
fn fate_round_that_sees_nothing_ends() {
    let mut player = fate(FateState::ClickBulb(Timeout::default(), 0));
    let mut r = resources();
    let mut ticks = 0;
    while matches!(player.state, Player::ThreadsOfFate(_)) {
        update_threads_of_fate_state(&mut r, &mut player);
        ticks += 1;
        assert!(ticks <= 554);
    }
    assert_eq!(ticks, 32);
}

#[test]
fn fate_wants_detections_one_by_one() {
    let tof = match fate(FateState::ClickBulb(running(9), 0)).state {
        Player::ThreadsOfFate(tof) => tof,
        _ => panic!("not in threads of fate"),
    };
    let mut seen = Detector::blank();
    assert_eq!(
        next_threads_of_fate_detection(&tof, &seen),
        Some(Detection::TofDialogVisible)
    );
    seen.tof_dialog_visible = Some(false);
    assert_eq!(next_threads_of_fate_detection(&tof, &seen), Some(Detection::TofMapleMailbox));
    seen.tof_maple_mailbox = Some(false);
    assert_eq!(next_threads_of_fate_detection(&tof, &seen), Some(Detection::TofBulb));
    seen.tof_bulb = Sighting::Missing;
    assert_eq!(next_threads_of_fate_detection(&tof, &seen), None);
}

use std::rc::Rc;

use bot_core::clock::{Clock, Duration, Instant};
use bot_core::debug::{
    arrow_starts, closes_window, label_position, mid_point, random_name, rune_files,
    save_rune_for_training, shifted, track_boxes, training_labels, ArrowsComplete, DrawnTrack,
};
use bot_core::geometry::{Point, Rect};
use bot_core::models::{
    Bound, CaptureMode, Character, CycleRunStopMode, InputMethod, KeyBinding,
    KeyBindingConfiguration, MapData, Settings,
};
use bot_core::operation::{Operation, OperationConfiguration};
use bot_core::player::{Panic, PanicTo, PlayerAction};
use bot_core::resources::{Detector, Input, KeyKind, Resources};
use bot_core::services::database::{
    settings_updated, DatabaseEvent, DatabaseEventHandler, Localization,
};
use bot_core::services::debug::{
    create_sandbox_test_resources, frame_pause, spin_test_goes_on, DebugService, DebugState,
    SpinTestRound,
};
use bot_core::services::input::{
    method_of, window_source, DefaultInputService, InputMethodKind, InputPort, InputService, Window,
    WindowSource,
};
use bot_core::services::mediator::{
    broadcast_state, character_updated, handle_ui_request, map_updated, minimap_frame_from,
    update_window, BoundQuadrant, DetectionTemplate, IdleMinimap, ImageColor, MediatorEvent,
    MediatorEventHandler, NavigationPath, Quadrant, Request, Response, ShownOperation, UiTask,
    WorldView,
};
use bot_core::services::operation::{
    config_operation_at, update_operation, update_operation_at, DefaultOperationService, Halt,
    OperationCommand, OperationEvent, OperationEventHandler, OperationService, OperationUpdate,
};
use bot_core::services::{
    Effect, EventBus, EventContext, EventHandler, EventKind, FollowUp,
};

const SEC: u128 = 1_000_000_000;

fn at(secs: u128) -> Instant {
    Instant { nanos: secs * SEC }
}

fn config(mode: CycleRunStopMode, run: u64, stop: u64) -> OperationConfiguration {
    OperationConfiguration { mode, run_duration_millis: run, stop_duration_millis: stop }
}

fn repeat() -> OperationConfiguration {
    config(CycleRunStopMode::Repeat, 10_000, 4_000)
}

fn binding() -> KeyBindingConfiguration {
    KeyBindingConfiguration { key: KeyBinding { code: 0 }, enabled: false }
}

fn settings() -> Settings {
    Settings {
        cycle_run_stop: CycleRunStopMode::Repeat,
        cycle_run_duration_millis: 10_000,
        cycle_stop_duration_millis: 4_000,
        capture_mode: CaptureMode::BitBltArea,
        input_method: InputMethod::Rpc,
        input_method_rpc_server_url: "http://here".to_string(),
        platform_start_key: binding(),
        platform_end_key: binding(),
        platform_add_key: binding(),
    }
}

fn map(id: i64) -> MapData {
    MapData {
        id: Some(id),
        name: "Cave".to_string(),
        paths_id_index: Some((8, 2)),
        presets: vec![],
        platforms: vec![],
        rune_platforms_pathing: false,
        rune_platforms_pathing_up_jump_only: false,
        auto_mob_platforms_pathing: false,
        auto_mob_platforms_pathing_up_jump_only: false,
        auto_mob_platforms_bound: true,
    }
}

fn event_context(operation: Operation) -> EventContext {
    EventContext {
        clock: Clock::start(),
        resources: Resources {
            input: Input { all_keys_cleared: true, sent: vec![] },
            detector: Detector::blank(),
            operation,
            tick: 0,
        },
        operation_service: DefaultOperationService::default(),
        map: Some(Rc::new(map(5))),
        preset: Some(Rc::new("a".to_string())),
        character: Some(Rc::new(Character { id: Some(6) })),
        settings: Rc::new(settings()),
        navigator_reached_last_point: false,
        effects: vec![],
    }
}

fn same<T>(a: &Option<Rc<T>>, b: &Option<Rc<T>>) -> bool {
    match (a, b) {
        (Some(a), Some(b)) => Rc::ptr_eq(a, b),
        (None, None) => true,
        _ => false,
    }
}

fn updates_actions(effect: &Effect, context: &EventContext) -> bool {
    match effect {
        Effect::UpdateRotatorActions { map, preset, character } => {
            same(map, &context.map)
                && same(preset, &context.preset)
                && same(character, &context.character)
        }
        _ => false,
    }
}

fn applies_rotator(effect: &Effect, context: &EventContext) -> bool {
    match effect {
        Effect::ApplyRotatorFor { map, character, settings } => {
            same(map, &context.map)
                && same(character, &context.character)
                && Rc::ptr_eq(settings, &context.settings)
        }
        _ => false,
    }
}

#[test]
fn temporary_halt_keeps_the_rest_of_a_run() {
    let run = Operation::RunUntil { instant: at(30), config: repeat() };
    let halted = update_operation_at(run, OperationUpdate::TemporaryHalt, at(12));
    assert_eq!(
        halted,
        Operation::TemporaryHalting { resume: Duration { nanos: 18 * SEC }, config: repeat() }
    );
    let resumed = update_operation_at(halted, OperationUpdate::Run, at(100));
    assert_eq!(resumed, Operation::RunUntil { instant: at(118), config: repeat() });
    let overdue = update_operation_at(run, OperationUpdate::TemporaryHalt, at(40));
    assert_eq!(
        overdue,
        Operation::TemporaryHalting { resume: Duration { nanos: 0 }, config: repeat() }
    );
}

#[test]
fn updates_of_other_operations() {
    let c = repeat();
    let halted = Operation::HaltUntil { instant: at(3), config: c };
    assert_eq!(
        update_operation_at(halted, OperationUpdate::Run, at(1)),
        Operation::RunUntil { instant: at(11), config: c }
    );
    assert_eq!(
        update_operation_at(Operation::Running, OperationUpdate::TemporaryHalt, at(1)),
        Operation::Halting
    );
    assert_eq!(
        update_operation_at(halted, OperationUpdate::TemporaryHalt, at(1)),
        Operation::Halting
    );
    assert_eq!(
        update_operation_at(Operation::Halting, OperationUpdate::Run, at(1)),
        Operation::Halting
    );
    assert_eq!(
        update_operation_at(Operation::Running, OperationUpdate::Run, at(1)),
        Operation::Running
    );
    assert_eq!(
        update_operation_at(halted, OperationUpdate::Halt, at(1)),
        Operation::Halting
    );
    let clock = Clock::start();
    assert_eq!(
        update_operation(&clock, Operation::Running, OperationUpdate::Halt),
        Operation::Halting
    );
}

#[test]
fn configuring_halts() {
    let c = repeat();
    let halted = Operation::HaltUntil { instant: at(3), config: c };
    let once = config(CycleRunStopMode::Once, 10_000, 4_000);
    assert_eq!(config_operation_at(halted, once, at(1)), Operation::Halting);
    let longer_run = config(CycleRunStopMode::Repeat, 99_000, 4_000);
    assert_eq!(
        config_operation_at(halted, longer_run, at(1)),
        Operation::HaltUntil { instant: at(3), config: longer_run }
    );
    let longer_stop = config(CycleRunStopMode::Repeat, 10_000, 8_000);
    assert_eq!(
        config_operation_at(halted, longer_stop, at(1)),
        Operation::HaltUntil { instant: at(9), config: longer_stop }
    );
    assert_eq!(config_operation_at(Operation::Halting, c, at(1)), Operation::Halting);
}

#[test]
fn configuring_temporary_halts() {
    let resume = Duration { nanos: SEC };
    let paused = Operation::TemporaryHalting { resume, config: repeat() };
    let same_run = config(CycleRunStopMode::Once, 10_000, 1);
    assert_eq!(
        config_operation_at(paused, same_run, at(1)),
        Operation::TemporaryHalting { resume, config: same_run }
    );
    let other_run = config(CycleRunStopMode::Repeat, 11_000, 4_000);
    assert_eq!(config_operation_at(paused, other_run, at(1)), Operation::Halting);
    let off = config(CycleRunStopMode::Off, 10_000, 4_000);
    assert_eq!(config_operation_at(paused, off, at(1)), Operation::Halting);
}

#[test]
fn configuring_runs() {
    let c = repeat();
    let off = config(CycleRunStopMode::Off, 10_000, 4_000);
    let run = Operation::RunUntil { instant: at(3), config: c };
    assert_eq!(config_operation_at(run, off, at(1)), Operation::Running);
    assert_eq!(
        config_operation_at(Operation::Running, c, at(1)),
        Operation::RunUntil { instant: at(11), config: c }
    );
    assert_eq!(
        config_operation_at(run, c, at(1)),
        Operation::RunUntil { instant: at(11), config: c }
    );
}

const HALT: Halt = Halt { go_to_town: true, check_for_navigation: false };

#[test]
fn operation_service_sends_what_it_did() {
    let clock = Clock::start();
    let mut service = DefaultOperationService::default();
    let mut context = event_context(Operation::Running);
    service.update(&clock, &mut context.resources, OperationUpdate::Halt);
    assert_eq!(context.resources.operation, Operation::Halting);
    service.config(&clock, &mut context.resources, repeat());
    assert_eq!(
        service.outbox,
        vec![
            OperationCommand::Send(OperationEvent::Update),
            OperationCommand::Send(OperationEvent::Configuration),
        ]
    );
}

#[test]
fn at_most_one_halt_is_pending() {
    let mut service = DefaultOperationService::default();
    service.abort_halt();
    assert!(service.outbox.is_empty());
    service.queue_halt(false, HALT);
    service.queue_halt(false, HALT);
    service.queue_halt(true, HALT);
    service.abort_halt();
    let event = OperationEvent::Halt(HALT);
    let later = OperationCommand::SendLater { event, after: Duration { nanos: 12 * SEC } };
    assert_eq!(
        service.outbox,
        vec![
            later,
            OperationCommand::AbortLater,
            later,
            OperationCommand::AbortLater,
            OperationCommand::Send(event),
        ]
    );
}

#[test]
fn halt_event_stops_everything() {
    let mut context = event_context(Operation::Running);
    let mut handler = OperationEventHandler;
    assert!(handler.handle(&mut context, OperationEvent::Halt(HALT)).is_none());
    assert_eq!(context.resources.operation, Operation::Halting);
    assert_eq!(context.effects.len(), 3);
    assert!(matches!(context.effects[0], Effect::ResetRotatorQueue));
    assert!(matches!(context.effects[1], Effect::ClearActionsAborted(false)));
    assert!(matches!(
        context.effects[2],
        Effect::InjectAction(PlayerAction::Panic(Panic { to: PanicTo::Town }))
    ));

    let mut context = event_context(Operation::Running);
    let stay = Halt { go_to_town: false, check_for_navigation: true };
    handler.handle(&mut context, OperationEvent::Halt(stay));
    assert_eq!(context.effects.len(), 2);
    assert!(matches!(context.effects[1], Effect::ClearActionsAborted(true)));

    let mut context = event_context(Operation::Running);
    context.navigator_reached_last_point = true;
    handler.handle(&mut context, OperationEvent::Halt(stay));
    assert!(context.effects.is_empty());
    assert_eq!(context.resources.operation, Operation::Running);
    handler.handle(&mut context, OperationEvent::Halt(HALT));
    assert_eq!(context.effects.len(), 3);
}

#[test]
fn operation_changes_clear_a_halted_bot() {
    let mut handler = OperationEventHandler;
    let mut context = event_context(Operation::Running);
    handler.handle(&mut context, OperationEvent::Update);
    assert!(context.effects.is_empty());
    let mut context = event_context(Operation::Halting);
    handler.handle(&mut context, OperationEvent::Configuration);
    assert_eq!(context.effects.len(), 2);
    assert!(matches!(context.effects[0], Effect::ResetRotatorQueue));
    assert!(matches!(context.effects[1], Effect::ClearActionsAborted(true)));
}

#[test]
fn only_the_map_in_use_is_updated() {
    let mut handler = DatabaseEventHandler;
    let mut context = event_context(Operation::Running);
    handler.handle(&mut context, DatabaseEvent::MapUpdated(map(4)));
    handler.handle(&mut context, DatabaseEvent::MapDeleted(4));
    assert!(context.effects.is_empty());
    handler.handle(&mut context, DatabaseEvent::MapUpdated(map(5)));
    handler.handle(&mut context, DatabaseEvent::MapDeleted(5));
    match &context.effects[0] {
        Effect::QueueUpdateMap { preset, map: Some(map) } => {
            assert_eq!(preset.as_deref(), Some("a"));
            assert_eq!(map.id, Some(5));
        }
        _ => panic!("not queued"),
    }
    assert!(matches!(&context.effects[1], Effect::QueueUpdateMap { map: None, .. }));

    context.map = None;
    handler.handle(&mut context, DatabaseEvent::MapDeleted(5));
    assert_eq!(context.effects.len(), 2);
}

#[test]
fn only_the_character_in_use_is_updated() {
    let mut handler = DatabaseEventHandler;
    let mut context = event_context(Operation::Running);
    handler.handle(&mut context, DatabaseEvent::CharacterDeleted(5));
    handler.handle(&mut context, DatabaseEvent::CharacterUpdated(Character { id: Some(5) }));
    assert!(context.effects.is_empty());
    handler.handle(&mut context, DatabaseEvent::CharacterDeleted(6));
    handler.handle(&mut context, DatabaseEvent::CharacterUpdated(Character { id: Some(6) }));
    assert!(matches!(context.effects[0], Effect::QueueUpdateCharacter(None)));
    assert!(matches!(
        context.effects[1],
        Effect::QueueUpdateCharacter(Some(Character { id: Some(6) }))
    ));
}

#[test]
fn other_database_changes() {
    let mut handler = DatabaseEventHandler;
    let mut context = event_context(Operation::Running);
    handler.handle(&mut context, DatabaseEvent::LocalizationUpdated(Localization { handle: 3 }));
    handler.handle(&mut context, DatabaseEvent::NavigationPathsUpdated);
    handler.handle(&mut context, DatabaseEvent::NavigationPathsDeleted);
    assert!(matches!(
        context.effects[0],
        Effect::UpdateLocalization(Localization { handle: 3 })
    ));
    assert!(matches!(context.effects[1], Effect::MarkNavigatorDirty(true)));
    assert!(matches!(context.effects[2], Effect::MarkNavigatorDirty(true)));
}

#[test]
fn new_settings_reach_everything() {
    let mut handler = DatabaseEventHandler;
    let mut context = event_context(Operation::Running);
    let follow_up = handler.handle(&mut context, DatabaseEvent::SettingsUpdated(settings()));
    assert_eq!(follow_up, Some(FollowUp::SettingsUpdated));
    assert!(matches!(context.effects[0], Effect::UpdateSettings(_)));

    settings_updated(&mut context);
    assert!(matches!(context.resources.operation, Operation::RunUntil { .. }));
    assert_eq!(
        context.operation_service.outbox,
        vec![OperationCommand::Send(OperationEvent::Configuration)]
    );
    assert_eq!(context.effects.len(), 7);
    let in_use = &context.settings;
    assert!(matches!(&context.effects[1], Effect::UpdateControl(s) if Rc::ptr_eq(s, in_use)));
    assert!(matches!(
        &context.effects[2],
        Effect::UpdateRotatorFromSettings(s) if Rc::ptr_eq(s, in_use)
    ));
    assert!(matches!(context.effects[3], Effect::ApplyRotator));
    assert!(matches!(context.effects[4], Effect::ApplyCaptureMode(CaptureMode::BitBltArea)));
    assert!(matches!(context.effects[5], Effect::ApplyInputWindow(WindowSource::Capture)));
    match &context.effects[6] {
        Effect::ApplyInputMethod(InputMethodKind::ForegroundRpc(url)) => {
            assert_eq!(url, "http://here");
        }
        _ => panic!("other method"),
    }
}

#[test]
fn input_follows_the_capture() {
    let mut s = settings();
    assert_eq!(window_source(CaptureMode::BitBlt), WindowSource::Selected);
    assert_eq!(window_source(CaptureMode::WindowsGraphicsCapture), WindowSource::Selected);
    s.capture_mode = CaptureMode::BitBlt;
    assert!(matches!(method_of(&s), InputMethodKind::FocusedRpc(url) if url == "http://here"));
    s.input_method = InputMethod::Default;
    assert!(matches!(method_of(&s), InputMethodKind::FocusedDefault));
    s.capture_mode = CaptureMode::BitBltArea;
    assert!(matches!(method_of(&s), InputMethodKind::ForegroundDefault));
}

#[test]
fn input_service_sets_both_ends() {
    let port = || InputPort {
        window: Window { handle: 0 },
        method: InputMethodKind::FocusedDefault,
    };
    let (mut sender, mut receiver) = (port(), port());
    DefaultInputService.apply_window(&mut sender, &mut receiver, Window { handle: 4 });
    assert_eq!(sender.window.handle, 4);
    assert_eq!(receiver.window.handle, 4);
    let method = InputMethodKind::ForegroundRpc("there".to_string());
    DefaultInputService.apply_method(&mut sender, &mut receiver, method);
    for end in [&sender, &receiver] {
        match &end.method {
            InputMethodKind::ForegroundRpc(url) => assert_eq!(url, "there"),
            _ => panic!("other method"),
        }
        assert_eq!(end.window.handle, 4);
    }
    for method in [
        InputMethodKind::FocusedDefault,
        InputMethodKind::ForegroundDefault,
        InputMethodKind::FocusedRpc("x".to_string()),
    ] {
        assert_eq!(format!("{:?}", method.duplicate()), format!("{:?}", method));
    }
}

#[test]
fn operation_requests_need_map_and_character() {
    let mut context = event_context(Operation::Running);
    context.character = None;
    handle_ui_request(&mut context, Request::UpdateOperation(OperationUpdate::Halt), 3);
    assert_eq!(context.resources.operation, Operation::Running);
    assert!(context.operation_service.outbox.is_empty());
    assert!(matches!(
        context.effects[0],
        Effect::Respond { to: 3, response: Response::UpdateOperation }
    ));

    let mut context = event_context(Operation::Running);
    context.map = None;
    handle_ui_request(&mut context, Request::UpdateOperation(OperationUpdate::Halt), 3);
    assert_eq!(context.resources.operation, Operation::Running);

    let mut context = event_context(Operation::Running);
    handle_ui_request(&mut context, Request::UpdateOperation(OperationUpdate::Halt), 3);
    assert_eq!(context.resources.operation, Operation::Halting);
    assert_eq!(
        context.operation_service.outbox,
        vec![OperationCommand::Send(OperationEvent::Update)]
    );
}

fn answered(request: Request) -> Vec<Effect> {
    let mut context = event_context(Operation::Running);
    assert!(handle_ui_request(&mut context, request, 9).is_none());
    context.effects
}

fn only_response(request: Request) -> Response {
    let mut effects = answered(request);
    assert_eq!(effects.len(), 1);
    match effects.pop() {
        Some(Effect::Respond { to: 9, response }) => response,
        _ => panic!("not answered"),
    }
}

#[test]
fn requests_that_services_answer() {
    assert!(matches!(
        only_response(Request::CreateMap("m".to_string())),
        Response::CreateMap(name) if name == "m"
    ));
    assert!(matches!(
        only_response(Request::CreateNavigationPath),
        Response::CreateNavigationPath
    ));
    assert!(matches!(
        only_response(Request::RecaptureNavigationPath(NavigationPath { handle: 4 })),
        Response::RecaptureNavigationPath(NavigationPath { handle: 4 })
    ));
    assert!(matches!(
        only_response(Request::NavigationSnapshotAsGrayscale("i".to_string())),
        Response::NavigationSnapshotAsGrayscale(image) if image == "i"
    ));
    assert!(matches!(only_response(Request::StateReceiver), Response::StateReceiver));
    assert!(matches!(only_response(Request::KeyReceiver), Response::KeyReceiver));
    assert!(matches!(only_response(Request::QueryCaptureHandles), Response::QueryCaptureHandles));
    assert!(matches!(
        only_response(Request::QueryTemplate(DetectionTemplate { handle: 2 })),
        Response::QueryTemplate(DetectionTemplate { handle: 2 })
    ));
    assert!(matches!(
        only_response(Request::ConvertImageToBase64(vec![1], true)),
        Response::ConvertImageToBase64(image, ImageColor::Grayscale) if image == vec![1]
    ));
    assert!(matches!(
        only_response(Request::ConvertImageToBase64(vec![], false)),
        Response::ConvertImageToBase64(_, ImageColor::Color)
    ));
    assert!(matches!(only_response(Request::DebugStateReceiver), Response::DebugStateReceiver));
}

#[test]
fn requests_that_are_carried_out_first() {
    let effects = answered(Request::RedetectMinimap);
    assert!(matches!(effects[0], Effect::RedetectMinimap));
    assert!(matches!(effects[1], Effect::MarkNavigatorDirty(true)));
    assert!(matches!(effects[2], Effect::Respond { response: Response::RedetectMinimap, .. }));

    let effects = answered(Request::RefreshCaptureHandles);
    assert!(matches!(effects[0], Effect::UpdateWindows));
    assert!(matches!(effects[1], Effect::SelectWindow(None)));
    assert!(matches!(effects[2], Effect::ApplySelectedWindow));
    assert!(matches!(effects[3], Effect::ApplyInputWindow(WindowSource::Selected)));
    assert!(matches!(
        effects[4],
        Effect::Respond { response: Response::RefreshCaptureHandles, .. }
    ));

    let effects = answered(Request::SelectCaptureHandle(Some(1)));
    assert!(matches!(effects[0], Effect::SelectWindow(Some(1))));
    assert_eq!(effects.len(), 4);

    let tasks = vec![
        (Request::SaveCaptureImage(true), UiTask::SaveCaptureImage { is_grayscale: true }),
        (Request::AutoSaveRune(true), UiTask::SetAutoSaveRune(true)),
        (Request::InferRune, UiTask::InferRune),
        (Request::InferMinimap, UiTask::InferMinimap),
        (Request::RecordImages(false), UiTask::RecordImages(false)),
        (Request::TestSpinRune, UiTask::TestSpinRune),
    ];
    for (request, expected) in tasks {
        let effects = answered(request);
        assert_eq!(effects.len(), 2);
        assert!(matches!(effects[0], Effect::Ui(task) if task == expected));
        assert!(matches!(effects[1], Effect::Respond { to: 9, .. }));
    }
}

#[test]
fn map_updates_are_answered_in_the_end() {
    let mut context = event_context(Operation::Running);
    let request = Request::UpdateMap(Some("b".to_string()), Some(map(7)));
    let follow_up = handle_ui_request(&mut context, request, 9);
    assert_eq!(follow_up, Some(FollowUp::MapUpdated { respond_to: Some(9) }));
    assert!(matches!(&context.effects[0], Effect::UpdateMapPreset { map: Some(_), .. }));
    assert!(matches!(context.effects[1], Effect::ApplyMap));
    assert_eq!(context.effects.len(), 2);

    context.effects.clear();
    map_updated(&mut context, Some(9));
    assert!(updates_actions(&context.effects[0], &context));
    assert!(applies_rotator(&context.effects[1], &context));
    assert!(matches!(
        context.effects[2],
        Effect::MarkNavigatorDirtyWithDestination(Some((8, 2)))
    ));
    assert!(matches!(
        context.effects[3],
        Effect::Respond { to: 9, response: Response::UpdateMap }
    ));

    context.effects.clear();
    context.map = None;
    map_updated(&mut context, None);
    assert_eq!(context.effects.len(), 3);
    assert!(matches!(context.effects[2], Effect::MarkNavigatorDirtyWithDestination(None)));
}

#[test]
fn character_updates_look_up_buffs() {
    let mut context = event_context(Operation::Running);
    let request = Request::UpdateCharacter(None);
    let follow_up = handle_ui_request(&mut context, request, 9);
    assert_eq!(follow_up, Some(FollowUp::CharacterUpdated { respond_to: Some(9) }));
    assert!(matches!(context.effects[0], Effect::UpdateCharacter(None)));
    assert!(matches!(context.effects[1], Effect::ApplyCharacter));

    context.effects.clear();
    character_updated(&mut context, Some(9));
    let in_use = context.character.as_ref().unwrap();
    assert!(updates_actions(&context.effects[0], &context));
    assert!(matches!(
        &context.effects[1],
        Effect::UpdateRotatorBuffs(Some(character)) if Rc::ptr_eq(character, in_use)
    ));
    assert!(matches!(
        &context.effects[2],
        Effect::UpdateBuffsEnabled { character, settings }
            if Rc::ptr_eq(character, in_use) && Rc::ptr_eq(settings, &context.settings)
    ));
    assert!(applies_rotator(&context.effects[3], &context));
    assert!(matches!(
        context.effects[4],
        Effect::Respond { to: 9, response: Response::UpdateCharacter }
    ));

    context.effects.clear();
    context.character = None;
    character_updated(&mut context, None);
    assert_eq!(context.effects.len(), 3);
    assert!(updates_actions(&context.effects[0], &context));
    assert!(matches!(context.effects[1], Effect::UpdateRotatorBuffs(None)));
    assert!(applies_rotator(&context.effects[2], &context));
}

#[test]
fn mediator_events() {
    let mut handler = MediatorEventHandler;
    let mut context = event_context(Operation::Running);
    let event = MediatorEvent::UpdateMap(None, None);
    assert_eq!(
        handler.handle(&mut context, event),
        Some(FollowUp::MapUpdated { respond_to: None })
    );
    let event = MediatorEvent::UpdateCharacter(None);
    assert_eq!(
        handler.handle(&mut context, event),
        Some(FollowUp::CharacterUpdated { respond_to: None })
    );
    assert_eq!(context.effects.len(), 4);
    let event = MediatorEvent::Ui { request: Request::KeyReceiver, respond_to: 1 };
    assert_eq!(handler.handle(&mut context, event), None);
    assert!(matches!(
        context.effects[4],
        Effect::Respond { to: 1, response: Response::KeyReceiver }
    ));
}

#[test]
fn windows_are_applied_to_capture_and_input() {
    let mut context = event_context(Operation::Running);
    update_window(&mut context);
    assert!(matches!(context.effects[0], Effect::ApplySelectedWindow));
    assert!(matches!(context.effects[1], Effect::ApplyCaptureMode(CaptureMode::BitBltArea)));
    assert!(matches!(context.effects[2], Effect::ApplyInputWindow(WindowSource::Selected)));
}

#[test]
fn first_subscriber_stays() {
    let mut bus: EventBus<u8> = EventBus::new();
    assert_eq!(bus.emit(EventKind::Operation), None);
    bus.subscribe(EventKind::Operation, 1);
    bus.subscribe(EventKind::Operation, 2);
    bus.subscribe(EventKind::Database, 3);
    assert_eq!(bus.emit(EventKind::Operation), Some(&1));
    assert_eq!(bus.emit(EventKind::Database), Some(&3));
    assert_eq!(bus.emit(EventKind::Input), None);
}

fn world() -> WorldView {
    WorldView {
        player_state: "Idle".to_string(),
        health: Some((5, 10)),
        normal_action: None,
        priority_action: Some("p".to_string()),
        last_known_pos: Some(Point::new(3, 4)),
        last_destinations: Some(vec![Point::new(1, 2)]),
        auto_mob_last_quadrant: Some(Quadrant::BottomRight),
        erda_shower_state: "ready".to_string(),
        minimap: Some(IdleMinimap {
            bbox: Rect::new(0, 0, 2, 1),
            platforms_bound: Some(Rect::new(1, 2, 3, 4)),
            portals: vec![Rect::new(5, 6, 7, 8)],
        }),
        has_frame: true,
    }
}

#[test]
fn states_are_shown_unless_one_waits() {
    let m = map(5);
    assert!(broadcast_state(false, Operation::Running, world(), Some(&m)).is_none());
    let run = Operation::RunUntil { instant: at(2), config: repeat() };
    let state = broadcast_state(true, run, world(), Some(&m)).unwrap();
    assert_eq!(state.position, Some((3, 4)));
    assert_eq!(state.health, Some((5, 10)));
    assert_eq!(state.state, "Idle");
    assert_eq!(state.priority_action.as_deref(), Some("p"));
    assert_eq!(state.destinations, vec![(1, 2)]);
    assert_eq!(state.operation, ShownOperation::RunUntil(at(2)));
    assert_eq!(state.frame, Some(Rect::new(0, 0, 2, 1)));
    assert_eq!(state.platforms_bound, Some(Bound { x: 1, y: 2, width: 3, height: 4 }));
    assert_eq!(state.portals, vec![Bound { x: 5, y: 6, width: 7, height: 8 }]);
    assert_eq!(state.auto_mob_quadrant, Some(BoundQuadrant::BottomRight));
}

#[test]
fn states_without_minimap_frame_or_bound() {
    let mut m = map(5);
    m.auto_mob_platforms_bound = false;
    let state = broadcast_state(true, Operation::Halting, world(), Some(&m)).unwrap();
    assert_eq!(state.platforms_bound, None);
    assert_eq!(state.operation, ShownOperation::Halting);

    let mut w = world();
    w.minimap = None;
    w.last_destinations = None;
    w.last_known_pos = None;
    w.auto_mob_last_quadrant = None;
    let state = broadcast_state(true, Operation::Running, w, None).unwrap();
    assert!(state.destinations.is_empty() && state.portals.is_empty());
    assert_eq!(state.frame, None);
    assert_eq!(state.platforms_bound, None);
    assert_eq!(state.position, None);
    assert_eq!(state.auto_mob_quadrant, None);

    let mut w = world();
    w.has_frame = false;
    let paused = Operation::TemporaryHalting { resume: Duration { nanos: 7 }, config: repeat() };
    let state = broadcast_state(true, paused, w, None).unwrap();
    assert_eq!(state.frame, None);
    assert_eq!(state.operation, ShownOperation::TemporaryHalting(Duration { nanos: 7 }));
    assert_eq!(state.portals.len(), 1);
}

#[test]
fn minimap_pixels_are_reordered() {
    let pixels = vec![[1, 2, 3, 4], [5, 6, 7, 8]];
    let (bytes, width, height) = minimap_frame_from(Rect::new(9, 9, 2, 1), &pixels);
    assert_eq!(bytes, vec![3, 2, 1, 255, 7, 6, 5, 255]);
    assert_eq!((width, height), (2, 1));
}

#[test]
fn recordings_need_a_frame_to_start() {
    let mut service = DebugService::default();
    assert_eq!(service.record_video(false, true), None);
    assert!(!service.is_recording);
    let file = service.record_video(true, true).unwrap();
    assert!(service.is_recording);
    assert_eq!(file.len(), 12);
    assert!(file.ends_with(".mp4"));
    let due = service.poll(true, false);
    assert!(due.write_frame && due.state.is_none());
    assert!(!service.poll(false, false).write_frame);
    service.set_auto_save_rune(true);
    assert_eq!(
        service.poll(false, true).state,
        Some(DebugState { is_recording: true, is_rune_auto_saving: true })
    );
    assert_eq!(service.record_video(true, false), None);
    assert!(!service.is_recording);
}

#[test]
fn frames_are_paced() {
    assert_eq!(frame_pause(30, 0), Some(33_333_333));
    assert_eq!(frame_pause(30, 33_333_333), Some(0));
    assert_eq!(frame_pause(30, 33_333_334), None);
    assert_eq!(frame_pause(1, 1), Some(999_999_999));
}

#[test]
fn spin_test_stops_at_the_first_result() {
    assert!(spin_test_goes_on(SpinTestRound::Calibrating));
    assert!(!spin_test_goes_on(SpinTestRound::Completed));
    assert!(!spin_test_goes_on(SpinTestRound::Failed));
}

#[test]
fn sandbox_runs_with_nothing_seen() {
    let resources = create_sandbox_test_resources();
    assert_eq!(resources.operation, Operation::Running);
    assert!(resources.input.sent.is_empty());
    assert_eq!(resources.tick, 0);
}

fn arrows(spins: [bool; 4]) -> ArrowsComplete {
    ArrowsComplete {
        bboxes: [
            Rect::new(0, 0, 1, 1),
            Rect::new(1, 0, 1, 1),
            Rect::new(2, 0, 1, 1),
            Rect::new(3, 0, 1, 1),
        ],
        spins,
        keys: [KeyKind::Right, KeyKind::Up, KeyKind::Left, KeyKind::Down],
    }
}

#[test]
fn runes_are_labelled_by_key_or_by_spin() {
    let labels = training_labels(&arrows([false; 4]));
    let classes: Vec<u32> = labels.iter().map(|label| label.0).collect();
    assert_eq!(classes, vec![3, 0, 2, 1]);
    let labels = training_labels(&arrows([false, true, false, true]));
    assert_eq!(labels, vec![(0, Rect::new(1, 0, 1, 1)), (0, Rect::new(3, 0, 1, 1))]);
}

#[test]
fn random_names_are_letters_and_digits() {
    let name = random_name();
    assert_eq!(name.len(), 8);
    assert!(name.chars().all(|c| c.is_ascii_alphanumeric()));
    assert_ne!(random_name(), random_name());
}

#[test]
fn saved_runes_are_named() {
    assert_eq!(rune_files("x", false), ("x.png".to_string(), "x.txt".to_string()));
    assert_eq!(rune_files("x", true), ("x_spin.png".to_string(), "x_spin.txt".to_string()));
    let saved = save_rune_for_training(&arrows([true, false, false, false]));
    assert!(saved.image_file.ends_with("_spin.png"));
    assert_eq!(saved.image_file.len(), 8 + 9);
    assert_eq!(saved.label_file[..8], saved.image_file[..8]);
    assert_eq!(saved.labels, vec![(0, Rect::new(0, 0, 1, 1))]);
}

#[test]
fn tracks_are_drawn_with_their_ids() {
    let track = |track_id, tracklet_len| DrawnTrack {
        track_id,
        tracklet_len,
        rect: Rect::new(10, 20, 4, 6),
        kalman_rect: Rect::new(11, 21, 4, 6),
    };
    let tracks = vec![track(7, 1), track(8, 2), track(9, 30)];
    let boxes = track_boxes(&tracks);
    assert_eq!(boxes.len(), 3);
    assert_eq!(boxes[0].text, "Track 7");
    assert_eq!(boxes[0].bbox, Rect::new(11, 21, 4, 6));
    assert_eq!(boxes[0].at, Point::new(11, 11));
    assert_eq!(
        arrow_starts(&tracks),
        vec![(1, Point::new(12, 23)), (2, Point::new(12, 23))]
    );
}

#[test]
fn drawing_positions() {
    assert_eq!(label_position(Rect::new(5, 6, 1, 1)), Point::new(5, -4));
    assert_eq!(mid_point(Rect::new(5, 6, 3, 8)), Point::new(6, 10));
    assert_eq!(
        shifted(&vec![Point::new(1, 2), Point::new(3, 4)], Point::new(10, 20)),
        vec![Point::new(11, 22), Point::new(13, 24)]
    );
    assert!(closes_window(81));
    assert!(!closes_window(80));
}

use bot_core::models::{
    Action, ActionCondition, ActionConfiguration, ActionConfigurationCondition, ActionKey,
    ActionKeyDirection, ActionKeyWith, ActionMove, Bound, CaptureMode, CycleRunStopMode,
    InputMethod, KeyBinding, KeyBindingConfiguration, LinkKeyBinding, MapData, MobbingKey,
    Platform, Position, Preset, Settings,
};
use bot_core::panel::actions::{
    add_action, delete_action, edit_action, export_name, filter_actions,
    find_last_linked_action_index, find_linked_action_range, import_actions, is_same_kind,
    move_action, ActionsPopup, ItemMoveEvent as ActionMoveEvent, PopupContent as ActionContent,
};
use bot_core::panel::configurations::{
    is_toggleable, item_margin, item_texts as configuration_texts, ConfigurationsPopup,
    ItemClickEvent, ItemMoveEvent, ItemToggleEvent, ItemWords, ListEvent,
    PopupContent as ConfigurationContent,
};
use bot_core::panel::duration::{format_hms, parse_hms, DurationField};
use bot_core::panel::platforms::{
    add_platform, delete_platform, edit_platform, is_switch_disabled, item_texts, set_switch,
    update_valid_platform_end, PlatformRecorder, PlatformsPopup, PlatformsSwitch,
    PopupContent as PlatformContent,
};
use bot_core::panel::popup::{
    action_form_title, action_to_mobbing_key, edit_bound_field, edit_platform_field,
    mobbing_key_to_action, platform_form_texts, take_platform_position, BoundField, PlatformField,
};
use bot_core::panel::presets::{
    begin_update, find_preset, finish_update, preset_actions, preset_index, preset_names,
    select_preset, ActionsRequest, ActionsUpdate, AfterStore,
};

fn key(code: u32, condition: ActionCondition) -> Action {
    Action::Key(ActionKey { key: KeyBinding { code }, condition, ..blank_key() })
}

fn blank_key() -> ActionKey {
    ActionKey {
        key: KeyBinding { code: 0 },
        key_hold_millis: 0,
        link_key: LinkKeyBinding::NoLink,
        count: 1,
        position: None,
        condition: ActionCondition::Any,
        direction: ActionKeyDirection::Any,
        with: ActionKeyWith::Any,
        queue_to_front: None,
        wait_before_use_millis: 0,
        wait_before_use_millis_random_range: 0,
        wait_after_use_millis: 0,
        wait_after_use_millis_random_range: 0,
    }
}

const ANY: ActionCondition = ActionCondition::Any;
const ERDA: ActionCondition = ActionCondition::ErdaShowerOffCooldown;
const LINKED: ActionCondition = ActionCondition::Linked;

fn every(millis: u64) -> ActionCondition {
    ActionCondition::EveryMillis(millis)
}

/// Any, linked, linked, Erda, every, linked, Any.
fn mixed() -> Vec<Action> {
    vec![
        key(0, ANY),
        key(1, LINKED),
        key(2, LINKED),
        key(3, ERDA),
        key(4, every(500)),
        key(5, LINKED),
        key(6, ANY),
    ]
}

fn indexes(actions: &Vec<Action>, condition: ActionCondition) -> Vec<usize> {
    filter_actions(actions, condition).into_iter().map(|(_, index)| index).collect()
}

fn codes(actions: &[Action]) -> Vec<u32> {
    actions
        .iter()
        .map(|action| match action {
            Action::Key(key) => key.key.code,
            Action::Move(_) => 1000,
        })
        .collect()
}

#[test]
fn conditions_compare_by_kind() {
    assert!(is_same_kind(every(1), every(2)));
    assert!(is_same_kind(ANY, ANY));
    assert!(!is_same_kind(ANY, LINKED));
    assert!(!is_same_kind(ERDA, every(0)));
}

#[test]
fn actions_change_their_condition_only() {
    let moving = Action::Move(ActionMove {
        position: Position { x: 1, y: 2 },
        condition: ANY,
        wait_after_move_millis: 9,
    });
    let linked = moving.with_condition(LINKED);
    assert_eq!(linked.condition(), LINKED);
    assert_eq!(linked.with_condition(ANY), moving);
}

#[test]
fn linked_ranges() {
    let actions = mixed();
    assert_eq!(find_linked_action_range(&actions, 0), Some((1, 3)));
    assert_eq!(find_linked_action_range(&actions, 3), None);
    assert_eq!(find_linked_action_range(&actions, 4), Some((5, 6)));
    assert_eq!(find_linked_action_range(&actions, 6), None);
    assert_eq!(find_linked_action_range(&actions, 70), None);
    assert_eq!(find_linked_action_range(&vec![], 0), None);
}

#[test]
fn sections_show_every_action_once() {
    let actions = mixed();
    assert_eq!(indexes(&actions, ANY), vec![0, 1, 2, 6]);
    assert_eq!(indexes(&actions, ERDA), vec![3]);
    assert_eq!(indexes(&actions, every(0)), vec![4, 5]);
    assert_eq!(indexes(&actions, LINKED), vec![1, 2, 5]);
    assert_eq!(filter_actions(&actions, ERDA), vec![(key(3, ERDA), 3)]);
}

#[test]
fn stray_linked_actions_are_shown_nowhere() {
    let actions = vec![key(0, LINKED), key(1, ANY)];
    assert_eq!(indexes(&actions, ANY), vec![1]);
    assert_eq!(indexes(&actions, ERDA), Vec::<usize>::new());
}

#[test]
fn last_action_of_a_section() {
    let actions = mixed();
    assert_eq!(find_last_linked_action_index(&actions, ANY), Some(6));
    assert_eq!(find_last_linked_action_index(&actions, every(7)), Some(5));
    assert_eq!(find_last_linked_action_index(&actions, ERDA), Some(3));
    assert_eq!(find_last_linked_action_index(&vec![key(0, ANY)], ERDA), None);
}

#[test]
fn imports_leave_out_stray_actions() {
    let imported = vec![key(7, LINKED), key(8, LINKED), key(9, ERDA), key(10, LINKED)];
    let merged = import_actions(vec![key(0, ANY)], &imported);
    assert_eq!(codes(&merged), vec![0, 9, 10]);
    let all_stray = vec![key(7, LINKED)];
    assert_eq!(codes(&import_actions(vec![key(0, ANY)], &all_stray)), vec![0]);
    assert_eq!(codes(&import_actions(vec![], &mixed())), vec![0, 1, 2, 3, 4, 5, 6]);
}

#[test]
fn added_actions_go_to_their_section() {
    assert_eq!(codes(&add_action(mixed(), key(9, ERDA), ERDA)), vec![0, 1, 2, 3, 4, 5, 6, 9]);
    assert_eq!(
        codes(&add_action(mixed(), key(9, LINKED), every(0))),
        vec![0, 1, 2, 3, 4, 5, 9, 6]
    );
    assert_eq!(codes(&add_action(mixed(), key(9, LINKED), ERDA)), vec![0, 1, 2, 3, 9, 4, 5, 6]);
    assert_eq!(codes(&add_action(vec![key(0, ANY)], key(9, LINKED), ERDA)), vec![0, 9]);
}

#[test]
fn added_linked_action_becomes_last_of_its_section() {
    let added = add_action(mixed(), key(9, LINKED), every(0));
    let section = filter_actions(&added, every(0));
    assert_eq!(section.last().unwrap().0, key(9, LINKED));
    assert_eq!(indexes(&added, ANY), vec![0, 1, 2, 7]);
}

#[test]
fn edits_replace_one_action() {
    let edited = edit_action(mixed(), key(9, ERDA), 3).unwrap();
    assert_eq!(codes(&edited), vec![0, 1, 2, 9, 4, 5, 6]);
    assert!(edit_action(mixed(), key(9, ERDA), 7).is_none());
}

#[test]
fn deleting_a_head_hands_its_condition_on() {
    let left = delete_action(mixed(), 4).unwrap();
    assert_eq!(codes(&left), vec![0, 1, 2, 3, 5, 6]);
    assert_eq!(left[4].condition(), every(500));
    assert_eq!(indexes(&left, every(0)), vec![4]);

    let left = delete_action(mixed(), 0).unwrap();
    assert_eq!(left[0].condition(), ANY);
    assert_eq!(left[1].condition(), LINKED);
    assert_eq!(indexes(&left, ANY), vec![0, 1, 5]);

    let left = delete_action(mixed(), 1).unwrap();
    assert_eq!(left[1].condition(), LINKED);
    let left = delete_action(mixed(), 3).unwrap();
    assert_eq!(left[3], key(4, every(500)));
    assert!(delete_action(mixed(), 7).is_none());
}

#[test]
fn moves_within_a_section() {
    let event = ActionMoveEvent {
        from_index: 0,
        from_condition: ANY,
        to_index_local: 3,
        to_index: 6,
        to_condition: ANY,
    };
    let moved = move_action(mixed(), event);
    assert_eq!(codes(&moved), vec![1, 2, 3, 4, 5, 6, 0]);
    assert_eq!(moved[6].condition(), ANY);
    let back = ActionMoveEvent {
        from_index: 6,
        from_condition: ANY,
        to_index_local: 1,
        to_index: 0,
        to_condition: ANY,
    };
    assert_eq!(move_action(moved, back), mixed());
}

#[test]
fn moves_across_sections_adopt_the_condition() {
    let event = ActionMoveEvent {
        from_index: 2,
        from_condition: LINKED,
        to_index_local: 1,
        to_index: 4,
        to_condition: ERDA,
    };
    let moved = move_action(mixed(), event);
    assert_eq!(codes(&moved), vec![0, 1, 3, 2, 4, 5, 6]);
    assert_eq!(moved[3].condition(), ERDA);

    let first = ActionMoveEvent {
        from_index: 6,
        from_condition: ANY,
        to_index_local: 0,
        to_index: 0,
        to_condition: ANY,
    };
    let mut actions = mixed();
    actions[6] = key(6, LINKED);
    let moved = move_action(actions, first);
    assert_eq!(codes(&moved), vec![6, 0, 1, 2, 3, 4, 5]);
    assert_eq!(moved[0].condition(), ANY);

    let far = ActionMoveEvent { to_index: 99, ..event };
    assert_eq!(codes(&move_action(mixed(), far)), vec![0, 1, 3, 4, 5, 6, 2]);
}

#[test]
fn export_files_are_named_after_the_map() {
    assert_eq!(export_name("Cave"), "Cave.json");
}

#[test]
fn actions_popup_adds_edits_and_copies() {
    let mut popup = ActionsPopup::closed();
    popup.set_open(true);
    popup.click_add(blank_key(), ERDA);
    let offered = Action::Key(ActionKey { condition: ERDA, ..blank_key() });
    assert_eq!(popup.content, ActionContent::Add(offered));
    assert!(popup.linkable(&mixed()));
    assert!(!popup.linkable(&vec![key(0, ANY)]));
    let list = popup.submit(mixed(), key(9, ERDA), ERDA).unwrap();
    assert_eq!(codes(&list), vec![0, 1, 2, 3, 4, 5, 6, 9]);
    assert_eq!(popup, ActionsPopup::closed());

    popup.click_item(key(3, ERDA), 3);
    assert!(!popup.linkable(&mixed()));
    popup.click_item(key(6, ANY), 6);
    assert!(popup.linkable(&mixed()));
    popup.copy();
    assert_eq!(popup.content, ActionContent::Add(key(6, ANY)));
    popup.click_item(key(3, ERDA), 3);
    let list = popup.submit(mixed(), key(8, ANY), ANY).unwrap();
    assert_eq!(codes(&list), vec![0, 1, 2, 8, 4, 5, 6]);
    popup.click_item(key(3, ERDA), 30);
    assert!(popup.submit(mixed(), key(8, ANY), ANY).is_none());
    popup.set_open(true);
    popup.cancel();
    assert_eq!(popup, ActionsPopup::closed());
    assert!(!popup.linkable(&mixed()));
    assert!(popup.submit(mixed(), key(8, ANY), ANY).is_none());
}

fn platform(x_start: i32, x_end: i32, y: i32) -> Platform {
    Platform { x_start, x_end, y }
}

fn map() -> MapData {
    MapData {
        id: Some(5),
        name: "Cave".to_string(),
        paths_id_index: None,
        presets: vec![
            Preset { name: "a".to_string(), actions: vec![key(1, ANY)] },
            Preset { name: "b".to_string(), actions: vec![key(2, ERDA), key(3, LINKED)] },
        ],
        platforms: vec![platform(0, 5, 1), platform(6, 9, 2)],
        rune_platforms_pathing: false,
        rune_platforms_pathing_up_jump_only: false,
        auto_mob_platforms_pathing: false,
        auto_mob_platforms_pathing_up_jump_only: false,
        auto_mob_platforms_bound: false,
    }
}

#[test]
fn platform_ends_lie_right_of_their_starts() {
    let mut p = platform(5, 5, 0);
    update_valid_platform_end(&mut p);
    assert_eq!(p, platform(5, 6, 0));
    let mut p = platform(5, -3, 0);
    update_valid_platform_end(&mut p);
    assert_eq!(p, platform(5, 6, 0));
    let mut p = platform(5, 8, 0);
    update_valid_platform_end(&mut p);
    assert_eq!(p, platform(5, 8, 0));
}

fn binding(code: u32, enabled: bool) -> KeyBindingConfiguration {
    KeyBindingConfiguration { key: KeyBinding { code }, enabled }
}

fn settings() -> Settings {
    Settings {
        cycle_run_stop: CycleRunStopMode::Off,
        cycle_run_duration_millis: 0,
        cycle_stop_duration_millis: 0,
        capture_mode: CaptureMode::BitBlt,
        input_method: InputMethod::Default,
        input_method_rpc_server_url: String::new(),
        platform_start_key: binding(1, true),
        platform_end_key: binding(2, true),
        platform_add_key: binding(3, true),
    }
}

#[test]
fn platforms_are_recorded_with_keys() {
    let s = settings();
    let press = |recorder: &mut PlatformRecorder, code, position| {
        recorder.press(Some(&s), position, KeyBinding { code })
    };
    let mut recorder = PlatformRecorder::new();
    assert_eq!(press(&mut recorder, 3, (0, 0)), Some(platform(0, 1, 0)));
    assert_eq!(press(&mut recorder, 1, (40, 7)), None);
    assert_eq!(recorder.platform, platform(40, 41, 7));
    assert_eq!(press(&mut recorder, 2, (90, 8)), None);
    assert_eq!(press(&mut recorder, 9, (1, 1)), None);
    assert_eq!(press(&mut recorder, 3, (1, 1)), Some(platform(40, 90, 8)));
    assert_eq!(press(&mut recorder, 2, (10, 8)), None);
    assert_eq!(recorder.platform, platform(40, 41, 8));
    assert_eq!(recorder.press(None, (1, 1), KeyBinding { code: 3 }), None);
}

#[test]
fn disabled_bindings_record_nothing() {
    let mut s = settings();
    s.platform_add_key.enabled = false;
    let mut recorder = PlatformRecorder::new();
    assert_eq!(recorder.press(Some(&s), (4, 4), KeyBinding { code: 3 }), None);
    assert_eq!(recorder, PlatformRecorder::new());
}

#[test]
fn platforms_are_added_edited_and_deleted() {
    let edited = add_platform(map(), platform(1, 2, 3));
    assert_eq!(edited.platforms.len(), 3);
    assert_eq!(edited.platforms[2], platform(1, 2, 3));
    assert_eq!(edited.name, "Cave");
    let edited = edit_platform(map(), platform(1, 2, 3), 1).unwrap();
    assert_eq!(edited.platforms, vec![platform(0, 5, 1), platform(1, 2, 3)]);
    assert!(edit_platform(map(), platform(1, 2, 3), 2).is_none());
    let edited = delete_platform(map(), 0);
    assert_eq!(edited.platforms, vec![platform(6, 9, 2)]);
}

#[test]
fn platform_switches() {
    let on = set_switch(map(), PlatformsSwitch::RunePathing, true);
    assert!(on.rune_platforms_pathing);
    assert!(!on.auto_mob_platforms_pathing);
    assert!(set_switch(map(), PlatformsSwitch::RuneUpJumpOnly, true)
        .rune_platforms_pathing_up_jump_only);
    assert!(set_switch(map(), PlatformsSwitch::AutoMobbingPathing, true).auto_mob_platforms_pathing);
    assert!(set_switch(map(), PlatformsSwitch::AutoMobbingUpJumpOnly, true)
        .auto_mob_platforms_pathing_up_jump_only);
    assert!(set_switch(map(), PlatformsSwitch::BoundByPlatforms, true).auto_mob_platforms_bound);
    assert!(is_switch_disabled(&map(), PlatformsSwitch::RuneUpJumpOnly, false));
    assert!(!is_switch_disabled(&on, PlatformsSwitch::RuneUpJumpOnly, false));
    assert!(is_switch_disabled(&on, PlatformsSwitch::AutoMobbingUpJumpOnly, false));
    assert!(!is_switch_disabled(&map(), PlatformsSwitch::RunePathing, false));
    assert!(is_switch_disabled(&map(), PlatformsSwitch::BoundByPlatforms, true));
}

#[test]
fn platforms_popup() {
    let mut popup = PlatformsPopup::closed();
    popup.set_open(true);
    popup.click_add();
    assert!(!popup.modifying());
    assert_eq!(popup.value(), platform(0, 0, 0));
    let edited = popup.submit(map(), platform(8, 2, 4)).unwrap();
    assert_eq!(edited.platforms[2], platform(8, 9, 4));
    assert!(!popup.open);
    popup.click_item(platform(6, 9, 2), 1);
    assert!(popup.modifying());
    assert_eq!(popup.value(), platform(6, 9, 2));
    let edited = popup.submit(map(), platform(7, 9, 2)).unwrap();
    assert_eq!(edited.platforms[1], platform(7, 9, 2));
    popup.click_item(platform(6, 9, 2), 5);
    assert!(popup.submit(map(), platform(7, 9, 2)).is_none());
    popup.set_open(true);
    popup.cancel();
    assert!(!popup.open);
    assert!(matches!(popup.content, PlatformContent::Edit { index: 5, .. }));
}

#[test]
fn platform_texts() {
    let (x, y) = item_texts(&platform(-3, 12, 40));
    assert_eq!(x, "X / -3 - 12");
    assert_eq!(y, "Y / 40");
}

#[test]
fn presets_are_listed_and_looked_up() {
    let m = map();
    let b = "b".to_string();
    let c = "c".to_string();
    assert_eq!(preset_names(Some(&m)), vec!["a", "b"]);
    assert!(preset_names(None).is_empty());
    assert_eq!(codes(&preset_actions(Some(&m), Some(&b))), vec![2, 3]);
    assert!(preset_actions(Some(&m), Some(&c)).is_empty());
    assert!(preset_actions(Some(&m), None).is_empty());
    assert_eq!(preset_index(Some(&m), Some(&b)), Some(1));
    assert_eq!(preset_index(Some(&m), Some(&c)), None);
    assert_eq!(preset_index(None, Some(&b)), None);
    assert_eq!(select_preset(&m, 1), "b");
    assert_eq!(find_preset(&m.presets, &b), Some(1));
}

fn stored(request: ActionsRequest) -> (MapData, AfterStore) {
    match request {
        ActionsRequest::Store { map, then } => (map, then),
        _ => panic!("nothing is stored"),
    }
}

#[test]
fn presets_are_created_and_deleted_again() {
    let created = begin_update(ActionsUpdate::Create("c".to_string()), Some(map()), None);
    let (m, then) = stored(created);
    assert_eq!(preset_names(Some(&m)), vec!["a", "b", "c"]);
    let change = finish_update(then, Some(m)).unwrap();
    assert_eq!(change.choice, Some(Some("c".to_string())));
    assert!(change.pass_on);

    let deleted = begin_update(ActionsUpdate::Delete, Some(change.map), Some("c".to_string()));
    let (m, then) = stored(deleted);
    assert_eq!(preset_names(Some(&m)), vec!["a", "b"]);
    let change = finish_update(then, Some(m)).unwrap();
    assert_eq!(change.choice, Some(Some("a".to_string())));
    assert!(change.pass_on);
}

#[test]
fn preset_names_stay_distinct() {
    let again = begin_update(ActionsUpdate::Create("a".to_string()), Some(map()), None);
    assert!(matches!(again, ActionsRequest::Ignore));

    let mut m = map();
    for name in ["c", "d"] {
        m = stored(begin_update(ActionsUpdate::Create(name.to_string()), Some(m), None)).0;
    }
    let update = ActionsUpdate::Update(vec![key(9, ANY)]);
    m = stored(begin_update(update, Some(m), Some("e".to_string()))).0;
    m = stored(begin_update(ActionsUpdate::Delete, Some(m), Some("b".to_string()))).0;
    assert_eq!(preset_names(Some(&m)), vec!["a", "c", "d", "e"]);
}

#[test]
fn preset_updates_change_one_preset() {
    let request = begin_update(
        ActionsUpdate::Update(vec![key(9, ANY)]),
        Some(map()),
        Some("b".to_string()),
    );
    let (m, then) = stored(request);
    assert_eq!(codes(&m.presets[0].actions), vec![1]);
    assert_eq!(codes(&m.presets[1].actions), vec![9]);
    let change = finish_update(then, Some(m)).unwrap();
    assert!(change.choice.is_none());
    assert!(!change.pass_on);

    let request = begin_update(
        ActionsUpdate::Update(vec![key(9, ANY)]),
        Some(map()),
        Some("z".to_string()),
    );
    assert_eq!(preset_names(Some(&stored(request).0)), vec!["a", "b", "z"]);
}

#[test]
fn preset_updates_without_map_or_choice_are_ignored() {
    assert!(matches!(
        begin_update(ActionsUpdate::Create("c".to_string()), None, None),
        ActionsRequest::Ignore
    ));
    assert!(matches!(
        begin_update(ActionsUpdate::Delete, Some(map()), None),
        ActionsRequest::Ignore
    ));
    assert!(matches!(
        begin_update(ActionsUpdate::Delete, Some(map()), Some("z".to_string())),
        ActionsRequest::Ignore
    ));
    assert!(matches!(
        begin_update(ActionsUpdate::Update(vec![]), Some(map()), None),
        ActionsRequest::Ignore
    ));
    assert!(matches!(begin_update(ActionsUpdate::Choose, None, None), ActionsRequest::PassOn));
}

#[test]
fn maps_that_are_not_stored_change_nothing() {
    let request = begin_update(ActionsUpdate::UpdateMinimap(map()), None, None);
    let (m, then) = stored(request);
    assert_eq!(m.name, "Cave");
    assert!(finish_update(then, None).is_none());
}

#[test]
fn last_deleted_preset_leaves_no_choice() {
    let mut m = map();
    m.presets.pop();
    let request = begin_update(ActionsUpdate::Delete, Some(m), Some("a".to_string()));
    let (m, then) = stored(request);
    assert_eq!(finish_update(then, Some(m)).unwrap().choice, Some(None));
}

#[test]
fn platform_form() {
    let mut p = platform(1, 2, 3);
    edit_platform_field(&mut p, PlatformField::XStart, 9);
    assert_eq!(p, platform(9, 2, 3));
    edit_platform_field(&mut p, PlatformField::Y, 7);
    take_platform_position(&mut p, PlatformField::XEnd, (50, 60));
    assert_eq!(p, platform(9, 50, 7));
    take_platform_position(&mut p, PlatformField::Y, (50, 60));
    assert_eq!(p, platform(9, 50, 60));
    assert_eq!(
        platform_form_texts(true),
        ("Modify platform".to_string(), "Save".to_string())
    );
    assert_eq!(platform_form_texts(false), ("Add platform".to_string(), "Add".to_string()));
}

#[test]
fn bound_form() {
    let mut bound = Bound { x: 1, y: 2, width: 3, height: 4 };
    edit_bound_field(&mut bound, BoundField::X, 10);
    edit_bound_field(&mut bound, BoundField::Y, 20);
    edit_bound_field(&mut bound, BoundField::Width, 30);
    edit_bound_field(&mut bound, BoundField::Height, 40);
    assert_eq!(bound, Bound { x: 10, y: 20, width: 30, height: 40 });
}

#[test]
fn mobbing_keys_survive_the_form() {
    let value = MobbingKey {
        key: KeyBinding { code: 4 },
        key_hold_millis: 5,
        link_key: LinkKeyBinding::Along(KeyBinding { code: 6 }),
        count: 7,
        with: ActionKeyWith::DoubleJump,
        wait_before_millis: 8,
        wait_before_millis_random_range: 9,
        wait_after_millis: 10,
        wait_after_millis_random_range: 11,
    };
    let action = mobbing_key_to_action(value, blank_key());
    match action {
        Action::Key(key) => {
            assert_eq!(key.wait_before_use_millis, 8);
            assert_eq!(key.condition, ANY);
        }
        Action::Move(_) => panic!("not a key"),
    }
    assert_eq!(action_to_mobbing_key(action), Some(value));
    let moving = Action::Move(ActionMove {
        position: Position { x: 0, y: 0 },
        condition: ANY,
        wait_after_move_millis: 0,
    });
    assert_eq!(action_to_mobbing_key(moving), None);
}

#[test]
fn action_form_titles() {
    assert_eq!(action_form_title(true, ANY), "Modify a normal action");
    assert_eq!(action_form_title(false, every(1)), "Add a new every milliseconds action");
    assert_eq!(
        action_form_title(false, ERDA),
        "Add a new Erda Shower off cooldown action"
    );
    assert_eq!(action_form_title(true, LINKED), "Modify a linked action");
}

fn configuration() -> ActionConfiguration {
    ActionConfiguration {
        key: KeyBinding { code: 1 },
        key_hold_millis: 0,
        link_key: LinkKeyBinding::NoLink,
        count: 3,
        condition: ActionConfigurationCondition::EveryMillis(1500),
        with: ActionKeyWith::Stationary,
        wait_before_millis: 0,
        wait_before_millis_random_range: 0,
        wait_after_millis: 0,
        wait_after_millis_random_range: 0,
        enabled: true,
    }
}

fn words() -> ItemWords {
    ItemWords {
        key: "A".to_string(),
        link_key: "B".to_string(),
        every_secs: "1.50".to_string(),
        wait_before_secs: "0.20".to_string(),
        wait_after_secs: "0.30".to_string(),
    }
}

#[test]
fn configuration_item_texts() {
    let mut action = configuration();
    let (keys, rest) = configuration_texts(&action, &words());
    assert_eq!(keys, "A × 3");
    assert_eq!(rest, "⟳ 1.50s / Stationary");

    action.link_key = LinkKeyBinding::Before(KeyBinding { code: 2 });
    action.wait_before_millis = 200;
    action.condition = ActionConfigurationCondition::Linked;
    action.with = ActionKeyWith::DoubleJump;
    let (keys, rest) = configuration_texts(&action, &words());
    assert_eq!(keys, "B ↝ A × 3");
    assert_eq!(rest, "⏱︎ 0.20s - ⏱︎ 0.00s / Double jump");

    action.wait_after_millis = 300;
    action.link_key = LinkKeyBinding::After(KeyBinding { code: 2 });
    let (keys, rest) = configuration_texts(&action, &words());
    assert_eq!(keys, "B ↜ A × 3");
    assert_eq!(rest, "⏱︎ 0.20s - ⏱︎ 0.30s / Double jump");

    action.wait_before_millis = 0;
    action.with = ActionKeyWith::Any;
    action.link_key = LinkKeyBinding::AtTheSame(KeyBinding { code: 2 });
    let (keys, rest) = configuration_texts(&action, &words());
    assert_eq!(keys, "B ↭ A × 3");
    assert_eq!(rest, "⏱︎ 0.00s - ⏱︎ 0.30s / Any");
    action.link_key = LinkKeyBinding::Along(KeyBinding { code: 2 });
    assert_eq!(configuration_texts(&action, &words()).0, "B ↷ A × 3");
}

#[test]
fn linked_configurations_stick_to_the_one_above() {
    let mut action = configuration();
    assert!(is_toggleable(&action));
    assert_eq!(item_margin(action.condition), "mt-2");
    action.condition = ActionConfigurationCondition::Linked;
    assert!(!is_toggleable(&action));
    assert_eq!(item_margin(action.condition), "");
}

#[test]
fn configurations_popup() {
    let mut popup = ConfigurationsPopup::closed();
    assert_eq!(popup.value(), None);
    popup.set_open(true);
    popup.click_add(configuration());
    assert!(!popup.modifying());
    assert!(!popup.can_create_linked_action());
    assert_eq!(popup.value(), Some(configuration()));
    assert_eq!(popup.submit(configuration()), ListEvent::Add(configuration()));
    assert!(!popup.open);

    popup.click_item(configuration(), 0);
    assert!(popup.modifying());
    assert!(!popup.can_create_linked_action());
    popup.click_item(configuration(), 2);
    assert!(popup.can_create_linked_action());
    let mut other = configuration();
    other.count = 9;
    assert_eq!(
        popup.submit(other),
        ListEvent::Click(ItemClickEvent { action: other, index: 2 })
    );
    popup.copy();
    assert_eq!(popup.content, ConfigurationContent::Add(configuration()));
    popup.set_open(true);
    popup.cancel();
    assert!(!popup.open);
}

#[test]
fn list_events_carry_their_places() {
    let toggle = ItemToggleEvent { enabled: true, index: 4 };
    let moved = ItemMoveEvent { from_index: 1, to_index: 2 };
    assert!(toggle.enabled && toggle.index == 4);
    assert_eq!((moved.from_index, moved.to_index), (1, 2));
}

#[test]
fn durations_are_parsed() {
    assert_eq!(parse_hms("01:02:03"), Some(3_723_000));
    assert_eq!(parse_hms("1:2:3"), Some(3_723_000));
    assert_eq!(parse_hms("100:00:00"), Some(360_000_000));
    assert_eq!(parse_hms("00:60:00"), None);
    assert_eq!(parse_hms("00:00:60"), None);
    assert_eq!(parse_hms("00:00"), None);
    assert_eq!(parse_hms("00:00:00:00"), None);
    assert_eq!(parse_hms("aa:00:00"), None);
    assert_eq!(parse_hms(":00:00"), None);
    assert_eq!(parse_hms(""), None);
    assert_eq!(parse_hms("18446744073709551615:00:00"), Some(u64::MAX));
}

#[test]
fn durations_are_written() {
    assert_eq!(format_hms(0), "00:00:00");
    assert_eq!(format_hms(3_723_999), "01:02:03");
    assert_eq!(format_hms(360_000_000), "100:00:00");
}

#[test]
fn durations_are_read_back() {
    for ms in [0u64, 999, 1000, 59_000, 3_600_000, 86_399_999, u64::MAX] {
        assert_eq!(parse_hms(&format_hms(ms)), Some(ms / 1000 * 1000));
    }
}

#[test]
fn duration_field_keeps_what_it_can_read() {
    let mut field = DurationField::new(61_000);
    assert_eq!(field.text, "00:01:01");
    field.input("0:2:5".to_string());
    assert_eq!(field.blur(61_000), Some(125_000));
    assert_eq!(field.text, "00:02:05");
    assert_eq!(field.blur(125_000), Some(125_000));
    assert_eq!(field.text, "00:02:05");
    field.input("soon".to_string());
    assert_eq!(field.blur(125_000), None);
    assert_eq!(field.text, "00:02:05");
    field.show(Some(1000));
    assert_eq!(field.text, "00:00:01");
    field.show(None);
    assert_eq!(field.text, "00:00:01");
}

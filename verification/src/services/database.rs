//! What follows from changes in the database.

use std::rc::Rc;

use vstd::prelude::*;

use crate::clock::Instant;
use crate::models::{CaptureMode, Character, InputMethod, MapData, Settings};
use crate::operation::OperationConfiguration;
use crate::services::input::{
    is_method_of, method_of, spec_window_source, window_source, InputMethodKind, WindowSource,
};
use crate::services::operation::{
    configured, OperationCommand, OperationEvent, OperationService,
};
use crate::services::{share, Effect, Event, EventContext, EventHandler, FollowUp};

verus! {

/// The texts and images of a language, by their handle.
#[derive(Debug, Clone, Copy, PartialEq, Eq, Structural)]
pub struct Localization {
    pub handle: u64,
}

/// A change in the database.
#[derive(Debug)]
pub enum DatabaseEvent {
    MapUpdated(MapData),
    MapDeleted(i64),
    CharacterUpdated(Character),
    CharacterDeleted(i64),
    SettingsUpdated(Settings),
    LocalizationUpdated(Localization),
    NavigationPathsUpdated,
    NavigationPathsDeleted,
}

impl Event for DatabaseEvent {

}

/// The id of the map in use, if it has one.
pub open spec fn map_id(context: EventContext) -> Option<i64> {
    match context.map {
        Some(map) => map.id,
        None => None,
    }
}

/// The id of the character in use, if it has one.
pub open spec fn character_id(context: EventContext) -> Option<i64> {
    match context.character {
        Some(character) => character.id,
        None => None,
    }
}

/// The same preset, by its name.
pub open spec fn same_preset(a: Option<String>, b: Option<Rc<String>>) -> bool {
    match (a, b) {
        (Some(a), Some(b)) => a@ == b@,
        (None, None) => true,
        _ => false,
    }
}

/// What comes out of the database has an id.
pub open spec fn has_id(event: DatabaseEvent) -> bool {
    match event {
        DatabaseEvent::MapUpdated(map) => map.id is Some,
        DatabaseEvent::CharacterUpdated(character) => character.id is Some,
        _ => true,
    }
}

/// Whether `effect` is the one that the change calls for: only what is in use is brought up to date.
pub open spec fn is_called_for(
    context: EventContext,
    event: DatabaseEvent,
    effect: Option<Effect>,
) -> bool {
    match event {
        DatabaseEvent::MapUpdated(map) => if map_id(context) == map.id {
            effect matches Some(Effect::QueueUpdateMap { preset, map: queued }) && queued == Some(
                map,
            ) && same_preset(preset, context.preset)
        } else {
            effect is None
        },
        DatabaseEvent::MapDeleted(id) => if map_id(context) == Some(id) {
            effect matches Some(Effect::QueueUpdateMap { preset, map: queued }) && queued is None
                && same_preset(preset, context.preset)
        } else {
            effect is None
        },
        DatabaseEvent::CharacterUpdated(character) => effect == if character_id(context)
            == character.id {
            Some(Effect::QueueUpdateCharacter(Some(character)))
        } else {
            None
        },
        DatabaseEvent::CharacterDeleted(id) => effect == if character_id(context) == Some(id) {
            Some(Effect::QueueUpdateCharacter(None))
        } else {
            None
        },
        DatabaseEvent::SettingsUpdated(settings) => effect == Some(
            Effect::UpdateSettings(settings),
        ),
        DatabaseEvent::LocalizationUpdated(localization) => effect == Some(
            Effect::UpdateLocalization(localization),
        ),
        DatabaseEvent::NavigationPathsUpdated | DatabaseEvent::NavigationPathsDeleted => effect
            == Some(Effect::MarkNavigatorDirty(true)),
    }
}

/// At most one effect.
pub open spec fn as_effects(effect: Option<Effect>) -> Seq<Effect> {
    match effect {
        Some(effect) => seq![effect],
        None => Seq::empty(),
    }
}

fn preset_in_use(context: &EventContext) -> (preset: Option<String>)
    ensures
        same_preset(preset, context.preset),
{
    match &context.preset {
        Some(preset) => Some((**preset).clone()),
        None => None,
    }
}

fn is_map_in_use(context: &EventContext, id: i64) -> (in_use: bool)
    ensures
        in_use == (map_id(*context) == Some(id)),
{
    match &context.map {
        Some(map) => match map.id {
            Some(current) => current == id,
            None => false,
        },
        None => false,
    }
}

fn is_character_in_use(context: &EventContext, id: i64) -> (in_use: bool)
    ensures
        in_use == (character_id(*context) == Some(id)),
{
    match &context.character {
        Some(character) => match character.id {
            Some(current) => current == id,
            None => false,
        },
        None => false,
    }
}

/// Works out the effect that a change calls for.
pub fn effect_of(context: &EventContext, event: DatabaseEvent) -> (effect: Option<Effect>)
    requires
        has_id(event),
    ensures
        is_called_for(*context, event, effect),
{
    match event {
        DatabaseEvent::MapUpdated(map) => {
            let in_use = match map.id {
                Some(id) => is_map_in_use(context, id),
                None => false,
            };
            if in_use {
                Some(Effect::QueueUpdateMap { preset: preset_in_use(context), map: Some(map) })
            } else {
                None
            }
        },
        DatabaseEvent::MapDeleted(id) => {
            if is_map_in_use(context, id) {
                Some(Effect::QueueUpdateMap { preset: preset_in_use(context), map: None })
            } else {
                None
            }
        },
        DatabaseEvent::CharacterUpdated(character) => {
            let in_use = match character.id {
                Some(id) => is_character_in_use(context, id),
                None => false,
            };
            if in_use {
                Some(Effect::QueueUpdateCharacter(Some(character)))
            } else {
                None
            }
        },
        DatabaseEvent::CharacterDeleted(id) => {
            if is_character_in_use(context, id) {
                Some(Effect::QueueUpdateCharacter(None))
            } else {
                None
            }
        },
        DatabaseEvent::SettingsUpdated(settings) => Some(Effect::UpdateSettings(settings)),
        DatabaseEvent::LocalizationUpdated(localization) => Some(
            Effect::UpdateLocalization(localization),
        ),
        DatabaseEvent::NavigationPathsUpdated | DatabaseEvent::NavigationPathsDeleted => Some(
            Effect::MarkNavigatorDirty(true),
        ),
    }
}

pub struct DatabaseEventHandler;

impl EventHandler<DatabaseEvent> for DatabaseEventHandler {
    open spec fn accepts(&self, context: EventContext, event: DatabaseEvent) -> bool {
        has_id(event)
    }

    fn handle(&mut self, context: &mut EventContext, event: DatabaseEvent) -> (follow_up: Option<
        FollowUp,
    >)
        ensures
            exists|effect: Option<Effect>| #[trigger]
                is_called_for(*old(context), event, effect) && old(context).emits(
                    *final(context),
                    as_effects(effect),
                ),
            follow_up == if event is SettingsUpdated {
                Some(FollowUp::SettingsUpdated)
            } else {
                None
            },
    {
        let follow_up = match event {
            DatabaseEvent::SettingsUpdated(_) => Some(FollowUp::SettingsUpdated),
            _ => None,
        };
        let effect = effect_of(context, event);
        let ghost called_for = effect;
        assert(is_called_for(*context, event, called_for));
        if let Some(effect) = effect {
            context.effects.push(effect);
        }
        assert(old(context).emits(*context, as_effects(called_for)));
        follow_up
    }
}

/// `effects` are the ones that new settings call for, in order.
pub open spec fn settings_effects(settings: Rc<Settings>, effects: Seq<Effect>) -> bool {
    &&& effects.len() == 6
    &&& effects[0] == Effect::UpdateControl(settings)
    &&& effects[1] == Effect::UpdateRotatorFromSettings(settings)
    &&& effects[2] is ApplyRotator
    &&& effects[3] == Effect::ApplyCaptureMode(settings.capture_mode)
    &&& effects[4] == Effect::ApplyInputWindow(spec_window_source(settings.capture_mode))
    &&& effects[5] matches Effect::ApplyInputMethod(method) && is_method_of(method, *settings)
}

/// The effects that were appended on the way from `before` to `after`.
pub open spec fn appended(before: EventContext, after: EventContext) -> Seq<Effect> {
    after.effects@.skip(before.effects@.len() as int)
}

/// Goes on when new settings are in use: the operation is configured anew, and control, rotator,
/// capture and input follow.
pub fn settings_updated(context: &mut EventContext)
    ensures
        settings_effects(old(context).settings, appended(*old(context), *final(context))),
        old(context).changes_operation(
            *final(context),
            appended(*old(context), *final(context)),
        ),
        exists|now: Instant| #[trigger]
            old(context).clock.shows(now) && now.is_reading()
                && final(context).resources.operation == configured(
                old(context).resources.operation,
                <OperationConfiguration as vstd::std_specs::convert::FromSpec<
                    &Settings,
                >>::from_spec(&*old(context).settings),
                now,
            ),
        final(context).operation_service.outbox@ == old(context).operation_service.outbox@.push(
            OperationCommand::Send(OperationEvent::Configuration),
        ),
        final(context).operation_service.pending_halt == old(
            context,
        ).operation_service.pending_halt,
{
    let config = OperationConfiguration::from(&*context.settings);
    context.operation_service.config(&context.clock, &mut context.resources, config);
    let settings = share(&context.settings);
    context.effects.push(Effect::UpdateControl(settings));
    let settings = share(&context.settings);
    context.effects.push(Effect::UpdateRotatorFromSettings(settings));
    context.effects.push(Effect::ApplyRotator);
    update_capture_and_input(context);
    proof {
        assert(context.effects@ =~= old(context).effects@ + appended(*old(context), *context));
    }
}

/// Brings capture and input in line with the settings.
pub fn update_capture_and_input(context: &mut EventContext)
    ensures
        ({
            let effects = appended(*old(context), *final(context));
            &&& old(context).emits(*final(context), effects)
            &&& effects.len() == 3
            &&& effects[0] == Effect::ApplyCaptureMode(old(context).settings.capture_mode)
            &&& effects[1] == Effect::ApplyInputWindow(
                spec_window_source(old(context).settings.capture_mode),
            )
            &&& effects[2] matches Effect::ApplyInputMethod(method) && is_method_of(
                method,
                *old(context).settings,
            )
        }),
{
    let mode = context.settings.capture_mode;
    let method = method_of(&context.settings);
    context.effects.push(Effect::ApplyCaptureMode(mode));
    context.effects.push(Effect::ApplyInputWindow(window_source(mode)));
    context.effects.push(Effect::ApplyInputMethod(method));
    proof {
        assert(context.effects@ =~= old(context).effects@ + appended(*old(context), *context));
    }
}

/// A map that changed in the database is queued for use where it is the one in use, with the preset in
/// use; one that was deleted leaves none in use.
pub proof fn law_map_in_use_is_queued(
    context: &EventContext,
    event: DatabaseEvent,
    effect: Option<Effect>,
)
    requires
        call_ensures(effect_of, (context, event), effect),
        event is MapUpdated || event is MapDeleted,
    ensures
        ({
            let changed = match event {
                DatabaseEvent::MapUpdated(map) => map.id,
                DatabaseEvent::MapDeleted(id) => Some(id),
                _ => None,
            };
            let in_use = match context.map {
                Some(map) => map.id,
                None => None,
            };
            &&& in_use != changed ==> effect is None
            &&& in_use == changed ==> (effect matches Some(Effect::QueueUpdateMap { preset, map }) && {
                &&& event matches DatabaseEvent::MapUpdated(new) ==> map == Some(new)
                &&& event is MapDeleted ==> map is None
                &&& preset is Some <==> context.preset is Some
                &&& preset matches Some(name) ==> name@ == (context.preset->Some_0)@
            })
        }),
{
}

/// A character that changed in the database is queued for use where it is the one in use; one that was
/// deleted leaves none in use.
pub proof fn law_character_in_use_is_queued(
    context: &EventContext,
    event: DatabaseEvent,
    effect: Option<Effect>,
)
    requires
        call_ensures(effect_of, (context, event), effect),
        event is CharacterUpdated || event is CharacterDeleted,
    ensures
        ({
            let changed = match event {
                DatabaseEvent::CharacterUpdated(character) => character.id,
                DatabaseEvent::CharacterDeleted(id) => Some(id),
                _ => None,
            };
            let in_use = match context.character {
                Some(character) => character.id,
                None => None,
            };
            &&& in_use != changed ==> effect is None
            &&& in_use == changed ==> (effect matches Some(Effect::QueueUpdateCharacter(queued)) && {
                &&& event matches DatabaseEvent::CharacterUpdated(new) ==> queued == Some(new)
                &&& event is CharacterDeleted ==> queued is None
            })
        }),
{
}

/// Settings and texts go to their services, and changed ways have the navigator look again.
pub proof fn law_other_changes(
    context: &EventContext,
    event: DatabaseEvent,
    effect: Option<Effect>,
)
    requires
        call_ensures(effect_of, (context, event), effect),
    ensures
        event matches DatabaseEvent::SettingsUpdated(settings) ==> effect == Some(
            Effect::UpdateSettings(settings),
        ),
        event matches DatabaseEvent::LocalizationUpdated(localization) ==> effect == Some(
            Effect::UpdateLocalization(localization),
        ),
        event is NavigationPathsUpdated || event is NavigationPathsDeleted ==> effect == Some(
            Effect::MarkNavigatorDirty(true),
        ),
{
}

/// A change appends the one effect that it calls for, or none, and changes nothing else. Only new
/// settings are gone on with.
pub proof fn law_database_events(
    handler: &mut DatabaseEventHandler,
    context: &mut EventContext,
    event: DatabaseEvent,
    follow_up: Option<FollowUp>,
)
    requires
        call_ensures(DatabaseEventHandler::handle, (handler, context, event), follow_up),
    ensures
        exists|effect: Option<Effect>| #[trigger]
            is_called_for(*old(context), event, effect) && match effect {
                Some(effect) => final(context).effects@ == old(context).effects@.push(effect),
                None => final(context).effects@ == old(context).effects@,
            },
        event is SettingsUpdated ==> follow_up == Some(FollowUp::SettingsUpdated),
        event !is SettingsUpdated ==> follow_up is None,
        final(context).resources == old(context).resources,
        final(context).operation_service == old(context).operation_service,
        final(context).map == old(context).map,
        final(context).settings == old(context).settings,
{
    let effect = choose|effect: Option<Effect>| #[trigger]
        is_called_for(*old(context), event, effect) && old(context).emits(
            *final(context),
            as_effects(effect),
        );
    assert(is_called_for(*old(context), event, effect));
    assert(final(context).effects@ =~= old(context).effects@ + as_effects(effect));
    if effect is Some {
        assert(final(context).effects@ =~= old(context).effects@.push(effect->Some_0));
    }
}

/// New settings configure the operation as at a time that the clock shows, with one event to tell so,
/// and then reach the control, the rotator, the capture and the input, in this order.
pub proof fn law_settings_in_use(context: &mut EventContext)
    requires
        call_ensures(settings_updated, (context,), ()),
    ensures
        ({
            let before = old(context).effects@;
            let effects = final(context).effects@;
            let n = before.len() as int;
            let settings = old(context).settings;
            let config = OperationConfiguration {
                mode: settings.cycle_run_stop,
                run_duration_millis: settings.cycle_run_duration_millis,
                stop_duration_millis: settings.cycle_stop_duration_millis,
            };
            &&& effects.len() == n + 6
            &&& forall|i: int| 0 <= i < n ==> effects[i] == #[trigger] before[i]
            &&& effects[n] == Effect::UpdateControl(settings)
            &&& effects[n + 1] == Effect::UpdateRotatorFromSettings(settings)
            &&& effects[n + 2] == Effect::ApplyRotator
            &&& effects[n + 3] == Effect::ApplyCaptureMode(settings.capture_mode)
            &&& effects[n + 4] is ApplyInputWindow
            &&& effects[n + 5] is ApplyInputMethod
            &&& exists|now: Instant| #[trigger]
                old(context).clock.shows(now) && final(context).resources.operation == configured(
                    old(context).resources.operation,
                    config,
                    now,
                )
            &&& final(context).operation_service.outbox@ == old(
                context,
            ).operation_service.outbox@.push(OperationCommand::Send(OperationEvent::Configuration))
            &&& final(context).operation_service.pending_halt == old(
                context
            ).operation_service.pending_halt
            &&& final(context).settings == old(context).settings
        }),
{
    let all = appended(*old(context), *final(context));
    let n = old(context).effects@.len() as int;
    assert forall|k: int| 0 <= k < 6 implies final(context).effects@[n + k] == #[trigger] all[k] by {}
    assert(all[0] == final(context).effects@[n]);
    assert(all[1] == final(context).effects@[n + 1]);
    assert(all[2] == final(context).effects@[n + 2]);
    assert(all[3] == final(context).effects@[n + 3]);
    assert(all[4] == final(context).effects@[n + 4]);
    assert(all[5] == final(context).effects@[n + 5]);
}

/// The capture gets the mode of the settings. A captured area gets its input where the capture is and
/// in the foreground; a captured window gets it where it was selected and while it is focused. It goes
/// directly, or through the server at the address of the settings.
pub proof fn law_capture_and_input_in_use(context: &mut EventContext)
    requires
        call_ensures(update_capture_and_input, (context,), ()),
    ensures
        ({
            let before = old(context).effects@;
            let effects = final(context).effects@;
            let n = before.len() as int;
            let settings = old(context).settings;
            let area = settings.capture_mode == CaptureMode::BitBltArea;
            let url = settings.input_method_rpc_server_url@;
            &&& effects.len() == n + 3
            &&& forall|i: int| 0 <= i < n ==> effects[i] == #[trigger] before[i]
            &&& effects[n] == Effect::ApplyCaptureMode(settings.capture_mode)
            &&& area ==> effects[n + 1] == Effect::ApplyInputWindow(WindowSource::Capture)
            &&& !area ==> effects[n + 1] == Effect::ApplyInputWindow(WindowSource::Selected)
            &&& effects[n + 2] matches Effect::ApplyInputMethod(method) && match settings.input_method {
                InputMethod::Default => if area {
                    method is ForegroundDefault
                } else {
                    method is FocusedDefault
                },
                InputMethod::Rpc => if area {
                    method matches InputMethodKind::ForegroundRpc(to) && to@ == url
                } else {
                    method matches InputMethodKind::FocusedRpc(to) && to@ == url
                },
            }
        }),
{
    let all = appended(*old(context), *final(context));
    let n = old(context).effects@.len() as int;
    assert(all[0] == final(context).effects@[n]);
    assert(all[1] == final(context).effects@[n + 1]);
    assert(all[2] == final(context).effects@[n + 2]);
}

} // verus!

//! Handling of events: each handler decides what is to be done and hands it back as effects.
//!
//! Services that act on the outside (the rotator, the navigator, the capture and so on) are not held
//! here. What is known of them when an event arrives stands in an [`EventContext`], and what they
//! are to do goes into its list of effects, in order.

use std::collections::HashMap;
use std::rc::Rc;

use vstd::prelude::*;

use crate::clock::Clock;
use crate::models::{CaptureMode, Character, MapData, Settings};
use crate::player::PlayerAction;
use crate::resources::Resources;
use crate::services::database::Localization;
use crate::services::input::{InputMethodKind, WindowSource};
use crate::services::mediator::{Response, UiTask};
use crate::services::operation::DefaultOperationService;

pub mod database;
pub mod debug;
pub mod input;
pub mod mediator;
pub mod operation;

verus! {

/// Something that happened.
pub trait Event {

}

/// Handles the events of one type.
pub trait EventHandler<E: Event> {
    /// What holds of an event and its context whenever it is handled.
    spec fn accepts(&self, context: EventContext, event: E) -> bool;

    /// Appends to `context` what is to be done. Where more is to be done once that is carried out,
    /// returns how to go on.
    fn handle(&mut self, context: &mut EventContext, event: E) -> (follow_up: Option<FollowUp>)
        requires
            old(self).accepts(*old(context), event),
    ;
}

/// How to go on when the effects so far are carried out and the context was brought up to date.
#[derive(Debug, Clone, Copy, PartialEq, Eq, Structural)]
pub enum FollowUp {
    SettingsUpdated,
    /// Another map is in use. A request that asked for it is still to be answered.
    MapUpdated { respond_to: Option<u64> },
    /// Another character is in use. A request that asked for it is still to be answered.
    CharacterUpdated { respond_to: Option<u64> },
}

/// Something that a service is to do.
#[derive(Debug)]
#[allow(inconsistent_fields)]
pub enum Effect {
    QueueUpdateMap { preset: Option<String>, map: Option<MapData> },
    QueueUpdateCharacter(Option<Character>),
    UpdateMapPreset { map: Option<MapData>, preset: Option<String> },
    ApplyMap,
    RedetectMinimap,
    UpdateCharacter(Option<Character>),
    ApplyCharacter,
    UpdateSettings(Settings),
    UpdateLocalization(Localization),
    /// Reads the control settings anew.
    UpdateControl(Rc<Settings>),
    ResetRotatorQueue,
    InjectAction(PlayerAction),
    UpdateRotatorFromSettings(Rc<Settings>),
    UpdateRotatorActions {
        map: Option<Rc<MapData>>,
        preset: Option<Rc<String>>,
        character: Option<Rc<Character>>,
    },
    UpdateRotatorBuffs(Option<Rc<Character>>),
    /// Brings the rotator in line with what it was last told.
    ApplyRotator,
    /// Brings the rotator in line with what it was last told, for what is in use.
    ApplyRotatorFor {
        map: Option<Rc<MapData>>,
        character: Option<Rc<Character>>,
        settings: Rc<Settings>,
    },
    /// Has every buff look up anew whether it is enabled.
    UpdateBuffsEnabled { character: Rc<Character>, settings: Rc<Settings> },
    /// Aborts all actions of the player, with the given flag.
    ClearActionsAborted(bool),
    MarkNavigatorDirty(bool),
    MarkNavigatorDirtyWithDestination(Option<(i64, usize)>),
    ApplyCaptureMode(CaptureMode),
    UpdateWindows,
    SelectWindow(Option<usize>),
    ApplySelectedWindow,
    ApplyInputWindow(WindowSource),
    ApplyInputMethod(InputMethodKind),
    /// Does something that the user asked for.
    Ui(UiTask),
    /// Answers request number `to` of the user interface.
    Respond { to: u64, response: Response },
}

/// What is known when an event is handled, and what is to be done about it.
#[derive(Debug)]
pub struct EventContext {
    pub clock: Clock,
    pub resources: Resources,
    pub operation_service: DefaultOperationService,
    /// The map in use.
    pub map: Option<Rc<MapData>>,
    /// The preset in use.
    pub preset: Option<Rc<String>>,
    /// The character in use.
    pub character: Option<Rc<Character>>,
    pub settings: Rc<Settings>,
    /// Whether the navigator found its last point available, or completed it.
    pub navigator_reached_last_point: bool,
    pub effects: Vec<Effect>,
}

impl EventContext {
    /// `after` differs from this context only by `effects` appended.
    pub open spec fn emits(self, after: EventContext, effects: Seq<Effect>) -> bool {
        &&& after.effects@ =~= self.effects@ + effects
        &&& after == (EventContext { effects: after.effects, ..self })
    }

    /// `after` differs from this context only by `effects` appended, in the operation and in what
    /// the operation service has sent.
    pub open spec fn changes_operation(self, after: EventContext, effects: Seq<Effect>) -> bool {
        &&& after.effects@ =~= self.effects@ + effects
        &&& after == (EventContext {
            effects: after.effects,
            resources: Resources { operation: after.resources.operation, ..self.resources },
            operation_service: after.operation_service,
            ..self
        })
    }
}

/// Wraps [`Rc::clone`], which gives another handle to the same value.
#[verifier::external_body]
pub(crate) fn share<T>(value: &Rc<T>) -> (shared: Rc<T>)
    ensures
        shared == *value,
{
    Rc::clone(value)
}

pub(crate) fn share_some<T>(value: &Option<Rc<T>>) -> (shared: Option<Rc<T>>)
    ensures
        shared == *value,
{
    match value {
        Some(value) => Some(share(value)),
        None => None,
    }
}

/// The types of events there are.
#[derive(Debug, Clone, Copy, PartialEq, Eq, Structural)]
pub enum EventKind {
    Mediator,
    Database,
    Control,
    World,
    Operation,
    Input,
}

impl EventKind {
    pub open spec fn spec_code(self) -> u64 {
        match self {
            EventKind::Mediator => 0,
            EventKind::Database => 1,
            EventKind::Control => 2,
            EventKind::World => 3,
            EventKind::Operation => 4,
            EventKind::Input => 5,
        }
    }

    fn code(self) -> (code: u64)
        ensures
            code == self.spec_code(),
    {
        match self {
            EventKind::Mediator => 0,
            EventKind::Database => 1,
            EventKind::Control => 2,
            EventKind::World => 3,
            EventKind::Operation => 4,
            EventKind::Input => 5,
        }
    }
}

/// Finds the handler of an event by its type.
#[verifier::reject_recursive_types(H)]
pub struct EventBus<H> {
    handlers: HashMap<u64, H>,
}

impl<H> EventBus<H> {
    /// The handler of the events of type `kind`, if one subscribed.
    pub closed spec fn subscriber(self, kind: EventKind) -> Option<H> {
        if self.handlers@.contains_key(kind.spec_code()) {
            Some(self.handlers@[kind.spec_code()])
        } else {
            None
        }
    }

    /// A bus without handlers.
    pub fn new() -> (bus: EventBus<H>)
        ensures
            forall|kind: EventKind| (#[trigger] bus.subscriber(kind)) is None,
    {
        broadcast use vstd::std_specs::hash::group_hash_axioms;

        EventBus { handlers: HashMap::new() }
    }

    /// Makes `handler` handle the events of type `kind`. The first one to subscribe stays.
    pub fn subscribe(&mut self, kind: EventKind, handler: H)
        ensures
            final(self).subscriber(kind) == match old(self).subscriber(kind) {
                Some(first) => Some(first),
                None => Some(handler),
            },
            forall|other: EventKind|
                other != kind ==> (#[trigger] final(self).subscriber(other)) == old(
                    self,
                ).subscriber(other),
    {
        broadcast use vstd::std_specs::hash::group_hash_axioms;

        if !self.handlers.contains_key(&kind.code()) {
            self.handlers.insert(kind.code(), handler);
        }
    }

    /// The handler that an event of type `kind` goes to. Without one the event is dropped.
    pub fn emit(&self, kind: EventKind) -> (handler: Option<&H>)
        ensures
            match handler {
                Some(handler) => self.subscriber(kind) == Some(*handler),
                None => self.subscriber(kind) is None,
            },
    {
        broadcast use vstd::std_specs::hash::group_hash_axioms;

        self.handlers.get(&kind.code())
    }
}

/// Every type of event has a place of its own on the bus.
pub proof fn law_event_kinds_are_distinct(a: EventKind, b: EventKind)
    ensures
        a.spec_code() == b.spec_code() <==> a == b,
{
}

/// On a new bus no event has a handler.
pub proof fn law_new_bus<H>(bus: EventBus<H>, kind: EventKind, handler: Option<&H>)
    requires
        call_ensures(EventBus::<H>::new, (), bus),
        call_ensures(EventBus::<H>::emit, (&bus, kind), handler),
    ensures
        handler is None,
{
    assert(bus.subscriber(kind) is None);
}

/// The first handler that subscribes to a type of events gets them, also after others subscribe, and
/// events of other types go where they went before.
pub proof fn law_first_subscriber_stays<H>(
    bus: &mut EventBus<H>,
    kind: EventKind,
    handler: H,
    other: EventKind,
    before: Option<&H>,
    after: Option<&H>,
)
    requires
        call_ensures(EventBus::<H>::subscribe, (bus, kind, handler), ()),
        call_ensures(EventBus::<H>::emit, (&*old(bus), other), before),
        call_ensures(EventBus::<H>::emit, (&*final(bus), other), after),
    ensures
        before is Some ==> after is Some && *after->Some_0 == *before->Some_0,
        before is None && other == kind ==> after is Some && *after->Some_0 == handler,
        before is None && other != kind ==> after is None,
{
    if other != kind {
        assert(final(bus).subscriber(other) == old(bus).subscriber(other));
    }
}

} // verus!

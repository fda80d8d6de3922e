//! Requests of the user interface, and the state that is shown there.

use vstd::prelude::*;

use crate::clock::{Duration, Instant};
use crate::geometry::{Point, Rect};
use crate::models::{Bound, Character, MapData};
use crate::operation::Operation;
use crate::services::input::WindowSource;
use crate::services::operation::{
    can_resume, updated, OperationCommand, OperationEvent, OperationService, OperationUpdate,
};
use crate::services::{
    share, share_some, Effect, Event, EventContext, EventHandler, FollowUp,
};

verus! {

/// A recorded way from one map to another, by its handle.
#[derive(Debug, Clone, Copy, PartialEq, Eq, Structural)]
pub struct NavigationPath {
    pub handle: u64,
}

/// An image that detections look for, by its handle.
#[derive(Debug, Clone, Copy, PartialEq, Eq, Structural)]
pub struct DetectionTemplate {
    pub handle: u32,
}

/// A request of the user interface.
#[derive(Debug)]
pub enum Request {
    UpdateOperation(OperationUpdate),
    CreateMap(String),
    UpdateMap(Option<String>, Option<MapData>),
    CreateNavigationPath,
    RecaptureNavigationPath(NavigationPath),
    NavigationSnapshotAsGrayscale(String),
    UpdateCharacter(Option<Character>),
    RedetectMinimap,
    StateReceiver,
    KeyReceiver,
    RefreshCaptureHandles,
    QueryCaptureHandles,
    SelectCaptureHandle(Option<usize>),
    QueryTemplate(DetectionTemplate),
    ConvertImageToBase64(Vec<u8>, bool),
    SaveCaptureImage(bool),
    DebugStateReceiver,
    AutoSaveRune(bool),
    InferRune,
    InferMinimap,
    RecordImages(bool),
    TestSpinRune,
}

/// How an image is read.
#[derive(Debug, Clone, Copy, PartialEq, Eq, Structural)]
pub enum ImageColor {
    Grayscale,
    Color,
}

/// The answer to a request. Where it holds a value that a service provides, it names what the service
/// is asked for.
#[derive(Debug)]
pub enum Response {
    UpdateOperation,
    /// The map that the map service creates under this name, if it does.
    CreateMap(String),
    UpdateMap,
    /// The path that the navigator service creates, if it does.
    CreateNavigationPath,
    /// What the navigator service makes of this path.
    RecaptureNavigationPath(NavigationPath),
    /// What the navigator service makes of this image.
    NavigationSnapshotAsGrayscale(String),
    UpdateCharacter,
    RedetectMinimap,
    /// A receiver of states from the mediator service.
    StateReceiver,
    /// A receiver of keys from the input service.
    KeyReceiver,
    RefreshCaptureHandles,
    /// The names of the windows and the selected one, from the capture service.
    QueryCaptureHandles,
    SelectCaptureHandle,
    /// This template, from the localization service.
    QueryTemplate(DetectionTemplate),
    /// This image, read in this way and encoded, if it can be.
    ConvertImageToBase64(Vec<u8>, ImageColor),
    SaveCaptureImage,
    /// A receiver of states from the debug service.
    DebugStateReceiver,
    AutoSaveRune,
    InferRune,
    InferMinimap,
    RecordImages,
    TestSpinRune,
}

/// Something that the user asked for and that no other effect stands for.
#[derive(Debug, Clone, Copy, PartialEq, Eq, Structural)]
pub enum UiTask {
    SaveCaptureImage { is_grayscale: bool },
    SetAutoSaveRune(bool),
    InferRune,
    InferMinimap,
    RecordImages(bool),
    TestSpinRune,
}

#[derive(Debug)]
pub enum MediatorEvent {
    /// A request, to be answered under its number.
    Ui { request: Request, respond_to: u64 },
    UpdateMap(Option<String>, Option<MapData>),
    UpdateCharacter(Option<Character>),
}

impl Event for MediatorEvent {

}

/// The answer to `request`.
pub open spec fn response_to(request: Request) -> Response {
    match request {
        Request::UpdateOperation(_) => Response::UpdateOperation,
        Request::CreateMap(name) => Response::CreateMap(name),
        Request::UpdateMap(_, _) => Response::UpdateMap,
        Request::CreateNavigationPath => Response::CreateNavigationPath,
        Request::RecaptureNavigationPath(path) => Response::RecaptureNavigationPath(path),
        Request::NavigationSnapshotAsGrayscale(image) =>
            Response::NavigationSnapshotAsGrayscale(image),
        Request::UpdateCharacter(_) => Response::UpdateCharacter,
        Request::RedetectMinimap => Response::RedetectMinimap,
        Request::StateReceiver => Response::StateReceiver,
        Request::KeyReceiver => Response::KeyReceiver,
        Request::RefreshCaptureHandles => Response::RefreshCaptureHandles,
        Request::QueryCaptureHandles => Response::QueryCaptureHandles,
        Request::SelectCaptureHandle(_) => Response::SelectCaptureHandle,
        Request::QueryTemplate(template) => Response::QueryTemplate(template),
        Request::ConvertImageToBase64(image, is_grayscale) => Response::ConvertImageToBase64(
            image,
            if is_grayscale {
                ImageColor::Grayscale
            } else {
                ImageColor::Color
            },
        ),
        Request::SaveCaptureImage(_) => Response::SaveCaptureImage,
        Request::DebugStateReceiver => Response::DebugStateReceiver,
        Request::AutoSaveRune(_) => Response::AutoSaveRune,
        Request::InferRune => Response::InferRune,
        Request::InferMinimap => Response::InferMinimap,
        Request::RecordImages(_) => Response::RecordImages,
        Request::TestSpinRune => Response::TestSpinRune,
    }
}

/// Selects a window and has input follow.
pub open spec fn selecting(index: Option<usize>) -> Seq<Effect> {
    seq![
        Effect::SelectWindow(index),
        Effect::ApplySelectedWindow,
        Effect::ApplyInputWindow(WindowSource::Selected),
    ]
}

/// What is to be done before `request` can be answered.
pub open spec fn request_effects(request: Request) -> Seq<Effect> {
    match request {
        Request::UpdateMap(preset, map) => seq![
            Effect::UpdateMapPreset { map, preset },
            Effect::ApplyMap,
        ],
        Request::UpdateCharacter(character) => seq![
            Effect::UpdateCharacter(character),
            Effect::ApplyCharacter,
        ],
        Request::RedetectMinimap => seq![
            Effect::RedetectMinimap,
            Effect::MarkNavigatorDirty(true),
        ],
        Request::RefreshCaptureHandles => seq![Effect::UpdateWindows] + selecting(None),
        Request::SelectCaptureHandle(index) => selecting(index),
        Request::SaveCaptureImage(is_grayscale) => seq![
            Effect::Ui(UiTask::SaveCaptureImage { is_grayscale }),
        ],
        Request::AutoSaveRune(auto_save) => seq![Effect::Ui(UiTask::SetAutoSaveRune(auto_save))],
        Request::InferRune => seq![Effect::Ui(UiTask::InferRune)],
        Request::InferMinimap => seq![Effect::Ui(UiTask::InferMinimap)],
        Request::RecordImages(start) => seq![Effect::Ui(UiTask::RecordImages(start))],
        Request::TestSpinRune => seq![Effect::Ui(UiTask::TestSpinRune)],
        _ => Seq::empty(),
    }
}

/// How the handling of `request` goes on, where it does: only later is it answered.
pub open spec fn request_follow_up(request: Request, respond_to: u64) -> Option<FollowUp> {
    match request {
        Request::UpdateMap(_, _) => Some(FollowUp::MapUpdated { respond_to: Some(respond_to) }),
        Request::UpdateCharacter(_) => Some(
            FollowUp::CharacterUpdated { respond_to: Some(respond_to) },
        ),
        _ => None,
    }
}

/// Everything appended when `request` is handled.
pub open spec fn handling_effects(request: Request, respond_to: u64) -> Seq<Effect> {
    if request_follow_up(request, respond_to) is Some {
        request_effects(request)
    } else {
        request_effects(request).push(
            Effect::Respond { to: respond_to, response: response_to(request) },
        )
    }
}

/// Whether the bot can be operated: a map and a character are in use.
pub open spec fn operable(context: EventContext) -> bool {
    context.map is Some && context.character is Some
}

/// `after` is `before` with `update` applied to the operation, where it can be operated.
pub open spec fn operates(
    before: EventContext,
    after: EventContext,
    update: OperationUpdate,
) -> bool {
    if operable(before) {
        &&& exists|now: Instant| #[trigger]
            before.clock.shows(now) && now.is_reading() && after.resources.operation == updated(
                before.resources.operation,
                update,
                now,
            )
        &&& after.operation_service.outbox@ == before.operation_service.outbox@.push(
            OperationCommand::Send(OperationEvent::Update),
        )
        &&& after.operation_service.pending_halt == before.operation_service.pending_halt
    } else {
        &&& after.resources.operation == before.resources.operation
        &&& after.operation_service == before.operation_service
    }
}

/// Applies `update` to the operation, unless there is no map or no character.
pub fn update_operation(context: &mut EventContext, update: OperationUpdate)
    requires
        update is Run ==> can_resume(old(context).resources.operation),
    ensures
        operates(*old(context), *final(context), update),
        old(context).changes_operation(*final(context), Seq::empty()),
{
    if context.map.is_none() || context.character.is_none() {
        return;
    }
    context.operation_service.update(&context.clock, &mut context.resources, update);
}

/// Takes another map or preset into use.
pub fn update_map(
    context: &mut EventContext,
    preset: Option<String>,
    map: Option<MapData>,
    respond_to: Option<u64>,
) -> (follow_up: FollowUp)
    ensures
        follow_up == (FollowUp::MapUpdated { respond_to }),
        old(context).emits(
            *final(context),
            seq![Effect::UpdateMapPreset { map, preset }, Effect::ApplyMap],
        ),
{
    context.effects.push(Effect::UpdateMapPreset { map, preset });
    context.effects.push(Effect::ApplyMap);
    FollowUp::MapUpdated { respond_to }
}

/// Takes another character into use.
pub fn update_character(
    context: &mut EventContext,
    character: Option<Character>,
    respond_to: Option<u64>,
) -> (follow_up: FollowUp)
    ensures
        follow_up == (FollowUp::CharacterUpdated { respond_to }),
        old(context).emits(
            *final(context),
            seq![Effect::UpdateCharacter(character), Effect::ApplyCharacter],
        ),
{
    context.effects.push(Effect::UpdateCharacter(character));
    context.effects.push(Effect::ApplyCharacter);
    FollowUp::CharacterUpdated { respond_to }
}

/// The answer that is still owed, if any.
pub open spec fn answering(respond_to: Option<u64>, response: Response) -> Seq<Effect> {
    match respond_to {
        Some(to) => seq![Effect::Respond { to, response }],
        None => Seq::empty(),
    }
}

/// The rotator takes its actions from the map, the preset and the character in use.
pub open spec fn rotator_actions(context: EventContext) -> Effect {
    Effect::UpdateRotatorActions {
        map: context.map,
        preset: context.preset,
        character: context.character,
    }
}

/// The rotator is applied to the map, the character and the settings in use.
pub open spec fn rotator_applied(context: EventContext) -> Effect {
    Effect::ApplyRotatorFor {
        map: context.map,
        character: context.character,
        settings: context.settings,
    }
}

fn update_rotator_actions(context: &mut EventContext)
    ensures
        old(context).emits(*final(context), seq![rotator_actions(*old(context))]),
{
    let map = share_some(&context.map);
    let preset = share_some(&context.preset);
    let character = share_some(&context.character);
    context.effects.push(Effect::UpdateRotatorActions { map, preset, character });
}

fn apply_rotator(context: &mut EventContext)
    ensures
        old(context).emits(*final(context), seq![rotator_applied(*old(context))]),
{
    let map = share_some(&context.map);
    let character = share_some(&context.character);
    let settings = share(&context.settings);
    context.effects.push(Effect::ApplyRotatorFor { map, character, settings });
}

/// Goes on when another map is in use: the rotator follows, and the navigator heads for it.
pub fn map_updated(context: &mut EventContext, respond_to: Option<u64>)
    ensures
        old(context).emits(
            *final(context),
            seq![
                rotator_actions(*old(context)),
                rotator_applied(*old(context)),
                Effect::MarkNavigatorDirtyWithDestination(
                    match old(context).map {
                        Some(map) => map.paths_id_index,
                        None => None,
                    },
                ),
            ] + answering(respond_to, Response::UpdateMap),
        ),
{
    let destination = match &context.map {
        Some(map) => map.paths_id_index,
        None => None,
    };
    update_rotator_actions(context);
    apply_rotator(context);
    context.effects.push(Effect::MarkNavigatorDirtyWithDestination(destination));
    if let Some(to) = respond_to {
        context.effects.push(Effect::Respond { to, response: Response::UpdateMap });
    }
}

/// What follows from another character: its buffs are looked up where there is one.
pub open spec fn character_effects(context: EventContext) -> Seq<Effect> {
    match context.character {
        Some(character) => seq![
            rotator_actions(context),
            Effect::UpdateRotatorBuffs(context.character),
            Effect::UpdateBuffsEnabled { character, settings: context.settings },
            rotator_applied(context),
        ],
        None => seq![
            rotator_actions(context),
            Effect::UpdateRotatorBuffs(None),
            rotator_applied(context),
        ],
    }
}

/// Goes on when another character is in use.
pub fn character_updated(context: &mut EventContext, respond_to: Option<u64>)
    ensures
        old(context).emits(
            *final(context),
            character_effects(*old(context)) + answering(
                respond_to,
                Response::UpdateCharacter,
            ),
        ),
{
    update_rotator_actions(context);
    let character = share_some(&context.character);
    context.effects.push(Effect::UpdateRotatorBuffs(character));
    if let Some(character) = share_some(&context.character) {
        let settings = share(&context.settings);
        context.effects.push(Effect::UpdateBuffsEnabled { character, settings });
    }
    apply_rotator(context);
    if let Some(to) = respond_to {
        context.effects.push(Effect::Respond { to, response: Response::UpdateCharacter });
    }
}

fn select_capture_handle(context: &mut EventContext, index: Option<usize>)
    ensures
        old(context).emits(*final(context), selecting(index)),
{
    context.effects.push(Effect::SelectWindow(index));
    context.effects.push(Effect::ApplySelectedWindow);
    context.effects.push(Effect::ApplyInputWindow(WindowSource::Selected));
}

/// Handles a request of the user interface.
pub fn handle_ui_request(context: &mut EventContext, request: Request, respond_to: u64) -> (follow_up:
    Option<FollowUp>)
    requires
        request matches Request::UpdateOperation(update) ==> update is Run ==> can_resume(
            old(context).resources.operation,
        ),
    ensures
        follow_up == request_follow_up(request, respond_to),
        old(context).changes_operation(
            *final(context),
            handling_effects(request, respond_to),
        ),
        match request {
            Request::UpdateOperation(update) => operates(*old(context), *final(context), update),
            _ => old(context).emits(*final(context), handling_effects(request, respond_to)),
        },
{
    let response = match request {
        Request::UpdateOperation(update) => {
            update_operation(context, update);
            Response::UpdateOperation
        },
        Request::CreateMap(name) => Response::CreateMap(name),
        Request::UpdateMap(preset, map) => {
            return Some(update_map(context, preset, map, Some(respond_to)));
        },
        Request::CreateNavigationPath => Response::CreateNavigationPath,
        Request::RecaptureNavigationPath(path) => Response::RecaptureNavigationPath(path),
        Request::NavigationSnapshotAsGrayscale(base64) => Response::NavigationSnapshotAsGrayscale(
            base64,
        ),
        Request::UpdateCharacter(character) => {
            return Some(update_character(context, character, Some(respond_to)));
        },
        Request::RedetectMinimap => {
            context.effects.push(Effect::RedetectMinimap);
            context.effects.push(Effect::MarkNavigatorDirty(true));
            Response::RedetectMinimap
        },
        Request::StateReceiver => Response::StateReceiver,
        Request::KeyReceiver => Response::KeyReceiver,
        Request::RefreshCaptureHandles => {
            context.effects.push(Effect::UpdateWindows);
            select_capture_handle(context, None);
            Response::RefreshCaptureHandles
        },
        Request::QueryCaptureHandles => Response::QueryCaptureHandles,
        Request::SelectCaptureHandle(index) => {
            select_capture_handle(context, index);
            Response::SelectCaptureHandle
        },
        Request::QueryTemplate(template) => Response::QueryTemplate(template),
        Request::ConvertImageToBase64(image, is_grayscale) => {
            let color = if is_grayscale {
                ImageColor::Grayscale
            } else {
                ImageColor::Color
            };
            Response::ConvertImageToBase64(image, color)
        },
        Request::SaveCaptureImage(is_grayscale) => {
            context.effects.push(Effect::Ui(UiTask::SaveCaptureImage { is_grayscale }));
            Response::SaveCaptureImage
        },
        Request::DebugStateReceiver => Response::DebugStateReceiver,
        Request::AutoSaveRune(auto_save) => {
            context.effects.push(Effect::Ui(UiTask::SetAutoSaveRune(auto_save)));
            Response::AutoSaveRune
        },
        Request::InferRune => {
            context.effects.push(Effect::Ui(UiTask::InferRune));
            Response::InferRune
        },
        Request::InferMinimap => {
            context.effects.push(Effect::Ui(UiTask::InferMinimap));
            Response::InferMinimap
        },
        Request::RecordImages(start) => {
            context.effects.push(Effect::Ui(UiTask::RecordImages(start)));
            Response::RecordImages
        },
        Request::TestSpinRune => {
            context.effects.push(Effect::Ui(UiTask::TestSpinRune));
            Response::TestSpinRune
        },
    };
    context.effects.push(Effect::Respond { to: respond_to, response });
    None
}

pub struct MediatorEventHandler;

impl EventHandler<MediatorEvent> for MediatorEventHandler {
    /// A halted run that is to be taken up again can be.
    open spec fn accepts(&self, context: EventContext, event: MediatorEvent) -> bool {
        event matches MediatorEvent::Ui { request: Request::UpdateOperation(update), .. }
            ==> update is Run ==> can_resume(context.resources.operation)
    }

    fn handle(&mut self, context: &mut EventContext, event: MediatorEvent) -> (follow_up: Option<
        FollowUp,
    >)
        ensures
            match event {
                MediatorEvent::Ui { request, respond_to } => {
                    &&& follow_up == request_follow_up(request, respond_to)
                    &&& old(context).changes_operation(
                        *final(context),
                        handling_effects(request, respond_to),
                    )
                    &&& match request {
                        Request::UpdateOperation(update) => operates(
                            *old(context),
                            *final(context),
                            update,
                        ),
                        _ => old(context).emits(
                            *final(context),
                            handling_effects(request, respond_to),
                        ),
                    }
                },
                MediatorEvent::UpdateMap(preset, map) => {
                    &&& follow_up == Some(FollowUp::MapUpdated { respond_to: None })
                    &&& old(context).emits(
                        *final(context),
                        request_effects(Request::UpdateMap(preset, map)),
                    )
                },
                MediatorEvent::UpdateCharacter(character) => {
                    &&& follow_up == Some(FollowUp::CharacterUpdated { respond_to: None })
                    &&& old(context).emits(
                        *final(context),
                        request_effects(Request::UpdateCharacter(character)),
                    )
                },
            },
    {
        match event {
            MediatorEvent::Ui { request, respond_to } => handle_ui_request(
                context,
                request,
                respond_to,
            ),
            MediatorEvent::UpdateMap(preset, map) => Some(update_map(context, preset, map, None)),
            MediatorEvent::UpdateCharacter(character) => Some(
                update_character(context, character, None),
            ),
        }
    }
}

/// What a window that is to be used for capture and input takes.
pub fn update_window(context: &mut EventContext)
    ensures
        old(context).emits(
            *final(context),
            seq![
                Effect::ApplySelectedWindow,
                Effect::ApplyCaptureMode(old(context).settings.capture_mode),
                Effect::ApplyInputWindow(WindowSource::Selected),
            ],
        ),
{
    let mode = context.settings.capture_mode;
    context.effects.push(Effect::ApplySelectedWindow);
    context.effects.push(Effect::ApplyCaptureMode(mode));
    context.effects.push(Effect::ApplyInputWindow(WindowSource::Selected));
}

/// A quarter of the bound in which auto-mobbing last was.
#[derive(Debug, Clone, Copy, PartialEq, Eq, Structural)]
pub enum Quadrant {
    TopLeft,
    TopRight,
    BottomRight,
    BottomLeft,
}

/// A quarter of the bound, as it is shown.
#[derive(Debug, Clone, Copy, PartialEq, Eq, Structural)]
pub enum BoundQuadrant {
    TopLeft,
    TopRight,
    BottomRight,
    BottomLeft,
}

/// The operation, as it is shown.
#[derive(Debug, Clone, Copy, PartialEq, Eq, Structural)]
pub enum ShownOperation {
    HaltUntil(Instant),
    TemporaryHalting(Duration),
    Halting,
    Running,
    RunUntil(Instant),
}

/// What is known of the minimap once it was found.
#[derive(Debug)]
pub struct IdleMinimap {
    /// Where it is on the frame.
    pub bbox: Rect,
    /// The bound around the platforms, if it was computed.
    pub platforms_bound: Option<Rect>,
    pub portals: Vec<Rect>,
}

/// What is known of the world when a state is to be shown.
#[derive(Debug)]
pub struct WorldView {
    pub player_state: String,
    pub health: Option<(u32, u32)>,
    pub normal_action: Option<String>,
    pub priority_action: Option<String>,
    pub last_known_pos: Option<Point>,
    pub last_destinations: Option<Vec<Point>>,
    pub auto_mob_last_quadrant: Option<Quadrant>,
    pub erda_shower_state: String,
    /// The minimap, unless it is still being looked for.
    pub minimap: Option<IdleMinimap>,
    /// Whether there is a frame.
    pub has_frame: bool,
}

/// The state that the user interface shows.
#[derive(Debug)]
pub struct State {
    pub position: Option<(i32, i32)>,
    pub health: Option<(u32, u32)>,
    pub state: String,
    pub normal_action: Option<String>,
    pub priority_action: Option<String>,
    pub erda_shower_state: String,
    pub destinations: Vec<(i32, i32)>,
    pub operation: ShownOperation,
    /// The part of the frame that is shown.
    pub frame: Option<Rect>,
    pub platforms_bound: Option<Bound>,
    pub portals: Vec<Bound>,
    pub auto_mob_quadrant: Option<BoundQuadrant>,
}

pub open spec fn bound_of(rect: Rect) -> Bound {
    Bound { x: rect.x, y: rect.y, width: rect.width, height: rect.height }
}

fn to_bound(rect: Rect) -> (bound: Bound)
    ensures
        bound == bound_of(rect),
{
    Bound { x: rect.x, y: rect.y, width: rect.width, height: rect.height }
}

pub open spec fn shown_operation(operation: Operation) -> ShownOperation {
    match operation {
        Operation::HaltUntil { instant, .. } => ShownOperation::HaltUntil(instant),
        Operation::TemporaryHalting { resume, .. } => ShownOperation::TemporaryHalting(resume),
        Operation::Halting => ShownOperation::Halting,
        Operation::Running => ShownOperation::Running,
        Operation::RunUntil { instant, .. } => ShownOperation::RunUntil(instant),
    }
}

pub open spec fn shown_quadrant(quadrant: Quadrant) -> BoundQuadrant {
    match quadrant {
        Quadrant::TopLeft => BoundQuadrant::TopLeft,
        Quadrant::TopRight => BoundQuadrant::TopRight,
        Quadrant::BottomRight => BoundQuadrant::BottomRight,
        Quadrant::BottomLeft => BoundQuadrant::BottomLeft,
    }
}

/// The bound around the platforms, where the map asks for it and the minimap shows it.
pub open spec fn shown_platforms_bound(world: WorldView, map: Option<MapData>) -> Option<Bound> {
    match (world.minimap, map) {
        (Some(minimap), Some(map)) => match minimap.platforms_bound {
            Some(rect) if map.auto_mob_platforms_bound => Some(bound_of(rect)),
            _ => None,
        },
        _ => None,
    }
}

/// The positions that the points stand for.
pub open spec fn pairs(points: Seq<Point>) -> Seq<(i32, i32)> {
    points.map_values(|point: Point| (point.x, point.y))
}

pub open spec fn bounds(rects: Seq<Rect>) -> Seq<Bound> {
    rects.map_values(|rect: Rect| bound_of(rect))
}

/// `state` shows the world under `operation` and `map`.
pub open spec fn shows(
    state: State,
    operation: Operation,
    world: WorldView,
    map: Option<MapData>,
) -> bool {
    &&& state.position == match world.last_known_pos {
        Some(pos) => Some((pos.x, pos.y)),
        None => None,
    }
    &&& state.health == world.health
    &&& state.state == world.player_state
    &&& state.normal_action == world.normal_action
    &&& state.priority_action == world.priority_action
    &&& state.erda_shower_state == world.erda_shower_state
    &&& state.destinations@ =~= match world.last_destinations {
        Some(points) => pairs(points@),
        None => Seq::empty(),
    }
    &&& state.operation == shown_operation(operation)
    &&& state.frame == match world.minimap {
        Some(minimap) if world.has_frame => Some(minimap.bbox),
        _ => None,
    }
    &&& state.platforms_bound == shown_platforms_bound(world, map)
    &&& state.portals@ =~= match world.minimap {
        Some(minimap) => bounds(minimap.portals@),
        None => Seq::empty(),
    }
    &&& state.auto_mob_quadrant == match world.auto_mob_last_quadrant {
        Some(quadrant) => Some(shown_quadrant(quadrant)),
        None => None,
    }
}

fn to_pairs(points: &Vec<Point>) -> (list: Vec<(i32, i32)>)
    ensures
        list@ =~= pairs(points@),
{
    let mut list: Vec<(i32, i32)> = Vec::new();
    let mut i: usize = 0;
    while i < points.len()
        invariant
            i <= points.len(),
            list.len() == i,
            forall|k: int| 0 <= k < i ==> #[trigger] list[k] == pairs(points@)[k],
        decreases points.len() - i,
    {
        list.push((points[i].x, points[i].y));
        i += 1;
    }
    list
}

fn to_bounds(rects: &Vec<Rect>) -> (list: Vec<Bound>)
    ensures
        list@ =~= bounds(rects@),
{
    let mut list: Vec<Bound> = Vec::new();
    let mut i: usize = 0;
    while i < rects.len()
        invariant
            i <= rects.len(),
            list.len() == i,
            forall|k: int| 0 <= k < i ==> #[trigger] list[k] == bounds(rects@)[k],
        decreases rects.len() - i,
    {
        list.push(to_bound(rects[i]));
        i += 1;
    }
    list
}

/// The state to show, unless the last one was not taken yet.
pub fn broadcast_state(
    channel_empty: bool,
    operation: Operation,
    world: WorldView,
    map: Option<&MapData>,
) -> (state: Option<State>)
    ensures
        state is Some <==> channel_empty,
        state matches Some(state) ==> shows(
            state,
            operation,
            world,
            match map {
                Some(map) => Some(*map),
                None => None,
            },
        ),
{
    if !channel_empty {
        return None;
    }
    let position = match world.last_known_pos {
        Some(pos) => Some((pos.x, pos.y)),
        None => None,
    };
    let destinations = match &world.last_destinations {
        Some(points) => to_pairs(points),
        None => Vec::new(),
    };
    let (frame, platforms_bound, portals) = match &world.minimap {
        Some(minimap) => {
            let frame = if world.has_frame {
                Some(minimap.bbox)
            } else {
                None
            };
            let by_platforms = match map {
                Some(map) => map.auto_mob_platforms_bound,
                None => false,
            };
            let platforms_bound = match minimap.platforms_bound {
                Some(rect) => {
                    if by_platforms {
                        Some(to_bound(rect))
                    } else {
                        None
                    }
                },
                None => None,
            };
            (frame, platforms_bound, to_bounds(&minimap.portals))
        },
        None => (None, None, Vec::new()),
    };
    let shown = match operation {
        Operation::HaltUntil { instant, .. } => ShownOperation::HaltUntil(instant),
        Operation::TemporaryHalting { resume, .. } => ShownOperation::TemporaryHalting(resume),
        Operation::Halting => ShownOperation::Halting,
        Operation::Running => ShownOperation::Running,
        Operation::RunUntil { instant, .. } => ShownOperation::RunUntil(instant),
    };
    let auto_mob_quadrant = match world.auto_mob_last_quadrant {
        Some(Quadrant::TopLeft) => Some(BoundQuadrant::TopLeft),
        Some(Quadrant::TopRight) => Some(BoundQuadrant::TopRight),
        Some(Quadrant::BottomRight) => Some(BoundQuadrant::BottomRight),
        Some(Quadrant::BottomLeft) => Some(BoundQuadrant::BottomLeft),
        None => None,
    };
    Some(
        State {
            position,
            health: world.health,
            state: world.player_state,
            normal_action: world.normal_action,
            priority_action: world.priority_action,
            erda_shower_state: world.erda_shower_state,
            destinations,
            operation: shown,
            frame,
            platforms_bound,
            portals,
            auto_mob_quadrant,
        },
    )
}

/// The bytes of the shown pixels: red, green, blue and full opacity, pixel after pixel.
pub open spec fn rgba(pixels: Seq<[u8; 4]>) -> Seq<u8>
    decreases pixels.len(),
{
    if pixels.len() == 0 {
        Seq::empty()
    } else {
        let last = pixels.last();
        rgba(pixels.drop_last()) + seq![last[2], last[1], last[0], 255u8]
    }
}

/// The part of the frame that shows the minimap, for display. A pixel of a frame holds blue, green,
/// red and opacity.
pub fn minimap_frame_from(bbox: Rect, pixels: &Vec<[u8; 4]>) -> (frame: (Vec<u8>, usize, usize))
    requires
        bbox.width >= 0,
        bbox.height >= 0,
    ensures
        frame.0@ == rgba(pixels@),
        frame.1 == bbox.width,
        frame.2 == bbox.height,
{
    let mut bytes: Vec<u8> = Vec::new();
    let mut i: usize = 0;
    while i < pixels.len()
        invariant
            i <= pixels.len(),
            bytes@ == rgba(pixels@.take(i as int)),
        decreases pixels.len() - i,
    {
        let bgra = pixels[i];
        bytes.push(bgra[2]);
        bytes.push(bgra[1]);
        bytes.push(bgra[0]);
        bytes.push(255);
        i += 1;
        proof {
            assert(pixels@.take(i as int).drop_last() =~= pixels@.take(i - 1));
            assert(bytes@ =~= rgba(pixels@.take(i - 1)) + seq![bgra[2], bgra[1], bgra[0], 255u8]);
        }
    }
    assert(pixels@.take(i as int) =~= pixels@);
    (bytes, bbox.width as usize, bbox.height as usize)
}

/// Four bytes for every pixel, the last of them opaque.
pub proof fn law_frame_is_opaque(pixels: Seq<[u8; 4]>, i: int)
    requires
        0 <= i < pixels.len(),
    ensures
        rgba(pixels).len() == 4 * pixels.len(),
        rgba(pixels)[4 * i] == pixels[i][2],
        rgba(pixels)[4 * i + 1] == pixels[i][1],
        rgba(pixels)[4 * i + 2] == pixels[i][0],
        rgba(pixels)[4 * i + 3] == 255,
    decreases pixels.len(),
{
    let init = pixels.drop_last();
    if init.len() > 0 {
        law_frame_is_opaque(
            init,
            if i < init.len() {
                i
            } else {
                0
            },
        );
    } else {
        assert(rgba(init) == Seq::<u8>::empty());
    }
}

/// Without a map or a character no update of the operation does anything.
pub proof fn law_operation_needs_map_and_character(
    before: EventContext,
    after: EventContext,
    update: OperationUpdate,
)
    requires
        before.map is None || before.character is None,
        operates(before, after, update),
    ensures
        after.resources.operation == before.resources.operation,
        after.operation_service == before.operation_service,
{
}

/// What answers a request that has a follow-up.
pub open spec fn owed_answer(follow_up: Option<FollowUp>) -> Seq<Effect> {
    match follow_up {
        Some(FollowUp::MapUpdated { respond_to }) => answering(respond_to, Response::UpdateMap),
        Some(FollowUp::CharacterUpdated { respond_to }) => answering(
            respond_to,
            Response::UpdateCharacter,
        ),
        _ => Seq::empty(),
    }
}

/// Every request is answered exactly once, with the response of its own kind: at once, or when its
/// follow-up is through.
pub proof fn law_every_request_is_answered_once(request: Request, respond_to: u64, i: int)
    ensures
        ({
            let all = handling_effects(request, respond_to) + owed_answer(
                request_follow_up(request, respond_to),
            );
            &&& all.len() > 0
            &&& all.last() == (Effect::Respond { to: respond_to, response: response_to(request) })
            &&& 0 <= i < all.len() - 1 ==> !(all[i] is Respond)
        }),
{
}

/// Everything in use is as it was.
pub open spec fn keeps_what_is_in_use(before: EventContext, after: EventContext) -> bool {
    &&& after.map == before.map
    &&& after.preset == before.preset
    &&& after.character == before.character
    &&& after.settings == before.settings
    &&& after.clock == before.clock
    &&& after.navigator_reached_last_point == before.navigator_reached_last_point
    &&& after.resources.tick == before.resources.tick
    &&& after.resources.input == before.resources.input
    &&& after.resources.detector == before.resources.detector
}

/// A request that a service answers by itself does nothing else: it is answered once, under its
/// number, with what it asked for.
pub proof fn law_questions_are_answered(
    context: &mut EventContext,
    request: Request,
    respond_to: u64,
    follow_up: Option<FollowUp>,
)
    requires
        call_ensures(handle_ui_request, (context, request, respond_to), follow_up),
    ensures
        ({
            let answered = |response: Response|
                follow_up is None && final(context).effects@ == old(context).effects@.push(
                    Effect::Respond { to: respond_to, response },
                );
            match request {
                Request::CreateMap(name) => answered(Response::CreateMap(name)),
                Request::CreateNavigationPath => answered(Response::CreateNavigationPath),
                Request::RecaptureNavigationPath(path) => answered(
                    Response::RecaptureNavigationPath(path),
                ),
                Request::NavigationSnapshotAsGrayscale(image) => answered(
                    Response::NavigationSnapshotAsGrayscale(image),
                ),
                Request::StateReceiver => answered(Response::StateReceiver),
                Request::KeyReceiver => answered(Response::KeyReceiver),
                Request::QueryCaptureHandles => answered(Response::QueryCaptureHandles),
                Request::QueryTemplate(template) => answered(Response::QueryTemplate(template)),
                Request::ConvertImageToBase64(image, true) => answered(
                    Response::ConvertImageToBase64(image, ImageColor::Grayscale),
                ),
                Request::ConvertImageToBase64(image, false) => answered(
                    Response::ConvertImageToBase64(image, ImageColor::Color),
                ),
                Request::DebugStateReceiver => answered(Response::DebugStateReceiver),
                Request::UpdateOperation(_) => answered(Response::UpdateOperation),
                _ => true,
            }
        }),
        keeps_what_is_in_use(*old(context), *final(context)),
        request !is UpdateOperation ==> final(context).resources.operation == old(
            context,
        ).resources.operation && final(context).operation_service == old(
            context,
        ).operation_service,
{
    let before = old(context).effects@;
    let response = response_to(request);
    if request_effects(request).len() == 0 {
        assert(request_effects(request) =~= Seq::empty());
        assert(before + handling_effects(request, respond_to) =~= before.push(
            Effect::Respond { to: respond_to, response },
        ));
    }
}

/// A request that is carried out first is carried out exactly as asked, then answered once, under its
/// number.
pub proof fn law_orders_are_carried_out(
    context: &mut EventContext,
    request: Request,
    respond_to: u64,
    follow_up: Option<FollowUp>,
)
    requires
        call_ensures(handle_ui_request, (context, request, respond_to), follow_up),
    ensures
        ({
            let done = |orders: Seq<Effect>, response: Response|
                follow_up is None && final(context).effects@ == old(context).effects@ + orders
                    + seq![Effect::Respond { to: respond_to, response }];
            match request {
                Request::RedetectMinimap => done(
                    seq![Effect::RedetectMinimap, Effect::MarkNavigatorDirty(true)],
                    Response::RedetectMinimap,
                ),
                Request::RefreshCaptureHandles => done(
                    seq![
                        Effect::UpdateWindows,
                        Effect::SelectWindow(None),
                        Effect::ApplySelectedWindow,
                        Effect::ApplyInputWindow(WindowSource::Selected),
                    ],
                    Response::RefreshCaptureHandles,
                ),
                Request::SelectCaptureHandle(index) => done(
                    seq![
                        Effect::SelectWindow(index),
                        Effect::ApplySelectedWindow,
                        Effect::ApplyInputWindow(WindowSource::Selected),
                    ],
                    Response::SelectCaptureHandle,
                ),
                Request::SaveCaptureImage(is_grayscale) => done(
                    seq![Effect::Ui(UiTask::SaveCaptureImage { is_grayscale })],
                    Response::SaveCaptureImage,
                ),
                Request::AutoSaveRune(auto_save) => done(
                    seq![Effect::Ui(UiTask::SetAutoSaveRune(auto_save))],
                    Response::AutoSaveRune,
                ),
                Request::InferRune => done(
                    seq![Effect::Ui(UiTask::InferRune)],
                    Response::InferRune,
                ),
                Request::InferMinimap => done(
                    seq![Effect::Ui(UiTask::InferMinimap)],
                    Response::InferMinimap,
                ),
                Request::RecordImages(start) => done(
                    seq![Effect::Ui(UiTask::RecordImages(start))],
                    Response::RecordImages,
                ),
                Request::TestSpinRune => done(
                    seq![Effect::Ui(UiTask::TestSpinRune)],
                    Response::TestSpinRune,
                ),
                _ => true,
            }
        }),
{
    let before = old(context).effects@;
    let answer = Effect::Respond { to: respond_to, response: response_to(request) };
    let orders = request_effects(request);
    assert(before + orders.push(answer) =~= before + orders + seq![answer]);
    if request is RefreshCaptureHandles {
        assert(orders =~= seq![
            Effect::UpdateWindows,
            Effect::SelectWindow(None),
            Effect::ApplySelectedWindow,
            Effect::ApplyInputWindow(WindowSource::Selected),
        ]);
    }
}

/// A request for another map or character takes it into use and is answered only after that: nothing
/// is answered yet, and what goes on knows the number.
pub proof fn law_changes_are_answered_later(
    context: &mut EventContext,
    request: Request,
    respond_to: u64,
    follow_up: Option<FollowUp>,
)
    requires
        call_ensures(handle_ui_request, (context, request, respond_to), follow_up),
    ensures
        request matches Request::UpdateMap(preset, map) ==> {
            &&& follow_up == Some(FollowUp::MapUpdated { respond_to: Some(respond_to) })
            &&& final(context).effects@ == old(context).effects@ + seq![
                Effect::UpdateMapPreset { map, preset },
                Effect::ApplyMap,
            ]
        },
        request matches Request::UpdateCharacter(character) ==> {
            &&& follow_up == Some(FollowUp::CharacterUpdated { respond_to: Some(respond_to) })
            &&& final(context).effects@ == old(context).effects@ + seq![
                Effect::UpdateCharacter(character),
                Effect::ApplyCharacter,
            ]
        },
        follow_up is Some ==> request is UpdateMap || request is UpdateCharacter,
{
}

/// The operation is changed only where a map and a character are in use, as at a time that the clock
/// shows, and then one event tells so.
pub proof fn law_operation_is_operable(
    context: &mut EventContext,
    update: OperationUpdate,
    respond_to: u64,
    follow_up: Option<FollowUp>,
)
    requires
        call_ensures(
            handle_ui_request,
            (context, Request::UpdateOperation(update), respond_to),
            follow_up,
        ),
    ensures
        old(context).map is None || old(context).character is None ==> {
            &&& final(context).resources.operation == old(context).resources.operation
            &&& final(context).operation_service == old(context).operation_service
        },
        old(context).map is Some && old(context).character is Some ==> {
            &&& exists|now: Instant| #[trigger]
                old(context).clock.shows(now) && final(context).resources.operation == updated(
                    old(context).resources.operation,
                    update,
                    now,
                )
            &&& final(context).operation_service.outbox@ == old(
                context,
            ).operation_service.outbox@.push(OperationCommand::Send(OperationEvent::Update))
            &&& final(context).operation_service.pending_halt == old(
                context,
            ).operation_service.pending_halt
        },
{
}

/// A request that arrives as an event is handled like the request itself. Maps and characters that
/// are queued are taken into use with nobody to answer.
pub proof fn law_mediator_events(
    handler: &mut MediatorEventHandler,
    context: &mut EventContext,
    event: MediatorEvent,
    follow_up: Option<FollowUp>,
)
    requires
        call_ensures(MediatorEventHandler::handle, (handler, context, event), follow_up),
    ensures
        event matches MediatorEvent::Ui { request, respond_to } ==> {
            &&& follow_up == request_follow_up(request, respond_to)
            &&& final(context).effects@ == old(context).effects@ + handling_effects(
                request,
                respond_to,
            )
            &&& request matches Request::UpdateOperation(update) ==> operates(
                *old(context),
                *final(context),
                update,
            )
        },
        event matches MediatorEvent::UpdateMap(preset, map) ==> {
            &&& follow_up == Some(FollowUp::MapUpdated { respond_to: None })
            &&& final(context).effects@ == old(context).effects@ + seq![
                Effect::UpdateMapPreset { map, preset },
                Effect::ApplyMap,
            ]
        },
        event matches MediatorEvent::UpdateCharacter(character) ==> {
            &&& follow_up == Some(FollowUp::CharacterUpdated { respond_to: None })
            &&& final(context).effects@ == old(context).effects@ + seq![
                Effect::UpdateCharacter(character),
                Effect::ApplyCharacter,
            ]
        },
        keeps_what_is_in_use(*old(context), *final(context)),
{
}

/// Another map gives the rotator its actions and applies it, in this order and for what is in use,
/// then sends the navigator to the map, and last answers who asked for it.
pub proof fn law_map_in_use(context: &mut EventContext, respond_to: Option<u64>)
    requires
        call_ensures(map_updated, (context, respond_to), ()),
    ensures
        ({
            let before = old(context).effects@;
            let effects = final(context).effects@;
            let n = before.len() as int;
            &&& forall|i: int| 0 <= i < n ==> effects[i] == #[trigger] before[i]
            &&& effects.len() == (if respond_to is Some {
                n + 4
            } else {
                n + 3
            })
            &&& effects[n] == (Effect::UpdateRotatorActions {
                map: old(context).map,
                preset: old(context).preset,
                character: old(context).character,
            })
            &&& effects[n + 1] == (Effect::ApplyRotatorFor {
                map: old(context).map,
                character: old(context).character,
                settings: old(context).settings,
            })
            &&& old(context).map is None ==> effects[n + 2]
                == Effect::MarkNavigatorDirtyWithDestination(None)
            &&& old(context).map matches Some(map) ==> effects[n + 2]
                == Effect::MarkNavigatorDirtyWithDestination(map.paths_id_index)
            &&& respond_to matches Some(to) ==> effects[n + 3] == (Effect::Respond {
                to,
                response: Response::UpdateMap,
            })
            &&& keeps_what_is_in_use(*old(context), *final(context))
            &&& final(context).resources.operation == old(context).resources.operation
        }),
{
}

/// Another character gives the rotator its actions and its buffs, has the buffs look up whether they
/// are enabled where there is a character, applies the rotator, and last answers who asked for it.
pub proof fn law_character_in_use(context: &mut EventContext, respond_to: Option<u64>)
    requires
        call_ensures(character_updated, (context, respond_to), ()),
    ensures
        ({
            let before = old(context).effects@;
            let effects = final(context).effects@;
            let n = before.len() as int;
            let m: int = if old(context).character is Some {
                n + 3
            } else {
                n + 2
            };
            &&& forall|i: int| 0 <= i < n ==> effects[i] == #[trigger] before[i]
            &&& effects.len() == (if respond_to is Some {
                m + 2
            } else {
                m + 1
            })
            &&& effects[n] == (Effect::UpdateRotatorActions {
                map: old(context).map,
                preset: old(context).preset,
                character: old(context).character,
            })
            &&& effects[n + 1] == Effect::UpdateRotatorBuffs(old(context).character)
            &&& old(context).character matches Some(character) ==> effects[n + 2] == (
            Effect::UpdateBuffsEnabled { character, settings: old(context).settings })
            &&& effects[m] == (Effect::ApplyRotatorFor {
                map: old(context).map,
                character: old(context).character,
                settings: old(context).settings,
            })
            &&& respond_to matches Some(to) ==> effects[m + 1] == (Effect::Respond {
                to,
                response: Response::UpdateCharacter,
            })
            &&& keeps_what_is_in_use(*old(context), *final(context))
            &&& final(context).resources.operation == old(context).resources.operation
        }),
{
}

/// A window is brought to the capture first, then the capture to its mode, then the input to the
/// window.
pub proof fn law_window_in_use(context: &mut EventContext)
    requires
        call_ensures(update_window, (context,), ()),
    ensures
        final(context).effects@ == old(context).effects@.push(Effect::ApplySelectedWindow).push(
            Effect::ApplyCaptureMode(old(context).settings.capture_mode),
        ).push(Effect::ApplyInputWindow(WindowSource::Selected)),
        keeps_what_is_in_use(*old(context), *final(context)),
{
}

/// The state is shown unless the last one was not taken yet. It shows the player as it is: where it
/// is and heads for, what it does, and what is under way.
pub proof fn law_state_shows_the_player(
    channel_empty: bool,
    operation: Operation,
    world: WorldView,
    map: Option<&MapData>,
    state: Option<State>,
)
    requires
        call_ensures(broadcast_state, (channel_empty, operation, world, map), state),
    ensures
        state is Some <==> channel_empty,
        state matches Some(state) ==> {
            &&& world.last_known_pos is None ==> state.position is None
            &&& world.last_known_pos matches Some(pos) ==> state.position == Some((pos.x, pos.y))
            &&& state.health == world.health
            &&& state.state == world.player_state
            &&& state.normal_action == world.normal_action
            &&& state.priority_action == world.priority_action
            &&& state.erda_shower_state == world.erda_shower_state
            &&& world.last_destinations is None ==> state.destinations.len() == 0
            &&& world.last_destinations matches Some(points) ==> {
                &&& state.destinations.len() == points.len()
                &&& forall|i: int|
                    0 <= i < points.len() ==> {
                        &&& (#[trigger] state.destinations@[i]).0 == points[i].x
                        &&& state.destinations@[i].1 == points[i].y
                    }
            }
            &&& match (operation, state.operation) {
                (Operation::HaltUntil { instant, .. }, ShownOperation::HaltUntil(shown)) => shown
                    == instant,
                (
                    Operation::TemporaryHalting { resume, .. },
                    ShownOperation::TemporaryHalting(shown),
                ) => shown == resume,
                (Operation::Halting, ShownOperation::Halting) => true,
                (Operation::Running, ShownOperation::Running) => true,
                (Operation::RunUntil { instant, .. }, ShownOperation::RunUntil(shown)) => shown
                    == instant,
                _ => false,
            }
            &&& match (world.auto_mob_last_quadrant, state.auto_mob_quadrant) {
                (None, None) => true,
                (Some(Quadrant::TopLeft), Some(BoundQuadrant::TopLeft)) => true,
                (Some(Quadrant::TopRight), Some(BoundQuadrant::TopRight)) => true,
                (Some(Quadrant::BottomRight), Some(BoundQuadrant::BottomRight)) => true,
                (Some(Quadrant::BottomLeft), Some(BoundQuadrant::BottomLeft)) => true,
                _ => false,
            }
        },
{
}

/// The state shows of the minimap what was found of it: its part of the frame where there is a frame,
/// its portals, and the bound around the platforms where the map in use asks for it.
pub proof fn law_state_shows_the_minimap(
    channel_empty: bool,
    operation: Operation,
    world: WorldView,
    map: Option<&MapData>,
    state: Option<State>,
)
    requires
        call_ensures(broadcast_state, (channel_empty, operation, world, map), state),
    ensures
        state matches Some(state) ==> {
            &&& world.minimap is None ==> state.frame is None && state.platforms_bound is None
                && state.portals.len() == 0
            &&& world.minimap matches Some(minimap) ==> {
                let bound = state.platforms_bound;
                let asked = map is Some && map->Some_0.auto_mob_platforms_bound;
                &&& world.has_frame ==> state.frame == Some(minimap.bbox)
                &&& !world.has_frame ==> state.frame is None
                &&& bound is Some <==> asked && minimap.platforms_bound is Some
                &&& bound matches Some(bound) ==> {
                    &&& bound.x == (minimap.platforms_bound->Some_0).x
                    &&& bound.y == (minimap.platforms_bound->Some_0).y
                    &&& bound.width == (minimap.platforms_bound->Some_0).width
                    &&& bound.height == (minimap.platforms_bound->Some_0).height
                }
                &&& state.portals.len() == minimap.portals.len()
                &&& forall|i: int|
                    0 <= i < minimap.portals.len() ==> {
                        &&& (#[trigger] state.portals@[i]).x == minimap.portals@[i].x
                        &&& state.portals@[i].y == minimap.portals@[i].y
                        &&& state.portals@[i].width == minimap.portals@[i].width
                        &&& state.portals@[i].height == minimap.portals@[i].height
                    }
            }
        },
{
}

/// The shown frame is as wide and as high as the minimap, and its bytes are the colors of the pixels
/// in reverse, each with full opacity.
pub proof fn law_minimap_frame(
    bbox: Rect,
    pixels: &Vec<[u8; 4]>,
    frame: (Vec<u8>, usize, usize),
    i: int,
)
    requires
        call_ensures(minimap_frame_from, (bbox, pixels), frame),
        0 <= i < pixels.len(),
    ensures
        frame.0.len() == 4 * pixels.len(),
        frame.0@[4 * i] == pixels@[i][2],
        frame.0@[4 * i + 1] == pixels@[i][1],
        frame.0@[4 * i + 2] == pixels@[i][0],
        frame.0@[4 * i + 3] == 255,
        frame.1 == bbox.width,
        frame.2 == bbox.height,
{
    law_frame_is_opaque(pixels@, i);
}

} // verus!

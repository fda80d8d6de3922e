//! Following a transparent shape with the mouse until the lie detector closes.

use vstd::prelude::*;

use crate::geometry::{Point, Rect};
use crate::player::timeout::{lifecycle, next_timeout_lifecycle, Lifecycle, Timeout};
use crate::player::{next_action, Player, PlayerEntity};
use crate::resources::{
    Detection, Detector, InputCommand, MouseKind, Resources, ShapeCursor, Sighting,
};

verus! {

/// Ticks between two looks for the lie detector.
pub const CHECK_INTERVAL: u64 = 30;

/// Ticks between two runs of the shape solver: about a quarter of a second.
pub const SOLVE_INTERVAL: u64 = 8;

pub const SOLVING_TICKS: u32 = 545;

/// From the corner of the title to that of the region in which the shape moves.
pub const TITLE_HEIGHT: i32 = 20;

pub const REGION_WIDTH: i32 = 755;

pub const REGION_HEIGHT: i32 = 505;

/// Representing the current state of transparent shape (e.g. lie detector) solving.
#[derive(Debug, Clone, Copy, PartialEq, Eq, Structural)]
pub enum State {
    Waiting,
    Solving(Timeout),
    Completed,
}

/// One attempt at following a shape.
#[derive(Debug, PartialEq, Eq, Structural)]
pub struct SolvingShape {
    pub state: State,
    pub region: Rect,
    /// Whether the solver has not run in this region yet.
    pub solver_fresh: bool,
    /// Where the shape was last detected.
    pub target_cursor: Option<Point>,
    /// Where the mouse was last sent.
    pub smoothed_cursor: Option<Point>,
}

impl Clone for SolvingShape {
    /// The copy starts over with a solver of its own.
    fn clone(&self) -> (copy: SolvingShape)
        ensures
            copy == self.with_fresh_solver(),
    {
        SolvingShape {
            state: self.state,
            region: self.region,
            solver_fresh: true,
            target_cursor: self.target_cursor,
            smoothed_cursor: self.smoothed_cursor,
        }
    }
}

impl Default for SolvingShape {
    fn default() -> (shape: SolvingShape)
        ensures
            shape == SolvingShape::begin(),
            shape.wf(),
    {
        SolvingShape {
            state: State::Waiting,
            region: Rect::new(0, 0, 0, 0),
            solver_fresh: true,
            target_cursor: None,
            smoothed_cursor: None,
        }
    }
}

impl SolvingShape {
    pub open spec fn begin() -> SolvingShape {
        SolvingShape {
            state: State::Waiting,
            region: Rect { x: 0, y: 0, width: 0, height: 0 },
            solver_fresh: true,
            target_cursor: None,
            smoothed_cursor: None,
        }
    }

    /// An attempt that goes on, with its counter within its limit.
    pub open spec fn wf(self) -> bool {
        match self.state {
            State::Waiting => true,
            State::Solving(t) => t.within(SOLVING_TICKS),
            State::Completed => false,
        }
    }

    pub open spec fn at(self, state: State) -> SolvingShape {
        SolvingShape { state, ..self }
    }

    /// The attempt with a solver that has not run yet.
    pub open spec fn with_fresh_solver(self) -> SolvingShape {
        SolvingShape { solver_fresh: true, ..self }
    }

    pub open spec fn name(self) -> Seq<char> {
        match self.state {
            State::Waiting => "Waiting"@,
            State::Solving(_) => "Solving"@,
            State::Completed => "Completed"@,
        }
    }

    /// The name of the stage.
    pub fn describe(&self) -> (text: String)
        ensures
            text@ == self.name(),
    {
        match self.state {
            State::Waiting => String::from_str("Waiting"),
            State::Solving(_) => String::from_str("Solving"),
            State::Completed => String::from_str("Completed"),
        }
    }
}

/// What one tick makes of an attempt.
pub struct Step {
    pub next: SolvingShape,
    pub sent: Seq<InputCommand>,
}

pub open spec fn quietly(next: SolvingShape) -> Step {
    Step { next, sent: Seq::empty() }
}

/// The region below `title` fits on the integer plane.
pub open spec fn has_region(title: Sighting) -> bool {
    title matches Sighting::At(rect) ==> {
        &&& rect.x + REGION_WIDTH <= i32::MAX
        &&& rect.y + TITLE_HEIGHT + REGION_HEIGHT <= i32::MAX
    }
}

/// The region in which the shape moves: below the title, of a fixed size.
pub open spec fn region_below(title: Rect) -> Rect {
    Rect {
        x: title.x,
        y: (title.y + TITLE_HEIGHT) as i32,
        width: REGION_WIDTH,
        height: REGION_HEIGHT,
    }
}

/// Every [`CHECK_INTERVAL`] ticks, unless the lie detector is still preparing: starts solving below
/// its title, or ends where there is none.
pub open spec fn waiting_step(shape: SolvingShape, tick: u64, seen: Detector) -> SolvingShape {
    if tick % CHECK_INTERVAL != 0 || seen.lie_detector_shape_preparing == Some(true) {
        shape
    } else {
        match seen.lie_detector_shape.place() {
            None => shape.at(State::Completed),
            Some(title) => SolvingShape {
                state: State::Solving(Timeout::fresh()),
                region: region_below(title),
                solver_fresh: true,
                ..shape
            },
        }
    }
}

/// Whether the solver runs in tick number `tick`.
pub open spec fn solver_due(tick: u64) -> bool {
    tick % SOLVE_INTERVAL == 0
}

/// The attempt after the solver had its turn: a new detection replaces the target.
pub open spec fn detected(shape: SolvingShape, tick: u64, seen: Detector) -> SolvingShape {
    if solver_due(tick) {
        SolvingShape {
            solver_fresh: false,
            target_cursor: match seen.shape_cursor {
                ShapeCursor::At(cursor) => Some(cursor),
                _ => shape.target_cursor,
            },
            ..shape
        }
    } else {
        shape
    }
}

/// Where the mouse moves from: where it was last sent, at first the target itself.
pub open spec fn cursor_from(shape: SolvingShape, target: Point) -> Point {
    match shape.smoothed_cursor {
        Some(cursor) => cursor,
        None => target,
    }
}

/// The mouse is sent to the smoothed position wherever there is a target.
pub open spec fn followed(shape: SolvingShape, seen: Detector) -> Step {
    match (shape.target_cursor, seen.smoothed_cursor) {
        (Some(_), Some(next)) => Step {
            next: SolvingShape { smoothed_cursor: Some(next), ..shape },
            sent: seq![InputCommand::Mouse { x: next.x, y: next.y, kind: MouseKind::Move }],
        },
        _ => quietly(shape),
    }
}

/// Ends when the lie detector is gone or time is up, else follows the shape.
pub open spec fn solving_step(
    shape: SolvingShape,
    timeout: Timeout,
    tick: u64,
    seen: Detector,
) -> Step {
    if seen.lie_detector_shape is Missing {
        quietly(shape.at(State::Completed))
    } else {
        match lifecycle(timeout, SOLVING_TICKS) {
            Lifecycle::Ended => quietly(shape.at(State::Completed)),
            Lifecycle::Started(t) | Lifecycle::Updated(t) => followed(
                detected(shape.at(State::Solving(t)), tick, seen),
                seen,
            ),
        }
    }
}

/// One tick of an attempt.
pub open spec fn step(shape: SolvingShape, tick: u64, seen: Detector) -> Step {
    match shape.state {
        State::Waiting => quietly(waiting_step(shape, tick, seen)),
        State::Solving(t) => solving_step(shape, t, tick, seen),
        State::Completed => quietly(shape),
    }
}

/// The player after a tick: the attempt goes on, is over, or is dropped where no action asks for
/// it.
pub open spec fn player_after(player: PlayerEntity, taken: Step) -> PlayerEntity {
    if player.context.action is None {
        PlayerEntity { state: Player::Idle, ..player }
    } else if taken.next.state is Completed {
        PlayerEntity { state: Player::Idle, context: player.context.action_cleared() }
    } else {
        PlayerEntity { state: Player::SolvingShape(taken.next), ..player }
    }
}

/// The tick that `resources` and `player` ask for.
pub open spec fn tick(resources: Resources, player: PlayerEntity) -> Step {
    step(player.state->SolvingShape_0, resources.tick, resources.detector)
}

/// Updates the [`Player::SolvingShape`] contextual state.
///
/// All detections are blocking: each tick goes by what its own frame shows.
pub fn update_solving_shape_state(resources: &mut Resources, player: &mut PlayerEntity)
    requires
        old(player).state matches Player::SolvingShape(shape) && shape.wf(),
        old(player).context.action matches Some(action) ==> action is SolveShape,
        old(player).state->SolvingShape_0.state is Waiting ==> has_region(
            old(resources).detector.lie_detector_shape,
        ),
    ensures
        *final(player) == player_after(*old(player), tick(*old(resources), *old(player))),
        final(player).state matches Player::SolvingShape(shape) ==> shape.wf(),
        old(resources).sends(*final(resources), tick(*old(resources), *old(player)).sent),
{
    let mut state = Player::Idle;
    std::mem::swap(&mut state, &mut player.state);
    let mut solving_shape = match state {
        Player::SolvingShape(shape) => shape,
        _ => {
            return;
        },
    };

    match solving_shape.state {
        State::Waiting => update_waiting(resources, &mut solving_shape),
        State::Solving(_) => update_solving(resources, &mut solving_shape),
        State::Completed => {},
    }

    let is_terminal = matches!(solving_shape.state, State::Completed);
    match next_action(&player.context) {
        Some(_) => {
            if is_terminal {
                player.context.clear_action_completed();
                player.state = Player::Idle;
            } else {
                player.state = Player::SolvingShape(solving_shape);
            }
        },
        None => {
            player.state = Player::Idle;
        },
    }
}

pub fn update_waiting(resources: &Resources, solving_shape: &mut SolvingShape)
    requires
        old(solving_shape).state is Waiting,
        has_region(resources.detector.lie_detector_shape),
    ensures
        *final(solving_shape) == waiting_step(
            *old(solving_shape),
            resources.tick,
            resources.detector,
        ),
{
    if !resources.tick.is_multiple_of(CHECK_INTERVAL) {
        return;
    }
    if resources.detector.detect_lie_detector_shape_preparing() {
        return;
    }
    let title = match resources.detector.lie_detector_shape.rect() {
        Some(title) => title,
        None => {
            solving_shape.state = State::Completed;
            return;
        },
    };

    let tl = title.tl().offset(Point::new(0, TITLE_HEIGHT));
    let br = tl.offset(Point::new(REGION_WIDTH, REGION_HEIGHT));
    solving_shape.region = Rect::from_points(tl, br);
    solving_shape.solver_fresh = true;
    solving_shape.state = State::Solving(Timeout::default());
}

pub fn update_solving(resources: &mut Resources, solving_shape: &mut SolvingShape)
    requires
        old(solving_shape).state is Solving,
    ensures
        ({
            let taken = solving_step(
                *old(solving_shape),
                old(solving_shape).state->Solving_0,
                old(resources).tick,
                old(resources).detector,
            );
            &&& *final(solving_shape) == taken.next
            &&& old(resources).sends(*final(resources), taken.sent)
        }),
{
    let timeout = match solving_shape.state {
        State::Solving(timeout) => timeout,
        _ => {
            return;
        },
    };

    if matches!(resources.detector.lie_detector_shape, Sighting::Missing) {
        solving_shape.state = State::Completed;
        return;
    }

    match next_timeout_lifecycle(timeout, SOLVING_TICKS) {
        Lifecycle::Ended => {
            solving_shape.state = State::Completed;
        },
        Lifecycle::Started(timeout) | Lifecycle::Updated(timeout) => {
            if resources.tick.is_multiple_of(SOLVE_INTERVAL) {
                solving_shape.solver_fresh = false;
                if let ShapeCursor::At(cursor) = resources.detector.shape_cursor {
                    solving_shape.target_cursor = Some(cursor);
                }
            }
            if solving_shape.target_cursor.is_some() {
                if let Some(next) = resources.detector.smoothed_cursor {
                    solving_shape.smoothed_cursor = Some(next);
                    resources.input.send_mouse(next.x, next.y, MouseKind::Move);
                }
            }
            solving_shape.state = State::Solving(timeout);
        },
    }
}

/// What `shape` wants next of the current frame: the answers come one after the other, and each may
/// settle whether another is wanted at all.
pub open spec fn wanted(shape: SolvingShape, tick: u64, seen: Detector) -> Option<Detection> {
    match shape.state {
        State::Waiting => if tick % CHECK_INTERVAL != 0 {
            None
        } else if seen.lie_detector_shape_preparing is None {
            Some(Detection::LieDetectorShapePreparing)
        } else if seen.lie_detector_shape_preparing == Some(true) {
            None
        } else if seen.lie_detector_shape is Unasked {
            Some(Detection::LieDetectorShape)
        } else {
            None
        },
        State::Solving(t) => if seen.lie_detector_shape is Unasked {
            Some(Detection::LieDetectorShape)
        } else if seen.lie_detector_shape is Missing || lifecycle(t, SOLVING_TICKS) is Ended {
            None
        } else if solver_due(tick) && seen.shape_cursor is Unasked {
            Some(
                Detection::ShapeCursor { region: shape.region, fresh: shape.solver_fresh },
            )
        } else {
            match detected(shape, tick, seen).target_cursor {
                Some(to) if seen.smoothed_cursor is None => Some(
                    Detection::SmoothedCursor { from: cursor_from(shape, to), to },
                ),
                _ => None,
            }
        },
        State::Completed => None,
    }
}

/// Tells which detection to run for `shape` before tick number `tick` is taken.
pub fn next_shape_detection(shape: &SolvingShape, tick: u64, seen: &Detector) -> (detection: Option<
    Detection,
>)
    ensures
        detection == wanted(*shape, tick, *seen),
{
    match shape.state {
        State::Waiting => {
            if !tick.is_multiple_of(CHECK_INTERVAL) {
                return None;
            }
            match seen.lie_detector_shape_preparing {
                None => Some(Detection::LieDetectorShapePreparing),
                Some(true) => None,
                Some(false) => {
                    if matches!(seen.lie_detector_shape, Sighting::Unasked) {
                        Some(Detection::LieDetectorShape)
                    } else {
                        None
                    }
                },
            }
        },
        State::Solving(timeout) => {
            match seen.lie_detector_shape {
                Sighting::Unasked => {
                    return Some(Detection::LieDetectorShape);
                },
                Sighting::Missing => {
                    return None;
                },
                Sighting::At(_) => {},
            }
            if matches!(next_timeout_lifecycle(timeout, SOLVING_TICKS), Lifecycle::Ended) {
                return None;
            }
            let mut target = shape.target_cursor;
            if tick.is_multiple_of(SOLVE_INTERVAL) {
                match seen.shape_cursor {
                    ShapeCursor::Unasked => {
                        return Some(
                            Detection::ShapeCursor {
                                region: shape.region,
                                fresh: shape.solver_fresh,
                            },
                        );
                    },
                    ShapeCursor::At(cursor) => {
                        target = Some(cursor);
                    },
                    ShapeCursor::Lost => {},
                }
            }
            match target {
                Some(to) => {
                    if seen.smoothed_cursor.is_some() {
                        return None;
                    }
                    let from = match shape.smoothed_cursor {
                        Some(cursor) => cursor,
                        None => to,
                    };
                    Some(Detection::SmoothedCursor { from, to })
                },
                None => None,
            }
        },
        State::Completed => None,
    }
}

/// Where nothing is wanted, further answers would change nothing.
pub proof fn law_wanted_detections_suffice(
    shape: SolvingShape,
    number: u64,
    seen: Detector,
    more: Detector,
)
    requires
        wanted(shape, number, seen) is None,
        seen.kept_by(more),
    ensures
        step(shape, number, more) == step(shape, number, seen),
{
}

/// Once the answers are in, a tick that goes on solving with a target known sends the mouse exactly
/// once, to the smoothed position.
pub proof fn law_mouse_follows_target(shape: SolvingShape, number: u64, seen: Detector)
    requires
        shape.state is Solving,
        wanted(shape, number, seen) is None,
    ensures
        ({
            let taken = step(shape, number, seen);
            taken.next.state is Solving && taken.next.target_cursor is Some ==> {
                &&& taken.next.smoothed_cursor == seen.smoothed_cursor
                &&& seen.smoothed_cursor matches Some(next) && taken.sent == seq![
                    InputCommand::Mouse { x: next.x, y: next.y, kind: MouseKind::Move },
                ]
            }
        }),
{
}

/// Solving is over in the very tick whose frame does not show the lie detector, and nothing is sent.
pub proof fn law_ends_with_the_lie_detector(shape: SolvingShape, number: u64, seen: Detector)
    requires
        shape.state is Solving,
        seen.lie_detector_shape is Missing,
    ensures
        step(shape, number, seen) == quietly(shape.at(State::Completed)),
{
}

/// Nothing is sent but mouse moves, and none before a shape was detected.
pub proof fn law_only_mouse_moves(shape: SolvingShape, number: u64, seen: Detector)
    ensures
        ({
            let taken = step(shape, number, seen);
            &&& taken.sent.len() <= 1
            &&& forall|i: int|
                0 <= i < taken.sent.len() ==> (#[trigger] taken.sent[i] matches InputCommand::Mouse {
                    kind: MouseKind::Move,
                    ..
                })
            &&& taken.next.target_cursor is None ==> taken.sent.len() == 0
        }),
{
}

/// A target once detected is kept until the next detection.
pub proof fn law_target_is_kept(shape: SolvingShape, number: u64, seen: Detector)
    ensures
        shape.target_cursor is Some ==> step(shape, number, seen).next.target_cursor is Some,
        seen.shape_cursor !is At || !solver_due(number) || shape.state !is Solving ==> step(
            shape,
            number,
            seen,
        ).next.target_cursor == shape.target_cursor,
{
}

/// Every tick of solving brings its end closer: it is over after at most 547 ticks.
pub proof fn law_solving_progress(shape: SolvingShape, number: u64, seen: Detector)
    requires
        shape.wf(),
        shape.state is Solving,
    ensures
        ({
            let left = shape.state->Solving_0.updates_left(SOLVING_TICKS);
            &&& 1 <= left <= 547
            &&& match step(shape, number, seen).next.state {
                State::Completed => true,
                State::Solving(t) => t.within(SOLVING_TICKS) && t.updates_left(SOLVING_TICKS)
                    == left - 1,
                State::Waiting => false,
            }
        }),
{
}

/// An attempt after the given frames, the first of them seen in tick number `number`. One that is
/// completed stays so.
pub open spec fn run(shape: SolvingShape, number: u64, frames: Seq<Detector>) -> SolvingShape
    decreases frames.len(),
{
    if frames.len() == 0 || shape.state is Completed {
        shape
    } else {
        run(step(shape, number, frames[0]).next, (number + 1) as u64, frames.skip(1))
    }
}

/// Solving is over in time, whatever the frames show.
pub proof fn law_solving_ends(shape: SolvingShape, number: u64, frames: Seq<Detector>)
    requires
        shape.wf(),
        shape.state is Solving,
        frames.len() >= shape.state->Solving_0.updates_left(SOLVING_TICKS),
    ensures
        run(shape, number, frames).state is Completed,
    decreases frames.len(),
{
    let next = step(shape, number, frames[0]).next;
    law_solving_progress(shape, number, frames[0]);
    if next.state is Completed {
        assert(run(next, (number + 1) as u64, frames.skip(1)) == next);
    } else {
        law_solving_ends(next, (number + 1) as u64, frames.skip(1));
    }
}

/// While waiting, nothing happens but in every thirtieth tick whose frame does not show preparations.
/// Then the shape is followed in the region below the title, with a fresh solver; without a title the
/// attempt is over.
pub proof fn law_shape_waits(
    resources: &mut Resources,
    player: &mut PlayerEntity,
    shape: SolvingShape,
)
    requires
        call_ensures(update_solving_shape_state, (resources, player), ()),
        old(player).state == Player::SolvingShape(shape),
        shape.state == State::Waiting,
        old(player).context.action is Some,
        old(resources).detector.lie_detector_shape matches Sighting::At(title) ==> title.y + 20
            <= i32::MAX,
    ensures
        ({
            let looks = old(resources).tick % 30 == 0 && old(
                resources,
            ).detector.lie_detector_shape_preparing != Some(true);
            let title = old(resources).detector.lie_detector_shape;
            &&& final(resources).input.sent@ == old(resources).input.sent@
            &&& !looks ==> final(player).state == old(player).state
            &&& looks && title is At ==> final(player).state == Player::SolvingShape(
                SolvingShape {
                    state: State::Solving(Timeout { current: 0, started: false }),
                    region: Rect {
                        x: (title->At_0).x,
                        y: ((title->At_0).y + 20) as i32,
                        width: 755,
                        height: 505,
                    },
                    solver_fresh: true,
                    target_cursor: shape.target_cursor,
                    smoothed_cursor: shape.smoothed_cursor,
                },
            )
            &&& looks && title !is At ==> final(player).state is Idle && final(player).context.action is None
            &&& !looks || title is At ==> final(player).context == old(player).context
        }),
{
}

/// Following the shape ends when the lie detector is gone or time is up. Until then a detection in
/// every eighth tick becomes the target, whatever the target was before, and the mouse is sent to the
/// smoothed position in every tick in which there is a target.
pub proof fn law_shape_is_followed(
    resources: &mut Resources,
    player: &mut PlayerEntity,
    shape: SolvingShape,
    t: Timeout,
)
    requires
        call_ensures(update_solving_shape_state, (resources, player), ()),
        old(player).state == Player::SolvingShape(shape),
        shape.state == State::Solving(t),
        old(player).context.action is Some,
    ensures
        ({
            let seen = old(resources).detector;
            let due = old(resources).tick % 8 == 0;
            let over = seen.lie_detector_shape == Sighting::Missing || t.started && t.current
                >= 545;
            &&& over ==> {
                &&& final(player).state is Idle
                &&& final(player).context.action is None
                &&& final(resources).input.sent@ == old(resources).input.sent@
            }
            &&& !over ==> {
                &&& final(player).context == old(player).context
                &&& final(player).state matches Player::SolvingShape(next) && {
                    &&& next.state matches State::Solving(u) && u.started && u.current == (
                    if t.started {
                        t.current + 1
                    } else {
                        t.current as int
                    })
                    &&& next.region == shape.region
                    &&& due && seen.shape_cursor is At ==> next.target_cursor == Some(
                        seen.shape_cursor->At_0,
                    )
                    &&& !(due && seen.shape_cursor is At) ==> next.target_cursor
                        == shape.target_cursor
                    &&& next.solver_fresh <==> shape.solver_fresh && !due
                    &&& next.target_cursor is Some && seen.smoothed_cursor is Some ==> {
                        &&& next.smoothed_cursor == seen.smoothed_cursor
                        &&& final(resources).input.sent@ == old(resources).input.sent@.push(
                            InputCommand::Mouse {
                                x: (seen.smoothed_cursor->Some_0).x,
                                y: (seen.smoothed_cursor->Some_0).y,
                                kind: MouseKind::Move,
                            },
                        )
                    }
                    &&& next.target_cursor is None || seen.smoothed_cursor is None ==> {
                        &&& next.smoothed_cursor == shape.smoothed_cursor
                        &&& final(resources).input.sent@ == old(resources).input.sent@
                    }
                }
            }
        }),
{
}

/// An attempt that no action asks for is dropped; nothing else of the player changes, and nothing of
/// the rest but the input.
pub proof fn law_shape_without_action(resources: &mut Resources, player: &mut PlayerEntity)
    requires
        call_ensures(update_solving_shape_state, (resources, player), ()),
    ensures
        old(player).context.action is None ==> final(player).state is Idle && final(player).context == old(player).context,
        final(resources).detector == old(resources).detector,
        final(resources).operation == old(resources).operation,
        final(resources).tick == old(resources).tick,
{
}

/// While waiting, a frame is looked at in every thirtieth tick only: first for preparations, and
/// where there are none for the title.
pub proof fn law_shape_asks_while_waiting(
    shape: &SolvingShape,
    tick: u64,
    seen: &Detector,
    detection: Option<Detection>,
)
    requires
        call_ensures(next_shape_detection, (shape, tick, seen), detection),
        shape.state == State::Waiting,
    ensures
        detection == Some(Detection::LieDetectorShapePreparing) <==> tick % 30 == 0
            && seen.lie_detector_shape_preparing is None,
        detection == Some(Detection::LieDetectorShape) <==> tick % 30 == 0
            && seen.lie_detector_shape_preparing == Some(false) && seen.lie_detector_shape
            == Sighting::Unasked,
        detection matches Some(asked) ==> asked is LieDetectorShapePreparing || asked
            is LieDetectorShape,
{
    if let Some(preparing) = seen.lie_detector_shape_preparing {
        assert(seen.lie_detector_shape_preparing == Some(preparing));
        assert(preparing || seen.lie_detector_shape_preparing == Some(false));
    }
}

/// While solving, every frame is first looked at for the lie detector. While it shows and there is
/// time, every eighth one then goes to the solver, in the region and fresh as long as it did not run
/// yet. Last the mouse is smoothed: towards the shape where it was just detected, else towards the
/// target, from where the mouse was sent before, and at first from there itself.
pub proof fn law_shape_asks_while_solving(
    shape: &SolvingShape,
    t: Timeout,
    tick: u64,
    seen: &Detector,
    detection: Option<Detection>,
)
    requires
        call_ensures(next_shape_detection, (shape, tick, seen), detection),
        shape.state == State::Solving(t),
    ensures
        ({
            let on = seen.lie_detector_shape is At && !(t.started && t.current >= 545);
            let due = tick % 8 == 0;
            let runs = on && due && seen.shape_cursor is Unasked;
            let detected = due && seen.shape_cursor is At;
            let from = |to: Point| match shape.smoothed_cursor {
                Some(cursor) => cursor,
                None => to,
            };
            &&& detection == Some(Detection::LieDetectorShape) <==> seen.lie_detector_shape
                == Sighting::Unasked
            &&& seen.lie_detector_shape != Sighting::Unasked && !on ==> detection is None
            &&& runs ==> detection == Some(
                Detection::ShapeCursor { region: shape.region, fresh: shape.solver_fresh },
            )
            &&& on && !runs && seen.smoothed_cursor is Some ==> detection is None
            &&& on && !runs && seen.smoothed_cursor is None && detected ==> detection == Some(
                Detection::SmoothedCursor {
                    from: from(seen.shape_cursor->At_0),
                    to: seen.shape_cursor->At_0,
                },
            )
            &&& on && !runs && seen.smoothed_cursor is None && !detected && shape.target_cursor
                is Some ==> detection == Some(
                Detection::SmoothedCursor {
                    from: from(shape.target_cursor->Some_0),
                    to: shape.target_cursor->Some_0,
                },
            )
            &&& on && !runs && !detected && shape.target_cursor is None ==> detection is None
        }),
{
}

/// An attempt begins with waiting, a fresh solver, and neither a region nor a target.
pub proof fn law_shape_begins(shape: SolvingShape)
    requires
        call_ensures(SolvingShape::default, (), shape),
    ensures
        shape.state == State::Waiting,
        shape.solver_fresh,
        shape.region.x == 0 && shape.region.y == 0,
        shape.region.width == 0 && shape.region.height == 0,
        shape.target_cursor is None,
        shape.smoothed_cursor is None,
{
}

/// A copy of an attempt differs from it in nothing but the solver, which is fresh.
pub proof fn law_shape_copy(shape: &SolvingShape, copy: SolvingShape)
    requires
        call_ensures(SolvingShape::clone, (shape,), copy),
    ensures
        copy.solver_fresh,
        copy.state == shape.state,
        copy.region == shape.region,
        copy.target_cursor == shape.target_cursor,
        copy.smoothed_cursor == shape.smoothed_cursor,
{
}

/// Every stage of an attempt has its own name.
pub proof fn law_shape_stage_names(shape: &SolvingShape, text: String)
    requires
        call_ensures(SolvingShape::describe, (shape,), text),
    ensures
        shape.state is Waiting ==> text@ == "Waiting"@,
        shape.state is Solving ==> text@ == "Solving"@,
        shape.state is Completed ==> text@ == "Completed"@,
{
}

} // verus!

//! The Threads of Fate quest: from the mailbox, through a finished quest if there is one, to
//! asking the fate character.

use vstd::prelude::*;

use crate::geometry::{half_of, Point, Rect};
use crate::player::timeout::{lifecycle, next_timeout_lifecycle, Lifecycle, Timeout};
use crate::player::{next_action, Player, PlayerContext, PlayerEntity};
use crate::resources::{Detection, Detector, InputCommand, KeyKind, MouseKind, Resources, Sighting};

verus! {

/// Maximum number of rounds in which the quest is looked for, scrolling in between.
pub const MAX_SCROLL_CYCLES: u32 = 3;

/// Number of down-arrow presses per scroll.
pub const DOWN_PRESSES_PER_CYCLE: u32 = 5;

/// Interval (in ticks) between interact key presses.
pub const INTERACT_PRESS_INTERVAL: u32 = 8;

/// Interval (in ticks) between interact key presses while finishing a quest.
pub const COMPLETE_PRESS_INTERVAL: u32 = 4;

/// Interact key presses after which finishing a quest is forced to end.
pub const MAX_COMPLETE_PRESS_COUNT: u32 = 4;

/// Maximum consecutive failures to ask before stopping for good.
pub const MAX_ASK_FAIL_COUNT: u32 = 2;

/// Maximum consecutive "not visible" checks before concluding that a dialog has truly ended.
pub const MAX_DIALOG_GRACE_CHECKS: u32 = 3;

/// Maximum interact key presses before forcing a dialog to end.
pub const MAX_INTERACT_PRESS_COUNT: u32 = 11;

pub const BULB_TICKS: u32 = 30;

pub const COMPLETE_TICKS: u32 = 30;

pub const UNRAVELLING_TICKS: u32 = 30;

pub const CHARACTER_TICKS: u32 = 60;

pub const ASK_TICKS: u32 = 10;

/// The stages of one round.
#[derive(Debug, Clone, Copy, PartialEq, Eq, Structural)]
pub enum State {
    /// Clicks the bulb until the mailbox opens: (timeout, interact presses).
    ClickBulb(Timeout, u32),
    /// Looks for a finished quest in the mailbox, once per round.
    FindComplete(Timeout),
    /// Talks a finished quest through: (timeout, presses, misses).
    InteractComplete(Timeout, u32, u32),
    /// Looks for the quest to unravel: (timeout, scrolls).
    FindUnravelling(Timeout, u32),
    /// Waits a little after the quest was clicked.
    ClickUnravelling(Timeout),
    /// Waits for the fate characters to show.
    WaitFateCharacterUI(Timeout),
    /// Clicks the fate character.
    ClickFateCharacter(Timeout),
    /// Clicks the ask button: (timeout, retries, whether it was clicked).
    ClickAsk(Timeout, u32, bool),
    /// Talks the dialog through: (timeout, presses, misses).
    InteractDialog(Timeout, u32, u32),
}

/// One round of Threads of Fate.
#[derive(Debug, Clone, Copy, PartialEq, Eq, Structural)]
pub struct ThreadsOfFateState {
    pub state: State,
    /// Total number of finished quests to hand in.
    pub target_complete_count: u32,
    /// Interact key configured by the user.
    pub interact_key: KeyKind,
    /// Where the mouse rests so that it covers nothing.
    pub mouse_rest: Point,
    /// Whether the round was successful.
    pub success: bool,
    /// Whether a finished quest was found this round.
    pub found_complete: bool,
    /// Whether looking for a finished quest is over for this round.
    pub complete_used: bool,
    /// Number of finished quests handed in so far.
    pub complete_executed_count: u32,
    /// Whether to stop for good.
    pub permanently_stopped: bool,
    /// Whether the round is over.
    pub completed: bool,
}

impl ThreadsOfFateState {
    pub open spec fn begin(target_count: u32, interact_key: KeyKind) -> ThreadsOfFateState {
        ThreadsOfFateState {
            state: State::ClickBulb(Timeout::fresh(), 0),
            target_complete_count: target_count,
            interact_key,
            mouse_rest: Point { x: 1100, y: 550 },
            success: false,
            found_complete: false,
            complete_used: false,
            complete_executed_count: 0,
            permanently_stopped: false,
            completed: false,
        }
    }

    /// A round that begins.
    pub fn new(target_count: u32, _wait_interval_ticks: u32, interact_key: KeyKind) -> (tof:
        ThreadsOfFateState)
        ensures
            tof == Self::begin(target_count, interact_key),
            tof.wf(),
    {
        ThreadsOfFateState {
            state: State::ClickBulb(Timeout::default(), 0),
            target_complete_count: target_count,
            interact_key,
            mouse_rest: Point::new(1100, 550),
            success: false,
            found_complete: false,
            complete_used: false,
            complete_executed_count: 0,
            permanently_stopped: false,
            completed: false,
        }
    }

    /// No quest has been handed in yet and one may still be.
    pub open spec fn may_hand_in(self) -> bool {
        match self.state {
            State::ClickBulb(..) | State::FindComplete(_) => !self.complete_used,
            State::InteractComplete(..) => true,
            _ => false,
        }
    }

    /// The counters are within their limits, and at most one quest is handed in per round.
    pub open spec fn wf(self) -> bool {
        &&& match self.state {
            State::ClickBulb(timeout, presses) => timeout.within(BULB_TICKS) && presses <= 1,
            State::FindComplete(timeout) => timeout.within(COMPLETE_TICKS),
            State::InteractComplete(timeout, presses, misses) => {
                &&& timeout.within(COMPLETE_PRESS_INTERVAL)
                &&& presses <= MAX_COMPLETE_PRESS_COUNT
                &&& misses <= MAX_DIALOG_GRACE_CHECKS
                &&& self.complete_used
            },
            State::FindUnravelling(timeout, scrolls) => {
                &&& timeout.within(UNRAVELLING_TICKS)
                &&& scrolls < MAX_SCROLL_CYCLES
            },
            State::ClickUnravelling(timeout) => timeout.within(UNRAVELLING_TICKS),
            State::WaitFateCharacterUI(timeout) => timeout.within(CHARACTER_TICKS),
            State::ClickFateCharacter(timeout) => timeout.within(CHARACTER_TICKS),
            State::ClickAsk(timeout, retries, _) => {
                &&& timeout.within(ASK_TICKS)
                &&& retries < MAX_ASK_FAIL_COUNT
            },
            State::InteractDialog(timeout, presses, misses) => {
                &&& timeout.within(INTERACT_PRESS_INTERVAL)
                &&& presses <= MAX_INTERACT_PRESS_COUNT
                &&& misses <= MAX_DIALOG_GRACE_CHECKS
            },
        }
        &&& self.complete_executed_count <= 1
        &&& self.may_hand_in() ==> self.complete_executed_count == 0
        &&& self.success ==> self.completed
    }

    /// The round in another stage.
    pub open spec fn at(self, state: State) -> ThreadsOfFateState {
        ThreadsOfFateState { state, ..self }
    }

    /// The round, over and unsuccessful unless it already counts as a success.
    pub open spec fn over(self) -> ThreadsOfFateState {
        ThreadsOfFateState { completed: true, ..self }
    }

    /// Name of the stage.
    pub open spec fn stage_name(self) -> Seq<char> {
        match self.state {
            State::ClickBulb(..) => "ClickBulb"@,
            State::FindComplete(_) => "FindComplete"@,
            State::InteractComplete(..) => "InteractComplete"@,
            State::FindUnravelling(..) => "FindUnravelling"@,
            State::ClickUnravelling(_) => "ClickUnravelling"@,
            State::WaitFateCharacterUI(_) => "WaitFateCharacterUI"@,
            State::ClickFateCharacter(_) => "ClickFateCharacter"@,
            State::ClickAsk(..) => "ClickAsk"@,
            State::InteractDialog(..) => "InteractDialog"@,
        }
    }

    /// Writes the name of the stage.
    pub fn describe(&self) -> (text: String)
        ensures
            text@ == self.stage_name(),
    {
        match self.state {
            State::ClickBulb(_, _) => String::from_str("ClickBulb"),
            State::FindComplete(_) => String::from_str("FindComplete"),
            State::InteractComplete(_, _, _) => String::from_str("InteractComplete"),
            State::FindUnravelling(_, _) => String::from_str("FindUnravelling"),
            State::ClickUnravelling(_) => String::from_str("ClickUnravelling"),
            State::WaitFateCharacterUI(_) => String::from_str("WaitFateCharacterUI"),
            State::ClickFateCharacter(_) => String::from_str("ClickFateCharacter"),
            State::ClickAsk(_, _, _) => String::from_str("ClickAsk"),
            State::InteractDialog(_, _, _) => String::from_str("InteractDialog"),
        }
    }
}

/// What one tick makes of a round: the round after it, and the input it sends.
pub type Step = (ThreadsOfFateState, Seq<InputCommand>);

/// The press of the interact key.
pub open spec fn interact(tof: ThreadsOfFateState) -> Seq<InputCommand> {
    seq![InputCommand::Key(tof.interact_key)]
}

/// The mouse goes out of the way.
pub open spec fn rest(tof: ThreadsOfFateState) -> InputCommand {
    InputCommand::Mouse { x: tof.mouse_rest.x, y: tof.mouse_rest.y, kind: MouseKind::Move }
}

/// A click on the centre of `rect`, after which the mouse goes out of the way.
pub open spec fn click(tof: ThreadsOfFateState, rect: Rect) -> Seq<InputCommand> {
    seq![
        InputCommand::Mouse {
            x: rect.mid_x() as i32,
            y: rect.mid_y() as i32,
            kind: MouseKind::Click,
        },
        rest(tof),
    ]
}

pub open spec fn nothing() -> Seq<InputCommand> {
    Seq::empty()
}

/// A finished quest was clicked.
pub open spec fn found_complete(tof: ThreadsOfFateState) -> ThreadsOfFateState {
    ThreadsOfFateState {
        found_complete: true,
        complete_used: true,
        state: State::InteractComplete(Timeout::fresh(), 0, 0),
        ..tof
    }
}

/// No finished quest this round: on to the quest to unravel.
pub open spec fn without_complete(tof: ThreadsOfFateState) -> ThreadsOfFateState {
    ThreadsOfFateState {
        found_complete: false,
        complete_used: true,
        state: State::FindUnravelling(Timeout::fresh(), 0),
        ..tof
    }
}

/// A finished quest was handed in: back to the mailbox.
pub open spec fn handed_in(tof: ThreadsOfFateState) -> ThreadsOfFateState {
    ThreadsOfFateState {
        complete_executed_count: (tof.complete_executed_count + 1) as u32,
        complete_used: true,
        state: State::ClickBulb(Timeout::fresh(), 0),
        ..tof
    }
}

/// The dialog is over: the round succeeded.
pub open spec fn succeeded(tof: ThreadsOfFateState) -> ThreadsOfFateState {
    ThreadsOfFateState { success: true, completed: true, ..tof }
}

pub open spec fn click_bulb_step(
    tof: ThreadsOfFateState,
    timeout: Timeout,
    presses: u32,
    seen: Detector,
) -> Step {
    match lifecycle(timeout, BULB_TICKS) {
        Lifecycle::Started(t) => (tof.at(State::ClickBulb(t, presses)), seq![rest(tof)]),
        Lifecycle::Ended => (tof.over(), nothing()),
        Lifecycle::Updated(t) => if presses < 1 && seen.tof_dialog_visible == Some(true) {
            (tof.at(State::ClickBulb(t, (presses + 1) as u32)), interact(tof))
        } else if t.current % 10 == 0 && seen.tof_maple_mailbox == Some(true) {
            (tof.at(State::FindComplete(Timeout::fresh())), nothing())
        } else {
            match seen.tof_bulb.place() {
                Some(rect) if t.current >= 5 && t.current % 5 == 0 =>
                    (tof.at(State::ClickBulb(t, presses)), click(tof, rect)),
                _ => (tof.at(State::ClickBulb(t, presses)), nothing()),
            }
        },
    }
}

pub open spec fn find_complete_step(
    tof: ThreadsOfFateState,
    timeout: Timeout,
    seen: Detector,
) -> Step {
    if tof.complete_used {
        (without_complete(tof), nothing())
    } else {
        match lifecycle(timeout, COMPLETE_TICKS) {
            Lifecycle::Ended => (without_complete(tof), nothing()),
            Lifecycle::Started(t) => match seen.tof_complete.place() {
                Some(rect) => (found_complete(tof), click(tof, rect)),
                None => (tof.at(State::FindComplete(t)), nothing()),
            },
            Lifecycle::Updated(t) => match seen.tof_complete.place() {
                Some(rect) if t.current % 10 == 0 => (found_complete(tof), click(tof, rect)),
                _ => (tof.at(State::FindComplete(t)), nothing()),
            },
        }
    }
}

pub open spec fn interact_complete_step(
    tof: ThreadsOfFateState,
    timeout: Timeout,
    presses: u32,
    misses: u32,
    seen: Detector,
) -> Step {
    match lifecycle(timeout, COMPLETE_PRESS_INTERVAL) {
        Lifecycle::Started(t) => (
            tof.at(State::InteractComplete(t, presses, misses)),
            if misses == 0 {
                interact(tof)
            } else {
                nothing()
            },
        ),
        Lifecycle::Updated(t) =>
            (tof.at(State::InteractComplete(t, presses, misses)), nothing()),
        Lifecycle::Ended => if presses >= MAX_COMPLETE_PRESS_COUNT {
            (handed_in(tof), nothing())
        } else if seen.tof_dialog_visible == Some(true) {
            (
                tof.at(State::InteractComplete(Timeout::fresh(), (presses + 1) as u32, 0)),
                interact(tof),
            )
        } else if misses < MAX_DIALOG_GRACE_CHECKS {
            (
                tof.at(
                    State::InteractComplete(
                        Timeout::fresh(),
                        (presses + 1) as u32,
                        (misses + 1) as u32,
                    ),
                ),
                nothing(),
            )
        } else {
            (handed_in(tof), nothing())
        },
    }
}

/// One scroll down the quest list.
pub open spec fn scroll_down() -> Seq<InputCommand> {
    Seq::new(DOWN_PRESSES_PER_CYCLE as nat, |i: int| InputCommand::Key(KeyKind::Down))
}

pub open spec fn find_unravelling_step(
    tof: ThreadsOfFateState,
    timeout: Timeout,
    scrolls: u32,
    seen: Detector,
) -> Step {
    match (lifecycle(timeout, UNRAVELLING_TICKS), seen.tof_unravelling.place()) {
        (Lifecycle::Updated(t), _) =>
            (tof.at(State::FindUnravelling(t, scrolls)), nothing()),
        (_, Some(rect)) =>
            (tof.at(State::ClickUnravelling(Timeout::fresh())), click(tof, rect)),
        (Lifecycle::Started(t), None) =>
            (tof.at(State::FindUnravelling(t, scrolls)), nothing()),
        (Lifecycle::Ended, None) => if scrolls + 1 >= MAX_SCROLL_CYCLES {
            (tof.over(), nothing())
        } else {
            (
                tof.at(State::FindUnravelling(Timeout::fresh(), (scrolls + 1) as u32)),
                scroll_down(),
            )
        },
    }
}

pub open spec fn click_unravelling_step(tof: ThreadsOfFateState, timeout: Timeout) -> Step {
    match lifecycle(timeout, UNRAVELLING_TICKS) {
        Lifecycle::Started(t) | Lifecycle::Updated(t) =>
            (tof.at(State::ClickUnravelling(t)), nothing()),
        Lifecycle::Ended => (tof.at(State::WaitFateCharacterUI(Timeout::fresh())), nothing()),
    }
}

pub open spec fn wait_fate_character_ui_step(
    tof: ThreadsOfFateState,
    timeout: Timeout,
    seen: Detector,
) -> Step {
    match lifecycle(timeout, CHARACTER_TICKS) {
        Lifecycle::Started(t) => (tof.at(State::WaitFateCharacterUI(t)), nothing()),
        Lifecycle::Ended => (tof.over(), nothing()),
        Lifecycle::Updated(t) => if t.current % 10 == 0 && seen.tof_fate_character_ui == Some(
            true,
        ) {
            (tof.at(State::ClickFateCharacter(Timeout::fresh())), nothing())
        } else {
            (tof.at(State::WaitFateCharacterUI(t)), nothing())
        },
    }
}

pub open spec fn click_fate_character_step(
    tof: ThreadsOfFateState,
    timeout: Timeout,
    seen: Detector,
) -> Step {
    match lifecycle(timeout, CHARACTER_TICKS) {
        Lifecycle::Started(t) => (tof.at(State::ClickFateCharacter(t)), nothing()),
        Lifecycle::Ended => (tof.over(), nothing()),
        Lifecycle::Updated(t) => match seen.tof_fate_character.place() {
            Some(rect) if t.current % 15 == 0 =>
                (tof.at(State::ClickAsk(Timeout::fresh(), 0, false)), click(tof, rect)),
            _ => (tof.at(State::ClickFateCharacter(t)), nothing()),
        },
    }
}

pub open spec fn click_ask_step(
    tof: ThreadsOfFateState,
    timeout: Timeout,
    retries: u32,
    clicked: bool,
    seen: Detector,
) -> Step {
    let talking = tof.at(State::InteractDialog(Timeout::fresh(), 0, 0));
    match lifecycle(timeout, ASK_TICKS) {
        Lifecycle::Started(t) => (tof.at(State::ClickAsk(t, retries, clicked)), nothing()),
        Lifecycle::Ended => if clicked && seen.tof_dialog_visible == Some(true) {
            (talking, nothing())
        } else if retries + 1 >= MAX_ASK_FAIL_COUNT {
            (ThreadsOfFateState { permanently_stopped: true, ..tof.over() }, nothing())
        } else {
            (
                tof.at(State::ClickAsk(Timeout::fresh(), (retries + 1) as u32, false)),
                nothing(),
            )
        },
        Lifecycle::Updated(t) => if clicked && seen.tof_dialog_visible == Some(true) {
            (talking, nothing())
        } else {
            match seen.tof_ask_button.place() {
                Some(rect) if t.current == 2 || t.current % 8 == 0 =>
                    (tof.at(State::ClickAsk(t, retries, true)), click(tof, rect)),
                _ => (tof.at(State::ClickAsk(t, retries, clicked)), nothing()),
            }
        },
    }
}

pub open spec fn interact_dialog_step(
    tof: ThreadsOfFateState,
    timeout: Timeout,
    presses: u32,
    misses: u32,
    seen: Detector,
) -> Step {
    let visible = seen.tof_dialog_visible == Some(true);
    match lifecycle(timeout, INTERACT_PRESS_INTERVAL) {
        Lifecycle::Started(t) => (
            tof.at(State::InteractDialog(t, presses, misses)),
            if misses == 0 && visible {
                interact(tof)
            } else {
                nothing()
            },
        ),
        Lifecycle::Updated(t) =>
            (tof.at(State::InteractDialog(t, presses, misses)), nothing()),
        Lifecycle::Ended => if presses >= MAX_INTERACT_PRESS_COUNT {
            (succeeded(tof), nothing())
        } else if visible {
            (
                tof.at(State::InteractDialog(Timeout::fresh(), (presses + 1) as u32, 0)),
                interact(tof),
            )
        } else if misses >= MAX_DIALOG_GRACE_CHECKS {
            (succeeded(tof), nothing())
        } else {
            (
                tof.at(
                    State::InteractDialog(
                        Timeout::fresh(),
                        (presses + 1) as u32,
                        (misses + 1) as u32,
                    ),
                ),
                nothing(),
            )
        },
    }
}

/// One tick of a round.
pub open spec fn step(tof: ThreadsOfFateState, seen: Detector) -> Step {
    match tof.state {
        State::ClickBulb(t, presses) => click_bulb_step(tof, t, presses, seen),
        State::FindComplete(t) => find_complete_step(tof, t, seen),
        State::InteractComplete(t, presses, misses) =>
            interact_complete_step(tof, t, presses, misses, seen),
        State::FindUnravelling(t, scrolls) => find_unravelling_step(tof, t, scrolls, seen),
        State::ClickUnravelling(t) => click_unravelling_step(tof, t),
        State::WaitFateCharacterUI(t) => wait_fate_character_ui_step(tof, t, seen),
        State::ClickFateCharacter(t) => click_fate_character_step(tof, t, seen),
        State::ClickAsk(t, retries, clicked) => click_ask_step(tof, t, retries, clicked, seen),
        State::InteractDialog(t, presses, misses) =>
            interact_dialog_step(tof, t, presses, misses, seen),
    }
}

/// What the end of a round does to the context.
pub open spec fn round_over(context: PlayerContext, tof: ThreadsOfFateState) -> PlayerContext {
    let cleared = PlayerContext {
        threads_of_fate_permanently_stopped: context.threads_of_fate_permanently_stopped
            || tof.permanently_stopped,
        ..context.action_cleared()
    };
    if tof.success {
        PlayerContext { threads_of_fate_fail_count: 0, ..cleared }
    } else {
        cleared.failed_threads_of_fate()
    }
}

/// The player after a tick that brought the round to `tof`.
pub open spec fn player_after(player: PlayerEntity, tof: ThreadsOfFateState) -> PlayerEntity {
    if player.context.action is None {
        PlayerEntity { state: Player::Idle, ..player }
    } else if tof.completed {
        PlayerEntity { state: Player::Idle, context: round_over(player.context, tof) }
    } else {
        PlayerEntity { state: Player::ThreadsOfFate(tof), ..player }
    }
}

/// Updates the [`Player::ThreadsOfFate`] contextual state.
pub fn update_threads_of_fate_state(resources: &mut Resources, player: &mut PlayerEntity)
    requires
        old(player).state matches Player::ThreadsOfFate(tof) && tof.wf(),
        old(resources).detector.clickable(),
    ensures
        ({
            let (tof, sent) = step(
                old(player).state->ThreadsOfFate_0,
                old(resources).detector,
            );
            &&& tof.wf()
            &&& *final(player) == player_after(*old(player), tof)
            &&& old(resources).sends(*final(resources), sent)
        }),
{
    let mut tof = match player.state {
        Player::ThreadsOfFate(tof) => tof,
        _ => {
            return;
        },
    };
    let ghost before = tof;
    proof {
        law_round_stays_well_formed(before, resources.detector);
    }

    match tof.state {
        State::ClickBulb(_, _) => update_click_bulb(resources, &mut tof),
        State::FindComplete(_) => update_find_complete(resources, &mut tof),
        State::InteractComplete(_, _, _) => update_interact_complete(resources, &mut tof),
        State::FindUnravelling(_, _) => update_find_unravelling(resources, &mut tof),
        State::ClickUnravelling(_) => update_click_unravelling(resources, &mut tof),
        State::WaitFateCharacterUI(_) => update_wait_fate_character_ui(resources, &mut tof),
        State::ClickFateCharacter(_) => update_click_fate_character(resources, &mut tof),
        State::ClickAsk(_, _, _) => update_click_ask(resources, &mut tof),
        State::InteractDialog(_, _, _) => update_interact_dialog(resources, &mut tof),
    }

    let player_next_state = if tof.completed {
        Player::Idle
    } else {
        Player::ThreadsOfFate(tof)
    };
    let is_terminal = tof.completed;

    match next_action(&player.context) {
        Some(_) => {
            if is_terminal {
                player.context.clear_action_completed();
                if tof.permanently_stopped {
                    player.context.set_threads_of_fate_permanently_stopped();
                }
                if tof.success {
                    player.context.clear_threads_of_fate_fail_count();
                } else {
                    player.context.track_threads_of_fate_fail_count();
                    if player.context.is_threads_of_fate_fail_count_limit_reached() {
                        player.context.set_threads_of_fate_permanently_stopped();
                    }
                }
            }
            player.state = player_next_state;
        },
        None => {
            player.state = Player::Idle;
        },
    }
}

/// The click point (centre) of a bounding box.
fn bbox_click_point(bbox: Rect) -> (point: (i32, i32))
    requires
        bbox.has_center(),
    ensures
        point.0 == bbox.mid_x(),
        point.1 == bbox.mid_y(),
{
    (bbox.x + half_of(bbox.width), bbox.y + half_of(bbox.height))
}

/// Clicks `bbox` and puts the mouse to rest.
fn click_bbox(resources: &mut Resources, tof: &ThreadsOfFateState, bbox: Rect)
    requires
        bbox.has_center(),
    ensures
        old(resources).sends(*final(resources), click(*tof, bbox)),
{
    let (x, y) = bbox_click_point(bbox);
    resources.input.send_mouse(x, y, MouseKind::Click);
    resources.input.send_mouse(tof.mouse_rest.x, tof.mouse_rest.y, MouseKind::Move);
}

/// Finds the bulb and clicks it.
fn update_click_bulb(resources: &mut Resources, tof: &mut ThreadsOfFateState)
    requires
        old(tof).state is ClickBulb,
        old(tof).wf(),
        old(resources).detector.clickable(),
    ensures
        *final(tof) == step(*old(tof), old(resources).detector).0,
        old(resources).sends(*final(resources), step(*old(tof), old(resources).detector).1),
{
    let (timeout, press_count) = match tof.state {
        State::ClickBulb(timeout, press_count) => (timeout, press_count),
        _ => {
            return;
        },
    };

    match next_timeout_lifecycle(timeout, BULB_TICKS) {
        Lifecycle::Started(timeout) => {
            resources.input.send_mouse(tof.mouse_rest.x, tof.mouse_rest.y, MouseKind::Move);
            tof.state = State::ClickBulb(timeout, press_count);
        },
        Lifecycle::Ended => {
            tof.completed = true;
        },
        Lifecycle::Updated(timeout) => {
            if press_count < 1 && resources.detector.detect_tof_dialog_visible() {
                resources.input.send_key(tof.interact_key);
                tof.state = State::ClickBulb(timeout, press_count + 1);
                return;
            }
            if timeout.current % 10 == 0 && resources.detector.detect_tof_maple_mailbox() {
                tof.state = State::FindComplete(Timeout::default());
                return;
            }
            if timeout.current >= 5 && timeout.current % 5 == 0 {
                if let Some(bbox) = resources.detector.tof_bulb.rect() {
                    click_bbox(resources, tof, bbox);
                }
            }
            tof.state = State::ClickBulb(timeout, press_count);
        },
    }
}

/// Looks for a finished quest, once per round.
fn update_find_complete(resources: &mut Resources, tof: &mut ThreadsOfFateState)
    requires
        old(tof).state is FindComplete,
        old(tof).wf(),
        old(resources).detector.clickable(),
    ensures
        *final(tof) == step(*old(tof), old(resources).detector).0,
        old(resources).sends(*final(resources), step(*old(tof), old(resources).detector).1),
{
    let timeout = match tof.state {
        State::FindComplete(timeout) => timeout,
        _ => {
            return;
        },
    };

    if tof.complete_used {
        tof.found_complete = false;
        tof.state = State::FindUnravelling(Timeout::default(), 0);
        return;
    }

    match next_timeout_lifecycle(timeout, COMPLETE_TICKS) {
        Lifecycle::Started(timeout) => {
            match resources.detector.tof_complete.rect() {
                Some(bbox) => {
                    click_bbox(resources, tof, bbox);
                    tof.found_complete = true;
                    tof.complete_used = true;
                    tof.state = State::InteractComplete(Timeout::default(), 0, 0);
                },
                None => {
                    tof.state = State::FindComplete(timeout);
                },
            }
        },
        Lifecycle::Ended => {
            tof.found_complete = false;
            tof.complete_used = true;
            tof.state = State::FindUnravelling(Timeout::default(), 0);
        },
        Lifecycle::Updated(timeout) => {
            if timeout.current % 10 == 0 {
                match resources.detector.tof_complete.rect() {
                    Some(bbox) => {
                        click_bbox(resources, tof, bbox);
                        tof.found_complete = true;
                        tof.complete_used = true;
                        tof.state = State::InteractComplete(Timeout::default(), 0, 0);
                    },
                    None => {
                        tof.state = State::FindComplete(timeout);
                    },
                }
            } else {
                tof.state = State::FindComplete(timeout);
            }
        },
    }
}

/// Presses the interact key to hand a finished quest in.
fn update_interact_complete(resources: &mut Resources, tof: &mut ThreadsOfFateState)
    requires
        old(tof).state is InteractComplete,
        old(tof).wf(),
    ensures
        *final(tof) == step(*old(tof), old(resources).detector).0,
        old(resources).sends(*final(resources), step(*old(tof), old(resources).detector).1),
{
    let (timeout, press_count, miss_count) = match tof.state {
        State::InteractComplete(timeout, press_count, miss_count) => (
            timeout,
            press_count,
            miss_count,
        ),
        _ => {
            return;
        },
    };

    match next_timeout_lifecycle(timeout, INTERACT_PRESS_INTERVAL / 2) {
        Lifecycle::Started(timeout) => {
            if miss_count == 0 {
                resources.input.send_key(tof.interact_key);
            }
            tof.state = State::InteractComplete(timeout, press_count, miss_count);
        },
        Lifecycle::Ended => {
            let new_count: u32 = press_count + 1;
            if press_count >= MAX_COMPLETE_PRESS_COUNT {
                tof.complete_executed_count = tof.complete_executed_count + 1;
                tof.complete_used = true;
                tof.state = State::ClickBulb(Timeout::default(), 0);
            } else if resources.detector.detect_tof_dialog_visible() {
                resources.input.send_key(tof.interact_key);
                tof.state = State::InteractComplete(Timeout::default(), new_count, 0);
            } else if miss_count < MAX_DIALOG_GRACE_CHECKS {
                tof.state =
                State::InteractComplete(Timeout::default(), new_count, miss_count + 1);
            } else {
                tof.complete_executed_count = tof.complete_executed_count + 1;
                tof.complete_used = true;
                tof.state = State::ClickBulb(Timeout::default(), 0);
            }
        },
        Lifecycle::Updated(timeout) => {
            tof.state = State::InteractComplete(timeout, press_count, miss_count);
        },
    }
}

/// Presses the down key once per line of a scroll.
fn press_down(resources: &mut Resources)
    ensures
        old(resources).sends(*final(resources), scroll_down()),
{
    let ghost before = *resources;
    let mut i: u32 = 0;
    while i < DOWN_PRESSES_PER_CYCLE
        invariant
            i <= DOWN_PRESSES_PER_CYCLE,
            before.sends(*resources, scroll_down().take(i as int)),
        decreases DOWN_PRESSES_PER_CYCLE - i,
    {
        resources.input.send_key(KeyKind::Down);
        proof {
            assert(scroll_down().take(i + 1) == scroll_down().take(i as int).push(
                InputCommand::Key(KeyKind::Down),
            ));
        }
        i += 1;
    }
    assert(scroll_down().take(i as int) == scroll_down());
}

/// Finds the quest to unravel, scrolling where it is not on the page.
fn update_find_unravelling(resources: &mut Resources, tof: &mut ThreadsOfFateState)
    requires
        old(tof).state is FindUnravelling,
        old(tof).wf(),
        old(resources).detector.clickable(),
    ensures
        *final(tof) == step(*old(tof), old(resources).detector).0,
        old(resources).sends(*final(resources), step(*old(tof), old(resources).detector).1),
{
    let (timeout, scroll_cycle) = match tof.state {
        State::FindUnravelling(timeout, scroll_cycle) => (timeout, scroll_cycle),
        _ => {
            return;
        },
    };

    match next_timeout_lifecycle(timeout, UNRAVELLING_TICKS) {
        Lifecycle::Started(timeout) => {
            if let Some(bbox) = resources.detector.tof_unravelling.rect() {
                click_bbox(resources, tof, bbox);
                tof.state = State::ClickUnravelling(Timeout::default());
                return;
            }
            tof.state = State::FindUnravelling(timeout, scroll_cycle);
        },
        Lifecycle::Ended => {
            match resources.detector.tof_unravelling.rect() {
                Some(bbox) => {
                    click_bbox(resources, tof, bbox);
                    tof.state = State::ClickUnravelling(Timeout::default());
                },
                None => {
                    let new_cycle: u32 = scroll_cycle + 1;
                    if new_cycle >= MAX_SCROLL_CYCLES {
                        tof.completed = true;
                    } else {
                        press_down(resources);
                        tof.state = State::FindUnravelling(Timeout::default(), new_cycle);
                    }
                },
            }
        },
        Lifecycle::Updated(timeout) => {
            tof.state = State::FindUnravelling(timeout, scroll_cycle);
        },
    }
}

/// Waits briefly after the quest was clicked.
fn update_click_unravelling(resources: &mut Resources, tof: &mut ThreadsOfFateState)
    requires
        old(tof).state is ClickUnravelling,
    ensures
        *final(tof) == step(*old(tof), old(resources).detector).0,
        old(resources).sends(*final(resources), step(*old(tof), old(resources).detector).1),
{
    let timeout = match tof.state {
        State::ClickUnravelling(timeout) => timeout,
        _ => {
            return;
        },
    };

    match next_timeout_lifecycle(timeout, UNRAVELLING_TICKS) {
        Lifecycle::Started(timeout) | Lifecycle::Updated(timeout) => {
            tof.state = State::ClickUnravelling(timeout);
        },
        Lifecycle::Ended => {
            tof.state = State::WaitFateCharacterUI(Timeout::default());
        },
    }
}

/// Waits for the fate characters to show.
fn update_wait_fate_character_ui(resources: &mut Resources, tof: &mut ThreadsOfFateState)
    requires
        old(tof).state is WaitFateCharacterUI,
    ensures
        *final(tof) == step(*old(tof), old(resources).detector).0,
        old(resources).sends(*final(resources), step(*old(tof), old(resources).detector).1),
{
    let timeout = match tof.state {
        State::WaitFateCharacterUI(timeout) => timeout,
        _ => {
            return;
        },
    };

    match next_timeout_lifecycle(timeout, CHARACTER_TICKS) {
        Lifecycle::Started(timeout) => {
            tof.state = State::WaitFateCharacterUI(timeout);
        },
        Lifecycle::Ended => {
            tof.completed = true;
        },
        Lifecycle::Updated(timeout) => {
            if timeout.current % 10 == 0 && resources.detector.detect_tof_fate_character_ui() {
                tof.state = State::ClickFateCharacter(Timeout::default());
            } else {
                tof.state = State::WaitFateCharacterUI(timeout);
            }
        },
    }
}

/// Clicks the fate character.
fn update_click_fate_character(resources: &mut Resources, tof: &mut ThreadsOfFateState)
    requires
        old(tof).state is ClickFateCharacter,
        old(resources).detector.clickable(),
    ensures
        *final(tof) == step(*old(tof), old(resources).detector).0,
        old(resources).sends(*final(resources), step(*old(tof), old(resources).detector).1),
{
    let timeout = match tof.state {
        State::ClickFateCharacter(timeout) => timeout,
        _ => {
            return;
        },
    };

    match next_timeout_lifecycle(timeout, CHARACTER_TICKS) {
        Lifecycle::Started(timeout) => {
            tof.state = State::ClickFateCharacter(timeout);
        },
        Lifecycle::Ended => {
            tof.completed = true;
        },
        Lifecycle::Updated(timeout) => {
            if timeout.current % 15 == 0 {
                match resources.detector.tof_fate_character.rect() {
                    Some(bbox) => {
                        click_bbox(resources, tof, bbox);
                        tof.state = State::ClickAsk(Timeout::default(), 0, false);
                    },
                    None => {
                        tof.state = State::ClickFateCharacter(timeout);
                    },
                }
            } else {
                tof.state = State::ClickFateCharacter(timeout);
            }
        },
    }
}

/// Clicks the ask button, at most twice per attempt.
fn update_click_ask(resources: &mut Resources, tof: &mut ThreadsOfFateState)
    requires
        old(tof).state is ClickAsk,
        old(tof).wf(),
        old(resources).detector.clickable(),
    ensures
        *final(tof) == step(*old(tof), old(resources).detector).0,
        old(resources).sends(*final(resources), step(*old(tof), old(resources).detector).1),
{
    let (timeout, retry_count, ask_clicked) = match tof.state {
        State::ClickAsk(timeout, retry_count, ask_clicked) => (timeout, retry_count, ask_clicked),
        _ => {
            return;
        },
    };

    match next_timeout_lifecycle(timeout, ASK_TICKS) {
        Lifecycle::Started(timeout) => {
            tof.state = State::ClickAsk(timeout, retry_count, ask_clicked);
        },
        Lifecycle::Ended => {
            if ask_clicked && resources.detector.detect_tof_dialog_visible() {
                tof.state = State::InteractDialog(Timeout::default(), 0, 0);
                return;
            }
            let new_retry: u32 = retry_count + 1;
            if new_retry >= MAX_ASK_FAIL_COUNT {
                tof.permanently_stopped = true;
                tof.completed = true;
            } else {
                tof.state = State::ClickAsk(Timeout::default(), new_retry, false);
            }
        },
        Lifecycle::Updated(timeout) => {
            if ask_clicked && resources.detector.detect_tof_dialog_visible() {
                tof.state = State::InteractDialog(Timeout::default(), 0, 0);
                return;
            }
            tof.state = State::ClickAsk(timeout, retry_count, ask_clicked);
            if timeout.current == 2 || timeout.current % 8 == 0 {
                if let Some(bbox) = resources.detector.tof_ask_button.rect() {
                    click_bbox(resources, tof, bbox);
                    tof.state = State::ClickAsk(timeout, retry_count, true);
                }
            }
        },
    }
}

/// Presses the interact key until the dialog is over.
fn update_interact_dialog(resources: &mut Resources, tof: &mut ThreadsOfFateState)
    requires
        old(tof).state is InteractDialog,
        old(tof).wf(),
    ensures
        *final(tof) == step(*old(tof), old(resources).detector).0,
        old(resources).sends(*final(resources), step(*old(tof), old(resources).detector).1),
{
    let (timeout, press_count, miss_count) = match tof.state {
        State::InteractDialog(timeout, press_count, miss_count) => (
            timeout,
            press_count,
            miss_count,
        ),
        _ => {
            return;
        },
    };

    match next_timeout_lifecycle(timeout, INTERACT_PRESS_INTERVAL) {
        Lifecycle::Started(timeout) => {
            if miss_count == 0 && resources.detector.detect_tof_dialog_visible() {
                resources.input.send_key(tof.interact_key);
            }
            tof.state = State::InteractDialog(timeout, press_count, miss_count);
        },
        Lifecycle::Ended => {
            let new_count: u32 = press_count + 1;
            if resources.detector.detect_tof_dialog_visible() {
                if press_count >= MAX_INTERACT_PRESS_COUNT {
                    tof.success = true;
                    tof.completed = true;
                } else {
                    resources.input.send_key(tof.interact_key);
                    tof.state = State::InteractDialog(Timeout::default(), new_count, 0);
                }
            } else if press_count >= MAX_INTERACT_PRESS_COUNT {
                tof.success = true;
                tof.completed = true;
            } else if miss_count >= MAX_DIALOG_GRACE_CHECKS {
                tof.success = true;
                tof.completed = true;
            } else {
                tof.state = State::InteractDialog(Timeout::default(), new_count, miss_count + 1);
            }
        },
        Lifecycle::Updated(timeout) => {
            tof.state = State::InteractDialog(timeout, press_count, miss_count);
        },
    }
}

/// Every tick keeps the counters within their limits.
pub proof fn law_round_stays_well_formed(tof: ThreadsOfFateState, seen: Detector)
    requires
        tof.wf(),
    ensures
        step(tof, seen).0.wf(),
{
}

/// How many more ticks a round takes at most.
pub open spec fn ticks_left(tof: ThreadsOfFateState) -> int {
    if tof.completed {
        0
    } else {
        match tof.state {
            State::InteractDialog(t, presses, _) => (MAX_INTERACT_PRESS_COUNT - presses) * 10
                + t.updates_left(INTERACT_PRESS_INTERVAL),
            State::ClickAsk(t, retries, _) => 120 + (MAX_ASK_FAIL_COUNT - 1 - retries) * 12
                + t.updates_left(ASK_TICKS),
            State::ClickFateCharacter(t) => 144 + t.updates_left(CHARACTER_TICKS),
            State::WaitFateCharacterUI(t) => 206 + t.updates_left(CHARACTER_TICKS),
            State::ClickUnravelling(t) => 268 + t.updates_left(UNRAVELLING_TICKS),
            State::FindUnravelling(t, scrolls) => 300 + (MAX_SCROLL_CYCLES - 1 - scrolls) * 32
                + t.updates_left(UNRAVELLING_TICKS),
            State::FindComplete(t) => (if tof.complete_used {
                396
            } else {
                490int
            }) + t.updates_left(COMPLETE_TICKS),
            State::ClickBulb(t, _) => (if tof.complete_used {
                428
            } else {
                522int
            }) + t.updates_left(BULB_TICKS),
            State::InteractComplete(t, presses, _) => 460 + (MAX_COMPLETE_PRESS_COUNT - presses)
                * 6 + t.updates_left(COMPLETE_PRESS_INTERVAL),
        }
    }
}

/// The longest that a round can take, in ticks.
pub const MAX_ROUND_TICKS: u32 = 554;

/// The rounds that one frame after the other makes of `tof`, up to its completion.
pub open spec fn run(tof: ThreadsOfFateState, frames: Seq<Detector>) -> ThreadsOfFateState
    decreases frames.len(),
{
    if frames.len() == 0 || tof.completed {
        tof
    } else {
        run(step(tof, frames[0]).0, frames.skip(1))
    }
}

/// A round that is not over comes at least one tick closer to its end with every tick, whatever is
/// on the screen.
pub proof fn law_round_progress(tof: ThreadsOfFateState, seen: Detector)
    requires
        tof.wf(),
        !tof.completed,
    ensures
        0 <= ticks_left(step(tof, seen).0) < ticks_left(tof) <= MAX_ROUND_TICKS,
{
}

/// No round goes on for ever: it is over after [`MAX_ROUND_TICKS`] ticks at the latest.
pub proof fn law_round_ends(tof: ThreadsOfFateState, frames: Seq<Detector>)
    requires
        tof.wf(),
        frames.len() >= ticks_left(tof),
    ensures
        run(tof, frames).completed,
        run(tof, frames).wf(),
        ticks_left(tof) <= MAX_ROUND_TICKS,
    decreases frames.len(),
{
    if !tof.completed {
        law_round_progress(tof, frames[0]);
        law_round_stays_well_formed(tof, frames[0]);
        law_round_ends(step(tof, frames[0]).0, frames.skip(1));
    }
}

/// At most one finished quest is handed in per round.
pub proof fn law_one_quest_per_round(tof: ThreadsOfFateState, frames: Seq<Detector>)
    requires
        tof.wf(),
    ensures
        run(tof, frames).wf(),
        run(tof, frames).complete_executed_count <= 1,
        tof.complete_executed_count <= run(tof, frames).complete_executed_count,
    decreases frames.len(),
{
    if frames.len() > 0 && !tof.completed {
        law_round_stays_well_formed(tof, frames[0]);
        law_one_quest_per_round(step(tof, frames[0]).0, frames.skip(1));
    }
}

/// A round ends successfully only out of the dialog with the fate character, and only a round
/// that ends can be a success.
pub proof fn law_success_comes_from_dialog(tof: ThreadsOfFateState, seen: Detector)
    requires
        tof.wf(),
        !tof.completed,
        step(tof, seen).0.success,
    ensures
        tof.state is InteractDialog,
        step(tof, seen).0.completed,
{
}

/// Two failed rounds in a row stop Threads of Fate for good, whatever made them fail.
pub proof fn law_two_failures_stop(
    context: PlayerContext,
    first: ThreadsOfFateState,
    between: PlayerContext,
    second: ThreadsOfFateState,
)
    requires
        !first.success,
        !second.success,
        between.threads_of_fate_fail_count == round_over(
            context,
            first,
        ).threads_of_fate_fail_count,
    ensures
        round_over(between, second).threads_of_fate_permanently_stopped,
{
}

/// Asking in vain as often as allowed ends the round without success and stops Threads of Fate for
/// good.
pub proof fn law_failed_asks_stop(context: PlayerContext, tof: ThreadsOfFateState, seen: Detector)
    requires
        tof.wf(),
        !tof.completed,
        tof.state matches State::ClickAsk(timeout, retries, clicked) && {
            &&& lifecycle(timeout, ASK_TICKS) is Ended
            &&& retries + 1 == MAX_ASK_FAIL_COUNT
            &&& !(clicked && seen.tof_dialog_visible == Some(true))
        },
    ensures
        ({
            let (next, sent) = step(tof, seen);
            &&& next.completed && !next.success && next.permanently_stopped
            &&& sent == nothing()
            &&& round_over(context, next).threads_of_fate_permanently_stopped
        }),
{
}

/// A successful round forgets the failures before it, and nothing ever lifts a permanent stop.
pub proof fn law_success_forgets_failures(context: PlayerContext, tof: ThreadsOfFateState)
    ensures
        tof.success ==> round_over(context, tof).threads_of_fate_fail_count == 0,
        context.threads_of_fate_permanently_stopped ==> round_over(
            context,
            tof,
        ).threads_of_fate_permanently_stopped,
        round_over(context, tof).action is None,
{
}

/// The detection that `tof` wants next on the current frame, given what was answered so far.
pub open spec fn wanted(tof: ThreadsOfFateState, seen: Detector) -> Option<Detection> {
    match tof.state {
        State::ClickBulb(t, presses) => match lifecycle(t, BULB_TICKS) {
            Lifecycle::Updated(t) => if presses < 1 && seen.tof_dialog_visible is None {
                Some(Detection::TofDialogVisible)
            } else if presses < 1 && seen.tof_dialog_visible == Some(true) {
                None
            } else if t.current % 10 == 0 && seen.tof_maple_mailbox is None {
                Some(Detection::TofMapleMailbox)
            } else if t.current % 10 == 0 && seen.tof_maple_mailbox == Some(true) {
                None
            } else if t.current >= 5 && t.current % 5 == 0 && seen.tof_bulb is Unasked {
                Some(Detection::TofBulb)
            } else {
                None
            },
            _ => None,
        },
        State::FindComplete(t) => if tof.complete_used || seen.tof_complete !is Unasked {
            None
        } else {
            match lifecycle(t, COMPLETE_TICKS) {
                Lifecycle::Started(_) => Some(Detection::TofComplete),
                Lifecycle::Updated(t) if t.current % 10 == 0 => Some(Detection::TofComplete),
                _ => None,
            }
        },
        State::InteractComplete(t, presses, _) => if lifecycle(t, COMPLETE_PRESS_INTERVAL) is Ended
            && presses < MAX_COMPLETE_PRESS_COUNT && seen.tof_dialog_visible is None {
            Some(Detection::TofDialogVisible)
        } else {
            None
        },
        State::FindUnravelling(t, _) => if lifecycle(t, UNRAVELLING_TICKS) !is Updated
            && seen.tof_unravelling is Unasked {
            Some(Detection::TofUnravelling)
        } else {
            None
        },
        State::ClickUnravelling(_) => None,
        State::WaitFateCharacterUI(t) => match lifecycle(t, CHARACTER_TICKS) {
            Lifecycle::Updated(t) if t.current % 10 == 0 && seen.tof_fate_character_ui is None =>
                Some(Detection::TofFateCharacterUi),
            _ => None,
        },
        State::ClickFateCharacter(t) => match lifecycle(t, CHARACTER_TICKS) {
            Lifecycle::Updated(t) if t.current % 15 == 0 && seen.tof_fate_character is Unasked =>
                Some(Detection::TofFateCharacter),
            _ => None,
        },
        State::ClickAsk(t, _, clicked) => match lifecycle(t, ASK_TICKS) {
            Lifecycle::Started(_) => None,
            Lifecycle::Ended => if clicked && seen.tof_dialog_visible is None {
                Some(Detection::TofDialogVisible)
            } else {
                None
            },
            Lifecycle::Updated(t) => if clicked && seen.tof_dialog_visible is None {
                Some(Detection::TofDialogVisible)
            } else if clicked && seen.tof_dialog_visible == Some(true) {
                None
            } else if (t.current == 2 || t.current % 8 == 0) && seen.tof_ask_button is Unasked {
                Some(Detection::TofAskButton)
            } else {
                None
            },
        },
        State::InteractDialog(t, _, misses) => match lifecycle(t, INTERACT_PRESS_INTERVAL) {
            Lifecycle::Started(_) if misses == 0 && seen.tof_dialog_visible is None =>
                Some(Detection::TofDialogVisible),
            Lifecycle::Ended if seen.tof_dialog_visible is None =>
                Some(Detection::TofDialogVisible),
            _ => None,
        },
    }
}

/// Tells which detection to run next for `tof`; once it is `None`, the tick can be taken.
pub fn next_threads_of_fate_detection(tof: &ThreadsOfFateState, seen: &Detector) -> (detection:
    Option<Detection>)
    ensures
        detection == wanted(*tof, *seen),
{
    match tof.state {
        State::ClickBulb(timeout, press_count) => {
            match next_timeout_lifecycle(timeout, BULB_TICKS) {
                Lifecycle::Updated(timeout) => {
                    if press_count < 1 {
                        match seen.tof_dialog_visible {
                            None => {
                                return Some(Detection::TofDialogVisible);
                            },
                            Some(true) => {
                                return None;
                            },
                            Some(false) => {},
                        }
                    }
                    if timeout.current % 10 == 0 {
                        match seen.tof_maple_mailbox {
                            None => {
                                return Some(Detection::TofMapleMailbox);
                            },
                            Some(true) => {
                                return None;
                            },
                            Some(false) => {},
                        }
                    }
                    if timeout.current >= 5 && timeout.current % 5 == 0 && matches!(
                        seen.tof_bulb,
                        Sighting::Unasked
                    ) {
                        Some(Detection::TofBulb)
                    } else {
                        None
                    }
                },
                _ => None,
            }
        },
        State::FindComplete(timeout) => {
            if tof.complete_used || !matches!(seen.tof_complete, Sighting::Unasked) {
                return None;
            }
            match next_timeout_lifecycle(timeout, COMPLETE_TICKS) {
                Lifecycle::Started(_) => Some(Detection::TofComplete),
                Lifecycle::Updated(timeout) => {
                    if timeout.current % 10 == 0 {
                        Some(Detection::TofComplete)
                    } else {
                        None
                    }
                },
                Lifecycle::Ended => None,
            }
        },
        State::InteractComplete(timeout, press_count, _) => {
            let ended = matches!(
                next_timeout_lifecycle(timeout, COMPLETE_PRESS_INTERVAL),
                Lifecycle::Ended
            );
            if ended && press_count < MAX_COMPLETE_PRESS_COUNT && seen.tof_dialog_visible.is_none() {
                Some(Detection::TofDialogVisible)
            } else {
                None
            }
        },
        State::FindUnravelling(timeout, _) => {
            let updated = matches!(
                next_timeout_lifecycle(timeout, UNRAVELLING_TICKS),
                Lifecycle::Updated(_)
            );
            if !updated && matches!(seen.tof_unravelling, Sighting::Unasked) {
                Some(Detection::TofUnravelling)
            } else {
                None
            }
        },
        State::ClickUnravelling(_) => None,
        State::WaitFateCharacterUI(timeout) => {
            match next_timeout_lifecycle(timeout, CHARACTER_TICKS) {
                Lifecycle::Updated(timeout) => {
                    if timeout.current % 10 == 0 && seen.tof_fate_character_ui.is_none() {
                        Some(Detection::TofFateCharacterUi)
                    } else {
                        None
                    }
                },
                _ => None,
            }
        },
        State::ClickFateCharacter(timeout) => {
            match next_timeout_lifecycle(timeout, CHARACTER_TICKS) {
                Lifecycle::Updated(timeout) => {
                    if timeout.current % 15 == 0 && matches!(
                        seen.tof_fate_character,
                        Sighting::Unasked
                    ) {
                        Some(Detection::TofFateCharacter)
                    } else {
                        None
                    }
                },
                _ => None,
            }
        },
        State::ClickAsk(timeout, _, ask_clicked) => {
            match next_timeout_lifecycle(timeout, ASK_TICKS) {
                Lifecycle::Started(_) => None,
                Lifecycle::Ended => {
                    if ask_clicked && seen.tof_dialog_visible.is_none() {
                        Some(Detection::TofDialogVisible)
                    } else {
                        None
                    }
                },
                Lifecycle::Updated(timeout) => {
                    if ask_clicked {
                        match seen.tof_dialog_visible {
                            None => {
                                return Some(Detection::TofDialogVisible);
                            },
                            Some(true) => {
                                return None;
                            },
                            Some(false) => {},
                        }
                    }
                    if (timeout.current == 2 || timeout.current % 8 == 0) && matches!(
                        seen.tof_ask_button,
                        Sighting::Unasked
                    ) {
                        Some(Detection::TofAskButton)
                    } else {
                        None
                    }
                },
            }
        },
        State::InteractDialog(timeout, _, miss_count) => {
            match next_timeout_lifecycle(timeout, INTERACT_PRESS_INTERVAL) {
                Lifecycle::Started(_) => {
                    if miss_count == 0 && seen.tof_dialog_visible.is_none() {
                        Some(Detection::TofDialogVisible)
                    } else {
                        None
                    }
                },
                Lifecycle::Ended => {
                    if seen.tof_dialog_visible.is_none() {
                        Some(Detection::TofDialogVisible)
                    } else {
                        None
                    }
                },
                Lifecycle::Updated(_) => None,
            }
        },
    }
}

/// Once no detection is wanted any more, further answers would change nothing.
pub proof fn law_wanted_detections_suffice(
    tof: ThreadsOfFateState,
    seen: Detector,
    more: Detector,
)
    requires
        wanted(tof, seen) is None,
        seen.kept_by(more),
    ensures
        step(tof, more) == step(tof, seen),
{
}

/// Whether this tick clicks a finished quest.
pub open spec fn clicks_complete(tof: ThreadsOfFateState, seen: Detector) -> bool {
    tof.state is FindComplete && step(tof, seen).1.len() > 0
}

/// How often a finished quest is clicked while the frames last and the round goes on.
pub open spec fn complete_clicks(tof: ThreadsOfFateState, frames: Seq<Detector>) -> nat
    decreases frames.len(),
{
    if frames.len() == 0 || tof.completed {
        0
    } else {
        complete_clicks(step(tof, frames[0]).0, frames.skip(1)) + if clicks_complete(
            tof,
            frames[0],
        ) {
            1nat
        } else {
            0nat
        }
    }
}

/// Over a whole round a finished quest is clicked at most once, and not at all where looking for one
/// is over, which is never taken back.
pub proof fn law_complete_is_clicked_once(tof: ThreadsOfFateState, frames: Seq<Detector>)
    ensures
        complete_clicks(tof, frames) <= 1,
        tof.complete_used ==> complete_clicks(tof, frames) == 0,
        tof.complete_used ==> run(tof, frames).complete_used,
    decreases frames.len(),
{
    if frames.len() > 0 && !tof.completed {
        law_complete_click(tof, frames[0]);
        law_complete_is_clicked_once(step(tof, frames[0]).0, frames.skip(1));
    }
}

/// A click on a finished quest ends looking for one and starts handing it in. Where looking is over
/// already, nothing is sent and the quest to unravel is looked for.
pub proof fn law_complete_click(tof: ThreadsOfFateState, seen: Detector)
    ensures
        clicks_complete(tof, seen) ==> {
            let next = step(tof, seen).0;
            &&& !tof.complete_used
            &&& next.found_complete && next.complete_used
            &&& next.state == State::InteractComplete(Timeout::fresh(), 0, 0)
            &&& seen.tof_complete matches Sighting::At(rect) && step(tof, seen).1 == click(
                tof,
                rect,
            )
        },
        tof.complete_used && tof.state is FindComplete ==> {
            let (next, sent) = step(tof, seen);
            &&& sent == nothing()
            &&& !next.found_complete
            &&& next.state == State::FindUnravelling(Timeout::fresh(), 0)
        },
        tof.complete_used ==> step(tof, seen).0.complete_used,
{
}

/// All input that is sent while the frames last and the round goes on.
pub open spec fn run_sent(tof: ThreadsOfFateState, frames: Seq<Detector>) -> Seq<InputCommand>
    decreases frames.len(),
{
    if frames.len() == 0 || tof.completed {
        Seq::empty()
    } else {
        step(tof, frames[0]).1 + run_sent(step(tof, frames[0]).0, frames.skip(1))
    }
}

/// `count` presses of the down key.
pub open spec fn downs(count: int) -> Seq<InputCommand> {
    Seq::new(count as nat, |i: int| InputCommand::Key(KeyKind::Down))
}

/// No frame shows the quest to unravel.
pub open spec fn without_unravelling(frames: Seq<Detector>) -> bool {
    forall|i: int| 0 <= i < frames.len() ==> (#[trigger] frames[i]).tof_unravelling.place() is None
}

/// How many ticks pass from one timeout of the search to the next.
pub open spec fn search_ticks() -> int {
    Timeout::fresh().updates_left(UNRAVELLING_TICKS)
}

/// The timeout of the search when it is due.
pub open spec fn search_timed_out() -> Timeout {
    Timeout { current: UNRAVELLING_TICKS, started: true }
}

/// A run falls into the run over its first `n` frames and the one that goes on from there.
proof fn lemma_run_splits(tof: ThreadsOfFateState, frames: Seq<Detector>, n: int)
    requires
        0 <= n <= frames.len(),
    ensures
        run(tof, frames) == run(run(tof, frames.take(n)), frames.skip(n)),
        run_sent(tof, frames) == run_sent(tof, frames.take(n)) + run_sent(
            run(tof, frames.take(n)),
            frames.skip(n),
        ),
    decreases n,
{
    let start = frames.take(n);
    if n == 0 || tof.completed {
        assert(run(tof, start) == tof);
        assert(run_sent(tof, start) == Seq::<InputCommand>::empty());
        if n == 0 {
            assert(frames.skip(0) =~= frames);
        }
        assert(run_sent(tof, frames) =~= Seq::<InputCommand>::empty() + run_sent(
            tof,
            frames.skip(n),
        ));
    } else {
        let (next, sent) = step(tof, frames[0]);
        let rest = frames.skip(1);
        lemma_run_splits(next, rest, n - 1);
        assert(start[0] == frames[0]);
        assert(start.skip(1) =~= rest.take(n - 1));
        assert(rest.skip(n - 1) =~= frames.skip(n));
        let after = run(next, rest.take(n - 1));
        assert(run_sent(tof, frames) =~= (sent + run_sent(next, rest.take(n - 1))) + run_sent(
            after,
            frames.skip(n),
        ));
    }
}

/// One timeout of a search that finds nothing.
proof fn lemma_search_timeout(tof: ThreadsOfFateState, frames: Seq<Detector>)
    requires
        tof.wf(),
        !tof.completed,
        tof.state is FindUnravelling,
        frames.len() == (tof.state->FindUnravelling_0).updates_left(UNRAVELLING_TICKS),
        without_unravelling(frames),
    ensures
        ({
            let scrolls = tof.state->FindUnravelling_1;
            if scrolls + 1 < MAX_SCROLL_CYCLES {
                &&& run(tof, frames) == tof.at(
                    State::FindUnravelling(Timeout::fresh(), (scrolls + 1) as u32),
                )
                &&& run_sent(tof, frames) == downs(DOWN_PRESSES_PER_CYCLE as int)
            } else {
                &&& run(tof, frames) == tof.at(
                    State::FindUnravelling(search_timed_out(), scrolls),
                ).over()
                &&& run_sent(tof, frames) == downs(0)
            }
        }),
    decreases frames.len(),
{
    let (next, sent) = step(tof, frames[0]);
    let rest = frames.skip(1);
    assert(frames[0].tof_unravelling.place() is None);
    law_round_stays_well_formed(tof, frames[0]);
    if lifecycle(tof.state->FindUnravelling_0, UNRAVELLING_TICKS) is Ended {
        assert(rest =~= Seq::<Detector>::empty());
        assert(run(next, rest) == next);
        assert(run_sent(next, rest) == Seq::<InputCommand>::empty());
        assert(run_sent(tof, frames) =~= sent);
        assert(sent =~= downs(sent.len() as int));
    } else {
        assert forall|i: int| 0 <= i < rest.len() implies (
        #[trigger] rest[i]).tof_unravelling.place() is None by {
            assert(frames[i + 1].tof_unravelling.place() is None);
        }
        lemma_search_timeout(next, rest);
        assert(run_sent(tof, frames) =~= run_sent(next, rest));
    }
}

proof fn lemma_still_without_unravelling(frames: Seq<Detector>, n: int)
    requires
        0 <= n <= frames.len(),
        without_unravelling(frames),
    ensures
        without_unravelling(frames.take(n)),
        without_unravelling(frames.skip(n)),
{
    assert forall|i: int| 0 <= i < frames.take(n).len() implies (#[trigger] frames.take(
        n,
    )[i]).tof_unravelling.place() is None by {
        assert(frames[i].tof_unravelling.place() is None);
    }
    assert forall|i: int| 0 <= i < frames.skip(n).len() implies (#[trigger] frames.skip(
        n,
    )[i]).tof_unravelling.place() is None by {
        assert(frames[i + n].tof_unravelling.place() is None);
    }
}

/// A search for the quest that finds nothing sends five down presses after each of its first two
/// timeouts and nothing else, and ends the round without success at the third.
pub proof fn law_failed_search_only_scrolls(tof: ThreadsOfFateState, frames: Seq<Detector>)
    requires
        tof.wf(),
        !tof.completed,
        tof.state == State::FindUnravelling(Timeout::fresh(), 0),
        frames.len() >= 3 * search_ticks(),
        without_unravelling(frames),
    ensures
        run(tof, frames.take(search_ticks())) == tof.at(
            State::FindUnravelling(Timeout::fresh(), 1),
        ),
        run_sent(tof, frames.take(search_ticks())) == downs(5),
        run(tof, frames.take(2 * search_ticks())) == tof.at(
            State::FindUnravelling(Timeout::fresh(), 2),
        ),
        run_sent(tof, frames.take(2 * search_ticks())) == downs(10),
        run(tof, frames) == tof.at(State::FindUnravelling(search_timed_out(), 2)).over(),
        run(tof, frames).completed && !run(tof, frames).success,
        run_sent(tof, frames) == downs(10),
{
    let n = search_ticks();
    let three = frames.take(3 * n);
    let two = frames.take(2 * n);
    lemma_still_without_unravelling(frames, 3 * n);
    lemma_still_without_unravelling(three, 2 * n);
    assert(three.take(2 * n) =~= two);
    lemma_still_without_unravelling(two, n);
    assert(two.take(n) =~= frames.take(n));
    lemma_search_timeout(tof, two.take(n));
    let once = tof.at(State::FindUnravelling(Timeout::fresh(), 1));
    lemma_search_timeout(once, two.skip(n));
    lemma_run_splits(tof, two, n);
    assert(downs(5) + downs(5) =~= downs(10));
    let twice = tof.at(State::FindUnravelling(Timeout::fresh(), 2));
    lemma_search_timeout(twice, three.skip(2 * n));
    lemma_run_splits(tof, three, 2 * n);
    assert(downs(10) + downs(0) =~= downs(10));
    lemma_run_splits(tof, frames, 3 * n);
    assert(downs(10) + Seq::<InputCommand>::empty() =~= downs(10));
}

/// Whether this tick ends an interval of handing in.
pub open spec fn hand_in_check(tof: ThreadsOfFateState) -> bool {
    tof.state matches State::InteractComplete(timeout, _, _) && lifecycle(
        timeout,
        COMPLETE_PRESS_INTERVAL,
    ) is Ended
}

/// How many ticks handing in takes, as far as the frames last.
pub open spec fn hand_in_ticks(tof: ThreadsOfFateState, frames: Seq<Detector>) -> nat
    decreases frames.len(),
{
    if frames.len() == 0 || tof.state !is InteractComplete {
        0
    } else {
        1 + hand_in_ticks(step(tof, frames[0]).0, frames.skip(1))
    }
}

/// How many intervals end on the way.
pub open spec fn hand_in_checks(tof: ThreadsOfFateState, frames: Seq<Detector>) -> nat
    decreases frames.len(),
{
    if frames.len() == 0 || tof.state !is InteractComplete {
        0
    } else {
        hand_in_checks(step(tof, frames[0]).0, frames.skip(1)) + if hand_in_check(tof) {
            1nat
        } else {
            0nat
        }
    }
}

/// No frame shows a dialog.
pub open spec fn without_dialog(frames: Seq<Detector>) -> bool {
    forall|i: int|
        0 <= i < frames.len() ==> (#[trigger] frames[i]).tof_dialog_visible != Some(true)
}

/// More than enough ticks to hand in a quest.
pub open spec fn hand_in_limit(timeout: Timeout, presses: u32) -> int {
    (MAX_COMPLETE_PRESS_COUNT - presses) * (COMPLETE_PRESS_INTERVAL + 2) + timeout.updates_left(
        COMPLETE_PRESS_INTERVAL,
    )
}

proof fn lemma_hand_in(tof: ThreadsOfFateState, frames: Seq<Detector>)
    requires
        tof.wf(),
        !tof.completed,
        tof.state matches State::InteractComplete(timeout, presses, _) && frames.len()
            >= hand_in_limit(timeout, presses),
    ensures
        ({
            let ticks = hand_in_ticks(tof, frames) as int;
            &&& 1 <= ticks <= hand_in_limit(
                tof.state->InteractComplete_0,
                tof.state->InteractComplete_1,
            )
            &&& run(tof, frames.take(ticks)) == handed_in(tof)
            &&& 1 <= hand_in_checks(tof, frames) <= MAX_COMPLETE_PRESS_COUNT + 1
                - tof.state->InteractComplete_1
            &&& without_dialog(frames) && tof.state->InteractComplete_1
                == tof.state->InteractComplete_2 ==> hand_in_checks(tof, frames)
                == MAX_DIALOG_GRACE_CHECKS + 1 - tof.state->InteractComplete_2
        }),
    decreases frames.len(),
{
    let next = step(tof, frames[0]).0;
    let rest = frames.skip(1);
    let ticks = hand_in_ticks(tof, frames) as int;
    law_round_stays_well_formed(tof, frames[0]);
    if next.state is InteractComplete {
        lemma_hand_in(next, rest);
        assert(frames.take(ticks).skip(1) =~= rest.take(ticks - 1));
        assert(frames.take(ticks)[0] == frames[0]);
        assert(handed_in(next) == handed_in(tof));
        if without_dialog(frames) {
            assert(frames[0].tof_dialog_visible != Some(true));
            assert forall|i: int| 0 <= i < rest.len() implies (
            #[trigger] rest[i]).tof_dialog_visible != Some(true) by {
                assert(frames[i + 1].tof_dialog_visible != Some(true));
            }
        }
    } else {
        assert(hand_in_ticks(next, rest) == 0);
        assert(hand_in_checks(next, rest) == 0);
        assert(ticks == 1);
        assert(next == handed_in(tof));
        assert(frames.take(1)[0] == frames[0]);
        assert(frames.take(1).skip(1) =~= Seq::<Detector>::empty());
        assert(run(next, Seq::<Detector>::empty()) == next);
        if without_dialog(frames) {
            assert(frames[0].tof_dialog_visible != Some(true));
        }
    }
}

/// Handing in is over after at most five ended intervals whatever the frames show, and after exactly
/// four where no dialog shows. It leads back to the mailbox with one more quest handed in, and
/// changes nothing else.
pub proof fn law_handing_in_ends(tof: ThreadsOfFateState, frames: Seq<Detector>)
    requires
        tof.wf(),
        !tof.completed,
        tof.state == State::InteractComplete(Timeout::fresh(), 0, 0),
        frames.len() >= hand_in_limit(Timeout::fresh(), 0),
    ensures
        run(tof, frames.take(hand_in_ticks(tof, frames) as int)) == (ThreadsOfFateState {
            state: State::ClickBulb(Timeout::fresh(), 0),
            complete_executed_count: (tof.complete_executed_count + 1) as u32,
            complete_used: true,
            ..tof
        }),
        hand_in_ticks(tof, frames) <= 30,
        1 <= hand_in_checks(tof, frames) <= 5,
        without_dialog(frames) ==> hand_in_checks(tof, frames) == 4,
{
    lemma_hand_in(tof, frames);
}

/// The player carries out this round, because of an action, and it is not over.
pub open spec fn is_under_way(player: PlayerEntity, tof: ThreadsOfFateState) -> bool {
    player.state == Player::ThreadsOfFate(tof) && player.context.action is Some && !tof.completed
}

/// The round goes on as `next`, and the player is otherwise as before.
pub open spec fn goes_on(
    before: PlayerEntity,
    after: PlayerEntity,
    next: ThreadsOfFateState,
) -> bool {
    after.state == Player::ThreadsOfFate(next) && after.context == before.context
}

/// The round is over and has failed: its action is done and one more failure is counted. The second
/// one in a row stops Threads of Fate for good, and so does `stopped`.
pub open spec fn fails(before: PlayerEntity, after: PlayerEntity, stopped: bool) -> bool {
    let failures = before.context.threads_of_fate_fail_count;
    &&& after.state is Idle
    &&& after.context.action is None
    &&& failures < u32::MAX ==> after.context.threads_of_fate_fail_count == failures + 1
    &&& after.context.threads_of_fate_permanently_stopped
        == (before.context.threads_of_fate_permanently_stopped || stopped || failures >= 1)
    &&& after.context.validating_rune == before.context.validating_rune
    &&& after.context.is_stationary == before.context.is_stationary
    &&& after.context.interact_key == before.context.interact_key
}

/// The round is over and was a success: its action is done and the failures are forgotten.
pub open spec fn succeeds(before: PlayerEntity, after: PlayerEntity, stopped: bool) -> bool {
    &&& after.state is Idle
    &&& after.context.action is None
    &&& after.context.threads_of_fate_fail_count == 0
    &&& after.context.threads_of_fate_permanently_stopped
        == (before.context.threads_of_fate_permanently_stopped || stopped)
    &&& after.context.validating_rune == before.context.validating_rune
    &&& after.context.is_stationary == before.context.is_stationary
    &&& after.context.interact_key == before.context.interact_key
}

/// Exactly this was sent: a click on the middle of `rect`, and the mouse to its resting place.
pub open spec fn clicked(
    before: Seq<InputCommand>,
    sent: Seq<InputCommand>,
    rect: Rect,
    tof: ThreadsOfFateState,
) -> bool {
    &&& sent.len() == before.len() + 2
    &&& forall|i: int| 0 <= i < before.len() ==> sent[i] == #[trigger] before[i]
    &&& sent[before.len() as int] matches InputCommand::Mouse { x, y, kind } && x == rect.mid_x()
        && y == rect.mid_y() && kind == MouseKind::Click
    &&& sent[before.len() as int + 1] matches InputCommand::Mouse { x, y, kind } && x == tof.mouse_rest.x
        && y == tof.mouse_rest.y && kind == MouseKind::Move
}

/// At the bulb the mouse first goes out of the way. Then an open dialog is talked through with one press
/// of the interact key; in every tenth tick an open mailbox leads to the finished quests; and in every
/// fifth tick the bulb is clicked where it shows. After thirty ticks the round has failed.
pub proof fn law_bulb(
    resources: &mut Resources,
    player: &mut PlayerEntity,
    tof: ThreadsOfFateState,
    t: Timeout,
    presses: u32,
)
    requires
        call_ensures(update_threads_of_fate_state, (resources, player), ()),
        is_under_way(*old(player), tof),
        tof.state == State::ClickBulb(t, presses),
        !tof.success,
        old(resources).detector.clickable(),
    ensures
        ({
            let seen = old(resources).detector;
            let before = old(resources).input.sent@;
            let sent = final(resources).input.sent@;
            let number = t.current + 1;
            let fresh = Timeout { current: 0, started: false };
            let begun = Timeout { current: t.current, started: true };
            let counted = Timeout { current: number as u32, started: true };
            let talks = presses == 0 && seen.tof_dialog_visible == Some(true);
            let opens = number % 10 == 0 && seen.tof_maple_mailbox == Some(true);
            let clicks = number % 5 == 0 && seen.tof_bulb is At;
            let next = |state: State| ThreadsOfFateState { state, ..tof };
            &&& !t.started ==> {
                &&& goes_on(
                    *old(player),
                    *final(player),
                    next(State::ClickBulb(begun, presses)),
                )
                &&& sent == before.push(
                    InputCommand::Mouse {
                        x: tof.mouse_rest.x,
                        y: tof.mouse_rest.y,
                        kind: MouseKind::Move,
                    },
                )
            }
            &&& t.started && t.current >= 30 ==> fails(
                *old(player),
                *final(player),
                tof.permanently_stopped,
            ) && sent == before
            &&& t.started && t.current < 30 ==> {
                &&& talks ==> {
                    &&& goes_on(
                        *old(player),
                        *final(player),
                        next(State::ClickBulb(counted, 1)),
                    )
                    &&& sent == before.push(InputCommand::Key(tof.interact_key))
                }
                &&& !talks && opens ==> {
                    &&& goes_on(*old(player), *final(player), next(State::FindComplete(fresh)))
                    &&& sent == before
                }
                &&& !talks && !opens ==> goes_on(
                    *old(player),
                    *final(player),
                    next(State::ClickBulb(counted, presses)),
                )
                &&& !talks && !opens && clicks ==> clicked(before, sent, seen.tof_bulb->At_0, tof)
                &&& !talks && !opens && !clicks ==> sent == before
            }
        }),
{
}

/// A finished quest is looked for in the first tick and in every tenth one, unless one was already
/// handed in, for thirty ticks. The one that shows is clicked and talked through, and with or without
/// one the search for it is over.
pub proof fn law_finished_quest(
    resources: &mut Resources,
    player: &mut PlayerEntity,
    tof: ThreadsOfFateState,
    t: Timeout,
)
    requires
        call_ensures(update_threads_of_fate_state, (resources, player), ()),
        is_under_way(*old(player), tof),
        tof.state == State::FindComplete(t),
        old(resources).detector.clickable(),
    ensures
        ({
            let seen = old(resources).detector;
            let before = old(resources).input.sent@;
            let sent = final(resources).input.sent@;
            let number = t.current + 1;
            let fresh = Timeout { current: 0, started: false };
            let begun = Timeout { current: t.current, started: true };
            let counted = Timeout { current: number as u32, started: true };
            let shows = seen.tof_complete is At;
            let looks = !tof.complete_used && (!t.started || t.current < 30 && number % 10 == 0);
            let ends = tof.complete_used || t.started && t.current >= 30;
            &&& looks && shows ==> {
                &&& goes_on(
                    *old(player),
                    *final(player),
                    ThreadsOfFateState {
                        state: State::InteractComplete(fresh, 0, 0),
                        found_complete: true,
                        complete_used: true,
                        ..tof
                    },
                )
                &&& clicked(before, sent, seen.tof_complete->At_0, tof)
            }
            &&& ends ==> goes_on(
                *old(player),
                *final(player),
                ThreadsOfFateState {
                    state: State::FindUnravelling(fresh, 0),
                    found_complete: false,
                    complete_used: true,
                    ..tof
                },
            )
            &&& !ends && !(looks && shows) ==> goes_on(
                *old(player),
                *final(player),
                ThreadsOfFateState {
                    state: State::FindComplete(
                        if t.started {
                            counted
                        } else {
                            begun
                        },
                    ),
                    ..tof
                },
            )
            &&& !(looks && shows) ==> sent == before
        }),
{
}

/// A finished quest is talked through: the interact key is pressed as it begins and, every sixth tick,
/// while the dialog shows. It is handed in after four more such looks, or when the dialog was missed for
/// the fourth time in a row, and that leads back to the bulb with one quest more.
pub proof fn law_handing_in(
    resources: &mut Resources,
    player: &mut PlayerEntity,
    tof: ThreadsOfFateState,
    t: Timeout,
    presses: u32,
    misses: u32,
)
    requires
        call_ensures(update_threads_of_fate_state, (resources, player), ()),
        is_under_way(*old(player), tof),
        tof.state == State::InteractComplete(t, presses, misses),
        old(resources).detector.clickable(),
    ensures
        ({
            let seen = old(resources).detector;
            let before = old(resources).input.sent@;
            let sent = final(resources).input.sent@;
            let number = t.current + 1;
            let fresh = Timeout { current: 0, started: false };
            let begun = Timeout { current: t.current, started: true };
            let counted = Timeout { current: number as u32, started: true };
            let ends = t.started && t.current >= 4;
            let shows = seen.tof_dialog_visible == Some(true);
            let done = ends && (presses >= 4 || !shows && misses >= 3);
            let next = |state: State| ThreadsOfFateState { state, ..tof };
            &&& !t.started ==> {
                &&& goes_on(
                    *old(player),
                    *final(player),
                    next(State::InteractComplete(begun, presses, misses)),
                )
                &&& misses == 0 ==> sent == before.push(InputCommand::Key(tof.interact_key))
                &&& misses != 0 ==> sent == before
            }
            &&& t.started && t.current < 4 ==> {
                &&& goes_on(
                    *old(player),
                    *final(player),
                    next(State::InteractComplete(counted, presses, misses)),
                )
                &&& sent == before
            }
            &&& done ==> {
                &&& goes_on(
                    *old(player),
                    *final(player),
                    ThreadsOfFateState {
                        state: State::ClickBulb(fresh, 0),
                        complete_executed_count: (tof.complete_executed_count + 1) as u32,
                        complete_used: true,
                        ..tof
                    },
                )
                &&& sent == before
            }
            &&& ends && !done && shows ==> {
                &&& goes_on(
                    *old(player),
                    *final(player),
                    next(State::InteractComplete(fresh, (presses + 1) as u32, 0)),
                )
                &&& sent == before.push(InputCommand::Key(tof.interact_key))
            }
            &&& ends && !done && !shows ==> {
                &&& goes_on(
                    *old(player),
                    *final(player),
                    next(
                        State::InteractComplete(fresh, (presses + 1) as u32, (misses + 1) as u32),
                    ),
                )
                &&& sent == before
            }
        }),
{
}

/// The quest to unravel is looked for as a search starts and as it ends, thirty ticks later. Where it
/// shows it is clicked. Where it does not, the list is scrolled with five presses of the down key and
/// searched again, twice; the third search in vain fails the round.
pub proof fn law_quest_to_unravel(
    resources: &mut Resources,
    player: &mut PlayerEntity,
    tof: ThreadsOfFateState,
    t: Timeout,
    scrolls: u32,
)
    requires
        call_ensures(update_threads_of_fate_state, (resources, player), ()),
        is_under_way(*old(player), tof),
        tof.state == State::FindUnravelling(t, scrolls),
        !tof.success,
        old(resources).detector.clickable(),
    ensures
        ({
            let seen = old(resources).detector;
            let before = old(resources).input.sent@;
            let sent = final(resources).input.sent@;
            let number = t.current + 1;
            let fresh = Timeout { current: 0, started: false };
            let begun = Timeout { current: t.current, started: true };
            let counted = Timeout { current: number as u32, started: true };
            let ends = t.started && t.current >= 30;
            let shows = seen.tof_unravelling is At;
            let next = |state: State| ThreadsOfFateState { state, ..tof };
            &&& t.started && !ends ==> {
                &&& goes_on(
                    *old(player),
                    *final(player),
                    next(State::FindUnravelling(counted, scrolls)),
                )
                &&& sent == before
            }
            &&& (!t.started || ends) && shows ==> {
                &&& goes_on(*old(player), *final(player), next(State::ClickUnravelling(fresh)))
                &&& clicked(before, sent, seen.tof_unravelling->At_0, tof)
            }
            &&& !t.started && !shows ==> {
                &&& goes_on(
                    *old(player),
                    *final(player),
                    next(State::FindUnravelling(begun, scrolls)),
                )
                &&& sent == before
            }
            &&& ends && !shows && scrolls < 2 ==> {
                &&& goes_on(
                    *old(player),
                    *final(player),
                    next(State::FindUnravelling(fresh, (scrolls + 1) as u32)),
                )
                &&& sent == before + seq![
                    InputCommand::Key(KeyKind::Down),
                    InputCommand::Key(KeyKind::Down),
                    InputCommand::Key(KeyKind::Down),
                    InputCommand::Key(KeyKind::Down),
                    InputCommand::Key(KeyKind::Down),
                ]
            }
            &&& ends && !shows && scrolls >= 2 ==> fails(
                *old(player),
                *final(player),
                tof.permanently_stopped,
            ) && sent == before
        }),
{
}

/// After the quest was clicked nothing is done for thirty ticks, then the fate characters are awaited.
pub proof fn law_after_the_quest(
    resources: &mut Resources,
    player: &mut PlayerEntity,
    tof: ThreadsOfFateState,
    t: Timeout,
)
    requires
        call_ensures(update_threads_of_fate_state, (resources, player), ()),
        is_under_way(*old(player), tof),
        tof.state == State::ClickUnravelling(t),
        old(resources).detector.clickable(),
    ensures
        ({
            let seen = old(resources).detector;
            let before = old(resources).input.sent@;
            let sent = final(resources).input.sent@;
            let number = t.current + 1;
            let fresh = Timeout { current: 0, started: false };
            let begun = Timeout { current: t.current, started: true };
            let counted = Timeout { current: number as u32, started: true };
            let next = |state: State| ThreadsOfFateState { state, ..tof };
            &&& sent == before
            &&& !t.started ==> goes_on(
                *old(player),
                *final(player),
                next(State::ClickUnravelling(begun)),
            )
            &&& t.started && t.current < 30 ==> goes_on(
                *old(player),
                *final(player),
                next(State::ClickUnravelling(counted)),
            )
            &&& t.started && t.current >= 30 ==> goes_on(
                *old(player),
                *final(player),
                next(State::WaitFateCharacterUI(fresh)),
            )
        }),
{
}

/// The fate characters are looked for in every tenth tick. Once they show one is clicked next; after
/// sixty ticks without them the round has failed. Nothing is sent.
pub proof fn law_fate_characters(
    resources: &mut Resources,
    player: &mut PlayerEntity,
    tof: ThreadsOfFateState,
    t: Timeout,
)
    requires
        call_ensures(update_threads_of_fate_state, (resources, player), ()),
        is_under_way(*old(player), tof),
        tof.state == State::WaitFateCharacterUI(t),
        !tof.success,
        old(resources).detector.clickable(),
    ensures
        ({
            let seen = old(resources).detector;
            let before = old(resources).input.sent@;
            let sent = final(resources).input.sent@;
            let number = t.current + 1;
            let fresh = Timeout { current: 0, started: false };
            let begun = Timeout { current: t.current, started: true };
            let counted = Timeout { current: number as u32, started: true };
            let shows = number % 10 == 0 && seen.tof_fate_character_ui == Some(true);
            let next = |state: State| ThreadsOfFateState { state, ..tof };
            &&& sent == before
            &&& !t.started ==> goes_on(
                *old(player),
                *final(player),
                next(State::WaitFateCharacterUI(begun)),
            )
            &&& t.started && t.current >= 60 ==> fails(
                *old(player),
                *final(player),
                tof.permanently_stopped,
            )
            &&& t.started && t.current < 60 && shows ==> goes_on(
                *old(player),
                *final(player),
                next(State::ClickFateCharacter(fresh)),
            )
            &&& t.started && t.current < 60 && !shows ==> goes_on(
                *old(player),
                *final(player),
                next(State::WaitFateCharacterUI(counted)),
            )
        }),
{
}

/// The fate character that shows in a fifteenth tick is clicked, and asked next; after sixty ticks
/// without one the round has failed.
pub proof fn law_fate_character(
    resources: &mut Resources,
    player: &mut PlayerEntity,
    tof: ThreadsOfFateState,
    t: Timeout,
)
    requires
        call_ensures(update_threads_of_fate_state, (resources, player), ()),
        is_under_way(*old(player), tof),
        tof.state == State::ClickFateCharacter(t),
        !tof.success,
        old(resources).detector.clickable(),
    ensures
        ({
            let seen = old(resources).detector;
            let before = old(resources).input.sent@;
            let sent = final(resources).input.sent@;
            let number = t.current + 1;
            let fresh = Timeout { current: 0, started: false };
            let begun = Timeout { current: t.current, started: true };
            let counted = Timeout { current: number as u32, started: true };
            let clicks = t.started && t.current < 60 && number % 15 == 0 && seen.tof_fate_character
                is At;
            let next = |state: State| ThreadsOfFateState { state, ..tof };
            &&& clicks ==> {
                &&& goes_on(*old(player), *final(player), next(State::ClickAsk(fresh, 0, false)))
                &&& clicked(before, sent, seen.tof_fate_character->At_0, tof)
            }
            &&& !clicks ==> sent == before
            &&& !t.started ==> goes_on(
                *old(player),
                *final(player),
                next(State::ClickFateCharacter(begun)),
            )
            &&& t.started && t.current >= 60 ==> fails(
                *old(player),
                *final(player),
                tof.permanently_stopped,
            )
            &&& t.started && t.current < 60 && !clicks ==> goes_on(
                *old(player),
                *final(player),
                next(State::ClickFateCharacter(counted)),
            )
        }),
{
}

/// The ask button that shows in the second tick or in an eighth one is clicked, and only a real click
/// counts as one. A dialog after a click is talked through. Ten ticks without one are a failed ask: the
/// first is followed by another, the second fails the round and stops Threads of Fate for good.
pub proof fn law_asking(
    resources: &mut Resources,
    player: &mut PlayerEntity,
    tof: ThreadsOfFateState,
    t: Timeout,
    retries: u32,
    was_clicked: bool,
)
    requires
        call_ensures(update_threads_of_fate_state, (resources, player), ()),
        is_under_way(*old(player), tof),
        tof.state == State::ClickAsk(t, retries, was_clicked),
        !tof.success,
        old(resources).detector.clickable(),
    ensures
        ({
            let seen = old(resources).detector;
            let before = old(resources).input.sent@;
            let sent = final(resources).input.sent@;
            let number = t.current + 1;
            let fresh = Timeout { current: 0, started: false };
            let begun = Timeout { current: t.current, started: true };
            let counted = Timeout { current: number as u32, started: true };
            let talks = was_clicked && seen.tof_dialog_visible == Some(true);
            let ends = t.started && t.current >= 10;
            let clicks = t.started && !ends && !talks && (number == 2 || number % 8 == 0)
                && seen.tof_ask_button is At;
            let next = |state: State| ThreadsOfFateState { state, ..tof };
            &&& clicks ==> {
                &&& goes_on(
                    *old(player),
                    *final(player),
                    next(State::ClickAsk(counted, retries, true)),
                )
                &&& clicked(before, sent, seen.tof_ask_button->At_0, tof)
            }
            &&& !clicks ==> sent == before
            &&& !t.started ==> goes_on(
                *old(player),
                *final(player),
                next(State::ClickAsk(begun, retries, was_clicked)),
            )
            &&& t.started && talks ==> goes_on(
                *old(player),
                *final(player),
                next(State::InteractDialog(fresh, 0, 0)),
            )
            &&& t.started && !ends && !talks && !clicks ==> goes_on(
                *old(player),
                *final(player),
                next(State::ClickAsk(counted, retries, was_clicked)),
            )
            &&& ends && !talks && retries == 0 ==> goes_on(
                *old(player),
                *final(player),
                next(State::ClickAsk(fresh, 1, false)),
            )
            &&& ends && !talks && retries >= 1 ==> fails(*old(player), *final(player), true)
        }),
{
}

/// The dialog with the fate character is talked through: the interact key is pressed while it shows, as
/// it begins and every tenth tick. It has ended after eleven more such looks, or when it was missed for
/// the fourth time in a row, and that is a success.
pub proof fn law_talking(
    resources: &mut Resources,
    player: &mut PlayerEntity,
    tof: ThreadsOfFateState,
    t: Timeout,
    presses: u32,
    misses: u32,
)
    requires
        call_ensures(update_threads_of_fate_state, (resources, player), ()),
        is_under_way(*old(player), tof),
        tof.state == State::InteractDialog(t, presses, misses),
        old(resources).detector.clickable(),
    ensures
        ({
            let seen = old(resources).detector;
            let before = old(resources).input.sent@;
            let sent = final(resources).input.sent@;
            let number = t.current + 1;
            let fresh = Timeout { current: 0, started: false };
            let begun = Timeout { current: t.current, started: true };
            let counted = Timeout { current: number as u32, started: true };
            let ends = t.started && t.current >= 8;
            let shows = seen.tof_dialog_visible == Some(true);
            let done = ends && (presses >= 11 || !shows && misses >= 3);
            let next = |state: State| ThreadsOfFateState { state, ..tof };
            &&& !t.started ==> {
                &&& goes_on(
                    *old(player),
                    *final(player),
                    next(State::InteractDialog(begun, presses, misses)),
                )
                &&& misses == 0 && shows ==> sent == before.push(
                    InputCommand::Key(tof.interact_key),
                )
                &&& misses != 0 || !shows ==> sent == before
            }
            &&& t.started && t.current < 8 ==> {
                &&& goes_on(
                    *old(player),
                    *final(player),
                    next(State::InteractDialog(counted, presses, misses)),
                )
                &&& sent == before
            }
            &&& done ==> succeeds(*old(player), *final(player), tof.permanently_stopped) && sent
                == before
            &&& ends && !done && shows ==> {
                &&& goes_on(
                    *old(player),
                    *final(player),
                    next(State::InteractDialog(fresh, (presses + 1) as u32, 0)),
                )
                &&& sent == before.push(InputCommand::Key(tof.interact_key))
            }
            &&& ends && !done && !shows ==> {
                &&& goes_on(
                    *old(player),
                    *final(player),
                    next(
                        State::InteractDialog(fresh, (presses + 1) as u32, (misses + 1) as u32),
                    ),
                )
                &&& sent == before
            }
        }),
{
}

/// A round that no action asks for is dropped; nothing else of the player changes, and nothing of the
/// rest but the input.
pub proof fn law_round_without_action(resources: &mut Resources, player: &mut PlayerEntity)
    requires
        call_ensures(update_threads_of_fate_state, (resources, player), ()),
    ensures
        old(player).context.action is None ==> final(player).state is Idle && final(player).context
            == old(player).context,
        final(resources).detector == old(resources).detector,
        final(resources).operation == old(resources).operation,
        final(resources).tick == old(resources).tick,
        final(resources).input.all_keys_cleared == old(resources).input.all_keys_cleared,
{
}

/// A round begins at the bulb, with nothing found, done or counted, and with the mouse to rest at
/// (1100, 550).
pub proof fn law_round_begins(
    target_count: u32,
    wait_interval_ticks: u32,
    interact_key: KeyKind,
    tof: ThreadsOfFateState,
)
    requires
        call_ensures(
            ThreadsOfFateState::new,
            (target_count, wait_interval_ticks, interact_key),
            tof,
        ),
    ensures
        tof.state == State::ClickBulb(Timeout { current: 0, started: false }, 0),
        tof.target_complete_count == target_count,
        tof.interact_key == interact_key,
        tof.mouse_rest == (Point { x: 1100, y: 550 }),
        !tof.success && !tof.found_complete && !tof.complete_used && !tof.completed,
        !tof.permanently_stopped && tof.complete_executed_count == 0,
{
}

/// What is asked of a frame belongs to the stage, was not answered yet, and once nothing more is asked
/// no answer would change the tick.
pub proof fn law_round_asks(
    tof: &ThreadsOfFateState,
    seen: &Detector,
    detection: Option<Detection>,
    more: Detector,
)
    requires
        call_ensures(next_threads_of_fate_detection, (tof, seen), detection),
        seen.kept_by(more),
    ensures
        detection matches Some(asked) ==> match asked {
            Detection::TofDialogVisible => seen.tof_dialog_visible is None && (tof.state
                is ClickBulb || tof.state is InteractComplete || tof.state is ClickAsk || tof.state
                is InteractDialog),
            Detection::TofMapleMailbox => seen.tof_maple_mailbox is None && tof.state is ClickBulb,
            Detection::TofBulb => seen.tof_bulb is Unasked && tof.state is ClickBulb,
            Detection::TofComplete => seen.tof_complete is Unasked && tof.state is FindComplete,
            Detection::TofUnravelling => seen.tof_unravelling is Unasked && tof.state
                is FindUnravelling,
            Detection::TofFateCharacterUi => seen.tof_fate_character_ui is None && tof.state
                is WaitFateCharacterUI,
            Detection::TofFateCharacter => seen.tof_fate_character is Unasked && tof.state
                is ClickFateCharacter,
            Detection::TofAskButton => seen.tof_ask_button is Unasked && tof.state is ClickAsk,
            _ => false,
        },
        detection is None ==> step(*tof, more) == step(*tof, *seen),
{
    if detection is None {
        law_wanted_detections_suffice(*tof, *seen, more);
    }
}

/// A stage is called by its name.
pub proof fn law_stage_names(tof: &ThreadsOfFateState, text: String)
    requires
        call_ensures(ThreadsOfFateState::describe, (tof,), text),
    ensures
        tof.state is ClickBulb ==> text@ == "ClickBulb"@,
        tof.state is FindComplete ==> text@ == "FindComplete"@,
        tof.state is InteractComplete ==> text@ == "InteractComplete"@,
        tof.state is FindUnravelling ==> text@ == "FindUnravelling"@,
        tof.state is ClickUnravelling ==> text@ == "ClickUnravelling"@,
        tof.state is WaitFateCharacterUI ==> text@ == "WaitFateCharacterUI"@,
        tof.state is ClickFateCharacter ==> text@ == "ClickFateCharacter"@,
        tof.state is ClickAsk ==> text@ == "ClickAsk"@,
        tof.state is InteractDialog ==> text@ == "InteractDialog"@,
{
}

} // verus!

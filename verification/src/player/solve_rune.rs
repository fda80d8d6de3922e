//! Solving a rune: standing still, calibrating, reading the arrows and pressing their keys.

use vstd::prelude::*;

use crate::debug::ArrowsComplete;
use crate::player::timeout::{lifecycle, next_timeout_lifecycle, Lifecycle, Timeout};
use crate::player::{next_action, Player, PlayerAction, PlayerContext, PlayerEntity};
use crate::resources::{Detection, Detector, InputCommand, KeyKind, Resources, SolvingState};

verus! {

pub const PRECONDITION_TICKS: u32 = 15;

/// Ticks without coming to a stand after which a movement key counts as stuck.
pub const STUCK_ABORT_COUNT: u32 = 300;

pub const COOLDOWN_AND_SOLVE_TIMEOUT: u32 = 125;

pub const SOLVE_INTERVAL: u32 = 30;

pub const SOLVING_TICKS: u32 = 150;

pub const PRESS_KEY_INTERVAL: u32 = 8;

/// Representing the current state of rune solving.
#[derive(Debug, Clone, Copy)]
pub enum State {
    /// Ensures stationary and all keys cleared before solving.
    Precondition(Timeout),
    /// Calibrates rune arrows for possible spinning arrows.
    Calibrating(Timeout),
    /// Solves for the rune arrows that possibly include spinning arrows.
    Solving(Timeout),
    /// Presses the keys.
    PressKeys(Timeout, [KeyKind; 4], usize),
    /// Terminal stage.
    Completed,
}

/// One attempt at a rune.
#[derive(Debug, Clone, Copy)]
pub struct SolvingRune {
    pub state: State,
    /// Consecutive precondition ticks where the player failed to become stationary.
    pub stuck_count: u32,
}

impl Default for SolvingRune {
    fn default() -> (rune: SolvingRune)
        ensures
            rune == SolvingRune::begin(),
            rune.wf(),
    {
        SolvingRune { state: State::Precondition(Timeout::default()), stuck_count: 0 }
    }
}

impl SolvingRune {
    pub open spec fn begin() -> SolvingRune {
        SolvingRune { state: State::Precondition(Timeout::fresh()), stuck_count: 0 }
    }

    /// An attempt that goes on, with its counters within their limits.
    pub open spec fn wf(self) -> bool {
        match self.state {
            State::Precondition(t) => t.within(PRECONDITION_TICKS),
            State::Calibrating(t) => t.within(COOLDOWN_AND_SOLVE_TIMEOUT),
            State::Solving(t) => t.within(SOLVING_TICKS),
            State::PressKeys(t, _, index) => t.within(PRESS_KEY_INTERVAL) && index < 4,
            State::Completed => false,
        }
    }

    pub open spec fn at(self, state: State) -> SolvingRune {
        SolvingRune { state, ..self }
    }
}

/// What one tick makes of an attempt.
pub struct Step {
    pub next: SolvingRune,
    pub sent: Seq<InputCommand>,
    /// Whether the player has been unable to stand still for too long.
    pub stuck: bool,
}

pub open spec fn quietly(next: SolvingRune) -> Step {
    Step { next, sent: Seq::empty(), stuck: false }
}

/// Whether the solver runs in the next tick.
pub open spec fn solver_due(rune: SolvingRune) -> bool {
    match rune.state {
        State::Calibrating(t) => lifecycle(t, COOLDOWN_AND_SOLVE_TIMEOUT) matches
            Lifecycle::Updated(t) && t.current % SOLVE_INTERVAL == 0,
        State::Solving(t) => lifecycle(t, SOLVING_TICKS) is Updated,
        _ => false,
    }
}

/// The solver, where it runs, answers to the stage: it neither completes nor fails while it still
/// calibrates, and never goes back to calibrating.
pub open spec fn answers_stage(rune: SolvingRune, answer: Option<SolvingState>) -> bool {
    solver_due(rune) ==> match answer {
        Some(SolvingState::Complete(_)) | Some(SolvingState::Error) => rune.state is Solving,
        Some(SolvingState::Calibrating) => rune.state is Calibrating,
        _ => true,
    }
}

pub open spec fn saturating_succ(count: u32) -> u32 {
    if count == u32::MAX {
        u32::MAX
    } else {
        (count + 1) as u32
    }
}

/// Waits for the player to stand still with all keys released, and counts how long it does not.
pub open spec fn precondition_step(rune: SolvingRune, timeout: Timeout, ready: bool) -> Step {
    match lifecycle(timeout, PRECONDITION_TICKS) {
        Lifecycle::Ended => if ready {
            quietly(
                SolvingRune { state: State::Calibrating(Timeout::fresh()), stuck_count: 0 },
            )
        } else {
            let count = saturating_succ(rune.stuck_count);
            Step {
                next: SolvingRune { stuck_count: count, ..rune },
                sent: Seq::empty(),
                stuck: count >= STUCK_ABORT_COUNT,
            }
        },
        Lifecycle::Started(t) | Lifecycle::Updated(t) => quietly(rune.at(State::Precondition(t))),
    }
}

/// Opens the rune, then asks the solver every [`SOLVE_INTERVAL`] ticks.
pub open spec fn calibrating_step(
    rune: SolvingRune,
    timeout: Timeout,
    interact_key: KeyKind,
    answer: Option<SolvingState>,
) -> Step {
    match lifecycle(timeout, COOLDOWN_AND_SOLVE_TIMEOUT) {
        Lifecycle::Started(t) => Step {
            next: rune.at(State::Calibrating(t)),
            sent: seq![InputCommand::Key(interact_key)],
            stuck: false,
        },
        Lifecycle::Ended => quietly(rune.at(State::Completed)),
        Lifecycle::Updated(t) => if t.current % SOLVE_INTERVAL == 0 && answer matches Some(
            SolvingState::Solving,
        ) {
            quietly(rune.at(State::Solving(Timeout::fresh())))
        } else {
            quietly(rune.at(State::Calibrating(t)))
        },
    }
}

/// Asks the solver every tick until it knows the arrows or gives up.
pub open spec fn solving_step(
    rune: SolvingRune,
    timeout: Timeout,
    answer: Option<SolvingState>,
) -> Step {
    match lifecycle(timeout, SOLVING_TICKS) {
        Lifecycle::Started(t) => quietly(rune.at(State::Solving(t))),
        Lifecycle::Ended => quietly(rune.at(State::Completed)),
        Lifecycle::Updated(t) => match answer {
            Some(SolvingState::Complete(arrows)) =>
                quietly(rune.at(State::PressKeys(Timeout::fresh(), arrows.keys, 0))),
            Some(SolvingState::Error) => quietly(rune.at(State::Completed)),
            _ => quietly(rune.at(State::Solving(t))),
        },
    }
}

/// Presses one key after the other, [`PRESS_KEY_INTERVAL`] ticks apart.
pub open spec fn press_keys_step(
    rune: SolvingRune,
    timeout: Timeout,
    keys: [KeyKind; 4],
    index: usize,
) -> Step {
    match lifecycle(timeout, PRESS_KEY_INTERVAL) {
        Lifecycle::Started(t) => Step {
            next: rune.at(State::PressKeys(t, keys, index)),
            sent: seq![InputCommand::Key(keys[index as int])],
            stuck: false,
        },
        Lifecycle::Ended => if index + 1 < 4 {
            quietly(rune.at(State::PressKeys(Timeout::fresh(), keys, (index + 1) as usize)))
        } else {
            quietly(rune.at(State::Completed))
        },
        Lifecycle::Updated(t) => quietly(rune.at(State::PressKeys(t, keys, index))),
    }
}

/// One tick of an attempt.
pub open spec fn step(
    rune: SolvingRune,
    context: PlayerContext,
    keys_cleared: bool,
    seen: Detector,
) -> Step {
    match rune.state {
        State::Precondition(t) => precondition_step(
            rune,
            t,
            context.is_stationary && keys_cleared,
        ),
        State::Calibrating(t) => calibrating_step(
            rune,
            t,
            context.interact_key,
            seen.rune_arrows,
        ),
        State::Solving(t) => solving_step(rune, t, seen.rune_arrows),
        State::PressKeys(t, keys, index) => press_keys_step(rune, t, keys, index),
        State::Completed => quietly(rune),
    }
}

/// Releases every arrow key.
pub open spec fn release_arrows() -> Seq<InputCommand> {
    seq![
        InputCommand::KeyUp(KeyKind::Up),
        InputCommand::KeyUp(KeyKind::Down),
        InputCommand::KeyUp(KeyKind::Left),
        InputCommand::KeyUp(KeyKind::Right),
    ]
}

/// The attempt is called off because of a stuck key.
pub open spec fn called_off(player: PlayerEntity, taken: Step) -> bool {
    taken.stuck && player.context.action == Some(PlayerAction::SolveRune)
}

/// The player after a tick: the attempt goes on, is over and its outcome watched for, is called
/// off to be taken up again from scratch, or is dropped where no action asks for it.
pub open spec fn player_after(player: PlayerEntity, taken: Step) -> PlayerEntity {
    if player.context.action is None {
        PlayerEntity { state: Player::Idle, ..player }
    } else if called_off(player, taken) {
        PlayerEntity { state: Player::Idle, context: player.context.action_cleared() }
    } else if taken.next.state is Completed {
        PlayerEntity {
            state: Player::Idle,
            context: PlayerContext { validating_rune: true, ..player.context.action_cleared() },
        }
    } else {
        PlayerEntity { state: Player::SolvingRune(taken.next), ..player }
    }
}

/// The input of a tick.
pub open spec fn input_of(player: PlayerEntity, taken: Step) -> Seq<InputCommand> {
    if called_off(player, taken) {
        taken.sent + release_arrows()
    } else {
        taken.sent
    }
}

/// The tick that `resources` and `player` ask for.
pub open spec fn tick(resources: Resources, player: PlayerEntity) -> Step {
    step(
        player.state->SolvingRune_0,
        player.context,
        resources.input.all_keys_cleared,
        resources.detector,
    )
}

/// Updates the [`Player::SolvingRune`] contextual state.
///
/// A player that cannot come to a stand for [`STUCK_ABORT_COUNT`] ticks has a movement key stuck:
/// the arrow keys are released and the action is cleared, so that the rune is approached again.
pub fn update_solving_rune_state(resources: &mut Resources, player: &mut PlayerEntity)
    requires
        old(player).state matches Player::SolvingRune(rune) && rune.wf(),
        old(player).context.action matches Some(action) ==> action is SolveRune,
        answers_stage(
            old(player).state->SolvingRune_0,
            old(resources).detector.rune_arrows,
        ),
    ensures
        *final(player) == player_after(*old(player), tick(*old(resources), *old(player))),
        final(player).state matches Player::SolvingRune(rune) ==> rune.wf(),
        old(resources).sends(
            *final(resources),
            input_of(*old(player), tick(*old(resources), *old(player))),
        ),
{
    let mut solving_rune = match player.state {
        Player::SolvingRune(rune) => rune,
        _ => {
            return;
        },
    };

    let mut stuck_abort: bool = false;
    match solving_rune.state {
        State::Precondition(_) => {
            stuck_abort = update_precondition(resources, &player.context, &mut solving_rune);
        },
        State::Calibrating(_) => update_calibrating(
            resources,
            &mut solving_rune,
            player.context.interact_key,
        ),
        State::Solving(_) => update_solving(resources, &mut solving_rune),
        State::PressKeys(_, _, _) => update_press_keys(resources, &mut solving_rune),
        State::Completed => {},
    }

    if stuck_abort && matches!(next_action(&player.context), Some(PlayerAction::SolveRune)) {
        resources.input.send_key_up(KeyKind::Up);
        resources.input.send_key_up(KeyKind::Down);
        resources.input.send_key_up(KeyKind::Left);
        resources.input.send_key_up(KeyKind::Right);
        player.context.clear_action_completed();
        player.state = Player::Idle;
        return;
    }

    let is_terminal = matches!(solving_rune.state, State::Completed);
    match next_action(&player.context) {
        Some(_) => {
            if is_terminal {
                player.context.clear_action_completed();
                player.context.start_validating_rune();
                player.state = Player::Idle;
            } else {
                player.state = Player::SolvingRune(solving_rune);
            }
        },
        None => {
            player.state = Player::Idle;
        },
    }
}

/// Returns whether the player has been unable to stand still for too long.
pub fn update_precondition(
    resources: &Resources,
    player_context: &PlayerContext,
    solving_rune: &mut SolvingRune,
) -> (stuck: bool)
    requires
        old(solving_rune).state is Precondition,
    ensures
        ({
            let taken = precondition_step(
                *old(solving_rune),
                old(solving_rune).state->Precondition_0,
                player_context.is_stationary && resources.input.all_keys_cleared,
            );
            &&& *final(solving_rune) == taken.next
            &&& stuck == taken.stuck
        }),
{
    let timeout = match solving_rune.state {
        State::Precondition(timeout) => timeout,
        _ => {
            return false;
        },
    };

    match next_timeout_lifecycle(timeout, PRECONDITION_TICKS) {
        Lifecycle::Ended => {
            if player_context.is_stationary && resources.input.is_all_keys_cleared() {
                solving_rune.stuck_count = 0;
                solving_rune.state = State::Calibrating(Timeout::default());
            } else {
                solving_rune.stuck_count = solving_rune.stuck_count.saturating_add(1);
                solving_rune.state = State::Precondition(timeout);
                if solving_rune.stuck_count >= STUCK_ABORT_COUNT {
                    return true;
                }
            }
        },
        Lifecycle::Started(timeout) | Lifecycle::Updated(timeout) => {
            solving_rune.state = State::Precondition(timeout);
        },
    }

    false
}

pub fn update_calibrating(
    resources: &mut Resources,
    solving_rune: &mut SolvingRune,
    interact_key: KeyKind,
)
    requires
        old(solving_rune).state is Calibrating,
        answers_stage(*old(solving_rune), old(resources).detector.rune_arrows),
    ensures
        ({
            let taken = calibrating_step(
                *old(solving_rune),
                old(solving_rune).state->Calibrating_0,
                interact_key,
                old(resources).detector.rune_arrows,
            );
            &&& *final(solving_rune) == taken.next
            &&& old(resources).sends(*final(resources), taken.sent)
        }),
{
    let timeout = match solving_rune.state {
        State::Calibrating(timeout) => timeout,
        _ => {
            return;
        },
    };

    match next_timeout_lifecycle(timeout, COOLDOWN_AND_SOLVE_TIMEOUT) {
        Lifecycle::Started(timeout) => {
            resources.input.send_key(interact_key);
            solving_rune.state = State::Calibrating(timeout);
        },
        Lifecycle::Ended => {
            solving_rune.state = State::Completed;
        },
        Lifecycle::Updated(timeout) => {
            if timeout.current.is_multiple_of(SOLVE_INTERVAL) {
                if let Some(SolvingState::Solving) = resources.detector.rune_arrows {
                    solving_rune.state = State::Solving(Timeout::default());
                    return;
                }
            }
            solving_rune.state = State::Calibrating(timeout);
        },
    }
}

pub fn update_solving(resources: &Resources, solving_rune: &mut SolvingRune)
    requires
        old(solving_rune).state is Solving,
        answers_stage(*old(solving_rune), resources.detector.rune_arrows),
    ensures
        *final(solving_rune) == solving_step(
            *old(solving_rune),
            old(solving_rune).state->Solving_0,
            resources.detector.rune_arrows,
        ).next,
{
    let timeout = match solving_rune.state {
        State::Solving(timeout) => timeout,
        _ => {
            return;
        },
    };

    match next_timeout_lifecycle(timeout, SOLVING_TICKS) {
        Lifecycle::Started(timeout) => {
            solving_rune.state = State::Solving(timeout);
        },
        Lifecycle::Ended => {
            solving_rune.state = State::Completed;
        },
        Lifecycle::Updated(timeout) => {
            match resources.detector.rune_arrows {
                Some(SolvingState::Complete(arrows)) => {
                    solving_rune.state = State::PressKeys(Timeout::default(), arrows.keys, 0);
                },
                Some(SolvingState::Error) => {
                    solving_rune.state = State::Completed;
                },
                _ => {
                    solving_rune.state = State::Solving(timeout);
                },
            }
        },
    }
}

/// The solved arrows that are to be kept as the last result of the tick: those of an answer that
/// ends the solving.
pub open spec fn solved(rune: SolvingRune, answer: Option<SolvingState>) -> Option<ArrowsComplete> {
    match (rune.state, answer) {
        (State::Solving(t), Some(SolvingState::Complete(arrows))) => if lifecycle(t, SOLVING_TICKS)
            is Updated {
            Some(arrows)
        } else {
            None
        },
        _ => None,
    }
}

/// Tells, before the tick is taken, whether a result is to be kept, and which.
pub fn last_rune_result(rune: &SolvingRune, seen: &Detector) -> (result: Option<ArrowsComplete>)
    ensures
        result == solved(*rune, seen.rune_arrows),
{
    match (rune.state, seen.rune_arrows) {
        (State::Solving(timeout), Some(SolvingState::Complete(arrows))) => {
            match next_timeout_lifecycle(timeout, SOLVING_TICKS) {
                Lifecycle::Updated(_) => Some(arrows),
                _ => None,
            }
        },
        _ => None,
    }
}

/// A result is kept in exactly the ticks that go from solving to pressing keys, and the keys are
/// those of the result.
pub proof fn law_kept_result_is_pressed(
    rune: SolvingRune,
    context: PlayerContext,
    keys_cleared: bool,
    seen: Detector,
)
    ensures
        ({
            let next = step(rune, context, keys_cleared, seen).next.state;
            &&& solved(rune, seen.rune_arrows) is Some <==> rune.state is Solving
                && next is PressKeys
            &&& solved(rune, seen.rune_arrows) matches Some(arrows) ==> next == State::PressKeys(
                Timeout::fresh(),
                arrows.keys,
                0,
            )
        }),
{
}

pub fn update_press_keys(resources: &mut Resources, solving_rune: &mut SolvingRune)
    requires
        old(solving_rune).state is PressKeys,
        old(solving_rune).wf(),
    ensures
        ({
            let taken = press_keys_step(
                *old(solving_rune),
                old(solving_rune).state->PressKeys_0,
                old(solving_rune).state->PressKeys_1,
                old(solving_rune).state->PressKeys_2,
            );
            &&& *final(solving_rune) == taken.next
            &&& old(resources).sends(*final(resources), taken.sent)
        }),
{
    let (timeout, keys, key_index) = match solving_rune.state {
        State::PressKeys(timeout, keys, key_index) => (timeout, keys, key_index),
        _ => {
            return;
        },
    };

    match next_timeout_lifecycle(timeout, PRESS_KEY_INTERVAL) {
        Lifecycle::Started(timeout) => {
            resources.input.send_key(keys[key_index]);
            solving_rune.state = State::PressKeys(timeout, keys, key_index);
        },
        Lifecycle::Ended => {
            solving_rune.state = if key_index + 1 < 4 {
                State::PressKeys(Timeout::default(), keys, key_index + 1)
            } else {
                State::Completed
            };
        },
        Lifecycle::Updated(timeout) => {
            solving_rune.state = State::PressKeys(timeout, keys, key_index);
        },
    }
}

/// Whether `rune` wants a round of the solver on the current frame.
pub open spec fn wanted(rune: SolvingRune, seen: Detector) -> Option<Detection> {
    if seen.rune_arrows is None && solver_due(rune) {
        Some(Detection::RuneArrows)
    } else {
        None
    }
}

/// Tells whether to run the solver for `rune` before the tick is taken.
pub fn next_rune_detection(rune: &SolvingRune, seen: &Detector) -> (detection: Option<Detection>)
    ensures
        detection == wanted(*rune, *seen),
{
    if seen.rune_arrows.is_some() {
        return None;
    }
    match rune.state {
        State::Calibrating(timeout) => {
            match next_timeout_lifecycle(timeout, COOLDOWN_AND_SOLVE_TIMEOUT) {
                Lifecycle::Updated(timeout) => {
                    if timeout.current.is_multiple_of(SOLVE_INTERVAL) {
                        Some(Detection::RuneArrows)
                    } else {
                        None
                    }
                },
                _ => None,
            }
        },
        State::Solving(timeout) => {
            match next_timeout_lifecycle(timeout, SOLVING_TICKS) {
                Lifecycle::Updated(_) => Some(Detection::RuneArrows),
                _ => None,
            }
        },
        _ => None,
    }
}

/// Where the solver is not wanted, its answer would change nothing.
pub proof fn law_wanted_detections_suffice(
    rune: SolvingRune,
    context: PlayerContext,
    keys_cleared: bool,
    seen: Detector,
    more: Detector,
)
    requires
        wanted(rune, seen) is None,
        seen.kept_by(more),
    ensures
        step(rune, context, keys_cleared, more) == step(rune, context, keys_cleared, seen),
{
}

/// A stuck key is found only after the player failed to stand still [`STUCK_ABORT_COUNT`] ticks in
/// a row: standing still resets the count.
pub proof fn law_stuck_needs_many_ticks(rune: SolvingRune, timeout: Timeout, ready: bool)
    requires
        rune.state == State::Precondition(timeout),
    ensures
        ({
            let taken = precondition_step(rune, timeout, ready);
            &&& taken.stuck ==> !ready && taken.next.stuck_count >= STUCK_ABORT_COUNT
            &&& taken.next.stuck_count <= rune.stuck_count || taken.next.stuck_count
                == rune.stuck_count + 1
            &&& taken.next.state is Calibrating ==> ready && taken.next.stuck_count == 0
        }),
{
}

/// How many more ticks an attempt takes at most, once the player stands still.
pub open spec fn ticks_left(rune: SolvingRune) -> int {
    match rune.state {
        State::Completed => 0,
        State::PressKeys(t, _, index) => (3 - index) * 10 + t.updates_left(PRESS_KEY_INTERVAL),
        State::Solving(t) => 40 + t.updates_left(SOLVING_TICKS),
        State::Calibrating(t) => 192 + t.updates_left(COOLDOWN_AND_SOLVE_TIMEOUT),
        State::Precondition(_) => 0,
    }
}

/// Past the precondition, every tick brings an attempt closer to its end.
pub proof fn law_attempt_progress(
    rune: SolvingRune,
    context: PlayerContext,
    keys_cleared: bool,
    seen: Detector,
)
    requires
        rune.wf(),
        rune.state !is Precondition,
    ensures
        ({
            let next = step(rune, context, keys_cleared, seen).next;
            &&& 0 <= ticks_left(next) < ticks_left(rune) <= 319
            &&& next.state is Completed || next.wf()
            &&& next.state !is Precondition
        }),
{
}

/// What a tick goes by.
pub struct TickInput {
    pub context: PlayerContext,
    pub keys_cleared: bool,
    pub seen: Detector,
}

/// An attempt after the given ticks. One that is completed stays so.
pub open spec fn run(rune: SolvingRune, ticks: Seq<TickInput>) -> SolvingRune
    decreases ticks.len(),
{
    if ticks.len() == 0 || rune.state is Completed {
        rune
    } else {
        let first = ticks[0];
        run(step(rune, first.context, first.keys_cleared, first.seen).next, ticks.skip(1))
    }
}

/// Once the player stands still, an attempt is over in time, whatever the frames show.
pub proof fn law_attempt_ends(rune: SolvingRune, ticks: Seq<TickInput>)
    requires
        rune.wf(),
        rune.state !is Precondition,
        ticks.len() >= ticks_left(rune),
    ensures
        run(rune, ticks).state is Completed,
        ticks_left(rune) <= 319,
    decreases ticks.len(),
{
    let first = ticks[0];
    let next = step(rune, first.context, first.keys_cleared, first.seen).next;
    law_attempt_progress(rune, first.context, first.keys_cleared, first.seen);
    if next.state is Completed {
        assert(run(next, ticks.skip(1)) == next);
    } else {
        law_attempt_ends(next, ticks.skip(1));
    }
}

/// The state and the input after `n` ticks of pressing keys.
pub open spec fn press_run(rune: SolvingRune, n: nat) -> (SolvingRune, Seq<InputCommand>)
    decreases n,
{
    if n == 0 {
        (rune, Seq::empty())
    } else {
        let (before, sent) = press_run(rune, (n - 1) as nat);
        match before.state {
            State::PressKeys(t, keys, index) => {
                let taken = press_keys_step(before, t, keys, index);
                (taken.next, sent + taken.sent)
            },
            _ => (before, sent),
        }
    }
}

/// The key presses of the first `count` arrows.
pub open spec fn presses(keys: [KeyKind; 4], count: int) -> Seq<InputCommand> {
    Seq::new(count as nat, |i: int| InputCommand::Key(keys[i]))
}

/// A key is pressed in the first of its ticks; the next ones only count.
proof fn lemma_key_under_way(rune: SolvingRune, keys: [KeyKind; 4], index: usize, n: nat, k: nat)
    requires
        index < 4,
        press_run(rune, n).0.state == State::PressKeys(Timeout::fresh(), keys, index),
        1 <= k <= PRESS_KEY_INTERVAL + 1,
    ensures
        press_run(rune, n + k).0 == press_run(rune, n).0.at(
            State::PressKeys(Timeout { current: (k - 1) as u32, started: true }, keys, index),
        ),
        press_run(rune, n + k).1 =~= press_run(rune, n).1.push(
            InputCommand::Key(keys[index as int]),
        ),
    decreases k,
{
    let before = press_run(rune, (n + k - 1) as nat);
    if k == 1 {
        assert(before == press_run(rune, n));
    } else {
        lemma_key_under_way(rune, keys, index, n, (k - 1) as nat);
    }
    let t = before.0.state->PressKeys_0;
    assert(press_run(rune, n + k) == {
        let taken = press_keys_step(before.0, t, keys, index);
        (taken.next, before.1 + taken.sent)
    });
}

/// One key takes ten ticks and is pressed in the first of them.
proof fn lemma_one_key(rune: SolvingRune, keys: [KeyKind; 4], index: usize, n: nat)
    requires
        index < 4,
        press_run(rune, n).0.state == State::PressKeys(Timeout::fresh(), keys, index),
    ensures
        press_run(rune, n + 10).0 == press_run(rune, n).0.at(
            if index < 3 {
                State::PressKeys(Timeout::fresh(), keys, (index + 1) as usize)
            } else {
                State::Completed
            },
        ),
        press_run(rune, n + 10).1 =~= press_run(rune, n).1.push(
            InputCommand::Key(keys[index as int]),
        ),
{
    lemma_key_under_way(rune, keys, index, n, 9);
}

/// A solved rune is answered with its four arrows, each once and in order, and nothing else.
pub proof fn law_arrows_pressed_in_order(rune: SolvingRune, keys: [KeyKind; 4])
    requires
        rune.state == State::PressKeys(Timeout::fresh(), keys, 0),
    ensures
        press_run(rune, 40).0.state is Completed,
        press_run(rune, 40).1 == presses(keys, 4),
{
    assert(press_run(rune, 0) == (rune, Seq::<InputCommand>::empty()));
    lemma_one_key(rune, keys, 0, 0);
    lemma_one_key(rune, keys, 1, 10);
    lemma_one_key(rune, keys, 2, 20);
    lemma_one_key(rune, keys, 3, 30);
    assert(press_run(rune, 40).1 =~= presses(keys, 4));
}

/// Before a rune is opened the player has to stand still with all keys released, sixteen ticks after
/// it began at the earliest. A player that does not come to a stand is counted, and at the three
/// hundredth time in a row the arrow keys are released and the action is given up.
pub proof fn law_rune_waits_for_a_stand(
    resources: &mut Resources,
    player: &mut PlayerEntity,
    t: Timeout,
    stuck_count: u32,
)
    requires
        call_ensures(update_solving_rune_state, (resources, player), ()),
        old(player).state == Player::SolvingRune(
            SolvingRune { state: State::Precondition(t), stuck_count },
        ),
        old(player).context.action == Some(PlayerAction::SolveRune),
        stuck_count < u32::MAX,
    ensures
        ({
            let stands = old(player).context.is_stationary && old(resources).input.all_keys_cleared;
            let due = t.started && t.current >= 15;
            let gives_up = due && !stands && stuck_count + 1 >= 300;
            &&& !t.started ==> final(player).state == Player::SolvingRune(
                SolvingRune {
                    state: State::Precondition(Timeout { current: t.current, started: true }),
                    stuck_count,
                },
            )
            &&& t.started && t.current < 15 ==> final(player).state == Player::SolvingRune(
                SolvingRune {
                    state: State::Precondition(
                        Timeout { current: (t.current + 1) as u32, started: true },
                    ),
                    stuck_count,
                },
            )
            &&& due && stands ==> final(player).state == Player::SolvingRune(
                SolvingRune {
                    state: State::Calibrating(Timeout { current: 0, started: false }),
                    stuck_count: 0,
                },
            )
            &&& due && !stands && !gives_up ==> final(player).state == Player::SolvingRune(
                SolvingRune {
                    state: State::Precondition(t),
                    stuck_count: (stuck_count + 1) as u32,
                },
            )
            &&& gives_up ==> {
                &&& final(player).state is Idle
                &&& final(player).context.action is None
                &&& final(player).context.validating_rune == old(player).context.validating_rune
                &&& final(resources).input.sent@ == old(resources).input.sent@ + seq![
                    InputCommand::KeyUp(KeyKind::Up),
                    InputCommand::KeyUp(KeyKind::Down),
                    InputCommand::KeyUp(KeyKind::Left),
                    InputCommand::KeyUp(KeyKind::Right),
                ]
            }
            &&& !gives_up ==> {
                &&& final(player).context == old(player).context
                &&& final(resources).input.sent@ == old(resources).input.sent@
            }
        }),
{
}

/// Calibrating begins with one press of the interact key. In every thirtieth tick the answer that the
/// solver solves leads to solving, whichever of these ticks it is; after 125 ticks the attempt is
/// over, and its outcome is watched for.
pub proof fn law_rune_calibrates(
    resources: &mut Resources,
    player: &mut PlayerEntity,
    t: Timeout,
    stuck_count: u32,
)
    requires
        call_ensures(update_solving_rune_state, (resources, player), ()),
        old(player).state == Player::SolvingRune(
            SolvingRune { state: State::Calibrating(t), stuck_count },
        ),
        old(player).context.action == Some(PlayerAction::SolveRune),
    ensures
        ({
            let number = t.current + 1;
            let answer = old(resources).detector.rune_arrows;
            let goes_on = t.started && t.current < 125;
            let solves = goes_on && number % 30 == 0 && answer == Some(SolvingState::Solving);
            &&& !t.started ==> {
                &&& final(player).state == Player::SolvingRune(
                    SolvingRune {
                        state: State::Calibrating(Timeout { current: t.current, started: true }),
                        stuck_count,
                    },
                )
                &&& final(resources).input.sent@ == old(resources).input.sent@.push(
                    InputCommand::Key(old(player).context.interact_key),
                )
            }
            &&& t.started ==> final(resources).input.sent@ == old(resources).input.sent@
            &&& solves ==> final(player).state == Player::SolvingRune(
                SolvingRune {
                    state: State::Solving(Timeout { current: 0, started: false }),
                    stuck_count,
                },
            )
            &&& goes_on && !solves ==> final(player).state == Player::SolvingRune(
                SolvingRune {
                    state: State::Calibrating(Timeout { current: number as u32, started: true }),
                    stuck_count,
                },
            )
            &&& t.started && t.current >= 125 ==> {
                &&& final(player).state is Idle
                &&& final(player).context.action is None
                &&& final(player).context.validating_rune
            }
            &&& !t.started || goes_on ==> final(player).context == old(player).context
        }),
{
}

/// Once it solves, the arrows of a complete answer are pressed from the first on, and a failed or
/// late one ends the attempt, whose outcome is watched for. Solving itself sends nothing.
pub proof fn law_rune_solves(
    resources: &mut Resources,
    player: &mut PlayerEntity,
    t: Timeout,
    stuck_count: u32,
)
    requires
        call_ensures(update_solving_rune_state, (resources, player), ()),
        old(player).state == Player::SolvingRune(
            SolvingRune { state: State::Solving(t), stuck_count },
        ),
        old(player).context.action == Some(PlayerAction::SolveRune),
    ensures
        ({
            let answer = old(resources).detector.rune_arrows;
            let goes_on = t.started && t.current < 150;
            let over = t.started && (t.current >= 150 || answer == Some(SolvingState::Error));
            let current: u32 = if t.started {
                (t.current + 1) as u32
            } else {
                t.current
            };
            &&& final(resources).input.sent@ == old(resources).input.sent@
            &&& goes_on && answer is Some && answer->Some_0 is Complete ==> final(player).state
                == Player::SolvingRune(
                SolvingRune {
                    state: State::PressKeys(
                        Timeout { current: 0, started: false },
                        (answer->Some_0->Complete_0).keys,
                        0,
                    ),
                    stuck_count,
                },
            )
            &&& over ==> {
                &&& final(player).state is Idle
                &&& final(player).context.action is None
                &&& final(player).context.validating_rune
            }
            &&& !over ==> final(player).context == old(player).context
            &&& !over && !(t.started && answer is Some && answer->Some_0 is Complete) ==> final(player).state == Player::SolvingRune(
                SolvingRune {
                    state: State::Solving(Timeout { current, started: true }),
                    stuck_count,
                },
            )
        }),
{
}

/// The arrow in turn is pressed as its interval starts, and never again within it. After eight ticks
/// comes the next one, and after the fourth the attempt is over and its outcome watched for.
pub proof fn law_rune_presses(
    resources: &mut Resources,
    player: &mut PlayerEntity,
    t: Timeout,
    keys: [KeyKind; 4],
    index: usize,
    stuck_count: u32,
)
    requires
        call_ensures(update_solving_rune_state, (resources, player), ()),
        old(player).state == Player::SolvingRune(
            SolvingRune { state: State::PressKeys(t, keys, index), stuck_count },
        ),
        old(player).context.action == Some(PlayerAction::SolveRune),
        index < 4,
    ensures
        ({
            let over = t.started && t.current >= 8;
            let next = |state: State| Player::SolvingRune(SolvingRune { state, stuck_count });
            &&& !t.started ==> {
                &&& final(player).state == next(
                    State::PressKeys(
                        Timeout { current: t.current, started: true },
                        keys,
                        index,
                    ),
                )
                &&& final(resources).input.sent@ == old(resources).input.sent@.push(
                    InputCommand::Key(keys[index as int]),
                )
            }
            &&& t.started ==> final(resources).input.sent@ == old(resources).input.sent@
            &&& t.started && t.current < 8 ==> final(player).state == next(
                State::PressKeys(
                    Timeout { current: (t.current + 1) as u32, started: true },
                    keys,
                    index,
                ),
            )
            &&& over && index < 3 ==> final(player).state == next(
                State::PressKeys(
                    Timeout { current: 0, started: false },
                    keys,
                    (index + 1) as usize,
                ),
            )
            &&& over && index == 3 ==> {
                &&& final(player).state is Idle
                &&& final(player).context.action is None
                &&& final(player).context.validating_rune
            }
            &&& !(over && index == 3) ==> final(player).context == old(player).context
        }),
{
}

/// An attempt that no action asks for is dropped; nothing else of the player changes, and nothing of
/// the rest but the input.
pub proof fn law_rune_without_action(resources: &mut Resources, player: &mut PlayerEntity)
    requires
        call_ensures(update_solving_rune_state, (resources, player), ()),
    ensures
        old(player).context.action is None ==> final(player).state is Idle && final(player).context == old(player).context,
        final(resources).detector == old(resources).detector,
        final(resources).operation == old(resources).operation,
        final(resources).tick == old(resources).tick,
        final(resources).input.all_keys_cleared == old(resources).input.all_keys_cleared,
{
}

/// The solver is asked once per frame: in every thirtieth tick of calibrating and in every tick of
/// solving.
pub proof fn law_rune_solver_is_asked(
    rune: &SolvingRune,
    seen: &Detector,
    detection: Option<Detection>,
)
    requires
        call_ensures(next_rune_detection, (rune, seen), detection),
    ensures
        detection matches Some(asked) ==> asked == Detection::RuneArrows,
        detection is Some <==> seen.rune_arrows is None && match rune.state {
            State::Calibrating(t) => t.started && t.current < 125 && (t.current + 1) % 30 == 0,
            State::Solving(t) => t.started && t.current < 150,
            _ => false,
        },
{
}

/// The result that is kept is the complete answer of a tick of solving that is neither its first nor
/// past its time.
pub proof fn law_rune_result(
    rune: &SolvingRune,
    seen: &Detector,
    result: Option<ArrowsComplete>,
)
    requires
        call_ensures(last_rune_result, (rune, seen), result),
    ensures
        result matches Some(arrows) ==> seen.rune_arrows == Some(SolvingState::Complete(arrows)),
        result is Some <==> {
            &&& rune.state matches State::Solving(t) && t.started && t.current < 150
            &&& seen.rune_arrows is Some && seen.rune_arrows->Some_0 is Complete
        },
{
}

/// An attempt begins with standing still, and with nothing counted yet.
pub proof fn law_rune_begins(rune: SolvingRune)
    requires
        call_ensures(SolvingRune::default, (), rune),
    ensures
        rune.state == State::Precondition(Timeout { current: 0, started: false }),
        rune.stuck_count == 0,
{
}

} // verus!

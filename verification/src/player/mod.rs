//! The player: what it is doing, and the state machines that carry it through.

use vstd::prelude::*;

use crate::resources::KeyKind;

pub mod solve_rune;
pub mod solve_shape;
pub mod threads_of_fate;
pub mod timeout;

use crate::player::solve_rune::SolvingRune;
use crate::player::solve_shape::SolvingShape;
use crate::player::threads_of_fate::ThreadsOfFateState;

verus! {

/// How many failed rounds of Threads of Fate in a row stop it for good.
pub const THREADS_OF_FATE_FAIL_LIMIT: u32 = 2;

#[derive(Debug, Clone, Copy, PartialEq, Eq, Structural)]
pub enum PanicTo {
    Town,
    Channel,
}

/// Getting out of danger.
#[derive(Debug, Clone, Copy, PartialEq, Eq, Structural)]
pub struct Panic {
    pub to: PanicTo,
}

/// An action that the player was told to carry out.
#[derive(Debug, Clone, Copy, PartialEq, Eq, Structural)]
pub enum PlayerAction {
    SolveRune,
    SolveShape,
    ThreadsOfFate,
    Panic(Panic),
    /// Any other action, which no decision here tells apart.
    Other,
}

/// The contextual state of the player.
#[derive(Debug)]
pub enum Player {
    Idle,
    SolvingRune(SolvingRune),
    SolvingShape(SolvingShape),
    ThreadsOfFate(ThreadsOfFateState),
    /// Any other state.
    Other,
}

impl Player {
    /// What a copy of the state is: an attempt at a shape gets a solver of its own.
    pub open spec fn copied(self) -> Player {
        match self {
            Player::SolvingShape(shape) => Player::SolvingShape(shape.with_fresh_solver()),
            _ => self,
        }
    }
}

impl Clone for Player {
    fn clone(&self) -> (copy: Player)
        ensures
            copy == self.copied(),
    {
        match self {
            Player::Idle => Player::Idle,
            Player::SolvingRune(rune) => Player::SolvingRune(*rune),
            Player::SolvingShape(shape) => Player::SolvingShape(shape.clone()),
            Player::ThreadsOfFate(tof) => Player::ThreadsOfFate(*tof),
            Player::Other => Player::Other,
        }
    }
}

/// What is known of the player between two states.
#[derive(Debug, Clone, Copy)]
pub struct PlayerContext {
    /// The action under way.
    pub action: Option<PlayerAction>,
    pub is_stationary: bool,
    pub interact_key: KeyKind,
    /// Whether the outcome of solving a rune is being watched for.
    pub validating_rune: bool,
    pub threads_of_fate_fail_count: u32,
    pub threads_of_fate_permanently_stopped: bool,
}

/// The player as the state machines see it.
#[derive(Debug)]
pub struct PlayerEntity {
    pub state: Player,
    pub context: PlayerContext,
}

impl Clone for PlayerEntity {
    fn clone(&self) -> (copy: PlayerEntity)
        ensures
            copy == (PlayerEntity { state: self.state.copied(), context: self.context }),
    {
        PlayerEntity { state: self.state.clone(), context: self.context }
    }
}

impl PlayerContext {
    pub open spec fn action_cleared(self) -> PlayerContext {
        PlayerContext { action: None, ..self }
    }

    /// One more failed round, which stops Threads of Fate for good at the limit.
    pub open spec fn failed_threads_of_fate(self) -> PlayerContext {
        let count = if self.threads_of_fate_fail_count == u32::MAX {
            u32::MAX
        } else {
            (self.threads_of_fate_fail_count + 1) as u32
        };
        PlayerContext {
            threads_of_fate_fail_count: count,
            threads_of_fate_permanently_stopped: self.threads_of_fate_permanently_stopped || count
                >= THREADS_OF_FATE_FAIL_LIMIT,
            ..self
        }
    }

    /// The action under way is done.
    pub fn clear_action_completed(&mut self)
        ensures
            *final(self) == old(self).action_cleared(),
    {
        self.action = None;
    }

    /// Starts watching for the outcome of a solved rune.
    pub fn start_validating_rune(&mut self)
        ensures
            *final(self) == (PlayerContext { validating_rune: true, ..*old(self) }),
    {
        self.validating_rune = true;
    }

    pub fn set_threads_of_fate_permanently_stopped(&mut self)
        ensures
            *final(self) == (PlayerContext {
                threads_of_fate_permanently_stopped: true,
                ..*old(self)
            }),
    {
        self.threads_of_fate_permanently_stopped = true;
    }

    pub fn clear_threads_of_fate_fail_count(&mut self)
        ensures
            *final(self) == (PlayerContext { threads_of_fate_fail_count: 0, ..*old(self) }),
    {
        self.threads_of_fate_fail_count = 0;
    }

    pub fn track_threads_of_fate_fail_count(&mut self)
        ensures
            *final(self) == (PlayerContext {
                threads_of_fate_fail_count: if old(self).threads_of_fate_fail_count == u32::MAX {
                    u32::MAX
                } else {
                    (old(self).threads_of_fate_fail_count + 1) as u32
                },
                ..*old(self)
            }),
    {
        self.threads_of_fate_fail_count = self.threads_of_fate_fail_count.saturating_add(1);
    }

    pub fn is_threads_of_fate_fail_count_limit_reached(&self) -> (reached: bool)
        ensures
            reached == (self.threads_of_fate_fail_count >= THREADS_OF_FATE_FAIL_LIMIT),
    {
        self.threads_of_fate_fail_count >= THREADS_OF_FATE_FAIL_LIMIT
    }
}

/// The action under way.
pub fn next_action(context: &PlayerContext) -> (action: Option<PlayerAction>)
    ensures
        action == context.action,
{
    context.action
}

/// Completing an action leaves none under way, and nothing else changes.
pub proof fn law_action_is_cleared(context: &mut PlayerContext)
    requires
        call_ensures(PlayerContext::clear_action_completed, (context,), ()),
    ensures
        final(context).action is None,
        final(context).is_stationary == old(context).is_stationary,
        final(context).interact_key == old(context).interact_key,
        final(context).validating_rune == old(context).validating_rune,
        final(context).threads_of_fate_fail_count == old(context).threads_of_fate_fail_count,
        final(context).threads_of_fate_permanently_stopped == old(
            context,
        ).threads_of_fate_permanently_stopped,
{
}

/// The failures are counted one by one as far as they can be, the limit is two of them, and they can
/// be forgotten.
pub proof fn law_failures_are_counted(
    counted: &mut PlayerContext,
    forgotten: &mut PlayerContext,
    asked: &PlayerContext,
    reached: bool,
)
    requires
        call_ensures(PlayerContext::track_threads_of_fate_fail_count, (counted,), ()),
        call_ensures(PlayerContext::clear_threads_of_fate_fail_count, (forgotten,), ()),
        call_ensures(
            PlayerContext::is_threads_of_fate_fail_count_limit_reached,
            (asked,),
            reached,
        ),
    ensures
        old(counted).threads_of_fate_fail_count < u32::MAX ==> final(counted).threads_of_fate_fail_count == old(counted).threads_of_fate_fail_count + 1,
        final(counted).threads_of_fate_fail_count >= old(counted).threads_of_fate_fail_count,
        final(forgotten).threads_of_fate_fail_count == 0,
        reached <==> asked.threads_of_fate_fail_count >= 2,
{
}

/// A rune that was solved is watched for, and a stop for good is one.
pub proof fn law_flags_are_set(watching: &mut PlayerContext, stopped: &mut PlayerContext)
    requires
        call_ensures(PlayerContext::start_validating_rune, (watching,), ()),
        call_ensures(PlayerContext::set_threads_of_fate_permanently_stopped, (stopped,), ()),
    ensures
        final(watching).validating_rune,
        final(watching).action == old(watching).action,
        final(stopped).threads_of_fate_permanently_stopped,
        final(stopped).action == old(stopped).action,
{
}

/// The next action is the one under way.
pub proof fn law_next_action(context: &PlayerContext, action: Option<PlayerAction>)
    requires
        call_ensures(next_action, (context,), action),
    ensures
        action == context.action,
{
}

/// A copy of the player is in the same state, with the same known of it. Only an attempt at a shape
/// differs, in that its solver is fresh.
pub proof fn law_player_copy(
    player: &Player,
    copy: Player,
    entity: &PlayerEntity,
    copied: PlayerEntity,
)
    requires
        call_ensures(Player::clone, (player,), copy),
        call_ensures(PlayerEntity::clone, (entity,), copied),
        entity.state == *player,
    ensures
        *player !is SolvingShape ==> copy == *player,
        *player matches Player::SolvingShape(shape) ==> (copy matches Player::SolvingShape(again)
            && again.solver_fresh && again.state == shape.state && again.region == shape.region
            && again.target_cursor == shape.target_cursor && again.smoothed_cursor
            == shape.smoothed_cursor),
        copied.state == copy,
        copied.context == entity.context,
{
}

} // verus!

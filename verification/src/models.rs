//! The values that users configure.

use vstd::prelude::*;

verus! {

/// Whether the bot alternates between running and stopping.
#[derive(Debug, Clone, Copy, PartialEq, Eq, Structural)]
pub enum CycleRunStopMode {
    /// Runs until told otherwise.
    Off,
    /// Runs once, then halts.
    Once,
    /// Runs and stops in turn.
    Repeat,
}

/// How frames are captured.
#[derive(Debug, Clone, Copy, PartialEq, Eq, Structural)]
pub enum CaptureMode {
    BitBlt,
    WindowsGraphicsCapture,
    BitBltArea,
}

/// How input is sent.
#[derive(Debug, Clone, Copy, PartialEq, Eq, Structural)]
pub enum InputMethod {
    Default,
    Rpc,
}

/// A key that can be bound, by its code.
#[derive(Debug, Clone, Copy, PartialEq, Eq, Structural)]
pub struct KeyBinding {
    pub code: u32,
}

/// A key binding that can be switched off.
#[derive(Debug, Clone, Copy, PartialEq, Eq, Structural)]
pub struct KeyBindingConfiguration {
    pub key: KeyBinding,
    pub enabled: bool,
}

/// Global settings, as far as decisions depend on them.
#[derive(Debug)]
pub struct Settings {
    pub cycle_run_stop: CycleRunStopMode,
    pub cycle_run_duration_millis: u64,
    pub cycle_stop_duration_millis: u64,
    pub capture_mode: CaptureMode,
    pub input_method: InputMethod,
    pub input_method_rpc_server_url: String,
    pub platform_start_key: KeyBindingConfiguration,
    pub platform_end_key: KeyBindingConfiguration,
    pub platform_add_key: KeyBindingConfiguration,
}

/// A position on the minimap.
#[derive(Debug, Clone, Copy, PartialEq, Eq, Structural)]
pub struct Position {
    pub x: i32,
    pub y: i32,
}

/// When an action is carried out.
#[derive(Debug, Clone, Copy, PartialEq, Eq, Structural)]
pub enum ActionCondition {
    Any,
    EveryMillis(u64),
    ErdaShowerOffCooldown,
    /// Right after the action before it in the list.
    Linked,
}

/// A second key that goes with the key of an action.
#[derive(Debug, Clone, Copy, PartialEq, Eq, Structural)]
pub enum LinkKeyBinding {
    NoLink,
    Before(KeyBinding),
    AtTheSame(KeyBinding),
    After(KeyBinding),
    Along(KeyBinding),
}

/// How the player moves while using a key.
#[derive(Debug, Clone, Copy, PartialEq, Eq, Structural)]
pub enum ActionKeyWith {
    Any,
    Stationary,
    DoubleJump,
}

#[derive(Debug, Clone, Copy, PartialEq, Eq, Structural)]
pub enum ActionKeyDirection {
    Any,
    Left,
    Right,
}

/// Moving somewhere.
#[derive(Debug, Clone, Copy, PartialEq, Eq, Structural)]
pub struct ActionMove {
    pub position: Position,
    pub condition: ActionCondition,
    pub wait_after_move_millis: u64,
}

/// Using a key.
#[derive(Debug, Clone, Copy, PartialEq, Eq, Structural)]
pub struct ActionKey {
    pub key: KeyBinding,
    pub key_hold_millis: u64,
    pub link_key: LinkKeyBinding,
    pub count: u32,
    pub position: Option<Position>,
    pub condition: ActionCondition,
    pub direction: ActionKeyDirection,
    pub with: ActionKeyWith,
    pub queue_to_front: Option<bool>,
    pub wait_before_use_millis: u64,
    pub wait_before_use_millis_random_range: u64,
    pub wait_after_use_millis: u64,
    pub wait_after_use_millis_random_range: u64,
}

#[derive(Debug, Clone, Copy, PartialEq, Eq, Structural)]
pub enum Action {
    Move(ActionMove),
    Key(ActionKey),
}

impl Action {
    pub open spec fn spec_condition(self) -> ActionCondition {
        match self {
            Action::Move(action) => action.condition,
            Action::Key(action) => action.condition,
        }
    }

    /// This action under another condition.
    pub open spec fn under(self, condition: ActionCondition) -> Action {
        match self {
            Action::Move(action) => Action::Move(ActionMove { condition, ..action }),
            Action::Key(action) => Action::Key(ActionKey { condition, ..action }),
        }
    }

    pub fn condition(&self) -> (condition: ActionCondition)
        ensures
            condition == self.spec_condition(),
    {
        match self {
            Action::Move(action) => action.condition,
            Action::Key(action) => action.condition,
        }
    }

    pub fn with_condition(&self, condition: ActionCondition) -> (action: Action)
        ensures
            action == self.under(condition),
    {
        match *self {
            Action::Move(action) => Action::Move(ActionMove { condition, ..action }),
            Action::Key(action) => Action::Key(ActionKey { condition, ..action }),
        }
    }
}

/// The key that auto-mobbing uses.
#[derive(Debug, Clone, Copy, PartialEq, Eq, Structural)]
pub struct MobbingKey {
    pub key: KeyBinding,
    pub key_hold_millis: u64,
    pub link_key: LinkKeyBinding,
    pub count: u32,
    pub with: ActionKeyWith,
    pub wait_before_millis: u64,
    pub wait_before_millis_random_range: u64,
    pub wait_after_millis: u64,
    pub wait_after_millis_random_range: u64,
}

/// When a configured action of a character is carried out.
#[derive(Debug, Clone, Copy, PartialEq, Eq, Structural)]
pub enum ActionConfigurationCondition {
    EveryMillis(u64),
    /// Right after the action before it in the list.
    Linked,
}

/// A configured action of a character.
#[derive(Debug, Clone, Copy, PartialEq, Eq, Structural)]
pub struct ActionConfiguration {
    pub key: KeyBinding,
    pub key_hold_millis: u64,
    pub link_key: LinkKeyBinding,
    pub count: u32,
    pub condition: ActionConfigurationCondition,
    pub with: ActionKeyWith,
    pub wait_before_millis: u64,
    pub wait_before_millis_random_range: u64,
    pub wait_after_millis: u64,
    pub wait_after_millis_random_range: u64,
    pub enabled: bool,
}

/// A stretch of ground: from `x_start` to `x_end`, at height `y`.
#[derive(Debug, Clone, Copy, PartialEq, Eq, Structural)]
pub struct Platform {
    pub x_start: i32,
    pub x_end: i32,
    pub y: i32,
}

/// The area in which auto-mobbing stays.
#[derive(Debug, Clone, Copy, PartialEq, Eq, Structural)]
pub struct Bound {
    pub x: i32,
    pub y: i32,
    pub width: i32,
    pub height: i32,
}

/// A named list of actions.
#[derive(Debug)]
pub struct Preset {
    pub name: String,
    pub actions: Vec<Action>,
}

/// A map, as far as decisions depend on it.
#[derive(Debug)]
pub struct MapData {
    /// None until the map was stored for the first time.
    pub id: Option<i64>,
    pub name: String,
    /// Where navigation finds the way to this map.
    pub paths_id_index: Option<(i64, usize)>,
    pub presets: Vec<Preset>,
    pub platforms: Vec<Platform>,
    pub rune_platforms_pathing: bool,
    pub rune_platforms_pathing_up_jump_only: bool,
    pub auto_mob_platforms_pathing: bool,
    pub auto_mob_platforms_pathing_up_jump_only: bool,
    pub auto_mob_platforms_bound: bool,
}

/// A character, as far as decisions depend on it.
#[derive(Debug)]
pub struct Character {
    /// None until the character was stored for the first time.
    pub id: Option<i64>,
}

/// An action is carried out under the condition that it was configured with.
pub proof fn law_condition_of_an_action(action: &Action, condition: ActionCondition)
    requires
        call_ensures(Action::condition, (action,), condition),
    ensures
        *action matches Action::Move(moving) ==> condition == moving.condition,
        *action matches Action::Key(key) ==> condition == key.condition,
{
}

/// An action under another condition differs in nothing else.
pub proof fn law_action_under_another_condition(
    action: &Action,
    condition: ActionCondition,
    other: Action,
    asked: ActionCondition,
)
    requires
        call_ensures(Action::with_condition, (action, condition), other),
        call_ensures(Action::condition, (&other,), asked),
    ensures
        asked == condition,
        *action matches Action::Move(moving) ==> (other matches Action::Move(moved)
            && moved.position == moving.position && moved.wait_after_move_millis
            == moving.wait_after_move_millis && moved.condition == condition),
        *action matches Action::Key(key) ==> (other matches Action::Key(used) && {
            &&& used.condition == condition
            &&& used.key == key.key
            &&& used.key_hold_millis == key.key_hold_millis
            &&& used.link_key == key.link_key
            &&& used.count == key.count
            &&& used.position == key.position
            &&& used.direction == key.direction
            &&& used.with == key.with
            &&& used.queue_to_front == key.queue_to_front
            &&& used.wait_before_use_millis == key.wait_before_use_millis
            &&& used.wait_before_use_millis_random_range == key.wait_before_use_millis_random_range
            &&& used.wait_after_use_millis == key.wait_after_use_millis
            &&& used.wait_after_use_millis_random_range == key.wait_after_use_millis_random_range
        }),
{
}

} // verus!

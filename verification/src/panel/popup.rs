//! The forms inside the popups of the panel.

use vstd::prelude::*;

use crate::models::{Action, ActionCondition, ActionKey, Bound, MobbingKey, Platform};

verus! {

/// A field of the platform form.
#[derive(Debug, Clone, Copy, PartialEq, Eq, Structural)]
pub enum PlatformField {
    XStart,
    XEnd,
    Y,
}

/// `platform` with one field changed.
pub open spec fn platform_with(platform: Platform, field: PlatformField, value: i32) -> Platform {
    match field {
        PlatformField::XStart => Platform { x_start: value, ..platform },
        PlatformField::XEnd => Platform { x_end: value, ..platform },
        PlatformField::Y => Platform { y: value, ..platform },
    }
}

/// A value was typed into a field.
pub fn edit_platform_field(platform: &mut Platform, field: PlatformField, value: i32)
    ensures
        *final(platform) == platform_with(*old(platform), field, value),
{
    match field {
        PlatformField::XStart => {
            platform.x_start = value;
        },
        PlatformField::XEnd => {
            platform.x_end = value;
        },
        PlatformField::Y => {
            platform.y = value;
        },
    }
}

/// The icon of a field was clicked: it takes the position of the player.
pub fn take_platform_position(platform: &mut Platform, field: PlatformField, position: (i32, i32))
    ensures
        *final(platform) == platform_with(
            *old(platform),
            field,
            match field {
                PlatformField::Y => position.1,
                _ => position.0,
            },
        ),
{
    let value: i32 = match field {
        PlatformField::Y => position.1,
        _ => position.0,
    };
    edit_platform_field(platform, field, value);
}

/// The title of the platform form and the text on its button.
pub fn platform_form_texts(modifying: bool) -> (texts: (String, String))
    ensures
        texts.0@ == if modifying {
            "Modify platform"@
        } else {
            "Add platform"@
        },
        texts.1@ == if modifying {
            "Save"@
        } else {
            "Add"@
        },
{
    if modifying {
        (String::from_str("Modify platform"), String::from_str("Save"))
    } else {
        (String::from_str("Add platform"), String::from_str("Add"))
    }
}

/// A field of the mobbing bound form.
#[derive(Debug, Clone, Copy, PartialEq, Eq, Structural)]
pub enum BoundField {
    X,
    Y,
    Width,
    Height,
}

/// `bound` with one field changed.
pub open spec fn bound_with(bound: Bound, field: BoundField, value: i32) -> Bound {
    match field {
        BoundField::X => Bound { x: value, ..bound },
        BoundField::Y => Bound { y: value, ..bound },
        BoundField::Width => Bound { width: value, ..bound },
        BoundField::Height => Bound { height: value, ..bound },
    }
}

/// A value was typed into a field.
pub fn edit_bound_field(bound: &mut Bound, field: BoundField, value: i32)
    ensures
        *final(bound) == bound_with(*old(bound), field, value),
{
    match field {
        BoundField::X => {
            bound.x = value;
        },
        BoundField::Y => {
            bound.y = value;
        },
        BoundField::Width => {
            bound.width = value;
        },
        BoundField::Height => {
            bound.height = value;
        },
    }
}

/// The mobbing key as an action, for the form that edits actions. What a mobbing key lacks is taken
/// from `blank`.
pub open spec fn key_action(value: MobbingKey, blank: ActionKey) -> ActionKey {
    ActionKey {
        key: value.key,
        key_hold_millis: value.key_hold_millis,
        link_key: value.link_key,
        count: value.count,
        with: value.with,
        wait_before_use_millis: value.wait_before_millis,
        wait_before_use_millis_random_range: value.wait_before_millis_random_range,
        wait_after_use_millis: value.wait_after_millis,
        wait_after_use_millis_random_range: value.wait_after_millis_random_range,
        ..blank
    }
}

/// The mobbing key that an edited action stands for.
pub open spec fn action_mobbing_key(key: ActionKey) -> MobbingKey {
    MobbingKey {
        key: key.key,
        key_hold_millis: key.key_hold_millis,
        link_key: key.link_key,
        count: key.count,
        with: key.with,
        wait_before_millis: key.wait_before_use_millis,
        wait_before_millis_random_range: key.wait_before_use_millis_random_range,
        wait_after_millis: key.wait_after_use_millis,
        wait_after_millis_random_range: key.wait_after_use_millis_random_range,
    }
}

/// Turns a mobbing key into the action that its form edits.
pub fn mobbing_key_to_action(value: MobbingKey, blank: ActionKey) -> (action: Action)
    ensures
        action == Action::Key(key_action(value, blank)),
{
    Action::Key(
        ActionKey {
            key: value.key,
            key_hold_millis: value.key_hold_millis,
            link_key: value.link_key,
            count: value.count,
            with: value.with,
            wait_before_use_millis: value.wait_before_millis,
            wait_before_use_millis_random_range: value.wait_before_millis_random_range,
            wait_after_use_millis: value.wait_after_millis,
            wait_after_use_millis_random_range: value.wait_after_millis_random_range,
            ..blank
        },
    )
}

/// Turns the edited action back into a mobbing key. Moving is not one.
pub fn action_to_mobbing_key(action: Action) -> (key: Option<MobbingKey>)
    ensures
        key == match action {
            Action::Key(key) => Some(action_mobbing_key(key)),
            Action::Move(_) => None,
        },
{
    match action {
        Action::Key(key) => Some(
            MobbingKey {
                key: key.key,
                key_hold_millis: key.key_hold_millis,
                link_key: key.link_key,
                count: key.count,
                with: key.with,
                wait_before_millis: key.wait_before_use_millis,
                wait_before_millis_random_range: key.wait_before_use_millis_random_range,
                wait_after_millis: key.wait_after_use_millis,
                wait_after_millis_random_range: key.wait_after_use_millis_random_range,
            },
        ),
        Action::Move(_) => None,
    }
}

/// What the panel calls the actions of a section.
pub open spec fn condition_name(condition: ActionCondition) -> Seq<char> {
    match condition {
        ActionCondition::Any => "normal"@,
        ActionCondition::EveryMillis(_) => "every milliseconds"@,
        ActionCondition::ErdaShowerOffCooldown => "Erda Shower off cooldown"@,
        ActionCondition::Linked => "linked"@,
    }
}

/// The title of the form that adds or modifies an action under `condition`.
pub fn action_form_title(modifying: bool, condition: ActionCondition) -> (title: String)
    ensures
        title@ == if modifying {
            "Modify a "@ + condition_name(condition) + " action"@
        } else {
            "Add a new "@ + condition_name(condition) + " action"@
        },
{
    let name = match condition {
        ActionCondition::Any => "normal",
        ActionCondition::EveryMillis(_) => "every milliseconds",
        ActionCondition::ErdaShowerOffCooldown => "Erda Shower off cooldown",
        ActionCondition::Linked => "linked",
    };
    let mut title = if modifying {
        String::from_str("Modify a ")
    } else {
        String::from_str("Add a new ")
    };
    title.append(name);
    title.append(" action");
    title
}

/// A mobbing key that is opened in the form and saved unchanged is the same key, whatever the form
/// adds to it.
pub proof fn law_mobbing_key_round_trip(value: MobbingKey, blank: ActionKey)
    ensures
        action_mobbing_key(key_action(value, blank)) == value,
{
}

/// Typing into a field of a platform changes that field, and no other.
pub proof fn law_platform_field(platform: &mut Platform, field: PlatformField, value: i32)
    requires
        call_ensures(edit_platform_field, (platform, field, value), ()),
    ensures
        final(platform).x_start == (if field == PlatformField::XStart {
            value
        } else {
            old(platform).x_start
        }),
        final(platform).x_end == (if field == PlatformField::XEnd {
            value
        } else {
            old(platform).x_end
        }),
        final(platform).y == (if field == PlatformField::Y {
            value
        } else {
            old(platform).y
        }),
{
}

/// A start and an end take the player's place along the ground, a height takes its height.
pub proof fn law_platform_takes_the_position(
    platform: &mut Platform,
    field: PlatformField,
    position: (i32, i32),
)
    requires
        call_ensures(take_platform_position, (platform, field, position), ()),
    ensures
        final(platform).x_start == (if field == PlatformField::XStart {
            position.0
        } else {
            old(platform).x_start
        }),
        final(platform).x_end == (if field == PlatformField::XEnd {
            position.0
        } else {
            old(platform).x_end
        }),
        final(platform).y == (if field == PlatformField::Y {
            position.1
        } else {
            old(platform).y
        }),
{
}

/// The form says whether it adds a platform or modifies one, and its button likewise.
pub proof fn law_platform_form(adding: (String, String), modifying: (String, String))
    requires
        call_ensures(platform_form_texts, (false,), adding),
        call_ensures(platform_form_texts, (true,), modifying),
    ensures
        adding.0@ == "Add platform"@ && adding.1@ == "Add"@,
        modifying.0@ == "Modify platform"@ && modifying.1@ == "Save"@,
{
}

/// Typing into a field of the bound changes that field, and no other.
pub proof fn law_bound_field(bound: &mut Bound, field: BoundField, value: i32)
    requires
        call_ensures(edit_bound_field, (bound, field, value), ()),
    ensures
        final(bound).x == (if field == BoundField::X {
            value
        } else {
            old(bound).x
        }),
        final(bound).y == (if field == BoundField::Y {
            value
        } else {
            old(bound).y
        }),
        final(bound).width == (if field == BoundField::Width {
            value
        } else {
            old(bound).width
        }),
        final(bound).height == (if field == BoundField::Height {
            value
        } else {
            old(bound).height
        }),
{
}

/// The form edits of a mobbing key what the key has, and what it has not is as in the blank action.
pub proof fn law_mobbing_key_in_the_form(value: MobbingKey, blank: ActionKey, action: Action)
    requires
        call_ensures(mobbing_key_to_action, (value, blank), action),
    ensures
        action matches Action::Key(key) && {
            &&& key.key == value.key
            &&& key.key_hold_millis == value.key_hold_millis
            &&& key.link_key == value.link_key
            &&& key.count == value.count
            &&& key.with == value.with
            &&& key.wait_before_use_millis == value.wait_before_millis
            &&& key.wait_before_use_millis_random_range == value.wait_before_millis_random_range
            &&& key.wait_after_use_millis == value.wait_after_millis
            &&& key.wait_after_use_millis_random_range == value.wait_after_millis_random_range
            &&& key.position == blank.position
            &&& key.condition == blank.condition
            &&& key.direction == blank.direction
            &&& key.queue_to_front == blank.queue_to_front
        },
{
}

/// The form gives back the mobbing key that was edited in it; an action that moves is none.
pub proof fn law_mobbing_key_from_the_form(
    value: MobbingKey,
    blank: ActionKey,
    opened: Action,
    saved: Option<MobbingKey>,
    action: Action,
    edited: Option<MobbingKey>,
)
    requires
        call_ensures(mobbing_key_to_action, (value, blank), opened),
        call_ensures(action_to_mobbing_key, (opened,), saved),
        call_ensures(action_to_mobbing_key, (action,), edited),
    ensures
        saved == Some(value),
        edited is Some <==> action is Key,
        edited matches Some(edited) ==> (action matches Action::Key(key) && {
            &&& edited.key == key.key
            &&& edited.key_hold_millis == key.key_hold_millis
            &&& edited.link_key == key.link_key
            &&& edited.count == key.count
            &&& edited.with == key.with
            &&& edited.wait_before_millis == key.wait_before_use_millis
            &&& edited.wait_before_millis_random_range == key.wait_before_use_millis_random_range
            &&& edited.wait_after_millis == key.wait_after_use_millis
            &&& edited.wait_after_millis_random_range == key.wait_after_use_millis_random_range
        }),
{
}

/// The title says whether an action is added or modified, and under which condition.
pub proof fn law_action_form(
    condition: ActionCondition,
    adding: String,
    modifying: String,
)
    requires
        call_ensures(action_form_title, (false, condition), adding),
        call_ensures(action_form_title, (true, condition), modifying),
    ensures
        ({
            let titled = |name: Seq<char>|
                {
                    &&& adding@ == "Add a new "@ + name + " action"@
                    &&& modifying@ == "Modify a "@ + name + " action"@
                };
            match condition {
                ActionCondition::Any => titled("normal"@),
                ActionCondition::EveryMillis(_) => titled("every milliseconds"@),
                ActionCondition::ErdaShowerOffCooldown => titled("Erda Shower off cooldown"@),
                ActionCondition::Linked => titled("linked"@),
            }
        }),
{
}

} // verus!

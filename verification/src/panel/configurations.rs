//! The list of configured actions of a character.

use vstd::prelude::*;

use crate::models::{
    ActionConfiguration, ActionConfigurationCondition, ActionKeyWith, LinkKeyBinding,
};
use crate::text::{decimal, to_decimal};

verus! {

/// An action was switched on or off.
#[derive(Debug, Clone, Copy, PartialEq, Eq, Structural)]
pub struct ItemToggleEvent {
    pub enabled: bool,
    pub index: usize,
}

/// An action was dragged to another place.
#[derive(Debug, Clone, Copy, PartialEq, Eq, Structural)]
pub struct ItemMoveEvent {
    pub from_index: usize,
    pub to_index: usize,
}

/// An action was edited.
#[derive(Debug, Clone, Copy, PartialEq, Eq, Structural)]
pub struct ItemClickEvent {
    pub action: ActionConfiguration,
    pub index: usize,
}

/// What the popup over the list holds.
#[derive(Debug, Clone, Copy, PartialEq, Eq, Structural)]
pub enum PopupContent {
    Closed,
    Add(ActionConfiguration),
    Edit { action: ActionConfiguration, index: usize },
}

/// What submitting the form tells the owner of the list.
#[derive(Debug, Clone, Copy, PartialEq, Eq, Structural)]
pub enum ListEvent {
    Add(ActionConfiguration),
    Click(ItemClickEvent),
}

/// The popup in which a configured action is added or edited.
#[derive(Debug, Clone, Copy, PartialEq, Eq, Structural)]
pub struct ConfigurationsPopup {
    pub content: PopupContent,
    pub open: bool,
}

impl ConfigurationsPopup {
    /// The popup before anything was clicked.
    pub fn closed() -> (popup: ConfigurationsPopup)
        ensures
            popup == (ConfigurationsPopup { content: PopupContent::Closed, open: false }),
    {
        ConfigurationsPopup { content: PopupContent::Closed, open: false }
    }

    /// The popup opens or closes by itself.
    pub fn set_open(&mut self, open: bool)
        ensures
            *final(self) == (ConfigurationsPopup { open, ..*old(self) }),
    {
        self.open = open;
    }

    /// A click on "add": offers `blank`.
    pub fn click_add(&mut self, blank: ActionConfiguration)
        ensures
            *final(self) == (ConfigurationsPopup {
                content: PopupContent::Add(blank),
                ..*old(self)
            }),
    {
        self.content = PopupContent::Add(blank);
    }

    /// A click on an action of the list.
    pub fn click_item(&mut self, action: ActionConfiguration, index: usize)
        ensures
            *final(self) == (ConfigurationsPopup {
                content: PopupContent::Edit { action, index },
                ..*old(self)
            }),
    {
        self.content = PopupContent::Edit { action, index };
    }

    /// Turns editing an action into adding a copy of it.
    pub fn copy(&mut self)
        requires
            old(self).content is Edit,
        ensures
            *final(self) == (ConfigurationsPopup {
                content: PopupContent::Add(old(self).content->Edit_action),
                ..*old(self)
            }),
    {
        if let PopupContent::Edit { action, .. } = self.content {
            self.content = PopupContent::Add(action);
        }
    }

    pub fn cancel(&mut self)
        ensures
            *final(self) == (ConfigurationsPopup { open: false, ..*old(self) }),
    {
        self.open = false;
    }

    /// Whether an existing action is edited.
    pub fn modifying(&self) -> (modifying: bool)
        ensures
            modifying == self.content is Edit,
    {
        matches!(self.content, PopupContent::Edit { .. })
    }

    /// Whether the action may be linked: an existing one that another stands before.
    pub fn can_create_linked_action(&self) -> (can: bool)
        ensures
            can == (self.content matches PopupContent::Edit { index, .. } && index != 0),
    {
        match self.content {
            PopupContent::Edit { index, .. } => index != 0,
            _ => false,
        }
    }

    /// The action that the form starts with.
    pub fn value(&self) -> (action: Option<ActionConfiguration>)
        ensures
            action == match self.content {
                PopupContent::Closed => None,
                PopupContent::Add(action) => Some(action),
                PopupContent::Edit { action, .. } => Some(action),
            },
    {
        match self.content {
            PopupContent::Closed => None,
            PopupContent::Add(action) => Some(action),
            PopupContent::Edit { action, .. } => Some(action),
        }
    }

    /// Submits the form and closes the popup.
    pub fn submit(&mut self, value: ActionConfiguration) -> (event: ListEvent)
        requires
            old(self).content !is Closed,
        ensures
            *final(self) == (ConfigurationsPopup { open: false, ..*old(self) }),
            event == match old(self).content {
                PopupContent::Edit { index, .. } => ListEvent::Click(
                    ItemClickEvent { action: value, index },
                ),
                _ => ListEvent::Add(value),
            },
    {
        let event = match self.content {
            PopupContent::Edit { index, .. } => ListEvent::Click(
                ItemClickEvent { action: value, index },
            ),
            _ => ListEvent::Add(value),
        };
        self.open = false;
        event
    }
}

/// Whether the list offers to switch an action on and off: a linked one goes with the action before
/// it.
pub fn is_toggleable(action: &ActionConfiguration) -> (toggleable: bool)
    ensures
        toggleable == !(action.condition is Linked),
{
    !matches!(action.condition, ActionConfigurationCondition::Linked)
}

/// The style class that sets an action apart from the one above it, unless it is linked to it.
pub fn item_margin(condition: ActionConfigurationCondition) -> (class: &'static str)
    ensures
        class@ == if condition is Linked {
            ""@
        } else {
            "mt-2"@
        },
{
    if matches!(condition, ActionConfigurationCondition::Linked) {
        ""
    } else {
        "mt-2"
    }
}

/// The names and numbers in an item that are written outside: the keys by their names, times in
/// seconds with two decimals.
#[derive(Debug)]
pub struct ItemWords {
    pub key: String,
    /// The name of the link key, where there is one.
    pub link_key: String,
    pub every_secs: String,
    pub wait_before_secs: String,
    pub wait_after_secs: String,
}

/// The arrow between a key and the key it is linked with.
pub open spec fn link_arrow(link_key: LinkKeyBinding) -> Seq<char> {
    match link_key {
        LinkKeyBinding::Before(_) => " ↝ "@,
        LinkKeyBinding::After(_) => " ↜ "@,
        LinkKeyBinding::AtTheSame(_) => " ↭ "@,
        LinkKeyBinding::Along(_) => " ↷ "@,
        LinkKeyBinding::NoLink => ""@,
    }
}

/// `<link key> <arrow> <key> × <count>`.
pub open spec fn keys_text(action: ActionConfiguration, words: ItemWords) -> Seq<char> {
    let link = if action.link_key is NoLink {
        Seq::empty()
    } else {
        words.link_key@ + link_arrow(action.link_key)
    };
    link + words.key@ + " × "@ + decimal(action.count as nat)
}

/// A waiting time in seconds.
pub open spec fn wait_text(secs: Seq<char>) -> Seq<char> {
    "⏱︎ "@ + secs + "s"@
}

/// How often the action is repeated, if it is.
pub open spec fn repeat_text(action: ActionConfiguration, words: ItemWords) -> Seq<char> {
    if action.condition is EveryMillis {
        "⟳ "@ + words.every_secs@ + "s / "@
    } else {
        Seq::empty()
    }
}

/// How long is waited before and after, where it is waited at all.
pub open spec fn waits_text(action: ActionConfiguration, words: ItemWords) -> Seq<char> {
    let before = if action.wait_before_millis > 0 {
        wait_text(words.wait_before_secs@)
    } else {
        wait_text("0.00"@)
    };
    let after = if action.wait_after_millis > 0 {
        wait_text(words.wait_after_secs@)
    } else {
        wait_text("0.00"@)
    };
    if action.wait_before_millis == 0 && action.wait_after_millis == 0 {
        Seq::empty()
    } else {
        before + " - "@ + after + " / "@
    }
}

pub open spec fn with_text(with: ActionKeyWith) -> Seq<char> {
    match with {
        ActionKeyWith::Any => "Any"@,
        ActionKeyWith::Stationary => "Stationary"@,
        ActionKeyWith::DoubleJump => "Double jump"@,
    }
}

fn append_wait(text: &mut String, secs: &str)
    ensures
        final(text)@ == old(text)@ + wait_text(secs@),
{
    text.append("⏱︎ ");
    text.append(secs);
    text.append("s");
    proof {
        assert(text@ =~= old(text)@ + wait_text(secs@));
    }
}

/// The two texts that the list shows of an action.
pub fn item_texts(action: &ActionConfiguration, words: &ItemWords) -> (texts: (String, String))
    ensures
        texts.0@ == keys_text(*action, *words),
        texts.1@ == repeat_text(*action, *words) + waits_text(*action, *words) + with_text(
            action.with,
        ),
{
    let mut keys = String::from_str("");
    proof {
        reveal_strlit("");
    }
    match action.link_key {
        LinkKeyBinding::Before(_) => {
            keys.append(words.link_key.as_str());
            keys.append(" ↝ ");
        },
        LinkKeyBinding::After(_) => {
            keys.append(words.link_key.as_str());
            keys.append(" ↜ ");
        },
        LinkKeyBinding::AtTheSame(_) => {
            keys.append(words.link_key.as_str());
            keys.append(" ↭ ");
        },
        LinkKeyBinding::Along(_) => {
            keys.append(words.link_key.as_str());
            keys.append(" ↷ ");
        },
        LinkKeyBinding::NoLink => {},
    }
    keys.append(words.key.as_str());
    keys.append(" × ");
    keys.append(to_decimal(action.count as u128).as_str());
    assert(keys@ =~= keys_text(*action, *words));

    let mut rest = String::from_str("");
    if let ActionConfigurationCondition::EveryMillis(_) = action.condition {
        rest.append("⟳ ");
        rest.append(words.every_secs.as_str());
        rest.append("s / ");
    }
    assert(rest@ =~= repeat_text(*action, *words));
    if action.wait_before_millis > 0 || action.wait_after_millis > 0 {
        if action.wait_before_millis > 0 {
            append_wait(&mut rest, words.wait_before_secs.as_str());
        } else {
            append_wait(&mut rest, "0.00");
        }
        rest.append(" - ");
        if action.wait_after_millis > 0 {
            append_wait(&mut rest, words.wait_after_secs.as_str());
        } else {
            append_wait(&mut rest, "0.00");
        }
        rest.append(" / ");
    }
    assert(rest@ =~= repeat_text(*action, *words) + waits_text(*action, *words));
    match action.with {
        ActionKeyWith::Any => rest.append("Any"),
        ActionKeyWith::Stationary => rest.append("Stationary"),
        ActionKeyWith::DoubleJump => rest.append("Double jump"),
    }
    (keys, rest)
}

/// Nothing is in the popup and it is closed until something is clicked. Opening and closing it leaves
/// what it holds.
pub proof fn law_popup_opens(
    fresh: ConfigurationsPopup,
    popup: &mut ConfigurationsPopup,
    open: bool,
    cancelled: &mut ConfigurationsPopup,
)
    requires
        call_ensures(ConfigurationsPopup::closed, (), fresh),
        call_ensures(ConfigurationsPopup::set_open, (popup, open), ()),
        call_ensures(ConfigurationsPopup::cancel, (cancelled,), ()),
    ensures
        !fresh.open && fresh.content is Closed,
        final(popup).open == open && final(popup).content == old(popup).content,
        !final(cancelled).open && final(cancelled).content == old(cancelled).content,
{
}

/// Adding starts with the blank action and submits a new one; nothing stands before it that it could
/// be linked to.
pub proof fn law_action_is_added(
    popup: &mut ConfigurationsPopup,
    blank: ActionConfiguration,
    modifying: bool,
    can_link: bool,
    value: Option<ActionConfiguration>,
    submitted: &mut ConfigurationsPopup,
    action: ActionConfiguration,
    event: ListEvent,
)
    requires
        call_ensures(ConfigurationsPopup::click_add, (popup, blank), ()),
        call_ensures(ConfigurationsPopup::modifying, (&*final(popup),), modifying),
        call_ensures(
            ConfigurationsPopup::can_create_linked_action,
            (&*final(popup),),
            can_link,
        ),
        call_ensures(ConfigurationsPopup::value, (&*final(popup),), value),
        *old(submitted) == *final(popup),
        call_ensures(ConfigurationsPopup::submit, (submitted, action), event),
    ensures
        final(popup).open == old(popup).open,
        !modifying && !can_link,
        value == Some(blank),
        event == ListEvent::Add(action),
        !final(submitted).open,
        final(submitted).content == final(popup).content,
{
}

/// Editing starts with the action that was clicked and submits another in its place. It may be linked
/// unless it is the first of the list.
pub proof fn law_action_is_edited(
    popup: &mut ConfigurationsPopup,
    clicked: ActionConfiguration,
    index: usize,
    modifying: bool,
    can_link: bool,
    value: Option<ActionConfiguration>,
    submitted: &mut ConfigurationsPopup,
    action: ActionConfiguration,
    event: ListEvent,
)
    requires
        call_ensures(ConfigurationsPopup::click_item, (popup, clicked, index), ()),
        call_ensures(ConfigurationsPopup::modifying, (&*final(popup),), modifying),
        call_ensures(
            ConfigurationsPopup::can_create_linked_action,
            (&*final(popup),),
            can_link,
        ),
        call_ensures(ConfigurationsPopup::value, (&*final(popup),), value),
        *old(submitted) == *final(popup),
        call_ensures(ConfigurationsPopup::submit, (submitted, action), event),
    ensures
        final(popup).open == old(popup).open,
        modifying,
        can_link <==> index > 0,
        value == Some(clicked),
        event == ListEvent::Click(ItemClickEvent { action, index }),
        !final(submitted).open,
        final(submitted).content == final(popup).content,
{
}

/// A copy of an edited action is added as a new one, and starts as that action.
pub proof fn law_action_is_copied(
    popup: &mut ConfigurationsPopup,
    action: ActionConfiguration,
    index: usize,
    modifying: bool,
    value: Option<ActionConfiguration>,
)
    requires
        old(popup).content == (PopupContent::Edit { action, index }),
        call_ensures(ConfigurationsPopup::copy, (popup,), ()),
        call_ensures(ConfigurationsPopup::modifying, (&*final(popup),), modifying),
        call_ensures(ConfigurationsPopup::value, (&*final(popup),), value),
    ensures
        final(popup).content == PopupContent::Add(action),
        final(popup).open == old(popup).open,
        !modifying,
        value == Some(action),
{
}

/// A popup that holds nothing has nothing to start with, modifies nothing and links nothing.
pub proof fn law_closed_popup(
    popup: &ConfigurationsPopup,
    modifying: bool,
    can_link: bool,
    value: Option<ActionConfiguration>,
)
    requires
        popup.content is Closed,
        call_ensures(ConfigurationsPopup::modifying, (popup,), modifying),
        call_ensures(ConfigurationsPopup::can_create_linked_action, (popup,), can_link),
        call_ensures(ConfigurationsPopup::value, (popup,), value),
    ensures
        !modifying && !can_link && value is None,
{
}

/// An action that is repeated by time can be switched and stands apart; a linked one goes with the
/// action above it in both.
pub proof fn law_linked_item(
    action: &ActionConfiguration,
    toggleable: bool,
    margin: &'static str,
)
    requires
        call_ensures(is_toggleable, (action,), toggleable),
        call_ensures(item_margin, (action.condition,), margin),
    ensures
        action.condition is EveryMillis ==> toggleable && margin@ == "mt-2"@,
        action.condition is Linked ==> !toggleable && margin@ == ""@,
{
}

/// The list shows the key and how often it is used, with the link key and how it goes with the key
/// before them, where there is one.
pub proof fn law_keys_are_shown(
    action: &ActionConfiguration,
    words: &ItemWords,
    texts: (String, String),
    count: String,
)
    requires
        call_ensures(item_texts, (action, words), texts),
        call_ensures(to_decimal, (action.count as u128,), count),
    ensures
        ({
            let key = words.key@ + " × "@ + count@;
            let link = words.link_key@;
            match action.link_key {
                LinkKeyBinding::NoLink => texts.0@ == key,
                LinkKeyBinding::Before(_) => texts.0@ == link + " ↝ "@ + key,
                LinkKeyBinding::After(_) => texts.0@ == link + " ↜ "@ + key,
                LinkKeyBinding::AtTheSame(_) => texts.0@ == link + " ↭ "@ + key,
                LinkKeyBinding::Along(_) => texts.0@ == link + " ↷ "@ + key,
            }
        }),
{
    let key = words.key@ + " × "@ + count@;
    let link = if action.link_key is NoLink {
        Seq::empty()
    } else {
        words.link_key@ + link_arrow(action.link_key)
    };
    assert(texts.0@ =~= link + key);
    assert(Seq::<char>::empty() + key =~= key);
}

/// Below that it shows how the player moves; before it how long is waited before and after, where it
/// is waited at all; and before that how often the action is repeated, where it is not linked.
pub proof fn law_times_are_shown(
    action: &ActionConfiguration,
    words: &ItemWords,
    texts: (String, String),
)
    requires
        call_ensures(item_texts, (action, words), texts),
    ensures
        ({
            let with = match action.with {
                ActionKeyWith::Any => "Any"@,
                ActionKeyWith::Stationary => "Stationary"@,
                ActionKeyWith::DoubleJump => "Double jump"@,
            };
            let before = if action.wait_before_millis > 0 {
                words.wait_before_secs@
            } else {
                "0.00"@
            };
            let after = if action.wait_after_millis > 0 {
                words.wait_after_secs@
            } else {
                "0.00"@
            };
            let waits = "⏱︎ "@ + before + "s"@ + " - "@ + ("⏱︎ "@ + after + "s"@) + " / "@;
            let repeat = "⟳ "@ + words.every_secs@ + "s / "@;
            let is_repeated = action.condition is EveryMillis;
            let is_awaited = action.wait_before_millis > 0 || action.wait_after_millis > 0;
            &&& is_repeated && is_awaited ==> texts.1@ == repeat + waits + with
            &&& is_repeated && !is_awaited ==> texts.1@ == repeat + with
            &&& !is_repeated && is_awaited ==> texts.1@ == waits + with
            &&& !is_repeated && !is_awaited ==> texts.1@ == with
        }),
{
    let with = with_text(action.with);
    let repeat = repeat_text(*action, *words);
    let waits = waits_text(*action, *words);
    assert(repeat + Seq::empty() =~= repeat);
    assert(Seq::<char>::empty() + waits =~= waits);
    assert(Seq::<char>::empty() + Seq::<char>::empty() + with =~= with);
}

} // verus!

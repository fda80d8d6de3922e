//! Editing the list of actions of a preset.
//!
//! The panel shows one list as three sections, one for each kind of condition. An action whose
//! condition is [`ActionCondition::Linked`] belongs to the action before it and is shown, moved and
//! kept with it.

use vstd::prelude::*;

use crate::models::{Action, ActionCondition, ActionKey};

verus! {

/// Whether two conditions are of one kind: periods of repetition make no difference.
pub open spec fn same_kind(a: ActionCondition, b: ActionCondition) -> bool {
    match (a, b) {
        (ActionCondition::Any, ActionCondition::Any) => true,
        (ActionCondition::EveryMillis(_), ActionCondition::EveryMillis(_)) => true,
        (ActionCondition::ErdaShowerOffCooldown, ActionCondition::ErdaShowerOffCooldown) => true,
        (ActionCondition::Linked, ActionCondition::Linked) => true,
        _ => false,
    }
}

/// Tells whether two conditions are of one kind.
pub fn is_same_kind(a: ActionCondition, b: ActionCondition) -> (same: bool)
    ensures
        same == same_kind(a, b),
{
    match (a, b) {
        (ActionCondition::Any, ActionCondition::Any) => true,
        (ActionCondition::EveryMillis(_), ActionCondition::EveryMillis(_)) => true,
        (ActionCondition::ErdaShowerOffCooldown, ActionCondition::ErdaShowerOffCooldown) => true,
        (ActionCondition::Linked, ActionCondition::Linked) => true,
        _ => false,
    }
}

pub open spec fn linked(action: Action) -> bool {
    action.spec_condition() is Linked
}

fn is_linked(action: &Action) -> (is: bool)
    ensures
        is == linked(*action),
{
    matches!(action.condition(), ActionCondition::Linked)
}

/// The actions from `start` up to `end` are linked, and no further one behind them is.
pub open spec fn linked_run(actions: Seq<Action>, start: int, end: int) -> bool {
    &&& start <= end <= actions.len()
    &&& forall|i: int| start <= i < end ==> linked(#[trigger] actions[i])
    &&& end < actions.len() ==> !linked(actions[end])
}

/// Finds the linked action index range where `action_index` is a non-linked action: the first
/// index of the range and the one behind its last.
pub fn find_linked_action_range(actions: &Vec<Action>, action_index: usize) -> (range: Option<
    (usize, usize),
>)
    ensures
        range is Some <==> action_index + 1 < actions.len() && linked(actions[action_index + 1]),
        range matches Some((start, end)) ==> {
            &&& start == action_index + 1
            &&& start < end
            &&& linked_run(actions@, start as int, end as int)
        },
{
    if action_index >= actions.len() || action_index + 1 >= actions.len() {
        return None;
    }
    let start: usize = action_index + 1;
    if !is_linked(&actions[start]) {
        return None;
    }
    let mut end: usize = start + 1;
    while end < actions.len()
        invariant
            start < end <= actions.len(),
            forall|i: int| start <= i < end ==> linked(#[trigger] actions[i]),
        ensures
            start < end <= actions.len(),
            forall|i: int| start <= i < end ==> linked(#[trigger] actions[i]),
            end < actions.len() ==> !linked(actions[end as int]),
        decreases actions.len() - end,
    {
        if !is_linked(&actions[end]) {
            break;
        }
        end += 1;
    }
    Some((start, end))
}

/// Whether the section of `condition` shows the action at `i`: it is of that kind, or linked to one
/// that is shown.
pub open spec fn selected(actions: Seq<Action>, condition: ActionCondition, i: int) -> bool
    decreases i + 1,
{
    0 <= i < actions.len() && (same_kind(actions[i].spec_condition(), condition) || linked(
        actions[i],
    ) && selected(actions, condition, i - 1))
}

/// The section of `condition` within the first `n` actions, in order, each with its index.
pub open spec fn section(actions: Seq<Action>, condition: ActionCondition, n: int) -> Seq<
    (Action, usize),
>
    decreases n,
{
    if n <= 0 {
        Seq::empty()
    } else if selected(actions, condition, n - 1) {
        section(actions, condition, n - 1).push((actions[n - 1], (n - 1) as usize))
    } else {
        section(actions, condition, n - 1)
    }
}

/// Actions linked to a selected one are selected.
proof fn lemma_run_selected(
    actions: Seq<Action>,
    condition: ActionCondition,
    start: int,
    end: int,
)
    requires
        0 < start <= end <= actions.len(),
        selected(actions, condition, start - 1),
        forall|i: int| start <= i < end ==> linked(#[trigger] actions[i]),
    ensures
        forall|i: int| start <= i < end ==> selected(actions, condition, i),
    decreases end - start,
{
    if start < end {
        assert(linked(actions[start]));
        assert(selected(actions, condition, start));
        lemma_run_selected(actions, condition, start + 1, end);
    }
}

/// Filters `actions` to find action with condition matching `condition` including linked action(s)
/// of that matching action.
///
/// Returns the actions of the section, each with its index inside the original `actions`.
pub fn filter_actions(actions: &Vec<Action>, condition: ActionCondition) -> (filtered: Vec<
    (Action, usize),
>)
    ensures
        filtered@ == section(actions@, condition, actions.len() as int),
{
    let mut filtered: Vec<(Action, usize)> = Vec::new();
    let mut i: usize = 0;
    while i < actions.len()
        invariant
            i <= actions.len(),
            filtered@ == section(actions@, condition, i as int),
            i < actions.len() && linked(actions[i as int]) && !(condition is Linked)
                ==> !selected(actions@, condition, i - 1),
        decreases actions.len() - i,
    {
        let action = actions[i];
        if !is_same_kind(action.condition(), condition) {
            i += 1;
            continue;
        }
        assert(selected(actions@, condition, i as int));
        filtered.push((action, i));
        match find_linked_action_range(actions, i) {
            Some((start, end)) => {
                proof {
                    lemma_run_selected(actions@, condition, start as int, end as int);
                }
                let mut j: usize = start;
                while j < end
                    invariant
                        start <= j <= end <= actions.len(),
                        filtered@ == section(actions@, condition, j as int),
                        forall|k: int| start <= k < end ==> selected(actions@, condition, k),
                    decreases end - j,
                {
                    filtered.push((actions[j], j));
                    j += 1;
                }
                i = end;
            },
            None => {
                i += 1;
            },
        }
    }
    filtered
}

/// The index behind the last action that the section of `condition` shows within the first `n`,
/// zero where it shows none.
pub open spec fn section_end(actions: Seq<Action>, condition: ActionCondition, n: int) -> int
    decreases n,
{
    if n <= 0 {
        0
    } else if selected(actions, condition, n - 1) {
        n
    } else {
        section_end(actions, condition, n - 1)
    }
}

/// A section whose last action is the one before `end` ends there.
proof fn lemma_section_end(actions: Seq<Action>, condition: ActionCondition, end: int, n: int)
    requires
        0 <= end <= n,
        end > 0 ==> selected(actions, condition, end - 1),
        forall|i: int| end <= i < n ==> !selected(actions, condition, i),
    ensures
        section_end(actions, condition, n) == end,
    decreases n,
{
    if end < n {
        assert(!selected(actions, condition, n - 1));
        lemma_section_end(actions, condition, end, n - 1);
    }
}

/// Behind the last action of a kind and those linked to it, nothing is selected.
proof fn lemma_none_selected(actions: Seq<Action>, condition: ActionCondition, from: int, i: int)
    requires
        0 <= from <= i,
        from < actions.len() ==> !selected(actions, condition, from),
        forall|k: int|
            from <= k < actions.len() ==> !same_kind(
                (#[trigger] actions[k]).spec_condition(),
                condition,
            ),
    ensures
        !selected(actions, condition, i),
    decreases i - from,
{
    if from < i && i < actions.len() {
        lemma_none_selected(actions, condition, from, i - 1);
        assert(!same_kind(actions[i].spec_condition(), condition));
    }
}

/// Finds the last linked action index of the last action matching `condition`.
pub fn find_last_linked_action_index(actions: &Vec<Action>, condition: ActionCondition) -> (last:
    Option<usize>)
    ensures
        match last {
            Some(index) => index < actions.len() && section_end(
                actions@,
                condition,
                actions.len() as int,
            ) == index + 1,
            None => section_end(actions@, condition, actions.len() as int) == 0,
        },
{
    let mut i: usize = actions.len();
    while i > 0
        invariant
            i <= actions.len(),
            forall|k: int|
                i <= k < actions.len() ==> !same_kind(
                    (#[trigger] actions[k]).spec_condition(),
                    condition,
                ),
        decreases i,
    {
        i -= 1;
        if is_same_kind(actions[i].condition(), condition) {
            assert(selected(actions@, condition, i as int));
            match find_linked_action_range(actions, i) {
                Some((start, end)) => {
                    proof {
                        lemma_run_selected(actions@, condition, start as int, end as int);
                        assert forall|k: int| end - 1 < k implies !selected(
                            actions@,
                            condition,
                            k,
                        ) by {
                            lemma_none_selected(actions@, condition, end as int, k);
                        }
                        lemma_section_end(
                            actions@,
                            condition,
                            end as int,
                            actions.len() as int,
                        );
                    }
                    return Some(end - 1);
                },
                None => {
                    proof {
                        assert forall|k: int| i < k implies !selected(actions@, condition, k) by {
                            if i + 1 < actions.len() {
                                assert(!linked(actions[i + 1]));
                            }
                            lemma_none_selected(actions@, condition, i + 1, k);
                        }
                        lemma_section_end(actions@, condition, i + 1, actions.len() as int);
                    }
                    return Some(i);
                },
            }
        }
    }
    proof {
        assert forall|k: int| !selected(actions@, condition, k) by {
            if k >= 0 {
                if 0 < actions.len() {
                    assert(!same_kind(actions[0].spec_condition(), condition));
                    assert(!selected(actions@, condition, -1));
                }
                lemma_none_selected(actions@, condition, 0, k);
            }
        }
        lemma_section_end(actions@, condition, 0, actions.len() as int);
    }
    None
}

/// How many actions at the head of a list are linked to nothing.
pub open spec fn stray(actions: Seq<Action>) -> int
    decreases actions.len(),
{
    if actions.len() > 0 && linked(actions[0]) {
        1 + stray(actions.skip(1))
    } else {
        0
    }
}

/// The stray actions are the linked ones before the first that is not.
proof fn lemma_stray(actions: Seq<Action>, n: int)
    requires
        linked_run(actions, 0, n),
    ensures
        stray(actions) == n,
    decreases n,
{
    if n > 0 {
        assert(linked(actions[0]));
        let rest = actions.skip(1);
        assert forall|i: int| 0 <= i < n - 1 implies linked(#[trigger] rest[i]) by {
            assert(linked(actions[i + 1]));
        }
        lemma_stray(rest, n - 1);
    }
}

/// Appends imported actions. Linked actions that come before any other are malformed and left out.
pub fn import_actions(actions: Vec<Action>, imported: &Vec<Action>) -> (merged: Vec<Action>)
    ensures
        merged@ == actions@ + imported@.skip(stray(imported@)),
{
    let ghost before = actions@;
    let mut merged = actions;
    let mut i: usize = 0;
    let ghost mut dropped: int = 0;
    while i < imported.len()
        invariant
            0 <= dropped <= i <= imported.len(),
            merged@ =~= before + imported@.subrange(dropped, i as int),
            forall|k: int| 0 <= k < dropped ==> linked(#[trigger] imported[k]),
            dropped < i ==> !linked(imported[dropped]),
            dropped < i && i < imported.len() ==> !linked(imported[i as int]),
        decreases imported.len() - i,
    {
        let action = imported[i];
        if is_linked(&action) {
            i += 1;
            proof {
                dropped = i as int;
            }
            continue;
        }
        merged.push(action);
        match find_linked_action_range(imported, i) {
            Some((start, end)) => {
                let mut j: usize = start;
                while j < end
                    invariant
                        0 <= dropped <= i < start <= j <= end <= imported.len(),
                        merged@ =~= before + imported@.subrange(dropped, j as int),
                    decreases end - j,
                {
                    merged.push(imported[j]);
                    j += 1;
                }
                i = end;
            },
            None => {
                i += 1;
            },
        }
    }
    proof {
        assert(linked_run(imported@, 0, dropped));
        lemma_stray(imported@, dropped);
        assert(imported@.subrange(dropped, i as int) =~= imported@.skip(dropped));
    }
    merged
}

/// Where `action` goes when it is added under `condition`: to the end, or if it is linked behind
/// the last action of that section.
pub open spec fn insertion_index(
    actions: Seq<Action>,
    action: Action,
    condition: ActionCondition,
) -> int {
    let end = section_end(actions, condition, actions.len() as int);
    if linked(action) && end > 0 {
        end
    } else {
        actions.len() as int
    }
}

/// Adds an action: a linked one behind the last action of the section of `condition`, any other at
/// the end.
pub fn add_action(actions: Vec<Action>, action: Action, condition: ActionCondition) -> (added: Vec<
    Action,
>)
    ensures
        added@ == actions@.insert(insertion_index(actions@, action, condition), action),
{
    let mut added = actions;
    let index: usize = if is_linked(&action) {
        match find_last_linked_action_index(&added, condition) {
            Some(index) => index + 1,
            None => added.len(),
        }
    } else {
        added.len()
    };
    added.insert(index, action);
    added
}

/// Replaces the action at `index`, if there is one.
pub fn edit_action(actions: Vec<Action>, new_action: Action, index: usize) -> (edited: Option<
    Vec<Action>,
>)
    ensures
        edited is Some <==> index < actions.len(),
        edited matches Some(list) ==> list@ == actions@.update(index as int, new_action),
{
    if index >= actions.len() {
        return None;
    }
    let mut edited = actions;
    edited.set(index, new_action);
    Some(edited)
}

/// The list without the action at `index`. Where others are linked to it, the first of them takes
/// over its condition.
pub open spec fn deleted(actions: Seq<Action>, index: int) -> Seq<Action> {
    if !linked(actions[index]) && index + 1 < actions.len() && linked(actions[index + 1]) {
        actions.update(
            index + 1,
            actions[index + 1].under(actions[index].spec_condition()),
        ).remove(index)
    } else {
        actions.remove(index)
    }
}

/// Deletes the action at `index`, if there is one.
pub fn delete_action(actions: Vec<Action>, index: usize) -> (left: Option<Vec<Action>>)
    ensures
        left is Some <==> index < actions.len(),
        left matches Some(list) ==> list@ == deleted(actions@, index as int),
{
    if index >= actions.len() {
        return None;
    }
    let mut left = actions;
    let condition = left[index].condition();
    if !matches!(condition, ActionCondition::Linked) && find_linked_action_range(
        &left,
        index,
    ).is_some() {
        let successor = left[index + 1].with_condition(condition);
        left.set(index + 1, successor);
    }
    left.remove(index);
    Some(left)
}

/// An action dragged from one place to another, within a section or across.
#[derive(Debug, Clone, Copy, PartialEq, Eq, Structural)]
pub struct ItemMoveEvent {
    pub from_index: usize,
    pub from_condition: ActionCondition,
    /// The place within the section it is dropped into.
    pub to_index_local: usize,
    pub to_index: usize,
    pub to_condition: ActionCondition,
}

impl ItemMoveEvent {
    /// Where the action goes once it was taken out of a list of `len` actions.
    pub open spec fn insert_index(self, len: int) -> int {
        let wanted = if self.from_condition == self.to_condition || self.from_index
            >= self.to_index {
            self.to_index as int
        } else {
            self.to_index - 1
        };
        if wanted <= len - 1 {
            wanted
        } else {
            len - 1
        }
    }

    /// Whether the action takes the condition of the section it is dropped into: it changes
    /// sections, or becomes the first of its own.
    pub open spec fn adopts_condition(self) -> bool {
        self.from_condition != self.to_condition || self.to_index_local == 0
    }

    pub open spec fn moved(self, action: Action) -> Action {
        if self.adopts_condition() {
            action.under(self.to_condition)
        } else {
            action
        }
    }
}

/// The list after a move.
pub open spec fn moved_list(actions: Seq<Action>, event: ItemMoveEvent) -> Seq<Action> {
    actions.remove(event.from_index as int).insert(
        event.insert_index(actions.len() as int),
        event.moved(actions[event.from_index as int]),
    )
}

/// Carries out a move.
pub fn move_action(actions: Vec<Action>, event: ItemMoveEvent) -> (moved: Vec<Action>)
    requires
        event.from_index < actions.len(),
    ensures
        moved@ == moved_list(actions@, event),
{
    let mut moved = actions;
    let mut action = moved.remove(event.from_index);
    let wanted: usize = if event.from_condition == event.to_condition || event.from_index
        >= event.to_index {
        event.to_index
    } else {
        event.to_index - 1
    };
    let insert_index: usize = if wanted <= moved.len() {
        wanted
    } else {
        moved.len()
    };
    if event.from_condition != event.to_condition || event.to_index_local == 0 {
        action = action.with_condition(event.to_condition);
    }
    moved.insert(insert_index, action);
    moved
}

/// The file name under which the actions of a map are exported.
pub fn export_name(map_name: &str) -> (name: String)
    ensures
        name@ == map_name@ + ".json"@,
{
    let mut name = String::from_str(map_name);
    name.append(".json");
    name
}

/// What the popup over the list holds.
#[derive(Debug, Clone, Copy, PartialEq, Eq, Structural)]
pub enum PopupContent {
    Closed,
    Add(Action),
    Edit { action: Action, index: usize },
}

/// The popup in which an action is added or edited.
#[derive(Debug, Clone, Copy, PartialEq, Eq, Structural)]
pub struct ActionsPopup {
    pub content: PopupContent,
    pub open: bool,
}

impl ActionsPopup {
    /// The popup before anything was clicked.
    pub fn closed() -> (popup: ActionsPopup)
        ensures
            popup == (ActionsPopup { content: PopupContent::Closed, open: false }),
    {
        ActionsPopup { content: PopupContent::Closed, open: false }
    }

    /// The popup opens or closes by itself.
    pub fn set_open(&mut self, open: bool)
        ensures
            *final(self) == (ActionsPopup { open, ..*old(self) }),
    {
        self.open = open;
    }

    /// A click on "add" in the section of `condition`: offers `blank` under that condition.
    pub fn click_add(&mut self, blank: ActionKey, condition: ActionCondition)
        ensures
            *final(self) == (ActionsPopup {
                content: PopupContent::Add(Action::Key(ActionKey { condition, ..blank })),
                ..*old(self)
            }),
    {
        self.content = PopupContent::Add(Action::Key(blank).with_condition(condition));
    }

    /// A click on an action of the list.
    pub fn click_item(&mut self, action: Action, index: usize)
        ensures
            *final(self) == (ActionsPopup {
                content: PopupContent::Edit { action, index },
                ..*old(self)
            }),
    {
        self.content = PopupContent::Edit { action, index };
    }

    /// Turns editing an action into adding a copy of it.
    pub fn copy(&mut self)
        requires
            old(self).content is Edit,
        ensures
            *final(self) == (ActionsPopup {
                content: PopupContent::Add(old(self).content->Edit_action),
                ..*old(self)
            }),
    {
        if let PopupContent::Edit { action, .. } = self.content {
            self.content = PopupContent::Add(action);
        }
    }

    pub fn cancel(&mut self)
        ensures
            *final(self) == (ActionsPopup { content: PopupContent::Closed, open: false }),
    {
        self.open = false;
        self.content = PopupContent::Closed;
    }

    /// Whether the popup may offer the action to be linked: there is an action to link it to.
    pub open spec fn spec_linkable(self, actions: Seq<Action>) -> bool {
        match self.content {
            PopupContent::Closed => false,
            PopupContent::Add(action) => section(
                actions,
                action.spec_condition(),
                actions.len() as int,
            ).len() > 0,
            PopupContent::Edit { action, index } => {
                let shown = section(actions, action.spec_condition(), actions.len() as int);
                shown.len() > 0 && shown[0].1 != index
            },
        }
    }

    /// Tells whether the popup may offer the action to be linked.
    pub fn linkable(&self, actions: &Vec<Action>) -> (linkable: bool)
        ensures
            linkable == self.spec_linkable(actions@),
    {
        match self.content {
            PopupContent::Closed => false,
            PopupContent::Add(action) => {
                let shown = filter_actions(actions, action.condition());
                shown.len() > 0
            },
            PopupContent::Edit { action, index } => {
                let shown = filter_actions(actions, action.condition());
                shown.len() > 0 && shown[0].1 != index
            },
        }
    }

    /// What submitting `action` under `condition` makes of the list, where it changes it at all.
    pub open spec fn submission(
        self,
        actions: Seq<Action>,
        action: Action,
        condition: ActionCondition,
    ) -> Option<Seq<Action>> {
        match self.content {
            PopupContent::Closed => None,
            PopupContent::Add(_) => Some(
                actions.insert(insertion_index(actions, action, condition), action),
            ),
            PopupContent::Edit { index, .. } => if index < actions.len() {
                Some(actions.update(index as int, action))
            } else {
                None
            },
        }
    }

    /// Submits the form and closes the popup. Returns the new list, where there is one.
    pub fn submit(&mut self, actions: Vec<Action>, action: Action, condition: ActionCondition) -> (
    list: Option<Vec<Action>>)
        ensures
            *final(self) == (ActionsPopup { content: PopupContent::Closed, open: false }),
            list is Some <==> old(self).submission(actions@, action, condition) is Some,
            list matches Some(new) ==> Some(new@) == old(self).submission(
                actions@,
                action,
                condition,
            ),
    {
        let list = match self.content {
            PopupContent::Closed => None,
            PopupContent::Add(_) => Some(add_action(actions, action, condition)),
            PopupContent::Edit { index, .. } => edit_action(actions, action, index),
        };
        self.open = false;
        self.content = PopupContent::Closed;
        list
    }
}

/// The list starts with a linked action, which is linked to nothing.
pub open spec fn starts_linked(actions: Seq<Action>) -> bool {
    actions.len() > 0 && linked(actions[0])
}

/// The three sections of the panel.
pub open spec fn in_some_section(actions: Seq<Action>, millis: u64, i: int) -> bool {
    ||| selected(actions, ActionCondition::Any, i)
    ||| selected(actions, ActionCondition::ErdaShowerOffCooldown, i)
    ||| selected(actions, ActionCondition::EveryMillis(millis), i)
}

/// A section shows exactly the selected actions, each with its index, in the order of the list.
pub proof fn law_section_shows_selected(actions: Seq<Action>, condition: ActionCondition, n: int)
    requires
        0 <= n <= actions.len() <= usize::MAX,
    ensures
        forall|i: int|
            0 <= i < n ==> (selected(actions, condition, i) <==> section(
                actions,
                condition,
                n,
            ).contains((actions[i], i as usize))),
        forall|k: int|
            #![trigger section(actions, condition, n)[k]]
            0 <= k < section(actions, condition, n).len() ==> {
                &&& section(actions, condition, n)[k].1 < n
                &&& section(actions, condition, n)[k].0 == actions[section(
                    actions,
                    condition,
                    n,
                )[k].1 as int]
            },
        forall|j: int, k: int|
            0 <= j < k < section(actions, condition, n).len() ==> (#[trigger] section(
                actions,
                condition,
                n,
            )[j]).1 < (#[trigger] section(actions, condition, n)[k]).1,
    decreases n,
{
    if n > 0 {
        law_section_shows_selected(actions, condition, n - 1);
        let before = section(actions, condition, n - 1);
        let after = section(actions, condition, n);
        assert forall|i: int| 0 <= i < n implies (selected(actions, condition, i)
            <==> after.contains((actions[i], i as usize))) by {
            let item = (actions[i], i as usize);
            if i < n - 1 {
                if before.contains(item) {
                    let k = choose|k: int| 0 <= k < before.len() && before[k] == item;
                    assert(after[k] == item);
                }
                if after.contains(item) {
                    let k = choose|k: int| 0 <= k < after.len() && after[k] == item;
                    assert(k < before.len() ==> before[k] == item);
                }
            } else {
                if selected(actions, condition, i) {
                    assert(after[after.len() - 1] == item);
                }
                if after.contains(item) {
                    let k = choose|k: int| 0 <= k < after.len() && after[k] == item;
                    assert(k < before.len() ==> before[k] == item);
                }
            }
        }
    }
}

/// Where the first action is not a linked one, every action is shown, and in one section only.
pub proof fn law_sections_partition(actions: Seq<Action>, millis: u64, i: int)
    requires
        !starts_linked(actions),
        0 <= i < actions.len(),
    ensures
        in_some_section(actions, millis, i),
        !(selected(actions, ActionCondition::Any, i) && selected(
            actions,
            ActionCondition::ErdaShowerOffCooldown,
            i,
        )),
        !(selected(actions, ActionCondition::Any, i) && selected(
            actions,
            ActionCondition::EveryMillis(millis),
            i,
        )),
        !(selected(actions, ActionCondition::ErdaShowerOffCooldown, i) && selected(
            actions,
            ActionCondition::EveryMillis(millis),
            i,
        )),
    decreases i,
{
    if linked(actions[i]) {
        law_sections_partition(actions, millis, i - 1);
    }
}

/// Two lists that agree on a stretch, one of them shifted, and on whether the action before it is
/// shown, show the same of it.
proof fn lemma_same_stretch(
    a: Seq<Action>,
    b: Seq<Action>,
    condition: ActionCondition,
    start: int,
    shift: int,
    i: int,
)
    requires
        0 <= start <= i < a.len(),
        0 <= start + shift,
        a.len() + shift <= b.len(),
        forall|k: int| start <= k <= i ==> #[trigger] a[k] == b[k + shift],
        linked(a[start]) ==> selected(a, condition, start - 1) == selected(
            b,
            condition,
            start + shift - 1,
        ),
    ensures
        selected(a, condition, i) == selected(b, condition, i + shift),
    decreases i,
{
    assert(a[i] == b[i + shift]);
    if start < i {
        lemma_same_stretch(a, b, condition, start, shift, i - 1);
    }
}

/// Deleting an action leaves every other one in its section.
pub proof fn law_delete_keeps_sections(
    actions: Seq<Action>,
    index: int,
    condition: ActionCondition,
    i: int,
)
    requires
        !starts_linked(actions),
        0 <= index < actions.len(),
        0 <= i < actions.len(),
        i != index,
        !(condition is Linked),
    ensures
        !starts_linked(deleted(actions, index)),
        selected(
            deleted(actions, index),
            condition,
            if i < index {
                i
            } else {
                i - 1
            },
        ) == selected(actions, condition, i),
    decreases i,
{
    let left = deleted(actions, index);
    if index > 0 {
        lemma_same_prefix(actions, left, condition, index, if i < index {
            i
        } else {
            index - 1
        });
    }
    if i > index {
        if i == index + 1 {
            assert(selected(actions, condition, index) == (same_kind(
                actions[index].spec_condition(),
                condition,
            ) || linked(actions[index]) && selected(actions, condition, index - 1)));
            if linked(actions[i]) && !linked(actions[index]) {
                assert(left[i - 1] == actions[i].under(actions[index].spec_condition()));
            } else {
                assert(left[i - 1] == actions[i]);
            }
        } else {
            law_delete_keeps_sections(actions, index, condition, i - 1);
            assert(left[i - 1] == actions[i]);
        }
    }
}

/// Two lists with the same first `n` actions show the same of them.
proof fn lemma_same_prefix(
    a: Seq<Action>,
    b: Seq<Action>,
    condition: ActionCondition,
    n: int,
    i: int,
)
    requires
        0 <= i < n <= a.len(),
        n <= b.len(),
        forall|k: int| 0 <= k < n ==> #[trigger] a[k] == b[k],
    ensures
        selected(a, condition, i) == selected(b, condition, i),
    decreases i,
{
    assert(a[i] == b[i]);
    if i > 0 {
        lemma_same_prefix(a, b, condition, n, i - 1);
    } else {
        assert(!selected(a, condition, -1));
        assert(!selected(b, condition, -1));
    }
}

/// A section ends right behind a shown action, and shows nothing from there on.
proof fn lemma_section_ends(actions: Seq<Action>, condition: ActionCondition, n: int)
    requires
        0 <= n,
    ensures
        0 <= section_end(actions, condition, n) <= n,
        section_end(actions, condition, n) > 0 ==> selected(
            actions,
            condition,
            section_end(actions, condition, n) - 1,
        ),
        forall|i: int|
            section_end(actions, condition, n) <= i < n ==> !selected(actions, condition, i),
    decreases n,
{
    if n > 0 {
        lemma_section_ends(actions, condition, n - 1);
    }
}

/// Adding an action leaves every other one in its section.
pub proof fn law_add_keeps_sections(
    actions: Seq<Action>,
    action: Action,
    condition: ActionCondition,
    shown: ActionCondition,
    i: int,
)
    requires
        0 <= i < actions.len(),
    ensures
        ({
            let at = insertion_index(actions, action, condition);
            selected(
                actions.insert(at, action),
                shown,
                if i < at {
                    i
                } else {
                    i + 1
                },
            ) == selected(actions, shown, i)
        }),
{
    let at = insertion_index(actions, action, condition);
    let added = actions.insert(at, action);
    let n = actions.len() as int;
    lemma_section_ends(actions, condition, n);
    if i < at {
        lemma_same_prefix(actions, added, shown, at, i);
    } else {
        assert(!selected(actions, condition, at));
        assert(!linked(actions[at]));
        lemma_same_stretch(actions, added, shown, at, 1, i);
    }
}

/// A linked action that is added to a section which shows anything becomes the last of that
/// section; any other goes to the section of its own condition.
pub proof fn law_added_action_is_shown(
    actions: Seq<Action>,
    action: Action,
    condition: ActionCondition,
)
    ensures
        ({
            let at = insertion_index(actions, action, condition);
            let added = actions.insert(at, action);
            &&& linked(action) && section_end(actions, condition, actions.len() as int) > 0 ==> {
                &&& selected(added, condition, at)
                &&& section_end(added, condition, added.len() as int) == at + 1
            }
            &&& !linked(action) ==> selected(added, action.spec_condition(), at)
        }),
{
    let at = insertion_index(actions, action, condition);
    let added = actions.insert(at, action);
    let n = actions.len() as int;
    lemma_section_ends(actions, condition, n);
    if linked(action) && section_end(actions, condition, n) > 0 {
        lemma_same_prefix(actions, added, condition, at, at - 1);
        assert(selected(added, condition, at));
        assert forall|k: int| at + 1 <= k < added.len() implies !selected(
            added,
            condition,
            k,
        ) by {
            law_add_keeps_sections(actions, action, condition, condition, k - 1);
        }
        lemma_section_end(added, condition, at + 1, added.len() as int);
    }
}

/// What is left of an import starts with an action that is not linked.
proof fn lemma_stray_bounds(actions: Seq<Action>)
    ensures
        0 <= stray(actions) <= actions.len(),
        !starts_linked(actions.skip(stray(actions))),
    decreases actions.len(),
{
    if starts_linked(actions) {
        lemma_stray_bounds(actions.skip(1));
        assert(actions.skip(1).skip(stray(actions.skip(1))) =~= actions.skip(stray(actions)));
    } else {
        assert(actions.skip(0) =~= actions);
    }
}

/// An import leaves what is there in its sections, shows the new actions in theirs, and never makes
/// a list start with a linked action.
pub proof fn law_import_keeps_sections(
    actions: Seq<Action>,
    imported: Seq<Action>,
    shown: ActionCondition,
    i: int,
)
    ensures
        ({
            let kept = imported.skip(stray(imported));
            let merged = actions + kept;
            &&& 0 <= i < actions.len() ==> selected(merged, shown, i) == selected(actions, shown, i)
            &&& 0 <= i < kept.len() ==> selected(merged, shown, actions.len() + i) == selected(
                kept,
                shown,
                i,
            )
            &&& !starts_linked(actions) ==> !starts_linked(merged)
        }),
{
    lemma_stray_bounds(imported);
    let kept = imported.skip(stray(imported));
    let merged = actions + kept;
    if 0 <= i < actions.len() {
        lemma_same_prefix(actions, merged, shown, actions.len() as int, i);
    }
    if 0 <= i < kept.len() {
        lemma_same_stretch(kept, merged, shown, 0, actions.len() as int, i);
    }
}

/// A list without stray actions is imported whole.
pub proof fn law_well_formed_import_is_whole(actions: Seq<Action>, imported: Seq<Action>)
    requires
        !starts_linked(imported),
    ensures
        actions + imported.skip(stray(imported)) == actions + imported,
{
    assert(imported.skip(0) =~= imported);
}

/// Moving an action within its section and back, never to its head, restores the list.
pub proof fn law_move_is_undone(actions: Seq<Action>, there: ItemMoveEvent, back: ItemMoveEvent)
    requires
        there.from_index < actions.len(),
        there.to_index < actions.len(),
        back.from_index == there.to_index,
        back.to_index == there.from_index,
        !there.adopts_condition(),
        !back.adopts_condition(),
    ensures
        moved_list(moved_list(actions, there), back) == actions,
{
    let moved = moved_list(actions, there);
    assert(moved[there.to_index as int] == actions[there.from_index as int]);
    assert(moved.remove(there.to_index as int) =~= actions.remove(there.from_index as int));
    assert(moved_list(moved, back) =~= actions);
}

/// A move loses no action and changes at most the condition of the one moved.
pub proof fn law_move_keeps_the_others(actions: Seq<Action>, event: ItemMoveEvent)
    requires
        event.from_index < actions.len(),
    ensures
        ({
            let moved = moved_list(actions, event);
            let at = event.insert_index(actions.len() as int);
            &&& 0 <= at < moved.len() == actions.len()
            &&& moved.remove(at) == actions.remove(event.from_index as int)
            &&& moved[at] == actions[event.from_index as int] || moved[at]
                == actions[event.from_index as int].under(event.to_condition)
        }),
{
    let at = event.insert_index(actions.len() as int);
    assert(moved_list(actions, event).remove(at) =~= actions.remove(event.from_index as int));
}

/// Where the popup offers to link an action, accepting that never makes the list start with a linked
/// action: one that is added goes behind another, and one that is edited is not the first.
pub proof fn law_linking_keeps_a_head(
    popup: ActionsPopup,
    actions: Seq<Action>,
    submitted: Action,
)
    requires
        actions.len() <= usize::MAX,
        !starts_linked(actions),
        popup.spec_linkable(actions),
        linked(submitted),
        popup.content matches PopupContent::Edit { action, index } ==> index < actions.len()
            && actions[index as int] == action,
    ensures
        ({
            let condition = match popup.content {
                PopupContent::Add(action) => action.spec_condition(),
                PopupContent::Edit { action, .. } => action.spec_condition(),
                PopupContent::Closed => ActionCondition::Any,
            };
            let list = popup.submission(actions, submitted, condition);
            list is Some && !starts_linked(list->Some_0)
        }),
{
    match popup.content {
        PopupContent::Add(action) => {
            let condition = action.spec_condition();
            let n = actions.len() as int;
            law_section_shows_selected(actions, condition, n);
            lemma_section_ends(actions, condition, n);
            let shown = section(actions, condition, n);
            let first = shown[0].1 as int;
            assert(shown.contains((actions[first], first as usize)));
            assert(selected(actions, condition, first));
            assert(section_end(actions, condition, n) > first);
            assert(insertion_index(actions, submitted, condition) > 0);
        },
        PopupContent::Edit { action, index } => {
            let condition = action.spec_condition();
            let n = actions.len() as int;
            law_section_shows_selected(actions, condition, n);
            let shown = section(actions, condition, n);
            if index == 0 {
                assert(selected(actions, condition, 0));
                assert(shown.contains((actions[0], 0usize)));
                let k = choose|k: int| 0 <= k < shown.len() && shown[k] == (actions[0], 0usize);
                assert(shown[k].1 == 0);
                assert(k > 0 ==> shown[0].1 < shown[k].1);
            }
        },
        PopupContent::Closed => {},
    }
}

/// Conditions are of one kind where they are the same, or both repeat by time.
pub proof fn law_one_kind(a: ActionCondition, b: ActionCondition, same: bool)
    requires
        call_ensures(is_same_kind, (a, b), same),
    ensures
        same <==> a == b || a is EveryMillis && b is EveryMillis,
{
}

/// The action at `head` is not linked, and all behind it up to `i` are.
pub open spec fn heads(actions: Seq<Action>, head: int, i: int) -> bool {
    &&& 0 <= head <= i < actions.len()
    &&& !(actions[head].spec_condition() is Linked)
    &&& forall|k: int| head < k <= i ==> (#[trigger] actions[k]).spec_condition() is Linked
}

/// What is shown goes by the action that it is linked to.
proof fn lemma_head_decides(
    actions: Seq<Action>,
    condition: ActionCondition,
    head: int,
    i: int,
)
    requires
        heads(actions, head, i),
        !(condition is Linked),
    ensures
        selected(actions, condition, i) <==> same_kind(actions[head].spec_condition(), condition),
    decreases i,
{
    if head < i {
        assert(actions[i].spec_condition() is Linked);
        lemma_head_decides(actions, condition, head, i - 1);
    }
}

/// What is linked to nothing is in no section.
proof fn lemma_headless(actions: Seq<Action>, condition: ActionCondition, i: int)
    requires
        0 <= i < actions.len(),
        forall|k: int| 0 <= k <= i ==> (#[trigger] actions[k]).spec_condition() is Linked,
        !(condition is Linked),
    ensures
        !selected(actions, condition, i),
    decreases i,
{
    assert(actions[i].spec_condition() is Linked);
    if i > 0 {
        lemma_headless(actions, condition, i - 1);
    } else {
        assert(!selected(actions, condition, -1));
    }
}

/// A section shows an action exactly where the action that it is linked to, or itself, is of the kind
/// of the section. What is linked to nothing is not shown.
pub proof fn law_filtered_by_the_head(
    actions: &Vec<Action>,
    condition: ActionCondition,
    shown: Vec<(Action, usize)>,
    head: int,
    i: int,
)
    requires
        call_ensures(filter_actions, (actions, condition), shown),
        !(condition is Linked),
        0 <= i < actions.len(),
    ensures
        heads(actions@, head, i) ==> (shown@.contains((actions@[i], i as usize)) <==> {
            let kind = actions@[head].spec_condition();
            kind == condition || kind is EveryMillis && condition is EveryMillis
        }),
        (forall|k: int| 0 <= k <= i ==> (#[trigger] actions@[k]).spec_condition() is Linked)
            ==> !shown@.contains((actions@[i], i as usize)),
{
    law_section_shows_selected(actions@, condition, actions.len() as int);
    assert(selected(actions@, condition, i) <==> shown@.contains((actions@[i], i as usize)));
    if heads(actions@, head, i) {
        lemma_head_decides(actions@, condition, head, i);
    }
    if forall|k: int| 0 <= k <= i ==> (#[trigger] actions@[k]).spec_condition() is Linked {
        lemma_headless(actions@, condition, i);
    }
}

/// What a section shows stands in the order of the list, each action with its place there.
pub proof fn law_filtered_in_order(
    actions: &Vec<Action>,
    condition: ActionCondition,
    shown: Vec<(Action, usize)>,
    j: int,
    k: int,
)
    requires
        call_ensures(filter_actions, (actions, condition), shown),
        0 <= j < k < shown.len(),
    ensures
        shown@[j].1 < shown@[k].1 < actions.len(),
        shown@[j].0 == actions@[shown@[j].1 as int],
        shown@[k].0 == actions@[shown@[k].1 as int],
{
    law_section_shows_selected(actions@, condition, actions.len() as int);
    let all = section(actions@, condition, actions.len() as int);
    assert(all[j].1 < all[k].1);
}

/// Linked actions are linked to the nearest action before them: the range starts right behind it, and
/// ends where the next one starts that is not linked.
pub proof fn law_linked_range(
    actions: &Vec<Action>,
    action_index: usize,
    range: Option<(usize, usize)>,
    i: int,
)
    requires
        call_ensures(find_linked_action_range, (actions, action_index), range),
    ensures
        range is None ==> action_index + 1 >= actions.len() || !(actions@[action_index
            + 1].spec_condition() is Linked),
        range matches Some((start, end)) ==> {
            &&& start == action_index + 1
            &&& start < end <= actions.len()
            &&& start <= i < end ==> actions@[i].spec_condition() is Linked
            &&& end < actions.len() ==> !(actions@[end as int].spec_condition() is Linked)
        },
{
    if let Some((start, end)) = range {
        if start <= i < end {
            assert(linked(actions@[i]));
        }
    }
}

/// The last action of a section is the last of those that it shows.
pub proof fn law_last_of_the_section(
    actions: &Vec<Action>,
    condition: ActionCondition,
    last: Option<usize>,
    shown: Vec<(Action, usize)>,
)
    requires
        call_ensures(find_last_linked_action_index, (actions, condition), last),
        call_ensures(filter_actions, (actions, condition), shown),
    ensures
        last is Some <==> shown.len() > 0,
        last matches Some(index) ==> shown@.last().1 == index,
{
    let n = actions.len() as int;
    law_section_shows_selected(actions@, condition, n);
    lemma_section_ends(actions@, condition, n);
    let all = section(actions@, condition, n);
    if shown.len() > 0 {
        let end = all.last();
        assert(all[all.len() - 1] == end);
        assert(all.contains(end));
        assert(end == (actions@[end.1 as int], end.1));
        assert(selected(actions@, condition, end.1 as int));
    }
    if let Some(index) = last {
        assert(selected(actions@, condition, index as int));
        let item = (actions@[index as int], index);
        assert(index as int as usize == index);
        assert(all.contains(item));
        let k = choose|k: int| 0 <= k < all.len() && all[k] == item;
        assert(k < all.len() - 1 ==> all[k].1 < all[all.len() - 1].1);
    }
}

/// An action that is not linked is added behind all others. A linked one is added right behind the
/// last action that the section shows, or behind all others where it shows none. Nothing else moves.
pub proof fn law_action_is_added(
    actions: Vec<Action>,
    action: Action,
    condition: ActionCondition,
    shown: Vec<(Action, usize)>,
    added: Vec<Action>,
)
    requires
        call_ensures(add_action, (actions, action, condition), added),
        call_ensures(filter_actions, (&actions, condition), shown),
    ensures
        ({
            let at = if action.spec_condition() is Linked && shown.len() > 0 {
                shown@.last().1 + 1
            } else {
                actions.len() as int
            };
            &&& added.len() == actions.len() + 1
            &&& added@[at] == action
            &&& forall|i: int| 0 <= i < at ==> added@[i] == #[trigger] actions@[i]
            &&& forall|i: int| at <= i < actions.len() ==> added@[i + 1] == #[trigger] actions@[i]
        }),
{
    let n = actions.len() as int;
    law_section_shows_selected(actions@, condition, n);
    lemma_section_ends(actions@, condition, n);
    let all = section(actions@, condition, n);
    let end = section_end(actions@, condition, n);
    if shown.len() > 0 {
        let last = all.last();
        assert(all[all.len() - 1] == last);
        assert(all.contains(last));
        assert(last == (actions@[last.1 as int], last.1));
        assert(selected(actions@, condition, last.1 as int));
        assert(end > last.1);
        let item = (actions@[end - 1], (end - 1) as usize);
        assert(all.contains(item));
        let k = choose|k: int| 0 <= k < all.len() && all[k] == item;
        assert(k < all.len() - 1 ==> all[k].1 < all[all.len() - 1].1);
    } else if end > 0 {
        assert(all.contains((actions@[end - 1], (end - 1) as usize)));
    }
}

/// Only an action that is there can be edited, and only that one changes.
pub proof fn law_action_is_edited(
    actions: Vec<Action>,
    action: Action,
    index: usize,
    edited: Option<Vec<Action>>,
)
    requires
        call_ensures(edit_action, (actions, action, index), edited),
    ensures
        edited is Some <==> index < actions.len(),
        edited matches Some(edited) ==> {
            &&& edited.len() == actions.len()
            &&& edited@[index as int] == action
            &&& forall|i: int|
                0 <= i < actions.len() && i != index ==> edited@[i] == #[trigger] actions@[i]
        },
{
}

/// Only an action that is there can be deleted, and all others stay in their order as they are. But
/// where it was not linked itself and another was linked to it, that one takes its condition.
pub proof fn law_action_is_deleted(
    actions: Vec<Action>,
    index: usize,
    left: Option<Vec<Action>>,
)
    requires
        call_ensures(delete_action, (actions, index), left),
    ensures
        left is Some <==> index < actions.len(),
        left matches Some(left) ==> {
            let gone = actions@[index as int].spec_condition();
            let inherits = index + 1 < actions.len() && !(gone is Linked) && actions@[index
                + 1].spec_condition() is Linked;
            &&& left.len() + 1 == actions.len()
            &&& forall|i: int| 0 <= i < index ==> left@[i] == #[trigger] actions@[i]
            &&& forall|i: int|
                index + 1 < i < actions.len() ==> left@[i - 1] == #[trigger] actions@[i]
            &&& index + 1 < actions.len() && !inherits ==> left@[index as int] == actions@[index
                + 1]
            &&& inherits ==> {
                &&& left@[index as int].spec_condition() == gone
                &&& left@[index as int] == actions@[index + 1].under(gone)
            }
        },
{
}

/// A moved action is taken out and put in again: before the one at the wanted place, counted in the
/// list without it where it goes to another section further down, and at the end where that is beyond
/// it. The others keep their order.
pub proof fn law_action_is_moved(actions: Vec<Action>, event: ItemMoveEvent, moved: Vec<Action>)
    requires
        event.from_index < actions.len(),
        call_ensures(move_action, (actions, event), moved),
    ensures
        ({
            let action = actions@[event.from_index as int];
            let others = actions@.remove(event.from_index as int);
            let crosses = event.from_condition != event.to_condition;
            let wanted = if crosses && event.from_index < event.to_index {
                event.to_index - 1
            } else {
                event.to_index as int
            };
            let at = if wanted < actions.len() {
                wanted
            } else {
                actions.len() - 1
            };
            &&& moved.len() == actions.len()
            &&& moved@.remove(at) == others
            &&& crosses || event.to_index_local == 0 ==> moved@[at] == action.under(
                event.to_condition,
            ) && moved@[at].spec_condition() == event.to_condition
            &&& !crosses && event.to_index_local > 0 ==> moved@[at] == action
        }),
{
    law_move_keeps_the_others(actions@, event);
}

/// Linked actions at the head of an import are left out, and all the rest comes behind what is there,
/// in its order.
pub proof fn law_actions_are_imported(
    actions: Vec<Action>,
    imported: &Vec<Action>,
    merged: Vec<Action>,
    dropped: int,
)
    requires
        call_ensures(import_actions, (actions, imported), merged),
        0 <= dropped <= imported.len(),
        forall|i: int|
            0 <= i < dropped ==> (#[trigger] imported@[i]).spec_condition() is Linked,
        dropped < imported.len() ==> !(imported@[dropped].spec_condition() is Linked),
    ensures
        merged.len() == actions.len() + imported.len() - dropped,
        forall|i: int| 0 <= i < actions.len() ==> merged@[i] == #[trigger] actions@[i],
        forall|i: int|
            dropped <= i < imported.len() ==> merged@[actions.len() + i - dropped]
                == #[trigger] imported@[i],
{
    assert forall|i: int| 0 <= i < dropped implies linked(#[trigger] imported@[i]) by {}
    lemma_stray(imported@, dropped);
}

/// The actions are exported under the name of the map.
pub proof fn law_export_name(map_name: &str, name: String)
    requires
        call_ensures(export_name, (map_name,), name),
    ensures
        name@ == map_name@ + ".json"@,
{
}

/// Nothing is in the popup and it is closed until something is clicked, and again when it is
/// cancelled. Opening and closing it by itself leaves what it holds.
pub proof fn law_popup_opens(
    fresh: ActionsPopup,
    popup: &mut ActionsPopup,
    open: bool,
    cancelled: &mut ActionsPopup,
)
    requires
        call_ensures(ActionsPopup::closed, (), fresh),
        call_ensures(ActionsPopup::set_open, (popup, open), ()),
        call_ensures(ActionsPopup::cancel, (cancelled,), ()),
    ensures
        !fresh.open && fresh.content is Closed,
        final(popup).open == open && final(popup).content == old(popup).content,
        !final(cancelled).open && final(cancelled).content is Closed,
{
}

/// Adding starts with the blank action under the condition of the section; editing with the action
/// that was clicked; and copying an edited action adds one like it.
pub proof fn law_popup_is_clicked(
    adding: &mut ActionsPopup,
    blank: ActionKey,
    condition: ActionCondition,
    editing: &mut ActionsPopup,
    action: Action,
    index: usize,
    copying: &mut ActionsPopup,
)
    requires
        call_ensures(ActionsPopup::click_add, (adding, blank, condition), ()),
        call_ensures(ActionsPopup::click_item, (editing, action, index), ()),
        *old(copying) == *final(editing),
        call_ensures(ActionsPopup::copy, (copying,), ()),
    ensures
        final(adding).content matches PopupContent::Add(Action::Key(key)) && key.condition
            == condition && key == (ActionKey { condition, ..blank }),
        final(editing).content == (PopupContent::Edit { action, index }),
        final(copying).content == PopupContent::Add(action),
        final(adding).open == old(adding).open,
        final(editing).open == old(editing).open,
        final(copying).open == old(copying).open,
{
}

/// An action may be linked where its section shows another one before it: any, where it is new.
pub proof fn law_what_may_be_linked(
    popup: &ActionsPopup,
    actions: &Vec<Action>,
    linkable: bool,
    condition: ActionCondition,
    shown: Vec<(Action, usize)>,
)
    requires
        call_ensures(ActionsPopup::linkable, (popup, actions), linkable),
        popup.content matches PopupContent::Add(action) ==> condition == action.spec_condition(),
        popup.content matches PopupContent::Edit { action, .. } ==> condition
            == action.spec_condition(),
        call_ensures(filter_actions, (actions, condition), shown),
    ensures
        popup.content is Closed ==> !linkable,
        popup.content is Add ==> (linkable <==> shown.len() > 0),
        popup.content matches PopupContent::Edit { index, .. } ==> (linkable <==> shown.len() > 0
            && shown@[0].1 != index),
{
}

/// Submitting clears and closes the popup. What was added is added, and what was edited is edited, as
/// far as it is still there; a popup that holds nothing changes nothing.
pub proof fn law_popup_is_submitted(
    popup: &mut ActionsPopup,
    actions: Vec<Action>,
    action: Action,
    condition: ActionCondition,
    list: Option<Vec<Action>>,
    added: Vec<Action>,
    index: usize,
    edited: Option<Vec<Action>>,
)
    requires
        call_ensures(ActionsPopup::submit, (popup, actions, action, condition), list),
        call_ensures(add_action, (actions, action, condition), added),
        call_ensures(edit_action, (actions, action, index), edited),
    ensures
        !final(popup).open && final(popup).content is Closed,
        old(popup).content is Closed ==> list is None,
        old(popup).content is Add ==> list is Some && list->Some_0@ == added@,
        old(popup).content matches PopupContent::Edit { index: clicked, .. } && clicked == index
            ==> {
            &&& list is Some <==> edited is Some
            &&& list is Some ==> list->Some_0@ == edited->Some_0@
        },
{
}

} // verus!

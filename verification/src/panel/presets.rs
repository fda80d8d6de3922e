//! Choosing and editing the action presets of a map.
//!
//! An update of the presets first asks for the edited map to be stored. Only when it was does the
//! panel show it and pass it on.

use vstd::prelude::*;

use crate::models::{Action, MapData, Preset};

verus! {

/// A preset as a name and its actions.
pub open spec fn preset_view(preset: Preset) -> (Seq<char>, Seq<Action>) {
    (preset.name@, preset.actions@)
}

/// The presets in the order of the list.
pub open spec fn presets_view(presets: Seq<Preset>) -> Seq<(Seq<char>, Seq<Action>)> {
    presets.map_values(|preset: Preset| preset_view(preset))
}

/// No two presets have the same name.
pub open spec fn distinct_names(presets: Seq<(Seq<char>, Seq<Action>)>) -> bool {
    forall|i: int, j: int|
        0 <= i < j < presets.len() ==> (#[trigger] presets[i]).0 != (#[trigger] presets[j]).0
}

/// `name` is the name of the preset at `i`, and of none before it.
pub open spec fn is_found_at(
    presets: Seq<(Seq<char>, Seq<Action>)>,
    name: Seq<char>,
    i: int,
) -> bool {
    &&& 0 <= i < presets.len()
    &&& presets[i].0 == name
    &&& forall|j: int| 0 <= j < i ==> (#[trigger] presets[j]).0 != name
}

pub open spec fn is_missing(presets: Seq<(Seq<char>, Seq<Action>)>, name: Seq<char>) -> bool {
    forall|i: int| 0 <= i < presets.len() ==> (#[trigger] presets[i]).0 != name
}

impl MapData {
    pub open spec fn presets_view(self) -> Seq<(Seq<char>, Seq<Action>)> {
        presets_view(self.presets@)
    }

    /// The presets of the map have distinct names.
    pub open spec fn wf(self) -> bool {
        distinct_names(self.presets_view())
    }

    /// `other` differs from this map in its presets only.
    pub open spec fn only_presets_differ(self, other: MapData) -> bool {
        other == (MapData { presets: other.presets, ..self })
    }
}

/// Finds the preset called `name`.
pub fn find_preset(presets: &Vec<Preset>, name: &String) -> (index: Option<usize>)
    ensures
        match index {
            Some(i) => is_found_at(presets_view(presets@), name@, i as int),
            None => is_missing(presets_view(presets@), name@),
        },
{
    let mut i: usize = 0;
    while i < presets.len()
        invariant
            i <= presets.len(),
            forall|j: int| 0 <= j < i ==> (#[trigger] presets_view(presets@)[j]).0 != name@,
        decreases presets.len() - i,
    {
        if presets[i].name == *name {
            return Some(i);
        }
        i += 1;
    }
    None
}

fn copy_actions(actions: &Vec<Action>) -> (copy: Vec<Action>)
    ensures
        copy@ == actions@,
{
    let mut copy: Vec<Action> = Vec::new();
    let mut i: usize = 0;
    while i < actions.len()
        invariant
            i <= actions.len(),
            copy@ == actions@.take(i as int),
        decreases actions.len() - i,
    {
        copy.push(actions[i]);
        i += 1;
        assert(actions@.take(i as int) == actions@.take(i - 1).push(actions[i - 1]));
    }
    assert(actions@.take(i as int) == actions@);
    copy
}

/// `names` are the names of `presets`, in order.
pub open spec fn are_names(names: Seq<String>, presets: Seq<(Seq<char>, Seq<Action>)>) -> bool {
    &&& names.len() == presets.len()
    &&& forall|i: int| 0 <= i < names.len() ==> (#[trigger] names[i])@ == presets[i].0
}

/// The names of the presets that can be chosen, in order.
pub fn preset_names(map: Option<&MapData>) -> (names: Vec<String>)
    ensures
        match map {
            Some(map) => are_names(names@, map.presets_view()),
            None => names.len() == 0,
        },
{
    let mut names: Vec<String> = Vec::new();
    if let Some(map) = map {
        let mut i: usize = 0;
        while i < map.presets.len()
            invariant
                i <= map.presets.len(),
                names.len() == i,
                forall|j: int|
                    0 <= j < i ==> (#[trigger] names[j])@ == map.presets_view()[j].0,
            decreases map.presets.len() - i,
        {
            names.push(map.presets[i].name.clone());
            i += 1;
        }
    }
    names
}

/// `actions` are those of the first preset called `name`, none where there is no such preset.
pub open spec fn are_actions_of(
    actions: Seq<Action>,
    presets: Seq<(Seq<char>, Seq<Action>)>,
    name: Seq<char>,
) -> bool {
    &&& is_missing(presets, name) ==> actions == Seq::<Action>::empty()
    &&& forall|i: int|
        #![trigger presets[i]]
        is_found_at(presets, name, i) ==> actions == presets[i].1
}

/// The actions of the chosen preset, none where there is no such preset.
pub fn preset_actions(map: Option<&MapData>, preset: Option<&String>) -> (actions: Vec<Action>)
    ensures
        match (map, preset) {
            (Some(map), Some(preset)) => are_actions_of(
                actions@,
                map.presets_view(),
                preset@,
            ),
            _ => actions@ == Seq::<Action>::empty(),
        },
{
    match (map, preset) {
        (Some(map), Some(preset)) => {
            match find_preset(&map.presets, preset) {
                Some(index) => {
                    assert(map.presets_view()[index as int] == preset_view(
                        map.presets[index as int],
                    ));
                    copy_actions(&map.presets[index].actions)
                },
                None => Vec::new(),
            }
        },
        _ => Vec::new(),
    }
}

/// Where the chosen preset stands among the names.
pub fn preset_index(map: Option<&MapData>, preset: Option<&String>) -> (index: Option<usize>)
    ensures
        match (map, preset) {
            (Some(map), Some(preset)) => match index {
                Some(i) => is_found_at(map.presets_view(), preset@, i as int),
                None => is_missing(map.presets_view(), preset@),
            },
            _ => index is None,
        },
{
    match (map, preset) {
        (Some(map), Some(preset)) => find_preset(&map.presets, preset),
        _ => None,
    }
}

/// The name of the preset that was chosen by its place in the list.
pub fn select_preset(map: &MapData, index: usize) -> (preset: String)
    requires
        index < map.presets.len(),
    ensures
        preset@ == map.presets_view()[index as int].0,
{
    map.presets[index].name.clone()
}

/// A request to change what the panel shows.
#[derive(Debug)]
pub enum ActionsUpdate {
    /// Another preset was chosen.
    Choose,
    /// A preset of that name is to be created.
    Create(String),
    /// The chosen preset is to be deleted.
    Delete,
    /// The chosen preset has other actions.
    Update(Vec<Action>),
    /// The map itself was edited.
    UpdateMinimap(MapData),
}

/// Which preset is chosen once a map was stored.
#[derive(Debug)]
pub enum AfterStore {
    Choose(String),
    ChooseFirst,
    KeepChoice,
}

/// What the panel asks for.
#[derive(Debug)]
pub enum ActionsRequest {
    Ignore,
    /// Passes the chosen preset and the map on to the bot.
    PassOn,
    /// Stores `map`, then goes on with the reply.
    Store { map: MapData, then: AfterStore },
}

/// The presets after `update`, where it changes them.
pub open spec fn updated_presets(
    presets: Seq<(Seq<char>, Seq<Action>)>,
    chosen: Option<Seq<char>>,
    update: ActionsUpdate,
) -> Option<Seq<(Seq<char>, Seq<Action>)>> {
    match (update, chosen) {
        (ActionsUpdate::Create(name), _) => if is_missing(presets, name@) {
            Some(presets.push((name@, Seq::empty())))
        } else {
            None
        },
        (ActionsUpdate::Delete, Some(name)) => if is_missing(presets, name) {
            None
        } else {
            Some(presets.remove(found_at(presets, name)))
        },
        (ActionsUpdate::Update(actions), Some(name)) => if is_missing(presets, name) {
            Some(presets.push((name, actions@)))
        } else {
            Some(presets.update(found_at(presets, name), (name, actions@)))
        },
        _ => None,
    }
}

/// The place of the first preset called `name`.
pub open spec fn found_at(presets: Seq<(Seq<char>, Seq<Action>)>, name: Seq<char>) -> int
    decreases presets.len(),
{
    if presets.len() == 0 || presets[0].0 == name {
        0
    } else {
        1 + found_at(presets.skip(1), name)
    }
}

/// Where a preset is found, that is its place.
proof fn lemma_found_at(presets: Seq<(Seq<char>, Seq<Action>)>, name: Seq<char>, i: int)
    requires
        is_found_at(presets, name, i),
    ensures
        found_at(presets, name) == i,
    decreases presets.len(),
{
    if i > 0 {
        assert(presets[0].0 != name);
        let rest = presets.skip(1);
        assert forall|j: int| 0 <= j < i - 1 implies (#[trigger] rest[j]).0 != name by {
            assert(presets[j + 1].0 != name);
        }
        lemma_found_at(rest, name, i - 1);
    }
}

/// The name of the chosen preset.
pub open spec fn chosen_name(preset: Option<String>) -> Option<Seq<char>> {
    match preset {
        Some(name) => Some(name@),
        None => None,
    }
}

/// Works out what an update asks for, given the current map and the chosen preset.
/// A well-formed map is stored as a well-formed one.
pub fn begin_update(update: ActionsUpdate, map: Option<MapData>, preset: Option<String>) -> (request:
    ActionsRequest)
    ensures
        match update {
            ActionsUpdate::Choose => request is PassOn,
            ActionsUpdate::UpdateMinimap(new_map) => request == (ActionsRequest::Store {
                map: new_map,
                then: AfterStore::KeepChoice,
            }),
            _ => match map {
                None => request is Ignore,
                Some(current) => {
                    let updated = updated_presets(
                        current.presets_view(),
                        chosen_name(preset),
                        update,
                    );
                    &&& updated is None ==> request is Ignore
                    &&& updated matches Some(presets) ==> {
                        &&& request is Store
                        &&& current.only_presets_differ(request->Store_map)
                        &&& request->Store_map.presets_view() == presets
                        &&& match update {
                            ActionsUpdate::Create(name) => request->Store_then matches
                                AfterStore::Choose(next) && next@ == name@,
                            ActionsUpdate::Delete => request->Store_then is ChooseFirst,
                            _ => request->Store_then is KeepChoice,
                        }
                    }
                },
            },
        },
        (map matches Some(current) ==> current.wf()) && (update matches
            ActionsUpdate::UpdateMinimap(new_map) ==> new_map.wf()) ==> (request matches
            ActionsRequest::Store { map: stored, .. } ==> stored.wf()),
{
    proof {
        if map is Some && map->Some_0.wf() {
            law_names_stay_distinct(map->Some_0.presets_view(), chosen_name(preset), update);
        }
    }
    match update {
        ActionsUpdate::Choose => ActionsRequest::PassOn,
        ActionsUpdate::UpdateMinimap(new_map) => ActionsRequest::Store {
            map: new_map,
            then: AfterStore::KeepChoice,
        },
        ActionsUpdate::Create(name) => {
            let mut map = match map {
                Some(map) => map,
                None => {
                    return ActionsRequest::Ignore;
                },
            };
            if find_preset(&map.presets, &name).is_some() {
                return ActionsRequest::Ignore;
            }
            let ghost before = map.presets_view();
            map.presets.push(Preset { name: name.clone(), actions: Vec::new() });
            assert(map.presets_view() =~= before.push((name@, Seq::empty())));
            ActionsRequest::Store { map, then: AfterStore::Choose(name) }
        },
        ActionsUpdate::Delete => {
            let mut map = match map {
                Some(map) => map,
                None => {
                    return ActionsRequest::Ignore;
                },
            };
            let name = match preset {
                Some(name) => name,
                None => {
                    return ActionsRequest::Ignore;
                },
            };
            let index: usize = match find_preset(&map.presets, &name) {
                Some(index) => index,
                None => {
                    return ActionsRequest::Ignore;
                },
            };
            let ghost before = map.presets_view();
            proof {
                lemma_found_at(before, name@, index as int);
            }
            map.presets.remove(index);
            assert(map.presets_view() =~= before.remove(index as int));
            ActionsRequest::Store { map, then: AfterStore::ChooseFirst }
        },
        ActionsUpdate::Update(actions) => {
            let mut map = match map {
                Some(map) => map,
                None => {
                    return ActionsRequest::Ignore;
                },
            };
            let name = match preset {
                Some(name) => name,
                None => {
                    return ActionsRequest::Ignore;
                },
            };
            let ghost before = map.presets_view();
            match find_preset(&map.presets, &name) {
                Some(index) => {
                    proof {
                        lemma_found_at(before, name@, index as int);
                    }
                    map.presets.set(index, Preset { name, actions });
                    assert(map.presets_view() =~= before.update(
                        index as int,
                        (name@, actions@),
                    ));
                },
                None => {
                    map.presets.push(Preset { name, actions });
                    assert(map.presets_view() =~= before.push((name@, actions@)));
                },
            }
            ActionsRequest::Store { map, then: AfterStore::KeepChoice }
        },
    }
}

/// What the panel shows and does once a map was stored.
#[derive(Debug)]
pub struct ActionsChange {
    pub map: MapData,
    /// The newly chosen preset, where the choice changes: it may end up with none.
    pub choice: Option<Option<String>>,
    /// Whether the chosen preset and the map are passed on to the bot.
    pub pass_on: bool,
}

/// Goes on with the reply to a request to store a map. Nothing changes where it was not stored.
pub fn finish_update(then: AfterStore, stored: Option<MapData>) -> (change: Option<ActionsChange>)
    ensures
        change is Some <==> stored is Some,
        change matches Some(change) ==> {
            &&& Some(change.map) == stored
            &&& match then {
                AfterStore::Choose(name) => change.choice == Some(Some(name)) && change.pass_on,
                AfterStore::ChooseFirst => {
                    &&& change.pass_on
                    &&& change.choice matches Some(choice) && match choice {
                        Some(name) => change.map.presets.len() > 0 && name@
                            == change.map.presets_view()[0].0,
                        None => change.map.presets.len() == 0,
                    }
                },
                AfterStore::KeepChoice => change.choice is None && !change.pass_on,
            }
        },
{
    let map = match stored {
        Some(map) => map,
        None => {
            return None;
        },
    };
    match then {
        AfterStore::Choose(name) => Some(
            ActionsChange { map, choice: Some(Some(name)), pass_on: true },
        ),
        AfterStore::ChooseFirst => {
            let first = if map.presets.len() > 0 {
                Some(map.presets[0].name.clone())
            } else {
                None
            };
            Some(ActionsChange { map, choice: Some(first), pass_on: true })
        },
        AfterStore::KeepChoice => Some(ActionsChange { map, choice: None, pass_on: false }),
    }
}

/// Every place at which a preset is found is the one that [`found_at`] gives, and there is one
/// unless the name is missing.
pub proof fn law_found_unless_missing(
    presets: Seq<(Seq<char>, Seq<Action>)>,
    name: Seq<char>,
)
    ensures
        is_missing(presets, name) || is_found_at(presets, name, found_at(presets, name)),
    decreases presets.len(),
{
    if presets.len() > 0 && presets[0].0 != name {
        let rest = presets.skip(1);
        law_found_unless_missing(rest, name);
        if is_missing(rest, name) {
            assert forall|i: int| 0 <= i < presets.len() implies (#[trigger] presets[i]).0
                != name by {
                if i > 0 {
                    assert(rest[i - 1].0 != name);
                }
            }
        } else {
            let k = found_at(rest, name);
            assert(rest[k] == presets[k + 1]);
            assert forall|j: int| 0 <= j < k + 1 implies (#[trigger] presets[j]).0 != name by {
                if j > 0 {
                    assert(rest[j - 1].0 != name);
                }
            }
        }
    }
}

/// No update makes two presets share a name.
pub proof fn law_names_stay_distinct(
    presets: Seq<(Seq<char>, Seq<Action>)>,
    chosen: Option<Seq<char>>,
    update: ActionsUpdate,
)
    requires
        distinct_names(presets),
    ensures
        updated_presets(presets, chosen, update) matches Some(updated) ==> distinct_names(updated),
{
    if let Some(name) = chosen {
        law_found_unless_missing(presets, name);
    }
}

/// Creating a preset and deleting it again restores the presets.
pub proof fn law_create_then_delete(presets: Seq<(Seq<char>, Seq<Action>)>, name: String)
    requires
        is_missing(presets, name@),
    ensures
        ({
            let created = updated_presets(presets, None, ActionsUpdate::Create(name));
            &&& created is Some
            &&& updated_presets(created->Some_0, Some(name@), ActionsUpdate::Delete) == Some(presets)
        }),
{
    let created = presets.push((name@, Seq::<Action>::empty()));
    assert(created[presets.len() as int].0 == name@);
    assert(is_found_at(created, name@, presets.len() as int)) by {
        assert forall|j: int| 0 <= j < presets.len() implies (#[trigger] created[j]).0 != name@ by {
            assert(created[j] == presets[j]);
        }
    }
    lemma_found_at(created, name@, presets.len() as int);
    assert(created.remove(presets.len() as int) =~= presets);
}

/// After an update of the chosen preset its actions are the new ones, and every other preset is as
/// it was.
pub proof fn law_update_changes_one_preset(
    presets: Seq<(Seq<char>, Seq<Action>)>,
    name: Seq<char>,
    actions: Vec<Action>,
)
    ensures
        ({
            let updated = updated_presets(presets, Some(name), ActionsUpdate::Update(actions));
            &&& updated is Some
            &&& is_found_at(updated->Some_0, name, found_at(updated->Some_0, name))
            &&& updated->Some_0[found_at(updated->Some_0, name)].1 == actions@
            &&& forall|i: int|
                0 <= i < presets.len() && (#[trigger] presets[i]).0 != name
                    ==> updated->Some_0[i] == presets[i]
        }),
{
    law_found_unless_missing(presets, name);
    let updated = updated_presets(presets, Some(name), ActionsUpdate::Update(actions))->Some_0;
    let at = if is_missing(presets, name) {
        presets.len() as int
    } else {
        found_at(presets, name)
    };
    assert(updated[at] == (name, actions@));
    assert forall|j: int| 0 <= j < at implies (#[trigger] updated[j]).0 != name by {
        assert(updated[j] == presets[j]);
    }
    lemma_found_at(updated, name, at);
}

/// The preset at `i` is the first that is called `name`.
pub open spec fn is_first_called(presets: Seq<Preset>, name: Seq<char>, i: int) -> bool {
    &&& 0 <= i < presets.len()
    &&& presets[i].name@ == name
    &&& forall|j: int| 0 <= j < i ==> (#[trigger] presets[j]).name@ != name
}

pub open spec fn none_called(presets: Seq<Preset>, name: Seq<char>) -> bool {
    forall|j: int| 0 <= j < presets.len() ==> (#[trigger] presets[j]).name@ != name
}

/// The name and the actions are the same.
pub open spec fn same_preset(a: Preset, b: Preset) -> bool {
    a.name@ == b.name@ && a.actions@ == b.actions@
}

/// Nothing of the map but its presets changed.
pub open spec fn rest_of_map_is_kept(before: MapData, after: MapData) -> bool {
    &&& after.id == before.id
    &&& after.name == before.name
    &&& after.paths_id_index == before.paths_id_index
    &&& after.platforms == before.platforms
    &&& after.rune_platforms_pathing == before.rune_platforms_pathing
    &&& after.rune_platforms_pathing_up_jump_only == before.rune_platforms_pathing_up_jump_only
    &&& after.auto_mob_platforms_pathing == before.auto_mob_platforms_pathing
    &&& after.auto_mob_platforms_pathing_up_jump_only
        == before.auto_mob_platforms_pathing_up_jump_only
    &&& after.auto_mob_platforms_bound == before.auto_mob_platforms_bound
}

/// A preset is found by its name in what is viewed of the presets as it is in the presets.
proof fn lemma_called(presets: Seq<Preset>, name: Seq<char>)
    ensures
        is_missing(presets_view(presets), name) <==> none_called(presets, name),
        forall|i: int|
            #![trigger is_found_at(presets_view(presets), name, i)]
            #![trigger is_first_called(presets, name, i)]
            is_found_at(presets_view(presets), name, i) <==> is_first_called(presets, name, i),
{
    let view = presets_view(presets);
    assert forall|j: int| 0 <= j < presets.len() implies (#[trigger] presets[j]).name@
        == view[j].0 by {}
    if is_missing(view, name) {
        assert forall|j: int| 0 <= j < presets.len() implies (#[trigger] presets[j]).name@
            != name by {
            assert(view[j].0 != name);
        }
    }
    if none_called(presets, name) {
        assert forall|j: int| 0 <= j < view.len() implies (#[trigger] view[j]).0 != name by {
            assert(presets[j].name@ != name);
        }
    }
    assert forall|i: int|
        #![trigger is_found_at(presets_view(presets), name, i)]
        #![trigger is_first_called(presets, name, i)]
        is_found_at(view, name, i) <==> is_first_called(presets, name, i) by {
        if is_found_at(view, name, i) {
            assert forall|j: int| 0 <= j < i implies (#[trigger] presets[j]).name@ != name by {
                assert(view[j].0 != name);
            }
        }
        if is_first_called(presets, name, i) {
            assert forall|j: int| 0 <= j < i implies (#[trigger] view[j]).0 != name by {
                assert(presets[j].name@ != name);
            }
        }
    }
}

/// The first preset of a name is found, and none only where no preset has that name.
pub proof fn law_first_is_found(presets: &Vec<Preset>, name: &String, index: Option<usize>)
    requires
        call_ensures(find_preset, (presets, name), index),
    ensures
        index matches Some(i) ==> is_first_called(presets@, name@, i as int),
        index is None ==> none_called(presets@, name@),
{
    lemma_called(presets@, name@);
}

/// The names stand as the presets do, and choosing one by its place gives the name that stands there.
pub proof fn law_names_are_chosen_from(
    map: &MapData,
    names: Vec<String>,
    none: Vec<String>,
    index: usize,
    chosen: String,
)
    requires
        call_ensures(preset_names, (Some(map),), names),
        call_ensures(preset_names, (None,), none),
        index < map.presets.len(),
        call_ensures(select_preset, (map, index), chosen),
    ensures
        none.len() == 0,
        names.len() == map.presets.len(),
        forall|i: int|
            0 <= i < names.len() ==> (#[trigger] names@[i])@ == map.presets@[i].name@,
        chosen@ == map.presets@[index as int].name@,
        chosen@ == names@[index as int]@,
{
    assert(names@[index as int]@ == map.presets_view()[index as int].0);
}

/// What is shown is the first preset of the chosen name: its actions, and its place. Without a map,
/// without a choice or without such a preset nothing is shown.
pub proof fn law_chosen_preset_is_shown(
    map: Option<&MapData>,
    preset: Option<&String>,
    actions: Vec<Action>,
    index: Option<usize>,
)
    requires
        call_ensures(preset_actions, (map, preset), actions),
        call_ensures(preset_index, (map, preset), index),
    ensures
        map is None || preset is None ==> actions.len() == 0 && index is None,
        map is Some && preset is Some ==> {
            let presets = map->Some_0.presets@;
            let name = preset->Some_0@;
            &&& none_called(presets, name) ==> actions.len() == 0 && index is None
            &&& !none_called(presets, name) ==> {
                &&& index is Some
                &&& is_first_called(presets, name, index->Some_0 as int)
                &&& actions@ == presets[index->Some_0 as int].actions@
            }
        },
{
    if map is Some && preset is Some {
        let presets = map->Some_0.presets@;
        let name = preset->Some_0@;
        lemma_called(presets, name);
        if let Some(i) = index {
            let view = presets_view(presets);
            assert(is_found_at(view, name, i as int));
            assert(view[i as int] == preset_view(presets[i as int]));
        }
    }
}

/// Choosing a preset passes it on, and an edited map is stored as it is, without another choice.
pub proof fn law_choosing_and_editing(
    map: Option<MapData>,
    preset: Option<String>,
    chosen: ActionsRequest,
    new_map: MapData,
    edited: ActionsRequest,
)
    requires
        call_ensures(begin_update, (ActionsUpdate::Choose, map, preset), chosen),
        call_ensures(begin_update, (ActionsUpdate::UpdateMinimap(new_map), map, preset), edited),
    ensures
        chosen is PassOn,
        edited matches ActionsRequest::Store { map: stored, then } && stored == new_map && then
            is KeepChoice,
{
}

/// A preset is created where there is none of its name: behind the others, without actions, and
/// chosen once it is stored.
pub proof fn law_preset_is_created(
    map: Option<MapData>,
    preset: Option<String>,
    name: String,
    request: ActionsRequest,
)
    requires
        call_ensures(begin_update, (ActionsUpdate::Create(name), map, preset), request),
    ensures
        map is None ==> request is Ignore,
        map matches Some(map) ==> {
            &&& !none_called(map.presets@, name@) ==> request is Ignore
            &&& none_called(map.presets@, name@) ==> (request matches ActionsRequest::Store {
                map: stored,
                then,
            } && {
                &&& then matches AfterStore::Choose(next) && next@ == name@
                &&& stored.presets.len() == map.presets.len() + 1
                &&& forall|i: int|
                    0 <= i < map.presets.len() ==> same_preset(
                        stored.presets@[i],
                        #[trigger] map.presets@[i],
                    )
                &&& stored.presets@.last().name@ == name@
                &&& stored.presets@.last().actions.len() == 0
                &&& rest_of_map_is_kept(map, stored)
            })
        },
{
    if let Some(map) = map {
        lemma_called(map.presets@, name@);
        if let ActionsRequest::Store { map: stored, .. } = request {
            let n = map.presets.len() as int;
            assert(stored.presets_view().len() == stored.presets.len());
            assert(stored.presets_view()[n] == preset_view(stored.presets@[n]));
            assert forall|i: int| 0 <= i < map.presets.len() implies same_preset(
                stored.presets@[i],
                #[trigger] map.presets@[i],
            ) by {
                assert(stored.presets_view()[i] == preset_view(stored.presets@[i]));
                assert(map.presets_view()[i] == preset_view(map.presets@[i]));
            }
        }
    }
}

/// Deleting takes out the first preset of the chosen name, leaves the others in their order, and has
/// the first of them chosen.
pub proof fn law_preset_is_deleted(
    map: Option<MapData>,
    preset: Option<String>,
    request: ActionsRequest,
)
    requires
        call_ensures(begin_update, (ActionsUpdate::Delete, map, preset), request),
    ensures
        map is None || preset is None ==> request is Ignore,
        map is Some && preset is Some ==> {
            let presets = map->Some_0.presets@;
            let name = preset->Some_0@;
            &&& none_called(presets, name) ==> request is Ignore
            &&& forall|at: int| #[trigger]
                is_first_called(presets, name, at) ==> (request matches ActionsRequest::Store {
                    map: stored,
                    then,
                } && {
                    &&& then is ChooseFirst
                    &&& stored.presets.len() + 1 == presets.len()
                    &&& forall|i: int|
                        0 <= i < at ==> same_preset(stored.presets@[i], #[trigger] presets[i])
                    &&& forall|i: int|
                        at < i < presets.len() ==> same_preset(
                            stored.presets@[i - 1],
                            #[trigger] presets[i],
                        )
                    &&& rest_of_map_is_kept(map->Some_0, stored)
                })
        },
{
    if map is Some && preset is Some {
        let current = map->Some_0;
        let presets = current.presets@;
        let name = preset->Some_0@;
        lemma_called(presets, name);
        let view = current.presets_view();
        assert forall|at: int| #[trigger] is_first_called(presets, name, at) implies (
        request matches ActionsRequest::Store { map: stored, then } && {
            &&& then is ChooseFirst
            &&& stored.presets.len() + 1 == presets.len()
            &&& forall|i: int|
                0 <= i < at ==> same_preset(stored.presets@[i], #[trigger] presets[i])
            &&& forall|i: int|
                at < i < presets.len() ==> same_preset(
                    stored.presets@[i - 1],
                    #[trigger] presets[i],
                )
            &&& rest_of_map_is_kept(current, stored)
        }) by {
            assert(is_found_at(view, name, at));
            assert(!is_missing(view, name)) by {
                assert(view[at].0 == name);
            }
            lemma_found_at(view, name, at);
            let stored = request->Store_map;
            assert(stored.presets_view().len() == stored.presets.len());
            assert forall|i: int| 0 <= i < at implies same_preset(
                stored.presets@[i],
                #[trigger] presets[i],
            ) by {
                assert(stored.presets_view()[i] == preset_view(stored.presets@[i]));
                assert(view[i] == preset_view(presets[i]));
            }
            assert forall|i: int| at < i < presets.len() implies same_preset(
                stored.presets@[i - 1],
                #[trigger] presets[i],
            ) by {
                assert(stored.presets_view()[i - 1] == preset_view(stored.presets@[i - 1]));
                assert(view[i] == preset_view(presets[i]));
            }
        }
    }
}

/// New actions go to the first preset of the chosen name, or to a new one behind the others. Every
/// other preset is as it was, and the choice stays.
pub proof fn law_preset_is_updated(
    map: Option<MapData>,
    preset: Option<String>,
    actions: Vec<Action>,
    request: ActionsRequest,
)
    requires
        call_ensures(begin_update, (ActionsUpdate::Update(actions), map, preset), request),
    ensures
        map is None || preset is None ==> request is Ignore,
        map is Some && preset is Some ==> (request matches ActionsRequest::Store {
            map: stored,
            then,
        } && {
            let presets = map->Some_0.presets@;
            let name = preset->Some_0@;
            &&& then is KeepChoice
            &&& rest_of_map_is_kept(map->Some_0, stored)
            &&& none_called(presets, name) ==> {
                &&& stored.presets.len() == presets.len() + 1
                &&& stored.presets@.last().name@ == name
                &&& stored.presets@.last().actions@ == actions@
            }
            &&& !none_called(presets, name) ==> stored.presets.len() == presets.len()
            &&& forall|i: int|
                0 <= i < presets.len() && !is_first_called(presets, name, i) ==> same_preset(
                    stored.presets@[i],
                    #[trigger] presets[i],
                )
            &&& forall|i: int| #[trigger]
                is_first_called(presets, name, i) ==> stored.presets@[i].name@ == name
                    && stored.presets@[i].actions@ == actions@
        }),
{
    if map is Some && preset is Some {
        let current = map->Some_0;
        let presets = current.presets@;
        let name = preset->Some_0@;
        let stored = request->Store_map;
        lemma_called(presets, name);
        law_found_unless_missing(current.presets_view(), name);
        let view = current.presets_view();
        let at = found_at(view, name);
        assert(stored.presets_view().len() == stored.presets.len());
        if is_missing(view, name) {
            let n = presets.len() as int;
            assert(stored.presets_view()[n] == preset_view(stored.presets@[n]));
            assert forall|i: int| !is_first_called(presets, name, i) by {
                if is_first_called(presets, name, i) {
                    assert(presets[i].name@ != name);
                }
            }
        } else {
            assert(is_first_called(presets, name, at));
            assert(stored.presets_view()[at] == preset_view(stored.presets@[at]));
        }
        assert forall|i: int|
            0 <= i < presets.len() && !is_first_called(presets, name, i) implies same_preset(
            stored.presets@[i],
            #[trigger] presets[i],
        ) by {
            assert(stored.presets_view()[i] == preset_view(stored.presets@[i]));
            assert(view[i] == preset_view(presets[i]));
        }
        assert forall|i: int| #[trigger] is_first_called(presets, name, i) implies stored.presets@[i].name@
            == name && stored.presets@[i].actions@ == actions@ by {
            assert(is_found_at(view, name, i));
            lemma_found_at(view, name, i);
        }
    }
}

/// Nothing changes until the map was stored. Then the panel shows what was stored; the choice changes
/// with the presets, and what is newly chosen is passed on.
pub proof fn law_stored_map_is_shown(
    then: AfterStore,
    refused: Option<ActionsChange>,
    stored: MapData,
    change: Option<ActionsChange>,
)
    requires
        call_ensures(finish_update, (then, None), refused),
        call_ensures(finish_update, (then, Some(stored)), change),
    ensures
        refused is None,
        change matches Some(change) && {
            &&& change.map == stored
            &&& then is KeepChoice ==> change.choice is None && !change.pass_on
            &&& then !is KeepChoice ==> change.choice is Some && change.pass_on
            &&& then matches AfterStore::Choose(name) ==> (change.choice->Some_0 matches Some(chosen)
                && chosen@ == name@)
            &&& then is ChooseFirst && stored.presets.len() == 0 ==> change.choice->Some_0 is None
            &&& then is ChooseFirst && stored.presets.len() > 0 ==> (
            change.choice->Some_0 matches Some(chosen) && chosen@ == stored.presets@[0].name@)
        },
{
    if stored.presets.len() > 0 {
        assert(stored.presets_view()[0] == preset_view(stored.presets@[0]));
    }
}

/// Where no two presets share a name, none do in what is stored.
pub proof fn law_stored_names_are_distinct(
    update: ActionsUpdate,
    map: MapData,
    preset: Option<String>,
    request: ActionsRequest,
    i: int,
    j: int,
)
    requires
        call_ensures(begin_update, (update, Some(map), preset), request),
        forall|i: int, j: int|
            0 <= i < j < map.presets.len() ==> (#[trigger] map.presets@[i]).name@ != (
            #[trigger] map.presets@[j]).name@,
        update !is UpdateMinimap,
        request is Store,
        0 <= i < j < request->Store_map.presets.len(),
    ensures
        request->Store_map.presets@[i].name@ != request->Store_map.presets@[j].name@,
{
    let view = map.presets_view();
    assert forall|i: int, j: int| 0 <= i < j < view.len() implies (#[trigger] view[i]).0 != (
    #[trigger] view[j]).0 by {
        assert(map.presets@[i].name@ != map.presets@[j].name@);
    }
    assert(map.wf());
    let stored = request->Store_map;
    assert(stored.wf());
    assert(stored.presets_view()[i].0 != stored.presets_view()[j].0);
}

} // verus!

//! Editing the platforms of a map.

use vstd::prelude::*;

use crate::models::{KeyBinding, KeyBindingConfiguration, MapData, Platform, Settings};
use crate::text::{signed_decimal, to_signed_decimal};

verus! {

impl Default for Platform {
    fn default() -> (platform: Platform)
        ensures
            platform == (Platform { x_start: 0, x_end: 0, y: 0 }),
    {
        Platform { x_start: 0, x_end: 0, y: 0 }
    }
}

impl Platform {
    /// There is room to the right of the start.
    pub open spec fn can_extend(self) -> bool {
        self.x_start < i32::MAX
    }

    /// The platform with an end to the right of its start.
    pub open spec fn with_valid_end(self) -> Platform {
        if self.x_end <= self.x_start {
            Platform { x_end: (self.x_start + 1) as i32, ..self }
        } else {
            self
        }
    }
}

/// Moves the end of `platform` to the right of its start where it is not.
pub fn update_valid_platform_end(platform: &mut Platform)
    requires
        old(platform).can_extend(),
    ensures
        *final(platform) == old(platform).with_valid_end(),
{
    platform.x_end = if platform.x_end <= platform.x_start {
        platform.x_start + 1
    } else {
        platform.x_end
    };
}

/// Whether `key` is the bound one and its binding is switched on.
pub open spec fn pressed(binding: KeyBindingConfiguration, key: KeyBinding) -> bool {
    binding.enabled && binding.key == key
}

/// A platform that is being recorded with keys while the player walks along it.
#[derive(Debug, Clone, Copy, PartialEq, Eq, Structural)]
pub struct PlatformRecorder {
    pub platform: Platform,
}

/// What a key press did to a recording.
pub struct Recorded {
    pub platform: Platform,
    /// The platform to add to the map, if one is finished.
    pub add: Option<Platform>,
}

/// The start key and the end key take the position of the player, the add key finishes the
/// platform. The first binding that fits counts.
pub open spec fn recorded(
    platform: Platform,
    settings: Settings,
    position: (i32, i32),
    key: KeyBinding,
) -> Recorded {
    if pressed(settings.platform_start_key, key) {
        let moved = (Platform { x_start: position.0, ..platform }).with_valid_end();
        Recorded { platform: Platform { y: position.1, ..moved }, add: None }
    } else if pressed(settings.platform_end_key, key) {
        let moved = (Platform { x_end: position.0, ..platform }).with_valid_end();
        Recorded { platform: Platform { y: position.1, ..moved }, add: None }
    } else if pressed(settings.platform_add_key, key) {
        let valid = platform.with_valid_end();
        Recorded { platform: valid, add: Some(valid) }
    } else {
        Recorded { platform, add: None }
    }
}

impl PlatformRecorder {
    /// A recorder before any key was pressed.
    pub fn new() -> (recorder: PlatformRecorder)
        ensures
            recorder.platform == (Platform { x_start: 0, x_end: 0, y: 0 }),
            recorder.platform.can_extend(),
    {
        PlatformRecorder { platform: Platform::default() }
    }

    /// A key was pressed while the player stood at `position`. Returns the platform to add, if that
    /// finished one. Without settings no key is bound.
    pub fn press(&mut self, settings: Option<&Settings>, position: (i32, i32), key: KeyBinding) -> (
    add: Option<Platform>)
        requires
            old(self).platform.can_extend(),
            settings matches Some(settings) ==> pressed(settings.platform_start_key, key)
                ==> position.0 < i32::MAX,
        ensures
            final(self).platform.can_extend(),
            match settings {
                Some(settings) => {
                    let next = recorded(old(self).platform, *settings, position, key);
                    final(self).platform == next.platform && add == next.add
                },
                None => *final(self) == *old(self) && add is None,
            },
    {
        let settings = match settings {
            Some(settings) => settings,
            None => {
                return None;
            },
        };
        if settings.platform_start_key.enabled && settings.platform_start_key.key == key {
            self.platform.x_start = position.0;
            update_valid_platform_end(&mut self.platform);
            self.platform.y = position.1;
            return None;
        }
        if settings.platform_end_key.enabled && settings.platform_end_key.key == key {
            self.platform.x_end = position.0;
            update_valid_platform_end(&mut self.platform);
            self.platform.y = position.1;
            return None;
        }
        if settings.platform_add_key.enabled && settings.platform_add_key.key == key {
            update_valid_platform_end(&mut self.platform);
            return Some(self.platform);
        }
        None
    }
}

/// `map` with other platforms.
pub open spec fn only_platforms_differ(map: MapData, other: MapData) -> bool {
    other == (MapData { platforms: other.platforms, ..map })
}

/// Adds a platform to `map`.
pub fn add_platform(map: MapData, platform: Platform) -> (edited: MapData)
    ensures
        only_platforms_differ(map, edited),
        edited.platforms@ == map.platforms@.push(platform),
{
    let mut edited = map;
    edited.platforms.push(platform);
    edited
}

/// Replaces the platform at `index`, if there is one.
pub fn edit_platform(map: MapData, new_platform: Platform, index: usize) -> (edited: Option<MapData>)
    ensures
        edited is Some <==> index < map.platforms.len(),
        edited matches Some(edited) ==> only_platforms_differ(map, edited) && edited.platforms@
            == map.platforms@.update(index as int, new_platform),
{
    if index >= map.platforms.len() {
        return None;
    }
    let mut edited = map;
    edited.platforms.set(index, new_platform);
    Some(edited)
}

/// Deletes the platform at `index`.
pub fn delete_platform(map: MapData, index: usize) -> (edited: MapData)
    requires
        index < map.platforms.len(),
    ensures
        only_platforms_differ(map, edited),
        edited.platforms@ == map.platforms@.remove(index as int),
{
    let mut edited = map;
    edited.platforms.remove(index);
    edited
}

/// A switch of the platforms section.
#[derive(Debug, Clone, Copy, PartialEq, Eq, Structural)]
pub enum PlatformsSwitch {
    RunePathing,
    RuneUpJumpOnly,
    AutoMobbingPathing,
    AutoMobbingUpJumpOnly,
    BoundByPlatforms,
}

/// `map` with one switch set.
pub open spec fn switched(map: MapData, switch: PlatformsSwitch, on: bool) -> MapData {
    match switch {
        PlatformsSwitch::RunePathing => MapData { rune_platforms_pathing: on, ..map },
        PlatformsSwitch::RuneUpJumpOnly => MapData {
            rune_platforms_pathing_up_jump_only: on,
            ..map
        },
        PlatformsSwitch::AutoMobbingPathing => MapData { auto_mob_platforms_pathing: on, ..map },
        PlatformsSwitch::AutoMobbingUpJumpOnly => MapData {
            auto_mob_platforms_pathing_up_jump_only: on,
            ..map
        },
        PlatformsSwitch::BoundByPlatforms => MapData { auto_mob_platforms_bound: on, ..map },
    }
}

/// Sets one switch of `map`.
pub fn set_switch(map: MapData, switch: PlatformsSwitch, on: bool) -> (edited: MapData)
    ensures
        edited == switched(map, switch, on),
{
    match switch {
        PlatformsSwitch::RunePathing => MapData { rune_platforms_pathing: on, ..map },
        PlatformsSwitch::RuneUpJumpOnly => MapData {
            rune_platforms_pathing_up_jump_only: on,
            ..map
        },
        PlatformsSwitch::AutoMobbingPathing => MapData { auto_mob_platforms_pathing: on, ..map },
        PlatformsSwitch::AutoMobbingUpJumpOnly => MapData {
            auto_mob_platforms_pathing_up_jump_only: on,
            ..map
        },
        PlatformsSwitch::BoundByPlatforms => MapData { auto_mob_platforms_bound: on, ..map },
    }
}

/// Whether a switch is disabled: all are where the section is, and restricting a way of pathing is
/// where that pathing is off.
pub fn is_switch_disabled(map: &MapData, switch: PlatformsSwitch, section_disabled: bool) -> (
disabled: bool)
    ensures
        disabled == (section_disabled || match switch {
            PlatformsSwitch::RuneUpJumpOnly => !map.rune_platforms_pathing,
            PlatformsSwitch::AutoMobbingUpJumpOnly => !map.auto_mob_platforms_pathing,
            _ => false,
        }),
{
    match switch {
        PlatformsSwitch::RuneUpJumpOnly => section_disabled || !map.rune_platforms_pathing,
        PlatformsSwitch::AutoMobbingUpJumpOnly => section_disabled
            || !map.auto_mob_platforms_pathing,
        _ => section_disabled,
    }
}

/// What the popup over the platforms holds.
#[derive(Debug, Clone, Copy, PartialEq, Eq, Structural)]
pub enum PopupContent {
    Closed,
    Edit { platform: Platform, index: usize },
    Add,
}

/// The popup in which a platform is added or edited.
#[derive(Debug, Clone, Copy, PartialEq, Eq, Structural)]
pub struct PlatformsPopup {
    pub content: PopupContent,
    pub open: bool,
}

impl PlatformsPopup {
    /// The popup before anything was clicked.
    pub fn closed() -> (popup: PlatformsPopup)
        ensures
            popup == (PlatformsPopup { content: PopupContent::Closed, open: false }),
    {
        PlatformsPopup { content: PopupContent::Closed, open: false }
    }

    /// The popup opens or closes by itself.
    pub fn set_open(&mut self, open: bool)
        ensures
            *final(self) == (PlatformsPopup { open, ..*old(self) }),
    {
        self.open = open;
    }

    pub fn click_add(&mut self)
        ensures
            *final(self) == (PlatformsPopup { content: PopupContent::Add, ..*old(self) }),
    {
        self.content = PopupContent::Add;
    }

    /// A click on a platform of the list.
    pub fn click_item(&mut self, platform: Platform, index: usize)
        ensures
            *final(self) == (PlatformsPopup {
                content: PopupContent::Edit { platform, index },
                ..*old(self)
            }),
    {
        self.content = PopupContent::Edit { platform, index };
    }

    pub fn cancel(&mut self)
        ensures
            *final(self) == (PlatformsPopup { open: false, ..*old(self) }),
    {
        self.open = false;
    }

    /// Whether an existing platform is edited.
    pub fn modifying(&self) -> (modifying: bool)
        ensures
            modifying == self.content is Edit,
    {
        matches!(self.content, PopupContent::Edit { .. })
    }

    /// The platform that the form starts with.
    pub fn value(&self) -> (platform: Platform)
        ensures
            platform == match self.content {
                PopupContent::Edit { platform, .. } => platform,
                _ => Platform { x_start: 0, x_end: 0, y: 0 },
            },
    {
        match self.content {
            PopupContent::Edit { platform, .. } => platform,
            _ => Platform::default(),
        }
    }

    /// Submits the form: adds or replaces the platform, with a valid end, and closes the popup.
    /// Returns the edited map, unless the platform to replace is gone.
    pub fn submit(&mut self, map: MapData, platform: Platform) -> (edited: Option<MapData>)
        requires
            old(self).content !is Closed,
            platform.can_extend(),
        ensures
            *final(self) == (PlatformsPopup { open: false, ..*old(self) }),
            edited is None <==> (old(self).content matches PopupContent::Edit { index, .. } && index
                >= map.platforms.len()),
            edited matches Some(edited) ==> {
                &&& only_platforms_differ(map, edited)
                &&& edited.platforms@ == match old(self).content {
                    PopupContent::Edit { index, .. } => map.platforms@.update(
                        index as int,
                        platform.with_valid_end(),
                    ),
                    _ => map.platforms@.push(platform.with_valid_end()),
                }
            },
    {
        let mut platform = platform;
        update_valid_platform_end(&mut platform);
        let edited = match self.content {
            PopupContent::Edit { index, .. } => edit_platform(map, platform, index),
            _ => Some(add_platform(map, platform)),
        };
        self.open = false;
        edited
    }
}

/// `X / <start> - <end>`.
pub open spec fn x_text(platform: Platform) -> Seq<char> {
    "X / "@ + signed_decimal(platform.x_start as int) + " - "@ + signed_decimal(
        platform.x_end as int,
    )
}

/// `Y / <y>`.
pub open spec fn y_text(platform: Platform) -> Seq<char> {
    "Y / "@ + signed_decimal(platform.y as int)
}

/// The two texts that the list shows of a platform.
pub fn item_texts(platform: &Platform) -> (texts: (String, String))
    ensures
        texts.0@ == x_text(*platform),
        texts.1@ == y_text(*platform),
{
    let mut x = String::from_str("X / ");
    x.append(to_signed_decimal(platform.x_start).as_str());
    x.append(" - ");
    x.append(to_signed_decimal(platform.x_end).as_str());
    let mut y = String::from_str("Y / ");
    y.append(to_signed_decimal(platform.y).as_str());
    (x, y)
}

/// Every platform that a recording adds ends to the right of its start, whatever was pressed before.
pub proof fn law_recorded_platforms_are_valid(
    platform: Platform,
    settings: Settings,
    position: (i32, i32),
    key: KeyBinding,
)
    requires
        platform.can_extend(),
    ensures
        recorded(platform, settings, position, key).add matches Some(added) ==> added.x_start
            < added.x_end && added == recorded(platform, settings, position, key).platform,
{
}

/// Making an end valid is done once, moves nothing that is valid, and keeps start and height.
pub proof fn law_valid_end(platform: Platform)
    requires
        platform.can_extend(),
    ensures
        platform.with_valid_end().x_start < platform.with_valid_end().x_end,
        platform.with_valid_end().with_valid_end() == platform.with_valid_end(),
        platform.x_start < platform.x_end ==> platform.with_valid_end() == platform,
        platform.with_valid_end().x_start == platform.x_start,
        platform.with_valid_end().y == platform.y,
{
}

/// An end that is not to the right of the start moves next to it; nothing else moves.
pub proof fn law_end_is_made_valid(platform: &mut Platform)
    requires
        old(platform).x_start < i32::MAX,
        call_ensures(update_valid_platform_end, (platform,), ()),
    ensures
        final(platform).x_start == old(platform).x_start,
        final(platform).y == old(platform).y,
        old(platform).x_end > old(platform).x_start ==> final(platform).x_end == old(
            platform,
        ).x_end,
        old(platform).x_end <= old(platform).x_start ==> final(platform).x_end == old(
            platform,
        ).x_start + 1,
{
}

/// A new recording, like a new form, starts at the origin.
pub proof fn law_new_platform(platform: Platform, recorder: PlatformRecorder)
    requires
        call_ensures(Platform::default, (), platform),
        call_ensures(PlatformRecorder::new, (), recorder),
    ensures
        platform.x_start == 0 && platform.x_end == 0 && platform.y == 0,
        recorder.platform == platform,
{
}

/// A key of which no binding is switched on does nothing, and neither does any key without settings.
pub proof fn law_unbound_key(
    recorder: &mut PlatformRecorder,
    settings: Option<&Settings>,
    position: (i32, i32),
    key: KeyBinding,
    add: Option<Platform>,
)
    requires
        call_ensures(PlatformRecorder::press, (recorder, settings, position, key), add),
        settings matches Some(settings) ==> {
            &&& !settings.platform_start_key.enabled || settings.platform_start_key.key != key
            &&& !settings.platform_end_key.enabled || settings.platform_end_key.key != key
            &&& !settings.platform_add_key.enabled || settings.platform_add_key.key != key
        },
    ensures
        add is None,
        final(recorder).platform == old(recorder).platform,
{
}

/// The start key lets the platform start where the player stands, at the player's height. An end that
/// would then be left behind moves next to the start.
pub proof fn law_start_key(
    recorder: &mut PlatformRecorder,
    settings: &Settings,
    position: (i32, i32),
    add: Option<Platform>,
)
    requires
        settings.platform_start_key.enabled,
        position.0 < i32::MAX,
        call_ensures(
            PlatformRecorder::press,
            (recorder, Some(settings), position, settings.platform_start_key.key),
            add,
        ),
    ensures
        add is None,
        final(recorder).platform.x_start == position.0,
        final(recorder).platform.y == position.1,
        old(recorder).platform.x_end > position.0 ==> final(recorder).platform.x_end == old(
            recorder,
        ).platform.x_end,
        old(recorder).platform.x_end <= position.0 ==> final(recorder).platform.x_end == position.0
            + 1,
{
}

/// The end key lets the platform end where the player stands, at the player's height, but always to
/// the right of its start.
pub proof fn law_end_key(
    recorder: &mut PlatformRecorder,
    settings: &Settings,
    position: (i32, i32),
    add: Option<Platform>,
)
    requires
        old(recorder).platform.x_start < i32::MAX,
        settings.platform_end_key.enabled,
        !settings.platform_start_key.enabled || settings.platform_start_key.key
            != settings.platform_end_key.key,
        call_ensures(
            PlatformRecorder::press,
            (recorder, Some(settings), position, settings.platform_end_key.key),
            add,
        ),
    ensures
        add is None,
        final(recorder).platform.x_start == old(recorder).platform.x_start,
        final(recorder).platform.y == position.1,
        position.0 > old(recorder).platform.x_start ==> final(recorder).platform.x_end
            == position.0,
        position.0 <= old(recorder).platform.x_start ==> final(recorder).platform.x_end == old(
            recorder,
        ).platform.x_start + 1,
{
}

/// The add key adds the platform as it was recorded, wherever the player stands by then, and the next
/// recording goes on from it.
pub proof fn law_add_key(
    recorder: &mut PlatformRecorder,
    settings: &Settings,
    position: (i32, i32),
    add: Option<Platform>,
)
    requires
        old(recorder).platform.x_start < i32::MAX,
        settings.platform_add_key.enabled,
        !settings.platform_start_key.enabled || settings.platform_start_key.key
            != settings.platform_add_key.key,
        !settings.platform_end_key.enabled || settings.platform_end_key.key
            != settings.platform_add_key.key,
        call_ensures(
            PlatformRecorder::press,
            (recorder, Some(settings), position, settings.platform_add_key.key),
            add,
        ),
    ensures
        add == Some(final(recorder).platform),
        final(recorder).platform.x_start == old(recorder).platform.x_start,
        final(recorder).platform.y == old(recorder).platform.y,
        old(recorder).platform.x_end > old(recorder).platform.x_start ==> final(recorder).platform.x_end == old(recorder).platform.x_end,
        old(recorder).platform.x_end <= old(recorder).platform.x_start ==> final(recorder).platform.x_end == old(recorder).platform.x_start + 1,
{
}

/// Nothing of the map but its platforms changed.
pub open spec fn rest_of_map_is_kept(before: MapData, after: MapData) -> bool {
    &&& after.id == before.id
    &&& after.name == before.name
    &&& after.paths_id_index == before.paths_id_index
    &&& after.presets == before.presets
    &&& after.rune_platforms_pathing == before.rune_platforms_pathing
    &&& after.rune_platforms_pathing_up_jump_only == before.rune_platforms_pathing_up_jump_only
    &&& after.auto_mob_platforms_pathing == before.auto_mob_platforms_pathing
    &&& after.auto_mob_platforms_pathing_up_jump_only
        == before.auto_mob_platforms_pathing_up_jump_only
    &&& after.auto_mob_platforms_bound == before.auto_mob_platforms_bound
}

/// A platform that is added is the last one, behind all that were there. Deleting the last one again
/// restores the platforms.
pub proof fn law_platform_is_added(
    map: MapData,
    platform: Platform,
    added: MapData,
    index: usize,
    deleted: MapData,
)
    requires
        call_ensures(add_platform, (map, platform), added),
        index + 1 == added.platforms.len(),
        call_ensures(delete_platform, (added, index), deleted),
    ensures
        added.platforms.len() == map.platforms.len() + 1,
        added.platforms@.last() == platform,
        forall|i: int|
            0 <= i < map.platforms.len() ==> added.platforms@[i] == #[trigger] map.platforms@[i],
        deleted.platforms@ == map.platforms@,
        rest_of_map_is_kept(map, added),
        rest_of_map_is_kept(map, deleted),
{
}

/// Only a platform that is there can be edited, and only that one changes.
pub proof fn law_platform_is_edited(
    map: MapData,
    platform: Platform,
    index: usize,
    edited: Option<MapData>,
)
    requires
        call_ensures(edit_platform, (map, platform, index), edited),
    ensures
        edited is Some <==> index < map.platforms.len(),
        edited matches Some(edited) ==> {
            &&& edited.platforms.len() == map.platforms.len()
            &&& edited.platforms@[index as int] == platform
            &&& forall|i: int|
                0 <= i < map.platforms.len() && i != index ==> edited.platforms@[i]
                    == #[trigger] map.platforms@[i]
            &&& rest_of_map_is_kept(map, edited)
        },
{
}

/// A platform that is deleted is gone, and all others are left in their order.
pub proof fn law_platform_is_deleted(map: MapData, index: usize, edited: MapData)
    requires
        index < map.platforms.len(),
        call_ensures(delete_platform, (map, index), edited),
    ensures
        edited.platforms.len() + 1 == map.platforms.len(),
        forall|i: int|
            0 <= i < index ==> edited.platforms@[i] == #[trigger] map.platforms@[i],
        forall|i: int|
            index < i < map.platforms.len() ==> edited.platforms@[i - 1]
                == #[trigger] map.platforms@[i],
        rest_of_map_is_kept(map, edited),
{
}

/// A switch is set on the map, and no other switch is.
pub proof fn law_switch_is_set(map: MapData, switch: PlatformsSwitch, on: bool, edited: MapData)
    requires
        call_ensures(set_switch, (map, switch, on), edited),
    ensures
        edited.rune_platforms_pathing == (if switch == PlatformsSwitch::RunePathing {
            on
        } else {
            map.rune_platforms_pathing
        }),
        edited.rune_platforms_pathing_up_jump_only == (if switch
            == PlatformsSwitch::RuneUpJumpOnly {
            on
        } else {
            map.rune_platforms_pathing_up_jump_only
        }),
        edited.auto_mob_platforms_pathing == (if switch == PlatformsSwitch::AutoMobbingPathing {
            on
        } else {
            map.auto_mob_platforms_pathing
        }),
        edited.auto_mob_platforms_pathing_up_jump_only == (if switch
            == PlatformsSwitch::AutoMobbingUpJumpOnly {
            on
        } else {
            map.auto_mob_platforms_pathing_up_jump_only
        }),
        edited.auto_mob_platforms_bound == (if switch == PlatformsSwitch::BoundByPlatforms {
            on
        } else {
            map.auto_mob_platforms_bound
        }),
        edited.id == map.id && edited.name == map.name,
        edited.paths_id_index == map.paths_id_index,
        edited.presets == map.presets && edited.platforms == map.platforms,
{
}

/// A switch that restricts a pathing can be used exactly where that pathing is on; the others always
/// can, unless the whole section is disabled.
pub proof fn law_switch_is_disabled(
    map: &MapData,
    switch: PlatformsSwitch,
    section_disabled: bool,
    disabled: bool,
)
    requires
        call_ensures(is_switch_disabled, (map, switch, section_disabled), disabled),
    ensures
        section_disabled ==> disabled,
        !section_disabled && switch == PlatformsSwitch::RuneUpJumpOnly ==> (disabled
            <==> !map.rune_platforms_pathing),
        !section_disabled && switch == PlatformsSwitch::AutoMobbingUpJumpOnly ==> (disabled
            <==> !map.auto_mob_platforms_pathing),
        !section_disabled && switch != PlatformsSwitch::RuneUpJumpOnly && switch
            != PlatformsSwitch::AutoMobbingUpJumpOnly ==> !disabled,
{
}

/// Nothing is in the popup and it is closed until something is clicked. Opening and closing it leaves
/// what it holds.
pub proof fn law_popup_opens(
    fresh: PlatformsPopup,
    popup: &mut PlatformsPopup,
    open: bool,
    cancelled: &mut PlatformsPopup,
)
    requires
        call_ensures(PlatformsPopup::closed, (), fresh),
        call_ensures(PlatformsPopup::set_open, (popup, open), ()),
        call_ensures(PlatformsPopup::cancel, (cancelled,), ()),
    ensures
        !fresh.open && fresh.content is Closed,
        final(popup).open == open && final(popup).content == old(popup).content,
        !final(cancelled).open && final(cancelled).content == old(cancelled).content,
{
}

/// Adding starts with a blank form, editing with the platform that was clicked.
pub proof fn law_popup_is_clicked(
    adding: &mut PlatformsPopup,
    editing: &mut PlatformsPopup,
    platform: Platform,
    index: usize,
    modifies: bool,
    value: Platform,
    edits: bool,
    edited: Platform,
)
    requires
        call_ensures(PlatformsPopup::click_add, (adding,), ()),
        call_ensures(PlatformsPopup::modifying, (&*final(adding),), modifies),
        call_ensures(PlatformsPopup::value, (&*final(adding),), value),
        call_ensures(PlatformsPopup::click_item, (editing, platform, index), ()),
        call_ensures(PlatformsPopup::modifying, (&*final(editing),), edits),
        call_ensures(PlatformsPopup::value, (&*final(editing),), edited),
    ensures
        !modifies && value.x_start == 0 && value.x_end == 0 && value.y == 0,
        edits && edited == platform,
        final(editing).content == (PopupContent::Edit { platform, index }),
        final(adding).open == old(adding).open && final(editing).open == old(editing).open,
{
}

/// Submitting closes the popup. A new platform is added behind the others; an edited one takes the
/// place of the old one, where it is still there. Either ends to the right of its start.
pub proof fn law_popup_is_submitted(
    popup: &mut PlatformsPopup,
    map: MapData,
    platform: Platform,
    edited: Option<MapData>,
)
    requires
        platform.x_start < i32::MAX,
        old(popup).content !is Closed,
        call_ensures(PlatformsPopup::submit, (popup, map, platform), edited),
    ensures
        !final(popup).open && final(popup).content == old(popup).content,
        ({
            let x_end = if platform.x_end > platform.x_start {
                platform.x_end as int
            } else {
                platform.x_start + 1
            };
            let takes = |p: Platform|
                p.x_start == platform.x_start && p.x_end == x_end && p.y == platform.y;
            &&& old(popup).content is Add ==> {
                &&& edited is Some
                &&& edited->Some_0.platforms.len() == map.platforms.len() + 1
                &&& edited->Some_0.platforms@.drop_last() == map.platforms@
                &&& takes(edited->Some_0.platforms@.last())
                &&& rest_of_map_is_kept(map, edited->Some_0)
            }
            &&& old(popup).content matches PopupContent::Edit { index, .. } ==> {
                &&& edited is Some <==> index < map.platforms.len()
                &&& edited matches Some(edited) ==> {
                    &&& takes(edited.platforms@[index as int])
                    &&& edited.platforms@ == map.platforms@.update(
                        index as int,
                        edited.platforms@[index as int],
                    )
                    &&& rest_of_map_is_kept(map, edited)
                }
            }
        }),
{
    if edited is Some {
        if old(popup).content is Add {
            assert(edited->Some_0.platforms@.drop_last() =~= map.platforms@);
        }
    }
}

/// The list shows where a platform starts, where it ends and how high it is.
pub proof fn law_platform_texts(
    platform: &Platform,
    texts: (String, String),
    start: String,
    end: String,
    height: String,
)
    requires
        call_ensures(item_texts, (platform,), texts),
        call_ensures(to_signed_decimal, (platform.x_start,), start),
        call_ensures(to_signed_decimal, (platform.x_end,), end),
        call_ensures(to_signed_decimal, (platform.y,), height),
    ensures
        texts.0@ == "X / "@ + start@ + " - "@ + end@,
        texts.1@ == "Y / "@ + height@,
{
}

} // verus!

//! What a tick reads from the outside and what it sends there.

use vstd::prelude::*;

use crate::debug::ArrowsComplete;
use crate::geometry::{Point, Rect};
use crate::operation::Operation;

verus! {

/// A key of the keyboard. Keys that no decision tells apart go by their code.
#[derive(Debug, Clone, Copy, PartialEq, Eq, Structural)]
pub enum KeyKind {
    Up,
    Down,
    Left,
    Right,
    Code(u32),
}

#[derive(Debug, Clone, Copy, PartialEq, Eq, Structural)]
pub enum MouseKind {
    Move,
    Click,
}

/// One input to send, in the order in which it was asked for.
#[derive(Debug, Clone, Copy, PartialEq, Eq, Structural)]
pub enum InputCommand {
    Key(KeyKind),
    KeyUp(KeyKind),
    Mouse { x: i32, y: i32, kind: MouseKind },
}

/// The input side of a tick: what is known of the keyboard, and the commands of this tick.
#[derive(Debug)]
pub struct Input {
    pub all_keys_cleared: bool,
    pub sent: Vec<InputCommand>,
}

impl Input {
    pub fn send_key(&mut self, key: KeyKind)
        ensures
            final(self).sent@ == old(self).sent@.push(InputCommand::Key(key)),
            final(self).all_keys_cleared == old(self).all_keys_cleared,
    {
        self.sent.push(InputCommand::Key(key));
    }

    pub fn send_key_up(&mut self, key: KeyKind)
        ensures
            final(self).sent@ == old(self).sent@.push(InputCommand::KeyUp(key)),
            final(self).all_keys_cleared == old(self).all_keys_cleared,
    {
        self.sent.push(InputCommand::KeyUp(key));
    }

    pub fn send_mouse(&mut self, x: i32, y: i32, kind: MouseKind)
        ensures
            final(self).sent@ == old(self).sent@.push(InputCommand::Mouse { x, y, kind }),
            final(self).all_keys_cleared == old(self).all_keys_cleared,
    {
        self.sent.push(InputCommand::Mouse { x, y, kind });
    }

    /// Whether no key is held down.
    pub fn is_all_keys_cleared(&self) -> (cleared: bool)
        ensures
            cleared == self.all_keys_cleared,
    {
        self.all_keys_cleared
    }
}

/// The answer to "where is it on the current frame".
#[derive(Debug, Clone, Copy, PartialEq, Eq, Structural)]
pub enum Sighting {
    /// The detection was not run on this frame.
    Unasked,
    /// The detection ran and found nothing.
    Missing,
    At(Rect),
}

impl Sighting {
    pub open spec fn place(self) -> Option<Rect> {
        match self {
            Sighting::At(rect) => Some(rect),
            _ => None,
        }
    }

    /// Where it was seen, if it was.
    pub fn rect(self) -> (rect: Option<Rect>)
        ensures
            rect == self.place(),
    {
        match self {
            Sighting::At(rect) => Some(rect),
            _ => None,
        }
    }

    /// The centre of what was seen can be clicked.
    pub open spec fn clickable(self) -> bool {
        self matches Sighting::At(rect) ==> rect.has_center()
    }

    /// `other` gives the same answer, or there was none to keep.
    pub open spec fn kept_by(self, other: Sighting) -> bool {
        self is Unasked || self == other
    }
}

/// What the rune solver says of the current frame.
#[derive(Debug, Clone, Copy)]
pub enum SolvingState {
    Calibrating,
    Solving,
    /// The four arrows, in order.
    Complete(ArrowsComplete),
    Error,
}

/// What the shape solver says of the current frame.
#[derive(Debug, Clone, Copy, PartialEq, Eq, Structural)]
pub enum ShapeCursor {
    Unasked,
    Lost,
    At(Point),
}

/// A detection that a state machine wants to be run on the current frame.
#[derive(Debug, Clone, Copy, PartialEq, Eq, Structural)]
pub enum Detection {
    TofDialogVisible,
    TofMapleMailbox,
    TofBulb,
    TofComplete,
    TofUnravelling,
    TofFateCharacterUi,
    TofFateCharacter,
    TofAskButton,
    /// One round of the rune solver.
    RuneArrows,
    LieDetectorShapePreparing,
    LieDetectorShape,
    /// One round of the shape solver in the given region; a `fresh` one starts a new track.
    ShapeCursor { region: Rect, fresh: bool },
    /// One smoothing step of the cursor, from one position towards another.
    SmoothedCursor { from: Point, to: Point },
}

/// The answers of the detections that were run on the current frame.
#[derive(Debug, Clone, Copy)]
pub struct Detector {
    pub tof_dialog_visible: Option<bool>,
    pub tof_maple_mailbox: Option<bool>,
    pub tof_bulb: Sighting,
    pub tof_complete: Sighting,
    pub tof_unravelling: Sighting,
    pub tof_fate_character_ui: Option<bool>,
    pub tof_fate_character: Sighting,
    pub tof_ask_button: Sighting,
    pub rune_arrows: Option<SolvingState>,
    pub lie_detector_shape_preparing: Option<bool>,
    pub lie_detector_shape: Sighting,
    pub shape_cursor: ShapeCursor,
    pub smoothed_cursor: Option<Point>,
}

impl Detector {
    pub open spec fn spec_blank() -> Detector {
        Detector {
            tof_dialog_visible: None,
            tof_maple_mailbox: None,
            tof_bulb: Sighting::Unasked,
            tof_complete: Sighting::Unasked,
            tof_unravelling: Sighting::Unasked,
            tof_fate_character_ui: None,
            tof_fate_character: Sighting::Unasked,
            tof_ask_button: Sighting::Unasked,
            rune_arrows: None,
            lie_detector_shape_preparing: None,
            lie_detector_shape: Sighting::Unasked,
            shape_cursor: ShapeCursor::Unasked,
            smoothed_cursor: None,
        }
    }

    /// A frame on which no detection has run yet.
    pub fn blank() -> (detector: Detector)
        ensures
            detector == Self::spec_blank(),
    {
        Detector {
            tof_dialog_visible: None,
            tof_maple_mailbox: None,
            tof_bulb: Sighting::Unasked,
            tof_complete: Sighting::Unasked,
            tof_unravelling: Sighting::Unasked,
            tof_fate_character_ui: None,
            tof_fate_character: Sighting::Unasked,
            tof_ask_button: Sighting::Unasked,
            rune_arrows: None,
            lie_detector_shape_preparing: None,
            lie_detector_shape: Sighting::Unasked,
            shape_cursor: ShapeCursor::Unasked,
            smoothed_cursor: None,
        }
    }

    /// Everything that a tick may click can be clicked.
    pub open spec fn clickable(self) -> bool {
        &&& self.tof_bulb.clickable()
        &&& self.tof_complete.clickable()
        &&& self.tof_unravelling.clickable()
        &&& self.tof_fate_character.clickable()
        &&& self.tof_ask_button.clickable()
    }

    /// `later` holds every answer that is given here.
    pub open spec fn kept_by(self, later: Detector) -> bool {
        &&& self.tof_dialog_visible is Some ==> later.tof_dialog_visible == self.tof_dialog_visible
        &&& self.tof_maple_mailbox is Some ==> later.tof_maple_mailbox == self.tof_maple_mailbox
        &&& self.tof_bulb.kept_by(later.tof_bulb)
        &&& self.tof_complete.kept_by(later.tof_complete)
        &&& self.tof_unravelling.kept_by(later.tof_unravelling)
        &&& self.tof_fate_character_ui is Some ==> later.tof_fate_character_ui
            == self.tof_fate_character_ui
        &&& self.tof_fate_character.kept_by(later.tof_fate_character)
        &&& self.tof_ask_button.kept_by(later.tof_ask_button)
        &&& self.rune_arrows is Some ==> later.rune_arrows == self.rune_arrows
        &&& self.lie_detector_shape_preparing is Some ==> later.lie_detector_shape_preparing
            == self.lie_detector_shape_preparing
        &&& self.lie_detector_shape.kept_by(later.lie_detector_shape)
        &&& self.shape_cursor is Unasked || later.shape_cursor == self.shape_cursor
        &&& self.smoothed_cursor is Some ==> later.smoothed_cursor == self.smoothed_cursor
    }

    /// Whether a quest dialog is on the frame. A detection that was not run saw nothing.
    pub fn detect_tof_dialog_visible(&self) -> (visible: bool)
        ensures
            visible == (self.tof_dialog_visible == Some(true)),
    {
        match self.tof_dialog_visible {
            Some(visible) => visible,
            None => false,
        }
    }

    pub fn detect_tof_maple_mailbox(&self) -> (visible: bool)
        ensures
            visible == (self.tof_maple_mailbox == Some(true)),
    {
        match self.tof_maple_mailbox {
            Some(visible) => visible,
            None => false,
        }
    }

    pub fn detect_tof_fate_character_ui(&self) -> (visible: bool)
        ensures
            visible == (self.tof_fate_character_ui == Some(true)),
    {
        match self.tof_fate_character_ui {
            Some(visible) => visible,
            None => false,
        }
    }

    pub fn detect_lie_detector_shape_preparing(&self) -> (preparing: bool)
        ensures
            preparing == (self.lie_detector_shape_preparing == Some(true)),
    {
        match self.lie_detector_shape_preparing {
            Some(preparing) => preparing,
            None => false,
        }
    }
}

/// The shared state of a tick.
#[derive(Debug)]
pub struct Resources {
    pub input: Input,
    pub detector: Detector,
    pub operation: Operation,
    /// Number of the current tick.
    pub tick: u64,
}

impl Resources {
    /// `after` differs from this state only by the `commands` appended to its input.
    pub open spec fn sends(self, after: Resources, commands: Seq<InputCommand>) -> bool {
        &&& after.input.sent@ =~= self.input.sent@ + commands
        &&& after.input.all_keys_cleared == self.input.all_keys_cleared
        &&& after.detector == self.detector
        &&& after.operation == self.operation
        &&& after.tick == self.tick
    }
}

/// What is sent is sent last, as it was asked for, and nothing that was sent before is lost.
pub proof fn law_sent_last(
    input: &mut Input,
    other: &mut Input,
    mouse: &mut Input,
    key: KeyKind,
    x: i32,
    y: i32,
    kind: MouseKind,
)
    requires
        call_ensures(Input::send_key, (input, key), ()),
        call_ensures(Input::send_key_up, (other, key), ()),
        call_ensures(Input::send_mouse, (mouse, x, y, kind), ()),
    ensures
        final(input).sent.len() == old(input).sent.len() + 1,
        final(input).sent@.last() == InputCommand::Key(key),
        final(input).sent@.drop_last() == old(input).sent@,
        final(other).sent.len() == old(other).sent.len() + 1,
        final(other).sent@.last() == InputCommand::KeyUp(key),
        final(other).sent@.drop_last() == old(other).sent@,
        final(mouse).sent.len() == old(mouse).sent.len() + 1,
        final(mouse).sent@.last() == (InputCommand::Mouse { x, y, kind }),
        final(mouse).sent@.drop_last() == old(mouse).sent@,
        final(input).all_keys_cleared == old(input).all_keys_cleared,
        final(other).all_keys_cleared == old(other).all_keys_cleared,
        final(mouse).all_keys_cleared == old(mouse).all_keys_cleared,
{
}

/// Something has a place exactly where it was seen at that place.
pub proof fn law_place_of_a_sighting(sighting: Sighting, rect: Option<Rect>)
    requires
        call_ensures(Sighting::rect, (sighting,), rect),
    ensures
        rect is Some <==> sighting is At,
        rect matches Some(rect) ==> sighting == Sighting::At(rect),
{
}

/// On a new frame nothing was asked yet, so nothing is seen.
pub proof fn law_blank_frame(
    detector: Detector,
    dialog: bool,
    mailbox: bool,
    character: bool,
    preparing: bool,
)
    requires
        call_ensures(Detector::blank, (), detector),
        call_ensures(Detector::detect_tof_dialog_visible, (&detector,), dialog),
        call_ensures(Detector::detect_tof_maple_mailbox, (&detector,), mailbox),
        call_ensures(Detector::detect_tof_fate_character_ui, (&detector,), character),
        call_ensures(Detector::detect_lie_detector_shape_preparing, (&detector,), preparing),
    ensures
        !dialog && !mailbox && !character && !preparing,
        detector.tof_dialog_visible is None && detector.tof_maple_mailbox is None,
        detector.tof_fate_character_ui is None && detector.lie_detector_shape_preparing is None,
        detector.tof_bulb is Unasked && detector.tof_complete is Unasked,
        detector.tof_unravelling is Unasked && detector.tof_fate_character is Unasked,
        detector.tof_ask_button is Unasked && detector.lie_detector_shape is Unasked,
        detector.rune_arrows is None && detector.shape_cursor is Unasked,
        detector.smoothed_cursor is None,
{
}

/// Each detection gives its own answer where it was run, and else that nothing was seen.
pub proof fn law_detections(
    detector: &Detector,
    dialog: bool,
    mailbox: bool,
    character: bool,
    preparing: bool,
)
    requires
        call_ensures(Detector::detect_tof_dialog_visible, (detector,), dialog),
        call_ensures(Detector::detect_tof_maple_mailbox, (detector,), mailbox),
        call_ensures(Detector::detect_tof_fate_character_ui, (detector,), character),
        call_ensures(Detector::detect_lie_detector_shape_preparing, (detector,), preparing),
    ensures
        dialog <==> detector.tof_dialog_visible is Some && detector.tof_dialog_visible->Some_0,
        mailbox <==> detector.tof_maple_mailbox is Some && detector.tof_maple_mailbox->Some_0,
        character <==> detector.tof_fate_character_ui is Some
            && detector.tof_fate_character_ui->Some_0,
        preparing <==> detector.lie_detector_shape_preparing is Some
            && detector.lie_detector_shape_preparing->Some_0,
{
}

/// The keyboard is clear exactly where it is known to be.
pub proof fn law_keys_cleared(input: &Input, cleared: bool)
    requires
        call_ensures(Input::is_all_keys_cleared, (input,), cleared),
    ensures
        cleared <==> input.all_keys_cleared,
{
}

} // verus!

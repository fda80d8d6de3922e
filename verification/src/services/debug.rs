//! Recording videos and trying out solvers.

use vstd::prelude::*;

use crate::debug::{is_name, random_name, NAME_LEN};
use crate::operation::Operation;
use crate::resources::{Detector, Input, InputCommand, Resources};

verus! {

/// What the debug page shows.
#[derive(Debug, Clone, Copy, PartialEq, Eq, Structural)]
pub struct DebugState {
    pub is_recording: bool,
    pub is_rune_auto_saving: bool,
}

/// What a poll asks for.
#[derive(Debug, Clone, Copy, PartialEq, Eq, Structural)]
pub struct DebugPoll {
    /// Whether the current frame goes into the video.
    pub write_frame: bool,
    /// The state to show.
    pub state: Option<DebugState>,
}

/// The file name of a video.
pub open spec fn video_name(id: Seq<char>) -> Seq<char> {
    id + ".mp4"@
}

#[derive(Debug)]
pub struct DebugService {
    pub is_recording: bool,
    pub auto_save_rune: bool,
}

impl Default for DebugService {
    fn default() -> (service: DebugService)
        ensures
            !service.is_recording,
            !service.auto_save_rune,
    {
        DebugService { is_recording: false, auto_save_rune: false }
    }
}

impl DebugService {
    /// What is due in a tick: the frame is written while recording, and the state is shown unless
    /// the last one was not taken yet.
    pub fn poll(&self, has_frame: bool, channel_empty: bool) -> (due: DebugPoll)
        ensures
            due.write_frame == (self.is_recording && has_frame),
            due.state == if channel_empty {
                Some(
                    DebugState {
                        is_recording: self.is_recording,
                        is_rune_auto_saving: self.auto_save_rune,
                    },
                )
            } else {
                None
            },
    {
        let state = if channel_empty {
            Some(
                DebugState {
                    is_recording: self.is_recording,
                    is_rune_auto_saving: self.auto_save_rune,
                },
            )
        } else {
            None
        };
        DebugPoll { write_frame: self.is_recording && has_frame, state }
    }

    pub fn set_auto_save_rune(&mut self, auto_save: bool)
        ensures
            *final(self) == (DebugService { auto_save_rune: auto_save, ..*old(self) }),
    {
        self.auto_save_rune = auto_save;
    }

    /// Starts or stops a recording. One that starts gets a file of its own, which is returned; it
    /// cannot start without a frame.
    pub fn record_video(&mut self, has_frame: bool, start: bool) -> (file: Option<String>)
        ensures
            final(self).auto_save_rune == old(self).auto_save_rune,
            final(self).is_recording == (start && (has_frame || old(self).is_recording)),
            file is Some <==> start && has_frame,
            file matches Some(file) ==> exists|id: Seq<char>| #[trigger]
                is_name(id, NAME_LEN as nat) && file@ == video_name(id),
    {
        if !start {
            self.is_recording = false;
            return None;
        }
        if !has_frame {
            return None;
        }
        let mut file = random_name();
        let ghost id = file@;
        file.append(".mp4");
        assert(is_name(id, NAME_LEN as nat) && file@ == video_name(id));
        self.is_recording = true;
        Some(file)
    }
}

/// What a round of the spin test says.
#[derive(Debug, Clone, Copy, PartialEq, Eq, Structural)]
pub enum SpinTestRound {
    Completed,
    Calibrating,
    Failed,
}

/// Whether the spin test goes on with the next image: until it is completed or fails.
pub fn spin_test_goes_on(round: SpinTestRound) -> (goes_on: bool)
    ensures
        goes_on == (round is Calibrating),
{
    matches!(round, SpinTestRound::Calibrating)
}

/// Nanoseconds that one frame takes at `fps` frames a second.
pub open spec fn frame_nanos(fps: u32) -> int {
    1_000_000_000int / fps as int
}

/// How long to sleep, in nanoseconds, after a frame that took `elapsed_nanos`, if at all.
pub fn frame_pause(fps: u32, elapsed_nanos: u128) -> (pause: Option<u32>)
    requires
        fps > 0,
    ensures
        pause is Some <==> elapsed_nanos <= frame_nanos(fps),
        pause matches Some(pause) ==> elapsed_nanos + pause == frame_nanos(fps),
{
    let nanos_per_frame: u128 = (1_000_000_000 / fps) as u128;
    if elapsed_nanos <= nanos_per_frame {
        assert(nanos_per_frame <= 1_000_000_000) by (nonlinear_arith)
            requires
                nanos_per_frame == 1_000_000_000int / fps as int,
                fps > 0,
        ;
        Some((nanos_per_frame - elapsed_nanos) as u32)
    } else {
        None
    }
}

/// The state in which solvers are tried out: running, with nothing pressed and nothing seen.
pub fn create_sandbox_test_resources() -> (resources: Resources)
    ensures
        resources.operation == Operation::Running,
        resources.tick == 0,
        resources.detector == Detector::spec_blank(),
        resources.input.sent@ == Seq::<InputCommand>::empty(),
        resources.input.all_keys_cleared,
{
    Resources {
        input: Input { all_keys_cleared: true, sent: Vec::new() },
        detector: Detector::blank(),
        operation: Operation::Running,
        tick: 0,
    }
}

/// A frame goes into the video while one is recorded, and the state is shown as it is unless the last
/// one was not taken yet.
pub proof fn law_poll(
    service: &DebugService,
    has_frame: bool,
    channel_empty: bool,
    due: DebugPoll,
)
    requires
        call_ensures(DebugService::poll, (service, has_frame, channel_empty), due),
    ensures
        due.write_frame <==> service.is_recording && has_frame,
        due.state is Some <==> channel_empty,
        due.state matches Some(state) ==> state.is_recording == service.is_recording
            && state.is_rune_auto_saving == service.auto_save_rune,
{
}

/// Stopping always stops. Starting needs a frame to begin a video, which gets a file of its own;
/// without one nothing changes.
pub proof fn law_recording(
    service: &mut DebugService,
    has_frame: bool,
    start: bool,
    file: Option<String>,
)
    requires
        call_ensures(DebugService::record_video, (service, has_frame, start), file),
    ensures
        !start ==> !final(service).is_recording && file is None,
        start && has_frame ==> final(service).is_recording && file is Some,
        start && !has_frame ==> final(service).is_recording == old(service).is_recording && file
            is None,
        final(service).auto_save_rune == old(service).auto_save_rune,
        file matches Some(file) ==> exists|id: Seq<char>| #[trigger]
            is_name(id, 8) && file@ == id + ".mp4"@,
{
}

/// Saving runes by itself is switched without touching a recording.
pub proof fn law_auto_save(service: &mut DebugService, auto_save: bool)
    requires
        call_ensures(DebugService::set_auto_save_rune, (service, auto_save), ()),
    ensures
        final(service).auto_save_rune == auto_save,
        final(service).is_recording == old(service).is_recording,
{
}

/// Together with the pause a frame takes its whole share of a second; one that took longer is not
/// paused after.
pub proof fn law_pace(fps: u32, elapsed_nanos: u128, pause: Option<u32>)
    requires
        call_ensures(frame_pause, (fps, elapsed_nanos), pause),
        fps > 0,
    ensures
        pause matches Some(pause) ==> elapsed_nanos + pause == 1_000_000_000int / fps as int,
        pause is None ==> elapsed_nanos > 1_000_000_000int / fps as int,
{
}

/// The spin test goes on exactly as long as it calibrates.
pub proof fn law_spin_test(round: SpinTestRound, goes_on: bool)
    requires
        call_ensures(spin_test_goes_on, (round,), goes_on),
    ensures
        round == SpinTestRound::Calibrating ==> goes_on,
        round == SpinTestRound::Completed || round == SpinTestRound::Failed ==> !goes_on,
{
}

/// Solvers are tried out while running, with no key held down, nothing sent and nothing seen.
pub proof fn law_sandbox(resources: Resources)
    requires
        call_ensures(create_sandbox_test_resources, (), resources),
    ensures
        resources.operation is Running,
        resources.tick == 0,
        resources.input.all_keys_cleared && resources.input.sent.len() == 0,
        resources.detector.tof_dialog_visible is None,
        resources.detector.tof_maple_mailbox is None,
        resources.detector.tof_fate_character_ui is None,
        resources.detector.lie_detector_shape_preparing is None,
        resources.detector.rune_arrows is None && resources.detector.smoothed_cursor is None,
        resources.detector.tof_bulb is Unasked && resources.detector.tof_complete is Unasked,
        resources.detector.tof_unravelling is Unasked,
        resources.detector.tof_fate_character is Unasked,
        resources.detector.tof_ask_button is Unasked,
        resources.detector.lie_detector_shape is Unasked,
        resources.detector.shape_cursor is Unasked,
{
}

/// At first nothing is recorded and no rune is saved.
pub proof fn law_new_debug_service(service: DebugService)
    requires
        call_ensures(DebugService::default, (), service),
    ensures
        !service.is_recording,
        !service.auto_save_rune,
{
}

} // verus!

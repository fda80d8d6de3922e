//! Which window receives input, and how it is sent there.

use vstd::prelude::*;

use crate::models::{CaptureMode, InputMethod, Settings};

verus! {

/// A window, by its handle.
#[derive(Debug, Clone, Copy, PartialEq, Eq, Structural)]
pub struct Window {
    pub handle: u64,
}

/// Where the window that receives input comes from.
#[derive(Debug, Clone, Copy, PartialEq, Eq, Structural)]
pub enum WindowSource {
    /// The window that the capture shows.
    Capture,
    /// The window that was selected.
    Selected,
}

/// How input is sent: only while the window is focused or to whatever is in front, directly or
/// through the server at the given address.
#[derive(Debug)]
pub enum InputMethodKind {
    FocusedDefault,
    ForegroundDefault,
    FocusedRpc(String),
    ForegroundRpc(String),
}

impl InputMethodKind {
    /// The same method, with the address as text.
    pub open spec fn same(self, other: InputMethodKind) -> bool {
        match (self, other) {
            (InputMethodKind::FocusedDefault, InputMethodKind::FocusedDefault) => true,
            (InputMethodKind::ForegroundDefault, InputMethodKind::ForegroundDefault) => true,
            (InputMethodKind::FocusedRpc(a), InputMethodKind::FocusedRpc(b)) => a@ == b@,
            (InputMethodKind::ForegroundRpc(a), InputMethodKind::ForegroundRpc(b)) => a@ == b@,
            _ => false,
        }
    }

    /// A copy of the method.
    pub fn duplicate(&self) -> (copy: InputMethodKind)
        ensures
            copy.same(*self),
    {
        match self {
            InputMethodKind::FocusedDefault => InputMethodKind::FocusedDefault,
            InputMethodKind::ForegroundDefault => InputMethodKind::ForegroundDefault,
            InputMethodKind::FocusedRpc(url) => InputMethodKind::FocusedRpc(url.clone()),
            InputMethodKind::ForegroundRpc(url) => InputMethodKind::ForegroundRpc(url.clone()),
        }
    }
}

/// One end of the input: the sender, or the receiver of the keys that the user presses.
#[derive(Debug)]
pub struct InputPort {
    pub window: Window,
    pub method: InputMethodKind,
}

/// A service to handle input-related incoming requests.
pub trait InputService {
    /// Updates `input` and `input_rx` to use the new `window`.
    fn apply_window(&self, input: &mut InputPort, input_rx: &mut InputPort, window: Window)
        ensures
            *final(input) == (InputPort { window, ..*old(input) }),
            *final(input_rx) == (InputPort { window, ..*old(input_rx) }),
    ;

    /// Updates `input` and `input_rx` to use the new `method`.
    fn apply_method(
        &self,
        input: &mut InputPort,
        input_rx: &mut InputPort,
        method: InputMethodKind,
    )
        ensures
            final(input).method.same(method),
            final(input_rx).method == method,
            final(input).window == old(input).window,
            final(input_rx).window == old(input_rx).window,
    ;
}

#[derive(Debug)]
pub struct DefaultInputService;

impl InputService for DefaultInputService {
    fn apply_window(&self, input: &mut InputPort, input_rx: &mut InputPort, window: Window) {
        input.window = window;
        input_rx.window = window;
    }

    fn apply_method(
        &self,
        input: &mut InputPort,
        input_rx: &mut InputPort,
        method: InputMethodKind,
    ) {
        input.method = method.duplicate();
        input_rx.method = method;
    }
}

/// An area of the screen has no window of its own: what it shows receives the input.
pub open spec fn spec_window_source(mode: CaptureMode) -> WindowSource {
    match mode {
        CaptureMode::BitBltArea => WindowSource::Capture,
        _ => WindowSource::Selected,
    }
}

/// Which window receives input under a capture mode.
pub fn window_source(mode: CaptureMode) -> (source: WindowSource)
    ensures
        source == spec_window_source(mode),
{
    match mode {
        CaptureMode::BitBltArea => WindowSource::Capture,
        CaptureMode::WindowsGraphicsCapture | CaptureMode::BitBlt => WindowSource::Selected,
    }
}

/// Whether `method` is the one that `settings` ask for: captured areas get input in the foreground,
/// windows while they are focused.
pub open spec fn is_method_of(method: InputMethodKind, settings: Settings) -> bool {
    match (settings.input_method, settings.capture_mode) {
        (InputMethod::Default, CaptureMode::BitBltArea) => method is ForegroundDefault,
        (InputMethod::Default, _) => method is FocusedDefault,
        (InputMethod::Rpc, CaptureMode::BitBltArea) => method matches
            InputMethodKind::ForegroundRpc(url) && url@ == settings.input_method_rpc_server_url@,
        (InputMethod::Rpc, _) => method matches InputMethodKind::FocusedRpc(url) && url@
            == settings.input_method_rpc_server_url@,
    }
}

/// How input is sent under `settings`.
pub fn method_of(settings: &Settings) -> (method: InputMethodKind)
    ensures
        is_method_of(method, *settings),
{
    match (settings.input_method, settings.capture_mode) {
        (InputMethod::Default, CaptureMode::BitBltArea) => InputMethodKind::ForegroundDefault,
        (InputMethod::Default, _) => InputMethodKind::FocusedDefault,
        (InputMethod::Rpc, CaptureMode::BitBltArea) => InputMethodKind::ForegroundRpc(
            settings.input_method_rpc_server_url.clone(),
        ),
        (InputMethod::Rpc, _) => InputMethodKind::FocusedRpc(
            settings.input_method_rpc_server_url.clone(),
        ),
    }
}

/// A captured area gets its input where the capture is, a captured window where it was selected.
pub proof fn law_window_source(mode: CaptureMode, source: WindowSource)
    requires
        call_ensures(window_source, (mode,), source),
    ensures
        source == WindowSource::Capture <==> mode == CaptureMode::BitBltArea,
{
}

/// A captured area gets its input in the foreground, a captured window while it is focused; directly,
/// or through the server at the address of the settings.
pub proof fn law_method(settings: &Settings, method: InputMethodKind)
    requires
        call_ensures(method_of, (settings,), method),
    ensures
        method is ForegroundDefault || method is ForegroundRpc <==> settings.capture_mode
            == CaptureMode::BitBltArea,
        method is ForegroundDefault || method is FocusedDefault <==> settings.input_method
            == InputMethod::Default,
        method matches InputMethodKind::ForegroundRpc(url) ==> url@
            == settings.input_method_rpc_server_url@,
        method matches InputMethodKind::FocusedRpc(url) ==> url@
            == settings.input_method_rpc_server_url@,
{
}

/// Both ends of the input get the same window, and keep their methods.
pub proof fn law_both_ends_get_the_window(
    service: &DefaultInputService,
    input: &mut InputPort,
    input_rx: &mut InputPort,
    window: Window,
)
    requires
        call_ensures(DefaultInputService::apply_window, (service, input, input_rx, window), ()),
    ensures
        final(input).window == window && final(input_rx).window == window,
        final(input).method == old(input).method,
        final(input_rx).method == old(input_rx).method,
{
}

/// Both ends of the input get the same method, and keep their windows.
pub proof fn law_both_ends_get_the_method(
    service: &DefaultInputService,
    input: &mut InputPort,
    input_rx: &mut InputPort,
    method: InputMethodKind,
)
    requires
        call_ensures(DefaultInputService::apply_method, (service, input, input_rx, method), ()),
    ensures
        final(input_rx).method == method,
        match (final(input).method, method) {
            (InputMethodKind::FocusedDefault, InputMethodKind::FocusedDefault) => true,
            (InputMethodKind::ForegroundDefault, InputMethodKind::ForegroundDefault) => true,
            (InputMethodKind::FocusedRpc(a), InputMethodKind::FocusedRpc(b)) => a@ == b@,
            (InputMethodKind::ForegroundRpc(a), InputMethodKind::ForegroundRpc(b)) => a@ == b@,
            _ => false,
        },
        final(input).window == old(input).window,
        final(input_rx).window == old(input_rx).window,
{
}

/// A copy of a method is the same method, at the same address.
pub proof fn law_copied_method(method: &InputMethodKind, copy: InputMethodKind)
    requires
        call_ensures(InputMethodKind::duplicate, (method,), copy),
    ensures
        *method is FocusedDefault <==> copy is FocusedDefault,
        *method is ForegroundDefault <==> copy is ForegroundDefault,
        *method matches InputMethodKind::FocusedRpc(url) ==> (
        copy matches InputMethodKind::FocusedRpc(to) && to@ == url@),
        *method matches InputMethodKind::ForegroundRpc(url) ==> (
        copy matches InputMethodKind::ForegroundRpc(to) && to@ == url@),
{
}

} // verus!

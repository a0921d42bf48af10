//! Controlled whole-value text synchronization between a guest and a native text widget, and
//! the native-bridge state that the Android host shares with its JNI entry points.
use vstd::prelude::*;

verus! {

/// The guest-visible state mirrored by the native text widget.
#[derive(Clone, Debug)]
pub struct TextInputState {
    /// Whether the host should attach and focus the native text channel.
    pub focused: bool,
    /// The full controlled value, always synchronized as one UTF-8 string.
    pub value: String,
}

impl Default for TextInputState {
    fn default() -> (state: Self)
        ensures
            !state.focused,
            state.value@ == Seq::<char>::empty(),
    {
        TextInputState { focused: false, value: String::new() }
    }
}

/// State that an iOS target publishes into its UIKit-controlled text channel.
#[derive(Clone, Debug)]
pub struct MobileTextStatus {
    /// Whether UIKit should attach or release native IME focus.
    pub input_focused: bool,
    /// Full controlled text value mirrored by UIKit.
    pub input_value: String,
}

impl Default for MobileTextStatus {
    fn default() -> (status: Self)
        ensures
            !status.input_focused,
            status.input_value@ == Seq::<char>::empty(),
    {
        MobileTextStatus { input_focused: false, input_value: String::new() }
    }
}

/// Maintains the small, deliberately limited IME contract of the first mobile release: the
/// whole value is exchanged, and composition markers are coalesced.
#[derive(Clone, Debug)]
pub struct ControlledTextSync {
    state: TextInputState,
    composing: bool,
}

impl Default for ControlledTextSync {
    fn default() -> (sync: Self)
        ensures
            sync.is_initial(),
    {
        ControlledTextSync { state: TextInputState::default(), composing: false }
    }
}

impl ControlledTextSync {
    /// Unfocused, empty and not composing.
    pub open spec fn is_initial(&self) -> bool {
        !self.focused() && self.value() == Seq::<char>::empty() && !self.composing()
    }

    /// Whether the mirrored input is focused.
    pub closed spec fn focused(&self) -> bool {
        self.state.focused
    }

    /// The mirrored value.
    pub closed spec fn value(&self) -> Seq<char> {
        self.state.value@
    }

    /// Whether a composition segment is open.
    pub closed spec fn composing(&self) -> bool {
        self.composing
    }

    /// Replaces the host mirror with the latest guest status; returns whether it changed.
    pub fn publish_guest(&mut self, focused: bool, value: &str) -> (changed: bool)
        ensures
            final(self).focused() == focused,
            final(self).value() == value@,
            final(self).composing() == old(self).composing(),
            changed == (old(self).focused() != focused || old(self).value() != value@),
    {
        let next = TextInputState { focused, value: value.to_owned() };
        if self.state.focused == next.focused && self.state.value == next.value {
            return false;
        }
        self.state = next;
        true
    }

    /// Optimistically records a native whole-value edit until the guest publishes it back;
    /// returns whether it changed.
    pub fn accept_native_value(&mut self, value: String) -> (changed: bool)
        ensures
            final(self).focused() == old(self).focused(),
            final(self).value() == value@,
            final(self).composing() == old(self).composing(),
            changed == (old(self).value() != value@),
    {
        if self.state.value == value {
            return false;
        }
        self.state.value = value;
        true
    }

    /// Begins a composition segment. Repeated markers are coalesced: only the first reports a
    /// change. The value is untouched.
    pub fn begin_composition(&mut self) -> (changed: bool)
        ensures
            final(self).composing(),
            changed == !old(self).composing(),
            final(self).focused() == old(self).focused(),
            final(self).value() == old(self).value(),
    {
        if self.composing {
            return false;
        }
        self.composing = true;
        true
    }

    /// Ends a composition segment. Repeated markers are coalesced: only the first reports a
    /// change. The value is untouched.
    pub fn end_composition(&mut self) -> (changed: bool)
        ensures
            !final(self).composing(),
            changed == old(self).composing(),
            final(self).focused() == old(self).focused(),
            final(self).value() == old(self).value(),
    {
        if !self.composing {
            return false;
        }
        self.composing = false;
        true
    }

    /// Returns a copy suitable for a JNI caller on Android's UI thread.
    pub fn snapshot(&self) -> (state: TextInputState)
        ensures
            state.focused == self.focused(),
            state.value@ == self.value(),
    {
        TextInputState { focused: self.state.focused, value: self.state.value.clone() }
    }
}

/// State shared between the Android activity's event loop and its JNI entry points: whether an
/// event-loop proxy is installed, the controlled text mirror, the configured bundle index and
/// a pending request to finish the activity. The host keeps it behind a process-wide lock.
#[derive(Clone, Debug)]
pub struct NativeBridgeState {
    proxy_installed: bool,
    text: ControlledTextSync,
    bundle_index: Option<String>,
    finish_requested: bool,
}

impl Default for NativeBridgeState {
    fn default() -> (bridge: Self)
        ensures
            !bridge.proxy_installed(),
            bridge.text().is_initial(),
            bridge.bundle_index() is None,
            !bridge.finish_requested(),
    {
        NativeBridgeState {
            proxy_installed: false,
            text: ControlledTextSync::default(),
            bundle_index: None,
            finish_requested: false,
        }
    }
}

impl NativeBridgeState {
    /// Whether an event-loop proxy is installed.
    pub closed spec fn proxy_installed(&self) -> bool {
        self.proxy_installed
    }

    /// The controlled text mirror.
    pub closed spec fn text(&self) -> ControlledTextSync {
        self.text
    }

    /// The configured development bundle index.
    pub closed spec fn bundle_index(&self) -> Option<Seq<char>> {
        match self.bundle_index {
            Some(index) => Some(index@),
            None => None,
        }
    }

    /// Whether the guest asked the activity to finish and nobody consumed the request yet.
    pub closed spec fn finish_requested(&self) -> bool {
        self.finish_requested
    }

    /// Installs an event-loop proxy and resets the per-activity state (text mirror and finish
    /// request); the configured bundle index survives.
    pub fn install(&mut self)
        ensures
            final(self).proxy_installed(),
            final(self).text().is_initial(),
            final(self).bundle_index() == old(self).bundle_index(),
            !final(self).finish_requested(),
    {
        self.proxy_installed = true;
        self.text = ControlledTextSync::default();
        self.finish_requested = false;
    }

    /// Removes the event-loop proxy when the activity's loop stops and resets the per-activity
    /// state; the configured bundle index survives.
    pub fn clear(&mut self)
        ensures
            !final(self).proxy_installed(),
            final(self).text().is_initial(),
            final(self).bundle_index() == old(self).bundle_index(),
            !final(self).finish_requested(),
    {
        self.proxy_installed = false;
        self.text = ControlledTextSync::default();
        self.finish_requested = false;
    }

    /// The configured development bundle index.
    pub fn configured_bundle_index(&self) -> (index: Option<String>)
        ensures
            match index {
                Some(text) => self.bundle_index() == Some(text@),
                None => self.bundle_index() is None,
            },
    {
        match &self.bundle_index {
            Some(index) => Some(index.clone()),
            None => None,
        }
    }

    /// Records the bundle index; returns whether it must also be forwarded to a running event
    /// loop (a proxy is installed).
    pub fn configure_bundle_index(&mut self, index: String) -> (forward: bool)
        ensures
            final(self).bundle_index() == Some(index@),
            forward == old(self).proxy_installed(),
            final(self).proxy_installed() == old(self).proxy_installed(),
            final(self).text() == old(self).text(),
            final(self).finish_requested() == old(self).finish_requested(),
    {
        self.bundle_index = Some(index);
        self.proxy_installed
    }

    /// Mirrors the guest's published text status.
    pub fn publish_guest_status(&mut self, focused: bool, value: &str)
        ensures
            final(self).text().focused() == focused,
            final(self).text().value() == value@,
            final(self).text().composing() == old(self).text().composing(),
            final(self).proxy_installed() == old(self).proxy_installed(),
            final(self).bundle_index() == old(self).bundle_index(),
            final(self).finish_requested() == old(self).finish_requested(),
    {
        let _ = self.text.publish_guest(focused, value);
    }

    /// A copy of the controlled text mirror.
    pub fn text_snapshot(&self) -> (state: TextInputState)
        ensures
            state.focused == self.text().focused(),
            state.value@ == self.text().value(),
    {
        self.text.snapshot()
    }

    /// Records a native whole-value edit; returns whether it changed the mirror (and so must
    /// be sent to the guest).
    pub fn accept_native_value(&mut self, value: String) -> (changed: bool)
        ensures
            final(self).text().value() == value@,
            final(self).text().focused() == old(self).text().focused(),
            changed == (old(self).text().value() != value@),
            final(self).proxy_installed() == old(self).proxy_installed(),
            final(self).bundle_index() == old(self).bundle_index(),
            final(self).finish_requested() == old(self).finish_requested(),
    {
        self.text.accept_native_value(value)
    }

    /// Marks the start of a composition segment; returns whether this opened it.
    pub fn begin_composition(&mut self) -> (changed: bool)
        ensures
            changed == !old(self).text().composing(),
            final(self).text().composing(),
            final(self).text().value() == old(self).text().value(),
            final(self).text().focused() == old(self).text().focused(),
            final(self).proxy_installed() == old(self).proxy_installed(),
            final(self).bundle_index() == old(self).bundle_index(),
            final(self).finish_requested() == old(self).finish_requested(),
    {
        self.text.begin_composition()
    }

    /// Marks the end of a composition segment; returns whether this closed it.
    pub fn end_composition(&mut self) -> (changed: bool)
        ensures
            changed == old(self).text().composing(),
            !final(self).text().composing(),
            final(self).text().value() == old(self).text().value(),
            final(self).text().focused() == old(self).text().focused(),
            final(self).proxy_installed() == old(self).proxy_installed(),
            final(self).bundle_index() == old(self).bundle_index(),
            final(self).finish_requested() == old(self).finish_requested(),
    {
        self.text.end_composition()
    }

    /// Records that the guest left a root-level Escape unhandled: the activity may finish.
    pub fn request_activity_finish(&mut self)
        ensures
            final(self).finish_requested(),
            final(self).proxy_installed() == old(self).proxy_installed(),
            final(self).text() == old(self).text(),
            final(self).bundle_index() == old(self).bundle_index(),
    {
        self.finish_requested = true;
    }

    /// Returns and clears the finish request: a request is observed exactly once.
    pub fn consume_finish_request(&mut self) -> (requested: bool)
        ensures
            requested == old(self).finish_requested(),
            !final(self).finish_requested(),
            final(self).proxy_installed() == old(self).proxy_installed(),
            final(self).text() == old(self).text(),
            final(self).bundle_index() == old(self).bundle_index(),
    {
        let requested = self.finish_requested;
        self.finish_requested = false;
        requested
    }
}

/// JNI result of a system Back: the event could not be delivered.
pub const BACK_NOT_DELIVERED: i32 = 0;
/// JNI result of a system Back: the focused text input is blurred.
pub const BACK_BLURRED_TEXT_INPUT: i32 = 1;
/// JNI result of a system Back: an Escape was dispatched to the guest.
pub const BACK_DISPATCHED_TO_GUEST: i32 = 2;

/// The JNI answer to a system Back press, given whether text input was focused and whether the
/// event reached the event loop.
pub fn system_back_code(focused: bool, delivered: bool) -> (code: i32)
    ensures
        code == if !delivered {
            BACK_NOT_DELIVERED
        } else if focused {
            BACK_BLURRED_TEXT_INPUT
        } else {
            BACK_DISPATCHED_TO_GUEST
        },
{
    if !delivered {
        return BACK_NOT_DELIVERED;
    }
    if focused {
        BACK_BLURRED_TEXT_INPUT
    } else {
        BACK_DISPATCHED_TO_GUEST
    }
}

/// What the host does with a system Back on its event loop.
#[derive(Clone, Copy, Debug, PartialEq, Eq, Structural)]
pub enum SystemBackAction {
    /// No guest is running: let the activity finish.
    FinishActivity,
    /// Blur the focused text input.
    BlurInput,
    /// Send a non-repeating Escape key (`0x29`, no modifiers) to the guest.
    SendEscape,
}

/// The event-loop step for a system Back: finish without a guest, blur a focused input,
/// otherwise send Escape.
pub fn system_back_action(guest_running: bool, input_focused: bool) -> (action: SystemBackAction)
    ensures
        action == if !guest_running {
            SystemBackAction::FinishActivity
        } else if input_focused {
            SystemBackAction::BlurInput
        } else {
            SystemBackAction::SendEscape
        },
{
    if !guest_running {
        SystemBackAction::FinishActivity
    } else if input_focused {
        SystemBackAction::BlurInput
    } else {
        SystemBackAction::SendEscape
    }
}

/// Whether the activity should finish after a Back was dispatched: only when an Escape (not a
/// blur) left the guest unchanged.
pub fn finish_after_back(input_focused: bool, guest_changed: bool) -> (finish: bool)
    ensures
        finish == (!input_focused && !guest_changed),
{
    !input_focused && !guest_changed
}

} // verus!

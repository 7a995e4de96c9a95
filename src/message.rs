//! How the window procedure answers each message the platform sends it.

use vstd::prelude::*;
use crate::event::Event;

verus! {

/// The window is being destroyed.
pub const WM_DESTROY: u32 = 0x0002;

/// The user asked for the window to close.
pub const WM_CLOSE: u32 = 0x0010;

/// The message pump is asked to stop.
pub const WM_QUIT: u32 = 0x0012;

/// A key went down; the message's word parameter holds its virtual-key code.
pub const WM_KEYDOWN: u32 = 0x0100;

/// A key went up; the message's word parameter holds its virtual-key code.
pub const WM_KEYUP: u32 = 0x0101;

/// What the window procedure does with one message.
#[derive(Clone, Copy, Debug, PartialEq, Eq, Structural)]
pub enum Reply {
    /// Hand the event to the callback registered for the pump, then answer 0.
    Deliver(Event),
    /// Destroy the window, then answer 0.
    Destroy,
    /// Post the quit message to the pump, then answer 0.
    Quit,
    /// Leave the message to the platform's default handling.
    Default,
}

/// The reply to message `message` with word parameter `w`, where `registered`
/// tells whether a callback is registered for the window.
pub open spec fn reply_to(message: u32, w: usize, registered: bool) -> Reply {
    if registered && message == WM_KEYDOWN {
        Reply::Deliver(Event::Press(w))
    } else if registered && message == WM_KEYUP {
        Reply::Deliver(Event::Release(w))
    } else if message == WM_CLOSE {
        Reply::Destroy
    } else if message == WM_DESTROY {
        Reply::Quit
    } else {
        Reply::Default
    }
}

/// Decides how the window procedure answers `message`.
///
/// Key messages become `Press`/`Release` events carrying the key code in `w`
/// unchanged; they reach nobody while no callback is registered. A close
/// request destroys the window and its destruction stops the pump.
pub fn respond(message: u32, w: usize, registered: bool) -> (r: Reply)
    ensures
        r == reply_to(message, w, registered),
{
    if registered && message == WM_KEYDOWN {
        Reply::Deliver(Event::Press(w))
    } else if registered && message == WM_KEYUP {
        Reply::Deliver(Event::Release(w))
    } else if message == WM_CLOSE {
        Reply::Destroy
    } else if message == WM_DESTROY {
        Reply::Quit
    } else {
        Reply::Default
    }
}

/// A key's press and its release carry the same code, the one the platform
/// reported for the key.
pub proof fn lemma_press_release_same_code(w: usize)
    ensures
        reply_to(WM_KEYDOWN, w, true) == Reply::Deliver(Event::Press(w)),
        reply_to(WM_KEYUP, w, true) == Reply::Deliver(Event::Release(w)),
{
}

/// Without a registered callback no message produces an event.
pub proof fn lemma_unregistered_delivers_nothing(message: u32, w: usize)
    ensures
        !(reply_to(message, w, false) is Deliver),
{
}

} // verus!

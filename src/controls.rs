//! Keyboard controls of a window that draws every turn, and its
//! swap-interval (vsync) flag.
//!
//! The swap-interval entry points are extensions that a graphics driver may
//! lack. Where the getter is missing vsync counts as off; where the setter
//! is missing the flag still flips and nothing is handed to the driver.

use vstd::prelude::*;
use crate::event::Event;
use crate::key;
use crate::message::{WM_KEYDOWN, WM_QUIT};
use crate::pump::{delivered, lemma_first_press_is_first_key_down, quiet_poll};

verus! {

/// What the window does in answer to one event.
#[derive(Clone, Copy, Debug, PartialEq, Eq, Structural)]
pub enum Command {
    /// End the process.
    Quit,
    /// Flip the vsync flag and draw nothing this turn.
    ToggleVsync,
    /// Draw the next frame.
    Redraw,
}

/// The command for an event: Escape or Q quits, V flips vsync, and every
/// other event, `Idle` included, draws a frame.
pub open spec fn command_of(e: Event) -> Command {
    match e {
        Event::Press(code) => {
            if code == key::ESCAPE || code == key::Q {
                Command::Quit
            } else if code == key::V {
                Command::ToggleVsync
            } else {
                Command::Redraw
            }
        },
        _ => Command::Redraw,
    }
}

/// Decides what to do with `e`.
pub fn command_for(e: Event) -> (r: Command)
    ensures
        r == command_of(e),
        r == Command::Quit <==> (e == Event::Press(key::ESCAPE) || e == Event::Press(key::Q)),
{
    match e {
        Event::Press(code) => {
            if code == key::ESCAPE || code == key::Q {
                Command::Quit
            } else if code == key::V {
                Command::ToggleVsync
            } else {
                Command::Redraw
            }
        },
        _ => Command::Redraw,
    }
}

/// The vsync flag after one toggle.
pub open spec fn toggled(vsync: bool) -> bool {
    !vsync
}

/// The swap interval that stands for a vsync flag.
pub open spec fn interval_of(vsync: bool) -> isize {
    if vsync {
        1
    } else {
        0
    }
}

/// The initial vsync flag from what the swap-interval getter returned, or
/// `None` where the driver does not offer the getter.
pub fn vsync_from_interval(queried: Option<isize>) -> (r: bool)
    ensures
        r == match queried {
            Some(interval) => interval != 0,
            None => false,
        },
{
    match queried {
        Some(interval) => interval != 0,
        None => false,
    }
}

/// Flips the vsync flag. Returns the interval to hand to the swap-interval
/// setter where the driver offers one (`setter_available`), else `None`.
pub fn toggle_vsync(vsync: &mut bool, setter_available: bool) -> (r: Option<isize>)
    ensures
        *final(vsync) == toggled(*old(vsync)),
        setter_available ==> r == Some(interval_of(*final(vsync))),
        !setter_available ==> r is None,
{
    *vsync = !*vsync;
    if setter_available {
        Some(if *vsync {
            1
        } else {
            0
        })
    } else {
        None
    }
}

/// Toggling vsync twice gives back the flag it started from, whether or not
/// the driver offers the setter.
pub proof fn lemma_toggle_twice(vsync: bool)
    ensures
        toggled(toggled(vsync)) == vsync,
{
}

/// Idle reports and releases never quit: of the events a running pump
/// delivers while it meets quiet polls and then a quit key goes down, the
/// first that quits is that key press, and it is the last delivered.
pub proof fn lemma_quits_on_press_not_idle(last: u32, polls: Seq<Option<(u32, usize)>>, w: usize)
    requires
        last != WM_QUIT,
        w == key::ESCAPE || w == key::Q,
        forall|i: int| 0 <= i < polls.len() ==> quiet_poll(#[trigger] polls[i]),
    ensures
        ({
            let events = delivered(last, polls.push(Some((WM_KEYDOWN, w))));
            &&& events.len() >= 1
            &&& forall|i: int| 0 <= i < events.len() - 1 ==> command_of(#[trigger] events[i]) != Command::Quit
            &&& events.last() == Event::Press(w)
            &&& command_of(events.last()) == Command::Quit
        }),
{
    lemma_first_press_is_first_key_down(last, polls, w);
    let events = delivered(last, polls.push(Some((WM_KEYDOWN, w))));
    assert forall|i: int| 0 <= i < events.len() - 1 implies command_of(#[trigger] events[i]) != Command::Quit by {
        assert(!(events[i] is Press));
    }
}

} // verus!

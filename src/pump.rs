//! The decisions of a window's message pump.
//!
//! The pump runs on the thread that owns the window. Each turn it polls the
//! queue once: with nothing pending it reports `Event::Idle` to the caller
//! straight away (no sleep); otherwise it dispatches the message to the
//! window procedure. It stops after it has taken the quit message.

use vstd::prelude::*;
use crate::event::Event;
use crate::message::{Reply, WM_KEYDOWN, WM_QUIT, reply_to};

verus! {

/// What one turn of the pump does.
#[derive(Clone, Copy, Debug, PartialEq, Eq, Structural)]
pub enum Turn {
    /// The queue was empty: report `Event::Idle` to the callback.
    Idle,
    /// A message was taken: dispatch it to the window procedure.
    Dispatch,
}

/// The state of a pump: the identifier of the last message it took.
pub struct Pump {
    last: u32,
}

/// The last message taken after a poll that returned `polled`.
pub open spec fn after_poll(last: u32, polled: Option<u32>) -> u32 {
    match polled {
        None => last,
        Some(m) => m,
    }
}

/// The turn a running pump takes for a poll that returned `polled`.
pub open spec fn turn_for(polled: Option<u32>) -> Turn {
    match polled {
        None => Turn::Idle,
        Some(_) => Turn::Dispatch,
    }
}

/// The events the callback receives while a pump whose last message was
/// `last` meets the polls `polls`, each a message's identifier and word
/// parameter, or `None` for an empty queue. Messages are answered as the
/// window procedure answers them with the callback registered.
pub open spec fn delivered(last: u32, polls: Seq<Option<(u32, usize)>>) -> Seq<Event>
    decreases polls.len(),
{
    if polls.len() == 0 || last == WM_QUIT {
        Seq::empty()
    } else {
        match polls[0] {
            None => seq![Event::Idle] + delivered(last, polls.drop_first()),
            Some((m, w)) => match reply_to(m, w, true) {
                Reply::Deliver(e) => seq![e] + delivered(m, polls.drop_first()),
                _ => delivered(m, polls.drop_first()),
            },
        }
    }
}

impl Pump {
    /// The identifier of the last message taken; 0 before the first.
    pub closed spec fn last_message(&self) -> u32 {
        self.last
    }

    /// Whether the pump goes on polling.
    pub open spec fn running(&self) -> bool {
        self.last_message() != WM_QUIT
    }

    /// A pump that has taken no message yet.
    pub fn new() -> (r: Pump)
        ensures
            r.last_message() == 0,
            r.running(),
    {
        Pump { last: 0 }
    }

    /// Whether the pump polls again: false once the quit message was taken.
    pub fn is_running(&self) -> (r: bool)
        ensures
            r == self.running(),
    {
        self.last != WM_QUIT
    }

    /// Takes one turn for the poll result `polled`: the identifier of the
    /// message taken off the queue, or `None` when it was empty.
    pub fn turn(&mut self, polled: Option<u32>) -> (r: Turn)
        requires
            old(self).running(),
        ensures
            r == turn_for(polled),
            final(self).last_message() == after_poll(old(self).last_message(), polled),
    {
        match polled {
            None => Turn::Idle,
            Some(m) => {
                self.last = m;
                Turn::Dispatch
            },
        }
    }
}

/// While the queue stays empty, a running pump reports one `Idle` per poll
/// and nothing else.
pub proof fn lemma_idle_polls_only_idle(last: u32, polls: Seq<Option<(u32, usize)>>)
    requires
        last != WM_QUIT,
        forall|i: int| 0 <= i < polls.len() ==> #[trigger] polls[i] is None,
    ensures
        delivered(last, polls) == Seq::new(polls.len(), |i: int| Event::Idle),
    decreases polls.len(),
{
    if polls.len() > 0 {
        let rest = polls.drop_first();
        assert forall|i: int| 0 <= i < rest.len() implies #[trigger] rest[i] is None by {
            assert(rest[i] == polls[i + 1]);
        }
        lemma_idle_polls_only_idle(last, rest);
        assert(delivered(last, polls) =~= Seq::new(polls.len(), |i: int| Event::Idle));
    }
}

/// After a run of empty polls, the first key press reaches the callback as
/// `Press` with the key's code, right after the `Idle` reports.
pub proof fn lemma_idle_then_press(last: u32, polls: Seq<Option<(u32, usize)>>, w: usize)
    requires
        last != WM_QUIT,
        forall|i: int| 0 <= i < polls.len() ==> #[trigger] polls[i] is None,
    ensures
        delivered(last, polls.push(Some((WM_KEYDOWN, w))))
            == Seq::new(polls.len(), |i: int| Event::Idle).push(Event::Press(w)),
    decreases polls.len(),
{
    let key = Some((WM_KEYDOWN, w));
    let all = polls.push(key);
    if polls.len() == 0 {
        assert(all.drop_first() =~= Seq::<Option<(u32, usize)>>::empty());
        assert(all[0] == key);
        assert(reply_to(WM_KEYDOWN, w, true) == Reply::Deliver(Event::Press(w)));
        assert(delivered(WM_KEYDOWN, all.drop_first()) =~= Seq::empty());
        assert(delivered(last, all) =~= seq![Event::Press(w)]);
    } else {
        let rest = polls.drop_first();
        assert forall|i: int| 0 <= i < rest.len() implies #[trigger] rest[i] is None by {
            assert(rest[i] == polls[i + 1]);
        }
        lemma_idle_then_press(last, rest, w);
        assert(all.drop_first() =~= rest.push(key));
        assert(all[0] is None);
        assert(delivered(last, all) =~= Seq::new(polls.len(), |i: int| Event::Idle).push(
            Event::Press(w),
        ));
    }
}

/// Whether a poll neither presses a key nor stops the pump: an empty
/// queue, a key release, or any message other than a key-down or quit.
pub open spec fn quiet_poll(polled: Option<(u32, usize)>) -> bool {
    match polled {
        None => true,
        Some((m, _)) => m != WM_KEYDOWN && m != WM_QUIT,
    }
}

/// Of the events a running pump delivers while it meets quiet polls and
/// then a key-down, the last is the `Press` of that key and none before it
/// is a `Press`: a callback that ends the process on the first `Press` ends
/// it there, and never on an `Idle` or `Release`.
pub proof fn lemma_first_press_is_first_key_down(
    last: u32,
    polls: Seq<Option<(u32, usize)>>,
    w: usize,
)
    requires
        last != WM_QUIT,
        forall|i: int| 0 <= i < polls.len() ==> quiet_poll(#[trigger] polls[i]),
    ensures
        ({
            let events = delivered(last, polls.push(Some((WM_KEYDOWN, w))));
            &&& events.len() >= 1
            &&& events.last() == Event::Press(w)
            &&& forall|i: int| 0 <= i < events.len() - 1 ==> !(#[trigger] events[i] is Press)
        }),
    decreases polls.len(),
{
    let key = Some((WM_KEYDOWN, w));
    let all = polls.push(key);
    if polls.len() == 0 {
        assert(all.drop_first() =~= Seq::<Option<(u32, usize)>>::empty());
        assert(all[0] == key);
        assert(delivered(WM_KEYDOWN, all.drop_first()) =~= Seq::empty());
        assert(delivered(last, all) =~= seq![Event::Press(w)]);
    } else {
        let rest = polls.drop_first();
        assert forall|i: int| 0 <= i < rest.len() implies quiet_poll(#[trigger] rest[i]) by {
            assert(rest[i] == polls[i + 1]);
        }
        assert(all.drop_first() =~= rest.push(key));
        assert(all[0] == polls[0]);
        assert(quiet_poll(polls[0]));
        let next = match polls[0] {
            None => last,
            Some((m, _)) => m,
        };
        lemma_first_press_is_first_key_down(next, rest, w);
        let tail = delivered(next, rest.push(key));
        match polls[0] {
            None => {
                assert(delivered(last, all) == seq![Event::Idle] + tail);
            },
            Some((m, v)) => {
                match reply_to(m, v, true) {
                    Reply::Deliver(e) => {
                        assert(e == Event::Release(v));
                        assert(delivered(last, all) == seq![e] + tail);
                    },
                    _ => {
                        assert(delivered(last, all) == tail);
                    },
                }
            },
        }
        let events = delivered(last, all);
        assert forall|i: int| 0 <= i < events.len() - 1 implies !(#[trigger] events[i] is Press) by {
            if events.len() > tail.len() && i > 0 {
                assert(events[i] == tail[i - 1]);
            } else if events.len() == tail.len() {
                assert(events[i] == tail[i]);
            }
        }
    }
}

} // verus!

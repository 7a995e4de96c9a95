//! What a window reports to its caller on each turn of the message pump.

use vstd::prelude::*;

verus! {

/// One thing that happened since the previous turn of the pump.
///
/// `Press` and `Release` carry the platform's virtual-key code of the key
/// (see [`crate::key`]).
#[derive(Clone, Copy, Debug, PartialEq, Eq, Structural)]
pub enum Event {
    Idle,
    Press(usize),
    Release(usize),
}

} // verus!

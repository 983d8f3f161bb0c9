//! The nine drag states: no drag, a corner, or an edge of the selection.

use vstd::prelude::*;

verus! {

/// Which part of the selection the pointer holds; `Idle` when no drag is
/// in progress.
///
/// The numbering used by [`DragState::from`] and [`DragState::as_u8`]
/// follows the declaration order, starting with `Idle` at zero.
#[derive(Debug, Clone, Copy, PartialEq, Eq, Structural)]
pub enum DragState {
    Idle,
    NW,
    N,
    NE,
    E,
    SE,
    S,
    SW,
    W,
}

impl Default for DragState {
    /// No drag is in progress.
    fn default() -> (res: DragState)
        ensures
            res == DragState::Idle,
    {
        DragState::Idle
    }
}

/// The number of a drag state, in declaration order.
pub open spec fn state_number(s: DragState) -> nat {
    match s {
        DragState::Idle => 0,
        DragState::NW => 1,
        DragState::N => 2,
        DragState::NE => 3,
        DragState::E => 4,
        DragState::SE => 5,
        DragState::S => 6,
        DragState::SW => 7,
        DragState::W => 8,
    }
}

/// A drag state held at a corner.
pub open spec fn is_corner(s: DragState) -> bool {
    s is NW || s is NE || s is SE || s is SW
}

/// A drag state held at the top or bottom edge.
pub open spec fn is_vertical_edge(s: DragState) -> bool {
    s is N || s is S
}

/// A drag state held at the left or right edge.
pub open spec fn is_horizontal_edge(s: DragState) -> bool {
    s is E || s is W
}

impl DragState {
    /// The drag state with the given number; numbers above eight are not
    /// drag states.
    pub fn from(state: u8) -> (res: DragState)
        requires
            state <= 8,
        ensures
            state_number(res) == state,
    {
        match state {
            0 => DragState::Idle,
            1 => DragState::NW,
            2 => DragState::N,
            3 => DragState::NE,
            4 => DragState::E,
            5 => DragState::SE,
            6 => DragState::S,
            7 => DragState::SW,
            _ => DragState::W,
        }
    }

    /// The number of this drag state.
    pub fn as_u8(self) -> (res: u8)
        ensures
            res == state_number(self),
            res <= 8,
    {
        match self {
            DragState::Idle => 0,
            DragState::NW => 1,
            DragState::N => 2,
            DragState::NE => 3,
            DragState::E => 4,
            DragState::SE => 5,
            DragState::S => 6,
            DragState::SW => 7,
            DragState::W => 8,
        }
    }
}

/// Numbering the drag states is one to one: two states with the same
/// number are the same state.
pub proof fn lemma_state_number_injective(a: DragState, b: DragState)
    ensures
        state_number(a) == state_number(b) ==> a == b,
{
}

/// The numbers of the drag states are exactly zero to eight: every state
/// has a number up to eight and every number up to eight names a state.
pub proof fn lemma_numbers_cover_states(s: DragState, n: nat)
    ensures
        state_number(s) <= 8,
        n <= 8 ==> exists|t: DragState| state_number(t) == n,
{
    if n <= 8 {
        let t = if n == 0 { DragState::Idle } else if n == 1 { DragState::NW } else if n == 2 {
            DragState::N
        } else if n == 3 { DragState::NE } else if n == 4 { DragState::E } else if n == 5 {
            DragState::SE
        } else if n == 6 { DragState::S } else if n == 7 { DragState::SW } else { DragState::W };
        assert(state_number(t) == n);
    }
}

} // verus!

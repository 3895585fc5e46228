//! The two logical levels of the digital output line, and what repeated
//! toggling does to them.

use vstd::prelude::*;

verus! {

/// A logical level of the digital output line.  The line is driven to a
/// known level during initialization and toggled on every timer expiry.
#[derive(Clone, Copy, PartialEq, Eq, Structural, Debug)]
pub enum Level {
    Off,
    On,
}

impl Level {
    /// The complement of a level.
    pub open spec fn flip_spec(self) -> Level {
        match self {
            Level::Off => Level::On,
            Level::On => Level::Off,
        }
    }

    /// Toggle: return the complement of `self`.
    pub fn flip(self) -> (r: Level)
        ensures
            r == self.flip_spec(),
    {
        match self {
            Level::Off => Level::On,
            Level::On => Level::Off,
        }
    }
}

/// The output level after `n` toggles starting from `l0`.
pub open spec fn level_after(l0: Level, n: nat) -> Level
    decreases n,
{
    if n == 0 {
        l0
    } else {
        level_after(l0, (n - 1) as nat).flip_spec()
    }
}

/// Toggle parity: starting from level `l0`, after `n` toggles the line is
/// back at `l0` when `n` is even and at its complement when `n` is odd.
pub proof fn lemma_toggle_parity(l0: Level, n: nat)
    ensures
        level_after(l0, n) == if n % 2 == 0 {
            l0
        } else {
            l0.flip_spec()
        },
    decreases n,
{
    if n > 0 {
        lemma_toggle_parity(l0, (n - 1) as nat);
    }
}

} // verus!

//! The game phase, its one-byte storage shared by the tick and key
//! handlers, and the free-running tick counter.
use vstd::prelude::*;

verus! {

/// Where the game is: in the menu, in play, or paused.
#[derive(Debug, Clone, Copy, PartialEq, Eq, Structural)]
pub enum StateLocation {
    Menu,
    Running,
    Paused,
}

/// The byte that stands for a phase.
pub open spec fn location_code(s: StateLocation) -> u8 {
    match s {
        StateLocation::Menu => 0,
        StateLocation::Running => 1,
        StateLocation::Paused => 2,
    }
}

impl StateLocation {
    /// The byte that stands for this phase.
    pub fn to_u8(&self) -> (v: u8)
        ensures
            v == location_code(*self),
    {
        match self {
            StateLocation::Menu => 0,
            StateLocation::Running => 1,
            StateLocation::Paused => 2,
        }
    }

    /// The phase that byte `v` stands for.
    pub fn from_u8(v: u8) -> (s: StateLocation)
        requires
            v < 3,
        ensures
            location_code(s) == v,
    {
        match v {
            0 => StateLocation::Menu,
            1 => StateLocation::Running,
            _ => StateLocation::Paused,
        }
    }
}

/// The phase, stored as its byte.
pub struct GlobalStateLocation(u8);

impl GlobalStateLocation {
    /// The stored byte stands for a phase.
    pub closed spec fn wf(&self) -> bool {
        self.0 < 3
    }

    /// The stored phase.
    pub closed spec fn view(&self) -> StateLocation {
        if self.0 == 0 {
            StateLocation::Menu
        } else if self.0 == 1 {
            StateLocation::Running
        } else {
            StateLocation::Paused
        }
    }

    /// Storage holding the menu phase.
    pub fn new() -> (g: GlobalStateLocation)
        ensures
            g.wf(),
            g@ == StateLocation::Menu,
    {
        GlobalStateLocation(0)
    }

    /// Stores phase `s`.
    pub fn set(&mut self, s: StateLocation)
        ensures
            final(self).wf(),
            final(self)@ == s,
    {
        let val: u8 = s.to_u8();
        self.0 = val;
    }

    /// The stored phase.
    pub fn read(&self) -> (s: StateLocation)
        requires
            self.wf(),
        ensures
            s == self@,
    {
        StateLocation::from_u8(self.0)
    }
}

impl Default for GlobalStateLocation {
    fn default() -> (g: GlobalStateLocation)
        ensures
            g.wf(),
            g@ == StateLocation::Menu,
    {
        GlobalStateLocation::new()
    }
}

/// A coarse mode of a session, unset at first.
#[derive(Debug, Clone, Copy, PartialEq, Eq, Structural)]
pub enum StateVariant {
    Menu,
    Running,
    Stopped,
    Unset,
}

impl Default for StateVariant {
    fn default() -> (s: StateVariant)
        ensures
            s == StateVariant::Unset,
    {
        StateVariant::Unset
    }
}

/// Free-running tick counter, wrapping at 256.
#[derive(Debug, Clone, Copy, PartialEq, Eq, Structural)]
pub struct Timer {
    pub number: u8,
}

impl Timer {
    /// A counter at 0.
    pub fn new() -> (t: Timer)
        ensures
            t.number == 0,
    {
        Timer { number: 0 }
    }

    /// Adds `by`, wrapping at 256, and returns the value before.
    pub fn advance(&mut self, by: u8) -> (before: u8)
        ensures
            before == old(self).number,
            final(self).number == (old(self).number + by) % 256,
    {
        let before = self.number;
        self.number = self.number.wrapping_add(by);
        before
    }
}

} // verus!

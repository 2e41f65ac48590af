//! The brightness levels of the touchpad LED and their cycling order.

use vstd::prelude::*;

verus! {

/// One of the five backlight levels the touchpad firmware understands.
///
/// Each level maps to a fixed one-byte wire code (see [`Brightness::code`]).
/// Cycling follows a fixed successor table, not the numeric order of the
/// codes: `Off` jumps to the default `On`, and `Full` wraps back to `Low`, so
/// that cycling never turns the light off (see [`Brightness::next`]).
#[derive(Debug, Clone, Copy, PartialEq, Eq, Structural)]
pub enum Brightness {
    Off,
    On,
    Low,
    Half,
    Full,
}

/// The fixed one-byte wire code of each level.
pub open spec fn spec_code(level: Brightness) -> u8 {
    match level {
        Brightness::Off => 0,
        Brightness::On => 1,
        Brightness::Low => 65,
        Brightness::Half => 68,
        Brightness::Full => 72,
    }
}

/// The fixed successor table used for cycling.
///
/// `Off` is never a successor: it can only be reached by explicit selection.
pub open spec fn spec_next(level: Brightness) -> Brightness {
    match level {
        Brightness::Off => Brightness::On,
        Brightness::On => Brightness::Low,
        Brightness::Low => Brightness::Half,
        Brightness::Half => Brightness::Full,
        Brightness::Full => Brightness::Low,
    }
}

/// The user-facing name of each level.
pub open spec fn spec_name(level: Brightness) -> Seq<char> {
    match level {
        Brightness::Off => "Off"@,
        Brightness::On => "On"@,
        Brightness::Low => "Low"@,
        Brightness::Half => "Half"@,
        Brightness::Full => "Full"@,
    }
}

impl Brightness {
    /// The one-byte wire code sent to the peripheral for this level.
    pub fn code(&self) -> (c: u8)
        ensures
            c == spec_code(*self),
    {
        match self {
            Brightness::Off => 0,
            Brightness::On => 1,
            Brightness::Low => 65,
            Brightness::Half => 68,
            Brightness::Full => 72,
        }
    }

    /// The successor of this level in the cycling order.
    pub fn next(&self) -> (r: Self)
        ensures
            r == spec_next(*self),
    {
        match self {
            Brightness::Off => Brightness::On,
            Brightness::On => Brightness::Low,
            Brightness::Low => Brightness::Half,
            Brightness::Half => Brightness::Full,
            Brightness::Full => Brightness::Low,
        }
    }

    /// Replaces this level by its successor and returns the new level.
    pub fn cycle(&mut self) -> (r: Self)
        ensures
            *final(self) == spec_next(*old(self)),
            r == *final(self),
    {
        *self = self.next();
        *self
    }

    /// The user-facing name of this level.
    pub fn name(&self) -> (s: &'static str)
        ensures
            s@ == spec_name(*self),
    {
        match self {
            Brightness::Off => "Off",
            Brightness::On => "On",
            Brightness::Low => "Low",
            Brightness::Half => "Half",
            Brightness::Full => "Full",
        }
    }
}

/// The level reached after `n` applications of the successor table.
pub open spec fn iterate_next(level: Brightness, n: nat) -> Brightness
    decreases n,
{
    if n == 0 {
        level
    } else {
        spec_next(iterate_next(level, (n - 1) as nat))
    }
}

/// The state the cycle visits `n` steps after starting from `On`, for `n >= 1`:
/// `Low`, `Half` and `Full` in turn, forever.
pub open spec fn on_cycle_state(n: nat) -> Brightness {
    if n % 3 == 1 {
        Brightness::Low
    } else if n % 3 == 2 {
        Brightness::Half
    } else {
        Brightness::Full
    }
}

/// Repeated cycling from `On` visits the infinite cycle
/// `On -> Low -> Half -> Full -> Low -> Half -> Full -> ...`: the level after
/// `n >= 1` steps is exactly `on_cycle_state(n)`, so it never revisits `On`
/// and never reaches `Off`.
pub proof fn lemma_cycle_from_on(n: nat)
    requires
        n >= 1,
    ensures
        iterate_next(Brightness::On, n) == on_cycle_state(n),
        iterate_next(Brightness::On, n) != Brightness::On,
        iterate_next(Brightness::On, n) != Brightness::Off,
    decreases n,
{
    if n == 1 {
        assert(iterate_next(Brightness::On, 0) == Brightness::On);
        assert(iterate_next(Brightness::On, 1) == spec_next(Brightness::On));
    } else {
        let p = (n - 1) as nat;
        lemma_cycle_from_on(p);
        assert(iterate_next(Brightness::On, n) == spec_next(on_cycle_state(p)));
        if p % 3 == 0 {
            assert(n % 3 == 1);
        } else if p % 3 == 1 {
            assert(n % 3 == 2);
        } else {
            assert(n % 3 == 0);
        }
    }
}

impl Default for Brightness {
    /// The default level is `On`.
    fn default() -> (r: Self)
        ensures
            r == Brightness::On,
    {
        Brightness::On
    }
}

} // verus!

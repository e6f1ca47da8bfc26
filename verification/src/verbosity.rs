//! How much the program says besides the age itself.

use vstd::prelude::*;

verus! {

/// Output level. The variants are declared in rising order, so the derived
/// ordering agrees with [`Verbosity::level`].
#[derive(Debug, Clone, Copy, PartialEq, Eq, PartialOrd, Ord, Structural)]
pub enum Verbosity {
    /// Only the age.
    Quiet,
    /// The age, and a greeting on the birthday.
    Normal,
    /// Everything, the resolved dates included.
    Verbose,
}

impl Verbosity {
    /// The rank by which levels are compared: 1, 2, 3.
    pub open spec fn spec_level(self) -> int {
        match self {
            Verbosity::Quiet => 1,
            Verbosity::Normal => 2,
            Verbosity::Verbose => 3,
        }
    }

    /// `self` says at least as much as `floor`.
    pub open spec fn spec_at_least(self, floor: Verbosity) -> bool {
        self.spec_level() >= floor.spec_level()
    }

    /// The level chosen by the two command-line switches: `verbose` wins
    /// over `quiet`, and neither means `Normal`.
    pub open spec fn spec_from_flags(verbose: bool, quiet: bool) -> Verbosity {
        if verbose {
            Verbosity::Verbose
        } else if quiet {
            Verbosity::Quiet
        } else {
            Verbosity::Normal
        }
    }

    /// The rank of this level.
    pub fn level(self) -> (rank: u8)
        ensures
            rank as int == self.spec_level(),
            1 <= rank <= 3,
    {
        match self {
            Verbosity::Quiet => 1,
            Verbosity::Normal => 2,
            Verbosity::Verbose => 3,
        }
    }

    /// Whether `self` says at least as much as `floor`.
    #[verifier::when_used_as_spec(spec_at_least)]
    pub fn at_least(self, floor: Verbosity) -> (yes: bool)
        ensures
            yes == self.spec_at_least(floor),
    {
        self.level() >= floor.level()
    }

    /// The level that the two command-line switches ask for.
    pub fn from_flags(verbose: bool, quiet: bool) -> (chosen: Verbosity)
        ensures
            chosen == Self::spec_from_flags(verbose, quiet),
    {
        if verbose {
            Verbosity::Verbose
        } else if quiet {
            Verbosity::Quiet
        } else {
            Verbosity::Normal
        }
    }
}

/// The ranks order the levels totally: two levels of one rank are the same
/// level, and of any two levels one is at least the other.
pub proof fn lemma_levels_totally_ordered(a: Verbosity, b: Verbosity)
    ensures
        a.spec_level() == b.spec_level() <==> a == b,
        a.spec_at_least(b) || b.spec_at_least(a),
        a.spec_at_least(b) && b.spec_at_least(a) ==> a == b,
{
}

} // verus!

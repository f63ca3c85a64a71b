//! The switches of the command line that the prompts react to.

use vstd::prelude::*;

verus! {

/// The global switches that decide whether a prompt may be shown.
#[derive(Clone, Copy, Debug, PartialEq, Eq, Structural)]
pub struct MainMatcher {
    /// No prompt may block: what would need one fails instead.
    pub no_interact: bool,
    /// Every yes/no question is answered with yes.
    pub assume_yes: bool,
    /// Guards that would refuse an input are passed over.
    pub force: bool,
}

impl MainMatcher {
    /// The switches as given.
    pub fn new(no_interact: bool, assume_yes: bool, force: bool) -> (r: MainMatcher)
        ensures
            r.no_interact == no_interact,
            r.assume_yes == assume_yes,
            r.force == force,
    {
        MainMatcher { no_interact, assume_yes, force }
    }

    /// Whether prompting is forbidden.
    pub fn no_interact(&self) -> (r: bool)
        ensures
            r == self.no_interact,
    {
        self.no_interact
    }

    /// Whether every question is answered with yes.
    pub fn assume_yes(&self) -> (r: bool)
        ensures
            r == self.assume_yes,
    {
        self.assume_yes
    }

    /// Whether guards are passed over.
    pub fn force(&self) -> (r: bool)
        ensures
            r == self.force,
    {
        self.force
    }
}

} // verus!

//! What every object of the scene can do.

use vstd::prelude::*;
use crate::backend::Step;
use crate::control::State;

verus! {

/// An object within the game.
pub trait Object {
    /// Whether the object has been set up and has not been closed: only then
    /// can it be updated and drawn.
    spec fn ready(&self) -> bool;

    /// Whether the numbers of the object can hold where one tick under the
    /// keys of `cs` takes it.
    spec fn updatable(&self, cs: State) -> bool;

    /// Moves the object on by one tick under the keys of `cs`.  An error
    /// leaves the object ready; the caller decides what it means.
    fn update(&mut self, cs: &State) -> (r: Result<(), String>)
        requires
            old(self).ready(),
            old(self).updatable(*cs),
        ensures
            final(self).ready(),
    ;

    /// The calls that draw the object as it is now.
    fn draw(&self) -> (steps: Vec<Step>)
        requires
            self.ready(),
    ;
}

} // verus!

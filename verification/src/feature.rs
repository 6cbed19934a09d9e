//! Human-meaningful entries appended to a character record in the last phase.

use vstd::prelude::*;

verus! {

/// A feature or trait description granted by a rule contributor.
#[derive(Debug, PartialEq, Eq)]
pub struct Feature {
    pub text: String,
}

impl Clone for Feature {
    fn clone(&self) -> (r: Self)
        ensures
            r == *self,
    {
        Feature { text: self.text.clone() }
    }
}

/// An action, bonus action or reaction a character can take.
#[derive(Debug, PartialEq, Eq)]
pub struct Move {
    pub name: String,
}

impl Clone for Move {
    fn clone(&self) -> (r: Self)
        ensures
            r == *self,
    {
        Move { name: self.name.clone() }
    }
}

} // verus!

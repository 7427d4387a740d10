//! Teams of the fight.

use vstd::prelude::*;

verus! {

/// Which side an entity fights for.
#[derive(Clone, Copy, Debug, PartialEq, Eq, Hash, Structural)]
pub enum Team {
    Plants,
    Zombies,
}

} // verus!

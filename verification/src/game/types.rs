use vstd::prelude::*;

verus! {

/// Which way the pet faces while it walks.
#[derive(Debug, Clone, Copy, PartialEq, Eq, Structural)]
pub enum Direction {
    Left,
    Right,
}

} // verus!

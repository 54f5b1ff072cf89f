//! Units. They carry no state yet; a selection may already refer to one.

use vstd::prelude::*;

verus! {

#[derive(Clone, Copy, Debug, PartialEq, Eq, Structural)]
pub struct Unit {}

} // verus!

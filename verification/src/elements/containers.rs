//! Container elements that decorate or clip the children they hold.

use vstd::prelude::*;

pub mod border;
pub mod floating;
pub mod scroll;

verus! {

} // verus!

//! The stored values that tell the kinds of node apart.

use vstd::prelude::*;

verus! {

/// Kind of the row of a root.
pub const ROOT_TYPE: i16 = 0;

/// Kind of the row of a file.
pub const FILE_TYPE: i16 = 1;

/// Kind of the row of a directory.
pub const DIR_TYPE: i16 = 2;

} // verus!

//! Actions checked against a file's GTS type.

use vstd::prelude::*;

verus! {

pub const READ: &'static str = "read";

pub const WRITE: &'static str = "write";

pub const DELETE: &'static str = "delete";

} // verus!

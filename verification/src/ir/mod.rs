//! The compiler's intermediate representations, from the name-resolved
//! high-level IR down to the ANF low-level IR.

pub mod hir;
pub mod lir;
pub mod mir;

use vstd::prelude::*;

verus! {

/// `a` and `b` are the same optional name.
pub open spec fn same_opt_name(a: Option<String>, b: Option<String>) -> bool {
    match (a, b) {
        (Some(x), Some(y)) => x@ == y@,
        (None, None) => true,
        _ => false,
    }
}

} // verus!

//! The layout of the lines the tool prints.

use vstd::prelude::*;
use crate::text::{right_align, right_aligned};

verus! {

/// The width that status labels are right-aligned to.
pub const LABEL_WIDTH: usize = 12;

/// A status label right-aligned to the label column, as `{label:>12}`.
pub fn status_label(label: &str) -> (s: String)
    ensures
        s@ == right_aligned(label@, 12),
{
    right_align(label, LABEL_WIDTH)
}

} // verus!

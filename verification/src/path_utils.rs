//! What git prints about the repository.

use vstd::prelude::*;
use crate::text::{trim, trimmed};

verus! {

/// The name of the current branch in what `git rev-parse --abbrev-ref HEAD`
/// printed: the text without white space at its ends.
pub fn git_branch(stdout: &str) -> (r: String)
    ensures
        r@ == trim(stdout@),
{
    trimmed(stdout)
}

} // verus!

//! Project analytics. Nothing is analysed yet: the scanner only says so.

use vstd::prelude::*;

verus! {

/// The line that stands for the analysis.
pub fn analyze_projects() -> (line: String)
    ensures
        line@ == "Project analytics not implemented yet"@,
{
    "Project analytics not implemented yet".to_owned()
}

} // verus!

//! System resource monitoring. Nothing is measured yet: the scanner only
//! says so.

use vstd::prelude::*;

verus! {

/// The line that stands for the monitor's findings.
pub fn monitor_system() -> (line: String)
    ensures
        line@ == "System monitoring not implemented yet!"@,
{
    "System monitoring not implemented yet!".to_owned()
}

} // verus!

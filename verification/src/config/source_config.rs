//! Settings of one watched file.

use vstd::prelude::*;

verus! {

/// One watched file.
#[derive(Clone, Debug, PartialEq, Eq)]
pub struct SourceConfig {
    /// Name under which the file's lines are grouped.
    pub name: String,
    /// Where the file lies.
    pub log_path: String,
    /// Pause between two looks at a file that has nothing new.
    pub delay_ms: u64,
}

/// `delay_ms` where the configuration names none.
pub fn default_delay_ms() -> (n: u64)
    ensures
        n == 500,
{
    500
}

} // verus!

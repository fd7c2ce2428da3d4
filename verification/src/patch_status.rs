use vstd::prelude::*;
use vstd::string::*;

verus! {

/// Lifecycle status of a patch, as management tooling records it.
/// Pure data: the build core only carries it.
#[derive(Debug, Hash, Clone, Copy, PartialEq, Eq, PartialOrd, Ord, Structural)]
pub enum PatchStatus {
    Unknown,
    NotApplied,
    Deactived,
    Actived,
}

impl PatchStatus {
    /// The stable textual rendering of each status.
    pub open spec fn spec_display(self) -> Seq<char> {
        match self {
            PatchStatus::Unknown => "UNKNOWN"@,
            PatchStatus::NotApplied => "NOT-APPLIED"@,
            PatchStatus::Deactived => "DEACTIVED"@,
            PatchStatus::Actived => "ACTIVED"@,
        }
    }

    /// Renders the status for display.
    pub fn display_string(&self) -> (r: String)
        ensures
            r@ == self.spec_display(),
    {
        match self {
            PatchStatus::Unknown => String::from_str("UNKNOWN"),
            PatchStatus::NotApplied => String::from_str("NOT-APPLIED"),
            PatchStatus::Deactived => String::from_str("DEACTIVED"),
            PatchStatus::Actived => String::from_str("ACTIVED"),
        }
    }
}

impl Default for PatchStatus {
    /// A status starts out unknown.
    fn default() -> (r: Self)
        ensures
            r == PatchStatus::Unknown,
    {
        PatchStatus::Unknown
    }
}

} // verus!

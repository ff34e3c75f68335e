//! The transient values that flow through one processing cycle: the
//! normalizer's classification of a raw submission, the reasons a
//! submission can be turned away, and the outcome the session reports for
//! each processed submission.

use vstd::prelude::*;

verus! {

/// A raw submission after normalization: rejected (trimmed text empty) or
/// accepted, carrying the trimmed text.
pub enum Submission {
    /// The trimmed text was empty; the submitting widget is told so.
    Rejected { widget: u64 },
    /// The trimmed text was non-empty.
    Accepted { widget: u64, text: Vec<u8> },
}

/// Why a submission was turned away.
#[derive(Clone, Copy, Debug, PartialEq, Eq, Structural)]
pub enum RejectReason {
    /// The submitted text was empty after trimming.
    EmptySubmission,
    /// The submitted name is already carried by another record.
    DuplicateName,
}

/// What one submission came to, as reported to the host. `Rejected`
/// outcomes drive the error feedback on the submitting widget; `Orphaned`
/// submissions are dropped silently, with no visual change, since their
/// widget is unknown to the session.
#[derive(Clone, Copy, Debug, PartialEq, Eq, Structural)]
pub enum SubmitOutcome {
    /// A new record was created.
    Created { widget: u64, npc_id: u64 },
    /// An existing record was renamed; the host should show the new name
    /// on the record's display widget.
    Renamed { widget: u64, npc_id: u64, display_widget: u64 },
    /// The submission was turned away; the submitting widget shows an
    /// error.
    Rejected { widget: u64, reason: RejectReason },
    /// The submitting widget is neither the create input nor a tracked
    /// rename input; the submission is dropped.
    Orphaned { widget: u64 },
}

} // verus!

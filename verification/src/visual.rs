//! The widget visual-state router: each widget's outline state, derived
//! fresh every cycle from this cycle's submission outcomes and the current
//! focus target.

use vstd::prelude::*;

use crate::events::SubmitOutcome;

verus! {

/// The semantic state shown on a widget's outline.
#[derive(Clone, Copy, Debug, PartialEq, Eq, Structural)]
pub enum VisualState {
    /// Not focused, nothing happened on this widget this cycle.
    Inactive,
    /// Focused, or this widget's submission went through this cycle.
    Active,
    /// This widget's submission was rejected this cycle.
    Error,
}

/// Whether some outcome of this cycle rejected a submission from widget
/// `w`.
pub open spec fn spec_rejected_for(outs: Seq<SubmitOutcome>, w: u64) -> bool {
    exists|i: int|
        0 <= i < outs.len() && ((#[trigger] outs[i]) matches SubmitOutcome::Rejected {
            widget,
            ..
        } && widget == w)
}

/// Whether some outcome of this cycle was a successful create or rename
/// submitted from widget `w`.
pub open spec fn spec_succeeded_for(outs: Seq<SubmitOutcome>, w: u64) -> bool {
    exists|i: int|
        0 <= i < outs.len() && match #[trigger] outs[i] {
            SubmitOutcome::Created { widget, .. } => widget == w,
            SubmitOutcome::Renamed { widget, .. } => widget == w,
            _ => false,
        }
}

/// The state of widget `w` this cycle: a rejection on `w` wins, then a
/// success on `w` or focus on `w`, and otherwise the widget is inactive.
/// Orphaned submissions count as nothing at all.
pub open spec fn spec_visual(outs: Seq<SubmitOutcome>, focus: Option<u64>, w: u64) -> VisualState {
    if spec_rejected_for(outs, w) {
        VisualState::Error
    } else if spec_succeeded_for(outs, w) || focus == Some(w) {
        VisualState::Active
    } else {
        VisualState::Inactive
    }
}

/// Compute the visual state of widget `w` from this cycle's outcomes and
/// the currently focused widget, by the precedence of `spec_visual`.
pub fn visual_state(outs: &Vec<SubmitOutcome>, focus: Option<u64>, w: u64) -> (r: VisualState)
    ensures
        r == spec_visual(outs@, focus, w),
{
    let mut rejected = false;
    let mut succeeded = false;
    let mut i: usize = 0;
    while i < outs.len()
        invariant
            i <= outs@.len(),
            rejected == spec_rejected_for(outs@.take(i as int), w),
            succeeded == spec_succeeded_for(outs@.take(i as int), w),
        decreases outs@.len() - i,
    {
        proof {
            assert(outs@.take(i + 1).drop_last() =~= outs@.take(i as int));
            assert(outs@.take(i + 1).last() == outs@[i as int]);
        }
        match &outs[i] {
            SubmitOutcome::Rejected { widget, .. } => {
                if *widget == w {
                    rejected = true;
                }
            },
            SubmitOutcome::Created { widget, .. } => {
                if *widget == w {
                    succeeded = true;
                }
            },
            SubmitOutcome::Renamed { widget, .. } => {
                if *widget == w {
                    succeeded = true;
                }
            },
            SubmitOutcome::Orphaned { .. } => {},
        }
        proof {
            lemma_flags_step(outs@, i as int, w);
        }
        i += 1;
    }
    proof {
        assert(outs@.take(outs@.len() as int) =~= outs@);
    }
    let focused = match focus {
        Some(f) => f == w,
        None => false,
    };
    if rejected {
        VisualState::Error
    } else if succeeded || focused {
        VisualState::Active
    } else {
        VisualState::Inactive
    }
}

/// Extending the scanned prefix by one outcome extends the rejection and
/// success findings by exactly that outcome's contribution.
proof fn lemma_flags_step(outs: Seq<SubmitOutcome>, i: int, w: u64)
    requires
        0 <= i < outs.len(),
    ensures
        spec_rejected_for(outs.take(i + 1), w) <==> spec_rejected_for(outs.take(i), w) || (
        outs[i] matches SubmitOutcome::Rejected { widget, .. } && widget == w),
        spec_succeeded_for(outs.take(i + 1), w) <==> spec_succeeded_for(outs.take(i), w) || (match outs[i] {
            SubmitOutcome::Created { widget, .. } => widget == w,
            SubmitOutcome::Renamed { widget, .. } => widget == w,
            _ => false,
        }),
{
    let pre = outs.take(i);
    let ext = outs.take(i + 1);
    assert(ext.len() == i + 1);
    assert(forall|k: int| 0 <= k < i ==> ext[k] == #[trigger] pre[k]);
    assert(ext[i] == outs[i]);
    if spec_rejected_for(pre, w) {
        let k = choose|k: int|
            0 <= k < pre.len() && ((#[trigger] pre[k]) matches SubmitOutcome::Rejected {
                widget,
                ..
            } && widget == w);
        assert(ext[k] == pre[k]);
        assert(spec_rejected_for(ext, w));
    }
    if spec_rejected_for(ext, w) {
        let k = choose|k: int|
            0 <= k < ext.len() && ((#[trigger] ext[k]) matches SubmitOutcome::Rejected {
                widget,
                ..
            } && widget == w);
        if k < i {
            assert(pre[k] == ext[k]);
            assert(spec_rejected_for(pre, w));
        }
    }
    if spec_succeeded_for(pre, w) {
        let k = choose|k: int|
            0 <= k < pre.len() && match #[trigger] pre[k] {
                SubmitOutcome::Created { widget, .. } => widget == w,
                SubmitOutcome::Renamed { widget, .. } => widget == w,
                _ => false,
            };
        assert(ext[k] == pre[k]);
        assert(spec_succeeded_for(ext, w));
    }
    if spec_succeeded_for(ext, w) {
        let k = choose|k: int|
            0 <= k < ext.len() && match #[trigger] ext[k] {
                SubmitOutcome::Created { widget, .. } => widget == w,
                SubmitOutcome::Renamed { widget, .. } => widget == w,
                _ => false,
            };
        if k < i {
            assert(pre[k] == ext[k]);
            assert(spec_succeeded_for(pre, w));
        }
    }
}

} // verus!

//! The library's laws, stated as proof functions over the same spec
//! functions the executable contracts use. Each holds of every
//! well-formed session, and every constructor and mutating operation of
//! the library ensures well-formedness, so each holds of every reachable
//! state.

use vstd::prelude::*;

use crate::events::SubmitOutcome;
use crate::identity::IdentityMap;
use crate::identity::map_stable;
use crate::session::Session;
use crate::visual::VisualState;
use crate::visual::spec_rejected_for;
use crate::visual::spec_visual;

verus! {

/// Uniqueness: in a well-formed session no two distinct records carry the
/// same name.
pub proof fn lemma_names_unique(s: Session, i: int, j: int)
    requires
        s.wf(),
        0 <= i < s.registry.npcs@.len(),
        0 <= j < s.registry.npcs@.len(),
        i != j,
    ensures
        s.registry.npcs@[i].name@ != s.registry.npcs@[j].name@,
{
}

/// A rejected submission turns exactly its own widget to the error
/// state: whatever else happened this cycle, the router colors the
/// rejected widget `Error`.
pub proof fn lemma_rejection_shows_error(outs: Seq<SubmitOutcome>, focus: Option<u64>, w: u64)
    requires
        spec_rejected_for(outs, w),
    ensures
        spec_visual(outs, focus, w) == VisualState::Error,
{
}

/// A widget that no outcome of this cycle touched and that is not
/// focused stays inactive: a rejection never colors a different widget.
pub proof fn lemma_rejection_touches_no_other(outs: Seq<SubmitOutcome>, focus: Option<u64>, w: u64)
    requires
        forall|i: int|
            0 <= i < outs.len() ==> match #[trigger] outs[i] {
                SubmitOutcome::Created { widget, .. } => widget != w,
                SubmitOutcome::Renamed { widget, .. } => widget != w,
                SubmitOutcome::Rejected { widget, .. } => widget != w,
                SubmitOutcome::Orphaned { .. } => true,
            },
        focus != Some(w),
    ensures
        spec_visual(outs, focus, w) == VisualState::Inactive,
{
}

/// Mapping stability is transitive: a chain of operations that each
/// leave every existing association in place leaves every association of
/// the first state in place.
pub proof fn lemma_map_stable_trans(m1: IdentityMap, m2: IdentityMap, m3: IdentityMap)
    requires
        map_stable(m1, m2),
        map_stable(m2, m3),
    ensures
        map_stable(m1, m3),
{
}

/// Mapping stability: once a record has its widget pair, any later state
/// reached through association-preserving operations gives it the very
/// same pair.
pub proof fn lemma_pair_stable(m1: IdentityMap, m2: IdentityMap, npc_id: u64)
    requires
        m1.wf(),
        m2.wf(),
        map_stable(m1, m2),
        m1.spec_is_mapped(npc_id),
    ensures
        m2.spec_is_mapped(npc_id),
        m2.spec_pair_of(npc_id) == m1.spec_pair_of(npc_id),
{
    let i = m1.spec_index_of(npc_id);
    assert(0 <= i < m1.entries@.len() && m1.entries@[i].npc_id == npc_id);
    assert(m2.entries@[i].npc_id == npc_id);
    assert(m2.spec_is_mapped(npc_id));
    let j = m2.spec_index_of(npc_id);
    assert(0 <= j < m2.entries@.len() && m2.entries@[j].npc_id == npc_id);
    if i < j {
        assert(m2.entries@[i].npc_id != m2.entries@[j].npc_id);
    }
    if j < i {
        assert(m2.entries@[j].npc_id != m2.entries@[i].npc_id);
    }
    assert(i == j);
}

/// Single mapping per record: a well-formed map holds at most one entry
/// for any record, however many cycles have passed.
pub proof fn lemma_single_mapping(m: IdentityMap, npc_id: u64, i: int, j: int)
    requires
        m.wf(),
        0 <= i < m.entries@.len(),
        0 <= j < m.entries@.len(),
        m.entries@[i].npc_id == npc_id,
        m.entries@[j].npc_id == npc_id,
    ensures
        i == j,
{
    if i < j {
        assert(m.entries@[i].npc_id != m.entries@[j].npc_id);
    }
    if j < i {
        assert(m.entries@[j].npc_id != m.entries@[i].npc_id);
    }
}

/// Display sync: in a well-formed session every mapped record's display
/// widget shows exactly the record's current name. Every operation of
/// the library preserves well-formedness, so this holds immediately
/// after a successful rename and at every later cycle until the next
/// one.
pub proof fn lemma_display_sync(s: Session, i: int)
    requires
        s.wf(),
        0 <= i < s.map.entries@.len(),
    ensures
        s.map.entries@[i].shown_text@ == s.registry.spec_name_of(s.map.entries@[i].npc_id),
{
}

} // verus!

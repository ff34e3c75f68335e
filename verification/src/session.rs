//! The session: one registry, one identity map, and the handle of the
//! create-input widget, processed together through the per-cycle pipeline.
//!
//! A raw submission runs through the normalizer, is dispatched by the
//! submitting widget's role (the create input, a tracked rename input, or
//! an unknown widget), passes the duplicate guard, and either mutates the
//! registry or is turned away. The maintainer half hands the host the
//! records that still need their rename/display widget pair and records
//! each pair the host spawned, exactly once per record.

use vstd::prelude::*;

use crate::events::RejectReason;
use crate::events::Submission;
use crate::events::SubmitOutcome;
use crate::identity::IdentityMap;
use crate::identity::map_stable;
use crate::registry::Registry;
use crate::text::copy_bytes;
use crate::text::normalize;
use crate::text::trim_spec;

verus! {

/// The state the core owns: the records, their widget associations, and
/// the create-input widget's handle.
pub struct Session {
    /// The named records.
    pub registry: Registry,
    /// The assign-once record-to-widget-pair association.
    pub map: IdentityMap,
    /// Handle of the single create-input widget.
    pub create_widget: u64,
}

/// How an accepted create submission of `text` on `widget` takes `s0` to
/// `s1` with outcome `out`: either the name was free and exactly one new
/// record carrying it was appended under a fresh handle, or the name was
/// taken and nothing changed.
pub open spec fn create_transition(
    s0: Session,
    s1: Session,
    widget: u64,
    text: Seq<u8>,
    out: SubmitOutcome,
) -> bool {
    match out {
        SubmitOutcome::Created { widget: w, npc_id } => {
            &&& w == widget
            &&& !s0.registry.has_name(text)
            &&& npc_id == s0.registry.npcs@.len()
            &&& s1.registry.npcs@.len() == s0.registry.npcs@.len() + 1
            &&& s1.registry.spec_name_of(npc_id) == text
            &&& forall|k: int|
                0 <= k < s0.registry.npcs@.len() ==> s1.registry.npcs@[k] == s0.registry.npcs@[k]
            &&& s1.map == s0.map
            &&& s1.create_widget == s0.create_widget
        },
        SubmitOutcome::Rejected { widget: w, reason } => {
            &&& w == widget
            &&& reason == RejectReason::DuplicateName
            &&& s0.registry.has_name(text)
            &&& s1 == s0
        },
        _ => false,
    }
}

/// How an accepted rename submission of `text` on `widget` takes `s0` to
/// `s1` with outcome `out`: an unknown widget is dropped silently; a name
/// carried by another record is rejected; otherwise exactly the owning
/// record's name and its mirrored display text change.
pub open spec fn rename_transition(
    s0: Session,
    s1: Session,
    widget: u64,
    text: Seq<u8>,
    out: SubmitOutcome,
) -> bool {
    match out {
        SubmitOutcome::Orphaned { widget: w } => {
            &&& w == widget
            &&& !s0.map.has_rename_widget(widget)
            &&& s1 == s0
        },
        SubmitOutcome::Rejected { widget: w, reason } => {
            let i = s0.map.spec_index_of_rename(widget);
            &&& w == widget
            &&& reason == RejectReason::DuplicateName
            &&& s0.map.has_rename_widget(widget)
            &&& s0.registry.spec_is_duplicate(text, Some(s0.map.entries@[i].npc_id))
            &&& s1 == s0
        },
        SubmitOutcome::Renamed { widget: w, npc_id, display_widget } => {
            let i = s0.map.spec_index_of_rename(widget);
            &&& w == widget
            &&& s0.map.has_rename_widget(widget)
            &&& npc_id == s0.map.entries@[i].npc_id
            &&& display_widget == s0.map.entries@[i].display_widget
            &&& !s0.registry.spec_is_duplicate(text, Some(npc_id))
            &&& s1.registry.npcs@.len() == s0.registry.npcs@.len()
            &&& s1.registry.spec_name_of(npc_id) == text
            &&& forall|k: int|
                0 <= k < s0.registry.npcs@.len() && k != npc_id as int ==> s1.registry.npcs@[k]
                    == s0.registry.npcs@[k]
            &&& s1.map.entries@.len() == s0.map.entries@.len()
            &&& forall|k: int|
                0 <= k < s0.map.entries@.len() && k != i ==> s1.map.entries@[k]
                    == s0.map.entries@[k]
            &&& s1.map.entries@[i].npc_id == npc_id
            &&& s1.map.entries@[i].rename_widget == widget
            &&& s1.map.entries@[i].display_widget == display_widget
            &&& s1.map.entries@[i].shown_text@ == text
            &&& s1.create_widget == s0.create_widget
        },
        _ => false,
    }
}

impl Session {
    /// Well-formedness: registry and map are each well-formed, every
    /// mapped record exists, no mapped widget doubles as the create
    /// input, and every mirrored display text equals its record's current
    /// name.
    pub open spec fn wf(self) -> bool {
        &&& self.registry.wf()
        &&& self.map.wf()
        &&& forall|i: int|
            0 <= i < self.map.entries@.len() ==> self.registry.has_id(
                (#[trigger] self.map.entries@[i]).npc_id,
            )
        &&& forall|i: int|
            0 <= i < self.map.entries@.len() ==> (#[trigger] self.map.entries@[i]).rename_widget
                != self.create_widget && self.map.entries@[i].display_widget != self.create_widget
        &&& forall|i: int|
            0 <= i < self.map.entries@.len() ==> (#[trigger] self.map.entries@[i]).shown_text@
                == self.registry.spec_name_of(self.map.entries@[i].npc_id)
    }

    /// A fresh session around the given create-input widget, with no
    /// records and no associations.
    pub fn new(create_widget: u64) -> (s: Session)
        ensures
            s.wf(),
            s.registry.npcs@.len() == 0,
            s.map.entries@.len() == 0,
            s.create_widget == create_widget,
    {
        Session { registry: Registry::new(), map: IdentityMap::new(), create_widget }
    }

    /// The creation handler: consume an accepted create submission. Runs
    /// the duplicate guard with no exclusion; a free name becomes a new
    /// record, a taken one is rejected so the widget's error feedback
    /// still fires.
    pub fn handle_create(&mut self, widget: u64, text: Vec<u8>) -> (out: SubmitOutcome)
        requires
            old(self).wf(),
            text@.len() > 0,
        ensures
            final(self).wf(),
            final(self).create_widget == old(self).create_widget,
            final(self).map == old(self).map,
            create_transition(*old(self), *final(self), widget, text@, out),
    {
        match self.registry.create(text) {
            Ok(npc_id) => SubmitOutcome::Created { widget, npc_id },
            Err(reason) => SubmitOutcome::Rejected { widget, reason },
        }
    }

    /// The rename handler: consume an accepted rename submission. The
    /// widget is resolved to its owning record through the identity map
    /// (an unmapped widget is dropped silently); the duplicate guard
    /// excludes that record itself, so re-submitting the current name is
    /// an accepted no-op. On success the record's name and the mirrored
    /// display text change and nothing else does: the record's handle and
    /// its widget pair stay as they were, and no record is created.
    pub fn handle_rename(&mut self, widget: u64, text: Vec<u8>) -> (out: SubmitOutcome)
        requires
            old(self).wf(),
            text@.len() > 0,
        ensures
            final(self).wf(),
            final(self).create_widget == old(self).create_widget,
            map_stable(old(self).map, final(self).map),
            final(self).map.entries@.len() == old(self).map.entries@.len(),
            rename_transition(*old(self), *final(self), widget, text@, out),
    {
        let resolved = self.map.resolve(widget);
        match resolved {
            None => SubmitOutcome::Orphaned { widget },
            Some(i) => {
                proof {
                    assert(self.map.has_rename_widget(widget));
                    let c = self.map.spec_index_of_rename(widget);
                    assert(0 <= c < self.map.entries@.len() && self.map.entries@[c].rename_widget
                        == widget);
                    assert(c == i as int);
                }
                let npc_id = self.map.entries[i].npc_id;
                let display_widget = self.map.entries[i].display_widget;
                let shown = copy_bytes(&text);
                match self.registry.rename(npc_id, text) {
                    Err(reason) => SubmitOutcome::Rejected { widget, reason },
                    Ok(_) => {
                        self.map.set_shown(i, shown);
                        proof {
                            assert forall|k: int|
                                0 <= k < self.map.entries@.len() implies (
                            #[trigger] self.map.entries@[k]).shown_text@
                                == self.registry.spec_name_of(self.map.entries@[k].npc_id) by {
                                if k != i as int {
                                    assert(self.map.entries@[k] == old(self).map.entries@[k]);
                                    assert(self.map.entries@[k].npc_id != npc_id);
                                }
                            }
                        }
                        SubmitOutcome::Renamed { widget, npc_id, display_widget }
                    },
                }
            },
        }
    }

    /// Process one raw submission: normalize it, dispatch it by the
    /// submitting widget's role, and report what became of it. An empty
    /// trimmed text is rejected before any role is considered, and the
    /// session is left untouched.
    pub fn submit(&mut self, widget: u64, raw: &Vec<u8>) -> (out: SubmitOutcome)
        requires
            old(self).wf(),
        ensures
            final(self).wf(),
            final(self).create_widget == old(self).create_widget,
            map_stable(old(self).map, final(self).map),
            final(self).map.entries@.len() == old(self).map.entries@.len(),
            trim_spec(raw@).len() == 0 ==> out == (SubmitOutcome::Rejected {
                widget,
                reason: RejectReason::EmptySubmission,
            }) && *final(self) == *old(self),
            trim_spec(raw@).len() > 0 && widget == old(self).create_widget ==> create_transition(
                *old(self),
                *final(self),
                widget,
                trim_spec(raw@),
                out,
            ),
            trim_spec(raw@).len() > 0 && widget != old(self).create_widget ==> rename_transition(
                *old(self),
                *final(self),
                widget,
                trim_spec(raw@),
                out,
            ),
    {
        let submission = normalize(widget, raw);
        match submission {
            Submission::Rejected { widget: w } => SubmitOutcome::Rejected {
                widget: w,
                reason: RejectReason::EmptySubmission,
            },
            Submission::Accepted { widget: w, text } => {
                if w == self.create_widget {
                    self.handle_create(w, text)
                } else {
                    self.handle_rename(w, text)
                }
            },
        }
    }

    /// The maintainer's worklist: the handles of the records that do not
    /// yet have a widget pair, each exactly once.
    pub fn unmapped(&self) -> (r: Vec<u64>)
        requires
            self.wf(),
        ensures
            forall|k: int|
                0 <= k < r@.len() ==> self.registry.has_id(#[trigger] r@[k])
                    && !self.map.spec_is_mapped(r@[k]),
            forall|id: u64|
                self.registry.has_id(id) && !self.map.spec_is_mapped(id) ==> r@.contains(id),
            forall|k: int, l: int| 0 <= k < l < r@.len() ==> r@[k] != r@[l],
    {
        let mut r: Vec<u64> = Vec::new();
        let n = self.registry.count();
        let mut i: usize = 0;
        while i < n
            invariant
                self.wf(),
                n == self.registry.npcs@.len(),
                i <= n,
                forall|k: int|
                    0 <= k < r@.len() ==> #[trigger] r@[k] < i && !self.map.spec_is_mapped(r@[k]),
                forall|id: u64| id < i && !self.map.spec_is_mapped(id) ==> r@.contains(id),
                forall|k: int, l: int| 0 <= k < l < r@.len() ==> r@[k] < r@[l],
            decreases n - i,
        {
            let id = i as u64;
            if !self.map.is_mapped(id) {
                let ghost prev = r@;
                r.push(id);
                proof {
                    assert forall|x: u64| x < i + 1 && !self.map.spec_is_mapped(x) implies
                        r@.contains(x) by {
                        if x < i as u64 {
                            assert(prev.contains(x));
                            let j = choose|j: int| 0 <= j < prev.len() && prev[j] == x;
                            assert(r@[j] == x);
                        } else {
                            assert(r@[r@.len() - 1] == x);
                        }
                    }
                }
            }
            i += 1;
        }
        r
    }

    /// The maintainer's completion step: record the widget pair the host
    /// spawned for a still-unmapped record, pre-populated with the
    /// record's current name as the display widget's text. Succeeds if
    /// and only if the record exists and is unmapped and the two widgets
    /// are fresh and distinct; otherwise nothing changes, so a record is
    /// mapped at most once and an association never changes.
    pub fn record_pair(&mut self, npc_id: u64, rename_widget: u64, display_widget: u64) -> (ok:
        bool)
        requires
            old(self).wf(),
        ensures
            final(self).wf(),
            final(self).create_widget == old(self).create_widget,
            final(self).registry == old(self).registry,
            map_stable(old(self).map, final(self).map),
            ok <==> {
                &&& old(self).registry.has_id(npc_id)
                &&& !old(self).map.spec_is_mapped(npc_id)
                &&& !old(self).map.spec_knows_widget(rename_widget)
                &&& !old(self).map.spec_knows_widget(display_widget)
                &&& rename_widget != display_widget
                &&& rename_widget != old(self).create_widget
                &&& display_widget != old(self).create_widget
            },
            ok ==> final(self).map.entries@.len() == old(self).map.entries@.len() + 1
                && final(self).map.entries@.last().npc_id == npc_id
                && final(self).map.entries@.last().rename_widget == rename_widget
                && final(self).map.entries@.last().display_widget == display_widget
                && final(self).map.entries@.last().shown_text@ == old(
                self,
            ).registry.spec_name_of(npc_id) && final(self).map.spec_is_mapped(npc_id),
            !ok ==> *final(self) == *old(self),
    {
        if rename_widget == display_widget || rename_widget == self.create_widget
            || display_widget == self.create_widget {
            return false;
        }
        if self.map.is_mapped(npc_id) {
            return false;
        }
        if self.map.knows_widget(rename_widget) || self.map.knows_widget(display_widget) {
            return false;
        }
        let name = match self.registry.name_of(npc_id) {
            Some(name) => copy_bytes(name),
            None => {
                return false;
            },
        };
        self.map.record(npc_id, rename_widget, display_widget, name);
        true
    }
}

} // verus!

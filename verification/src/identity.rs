//! The identity map: the assign-once association between a record and the
//! pair of widgets used to rename and display it.
//!
//! Each entry also mirrors the text the display widget was last told to
//! show, so the session can state that the shown text tracks the record's
//! name.

use vstd::prelude::*;

verus! {

/// One association: a record, its rename-input widget, its display-output
/// widget, and the text last pushed to that display widget.
pub struct MapEntry {
    /// Handle of the record this entry belongs to.
    pub npc_id: u64,
    /// Widget on which rename submissions for this record arrive.
    pub rename_widget: u64,
    /// Widget on which this record's name is shown.
    pub display_widget: u64,
    /// The text the display widget was last told to show.
    pub shown_text: Vec<u8>,
}

/// The assign-once map from record handles to widget pairs. Entries are
/// only ever appended; no operation revisits or removes one.
pub struct IdentityMap {
    /// The entries, in the order the records were mapped.
    pub entries: Vec<MapEntry>,
}

/// Whether `m2` extends `m1` without touching any existing association:
/// every entry of `m1` is still present in `m2`, at the same position,
/// with the same record handle and the same widget pair. (The mirrored
/// display text may change, since a rename refreshes it.)
pub open spec fn map_stable(m1: IdentityMap, m2: IdentityMap) -> bool {
    &&& m1.entries@.len() <= m2.entries@.len()
    &&& forall|i: int|
        0 <= i < m1.entries@.len() ==> (#[trigger] m2.entries@[i]).npc_id == m1.entries@[i].npc_id
            && m2.entries@[i].rename_widget == m1.entries@[i].rename_widget
            && m2.entries@[i].display_widget == m1.entries@[i].display_widget
}

impl IdentityMap {
    /// Well-formedness: each record is mapped at most once, and every
    /// widget belongs to at most one entry and at most one role.
    pub open spec fn wf(self) -> bool {
        &&& forall|i: int, j: int|
            0 <= i < j < self.entries@.len() ==> self.entries@[i].npc_id != self.entries@[j].npc_id
        &&& forall|i: int, j: int|
            0 <= i < j < self.entries@.len() ==> self.entries@[i].rename_widget
                != self.entries@[j].rename_widget
        &&& forall|i: int, j: int|
            0 <= i < j < self.entries@.len() ==> self.entries@[i].display_widget
                != self.entries@[j].display_widget
        &&& forall|i: int, j: int|
            0 <= i < self.entries@.len() && 0 <= j < self.entries@.len() ==> (
            #[trigger] self.entries@[i]).rename_widget != (#[trigger] self.entries@[j]).display_widget
    }

    /// Whether the record with handle `npc_id` has an entry.
    pub open spec fn spec_is_mapped(self, npc_id: u64) -> bool {
        exists|i: int| 0 <= i < self.entries@.len() && (#[trigger] self.entries@[i]).npc_id == npc_id
    }

    /// Whether `w` is the rename widget of some entry.
    pub open spec fn has_rename_widget(self, w: u64) -> bool {
        exists|i: int|
            0 <= i < self.entries@.len() && (#[trigger] self.entries@[i]).rename_widget == w
    }

    /// Whether `w` appears in some entry, in either role.
    pub open spec fn spec_knows_widget(self, w: u64) -> bool {
        exists|i: int|
            0 <= i < self.entries@.len() && ((#[trigger] self.entries@[i]).rename_widget == w
                || self.entries@[i].display_widget == w)
    }

    /// The position of the entry whose rename widget is `w`.
    pub open spec fn spec_index_of_rename(self, w: u64) -> int {
        choose|i: int|
            0 <= i < self.entries@.len() && (#[trigger] self.entries@[i]).rename_widget == w
    }

    /// The position of the entry whose record handle is `npc_id`.
    pub open spec fn spec_index_of(self, npc_id: u64) -> int {
        choose|i: int|
            0 <= i < self.entries@.len() && (#[trigger] self.entries@[i]).npc_id == npc_id
    }

    /// The widget pair of the record with handle `npc_id`, if mapped.
    pub open spec fn spec_pair_of(self, npc_id: u64) -> Option<(u64, u64)> {
        if self.spec_is_mapped(npc_id) {
            let e = self.entries@[self.spec_index_of(npc_id)];
            Some((e.rename_widget, e.display_widget))
        } else {
            None
        }
    }

    /// An empty map.
    pub fn new() -> (r: IdentityMap)
        ensures
            r.wf(),
            r.entries@.len() == 0,
    {
        IdentityMap { entries: Vec::new() }
    }

    /// The number of entries.
    pub fn count(&self) -> (r: usize)
        ensures
            r == self.entries@.len(),
    {
        self.entries.len()
    }

    /// Whether the record with handle `npc_id` already has its widget
    /// pair.
    pub fn is_mapped(&self, npc_id: u64) -> (r: bool)
        ensures
            r == self.spec_is_mapped(npc_id),
    {
        let mut i: usize = 0;
        while i < self.entries.len()
            invariant
                i <= self.entries@.len(),
                forall|k: int| 0 <= k < i ==> (#[trigger] self.entries@[k]).npc_id != npc_id,
            decreases self.entries@.len() - i,
        {
            if self.entries[i].npc_id == npc_id {
                return true;
            }
            i += 1;
        }
        false
    }

    /// Whether `w` appears in some entry, in either role.
    pub fn knows_widget(&self, w: u64) -> (r: bool)
        ensures
            r == self.spec_knows_widget(w),
    {
        let mut i: usize = 0;
        while i < self.entries.len()
            invariant
                i <= self.entries@.len(),
                forall|k: int|
                    0 <= k < i ==> (#[trigger] self.entries@[k]).rename_widget != w
                        && self.entries@[k].display_widget != w,
            decreases self.entries@.len() - i,
        {
            if self.entries[i].rename_widget == w || self.entries[i].display_widget == w {
                return true;
            }
            i += 1;
        }
        false
    }

    /// Resolve a rename-input widget to the position of its entry, by
    /// scanning the map for a matching rename widget. A widget that owns
    /// no entry resolves to nothing.
    pub fn resolve(&self, w: u64) -> (r: Option<usize>)
        ensures
            match r {
                Some(i) => i < self.entries@.len() && self.entries@[i as int].rename_widget == w,
                None => !self.has_rename_widget(w),
            },
    {
        let mut i: usize = 0;
        while i < self.entries.len()
            invariant
                i <= self.entries@.len(),
                forall|k: int| 0 <= k < i ==> (#[trigger] self.entries@[k]).rename_widget != w,
            decreases self.entries@.len() - i,
        {
            if self.entries[i].rename_widget == w {
                return Some(i);
            }
            i += 1;
        }
        None
    }

    /// The widget pair of the record with handle `npc_id`, if mapped.
    pub fn pair_of(&self, npc_id: u64) -> (r: Option<(u64, u64)>)
        requires
            self.wf(),
        ensures
            r == self.spec_pair_of(npc_id),
    {
        let mut i: usize = 0;
        while i < self.entries.len()
            invariant
                self.wf(),
                i <= self.entries@.len(),
                forall|k: int| 0 <= k < i ==> (#[trigger] self.entries@[k]).npc_id != npc_id,
            decreases self.entries@.len() - i,
        {
            if self.entries[i].npc_id == npc_id {
                proof {
                    assert(self.spec_is_mapped(npc_id));
                    let c = self.spec_index_of(npc_id);
                    assert(0 <= c < self.entries@.len() && self.entries@[c].npc_id == npc_id);
                    assert(c == i as int);
                }
                return Some((self.entries[i].rename_widget, self.entries[i].display_widget));
            }
            i += 1;
        }
        None
    }

    /// The text last pushed to the display widget of the record with
    /// handle `npc_id`, if that record is mapped.
    pub fn shown_of(&self, npc_id: u64) -> (r: Option<&Vec<u8>>)
        requires
            self.wf(),
        ensures
            match r {
                Some(text) => self.spec_is_mapped(npc_id) && text@ == self.entries@[self.spec_index_of(
                    npc_id,
                )].shown_text@,
                None => !self.spec_is_mapped(npc_id),
            },
    {
        let mut i: usize = 0;
        while i < self.entries.len()
            invariant
                self.wf(),
                i <= self.entries@.len(),
                forall|k: int| 0 <= k < i ==> (#[trigger] self.entries@[k]).npc_id != npc_id,
            decreases self.entries@.len() - i,
        {
            if self.entries[i].npc_id == npc_id {
                proof {
                    assert(self.spec_is_mapped(npc_id));
                    let c = self.spec_index_of(npc_id);
                    assert(0 <= c < self.entries@.len() && self.entries@[c].npc_id == npc_id);
                    assert(c == i as int);
                }
                return Some(&self.entries[i].shown_text);
            }
            i += 1;
        }
        None
    }

    /// Refresh the mirrored display text of the entry at position `i`,
    /// leaving the association itself untouched.
    pub fn set_shown(&mut self, i: usize, text: Vec<u8>)
        requires
            i < old(self).entries@.len(),
        ensures
            final(self).entries@.len() == old(self).entries@.len(),
            forall|k: int|
                0 <= k < old(self).entries@.len() && k != i ==> final(self).entries@[k] == old(
                    self,
                ).entries@[k],
            final(self).entries@[i as int].npc_id == old(self).entries@[i as int].npc_id,
            final(self).entries@[i as int].rename_widget == old(
                self,
            ).entries@[i as int].rename_widget,
            final(self).entries@[i as int].display_widget == old(
                self,
            ).entries@[i as int].display_widget,
            final(self).entries@[i as int].shown_text == text,
            map_stable(*old(self), *final(self)),
            old(self).wf() ==> final(self).wf(),
    {
        let npc_id = self.entries[i].npc_id;
        let rename_widget = self.entries[i].rename_widget;
        let display_widget = self.entries[i].display_widget;
        self.entries.set(
            i,
            MapEntry { npc_id, rename_widget, display_widget, shown_text: text },
        );
    }

    /// Append the association for a record that has none yet. The new
    /// widgets must be fresh: unknown to the map and distinct from each
    /// other. Every existing entry is untouched, so an association, once
    /// made, never changes.
    pub fn record(&mut self, npc_id: u64, rename_widget: u64, display_widget: u64, shown_text: Vec<u8>)
        requires
            old(self).wf(),
            !old(self).spec_is_mapped(npc_id),
            !old(self).spec_knows_widget(rename_widget),
            !old(self).spec_knows_widget(display_widget),
            rename_widget != display_widget,
        ensures
            final(self).wf(),
            map_stable(*old(self), *final(self)),
            final(self).entries@.len() == old(self).entries@.len() + 1,
            forall|k: int|
                0 <= k < old(self).entries@.len() ==> final(self).entries@[k] == old(
                    self,
                ).entries@[k],
            final(self).entries@.last().npc_id == npc_id,
            final(self).entries@.last().rename_widget == rename_widget,
            final(self).entries@.last().display_widget == display_widget,
            final(self).entries@.last().shown_text == shown_text,
            final(self).spec_is_mapped(npc_id),
    {
        self.entries.push(
            MapEntry { npc_id, rename_widget, display_widget, shown_text },
        );
    }
}

} // verus!

//! End-to-end scenarios driving a session the way the host UI would:
//! submissions arrive, the maintainer maps freshly created records, and
//! the router derives each widget's visual state from the cycle's
//! outcomes.

use npc_names::RejectReason;
use npc_names::Session;
use npc_names::SubmitOutcome;
use npc_names::VisualState;
use npc_names::visual_state;

/// The create-input widget handle used throughout these scenarios.
const CREATE: u64 = 1;

fn b(s: &str) -> Vec<u8> {
    s.as_bytes().to_vec()
}

/// A session holding one record "Alice" mapped to rename widget 2 and
/// display widget 3.
fn session_with_alice() -> Session {
    let mut s = Session::new(CREATE);
    let out = s.submit(CREATE, &b("Alice"));
    assert_eq!(
        out,
        SubmitOutcome::Created {
            widget: CREATE,
            npc_id: 0
        }
    );
    assert!(s.record_pair(0, 2, 3));
    s
}

#[test]
fn create_then_map_alice() {
    let mut s = Session::new(CREATE);

    let out = s.submit(CREATE, &b("Alice"));
    assert_eq!(
        out,
        SubmitOutcome::Created {
            widget: CREATE,
            npc_id: 0
        }
    );
    assert_eq!(s.registry.count(), 1);
    assert_eq!(s.registry.name_of(0), Some(&b("Alice")));

    // Next cycle: the maintainer sees exactly the new record, spawns its
    // pair, and records it with the display pre-populated.
    assert_eq!(s.unmapped(), vec![0]);
    assert!(s.record_pair(0, 2, 3));
    assert_eq!(s.map.pair_of(0), Some((2, 3)));
    assert_eq!(s.map.shown_of(0), Some(&b("Alice")));
    assert!(s.unmapped().is_empty());
}

#[test]
fn duplicate_create_rejected() {
    let mut s = session_with_alice();

    let out = s.submit(CREATE, &b("Alice"));
    assert_eq!(
        out,
        SubmitOutcome::Rejected {
            widget: CREATE,
            reason: RejectReason::DuplicateName
        }
    );
    assert_eq!(s.registry.count(), 1);
    assert_eq!(visual_state(&vec![out], None, CREATE), VisualState::Error);
}

#[test]
fn rename_alice_to_bob() {
    let mut s = session_with_alice();

    let out = s.submit(2, &b("Bob"));
    assert_eq!(
        out,
        SubmitOutcome::Renamed {
            widget: 2,
            npc_id: 0,
            display_widget: 3
        }
    );
    assert_eq!(s.registry.name_of(0), Some(&b("Bob")));
    assert_eq!(s.map.shown_of(0), Some(&b("Bob")));
    assert_eq!(visual_state(&vec![out], None, 2), VisualState::Active);
}

#[test]
fn whitespace_rejected_everywhere() {
    let mut s = session_with_alice();

    for widget in [CREATE, 2, 99] {
        let out = s.submit(widget, &b("   "));
        assert_eq!(
            out,
            SubmitOutcome::Rejected {
                widget,
                reason: RejectReason::EmptySubmission
            }
        );
        // No mutation anywhere.
        assert_eq!(s.registry.count(), 1);
        assert_eq!(s.registry.name_of(0), Some(&b("Alice")));
        assert_eq!(s.map.shown_of(0), Some(&b("Alice")));
        // Error lands on the submitting widget only.
        let outs = vec![out];
        assert_eq!(visual_state(&outs, None, widget), VisualState::Error);
        for other in [CREATE, 2, 3, 99] {
            if other != widget {
                assert_eq!(visual_state(&outs, None, other), VisualState::Inactive);
            }
        }
    }
}

#[test]
fn duplicate_rename_rejected() {
    let mut s = session_with_alice();
    let out = s.submit(CREATE, &b("Bob"));
    assert_eq!(
        out,
        SubmitOutcome::Created {
            widget: CREATE,
            npc_id: 1
        }
    );

    // Submitting "Bob" on Alice's rename widget collides with Bob.
    let out = s.submit(2, &b("Bob"));
    assert_eq!(
        out,
        SubmitOutcome::Rejected {
            widget: 2,
            reason: RejectReason::DuplicateName
        }
    );
    assert_eq!(s.registry.name_of(0), Some(&b("Alice")));
    assert_eq!(visual_state(&vec![out], None, 2), VisualState::Error);
}

#[test]
fn self_rename_is_accepted_noop() {
    let mut s = session_with_alice();

    // Re-submitting the record's own current name is not a collision
    // with itself.
    let out = s.submit(2, &b("Alice"));
    assert_eq!(
        out,
        SubmitOutcome::Renamed {
            widget: 2,
            npc_id: 0,
            display_widget: 3
        }
    );
    assert_eq!(s.registry.name_of(0), Some(&b("Alice")));
}

#[test]
fn orphan_widget_dropped_silently() {
    let mut s = session_with_alice();

    let out = s.submit(99, &b("Bob"));
    assert_eq!(out, SubmitOutcome::Orphaned { widget: 99 });
    assert_eq!(s.registry.count(), 1);
    assert_eq!(s.registry.name_of(0), Some(&b("Alice")));
    // An orphaned submission causes no visual change at all.
    assert_eq!(visual_state(&vec![out], None, 99), VisualState::Inactive);
}

#[test]
fn batch_duplicates_see_earlier_mutations() {
    let mut s = Session::new(CREATE);

    // Two identical creates in the same cycle: the second must see the
    // first's insertion, not a stale snapshot.
    let first = s.submit(CREATE, &b("Alice"));
    let second = s.submit(CREATE, &b("Alice"));
    assert_eq!(
        first,
        SubmitOutcome::Created {
            widget: CREATE,
            npc_id: 0
        }
    );
    assert_eq!(
        second,
        SubmitOutcome::Rejected {
            widget: CREATE,
            reason: RejectReason::DuplicateName
        }
    );
    assert_eq!(s.registry.count(), 1);
}

#[test]
fn mapping_never_changes() {
    let mut s = session_with_alice();

    // Whatever else happens, Alice keeps the widget pair she was given.
    s.submit(CREATE, &b("Bob"));
    s.submit(2, &b("Carol"));
    assert!(s.record_pair(1, 4, 5));
    s.submit(4, &b("Dave"));
    assert_eq!(s.map.pair_of(0), Some((2, 3)));
    assert_eq!(s.map.pair_of(1), Some((4, 5)));
}

#[test]
fn display_stays_in_sync_across_cycles() {
    let mut s = session_with_alice();

    let out = s.submit(2, &b("Bob"));
    assert_eq!(
        out,
        SubmitOutcome::Renamed {
            widget: 2,
            npc_id: 0,
            display_widget: 3
        }
    );
    // Immediately after the rename and after several later cycles the
    // display text equals the record's current name.
    assert_eq!(s.map.shown_of(0), Some(&b("Bob")));
    s.submit(CREATE, &b("Carol"));
    assert!(s.record_pair(1, 4, 5));
    s.submit(4, &b("Dana"));
    s.submit(CREATE, &b(""));
    assert_eq!(s.registry.name_of(0), Some(&b("Bob")));
    assert_eq!(s.map.shown_of(0), Some(&b("Bob")));
    // Until the next successful rename, which refreshes it.
    s.submit(2, &b("Eve"));
    assert_eq!(s.map.shown_of(0), Some(&b("Eve")));
}

#[test]
fn maintainer_maps_each_record_once() {
    let mut s = Session::new(CREATE);
    s.submit(CREATE, &b("Alice"));
    s.submit(CREATE, &b("Bob"));
    assert_eq!(s.unmapped(), vec![0, 1]);

    assert!(s.record_pair(0, 2, 3));
    assert_eq!(s.unmapped(), vec![1]);

    // A second pair for an already-mapped record is refused, however
    // many cycles elapse.
    assert!(!s.record_pair(0, 6, 7));
    assert_eq!(s.map.pair_of(0), Some((2, 3)));

    assert!(s.record_pair(1, 4, 5));
    assert!(s.unmapped().is_empty());
    assert_eq!(s.map.count(), 2);
}

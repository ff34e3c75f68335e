//! Component-level tests: the normalizer and its trimming, the input
//! filter, the registry with its duplicate guard, the identity map's
//! freshness checks, and the visual-state router's precedence.

use npc_names::IdentityMap;
use npc_names::RejectReason;
use npc_names::Registry;
use npc_names::Session;
use npc_names::Submission;
use npc_names::SubmitOutcome;
use npc_names::VisualState;
use npc_names::bytes_eq;
use npc_names::is_alphanumeric_or_whitespace;
use npc_names::is_ascii_space;
use npc_names::normalize;
use npc_names::trim;
use npc_names::visual_state;

fn b(s: &str) -> Vec<u8> {
    s.as_bytes().to_vec()
}

#[test]
fn trim_strips_edges_only() {
    assert_eq!(trim(&b("  Alice  ")), b("Alice"));
    assert_eq!(trim(&b("Alice")), b("Alice"));
    assert_eq!(trim(&b("\tAlice Bob\r\n")), b("Alice Bob"));
    assert_eq!(trim(&b("a  b")), b("a  b"));
    assert_eq!(trim(&b("")), b(""));
    assert_eq!(trim(&b("   ")), b(""));
    assert_eq!(trim(&b(" \t\r\n ")), b(""));
    assert_eq!(trim(&vec![0x0c, 0x41, 0x0c]), vec![0x41]);
}

#[test]
fn space_classification() {
    for byte in [0x20u8, 0x09, 0x0a, 0x0c, 0x0d] {
        assert!(is_ascii_space(byte));
    }
    // Vertical tab is not ASCII whitespace.
    assert!(!is_ascii_space(0x0b));
    assert!(!is_ascii_space(b'a'));
    assert!(!is_ascii_space(b'0'));
}

#[test]
fn filter_accepts_alphanumeric_and_whitespace() {
    assert!(is_alphanumeric_or_whitespace(&b("Alice Bob3")));
    assert!(is_alphanumeric_or_whitespace(&b("")));
    assert!(is_alphanumeric_or_whitespace(&b(" \t")));
    assert!(!is_alphanumeric_or_whitespace(&b("Alice!")));
    assert!(!is_alphanumeric_or_whitespace(&b("a_b")));
    // Bytes outside ASCII are refused.
    assert!(!is_alphanumeric_or_whitespace(&vec![0xc3, 0xa4]));
}

#[test]
fn normalizer_classifies_submissions() {
    match normalize(5, &b("  Alice ")) {
        Submission::Accepted { widget, text } => {
            assert_eq!(widget, 5);
            assert_eq!(text, b("Alice"));
        }
        Submission::Rejected { .. } => panic!("non-empty text must be accepted"),
    }
    match normalize(5, &b(" \t ")) {
        Submission::Rejected { widget } => assert_eq!(widget, 5),
        Submission::Accepted { .. } => panic!("blank text must be rejected"),
    }
}

#[test]
fn byte_equality() {
    assert!(bytes_eq(&b("Alice"), &b("Alice")));
    assert!(!bytes_eq(&b("Alice"), &b("Alic")));
    assert!(!bytes_eq(&b("Alice"), &b("alice")));
    assert!(bytes_eq(&b(""), &b("")));
}

#[test]
fn registry_create_and_lookup() {
    let mut r = Registry::new();
    assert_eq!(r.create(b("Alice")), Ok(0));
    assert_eq!(r.create(b("Bob")), Ok(1));
    assert_eq!(r.create(b("Alice")), Err(RejectReason::DuplicateName));
    assert_eq!(r.count(), 2);
    assert_eq!(r.lookup(&b("Alice")), Some(0));
    assert_eq!(r.lookup(&b("Bob")), Some(1));
    assert_eq!(r.lookup(&b("Carol")), None);
    assert_eq!(r.name_of(1), Some(&b("Bob")));
    assert_eq!(r.name_of(2), None);
}

#[test]
fn duplicate_guard_exclusion() {
    let mut r = Registry::new();
    r.create(b("Alice")).unwrap();
    r.create(b("Bob")).unwrap();
    assert!(r.is_duplicate(&b("Alice"), None));
    // The record itself is excluded for a rename.
    assert!(!r.is_duplicate(&b("Alice"), Some(0)));
    assert!(r.is_duplicate(&b("Alice"), Some(1)));
    assert!(!r.is_duplicate(&b("Carol"), None));
}

#[test]
fn registry_rename() {
    let mut r = Registry::new();
    r.create(b("Alice")).unwrap();
    r.create(b("Bob")).unwrap();
    assert_eq!(r.rename(0, b("Bob")), Err(RejectReason::DuplicateName));
    assert_eq!(r.name_of(0), Some(&b("Alice")));
    assert_eq!(r.rename(0, b("Carol")), Ok(()));
    assert_eq!(r.name_of(0), Some(&b("Carol")));
    // Renaming to the record's own current name is an accepted no-op.
    assert_eq!(r.rename(0, b("Carol")), Ok(()));
    assert_eq!(r.name_of(0), Some(&b("Carol")));
    assert_eq!(r.count(), 2);
}

#[test]
fn identity_map_resolution() {
    let mut m = IdentityMap::new();
    m.record(0, 2, 3, b("Alice"));
    m.record(1, 4, 5, b("Bob"));
    assert_eq!(m.count(), 2);
    assert_eq!(m.resolve(2), Some(0));
    assert_eq!(m.resolve(4), Some(1));
    // Display widgets and unknown handles resolve to nothing.
    assert_eq!(m.resolve(3), None);
    assert_eq!(m.resolve(99), None);
    assert_eq!(m.pair_of(0), Some((2, 3)));
    assert_eq!(m.pair_of(7), None);
    assert_eq!(m.shown_of(1), Some(&b("Bob")));
    assert!(m.knows_widget(3));
    assert!(!m.knows_widget(99));
}

#[test]
fn record_pair_freshness_checks() {
    let mut s = Session::new(1);
    s.submit(1, &b("Alice"));
    s.submit(1, &b("Bob"));
    assert!(s.record_pair(0, 2, 3));

    // A record that does not exist.
    assert!(!s.record_pair(5, 8, 9));
    // A record that is already mapped.
    assert!(!s.record_pair(0, 8, 9));
    // A widget already taken, in either role.
    assert!(!s.record_pair(1, 2, 9));
    assert!(!s.record_pair(1, 8, 3));
    // The two widgets must be distinct.
    assert!(!s.record_pair(1, 8, 8));
    // Neither may be the create input.
    assert!(!s.record_pair(1, 1, 9));
    assert!(!s.record_pair(1, 8, 1));
    // Nothing of all that was recorded.
    assert_eq!(s.map.count(), 1);

    assert!(s.record_pair(1, 8, 9));
    assert_eq!(s.map.pair_of(1), Some((8, 9)));
}

#[test]
fn router_precedence() {
    let rejected = SubmitOutcome::Rejected {
        widget: 4,
        reason: RejectReason::EmptySubmission,
    };
    let created = SubmitOutcome::Created {
        widget: 4,
        npc_id: 0,
    };
    let renamed = SubmitOutcome::Renamed {
        widget: 4,
        npc_id: 0,
        display_widget: 9,
    };
    let orphaned = SubmitOutcome::Orphaned { widget: 4 };

    // A rejection wins over success and over focus.
    assert_eq!(
        visual_state(&vec![created, rejected], Some(4), 4),
        VisualState::Error
    );
    // Success makes the widget active, focused or not.
    assert_eq!(visual_state(&vec![created], None, 4), VisualState::Active);
    assert_eq!(visual_state(&vec![renamed], None, 4), VisualState::Active);
    // Focus alone makes it active.
    assert_eq!(visual_state(&vec![], Some(4), 4), VisualState::Active);
    // Nothing at all leaves it inactive.
    assert_eq!(visual_state(&vec![], None, 4), VisualState::Inactive);
    assert_eq!(visual_state(&vec![orphaned], None, 4), VisualState::Inactive);
    // Another widget's outcomes do not color this one.
    assert_eq!(visual_state(&vec![rejected], None, 5), VisualState::Inactive);
    assert_eq!(
        visual_state(&vec![rejected], Some(5), 5),
        VisualState::Active
    );
}

//! Core logic for a small UI flow in which a user creates named records
//! ("NPCs") through one text input and renames each record through its own
//! dedicated input.
//!
//! The library owns the decisions of that flow: trimming and classifying a
//! raw submission, guarding against duplicate names, creating and renaming
//! records, keeping the assign-once association between a record and its
//! rename/display widget pair, and deriving each widget's visual state.
//! The host UI runtime performs the surrounding work (spawning widgets,
//! reporting submissions and focus, recoloring outlines) and hands this
//! library plain values: widget handles as `u64` and text as ASCII bytes.

mod events;
mod greet;
mod identity;
mod laws;
mod registry;
mod session;
mod text;
mod visual;

pub use events::RejectReason;
pub use events::Submission;
pub use events::SubmitOutcome;
pub use greet::GreetPlugin;
pub use greet::Person;
pub use greet::find_first;
pub use identity::IdentityMap;
pub use identity::MapEntry;
pub use identity::map_stable;
pub use laws::lemma_display_sync;
pub use laws::lemma_map_stable_trans;
pub use laws::lemma_names_unique;
pub use laws::lemma_pair_stable;
pub use laws::lemma_rejection_shows_error;
pub use laws::lemma_rejection_touches_no_other;
pub use laws::lemma_single_mapping;
pub use registry::Npc;
pub use registry::Registry;
pub use registry::bytes_eq;
pub use session::Session;
pub use session::create_transition;
pub use session::rename_transition;
pub use text::copy_bytes;
pub use text::is_alphanumeric_or_whitespace;
pub use text::is_ascii_space;
pub use text::normalize;
pub use text::trim;
pub use visual::VisualState;
pub use visual::spec_rejected_for;
pub use visual::spec_succeeded_for;
pub use visual::spec_visual;
pub use visual::visual_state;

//! Verified core of a C-style boundary layer over the `zenoh` pub/sub
//! library.
//!
//! The crate models the opaque "owned handle" scheme of such a boundary: a
//! handle either owns a live native resource or is empty, and every
//! destroying operation leaves it empty so that a second destruction is a
//! safe no-op. The subscriber lifecycle (declare, check, undeclare) is the
//! worked-out instance of that scheme.

mod closures;
pub mod platform;
mod sample;
mod subscriber;

pub use closures::ClosureSlot;
pub use platform::aarch64::z_owned_keyexpr_t;
pub use platform::aarch64::z_owned_publisher_t;
pub use platform::aarch64::z_owned_queryable_t;
pub use platform::aarch64::z_owned_session_t;
pub use sample::build_sample;
pub use sample::z_sample_t;
pub use subscriber::declare_action_spec;
pub use subscriber::lemma_check_null;
pub use subscriber::lemma_declare_invalid_session;
pub use subscriber::lemma_default_options_equivalence;
pub use subscriber::lemma_native_reliability_round_trip;
pub use subscriber::lemma_reliability_round_trip;
pub use subscriber::lemma_undeclare_idempotent;
pub use subscriber::null_handle;
pub use subscriber::default_options;
pub use subscriber::resolved_reliability;
pub use subscriber::to_boundary;
pub use subscriber::to_native;
pub use subscriber::undeclare_status_spec;
pub use subscriber::DeclareAction;
pub use subscriber::z_declare_subscriber_action;
pub use subscriber::z_declare_subscriber_result;
pub use subscriber::z_owned_subscriber_t;
pub use subscriber::z_reliability_t;
pub use subscriber::z_subscriber_check;
pub use subscriber::z_subscriber_null;
pub use subscriber::z_subscriber_options_default;
pub use subscriber::z_subscriber_options_t;
pub use subscriber::z_undeclare_subscriber_status;
pub use subscriber::Reliability;

use zenohc::build_sample;
use zenohc::z_declare_subscriber_action;
use zenohc::z_declare_subscriber_result;
use zenohc::z_owned_subscriber_t;
use zenohc::z_reliability_t;
use zenohc::z_subscriber_check;
use zenohc::z_subscriber_null;
use zenohc::z_subscriber_options_default;
use zenohc::z_subscriber_options_t;
use zenohc::z_undeclare_subscriber_status;
use zenohc::ClosureSlot;
use zenohc::DeclareAction;
use zenohc::Reliability;

#[test]
fn check_of_null_handle_is_false() {
    let h = z_subscriber_null();
    assert!(!z_subscriber_check(&h));
    let h2 = z_owned_subscriber_t::null();
    assert!(!z_subscriber_check(&h2));
}

#[test]
fn default_options_reliability_is_best_effort() {
    let opts = z_subscriber_options_default();
    assert_eq!(opts.reliability, z_reliability_t::BEST_EFFORT);
}

#[test]
fn reliability_round_trip_both_values() {
    for v in [z_reliability_t::BEST_EFFORT, z_reliability_t::RELIABLE] {
        let native = Reliability::from(v);
        let back = z_reliability_t::from(native);
        assert_eq!(back, v);
    }
}

#[test]
fn native_reliability_round_trip_both_values() {
    for r in [Reliability::BestEffort, Reliability::Reliable] {
        let boundary = z_reliability_t::from(r);
        let back = Reliability::from(boundary);
        assert_eq!(back, r);
    }
}

#[test]
fn declare_action_with_null_options_equals_explicit_default() {
    let with_null = z_declare_subscriber_action(true, None);
    let with_default = z_declare_subscriber_action(true, Some(z_subscriber_options_default()));
    assert_eq!(with_null, with_default);
    assert_eq!(
        with_null,
        DeclareAction::Declare { reliability: Reliability::BestEffort },
    );
}

#[test]
fn declare_action_resolves_explicit_reliability() {
    let opts = z_subscriber_options_t { reliability: z_reliability_t::RELIABLE };
    let action = z_declare_subscriber_action(true, Some(opts));
    assert_eq!(action, DeclareAction::Declare { reliability: Reliability::Reliable });
}

#[test]
fn declare_with_invalid_session_makes_no_native_call() {
    // A call-counting stub: the native declaration would run only inside
    // the `Declare` arm, exactly as the unverified rim runs it.
    let mut native_calls: u32 = 0;
    let action = z_declare_subscriber_action(false, None);
    let h = match action {
        DeclareAction::Declare { reliability: _ } => {
            native_calls += 1;
            z_owned_subscriber_t::null()
        }
        DeclareAction::SkipInvalidSession => z_owned_subscriber_t::null(),
    };
    assert_eq!(native_calls, 0);
    assert!(!z_subscriber_check(&h));
}

#[test]
fn declare_result_without_resource_is_null() {
    let h = z_declare_subscriber_result(None);
    assert!(!z_subscriber_check(&h));
}

#[test]
fn undeclare_status_success_and_error_paths() {
    assert_eq!(z_undeclare_subscriber_status(false, None), 0);
    assert_eq!(z_undeclare_subscriber_status(true, None), 0);
    assert_eq!(z_undeclare_subscriber_status(true, Some(-17)), -17);
}

#[test]
fn undeclare_twice_on_empty_handle_returns_success_twice() {
    let mut h = z_subscriber_null();

    let first = h.take();
    assert!(first.is_none());
    let status1 = z_undeclare_subscriber_status(first.is_some(), None);

    let second = h.take();
    assert!(second.is_none());
    let status2 = z_undeclare_subscriber_status(second.is_some(), None);

    assert_eq!(status1, 0);
    assert_eq!(status2, 0);
    assert!(!z_subscriber_check(&h));
}

#[test]
fn sample_record_keeps_payload_and_keyexpr() {
    let s = build_sample(String::from("a/b"), vec![0x41, 0x42, 0x43], 0, 0, None);
    assert_eq!(s.payload.len(), 3);
    assert_eq!(s.payload, vec![0x41, 0x42, 0x43]);
    assert_eq!(s.keyexpr, "a/b");
    assert_eq!(s.encoding, 0);
    assert_eq!(s.kind, 0);
    assert_eq!(s.timestamp, None);
}

#[test]
fn closure_slot_take_leaves_empty_sentinel() {
    let mut callers_slot = ClosureSlot::filled(|x: u32| x + 1);

    let moved = callers_slot.take();
    let f = moved.inner.expect("the moved slot owns the callback");
    assert_eq!(f(1), 2);

    // The caller's original slot now holds the empty sentinel: invoking it
    // is a no-op, and draining it again yields nothing.
    assert!(callers_slot.inner.is_none());
    let drained_again = callers_slot.take();
    assert!(drained_again.inner.is_none());
}

#[test]
fn wire_sizes_match_the_table() {
    assert_eq!(std::mem::size_of::<zenohc::z_owned_keyexpr_t>(), 32);
    assert_eq!(std::mem::size_of::<zenohc::z_owned_session_t>(), 24);
    assert_eq!(std::mem::size_of::<zenohc::z_owned_queryable_t>(), 32);
    assert_eq!(std::mem::size_of::<zenohc::z_owned_publisher_t>(), 56);
    assert_eq!(std::mem::size_of::<zenohc::platform::aarch64::z_owned_reply_t>(), 192);
    assert_eq!(std::mem::size_of::<zenohc::platform::x86_64::z_owned_reply_t>(), 184);
}

#[test]
fn wire_alignments_are_word_sized() {
    assert_eq!(std::mem::align_of::<zenohc::z_owned_keyexpr_t>(), 8);
    assert_eq!(std::mem::align_of::<zenohc::z_owned_session_t>(), 8);
    assert_eq!(std::mem::align_of::<zenohc::z_owned_queryable_t>(), 8);
    assert_eq!(std::mem::align_of::<zenohc::z_owned_publisher_t>(), 8);
    assert_eq!(std::mem::align_of::<zenohc::platform::aarch64::z_owned_reply_t>(), 8);
    assert_eq!(std::mem::align_of::<zenohc::platform::x86_64::z_owned_reply_t>(), 8);
}

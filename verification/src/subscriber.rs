//! The subscriber lifecycle: reliability modes, declaration options, the
//! owned subscriber handle, and the declare / check / undeclare protocol.

use vstd::prelude::*;

verus! {

/// The subscription reliability, as the boundary exposes it.
///
///     - **Z_RELIABILITY_BEST_EFFORT**
///     - **Z_RELIABILITY_RELIABLE**
#[allow(non_camel_case_types)]
#[derive(Clone, Copy, Debug, PartialEq, Eq, Structural)]
pub enum z_reliability_t {
    BEST_EFFORT,
    RELIABLE,
}

/// The native library's subscription reliability, modelled as a plain
/// two-variant enumeration. The unverified rim converts a value of this type
/// into `zenoh`'s own reliability enumeration, variant for variant, at the
/// point of the native call.
#[derive(Clone, Copy, Debug, PartialEq, Eq, Structural)]
pub enum Reliability {
    BestEffort,
    Reliable,
}

/// The boundary value standing for a native reliability.
pub open spec fn to_boundary(r: Reliability) -> z_reliability_t {
    match r {
        Reliability::BestEffort => z_reliability_t::BEST_EFFORT,
        Reliability::Reliable => z_reliability_t::RELIABLE,
    }
}

/// The native reliability standing behind a boundary value.
pub open spec fn to_native(v: z_reliability_t) -> Reliability {
    match v {
        z_reliability_t::BEST_EFFORT => Reliability::BestEffort,
        z_reliability_t::RELIABLE => Reliability::Reliable,
    }
}

impl core::convert::From<Reliability> for z_reliability_t {
    fn from(r: Reliability) -> (v: z_reliability_t) {
        match r {
            Reliability::BestEffort => z_reliability_t::BEST_EFFORT,
            Reliability::Reliable => z_reliability_t::RELIABLE,
        }
    }
}

impl vstd::std_specs::convert::FromSpecImpl<Reliability> for z_reliability_t {
    open spec fn obeys_from_spec() -> bool {
        true
    }

    open spec fn from_spec(r: Reliability) -> z_reliability_t {
        to_boundary(r)
    }
}

impl core::convert::From<z_reliability_t> for Reliability {
    fn from(v: z_reliability_t) -> (r: Reliability) {
        match v {
            z_reliability_t::BEST_EFFORT => Reliability::BestEffort,
            z_reliability_t::RELIABLE => Reliability::Reliable,
        }
    }
}

impl vstd::std_specs::convert::FromSpecImpl<z_reliability_t> for Reliability {
    open spec fn obeys_from_spec() -> bool {
        true
    }

    open spec fn from_spec(v: z_reliability_t) -> Reliability {
        to_native(v)
    }
}

/// Options passed to the subscriber declaration.
#[allow(non_camel_case_types)]
#[derive(Clone, Copy, Debug, PartialEq, Eq, Structural)]
pub struct z_subscriber_options_t {
    /// The subscription reliability.
    pub reliability: z_reliability_t,
}

/// The default options record: the native library's default subscription
/// reliability, carried to the boundary.
pub open spec fn default_options() -> z_subscriber_options_t {
    z_subscriber_options_t { reliability: z_reliability_t::BEST_EFFORT }
}

/// Relies on `zenoh_protocol_core::SubInfo::default`: its `reliability`
/// field is `Reliability::default()`, which that crate defines as the
/// best-effort variant.
#[verifier::external_body]
fn native_default_reliability() -> (r: Reliability)
    ensures
        r == Reliability::BestEffort,
{
    match zenoh_protocol_core::SubInfo::default().reliability {
        zenoh_protocol_core::Reliability::BestEffort => Reliability::BestEffort,
        zenoh_protocol_core::Reliability::Reliable => Reliability::Reliable,
    }
}

/// Constructs the default value of [`z_subscriber_options_t`]: the native
/// library's own default subscription reliability.
pub fn z_subscriber_options_default() -> (opts: z_subscriber_options_t)
    ensures
        opts == default_options(),
{
    let r = native_default_reliability();
    z_subscriber_options_t { reliability: z_reliability_t::from(r) }
}

/// Converting a boundary reliability to the native enumeration and back
/// yields the original value: the two-value mapping is a bijection.
pub proof fn lemma_reliability_round_trip(v: z_reliability_t)
    ensures
        to_boundary(to_native(v)) == v,
{
}

/// The companion direction: a native reliability survives the trip through
/// the boundary enumeration unchanged.
pub proof fn lemma_native_reliability_round_trip(r: Reliability)
    ensures
        to_native(to_boundary(r)) == r,
{
}

/// Relies on `zenoh::subscriber::Subscriber` being an ordinary owned type.
/// The subscriber resource is opaque to this crate: handles carry it, and
/// only the unverified rim creates one or tears one down.
#[verifier::external_type_specification]
#[verifier::external_body]
#[verifier::reject_recursive_types(Receiver)]
pub struct ExSubscriber<'a, Receiver>(zenoh::subscriber::Subscriber<'a, Receiver>);

/// An owned subscriber handle: either it owns a live native subscription,
/// or it is empty. Every destroying operation takes the handle by mutable
/// reference and leaves it empty, so destroying twice is a safe no-op.
///
/// At the boundary itself a handle travels as a fixed-size byte array; the
/// unverified rim performs that reinterpretation. All logic in this crate
/// works on the present-or-absent form below, never on raw bytes.
#[allow(non_camel_case_types)]
pub struct z_owned_subscriber_t {
    /// The owned native resource, or `None` for an empty handle.
    pub inner: Option<Box<zenoh::subscriber::Subscriber<'static, ()>>>,
}

/// The empty handle, as a value of the model: what [`z_owned_subscriber_t::null`]
/// constructs and what every drain leaves behind.
pub open spec fn null_handle() -> z_owned_subscriber_t {
    z_owned_subscriber_t { inner: Option::None }
}

impl z_owned_subscriber_t {
    /// A handle is valid exactly when it owns a live subscription.
    pub open spec fn is_valid(&self) -> bool {
        self.inner is Some
    }

    /// Wraps a freshly declared native subscription into a valid handle
    /// that owns exactly that subscription.
    pub fn new(sub: zenoh::subscriber::Subscriber<'static, ()>) -> (h: Self)
        ensures
            h.is_valid(),
            h.inner matches Some(b) && *b == sub,
    {
        z_owned_subscriber_t { inner: Some(Box::new(sub)) }
    }

    /// The empty handle: owns nothing, safe to drop, invalid.
    pub fn null() -> (h: Self)
        ensures
            h == null_handle(),
            !h.is_valid(),
    {
        z_owned_subscriber_t { inner: None }
    }

    /// Drains the handle, handing its resource (if any) to the caller and
    /// leaving the handle empty whatever it held before.
    pub fn take(&mut self) -> (r: Option<Box<zenoh::subscriber::Subscriber<'static, ()>>>)
        ensures
            !final(self).is_valid(),
            r == old(self).inner,
            r is Some <==> old(self).is_valid(),
    {
        self.inner.take()
    }
}

/// What one declare request asks of the native library.
#[derive(Clone, Copy, Debug, PartialEq, Eq, Structural)]
pub enum DeclareAction {
    /// The session handle was empty: no native call may be made, and the
    /// caller receives an empty subscriber handle.
    SkipInvalidSession,
    /// Declare a native subscription with this reliability.
    Declare {
        /// The reliability the request resolved to.
        reliability: Reliability,
    },
}

/// The reliability a declare request resolves to: an absent options record
/// means exactly the default record.
pub open spec fn resolved_reliability(opts: Option<z_subscriber_options_t>) -> Reliability {
    match opts {
        Option::Some(o) => to_native(o.reliability),
        Option::None => to_native(default_options().reliability),
    }
}

/// The decision a declare call takes before any native work happens.
pub open spec fn declare_action_spec(
    session_valid: bool,
    opts: Option<z_subscriber_options_t>,
) -> DeclareAction {
    if session_valid {
        DeclareAction::Declare { reliability: resolved_reliability(opts) }
    } else {
        DeclareAction::SkipInvalidSession
    }
}

/// Decides what a declare call does: with an empty session handle, nothing
/// native at all; otherwise a declaration with the resolved reliability,
/// where an absent options record resolves to the default one.
///
/// The unverified rim performs the native call only when the returned
/// action says so, and feeds the outcome to
/// [`z_declare_subscriber_result`].
pub fn z_declare_subscriber_action(
    session_valid: bool,
    opts: Option<z_subscriber_options_t>,
) -> (a: DeclareAction)
    ensures
        a == declare_action_spec(session_valid, opts),
{
    if session_valid {
        let o = match opts {
            Some(o) => o,
            None => z_subscriber_options_default(),
        };
        DeclareAction::Declare { reliability: Reliability::from(o.reliability) }
    } else {
        DeclareAction::SkipInvalidSession
    }
}

/// Wraps the outcome of a declare call into the handle the caller receives:
/// a valid handle exactly when the native library handed back a live
/// subscription, the empty handle when it failed or was never asked.
pub fn z_declare_subscriber_result(
    res: Option<zenoh::subscriber::Subscriber<'static, ()>>,
) -> (h: z_owned_subscriber_t)
    ensures
        h.is_valid() <==> res is Some,
        res matches Some(sub) ==> h.inner matches Some(b) && *b == sub,
{
    match res {
        Some(sub) => z_owned_subscriber_t::new(sub),
        None => z_owned_subscriber_t::null(),
    }
}

/// The status code one undeclare step reports: `resource_taken` says whether
/// draining the handle produced a live resource (whose teardown then ran),
/// and `teardown_error` is the native error number when that teardown
/// failed. Success is `0`; a teardown failure surfaces verbatim.
pub open spec fn undeclare_status_spec(resource_taken: bool, teardown_error: Option<i8>) -> i8 {
    if resource_taken {
        match teardown_error {
            Option::Some(e) => e,
            Option::None => 0,
        }
    } else {
        0
    }
}

/// Computes the status code of one undeclare step. A teardown error can
/// only exist where a resource was drained and torn down, and the native
/// library reports errors as nonzero numbers.
pub fn z_undeclare_subscriber_status(resource_taken: bool, teardown_error: Option<i8>) -> (status:
    i8)
    requires
        teardown_error is Some ==> resource_taken,
        teardown_error matches Some(e) ==> e != 0,
    ensures
        status == undeclare_status_spec(resource_taken, teardown_error),
        status == 0 <==> teardown_error is None,
{
    match teardown_error {
        Some(e) => e,
        None => 0,
    }
}

/// Undeclaring is idempotent. `h0` is the handle before the first
/// undeclare, `h1` after the first call's drain, `h2` after the second
/// call's drain; each error is the native teardown error of that call, if
/// its teardown ran and failed. The premises are exactly what
/// [`z_owned_subscriber_t::take`] guarantees and what a teardown needs (a
/// drained resource): under them the second call's status is success,
/// whatever the first call returned.
pub proof fn lemma_undeclare_idempotent(
    h0: z_owned_subscriber_t,
    h1: z_owned_subscriber_t,
    first_error: Option<i8>,
    h2: z_owned_subscriber_t,
    second_error: Option<i8>,
)
    requires
        !h1.is_valid(),
        !h2.is_valid(),
        first_error is Some ==> h0.is_valid(),
        second_error is Some ==> h1.is_valid(),
    ensures
        undeclare_status_spec(h1.is_valid(), second_error) == 0,
{
}

/// Declaring with an absent options record asks for exactly the same native
/// declaration as declaring with the explicitly constructed default record.
pub proof fn lemma_default_options_equivalence(session_valid: bool)
    ensures
        declare_action_spec(session_valid, Option::None) == declare_action_spec(
            session_valid,
            Option::Some(default_options()),
        ),
{
}

/// With an empty session handle the declare decision is always to skip:
/// no native call is requested, whatever options were passed.
pub proof fn lemma_declare_invalid_session(opts: Option<z_subscriber_options_t>)
    ensures
        declare_action_spec(false, opts) is SkipInvalidSession,
{
}

/// A handle fresh from the null constructor never checks as valid.
pub proof fn lemma_check_null()
    ensures
        !null_handle().is_valid(),
{
}

/// Constructs a null, safe-to-drop value of [`z_owned_subscriber_t`] type.
pub fn z_subscriber_null() -> (h: z_owned_subscriber_t)
    ensures
        h == null_handle(),
        !h.is_valid(),
{
    z_owned_subscriber_t::null()
}

/// Returns `true` iff `sub` is a valid subscriber handle.
pub fn z_subscriber_check(sub: &z_owned_subscriber_t) -> (r: bool)
    ensures
        r == sub.is_valid(),
{
    sub.inner.is_some()
}

} // verus!

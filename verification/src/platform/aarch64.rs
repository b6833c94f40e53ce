//! Wire representations sized for 64-bit targets of the aarch64 kind.

use vstd::prelude::*;

verus! {

/// A zenoh-allocated key expression, as it travels across the boundary:
/// four 64-bit words standing in for the native owned key-expression type.
#[allow(non_camel_case_types)]
pub struct z_owned_keyexpr_t(pub [u64; 4]);

/// An owned session, as it travels across the boundary: three 64-bit words
/// standing in for the native optional session handle.
#[allow(non_camel_case_types)]
pub struct z_owned_session_t(pub [u64; 3]);

/// An owned queryable, as it travels across the boundary: four 64-bit words
/// standing in for the native optional queryable handle.
#[allow(non_camel_case_types)]
pub struct z_owned_queryable_t(pub [u64; 4]);

/// An owned reply, as it travels across the boundary: twenty-four 64-bit
/// words standing in for the native reply value.
#[allow(non_camel_case_types)]
pub struct z_owned_reply_t(pub [u64; 24]);

/// An owned publisher, as it travels across the boundary: seven 64-bit
/// words standing in for the native optional publisher handle.
#[allow(non_camel_case_types)]
pub struct z_owned_publisher_t(pub [u64; 7]);

} // verus!

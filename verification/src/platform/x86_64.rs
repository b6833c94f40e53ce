//! Wire representations sized for 64-bit targets of the x86_64 kind.

use vstd::prelude::*;

verus! {

/// An owned reply, as it travels across the boundary on this target:
/// twenty-three 64-bit words standing in for the native reply value. The
/// declared size differs from the aarch64 table's by one word; the table is
/// the contract, and the size-assertion tests hold each target to its row.
#[allow(non_camel_case_types)]
pub struct z_owned_reply_t(pub [u64; 23]);

} // verus!

//! Per-architecture wire representations of the owned handles.
//!
//! Each handle kind crosses the boundary as a fixed-size array whose size is
//! declared here per target, as a contract table kept in lock-step with the
//! native library's internal struct sizes. The table is maintained by
//! convention and covered by size-assertion tests: the build-time guard in
//! the unverified rim checks alignment only, never size.

pub mod aarch64;
pub mod x86_64;

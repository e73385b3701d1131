//! Safe, verified core of a wrapper around a dynamically loaded shader
//! converter library.
//!
//! The native library is reached only through a table of entry points that an
//! unverified shim resolves by name and invokes. Everything this crate owns is
//! verified: the bit-exact descriptor and draw-argument encoders, the error
//! translation, the completeness check on the resolved entry-point table, and
//! the handle layer, which describes each native call as a plain value and
//! interprets its outcome, so that every handle is released exactly once and
//! through the release entry point paired with the call that created it.
#![allow(non_snake_case)]

pub mod audit;
pub mod bitfield;
pub mod calls;
pub mod layout;
pub mod descriptor;
pub mod draw;
pub mod handles;
pub mod error;
pub mod records;
pub mod reflection;
pub mod rootsig;
pub mod table;

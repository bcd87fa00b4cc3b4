//! Building blocks for observers of operating-system power notifications.
//!
//! The native notification mechanism hands an opaque context pointer and a
//! payload to a fixed-signature callback on an arbitrary thread.  This crate
//! holds the parts of that pattern that are pure logic: the lifecycle
//! discipline that frees the callback context exactly once and never while
//! the native side could still reach it, the validation and decoding of
//! setting-change payloads, and the mapping of decoded values to
//! descriptions.  The thin unsafe glue around the native calls lives with
//! the caller.

pub mod describe;
pub mod dispatch;
pub mod lifecycle;

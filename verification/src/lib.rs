//! Panic unwinding on top of a libgcc/libunwind-style stack unwinder.
//!
//! The crate holds the decisions of the unwinding bridge as pure functions on
//! plain values, each with a verified contract:
//!
//! * [`registers`]: the per-architecture pair of registers through which a
//!   landing pad receives the exception pointer and the selector;
//! * [`eh`]: the per-frame action and the lookup context handed to the
//!   metadata decoder;
//! * [`personality`]: the per-frame state machine of the two-phase protocol;
//! * [`envelope`]: the exception envelope and its raise/cleanup lifecycle.
//!
//! Talking to the unwinder itself (raising, reading a frame, writing its
//! registers) is left to the caller, which feeds what it read into these
//! functions and carries out what they decide.

pub mod eh;
pub mod envelope;
pub mod personality;
pub mod reason;
pub mod registers;

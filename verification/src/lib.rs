//! A value-marshaling layer for plugins that exchange data with a host
//! process across an ABI boundary.
//!
//! The host supplies a flat table of function addresses at load time; the
//! [`host::Host`] binder resolves that table into write-once capability
//! slots, gated on a negotiated version.  On top of the resolved
//! capabilities the library offers the three foreign-owned container types:
//! an owned string ([`string::Str`]), an owned dynamic array
//! ([`vector::Arr`]) generic over the element kinds the host supports, and
//! a tagged union ([`variant::Var`]) whose discriminant always names the
//! active payload.  The contracts state the invariants that keep the
//! cross-boundary ownership safe: slots are written exactly once, binding
//! is all-or-nothing, every owned value is destroyed exactly once, and a
//! variant's discriminant and payload are never observable out of sync.

pub mod host;
pub mod kinds;
pub mod plugin;
pub mod string;
pub mod values;
pub mod variant;
pub mod vector;

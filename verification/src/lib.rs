//! A verified core for a DAB-to-RDK protocol bridge.
//!
//! The bridge translates device-automation requests (list applications,
//! gather device information, inject single and long key presses) into
//! JSON-RPC calls against the RDK/Thunder control plane and reshapes the
//! replies into DAB responses.  This crate holds the decision logic of
//! that translation: reply interpretation, interface ordering, display
//! classification, IP enrichment, key routing, volume stepping and the
//! long-press duration floor.  The surrounding process (HTTP transport,
//! JSON encoding and decoding, clocks and sleeps) hands plain values in
//! and carries the planned calls out.

use vstd::prelude::*;

pub mod applications;
pub mod device_info;
pub mod error;
pub mod key;
pub mod key_press;
pub mod long_key_press;
pub mod rdk;
pub mod text;

verus! {

/// The fixed step, in volume units, by which one volume key press moves
/// the persisted volume level.
pub const VOLUME_STEP: u32 = 5;

} // verus!

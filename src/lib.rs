//! Decoding and polling logic for a USB weather station read over control
//! transfers: endpoint discovery over a descriptor tree, device matching,
//! the per-tick request schedule, and the bit-level report decoder.
pub mod protocol;
pub mod report;
pub mod descriptor;
pub mod locator;
pub mod session;
pub mod schedule;

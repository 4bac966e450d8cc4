//! Multi-touch HID digitizer emulation engine.
//!
//! The engine keeps a bounded pool of contact slots, maps externally
//! supplied contact identifiers to physical slot indices, answers USB
//! control transfers with HID descriptor and feature-report bytes, and
//! answers interrupt-IN polls with an input report describing the slot
//! under a round-robin scan cursor.

pub mod contacts;
pub mod descriptor;
pub mod laws;
pub mod touchpad;
pub mod transfer;

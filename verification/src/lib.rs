//! Core logic of a command-line monitor for "CPlus"-protocol UPS devices.
//!
//! The library validates the user's transport and addressing choice
//! ([`address`]), models the telemetry records a device answers with
//! ([`report`]), and renders each record to its fixed text template
//! ([`render`]). Device I/O itself (opening a serial port or USB-HID
//! handle and issuing the query) lives outside the library; callers
//! hand the decoded records in as plain values.

pub mod address;
pub mod numfmt;
pub mod render;
pub mod report;

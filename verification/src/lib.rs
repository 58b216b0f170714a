//! Hotkey-driven backlight brightness control.
//!
//! The library models a backlight device's brightness level together with
//! the clamping and percentage arithmetic that a brightness hotkey applies
//! to it, the fixed two-line handler-script format that registers the tool
//! with an ACPI event daemon, and the parsing of the device's decimal
//! attribute files.  All file and process access stays with the caller:
//! the functions here turn plain values into plain values.

pub mod acpi;
pub mod backlight;
pub mod config;
pub mod decimal;
pub mod dispatch;

//! Verified core of a Rust binding to the Linux `libnvme` library.
//!
//! The handle tree (`Root` → `Host` → `Subsystem` → `Controller` →
//! `Namespace`) lives on the C side; this crate holds the logic that decides
//! what is handed to libnvme and how its answers are read back: the typed
//! admin-command parameters, the error type, the decoding of NVMe ASCII
//! fields and log pages, and the argument checks made before a command is
//! issued.

pub mod admin;
pub mod command;
pub mod error;
pub mod log;
pub mod text;
pub mod util;

pub use admin::{
    FeatureSelect, FirmwareAction, MetadataSettings, ProtectionInfo, ProtectionLocation,
    SecureErase,
};
pub use error::{Error, ErrorSource, Result};
pub use log::{ErrorLogEntry, FirmwareSlotLog, SmartLog};
pub use util::{cstr_to_str, cstr_to_string, fixed_ascii_to_str, trim_trailing_padding};

//! Read-only discovery of USB devices for a host process that embeds a
//! kernel: classification of descriptor codes, the report of a device's
//! descriptor tree line by line, the decisions of an enumeration session
//! taken one backend answer at a time, and the course of the host process
//! around it.

pub mod lifecycle;
pub mod os_usb;
pub mod text;

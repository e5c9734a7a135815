//! Discovery of the USB devices of a host and of their descriptors.
//!
//! - `classify`: labels for descriptor types, directions and transfer types.
//! - `descriptor`: the descriptor tree as plain values.
//! - `walk`: the report of interfaces, alternate settings and endpoints.
//! - `session`: the enumeration session, one backend answer at a time.
//! - `laws`: what holds of every step and every course of a session.
//! - `course`: the whole course of a session against a backend that
//!   fails nowhere.

pub mod classify;
pub mod course;
pub mod descriptor;
pub mod laws;
pub mod session;
pub mod walk;

pub use classify::{desc_type_str, ep_direction_str, ep_xfer_type_str};
pub use session::{dev_cfgs_iterate, dev_list_iterate, devs_iterate};
pub use walk::{dev_eps_iterate, dev_if_descs_iterate, dev_ifs_iterate};

//! Administration client for a kernel file-access-control filter.
//!
//! The library holds the logic of the user-mode side: the wire format of the
//! requests and replies ([`codec`]), ownership of the one connection to the
//! driver's communication port ([`connection`]), single request/reply
//! exchanges ([`channel`]) and the operator's rule operations ([`admin`]).
//! Opening the port and moving bytes across it is left to the caller, who
//! hands the outcomes of those calls back as plain values.
pub mod admin;
pub mod channel;
pub mod codec;
pub mod connection;
pub mod driver_model;
pub mod version;

pub use admin::Admin;
pub use version::{get_version_info, CoreVersion};

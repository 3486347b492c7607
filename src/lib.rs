//! Message authentication codes: the constant-time tag type, the
//! verification protocol over computed tags, and the capability set that a
//! concrete algorithm provides.

pub mod error;
pub mod output;
pub mod mac;
pub mod laws;


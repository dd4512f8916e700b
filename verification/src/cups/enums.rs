//! The numbered vocabularies of the protocol.

pub mod http_encryption;
pub mod ipp_operations;
pub mod ipp_status;
pub mod ipp_tag;
pub mod protocol_families;

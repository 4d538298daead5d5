//! Verified core of a TEE-hosted Nexus tool: the digests that bind every
//! response to its request, the JSON documents handed to the enclave and to
//! callers, the in-memory log ring buffer, and the decisions of the Walrus
//! storage operations.

pub mod clock;
pub mod common;
pub mod digest;
pub mod json;
pub mod log_buffer;
pub mod log_line;
pub mod walrus;

pub use common::EnclaveError;
pub use log_buffer::LogBuffer;

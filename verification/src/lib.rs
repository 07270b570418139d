//! Verified core of a small NVIDIA GPU inspector.
//!
//! The crate models the vendor library's binary conventions (version-tagged
//! records, fixed-width string buffers, integer enumerations and flag words)
//! and proves the decoding rules that turn raw query results into a report.
//! The actual vendor calls are foreign functions and live in the unverified
//! driver around this library.

#![allow(non_camel_case_types)]
#![allow(non_snake_case)]

pub mod abi;
pub mod decode;
pub mod pipeline;
pub mod shortstr;

//! Fixed-layout attestation for type declarations.
//!
//! A type whose memory layout is stable may be marked as such. This crate
//! decides whether a declaration qualifies for the mark and, where it does,
//! describes the code that grants it together with the obligations that the
//! compiler must discharge on every field type.

pub mod annotation;
pub mod declaration;
pub mod discharge;
pub mod emission;
pub mod error;
pub mod laws;

//! A deterministic verification engine for private lending positions.
//!
//! Private notes (collateral, debt, owner secret, salt) are bound into
//! public commitments and nullifiers, and every operation ends in one
//! public record whose validity flag says whether its safety rule held.

pub mod bytes;
pub mod crypto;
pub mod dispatch;
pub mod encoding;
pub mod hash;
pub mod ltv;
pub mod note;
pub mod transfer;
pub mod types;

//! The hub as a source of data: its JSON values, its client and the
//! temperature read through it.

pub mod error;
pub mod externaltemperature;
pub mod ha;
pub mod header;
pub mod json;

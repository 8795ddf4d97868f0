//! Reader for FastFiles ("XFiles"): a small plain header followed by a
//! zlib-compressed payload of engine structures whose pointers have been
//! replaced by stream-relative tokens.
//!
//! The library checks the header, inflates the payload, and rebuilds the
//! asset trees from the payload's pointer tokens. Every reader states, over
//! the spec functions of [`wire`], exactly which bytes it consumes and what
//! it returns.
#![allow(non_camel_case_types)]

pub mod error;
pub mod platform;
pub mod header;
pub mod text;
pub mod xasset;
pub mod wire;
pub mod xfile;
pub mod deserializer;
pub mod schemas;
pub mod load;
pub mod laws;
pub mod weapon;
pub mod com_world;

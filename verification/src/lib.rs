//! A source-to-source transformation over enumerated types.
//!
//! Given an enum declaration and a small list of named configuration
//! options, the engine derives a companion trait with one associated type
//! per variant, a standalone wrapper record per variant, and a conversion
//! from each wrapper record into the enum. The declarations are modelled
//! as plain data; a host front end turns concrete syntax into this model
//! and renders the generated declarations back out.

pub mod ast;
pub mod engine;
pub mod error;
pub mod laws;
pub mod op;
pub mod output;
pub mod params;
pub mod utils;

//! A bridge between a managed runtime and a native tokenization engine.
//!
//! The bridge binds native values to managed objects through handles,
//! hands texts to the engine, and turns what the engine returns into the
//! integer and string sequences that the managed runtime holds.

pub mod encoding;
pub mod engine;
pub mod entry;
pub mod error;
pub mod handle;
pub mod input;
pub mod marshal;
pub mod tokenizer;

//! Persisting application preferences as a TOML document.
//!
//! A host hands over a typed view of its state objects. The library decides
//! which of them are preferences, encodes their fields into a nested table
//! and plans the steps that commit the document to storage.

pub mod classify;
pub mod commit;
pub mod diagnostic;
pub mod document;
pub mod encode;
pub mod gate;
pub mod laws;
pub mod reflect;
pub mod table;
pub mod text;

pub use gate::SavePreferences;

//! Rules kernel of a deck-building card game: the status model, the damage
//! pipeline, card/potion/enemy effect vocabularies with their content tables,
//! and a small JSON reader for recorded traces.

pub mod state;
pub mod damage;
pub mod ops;
pub mod content;
pub mod json;

//! Decoding of layered coin puzzles.
//!
//! A coin's puzzle is a program: a binary tree of atoms and pairs, stored in
//! a two-tag binary serialization. Many puzzles are layers around an inner
//! puzzle: a singleton around a state layer around an ownership layer around
//! the puzzle that decides who may spend. This library reads such a puzzle
//! from its bytes and describes its layers.
//!
//! - `program`: the program tree and its mathematical value.
//! - `encoding`: the serialization, its decoder and encoder, and the proof
//!   that they invert each other.
//! - `hash`: tree hashes, and the hashes of the known templates.
//! - `puzzle`: the classifier, which finds the template and the curried
//!   arguments of a program.
//! - `values`, `metadata`: typed values inside a program, and the metadata
//!   schema.
//! - `layers`: one decoder for each layer.
//! - `nft`: the combined decoder for a whole token.
//! - `compose`: the composition of the decoders, with its depth bound.
//! - `hexstr`, `record`: the text fields of an input record, and the
//!   processing of records one by one and in batches.
//! - `laws`: what holds between the decoders.
//! - `error`: the ways in which decoding fails.

pub mod compose;
pub mod encoding;
pub mod error;
pub mod hash;
pub mod hexstr;
pub mod layers;
pub mod laws;
pub mod metadata;
pub mod nft;
pub mod program;
pub mod puzzle;
pub mod record;
pub mod values;

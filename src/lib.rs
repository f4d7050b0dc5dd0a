//! A registry of kitties: creation, transfer and breeding, with the full
//! genealogy of every bred kitty (parents, children, siblings, spouses).
//!
//! The host supplies the caller's identity, randomness, a fee ledger and
//! event delivery through [`Trait`]; every decision about the registry's own
//! state is made, and proved, here.

mod dna;
mod laws;
mod module;

pub use dna::{blake2_128_of, le_u32, le_u64, mix_byte, mix_dna, option_u32_bytes, seed_payload};
pub use laws::{
    lemma_breed_genealogy, lemma_breed_order, lemma_breed_spouses, lemma_create_fresh_id,
    lemma_ids_exhausted, lemma_same_parent_refused, lemma_transfer_moves,
};
pub use module::{
    add_spouse, list_at, others, pair_key, Error, Event, KittiesView, Kitty, Module, Trait,
};

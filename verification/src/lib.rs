//! A generic evolutionary-search engine.
//!
//! Given a population of candidate solutions ("genomes"), a fitness measure,
//! and genome combination/mutation operators, the engine evolves the
//! population toward genomes with fitness 0 (a perfect match) or until a
//! run-count budget is exhausted. The randomness substrate is a pair of
//! seeded, fully reproducible xorshift streams.

pub mod rnglib;

pub mod ranking;

pub mod genetic_algo;

pub mod basket;

pub mod uniform;

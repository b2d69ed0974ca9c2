//! Core logic of an ephemeral-event chat bot: composite creature resolution
//! with cache-aside semantics, a time-boxed capture race, and an interactive
//! pagination controller over a trainer's catch history.
//!
//! All network collaborators (chat platform, remote data source, cache and
//! document store) are narrow interfaces consumed at the edges; this crate
//! holds the decision and data logic behind them, stated in contracts and
//! verified.

pub mod cache;
pub mod errors;
pub mod pokeapi;
pub mod poke_finder;
pub mod pokedex;
pub mod spawn;
pub mod text;
pub mod trainer;

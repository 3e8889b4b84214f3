//! Currency-conversion core: a verified currency-resolution cache and
//! orchestration layer.
//!
//! The library holds the logic of a conversion service: mapping country
//! names to currency codes through a memoizing cache, sequencing the two
//! upstream lookups and the rate request, applying the sanctions-delay
//! policy, and normalizing every failure into one error taxonomy.
//! Network transport, JSON (de)serialization and the HTTP server are
//! collaborators outside this crate; they drive the decision functions
//! defined here and perform the actions those functions return.

pub mod cache;
pub mod country_repo;
pub mod error;
pub mod exchange_repo;
pub mod handlers;
pub mod models;
pub mod text;

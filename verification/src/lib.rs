//! A verified model of a JWT-authenticated fuel-price service.
//!
//! The library covers the credential lifecycle (registration, login,
//! password hashing, token issuance and validation) and the resource
//! layer for providers, delivery zones, prices and scraping runs,
//! including the referential-integrity rules that relate them.
//! Password hashing and token signing are performed by outside crates
//! behind small trusted wrappers; every decision made on their results
//! is verified.

pub mod auth;
pub mod delivery_zones;
pub mod errors;
pub mod jwt;
pub mod prices;
pub mod providers;
pub mod scraping_runs;
pub mod security;
pub mod store;

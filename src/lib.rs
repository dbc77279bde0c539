//! Cache-key derivation, cache policy and time-zone reconciliation for
//! coordinate lookups that compose several upstream providers.

pub mod text;
pub mod geo;
pub mod timezone;
pub mod store;
pub mod models;
pub mod resolver;
pub mod places;
pub mod validate;
pub mod geonames;
pub mod aggregate;

pub mod keys;
pub mod nostr_keypairs;
pub mod routes;
pub mod laws;

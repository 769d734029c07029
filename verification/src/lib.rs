//! Stateless authentication and authorised mutation for a record store.
//!
//! The core is four components, leaf first:
//!
//! - [`hasher`]: one-way hashing of credentials and the check of a plaintext
//!   against a digest;
//! - [`token`]: issuing and validating signed bearer tokens that expire after
//!   48 hours;
//! - [`guard`]: reading the token of a request and letting the caller through
//!   only where the identity in the token owns the targeted resource;
//! - [`update`]: building one parameterised statement that stores exactly the
//!   fields that a request supplied, with [`effect`] stating what such a
//!   statement can touch.
//!
//! [`user`] and [`domaine`] put them together for the protected endpoints.
//! The library talks to no store and no network: the store is asked by the
//! caller, and its answers are handed in as plain values. Secrets and cost
//! factors are passed in once and only read afterwards, so nothing here needs
//! synchronisation.

pub mod domaine;
pub mod effect;
pub mod element;
pub mod error;
pub mod guard;
pub mod hasher;
pub mod production;
pub mod store;
pub mod text;
pub mod token;
pub mod type_element;
pub mod type_user;
pub mod update;
pub mod user;

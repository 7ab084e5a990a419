//! Core of a game-launcher backend: a staged, resumable authentication
//! pipeline over a five-slot chain of credential tokens, a verified codec for
//! the persisted credential record, and a write-then-verify storage service
//! with retry and backoff, together with the plain data types shared with the
//! account, instance and configuration layers.

pub mod account;
pub mod codec;
pub mod config;
pub mod credentials;
pub mod error;
pub mod instance;
pub mod storage;

//! The core of a multi-tenant identity service: the claims registry and the
//! filter that decides which custom claims a user may carry, the record
//! store for users, clients, organizations and the registry, the claims of
//! issued tokens, and the reload of a running service.
//!
//! The library does no I/O. Where a change has to reach the disk, the store
//! hands out a plan of file actions and is told how carrying it out went;
//! where a token has to be signed or checked, the library makes the claims
//! and judges the outcome. Every rule is stated as a contract and proved.

pub mod claims;
pub mod config;
pub mod credentials;
pub mod entries;
pub mod jwt;
pub mod load;
pub mod login;
pub mod models;
pub mod oauth;
mod outside;
pub mod password;
pub mod persist;
pub mod registry;
pub mod reload;
pub mod requests;
pub mod roles;
pub mod seqs;
pub mod storage;
pub mod table;
pub mod text;
pub mod tls;

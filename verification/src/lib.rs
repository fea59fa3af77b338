//! Core of a minimal identity service.
//!
//! Users register with an email, a username and a password, authenticate to
//! receive a bearer token, and present that token on later requests to prove
//! identity. This crate holds the authentication core: one-way credential
//! hashing and verification, stateless signed-token issuance and verification
//! with expiration, and the request gate that resolves a bearer credential
//! into an identity attached to the request context. The surrounding web
//! layer (routing, sockets, persistence) hands the core plain values and
//! receives plain results; the core performs no I/O of its own.

pub mod config;
pub mod credential;
pub mod dto;
pub mod error;
pub mod health;
pub mod identity;
pub mod jwt;
pub mod middleware;
pub mod user_service;
pub mod validation;

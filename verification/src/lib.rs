//! Verified core of the security-awareness tracking backend.
pub mod text;
pub mod mail;
pub mod rendering;
pub mod worker;
pub mod auth;
pub mod headers;
pub mod ids;
pub mod turnstile;
pub mod registration;
pub mod ip;
pub mod tls;
pub mod tracking;

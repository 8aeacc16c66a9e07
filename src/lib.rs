//! Chart of accounts: account classification, the account entity and its
//! requests, an in-memory account store, and the decision logic of the
//! relational store and of the request handlers.

pub mod account;
pub mod classification;
pub mod common;
pub mod config;
pub mod handlers;
pub mod in_memory;
pub mod relational;
pub mod repository;
pub mod system;

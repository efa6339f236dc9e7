//! A collaboration ledger: creative projects, their contributors and revenue
//! splits, kept in an in-memory store whose every operation carries a
//! machine-checked contract.

pub mod auth;
pub mod canister;
pub mod clock;
pub mod handlers;
pub mod ids;
pub mod laws;
pub mod models;
pub mod storage;
pub mod text;

//! Organized distributed issues: the domain model, validation rules,
//! synchronisation decisions and storage framing of a Git-like issue tracker.

pub mod clock;
pub mod ids;
pub mod issue;
pub mod text;
pub mod label;
pub mod project;
pub mod team;
pub mod user;
pub mod workspace;
pub mod remote;
pub mod sync;
pub mod queries;
pub mod records;
pub mod errors;
pub mod config;
pub mod settings;
pub mod storage;
pub mod net;
pub mod cli;
pub mod commands;
pub mod transfer;
pub mod fsck;
pub mod context;
pub mod git;

//! Command log and key layout of a cache database kept in Redis.
pub mod adapter;
pub mod command;
pub mod config;
pub mod database;
pub mod delivery;
pub mod dirty;
pub mod drain;
pub mod effect_laws;
pub mod encoding;
pub mod error;
pub mod json;
pub mod key_laws;
pub mod keys;
pub mod pipeline;
pub mod read;
pub mod redis_model;
pub mod scan;
pub mod step_laws;
pub mod text;
pub mod wal;
pub mod wal_laws;
pub mod wire;
pub mod writer;

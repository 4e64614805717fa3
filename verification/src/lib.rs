pub mod config;
pub mod error;
pub mod events;
pub mod executor;
pub mod intake;
pub mod job;
pub mod payload;
pub mod pipeline;
pub mod rate_limit;
pub mod runner;
pub mod signature;
pub mod store;
pub mod strutil;
pub mod time;
pub mod webhook;


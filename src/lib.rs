//! A remote-execution agent: the session rules of its connection to a dispatch
//! server, the job catalog and its permission checks, and the JSON frames that
//! travel on the wire.

pub mod chen_config;
pub mod executor;
pub mod json;
pub mod models;
pub mod worker;

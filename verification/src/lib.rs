//! A concurrency-bounded audio transcoding front-end: validated requests are
//! resolved into immutable transcode profiles, compiled into deterministic
//! encoder argument vectors and filter chains, and admitted under a global
//! concurrency cap.

pub mod db;
pub mod digits;
pub mod enums;
pub mod error;
pub mod filters;
pub mod gate;
pub mod health;
pub mod orchestrator;
pub mod profiles;
pub mod transcode;

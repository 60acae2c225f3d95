//! Plans, drives and judges the set-up of a twin network: a swarm of fresh validators that
//! takes over a copy of a production database.
//!
//! The library decides what is done next and what each reply means. Carrying a task out (files,
//! processes, the network) is left to the program around it.
pub mod course;
pub mod credentials;
pub mod errand;
pub mod findings;
pub mod laws;
pub mod outside;
pub mod plan;
pub mod procedures;
pub mod replies;
pub mod scripts;
pub mod session;
pub mod snapshot;
pub mod stages;
pub mod twin;

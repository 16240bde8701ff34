//! Dependency orchestration for a code-review assistant: configuration,
//! mode resolution, install plans for each local dependency, the
//! ensure/remove decision machines and the readiness poller.

pub mod error;
pub mod types;
pub mod plan;
pub mod text;
pub mod config;
pub mod entity;
pub mod descriptor;
pub mod poller;
pub mod cria;
pub mod docker;
pub mod git;
pub mod model;
pub mod gpt;
pub mod resolve;

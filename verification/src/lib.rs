//! Turn-taking agents that call tools and hand results down a fixed chain.

pub mod agent;
pub mod agent_model;
pub mod calculator;
pub mod config;
pub mod decode;
pub mod error;
pub mod json;
pub mod message;
pub mod registry;
pub mod schema;
pub mod text;
pub mod tool;
pub mod workflow;
pub mod workflow_model;

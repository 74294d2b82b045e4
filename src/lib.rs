//! Deployment and task-run orchestration for a container service and its
//! image registry: identifier resolution, image rebinding, task definition
//! registration requests, and the polling rules that decide when a rollout or
//! a one-off task has finished.
pub mod text;
pub mod errors;
pub mod task_definition;
pub mod registry;
pub mod rewrite;
pub mod args;
pub mod config;
pub mod resolver;
pub mod polling;
pub mod deploy;
pub mod run_task;
pub mod auth;
pub mod build_push;
pub mod export;
pub mod session;
pub mod orchestrator;
pub mod exec;

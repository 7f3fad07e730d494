//! File storage control-plane and data-plane logic: ownership and version
//! models, policy resolution, multipart session rules, configuration,
//! error mapping, and the decisions the sidecar makes around each transfer.

pub mod text;
pub mod models;
pub mod mime;
pub mod policy;
pub mod policy_laws;
pub mod error;
pub mod multipart;
pub mod config;
pub mod service;
pub mod gear;
pub mod sidecar;
pub mod dto;
pub mod chat;
pub mod authz;
pub mod local_client;
pub mod idempotency;
pub mod upload_flow;
pub mod part_flow;
pub mod abort_flow;
pub mod complete_flow;
pub mod initiate_flow;

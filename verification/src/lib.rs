//! Verified core logic of the Berth deployment control plane.
//!
//! The protocol between the desktop app and its agents (NATS subjects,
//! signed commands, replay protection, pairing, chunked uploads), the
//! agent's own decisions (deployment paths, admissible execution requests,
//! supervision and backoff of services, probation of upgrades, self-update),
//! project handling on the desktop (runtime detection, dependency manifests,
//! Containerfiles, schedules, `.env` files, path sanitization, templates,
//! account tiers), and the MCP server's tool catalogue and routing.

pub mod text;
pub mod ids;
pub mod crypto;

pub mod env;
pub mod message_auth;
pub mod nats_relay;
pub mod core_relay;
pub mod command_auth;
pub mod upload;
pub mod pairing;
pub mod subscriber;

pub mod path_safety;
pub mod auth;
pub mod account;
pub mod runtime;
pub mod detect;
pub mod containerfile;
pub mod setup;
pub mod schedule;
pub mod project;
pub mod telemetry;
pub mod template_store;
pub mod archive;
pub mod tls;
pub mod discovery;
pub mod mcp;
pub mod tool_catalog;

pub mod container;
pub mod executor;
pub mod tunnel;
pub mod supervisor;
pub mod agent_service;
pub mod agent_config;
pub mod release;
pub mod upgrade;

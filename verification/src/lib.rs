//! Remote and local coding-agent management.

pub mod agent_task;
pub mod aionrs;
pub mod answer_laws;
pub mod card_laws;
pub mod catalog_laws;
pub mod collections;
pub mod config;
pub mod confirm;
pub mod connection;
pub mod connector;
pub mod descriptors;
pub mod dispatch;
pub mod event_laws;
pub mod events;
pub mod factory;
pub mod fs_requests;
pub mod fs_tools;
pub mod http;
pub mod ids;
pub mod json;
pub mod link_laws;
pub mod local_opencode;
pub mod log_forwarder;
pub mod manager;
pub mod mcp;
pub mod models;
pub mod order;
pub mod paths;
pub mod payload_laws;
pub mod payloads;
pub mod project_tree;
pub mod prompt_laws;
pub mod provider_auth;
pub mod question;
pub mod question_laws;
pub mod replies;
pub mod rpc;
pub mod send;
pub mod shell;
pub mod snapshot;
pub mod state;
pub mod state_laws;
pub mod stream;
pub mod text;
pub mod tool_laws;
pub mod turn_laws;
pub mod types;
pub mod word_laws;

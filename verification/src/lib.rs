//! Decision logic of a note-vault HTTP and tool API.

pub mod access;
pub mod capture;
pub mod cards;
pub mod code_scope;
pub mod compact;
pub mod dashboard;
pub mod delete;
pub mod door;
pub mod dto;
pub mod effects;
pub mod error;
pub mod event_log;
pub mod flow;
pub mod forget;
pub mod fts;
pub mod graph;
pub mod handlers;
pub mod history;
pub mod identity;
pub mod ids;
pub mod jobs;
pub mod lessons;
pub mod listing;
pub mod mcp;
pub mod notes;
pub mod order;
pub mod progress;
pub mod project_map;
pub mod queue;
pub mod read;
pub mod reference;
pub mod review;
pub mod rows;
pub mod search;
pub mod semantic;
pub mod text;
pub mod timeline;
pub mod trust;
pub mod usage;
pub mod writing;

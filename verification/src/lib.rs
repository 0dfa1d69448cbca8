//! The logic of a Matrix chat bot that talks to an OpenAI-compatible model:
//! chat histories per session, command parsing and routing, permissions,
//! message decisions, streamed replies, and HTML message templates.

pub mod ai_service;
pub mod command;
pub mod conversation;
pub mod event_handler;
pub mod modules;
pub mod text;
pub mod ui;

//! A verified core for a conversational cloud-storage assistant: a
//! path-addressed hierarchical store of directories and files, and the
//! per-conversation state machine that drives multi-step workflows
//! (create directory, save file, rename, move, browse) over that store.

pub mod fs_path;
pub mod filesystem;
pub mod chat_session;
pub mod messages;
pub mod keyboard;
pub mod chat_id;
pub mod reply;
pub mod command;
pub mod http;
pub mod repositories;
pub mod access_control;
pub mod filesystem_service;
pub mod chat_session_service;

//! FastFile: the rules of a chat-style file transfer service.
pub mod access;
pub mod access_laws;
pub mod admin;
pub mod broken_off;
pub mod config;
pub mod config_laws;
pub mod copy_laws;
pub mod delete;
pub mod delete_answers;
pub mod delete_laws;
pub mod download;
pub mod download_laws;
pub mod error;
pub mod failure_laws;
pub mod headers;
pub mod history;
pub mod list;
pub mod message;
pub mod message_laws;
pub mod outside;
pub mod parallel;
pub mod parts;
pub mod post;
pub mod range;
pub mod range_laws;
pub mod request_laws;
pub mod served_laws;
pub mod session;
pub mod session_laws;
pub mod shown_laws;
pub mod stamp;
pub mod stamp_laws;
pub mod step;
pub mod store;
pub mod text;
pub mod text_laws;
pub mod told_laws;
pub mod ui_laws;
pub mod ui_state;
pub mod upload;
pub mod upload_answers;
pub mod upload_cancel;
pub mod upload_chunk;
pub mod upload_complete;
pub mod upload_init;
pub mod upload_laws;
pub mod upload_promises;
pub mod view_laws;

//! An authentication gate for request pipelines, and one-shot flash messages
//! kept in the visitor's session.

pub mod flash;
pub mod guard;
pub mod session;

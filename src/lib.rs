//! Change detection, classification and notification planning for a
//! registry index kept as a commit history.
pub mod json;
pub mod record;
pub mod classify;
pub mod walker;
pub mod dispatch;
pub mod sync;
pub mod poll;
pub mod commands;
pub mod replies;

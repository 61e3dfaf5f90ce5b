//! A small task manager: an ordered list of tasks with a selection cursor,
//! a two-mode key-handling state machine that edits it, and the text that a
//! terminal front end shows for it.
//!
//! Every operation here is pure. Work against the durable store is described
//! by [`controller::Request`] values, which the caller carries out before
//! applying their outcome to the model.

pub mod controller;
pub mod list;
pub mod screen;
pub mod task;

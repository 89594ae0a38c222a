//! Native backend core of a desktop task-management application.
//!
//! The heart of the crate is the AI planning workflow: a provider
//! configuration layer, a model-name resolver, a chat-request builder, a
//! bounded multi-turn tool-use state machine that turns model responses into
//! subtask insertions, and an advisory edit-lock table that coordinates
//! concurrent human/agent edits to a task.
//!
//! All network and storage traffic is performed by the embedding
//! application, which drives the state machines in this crate and hands
//! their actions to the outside world.

pub mod calendar;
pub mod chat;
pub mod domain;
pub mod locks;
pub mod numfmt;
pub mod planning;
pub mod providers;

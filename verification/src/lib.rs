//! Alfred: the decision, parsing and formatting logic of a personal voice assistant,
//! with its contracts proved by Verus.

pub mod application;
pub mod ask;
pub mod auth;
pub mod calendar;
pub mod console;
pub mod descriptions;
pub mod gmail;
pub mod handlers;
pub mod json;
pub mod llm;
pub mod memory;
pub mod mime;
pub mod morning;
pub mod notifications;
pub mod orchestrator;
pub mod registry;
pub mod spotify;
pub mod text;
pub mod tools;
pub mod trusted;
pub mod watchers;
pub mod weather;

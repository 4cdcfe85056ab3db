//! Decision core of a small reactive terminal-UI framework.
//!
//! The state machines of the framework (what a listener hands to its
//! handler, the draw and quit requests of an application, tasks bound to a
//! scope, delayed values and routes, focus, background resources) with
//! exact contracts and the laws that relate their operations. The reactive
//! graph that holds these states in signals, the executor and the terminal
//! live around this crate.

pub mod event;
pub mod backend;
pub mod app;
pub mod task;
pub mod delay;
pub mod router;
pub mod focus_manager;
pub mod futures;
pub mod runtime;

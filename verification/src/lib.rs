//! Runtime core of a terminal feed reader: the stored entities and their
//! tables, the action vocabulary and its queue, the component state machines,
//! the tab workspace and the dispatch loop that drives them.

pub mod action;
pub mod app;
pub mod channel;
pub mod components;
pub mod config;
pub mod db;
pub mod html;
pub mod mode;
pub mod sync;
pub mod tables;
pub mod tui;

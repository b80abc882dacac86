pub mod action;
pub mod app;
pub mod config;
pub mod event;
pub mod git;
pub mod panel;
pub mod source;
pub mod system;

//! Navigation, classification and dispatch logic for a catalog of system tweaks.
pub mod text;
pub mod tweaks;
pub mod classify;
pub mod config;
pub mod sokoban;
pub mod catalog;
pub mod defaults;
pub mod app;
pub mod dispatch;
pub mod overlay;
pub mod laws;

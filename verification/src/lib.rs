//! Reconciles a player's unlock records with a game's achievement schema.

pub mod text;
pub mod error;
pub mod settings;
pub mod steam;
pub mod commands;
pub mod presentation;

//! Anonymous one-to-one chat matchmaking: a store of profiles, a waiting
//! queue and active sessions, the operations that pair and separate users,
//! and the dialogue steps that drive them.

pub mod admin;
pub mod callbacks;
pub mod command;
pub mod commands;
pub mod database;
pub mod dispatch;
pub mod effects;
pub mod error;
pub mod frames;
pub mod laws;
pub mod messages;
pub mod models;
pub mod moderation;
pub mod notice;
pub mod premium;
pub mod service;
pub mod state;
pub mod store;
pub mod text;
pub mod user_state;

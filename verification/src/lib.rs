//! Reaction-role bookkeeping for a Discord bot: how bindings between a
//! reaction on a message and a guild role are laid out in a key-value store,
//! which store commands each bot event leads to, and the state machine of the
//! interactive role-assignment menu.

pub mod decimal;
pub mod emoji;
pub mod keys;
pub mod glob;
pub mod scope;
pub mod store;
pub mod roles;
pub mod menu;
pub mod handler;
pub mod opts;

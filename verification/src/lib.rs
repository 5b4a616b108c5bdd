//! The lobby engine of a fill-in-the-blank party game.
//!
//! A lobby is a small state machine: players join while it waits, claim and
//! fill the gaps of a text, then guess who filled which gap, and at the end a
//! ranking is shown. Every transition is a function with a contract over a
//! mathematical model of the lobby, and every event that a transition hands
//! to the lobby's broadcast channel is recorded in that model.
//!
//! An operation takes what it changes by `&mut`, so each call is one
//! transition that nothing can come between: the check and the change of a
//! claim are one step. A process that serves many requests at once keeps
//! its registry behind a lock and makes each call under it.

pub mod phase;
pub mod error;
pub mod model;
pub mod lemmas;
pub mod ws_dto;
pub mod dto;
pub mod notify;
pub mod objects;
pub mod game_api;
pub mod admin_api;
pub mod utils;
pub mod registry;
pub mod websocket;
pub mod laws;

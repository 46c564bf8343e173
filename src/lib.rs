//! A direct-message bot that manages payment cards through a card service.
//!
//! The library holds the bot's decisions: the command grammar, the plan of
//! calls to the card service for each command, and the replies. The caller
//! performs the calls and hands their results back.
pub mod command;
pub mod executor;
pub mod laws;
pub mod messages;
pub mod service;
pub mod text;

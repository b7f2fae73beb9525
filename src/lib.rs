//! A chat-relay bot's request pipeline: it loads a context block, composes the
//! prompt for a language model, and decides what is posted back to the channel.

pub mod config;
pub mod prompt;
pub mod relay;
pub mod status;

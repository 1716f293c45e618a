//! A two-actor chat client core: a frontend that mirrors the conversation and
//! gates user input, a backend that owns the conversation and drives one
//! completion request per bot turn, and the rules that connect them.

pub mod message;
pub mod text;
pub mod turn;
pub mod env;
pub mod event;
pub mod status;
pub mod backend;
pub mod frontend;
pub mod orchestrator;
pub mod completion;

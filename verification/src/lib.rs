//! Conversational session engine for an interactive chat client: prompt-role
//! templating, message-history bookkeeping with token-budget compression, and
//! the pure decision logic of a line-oriented REPL with cooperative
//! cancellation.

pub mod message;
pub mod model;
pub mod repl;
pub mod role;
pub mod session;
pub mod text;

//! A small finance client: the state machine behind its login and search
//! screens, the requests it sends and how it reads the replies, a
//! Server-Sent-Events formatter, and the currency table of its converter.

pub mod text;
pub mod sse;
pub mod currency;
pub mod ui;
pub mod json;
pub mod net;
pub mod session;

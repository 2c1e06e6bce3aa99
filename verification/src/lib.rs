//! Core of a chat bot that hands out reward roles in exchange for secret
//! flag tokens.
//!
//! The bot listens for `!flag <token>` and `!help` messages. A submitted
//! token is checked against the fixed shape `CA{<word characters>}`, looked
//! up in a table loaded at startup, and, when everything lines up, the
//! mapped role is granted to the author. This crate holds the verified
//! logic: command routing, token validation, the flag table, the grant
//! decision, and reply formatting. The host process owns the chat-platform
//! session and all I/O, and feeds plain values in and out.

pub mod command;
pub mod flag;
pub mod grant;
pub mod laws;
pub mod reply;
pub mod table;

//! A bridge from a chat command to a text-to-speech endpoint: it builds the
//! synthesis request from the user's text, encodes it for the remote service,
//! gates calls on an authenticated session and assembles the chat reply.

pub mod bridge;
pub mod reply;
pub mod request;
pub mod startup;
pub mod wire;

//! The decisions of a small social network service.
//!
//! Every request is served by a [`dialogue::Handler`]: a state machine that
//! names the next thing to do outside (ask the document store, the cache or
//! the message broker, encode or decode a value) and turns the reply into
//! the next state or into the answer to the request. The program around the
//! library performs the commands and hands back the replies.
pub mod ampq;
pub mod clock;
pub mod comment;
pub mod config;
pub mod conversation;
pub mod dialogue;
pub mod follow;
pub mod laws;
pub mod mongo;
pub mod notification;
pub mod post;
pub mod redis;
pub mod user;
pub mod world;

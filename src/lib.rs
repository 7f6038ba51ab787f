//! A chat-bot relay: when a message containing `!ipfs` replies to an image,
//! video, audio or file message, the media is downloaded from the chat
//! server, stored in a content-addressed store, and a link to it is sent
//! back in the same thread.
//!
//! The library holds the decisions: parsing media references, building
//! download URLs, reducing message content to what is relayed, finding the
//! target event, composing replies, and the per-message state machine in
//! [`pipeline`]. The outside work that the state machine asks for (fetching,
//! downloading, writing, uploading, pinning, sending) is done by its caller.

pub mod config;
pub mod content;
pub mod correlation;
pub mod pipeline;
pub mod reference;
pub mod reply;
pub mod staging;
pub mod trigger;

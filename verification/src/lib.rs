//! Mirrors the currently playing track on a media server into a "rich
//! presence" status on a chat service.
//!
//! The verified core is the presence synchronization pipeline: the poller
//! that detects playback-state transitions ([`poller`]), the publisher state
//! machine that owns the presence-connection lifecycle ([`publisher`]), and
//! the event and configuration types they share ([`track`], [`session`],
//! [`config`]). The surrounding process performs the network calls and feeds
//! their results to these functions as plain values.

pub mod config;
pub mod poller;
pub mod publisher;
pub mod session;
pub mod track;

//! Verified core of a terminal browser for a Kafka-style message broker.
//!
//! The crate models the state that sits between a terminal UI and a
//! cluster client: the navigation and mode machine, the metadata cache,
//! the command interpreter, and the offset-bounded message-fetch protocol
//! with its retry discipline. Everything that talks to the cluster or to
//! the terminal lives outside this crate and drives the state machines
//! defined here through plain values.
//!
//! - [`metadata`]: the point-in-time snapshot of brokers, topics and
//!   consumer groups, replaced wholesale on refresh, queried by name.
//! - [`fetch`]: the message-fetch protocol, one watermark-bounded fetch at
//!   a time, with the bounded seek retry and the poll retry decisions.
//! - [`command`]: the `offset!<n>` and `ts!<epoch>` command grammar and
//!   the partition-label parser.
//! - [`app_core`]: the application state and its event handlers.
//! - [`widgets`]: the list-cursor and text-input models the UI renders.
//! - [`message`]: one fetched message and the panel text shown for it.
//! - [`config`]: the connection parameters and the client settings they
//!   yield; [`producer`]: the publish error.
//! - [`strings`]: decimal formatting and parsing, ordering, scanning.

pub mod app_core;
pub mod command;
pub mod config;
pub mod fetch;
pub mod message;
pub mod metadata;
pub mod producer;
pub mod strings;
pub mod widgets;

//! A real-time event hub for a mission coordination service.
//!
//! The hub keeps a registry of live duplex connections, partitioned into
//! room-scoped (per mission) and user-scoped (per brawler) address spaces,
//! and fans business events out to exactly the right audience through three
//! addressing modes: room broadcast, global broadcast, and directed
//! per-user delivery. Each connection owns a bounded FIFO mailbox; delivery
//! is enqueue-only, per-connection failure stays contained, and a stalled
//! consumer is cut off rather than allowed to grow memory without bound.
//!
//! - [`envelope`]: the typed unit of communication.
//! - [`mailbox`]: the bounded per-connection outbound queue.
//! - [`registry`]: the shared index of live connections.
//! - [`fanout`]: the three addressing modes and their delivery semantics.
//! - [`events`]: the catalogue of business events and their plans.
//! - [`session`]: the per-connection lifecycle state machine.
//! - [`lifecycle`]: registry laws over whole operation histories.
//! - [`config`], [`models`], [`repositories`]: the plain values and
//!   collaborator handles the surrounding service traffics in.

pub mod config;
pub mod envelope;
pub mod events;
pub mod fanout;
pub mod lifecycle;
pub mod mailbox;
pub mod models;
pub mod registry;
pub mod repositories;
pub mod session;

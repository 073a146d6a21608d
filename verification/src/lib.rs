//! Interactive routing core for a grid-based territory game client.
//!
//! A player selects a source node, drags toward a destination, and the client
//! computes a viable, visibility-constrained route before issuing a movement
//! or supply-assignment order. This crate holds the verified core of that
//! interaction: drag tracking, closest-node hit-testing, the derivation of the
//! per-request maximum edge distance, a time-delayed confirmation gate for
//! risky orders, fog-of-war visibility, and rate-limited synchronization of
//! the viewport to the server.
//!
//! The world-graph path search itself is an external collaborator: the core
//! hands out a [`control::PathQuery`] describing what to search for, and a
//! verified function takes whatever the collaborator returned and decides the
//! outbound order.
//!
//! A frame is driven in phases, in this order: visibility update, then input
//! (hit-testing, drag transitions), then synchronization (orders, viewport).
//! All route decisions in one frame thus observe one visibility snapshot.

pub mod control;
pub mod gate;
pub mod geom;
pub mod hit;
pub mod laws;
pub mod orders;
pub mod sync;
pub mod units;
pub mod vis;
pub mod world;

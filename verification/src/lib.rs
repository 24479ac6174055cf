//! Community-event manager: the verified event lifecycle and
//! cross-system consistency layer.
//!
//! The library keeps a registry that maps each event to the cluster of
//! remote chat resources it owns (two roles, a category, channels, an
//! announcement message), drives the creation and teardown protocols for
//! that cluster, and decides how reaction notifications translate into
//! participant-role changes.  Everything that talks to the messaging
//! platform or to durable storage lives outside this crate; the library
//! hands it plain values and exact decisions.

pub mod bacchus;
pub mod bacchus_handler;
pub mod events;

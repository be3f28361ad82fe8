//! Decision logic for a desktop application's self-update flow.
//!
//! The flow builds an updater client, asks the update source once for a newer
//! release, and when one is offered downloads it (counting the bytes as the
//! chunks arrive) and installs it. Every step that touches the network, the
//! disk or the GUI toolkit is performed by the host; this crate decides, for
//! each reported event, what the host does next.

pub mod coordinator;
pub mod runs;
pub mod startup;

//! Coordination core of a desktop sideloading companion: a multi-phase
//! operation tracker with UI-visible progress events, an exclusive
//! restore-guaranteed guard over a single shared authenticated session, a
//! process-wide device-selection registry, a bridge that turns an out-of-band
//! verification-code callback into a UI round trip, and the decision logic of
//! the concrete fetch/install/pair workflow. Device discovery, authentication,
//! installation and pairing mechanics are external collaborators: the
//! surrounding application performs their I/O and hands this crate plain
//! values.

pub mod account;
pub mod challenge;
pub mod device;
pub mod events;
pub mod operation;
pub mod session;
pub mod text;
pub mod workflow;

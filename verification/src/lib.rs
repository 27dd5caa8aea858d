//! Registers a physics engine on a host application: which phases of the
//! host's schedule the engine runs in, and in which order its parts are
//! registered.

pub mod error;
pub mod host;
pub mod laws;
pub mod model;
pub mod phase;
pub mod plugin;
pub mod wiring;

pub use error::BuildError;
pub use host::Host;
pub use phase::{CorePhase, Phase};
pub use plugin::{PhysicsPlugin, StagedPhysicsPlugin, PHYSICS_PHASE};
pub use wiring::{DebugConfig, Registration, Wiring};

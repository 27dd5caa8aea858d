use vstd::prelude::*;

verus! {

/// Why a host refused a registration. Each is a configuration error that is
/// reported at setup and leaves the host as it was.
#[derive(Clone, Copy, Debug, PartialEq, Eq, Hash, Structural)]
pub enum BuildError {
    /// A phase that the registration refers to is not in the host's schedule.
    MissingPhase,
    /// The host's schedule already holds a phase under the name to insert.
    DuplicatePhase,
    /// Two roles of a wiring name the same phase.
    RepeatedPhase,
    /// The physics engine is already registered on the host.
    AlreadyRegistered,
}

} // verus!

use crate::error::BuildError;
use crate::phase::{position, PhaseKey};
use crate::wiring::{DebugConfig, RegistrationView, WiringKeys};
use vstd::prelude::*;

verus! {

/// The state of a host as the registration rules see it: its schedule and
/// what it has accepted so far.
pub struct HostView {
    /// The keys of the phases of the schedule, in execution order.
    pub phases: Seq<PhaseKey>,
    /// The registrations accepted, oldest first.
    pub registered: Seq<RegistrationView>,
}

impl HostView {
    /// Whether the schedule holds a phase.
    pub open spec fn has(self, key: PhaseKey) -> bool {
        self.phases.contains(key)
    }

    /// Whether the physics engine is registered.
    pub open spec fn engine_registered(self) -> bool {
        exists|i: int| 0 <= i < self.registered.len() && (#[trigger] self.registered[i]) is Engine
    }

    /// Whether the registration at `i` is of the engine and the oldest such.
    pub open spec fn engine_at(self, i: int) -> bool {
        &&& 0 <= i < self.registered.len()
        &&& self.registered[i] is Engine
        &&& forall|j: int| 0 <= j < i ==> !((#[trigger] self.registered[j]) is Engine)
    }

    /// Whether each role of a wiring names a phase of the schedule.
    pub open spec fn resolves(self, wiring: WiringKeys) -> bool {
        &&& self.has(wiring.physics)
        &&& self.has(wiring.post)
        &&& self.has(wiring.step)
    }

    /// Whether the host accepts the engine with a wiring: the engine is not
    /// registered yet, no two roles share a phase, and each role names a
    /// phase of the schedule.
    pub open spec fn accepts(self, wiring: WiringKeys) -> bool {
        &&& !self.engine_registered()
        &&& wiring.distinct()
        &&& self.resolves(wiring)
    }

    /// The host after a phase `label` is inserted immediately before the
    /// phase `target`, or why the host refuses.
    pub open spec fn insert_before(self, target: PhaseKey, label: PhaseKey) -> Result<
        HostView,
        BuildError,
    > {
        if !self.has(target) {
            Err(BuildError::MissingPhase)
        } else if self.has(label) {
            Err(BuildError::DuplicatePhase)
        } else {
            Ok(
                HostView {
                    phases: self.phases.insert(position(self.phases, target), label),
                    registered: self.registered,
                },
            )
        }
    }

    /// The host after the physics engine is registered with a wiring, or why
    /// the host refuses.
    pub open spec fn register_engine(self, wiring: WiringKeys) -> Result<HostView, BuildError> {
        if self.engine_registered() {
            Err(BuildError::AlreadyRegistered)
        } else if !wiring.distinct() {
            Err(BuildError::RepeatedPhase)
        } else if !self.resolves(wiring) {
            Err(BuildError::MissingPhase)
        } else {
            Ok(
                HostView {
                    phases: self.phases,
                    registered: self.registered.push(RegistrationView::Engine(wiring)),
                },
            )
        }
    }

    /// The host after the debug rendering is registered.
    pub open spec fn register_debug(self, config: DebugConfig) -> HostView {
        HostView {
            phases: self.phases,
            registered: self.registered.push(RegistrationView::Debug(config)),
        }
    }
}

/// Inserting a phase keeps every phase of the schedule and adds the new one.
pub proof fn lemma_insert_keeps(phases: Seq<PhaseKey>, i: int, label: PhaseKey, key: PhaseKey)
    requires
        0 <= i <= phases.len(),
    ensures
        phases.insert(i, label).contains(label),
        phases.contains(key) ==> phases.insert(i, label).contains(key),
        phases.insert(i, label).contains(key) ==> key == label || phases.contains(key),
{
    let longer = phases.insert(i, label);
    assert(longer[i] == label);
    if phases.contains(key) {
        let j = choose|j: int| 0 <= j < phases.len() && phases[j] == key;
        if j < i {
            assert(longer[j] == key);
        } else {
            assert(longer[j + 1] == key);
        }
    }
    if longer.contains(key) && key != label {
        let j = choose|j: int| 0 <= j < longer.len() && longer[j] == key;
        if j < i {
            assert(phases[j] == key);
        } else {
            assert(phases[j - 1] == key);
        }
    }
}

} // verus!

use crate::phase::{Phase, PhaseKey};
use vstd::prelude::*;

verus! {

/// The configuration record handed to the physics engine when it is
/// registered: the phase for each of the three roles.
#[derive(Clone, Copy, Debug, PartialEq, Eq)]
pub struct Wiring {
    /// The phase in which the engine runs collision detection and solving.
    pub physics_schedule: Phase,
    /// The phase in which the results are written back to the host.
    pub post_physics_stage: Phase,
    /// The phase in which the physics timer advances.
    pub step_physics_stage: Phase,
}

/// The keys of the three phases of a [`Wiring`].
pub struct WiringKeys {
    pub physics: PhaseKey,
    pub post: PhaseKey,
    pub step: PhaseKey,
}

impl WiringKeys {
    /// No two roles share a phase.
    pub open spec fn distinct(self) -> bool {
        &&& self.physics != self.post
        &&& self.physics != self.step
        &&& self.post != self.step
    }
}

impl View for Wiring {
    type V = WiringKeys;

    open spec fn view(&self) -> WiringKeys {
        WiringKeys {
            physics: self.physics_schedule@,
            post: self.post_physics_stage@,
            step: self.step_physics_stage@,
        }
    }
}

impl Wiring {
    /// Whether no two roles share a phase.
    pub fn is_distinct(&self) -> (r: bool)
        ensures
            r == self@.distinct(),
    {
        !self.physics_schedule.same(&self.post_physics_stage) && !self.physics_schedule.same(
            &self.step_physics_stage,
        ) && !self.post_physics_stage.same(&self.step_physics_stage)
    }
}

/// The configuration of the debug rendering of collision shapes.
#[derive(Clone, Copy, Debug, PartialEq, Eq, Structural)]
pub struct DebugConfig {}

impl Default for DebugConfig {
    fn default() -> (config: DebugConfig)
        ensures
            config == (DebugConfig {}),
    {
        DebugConfig {}
    }
}

/// A registration that a host has accepted and that is carried out on its
/// application.
#[derive(Clone, Copy, Debug, PartialEq, Eq)]
pub enum Registration {
    /// The physics engine's plugin, with the wiring it is given.
    Engine(Wiring),
    /// The plugin that renders collision shapes.
    Debug(DebugConfig),
}

/// A [`Registration`] over the keys of its phases.
pub enum RegistrationView {
    Engine(WiringKeys),
    Debug(DebugConfig),
}

impl View for Registration {
    type V = RegistrationView;

    open spec fn view(&self) -> RegistrationView {
        match *self {
            Registration::Engine(wiring) => RegistrationView::Engine(wiring@),
            Registration::Debug(config) => RegistrationView::Debug(config),
        }
    }
}

} // verus!

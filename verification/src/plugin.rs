use crate::error::BuildError;
use crate::host::Host;
use crate::model::{lemma_insert_keeps, HostView};
use crate::phase::{lemma_position_exists, position, CorePhase, Phase, PhaseKey};
use crate::wiring::{DebugConfig, Wiring, WiringKeys};
use vstd::prelude::*;

verus! {

/// The name of the phase that [`PhysicsPlugin`] inserts for the engine.
pub const PHYSICS_PHASE: &'static str = "heron-physics";

/// The key of the phase that [`PhysicsPlugin`] inserts for the engine.
pub open spec fn physics_key() -> PhaseKey {
    PhaseKey::Named(PHYSICS_PHASE@)
}

/// The wiring that [`PhysicsPlugin`] gives the engine: the inserted phase
/// for the physics, the host's post-update phase for the results, and the
/// host's first phase for the timer.
pub open spec fn default_wiring() -> WiringKeys {
    WiringKeys {
        physics: physics_key(),
        post: PhaseKey::Core(CorePhase::PostUpdate),
        step: PhaseKey::Core(CorePhase::First),
    }
}

/// What registering the physics with `wiring` and `debug` does to a host:
/// the engine is registered first, then the debug rendering where it is
/// configured; or the host refuses the engine and nothing is registered.
pub open spec fn staged_outcome(wiring: WiringKeys, debug: Option<DebugConfig>, host: HostView)
    -> Result<HostView, BuildError> {
    match host.register_engine(wiring) {
        Err(e) => Err(e),
        Ok(with_engine) => match debug {
            Some(config) => Ok(with_engine.register_debug(config)),
            None => Ok(with_engine),
        },
    }
}

/// What registering the physics with the default wiring does to a host: the
/// physics phase is inserted immediately before the post-update phase, then
/// the physics is registered as by [`staged_outcome`]; or the host refuses
/// one of the two.
pub open spec fn default_outcome(debug: Option<DebugConfig>, host: HostView) -> Result<
    HostView,
    BuildError,
> {
    match host.insert_before(PhaseKey::Core(CorePhase::PostUpdate), physics_key()) {
        Err(e) => Err(e),
        Ok(with_phase) => staged_outcome(default_wiring(), debug, with_phase),
    }
}

/// Whether a host accepts the default plugin: it has the post-update phase
/// and the first phase, it has no physics phase yet, and the engine is not
/// registered on it.
pub open spec fn default_accepted(host: HostView) -> bool {
    &&& host.has(PhaseKey::Core(CorePhase::PostUpdate))
    &&& !host.has(physics_key())
    &&& !host.engine_registered()
    &&& host.has(PhaseKey::Core(CorePhase::First))
}

/// The default plugin succeeds on the hosts that accept it, and on no
/// others.
pub proof fn lemma_default_accepted(debug: Option<DebugConfig>, host: HostView)
    ensures
        default_outcome(debug, host) is Ok <==> default_accepted(host),
{
    let post = PhaseKey::Core(CorePhase::PostUpdate);
    let step = PhaseKey::Core(CorePhase::First);
    if host.has(post) {
        lemma_position_exists(host.phases, post);
        let at = position(host.phases, post);
        lemma_insert_keeps(host.phases, at, physics_key(), post);
        lemma_insert_keeps(host.phases, at, physics_key(), step);
    }
}

/// Plugin to install to enable collision detection and physics behavior with
/// custom stage ordering.
#[must_use]
#[derive(Debug, Copy, Clone)]
pub struct StagedPhysicsPlugin {
    /// The debug rendering to register after the engine, if any.
    pub debug: Option<DebugConfig>,
    /// The schedule where the engine runs its physics logic.
    pub physics_schedule: Phase,
    /// The stage where the host's components are updated from the results.
    pub post_physics_stage: Phase,
    /// The stage where the physics timer advances.
    pub step_physics_stage: Phase,
}

impl StagedPhysicsPlugin {
    /// Construct the plugin with the provided phases, without debug
    /// rendering.
    pub fn new(step_phase: Phase, physics_phase: Phase, post_physics_phase: Phase) -> (plugin: Self)
        ensures
            plugin.step_physics_stage == step_phase,
            plugin.physics_schedule == physics_phase,
            plugin.post_physics_stage == post_physics_phase,
            plugin.debug is None,
    {
        StagedPhysicsPlugin {
            debug: None,
            physics_schedule: physics_phase,
            post_physics_stage: post_physics_phase,
            step_physics_stage: step_phase,
        }
    }

    /// The same plugin with debug rendering.
    pub fn with_debug(self, config: DebugConfig) -> (plugin: Self)
        ensures
            plugin.step_physics_stage == self.step_physics_stage,
            plugin.physics_schedule == self.physics_schedule,
            plugin.post_physics_stage == self.post_physics_stage,
            plugin.debug == Some(config),
    {
        StagedPhysicsPlugin {
            debug: Some(config),
            physics_schedule: self.physics_schedule,
            post_physics_stage: self.post_physics_stage,
            step_physics_stage: self.step_physics_stage,
        }
    }

    /// The configuration record that the engine is registered with: the
    /// three phases as they were given.
    pub fn wiring(&self) -> (wiring: Wiring)
        ensures
            wiring.physics_schedule == self.physics_schedule,
            wiring.post_physics_stage == self.post_physics_stage,
            wiring.step_physics_stage == self.step_physics_stage,
    {
        Wiring {
            physics_schedule: self.physics_schedule,
            post_physics_stage: self.post_physics_stage,
            step_physics_stage: self.step_physics_stage,
        }
    }

    /// Registers the physics on a host: the engine with [`Self::wiring`],
    /// then the debug rendering where it is configured. Where the host
    /// refuses the engine, nothing is registered and the host's error is
    /// returned.
    pub fn build(&self, host: &mut Host) -> (r: Result<(), BuildError>)
        ensures
            staged_outcome(self.wiring_keys(), self.debug, old(host)@) == (match r {
                Ok(()) => Ok(final(host)@),
                Err(e) => Err(e),
            }),
            r is Ok <==> old(host)@.accepts(self.wiring_keys()),
            r is Err ==> final(host)@ == old(host)@,
    {
        match host.register_engine(self.wiring()) {
            Err(e) => Err(e),
            Ok(()) => {
                match self.debug {
                    Some(config) => host.register_debug(config),
                    None => {},
                }
                Ok(())
            },
        }
    }

    /// The keys of the three phases.
    pub open spec fn wiring_keys(&self) -> WiringKeys {
        WiringKeys {
            physics: self.physics_schedule@,
            post: self.post_physics_stage@,
            step: self.step_physics_stage@,
        }
    }
}

/// Plugin to install to enable collision detection and physics behavior.
#[must_use]
#[derive(Debug, Copy, Clone)]
pub struct PhysicsPlugin {
    /// The debug rendering to register after the engine, if any.
    pub debug: Option<DebugConfig>,
}

impl Default for PhysicsPlugin {
    /// The plugin without debug rendering.
    fn default() -> (plugin: PhysicsPlugin)
        ensures
            plugin.debug is None,
    {
        PhysicsPlugin { debug: None }
    }
}

impl PhysicsPlugin {
    /// The plugin with debug rendering.
    pub fn with_debug(config: DebugConfig) -> (plugin: PhysicsPlugin)
        ensures
            plugin.debug == Some(config),
    {
        PhysicsPlugin { debug: Some(config) }
    }

    /// The staged plugin that this one delegates to once the physics phase
    /// is inserted.
    pub fn staged(&self) -> (plugin: StagedPhysicsPlugin)
        ensures
            plugin.wiring_keys() == default_wiring(),
            plugin.debug == self.debug,
    {
        let plugin = StagedPhysicsPlugin::new(
            Phase::Core(CorePhase::First),
            Phase::Named(PHYSICS_PHASE),
            Phase::Core(CorePhase::PostUpdate),
        );
        match self.debug {
            Some(config) => plugin.with_debug(config),
            None => plugin,
        }
    }

    /// Registers the physics on a host with the default wiring: inserts the
    /// physics phase immediately before the post-update phase, then
    /// registers [`Self::staged`]. Where the host refuses either, the host
    /// is left as it was and its error is returned.
    pub fn build(&self, host: &mut Host) -> (r: Result<(), BuildError>)
        ensures
            default_outcome(self.debug, old(host)@) == (match r {
                Ok(()) => Ok(final(host)@),
                Err(e) => Err(e),
            }),
            r is Ok <==> default_accepted(old(host)@),
            r is Err ==> final(host)@ == old(host)@,
    {
        proof {
            lemma_default_accepted(self.debug, host@);
        }
        let staged = self.staged();
        if host.position(&staged.post_physics_stage).is_none() {
            return Err(BuildError::MissingPhase);
        }
        if host.position(&staged.physics_schedule).is_some() {
            return Err(BuildError::DuplicatePhase);
        }
        if host.engine().is_some() {
            return Err(BuildError::AlreadyRegistered);
        }
        if host.position(&staged.step_physics_stage).is_none() {
            return Err(BuildError::MissingPhase);
        }
        match host.insert_before(CorePhase::PostUpdate, PHYSICS_PHASE) {
            Err(e) => Err(e),
            Ok(()) => staged.build(host),
        }
    }
}

} // verus!

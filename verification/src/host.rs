use crate::error::BuildError;
use crate::model::HostView;
use crate::phase::{first_at, lemma_position_unique, CorePhase, Phase, PhaseKey};
use crate::wiring::{DebugConfig, Registration, RegistrationView, Wiring};
use bevy::app::{App, CoreStage};
use bevy::ecs::schedule::{Schedule, StageLabel};
use vstd::prelude::*;

verus! {

/// bevy's `App`, the host application. Nothing inside it is visible to the
/// verifier; what the contracts say of it, they say through [`stage_order`].
#[verifier::external_type_specification]
#[verifier::external_body]
pub struct ExApp(App);

/// The labels of the stages of an application's main schedule, in execution
/// order, each under its key. A label that is a `CoreStage` has the key
/// `Core` of the phase of the same name; a label that is a `&'static str`
/// has the key `Named` of its text; a label of any other type has a key
/// `Other`. Equal labels have equal keys, and unequal labels unequal keys.
pub uninterp spec fn stage_order(app: App) -> Seq<PhaseKey>;

/// Calls `Schedule::iter_stages` on the application's main schedule and
/// takes the position of the first stage whose label equals the label of the
/// given phase: the `CoreStage` of the same name for a core phase, the text
/// itself for a named one. Claimed: the result is the first position of the
/// phase's key in [`stage_order`], and `None` where no stage has that label.
#[verifier::external_body]
fn stage_index(app: &App, phase: Phase) -> (r: Option<usize>)
    ensures
        match r {
            Some(i) => first_at(stage_order(*app), phase@, i as int),
            None => !stage_order(*app).contains(phase@),
        },
{
    let wanted: Box<dyn StageLabel> = match phase {
        Phase::Core(CorePhase::Startup) => Box::new(CoreStage::Startup),
        Phase::Core(CorePhase::First) => Box::new(CoreStage::First),
        Phase::Core(CorePhase::PreUpdate) => Box::new(CoreStage::PreUpdate),
        Phase::Core(CorePhase::Update) => Box::new(CoreStage::Update),
        Phase::Core(CorePhase::PostUpdate) => Box::new(CoreStage::PostUpdate),
        Phase::Core(CorePhase::Last) => Box::new(CoreStage::Last),
        Phase::Named(name) => Box::new(name),
    };
    app.schedule.iter_stages().position(|(label, _)| label == &*wanted)
}

/// Calls `App::add_stage_before` with an empty `Schedule` as the new stage.
/// bevy panics where no stage has the target label and where a stage has the
/// new label already: `requires` leaves both out. Claimed: the new label
/// stands at the first position of the target, which moves one place back
/// with all that follows it.
#[verifier::external_body]
fn add_schedule_before(app: &mut App, target: CorePhase, label: &'static str)
    requires
        stage_order(*old(app)).contains(PhaseKey::Core(target)),
        !stage_order(*old(app)).contains(PhaseKey::Named(label@)),
    ensures
        forall|i: int|
            first_at(stage_order(*old(app)), PhaseKey::Core(target), i) ==> stage_order(*final(app))
                == stage_order(*old(app)).insert(i, PhaseKey::Named(label@)),
{
    let stage = match target {
        CorePhase::Startup => CoreStage::Startup,
        CorePhase::First => CoreStage::First,
        CorePhase::PreUpdate => CoreStage::PreUpdate,
        CorePhase::Update => CoreStage::Update,
        CorePhase::PostUpdate => CoreStage::PostUpdate,
        CorePhase::Last => CoreStage::Last,
    };
    app.add_stage_before(stage, label, Schedule::default());
}

/// A host application together with the record of what was registered on it
/// through this library.
pub struct Host {
    app: App,
    registered: Vec<Registration>,
}

impl View for Host {
    type V = HostView;

    closed spec fn view(&self) -> HostView {
        HostView {
            phases: stage_order(self.app),
            registered: self.registered@.map_values(|r: Registration| r@),
        }
    }
}

impl Host {
    /// Takes an application as a host on which nothing is registered yet.
    pub fn new(app: App) -> (host: Host)
        ensures
            host@.phases == stage_order(app),
            host@.registered == Seq::<RegistrationView>::empty(),
    {
        let host = Host { app, registered: Vec::new() };
        assert(host@.registered =~= Seq::<RegistrationView>::empty());
        host
    }

    /// Gives the application back, with the registrations to carry out on it,
    /// oldest first.
    pub fn into_parts(self) -> (parts: (App, Vec<Registration>))
        ensures
            stage_order(parts.0) == self@.phases,
            parts.1@.map_values(|r: Registration| r@) == self@.registered,
    {
        (self.app, self.registered)
    }

    /// The application.
    pub fn app(&self) -> (app: &App)
        ensures
            stage_order(*app) == self@.phases,
    {
        &self.app
    }

    /// The registrations accepted so far, oldest first.
    pub fn registered(&self) -> (list: &Vec<Registration>)
        ensures
            list@.map_values(|r: Registration| r@) == self@.registered,
    {
        &self.registered
    }

    /// The place of a phase in the schedule, counted from the front.
    pub fn position(&self, phase: &Phase) -> (r: Option<usize>)
        ensures
            match r {
                Some(i) => first_at(self@.phases, phase@, i as int),
                None => !self@.has(phase@),
            },
    {
        stage_index(&self.app, *phase)
    }

    /// The wiring with which the physics engine is registered, if it is.
    pub fn engine(&self) -> (r: Option<Wiring>)
        ensures
            match r {
                Some(wiring) => exists|i: int|
                    self@.engine_at(i) && self@.registered[i] == RegistrationView::Engine(wiring@),
                None => !self@.engine_registered(),
            },
    {
        let mut i: usize = 0;
        while i < self.registered.len()
            invariant
                i <= self.registered.len(),
                forall|j: int| 0 <= j < i ==> !((#[trigger] self@.registered[j]) is Engine),
            decreases self.registered.len() - i,
        {
            match self.registered[i] {
                Registration::Engine(wiring) => {
                    assert(self@.engine_at(i as int) && self@.registered[i as int]
                        == RegistrationView::Engine(wiring@));
                    return Some(wiring);
                },
                Registration::Debug(_) => {},
            }
            i += 1;
        }
        None
    }

    /// Inserts an empty schedule under `label` immediately before the core
    /// phase `target`. The host refuses with `MissingPhase` where it has no
    /// phase `target`, else with `DuplicatePhase` where it has a phase
    /// `label` already.
    pub fn insert_before(&mut self, target: CorePhase, label: &'static str) -> (r: Result<
        (),
        BuildError,
    >)
        ensures
            old(self)@.insert_before(PhaseKey::Core(target), PhaseKey::Named(label@)) == (match r {
                Ok(()) => Ok(final(self)@),
                Err(e) => Err(e),
            }),
            r is Ok <==> old(self)@.has(PhaseKey::Core(target)) && !old(self)@.has(
                PhaseKey::Named(label@),
            ),
            r is Err ==> final(self)@ == old(self)@,
    {
        match stage_index(&self.app, Phase::Core(target)) {
            None => Err(BuildError::MissingPhase),
            Some(i) => {
                if stage_index(&self.app, Phase::Named(label)).is_some() {
                    return Err(BuildError::DuplicatePhase);
                }
                proof {
                    lemma_position_unique(self@.phases, PhaseKey::Core(target), i as int);
                }
                add_schedule_before(&mut self.app, target, label);
                Ok(())
            },
        }
    }

    /// Registers the physics engine with a wiring. The host refuses with
    /// `AlreadyRegistered` where the engine is registered, else with
    /// `RepeatedPhase` where two roles share a phase, else with
    /// `MissingPhase` where a role names a phase that the schedule lacks.
    pub fn register_engine(&mut self, wiring: Wiring) -> (r: Result<(), BuildError>)
        ensures
            old(self)@.register_engine(wiring@) == (match r {
                Ok(()) => Ok(final(self)@),
                Err(e) => Err(e),
            }),
            r is Ok <==> old(self)@.accepts(wiring@),
            r is Err ==> final(self)@ == old(self)@,
    {
        if self.engine().is_some() {
            return Err(BuildError::AlreadyRegistered);
        }
        if !wiring.is_distinct() {
            return Err(BuildError::RepeatedPhase);
        }
        if self.position(&wiring.physics_schedule).is_none() || self.position(
            &wiring.post_physics_stage,
        ).is_none() || self.position(&wiring.step_physics_stage).is_none() {
            return Err(BuildError::MissingPhase);
        }
        self.registered.push(Registration::Engine(wiring));
        assert(self@.registered =~= old(self)@.registered.push(RegistrationView::Engine(wiring@)));
        Ok(())
    }

    /// Registers the debug rendering.
    pub fn register_debug(&mut self, config: DebugConfig)
        ensures
            final(self)@ == old(self)@.register_debug(config),
    {
        self.registered.push(Registration::Debug(config));
        assert(self@.registered =~= old(self)@.registered.push(RegistrationView::Debug(config)));
    }
}

} // verus!

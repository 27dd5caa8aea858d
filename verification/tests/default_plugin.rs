use bevy::app::{App, CoreStage};
use bevy::ecs::schedule::SystemStage;
use heron::{
    BuildError, CorePhase, DebugConfig, Host, Phase, PhysicsPlugin, Registration, Wiring,
    PHYSICS_PHASE,
};
use std::borrow::Cow;

fn app_with(stages: &[CoreStage]) -> App {
    let mut app = App::empty();
    for stage in stages {
        app.add_stage(stage.clone(), SystemStage::parallel());
    }
    app
}

fn frame_stages() -> Vec<CoreStage> {
    vec![
        CoreStage::First,
        CoreStage::PreUpdate,
        CoreStage::Update,
        CoreStage::PostUpdate,
        CoreStage::Last,
    ]
}

fn stage_names(app: &App) -> Vec<String> {
    app.schedule
        .iter_stages()
        .map(|(label, _)| format!("{:?}", label))
        .collect()
}

fn default_wiring() -> Wiring {
    Wiring {
        physics_schedule: Phase::Named("heron-physics"),
        post_physics_stage: Phase::Core(CorePhase::PostUpdate),
        step_physics_stage: Phase::Core(CorePhase::First),
    }
}

#[test]
fn default_plugin_inserts_physics_before_post_update() {
    let mut host = Host::new(app_with(&frame_stages()));
    assert_eq!(PhysicsPlugin::default().build(&mut host), Ok(()));
    assert_eq!(host.engine(), Some(default_wiring()));
    let (app, registered) = host.into_parts();
    assert_eq!(
        stage_names(&app),
        vec!["First", "PreUpdate", "Update", "\"heron-physics\"", "PostUpdate", "Last"]
    );
    assert_eq!(registered, vec![Registration::Engine(default_wiring())]);
}

#[test]
fn physics_phase_name_is_fixed() {
    assert_eq!(PHYSICS_PHASE, "heron-physics");
}

#[test]
fn default_plugin_on_a_new_application_keeps_the_startup_stage_in_place() {
    let mut host = Host::new(App::new());
    assert_eq!(PhysicsPlugin::default().build(&mut host), Ok(()));
    assert_eq!(host.position(&Phase::Named("heron-physics")), Some(4));
    assert_eq!(host.position(&Phase::Core(CorePhase::PostUpdate)), Some(5));
    let (app, _) = host.into_parts();
    assert_eq!(
        stage_names(&app),
        vec![
            "First",
            "Startup",
            "PreUpdate",
            "Update",
            "\"heron-physics\"",
            "PostUpdate",
            "Last"
        ]
    );
}

#[test]
fn physics_phase_takes_the_place_of_post_update_wherever_it_stands() {
    let mut host = Host::new(app_with(&[
        CoreStage::PostUpdate,
        CoreStage::Last,
        CoreStage::First,
    ]));
    assert_eq!(PhysicsPlugin::default().build(&mut host), Ok(()));
    assert_eq!(host.position(&Phase::Named("heron-physics")), Some(0));
    assert_eq!(host.position(&Phase::Core(CorePhase::PostUpdate)), Some(1));
    assert_eq!(host.position(&Phase::Core(CorePhase::Last)), Some(2));
    assert_eq!(host.position(&Phase::Core(CorePhase::First)), Some(3));
}

#[test]
fn the_inserted_phase_is_a_schedule() {
    let mut host = Host::new(app_with(&frame_stages()));
    assert_eq!(PhysicsPlugin::default().build(&mut host), Ok(()));
    let (app, _) = host.into_parts();
    assert!(app
        .schedule
        .get_stage::<bevy::ecs::schedule::Schedule>(&"heron-physics")
        .is_some());
}

#[test]
fn default_plugin_without_post_update_is_refused() {
    let mut host = Host::new(app_with(&[CoreStage::First, CoreStage::Update]));
    assert_eq!(
        PhysicsPlugin::default().build(&mut host),
        Err(BuildError::MissingPhase)
    );
    let (app, registered) = host.into_parts();
    assert_eq!(stage_names(&app), vec!["First", "Update"]);
    assert!(registered.is_empty());
}

#[test]
fn default_plugin_without_first_is_refused_and_inserts_nothing() {
    let mut host = Host::new(app_with(&[CoreStage::Update, CoreStage::PostUpdate]));
    assert_eq!(
        PhysicsPlugin::default().build(&mut host),
        Err(BuildError::MissingPhase)
    );
    let (app, registered) = host.into_parts();
    assert_eq!(stage_names(&app), vec!["Update", "PostUpdate"]);
    assert!(registered.is_empty());
}

#[test]
fn default_plugin_is_refused_where_the_physics_phase_exists() {
    let mut app = app_with(&frame_stages());
    app.add_stage("heron-physics", SystemStage::parallel());
    let mut host = Host::new(app);
    assert_eq!(
        PhysicsPlugin::default().build(&mut host),
        Err(BuildError::DuplicatePhase)
    );
    let (app, registered) = host.into_parts();
    assert_eq!(stage_names(&app).len(), 6);
    assert!(registered.is_empty());
}

#[test]
fn missing_post_update_is_reported_before_a_duplicate_name() {
    let mut app = app_with(&[CoreStage::First]);
    app.add_stage("heron-physics", SystemStage::parallel());
    let mut host = Host::new(app);
    assert_eq!(
        PhysicsPlugin::default().build(&mut host),
        Err(BuildError::MissingPhase)
    );
}

#[test]
fn default_plugin_twice_is_refused() {
    let mut host = Host::new(app_with(&frame_stages()));
    assert_eq!(PhysicsPlugin::default().build(&mut host), Ok(()));
    assert_eq!(
        PhysicsPlugin::default().build(&mut host),
        Err(BuildError::DuplicatePhase)
    );
    let (app, registered) = host.into_parts();
    assert_eq!(stage_names(&app).len(), 6);
    assert_eq!(registered, vec![Registration::Engine(default_wiring())]);
}

#[test]
fn default_plugin_after_a_staged_one_is_refused_and_inserts_nothing() {
    let mut host = Host::new(app_with(&frame_stages()));
    let staged = heron::StagedPhysicsPlugin::new(
        Phase::Core(CorePhase::First),
        Phase::Core(CorePhase::Update),
        Phase::Core(CorePhase::PostUpdate),
    );
    assert_eq!(staged.build(&mut host), Ok(()));
    assert_eq!(
        PhysicsPlugin::default().build(&mut host),
        Err(BuildError::AlreadyRegistered)
    );
    let (app, registered) = host.into_parts();
    assert_eq!(
        stage_names(&app),
        vec!["First", "PreUpdate", "Update", "PostUpdate", "Last"]
    );
    assert_eq!(registered.len(), 1);
}

#[test]
fn default_plugin_without_debug_registers_the_engine_only() {
    let plugin = PhysicsPlugin::default();
    assert_eq!(plugin.debug, None);
    let mut host = Host::new(app_with(&frame_stages()));
    assert_eq!(plugin.build(&mut host), Ok(()));
    assert_eq!(
        host.registered(),
        &vec![Registration::Engine(default_wiring())]
    );
}

#[test]
fn default_plugin_with_debug_registers_it_after_the_engine() {
    let plugin = PhysicsPlugin::with_debug(DebugConfig::default());
    assert_eq!(plugin.debug, Some(DebugConfig {}));
    let mut host = Host::new(app_with(&frame_stages()));
    assert_eq!(plugin.build(&mut host), Ok(()));
    assert_eq!(
        host.registered(),
        &vec![
            Registration::Engine(default_wiring()),
            Registration::Debug(DebugConfig {}),
        ]
    );
}

#[test]
fn default_plugin_delegates_to_the_staged_one_with_the_fixed_phases() {
    let staged = PhysicsPlugin::with_debug(DebugConfig {}).staged();
    assert_eq!(staged.wiring(), default_wiring());
    assert_eq!(staged.debug, Some(DebugConfig {}));
    assert_eq!(PhysicsPlugin::default().staged().debug, None);
}

#[test]
fn a_stage_named_by_an_owned_text_is_another_phase() {
    let mut app = app_with(&frame_stages());
    let label: Cow<'static, str> = Cow::Borrowed("heron-physics");
    app.add_stage(label, SystemStage::parallel());
    let mut host = Host::new(app);
    assert_eq!(host.position(&Phase::Named("heron-physics")), None);
    assert_eq!(PhysicsPlugin::default().build(&mut host), Ok(()));
    assert_eq!(host.position(&Phase::Named("heron-physics")), Some(3));
}

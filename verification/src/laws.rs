use crate::error::BuildError;
use crate::model::{lemma_insert_keeps, HostView};
use crate::phase::{
    first_at, lemma_position_exists, lemma_position_unique, position, CorePhase, PhaseKey,
};
use crate::plugin::{default_outcome, default_wiring, physics_key, staged_outcome};
use crate::wiring::{DebugConfig, RegistrationView, WiringKeys};
use vstd::prelude::*;

verus! {

/// The engine is registered with exactly the phases that the plugin was
/// given: a host that accepts the wiring records it as it is, as its one
/// engine registration, and the schedule stays as it was.
pub proof fn lemma_engine_receives_wiring(
    wiring: WiringKeys,
    debug: Option<DebugConfig>,
    host: HostView,
)
    requires
        host.accepts(wiring),
    ensures
        staged_outcome(wiring, debug, host) is Ok,
        staged_outcome(wiring, debug, host)->Ok_0.phases == host.phases,
        staged_outcome(wiring, debug, host)->Ok_0.registered[host.registered.len() as int]
            == RegistrationView::Engine(wiring),
        forall|i: int|
            0 <= i < staged_outcome(wiring, debug, host)->Ok_0.registered.len() && (
            #[trigger] staged_outcome(wiring, debug, host)->Ok_0.registered[i]) is Engine
                ==> staged_outcome(wiring, debug, host)->Ok_0.registered[i]
                == RegistrationView::Engine(wiring),
{
    let after = staged_outcome(wiring, debug, host)->Ok_0;
    assert forall|i: int| 0 <= i < after.registered.len() && (
    #[trigger] after.registered[i]) is Engine implies after.registered[i]
        == RegistrationView::Engine(wiring) by {
        if i < host.registered.len() {
            assert(host.registered[i] is Engine);
        }
    }
}

/// Two different wirings, each registered on a host of its own that accepts
/// it, each reach the engine as supplied: neither host records the other's
/// wiring.
pub proof fn lemma_wirings_do_not_mix(
    first: WiringKeys,
    second: WiringKeys,
    first_debug: Option<DebugConfig>,
    second_debug: Option<DebugConfig>,
    first_host: HostView,
    second_host: HostView,
)
    requires
        first != second,
        first_host.accepts(first),
        second_host.accepts(second),
    ensures
        staged_outcome(first, first_debug, first_host) is Ok,
        staged_outcome(second, second_debug, second_host) is Ok,
        staged_outcome(first, first_debug, first_host)->Ok_0.registered.contains(
            RegistrationView::Engine(first),
        ),
        staged_outcome(second, second_debug, second_host)->Ok_0.registered.contains(
            RegistrationView::Engine(second),
        ),
        !staged_outcome(first, first_debug, first_host)->Ok_0.registered.contains(
            RegistrationView::Engine(second),
        ),
        !staged_outcome(second, second_debug, second_host)->Ok_0.registered.contains(
            RegistrationView::Engine(first),
        ),
{
    lemma_engine_receives_wiring(first, first_debug, first_host);
    lemma_engine_receives_wiring(second, second_debug, second_host);
    let one = staged_outcome(first, first_debug, first_host)->Ok_0.registered;
    let two = staged_outcome(second, second_debug, second_host)->Ok_0.registered;
    assert(one[first_host.registered.len() as int] == RegistrationView::Engine(first));
    assert(two[second_host.registered.len() as int] == RegistrationView::Engine(second));
    if one.contains(RegistrationView::Engine(second)) {
        let i = choose|i: int| 0 <= i < one.len() && one[i] == RegistrationView::Engine(second);
        assert(one[i] is Engine);
    }
    if two.contains(RegistrationView::Engine(first)) {
        let i = choose|i: int| 0 <= i < two.len() && two[i] == RegistrationView::Engine(first);
        assert(two[i] is Engine);
    }
}

/// Where the default plugin is registered, the physics phase stands where
/// the post-update phase stood: every phase that preceded post-update keeps
/// its place before the physics phase, and post-update follows it
/// immediately, with all that followed post-update one place further back.
pub proof fn lemma_physics_phase_precedes_post_update(debug: Option<DebugConfig>, host: HostView)
    requires
        default_outcome(debug, host) is Ok,
    ensures
        ({
            let post = PhaseKey::Core(CorePhase::PostUpdate);
            let before = host.phases;
            let after = default_outcome(debug, host)->Ok_0.phases;
            let at = position(before, post);
            &&& first_at(before, post, at)
            &&& after.len() == before.len() + 1
            &&& position(after, physics_key()) == at
            &&& position(after, post) == at + 1
            &&& forall|j: int| 0 <= j < at ==> after[j] == before[j]
            &&& forall|j: int| at <= j < before.len() ==> after[j + 1] == before[j]
        }),
{
    let post = PhaseKey::Core(CorePhase::PostUpdate);
    let before = host.phases;
    let after = default_outcome(debug, host)->Ok_0.phases;
    let at = position(before, post);
    lemma_position_exists(before, post);
    let with_phase = host.insert_before(post, physics_key())->Ok_0;
    assert(with_phase.phases == before.insert(at, physics_key()));
    assert(after == with_phase.phases);
    assert(first_at(after, physics_key(), at)) by {
        assert forall|j: int| 0 <= j < at implies after[j] != physics_key() by {
            assert(after[j] == before[j]);
        }
    }
    lemma_position_unique(after, physics_key(), at);
    assert(first_at(after, post, at + 1)) by {
        assert(after[at + 1] == before[at]);
        assert forall|j: int| 0 <= j < at + 1 implies after[j] != post by {
            if j < at {
                assert(after[j] == before[j]);
            }
        }
    }
    lemma_position_unique(after, post, at + 1);
}

/// Registering the staged plugin a second time on the same host fails,
/// whatever the second plugin holds, and changes nothing.
pub proof fn lemma_second_staged_registration_fails(
    wiring: WiringKeys,
    debug: Option<DebugConfig>,
    host: HostView,
    again: WiringKeys,
    again_debug: Option<DebugConfig>,
)
    requires
        staged_outcome(wiring, debug, host) is Ok,
    ensures
        staged_outcome(again, again_debug, staged_outcome(wiring, debug, host)->Ok_0) == Err::<
            HostView,
            BuildError,
        >(BuildError::AlreadyRegistered),
{
    let after = staged_outcome(wiring, debug, host)->Ok_0;
    assert(after.registered[host.registered.len() as int] is Engine);
}

/// Registering the default plugin a second time on the same host fails: the
/// physics phase is there already.
pub proof fn lemma_second_default_registration_fails(
    debug: Option<DebugConfig>,
    host: HostView,
    again_debug: Option<DebugConfig>,
)
    requires
        default_outcome(debug, host) is Ok,
    ensures
        default_outcome(again_debug, default_outcome(debug, host)->Ok_0) == Err::<
            HostView,
            BuildError,
        >(BuildError::DuplicatePhase),
{
    let post = PhaseKey::Core(CorePhase::PostUpdate);
    let at = position(host.phases, post);
    lemma_position_exists(host.phases, post);
    lemma_insert_keeps(host.phases, at, physics_key(), post);
}

/// Without a debug configuration neither plugin registers the debug
/// rendering: all that a successful registration adds is the engine.
pub proof fn lemma_no_debug_without_config(wiring: WiringKeys, host: HostView)
    ensures
        staged_outcome(wiring, None, host) matches Ok(after) ==> after.registered
            == host.registered.push(RegistrationView::Engine(wiring)),
        default_outcome(None, host) matches Ok(after) ==> after.registered == host.registered.push(
            RegistrationView::Engine(default_wiring()),
        ),
{
}

/// With a debug configuration, a successful registration by either plugin
/// adds the engine and then the debug rendering, in this order and nothing
/// else.
pub proof fn lemma_debug_follows_engine(wiring: WiringKeys, config: DebugConfig, host: HostView)
    ensures
        staged_outcome(wiring, Some(config), host) matches Ok(after) ==> after.registered
            == host.registered.push(RegistrationView::Engine(wiring)).push(
            RegistrationView::Debug(config),
        ),
        default_outcome(Some(config), host) matches Ok(after) ==> after.registered
            == host.registered.push(RegistrationView::Engine(default_wiring())).push(
            RegistrationView::Debug(config),
        ),
{
}

} // verus!

use vstd::prelude::*;

verus! {

/// A phase that every host schedule defines.
#[derive(Clone, Copy, Debug, PartialEq, Eq, Hash, Structural)]
pub enum CorePhase {
    /// Runs once, when the host starts.
    Startup,
    /// Runs before every other phase of a frame.
    First,
    /// Prepares the update.
    PreUpdate,
    /// Holds most of the application's logic.
    Update,
    /// Processes what the update produced.
    PostUpdate,
    /// Runs after every other phase of a frame.
    Last,
}

/// Identifies one phase of a host schedule.
#[derive(Clone, Copy, Debug, PartialEq, Eq, Hash)]
pub enum Phase {
    /// One of the phases that every host defines.
    Core(CorePhase),
    /// A phase that was added under a name.
    Named(&'static str),
}

/// What a phase identifier stands for in a schedule: the mathematical value
/// by which two identifiers are told apart.
pub enum PhaseKey {
    /// The key of a core phase.
    Core(CorePhase),
    /// The key of a phase named by text.
    Named(Seq<char>),
    /// The key of a phase whose identifier is of a kind that this library
    /// does not produce.
    Other(int),
}

impl View for Phase {
    type V = PhaseKey;

    open spec fn view(&self) -> PhaseKey {
        match *self {
            Phase::Core(core) => PhaseKey::Core(core),
            Phase::Named(name) => PhaseKey::Named(name@),
        }
    }
}

impl Phase {
    /// Whether two identifiers name the same phase.
    pub fn same(&self, other: &Phase) -> (r: bool)
        ensures
            r == (self@ == other@),
    {
        match (*self, *other) {
            (Phase::Core(a), Phase::Core(b)) => a == b,
            (Phase::Named(a), Phase::Named(b)) => a.to_owned() == b.to_owned(),
            _ => false,
        }
    }
}

/// Whether `i` is the first position of `key` in `order`.
pub open spec fn first_at(order: Seq<PhaseKey>, key: PhaseKey, i: int) -> bool {
    &&& 0 <= i < order.len()
    &&& order[i] == key
    &&& forall|j: int| 0 <= j < i ==> order[j] != key
}

/// The first position of `key` in `order`; meaningful where `order` holds `key`.
pub open spec fn position(order: Seq<PhaseKey>, key: PhaseKey) -> int {
    choose|i: int| first_at(order, key, i)
}

/// A sequence that holds a key holds it at a first position.
pub proof fn lemma_position_exists(order: Seq<PhaseKey>, key: PhaseKey)
    requires
        order.contains(key),
    ensures
        first_at(order, key, position(order, key)),
    decreases order.len(),
{
    let i = choose|i: int| 0 <= i < order.len() && order[i] == key;
    if exists|j: int| 0 <= j < i && order[j] == key {
        let j = choose|j: int| 0 <= j < i && order[j] == key;
        let shorter = order.subrange(0, i);
        assert(shorter[j] == key);
        lemma_position_exists(shorter, key);
        let p = position(shorter, key);
        assert(first_at(order, key, p)) by {
            assert(order[p] == shorter[p]);
            assert forall|k: int| 0 <= k < p implies order[k] != key by {
                assert(order[k] == shorter[k]);
            }
        }
    } else {
        assert(first_at(order, key, i));
    }
}

/// The first position of a key is the only index that `first_at` accepts.
pub proof fn lemma_position_unique(order: Seq<PhaseKey>, key: PhaseKey, i: int)
    requires
        first_at(order, key, i),
    ensures
        position(order, key) == i,
{
    let p = position(order, key);
    assert(first_at(order, key, p));
    if p < i {
        assert(order[p] != key);
    } else if i < p {
        assert(order[i] != key);
    }
}

} // verus!

//! The underground-base door control.
//!
//! While the trigger key is held, every underground base whose scene node
//! has an idle animation control set gets all of its animations queued, so
//! the doors play their opening sequence and stay open.

use vstd::prelude::*;

verus! {

/// Per-entity animation data: the animations an entity offers, and the
/// animations queued on it right now.
pub struct AnimationState {
    /// The animation set of each entity, where it has one: the identifiers
    /// of the animations the entity's scene offers.
    pub animation_sets: Vec<Option<Vec<u64>>>,
    /// The animation control set of each entity, where one could be
    /// obtained: the identifiers of the animations queued on the entity.
    pub control_sets: Vec<Option<Vec<u64>>>,
}

/// The mathematical content of an `AnimationState`.
#[verifier::ext_equal]
pub struct AnimationModel {
    pub animation_sets: Seq<Option<Seq<u64>>>,
    pub control_sets: Seq<Option<Seq<u64>>>,
}

impl View for AnimationState {
    type V = AnimationModel;

    open spec fn view(&self) -> AnimationModel {
        AnimationModel {
            animation_sets: self.animation_sets@.map_values(
                |o: Option<Vec<u64>>|
                    match o {
                        Option::Some(v) => Option::Some(v@),
                        Option::None => Option::None,
                    },
            ),
            control_sets: self.control_sets@.map_values(
                |o: Option<Vec<u64>>|
                    match o {
                        Option::Some(v) => Option::Some(v@),
                        Option::None => Option::None,
                    },
            ),
        }
    }
}

impl AnimationModel {
    /// How many entities the state covers.
    pub open spec fn entity_count(self) -> int {
        self.control_sets.len() as int
    }

    /// Both columns have one slot per entity.
    pub open spec fn wf(self) -> bool {
        self.animation_sets.len() == self.control_sets.len()
    }
}

/// Entity `q` appears among the first `upto` listed base parents.
pub open spec fn parent_listed(base_parents: Seq<usize>, upto: int, q: int) -> bool {
    exists|j: int| 0 <= j < upto && base_parents[j] == q
}

/// The control set of entity `q` after the control system has handled the
/// first `upto` listed base parents: an idle (empty) control set of a
/// listed parent takes on the entity's whole animation set; every other
/// control set stays as it was.
pub open spec fn control_set_after(
    m: AnimationModel,
    base_parents: Seq<usize>,
    upto: int,
    key_down: bool,
    q: int,
) -> Option<Seq<u64>> {
    match (m.control_sets[q], m.animation_sets[q]) {
        (Option::Some(cs), Option::Some(ans)) => if key_down && parent_listed(
            base_parents,
            upto,
            q,
        ) && cs.len() == 0 {
            Option::Some(ans)
        } else {
            Option::Some(cs)
        },
        _ => m.control_sets[q],
    }
}

/// One vector of animation identifiers after another.
fn concat_ids(a: &Vec<u64>, b: &Vec<u64>) -> (out: Vec<u64>)
    ensures
        out@ == a@ + b@,
{
    let mut out: Vec<u64> = Vec::new();
    let mut i: usize = 0;
    while i < a.len()
        invariant
            i <= a@.len(),
            out@ == a@.take(i as int),
        decreases a@.len() - i,
    {
        out.push(a[i]);
        proof {
            assert(out@ =~= a@.take(i as int + 1));
        }
        i = i + 1;
    }
    let mut j: usize = 0;
    while j < b.len()
        invariant
            j <= b@.len(),
            out@ == a@.take(a@.len() as int) + b@.take(j as int),
        decreases b@.len() - j,
    {
        out.push(b[j]);
        proof {
            assert(out@ =~= a@.take(a@.len() as int) + b@.take(j as int + 1));
        }
        j = j + 1;
    }
    proof {
        assert(a@.take(a@.len() as int) + b@.take(b@.len() as int) =~= a@ + b@);
    }
    out
}

/// Queue every animation that `entity`'s animation set offers on its
/// control set, each to play to its end and stay there. Without an
/// animation set, nothing is queued.
pub fn start_animation(entity: usize, state: &mut AnimationState)
    requires
        old(state)@.wf(),
        entity < old(state)@.entity_count(),
        old(state)@.control_sets[entity as int] is Some,
    ensures
        final(state)@.wf(),
        final(state)@.animation_sets == old(state)@.animation_sets,
        final(state)@.control_sets.len() == old(state)@.control_sets.len(),
        forall|q: int|
            0 <= q < old(state)@.entity_count() && q != entity
                ==> final(state)@.control_sets[q] == old(state)@.control_sets[q],
        final(state)@.control_sets[entity as int] == match old(state)@.animation_sets[entity as int] {
            Option::Some(ans) => Option::Some((old(state)@.control_sets[entity as int]->0) + ans),
            Option::None => old(state)@.control_sets[entity as int],
        },
{
    let queued: Option<Vec<u64>> = match (&state.control_sets[entity], &state.animation_sets[entity]) {
        (Option::Some(cs), Option::Some(ans)) => Option::Some(concat_ids(cs, ans)),
        _ => Option::None,
    };
    match queued {
        Option::Some(v) => {
            state.control_sets.set(entity, Option::Some(v));
            proof {
                assert(state@.control_sets =~= old(state)@.control_sets.update(
                    entity as int,
                    state@.control_sets[entity as int],
                ));
            }
        },
        Option::None => {},
    }
}

/// The per-frame system that opens the underground base's doors.
pub struct UndergroundBaseControlSystem;

impl UndergroundBaseControlSystem {
    /// One frame of the control: while the trigger key is held, queue the
    /// door animations of every listed base parent whose control set is
    /// idle. `base_parents` lists the scene-node parent of each
    /// underground-base entity.
    pub fn run(&self, key_down: bool, base_parents: &Vec<usize>, state: &mut AnimationState)
        requires
            old(state)@.wf(),
            forall|i: int|
                0 <= i < base_parents@.len() ==> #[trigger] base_parents@[i] < old(
                    state,
                )@.entity_count(),
        ensures
            final(state)@.wf(),
            final(state)@.animation_sets == old(state)@.animation_sets,
            final(state)@.control_sets.len() == old(state)@.control_sets.len(),
            forall|q: int|
                0 <= q < old(state)@.entity_count() ==> final(state)@.control_sets[q]
                    == control_set_after(
                    old(state)@,
                    base_parents@,
                    base_parents@.len() as int,
                    key_down,
                    q,
                ),
    {
        let ghost m0 = state@;
        if key_down {
            let mut i: usize = 0;
            while i < base_parents.len()
                invariant
                    i <= base_parents@.len(),
                    m0.wf(),
                    forall|k: int|
                        0 <= k < base_parents@.len() ==> #[trigger] base_parents@[k]
                            < m0.entity_count(),
                    state@.wf(),
                    state@.animation_sets == m0.animation_sets,
                    state@.control_sets.len() == m0.control_sets.len(),
                    forall|q: int|
                        0 <= q < m0.entity_count() ==> state@.control_sets[q] == control_set_after(
                            m0,
                            base_parents@,
                            i as int,
                            true,
                            q,
                        ),
                decreases base_parents@.len() - i,
            {
                let p = base_parents[i];
                let ghost m_cur = state@;
                let idle: bool = match &state.control_sets[p] {
                    Option::Some(cs) => cs.len() == 0,
                    Option::None => false,
                };
                if idle {
                    start_animation(p, state);
                    proof {
                        if m_cur.animation_sets[p as int] is Some {
                            assert(Seq::<u64>::empty() + (m_cur.animation_sets[p as int]->0)
                                =~= (m_cur.animation_sets[p as int]->0));
                            assert((m_cur.control_sets[p as int]->0)
                                =~= Seq::<u64>::empty());
                        }
                    }
                }
                proof {
                    assert forall|q: int| 0 <= q < m0.entity_count() implies state@.control_sets[q]
                        == control_set_after(m0, base_parents@, i as int + 1, true, q) by {
                        if q == p as int {
                            assert(base_parents@[i as int] == p);
                            assert(parent_listed(base_parents@, i as int + 1, q));
                        } else {
                            assert(parent_listed(base_parents@, i as int + 1, q) == parent_listed(
                                base_parents@,
                                i as int,
                                q,
                            )) by {
                                if parent_listed(base_parents@, i as int + 1, q) {
                                    let j = choose|j: int|
                                        0 <= j < i as int + 1 && base_parents@[j] == q;
                                    assert(j < i as int);
                                    assert(parent_listed(base_parents@, i as int, q));
                                }
                            }
                        }
                    }
                }
                i = i + 1;
            }
        }
    }
}

} // verus!

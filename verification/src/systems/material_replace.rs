//! The material-replacement pass.
//!
//! Each frame, every armed replacement request is matched against the scene,
//! request by request in entity order. An entity whose name is among a
//! request's targets, which carries a parent and a material, and whose
//! ancestors include the request's named marker entity, gets the request's
//! material; its name is then struck from the target list. A request whose
//! target list has emptied is disarmed.

use vstd::prelude::*;

use crate::replace_material::ReplaceMaterial;
use crate::replace_material::ReplacementState;
use crate::replace_material::targets_contain;
use crate::replace_material::targets_without;
use crate::scene::Scene;
use crate::scene::SceneModel;

verus! {

/// The name entity `e` carries.
pub open spec fn name_of(m: SceneModel, e: int) -> Seq<char>
    recommends
        m.names[e] is Some,
{
    (m.names[e]->0)@
}

/// Request `r` is armed: its entity is named and it holds a material to
/// hand out.
pub open spec fn replacement_active(m: SceneModel, r: int) -> bool {
    &&& m.names[r] is Some
    &&& m.replacements[r] matches Some(rs) && rs.replacement is Some
}

/// Entity `e` is due for replacement under request `r` with marker name
/// `rname`: it is named, carries a parent and a material, its name is among
/// the request's remaining targets, and the marker name appears among its
/// ancestors.
pub open spec fn entity_matches(m: SceneModel, r: int, rname: Seq<char>, e: int) -> bool {
    &&& m.names[e] is Some
    &&& m.parents[e] is Some
    &&& m.materials[e] is Some
    &&& m.replacements[r] matches Some(rs) && targets_contain(rs.targets, name_of(m, e))
    &&& m.has_named_ancestor(e, rname)
}

/// Give entity `e` the material `mat` and strike its name from request `r`'s
/// targets.
pub open spec fn apply_match(m: SceneModel, r: int, mat: u64, e: int) -> SceneModel
    recommends
        m.replacements[r] is Some,
        m.names[e] is Some,
{
    SceneModel {
        names: m.names,
        parents: m.parents,
        materials: m.materials.update(e, Some(mat)),
        replacements: m.replacements.update(
            r,
            Some(
                ReplacementState {
                    targets: targets_without((m.replacements[r]->0).targets, name_of(m, e)),
                    replacement: (m.replacements[r]->0).replacement,
                },
            ),
        ),
    }
}

/// The scene after request `r` (with marker name `rname` and material `mat`)
/// has been matched against entities `0 .. e`, in order.
pub open spec fn scan_upto(m: SceneModel, r: int, rname: Seq<char>, mat: u64, e: int) -> SceneModel
    decreases e,
{
    if e <= 0 {
        m
    } else {
        let prev = scan_upto(m, r, rname, mat, e - 1);
        if entity_matches(prev, r, rname, e - 1) {
            apply_match(prev, r, mat, e - 1)
        } else {
            prev
        }
    }
}

/// Disarm request `r` once its target list has emptied.
pub open spec fn finish_replacement(m: SceneModel, r: int) -> SceneModel {
    match m.replacements[r] {
        Option::Some(rs) => if rs.targets.len() == 0 {
            SceneModel {
                names: m.names,
                parents: m.parents,
                materials: m.materials,
                replacements: m.replacements.update(
                    r,
                    Some(ReplacementState { targets: rs.targets, replacement: Option::None }),
                ),
            }
        } else {
            m
        },
        Option::None => m,
    }
}

/// The scene after request `r` has been processed in full: skipped when it
/// is not armed, otherwise matched against every entity and disarmed if its
/// target list has emptied.
pub open spec fn process_replacement(m: SceneModel, r: int) -> SceneModel {
    if replacement_active(m, r) {
        let rname = name_of(m, r);
        let mat = (m.replacements[r]->0).replacement->0;
        finish_replacement(scan_upto(m, r, rname, mat, m.names.len() as int), r)
    } else {
        m
    }
}

/// The scene after the requests on entities `0 .. r` have been processed,
/// in order.
pub open spec fn pass_upto(m: SceneModel, r: int) -> SceneModel
    decreases r,
{
    if r <= 0 {
        m
    } else {
        process_replacement(pass_upto(m, r - 1), r - 1)
    }
}

/// The scene after one full pass of the system.
pub open spec fn run_spec(m: SceneModel) -> SceneModel {
    pass_upto(m, m.entity_count())
}

/// Matching a request against entities `0 .. e` touches only the materials
/// and the request's own target list: names, parents, and the other
/// requests stay as they were, and well-formedness is kept.
proof fn lemma_scan_upto_frame(m: SceneModel, r: int, rname: Seq<char>, mat: u64, e: int)
    requires
        m.wf(),
        0 <= r < m.entity_count(),
        m.replacements[r] is Some,
        0 <= e <= m.entity_count(),
    ensures
        scan_upto(m, r, rname, mat, e).wf(),
        scan_upto(m, r, rname, mat, e).names == m.names,
        scan_upto(m, r, rname, mat, e).parents == m.parents,
        scan_upto(m, r, rname, mat, e).materials.len() == m.materials.len(),
        scan_upto(m, r, rname, mat, e).replacements.len() == m.replacements.len(),
        scan_upto(m, r, rname, mat, e).replacements[r] is Some,
        (scan_upto(m, r, rname, mat, e).replacements[r]->0).replacement
            == (m.replacements[r]->0).replacement,
        forall|j: int|
            0 <= j < m.replacements.len() && j != r ==> #[trigger] scan_upto(
                m,
                r,
                rname,
                mat,
                e,
            ).replacements[j] == m.replacements[j],
    decreases e,
{
    if e > 0 {
        lemma_scan_upto_frame(m, r, rname, mat, e - 1);
    }
}

/// Processing one request keeps names, parents, the column lengths, and
/// well-formedness.
proof fn lemma_process_replacement_frame(m: SceneModel, r: int)
    requires
        m.wf(),
        0 <= r < m.entity_count(),
    ensures
        process_replacement(m, r).wf(),
        process_replacement(m, r).names == m.names,
        process_replacement(m, r).parents == m.parents,
        process_replacement(m, r).materials.len() == m.materials.len(),
        process_replacement(m, r).replacements.len() == m.replacements.len(),
{
    if replacement_active(m, r) {
        let rname = name_of(m, r);
        let mat = (m.replacements[r]->0).replacement->0;
        lemma_scan_upto_frame(m, r, rname, mat, m.entity_count());
    }
}

/// Processing the first `r` requests keeps names, parents, the column
/// lengths, and well-formedness.
pub proof fn lemma_pass_upto_frame(m: SceneModel, r: int)
    requires
        m.wf(),
        0 <= r <= m.entity_count(),
    ensures
        pass_upto(m, r).wf(),
        pass_upto(m, r).names == m.names,
        pass_upto(m, r).parents == m.parents,
        pass_upto(m, r).materials.len() == m.materials.len(),
        pass_upto(m, r).replacements.len() == m.replacements.len(),
    decreases r,
{
    if r > 0 {
        lemma_pass_upto_frame(m, r - 1);
        lemma_process_replacement_frame(pass_upto(m, r - 1), r - 1);
    }
}

/// Matching a request gives no entity a material it did not have: only
/// materials already present are swapped.
proof fn lemma_scan_upto_no_new_materials(m: SceneModel, r: int, rname: Seq<char>, mat: u64, e: int)
    requires
        m.wf(),
        0 <= r < m.entity_count(),
        m.replacements[r] is Some,
        0 <= e <= m.entity_count(),
    ensures
        forall|q: int|
            0 <= q < m.materials.len() && m.materials[q] is None ==> #[trigger] scan_upto(
                m,
                r,
                rname,
                mat,
                e,
            ).materials[q] is None,
    decreases e,
{
    if e > 0 {
        lemma_scan_upto_no_new_materials(m, r, rname, mat, e - 1);
        lemma_scan_upto_frame(m, r, rname, mat, e - 1);
    }
}

/// Processing one request gives no entity a material it did not have.
proof fn lemma_process_replacement_no_new_materials(m: SceneModel, r: int)
    requires
        m.wf(),
        0 <= r < m.entity_count(),
    ensures
        forall|q: int|
            0 <= q < m.materials.len() && m.materials[q] is None ==> #[trigger] process_replacement(
                m,
                r,
            ).materials[q] is None,
{
    if replacement_active(m, r) {
        let rname = name_of(m, r);
        let mat = (m.replacements[r]->0).replacement->0;
        lemma_scan_upto_no_new_materials(m, r, rname, mat, m.entity_count());
    }
}

/// Processing the first `r` requests gives no entity a material it did not
/// have.
proof fn lemma_pass_upto_no_new_materials(m: SceneModel, r: int)
    requires
        m.wf(),
        0 <= r <= m.entity_count(),
    ensures
        forall|q: int|
            0 <= q < m.materials.len() && m.materials[q] is None ==> #[trigger] pass_upto(
                m,
                r,
            ).materials[q] is None,
    decreases r,
{
    if r > 0 {
        lemma_pass_upto_no_new_materials(m, r - 1);
        lemma_pass_upto_frame(m, r - 1);
        lemma_process_replacement_no_new_materials(pass_upto(m, r - 1), r - 1);
    }
}

/// The pass never gives a material to an entity that had none: it only
/// swaps materials that are already there.
pub proof fn lemma_run_spec_no_new_materials(m: SceneModel)
    requires
        m.wf(),
    ensures
        forall|q: int|
            0 <= q < m.materials.len() && m.materials[q] is None ==> #[trigger] run_spec(
                m,
            ).materials[q] is None,
{
    lemma_pass_upto_no_new_materials(m, m.entity_count());
}

/// A scene without an armed request is left exactly as it is.
pub proof fn lemma_run_spec_idle(m: SceneModel)
    requires
        forall|r: int| 0 <= r < m.entity_count() ==> !replacement_active(m, r),
    ensures
        run_spec(m) == m,
{
    lemma_pass_upto_idle(m, m.entity_count());
}

/// Processing requests that are not armed changes nothing.
proof fn lemma_pass_upto_idle(m: SceneModel, r: int)
    requires
        0 <= r <= m.entity_count(),
        forall|k: int| 0 <= k < m.entity_count() ==> !replacement_active(m, k),
    ensures
        pass_upto(m, r) == m,
    decreases r,
{
    if r > 0 {
        lemma_pass_upto_idle(m, r - 1);
    }
}

/// The per-frame system that carries out the armed replacement requests.
pub struct ReplaceMaterialSystem;

impl ReplaceMaterialSystem {
    /// One frame of the pass: match every armed request against the scene,
    /// swap the materials of the matched targets, and disarm the requests
    /// whose target lists have emptied.
    pub fn run(&self, scene: &mut Scene)
        requires
            old(scene)@.wf(),
        ensures
            final(scene)@ == run_spec(old(scene)@),
            final(scene)@.wf(),
            forall|q: int|
                0 <= q < old(scene)@.materials.len() && old(scene)@.materials[q] is None
                    ==> #[trigger] final(scene)@.materials[q] is None,
    {
        proof {
            lemma_run_spec_no_new_materials(old(scene)@);
        }
        let ghost m0 = scene@;
        let n = scene.names.len();
        let mut r: usize = 0;
        while r < n
            invariant
                r <= n,
                m0.wf(),
                n == m0.names.len(),
                scene@ == pass_upto(m0, r as int),
            decreases n - r,
        {
            proof {
                lemma_pass_upto_frame(m0, r as int);
            }
            let action: Option<(String, u64)> = match (&scene.names[r], &scene.replacements[r]) {
                (Option::Some(nm), Option::Some(rm)) => match rm.replacement {
                    Option::Some(mh) => Option::Some((nm.clone(), mh)),
                    Option::None => Option::None,
                },
                _ => Option::None,
            };
            match action {
                Option::Some((rname, mat)) => {
                    let ghost mr = scene@;
                    proof {
                        assert(replacement_active(mr, r as int));
                        assert(rname@ == name_of(mr, r as int));
                        assert((mr.replacements[r as int]->0).replacement == Some(mat));
                    }
                    let mut e: usize = 0;
                    while e < n
                        invariant
                            e <= n,
                            r < n,
                            mr.wf(),
                            n == mr.names.len(),
                            replacement_active(mr, r as int),
                            rname@ == name_of(mr, r as int),
                            (mr.replacements[r as int]->0).replacement == Some(mat),
                            scene@ == scan_upto(mr, r as int, rname@, mat, e as int),
                        decreases n - e,
                    {
                        proof {
                            lemma_scan_upto_frame(mr, r as int, rname@, mat, e as int);
                        }
                        let ghost scan_cur = scene@;
                        let has_parent = scene.parents[e].is_some();
                        let has_material = scene.materials[e].is_some();
                        let name_e: Option<String> = match &scene.names[e] {
                            Option::Some(s) => Option::Some(s.clone()),
                            Option::None => Option::None,
                        };
                        match name_e {
                            Option::Some(ne) => {
                                if has_parent && has_material && scene.has_ancestor_with_name(
                                    e,
                                    &rname,
                                ) {
                                    let updated: Option<ReplaceMaterial> = match &scene
                                        .replacements[r] {
                                        Option::Some(rm) => if rm.contains_target(&ne) {
                                            Option::Some(rm.without_target(&ne))
                                        } else {
                                            Option::None
                                        },
                                        Option::None => Option::None,
                                    };
                                    match updated {
                                        Option::Some(new_rm) => {
                                            scene.materials.set(e, Option::Some(mat));
                                            scene.replacements.set(r, Option::Some(new_rm));
                                            proof {
                                                assert(entity_matches(
                                                    scan_cur,
                                                    r as int,
                                                    rname@,
                                                    e as int,
                                                ));
                                                assert(scene@ =~= apply_match(
                                                    scan_cur,
                                                    r as int,
                                                    mat,
                                                    e as int,
                                                ));
                                            }
                                        },
                                        Option::None => {
                                            proof {
                                                assert(!entity_matches(
                                                    scan_cur,
                                                    r as int,
                                                    rname@,
                                                    e as int,
                                                ));
                                            }
                                        },
                                    }
                                } else {
                                    proof {
                                        assert(!entity_matches(scan_cur, r as int, rname@, e as int));
                                    }
                                }
                            },
                            Option::None => {
                                proof {
                                    assert(!entity_matches(scan_cur, r as int, rname@, e as int));
                                }
                            },
                        }
                        e = e + 1;
                    }
                    proof {
                        lemma_scan_upto_frame(mr, r as int, rname@, mat, n as int);
                    }
                    let ghost scanned = scene@;
                    let needs_clear: bool = match &scene.replacements[r] {
                        Option::Some(rm) => rm.targets_done(),
                        Option::None => false,
                    };
                    if needs_clear {
                        scene.replacements.set(
                            r,
                            Option::Some(
                                ReplaceMaterial { targets: Vec::new(), replacement: Option::None },
                            ),
                        );
                        proof {
                            assert(Seq::<String>::empty()
                                =~= (scanned.replacements[r as int]->0).targets);
                            assert(scene@ =~= finish_replacement(scanned, r as int));
                        }
                    } else {
                        proof {
                            assert(scene@ == finish_replacement(scanned, r as int));
                        }
                    }
                    proof {
                        assert(scene@ == process_replacement(mr, r as int));
                    }
                },
                Option::None => {
                    proof {
                        assert(!replacement_active(scene@, r as int));
                        assert(scene@ == process_replacement(scene@, r as int));
                    }
                },
            }
            r = r + 1;
        }
        proof {
            lemma_pass_upto_frame(m0, n as int);
        }
    }
}

} // verus!

//! A plain model of the slice of the engine's world that the game's systems
//! read: per-entity names, parent links, materials, and material-replacement
//! requests.
//!
//! Entities are the indices `0 .. entity_count()`. Each component column is
//! a vector with one slot per entity; a `None` slot means the entity does
//! not carry that component. Parent links always point at an earlier entity
//! (the engine creates parents before their children), which keeps every
//! ancestor chain finite.

use vstd::prelude::*;

use crate::replace_material::ReplaceMaterial;
use crate::replace_material::ReplacementState;

verus! {

/// The component columns the game's systems read and write.
pub struct Scene {
    /// Name of each entity, where it has one.
    pub names: Vec<Option<String>>,
    /// Parent of each entity, where it has one; always an earlier entity.
    pub parents: Vec<Option<usize>>,
    /// Material of each entity, where it has one, as an opaque handle number.
    pub materials: Vec<Option<u64>>,
    /// Material-replacement request of each entity, where it carries one.
    pub replacements: Vec<Option<ReplaceMaterial>>,
}

/// The mathematical content of a `Scene`.
#[verifier::ext_equal]
pub struct SceneModel {
    pub names: Seq<Option<String>>,
    pub parents: Seq<Option<usize>>,
    pub materials: Seq<Option<u64>>,
    pub replacements: Seq<Option<ReplacementState>>,
}

impl View for Scene {
    type V = SceneModel;

    open spec fn view(&self) -> SceneModel {
        SceneModel {
            names: self.names@,
            parents: self.parents@,
            materials: self.materials@,
            replacements: self.replacements@.map_values(
                |r: Option<ReplaceMaterial>|
                    match r {
                        Option::Some(rm) => Option::Some(rm@),
                        Option::None => Option::None,
                    },
            ),
        }
    }
}

impl SceneModel {
    /// How many entities the scene holds.
    pub open spec fn entity_count(self) -> int {
        self.names.len() as int
    }

    /// Every column has one slot per entity, and every parent link points
    /// at an earlier entity.
    pub open spec fn wf(self) -> bool {
        &&& self.parents.len() == self.names.len()
        &&& self.materials.len() == self.names.len()
        &&& self.replacements.len() == self.names.len()
        &&& forall|i: int|
            0 <= i < self.parents.len() ==> (#[trigger] self.parents[i] matches Some(p) ==> p
                < i)
    }

    /// Entity `i` carries a name that reads `name`.
    pub open spec fn entity_has_name(self, i: int, name: Seq<char>) -> bool {
        self.names[i] matches Some(n) && n@ == name
    }

    /// Some strict ancestor of entity `e` (its parent, or the parent's
    /// parent, and so on) carries a name that reads `name`.
    ///
    /// The walk follows parent links only while they point at earlier
    /// entities, which a well-formed scene always does.
    pub open spec fn has_named_ancestor(self, e: int, name: Seq<char>) -> bool
        decreases e,
    {
        if 0 <= e < self.parents.len() {
            match self.parents[e] {
                Option::Some(p) => {
                    if p < e {
                        self.entity_has_name(p as int, name) || self.has_named_ancestor(
                            p as int,
                            name,
                        )
                    } else {
                        false
                    }
                },
                Option::None => false,
            }
        } else {
            false
        }
    }
}

impl Scene {
    /// How many entities the scene holds.
    pub fn entity_count(&self) -> (n: usize)
        ensures
            n == self@.entity_count(),
    {
        self.names.len()
    }

    /// Walk the parent chain of `entity` and report whether any ancestor
    /// carries a name that reads `name`.
    pub fn has_ancestor_with_name(&self, entity: usize, name: &String) -> (found: bool)
        requires
            self@.wf(),
            entity < self@.entity_count(),
        ensures
            found == self@.has_named_ancestor(entity as int, name@),
        decreases entity,
    {
        match self.parents[entity] {
            Option::Some(p) => {
                let name_matches: bool = match &self.names[p] {
                    Option::Some(n) => *n == *name,
                    Option::None => false,
                };
                if name_matches {
                    true
                } else {
                    self.has_ancestor_with_name(p, name)
                }
            },
            Option::None => false,
        }
    }
}

} // verus!

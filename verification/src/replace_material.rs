//! The material-replacement request component.
//!
//! A `ReplaceMaterial` sits on a named marker entity and asks that every
//! descendant of that entity whose name is listed in `targets` have its
//! material swapped for `replacement`. Once every target has been found,
//! the request is cleared.

use vstd::prelude::*;

verus! {

/// A request to swap the material of the named target entities.
pub struct ReplaceMaterial {
    /// Names of the entities whose material is still to be swapped.
    pub targets: Vec<String>,
    /// The material to put in the targets' place; `None` once the request
    /// has been fulfilled (or was never armed).
    pub replacement: Option<u64>,
}

/// The mathematical content of a `ReplaceMaterial` value.
#[verifier::ext_equal]
pub struct ReplacementState {
    pub targets: Seq<String>,
    pub replacement: Option<u64>,
}

impl View for ReplaceMaterial {
    type V = ReplacementState;

    open spec fn view(&self) -> ReplacementState {
        ReplacementState { targets: self.targets@, replacement: self.replacement }
    }
}

/// True when one of the listed target names reads `name`.
pub open spec fn targets_contain(targets: Seq<String>, name: Seq<char>) -> bool {
    exists|i: int| 0 <= i < targets.len() && targets[i]@ == name
}

/// The target list with every entry that reads `name` taken out.
pub open spec fn targets_without(targets: Seq<String>, name: Seq<char>) -> Seq<String>
    decreases targets.len(),
{
    if targets.len() == 0 {
        targets
    } else {
        let rest = targets_without(targets.drop_last(), name);
        if targets.last()@ == name {
            rest
        } else {
            rest.push(targets.last())
        }
    }
}

/// Taking a name out keeps exactly the entries that read otherwise.
proof fn lemma_targets_without_keeps_others(targets: Seq<String>, name: Seq<char>)
    ensures
        forall|i: int|
            0 <= i < targets_without(targets, name).len()
                ==> (#[trigger] targets_without(targets, name)[i])@ != name,
        forall|i: int|
            0 <= i < targets.len() && (#[trigger] targets[i])@ != name
                ==> targets_without(targets, name).contains(targets[i]),
        targets_without(targets, name).len() <= targets.len(),
    decreases targets.len(),
{
    if targets.len() > 0 {
        lemma_targets_without_keeps_others(targets.drop_last(), name);
        let out = targets_without(targets, name);
        let rest = targets_without(targets.drop_last(), name);
        assert forall|i: int|
            0 <= i < targets.len() && (#[trigger] targets[i])@ != name implies out.contains(
            targets[i],
        ) by {
            if i == targets.len() - 1 {
                assert(out[out.len() - 1] == targets[i]);
            } else {
                assert(targets.drop_last()[i] == targets[i]);
                assert(rest.contains(targets[i]));
                let j = choose|j: int| 0 <= j < rest.len() && rest[j] == targets[i];
                assert(out[j] == targets[i]);
            }
        }
    }
}

impl ReplaceMaterial {
    /// Whether `name` is one of the remaining targets.
    pub fn contains_target(&self, name: &String) -> (found: bool)
        ensures
            found == targets_contain(self.targets@, name@),
    {
        let n = self.targets.len();
        let mut i: usize = 0;
        while i < n
            invariant
                i <= n,
                n == self.targets@.len(),
                forall|j: int| 0 <= j < i ==> (#[trigger] self.targets@[j])@ != name@,
            decreases n - i,
        {
            if self.targets[i] == *name {
                return true;
            }
            i = i + 1;
        }
        false
    }

    /// A copy of the request whose target list has every entry that reads
    /// `name` taken out.
    pub fn without_target(&self, name: &String) -> (out: ReplaceMaterial)
        ensures
            out@.targets == targets_without(self.targets@, name@),
            out@.replacement == self@.replacement,
            forall|i: int| 0 <= i < out@.targets.len() ==> (#[trigger] out@.targets[i])@ != name@,
            forall|i: int|
                0 <= i < self.targets@.len() && (#[trigger] self.targets@[i])@ != name@
                    ==> out@.targets.contains(self.targets@[i]),
    {
        proof {
            lemma_targets_without_keeps_others(self.targets@, name@);
        }
        let n = self.targets.len();
        let mut kept: Vec<String> = Vec::new();
        let mut i: usize = 0;
        while i < n
            invariant
                i <= n,
                n == self.targets@.len(),
                kept@ == targets_without(self.targets@.take(i as int), name@),
            decreases n - i,
        {
            proof {
                assert(self.targets@.take(i as int + 1).drop_last() =~= self.targets@.take(
                    i as int,
                ));
                assert(self.targets@.take(i as int + 1).last() == self.targets@[i as int]);
            }
            if self.targets[i] == *name {
            } else {
                kept.push(self.targets[i].clone());
            }
            i = i + 1;
        }
        proof {
            assert(self.targets@.take(n as int) =~= self.targets@);
        }
        ReplaceMaterial { targets: kept, replacement: self.replacement }
    }

    /// Whether every target has been handled.
    pub fn targets_done(&self) -> (done: bool)
        ensures
            done == (self.targets@.len() == 0),
    {
        self.targets.len() == 0
    }
}

} // verus!

//! Which kernels are loaded and which parameter sets exist, and the lookup
//! that a stage makes before it records anything.

use vstd::prelude::*;
use crate::error::BakeError;
use crate::programs::{ComputeProgram, DescriptorSet};

verus! {

/// The loaded kernels and the existing parameter sets of one baker.
#[derive(Clone, Debug, PartialEq, Eq)]
pub struct Inventory {
    pub descriptor_sets: Vec<DescriptorSet>,
    pub compute_programs: Vec<ComputeProgram>,
}

/// The first kernel of `needed` that is not in `loaded`.
pub open spec fn spec_first_missing_program(
    loaded: Seq<ComputeProgram>,
    needed: Seq<ComputeProgram>,
) -> Option<ComputeProgram>
    decreases needed.len(),
{
    if needed.len() == 0 {
        None
    } else if !loaded.contains(needed[0]) {
        Some(needed[0])
    } else {
        spec_first_missing_program(loaded, needed.drop_first())
    }
}

/// The first parameter set of `needed` that is not in `existing`.
pub open spec fn spec_first_missing_descriptor_set(
    existing: Seq<DescriptorSet>,
    needed: Seq<DescriptorSet>,
) -> Option<DescriptorSet>
    decreases needed.len(),
{
    if needed.len() == 0 {
        None
    } else if !existing.contains(needed[0]) {
        Some(needed[0])
    } else {
        spec_first_missing_descriptor_set(existing, needed.drop_first())
    }
}

/// Looking up kernels one list after another finds the same first gap as
/// looking them up as one list.
pub proof fn lemma_first_missing_program_concat(
    loaded: Seq<ComputeProgram>,
    a: Seq<ComputeProgram>,
    b: Seq<ComputeProgram>,
)
    ensures
        spec_first_missing_program(loaded, a + b) == (match spec_first_missing_program(loaded, a) {
            Some(p) => Some(p),
            None => spec_first_missing_program(loaded, b),
        }),
    decreases a.len(),
{
    if a.len() == 0 {
        assert(a + b =~= b);
    } else {
        assert((a + b).drop_first() =~= a.drop_first() + b);
        assert((a + b)[0] == a[0]);
        lemma_first_missing_program_concat(loaded, a.drop_first(), b);
    }
}

/// Looking up parameter sets one list after another finds the same first gap
/// as looking them up as one list.
pub proof fn lemma_first_missing_descriptor_set_concat(
    existing: Seq<DescriptorSet>,
    a: Seq<DescriptorSet>,
    b: Seq<DescriptorSet>,
)
    ensures
        spec_first_missing_descriptor_set(existing, a + b) == (match spec_first_missing_descriptor_set(
            existing,
            a,
        ) {
            Some(s) => Some(s),
            None => spec_first_missing_descriptor_set(existing, b),
        }),
    decreases a.len(),
{
    if a.len() == 0 {
        assert(a + b =~= b);
    } else {
        assert((a + b).drop_first() =~= a.drop_first() + b);
        assert((a + b)[0] == a[0]);
        lemma_first_missing_descriptor_set_concat(existing, a.drop_first(), b);
    }
}

/// A list with one more item holds what it held before and that item.
pub proof fn lemma_push_contains<T>(list: Seq<T>, item: T, other: T)
    ensures
        list.push(item).contains(other) <==> list.contains(other) || other == item,
{
    let longer = list.push(item);
    if list.contains(other) {
        let j = choose|j: int| 0 <= j < list.len() && list[j] == other;
        assert(longer[j] == other);
    }
    if other == item {
        assert(longer[list.len() as int] == other);
    }
}

impl Inventory {
    /// Whether the kernel is loaded.
    pub open spec fn has_program(&self, program: ComputeProgram) -> bool {
        self.compute_programs@.contains(program)
    }

    /// Whether the parameter set exists.
    pub open spec fn has_descriptor_set(&self, descriptor_set: DescriptorSet) -> bool {
        self.descriptor_sets@.contains(descriptor_set)
    }

    /// The first of the needed kernels that is not loaded.
    pub open spec fn first_missing_program(&self, needed: Seq<ComputeProgram>) -> Option<
        ComputeProgram,
    > {
        spec_first_missing_program(self.compute_programs@, needed)
    }

    /// The first of the needed parameter sets that does not exist.
    pub open spec fn first_missing_descriptor_set(&self, needed: Seq<DescriptorSet>) -> Option<
        DescriptorSet,
    > {
        spec_first_missing_descriptor_set(self.descriptor_sets@, needed)
    }

    /// What looking up the needed kernels gives.
    pub open spec fn programs_found(&self, needed: Seq<ComputeProgram>) -> Result<(), BakeError> {
        match self.first_missing_program(needed) {
            Some(program) => Err(BakeError::ProgramMissing(program)),
            None => Ok(()),
        }
    }

    /// What looking up the needed parameter sets gives.
    pub open spec fn descriptor_sets_found(&self, needed: Seq<DescriptorSet>) -> Result<
        (),
        BakeError,
    > {
        match self.first_missing_descriptor_set(needed) {
            Some(descriptor_set) => Err(BakeError::DescriptorSetMissing(descriptor_set)),
            None => Ok(()),
        }
    }

    /// An inventory without kernels and parameter sets.
    pub fn new() -> (inventory: Inventory)
        ensures
            inventory.compute_programs@ == Seq::<ComputeProgram>::empty(),
            inventory.descriptor_sets@ == Seq::<DescriptorSet>::empty(),
    {
        Inventory { descriptor_sets: Vec::new(), compute_programs: Vec::new() }
    }

    /// Whether the kernel is loaded.
    pub fn contains_program(&self, program: ComputeProgram) -> (found: bool)
        ensures
            found == self.has_program(program),
    {
        let mut i: usize = 0;
        while i < self.compute_programs.len()
            invariant
                i <= self.compute_programs.len(),
                forall|j: int| 0 <= j < i ==> self.compute_programs@[j] != program,
            decreases self.compute_programs.len() - i,
        {
            if self.compute_programs[i] == program {
                return true;
            }
            i = i + 1;
        }
        false
    }

    /// Whether the parameter set exists.
    pub fn contains_descriptor_set(&self, descriptor_set: DescriptorSet) -> (found: bool)
        ensures
            found == self.has_descriptor_set(descriptor_set),
    {
        let mut i: usize = 0;
        while i < self.descriptor_sets.len()
            invariant
                i <= self.descriptor_sets.len(),
                forall|j: int| 0 <= j < i ==> self.descriptor_sets@[j] != descriptor_set,
            decreases self.descriptor_sets.len() - i,
        {
            if self.descriptor_sets[i] == descriptor_set {
                return true;
            }
            i = i + 1;
        }
        false
    }

    /// Looks up the needed kernels in their order and stops at the first
    /// that is not loaded.
    pub fn require_programs(&self, needed: &Vec<ComputeProgram>) -> (r: Result<(), BakeError>)
        ensures
            r == self.programs_found(needed@),
    {
        let mut i: usize = 0;
        assert(needed@.skip(0) =~= needed@);
        while i < needed.len()
            invariant
                i <= needed.len(),
                self.first_missing_program(needed@) == self.first_missing_program(
                    needed@.skip(i as int),
                ),
            decreases needed.len() - i,
        {
            if !self.contains_program(needed[i]) {
                return Err(BakeError::ProgramMissing(needed[i]));
            }
            proof {
                assert(needed@.skip(i as int).drop_first() =~= needed@.skip(i + 1));
            }
            i = i + 1;
        }
        Ok(())
    }

    /// Looks up the needed parameter sets in their order and stops at the
    /// first that does not exist.
    pub fn require_descriptor_sets(&self, needed: &Vec<DescriptorSet>) -> (r: Result<(), BakeError>)
        ensures
            r == self.descriptor_sets_found(needed@),
    {
        let mut i: usize = 0;
        assert(needed@.skip(0) =~= needed@);
        while i < needed.len()
            invariant
                i <= needed.len(),
                self.first_missing_descriptor_set(needed@) == self.first_missing_descriptor_set(
                    needed@.skip(i as int),
                ),
            decreases needed.len() - i,
        {
            if !self.contains_descriptor_set(needed[i]) {
                return Err(BakeError::DescriptorSetMissing(needed[i]));
            }
            proof {
                assert(needed@.skip(i as int).drop_first() =~= needed@.skip(i + 1));
            }
            i = i + 1;
        }
        Ok(())
    }

    /// Adds a kernel to the loaded ones.
    pub fn add_program(&mut self, program: ComputeProgram)
        ensures
            final(self).compute_programs@ == old(self).compute_programs@.push(program),
            final(self).descriptor_sets@ == old(self).descriptor_sets@,
            forall|p: ComputeProgram|
                final(self).has_program(p) <==> old(self).has_program(p) || p == program,
    {
        self.compute_programs.push(program);
        assert forall|p: ComputeProgram|
            self.has_program(p) <==> old(self).has_program(p) || p == program by {
            let before = old(self).compute_programs@;
            let after = self.compute_programs@;
            if before.contains(p) {
                let j = choose|j: int| 0 <= j < before.len() && before[j] == p;
                assert(after[j] == p);
            }
            if p == program {
                assert(after[before.len() as int] == p);
            }
        }
    }

    /// Adds a parameter set to the existing ones.
    pub fn add_descriptor_set(&mut self, descriptor_set: DescriptorSet)
        ensures
            final(self).descriptor_sets@ == old(self).descriptor_sets@.push(descriptor_set),
            final(self).compute_programs@ == old(self).compute_programs@,
            forall|s: DescriptorSet|
                final(self).has_descriptor_set(s) <==> old(self).has_descriptor_set(s) || s
                    == descriptor_set,
    {
        self.descriptor_sets.push(descriptor_set);
        assert forall|s: DescriptorSet|
            self.has_descriptor_set(s) <==> old(self).has_descriptor_set(s) || s
                == descriptor_set by {
            let before = old(self).descriptor_sets@;
            let after = self.descriptor_sets@;
            if before.contains(s) {
                let j = choose|j: int| 0 <= j < before.len() && before[j] == s;
                assert(after[j] == s);
            }
            if s == descriptor_set {
                assert(after[before.len() as int] == s);
            }
        }
    }
}

} // verus!

//! Counting declarations by kind.
use vstd::prelude::*;

use crate::constant_info::ConstantInfo;

verus! {

/// The kind of a declaration, as a number: axiom 0, definition 1,
/// theorem 2, opaque 3, quotient 4, inductive 5, constructor 6, recursor 7.
pub open spec fn kind_index(c: ConstantInfo) -> nat {
    match c {
        ConstantInfo::Axiom { .. } => 0,
        ConstantInfo::Definition { .. } => 1,
        ConstantInfo::Theorem { .. } => 2,
        ConstantInfo::Opaque { .. } => 3,
        ConstantInfo::Quot { .. } => 4,
        ConstantInfo::Inductive { .. } => 5,
        ConstantInfo::Constructor { .. } => 6,
        ConstantInfo::Recursor { .. } => 7,
    }
}

/// How many declarations of `cs` are of kind `k`.
pub open spec fn count_kind(cs: Seq<ConstantInfo>, k: nat) -> nat
    decreases cs.len(),
{
    if cs.len() == 0 {
        0
    } else {
        count_kind(cs.drop_last(), k) + if kind_index(cs.last()) == k {
            1nat
        } else {
            0nat
        }
    }
}

/// The number of declarations of each kind.
pub struct DeclarationStats {
    pub axioms: usize,
    pub definitions: usize,
    pub theorems: usize,
    pub opaques: usize,
    pub quotients: usize,
    pub inductives: usize,
    pub constructors: usize,
    pub recursors: usize,
}

impl DeclarationStats {
    /// The count of kind `k`.
    pub open spec fn count(&self, k: nat) -> nat {
        if k == 0 {
            self.axioms as nat
        } else if k == 1 {
            self.definitions as nat
        } else if k == 2 {
            self.theorems as nat
        } else if k == 3 {
            self.opaques as nat
        } else if k == 4 {
            self.quotients as nat
        } else if k == 5 {
            self.inductives as nat
        } else if k == 6 {
            self.constructors as nat
        } else {
            self.recursors as nat
        }
    }

    /// The sum of all counts.
    pub open spec fn spec_total(&self) -> int {
        self.axioms + self.definitions + self.theorems + self.opaques + self.quotients
            + self.inductives + self.constructors + self.recursors
    }

    /// No declarations yet.
    pub fn new() -> (r: Self)
        ensures
            forall|k: nat| k < 8 ==> r.count(k) == 0,
    {
        DeclarationStats {
            axioms: 0,
            definitions: 0,
            theorems: 0,
            opaques: 0,
            quotients: 0,
            inductives: 0,
            constructors: 0,
            recursors: 0,
        }
    }

    /// Count the declarations of `cs`, each under its kind.
    pub fn add_constants(&mut self, cs: &[ConstantInfo])
        requires
            old(self).spec_total() + cs@.len() <= usize::MAX,
        ensures
            forall|k: nat| k < 8 ==> #[trigger] final(self).count(k) == old(self).count(k) + count_kind(cs@, k),
            final(self).spec_total() == old(self).spec_total() + cs@.len(),
    {
        let ghost start = *self;
        let mut i: usize = 0;
        while i < cs.len()
            invariant
                i <= cs@.len(),
                start.spec_total() + cs@.len() <= usize::MAX,
                self.spec_total() == start.spec_total() + i,
                forall|k: nat| k < 8 ==> #[trigger] self.count(k) == start.count(k) + count_kind(
                    cs@.take(i as int),
                    k,
                ),
            decreases cs@.len() - i,
        {
            proof {
                assert(cs@.take(i + 1).drop_last() == cs@.take(i as int));
                assert(cs@.take(i + 1).last() == cs@[i as int]);
            }
            let ghost before = *self;
            match &cs[i] {
                ConstantInfo::Axiom { .. } => self.axioms = self.axioms + 1,
                ConstantInfo::Definition { .. } => self.definitions = self.definitions + 1,
                ConstantInfo::Theorem { .. } => self.theorems = self.theorems + 1,
                ConstantInfo::Opaque { .. } => self.opaques = self.opaques + 1,
                ConstantInfo::Quot { .. } => self.quotients = self.quotients + 1,
                ConstantInfo::Inductive { .. } => self.inductives = self.inductives + 1,
                ConstantInfo::Constructor { .. } => self.constructors = self.constructors + 1,
                ConstantInfo::Recursor { .. } => self.recursors = self.recursors + 1,
            }
            proof {
                assert forall|k: nat| k < 8 implies #[trigger] self.count(k) == before.count(k) + (
                if kind_index(cs@[i as int]) == k {
                    1nat
                } else {
                    0nat
                }) by {}
                assert forall|k: nat| k < 8 implies count_kind(cs@.take(i + 1), k) == count_kind(
                    cs@.take(i as int),
                    k,
                ) + (if kind_index(cs@[i as int]) == k {
                    1nat
                } else {
                    0nat
                }) by {}
            }
            i = i + 1;
        }
        proof {
            assert(cs@.take(i as int) == cs@);
        }
    }

    /// The number of declarations counted.
    pub fn total(&self) -> (r: usize)
        requires
            self.spec_total() <= usize::MAX,
        ensures
            r == self.spec_total(),
    {
        self.axioms + self.definitions + self.theorems + self.opaques + self.quotients
            + self.inductives + self.constructors + self.recursors
    }
}

} // verus!

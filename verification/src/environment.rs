//! The Lean 4 environment: an immutable map from names to declarations.
use std::sync::Arc;
use vstd::prelude::*;

use rustc_hash::FxHashMap;

use crate::constant_info::ConstantInfo;
use crate::kernel_error::{KernelError, KernelResult};
use crate::name::{Limb, Name};

verus! {

/// The declarations of an environment, held in an `FxHashMap` keyed by name.
#[verifier::external_body]
#[derive(Debug)]
pub(crate) struct ConstantTable {
    map: FxHashMap<Name, ConstantInfo>,
}

/// What a table holds: for each name (by its components) its declaration.
pub uninterp spec fn table_contents(t: ConstantTable) -> Map<Seq<Limb>, ConstantInfo>;

impl ConstantTable {
    /// `FxHashMap::default`: an empty table.
    #[verifier::external_body]
    pub(crate) fn new() -> (r: Self)
        ensures
            table_contents(r).dom() == Set::<Seq<Limb>>::empty(),
    {
        ConstantTable { map: FxHashMap::default() }
    }

    /// `HashMap::get`: the declaration stored under `name`, if any.
    #[verifier::external_body]
    pub(crate) fn get(&self, name: &Name) -> (r: Option<&ConstantInfo>)
        ensures
            r is None <==> !table_contents(*self).contains_key(name@),
            r matches Some(c) ==> *c == table_contents(*self)[name@],
    {
        self.map.get(name)
    }

    /// `HashMap::contains_key`: whether a declaration is stored under `name`.
    #[verifier::external_body]
    pub(crate) fn contains_key(&self, name: &Name) -> (r: bool)
        ensures
            r == table_contents(*self).contains_key(name@),
    {
        self.map.contains_key(name)
    }

    /// `HashMap::insert`: store `info` under `name`, replacing what was there.
    #[verifier::external_body]
    pub(crate) fn insert(&mut self, name: Name, info: ConstantInfo)
        ensures
            table_contents(*final(self)) == table_contents(*old(self)).insert(name@, info),
            table_contents(*final(self)).dom().finite(),
    {
        self.map.insert(name, info);
    }

    /// `HashMap::len`: the number of names with a declaration.
    #[verifier::external_body]
    pub(crate) fn len(&self) -> (r: usize)
        ensures
            r == table_contents(*self).len(),
    {
        self.map.len()
    }

    /// `HashMap::values`, collected: the declaration of every stored name
    /// once, in the order in which the map is walked (which is left open).
    #[verifier::external_body]
    pub(crate) fn values(&self) -> (r: Vec<ConstantInfo>)
        ensures
            r@.len() == table_contents(*self).len(),
            forall|i: int|
                0 <= i < r@.len() ==> table_contents(*self).contains_value(#[trigger] r@[i]),
            exists|ks: Seq<Seq<Limb>>|
                #![trigger ks.to_set()]
                ks.no_duplicates() && ks.to_set() == table_contents(*self).dom() && ks.len()
                    == r@.len() && forall|i: int|
                    0 <= i < ks.len() ==> #[trigger] r@[i] == table_contents(*self)[ks[i]],
    {
        self.map.values().cloned().collect()
    }
}

impl Clone for ConstantTable {
    /// `HashMap::clone`: a table with the same declarations.
    #[verifier::external_body]
    fn clone(&self) -> (r: Self)
        ensures
            table_contents(r) == table_contents(*self),
            table_contents(r).dom().finite(),
    {
        ConstantTable { map: self.map.clone() }
    }
}

/// What an environment is: its declarations and whether quotients are set up.
pub struct EnvView {
    pub constants: Map<Seq<Limb>, ConstantInfo>,
    pub quot_initialized: bool,
}

#[derive(Clone, Debug)]
struct EnvironmentInner {
    constants: ConstantTable,
    quot_initialized: bool,
}

/// Std `Arc::clone`: a new handle to the same environment data.
#[verifier::external_body]
fn share_inner(a: &Arc<EnvironmentInner>) -> (r: Arc<EnvironmentInner>)
    ensures
        r == *a,
{
    Arc::clone(a)
}

/// Std `Arc::unwrap_or_clone`: the data itself when this is its only
/// handle, else a clone of it.
#[verifier::external_body]
fn unwrap_or_clone_inner(a: Arc<EnvironmentInner>) -> (r: EnvironmentInner)
    ensures
        table_contents(r.constants) == table_contents(a.constants),
        r.quot_initialized == a.quot_initialized,
{
    Arc::unwrap_or_clone(a)
}

/// The Lean 4 environment. Environments are persistent: `add_constant`
/// returns a new environment and leaves the old one as it was.
#[derive(Debug)]
pub struct Environment {
    inner: Arc<EnvironmentInner>,
}

impl View for Environment {
    type V = EnvView;

    closed spec fn view(&self) -> EnvView {
        EnvView {
            constants: table_contents(self.inner.constants),
            quot_initialized: self.inner.quot_initialized,
        }
    }
}

impl Clone for Environment {
    fn clone(&self) -> (r: Self)
        ensures
            r@ == self@,
    {
        Environment { inner: share_inner(&self.inner) }
    }
}

/// Whether `name` is declared in `env` with a declaration satisfying `p`.
pub open spec fn declared_as(
    env: EnvView,
    name: Seq<Limb>,
    p: spec_fn(ConstantInfo) -> bool,
) -> bool {
    env.constants.contains_key(name) && p(env.constants[name])
}

impl Environment {
    /// An empty environment.
    pub fn new() -> (r: Self)
        ensures
            r@.constants == Map::<Seq<Limb>, ConstantInfo>::empty(),
            !r@.quot_initialized,
    {
        let constants = ConstantTable::new();
        proof {
            assert(table_contents(constants) =~= Map::<Seq<Limb>, ConstantInfo>::empty());
        }
        Environment { inner: Arc::new(EnvironmentInner { constants, quot_initialized: false }) }
    }

    /// An environment holding exactly the given declarations.
    pub fn from_constants(constants: ConstantTable) -> (r: Self)
        ensures
            r@.constants == table_contents(constants),
            !r@.quot_initialized,
    {
        Environment { inner: Arc::new(EnvironmentInner { constants, quot_initialized: false }) }
    }

    /// Look up a declaration by name.
    pub fn find(&self, name: &Name) -> (r: Option<&ConstantInfo>)
        ensures
            r is None <==> !self@.constants.contains_key(name@),
            r matches Some(c) ==> *c == self@.constants[name@],
    {
        self.inner.constants.get(name)
    }

    /// Look up a declaration, failing with `UnknownConstant` when there is none.
    pub fn get(&self, name: &Name) -> (r: KernelResult<&ConstantInfo>)
        ensures
            r is Ok <==> self@.constants.contains_key(name@),
            r matches Ok(c) ==> *c == self@.constants[name@],
            r matches Err(e) ==> e matches KernelError::UnknownConstant(n) && n@ == name@,
    {
        match self.find(name) {
            Some(c) => Ok(c),
            None => Err(KernelError::UnknownConstant(name.clone())),
        }
    }

    /// Add a declaration, giving a new environment. Fails with
    /// `AlreadyDeclared` when its name is taken.
    pub fn add_constant(&self, info: ConstantInfo) -> (r: KernelResult<Self>)
        ensures
            r is Err <==> self@.constants.contains_key(info.spec_name()),
            r matches Err(e) ==> e matches KernelError::AlreadyDeclared(n) && n@
                == info.spec_name(),
            r matches Ok(env) ==> env@.constants == self@.constants.insert(info.spec_name(), info),
            r matches Ok(env) ==> env@.quot_initialized == self@.quot_initialized,
    {
        let name = info.name().clone();
        if self.inner.constants.contains_key(&name) {
            return Err(KernelError::AlreadyDeclared(name));
        }
        let mut new_constants = self.inner.constants.clone();
        new_constants.insert(name, info);
        Ok(
            Environment {
                inner: Arc::new(
                    EnvironmentInner {
                        constants: new_constants,
                        quot_initialized: self.inner.quot_initialized,
                    },
                ),
            },
        )
    }

    /// Add a declaration in place, replacing one of the same name. The data is
    /// copied only when another handle shares it.
    pub fn add_constant_unchecked(&mut self, info: ConstantInfo)
        ensures
            final(self)@.constants == old(self)@.constants.insert(info.spec_name(), info),
            final(self)@.quot_initialized == old(self)@.quot_initialized,
    {
        let mut shared = Arc::new(
            EnvironmentInner { constants: ConstantTable::new(), quot_initialized: false },
        );
        std::mem::swap(&mut shared, &mut self.inner);
        let mut inner = unwrap_or_clone_inner(shared);
        let name = info.name().clone();
        inner.constants.insert(name, info);
        self.inner = Arc::new(inner);
    }

    /// The same declarations, with quotients marked as initialized.
    pub fn set_quot_initialized(&self) -> (r: Self)
        ensures
            r@.constants == self@.constants,
            r@.quot_initialized,
    {
        Environment {
            inner: Arc::new(
                EnvironmentInner { constants: self.inner.constants.clone(), quot_initialized: true },
            ),
        }
    }

    pub fn is_quot_initialized(&self) -> (b: bool)
        ensures
            b == self@.quot_initialized,
    {
        self.inner.quot_initialized
    }

    /// Number of declarations.
    pub fn num_constants(&self) -> (r: usize)
        ensures
            r == self@.constants.len(),
    {
        self.inner.constants.len()
    }

    /// Call `f` on every declaration, in the order in which the table is walked.
    pub fn for_each_constant<F: FnMut(&ConstantInfo)>(&self, f: F)
        requires
            forall|c: &ConstantInfo| f.requires((c,)),
    {
        let values = self.inner.constants.values();
        let mut f = f;
        let mut i: usize = 0;
        while i < values.len()
            invariant
                i <= values.len(),
                forall|c: &ConstantInfo| f.requires((c,)),
            decreases values.len() - i,
        {
            f(&values[i]);
            i = i + 1;
        }
    }

    /// Whether `name` is declared as an inductive type.
    pub fn is_inductive(&self, name: &Name) -> (b: bool)
        ensures
            b == declared_as(self@, name@, |c: ConstantInfo| c is Inductive),
    {
        match self.find(name) {
            Some(ConstantInfo::Inductive { .. }) => true,
            _ => false,
        }
    }

    /// Whether `name` is declared as a constructor.
    pub fn is_constructor(&self, name: &Name) -> (b: bool)
        ensures
            b == declared_as(self@, name@, |c: ConstantInfo| c is Constructor),
    {
        match self.find(name) {
            Some(ConstantInfo::Constructor { .. }) => true,
            _ => false,
        }
    }

    /// Whether `name` is declared as a recursor.
    pub fn is_recursor(&self, name: &Name) -> (b: bool)
        ensures
            b == declared_as(self@, name@, |c: ConstantInfo| c is Recursor),
    {
        match self.find(name) {
            Some(ConstantInfo::Recursor { .. }) => true,
            _ => false,
        }
    }
}

impl Default for Environment {
    fn default() -> (r: Self)
        ensures
            r@.constants == Map::<Seq<Limb>, ConstantInfo>::empty(),
            !r@.quot_initialized,
    {
        Environment::new()
    }
}

/// A declaration added to an environment is found there under its name (so
/// adding it a second time is refused), every other name finds what it found
/// before, and the count grows by one.
pub proof fn law_add_then_find(env: EnvView, info: ConstantInfo, other: Seq<Limb>)
    requires
        env.constants.dom().finite(),
        !env.constants.contains_key(info.spec_name()),
    ensures
        ({
            let added = env.constants.insert(info.spec_name(), info);
            &&& added.contains_key(info.spec_name())
            &&& added[info.spec_name()] == info
            &&& other != info.spec_name() ==> (added.contains_key(other)
                == env.constants.contains_key(other) && (env.constants.contains_key(other)
                ==> added[other] == env.constants[other]))
            &&& added.len() == env.constants.len() + 1
        }),
{
}

} // verus!

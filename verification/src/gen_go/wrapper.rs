//! The Go wrapper: the high-level file that users of the bindings import.

use vstd::prelude::*;

use super::config::Config;
use super::imports::{strictly_sorted, ImportRequirement, ImportSet, ImportView};
use super::interface::{ComponentInterface, Type};
use super::{spec_create_code_type, GoCodeOracle};

verus! {

/// The startup hooks of a list of types: the hook of each type that has one, in
/// the order of the types.
pub open spec fn initialization_fns_of(types: Seq<Type>) -> Seq<Seq<char>>
    decreases types.len(),
{
    if types.len() == 0 {
        Seq::empty()
    } else {
        let rest = initialization_fns_of(types.drop_last());
        match spec_create_code_type(types.last()).spec_initialization_fn() {
            Some(f) => rest.push(f),
            None => rest,
        }
    }
}

/// The characters of each string of a list.
pub open spec fn string_views(strings: Seq<String>) -> Seq<Seq<char>> {
    Seq::new(strings.len(), |i: int| strings[i]@)
}

/// What the Go wrapper file is generated from: the options, the interface, and
/// what rendering the types has given.
#[derive(Debug)]
pub struct GoWrapper<'a> {
    pub config: Config,
    pub ci: &'a ComponentInterface,
    /// The helper code of all types, as the type renderer gave it.
    pub type_helper_code: String,
    /// The imports that rendering the types asked for.
    pub type_imports: ImportSet,
}

impl<'a> GoWrapper<'a> {
    /// Puts together what the wrapper file is made from. `type_helper_code` and
    /// `type_imports` are what one pass of the type renderer has left.
    pub fn new(
        config: Config,
        ci: &'a ComponentInterface,
        type_helper_code: String,
        type_imports: ImportSet,
    ) -> (r: Self)
        ensures
            r.config == config,
            r.ci == ci,
            r.type_helper_code == type_helper_code,
            r.spec_imports() == type_imports@,
    {
        Self { config, ci, type_helper_code, type_imports }
    }

    /// The imports that rendering the types asked for, in the order in which
    /// they are emitted.
    pub open spec fn spec_imports(&self) -> Seq<ImportView> {
        self.type_imports@
    }

    /// The imports of the wrapper file: each once, and sorted.
    pub fn imports(&self) -> (r: Vec<ImportRequirement>)
        ensures
            r@.map_values(|q: ImportRequirement| q@) == self.spec_imports(),
            strictly_sorted(r@.map_values(|q: ImportRequirement| q@)),
    {
        self.type_imports.flush()
    }

    /// The functions that the wrapper runs when the package starts: the hook of
    /// every type of the interface that has one.
    pub fn initialization_fns(&self) -> (r: Vec<String>)
        ensures
            string_views(r@) == initialization_fns_of(self.ci.types@),
    {
        let types = &self.ci.types;
        let mut out: Vec<String> = Vec::new();
        let mut i: usize = 0;
        assert(types@.take(0) =~= Seq::empty());
        assert(string_views(out@) =~= Seq::empty());
        while i < types.len()
            invariant
                i <= types@.len(),
                string_views(out@) == initialization_fns_of(types@.take(i as int)),
            decreases types@.len() - i,
        {
            proof {
                let upto = types@.take(i + 1);
                assert(upto.last() == types@[i as int]);
                assert(upto.drop_last() =~= types@.take(i as int));
            }
            let ghost before = string_views(out@);
            match GoCodeOracle.find(&types[i]).initialization_fn() {
                Some(f) => {
                    out.push(f);
                    assert(string_views(out@) =~= before.push(f@));
                },
                None => {},
            }
            i += 1;
        }
        assert(types@.take(types@.len() as int) =~= types@);
        out
    }
}

} // verus!

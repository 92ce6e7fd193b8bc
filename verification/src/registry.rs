//! The registry of already-synthesized trait declarations, keyed by the
//! trait's own name. A later declaration that names a registered trait as
//! a supertrait bound retrieves it here and re-expands its methods.
//! Entries are only ever added — never invalidated — and a re-registered
//! name shadows the earlier entry; within one generation run each trait
//! is registered before any of its dependents, which is what makes
//! best-effort supertrait composition sound. The process-wide placement
//! of one registry value is the embedding's concern.

use crate::model::TraitDecl;
use vstd::prelude::*;

verus! {

/// What a name resolves to among `entries`: the most recently added
/// entry under that name, if any.
pub open spec fn spec_find(entries: Seq<(String, TraitDecl)>, name: Seq<char>) -> Option<
    TraitDecl,
>
    decreases entries.len(),
{
    if entries.len() == 0 {
        None
    } else if entries.last().0@ == name {
        Some(entries.last().1)
    } else {
        spec_find(entries.drop_last(), name)
    }
}

/// The registry of synthesized trait declarations.
pub struct TraitRegistry {
    entries: Vec<(String, TraitDecl)>,
}

impl TraitRegistry {
    /// The registered entries, oldest first.
    pub closed spec fn entries(&self) -> Seq<(String, TraitDecl)> {
        self.entries@
    }

    /// What `name` resolves to.
    pub open spec fn spec_lookup(&self, name: Seq<char>) -> Option<TraitDecl> {
        spec_find(self.entries(), name)
    }

    /// An empty registry.
    pub fn new() -> (r: Self)
        ensures
            r.entries() == Seq::<(String, TraitDecl)>::empty(),
    {
        TraitRegistry { entries: Vec::new() }
    }

    /// Registers `decl` under `name`; an existing entry of that name is
    /// shadowed, never removed.
    pub fn register(&mut self, name: String, decl: TraitDecl)
        ensures
            final(self).entries() == old(self).entries().push((name, decl)),
    {
        self.entries.push((name, decl));
    }

    /// Resolves `name` to the most recently registered declaration of
    /// that name.
    pub fn lookup(&self, name: &String) -> (r: Option<&TraitDecl>)
        ensures
            match r {
                Some(d) => self.spec_lookup(name@) == Some(*d),
                None => self.spec_lookup(name@) == None::<TraitDecl>,
            },
    {
        let n = self.entries.len();
        let mut i: usize = n;
        proof {
            assert(self.entries@.subrange(0, n as int) =~= self.entries@);
        }
        while i > 0
            invariant
                i <= n,
                n == self.entries@.len(),
                spec_find(self.entries@, name@) == spec_find(
                    self.entries@.subrange(0, i as int),
                    name@,
                ),
            decreases i,
        {
            i = i - 1;
            if self.entries[i].0 == *name {
                proof {
                    assert(self.entries@.subrange(0, i + 1).last() == self.entries@[i as int]);
                }
                return Some(&self.entries[i].1);
            }
            proof {
                assert(self.entries@.subrange(0, i + 1).drop_last() =~= self.entries@.subrange(
                    0,
                    i as int,
                ));
            }
        }
        proof {
            assert(self.entries@.subrange(0, 0) =~= Seq::<(String, TraitDecl)>::empty());
        }
        None
    }
}

} // verus!

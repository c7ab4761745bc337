//! The type registry: the closed mapping from a (kind, version) pair to
//! a payload shape and the scopes a subscription to it needs. Built once
//! at startup, read-only afterwards.

use vstd::prelude::*;
use crate::errors::RegistryError;
use crate::text::str_eq;

verus! {

/// An authorization capability an endpoint or subscription requires.
#[derive(Clone, Copy, Debug, PartialEq, Eq, Structural)]
pub enum Scope {
    ModerationRead,
}

/// The closed set of payload shapes a registration can map to. New
/// shapes are added here and registered; the dispatcher never guesses.
#[derive(Clone, Copy, Debug, PartialEq, Eq, Structural)]
pub enum ShapeKind {
    ChannelUpdateV1,
}

/// One registration, as mathematics.
pub struct RegistryEntryModel {
    pub kind: Seq<char>,
    pub version: Seq<char>,
    pub shape: ShapeKind,
    pub scopes: Seq<Scope>,
}

/// One registration: the (kind, version) pair, its payload shape, and
/// the scopes it requires.
#[derive(Debug)]
pub struct RegistryEntry {
    pub kind: String,
    pub version: String,
    pub shape: ShapeKind,
    pub scopes: Vec<Scope>,
}

impl DeepView for RegistryEntry {
    type V = RegistryEntryModel;

    open spec fn deep_view(&self) -> RegistryEntryModel {
        RegistryEntryModel {
            kind: self.kind@,
            version: self.version@,
            shape: self.shape,
            scopes: self.scopes@,
        }
    }
}

/// The first registration of a pair, if any.
pub open spec fn reg_lookup(
    entries: Seq<RegistryEntryModel>,
    kind: Seq<char>,
    version: Seq<char>,
) -> Option<RegistryEntryModel>
    decreases entries.len(),
{
    if entries.len() == 0 {
        None
    } else if entries[0].kind == kind && entries[0].version == version {
        Some(entries[0])
    } else {
        reg_lookup(entries.drop_first(), kind, version)
    }
}

/// A lookup misses exactly when no entry carries the pair.
pub proof fn lemma_reg_lookup_none(
    entries: Seq<RegistryEntryModel>,
    kind: Seq<char>,
    version: Seq<char>,
)
    ensures
        reg_lookup(entries, kind, version) is None <==> forall|i: int|
            0 <= i < entries.len() ==> !(entries[i].kind == kind
                && entries[i].version == version),
    decreases entries.len(),
{
    if entries.len() > 0 {
        let tail = entries.drop_first();
        lemma_reg_lookup_none(tail, kind, version);
        assert(forall|i: int| 0 <= i < tail.len() ==> tail[i] == entries[i + 1]);
        if entries[0].kind == kind && entries[0].version == version {
            assert(reg_lookup(entries, kind, version) is Some);
        } else if reg_lookup(tail, kind, version) is None {
            assert forall|i: int|
                0 <= i < entries.len() implies !(entries[i].kind == kind
                && entries[i].version == version) by {
                if i > 0 {
                    assert(entries[i] == tail[i - 1]);
                }
            }
        } else {
            assert(exists|i: int| 0 <= i < tail.len() && tail[i].kind == kind
                && tail[i].version == version);
            let w = choose|i: int| 0 <= i < tail.len() && tail[i].kind == kind
                && tail[i].version == version;
            assert(entries[w + 1].kind == kind && entries[w + 1].version == version);
        }
    }
}

/// The registry of payload shapes.
pub struct TypeRegistry {
    entries: Vec<RegistryEntry>,
}

impl TypeRegistry {
    /// The registrations as mathematics, in registration order.
    pub closed spec fn entries_model(&self) -> Seq<RegistryEntryModel> {
        self.entries.deep_view()
    }

    /// Every (kind, version) pair maps to exactly one shape.
    pub closed spec fn wf(&self) -> bool {
        forall|i: int, j: int| 0 <= i < j < self.entries_model().len()
            ==> !(self.entries_model()[i].kind == self.entries_model()[j].kind
                && self.entries_model()[i].version == self.entries_model()[j].version)
    }

    pub fn new() -> (r: TypeRegistry)
        ensures
            r.wf(),
            r.entries_model().len() == 0,
    {
        TypeRegistry { entries: Vec::new() }
    }

    /// Looks a (kind, version) pair up; misses rather than guessing a
    /// closest match.
    pub fn lookup(&self, kind: &str, version: &str) -> (r: Option<&RegistryEntry>)
        ensures
            match r {
                Some(e) => reg_lookup(self.entries_model(), kind@, version@)
                    == Some(e.deep_view()),
                None => reg_lookup(self.entries_model(), kind@, version@) is None,
            },
    {
        let ghost m = self.entries_model();
        proof {
            assert(m.skip(0) =~= m);
        }
        let mut i: usize = 0;
        while i < self.entries.len()
            invariant
                i <= self.entries@.len(),
                m == self.entries_model(),
                m.len() == self.entries@.len(),
                forall|k: int| 0 <= k < m.len() ==> m[k] == self.entries@[k].deep_view(),
                reg_lookup(m, kind@, version@) == reg_lookup(m.skip(i as int), kind@, version@),
            decreases self.entries@.len() - i,
        {
            let e = &self.entries[i];
            proof {
                assert(m.skip(i as int)[0] == m[i as int]);
                assert(m.skip(i as int).drop_first() =~= m.skip(i + 1));
            }
            if str_eq(e.kind.as_str(), kind) && str_eq(e.version.as_str(), version) {
                return Some(e);
            }
            i += 1;
        }
        proof {
            assert(m.skip(m.len() as int) =~= Seq::<RegistryEntryModel>::empty());
        }
        None
    }

    /// Registers a pair. Registering the same pair twice is refused and
    /// leaves the registry as it was.
    pub fn register(&mut self, entry: RegistryEntry) -> (r: Result<(), RegistryError>)
        requires
            old(self).wf(),
        ensures
            final(self).wf(),
            match r {
                Ok(()) => reg_lookup(old(self).entries_model(), entry.kind@, entry.version@)
                    is None
                    && final(self).entries_model()
                        == old(self).entries_model().push(entry.deep_view()),
                Err(_) => reg_lookup(old(self).entries_model(), entry.kind@, entry.version@)
                    is Some
                    && final(self).entries_model() == old(self).entries_model(),
            },
    {
        let dup = self.lookup(entry.kind.as_str(), entry.version.as_str());
        if dup.is_some() {
            return Err(RegistryError::DuplicateRegistration);
        }
        proof {
            lemma_reg_lookup_none(self.entries_model(), entry.kind@, entry.version@);
        }
        let ghost before = self.entries_model();
        self.entries.push(entry);
        proof {
            assert(self.entries_model() =~= before.push(entry.deep_view()));
            lemma_reg_lookup_none(before, entry.kind@, entry.version@);
        }
        Ok(())
    }
}

} // verus!

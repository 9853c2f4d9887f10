//! The registry of named types.
//!
//! Every named type that a schema mentions is resolved through the registry,
//! which holds at most one entry for each type identity. It is filled before
//! any declaration is generated and only read afterwards.

use vstd::prelude::*;
use crate::export::{NamedType, NamedTypeView};
use crate::schema::{TypeName, TypeNameView};

verus! {

/// Whether no two of the entries describe the same type.
pub open spec fn distinct_names(entries: Seq<NamedType>) -> bool {
    forall|i: int, j: int|
        0 <= i < j < entries.len() ==> (#[trigger] entries[i]).name@ != (#[trigger] entries[j]).name@
}

/// The mapping that a list of entries stands for.
pub open spec fn entries_map(entries: Seq<NamedType>) -> Map<TypeNameView, NamedTypeView>
    decreases entries.len(),
{
    if entries.len() == 0 {
        Map::empty()
    } else {
        entries_map(entries.drop_last()).insert(entries.last().name@, entries.last()@)
    }
}

/// The types that `entries_map` knows are those of the entries, and each is
/// mapped to its own entry when no identity occurs twice.
pub proof fn lemma_entries_map(entries: Seq<NamedType>)
    requires
        distinct_names(entries),
    ensures
        forall|k: TypeNameView|
            entries_map(entries).dom().contains(k) <==> exists|i: int|
                0 <= i < entries.len() && (#[trigger] entries[i]).name@ == k,
        forall|i: int|
            0 <= i < entries.len() ==> entries_map(entries)[(#[trigger] entries[i]).name@]
                == entries[i]@,
    decreases entries.len(),
{
    if entries.len() > 0 {
        let front = entries.drop_last();
        let last = entries.last();
        assert forall|i: int, j: int| 0 <= i < j < front.len() implies (#[trigger] front[i]).name@
            != (#[trigger] front[j]).name@ by {
            assert(front[i] == entries[i]);
            assert(front[j] == entries[j]);
        }
        lemma_entries_map(front);
        assert forall|k: TypeNameView|
            entries_map(entries).dom().contains(k) <==> exists|i: int|
                0 <= i < entries.len() && (#[trigger] entries[i]).name@ == k by {
            if entries_map(entries).dom().contains(k) {
                if k == last.name@ {
                    assert(entries[entries.len() - 1].name@ == k);
                } else {
                    assert(entries_map(front).dom().contains(k));
                    let i = choose|i: int| 0 <= i < front.len() && (#[trigger] front[i]).name@ == k;
                    assert(front[i] == entries[i]);
                    assert(entries[i].name@ == k);
                }
            }
            if exists|i: int| 0 <= i < entries.len() && (#[trigger] entries[i]).name@ == k {
                let i = choose|i: int| 0 <= i < entries.len() && (#[trigger] entries[i]).name@ == k;
                if i < front.len() {
                    assert(front[i] == entries[i]);
                    assert(front[i].name@ == k);
                } else {
                    assert(entries[i] == last);
                }
            }
        }
        assert forall|i: int| 0 <= i < entries.len() implies entries_map(entries)[(
        #[trigger] entries[i]).name@] == entries[i]@ by {
            if i < front.len() {
                assert(front[i] == entries[i]);
                assert(entries[i].name@ != entries[entries.len() - 1].name@);
            }
        }
    }
}

/// The named types of one generation run, by identity.
pub struct Registry {
    entries: Vec<NamedType>,
}

impl View for Registry {
    type V = Map<TypeNameView, NamedTypeView>;

    closed spec fn view(&self) -> Map<TypeNameView, NamedTypeView> {
        entries_map(self.entries@)
    }
}

impl Registry {
    #[verifier::type_invariant]
    spec fn one_entry_per_type(&self) -> bool {
        distinct_names(self.entries@)
    }

    /// An empty registry.
    pub fn new() -> (r: Registry)
        ensures
            r@ == Map::<TypeNameView, NamedTypeView>::empty(),
    {
        Registry { entries: Vec::new() }
    }

    /// Registers the given types, in order. Where some type occurs twice,
    /// the result is the position of the first entry that repeats an
    /// earlier one.
    pub fn from_entries(entries: Vec<NamedType>) -> (r: Result<Registry, usize>)
        ensures
            match r {
                Ok(types) => distinct_names(entries@) && types@ == entries_map(entries@),
                Err(index) => index < entries@.len() && distinct_names(entries@.take(index as int))
                    && !distinct_names(entries@.take(index + 1)),
            },
    {
        let mut i: usize = 0;
        assert(distinct_names(entries@.take(0)));
        while i < entries.len()
            invariant
                i <= entries.len(),
                distinct_names(entries@.take(i as int)),
            decreases entries.len() - i,
        {
            let mut j: usize = 0;
            while j < i
                invariant
                    j <= i < entries.len(),
                    distinct_names(entries@.take(i as int)),
                    forall|k: int|
                        0 <= k < j ==> (#[trigger] entries@[k]).name@ != entries@[i as int].name@,
                decreases i - j,
            {
                if entries[j].name.same(&entries[i].name) {
                    proof {
                        let longer = entries@.take(i + 1);
                        assert(longer[j as int] == entries@[j as int]);
                        assert(longer[i as int] == entries@[i as int]);
                    }
                    return Err(i);
                }
                j += 1;
            }
            proof {
                let shorter = entries@.take(i as int);
                let longer = entries@.take(i + 1);
                assert forall|a: int, b: int| 0 <= a < b < longer.len() implies (
                #[trigger] longer[a]).name@ != (#[trigger] longer[b]).name@ by {
                    if b < i {
                        assert(shorter[a] == longer[a]);
                        assert(shorter[b] == longer[b]);
                    } else {
                        assert(longer[a] == entries@[a]);
                    }
                }
            }
            i += 1;
        }
        assert(entries@.take(i as int) =~= entries@);
        Ok(Registry { entries })
    }

    /// The number of registered types.
    pub fn len(&self) -> (n: usize)
        ensures
            n == self@.dom().len(),
            self@.dom().finite(),
    {
        proof {
            use_type_invariant(self);
            lemma_entries_count(self.entries@);
        }
        self.entries.len()
    }

    /// The entry of the given type, if it is registered.
    pub fn get(&self, name: &TypeName) -> (r: Option<&NamedType>)
        ensures
            r is Some <==> self@.dom().contains(name@),
            r matches Some(entry) ==> self@[name@] == entry@ && entry@.name == name@,
    {
        let mut i: usize = 0;
        while i < self.entries.len()
            invariant
                i <= self.entries.len(),
                forall|j: int| 0 <= j < i ==> (#[trigger] self.entries@[j]).name@ != name@,
            decreases self.entries.len() - i,
        {
            if self.entries[i].name.same(name) {
                proof {
                    use_type_invariant(self);
                    lemma_entries_map(self.entries@);
                    assert(self.entries@[i as int].name@ == name@);
                }
                return Some(&self.entries[i]);
            }
            i += 1;
        }
        proof {
            use_type_invariant(self);
            lemma_entries_map(self.entries@);
        }
        None
    }

    /// Whether the given type is registered.
    pub fn contains(&self, name: &TypeName) -> (b: bool)
        ensures
            b == self@.dom().contains(name@),
    {
        self.get(name).is_some()
    }

    /// Registers a type. A type that is registered already keeps its entry,
    /// and the new one is handed back.
    pub fn insert(&mut self, named: NamedType) -> (r: Result<(), NamedType>)
        ensures
            r is Ok <==> !old(self)@.dom().contains(named.name@),
            r is Ok ==> final(self)@ == old(self)@.insert(named.name@, named@),
            r matches Err(rejected) ==> rejected == named && final(self)@ == old(self)@,
    {
        if self.contains(&named.name) {
            return Err(named);
        }
        proof {
            use_type_invariant(&*self);
            lemma_entries_map(self.entries@);
            assert(self.entries@.push(named).drop_last() =~= self.entries@);
        }
        let mut taken = Registry::new();
        core::mem::swap(self, &mut taken);
        let Registry { entries } = taken;
        let mut entries = entries;
        entries.push(named);
        *self = Registry { entries };
        Ok(())
    }
}

/// A list of entries with distinct identities stands for a mapping of as many
/// types.
pub proof fn lemma_entries_count(entries: Seq<NamedType>)
    requires
        distinct_names(entries),
    ensures
        entries_map(entries).dom().finite(),
        entries_map(entries).dom().len() == entries.len(),
    decreases entries.len(),
{
    if entries.len() > 0 {
        let front = entries.drop_last();
        assert(distinct_names(front)) by {
            assert forall|i: int, j: int| 0 <= i < j < front.len() implies (#[trigger] front[i]).name@
                != (#[trigger] front[j]).name@ by {
                assert(front[i] == entries[i]);
                assert(front[j] == entries[j]);
            }
        }
        lemma_entries_count(front);
        lemma_entries_map(front);
        assert(!entries_map(front).dom().contains(entries.last().name@)) by {
            if entries_map(front).dom().contains(entries.last().name@) {
                let i = choose|i: int|
                    0 <= i < front.len() && (#[trigger] front[i]).name@ == entries.last().name@;
                assert(front[i] == entries[i]);
                assert(entries[entries.len() - 1] == entries.last());
            }
        }
    }
}

} // verus!

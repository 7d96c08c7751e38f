//! The fonts that a window knows, by family name.

use vstd::prelude::*;

verus! {

/// A set of fonts, each registered under its family name. Registering a
/// family a second time replaces the font that it had.
pub struct FontRegistry {
    entries: Vec<(String, &'static [u8])>,
}

/// Whether the entry at `index` is registered under `family`.
pub open spec fn names(
    entries: Seq<(String, &'static [u8])>,
    index: int,
    family: Seq<char>,
) -> bool {
    0 <= index < entries.len() && entries[index].0@ == family
}

/// Whether no family occurs twice.
pub open spec fn distinct_families(entries: Seq<(String, &'static [u8])>) -> bool {
    forall|i: int, j: int|
        0 <= i < j < entries.len() ==> (#[trigger] entries[i]).0@ != (#[trigger] entries[j]).0@
}

/// The fonts of a list of entries, by family.
pub open spec fn fonts_of(entries: Seq<(String, &'static [u8])>) -> Map<Seq<char>, Seq<u8>> {
    Map::new(
        |family: Seq<char>| exists|index: int| names(entries, index, family),
        |family: Seq<char>| entries[choose|index: int| names(entries, index, family)].1@,
    )
}

/// Replacing the font of a family that is already there, or appending a
/// family that is not, inserts into the fonts by family.
pub proof fn lemma_fonts_of_insert(
    before: Seq<(String, &'static [u8])>,
    after: Seq<(String, &'static [u8])>,
    at: int,
    entry: (String, &'static [u8]),
)
    requires
        distinct_families(before),
        0 <= at <= before.len(),
        at < before.len() ==> before[at].0@ == entry.0@ && after == before.update(at, entry),
        at == before.len() ==> after == before.push(entry) && forall|i: int|
            0 <= i < before.len() ==> (#[trigger] before[i]).0@ != entry.0@,
    ensures
        distinct_families(after),
        fonts_of(after) == fonts_of(before).insert(entry.0@, entry.1@),
{
    assert(after.len() == if at < before.len() { before.len() } else { before.len() + 1 });
    assert forall|i: int| 0 <= i < after.len() implies (#[trigger] after[i]).0@ == (if i == at {
        entry.0@
    } else {
        before[i].0@
    }) by {}
    assert(distinct_families(after));
    let expected = fonts_of(before).insert(entry.0@, entry.1@);
    assert forall|family: Seq<char>| #[trigger]
        fonts_of(after).dom().contains(family) == expected.dom().contains(family) by {
        if family == entry.0@ {
            assert(names(after, at, family));
        } else {
            if exists|index: int| names(before, index, family) {
                let index = choose|index: int| names(before, index, family);
                assert(names(after, index, family));
            }
            if exists|index: int| names(after, index, family) {
                let index = choose|index: int| names(after, index, family);
                assert(names(before, index, family));
            }
        }
    }
    assert forall|family: Seq<char>| #[trigger]
        fonts_of(after).dom().contains(family) implies fonts_of(after)[family]
        == expected[family] by {
        let index = choose|index: int| names(after, index, family);
        assert(names(after, index, family));
        if family == entry.0@ {
            assert(index == at);
        } else {
            assert(names(before, index, family));
            let old_index = choose|index: int| names(before, index, family);
            assert(names(before, old_index, family));
            assert(old_index == index);
        }
    }
    assert(fonts_of(after) =~= expected);
}

impl View for FontRegistry {
    type V = Map<Seq<char>, Seq<u8>>;

    open spec fn view(&self) -> Map<Seq<char>, Seq<u8>> {
        fonts_of(self.entries())
    }
}

impl FontRegistry {
    #[verifier::type_invariant]
    spec fn well_formed(self) -> bool {
        distinct_families(self.entries@)
    }

    /// The registered fonts with their families, in the order in which the
    /// families were first registered.
    pub closed spec fn entries(&self) -> Seq<(String, &'static [u8])> {
        self.entries@
    }

    /// Creates a registry without fonts.
    pub fn new() -> (registry: FontRegistry)
        ensures
            registry.entries() == Seq::<(String, &'static [u8])>::empty(),
            registry@ == Map::<Seq<char>, Seq<u8>>::empty(),
    {
        let registry = FontRegistry { entries: Vec::new() };
        assert(registry@ =~= Map::<Seq<char>, Seq<u8>>::empty());
        registry
    }

    /// The number of families. No family is counted twice.
    pub fn len(&self) -> (count: usize)
        ensures
            count == self.entries().len(),
            distinct_families(self.entries()),
    {
        proof {
            use_type_invariant(self);
        }
        self.entries.len()
    }

    /// The family and the font at a position.
    pub fn entry(&self, index: usize) -> (entry: (&String, &'static [u8]))
        requires
            index < self.entries().len(),
        ensures
            *entry.0 == self.entries()[index as int].0,
            entry.1 == self.entries()[index as int].1,
    {
        (&self.entries[index].0, self.entries[index].1)
    }

    /// The position of a family among the entries, or their number where the
    /// family is not registered.
    fn position(&self, family: &String) -> (at: usize)
        ensures
            at <= self.entries@.len(),
            at < self.entries@.len() ==> self.entries@[at as int].0@ == family@,
            at == self.entries@.len() ==> forall|i: int|
                0 <= i < self.entries@.len() ==> (#[trigger] self.entries@[i]).0@ != family@,
    {
        let mut at: usize = 0;
        while at < self.entries.len()
            invariant
                at <= self.entries@.len(),
                forall|i: int| 0 <= i < at ==> (#[trigger] self.entries@[i]).0@ != family@,
            decreases self.entries@.len() - at,
        {
            if self.entries[at].0 == *family {
                return at;
            }
            at += 1;
        }
        at
    }

    /// Registers a font under a family name, in place of the font that the
    /// family had, if it had one.
    pub fn insert(&mut self, family: String, font: &'static [u8])
        ensures
            final(self)@ == old(self)@.insert(family@, font@),
            !old(self)@.contains_key(family@) ==> final(self).entries() == old(self).entries().push(
                (family, font),
            ),
            old(self)@.contains_key(family@) ==> exists|at: int|
                names(old(self).entries(), at, family@) && final(self).entries() == old(
                    self,
                ).entries().update(at, (family, font)),
    {
        proof {
            use_type_invariant(&*self);
        }
        let at = self.position(&family);
        let ghost before = self.entries@;
        let ghost entry = (family, font);
        proof {
            if at < before.len() {
                assert(names(before, at as int, family@));
            }
        }
        let mut entries = Vec::new();
        std::mem::swap(&mut entries, &mut self.entries);
        if at < entries.len() {
            proof {
                lemma_fonts_of_insert(before, before.update(at as int, entry), at as int, entry);
            }
            entries.set(at, (family, font));
        } else {
            proof {
                lemma_fonts_of_insert(before, before.push(entry), at as int, entry);
            }
            entries.push((family, font));
        }
        self.entries = entries;
    }

    /// The font of a family, if the family is registered.
    pub fn get(&self, family: &String) -> (font: Option<&'static [u8]>)
        ensures
            match font {
                Some(bytes) => self@.contains_key(family@) && self@[family@] == bytes@,
                None => !self@.contains_key(family@),
            },
    {
        proof {
            use_type_invariant(self);
        }
        let at = self.position(family);
        if at < self.entries.len() {
            proof {
                let entries = self.entries@;
                assert(names(entries, at as int, family@));
                let chosen = choose|index: int| names(entries, index, family@);
                assert(names(entries, chosen, family@));
                assert(chosen == at);
            }
            Some(self.entries[at].1)
        } else {
            None
        }
    }
}

} // verus!

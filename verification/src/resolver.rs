use vstd::prelude::*;

use crate::value::Kind;

verus! {

/// One guest-callable import: a host-defined function registered under a
/// namespace/name pair, with its guest-visible signature and the index of
/// its callback in the host's callback table.
pub struct ImportEntry {
    /// The namespace the guest imports from.
    pub namespace: String,
    /// The name within that namespace.
    pub name: String,
    /// The declared parameter kinds of the guest-visible signature.
    pub params: Vec<Kind>,
    /// The declared result kinds of the guest-visible signature.
    pub results: Vec<Kind>,
    /// Which host callback the import trampoline invokes.
    pub callback: usize,
}

/// A named, two-level mapping describing what a guest module may call into:
/// explicit host-defined functions, optionally backed by the engine's
/// POSIX-like preset environment behind them.
///
/// Entries are kept in registration order and the last registration of a
/// `(namespace, name)` pair wins: re-registering a namespace merges entries,
/// and a later registration of the same name overrides the earlier one. The
/// preset, when present, sits behind every explicit entry: an explicit entry
/// overrides a preset function of the same namespace and name.
pub struct ImportSet {
    /// The explicit entries, in registration order.
    pub entries: Vec<ImportEntry>,
    /// Whether the preset environment backs the explicit entries.
    pub preset_base: bool,
}

/// The entry a lookup of `(ns, name)` finds among `entries`: the latest
/// registered entry with that namespace and name, or `None` when the pair is
/// undefined. Lookup reads the mapping and changes nothing.
pub open spec fn spec_lookup(entries: Seq<ImportEntry>, ns: Seq<char>, name: Seq<char>) -> Option<
    ImportEntry,
>
    decreases entries.len(),
{
    if entries.len() == 0 {
        None
    } else if entries.last().namespace@ == ns && entries.last().name@ == name {
        Some(entries.last())
    } else {
        spec_lookup(entries.drop_last(), ns, name)
    }
}

impl ImportSet {
    /// An import set with no entries and no preset behind it.
    pub fn new() -> (r: ImportSet)
        ensures
            r.entries@ == Seq::<ImportEntry>::empty(),
            !r.preset_base,
    {
        ImportSet { entries: Vec::new(), preset_base: false }
    }

    /// An import set that is the preset environment alone.
    pub fn preset() -> (r: ImportSet)
        ensures
            r.entries@ == Seq::<ImportEntry>::empty(),
            r.preset_base,
    {
        ImportSet { entries: Vec::new(), preset_base: true }
    }

    /// Inserts a namespace/name entry. A later registration of a pair this
    /// set already defines wins over the earlier one; nothing else changes.
    pub fn register(&mut self, entry: ImportEntry)
        ensures
            final(self).entries@ == old(self).entries@.push(entry),
            final(self).preset_base == old(self).preset_base,
    {
        self.entries.push(entry);
    }

    /// The entry a guest import of `(ns, name)` resolves to, or `None` when
    /// this set's explicit entries do not define the pair.
    pub fn lookup(&self, ns: &String, name: &String) -> (r: Option<&ImportEntry>)
        ensures
            match r {
                Some(e) => spec_lookup(self.entries@, ns@, name@) == Some(*e),
                None => spec_lookup(self.entries@, ns@, name@) is None,
            },
    {
        let mut i: usize = self.entries.len();
        proof {
            assert(self.entries@.take(i as int) =~= self.entries@);
        }
        while i > 0
            invariant
                i <= self.entries@.len(),
                spec_lookup(self.entries@, ns@, name@) == spec_lookup(
                    self.entries@.take(i as int),
                    ns@,
                    name@,
                ),
            decreases i,
        {
            let e = &self.entries[i - 1];
            if e.namespace == *ns && e.name == *name {
                proof {
                    assert(self.entries@.take(i as int).last() == self.entries@[i - 1]);
                }
                return Some(e);
            }
            proof {
                assert(self.entries@.take(i as int).drop_last() =~= self.entries@.take(i - 1));
            }
            i = i - 1;
        }
        proof {
            assert(self.entries@.take(0) =~= Seq::<ImportEntry>::empty());
        }
        None
    }

    /// Combines two import sets: lookups consult `front` first and fall back
    /// to `back` on a miss, so `front` overrides `back` pair by pair without
    /// `back` being changed. The preset backs the result when it backs
    /// either argument.
    pub fn chain(front: ImportSet, back: ImportSet) -> (r: ImportSet)
        ensures
            r.entries@ == back.entries@ + front.entries@,
            r.preset_base == (front.preset_base || back.preset_base),
    {
        let preset_base = front.preset_base || back.preset_base;
        let mut entries = back.entries;
        let mut front_entries = front.entries;
        entries.append(&mut front_entries);
        ImportSet { entries, preset_base }
    }
}

/// The two-level mapping the entries denote: pair by pair, a later entry
/// for a pair replacing an earlier one, each defined pair carrying the
/// declared parameter and result kinds of its latest entry.
pub open spec fn spec_import_map(entries: Seq<ImportEntry>) -> Map<
    (Seq<char>, Seq<char>),
    (Seq<Kind>, Seq<Kind>),
>
    decreases entries.len(),
{
    if entries.len() == 0 {
        Map::empty()
    } else {
        spec_import_map(entries.drop_last()).insert(
            (entries.last().namespace@, entries.last().name@),
            (entries.last().params@, entries.last().results@),
        )
    }
}

/// The mapping and the lookup agree: a pair is defined in the mapping
/// exactly when lookup finds an entry for it, and it carries that entry's
/// declared signature.
pub proof fn lemma_import_map_matches_lookup(entries: Seq<ImportEntry>, ns: Seq<char>, name: Seq<char>)
    ensures
        match spec_lookup(entries, ns, name) {
            Some(e) => spec_import_map(entries).contains_key((ns, name)) && spec_import_map(
                entries,
            )[(ns, name)] == (e.params@, e.results@),
            None => !spec_import_map(entries).contains_key((ns, name)),
        },
    decreases entries.len(),
{
    if entries.len() > 0 {
        lemma_import_map_matches_lookup(entries.drop_last(), ns, name);
    }
}

/// Looking a pair up in concatenated entries finds what the later block
/// defines, and falls back to the earlier block when the later one does not
/// define the pair.
pub proof fn lemma_lookup_concat(a: Seq<ImportEntry>, b: Seq<ImportEntry>, ns: Seq<char>, name: Seq<char>)
    ensures
        spec_lookup(a + b, ns, name) == if spec_lookup(b, ns, name) is Some {
            spec_lookup(b, ns, name)
        } else {
            spec_lookup(a, ns, name)
        },
    decreases b.len(),
{
    if b.len() == 0 {
        assert(a + b =~= a);
    } else {
        let ab = a + b;
        assert(ab.last() == b.last());
        assert(ab.drop_last() =~= a + b.drop_last());
        lemma_lookup_concat(a, b.drop_last(), ns, name);
    }
}

/// What a chained import set resolves: the front set's entry whenever the
/// front set defines the pair — also when both define it — and the back
/// set's entry when only the back set defines it.
pub proof fn lemma_chain_lookup(front: ImportSet, back: ImportSet, chained: ImportSet, ns: Seq<char>, name: Seq<char>)
    requires
        chained.entries@ == back.entries@ + front.entries@,
    ensures
        spec_lookup(front.entries@, ns, name) is Some ==> spec_lookup(
            chained.entries@,
            ns,
            name,
        ) == spec_lookup(front.entries@, ns, name),
        spec_lookup(front.entries@, ns, name) is None ==> spec_lookup(
            chained.entries@,
            ns,
            name,
        ) == spec_lookup(back.entries@, ns, name),
{
    lemma_lookup_concat(back.entries@, front.entries@, ns, name);
}

} // verus!

//! Source text storage: identifiers, the cache, and the per-run session.

use vstd::prelude::*;

verus! {

/// Opaque id for source strings.
///
/// * A source string may have multiple `SourceId`s.
/// * A `SourceId` refers uniquely to a single source string.
///
/// Ids are issued by the cache that stores the strings, from a counter the
/// cache owns, monotonically and without reuse, so that each id, once
/// created, keeps its mapping for the life of the cache.
#[derive(Debug, PartialEq, Eq, Structural, Hash, Copy, Clone)]
pub struct SourceId(pub(crate) usize);

impl SourceId {
    /// The numeric value behind the id.
    pub closed spec fn index(self) -> nat {
        self.0 as nat
    }
}

/// For obtaining a `SourceId` from an error or a warning.
pub trait SourceArtifact {
    fn source_id(&self) -> SourceId;
}

/// A cache for source text.
///
/// This is a read/write cache that maps [`SourceId`]s to a path and a
/// `String` of source text. A file can have multiple entries in the cache by
/// having multiple `SourceId`s, which is useful for instance when applying
/// fixes based on error recovery.
///
/// The cache is append-only: an id is never removed, and a given id, once
/// inserted, refers to exactly one immutable (path, text) pair; later
/// "updates" must use a new id. The id counter is explicit state owned by the
/// cache, so independent caches have independent id spaces.
///
/// The cache performs no filesystem operations itself; reading files is the
/// business of the code around the driver. Modifications made through
/// [`SourceCache::add_source`] are tracked in a [`Session`].
pub struct SourceCache {
    entries: Vec<(String, String)>,
}

impl SourceCache {
    /// How many sources the cache holds; ids `0 .. num_sources()` are exactly
    /// the ids known to this cache.
    pub closed spec fn num_sources(self) -> nat {
        self.entries@.len()
    }

    /// Whether `id` is known to this cache.
    pub open spec fn contains_id(self, id: SourceId) -> bool {
        id.index() < self.num_sources()
    }

    /// The text recorded for the id with numeric value `i`.
    pub closed spec fn text_at(self, i: int) -> Seq<char> {
        self.entries@[i].1@
    }

    /// The path recorded for the id with numeric value `i`.
    pub closed spec fn path_at(self, i: int) -> Seq<char> {
        self.entries@[i].0@
    }

    /// Entries below `n` are the same in `self` and `other`.
    pub open spec fn agrees_below(self, other: SourceCache, n: int) -> bool {
        forall|i: int|
            0 <= i < n ==> self.text_at(i) == other.text_at(i) && self.path_at(i) == other.path_at(
                i,
            )
    }

    /// Creates an empty cache.
    pub fn new() -> (cache: Self)
        ensures
            cache.num_sources() == 0,
    {
        Self { entries: Vec::new() }
    }

    /// All ids currently known to the cache, each exactly once.
    ///
    /// Callers should use the result only for membership-style tests; the
    /// order in which the ids come out is not part of the cache's interface.
    pub fn source_ids(&self) -> (ids: Vec<SourceId>)
        ensures
            ids@.len() == self.num_sources(),
            forall|i: int| 0 <= i < ids@.len() ==> ids@[i].index() == i,
            forall|id: SourceId|
                self.contains_id(id) <==> exists|i: int| 0 <= i < ids@.len() && ids@[i] == id,
    {
        let mut ids: Vec<SourceId> = Vec::new();
        let n: usize = self.entries.len();
        for k in 0..n
            invariant
                ids@.len() == k,
                forall|i: int| 0 <= i < k ==> ids@[i].index() == i,
        {
            ids.push(SourceId(k));
        }
        proof {
            assert forall|id: SourceId| self.contains_id(id) implies exists|i: int|
                0 <= i < ids@.len() && ids@[i] == id by {
                assert(ids@[id.index() as int] == id);
            }
        }
        ids
    }

    /// The source text for `id`, or `None` when the id is unknown to this
    /// cache instance (for example because it was issued by a different
    /// cache).
    pub fn source_for_id(&self, src_id: SourceId) -> (r: Option<&str>)
        ensures
            match r {
                Some(text) => self.contains_id(src_id) && text@ == self.text_at(
                    src_id.index() as int,
                ),
                None => !self.contains_id(src_id),
            },
    {
        if src_id.0 < self.entries.len() {
            Some(self.entries[src_id.0].1.as_str())
        } else {
            None
        }
    }

    /// The path for `id`, with the same absence semantics as
    /// [`SourceCache::source_for_id`].
    pub fn path_for_id(&self, src_id: SourceId) -> (r: Option<&str>)
        ensures
            match r {
                Some(path) => self.contains_id(src_id) && path@ == self.path_at(
                    src_id.index() as int,
                ),
                None => !self.contains_id(src_id),
            },
    {
        if src_id.0 < self.entries.len() {
            Some(self.entries[src_id.0].0.as_str())
        } else {
            None
        }
    }

    /// Issues the next id and records `(path, text)` under it, without
    /// touching any session. The driver's own source-loading step goes
    /// through here and keeps its own list of loaded ids.
    pub(crate) fn insert_entry(&mut self, path: String, text: String) -> (id: SourceId)
        ensures
            id.index() == old(self).num_sources(),
            !old(self).contains_id(id),
            final(self).num_sources() == old(self).num_sources() + 1,
            final(self).contains_id(id),
            final(self).text_at(id.index() as int) == text@,
            final(self).path_at(id.index() as int) == path@,
            final(self).agrees_below(*old(self), old(self).num_sources() as int),
    {
        let id = SourceId(self.entries.len());
        self.entries.push((path, text));
        id
    }

    /// Records `(path, text)` in the cache under a freshly issued id, and
    /// records that id together with its tool-defined `kind` in the given
    /// session's "added" partition. Always succeeds; the new id differs from
    /// every id the cache has issued before.
    ///
    /// This is how a tool populates the cache, for example with generated
    /// code.
    pub fn add_source<SourceKind>(
        &mut self,
        session: &mut Session<SourceKind>,
        path: String,
        src: String,
        kind: SourceKind,
    ) -> (id: SourceId)
        requires
            old(session).wf_in(*old(self)),
        ensures
            final(session).wf_in(*final(self)),
            id.index() == old(self).num_sources(),
            !old(self).contains_id(id),
            final(self).num_sources() == old(self).num_sources() + 1,
            final(self).contains_id(id),
            final(self).text_at(id.index() as int) == src@,
            final(self).path_at(id.index() as int) == path@,
            final(self).agrees_below(*old(self), old(self).num_sources() as int),
            final(session).loaded() == old(session).loaded(),
            final(session).added() == old(session).added().push(id),
            final(session).kinds() == old(session).kinds().push((id, kind)),
    {
        let source_id = self.insert_entry(path, src);
        session.add_source_id(source_id, kind);
        source_id
    }
}

/// A session tracks changes to a [`SourceCache`].
///
/// While the source cache and the diagnostics sink are allowed to persist
/// across driver runs, a `Session` is ephemeral: the driver creates a fresh
/// one for every run and hands it back to the caller when the run is over.
///
/// It keeps two disjoint, ordered lists of ids: the ids the driver introduced
/// while resolving its configured sources, and the ids the tool introduced
/// through [`SourceCache::add_source`] during its own run. Each tool-added id
/// also carries a tool-defined kind in a side mapping; driver-loaded sources
/// are untagged.
pub struct Session<SourceKind> {
    pub(crate) source_ids_from_driver: Vec<SourceId>,
    pub(crate) source_ids_from_tool: Vec<SourceId>,
    pub(crate) source_kinds: Vec<(SourceId, SourceKind)>,
}

impl<SourceKind> Session<SourceKind> {
    /// The ids the driver introduced, in insertion order.
    pub closed spec fn loaded(self) -> Seq<SourceId> {
        self.source_ids_from_driver@
    }

    /// The ids the tool introduced, in insertion order.
    pub closed spec fn added(self) -> Seq<SourceId> {
        self.source_ids_from_tool@
    }

    /// The (id, kind) pairs recorded for tool-added ids, in insertion order.
    pub closed spec fn kinds(self) -> Seq<(SourceId, SourceKind)> {
        self.source_kinds@
    }

    /// Well-formedness of a session with respect to the cache it tracks:
    /// every recorded id is known to the cache, neither list repeats an id,
    /// the two lists are disjoint, and the kind mapping tags exactly the
    /// tool-added ids, in order.
    pub open spec fn wf_in(self, cache: SourceCache) -> bool {
        &&& forall|i: int| 0 <= i < self.loaded().len() ==> cache.contains_id(#[trigger] self.loaded()[i])
        &&& forall|i: int| 0 <= i < self.added().len() ==> cache.contains_id(#[trigger] self.added()[i])
        &&& forall|i: int, j: int|
            0 <= i < j < self.loaded().len() ==> self.loaded()[i] != self.loaded()[j]
        &&& forall|i: int, j: int|
            0 <= i < j < self.added().len() ==> self.added()[i] != self.added()[j]
        &&& forall|i: int, j: int|
            0 <= i < self.loaded().len() && 0 <= j < self.added().len() ==> self.loaded()[i]
                != self.added()[j]
        &&& self.kinds().len() == self.added().len()
        &&& forall|i: int| 0 <= i < self.added().len() ==> (#[trigger] self.kinds()[i]).0
            == self.added()[i]
    }

    /// A fresh per-run session: the driver's loaded ids are exactly
    /// `source_ids_from_driver`, and the tool has added nothing yet.
    pub(crate) fn new_run(source_ids_from_driver: Vec<SourceId>) -> (s: Self)
        ensures
            s.loaded() == source_ids_from_driver@,
            s.added() == Seq::<SourceId>::empty(),
            s.kinds() == Seq::<(SourceId, SourceKind)>::empty(),
    {
        Session {
            source_ids_from_driver,
            source_ids_from_tool: Vec::new(),
            source_kinds: Vec::new(),
        }
    }

    /// Any new source ids produced by the driver before running the tool, in
    /// insertion order.
    pub fn loaded_source_ids(&self) -> (ids: &[SourceId])
        ensures
            ids@ == self.loaded(),
    {
        self.source_ids_from_driver.as_slice()
    }

    /// Any new source ids produced by the tool through
    /// [`SourceCache::add_source`], in insertion order.
    pub fn added_source_ids(&self) -> (ids: &[SourceId])
        ensures
            ids@ == self.added(),
    {
        self.source_ids_from_tool.as_slice()
    }

    /// Appends `src_id` to the "added" list and records its kind. Called only
    /// from [`SourceCache::add_source`], never directly by a tool.
    pub(crate) fn add_source_id(&mut self, src_id: SourceId, kind: SourceKind)
        ensures
            final(self).loaded() == old(self).loaded(),
            final(self).added() == old(self).added().push(src_id),
            final(self).kinds() == old(self).kinds().push((src_id, kind)),
    {
        self.source_ids_from_tool.push(src_id);
        self.source_kinds.push((src_id, kind));
    }
}

/// Law: insertions return pairwise distinct ids. Whenever one insertion into
/// a cache returns `id1`, the cache afterwards only ever grows (as every
/// operation on it ensures), and a later insertion returns `id2`, the two
/// ids differ — even when both insertions record an identical (path, text)
/// pair. `c0` and `c2` are the cache as the two insertions found it.
pub proof fn lemma_inserted_ids_pairwise_distinct(
    c0: SourceCache,
    c2: SourceCache,
    id1: SourceId,
    id2: SourceId,
)
    requires
        id1.index() == c0.num_sources(),
        c0.num_sources() < c2.num_sources(),
        id2.index() == c2.num_sources(),
    ensures
        id1 != id2,
{
}

/// Law: the ids a session records are pairwise distinct; in particular its
/// driver-loaded and tool-added partitions are disjoint.
pub proof fn lemma_recorded_ids_pairwise_distinct<SourceKind>(
    session: Session<SourceKind>,
    cache: SourceCache,
)
    requires
        session.wf_in(cache),
    ensures
        forall|i: int, j: int|
            0 <= i < j < session.loaded().len() ==> session.loaded()[i] != session.loaded()[j],
        forall|i: int, j: int|
            0 <= i < j < session.added().len() ==> session.added()[i] != session.added()[j],
        forall|i: int, j: int|
            0 <= i < session.loaded().len() && 0 <= j < session.added().len()
                ==> session.loaded()[i] != session.added()[j],
{
}

/// Law: every id a session records, loaded or added, is present in the
/// cache the session tracks.
pub proof fn lemma_recorded_ids_in_cache<SourceKind>(
    session: Session<SourceKind>,
    cache: SourceCache,
)
    requires
        session.wf_in(cache),
    ensures
        forall|i: int|
            0 <= i < session.loaded().len() ==> cache.contains_id(#[trigger] session.loaded()[i]),
        forall|i: int|
            0 <= i < session.added().len() ==> cache.contains_id(#[trigger] session.added()[i]),
{
}

} // verus!

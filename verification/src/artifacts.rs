//! The cache of uploaded artifacts, keyed by the identifier the provider assigned.

use vstd::prelude::*;
use vstd::hash_map::StringHashMap;
use crate::types::views;

verus! {

/// What is known of a file that was uploaded to the upstream provider.
#[derive(Debug)]
pub struct Artifact {
    /// The identifier the provider assigned.
    pub id: String,
    /// The display name.
    pub name: String,
    /// The size in bytes.
    pub size: u64,
    /// The class the provider sorted the file into.
    pub file_class: String,
    /// What the provider needs to find the file again in a later request.
    pub reference: String,
}

/// The mathematical content of an [`Artifact`].
pub struct ArtifactView {
    pub id: Seq<char>,
    pub name: Seq<char>,
    pub size: u64,
    pub file_class: Seq<char>,
    pub reference: Seq<char>,
}

impl View for Artifact {
    type V = ArtifactView;

    open spec fn view(&self) -> ArtifactView {
        ArtifactView {
            id: self.id@,
            name: self.name@,
            size: self.size,
            file_class: self.file_class@,
            reference: self.reference@,
        }
    }
}

impl Clone for Artifact {
    fn clone(&self) -> (copy: Artifact)
        ensures
            copy@ == self@,
    {
        Artifact {
            id: self.id.clone(),
            name: self.name.clone(),
            size: self.size,
            file_class: self.file_class.clone(),
            reference: self.reference.clone(),
        }
    }
}

/// The cached artifacts that `ids` name, in the order of `ids`; an identifier that the
/// cache does not hold contributes nothing.
pub open spec fn resolve(cache: Map<Seq<char>, ArtifactView>, ids: Seq<Seq<char>>) -> Seq<
    ArtifactView,
>
    decreases ids.len(),
{
    if ids.len() == 0 {
        Seq::empty()
    } else if cache.contains_key(ids.last()) {
        resolve(cache, ids.drop_last()).push(cache[ids.last()])
    } else {
        resolve(cache, ids.drop_last())
    }
}

/// Resolving drops unknown identifiers and nothing else: the result is never longer
/// than the list of identifiers, it is as long exactly if the cache holds every one of
/// them, and each identifier that the cache holds has its artifact in the result.
pub proof fn lemma_resolve_drops_only_unknown(
    cache: Map<Seq<char>, ArtifactView>,
    ids: Seq<Seq<char>>,
)
    ensures
        resolve(cache, ids).len() <= ids.len(),
        resolve(cache, ids).len() == ids.len() <==> forall|i: int|
            0 <= i < ids.len() ==> cache.contains_key(#[trigger] ids[i]),
        forall|i: int|
            0 <= i < ids.len() && cache.contains_key(#[trigger] ids[i]) ==> resolve(
                cache,
                ids,
            ).contains(cache[ids[i]]),
    decreases ids.len(),
{
    if ids.len() > 0 {
        let rest = ids.drop_last();
        lemma_resolve_drops_only_unknown(cache, rest);
        let found = resolve(cache, ids);
        assert forall|i: int| 0 <= i < ids.len() && cache.contains_key(
            #[trigger] ids[i],
        ) implies found.contains(cache[ids[i]]) by {
            if i < rest.len() {
                assert(rest[i] == ids[i]);
                let at = choose|at: int|
                    0 <= at < resolve(cache, rest).len() && resolve(cache, rest)[at]
                        == cache[ids[i]];
                assert(found[at] == cache[ids[i]]);
            } else {
                assert(found[found.len() - 1] == cache[ids[i]]);
            }
        }
        if resolve(cache, ids).len() == ids.len() {
            assert forall|i: int| 0 <= i < ids.len() implies cache.contains_key(
                #[trigger] ids[i],
            ) by {
                if i < rest.len() {
                    assert(rest[i] == ids[i]);
                }
            }
        }
        if forall|i: int| 0 <= i < ids.len() ==> cache.contains_key(#[trigger] ids[i]) {
            assert forall|i: int| 0 <= i < rest.len() implies cache.contains_key(
                #[trigger] rest[i],
            ) by {
                assert(rest[i] == ids[i]);
            }
            assert(cache.contains_key(ids[ids.len() - 1]));
        }
    }
}

/// Uploaded artifacts by identifier. Nothing is ever evicted.
pub struct ArtifactCache {
    files: StringHashMap<Artifact>,
}

impl View for ArtifactCache {
    type V = Map<Seq<char>, ArtifactView>;

    closed spec fn view(&self) -> Map<Seq<char>, ArtifactView> {
        self.files@.map_values(|a: Artifact| a@)
    }
}

impl ArtifactCache {
    /// An empty cache.
    pub fn new() -> (cache: ArtifactCache)
        ensures
            cache@ == Map::<Seq<char>, ArtifactView>::empty(),
    {
        let cache = ArtifactCache { files: StringHashMap::new() };
        assert(cache@ =~= Map::<Seq<char>, ArtifactView>::empty());
        cache
    }

    /// Files `artifact` under its own identifier, in place of whatever was filed under
    /// it before, and returns that identifier.
    pub fn store(&mut self, artifact: Artifact) -> (id: String)
        ensures
            id@ == artifact.id@,
            final(self)@ == old(self)@.insert(artifact.id@, artifact@),
    {
        let id = artifact.id.clone();
        let key = artifact.id.clone();
        self.files.insert(key, artifact);
        assert(self@ =~= old(self)@.insert(artifact.id@, artifact@));
        id
    }

    /// The artifact filed under `id`, if there is one.
    pub fn get(&self, id: &str) -> (found: Option<Artifact>)
        ensures
            match found {
                Some(a) => self@.contains_key(id@) && a@ == self@[id@],
                None => !self@.contains_key(id@),
            },
    {
        match self.files.get(id) {
            Some(a) => Some(a.clone()),
            None => None,
        }
    }

    /// The artifacts filed under `ids`, in that order. An identifier without an artifact
    /// is passed over, so the result may be shorter than `ids`.
    pub fn get_many(&self, ids: &[String]) -> (found: Vec<Artifact>)
        ensures
            views(found@) == resolve(self@, views(ids@)),
    {
        let ghost names = views(ids@);
        let mut found: Vec<Artifact> = Vec::new();
        let mut i: usize = 0;
        assert(names.take(0) =~= Seq::empty());
        assert(views(found@) =~= Seq::empty());
        while i < ids.len()
            invariant
                i <= ids.len(),
                names == views(ids@),
                views(found@) == resolve(self@, names.take(i as int)),
            decreases ids.len() - i,
        {
            let ghost before = views(found@);
            assert(names.take(i + 1).drop_last() =~= names.take(i as int));
            assert(names.take(i + 1).last() == ids@[i as int]@);
            match self.files.get(ids[i].as_str()) {
                Some(a) => {
                    found.push(a.clone());
                    assert(views(found@) =~= before.push(self@[ids@[i as int]@]));
                },
                None => {},
            }
            i += 1;
        }
        assert(names.take(ids.len() as int) =~= names);
        found
    }
}

} // verus!

//! The asset database: metadata indexed by asset id and by source path.

use vstd::prelude::*;
use vstd::string::StringExecFns;

use super::types::{AssetError, AssetId, AssetMetadata};
use crate::paths::{path_components, std_path_components, texts};

verus! {

broadcast use vstd::map::group_map_axioms, vstd::set::group_set_axioms;

/// The key a source path is indexed by: its components, so that paths that
/// name the same components (`a//b.png`, `a/./b.png`, `a/b.png`) are one path,
/// as `std::path::Path` compares them.
pub open spec fn path_key(path: Seq<char>) -> Seq<Seq<char>> {
    std_path_components(path)
}

/// The asset maps after registering `metadata`: the id maps to the
/// metadata and the source path's key maps to the id.
pub open spec fn registered(
    assets: Map<AssetId, AssetMetadata>,
    paths: Map<Seq<Seq<char>>, AssetId>,
    metadata: AssetMetadata,
) -> (Map<AssetId, AssetMetadata>, Map<Seq<Seq<char>>, AssetId>) {
    (assets.insert(metadata.id, metadata), paths.insert(path_key(metadata.source_path@), metadata.id))
}

/// Every registered asset, once, with an index from source path to id.
///
/// Ids are unique and source paths are unique (as paths, component by
/// component): registering a second asset under a taken id or path is
/// refused.
pub struct AssetDatabase {
    entries: Vec<AssetMetadata>,
    keys: Vec<Vec<String>>,
    by_id: Ghost<Map<AssetId, AssetMetadata>>,
    by_path: Ghost<Map<Seq<Seq<char>>, AssetId>>,
}

/// Whether two component lists name the same components.
fn same_components(a: &Vec<String>, b: &Vec<String>) -> (same: bool)
    ensures
        same == (texts(a@) == texts(b@)),
{
    if a.len() != b.len() {
        proof {
            assert(texts(a@).len() != texts(b@).len());
        }
        return false;
    }
    let mut i: usize = 0;
    while i < a.len()
        invariant
            a@.len() == b@.len(),
            i <= a@.len(),
            forall|k: int| 0 <= k < i ==> a@[k]@ == b@[k]@,
        decreases a@.len() - i,
    {
        if a[i] != b[i] {
            proof {
                assert(texts(a@)[i as int] != texts(b@)[i as int]);
            }
            return false;
        }
        i = i + 1;
    }
    proof {
        assert(texts(a@) =~= texts(b@));
    }
    true
}

impl AssetDatabase {
    /// The registered assets, by id.
    pub closed spec fn assets(&self) -> Map<AssetId, AssetMetadata> {
        self.by_id@
    }

    /// The registered source paths, each with the id of its asset.
    pub closed spec fn paths(&self) -> Map<Seq<Seq<char>>, AssetId> {
        self.by_path@
    }

    /// The database's internal consistency: the stored entries are exactly the
    /// assets of the id map, no two share an id or a source path, and the path
    /// index maps each entry's path to its id and nothing else.
    pub closed spec fn wf(&self) -> bool {
        let entries = self.entries@;
        &&& self.keys@.len() == entries.len()
        &&& forall|i: int| 0 <= i < entries.len() ==> texts(#[trigger] self.keys@[i]@) == path_key(entries[i].source_path@)
        &&& self.by_id@.dom().finite()
        &&& self.by_path@.dom().finite()
        &&& self.by_id@.dom().len() == entries.len()
        &&& forall|i: int|
            0 <= i < entries.len() ==> {
                &&& #[trigger] self.by_id@.contains_key(entries[i].id)
                &&& self.by_id@[entries[i].id] == entries[i]
                &&& self.by_path@.contains_key(path_key(entries[i].source_path@))
                &&& self.by_path@[path_key(entries[i].source_path@)] == entries[i].id
            }
        &&& forall|id: AssetId|
            #[trigger] self.by_id@.contains_key(id) ==> exists|i: int|
                0 <= i < entries.len() && entries[i].id == id
        &&& forall|p: Seq<Seq<char>>|
            #[trigger] self.by_path@.contains_key(p) ==> exists|i: int|
                0 <= i < entries.len() && path_key(entries[i].source_path@) == p
        &&& forall|i: int, j: int|
            0 <= i < entries.len() && 0 <= j < entries.len() && i != j ==> {
                &&& #[trigger] entries[i].id != #[trigger] entries[j].id
                &&& path_key(entries[i].source_path@) != path_key(entries[j].source_path@)
            }
    }

    /// An empty database.
    pub fn new() -> (db: Self)
        ensures
            db.wf(),
            db.assets() == Map::<AssetId, AssetMetadata>::empty(),
            db.paths() == Map::<Seq<Seq<char>>, AssetId>::empty(),
    {
        AssetDatabase {
            entries: Vec::new(),
            keys: Vec::new(),
            by_id: Ghost(Map::empty()),
            by_path: Ghost(Map::empty()),
        }
    }

    fn position_of_id(&self, id: AssetId) -> (found: Option<usize>)
        requires
            self.wf(),
        ensures
            match found {
                Some(i) => i < self.entries@.len() && self.entries@[i as int].id == id,
                None => !self.assets().contains_key(id),
            },
    {
        let mut i: usize = 0;
        while i < self.entries.len()
            invariant
                self.wf(),
                i <= self.entries@.len(),
                forall|k: int| 0 <= k < i ==> self.entries@[k].id != id,
            decreases self.entries@.len() - i,
        {
            if self.entries[i].id.0 == id.0 {
                return Some(i);
            }
            i = i + 1;
        }
        None
    }

    fn position_of_key(&self, key: &Vec<String>) -> (found: Option<usize>)
        requires
            self.wf(),
        ensures
            match found {
                Some(i) => i < self.entries@.len() && path_key(self.entries@[i as int].source_path@)
                    == texts(key@),
                None => !self.paths().contains_key(texts(key@)),
            },
    {
        let mut i: usize = 0;
        while i < self.keys.len()
            invariant
                self.wf(),
                i <= self.entries@.len(),
                forall|k: int| 0 <= k < i ==> path_key(self.entries@[k].source_path@) != texts(key@),
            decreases self.entries@.len() - i,
        {
            if same_components(&self.keys[i], key) {
                return Some(i);
            }
            i = i + 1;
        }
        proof {
            if self.by_path@.contains_key(texts(key@)) {
                let k = choose|k: int|
                    0 <= k < self.entries@.len() && path_key(self.entries@[k].source_path@) == texts(key@);
                assert(path_key(self.entries@[k].source_path@) != texts(key@));
            }
        }
        None
    }

    /// Registers an asset. An id that is already registered is refused first,
    /// then a source path that is already registered; a refusal leaves the
    /// database as it was.
    pub fn register(&mut self, metadata: AssetMetadata) -> (result: Result<AssetId, AssetError>)
        requires
            old(self).wf(),
        ensures
            final(self).wf(),
            match result {
                Ok(id) => {
                    &&& id == metadata.id
                    &&& !old(self).assets().contains_key(metadata.id)
                    &&& !old(self).paths().contains_key(path_key(metadata.source_path@))
                    &&& (final(self).assets(), final(self).paths()) == registered(
                        old(self).assets(),
                        old(self).paths(),
                        metadata,
                    )
                    &&& final(self).assets().len() == old(self).assets().len() + 1
                },
                Err(AssetError::DuplicateId(id)) => {
                    &&& id == metadata.id
                    &&& old(self).assets().contains_key(metadata.id)
                    &&& final(self).assets() == old(self).assets()
                    &&& final(self).paths() == old(self).paths()
                },
                Err(AssetError::DuplicatePath(path)) => {
                    &&& path@ == metadata.source_path@
                    &&& !old(self).assets().contains_key(metadata.id)
                    &&& old(self).paths().contains_key(path_key(metadata.source_path@))
                    &&& final(self).assets() == old(self).assets()
                    &&& final(self).paths() == old(self).paths()
                },
                Err(_) => false,
            },
    {
        if self.position_of_id(metadata.id).is_some() {
            return Err(AssetError::DuplicateId(metadata.id));
        }
        let key = path_components(metadata.source_path.as_str());
        if let Some(i) = self.position_of_key(&key) {
            proof {
                assert(self.by_id@.contains_key(self.entries@[i as int].id));
            }
            return Err(AssetError::DuplicatePath(metadata.source_path));
        }
        let id = metadata.id;
        let ghost old_entries = self.entries@;
        let ghost new_by_id = self.by_id@.insert(metadata.id, metadata);
        let ghost old_keys = self.keys@;
        let ghost new_by_path = self.by_path@.insert(path_key(metadata.source_path@), metadata.id);
        proof {
            assert forall|i: int| 0 <= i < old_entries.len() implies old_entries[i].id != metadata.id
                && path_key(old_entries[i].source_path@) != path_key(metadata.source_path@) by {
                assert(self.by_id@.contains_key(old_entries[i].id));
                assert(self.by_path@.contains_key(path_key(old_entries[i].source_path@)));
            }
        }
        self.entries.push(metadata);
        self.keys.push(key);
        self.by_id = Ghost(new_by_id);
        self.by_path = Ghost(new_by_path);
        proof {
            let entries = self.entries@;
            assert(entries.len() == old_entries.len() + 1);
            assert forall|i: int| 0 <= i < entries.len() implies texts(#[trigger] self.keys@[i]@) == path_key(
                entries[i].source_path@,
            ) by {
                if i < old_entries.len() {
                    assert(entries[i] == old_entries[i]);
                    assert(self.keys@[i] == old_keys[i]);
                }
            }
            assert forall|i: int| 0 <= i < entries.len() implies {
                &&& #[trigger] self.by_id@.contains_key(entries[i].id)
                &&& self.by_id@[entries[i].id] == entries[i]
                &&& self.by_path@.contains_key(path_key(entries[i].source_path@))
                &&& self.by_path@[path_key(entries[i].source_path@)] == entries[i].id
            } by {
                if i < old_entries.len() {
                    assert(entries[i] == old_entries[i]);
                }
            }
            assert forall|aid: AssetId| #[trigger] self.by_id@.contains_key(aid) implies exists|i: int|
                0 <= i < entries.len() && entries[i].id == aid by {
                if aid == entries[entries.len() - 1].id {
                    assert(entries[entries.len() - 1].id == aid);
                } else {
                    let k = choose|k: int| 0 <= k < old_entries.len() && old_entries[k].id == aid;
                    assert(entries[k] == old_entries[k]);
                }
            }
            assert forall|p: Seq<Seq<char>>| #[trigger] self.by_path@.contains_key(p) implies exists|i: int|
                0 <= i < entries.len() && path_key(entries[i].source_path@) == p by {
                if p == path_key(entries[entries.len() - 1].source_path@) {
                    assert(path_key(entries[entries.len() - 1].source_path@) == p);
                } else {
                    let k = choose|k: int|
                        0 <= k < old_entries.len() && path_key(old_entries[k].source_path@) == p;
                    assert(entries[k] == old_entries[k]);
                }
            }
            assert forall|i: int, j: int|
                0 <= i < entries.len() && 0 <= j < entries.len() && i != j implies {
                &&& #[trigger] entries[i].id != #[trigger] entries[j].id
                &&& path_key(entries[i].source_path@) != path_key(entries[j].source_path@)
            } by {
                if i < old_entries.len() {
                    assert(entries[i] == old_entries[i]);
                }
                if j < old_entries.len() {
                    assert(entries[j] == old_entries[j]);
                }
            }
        }
        Ok(id)
    }

    /// The metadata registered under an id.
    pub fn get(&self, id: AssetId) -> (found: Option<&AssetMetadata>)
        requires
            self.wf(),
        ensures
            match found {
                Some(m) => self.assets().contains_key(id) && *m == self.assets()[id],
                None => !self.assets().contains_key(id),
            },
    {
        match self.position_of_id(id) {
            Some(i) => {
                proof {
                    assert(self.by_id@.contains_key(self.entries@[i as int].id));
                }
                Some(&self.entries[i])
            },
            None => None,
        }
    }

    /// The metadata registered under a source path.
    pub fn find_by_path(&self, path: &str) -> (found: Option<&AssetMetadata>)
        requires
            self.wf(),
        ensures
            match found {
                Some(m) => {
                    &&& self.paths().contains_key(path_key(path@))
                    &&& self.assets().contains_key(self.paths()[path_key(path@)])
                    &&& *m == self.assets()[self.paths()[path_key(path@)]]
                },
                None => !self.paths().contains_key(path_key(path@)),
            },
    {
        let key = path_components(path);
        match self.position_of_key(&key) {
            Some(i) => {
                proof {
                    assert(self.by_id@.contains_key(self.entries@[i as int].id));
                }
                Some(&self.entries[i])
            },
            None => None,
        }
    }

    /// A consistent database holds finitely many assets and paths.
    pub proof fn lemma_finite(&self)
        requires
            self.wf(),
        ensures
            self.assets().dom().finite(),
            self.paths().dom().finite(),
    {
    }

    /// The number of registered assets.
    pub fn len(&self) -> (n: usize)
        requires
            self.wf(),
        ensures
            n == self.assets().len(),
    {
        self.entries.len()
    }

    pub fn is_empty(&self) -> (empty: bool)
        requires
            self.wf(),
        ensures
            empty == (self.assets().len() == 0),
    {
        self.entries.len() == 0
    }
}

impl Default for AssetDatabase {
    fn default() -> (db: Self)
        ensures
            db.wf(),
            db.assets() == Map::<AssetId, AssetMetadata>::empty(),
            db.paths() == Map::<Seq<Seq<char>>, AssetId>::empty(),
    {
        AssetDatabase::new()
    }
}

/// What a registration writes is what a lookup reads back: after
/// registering fresh metadata, its id finds it, its path finds its id, the
/// other entries are untouched, and the asset count grows by one.
pub proof fn law_registration_is_read_back(
    assets: Map<AssetId, AssetMetadata>,
    paths: Map<Seq<Seq<char>>, AssetId>,
    metadata: AssetMetadata,
    other: AssetId,
    other_path: Seq<Seq<char>>,
)
    requires
        assets.dom().finite(),
        !assets.contains_key(metadata.id),
        other != metadata.id,
        other_path != path_key(metadata.source_path@),
    ensures
        ({
            let (a, p) = registered(assets, paths, metadata);
            &&& a.contains_key(metadata.id) && a[metadata.id] == metadata
            &&& p.contains_key(path_key(metadata.source_path@)) && p[path_key(metadata.source_path@)]
                == metadata.id
            &&& a.contains_key(other) == assets.contains_key(other)
            &&& assets.contains_key(other) ==> a[other] == assets[other]
            &&& p.contains_key(other_path) == paths.contains_key(other_path)
            &&& paths.contains_key(other_path) ==> p[other_path] == paths[other_path]
            &&& a.len() == assets.len() + 1
        }),
{
}

/// In a consistent database every indexed path leads to an asset whose
/// source path it is (component by component), and every asset's path
/// leads back to it.
pub proof fn law_path_index_agrees_with_assets(db: &AssetDatabase, p: Seq<Seq<char>>, id: AssetId)
    requires
        db.wf(),
    ensures
        db.paths().contains_key(p) ==> db.assets().contains_key(db.paths()[p])
            && path_key(db.assets()[db.paths()[p]].source_path@) == p,
        db.assets().contains_key(id) ==> db.paths().contains_key(path_key(db.assets()[id].source_path@))
            && db.paths()[path_key(db.assets()[id].source_path@)] == id,
{
    if db.paths().contains_key(p) {
        let i = choose|i: int| 0 <= i < db.entries@.len() && path_key(db.entries@[i].source_path@) == p;
        assert(db.by_id@.contains_key(db.entries@[i].id));
    }
    if db.assets().contains_key(id) {
        let i = choose|i: int| 0 <= i < db.entries@.len() && db.entries@[i].id == id;
        assert(db.by_id@.contains_key(db.entries@[i].id));
    }
}

} // verus!

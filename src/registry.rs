use std::collections::HashMap;
use vstd::prelude::*;

verus! {

broadcast use vstd::std_specs::hash::group_hash_axioms;

/// Strong ownership of texture handles, keyed by the identifier that the
/// engine minted for each texture.
pub struct TextureRegistry<H> {
    textures: HashMap<i64, H>,
}

impl<H> View for TextureRegistry<H> {
    type V = Map<i64, H>;

    closed spec fn view(&self) -> Map<i64, H> {
        self.textures@
    }
}

/// The registry's contents after registering each `(identifier, handle)`
/// pair of `entries` in turn, starting from `m`.
pub open spec fn registered_after<H>(m: Map<i64, H>, entries: Seq<(i64, H)>) -> Map<i64, H>
    decreases entries.len(),
{
    if entries.len() == 0 {
        m
    } else {
        let last = entries.last();
        registered_after(m, entries.drop_last()).insert(last.0, last.1)
    }
}

/// No identifier occurs twice in `entries`.
pub open spec fn distinct_ids<H>(entries: Seq<(i64, H)>) -> bool {
    forall|i: int, j: int|
        0 <= i < entries.len() && 0 <= j < entries.len() && i != j
            ==> entries[i].0 != entries[j].0
}

/// The identifiers of `entries`.
pub open spec fn ids_of<H>(entries: Seq<(i64, H)>) -> Set<i64> {
    Set::new(|id: i64| exists|i: int| 0 <= i < entries.len() && entries[i].0 == id)
}

/// After N texture creations whose engine-minted identifiers are distinct,
/// a registry that started empty holds exactly those N identifiers, each
/// resolving to the handle registered with it.
pub proof fn lemma_creations_all_registered<H>(entries: Seq<(i64, H)>)
    requires
        distinct_ids(entries),
    ensures
        registered_after(Map::<i64, H>::empty(), entries).dom() == ids_of(entries),
        registered_after(Map::<i64, H>::empty(), entries).dom().finite(),
        registered_after(Map::<i64, H>::empty(), entries).len() == entries.len(),
        forall|i: int|
            0 <= i < entries.len() ==> #[trigger] registered_after(
                Map::<i64, H>::empty(),
                entries,
            )[entries[i].0] == entries[i].1,
    decreases entries.len(),
{
    let m = registered_after(Map::<i64, H>::empty(), entries);
    if entries.len() == 0 {
        assert(ids_of(entries) =~= Set::<i64>::empty());
        assert(m.dom() =~= Set::<i64>::empty());
    } else {
        let prefix = entries.drop_last();
        let last = entries.last();
        let n = entries.len() - 1;
        assert(distinct_ids(prefix)) by {
            assert forall|i: int, j: int|
                0 <= i < prefix.len() && 0 <= j < prefix.len() && i != j
                    implies prefix[i].0 != prefix[j].0 by {
                assert(prefix[i] == entries[i] && prefix[j] == entries[j]);
            }
        }
        lemma_creations_all_registered(prefix);
        let before = registered_after(Map::<i64, H>::empty(), prefix);
        assert(!before.dom().contains(last.0)) by {
            if before.dom().contains(last.0) {
                assert(ids_of(prefix).contains(last.0));
                let i = choose|i: int| 0 <= i < prefix.len() && prefix[i].0 == last.0;
                assert(entries[i].0 == entries[n].0);
            }
        }
        assert(ids_of(entries) =~= ids_of(prefix).insert(last.0)) by {
            assert forall|id: i64| ids_of(entries).contains(id) implies ids_of(prefix).insert(
                last.0,
            ).contains(id) by {
                let i = choose|i: int| 0 <= i < entries.len() && entries[i].0 == id;
                if i < n {
                    assert(prefix[i] == entries[i]);
                }
            }
            assert forall|id: i64| ids_of(prefix).insert(last.0).contains(id) implies ids_of(
                entries,
            ).contains(id) by {
                if id != last.0 {
                    let i = choose|i: int| 0 <= i < prefix.len() && prefix[i].0 == id;
                    assert(entries[i] == prefix[i]);
                }
            }
        }
        assert(m.dom() =~= before.dom().insert(last.0));
        assert forall|i: int| 0 <= i < entries.len() implies #[trigger] m[entries[i].0]
            == entries[i].1 by {
            if i < n {
                assert(prefix[i] == entries[i]);
                assert(entries[i].0 != entries[n].0);
            }
        }
    }
}

impl<H> TextureRegistry<H> {
    /// An empty registry.
    pub fn new() -> (r: Self)
        ensures
            r@ == Map::<i64, H>::empty(),
    {
        TextureRegistry { textures: HashMap::new() }
    }

    /// Registers `handle` under `id`, replacing and handing back any handle
    /// that was registered under `id` before.
    pub fn insert(&mut self, id: i64, handle: H) -> (r: Option<H>)
        ensures
            final(self)@ == old(self)@.insert(id, handle),
            old(self)@.contains_key(id) ==> r == Some(old(self)@[id]),
            !old(self)@.contains_key(id) ==> r is None,
    {
        self.textures.insert(id, handle)
    }

    /// The handle registered under `id`, if any.
    pub fn get(&self, id: i64) -> (r: Option<&H>)
        ensures
            self@.contains_key(id) ==> r == Some(&self@[id]),
            !self@.contains_key(id) ==> r is None,
    {
        self.textures.get(&id)
    }

    /// Whether a handle is registered under `id`.
    pub fn contains(&self, id: i64) -> (r: bool)
        ensures
            r == self@.contains_key(id),
    {
        self.textures.contains_key(&id)
    }

    /// Takes the handle registered under `id` out of the registry.
    pub fn remove(&mut self, id: i64) -> (r: Option<H>)
        ensures
            final(self)@ == old(self)@.remove(id),
            old(self)@.contains_key(id) ==> r == Some(old(self)@[id]),
            !old(self)@.contains_key(id) ==> r is None,
    {
        self.textures.remove(&id)
    }

    /// How many textures are registered.
    pub fn len(&self) -> (r: usize)
        ensures
            r as nat == self@.len(),
    {
        self.textures.len()
    }
}

} // verus!

use std::collections::HashMap;
use vstd::prelude::*;

verus! {

broadcast use vstd::std_specs::hash::group_hash_axioms;

/// A cache of derived GPU resources, keyed by scene node: the component that
/// owns the node and the node's index within that component.
///
/// A value of `None` records a node that is known but has nothing to render;
/// it is an entry, not a miss. The cache also remembers the scale factor that
/// its entries were made for (as the bit pattern of the factor), so that a
/// change of scale factor can evict them all.
pub struct ItemCache<T> {
    map: HashMap<u64, HashMap<u32, Option<T>>>,
    scale_factor: Option<u32>,
}

/// The entries of `m` whose component is not `component`.
pub open spec fn entries_without_component<T>(
    m: Map<(u64, u32), Option<T>>,
    component: u64,
) -> Map<(u64, u32), Option<T>> {
    Map::new(|k: (u64, u32)| m.contains_key(k) && k.0 != component, |k: (u64, u32)| m[k])
}

impl<T> ItemCache<T> {
    /// The cached entries, by (component, item index).
    pub closed spec fn entries(&self) -> Map<(u64, u32), Option<T>> {
        Map::new(
            |k: (u64, u32)| self.map@.contains_key(k.0) && self.map@[k.0]@.contains_key(k.1),
            |k: (u64, u32)| self.map@[k.0]@[k.1],
        )
    }

    /// The scale factor that the entries were made for; `None` before the
    /// first scale check.
    pub closed spec fn recorded_scale_factor(&self) -> Option<u32> {
        self.scale_factor
    }

    /// What the entries are after a scale check against `scale_factor`.
    pub open spec fn entries_after_scale_check(&self, scale_factor: u32) -> Map<
        (u64, u32),
        Option<T>,
    > {
        if self.recorded_scale_factor() == Some(scale_factor) {
            self.entries()
        } else {
            Map::empty()
        }
    }

    pub fn new() -> (r: Self)
        ensures
            r.entries() == Map::<(u64, u32), Option<T>>::empty(),
            r.recorded_scale_factor() is None,
    {
        let r = ItemCache { map: HashMap::new(), scale_factor: None };
        assert(r.entries() =~= Map::<(u64, u32), Option<T>>::empty());
        r
    }

    /// Looks up the entry of one scene node.
    pub fn get(&self, component: u64, item: u32) -> (r: Option<&Option<T>>)
        ensures
            match r {
                Some(v) => self.entries().contains_key((component, item)) && *v == self.entries()[(
                    component,
                    item,
                )],
                None => !self.entries().contains_key((component, item)),
            },
    {
        match self.map.get(&component) {
            Some(items) => items.get(&item),
            None => None,
        }
    }

    /// Stores the entry of one scene node, replacing any earlier one.
    pub fn insert(&mut self, component: u64, item: u32, value: Option<T>)
        ensures
            final(self).entries() == old(self).entries().insert((component, item), value),
            final(self).recorded_scale_factor() == old(self).recorded_scale_factor(),
    {
        let mut items = match self.map.remove(&component) {
            Some(items) => items,
            None => HashMap::new(),
        };
        items.insert(item, value);
        self.map.insert(component, items);
        assert(self.entries() =~= old(self).entries().insert((component, item), value));
    }

    /// Evicts every entry.
    pub fn clear_all(&mut self)
        ensures
            final(self).entries() == Map::<(u64, u32), Option<T>>::empty(),
            final(self).recorded_scale_factor() == old(self).recorded_scale_factor(),
    {
        self.map.clear();
        assert(self.entries() =~= Map::<(u64, u32), Option<T>>::empty());
    }

    /// Evicts every entry unless they were made for `scale_factor`, and
    /// records `scale_factor` as the one the cache now serves.
    pub fn clear_cache_if_scale_factor_changed(&mut self, scale_factor: u32)
        ensures
            final(self).entries() == old(self).entries_after_scale_check(scale_factor),
            final(self).recorded_scale_factor() == Some(scale_factor),
    {
        let unchanged = match self.scale_factor {
            Some(recorded) => recorded == scale_factor,
            None => false,
        };
        if !unchanged {
            self.clear_all();
        }
        self.scale_factor = Some(scale_factor);
    }

    /// Evicts the entries of a component that has been torn down; the
    /// entries of every other component stay.
    pub fn component_destroyed(&mut self, component: u64)
        ensures
            final(self).entries() == entries_without_component(old(self).entries(), component),
            final(self).recorded_scale_factor() == old(self).recorded_scale_factor(),
    {
        self.map.remove(&component);
        assert(self.entries() =~= entries_without_component(old(self).entries(), component));
    }
}

/// Once a cache has served frames at one scale factor, a scale check at any
/// other factor leaves it empty: no entry made for the old factor survives.
pub proof fn lemma_scale_change_evicts_all<T>(cache: ItemCache<T>, previous: u32, current: u32)
    requires
        cache.recorded_scale_factor() == Some(previous),
        previous != current,
    ensures
        cache.entries_after_scale_check(current).is_empty(),
{
}

/// Destroying a component evicts exactly its own entries: every entry of
/// another component stays with its value, and none of its own is left.
pub proof fn lemma_component_destroyed_spares_siblings<T>(
    entries: Map<(u64, u32), Option<T>>,
    component: u64,
)
    ensures
        forall|k: (u64, u32)|
            k.0 != component && #[trigger] entries.contains_key(k) ==> entries_without_component(
                entries,
                component,
            ).contains_key(k) && entries_without_component(entries, component)[k] == entries[k],
        forall|k: (u64, u32)|
            k.0 == component ==> !#[trigger] entries_without_component(
                entries,
                component,
            ).contains_key(k),
{
}

} // verus!

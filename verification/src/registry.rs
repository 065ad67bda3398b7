//! Which entity owns, holds and carries which item, and the queries over factions and
//! entity types that the game's systems make.
use crate::enums_types::{str_eq, ActiveItem};
use crate::sparse_set::{lemma_swap_removed_all_concat, swap_removed, swap_removed_all, with_key, SparseSet};
use vstd::prelude::*;

verus! {

/// The items held in the hands, right hand first.
pub open spec fn held_items(a: ActiveItem) -> Seq<usize> {
    let r = match a.right_hand {
        Some(x) => seq![x],
        None => Seq::empty(),
    };
    match a.left_hand {
        Some(x) => r.push(x),
        None => r,
    }
}


/// The items held in the hands, right hand first.
pub fn held(a: &ActiveItem) -> (v: Vec<usize>)
    ensures
        v@ == held_items(*a),
{
    let mut v = Vec::new();
    if let Some(x) = a.right_hand {
        v.push(x);
    }
    if let Some(x) = a.left_hand {
        v.push(x);
    }
    assert(v@ =~= held_items(*a));
    v
}

fn vec_contains(v: &Vec<usize>, x: usize) -> (b: bool)
    ensures
        b == v@.contains(x),
{
    let mut i: usize = 0;
    while i < v.len()
        invariant
            i <= v@.len(),
            forall|j: int| 0 <= j < i ==> v@[j] != x,
        decreases v@.len() - i,
    {
        if v[i] == x {
            return true;
        }
        i = i + 1;
    }
    false
}

fn without(v: &Vec<usize>, x: usize) -> (r: Vec<usize>)
    ensures
        r@ == v@.filter(|y: usize| y != x),
{
    let ghost pred = |y: usize| y != x;
    let mut r: Vec<usize> = Vec::new();
    let mut i: usize = 0;
    while i < v.len()
        invariant
            i <= v@.len(),
            pred == (|y: usize| y != x),
            r@ == v@.take(i as int).filter(pred),
        decreases v@.len() - i,
    {
        proof {
            reveal_with_fuel(Seq::filter, 1);
            assert(v@.take(i + 1).drop_last() =~= v@.take(i as int));
        }
        if v[i] != x {
            r.push(v[i]);
        }
        i = i + 1;
    }
    assert(v@.take(v@.len() as int) =~= v@);
    r
}

fn without_all(v: &Vec<usize>, gone: &Vec<usize>) -> (r: Vec<usize>)
    ensures
        r@ == v@.filter(|y: usize| !gone@.contains(y)),
{
    let ghost pred = |y: usize| !gone@.contains(y);
    let mut r: Vec<usize> = Vec::new();
    let mut i: usize = 0;
    while i < v.len()
        invariant
            i <= v@.len(),
            pred == (|y: usize| !gone@.contains(y)),
            r@ == v@.take(i as int).filter(pred),
        decreases v@.len() - i,
    {
        proof {
            reveal_with_fuel(Seq::filter, 1);
            assert(v@.take(i + 1).drop_last() =~= v@.take(i as int));
        }
        if !vec_contains(gone, v[i]) {
            r.push(v[i]);
        }
        i = i + 1;
    }
    assert(v@.take(v@.len() as int) =~= v@);
    r
}

/// The inventory after stowing item `w`: unchanged if it already holds `w`, else
/// with `w` added at the end.
pub open spec fn stowed(inv: Seq<usize>, w: usize) -> Seq<usize> {
    if inv.contains(w) {
        inv
    } else {
        inv.push(w)
    }
}

proof fn lemma_concat_to_set(a: Seq<usize>, b: Seq<usize>)
    ensures
        (a + b).to_set() == a.to_set().union(b.to_set()),
{
    assert forall|x: usize| (a + b).contains(x) <==> (a.contains(x) || b.contains(x)) by {
        if a.contains(x) {
            let j = choose|j: int| 0 <= j < a.len() && a[j] == x;
            assert((a + b)[j] == x);
        }
        if b.contains(x) {
            let j = choose|j: int| 0 <= j < b.len() && b[j] == x;
            assert((a + b)[a.len() + j] == x);
        }
        if (a + b).contains(x) {
            let j = choose|j: int| 0 <= j < (a + b).len() && (a + b)[j] == x;
            if j < a.len() {
                assert(a[j] == x);
            } else {
                assert(b[j - a.len()] == x);
            }
        }
    }
    assert((a + b).to_set() =~= a.to_set().union(b.to_set()));
}

/// The ownership and classification components of the entities, all keyed by
/// entity id and all of one capacity.
pub struct EntityRegistry {
    /// the faction of each entity ("Player", "Enemy", "Item", ...)
    pub factions: SparseSet<String>,
    /// the entity type of each entity
    pub entity_types: SparseSet<String>,
    /// the items each entity carries but does not hold
    pub inventories: SparseSet<Vec<usize>>,
    /// the items each entity holds
    pub active_items: SparseSet<ActiveItem>,
    /// for each owned item, the entity that owns it
    pub owners: SparseSet<usize>,
    /// the items that are held in a hand
    pub is_equipped: SparseSet<bool>,
}

impl EntityRegistry {
    /// The number of entity ids the registry can hold.
    pub open spec fn cap(&self) -> nat {
        self.factions.spec_capacity()
    }

    /// Every component is well formed, all have the registry's capacity, and every
    /// item that is carried or held is an entity id below that capacity.
    pub open spec fn wf(&self) -> bool {
        &&& self.factions.wf()
        &&& self.entity_types.wf()
        &&& self.inventories.wf()
        &&& self.active_items.wf()
        &&& self.owners.wf()
        &&& self.is_equipped.wf()
        &&& self.entity_types.spec_capacity() == self.cap()
        &&& self.inventories.spec_capacity() == self.cap()
        &&& self.active_items.spec_capacity() == self.cap()
        &&& self.owners.spec_capacity() == self.cap()
        &&& self.is_equipped.spec_capacity() == self.cap()
        &&& forall|id: usize, j: int|
            #![trigger self.inventories@[id]@[j]]
            self.inventories@.contains_key(id) && 0 <= j < self.inventories@[id]@.len()
                ==> self.inventories@[id]@[j] < self.cap()
        &&& forall|id: usize, j: int|
            #![trigger held_items(self.active_items@[id])[j]]
            self.active_items@.contains_key(id) && 0 <= j < held_items(self.active_items@[id]).len()
                ==> held_items(self.active_items@[id])[j] < self.cap()
    }

    /// An empty registry for entity ids below `max_entities`.
    pub fn new(max_entities: usize) -> (r: Self)
        ensures
            r.wf(),
            r.cap() == max_entities,
            r.factions@ == Map::<usize, String>::empty(),
            r.entity_types@ == Map::<usize, String>::empty(),
            r.inventories@ == Map::<usize, Vec<usize>>::empty(),
            r.active_items@ == Map::<usize, ActiveItem>::empty(),
            r.owners@ == Map::<usize, usize>::empty(),
            r.is_equipped@ == Map::<usize, bool>::empty(),
    {
        EntityRegistry {
            factions: SparseSet::with_capacity(max_entities),
            entity_types: SparseSet::with_capacity(max_entities),
            inventories: SparseSet::with_capacity(max_entities),
            active_items: SparseSet::with_capacity(max_entities),
            owners: SparseSet::with_capacity(max_entities),
            is_equipped: SparseSet::with_capacity(max_entities),
        }
    }

    /// The ids whose faction is `faction`, in storage order.
    pub open spec fn ids_in_faction(&self, faction: Seq<char>) -> Seq<usize> {
        self.factions.keys().filter(|k: usize| self.factions@[k]@ == faction)
    }

    /// The ids whose entity type is `entity_type`, in storage order.
    pub open spec fn ids_of_type(&self, entity_type: Seq<char>) -> Seq<usize> {
        self.entity_types.keys().filter(|k: usize| self.entity_types@[k]@ == entity_type)
    }

    /// The items that lie in the world: of faction "Item" and owned by nobody.
    pub open spec fn is_orphaned_item(&self, k: usize) -> bool {
        self.factions@[k]@ == "Item"@ && !self.owners@.contains_key(k)
    }

    /// The items that are owned but not held.
    pub open spec fn is_stowed_item(&self, k: usize) -> bool {
        self.factions@[k]@ == "Item"@ && self.owners@.contains_key(k) && !self.is_equipped@.contains_key(k)
    }

    /// The ids of all entities of the given faction, in storage order.
    pub fn get_ids_for_faction(&self, faction: &str) -> (r: Vec<usize>)
        requires
            self.wf(),
        ensures
            r@ == self.ids_in_faction(faction@),
    {
        let ghost pred = |k: usize| self.factions@[k]@ == faction@;
        let mut r: Vec<usize> = Vec::new();
        let n = self.factions.dense.len();
        let mut i: usize = 0;
        while i < n
            invariant
                self.wf(),
                n == self.factions.dense@.len(),
                i <= n,
                pred == (|k: usize| self.factions@[k]@ == faction@),
                r@ == self.factions.keys().take(i as int).filter(pred),
            decreases n - i,
        {
            let e = &self.factions.dense[i];
            let k = e.key();
            proof {
                self.factions.lemma_entries_match_view();
                reveal_with_fuel(Seq::filter, 1);
                assert(self.factions.keys()[i as int] == k);
                assert(self.factions@[k] == self.factions.dense@[i as int].value_of());
                assert(self.factions.keys().take(i + 1).last() == k);
                assert(self.factions.keys().take(i + 1).drop_last() =~= self.factions.keys().take(i as int));
                assert(self.factions.keys().take(i + 1).filter(pred) == if pred(k) {
                    self.factions.keys().take(i as int).filter(pred).push(k)
                } else {
                    self.factions.keys().take(i as int).filter(pred)
                });
            }
            let matches = str_eq(e.value().as_str(), faction);
            if matches {
                r.push(k);
            }
            i = i + 1;
        }
        assert(self.factions.keys().take(n as int) =~= self.factions.keys());
        r
    }

    /// The ids of all entities of the given entity type, in storage order.
    pub fn get_ids_for_type(&self, entity_type: &str) -> (r: Vec<usize>)
        requires
            self.wf(),
        ensures
            r@ == self.ids_of_type(entity_type@),
    {
        let ghost pred = |k: usize| self.entity_types@[k]@ == entity_type@;
        let mut r: Vec<usize> = Vec::new();
        let n = self.entity_types.dense.len();
        let mut i: usize = 0;
        while i < n
            invariant
                self.wf(),
                n == self.entity_types.dense@.len(),
                i <= n,
                pred == (|k: usize| self.entity_types@[k]@ == entity_type@),
                r@ == self.entity_types.keys().take(i as int).filter(pred),
            decreases n - i,
        {
            let e = &self.entity_types.dense[i];
            let k = e.key();
            proof {
                self.entity_types.lemma_entries_match_view();
                reveal_with_fuel(Seq::filter, 1);
                assert(self.entity_types.keys()[i as int] == k);
                assert(self.entity_types@[k] == self.entity_types.dense@[i as int].value_of());
                assert(self.entity_types.keys().take(i + 1).last() == k);
                assert(self.entity_types.keys().take(i + 1).drop_last() =~= self.entity_types.keys().take(
                    i as int,
                ));
                assert(self.entity_types.keys().take(i + 1).filter(pred) == if pred(k) {
                    self.entity_types.keys().take(i as int).filter(pred).push(k)
                } else {
                    self.entity_types.keys().take(i as int).filter(pred)
                });
            }
            if str_eq(e.value().as_str(), entity_type) {
                r.push(k);
            }
            i = i + 1;
        }
        assert(self.entity_types.keys().take(n as int) =~= self.entity_types.keys());
        r
    }
    /// The ids among the first `i` in storage order whose entity type is `entity_type`.
    pub open spec fn ids_of_type_before(&self, entity_type: Seq<char>, i: int) -> Seq<usize> {
        self.entity_types.keys().take(i).filter(|k: usize| self.entity_types@[k]@ == entity_type)
    }

    proof fn lemma_ids_of_type_step(&self, t: Seq<char>, i: int)
        requires
            0 <= i < self.entity_types.keys().len(),
        ensures
            self.ids_of_type_before(t, i + 1) == if self.entity_types@[self.entity_types.keys()[i]]@ == t {
                self.ids_of_type_before(t, i).push(self.entity_types.keys()[i])
            } else {
                self.ids_of_type_before(t, i)
            },
    {
        let keys = self.entity_types.keys();
        reveal_with_fuel(Seq::filter, 1);
        assert(keys.take(i + 1).last() == keys[i]);
        assert(keys.take(i + 1).drop_last() =~= keys.take(i));
    }

    proof fn lemma_no_ids_of_type_before(&self, t: Seq<char>, i: int)
        requires
            0 <= i <= self.entity_types.keys().len(),
            forall|j: int| 0 <= j < i ==> self.entity_types@[#[trigger] self.entity_types.keys()[j]]@ != t,
        ensures
            self.ids_of_type_before(t, i) == Seq::<usize>::empty(),
        decreases i,
    {
        if i > 0 {
            self.lemma_no_ids_of_type_before(t, i - 1);
            self.lemma_ids_of_type_step(t, i - 1);
        } else {
            assert(self.entity_types.keys().take(0) =~= Seq::<usize>::empty());
            reveal_with_fuel(Seq::filter, 1);
        }
    }

    /// The ids of each entity type, the types in the order of their first entity in
    /// storage order.
    pub fn get_ids_by_type(&self) -> (r: Vec<(String, Vec<usize>)>)
        requires
            self.wf(),
        ensures
            forall|g: int| 0 <= g < r@.len() ==> (#[trigger] r@[g]).1@ == self.ids_of_type(r@[g].0@),
            forall|g: int, h: int| 0 <= g < h < r@.len() ==> (#[trigger] r@[g]).0@ != (#[trigger] r@[h]).0@,
            forall|k: usize|
                #[trigger] self.entity_types@.contains_key(k) ==> exists|g: int|
                    0 <= g < r@.len() && (#[trigger] r@[g]).0@ == self.entity_types@[k]@,
    {
        let ghost keys = self.entity_types.keys();
        let n = self.entity_types.dense.len();
        let mut names: Vec<String> = Vec::new();
        let mut lists: Vec<Vec<usize>> = Vec::new();
        let mut i: usize = 0;
        proof {
            self.entity_types.lemma_entries_match_view();
        }
        while i < n
            invariant
                self.wf(),
                n == self.entity_types.dense@.len(),
                keys == self.entity_types.keys(),
                i <= n,
                names@.len() == lists@.len(),
                forall|g: int| 0 <= g < lists@.len() ==> (#[trigger] lists@[g])@ == self.ids_of_type_before(
                    names@[g]@,
                    i as int,
                ),
                forall|g: int, h: int| 0 <= g < h < names@.len() ==> (#[trigger] names@[g])@ != (
                #[trigger] names@[h])@,
                forall|j: int| 0 <= j < i ==> exists|g: int|
                    0 <= g < names@.len() && (#[trigger] names@[g])@ == self.entity_types@[#[trigger] keys[j]]@,
            decreases n - i,
        {
            let e = &self.entity_types.dense[i];
            let k = e.key();
            let t = e.value();
            proof {
                self.entity_types.lemma_entries_match_view();
                assert(keys[i as int] == k);
                assert(self.entity_types@[k] == *t);
            }
            let mut g: usize = 0;
            let mut found = false;
            while g < names.len() && !found
                invariant
                    g <= names@.len(),
                    forall|h: int| 0 <= h < g ==> (#[trigger] names@[h])@ != t@,
                    found ==> g < names@.len() && names@[g as int]@ == t@,
                decreases names@.len() - g + (if found { 0int } else { 1int }),
            {
                if str_eq(names[g].as_str(), t.as_str()) {
                    found = true;
                } else {
                    g = g + 1;
                }
            }
            let ghost old_names = names@;
            let ghost old_lists = lists@;
            proof {
                assert forall|g2: int| 0 <= g2 < old_names.len() implies #[trigger] self.ids_of_type_before(
                    old_names[g2]@,
                    i + 1,
                ) == if old_names[g2]@ == t@ {
                    self.ids_of_type_before(old_names[g2]@, i as int).push(k)
                } else {
                    self.ids_of_type_before(old_names[g2]@, i as int)
                } by {
                    self.lemma_ids_of_type_step(old_names[g2]@, i as int);
                }
            }
            if found {
                let mut ids = lists[g].clone();
                assert(ids@ =~= old_lists[g as int]@);
                ids.push(k);
                lists.set(g, ids);
                assert forall|g2: int| 0 <= g2 < lists@.len() implies (#[trigger] lists@[g2])@
                    == self.ids_of_type_before(names@[g2]@, i + 1) by {
                    if g2 != g as int {
                        assert(lists@[g2] == old_lists[g2]);
                        assert(names@[g2]@ != t@);
                    }
                }
                assert forall|j: int| 0 <= j < i + 1 implies exists|g2: int|
                    0 <= g2 < names@.len() && (#[trigger] names@[g2])@ == self.entity_types@[#[trigger] keys[j]]@ by {
                    if j == i {
                        assert(names@[g as int]@ == self.entity_types@[keys[j]]@);
                    }
                }
            } else {
                proof {
                    assert forall|j: int| 0 <= j < i implies self.entity_types@[#[trigger] keys[j]]@ != t@ by {
                        let g2 = choose|g2: int|
                            0 <= g2 < names@.len() && (#[trigger] names@[g2])@ == self.entity_types@[keys[j]]@;
                        assert(names@[g2]@ != t@);
                    }
                    self.lemma_no_ids_of_type_before(t@, i as int);
                    self.lemma_ids_of_type_step(t@, i as int);
                }
                names.push(t.clone());
                let mut one: Vec<usize> = Vec::new();
                one.push(k);
                lists.push(one);
                assert forall|g2: int| 0 <= g2 < lists@.len() implies (#[trigger] lists@[g2])@
                    == self.ids_of_type_before(names@[g2]@, i + 1) by {
                    if g2 < old_lists.len() {
                        assert(lists@[g2] == old_lists[g2]);
                        assert(names@[g2] == old_names[g2]);
                    } else {
                        assert(lists@[g2]@ =~= seq![k]);
                    }
                }
                assert forall|g2: int, h: int| 0 <= g2 < h < names@.len() implies (#[trigger] names@[g2])@
                    != (#[trigger] names@[h])@ by {
                    if h == old_names.len() {
                        assert(names@[g2] == old_names[g2]);
                    } else {
                        assert(names@[g2] == old_names[g2]);
                        assert(names@[h] == old_names[h]);
                    }
                }
                assert forall|j: int| 0 <= j < i + 1 implies exists|g2: int|
                    0 <= g2 < names@.len() && (#[trigger] names@[g2])@ == self.entity_types@[#[trigger] keys[j]]@ by {
                    if j == i {
                        assert(names@[old_names.len() as int]@ == self.entity_types@[keys[j]]@);
                    } else {
                        let g3 = choose|g3: int|
                            0 <= g3 < old_names.len() && (#[trigger] old_names[g3])@ == self.entity_types@[keys[j]]@;
                        assert(names@[g3] == old_names[g3]);
                    }
                }
            }
            i = i + 1;
        }
        assert(keys.take(n as int) =~= keys);
        let mut r: Vec<(String, Vec<usize>)> = Vec::new();
        let mut g: usize = 0;
        while g < names.len()
            invariant
                g <= names@.len(),
                names@.len() == lists@.len(),
                r@.len() == g,
                forall|h: int| 0 <= h < g ==> (#[trigger] r@[h]).0@ == names@[h]@ && r@[h].1@ == lists@[h]@,
            decreases names@.len() - g,
        {
            let ids = lists[g].clone();
            assert(ids@ =~= lists@[g as int]@);
            r.push((names[g].clone(), ids));
            g = g + 1;
        }
        proof {
            assert forall|k: usize| #[trigger] self.entity_types@.contains_key(k) implies exists|g2: int|
                0 <= g2 < r@.len() && (#[trigger] r@[g2]).0@ == self.entity_types@[k]@ by {
                self.entity_types.lemma_keys_are_domain();
                assert(keys.to_set().contains(k));
                let j = choose|j: int| 0 <= j < keys.len() && keys[j] == k;
                let g3 = choose|g3: int|
                    0 <= g3 < names@.len() && (#[trigger] names@[g3])@ == self.entity_types@[keys[j]]@;
                assert(r@[g3].0@ == names@[g3]@);
            }
        }
        r
    }

    /// The first entity, in storage order, of faction "Player".
    pub open spec fn player_id(&self) -> Option<usize> {
        let ids = self.ids_in_faction("Player"@);
        if ids.len() > 0 {
            Some(ids[0])
        } else {
            None
        }
    }

    /// Returns the entity id of the player, if one exists.
    pub fn get_player_id(&self) -> (r: Option<usize>)
        requires
            self.wf(),
        ensures
            r == self.player_id(),
    {
        let ghost pred = |k: usize| self.factions@[k]@ == "Player"@;
        let n = self.factions.dense.len();
        let mut i: usize = 0;
        while i < n
            invariant
                self.wf(),
                n == self.factions.dense@.len(),
                i <= n,
                pred == (|k: usize| self.factions@[k]@ == "Player"@),
                self.factions.keys().take(i as int).filter(pred) == Seq::<usize>::empty(),
            decreases n - i,
        {
            let e = &self.factions.dense[i];
            let k = e.key();
            let ghost keys = self.factions.keys();
            proof {
                self.factions.lemma_entries_match_view();
                reveal_with_fuel(Seq::filter, 1);
                assert(keys[i as int] == k);
                assert(self.factions@[k] == self.factions.dense@[i as int].value_of());
                assert(keys.take(i + 1).last() == k);
                assert(keys.take(i + 1).drop_last() =~= keys.take(i as int));
                assert(keys.take(i + 1).filter(pred) == if pred(k) {
                    keys.take(i as int).filter(pred).push(k)
                } else {
                    keys.take(i as int).filter(pred)
                });
            }
            if str_eq(e.value().as_str(), "Player") {
                proof {
                    assert(keys =~= keys.take(i + 1) + keys.skip(i + 1));
                    Seq::filter_distributes_over_add(keys.take(i + 1), keys.skip(i + 1), pred);
                    assert(keys.take(i + 1).filter(pred) =~= seq![k]);
                }
                return Some(k);
            }
            i = i + 1;
        }
        assert(self.factions.keys().take(n as int) =~= self.factions.keys());
        None
    }

    /// The items lying in the world, unowned, in storage order.
    pub fn get_all_orphaned_weapon_ids(&self) -> (r: Vec<usize>)
        requires
            self.wf(),
        ensures
            r@ == self.factions.keys().filter(|k: usize| self.is_orphaned_item(k)),
    {
        let ghost pred = |k: usize| self.is_orphaned_item(k);
        let mut r: Vec<usize> = Vec::new();
        let n = self.factions.dense.len();
        let mut i: usize = 0;
        while i < n
            invariant
                self.wf(),
                n == self.factions.dense@.len(),
                i <= n,
                pred == (|k: usize| self.is_orphaned_item(k)),
                r@ == self.factions.keys().take(i as int).filter(pred),
            decreases n - i,
        {
            let e = &self.factions.dense[i];
            let k = e.key();
            let ghost keys = self.factions.keys();
            proof {
                self.factions.lemma_entries_match_view();
                reveal_with_fuel(Seq::filter, 1);
                assert(keys[i as int] == k);
                assert(self.factions@[k] == self.factions.dense@[i as int].value_of());
                assert(keys.take(i + 1).last() == k);
                assert(keys.take(i + 1).drop_last() =~= keys.take(i as int));
                assert(keys.take(i + 1).filter(pred) == if pred(k) {
                    keys.take(i as int).filter(pred).push(k)
                } else {
                    keys.take(i as int).filter(pred)
                });
            }
            if str_eq(e.value().as_str(), "Item") && !self.owners.contains(k) {
                r.push(k);
            }
            i = i + 1;
        }
        assert(self.factions.keys().take(n as int) =~= self.factions.keys());
        r
    }

    /// The items that are owned but not held, in storage order.
    pub fn get_all_unequipped_owned_ids(&self) -> (r: Vec<usize>)
        requires
            self.wf(),
        ensures
            r@ == self.factions.keys().filter(|k: usize| self.is_stowed_item(k)),
    {
        let ghost pred = |k: usize| self.is_stowed_item(k);
        let mut r: Vec<usize> = Vec::new();
        let n = self.factions.dense.len();
        let mut i: usize = 0;
        while i < n
            invariant
                self.wf(),
                n == self.factions.dense@.len(),
                i <= n,
                pred == (|k: usize| self.is_stowed_item(k)),
                r@ == self.factions.keys().take(i as int).filter(pred),
            decreases n - i,
        {
            let e = &self.factions.dense[i];
            let k = e.key();
            let ghost keys = self.factions.keys();
            proof {
                self.factions.lemma_entries_match_view();
                reveal_with_fuel(Seq::filter, 1);
                assert(keys[i as int] == k);
                assert(self.factions@[k] == self.factions.dense@[i as int].value_of());
                assert(keys.take(i + 1).last() == k);
                assert(keys.take(i + 1).drop_last() =~= keys.take(i as int));
                assert(keys.take(i + 1).filter(pred) == if pred(k) {
                    keys.take(i as int).filter(pred).push(k)
                } else {
                    keys.take(i as int).filter(pred)
                });
            }
            if str_eq(e.value().as_str(), "Item") && self.owners.contains(k) && !self.is_equipped.contains(k) {
                r.push(k);
            }
            i = i + 1;
        }
        assert(self.factions.keys().take(n as int) =~= self.factions.keys());
        r
    }

    /// The items held in a hand, in storage order.
    pub fn get_active_weapon_ids(&self) -> (r: Vec<usize>)
        requires
            self.wf(),
        ensures
            r@ == self.is_equipped.keys(),
    {
        let mut r: Vec<usize> = Vec::new();
        let n = self.is_equipped.dense.len();
        let mut i: usize = 0;
        while i < n
            invariant
                self.wf(),
                n == self.is_equipped.dense@.len(),
                i <= n,
                r@ == self.is_equipped.keys().take(i as int),
            decreases n - i,
        {
            let k = self.is_equipped.dense[i].key();
            r.push(k);
            assert(r@ =~= self.is_equipped.keys().take(i + 1));
            i = i + 1;
        }
        assert(self.is_equipped.keys().take(n as int) =~= self.is_equipped.keys());
        r
    }

    /// The items held by `id`, right hand first; none when it holds nothing.
    pub open spec fn held_by(&self, id: usize) -> Seq<usize> {
        if self.active_items@.contains_key(id) {
            held_items(self.active_items@[id])
        } else {
            Seq::empty()
        }
    }

    /// Lets go of everything `id` holds: the held items lose their owner and their
    /// equipped mark. Returns the released items, right hand first, whose cleanup
    /// timers are to be started.
    pub fn drop_active_items(&mut self, id: usize) -> (released: Vec<usize>)
        requires
            old(self).wf(),
            id < old(self).cap(),
        ensures
            final(self).wf(),
            released@ == old(self).held_by(id),
            final(self).owners@ == old(self).owners@.remove_keys(released@.to_set()),
            final(self).is_equipped@ == old(self).is_equipped@.remove_keys(released@.to_set()),
            final(self).active_items@ == old(self).active_items@.remove(id),
            final(self).factions == old(self).factions,
            final(self).entity_types == old(self).entity_types,
            final(self).inventories == old(self).inventories,
            final(self).cap() == old(self).cap(),
            final(self).owners.keys() == swap_removed_all(old(self).owners.keys(), released@),
            final(self).is_equipped.keys() == swap_removed_all(
                old(self).is_equipped.keys(),
                released@,
            ),
            final(self).active_items.keys() == swap_removed(old(self).active_items.keys(), id),
    {
        let ghost old_self = *self;
        let mut released: Vec<usize> = Vec::new();
        let held_now = match self.active_items.get(id) {
            Some(ai) => held(ai),
            None => Vec::new(),
        };
        proof {
            assert(held_now@ == old_self.held_by(id));
        }
        let mut i: usize = 0;
        while i < held_now.len()
            invariant
                old_self.wf(),
                self.owners.wf(),
                self.is_equipped.wf(),
                self.owners.spec_capacity() == old_self.cap(),
                self.is_equipped.spec_capacity() == old_self.cap(),
                self.factions == old_self.factions,
                self.entity_types == old_self.entity_types,
                self.inventories == old_self.inventories,
                self.active_items == old_self.active_items,
                held_now@ == old_self.held_by(id),
                i <= held_now@.len(),
                released@ == held_now@.take(i as int),
                self.owners@ == old_self.owners@.remove_keys(released@.to_set()),
                self.is_equipped@ == old_self.is_equipped@.remove_keys(released@.to_set()),
                self.owners.keys() == swap_removed_all(old_self.owners.keys(), released@),
                self.is_equipped.keys() == swap_removed_all(old_self.is_equipped.keys(), released@),
            decreases held_now@.len() - i,
        {
            let x = held_now[i];
            proof {
                assert(old_self.active_items@.contains_key(id));
                assert(held_items(old_self.active_items@[id])[i as int] == x);
            }
            self.owners.remove(x);
            self.is_equipped.remove(x);
            released.push(x);
            proof {
                assert(released@ =~= held_now@.take(i + 1));
                assert(released@ =~= held_now@.take(i as int).push(x));
                assert(released@.drop_last() =~= held_now@.take(i as int));
                held_now@.take(i as int).lemma_push_to_set_commute(x);
                assert(self.owners@ =~= old_self.owners@.remove_keys(released@.to_set()));
                assert(self.is_equipped@ =~= old_self.is_equipped@.remove_keys(released@.to_set()));
            }
            i = i + 1;
        }
        assert(held_now@.take(held_now@.len() as int) =~= held_now@);
        self.active_items.remove(id);
        released
    }

    /// The items `id` carries, in inventory order; none when it has no inventory.
    pub open spec fn carried_by(&self, id: usize) -> Seq<usize> {
        if self.inventories@.contains_key(id) {
            self.inventories@[id]@
        } else {
            Seq::empty()
        }
    }

    /// Removes entity `id` from the registry: the items it carries or holds lose their
    /// owner and their equipped mark, and its own faction, entity type, inventory, held
    /// items, owner and equipped mark are removed. Returns the released items, the
    /// carried ones first and then the held ones, whose cleanup timers are to be
    /// started.
    pub fn forget_entity(&mut self, id: usize) -> (released: Vec<usize>)
        requires
            old(self).wf(),
            id < old(self).cap(),
        ensures
            final(self).wf(),
            released@ == old(self).carried_by(id) + old(self).held_by(id),
            final(self).owners@ == old(self).owners@.remove_keys(released@.to_set().insert(id)),
            final(self).is_equipped@ == old(self).is_equipped@.remove_keys(released@.to_set().insert(id)),
            final(self).inventories@ == old(self).inventories@.remove(id),
            final(self).active_items@ == old(self).active_items@.remove(id),
            final(self).factions@ == old(self).factions@.remove(id),
            final(self).entity_types@ == old(self).entity_types@.remove(id),
            final(self).factions.keys() == old(self).factions.keys_without(id),
            final(self).entity_types.keys() == old(self).entity_types.keys_without(id),
            final(self).factions.keys() == swap_removed(old(self).factions.keys(), id),
            final(self).entity_types.keys() == swap_removed(old(self).entity_types.keys(), id),
            final(self).cap() == old(self).cap(),
            final(self).owners.keys() == swap_removed_all(old(self).owners.keys(), released@.push(id)),
            final(self).is_equipped.keys() == swap_removed_all(
                old(self).is_equipped.keys(),
                released@.push(id),
            ),
            final(self).inventories.keys() == swap_removed(old(self).inventories.keys(), id),
            final(self).active_items.keys() == swap_removed(old(self).active_items.keys(), id),
    {
        let ghost old_self = *self;
        let mut released: Vec<usize> = Vec::new();
        if let Some(inv) = self.inventories.get(id) {
            let mut i: usize = 0;
            while i < inv.len()
                invariant
                    old_self.wf(),
                    self.owners.wf(),
                    self.is_equipped.wf(),
                    self.owners.spec_capacity() == old_self.cap(),
                    self.is_equipped.spec_capacity() == old_self.cap(),
                    self.factions == old_self.factions,
                    self.entity_types == old_self.entity_types,
                    self.inventories == old_self.inventories,
                    self.active_items == old_self.active_items,
                    old_self.inventories@.contains_key(id),
                    *inv == old_self.inventories@[id],
                    i <= inv@.len(),
                    released@ == inv@.take(i as int),
                    self.owners@ == old_self.owners@.remove_keys(released@.to_set()),
                    self.is_equipped@ == old_self.is_equipped@.remove_keys(released@.to_set()),
                    self.owners.keys() == swap_removed_all(old_self.owners.keys(), released@),
                    self.is_equipped.keys() == swap_removed_all(old_self.is_equipped.keys(), released@),
                decreases inv@.len() - i,
            {
                let x = inv[i];
                self.owners.remove(x);
                self.is_equipped.remove(x);
                released.push(x);
                proof {
                    assert(released@ =~= inv@.take(i as int).push(x));
                    assert(released@.drop_last() =~= inv@.take(i as int));
                    inv@.take(i as int).lemma_push_to_set_commute(x);
                    assert(self.owners@ =~= old_self.owners@.remove_keys(released@.to_set()));
                    assert(self.is_equipped@ =~= old_self.is_equipped@.remove_keys(released@.to_set()));
                }
                i = i + 1;
            }
            assert(inv@.take(inv@.len() as int) =~= inv@);
        }
        let ghost carried = released@;
        let ghost mid = *self;
        assert(carried == old_self.carried_by(id));
        self.inventories.remove(id);
        assert(self.wf());
        let mut dropped = self.drop_active_items(id);
        proof {
            let all = carried + dropped@;
            lemma_concat_to_set(carried, dropped@);
            lemma_swap_removed_all_concat(old_self.owners.keys(), carried, dropped@);
            lemma_swap_removed_all_concat(old_self.is_equipped.keys(), carried, dropped@);
            assert(self.owners@ =~= old_self.owners@.remove_keys(all.to_set()));
            assert(self.is_equipped@ =~= old_self.is_equipped@.remove_keys(all.to_set()));
        }
        released.append(&mut dropped);
        self.owners.remove(id);
        self.is_equipped.remove(id);
        self.factions.remove(id);
        self.entity_types.remove(id);
        proof {
            assert(released@.push(id).drop_last() =~= released@);
            released@.lemma_push_to_set_commute(id);
            assert(self.owners@ =~= old_self.owners@.remove_keys(released@.to_set().insert(id)));
            assert(self.is_equipped@ =~= old_self.is_equipped@.remove_keys(released@.to_set().insert(id)));
        }
        released
    }

    /// Registers a new entity `id` of `faction` and `entity_type`, as a new entity is
    /// created: its faction and its entity type are stored, and nothing else changes.
    pub fn register_entity(&mut self, id: usize, faction: String, entity_type: String)
        requires
            old(self).wf(),
            id < old(self).cap(),
        ensures
            final(self).wf(),
            final(self).cap() == old(self).cap(),
            final(self).factions@ == old(self).factions@.insert(id, faction),
            final(self).entity_types@ == old(self).entity_types@.insert(id, entity_type),
            final(self).factions.keys() == with_key(old(self).factions.keys(), id),
            final(self).entity_types.keys() == with_key(old(self).entity_types.keys(), id),
            final(self).inventories == old(self).inventories,
            final(self).active_items == old(self).active_items,
            final(self).owners == old(self).owners,
            final(self).is_equipped == old(self).is_equipped,
    {
        self.factions.insert(id, faction);
        self.entity_types.insert(id, entity_type);
    }

    /// Records that `parent_id` owns weapon `weapon_id`: the weapon is stowed in the
    /// parent's inventory, unless the parent holds nothing yet, in which case the
    /// weapon goes into its right hand instead and is marked as equipped.
    pub fn stash_or_equip(&mut self, parent_id: usize, weapon_id: usize)
        requires
            old(self).wf(),
            parent_id < old(self).cap(),
            weapon_id < old(self).cap(),
        ensures
            final(self).wf(),
            final(self).cap() == old(self).cap(),
            final(self).owners@ == old(self).owners@.insert(weapon_id, parent_id),
            final(self).owners.keys() == with_key(old(self).owners.keys(), weapon_id),
            final(self).factions == old(self).factions,
            final(self).entity_types == old(self).entity_types,
            final(self).inventories@.contains_key(parent_id),
            final(self).inventories.keys() == with_key(old(self).inventories.keys(), parent_id),
            final(self).owned_items(parent_id) matches Some(items) && items.contains(weapon_id),
            final(self).inventories@.remove(parent_id) == old(self).inventories@.remove(parent_id),
            old(self).active_items@.contains_key(parent_id) ==> {
                &&& final(self).inventories@[parent_id]@ == stowed(old(self).carried_by(parent_id), weapon_id)
                &&& final(self).active_items == old(self).active_items
                &&& final(self).is_equipped == old(self).is_equipped
            },
            !old(self).active_items@.contains_key(parent_id) ==> {
                &&& final(self).inventories@[parent_id]@ == old(self).carried_by(parent_id).filter(
                    |v: usize| v != weapon_id,
                )
                &&& final(self).active_items@ == old(self).active_items@.insert(
                    parent_id,
                    ActiveItem { right_hand: Some(weapon_id), left_hand: None },
                )
                &&& final(self).is_equipped@ == old(self).is_equipped@.insert(weapon_id, true)
                &&& final(self).is_equipped.keys() == with_key(old(self).is_equipped.keys(), weapon_id)
                &&& final(self).active_items.keys() == with_key(old(self).active_items.keys(), parent_id)
            },
    {
        let ghost old_self = *self;
        proof {
            old_self.inventories.lemma_keys_are_domain();
        }
        self.owners.insert(weapon_id, parent_id);
        if self.active_items.contains(parent_id) {
            match self.inventories.get_mut(parent_id) {
                Some(inv) => {
                    if !vec_contains(inv, weapon_id) {
                        inv.push(weapon_id);
                    }
                },
                None => {
                    let mut v = Vec::new();
                    v.push(weapon_id);
                    self.inventories.insert(parent_id, v);
                    assert(self.inventories@[parent_id]@ =~= stowed(Seq::empty(), weapon_id));
                },
            }
        } else {
            let kept = match self.inventories.get(parent_id) {
                Some(inv) => without(inv, weapon_id),
                None => {
                    let v: Vec<usize> = Vec::new();
                    proof {
                        reveal_with_fuel(Seq::filter, 1);
                    }
                    assert(v@ == Seq::<usize>::empty().filter(|v: usize| v != weapon_id));
                    v
                },
            };
            proof {
                Seq::<usize>::empty().filter_lemma(|v: usize| v != weapon_id);
                old_self.carried_by(parent_id).filter_lemma(|v: usize| v != weapon_id);
            }
            self.inventories.insert(parent_id, kept);
            self.active_items.insert(parent_id, ActiveItem { right_hand: Some(weapon_id), left_hand: None });
            self.is_equipped.insert(weapon_id, true);
        }
        proof {
            assert(self.inventories@.remove(parent_id) =~= old_self.inventories@.remove(parent_id));
            assert forall|id: usize, j: int|
                #![trigger self.inventories@[id]@[j]]
                self.inventories@.contains_key(id) && 0 <= j < self.inventories@[id]@.len() implies
                self.inventories@[id]@[j] < self.cap() by {
                if id != parent_id {
                    assert(old_self.inventories@.remove(parent_id).contains_key(id));
                    assert(self.inventories@[id] == old_self.inventories@[id]);
                } else {
                    let x = self.inventories@[id]@[j];
                    let inv0 = old_self.carried_by(parent_id);
                    assert(self.inventories@[id]@.contains(x));
                    if old_self.active_items@.contains_key(parent_id) {
                        if x != weapon_id {
                            assert(inv0.contains(x));
                        }
                    } else {
                        inv0.lemma_filter_contains_rev(|v: usize| v != weapon_id, x);
                    }
                    if x != weapon_id {
                        let j0 = choose|j0: int| 0 <= j0 < inv0.len() && inv0[j0] == x;
                        assert(old_self.inventories@[parent_id]@[j0] == x);
                    }
                }
            }
            let items = self.owned_items(parent_id).unwrap();
            let inv = self.inventories@[parent_id]@;
            if old_self.active_items@.contains_key(parent_id) {
                let inv0 = old_self.carried_by(parent_id);
                if !inv0.contains(weapon_id) {
                    assert(inv[inv0.len() as int] == weapon_id);
                }
                let j = choose|j: int| 0 <= j < inv.len() && inv[j] == weapon_id;
                assert(items[j] == weapon_id);
            } else {
                assert(items[items.len() - 1] == weapon_id);
            }
        }
    }

    /// The weapon in the right hand of `id`, if it holds one.
    pub open spec fn right_hand_of(&self, id: usize) -> Option<usize> {
        if self.active_items@.contains_key(id) {
            self.active_items@[id].right_hand
        } else {
            None
        }
    }

    /// Records that the player `player_id` picked up weapon `weapon_id` and holds it:
    /// a weapon previously in the right hand is unequipped and stowed in the
    /// inventory, and the new weapon becomes the only held item.
    pub fn equip_picked_up_weapon(&mut self, player_id: usize, weapon_id: usize)
        requires
            old(self).wf(),
            player_id < old(self).cap(),
            weapon_id < old(self).cap(),
        ensures
            final(self).wf(),
            final(self).cap() == old(self).cap(),
            final(self).owners@ == old(self).owners@.insert(weapon_id, player_id),
            final(self).owners.keys() == with_key(old(self).owners.keys(), weapon_id),
            final(self).active_items.keys() == with_key(old(self).active_items.keys(), player_id),
            final(self).factions == old(self).factions,
            final(self).entity_types == old(self).entity_types,
            final(self).active_items@ == old(self).active_items@.insert(
                player_id,
                ActiveItem { right_hand: Some(weapon_id), left_hand: None },
            ),
            match old(self).right_hand_of(player_id) {
                Some(c) => {
                    &&& final(self).is_equipped@ == old(self).is_equipped@.remove(c).insert(weapon_id, true)
                    &&& final(self).is_equipped.keys() == with_key(
                        swap_removed(old(self).is_equipped.keys(), c),
                        weapon_id,
                    )
                    &&& final(self).inventories@.contains_key(player_id)
                    &&& final(self).inventories@[player_id]@ == stowed(old(self).carried_by(player_id), c)
                    &&& final(self).inventories@.remove(player_id) == old(self).inventories@.remove(player_id)
                    &&& final(self).inventories.keys() == with_key(old(self).inventories.keys(), player_id)
                },
                None => {
                    &&& final(self).is_equipped@ == old(self).is_equipped@.insert(weapon_id, true)
                    &&& final(self).is_equipped.keys() == with_key(old(self).is_equipped.keys(), weapon_id)
                    &&& final(self).inventories == old(self).inventories
                },
            },
    {
        let ghost old_self = *self;
        proof {
            old_self.inventories.lemma_keys_are_domain();
        }
        self.owners.insert(weapon_id, player_id);
        let current = match self.active_items.get(player_id) {
            Some(active) => active.right_hand,
            None => None,
        };
        if let Some(current_weapon) = current {
            proof {
                assert(held_items(old_self.active_items@[player_id])[0] == current_weapon);
            }
            self.is_equipped.remove(current_weapon);
            match self.inventories.get_mut(player_id) {
                Some(inv) => {
                    if !vec_contains(inv, current_weapon) {
                        inv.push(current_weapon);
                    }
                },
                None => {
                    let mut v = Vec::new();
                    v.push(current_weapon);
                    self.inventories.insert(player_id, v);
                    assert(self.inventories@[player_id]@ =~= stowed(Seq::empty(), current_weapon));
                },
            }
            proof {
                assert(self.inventories@.remove(player_id) =~= old_self.inventories@.remove(player_id));
                assert forall|id: usize, j: int|
                    #![trigger self.inventories@[id]@[j]]
                    self.inventories@.contains_key(id) && 0 <= j < self.inventories@[id]@.len() implies
                    self.inventories@[id]@[j] < self.cap() by {
                    if id != player_id {
                        assert(old_self.inventories@.remove(player_id).contains_key(id));
                        assert(self.inventories@[id] == old_self.inventories@[id]);
                    } else {
                        let x = self.inventories@[id]@[j];
                        let inv0 = old_self.carried_by(player_id);
                        assert(self.inventories@[id]@.contains(x));
                        if x != current_weapon {
                            assert(inv0.contains(x));
                            let j0 = choose|j0: int| 0 <= j0 < inv0.len() && inv0[j0] == x;
                            assert(old_self.inventories@[player_id]@[j0] == x);
                        }
                    }
                }
            }
        }
        self.active_items.insert(player_id, ActiveItem { right_hand: Some(weapon_id), left_hand: None });
        self.is_equipped.insert(weapon_id, true);
        proof {
            assert forall|id: usize, j: int|
                #![trigger held_items(self.active_items@[id])[j]]
                self.active_items@.contains_key(id) && 0 <= j < held_items(self.active_items@[id]).len()
                    implies held_items(self.active_items@[id])[j] < self.cap() by {
                if id != player_id {
                    assert(self.active_items@[id] == old_self.active_items@[id]);
                } else {
                    assert(held_items(self.active_items@[id]) =~= seq![weapon_id]);
                }
            }
        }
    }

    /// The items `id` owns, carried ones first, then the left-hand and the right-hand
    /// item; None when it has no inventory.
    pub open spec fn owned_items(&self, id: usize) -> Option<Seq<usize>> {
        if self.inventories@.contains_key(id) {
            let inv = self.inventories@[id]@;
            let (lh, rh) = if self.active_items@.contains_key(id) {
                (self.active_items@[id].left_hand, self.active_items@[id].right_hand)
            } else {
                (None, None)
            };
            let with_lh = match lh {
                Some(x) => inv.push(x),
                None => inv,
            };
            Some(
                match rh {
                    Some(x) => with_lh.push(x),
                    None => with_lh,
                },
            )
        } else {
            None
        }
    }

    /// The ids of the items `id` owns, for saving it with its weapons.
    pub fn resolve_weapon_ids(&self, id: usize) -> (r: Option<Vec<usize>>)
        requires
            self.wf(),
            id < self.cap(),
        ensures
            r matches Some(v) ==> self.owned_items(id) == Some(v@),
            r is None ==> self.owned_items(id) is None,
    {
        if let Some(inv) = self.inventories.get(id) {
            let mut idlist: Vec<usize> = Vec::new();
            let mut i: usize = 0;
            while i < inv.len()
                invariant
                    i <= inv@.len(),
                    idlist@ == inv@.take(i as int),
                decreases inv@.len() - i,
            {
                idlist.push(inv[i]);
                assert(idlist@ =~= inv@.take(i + 1));
                i = i + 1;
            }
            assert(inv@.take(inv@.len() as int) =~= inv@);
            if let Some(aa) = self.active_items.get(id) {
                if let Some(lh) = aa.left_hand {
                    idlist.push(lh);
                }
                if let Some(rh) = aa.right_hand {
                    idlist.push(rh);
                }
            }
            return Some(idlist);
        }
        None
    }

    /// The player's right-hand weapon, provided it has abilities assigned.
    pub fn player_main_hand_weapon<A>(&self, weapon_abilities: &SparseSet<A>) -> (r: Option<usize>)
        requires
            self.wf(),
            weapon_abilities.wf(),
            weapon_abilities.spec_capacity() == self.cap(),
        ensures
            r == (match self.player_id() {
                Some(pid) => match self.right_hand_of(pid) {
                    Some(w) => if weapon_abilities@.contains_key(w) {
                        Some(w)
                    } else {
                        None
                    },
                    None => None,
                },
                None => None,
            }),
    {
        let pid = self.get_player_id()?;
        proof {
            let ids = self.ids_in_faction("Player"@);
            self.factions.keys().filter_lemma(|k: usize| self.factions@[k]@ == "Player"@);
            assert(ids.contains(ids[0]));
            self.factions.keys().lemma_filter_contains_rev(|k: usize| self.factions@[k]@ == "Player"@, pid);
            self.factions.lemma_keys_are_domain();
            assert(self.factions.keys().to_set().contains(pid));
            assert(self.factions@.dom().contains(pid));
        }
        let wid = self.active_items.get(pid)?.right_hand?;
        proof {
            assert(held_items(self.active_items@[pid])[0] == wid);
        }
        weapon_abilities.get(wid)?;
        Some(wid)
    }

}

/// What deleting entity `id` releases, when the ids `before` were deleted ahead of it:
/// nothing if it was deleted already, else the items it carries and then those it
/// holds.
pub open spec fn released_on_delete(r: EntityRegistry, before: Seq<usize>, id: usize) -> Seq<usize> {
    if before.contains(id) {
        Seq::empty()
    } else {
        r.carried_by(id) + r.held_by(id)
    }
}

/// What deleting the ids `trash`, in order, releases from `r`.
pub open spec fn released_by(r: EntityRegistry, trash: Seq<usize>) -> Seq<usize>
    decreases trash.len(),
{
    if trash.len() == 0 {
        Seq::empty()
    } else {
        released_by(r, trash.drop_last()) + released_on_delete(r, trash.drop_last(), trash.last())
    }
}

/// The order in which deleting the ids `trash` takes keys out of the owners and the
/// equipped marks: for each id, what it releases and then the id itself.
pub open spec fn owner_removals(r: EntityRegistry, trash: Seq<usize>) -> Seq<usize>
    decreases trash.len(),
{
    if trash.len() == 0 {
        Seq::empty()
    } else {
        owner_removals(r, trash.drop_last()) + released_on_delete(r, trash.drop_last(), trash.last()).push(
            trash.last(),
        )
    }
}

impl EntityRegistry {
    /// Deletes the entities in `trashcan`, in order: each is forgotten by the registry,
    /// its weapon abilities are dropped, and it leaves the selection and the current
    /// round's enemies; then the trash can is emptied. Returns the items the deleted
    /// entities released, whose cleanup timers are to be started.
    pub fn delete_entities<A>(
        &mut self,
        trashcan: &mut Vec<usize>,
        selected: &mut Vec<usize>,
        round_enemies: &mut Vec<usize>,
        weapon_abilities: &mut SparseSet<A>,
    ) -> (released: Vec<usize>)
        requires
            old(self).wf(),
            old(weapon_abilities).wf(),
            old(weapon_abilities).spec_capacity() == old(self).cap(),
            forall|k: int| 0 <= k < old(trashcan)@.len() ==> #[trigger] old(trashcan)@[k] < old(self).cap(),
        ensures
            final(self).wf(),
            final(self).cap() == old(self).cap(),
            final(trashcan)@ == Seq::<usize>::empty(),
            released@ == released_by(*old(self), old(trashcan)@),
            final(self).factions@ == old(self).factions@.remove_keys(old(trashcan)@.to_set()),
            final(self).entity_types@ == old(self).entity_types@.remove_keys(old(trashcan)@.to_set()),
            final(self).inventories@ == old(self).inventories@.remove_keys(old(trashcan)@.to_set()),
            final(self).active_items@ == old(self).active_items@.remove_keys(old(trashcan)@.to_set()),
            final(self).owners@ == old(self).owners@.remove_keys(
                owner_removals(*old(self), old(trashcan)@).to_set(),
            ),
            final(self).is_equipped@ == old(self).is_equipped@.remove_keys(
                owner_removals(*old(self), old(trashcan)@).to_set(),
            ),
            final(self).factions.keys() == swap_removed_all(old(self).factions.keys(), old(trashcan)@),
            final(self).entity_types.keys() == swap_removed_all(
                old(self).entity_types.keys(),
                old(trashcan)@,
            ),
            final(self).inventories.keys() == swap_removed_all(
                old(self).inventories.keys(),
                old(trashcan)@,
            ),
            final(self).active_items.keys() == swap_removed_all(
                old(self).active_items.keys(),
                old(trashcan)@,
            ),
            final(self).owners.keys() == swap_removed_all(
                old(self).owners.keys(),
                owner_removals(*old(self), old(trashcan)@),
            ),
            final(self).is_equipped.keys() == swap_removed_all(
                old(self).is_equipped.keys(),
                owner_removals(*old(self), old(trashcan)@),
            ),
            final(weapon_abilities).wf(),
            final(weapon_abilities).spec_capacity() == old(weapon_abilities).spec_capacity(),
            final(weapon_abilities)@ == old(weapon_abilities)@.remove_keys(old(trashcan)@.to_set()),
            final(weapon_abilities).keys() == swap_removed_all(
                old(weapon_abilities).keys(),
                old(trashcan)@,
            ),
            final(selected)@ == old(selected)@.filter(|x: usize| !old(trashcan)@.contains(x)),
            final(round_enemies)@ == old(round_enemies)@.filter(|x: usize| !old(trashcan)@.contains(x)),
    {
        let ghost r0 = *self;
        let ghost w0 = *weapon_abilities;
        let ghost trash = trashcan@;
        let mut released: Vec<usize> = Vec::new();
        let mut i: usize = 0;
        while i < trashcan.len()
            invariant
                trashcan@ == trash,
                r0.wf(),
                forall|k: int| 0 <= k < trash.len() ==> #[trigger] trash[k] < r0.cap(),
                self.wf(),
                self.cap() == r0.cap(),
                w0.wf(),
                weapon_abilities.wf(),
                weapon_abilities.spec_capacity() == r0.cap(),
                i <= trash.len(),
                released@ == released_by(r0, trash.take(i as int)),
                self.factions@ == r0.factions@.remove_keys(trash.take(i as int).to_set()),
                self.entity_types@ == r0.entity_types@.remove_keys(trash.take(i as int).to_set()),
                self.inventories@ == r0.inventories@.remove_keys(trash.take(i as int).to_set()),
                self.active_items@ == r0.active_items@.remove_keys(trash.take(i as int).to_set()),
                self.owners@ == r0.owners@.remove_keys(owner_removals(r0, trash.take(i as int)).to_set()),
                self.is_equipped@ == r0.is_equipped@.remove_keys(
                    owner_removals(r0, trash.take(i as int)).to_set(),
                ),
                self.factions.keys() == swap_removed_all(r0.factions.keys(), trash.take(i as int)),
                self.entity_types.keys() == swap_removed_all(r0.entity_types.keys(), trash.take(i as int)),
                self.inventories.keys() == swap_removed_all(r0.inventories.keys(), trash.take(i as int)),
                self.active_items.keys() == swap_removed_all(r0.active_items.keys(), trash.take(i as int)),
                self.owners.keys() == swap_removed_all(r0.owners.keys(), owner_removals(r0, trash.take(i as int))),
                self.is_equipped.keys() == swap_removed_all(
                    r0.is_equipped.keys(),
                    owner_removals(r0, trash.take(i as int)),
                ),
                weapon_abilities@ == w0@.remove_keys(trash.take(i as int).to_set()),
                weapon_abilities.keys() == swap_removed_all(w0.keys(), trash.take(i as int)),
            decreases trash.len() - i,
        {
            let id = trashcan[i];
            let ghost before = trash.take(i as int);
            let ghost mid = *self;
            let ghost wmid = *weapon_abilities;
            proof {
                assert(trash.take(i + 1).drop_last() =~= before);
                assert(trash.take(i + 1).last() == id);
                assert(trash.take(i + 1).to_set() =~= before.to_set().insert(id)) by {
                    assert(trash.take(i + 1) =~= before.push(id));
                    before.lemma_push_to_set_commute(id);
                }
                if before.contains(id) {
                    assert(!mid.inventories@.contains_key(id));
                    assert(!mid.active_items@.contains_key(id));
                    assert(mid.carried_by(id) =~= Seq::<usize>::empty());
                    assert(mid.held_by(id) =~= Seq::<usize>::empty());
                    assert(released_on_delete(r0, before, id) =~= mid.carried_by(id) + mid.held_by(id));
                } else {
                    assert(mid.inventories@.contains_key(id) == r0.inventories@.contains_key(id));
                    assert(mid.active_items@.contains_key(id) == r0.active_items@.contains_key(id));
                    assert(mid.carried_by(id) == r0.carried_by(id));
                    assert(mid.held_by(id) == r0.held_by(id));
                }
            }
            let mut freed = self.forget_entity(id);
            weapon_abilities.remove(id);
            proof {
                let step = released_on_delete(r0, before, id);
                assert(freed@ == step);
                let rem = owner_removals(r0, before);
                lemma_concat_to_set(rem, step.push(id));
                step.lemma_push_to_set_commute(id);
                assert(owner_removals(r0, trash.take(i + 1)) == rem + step.push(id));
                assert(self.owners@ =~= r0.owners@.remove_keys(owner_removals(r0, trash.take(i + 1)).to_set()));
                assert(self.is_equipped@ =~= r0.is_equipped@.remove_keys(
                    owner_removals(r0, trash.take(i + 1)).to_set(),
                ));
                lemma_swap_removed_all_concat(r0.owners.keys(), rem, step.push(id));
                lemma_swap_removed_all_concat(r0.is_equipped.keys(), rem, step.push(id));
                assert(self.factions@ =~= r0.factions@.remove_keys(trash.take(i + 1).to_set()));
                assert(self.entity_types@ =~= r0.entity_types@.remove_keys(trash.take(i + 1).to_set()));
                assert(self.inventories@ =~= r0.inventories@.remove_keys(trash.take(i + 1).to_set()));
                assert(self.active_items@ =~= r0.active_items@.remove_keys(trash.take(i + 1).to_set()));
                assert(weapon_abilities@ =~= w0@.remove_keys(trash.take(i + 1).to_set()));
            }
            released.append(&mut freed);
            i = i + 1;
        }
        proof {
            assert(trash.take(trash.len() as int) =~= trash);
        }
        *selected = without_all(selected, trashcan);
        *round_enemies = without_all(round_enemies, trashcan);
        trashcan.clear();
        released
    }
}

/// The player id, when there is one, names a registered entity of faction "Player".
pub proof fn lemma_player_id_is_player(r: &EntityRegistry)
    requires
        r.wf(),
    ensures
        r.player_id() matches Some(p) ==> r.factions@.contains_key(p) && r.factions@[p]@ == "Player"@,
        r.player_id() is None ==> forall|k: usize| #[trigger] r.factions@.contains_key(k) ==> r.factions@[k]@ != "Player"@,
{
    let pred = |k: usize| r.factions@[k]@ == "Player"@;
    let keys = r.factions.keys();
    keys.filter_lemma(pred);
    r.factions.lemma_keys_are_domain();
    if let Some(p) = r.player_id() {
        assert(keys.filter(pred).contains(p));
        keys.lemma_filter_contains_rev(pred, p);
        assert(keys.to_set().contains(p));
    } else {
        assert forall|k: usize| #[trigger] r.factions@.contains_key(k) implies r.factions@[k]@ != "Player"@ by {
            assert(keys.to_set().contains(k));
            let j = choose|j: int| 0 <= j < keys.len() && keys[j] == k;
            if pred(k) {
                assert(keys.filter(pred).contains(keys[j]));
            }
        }
    }
}

/// No item is both lying in the world and stowed by an owner.
pub proof fn lemma_orphaned_and_stowed_disjoint(r: &EntityRegistry, k: usize)
    ensures
        !(r.is_orphaned_item(k) && r.is_stowed_item(k)),
{
}

} // verus!

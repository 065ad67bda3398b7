//! Which entities a weapon swing, a projectile or a damage volume hurts this tick,
//! from the colliders that the physics engine reports as touching it.
//!
//! A collider is known here by an integer key. A swing and a damage volume keep the set
//! of colliders they have already hurt, so that each is hurt once per swing (a volume
//! clears its set on every damage tick); a projectile keeps none.
use crate::combat::{can_hit, spec_can_hit, spec_is_combatant};
use crate::sparse_set::SparseSet;
use std::collections::HashMap;
use std::collections::HashSet;
use vstd::prelude::*;

verus! {

broadcast use vstd::std_specs::hash::group_hash_axioms;

/// A pair of colliders that the physics engine reports together, and whether they
/// intersect.
#[derive(Clone, Copy, Debug, PartialEq, Eq, Structural)]
pub struct Contact {
    pub first: u64,
    pub second: u64,
    pub intersecting: bool,
}

/// What does the hitting.
#[derive(Clone, Copy, Debug, PartialEq, Eq, Structural)]
pub enum Hitter {
    /// A held weapon; the collider of the body that swings it is never hit.
    Weapon { body: u64 },
    /// A projectile.
    Projectile,
    /// A damage volume left in the world.
    Volume,
}

/// An entity hurt through one of its colliders.
#[derive(Clone, Copy, Debug, PartialEq, Eq, Structural)]
pub struct Hit {
    pub collider: u64,
    pub victim: usize,
}

impl Hitter {
    /// Whether this hitter hurts each collider only once while its set is kept.
    pub open spec fn remembers_hits(self) -> bool {
        !(self is Projectile)
    }
}

/// The collider on the other side of a contact with `hitter`, if the contact counts.
pub open spec fn other_collider(kind: Hitter, hitter: u64, c: Contact) -> Option<u64> {
    if !c.intersecting {
        None
    } else {
        match kind {
            Hitter::Weapon { body } => if c.first == body || c.second == body {
                None
            } else if c.first == hitter {
                Some(c.second)
            } else {
                Some(c.first)
            },
            _ => if c.first == hitter {
                Some(c.second)
            } else if c.second == hitter {
                Some(c.first)
            } else {
                None
            },
        }
    }
}

/// The entity that a contact would hurt before any memory of earlier hits: the owner of
/// the other collider, when it is not the source and is on the other side of the
/// fight.
pub open spec fn contact_target(
    kind: Hitter,
    hitter: u64,
    source: usize,
    source_faction: Seq<char>,
    owners: Map<u64, usize>,
    factions: Map<usize, String>,
    c: Contact,
) -> Option<Hit> {
    match other_collider(kind, hitter, c) {
        None => None,
        Some(other) => if !owners.contains_key(other) {
            None
        } else {
            let victim = owners[other];
            if victim == source || !factions.contains_key(victim) || !spec_can_hit(
                source_faction,
                factions[victim]@,
            ) {
                None
            } else {
                Some(Hit { collider: other, victim })
            }
        },
    }
}

/// The hits from a list of contacts, in order, and the set of remembered colliders
/// after them, starting from the set `seen`.
pub open spec fn resolve_contacts(
    kind: Hitter,
    hitter: u64,
    source: usize,
    source_faction: Seq<char>,
    owners: Map<u64, usize>,
    factions: Map<usize, String>,
    bodies: Set<usize>,
    contacts: Seq<Contact>,
    seen: Set<u64>,
) -> (Seq<Hit>, Set<u64>)
    decreases contacts.len(),
{
    if contacts.len() == 0 {
        (Seq::empty(), seen)
    } else {
        let (hits, seen1) = resolve_contacts(
            kind,
            hitter,
            source,
            source_faction,
            owners,
            factions,
            bodies,
            contacts.drop_last(),
            seen,
        );
        match contact_target(kind, hitter, source, source_faction, owners, factions, contacts.last()) {
            None => (hits, seen1),
            Some(h) => if kind.remembers_hits() && seen1.contains(h.collider) {
                (hits, seen1)
            } else {
                let seen2 = if kind.remembers_hits() {
                    seen1.insert(h.collider)
                } else {
                    seen1
                };
                if bodies.contains(h.victim) {
                    (hits.push(h), seen2)
                } else {
                    (hits, seen2)
                }
            },
        }
    }
}

/// Every hit lands on a hostile entity with a body, other than the source, through a
/// collider that its owner map names; a hitter that remembers its hits hurts each
/// collider at most once, never one it had already hurt, and remembers each one it
/// hurts, forgetting none.
pub proof fn lemma_hits_are_hostile_and_once(
    kind: Hitter,
    hitter: u64,
    source: usize,
    source_faction: Seq<char>,
    owners: Map<u64, usize>,
    factions: Map<usize, String>,
    bodies: Set<usize>,
    contacts: Seq<Contact>,
    seen: Set<u64>,
)
    ensures
        ({
            let (hits, seen_after) = resolve_contacts(
                kind,
                hitter,
                source,
                source_faction,
                owners,
                factions,
                bodies,
                contacts,
                seen,
            );
            &&& forall|j: int|
                0 <= j < hits.len() ==> {
                    let h = #[trigger] hits[j];
                    &&& h.victim != source
                    &&& owners.contains_key(h.collider)
                    &&& owners[h.collider] == h.victim
                    &&& bodies.contains(h.victim)
                    &&& factions.contains_key(h.victim)
                    &&& spec_can_hit(source_faction, factions[h.victim]@)
                }
            &&& kind.remembers_hits() ==> {
                &&& seen.subset_of(seen_after)
                &&& forall|j: int|
                    0 <= j < hits.len() ==> !seen.contains(#[trigger] hits[j].collider)
                        && seen_after.contains(hits[j].collider)
                &&& forall|j1: int, j2: int|
                    0 <= j1 < j2 < hits.len() ==> (#[trigger] hits[j1]).collider != (
                    #[trigger] hits[j2]).collider
            }
        }),
    decreases contacts.len(),
{
    if contacts.len() > 0 {
        let rest = contacts.drop_last();
        lemma_hits_are_hostile_and_once(
            kind,
            hitter,
            source,
            source_faction,
            owners,
            factions,
            bodies,
            rest,
            seen,
        );
        let (hits0, seen0) = resolve_contacts(
            kind,
            hitter,
            source,
            source_faction,
            owners,
            factions,
            bodies,
            rest,
            seen,
        );
        let (hits, seen_after) = resolve_contacts(
            kind,
            hitter,
            source,
            source_faction,
            owners,
            factions,
            bodies,
            contacts,
            seen,
        );
        assert(hits.len() == hits0.len() || hits.len() == hits0.len() + 1);
        assert forall|j: int| 0 <= j < hits0.len() implies #[trigger] hits[j] == hits0[j] by {}
        if hits.len() == hits0.len() + 1 {
            let h = hits[hits0.len() as int];
            assert(contact_target(kind, hitter, source, source_faction, owners, factions, contacts.last())
                == Some(h));
        }
    }
}

/// Every entity that a collider key names is a valid key of the component sets.
pub open spec fn owners_in_range(owners: Map<u64, usize>, capacity: nat) -> bool {
    forall|k: u64| #[trigger] owners.contains_key(k) ==> (owners[k] as nat) < capacity
}

/// The hits of one hitter this tick. `contacts` are the contacts that the physics
/// engine reports for the hitter's collider `hitter`, `owners` names the entity of
/// each collider, and `bodies` holds the entities with a physics body; `seen` is the
/// set of colliders the hitter has already hurt, and grows by those it hurts now.
pub fn resolve_hits<B>(
    kind: Hitter,
    hitter: u64,
    source: usize,
    source_faction: &str,
    contacts: &Vec<Contact>,
    owners: &HashMap<u64, usize>,
    factions: &SparseSet<String>,
    bodies: &SparseSet<B>,
    seen: &mut HashSet<u64>,
) -> (hits: Vec<Hit>)
    requires
        factions.wf(),
        bodies.wf(),
        owners_in_range(owners@, factions.spec_capacity()),
        owners_in_range(owners@, bodies.spec_capacity()),
    ensures
        (hits@, final(seen)@) == resolve_contacts(
            kind,
            hitter,
            source,
            source_faction@,
            owners@,
            factions@,
            bodies@.dom(),
            contacts@,
            old(seen)@,
        ),
{
    let mut hits: Vec<Hit> = Vec::new();
    let mut i: usize = 0;
    while i < contacts.len()
        invariant
            i <= contacts.len(),
            factions.wf(),
            bodies.wf(),
            owners_in_range(owners@, factions.spec_capacity()),
            owners_in_range(owners@, bodies.spec_capacity()),
            (hits@, seen@) == resolve_contacts(
                kind,
                hitter,
                source,
                source_faction@,
                owners@,
                factions@,
                bodies@.dom(),
                contacts@.take(i as int),
                old(seen)@,
            ),
        decreases contacts.len() - i,
    {
        let c = contacts[i];
        assert(contacts@.take(i as int + 1).drop_last() =~= contacts@.take(i as int));
        assert(contacts@.take(i as int + 1).last() == c);
        let other = match kind {
            Hitter::Weapon { body } => if !c.intersecting || c.first == body || c.second == body {
                None
            } else if c.first == hitter {
                Some(c.second)
            } else {
                Some(c.first)
            },
            _ => if !c.intersecting {
                None
            } else if c.first == hitter {
                Some(c.second)
            } else if c.second == hitter {
                Some(c.first)
            } else {
                None
            },
        };
        assert(other == other_collider(kind, hitter, c));
        if let Some(o) = other {
            if let Some(v) = owners.get(&o) {
                let victim = *v;
                if victim != source {
                    if let Some(vf) = factions.get(victim) {
                        if can_hit(source_faction, vf.as_str()) {
                            let remembers = match kind {
                                Hitter::Projectile => false,
                                _ => true,
                            };
                            let fresh = if remembers {
                                seen.insert(o)
                            } else {
                                true
                            };
                            if fresh && bodies.contains(victim) {
                                hits.push(Hit { collider: o, victim });
                            }
                        }
                    }
                }
            }
        }
        i = i + 1;
    }
    assert(contacts@.take(contacts.len() as int) =~= contacts@);
    hits
}

/// The hits of a held weapon this tick. While the swing's damage frames are not
/// active the weapon forgets what it has hit and hurts nothing; a source outside the
/// fight hurts nothing.
pub fn resolve_weapon_hits<B>(
    swing_active: bool,
    weapon: u64,
    body: u64,
    source: usize,
    source_faction: &str,
    contacts: &Vec<Contact>,
    owners: &HashMap<u64, usize>,
    factions: &SparseSet<String>,
    bodies: &SparseSet<B>,
    seen: &mut HashSet<u64>,
) -> (hits: Vec<Hit>)
    requires
        factions.wf(),
        bodies.wf(),
        owners_in_range(owners@, factions.spec_capacity()),
        owners_in_range(owners@, bodies.spec_capacity()),
    ensures
        !swing_active ==> hits@.len() == 0 && final(seen)@ == Set::<u64>::empty(),
        swing_active && !spec_is_combatant(source_faction@) ==> hits@.len() == 0 && final(seen)@
            == old(seen)@,
        swing_active && spec_is_combatant(source_faction@) ==> (hits@, final(seen)@)
            == resolve_contacts(
            Hitter::Weapon { body },
            weapon,
            source,
            source_faction@,
            owners@,
            factions@,
            bodies@.dom(),
            contacts@,
            old(seen)@,
        ),
{
    if !swing_active {
        seen.clear();
        return Vec::new();
    }
    if !crate::combat::is_combatant(source_faction) {
        return Vec::new();
    }
    resolve_hits(
        Hitter::Weapon { body },
        weapon,
        source,
        source_faction,
        contacts,
        owners,
        factions,
        bodies,
        seen,
    )
}

/// The hits of a damage volume on one of its damage ticks: it forgets what it hurt on
/// the tick before, so each collider inside it is hurt once per tick. A source outside
/// the fight hurts nothing and leaves the set as it was.
pub fn resolve_volume_hits<B>(
    volume: u64,
    source: usize,
    source_faction: &str,
    contacts: &Vec<Contact>,
    owners: &HashMap<u64, usize>,
    factions: &SparseSet<String>,
    bodies: &SparseSet<B>,
    seen: &mut HashSet<u64>,
) -> (hits: Vec<Hit>)
    requires
        factions.wf(),
        bodies.wf(),
        owners_in_range(owners@, factions.spec_capacity()),
        owners_in_range(owners@, bodies.spec_capacity()),
    ensures
        !spec_is_combatant(source_faction@) ==> hits@.len() == 0 && final(seen)@ == old(seen)@,
        spec_is_combatant(source_faction@) ==> (hits@, final(seen)@) == resolve_contacts(
            Hitter::Volume,
            volume,
            source,
            source_faction@,
            owners@,
            factions@,
            bodies@.dom(),
            contacts@,
            Set::<u64>::empty(),
        ),
{
    if !crate::combat::is_combatant(source_faction) {
        return Vec::new();
    }
    seen.clear();
    resolve_hits(
        Hitter::Volume,
        volume,
        source,
        source_faction,
        contacts,
        owners,
        factions,
        bodies,
        seen,
    )
}

/// The hits of a projectile: every intersecting contact with a hostile entity that has a
/// body, with no memory between contacts. A source outside the fight hurts nothing.
pub fn resolve_projectile_hits<B>(
    projectile: u64,
    source: usize,
    source_faction: &str,
    contacts: &Vec<Contact>,
    owners: &HashMap<u64, usize>,
    factions: &SparseSet<String>,
    bodies: &SparseSet<B>,
) -> (hits: Vec<Hit>)
    requires
        factions.wf(),
        bodies.wf(),
        owners_in_range(owners@, factions.spec_capacity()),
        owners_in_range(owners@, bodies.spec_capacity()),
    ensures
        !spec_is_combatant(source_faction@) ==> hits@.len() == 0,
        spec_is_combatant(source_faction@) ==> hits@ == resolve_contacts(
            Hitter::Projectile,
            projectile,
            source,
            source_faction@,
            owners@,
            factions@,
            bodies@.dom(),
            contacts@,
            Set::<u64>::empty(),
        ).0,
{
    if !crate::combat::is_combatant(source_faction) {
        return Vec::new();
    }
    let mut unused: HashSet<u64> = HashSet::new();
    resolve_hits(
        Hitter::Projectile,
        projectile,
        source,
        source_faction,
        contacts,
        owners,
        factions,
        bodies,
        &mut unused,
    )
}

/// The collider across a contact from the hitter's collider `hitter`, whichever side of
/// the contact the hitter's collider stands on.
pub open spec fn across(hitter: u64, c: Contact) -> u64 {
    if c.first == hitter {
        c.second
    } else {
        c.first
    }
}

/// A contact that ought to hurt someone: the two colliders intersect, one of them is the
/// hitter's, neither is the collider of the body that swings a weapon, and the collider
/// across belongs to an entity with a body, other than the source, that the source may
/// hit; for a hitter that remembers its hits, the collider across was not hurt before.
pub open spec fn hurts(
    kind: Hitter,
    hitter: u64,
    source: usize,
    source_faction: Seq<char>,
    owners: Map<u64, usize>,
    factions: Map<usize, String>,
    bodies: Set<usize>,
    seen: Set<u64>,
    c: Contact,
) -> bool {
    let o = across(hitter, c);
    &&& c.intersecting
    &&& (c.first == hitter || c.second == hitter)
    &&& (kind matches Hitter::Weapon { body } ==> c.first != body && c.second != body)
    &&& owners.contains_key(o)
    &&& owners[o] != source
    &&& factions.contains_key(owners[o])
    &&& spec_can_hit(source_faction, factions[owners[o]]@)
    &&& bodies.contains(owners[o])
    &&& !(kind.remembers_hits() && seen.contains(o))
}

/// Every contact that ought to hurt someone hurts its owner: the hits include a hit on
/// the collider across it, whichever of its two sides the hitter's collider is on; and
/// every collider a remembering hitter newly remembers belongs to an owner, and was hit
/// when that owner has a body.
pub proof fn lemma_hits_are_complete(
    kind: Hitter,
    hitter: u64,
    source: usize,
    source_faction: Seq<char>,
    owners: Map<u64, usize>,
    factions: Map<usize, String>,
    bodies: Set<usize>,
    contacts: Seq<Contact>,
    seen: Set<u64>,
)
    ensures
        ({
            let (hits, seen_after) = resolve_contacts(
                kind,
                hitter,
                source,
                source_faction,
                owners,
                factions,
                bodies,
                contacts,
                seen,
            );
            &&& forall|i: int|
                0 <= i < contacts.len() && hurts(
                    kind,
                    hitter,
                    source,
                    source_faction,
                    owners,
                    factions,
                    bodies,
                    seen,
                    #[trigger] contacts[i],
                ) ==> hits.contains(
                    Hit { collider: across(hitter, contacts[i]), victim: owners[across(hitter, contacts[i])] },
                )
            &&& forall|o: u64|
                #[trigger] seen_after.contains(o) && !seen.contains(o) ==> owners.contains_key(o) && (
                bodies.contains(owners[o]) ==> hits.contains(Hit { collider: o, victim: owners[o] }))
        }),
    decreases contacts.len(),
{
    if contacts.len() > 0 {
        let rest = contacts.drop_last();
        lemma_hits_are_complete(
            kind,
            hitter,
            source,
            source_faction,
            owners,
            factions,
            bodies,
            rest,
            seen,
        );
        let (hits0, seen0) = resolve_contacts(
            kind,
            hitter,
            source,
            source_faction,
            owners,
            factions,
            bodies,
            rest,
            seen,
        );
        let (hits, seen_after) = resolve_contacts(
            kind,
            hitter,
            source,
            source_faction,
            owners,
            factions,
            bodies,
            contacts,
            seen,
        );
        assert(hits.len() == hits0.len() || hits.len() == hits0.len() + 1);
        assert forall|j: int| 0 <= j < hits0.len() implies #[trigger] hits[j] == hits0[j] by {}
        assert forall|h: Hit| hits0.contains(h) implies hits.contains(h) by {
            let j = choose|j: int| 0 <= j < hits0.len() && hits0[j] == h;
            assert(hits[j] == h);
        }
        let last = contacts.last();
        assert forall|i: int|
            0 <= i < contacts.len() && hurts(
                kind,
                hitter,
                source,
                source_faction,
                owners,
                factions,
                bodies,
                seen,
                #[trigger] contacts[i],
            ) implies hits.contains(
            Hit { collider: across(hitter, contacts[i]), victim: owners[across(hitter, contacts[i])] },
        ) by {
            if i < contacts.len() - 1 {
                assert(rest[i] == contacts[i]);
            } else {
                let o = across(hitter, last);
                assert(other_collider(kind, hitter, last) == Some(o));
                let h = Hit { collider: o, victim: owners[o] };
                assert(contact_target(kind, hitter, source, source_faction, owners, factions, last)
                    == Some(h));
                if kind.remembers_hits() && seen0.contains(o) {
                    assert(hits0.contains(h));
                } else {
                    assert(hits == hits0.push(h));
                    assert(hits[hits0.len() as int] == h);
                }
            }
        }
        assert forall|o: u64|
            #[trigger] seen_after.contains(o) && !seen.contains(o) implies owners.contains_key(o) && (
            bodies.contains(owners[o]) ==> hits.contains(Hit { collider: o, victim: owners[o] })) by {
            if !seen0.contains(o) {
                let t = contact_target(kind, hitter, source, source_faction, owners, factions, last);
                assert(t is Some && t->0.collider == o);
                if bodies.contains(owners[o]) {
                    assert(hits == hits0.push(t->0));
                    assert(hits[hits0.len() as int] == t->0);
                }
            }
        }
    }
}

/// A contact with the two colliders listed the other way round.
pub open spec fn swapped(c: Contact) -> Contact {
    Contact { first: c.second, second: c.first, intersecting: c.intersecting }
}

/// The hits and the remembered colliders do not depend on the order in which the
/// physics engine lists the two colliders of a contact. For a weapon this holds of
/// contacts that involve the weapon's collider, the only ones the engine reports for it.
pub proof fn lemma_hits_ignore_collider_order(
    kind: Hitter,
    hitter: u64,
    source: usize,
    source_faction: Seq<char>,
    owners: Map<u64, usize>,
    factions: Map<usize, String>,
    bodies: Set<usize>,
    contacts: Seq<Contact>,
    seen: Set<u64>,
)
    requires
        kind is Weapon ==> forall|i: int|
            0 <= i < contacts.len() ==> (#[trigger] contacts[i]).first == hitter || contacts[i].second
                == hitter,
    ensures
        resolve_contacts(
            kind,
            hitter,
            source,
            source_faction,
            owners,
            factions,
            bodies,
            contacts.map_values(|c: Contact| swapped(c)),
            seen,
        ) == resolve_contacts(
            kind,
            hitter,
            source,
            source_faction,
            owners,
            factions,
            bodies,
            contacts,
            seen,
        ),
    decreases contacts.len(),
{
    if contacts.len() > 0 {
        let rest = contacts.drop_last();
        let flipped = contacts.map_values(|c: Contact| swapped(c));
        assert(flipped.drop_last() =~= rest.map_values(|c: Contact| swapped(c)));
        assert(flipped.last() == swapped(contacts.last()));
        assert(kind is Weapon ==> forall|i: int|
            0 <= i < rest.len() ==> (#[trigger] rest[i]).first == hitter || rest[i].second == hitter) by {
            if kind is Weapon {
                assert forall|i: int| 0 <= i < rest.len() implies (#[trigger] rest[i]).first == hitter
                    || rest[i].second == hitter by {
                    assert(rest[i] == contacts[i]);
                }
            }
        }
        lemma_hits_ignore_collider_order(
            kind,
            hitter,
            source,
            source_faction,
            owners,
            factions,
            bodies,
            rest,
            seen,
        );
        let c = contacts.last();
        if kind is Weapon {
            assert(contacts[contacts.len() - 1] == c);
        }
        assert(other_collider(kind, hitter, swapped(c)) == other_collider(kind, hitter, c));
    }
}

} // verus!

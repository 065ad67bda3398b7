//! Weapon abilities: the fixed basic attacks and dodge of each weapon category, and
//! the skills and ultimate that a weapon draws at random from its category's pools.
use rand::seq::{IndexedRandom, SliceRandom};
use rand_chacha::ChaCha8Rng;
use vstd::prelude::*;

verus! {

/// Identifies an ability.
pub type AbilityId = u32;

/// The random number generator that weapons draw their abilities with.
#[verifier::external_type_specification]
#[verifier::external_body]
pub struct ExChaCha8Rng(ChaCha8Rng);

/// Shuffles `pool` in place with `rng`, through `SliceRandom::shuffle` of the `rand`
/// crate. Its source permutes the slice by swaps (a Fisher-Yates shuffle), so the
/// contract states that the same ids remain, each as often as before; which order
/// comes out depends on the generator and is left unsaid.
#[verifier::external_body]
fn shuffle_ids(pool: &mut Vec<AbilityId>, rng: &mut ChaCha8Rng)
    ensures
        final(pool)@.len() == old(pool)@.len(),
        final(pool)@.to_multiset() == old(pool)@.to_multiset(),
{
    pool.as_mut_slice().shuffle(rng)
}

/// Picks an element of `pool` with `rng`, through `IndexedRandom::choose` of the
/// `rand` crate: None exactly when the pool is empty, else one of its elements; which
/// one depends on the generator and is left unsaid.
#[verifier::external_body]
fn choose_id(pool: &Vec<AbilityId>, rng: &mut ChaCha8Rng) -> (r: Option<AbilityId>)
    ensures
        r is None <==> pool@.len() == 0,
        r matches Some(x) ==> pool@.contains(x),
{
    pool.as_slice().choose(rng).copied()
}

/// A weapon category: fixed basic attacks and dodge, and the pools its skills and
/// ultimate are drawn from.
#[derive(Debug)]
pub struct WeaponTypeAbilities {
    pub m1: AbilityId,
    pub m2: AbilityId,
    pub shift: AbilityId,
    /// Q and E are picked from here
    pub skill_pool: Vec<AbilityId>,
    /// R is picked from here
    pub ultimate_pool: Vec<AbilityId>,
}

/// The fixed skills of the player's starting weapon.
#[derive(Debug)]
pub struct StarterAbilities {
    pub entity_type: String,
    pub q: AbilityId,
    pub e: AbilityId,
    pub r: AbilityId,
}

/// The weapon categories, which entity types belong to which category, and the
/// starter weapon. Each table is a list of (name, entry) pairs; a lookup takes the
/// first pair with the name.
#[derive(Debug)]
pub struct WeaponPoolsConfig {
    /// weapon category definitions, by category name ("Sword", "Axe", ...)
    pub weapon_types: Vec<(String, WeaponTypeAbilities)>,
    /// the category of each weapon entity type ("OrcSword" -> "Sword", ...)
    pub entity_type_mapping: Vec<(String, String)>,
    /// fixed abilities for the player's starting weapon
    pub starter_abilities: Option<StarterAbilities>,
}

/// The abilities assigned to one weapon, by slot.
#[derive(Debug, Clone, Copy, PartialEq, Eq, Structural)]
pub struct WeaponAbilities {
    pub m1: Option<AbilityId>,
    pub m2: Option<AbilityId>,
    pub q: Option<AbilityId>,
    pub e: Option<AbilityId>,
    pub shift: Option<AbilityId>,
    pub r: Option<AbilityId>,
}

/// The entry of the first pair named `key`.
pub open spec fn lookup<V>(pairs: Seq<(String, V)>, key: Seq<char>) -> Option<V>
    decreases pairs.len(),
{
    if pairs.len() == 0 {
        None
    } else if pairs[0].0@ == key {
        Some(pairs[0].1)
    } else {
        lookup(pairs.drop_first(), key)
    }
}

/// The position of the first pair named `key`.
fn find_key<V>(pairs: &Vec<(String, V)>, key: &str) -> (r: Option<usize>)
    ensures
        r matches Some(i) ==> i < pairs@.len() && lookup(pairs@, key@) == Some(pairs@[i as int].1),
        r is None ==> lookup(pairs@, key@) is None,
{
    let mut i: usize = 0;
    assert(pairs@.skip(0) =~= pairs@);
    while i < pairs.len()
        invariant
            i <= pairs@.len(),
            lookup(pairs@, key@) == lookup(pairs@.skip(i as int), key@),
        decreases pairs@.len() - i,
    {
        proof {
            let rest = pairs@.skip(i as int);
            assert(rest[0] == pairs@[i as int]);
            assert(rest.drop_first() =~= pairs@.skip(i + 1));
        }
        if crate::enums_types::str_eq(pairs[i].0.as_str(), key) {
            return Some(i);
        }
        i = i + 1;
    }
    None
}

fn copy_ids(v: &Vec<AbilityId>) -> (r: Vec<AbilityId>)
    ensures
        r@ == v@,
{
    let mut r: Vec<AbilityId> = Vec::new();
    let mut i: usize = 0;
    while i < v.len()
        invariant
            i <= v@.len(),
            r@ == v@.take(i as int),
        decreases v@.len() - i,
    {
        r.push(v[i]);
        assert(r@ =~= v@.take(i + 1));
        i = i + 1;
    }
    assert(v@.take(v@.len() as int) =~= v@);
    r
}

/// The element at `i`, if there is one.
pub open spec fn nth(s: Seq<AbilityId>, i: int) -> Option<AbilityId> {
    if 0 <= i < s.len() {
        Some(s[i])
    } else {
        None
    }
}

/// The abilities of a weapon of category `wt` whose skill pool came out of the
/// shuffle as `skills` and whose ultimate pool gave `ultimate`: the fixed slots from
/// the category, Q and E the first two shuffled skills.
pub open spec fn spec_from_draw(wt: WeaponTypeAbilities, skills: Seq<AbilityId>, ultimate: Option<AbilityId>) -> WeaponAbilities {
    WeaponAbilities {
        m1: Some(wt.m1),
        m2: Some(wt.m2),
        q: nth(skills, 0),
        e: nth(skills, 1),
        shift: Some(wt.shift),
        r: ultimate,
    }
}

/// Whether `a` is a possible draw for a weapon of category `wt`: the fixed slots from
/// the category, Q and E two different positions of the skill pool (as many as it
/// has), R an element of the ultimate pool unless that is empty.
pub open spec fn is_possible_draw(wt: WeaponTypeAbilities, a: WeaponAbilities) -> bool {
    let pool = wt.skill_pool@;
    &&& a.m1 == Some(wt.m1)
    &&& a.m2 == Some(wt.m2)
    &&& a.shift == Some(wt.shift)
    &&& (a.q is Some <==> pool.len() >= 1)
    &&& (a.e is Some <==> pool.len() >= 2)
    &&& a.q matches Some(q) ==> pool.contains(q)
    &&& (a.q is Some && a.e is Some) ==> seq![a.q.unwrap(), a.e.unwrap()].to_multiset().subset_of(
        pool.to_multiset(),
    )
    &&& (a.r is Some <==> wt.ultimate_pool@.len() > 0)
    &&& a.r matches Some(r) ==> wt.ultimate_pool@.contains(r)
}

/// What generating abilities for a weapon of `entity_type` can give: nothing when the
/// entity type has no category or its category is not defined; the starter's fixed
/// skills for the starter weapon; otherwise a possible draw from the category's pools.
pub open spec fn generate_outcome_ok(
    entity_type: Seq<char>,
    cfg: WeaponPoolsConfig,
    is_starter: bool,
    r: Option<WeaponAbilities>,
) -> bool {
    match lookup(cfg.entity_type_mapping@, entity_type) {
        None => r is None,
        Some(cat) => match lookup(cfg.weapon_types@, cat@) {
            None => r is None,
            Some(wt) => match r {
                None => false,
                Some(a) => if is_starter && cfg.starter_abilities is Some
                    && cfg.starter_abilities.unwrap().entity_type@ == entity_type {
                    let st = cfg.starter_abilities.unwrap();
                    a == (WeaponAbilities {
                        m1: Some(wt.m1),
                        m2: Some(wt.m2),
                        q: Some(st.q),
                        e: Some(st.e),
                        shift: Some(wt.shift),
                        r: Some(st.r),
                    })
                } else {
                    is_possible_draw(wt, a)
                },
            },
        },
    }
}

impl WeaponAbilities {
    /// The ability in slot `slot_index` (0-5: M1, M2, Q, E, Shift, R); None for an
    /// empty slot or an index past the last slot.
    pub open spec fn spec_slot(&self, slot_index: usize) -> Option<AbilityId> {
        if slot_index == 0 {
            self.m1
        } else if slot_index == 1 {
            self.m2
        } else if slot_index == 2 {
            self.q
        } else if slot_index == 3 {
            self.e
        } else if slot_index == 4 {
            self.shift
        } else if slot_index == 5 {
            self.r
        } else {
            None
        }
    }

    /// The ability in slot `slot_index` (0-5: M1, M2, Q, E, Shift, R).
    pub fn ability_in_slot(&self, slot_index: usize) -> (r: Option<AbilityId>)
        ensures
            r == self.spec_slot(slot_index),
    {
        match slot_index {
            0 => self.m1,
            1 => self.m2,
            2 => self.q,
            3 => self.e,
            4 => self.shift,
            5 => self.r,
            _ => None,
        }
    }

    /// The abilities of a weapon of category `weapon_type` whose skill pool came out
    /// of the shuffle as `shuffled_skills` and whose ultimate pool gave `ultimate`.
    pub fn from_draw(
        weapon_type: &WeaponTypeAbilities,
        shuffled_skills: &Vec<AbilityId>,
        ultimate: Option<AbilityId>,
    ) -> (a: Self)
        ensures
            a == spec_from_draw(*weapon_type, shuffled_skills@, ultimate),
    {
        let q = if shuffled_skills.len() > 0 {
            Some(shuffled_skills[0])
        } else {
            None
        };
        let e = if shuffled_skills.len() > 1 {
            Some(shuffled_skills[1])
        } else {
            None
        };
        Self {
            m1: Some(weapon_type.m1),
            m2: Some(weapon_type.m2),
            q,
            e,
            shift: Some(weapon_type.shift),
            r: ultimate,
        }
    }

    /// Generates abilities for a weapon of `entity_type`; None when the entity type is
    /// not a known weapon.
    pub fn generate(
        entity_type: &str,
        pools_config: &WeaponPoolsConfig,
        rng: &mut ChaCha8Rng,
        is_starter: bool,
    ) -> (r: Option<Self>)
        ensures
            generate_outcome_ok(entity_type@, *pools_config, is_starter, r),
            r is None ==> *final(rng) == *old(rng),
            (is_starter && pools_config.starter_abilities is Some
                && pools_config.starter_abilities.unwrap().entity_type@ == entity_type@)
                ==> *final(rng) == *old(rng),
    {
        let ci = find_key(&pools_config.entity_type_mapping, entity_type)?;
        let category = &pools_config.entity_type_mapping[ci].1;
        let wi = find_key(&pools_config.weapon_types, category.as_str())?;
        let weapon_type = &pools_config.weapon_types[wi].1;
        if is_starter {
            if let Some(starter) = &pools_config.starter_abilities {
                if crate::enums_types::str_eq(starter.entity_type.as_str(), entity_type) {
                    return Some(Self {
                        m1: Some(weapon_type.m1),
                        m2: Some(weapon_type.m2),
                        q: Some(starter.q),
                        e: Some(starter.e),
                        shift: Some(weapon_type.shift),
                        r: Some(starter.r),
                    });
                }
            }
        }
        let mut skill_pool = copy_ids(&weapon_type.skill_pool);
        shuffle_ids(&mut skill_pool, rng);
        let r = choose_id(&weapon_type.ultimate_pool, rng);
        let a = Self::from_draw(weapon_type, &skill_pool, r);
        proof {
            let pool = weapon_type.skill_pool@;
            let sh = skill_pool@;
            sh.to_multiset_ensures();
            pool.to_multiset_ensures();
            if sh.len() >= 1 {
                assert(sh.to_multiset().count(sh[0]) > 0);
                assert(pool.to_multiset().count(sh[0]) > 0);
            }
            if sh.len() >= 2 {
                let pair = seq![sh[0], sh[1]];
                assert(sh =~= pair + sh.skip(2));
                vstd::seq_lib::lemma_multiset_commutative(pair, sh.skip(2));
                assert(pair.to_multiset().subset_of(sh.to_multiset()));
            }
        }
        Some(a)
    }
}

/// All weapons of one category share the category's M1, M2 and Shift abilities,
/// whatever their skills and ultimate came out as.
pub proof fn lemma_fixed_slots_shared_by_category(
    cfg: WeaponPoolsConfig,
    first: Seq<char>,
    second: Seq<char>,
    first_starter: bool,
    second_starter: bool,
    a: WeaponAbilities,
    b: WeaponAbilities,
)
    requires
        lookup(cfg.entity_type_mapping@, first) is Some,
        lookup(cfg.entity_type_mapping@, first) == lookup(cfg.entity_type_mapping@, second),
        generate_outcome_ok(first, cfg, first_starter, Some(a)),
        generate_outcome_ok(second, cfg, second_starter, Some(b)),
    ensures
        a.m1 == b.m1,
        a.m2 == b.m2,
        a.shift == b.shift,
        a.m1 is Some && a.m2 is Some && a.shift is Some,
{
}

/// Each slot index names the ability of one slot, and no index past the sixth names any.
pub proof fn lemma_slots(a: WeaponAbilities, i: usize)
    ensures
        i >= 6 ==> a.spec_slot(i) is None,
        a.spec_slot(0) == a.m1 && a.spec_slot(5) == a.r,
{
}

} // verus!

//! Who may damage whom.
use crate::enums_types::str_eq;
use vstd::prelude::*;

verus! {

/// The factions that fight: the player and the enemies.
pub open spec fn spec_is_combatant(faction: Seq<char>) -> bool {
    faction == "Player"@ || faction == "Enemy"@
}

/// Whether a hit by an entity of `source` lands on an entity of `victim`: both must
/// fight, and on different sides.
pub open spec fn spec_can_hit(source: Seq<char>, victim: Seq<char>) -> bool {
    spec_is_combatant(source) && spec_is_combatant(victim) && source != victim
}

/// Whether entities of this faction take part in combat.
pub fn is_combatant(faction: &str) -> (b: bool)
    ensures
        b == spec_is_combatant(faction@),
{
    str_eq(faction, "Player") || str_eq(faction, "Enemy")
}

/// Whether a hit by an entity of faction `source` damages an entity of faction
/// `victim`.
pub fn can_hit(source: &str, victim: &str) -> (b: bool)
    ensures
        b == spec_can_hit(source@, victim@),
{
    if !is_combatant(source) || !is_combatant(victim) {
        return false;
    }
    if str_eq(source, "Player") && str_eq(victim, "Player") {
        return false;
    }
    if str_eq(source, "Enemy") && str_eq(victim, "Enemy") {
        return false;
    }
    proof {
        reveal_strlit("Player");
        reveal_strlit("Enemy");
        assert("Player"@.len() == 6);
        assert("Enemy"@.len() == 5);
    }
    true
}

/// There is no friendly fire, and hits land both ways between the player and the enemies.
pub proof fn lemma_no_friendly_fire(a: Seq<char>, b: Seq<char>)
    ensures
        !spec_can_hit(a, a),
        spec_can_hit(a, b) == spec_can_hit(b, a),
        spec_can_hit("Player"@, "Enemy"@),
        spec_can_hit("Enemy"@, "Player"@),
{
    reveal_strlit("Player");
    reveal_strlit("Enemy");
    assert("Player"@.len() == 6);
    assert("Enemy"@.len() == 5);
}

} // verus!

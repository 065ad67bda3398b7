//! Which clip a weapon plays for an action that its holder asks for by name: the basic
//! attack walks round the weapon's attack chain, the dash and block have one clip
//! each, and the skills play the clip of the ability in their slot.
use crate::abilities::{AbilityId, WeaponAbilities};
use crate::config::WeaponActionsHelper;
use crate::enums_types::str_eq;
use vstd::prelude::*;

verus! {

/// An action that a weapon's holder can ask for.
#[derive(Debug, Clone, Copy, PartialEq, Eq, Structural)]
pub enum WeaponAction {
    Basic,
    Dash,
    Skill1,
    Skill2,
    Ultimate,
    Block,
}

/// The action a name asks for.
pub open spec fn spec_action_from_name(name: Seq<char>) -> Option<WeaponAction> {
    if name == "basic"@ {
        Some(WeaponAction::Basic)
    } else if name == "dash"@ {
        Some(WeaponAction::Dash)
    } else if name == "skill1"@ {
        Some(WeaponAction::Skill1)
    } else if name == "skill2"@ {
        Some(WeaponAction::Skill2)
    } else if name == "ultimate"@ {
        Some(WeaponAction::Ultimate)
    } else if name == "block"@ {
        Some(WeaponAction::Block)
    } else {
        None
    }
}

impl WeaponAction {
    /// The action a name asks for; None for a name that asks for none.
    pub fn from_name(name: &str) -> (a: Option<WeaponAction>)
        ensures
            a == spec_action_from_name(name@),
    {
        if str_eq(name, "basic") {
            Some(WeaponAction::Basic)
        } else if str_eq(name, "dash") {
            Some(WeaponAction::Dash)
        } else if str_eq(name, "skill1") {
            Some(WeaponAction::Skill1)
        } else if str_eq(name, "skill2") {
            Some(WeaponAction::Skill2)
        } else if str_eq(name, "ultimate") {
            Some(WeaponAction::Ultimate)
        } else if str_eq(name, "block") {
            Some(WeaponAction::Block)
        } else {
            None
        }
    }
}

/// The clip an action plays: a clip named directly, or the clip of an ability.
#[derive(Debug, Clone, PartialEq, Eq)]
pub enum ActionClip {
    Named(String),
    Ability(Option<AbilityId>),
}

/// The names of a list of strings.
pub open spec fn names(v: Seq<String>) -> Seq<Seq<char>> {
    v.map_values(|s: String| s@)
}

/// The chain after one basic attack: its first clip moves to the end.
pub open spec fn turned(chain: Seq<String>) -> Seq<String> {
    chain.drop_first().push(chain[0])
}

/// The chain after `k` basic attacks from `chain`: turned `k` times.
pub open spec fn turned_by(chain: Seq<String>, k: nat) -> Seq<String>
    decreases k,
{
    if k == 0 {
        chain
    } else {
        turned(turned_by(chain, (k - 1) as nat))
    }
}

impl WeaponActionsHelper {
    /// The clip the weapon plays for `action`, with `abilities` the abilities of the
    /// weapon. A basic attack plays the first clip of the chain and turns the chain;
    /// every other action leaves the helper as it is.
    pub fn clip_for_action(&mut self, action: WeaponAction, abilities: &WeaponAbilities) -> (c: ActionClip)
        requires
            action is Basic ==> old(self).basic_chain@.len() > 0,
        ensures
            action is Basic ==> c == ActionClip::Named(old(self).basic_chain@[0]),
            action is Basic ==> final(self).basic_chain@ == turned(old(self).basic_chain@),
            action is Basic ==> final(self).basic_chain_default == old(self).basic_chain_default,
            action is Basic ==> final(self).dash == old(self).dash,
            action is Basic ==> final(self).block == old(self).block,
            !(action is Basic) ==> *final(self) == *old(self),
            action is Dash ==> c == ActionClip::Named(old(self).dash),
            action is Block ==> c == ActionClip::Named(old(self).block),
            action is Skill1 ==> c == ActionClip::Ability(abilities.q),
            action is Skill2 ==> c == ActionClip::Ability(abilities.e),
            action is Ultimate ==> c == ActionClip::Ability(abilities.r),
    {
        match action {
            WeaponAction::Basic => {
                let first = self.basic_chain.remove(0);
                let name = first.clone();
                self.basic_chain.push(first);
                ActionClip::Named(name)
            },
            WeaponAction::Dash => ActionClip::Named(self.dash.clone()),
            WeaponAction::Block => ActionClip::Named(self.block.clone()),
            WeaponAction::Skill1 => ActionClip::Ability(abilities.q),
            WeaponAction::Skill2 => ActionClip::Ability(abilities.e),
            WeaponAction::Ultimate => ActionClip::Ability(abilities.r),
        }
    }

    /// Puts the attack chain back in the order it starts from.
    pub fn reset_attacks(&mut self)
        ensures
            final(self).basic_chain@ == old(self).basic_chain_default@,
            final(self).basic_chain_default == old(self).basic_chain_default,
            final(self).dash == old(self).dash,
            final(self).block == old(self).block,
    {
        let chain = self.basic_chain_default.clone();
        assert(chain@ =~= self.basic_chain_default@);
        self.basic_chain = chain;
    }
}

/// Basic attacks walk round the chain: after `k` of them the chain has turned `k`
/// times, which is the chain rotated by `k` modulo its length, and the next one plays
/// clip `k` modulo the chain's length.
pub proof fn lemma_basic_attacks_cycle(chain: Seq<String>, k: nat)
    requires
        chain.len() > 0,
    ensures
        turned_by(chain, k).len() == chain.len(),
        turned_by(chain, k) == chain.skip((k % chain.len()) as int) + chain.take(
            (k % chain.len()) as int,
        ),
        turned_by(chain, k)[0] == chain[(k % chain.len()) as int],
    decreases k,
{
    let n = chain.len();
    if k == 0 {
        assert(chain.skip(0) + chain.take(0) =~= chain);
    } else {
        lemma_basic_attacks_cycle(chain, (k - 1) as nat);
        let j = ((k - 1) as nat % n) as int;
        let q = ((k - 1) as int) / (n as int);
        let prev = turned_by(chain, (k - 1) as nat);
        assert(prev == chain.skip(j) + chain.take(j));
        assert(prev[0] == chain[j]);
        vstd::arithmetic::div_mod::lemma_fundamental_div_mod((k - 1) as int, n as int);
        assert((k - 1) as int == n * q + j);
        if j + 1 < n {
            assert(k % n == j + 1) by {
                vstd::arithmetic::div_mod::lemma_fundamental_div_mod_converse(k as int, n as int, q, j + 1);
            }
            assert(turned(prev) =~= chain.skip(j + 1) + chain.take(j + 1));
        } else {
            assert(k as int == (q + 1) * n) by (nonlinear_arith)
                requires
                    (k - 1) as int == n * q + j,
                    j + 1 == n,
            ;
            assert(k % n == 0) by {
                vstd::arithmetic::div_mod::lemma_fundamental_div_mod_converse(k as int, n as int, q + 1, 0);
            }
            assert(turned(prev) =~= chain.skip(0) + chain.take(0));
        }
    }
}

/// After as many basic attacks as the chain has clips, the chain is back in the order
/// it started from.
pub proof fn lemma_chain_comes_round(chain: Seq<String>)
    requires
        chain.len() > 0,
    ensures
        turned_by(chain, chain.len()) == chain,
{
    lemma_basic_attacks_cycle(chain, chain.len());
    vstd::arithmetic::div_mod::lemma_mod_self_0(chain.len() as int);
    assert(chain.skip(0) + chain.take(0) =~= chain);
}

} // verus!

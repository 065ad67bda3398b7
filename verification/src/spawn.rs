//! The schedule of enemy rounds: each round spawns its enemies once its timer has run
//! out, and is done when all of its enemies are gone.
use rand::Rng;
use rand_chacha::ChaCha8Rng;
use std::collections::VecDeque;
use vstd::prelude::*;

verus! {

/// One round of enemies: how many, whether it has spawned, and which weapon each
/// enemy carries (chosen at random when not given).
pub struct RoundData {
    amount: u32,
    spawned: bool,
    weapons: Option<Vec<String>>,
}

impl RoundData {
    pub closed spec fn spec_amount(&self) -> u32 {
        self.amount
    }

    pub closed spec fn spec_spawned(&self) -> bool {
        self.spawned
    }

    pub closed spec fn spec_weapons(&self) -> Option<Vec<String>> {
        self.weapons
    }

    /// A round of `amount` enemies that has not spawned yet.
    pub fn new(amount: u32, weapons: Option<Vec<String>>) -> (r: Self)
        ensures
            r.spec_amount() == amount,
            !r.spec_spawned(),
            r.spec_weapons() == weapons,
    {
        RoundData { amount, spawned: false, weapons }
    }

    pub fn amount(&self) -> (r: u32)
        ensures
            r == self.spec_amount(),
    {
        self.amount
    }

    pub fn spawned(&self) -> (r: bool)
        ensures
            r == self.spec_spawned(),
    {
        self.spawned
    }

    pub fn weapons(&self) -> (r: &Option<Vec<String>>)
        ensures
            *r == self.spec_weapons(),
    {
        &self.weapons
    }

    fn mark_spawned(self) -> (r: Self)
        ensures
            r.spec_spawned(),
            r.spec_amount() == self.spec_amount(),
            r.spec_weapons() == self.spec_weapons(),
    {
        RoundData { amount: self.amount, spawned: true, weapons: self.weapons }
    }
}

/// What the schedule did on a tick.
#[derive(Debug, Clone, Copy, PartialEq, Eq, Structural)]
pub enum RoundStep {
    /// spawning is disabled or every round is done
    Nothing,
    /// the current round waits for its timer; the timer advances
    Waiting,
    /// the current round's enemies are to be spawned now and its timer reset
    Spawn,
    /// the current round's enemies are still alive
    InProgress,
    /// the current round is over and has been removed
    Finished,
}

/// The rounds still to come, the current one first.
pub struct RoundSchedule {
    pub rounds: VecDeque<RoundData>,
}

impl RoundSchedule {
    /// The step the schedule takes with spawning `enabled`, the current round's timer
    /// (advanced by this tick) having run out or not, and its enemies all gone or not.
    pub open spec fn spec_step(&self, enabled: bool, timer_elapsed: bool, no_enemies_left: bool) -> RoundStep {
        if !enabled || self.rounds@.len() == 0 {
            RoundStep::Nothing
        } else if !self.rounds@[0].spec_spawned() {
            if timer_elapsed {
                RoundStep::Spawn
            } else {
                RoundStep::Waiting
            }
        } else if no_enemies_left {
            RoundStep::Finished
        } else {
            RoundStep::InProgress
        }
    }

    /// Advances the schedule by one tick.
    pub fn update(&mut self, enabled: bool, timer_elapsed: bool, no_enemies_left: bool) -> (step: RoundStep)
        ensures
            step == old(self).spec_step(enabled, timer_elapsed, no_enemies_left),
            step is Spawn ==> {
                &&& final(self).rounds@.len() == old(self).rounds@.len()
                &&& final(self).rounds@.drop_first() == old(self).rounds@.drop_first()
                &&& final(self).rounds@[0].spec_spawned()
                &&& final(self).rounds@[0].spec_amount() == old(self).rounds@[0].spec_amount()
                &&& final(self).rounds@[0].spec_weapons() == old(self).rounds@[0].spec_weapons()
            },
            step is Finished ==> final(self).rounds@ == old(self).rounds@.drop_first(),
            !(step is Spawn || step is Finished) ==> final(self).rounds@ == old(self).rounds@,
    {
        if !enabled || self.rounds.len() == 0 {
            return RoundStep::Nothing;
        }
        let spawned = self.rounds[0].spawned();
        if !spawned {
            if timer_elapsed {
                let ghost before = self.rounds@;
                let front = self.rounds.pop_front().unwrap();
                self.rounds.push_front(front.mark_spawned());
                assert(self.rounds@.drop_first() =~= before.drop_first());
                return RoundStep::Spawn;
            }
            return RoundStep::Waiting;
        }
        if no_enemies_left {
            let ghost before = self.rounds@;
            self.rounds.pop_front();
            assert(self.rounds@ =~= before.drop_first());
            return RoundStep::Finished;
        }
        RoundStep::InProgress
    }
}

/// Draws an index below `n` with `rng`, through `Rng::random_range` of the `rand`
/// crate on the range `0..n`, which panics on an empty range and otherwise returns a
/// value of the range; which one depends on the generator and is left unsaid.
#[verifier::external_body]
fn random_index(rng: &mut ChaCha8Rng, n: usize) -> (r: usize)
    requires
        n > 0,
    ensures
        r < n,
{
    rng.random_range(0..n)
}

/// The weapon that enemy `i` of a round carries: the round's own list names it, or,
/// when the round names none, one of the enemy weapon types is drawn at random.
pub fn weapon_for_enemy(
    round: &RoundData,
    i: usize,
    weapon_types: &Vec<String>,
    rng: &mut ChaCha8Rng,
) -> (w: String)
    requires
        round.spec_weapons() matches Some(ws) ==> i < ws@.len(),
        round.spec_weapons() is None ==> weapon_types@.len() > 0,
    ensures
        round.spec_weapons() matches Some(ws) ==> w@ == ws@[i as int]@,
        round.spec_weapons() is None ==> exists|k: int|
            0 <= k < weapon_types@.len() && w@ == (#[trigger] weapon_types@[k])@,
{
    match round.weapons() {
        Some(ws) => ws[i].clone(),
        None => {
            let k = random_index(rng, weapon_types.len());
            weapon_types[k].clone()
        },
    }
}

/// The rounds a game starts with: one enemy with an orc sword, then two with an orc
/// sword and a double axe, then four with two orc swords, a double axe and a fire
/// staff.
pub fn default_rounds() -> (s: RoundSchedule)
    ensures
        s.rounds@.len() == 3,
        forall|r: int| 0 <= r < 3 ==> !(#[trigger] s.rounds@[r]).spec_spawned(),
        s.rounds@[0].spec_amount() == 1,
        s.rounds@[1].spec_amount() == 2,
        s.rounds@[2].spec_amount() == 4,
        s.rounds@[0].spec_weapons() matches Some(w) && w@.len() == 1 && w@[0]@ == "OrcSword"@,
        s.rounds@[1].spec_weapons() matches Some(w) && w@.len() == 2 && w@[0]@ == "OrcSword"@
            && w@[1]@ == "DoubleAxe"@,
        s.rounds@[2].spec_weapons() matches Some(w) && w@.len() == 4 && w@[0]@ == "OrcSword"@
            && w@[1]@ == "OrcSword"@ && w@[2]@ == "DoubleAxe"@ && w@[3]@ == "FireStaff"@,
{
    let mut rounds: VecDeque<RoundData> = VecDeque::new();
    rounds.push_back(RoundData::new(1, Some(vec!["OrcSword".to_string()])));
    rounds.push_back(
        RoundData::new(2, Some(vec!["OrcSword".to_string(), "DoubleAxe".to_string()])),
    );
    rounds.push_back(
        RoundData::new(
            4,
            Some(
                vec![
                    "OrcSword".to_string(),
                    "OrcSword".to_string(),
                    "DoubleAxe".to_string(),
                    "FireStaff".to_string(),
                ],
            ),
        ),
    );
    RoundSchedule { rounds }
}

/// A round that has spawned never spawns again, and a round is only dropped once it
/// has spawned.
pub proof fn lemma_rounds_spawn_once(s: &RoundSchedule, enabled: bool, timer_elapsed: bool, no_enemies_left: bool)
    requires
        s.rounds@.len() > 0,
    ensures
        s.rounds@[0].spec_spawned() ==> !(s.spec_step(enabled, timer_elapsed, no_enemies_left) is Spawn),
        s.spec_step(enabled, timer_elapsed, no_enemies_left) is Finished ==> s.rounds@[0].spec_spawned(),
{
}

} // verus!

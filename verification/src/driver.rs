//! The resolution driver: lifts a stored base record into a staged character
//! record, runs declare, iterates every contributor round by round until the
//! pending-claim count reaches zero (convergence) or stops shrinking
//! (deadlock), then runs the last pass and finalizes the snapshot.

use vstd::prelude::*;
use crate::character::{Character, FinalCharacter, StuckClaim};
use crate::contributor::Contributor;
use crate::misc::{Alignment, CreatureSize};
use crate::staged::Staged;

verus! {

/// Resolution failure: the pending-claim count stabilized while nonzero. The
/// diagnostic lists every claim that never cleared; the in-progress record is
/// discarded.
#[derive(Debug, PartialEq, Eq)]
pub enum ResolveError {
    Deadlock { stuck: Vec<StuckClaim> },
}

/// The persisted base record: base ability scores, resource pools, and the
/// chosen contributors (a race and any number of further contributors).
#[derive(Debug)]
pub struct StoredCharacter {
    pub name: String,
    pub health: u32,
    pub temp_health: u32,
    pub base_strength: u32,
    pub base_dexterity: u32,
    pub base_constitution: u32,
    pub base_intelligence: u32,
    pub base_wisdom: u32,
    pub base_charisma: u32,
    pub alignment: Alignment,
    pub inspiration: bool,
    pub money: [u32; 5],
    pub race: Contributor,
    pub classes: Vec<Contributor>,
}

/// The summed declare budgets of the first `k` contributors of `cs`.
pub open spec fn budget_upto(cs: Seq<Contributor>, k: int) -> nat
    decreases k,
{
    if k <= 0 {
        0
    } else {
        budget_upto(cs, k - 1) + cs[k - 1].declare_budget()
    }
}

/// Lifts a stored base record into a fresh character record: staged fields
/// wrap the base values, everything derived starts at its default, no claims
/// are pending.
fn from_base(s: &StoredCharacter) -> (c: Character)
    ensures
        c.wf(),
        c.count_spec() == 0,
        c.name.val() == s.name,
        c.health.val() == s.health,
        c.temp_health.val() == s.temp_health,
        c.strength.val() == s.base_strength,
        c.dexterity.val() == s.base_dexterity,
        c.constitution.val() == s.base_constitution,
        c.intelligence.val() == s.base_intelligence,
        c.wisdom.val() == s.base_wisdom,
        c.charisma.val() == s.base_charisma,
        c.total_level.val() == 0,
        c.race_name.val()@ == Seq::<char>::empty(),
        c.class_names.val()@ == Seq::<String>::empty(),
        c.proficiency_bonus.val() == 0,
        c.initiative.val() == 0,
        c.max_health.val() == 0,
        c.strength_modifier.val() == 0,
        c.dexterity_modifier.val() == 0,
        c.constitution_modifier.val() == 0,
        c.intelligence_modifier.val() == 0,
        c.wisdom_modifier.val() == 0,
        c.charisma_modifier.val() == 0,
        c.size.val() == CreatureSize::Unspecified,
        c.skill_proficiencies.val()@.len() == 0,
        c.tool_proficiencies.val()@.len() == 0,
        c.languages.val()@.len() == 0,
        c.walking_speed.val() == 0,
        c.flying_speed.val() == 0,
        c.climbing_speed.val() == 0,
        c.swimming_speed.val() == 0,
        c.burrowing_speed.val() == 0,
        c.attacks_per_action.val() == 0,
        c.saving_throw_notes.val()@.len() == 0,
        c.race_traits@.len() == 0,
        c.class_features@.len() == 0,
        c.background_features@.len() == 0,
        c.feat_features@.len() == 0,
        c.actions@.len() == 0,
        c.bonus_actions@.len() == 0,
        c.reactions@.len() == 0,
        c.money == s.money,
        c.inspiration == s.inspiration,
        c.alignment == s.alignment,
{
    Character {
        name: Staged::new(s.name.clone()),
        total_level: Staged::new(0),
        race_name: Staged::new(String::new()),
        class_names: Staged::new(Vec::new()),
        proficiency_bonus: Staged::new(0),
        initiative: Staged::new(0),
        health: Staged::new(s.health),
        temp_health: Staged::new(s.temp_health),
        max_health: Staged::new(0),
        strength: Staged::new(s.base_strength),
        dexterity: Staged::new(s.base_dexterity),
        constitution: Staged::new(s.base_constitution),
        intelligence: Staged::new(s.base_intelligence),
        wisdom: Staged::new(s.base_wisdom),
        charisma: Staged::new(s.base_charisma),
        strength_modifier: Staged::new(0),
        dexterity_modifier: Staged::new(0),
        constitution_modifier: Staged::new(0),
        intelligence_modifier: Staged::new(0),
        wisdom_modifier: Staged::new(0),
        charisma_modifier: Staged::new(0),
        size: Staged::new(CreatureSize::Unspecified),
        skill_proficiencies: Staged::new(Vec::new()),
        tool_proficiencies: Staged::new(Vec::new()),
        languages: Staged::new(Vec::new()),
        walking_speed: Staged::new(0),
        flying_speed: Staged::new(0),
        climbing_speed: Staged::new(0),
        swimming_speed: Staged::new(0),
        burrowing_speed: Staged::new(0),
        attacks_per_action: Staged::new(0),
        saving_throw_notes: Staged::new(Vec::new()),
        race_traits: Vec::new(),
        class_features: Vec::new(),
        background_features: Vec::new(),
        feat_features: Vec::new(),
        actions: Vec::new(),
        bonus_actions: Vec::new(),
        reactions: Vec::new(),
        money: s.money,
        inspiration: s.inspiration,
        alignment: s.alignment,
    }
}

impl StoredCharacter {
    /// An upper bound on the claims that all contributors together declare.
    pub open spec fn total_budget(&self) -> int {
        self.race.declare_budget() as int + budget_upto(self.classes@, self.classes@.len() as int)
    }

    /// `f` is the base record lifted and finalized with nothing contributed:
    /// base values kept, every derived field at its default, every list empty.
    pub open spec fn is_base_snapshot(&self, f: FinalCharacter) -> bool {
        &&& f.name == self.name
        &&& f.health == self.health
        &&& f.temp_health == self.temp_health
        &&& f.strength == self.base_strength
        &&& f.dexterity == self.base_dexterity
        &&& f.constitution == self.base_constitution
        &&& f.intelligence == self.base_intelligence
        &&& f.wisdom == self.base_wisdom
        &&& f.charisma == self.base_charisma
        &&& f.total_level == 0
        &&& f.race_name@ == Seq::<char>::empty()
        &&& f.class_names@ == Seq::<String>::empty()
        &&& f.proficiency_bonus == 0
        &&& f.initiative == 0
        &&& f.max_health == 0
        &&& f.strength_modifier == 0
        &&& f.dexterity_modifier == 0
        &&& f.constitution_modifier == 0
        &&& f.intelligence_modifier == 0
        &&& f.wisdom_modifier == 0
        &&& f.charisma_modifier == 0
        &&& f.size == CreatureSize::Unspecified
        &&& f.skill_proficiencies@.len() == 0
        &&& f.tool_proficiencies@.len() == 0
        &&& f.languages@.len() == 0
        &&& f.walking_speed == 0
        &&& f.flying_speed == 0
        &&& f.climbing_speed == 0
        &&& f.swimming_speed == 0
        &&& f.burrowing_speed == 0
        &&& f.attacks_per_action == 0
        &&& f.saving_throw_notes@.len() == 0
        &&& f.race_traits@.len() == 0
        &&& f.class_features@.len() == 0
        &&& f.background_features@.len() == 0
        &&& f.feat_features@.len() == 0
        &&& f.actions@.len() == 0
        &&& f.bonus_actions@.len() == 0
        &&& f.reactions@.len() == 0
        &&& f.money == self.money
        &&& f.inspiration == self.inspiration
        &&& f.alignment == self.alignment
    }

    /// Runs one full resolution attempt: declare once, iterate until the
    /// pending count reaches zero or stops shrinking, then the last pass and
    /// the finalized snapshot. A stabilized nonzero count is a deadlock,
    /// reported with every stuck claim; the in-progress record is dropped.
    ///
    /// When no contributor declares any claim, the attempt converges in round
    /// zero and the snapshot is the base record unchanged.
    #[verifier::rlimit(100)]
    pub fn resolve(&self) -> (r: Result<FinalCharacter, ResolveError>)
        requires
            self.total_budget() <= usize::MAX,
        ensures
            self.total_budget() == 0 ==> (r matches Ok(f) && self.is_base_snapshot(f)),
            r matches Err(ResolveError::Deadlock { stuck }) ==> stuck@.len() > 0,
    {
        let mut c = from_base(self);
        let ghost c0 = c;

        self.race.declare(&mut c);
        let mut i: usize = 0;
        while i < self.classes.len()
            invariant
                c.wf(),
                i <= self.classes@.len(),
                self.total_budget() <= usize::MAX,
                c.count_spec() <= self.race.declare_budget() + budget_upto(
                    self.classes@,
                    i as int,
                ),
                self.total_budget() == 0 ==> c == c0 && c.count_spec() == 0,
            decreases self.classes@.len() - i,
        {
            proof {
                assert(budget_upto(self.classes@, i + 1) == budget_upto(self.classes@, i as int)
                    + self.classes@[i as int].declare_budget());
                lemma_budget_monotone(self.classes@, i + 1, self.classes@.len() as int);
                if self.total_budget() == 0 {
                    lemma_budget_upto_zero(self.classes@, i as int, self.classes@.len() as int);
                }
            }
            self.classes[i].declare(&mut c);
            i = i + 1;
        }
        proof {
            lemma_budget_monotone(self.classes@, i as int, self.classes@.len() as int);
        }

        let mut count = c.count_unresolved();
        while count != 0
            invariant
                c.wf(),
                count == c.count_spec(),
                self.total_budget() == 0 ==> count == 0 && c == c0,
            decreases count,
        {
            self.race.iterate(&mut c);
            let mut j: usize = 0;
            while j < self.classes.len()
                invariant
                    c.wf(),
                    j <= self.classes@.len(),
                    c.count_spec() <= count,
                decreases self.classes@.len() - j,
            {
                self.classes[j].iterate(&mut c);
                j = j + 1;
            }
            let new_count = c.count_unresolved();
            if new_count == count {
                let stuck = c.stuck_claims();
                return Err(ResolveError::Deadlock { stuck });
            }
            count = new_count;
        }

        self.race.last(&mut c);
        let mut k: usize = 0;
        while k < self.classes.len()
            invariant
                c.wf(),
                k <= self.classes@.len(),
                c.count_spec() == 0,
                self.total_budget() == 0 ==> c == c0,
            decreases self.classes@.len() - k,
        {
            proof {
                if self.total_budget() == 0 {
                    lemma_budget_upto_zero(self.classes@, k as int, self.classes@.len() as int);
                }
            }
            self.classes[k].last(&mut c);
            k = k + 1;
        }
        Ok(c.finalize())
    }
}

/// When the whole list declares nothing, neither does any one contributor.
proof fn lemma_budget_upto_zero(cs: Seq<Contributor>, k: int, n: int)
    requires
        budget_upto(cs, n) == 0,
        0 <= k < n,
    ensures
        cs[k].declare_budget() == 0,
    decreases n,
{
    if k < n - 1 {
        lemma_budget_upto_zero(cs, k, n - 1);
    }
}

/// A prefix of the contributor list never declares more than the whole list.
proof fn lemma_budget_monotone(cs: Seq<Contributor>, k: int, n: int)
    requires
        k <= n,
    ensures
        budget_upto(cs, k) <= budget_upto(cs, n),
    decreases n - k,
{
    if k < n {
        lemma_budget_monotone(cs, k, n - 1);
    }
}

} // verus!

//! The character record under resolution: an aggregate of staged fields plus
//! append-only feature lists, built once per resolution attempt from a stored
//! base record and consumed by `finalize` into an immutable snapshot.

use vstd::prelude::*;
use crate::feature::{Feature, Move};
use crate::misc::{Alignment, CreatureSize, Language, ProficiencyType, Skill};
use crate::staged::{Phase, Staged};

verus! {

/// Names one staged field of a [`Character`], so that claims can be addressed
/// and reported uniformly.
#[derive(Clone, Copy, PartialEq, Eq, Structural, Debug)]
pub enum FieldName {
    Name,
    TotalLevel,
    RaceName,
    ClassNames,
    ProficiencyBonus,
    Initiative,
    Health,
    TempHealth,
    MaxHealth,
    Strength,
    Dexterity,
    Constitution,
    Intelligence,
    Wisdom,
    Charisma,
    StrengthModifier,
    DexterityModifier,
    ConstitutionModifier,
    IntelligenceModifier,
    WisdomModifier,
    CharismaModifier,
    Size,
    SkillProficiencies,
    ToolProficiencies,
    Languages,
    WalkingSpeed,
    FlyingSpeed,
    ClimbingSpeed,
    SwimmingSpeed,
    BurrowingSpeed,
    AttacksPerAction,
    SavingThrowNotes,
}

/// A value that a scripted contributor can write into a staged field. Only
/// fields of the matching kind accept it; a mismatch is a no-op.
#[derive(Debug, PartialEq, Eq)]
pub enum FieldValue {
    Number(u32),
    Signed(i32),
    Text(String),
    Size(CreatureSize),
}

impl Clone for FieldValue {
    fn clone(&self) -> (r: Self)
        ensures
            r == *self,
    {
        match self {
            FieldValue::Number(x) => FieldValue::Number(*x),
            FieldValue::Signed(x) => FieldValue::Signed(*x),
            FieldValue::Text(s) => FieldValue::Text(s.clone()),
            FieldValue::Size(s) => FieldValue::Size(*s),
        }
    }
}

/// One claim that never cleared, reported when resolution deadlocks.
#[derive(Debug, PartialEq, Eq)]
pub struct StuckClaim {
    pub field: FieldName,
    pub phase: Phase,
    pub who: String,
}

/// The ghost image of a [`StuckClaim`].
pub open spec fn stuck_view(s: StuckClaim) -> (FieldName, Phase, Seq<char>) {
    (s.field, s.phase, s.who@)
}

/// The claims of one field, tagged with that field's name.
pub open spec fn tagged(f: FieldName, cs: Seq<(Phase, Seq<char>)>) -> Seq<
    (FieldName, Phase, Seq<char>),
> {
    cs.map_values(|pc: (Phase, Seq<char>)| (f, pc.0, pc.1))
}

/// The character record while resolution is in progress. Derived stats are
/// staged; the feature lists are append-only and untouched until the last
/// phase; money, inspiration and alignment pass through unchanged.
#[derive(Debug)]
pub struct Character {
    pub name: Staged<String>,
    pub total_level: Staged<u32>,
    pub race_name: Staged<String>,
    pub class_names: Staged<Vec<String>>,
    pub proficiency_bonus: Staged<u32>,
    pub initiative: Staged<i32>,
    pub health: Staged<u32>,
    pub temp_health: Staged<u32>,
    pub max_health: Staged<u32>,
    pub strength: Staged<u32>,
    pub dexterity: Staged<u32>,
    pub constitution: Staged<u32>,
    pub intelligence: Staged<u32>,
    pub wisdom: Staged<u32>,
    pub charisma: Staged<u32>,
    pub strength_modifier: Staged<i32>,
    pub dexterity_modifier: Staged<i32>,
    pub constitution_modifier: Staged<i32>,
    pub intelligence_modifier: Staged<i32>,
    pub wisdom_modifier: Staged<i32>,
    pub charisma_modifier: Staged<i32>,
    pub size: Staged<CreatureSize>,
    pub skill_proficiencies: Staged<Vec<(Skill, ProficiencyType)>>,
    pub tool_proficiencies: Staged<Vec<(String, ProficiencyType)>>,
    pub languages: Staged<Vec<Language>>,
    pub walking_speed: Staged<u32>,
    pub flying_speed: Staged<u32>,
    pub climbing_speed: Staged<u32>,
    pub swimming_speed: Staged<u32>,
    pub burrowing_speed: Staged<u32>,
    pub attacks_per_action: Staged<u32>,
    pub saving_throw_notes: Staged<Vec<String>>,
    pub race_traits: Vec<Feature>,
    pub class_features: Vec<Feature>,
    pub background_features: Vec<Feature>,
    pub feat_features: Vec<Feature>,
    pub actions: Vec<Move>,
    pub bonus_actions: Vec<Move>,
    pub reactions: Vec<Move>,
    pub money: [u32; 5],
    pub inspiration: bool,
    pub alignment: Alignment,
}

impl Character {
    /// Every staged field's claim bookkeeping is well formed.
    pub open spec fn wf(&self) -> bool {
        &&& self.name.wf()
        &&& self.total_level.wf()
        &&& self.race_name.wf()
        &&& self.class_names.wf()
        &&& self.proficiency_bonus.wf()
        &&& self.initiative.wf()
        &&& self.health.wf()
        &&& self.temp_health.wf()
        &&& self.max_health.wf()
        &&& self.strength.wf()
        &&& self.dexterity.wf()
        &&& self.constitution.wf()
        &&& self.intelligence.wf()
        &&& self.wisdom.wf()
        &&& self.charisma.wf()
        &&& self.strength_modifier.wf()
        &&& self.dexterity_modifier.wf()
        &&& self.constitution_modifier.wf()
        &&& self.intelligence_modifier.wf()
        &&& self.wisdom_modifier.wf()
        &&& self.charisma_modifier.wf()
        &&& self.size.wf()
        &&& self.skill_proficiencies.wf()
        &&& self.tool_proficiencies.wf()
        &&& self.languages.wf()
        &&& self.walking_speed.wf()
        &&& self.flying_speed.wf()
        &&& self.climbing_speed.wf()
        &&& self.swimming_speed.wf()
        &&& self.burrowing_speed.wf()
        &&& self.attacks_per_action.wf()
        &&& self.saving_throw_notes.wf()
    }

    /// The aggregate number of pending claims over every staged field.
    pub open spec fn count_spec(&self) -> int {
        self.name.count() as int + self.total_level.count() + self.race_name.count() + self.class_names.count() + self.proficiency_bonus.count() + self.initiative.count() + self.health.count() + self.temp_health.count() + self.max_health.count() + self.strength.count() + self.dexterity.count() + self.constitution.count() + self.intelligence.count() + self.wisdom.count() + self.charisma.count() + self.strength_modifier.count() + self.dexterity_modifier.count() + self.constitution_modifier.count() + self.intelligence_modifier.count() + self.wisdom_modifier.count() + self.charisma_modifier.count() + self.size.count() + self.skill_proficiencies.count() + self.tool_proficiencies.count() + self.languages.count() + self.walking_speed.count() + self.flying_speed.count() + self.climbing_speed.count() + self.swimming_speed.count() + self.burrowing_speed.count() + self.attacks_per_action.count() + self.saving_throw_notes.count()
    }

    /// The aggregate unresolved-claim count driving global convergence.
    pub fn count_unresolved(&self) -> (r: usize)
        requires
            self.count_spec() <= usize::MAX,
        ensures
            r == self.count_spec(),
    {
        let mut t: usize = self.name.count_unresolved();
        t = t + self.total_level.count_unresolved();
        t = t + self.race_name.count_unresolved();
        t = t + self.class_names.count_unresolved();
        t = t + self.proficiency_bonus.count_unresolved();
        t = t + self.initiative.count_unresolved();
        t = t + self.health.count_unresolved();
        t = t + self.temp_health.count_unresolved();
        t = t + self.max_health.count_unresolved();
        t = t + self.strength.count_unresolved();
        t = t + self.dexterity.count_unresolved();
        t = t + self.constitution.count_unresolved();
        t = t + self.intelligence.count_unresolved();
        t = t + self.wisdom.count_unresolved();
        t = t + self.charisma.count_unresolved();
        t = t + self.strength_modifier.count_unresolved();
        t = t + self.dexterity_modifier.count_unresolved();
        t = t + self.constitution_modifier.count_unresolved();
        t = t + self.intelligence_modifier.count_unresolved();
        t = t + self.wisdom_modifier.count_unresolved();
        t = t + self.charisma_modifier.count_unresolved();
        t = t + self.size.count_unresolved();
        t = t + self.skill_proficiencies.count_unresolved();
        t = t + self.tool_proficiencies.count_unresolved();
        t = t + self.languages.count_unresolved();
        t = t + self.walking_speed.count_unresolved();
        t = t + self.flying_speed.count_unresolved();
        t = t + self.climbing_speed.count_unresolved();
        t = t + self.swimming_speed.count_unresolved();
        t = t + self.burrowing_speed.count_unresolved();
        t = t + self.attacks_per_action.count_unresolved();
        t = t + self.saving_throw_notes.count_unresolved();
        t
    }
}


impl Character {
    /// Every claim set of every staged field of `b` equals that of `a`; only
    /// values and lists may differ.
    pub open spec fn same_claims(a: Self, b: Self) -> bool {
        &&& Staged::same_claims(a.name, b.name)
        &&& Staged::same_claims(a.total_level, b.total_level)
        &&& Staged::same_claims(a.race_name, b.race_name)
        &&& Staged::same_claims(a.class_names, b.class_names)
        &&& Staged::same_claims(a.proficiency_bonus, b.proficiency_bonus)
        &&& Staged::same_claims(a.initiative, b.initiative)
        &&& Staged::same_claims(a.health, b.health)
        &&& Staged::same_claims(a.temp_health, b.temp_health)
        &&& Staged::same_claims(a.max_health, b.max_health)
        &&& Staged::same_claims(a.strength, b.strength)
        &&& Staged::same_claims(a.dexterity, b.dexterity)
        &&& Staged::same_claims(a.constitution, b.constitution)
        &&& Staged::same_claims(a.intelligence, b.intelligence)
        &&& Staged::same_claims(a.wisdom, b.wisdom)
        &&& Staged::same_claims(a.charisma, b.charisma)
        &&& Staged::same_claims(a.strength_modifier, b.strength_modifier)
        &&& Staged::same_claims(a.dexterity_modifier, b.dexterity_modifier)
        &&& Staged::same_claims(a.constitution_modifier, b.constitution_modifier)
        &&& Staged::same_claims(a.intelligence_modifier, b.intelligence_modifier)
        &&& Staged::same_claims(a.wisdom_modifier, b.wisdom_modifier)
        &&& Staged::same_claims(a.charisma_modifier, b.charisma_modifier)
        &&& Staged::same_claims(a.size, b.size)
        &&& Staged::same_claims(a.skill_proficiencies, b.skill_proficiencies)
        &&& Staged::same_claims(a.tool_proficiencies, b.tool_proficiencies)
        &&& Staged::same_claims(a.languages, b.languages)
        &&& Staged::same_claims(a.walking_speed, b.walking_speed)
        &&& Staged::same_claims(a.flying_speed, b.flying_speed)
        &&& Staged::same_claims(a.climbing_speed, b.climbing_speed)
        &&& Staged::same_claims(a.swimming_speed, b.swimming_speed)
        &&& Staged::same_claims(a.burrowing_speed, b.burrowing_speed)
        &&& Staged::same_claims(a.attacks_per_action, b.attacks_per_action)
        &&& Staged::same_claims(a.saving_throw_notes, b.saving_throw_notes)
    }


    /// Every staged value, feature list and plain field of `b` equals that of
    /// `a`: only claim bookkeeping may differ.
    pub open spec fn same_values(a: Self, b: Self) -> bool {
        &&& b.name.val() == a.name.val()
        &&& b.total_level.val() == a.total_level.val()
        &&& b.race_name.val() == a.race_name.val()
        &&& b.class_names.val() == a.class_names.val()
        &&& b.proficiency_bonus.val() == a.proficiency_bonus.val()
        &&& b.initiative.val() == a.initiative.val()
        &&& b.health.val() == a.health.val()
        &&& b.temp_health.val() == a.temp_health.val()
        &&& b.max_health.val() == a.max_health.val()
        &&& b.strength.val() == a.strength.val()
        &&& b.dexterity.val() == a.dexterity.val()
        &&& b.constitution.val() == a.constitution.val()
        &&& b.intelligence.val() == a.intelligence.val()
        &&& b.wisdom.val() == a.wisdom.val()
        &&& b.charisma.val() == a.charisma.val()
        &&& b.strength_modifier.val() == a.strength_modifier.val()
        &&& b.dexterity_modifier.val() == a.dexterity_modifier.val()
        &&& b.constitution_modifier.val() == a.constitution_modifier.val()
        &&& b.intelligence_modifier.val() == a.intelligence_modifier.val()
        &&& b.wisdom_modifier.val() == a.wisdom_modifier.val()
        &&& b.charisma_modifier.val() == a.charisma_modifier.val()
        &&& b.size.val() == a.size.val()
        &&& b.skill_proficiencies.val() == a.skill_proficiencies.val()
        &&& b.tool_proficiencies.val() == a.tool_proficiencies.val()
        &&& b.languages.val() == a.languages.val()
        &&& b.walking_speed.val() == a.walking_speed.val()
        &&& b.flying_speed.val() == a.flying_speed.val()
        &&& b.climbing_speed.val() == a.climbing_speed.val()
        &&& b.swimming_speed.val() == a.swimming_speed.val()
        &&& b.burrowing_speed.val() == a.burrowing_speed.val()
        &&& b.attacks_per_action.val() == a.attacks_per_action.val()
        &&& b.saving_throw_notes.val() == a.saving_throw_notes.val()
        &&& b.race_traits == a.race_traits
        &&& b.class_features == a.class_features
        &&& b.background_features == a.background_features
        &&& b.feat_features == a.feat_features
        &&& b.actions == a.actions
        &&& b.bonus_actions == a.bonus_actions
        &&& b.reactions == a.reactions
        &&& b.money == a.money
        &&& b.inspiration == a.inspiration
        &&& b.alignment == a.alignment
    }


    /// Going from `a` to `b` only inserted claims: every claim set of `a` is
    /// contained in the corresponding set of `b`.
    pub open spec fn claims_grow(a: Self, b: Self) -> bool {
        &&& Staged::grows(a.name, b.name)
        &&& Staged::grows(a.total_level, b.total_level)
        &&& Staged::grows(a.race_name, b.race_name)
        &&& Staged::grows(a.class_names, b.class_names)
        &&& Staged::grows(a.proficiency_bonus, b.proficiency_bonus)
        &&& Staged::grows(a.initiative, b.initiative)
        &&& Staged::grows(a.health, b.health)
        &&& Staged::grows(a.temp_health, b.temp_health)
        &&& Staged::grows(a.max_health, b.max_health)
        &&& Staged::grows(a.strength, b.strength)
        &&& Staged::grows(a.dexterity, b.dexterity)
        &&& Staged::grows(a.constitution, b.constitution)
        &&& Staged::grows(a.intelligence, b.intelligence)
        &&& Staged::grows(a.wisdom, b.wisdom)
        &&& Staged::grows(a.charisma, b.charisma)
        &&& Staged::grows(a.strength_modifier, b.strength_modifier)
        &&& Staged::grows(a.dexterity_modifier, b.dexterity_modifier)
        &&& Staged::grows(a.constitution_modifier, b.constitution_modifier)
        &&& Staged::grows(a.intelligence_modifier, b.intelligence_modifier)
        &&& Staged::grows(a.wisdom_modifier, b.wisdom_modifier)
        &&& Staged::grows(a.charisma_modifier, b.charisma_modifier)
        &&& Staged::grows(a.size, b.size)
        &&& Staged::grows(a.skill_proficiencies, b.skill_proficiencies)
        &&& Staged::grows(a.tool_proficiencies, b.tool_proficiencies)
        &&& Staged::grows(a.languages, b.languages)
        &&& Staged::grows(a.walking_speed, b.walking_speed)
        &&& Staged::grows(a.flying_speed, b.flying_speed)
        &&& Staged::grows(a.climbing_speed, b.climbing_speed)
        &&& Staged::grows(a.swimming_speed, b.swimming_speed)
        &&& Staged::grows(a.burrowing_speed, b.burrowing_speed)
        &&& Staged::grows(a.attacks_per_action, b.attacks_per_action)
        &&& Staged::grows(a.saving_throw_notes, b.saving_throw_notes)
    }

    /// Going from `a` to `b` only removed claims: every claim set of `b` is
    /// contained in the corresponding set of `a`.
    pub open spec fn claims_shrink(a: Self, b: Self) -> bool {
        &&& Staged::grows(b.name, a.name)
        &&& Staged::grows(b.total_level, a.total_level)
        &&& Staged::grows(b.race_name, a.race_name)
        &&& Staged::grows(b.class_names, a.class_names)
        &&& Staged::grows(b.proficiency_bonus, a.proficiency_bonus)
        &&& Staged::grows(b.initiative, a.initiative)
        &&& Staged::grows(b.health, a.health)
        &&& Staged::grows(b.temp_health, a.temp_health)
        &&& Staged::grows(b.max_health, a.max_health)
        &&& Staged::grows(b.strength, a.strength)
        &&& Staged::grows(b.dexterity, a.dexterity)
        &&& Staged::grows(b.constitution, a.constitution)
        &&& Staged::grows(b.intelligence, a.intelligence)
        &&& Staged::grows(b.wisdom, a.wisdom)
        &&& Staged::grows(b.charisma, a.charisma)
        &&& Staged::grows(b.strength_modifier, a.strength_modifier)
        &&& Staged::grows(b.dexterity_modifier, a.dexterity_modifier)
        &&& Staged::grows(b.constitution_modifier, a.constitution_modifier)
        &&& Staged::grows(b.intelligence_modifier, a.intelligence_modifier)
        &&& Staged::grows(b.wisdom_modifier, a.wisdom_modifier)
        &&& Staged::grows(b.charisma_modifier, a.charisma_modifier)
        &&& Staged::grows(b.size, a.size)
        &&& Staged::grows(b.skill_proficiencies, a.skill_proficiencies)
        &&& Staged::grows(b.tool_proficiencies, a.tool_proficiencies)
        &&& Staged::grows(b.languages, a.languages)
        &&& Staged::grows(b.walking_speed, a.walking_speed)
        &&& Staged::grows(b.flying_speed, a.flying_speed)
        &&& Staged::grows(b.climbing_speed, a.climbing_speed)
        &&& Staged::grows(b.swimming_speed, a.swimming_speed)
        &&& Staged::grows(b.burrowing_speed, a.burrowing_speed)
        &&& Staged::grows(b.attacks_per_action, a.attacks_per_action)
        &&& Staged::grows(b.saving_throw_notes, a.saving_throw_notes)
    }

    /// The append-only lists and plain fields of `b` equal those of `a`.
    pub open spec fn same_lists(a: Self, b: Self) -> bool {
        &&& b.race_traits == a.race_traits
        &&& b.class_features == a.class_features
        &&& b.background_features == a.background_features
        &&& b.feat_features == a.feat_features
        &&& b.actions == a.actions
        &&& b.bonus_actions == a.bonus_actions
        &&& b.reactions == a.reactions
        &&& b.money == a.money
        &&& b.inspiration == a.inspiration
        &&& b.alignment == a.alignment
    }

    /// Every staged value of `b` equals that of `a`; claim bookkeeping and
    /// the append-only lists may differ.
    pub open spec fn same_staged_values(a: Self, b: Self) -> bool {
        &&& b.name.val() == a.name.val()
        &&& b.total_level.val() == a.total_level.val()
        &&& b.race_name.val() == a.race_name.val()
        &&& b.class_names.val() == a.class_names.val()
        &&& b.proficiency_bonus.val() == a.proficiency_bonus.val()
        &&& b.initiative.val() == a.initiative.val()
        &&& b.health.val() == a.health.val()
        &&& b.temp_health.val() == a.temp_health.val()
        &&& b.max_health.val() == a.max_health.val()
        &&& b.strength.val() == a.strength.val()
        &&& b.dexterity.val() == a.dexterity.val()
        &&& b.constitution.val() == a.constitution.val()
        &&& b.intelligence.val() == a.intelligence.val()
        &&& b.wisdom.val() == a.wisdom.val()
        &&& b.charisma.val() == a.charisma.val()
        &&& b.strength_modifier.val() == a.strength_modifier.val()
        &&& b.dexterity_modifier.val() == a.dexterity_modifier.val()
        &&& b.constitution_modifier.val() == a.constitution_modifier.val()
        &&& b.intelligence_modifier.val() == a.intelligence_modifier.val()
        &&& b.wisdom_modifier.val() == a.wisdom_modifier.val()
        &&& b.charisma_modifier.val() == a.charisma_modifier.val()
        &&& b.size.val() == a.size.val()
        &&& b.skill_proficiencies.val() == a.skill_proficiencies.val()
        &&& b.tool_proficiencies.val() == a.tool_proficiencies.val()
        &&& b.languages.val() == a.languages.val()
        &&& b.walking_speed.val() == a.walking_speed.val()
        &&& b.flying_speed.val() == a.flying_speed.val()
        &&& b.climbing_speed.val() == a.climbing_speed.val()
        &&& b.swimming_speed.val() == a.swimming_speed.val()
        &&& b.burrowing_speed.val() == a.burrowing_speed.val()
        &&& b.attacks_per_action.val() == a.attacks_per_action.val()
        &&& b.saving_throw_notes.val() == a.saving_throw_notes.val()
    }


    /// The append-only lists of `b` extend those of `a`: nothing already
    /// appended is lost or changed. Money, inspiration and alignment pass
    /// through untouched.
    pub open spec fn lists_extend(a: Self, b: Self) -> bool {
        &&& b.race_traits@.len() >= a.race_traits@.len()
        &&& (forall|j: int| 0 <= j < a.race_traits@.len() ==> b.race_traits@[j] == a.race_traits@[j])
        &&& b.class_features@.len() >= a.class_features@.len()
        &&& (forall|j: int| 0 <= j < a.class_features@.len() ==> b.class_features@[j] == a.class_features@[j])
        &&& b.background_features@.len() >= a.background_features@.len()
        &&& (forall|j: int| 0 <= j < a.background_features@.len() ==> b.background_features@[j] == a.background_features@[j])
        &&& b.feat_features@.len() >= a.feat_features@.len()
        &&& (forall|j: int| 0 <= j < a.feat_features@.len() ==> b.feat_features@[j] == a.feat_features@[j])
        &&& b.actions@.len() >= a.actions@.len()
        &&& (forall|j: int| 0 <= j < a.actions@.len() ==> b.actions@[j] == a.actions@[j])
        &&& b.bonus_actions@.len() >= a.bonus_actions@.len()
        &&& (forall|j: int| 0 <= j < a.bonus_actions@.len() ==> b.bonus_actions@[j] == a.bonus_actions@[j])
        &&& b.reactions@.len() >= a.reactions@.len()
        &&& (forall|j: int| 0 <= j < a.reactions@.len() ==> b.reactions@[j] == a.reactions@[j])
        &&& b.money == a.money
        &&& b.inspiration == a.inspiration
        &&& b.alignment == a.alignment
    }

    /// The claimant ids pending in phase `p` on the field named `f`.
    pub open spec fn claim_set_at(&self, f: FieldName, p: Phase) -> Set<Seq<char>> {
        match f {
            FieldName::Name => self.name.claims_of(p),
            FieldName::TotalLevel => self.total_level.claims_of(p),
            FieldName::RaceName => self.race_name.claims_of(p),
            FieldName::ClassNames => self.class_names.claims_of(p),
            FieldName::ProficiencyBonus => self.proficiency_bonus.claims_of(p),
            FieldName::Initiative => self.initiative.claims_of(p),
            FieldName::Health => self.health.claims_of(p),
            FieldName::TempHealth => self.temp_health.claims_of(p),
            FieldName::MaxHealth => self.max_health.claims_of(p),
            FieldName::Strength => self.strength.claims_of(p),
            FieldName::Dexterity => self.dexterity.claims_of(p),
            FieldName::Constitution => self.constitution.claims_of(p),
            FieldName::Intelligence => self.intelligence.claims_of(p),
            FieldName::Wisdom => self.wisdom.claims_of(p),
            FieldName::Charisma => self.charisma.claims_of(p),
            FieldName::StrengthModifier => self.strength_modifier.claims_of(p),
            FieldName::DexterityModifier => self.dexterity_modifier.claims_of(p),
            FieldName::ConstitutionModifier => self.constitution_modifier.claims_of(p),
            FieldName::IntelligenceModifier => self.intelligence_modifier.claims_of(p),
            FieldName::WisdomModifier => self.wisdom_modifier.claims_of(p),
            FieldName::CharismaModifier => self.charisma_modifier.claims_of(p),
            FieldName::Size => self.size.claims_of(p),
            FieldName::SkillProficiencies => self.skill_proficiencies.claims_of(p),
            FieldName::ToolProficiencies => self.tool_proficiencies.claims_of(p),
            FieldName::Languages => self.languages.claims_of(p),
            FieldName::WalkingSpeed => self.walking_speed.claims_of(p),
            FieldName::FlyingSpeed => self.flying_speed.claims_of(p),
            FieldName::ClimbingSpeed => self.climbing_speed.claims_of(p),
            FieldName::SwimmingSpeed => self.swimming_speed.claims_of(p),
            FieldName::BurrowingSpeed => self.burrowing_speed.claims_of(p),
            FieldName::AttacksPerAction => self.attacks_per_action.claims_of(p),
            FieldName::SavingThrowNotes => self.saving_throw_notes.claims_of(p),
        }
    }

    /// Whether phase `p` may resolve claims on the field named `f`: every
    /// earlier-phase claim set of that field must be empty.
    pub open spec fn gate_at(&self, f: FieldName, p: Phase) -> bool {
        match f {
            FieldName::Name => self.name.gate_open(p),
            FieldName::TotalLevel => self.total_level.gate_open(p),
            FieldName::RaceName => self.race_name.gate_open(p),
            FieldName::ClassNames => self.class_names.gate_open(p),
            FieldName::ProficiencyBonus => self.proficiency_bonus.gate_open(p),
            FieldName::Initiative => self.initiative.gate_open(p),
            FieldName::Health => self.health.gate_open(p),
            FieldName::TempHealth => self.temp_health.gate_open(p),
            FieldName::MaxHealth => self.max_health.gate_open(p),
            FieldName::Strength => self.strength.gate_open(p),
            FieldName::Dexterity => self.dexterity.gate_open(p),
            FieldName::Constitution => self.constitution.gate_open(p),
            FieldName::Intelligence => self.intelligence.gate_open(p),
            FieldName::Wisdom => self.wisdom.gate_open(p),
            FieldName::Charisma => self.charisma.gate_open(p),
            FieldName::StrengthModifier => self.strength_modifier.gate_open(p),
            FieldName::DexterityModifier => self.dexterity_modifier.gate_open(p),
            FieldName::ConstitutionModifier => self.constitution_modifier.gate_open(p),
            FieldName::IntelligenceModifier => self.intelligence_modifier.gate_open(p),
            FieldName::WisdomModifier => self.wisdom_modifier.gate_open(p),
            FieldName::CharismaModifier => self.charisma_modifier.gate_open(p),
            FieldName::Size => self.size.gate_open(p),
            FieldName::SkillProficiencies => self.skill_proficiencies.gate_open(p),
            FieldName::ToolProficiencies => self.tool_proficiencies.gate_open(p),
            FieldName::Languages => self.languages.gate_open(p),
            FieldName::WalkingSpeed => self.walking_speed.gate_open(p),
            FieldName::FlyingSpeed => self.flying_speed.gate_open(p),
            FieldName::ClimbingSpeed => self.climbing_speed.gate_open(p),
            FieldName::SwimmingSpeed => self.swimming_speed.gate_open(p),
            FieldName::BurrowingSpeed => self.burrowing_speed.gate_open(p),
            FieldName::AttacksPerAction => self.attacks_per_action.gate_open(p),
            FieldName::SavingThrowNotes => self.saving_throw_notes.gate_open(p),
        }
    }

    /// Every claim set of every staged field of `b` equals that of `a`,
    /// except possibly those of the field named `f`.
    pub open spec fn claims_except(a: Self, b: Self, f: FieldName) -> bool {
        &&& (f != FieldName::Name ==> Staged::same_claims(a.name, b.name))
        &&& (f != FieldName::TotalLevel ==> Staged::same_claims(a.total_level, b.total_level))
        &&& (f != FieldName::RaceName ==> Staged::same_claims(a.race_name, b.race_name))
        &&& (f != FieldName::ClassNames ==> Staged::same_claims(a.class_names, b.class_names))
        &&& (f != FieldName::ProficiencyBonus ==> Staged::same_claims(a.proficiency_bonus, b.proficiency_bonus))
        &&& (f != FieldName::Initiative ==> Staged::same_claims(a.initiative, b.initiative))
        &&& (f != FieldName::Health ==> Staged::same_claims(a.health, b.health))
        &&& (f != FieldName::TempHealth ==> Staged::same_claims(a.temp_health, b.temp_health))
        &&& (f != FieldName::MaxHealth ==> Staged::same_claims(a.max_health, b.max_health))
        &&& (f != FieldName::Strength ==> Staged::same_claims(a.strength, b.strength))
        &&& (f != FieldName::Dexterity ==> Staged::same_claims(a.dexterity, b.dexterity))
        &&& (f != FieldName::Constitution ==> Staged::same_claims(a.constitution, b.constitution))
        &&& (f != FieldName::Intelligence ==> Staged::same_claims(a.intelligence, b.intelligence))
        &&& (f != FieldName::Wisdom ==> Staged::same_claims(a.wisdom, b.wisdom))
        &&& (f != FieldName::Charisma ==> Staged::same_claims(a.charisma, b.charisma))
        &&& (f != FieldName::StrengthModifier ==> Staged::same_claims(a.strength_modifier, b.strength_modifier))
        &&& (f != FieldName::DexterityModifier ==> Staged::same_claims(a.dexterity_modifier, b.dexterity_modifier))
        &&& (f != FieldName::ConstitutionModifier ==> Staged::same_claims(a.constitution_modifier, b.constitution_modifier))
        &&& (f != FieldName::IntelligenceModifier ==> Staged::same_claims(a.intelligence_modifier, b.intelligence_modifier))
        &&& (f != FieldName::WisdomModifier ==> Staged::same_claims(a.wisdom_modifier, b.wisdom_modifier))
        &&& (f != FieldName::CharismaModifier ==> Staged::same_claims(a.charisma_modifier, b.charisma_modifier))
        &&& (f != FieldName::Size ==> Staged::same_claims(a.size, b.size))
        &&& (f != FieldName::SkillProficiencies ==> Staged::same_claims(a.skill_proficiencies, b.skill_proficiencies))
        &&& (f != FieldName::ToolProficiencies ==> Staged::same_claims(a.tool_proficiencies, b.tool_proficiencies))
        &&& (f != FieldName::Languages ==> Staged::same_claims(a.languages, b.languages))
        &&& (f != FieldName::WalkingSpeed ==> Staged::same_claims(a.walking_speed, b.walking_speed))
        &&& (f != FieldName::FlyingSpeed ==> Staged::same_claims(a.flying_speed, b.flying_speed))
        &&& (f != FieldName::ClimbingSpeed ==> Staged::same_claims(a.climbing_speed, b.climbing_speed))
        &&& (f != FieldName::SwimmingSpeed ==> Staged::same_claims(a.swimming_speed, b.swimming_speed))
        &&& (f != FieldName::BurrowingSpeed ==> Staged::same_claims(a.burrowing_speed, b.burrowing_speed))
        &&& (f != FieldName::AttacksPerAction ==> Staged::same_claims(a.attacks_per_action, b.attacks_per_action))
        &&& (f != FieldName::SavingThrowNotes ==> Staged::same_claims(a.saving_throw_notes, b.saving_throw_notes))
    }

    /// Whether `f` names a field of the core dispatch group.
    pub open spec fn core_field(f: FieldName) -> bool {
        ||| f is Name
        ||| f is TotalLevel
        ||| f is RaceName
        ||| f is ClassNames
        ||| f is ProficiencyBonus
        ||| f is Initiative
        ||| f is Health
        ||| f is TempHealth
        ||| f is MaxHealth
    }

    /// Whether `f` names a field of the abilities dispatch group.
    pub open spec fn abilities_field(f: FieldName) -> bool {
        ||| f is Strength
        ||| f is Dexterity
        ||| f is Constitution
        ||| f is Intelligence
        ||| f is Wisdom
        ||| f is Charisma
    }

    /// Whether `f` names a field of the modifiers dispatch group.
    pub open spec fn modifiers_field(f: FieldName) -> bool {
        ||| f is StrengthModifier
        ||| f is DexterityModifier
        ||| f is ConstitutionModifier
        ||| f is IntelligenceModifier
        ||| f is WisdomModifier
        ||| f is CharismaModifier
    }

    /// Whether `f` names a field of the extras dispatch group.
    pub open spec fn extras_field(f: FieldName) -> bool {
        ||| f is Size
        ||| f is SkillProficiencies
        ||| f is ToolProficiencies
        ||| f is Languages
        ||| f is WalkingSpeed
        ||| f is FlyingSpeed
        ||| f is ClimbingSpeed
        ||| f is SwimmingSpeed
        ||| f is BurrowingSpeed
        ||| f is AttacksPerAction
        ||| f is SavingThrowNotes
    }

    /// Every staged value, feature list and plain field of `b` equals that of
    /// `a`, except possibly the value of the staged field named `f`.
    pub open spec fn values_unchanged_except(a: Self, b: Self, f: FieldName) -> bool {
        &&& (f != FieldName::Name ==> b.name.val() == a.name.val())
        &&& (f != FieldName::TotalLevel ==> b.total_level.val() == a.total_level.val())
        &&& (f != FieldName::RaceName ==> b.race_name.val() == a.race_name.val())
        &&& (f != FieldName::ClassNames ==> b.class_names.val() == a.class_names.val())
        &&& (f != FieldName::ProficiencyBonus ==> b.proficiency_bonus.val() == a.proficiency_bonus.val())
        &&& (f != FieldName::Initiative ==> b.initiative.val() == a.initiative.val())
        &&& (f != FieldName::Health ==> b.health.val() == a.health.val())
        &&& (f != FieldName::TempHealth ==> b.temp_health.val() == a.temp_health.val())
        &&& (f != FieldName::MaxHealth ==> b.max_health.val() == a.max_health.val())
        &&& (f != FieldName::Strength ==> b.strength.val() == a.strength.val())
        &&& (f != FieldName::Dexterity ==> b.dexterity.val() == a.dexterity.val())
        &&& (f != FieldName::Constitution ==> b.constitution.val() == a.constitution.val())
        &&& (f != FieldName::Intelligence ==> b.intelligence.val() == a.intelligence.val())
        &&& (f != FieldName::Wisdom ==> b.wisdom.val() == a.wisdom.val())
        &&& (f != FieldName::Charisma ==> b.charisma.val() == a.charisma.val())
        &&& (f != FieldName::StrengthModifier ==> b.strength_modifier.val() == a.strength_modifier.val())
        &&& (f != FieldName::DexterityModifier ==> b.dexterity_modifier.val() == a.dexterity_modifier.val())
        &&& (f != FieldName::ConstitutionModifier ==> b.constitution_modifier.val() == a.constitution_modifier.val())
        &&& (f != FieldName::IntelligenceModifier ==> b.intelligence_modifier.val() == a.intelligence_modifier.val())
        &&& (f != FieldName::WisdomModifier ==> b.wisdom_modifier.val() == a.wisdom_modifier.val())
        &&& (f != FieldName::CharismaModifier ==> b.charisma_modifier.val() == a.charisma_modifier.val())
        &&& (f != FieldName::Size ==> b.size.val() == a.size.val())
        &&& (f != FieldName::SkillProficiencies ==> b.skill_proficiencies.val() == a.skill_proficiencies.val())
        &&& (f != FieldName::ToolProficiencies ==> b.tool_proficiencies.val() == a.tool_proficiencies.val())
        &&& (f != FieldName::Languages ==> b.languages.val() == a.languages.val())
        &&& (f != FieldName::WalkingSpeed ==> b.walking_speed.val() == a.walking_speed.val())
        &&& (f != FieldName::FlyingSpeed ==> b.flying_speed.val() == a.flying_speed.val())
        &&& (f != FieldName::ClimbingSpeed ==> b.climbing_speed.val() == a.climbing_speed.val())
        &&& (f != FieldName::SwimmingSpeed ==> b.swimming_speed.val() == a.swimming_speed.val())
        &&& (f != FieldName::BurrowingSpeed ==> b.burrowing_speed.val() == a.burrowing_speed.val())
        &&& (f != FieldName::AttacksPerAction ==> b.attacks_per_action.val() == a.attacks_per_action.val())
        &&& (f != FieldName::SavingThrowNotes ==> b.saving_throw_notes.val() == a.saving_throw_notes.val())
        &&& b.race_traits == a.race_traits
        &&& b.class_features == a.class_features
        &&& b.background_features == a.background_features
        &&& b.feat_features == a.feat_features
        &&& b.actions == a.actions
        &&& b.bonus_actions == a.bonus_actions
        &&& b.reactions == a.reactions
        &&& b.money == a.money
        &&& b.inspiration == a.inspiration
        &&& b.alignment == a.alignment
    }

    /// What `set_field` writes: the value of the field named `f` becomes `v`
    /// when the kinds agree, and stays what it was on a kind mismatch.
    pub open spec fn set_field_spec(a: Self, b: Self, f: FieldName, v: FieldValue) -> bool {
        match f {
            FieldName::Name => (match v {
                FieldValue::Text(s) => b.name.val() == s,
                _ => b.name.val() == a.name.val(),
            }),
            FieldName::TotalLevel => (match v {
                FieldValue::Number(n) => b.total_level.val() == n,
                _ => b.total_level.val() == a.total_level.val(),
            }),
            FieldName::RaceName => (match v {
                FieldValue::Text(s) => b.race_name.val() == s,
                _ => b.race_name.val() == a.race_name.val(),
            }),
            FieldName::ClassNames => b.class_names.val() == a.class_names.val(),
            FieldName::ProficiencyBonus => (match v {
                FieldValue::Number(n) => b.proficiency_bonus.val() == n,
                _ => b.proficiency_bonus.val() == a.proficiency_bonus.val(),
            }),
            FieldName::Initiative => (match v {
                FieldValue::Signed(n) => b.initiative.val() == n,
                _ => b.initiative.val() == a.initiative.val(),
            }),
            FieldName::Health => (match v {
                FieldValue::Number(n) => b.health.val() == n,
                _ => b.health.val() == a.health.val(),
            }),
            FieldName::TempHealth => (match v {
                FieldValue::Number(n) => b.temp_health.val() == n,
                _ => b.temp_health.val() == a.temp_health.val(),
            }),
            FieldName::MaxHealth => (match v {
                FieldValue::Number(n) => b.max_health.val() == n,
                _ => b.max_health.val() == a.max_health.val(),
            }),
            FieldName::Strength => (match v {
                FieldValue::Number(n) => b.strength.val() == n,
                _ => b.strength.val() == a.strength.val(),
            }),
            FieldName::Dexterity => (match v {
                FieldValue::Number(n) => b.dexterity.val() == n,
                _ => b.dexterity.val() == a.dexterity.val(),
            }),
            FieldName::Constitution => (match v {
                FieldValue::Number(n) => b.constitution.val() == n,
                _ => b.constitution.val() == a.constitution.val(),
            }),
            FieldName::Intelligence => (match v {
                FieldValue::Number(n) => b.intelligence.val() == n,
                _ => b.intelligence.val() == a.intelligence.val(),
            }),
            FieldName::Wisdom => (match v {
                FieldValue::Number(n) => b.wisdom.val() == n,
                _ => b.wisdom.val() == a.wisdom.val(),
            }),
            FieldName::Charisma => (match v {
                FieldValue::Number(n) => b.charisma.val() == n,
                _ => b.charisma.val() == a.charisma.val(),
            }),
            FieldName::StrengthModifier => (match v {
                FieldValue::Signed(n) => b.strength_modifier.val() == n,
                _ => b.strength_modifier.val() == a.strength_modifier.val(),
            }),
            FieldName::DexterityModifier => (match v {
                FieldValue::Signed(n) => b.dexterity_modifier.val() == n,
                _ => b.dexterity_modifier.val() == a.dexterity_modifier.val(),
            }),
            FieldName::ConstitutionModifier => (match v {
                FieldValue::Signed(n) => b.constitution_modifier.val() == n,
                _ => b.constitution_modifier.val() == a.constitution_modifier.val(),
            }),
            FieldName::IntelligenceModifier => (match v {
                FieldValue::Signed(n) => b.intelligence_modifier.val() == n,
                _ => b.intelligence_modifier.val() == a.intelligence_modifier.val(),
            }),
            FieldName::WisdomModifier => (match v {
                FieldValue::Signed(n) => b.wisdom_modifier.val() == n,
                _ => b.wisdom_modifier.val() == a.wisdom_modifier.val(),
            }),
            FieldName::CharismaModifier => (match v {
                FieldValue::Signed(n) => b.charisma_modifier.val() == n,
                _ => b.charisma_modifier.val() == a.charisma_modifier.val(),
            }),
            FieldName::Size => (match v {
                FieldValue::Size(s) => b.size.val() == s,
                _ => b.size.val() == a.size.val(),
            }),
            FieldName::SkillProficiencies => b.skill_proficiencies.val() == a.skill_proficiencies.val(),
            FieldName::ToolProficiencies => b.tool_proficiencies.val() == a.tool_proficiencies.val(),
            FieldName::Languages => b.languages.val() == a.languages.val(),
            FieldName::WalkingSpeed => (match v {
                FieldValue::Number(n) => b.walking_speed.val() == n,
                _ => b.walking_speed.val() == a.walking_speed.val(),
            }),
            FieldName::FlyingSpeed => (match v {
                FieldValue::Number(n) => b.flying_speed.val() == n,
                _ => b.flying_speed.val() == a.flying_speed.val(),
            }),
            FieldName::ClimbingSpeed => (match v {
                FieldValue::Number(n) => b.climbing_speed.val() == n,
                _ => b.climbing_speed.val() == a.climbing_speed.val(),
            }),
            FieldName::SwimmingSpeed => (match v {
                FieldValue::Number(n) => b.swimming_speed.val() == n,
                _ => b.swimming_speed.val() == a.swimming_speed.val(),
            }),
            FieldName::BurrowingSpeed => (match v {
                FieldValue::Number(n) => b.burrowing_speed.val() == n,
                _ => b.burrowing_speed.val() == a.burrowing_speed.val(),
            }),
            FieldName::AttacksPerAction => (match v {
                FieldValue::Number(n) => b.attacks_per_action.val() == n,
                _ => b.attacks_per_action.val() == a.attacks_per_action.val(),
            }),
            FieldName::SavingThrowNotes => b.saving_throw_notes.val() == a.saving_throw_notes.val(),
        }
    }

    /// Idempotent insert of a `(phase, who)` claim on the field named `f`:
    /// that field's claim set for `p` gains `who`, every other claim set and
    /// every value is untouched.
    pub fn declare_claim(&mut self, f: FieldName, p: Phase, who: &str)
        requires
            old(self).wf(),
        ensures
            final(self).wf(),
            Self::same_values(*old(self), *final(self)),
            Self::claims_except(*old(self), *final(self), f),
            Self::claims_grow(*old(self), *final(self)),
            final(self).claim_set_at(f, p) == old(self).claim_set_at(f, p).insert(who@),
            p != Phase::Initializer ==> final(self).claim_set_at(f, Phase::Initializer) == old(
                self,
            ).claim_set_at(f, Phase::Initializer),
            p != Phase::Modifier ==> final(self).claim_set_at(f, Phase::Modifier) == old(
                self,
            ).claim_set_at(f, Phase::Modifier),
            p != Phase::Finalizer ==> final(self).claim_set_at(f, Phase::Finalizer) == old(
                self,
            ).claim_set_at(f, Phase::Finalizer),
            final(self).count_spec() == old(self).count_spec() + (if old(self).claim_set_at(
                f,
                p,
            ).contains(who@) {
                0int
            } else {
                1int
            }),
    {
        match f {
            FieldName::Name | FieldName::TotalLevel | FieldName::RaceName | FieldName::ClassNames | FieldName::ProficiencyBonus | FieldName::Initiative | FieldName::Health | FieldName::TempHealth | FieldName::MaxHealth => self.declare_claim_core(f, p, who),
            FieldName::Strength | FieldName::Dexterity | FieldName::Constitution | FieldName::Intelligence | FieldName::Wisdom | FieldName::Charisma => self.declare_claim_abilities(f, p, who),
            FieldName::StrengthModifier | FieldName::DexterityModifier | FieldName::ConstitutionModifier | FieldName::IntelligenceModifier | FieldName::WisdomModifier | FieldName::CharismaModifier => self.declare_claim_modifiers(f, p, who),
            FieldName::Size | FieldName::SkillProficiencies | FieldName::ToolProficiencies | FieldName::Languages | FieldName::WalkingSpeed | FieldName::FlyingSpeed | FieldName::ClimbingSpeed | FieldName::SwimmingSpeed | FieldName::BurrowingSpeed | FieldName::AttacksPerAction | FieldName::SavingThrowNotes => self.declare_claim_extras(f, p, who),
        }
    }

    /// Attempts to resolve a `(phase, who)` claim on the field named `f`,
    /// honouring the phase gate: the attempt succeeds exactly when every
    /// earlier-phase claim set of that field is empty and the claim is
    /// pending; a blocked attempt is a silent no-op returning false. Values
    /// are never touched.
    pub fn resolve_claim(&mut self, f: FieldName, p: Phase, who: &str) -> (r: bool)
        requires
            old(self).wf(),
        ensures
            final(self).wf(),
            Self::same_values(*old(self), *final(self)),
            Self::claims_except(*old(self), *final(self), f),
            Self::claims_shrink(*old(self), *final(self)),
            r == (old(self).gate_at(f, p) && old(self).claim_set_at(f, p).contains(who@)),
            old(self).gate_at(f, p) ==> final(self).claim_set_at(f, p) == old(self).claim_set_at(
                f,
                p,
            ).remove(who@),
            !old(self).gate_at(f, p) ==> *final(self) == *old(self),
            p != Phase::Initializer ==> final(self).claim_set_at(f, Phase::Initializer) == old(
                self,
            ).claim_set_at(f, Phase::Initializer),
            p != Phase::Modifier ==> final(self).claim_set_at(f, Phase::Modifier) == old(
                self,
            ).claim_set_at(f, Phase::Modifier),
            p != Phase::Finalizer ==> final(self).claim_set_at(f, Phase::Finalizer) == old(
                self,
            ).claim_set_at(f, Phase::Finalizer),
            final(self).count_spec() == old(self).count_spec() - (if r {
                1int
            } else {
                0int
            }),
    {
        match f {
            FieldName::Name | FieldName::TotalLevel | FieldName::RaceName | FieldName::ClassNames | FieldName::ProficiencyBonus | FieldName::Initiative | FieldName::Health | FieldName::TempHealth | FieldName::MaxHealth => self.resolve_claim_core(f, p, who),
            FieldName::Strength | FieldName::Dexterity | FieldName::Constitution | FieldName::Intelligence | FieldName::Wisdom | FieldName::Charisma => self.resolve_claim_abilities(f, p, who),
            FieldName::StrengthModifier | FieldName::DexterityModifier | FieldName::ConstitutionModifier | FieldName::IntelligenceModifier | FieldName::WisdomModifier | FieldName::CharismaModifier => self.resolve_claim_modifiers(f, p, who),
            FieldName::Size | FieldName::SkillProficiencies | FieldName::ToolProficiencies | FieldName::Languages | FieldName::WalkingSpeed | FieldName::FlyingSpeed | FieldName::ClimbingSpeed | FieldName::SwimmingSpeed | FieldName::BurrowingSpeed | FieldName::AttacksPerAction | FieldName::SavingThrowNotes => self.resolve_claim_extras(f, p, who),
        }
    }

    /// Writes `v` into the staged field named `f` if the kinds agree; a
    /// mismatch is a no-op. Claim bookkeeping is untouched either way.
    pub fn set_field(&mut self, f: FieldName, v: &FieldValue)
        ensures
            Self::same_claims(*old(self), *final(self)),
            Self::values_unchanged_except(*old(self), *final(self), f),
            Self::set_field_spec(*old(self), *final(self), f, *v),
    {
        match f {
            FieldName::Name => {
                if let FieldValue::Text(s) = v {
                    self.name.set(s.clone());
                }
            },
            FieldName::TotalLevel => {
                if let FieldValue::Number(n) = v {
                    self.total_level.set(*n);
                }
            },
            FieldName::RaceName => {
                if let FieldValue::Text(s) = v {
                    self.race_name.set(s.clone());
                }
            },
            FieldName::ClassNames => {},
            FieldName::ProficiencyBonus => {
                if let FieldValue::Number(n) = v {
                    self.proficiency_bonus.set(*n);
                }
            },
            FieldName::Initiative => {
                if let FieldValue::Signed(n) = v {
                    self.initiative.set(*n);
                }
            },
            FieldName::Health => {
                if let FieldValue::Number(n) = v {
                    self.health.set(*n);
                }
            },
            FieldName::TempHealth => {
                if let FieldValue::Number(n) = v {
                    self.temp_health.set(*n);
                }
            },
            FieldName::MaxHealth => {
                if let FieldValue::Number(n) = v {
                    self.max_health.set(*n);
                }
            },
            FieldName::Strength => {
                if let FieldValue::Number(n) = v {
                    self.strength.set(*n);
                }
            },
            FieldName::Dexterity => {
                if let FieldValue::Number(n) = v {
                    self.dexterity.set(*n);
                }
            },
            FieldName::Constitution => {
                if let FieldValue::Number(n) = v {
                    self.constitution.set(*n);
                }
            },
            FieldName::Intelligence => {
                if let FieldValue::Number(n) = v {
                    self.intelligence.set(*n);
                }
            },
            FieldName::Wisdom => {
                if let FieldValue::Number(n) = v {
                    self.wisdom.set(*n);
                }
            },
            FieldName::Charisma => {
                if let FieldValue::Number(n) = v {
                    self.charisma.set(*n);
                }
            },
            FieldName::StrengthModifier => {
                if let FieldValue::Signed(n) = v {
                    self.strength_modifier.set(*n);
                }
            },
            FieldName::DexterityModifier => {
                if let FieldValue::Signed(n) = v {
                    self.dexterity_modifier.set(*n);
                }
            },
            FieldName::ConstitutionModifier => {
                if let FieldValue::Signed(n) = v {
                    self.constitution_modifier.set(*n);
                }
            },
            FieldName::IntelligenceModifier => {
                if let FieldValue::Signed(n) = v {
                    self.intelligence_modifier.set(*n);
                }
            },
            FieldName::WisdomModifier => {
                if let FieldValue::Signed(n) = v {
                    self.wisdom_modifier.set(*n);
                }
            },
            FieldName::CharismaModifier => {
                if let FieldValue::Signed(n) = v {
                    self.charisma_modifier.set(*n);
                }
            },
            FieldName::Size => {
                if let FieldValue::Size(s) = v {
                    self.size.set(*s);
                }
            },
            FieldName::SkillProficiencies => {},
            FieldName::ToolProficiencies => {},
            FieldName::Languages => {},
            FieldName::WalkingSpeed => {
                if let FieldValue::Number(n) = v {
                    self.walking_speed.set(*n);
                }
            },
            FieldName::FlyingSpeed => {
                if let FieldValue::Number(n) = v {
                    self.flying_speed.set(*n);
                }
            },
            FieldName::ClimbingSpeed => {
                if let FieldValue::Number(n) = v {
                    self.climbing_speed.set(*n);
                }
            },
            FieldName::SwimmingSpeed => {
                if let FieldValue::Number(n) = v {
                    self.swimming_speed.set(*n);
                }
            },
            FieldName::BurrowingSpeed => {
                if let FieldValue::Number(n) = v {
                    self.burrowing_speed.set(*n);
                }
            },
            FieldName::AttacksPerAction => {
                if let FieldValue::Number(n) = v {
                    self.attacks_per_action.set(*n);
                }
            },
            FieldName::SavingThrowNotes => {},
        }
    }


    #[verifier::rlimit(100)]
    fn declare_claim_core(&mut self, f: FieldName, p: Phase, who: &str)
        requires
            old(self).wf(),
        ensures
            final(self).wf(),
            Self::same_values(*old(self), *final(self)),
            Self::claims_except(*old(self), *final(self), f),
            Self::claims_grow(*old(self), *final(self)),
            Self::core_field(f) ==> {
                &&& final(self).claim_set_at(f, p) == old(self).claim_set_at(f, p).insert(who@)
                &&& (p != Phase::Initializer ==> final(self).claim_set_at(f, Phase::Initializer)
                    == old(self).claim_set_at(f, Phase::Initializer))
                &&& (p != Phase::Modifier ==> final(self).claim_set_at(f, Phase::Modifier) == old(
                    self,
                ).claim_set_at(f, Phase::Modifier))
                &&& (p != Phase::Finalizer ==> final(self).claim_set_at(f, Phase::Finalizer)
                    == old(self).claim_set_at(f, Phase::Finalizer))
                &&& final(self).count_spec() == old(self).count_spec() + (if old(
                    self,
                ).claim_set_at(f, p).contains(who@) {
                    0int
                } else {
                    1int
                })
            },
            !Self::core_field(f) ==> *final(self) == *old(self),
    {
        match f {
            FieldName::Name => self.name.declare_phase(p, who),
            FieldName::TotalLevel => self.total_level.declare_phase(p, who),
            FieldName::RaceName => self.race_name.declare_phase(p, who),
            FieldName::ClassNames => self.class_names.declare_phase(p, who),
            FieldName::ProficiencyBonus => self.proficiency_bonus.declare_phase(p, who),
            FieldName::Initiative => self.initiative.declare_phase(p, who),
            FieldName::Health => self.health.declare_phase(p, who),
            FieldName::TempHealth => self.temp_health.declare_phase(p, who),
            FieldName::MaxHealth => self.max_health.declare_phase(p, who),
            _ => {},
        }
    }

    #[verifier::rlimit(100)]
    fn declare_claim_abilities(&mut self, f: FieldName, p: Phase, who: &str)
        requires
            old(self).wf(),
        ensures
            final(self).wf(),
            Self::same_values(*old(self), *final(self)),
            Self::claims_except(*old(self), *final(self), f),
            Self::claims_grow(*old(self), *final(self)),
            Self::abilities_field(f) ==> {
                &&& final(self).claim_set_at(f, p) == old(self).claim_set_at(f, p).insert(who@)
                &&& (p != Phase::Initializer ==> final(self).claim_set_at(f, Phase::Initializer)
                    == old(self).claim_set_at(f, Phase::Initializer))
                &&& (p != Phase::Modifier ==> final(self).claim_set_at(f, Phase::Modifier) == old(
                    self,
                ).claim_set_at(f, Phase::Modifier))
                &&& (p != Phase::Finalizer ==> final(self).claim_set_at(f, Phase::Finalizer)
                    == old(self).claim_set_at(f, Phase::Finalizer))
                &&& final(self).count_spec() == old(self).count_spec() + (if old(
                    self,
                ).claim_set_at(f, p).contains(who@) {
                    0int
                } else {
                    1int
                })
            },
            !Self::abilities_field(f) ==> *final(self) == *old(self),
    {
        match f {
            FieldName::Strength => self.strength.declare_phase(p, who),
            FieldName::Dexterity => self.dexterity.declare_phase(p, who),
            FieldName::Constitution => self.constitution.declare_phase(p, who),
            FieldName::Intelligence => self.intelligence.declare_phase(p, who),
            FieldName::Wisdom => self.wisdom.declare_phase(p, who),
            FieldName::Charisma => self.charisma.declare_phase(p, who),
            _ => {},
        }
    }

    #[verifier::rlimit(100)]
    fn declare_claim_modifiers(&mut self, f: FieldName, p: Phase, who: &str)
        requires
            old(self).wf(),
        ensures
            final(self).wf(),
            Self::same_values(*old(self), *final(self)),
            Self::claims_except(*old(self), *final(self), f),
            Self::claims_grow(*old(self), *final(self)),
            Self::modifiers_field(f) ==> {
                &&& final(self).claim_set_at(f, p) == old(self).claim_set_at(f, p).insert(who@)
                &&& (p != Phase::Initializer ==> final(self).claim_set_at(f, Phase::Initializer)
                    == old(self).claim_set_at(f, Phase::Initializer))
                &&& (p != Phase::Modifier ==> final(self).claim_set_at(f, Phase::Modifier) == old(
                    self,
                ).claim_set_at(f, Phase::Modifier))
                &&& (p != Phase::Finalizer ==> final(self).claim_set_at(f, Phase::Finalizer)
                    == old(self).claim_set_at(f, Phase::Finalizer))
                &&& final(self).count_spec() == old(self).count_spec() + (if old(
                    self,
                ).claim_set_at(f, p).contains(who@) {
                    0int
                } else {
                    1int
                })
            },
            !Self::modifiers_field(f) ==> *final(self) == *old(self),
    {
        match f {
            FieldName::StrengthModifier => self.strength_modifier.declare_phase(p, who),
            FieldName::DexterityModifier => self.dexterity_modifier.declare_phase(p, who),
            FieldName::ConstitutionModifier => self.constitution_modifier.declare_phase(p, who),
            FieldName::IntelligenceModifier => self.intelligence_modifier.declare_phase(p, who),
            FieldName::WisdomModifier => self.wisdom_modifier.declare_phase(p, who),
            FieldName::CharismaModifier => self.charisma_modifier.declare_phase(p, who),
            _ => {},
        }
    }

    #[verifier::rlimit(100)]
    fn declare_claim_extras(&mut self, f: FieldName, p: Phase, who: &str)
        requires
            old(self).wf(),
        ensures
            final(self).wf(),
            Self::same_values(*old(self), *final(self)),
            Self::claims_except(*old(self), *final(self), f),
            Self::claims_grow(*old(self), *final(self)),
            Self::extras_field(f) ==> {
                &&& final(self).claim_set_at(f, p) == old(self).claim_set_at(f, p).insert(who@)
                &&& (p != Phase::Initializer ==> final(self).claim_set_at(f, Phase::Initializer)
                    == old(self).claim_set_at(f, Phase::Initializer))
                &&& (p != Phase::Modifier ==> final(self).claim_set_at(f, Phase::Modifier) == old(
                    self,
                ).claim_set_at(f, Phase::Modifier))
                &&& (p != Phase::Finalizer ==> final(self).claim_set_at(f, Phase::Finalizer)
                    == old(self).claim_set_at(f, Phase::Finalizer))
                &&& final(self).count_spec() == old(self).count_spec() + (if old(
                    self,
                ).claim_set_at(f, p).contains(who@) {
                    0int
                } else {
                    1int
                })
            },
            !Self::extras_field(f) ==> *final(self) == *old(self),
    {
        match f {
            FieldName::Size => self.size.declare_phase(p, who),
            FieldName::SkillProficiencies => self.skill_proficiencies.declare_phase(p, who),
            FieldName::ToolProficiencies => self.tool_proficiencies.declare_phase(p, who),
            FieldName::Languages => self.languages.declare_phase(p, who),
            FieldName::WalkingSpeed => self.walking_speed.declare_phase(p, who),
            FieldName::FlyingSpeed => self.flying_speed.declare_phase(p, who),
            FieldName::ClimbingSpeed => self.climbing_speed.declare_phase(p, who),
            FieldName::SwimmingSpeed => self.swimming_speed.declare_phase(p, who),
            FieldName::BurrowingSpeed => self.burrowing_speed.declare_phase(p, who),
            FieldName::AttacksPerAction => self.attacks_per_action.declare_phase(p, who),
            FieldName::SavingThrowNotes => self.saving_throw_notes.declare_phase(p, who),
            _ => {},
        }
    }

    #[verifier::rlimit(100)]
    fn resolve_claim_core(&mut self, f: FieldName, p: Phase, who: &str) -> (r: bool)
        requires
            old(self).wf(),
        ensures
            final(self).wf(),
            Self::same_values(*old(self), *final(self)),
            Self::claims_except(*old(self), *final(self), f),
            Self::claims_shrink(*old(self), *final(self)),
            Self::core_field(f) ==> {
                &&& r == (old(self).gate_at(f, p) && old(self).claim_set_at(f, p).contains(who@))
                &&& (old(self).gate_at(f, p) ==> final(self).claim_set_at(f, p) == old(
                    self,
                ).claim_set_at(f, p).remove(who@))
                &&& (!old(self).gate_at(f, p) ==> *final(self) == *old(self))
                &&& (p != Phase::Initializer ==> final(self).claim_set_at(f, Phase::Initializer)
                    == old(self).claim_set_at(f, Phase::Initializer))
                &&& (p != Phase::Modifier ==> final(self).claim_set_at(f, Phase::Modifier) == old(
                    self,
                ).claim_set_at(f, Phase::Modifier))
                &&& (p != Phase::Finalizer ==> final(self).claim_set_at(f, Phase::Finalizer)
                    == old(self).claim_set_at(f, Phase::Finalizer))
            },
            !Self::core_field(f) ==> r == false && *final(self) == *old(self),
            final(self).count_spec() == old(self).count_spec() - (if r {
                1int
            } else {
                0int
            }),
    {
        match f {
            FieldName::Name => self.name.resolve_phase(p, who),
            FieldName::TotalLevel => self.total_level.resolve_phase(p, who),
            FieldName::RaceName => self.race_name.resolve_phase(p, who),
            FieldName::ClassNames => self.class_names.resolve_phase(p, who),
            FieldName::ProficiencyBonus => self.proficiency_bonus.resolve_phase(p, who),
            FieldName::Initiative => self.initiative.resolve_phase(p, who),
            FieldName::Health => self.health.resolve_phase(p, who),
            FieldName::TempHealth => self.temp_health.resolve_phase(p, who),
            FieldName::MaxHealth => self.max_health.resolve_phase(p, who),
            _ => false,
        }
    }

    #[verifier::rlimit(100)]
    fn resolve_claim_abilities(&mut self, f: FieldName, p: Phase, who: &str) -> (r: bool)
        requires
            old(self).wf(),
        ensures
            final(self).wf(),
            Self::same_values(*old(self), *final(self)),
            Self::claims_except(*old(self), *final(self), f),
            Self::claims_shrink(*old(self), *final(self)),
            Self::abilities_field(f) ==> {
                &&& r == (old(self).gate_at(f, p) && old(self).claim_set_at(f, p).contains(who@))
                &&& (old(self).gate_at(f, p) ==> final(self).claim_set_at(f, p) == old(
                    self,
                ).claim_set_at(f, p).remove(who@))
                &&& (!old(self).gate_at(f, p) ==> *final(self) == *old(self))
                &&& (p != Phase::Initializer ==> final(self).claim_set_at(f, Phase::Initializer)
                    == old(self).claim_set_at(f, Phase::Initializer))
                &&& (p != Phase::Modifier ==> final(self).claim_set_at(f, Phase::Modifier) == old(
                    self,
                ).claim_set_at(f, Phase::Modifier))
                &&& (p != Phase::Finalizer ==> final(self).claim_set_at(f, Phase::Finalizer)
                    == old(self).claim_set_at(f, Phase::Finalizer))
            },
            !Self::abilities_field(f) ==> r == false && *final(self) == *old(self),
            final(self).count_spec() == old(self).count_spec() - (if r {
                1int
            } else {
                0int
            }),
    {
        match f {
            FieldName::Strength => self.strength.resolve_phase(p, who),
            FieldName::Dexterity => self.dexterity.resolve_phase(p, who),
            FieldName::Constitution => self.constitution.resolve_phase(p, who),
            FieldName::Intelligence => self.intelligence.resolve_phase(p, who),
            FieldName::Wisdom => self.wisdom.resolve_phase(p, who),
            FieldName::Charisma => self.charisma.resolve_phase(p, who),
            _ => false,
        }
    }

    #[verifier::rlimit(100)]
    fn resolve_claim_modifiers(&mut self, f: FieldName, p: Phase, who: &str) -> (r: bool)
        requires
            old(self).wf(),
        ensures
            final(self).wf(),
            Self::same_values(*old(self), *final(self)),
            Self::claims_except(*old(self), *final(self), f),
            Self::claims_shrink(*old(self), *final(self)),
            Self::modifiers_field(f) ==> {
                &&& r == (old(self).gate_at(f, p) && old(self).claim_set_at(f, p).contains(who@))
                &&& (old(self).gate_at(f, p) ==> final(self).claim_set_at(f, p) == old(
                    self,
                ).claim_set_at(f, p).remove(who@))
                &&& (!old(self).gate_at(f, p) ==> *final(self) == *old(self))
                &&& (p != Phase::Initializer ==> final(self).claim_set_at(f, Phase::Initializer)
                    == old(self).claim_set_at(f, Phase::Initializer))
                &&& (p != Phase::Modifier ==> final(self).claim_set_at(f, Phase::Modifier) == old(
                    self,
                ).claim_set_at(f, Phase::Modifier))
                &&& (p != Phase::Finalizer ==> final(self).claim_set_at(f, Phase::Finalizer)
                    == old(self).claim_set_at(f, Phase::Finalizer))
            },
            !Self::modifiers_field(f) ==> r == false && *final(self) == *old(self),
            final(self).count_spec() == old(self).count_spec() - (if r {
                1int
            } else {
                0int
            }),
    {
        match f {
            FieldName::StrengthModifier => self.strength_modifier.resolve_phase(p, who),
            FieldName::DexterityModifier => self.dexterity_modifier.resolve_phase(p, who),
            FieldName::ConstitutionModifier => self.constitution_modifier.resolve_phase(p, who),
            FieldName::IntelligenceModifier => self.intelligence_modifier.resolve_phase(p, who),
            FieldName::WisdomModifier => self.wisdom_modifier.resolve_phase(p, who),
            FieldName::CharismaModifier => self.charisma_modifier.resolve_phase(p, who),
            _ => false,
        }
    }

    #[verifier::rlimit(100)]
    fn resolve_claim_extras(&mut self, f: FieldName, p: Phase, who: &str) -> (r: bool)
        requires
            old(self).wf(),
        ensures
            final(self).wf(),
            Self::same_values(*old(self), *final(self)),
            Self::claims_except(*old(self), *final(self), f),
            Self::claims_shrink(*old(self), *final(self)),
            Self::extras_field(f) ==> {
                &&& r == (old(self).gate_at(f, p) && old(self).claim_set_at(f, p).contains(who@))
                &&& (old(self).gate_at(f, p) ==> final(self).claim_set_at(f, p) == old(
                    self,
                ).claim_set_at(f, p).remove(who@))
                &&& (!old(self).gate_at(f, p) ==> *final(self) == *old(self))
                &&& (p != Phase::Initializer ==> final(self).claim_set_at(f, Phase::Initializer)
                    == old(self).claim_set_at(f, Phase::Initializer))
                &&& (p != Phase::Modifier ==> final(self).claim_set_at(f, Phase::Modifier) == old(
                    self,
                ).claim_set_at(f, Phase::Modifier))
                &&& (p != Phase::Finalizer ==> final(self).claim_set_at(f, Phase::Finalizer)
                    == old(self).claim_set_at(f, Phase::Finalizer))
            },
            !Self::extras_field(f) ==> r == false && *final(self) == *old(self),
            final(self).count_spec() == old(self).count_spec() - (if r {
                1int
            } else {
                0int
            }),
    {
        match f {
            FieldName::Size => self.size.resolve_phase(p, who),
            FieldName::SkillProficiencies => self.skill_proficiencies.resolve_phase(p, who),
            FieldName::ToolProficiencies => self.tool_proficiencies.resolve_phase(p, who),
            FieldName::Languages => self.languages.resolve_phase(p, who),
            FieldName::WalkingSpeed => self.walking_speed.resolve_phase(p, who),
            FieldName::FlyingSpeed => self.flying_speed.resolve_phase(p, who),
            FieldName::ClimbingSpeed => self.climbing_speed.resolve_phase(p, who),
            FieldName::SwimmingSpeed => self.swimming_speed.resolve_phase(p, who),
            FieldName::BurrowingSpeed => self.burrowing_speed.resolve_phase(p, who),
            FieldName::AttacksPerAction => self.attacks_per_action.resolve_phase(p, who),
            FieldName::SavingThrowNotes => self.saving_throw_notes.resolve_phase(p, who),
            _ => false,
        }
    }

    /// Every pending claim of every staged field, tagged with its field name.
    pub open spec fn stuck_spec(&self) -> Seq<(FieldName, Phase, Seq<char>)> {
        tagged(FieldName::Name, self.name.claim_seq()) + tagged(
            FieldName::TotalLevel,
            self.total_level.claim_seq(),
        ) + tagged(
            FieldName::RaceName,
            self.race_name.claim_seq(),
        ) + tagged(
            FieldName::ClassNames,
            self.class_names.claim_seq(),
        ) + tagged(
            FieldName::ProficiencyBonus,
            self.proficiency_bonus.claim_seq(),
        ) + tagged(
            FieldName::Initiative,
            self.initiative.claim_seq(),
        ) + tagged(
            FieldName::Health,
            self.health.claim_seq(),
        ) + tagged(
            FieldName::TempHealth,
            self.temp_health.claim_seq(),
        ) + tagged(
            FieldName::MaxHealth,
            self.max_health.claim_seq(),
        ) + tagged(
            FieldName::Strength,
            self.strength.claim_seq(),
        ) + tagged(
            FieldName::Dexterity,
            self.dexterity.claim_seq(),
        ) + tagged(
            FieldName::Constitution,
            self.constitution.claim_seq(),
        ) + tagged(
            FieldName::Intelligence,
            self.intelligence.claim_seq(),
        ) + tagged(
            FieldName::Wisdom,
            self.wisdom.claim_seq(),
        ) + tagged(
            FieldName::Charisma,
            self.charisma.claim_seq(),
        ) + tagged(
            FieldName::StrengthModifier,
            self.strength_modifier.claim_seq(),
        ) + tagged(
            FieldName::DexterityModifier,
            self.dexterity_modifier.claim_seq(),
        ) + tagged(
            FieldName::ConstitutionModifier,
            self.constitution_modifier.claim_seq(),
        ) + tagged(
            FieldName::IntelligenceModifier,
            self.intelligence_modifier.claim_seq(),
        ) + tagged(
            FieldName::WisdomModifier,
            self.wisdom_modifier.claim_seq(),
        ) + tagged(
            FieldName::CharismaModifier,
            self.charisma_modifier.claim_seq(),
        ) + tagged(
            FieldName::Size,
            self.size.claim_seq(),
        ) + tagged(
            FieldName::SkillProficiencies,
            self.skill_proficiencies.claim_seq(),
        ) + tagged(
            FieldName::ToolProficiencies,
            self.tool_proficiencies.claim_seq(),
        ) + tagged(
            FieldName::Languages,
            self.languages.claim_seq(),
        ) + tagged(
            FieldName::WalkingSpeed,
            self.walking_speed.claim_seq(),
        ) + tagged(
            FieldName::FlyingSpeed,
            self.flying_speed.claim_seq(),
        ) + tagged(
            FieldName::ClimbingSpeed,
            self.climbing_speed.claim_seq(),
        ) + tagged(
            FieldName::SwimmingSpeed,
            self.swimming_speed.claim_seq(),
        ) + tagged(
            FieldName::BurrowingSpeed,
            self.burrowing_speed.claim_seq(),
        ) + tagged(
            FieldName::AttacksPerAction,
            self.attacks_per_action.claim_seq(),
        ) + tagged(
            FieldName::SavingThrowNotes,
            self.saving_throw_notes.claim_seq(),
        )
    }

    /// Reports every pending claim, for the deadlock diagnostic.
    pub fn stuck_claims(&self) -> (r: Vec<StuckClaim>)
        ensures
            r@.map_values(|sc: StuckClaim| stuck_view(sc)) == self.stuck_spec(),
            r@.len() == self.count_spec(),
    {
        let mut out: Vec<StuckClaim> = Vec::new();
        proof {
            assert(out@.map_values(|sc: StuckClaim| stuck_view(sc)) =~= Seq::<(FieldName, Phase, Seq<char>)>::empty());
        }
        let pc = self.name.pending_claims();
        collect_stuck(&mut out, FieldName::Name, &pc);
        let pc = self.total_level.pending_claims();
        collect_stuck(&mut out, FieldName::TotalLevel, &pc);
        let pc = self.race_name.pending_claims();
        collect_stuck(&mut out, FieldName::RaceName, &pc);
        let pc = self.class_names.pending_claims();
        collect_stuck(&mut out, FieldName::ClassNames, &pc);
        let pc = self.proficiency_bonus.pending_claims();
        collect_stuck(&mut out, FieldName::ProficiencyBonus, &pc);
        let pc = self.initiative.pending_claims();
        collect_stuck(&mut out, FieldName::Initiative, &pc);
        let pc = self.health.pending_claims();
        collect_stuck(&mut out, FieldName::Health, &pc);
        let pc = self.temp_health.pending_claims();
        collect_stuck(&mut out, FieldName::TempHealth, &pc);
        let pc = self.max_health.pending_claims();
        collect_stuck(&mut out, FieldName::MaxHealth, &pc);
        let pc = self.strength.pending_claims();
        collect_stuck(&mut out, FieldName::Strength, &pc);
        let pc = self.dexterity.pending_claims();
        collect_stuck(&mut out, FieldName::Dexterity, &pc);
        let pc = self.constitution.pending_claims();
        collect_stuck(&mut out, FieldName::Constitution, &pc);
        let pc = self.intelligence.pending_claims();
        collect_stuck(&mut out, FieldName::Intelligence, &pc);
        let pc = self.wisdom.pending_claims();
        collect_stuck(&mut out, FieldName::Wisdom, &pc);
        let pc = self.charisma.pending_claims();
        collect_stuck(&mut out, FieldName::Charisma, &pc);
        let pc = self.strength_modifier.pending_claims();
        collect_stuck(&mut out, FieldName::StrengthModifier, &pc);
        let pc = self.dexterity_modifier.pending_claims();
        collect_stuck(&mut out, FieldName::DexterityModifier, &pc);
        let pc = self.constitution_modifier.pending_claims();
        collect_stuck(&mut out, FieldName::ConstitutionModifier, &pc);
        let pc = self.intelligence_modifier.pending_claims();
        collect_stuck(&mut out, FieldName::IntelligenceModifier, &pc);
        let pc = self.wisdom_modifier.pending_claims();
        collect_stuck(&mut out, FieldName::WisdomModifier, &pc);
        let pc = self.charisma_modifier.pending_claims();
        collect_stuck(&mut out, FieldName::CharismaModifier, &pc);
        let pc = self.size.pending_claims();
        collect_stuck(&mut out, FieldName::Size, &pc);
        let pc = self.skill_proficiencies.pending_claims();
        collect_stuck(&mut out, FieldName::SkillProficiencies, &pc);
        let pc = self.tool_proficiencies.pending_claims();
        collect_stuck(&mut out, FieldName::ToolProficiencies, &pc);
        let pc = self.languages.pending_claims();
        collect_stuck(&mut out, FieldName::Languages, &pc);
        let pc = self.walking_speed.pending_claims();
        collect_stuck(&mut out, FieldName::WalkingSpeed, &pc);
        let pc = self.flying_speed.pending_claims();
        collect_stuck(&mut out, FieldName::FlyingSpeed, &pc);
        let pc = self.climbing_speed.pending_claims();
        collect_stuck(&mut out, FieldName::ClimbingSpeed, &pc);
        let pc = self.swimming_speed.pending_claims();
        collect_stuck(&mut out, FieldName::SwimmingSpeed, &pc);
        let pc = self.burrowing_speed.pending_claims();
        collect_stuck(&mut out, FieldName::BurrowingSpeed, &pc);
        let pc = self.attacks_per_action.pending_claims();
        collect_stuck(&mut out, FieldName::AttacksPerAction, &pc);
        let pc = self.saving_throw_notes.pending_claims();
        collect_stuck(&mut out, FieldName::SavingThrowNotes, &pc);
        proof {
            assert(out@.map_values(|sc: StuckClaim| stuck_view(sc)).len() == out@.len());
            assert(self.stuck_spec().len() == self.count_spec());
        }
        out
    }
}


/// A field-addressed claim operation on the field named `f` leaves the claim
/// sets of every other field exactly as they were.
#[verifier::rlimit(100)]
pub proof fn lemma_claims_except_preserves(
    a: Character,
    b: Character,
    f: FieldName,
    f2: FieldName,
    p2: Phase,
)
    requires
        Character::claims_except(a, b, f),
        f2 != f,
    ensures
        b.claim_set_at(f2, p2) == a.claim_set_at(f2, p2),
{
}

/// Appends the claims of one field, tagged with that field's name, to the
/// deadlock diagnostic under construction.
fn collect_stuck(out: &mut Vec<StuckClaim>, field: FieldName, claims: &Vec<(Phase, String)>)
    ensures
        final(out)@.map_values(|sc: StuckClaim| stuck_view(sc)) == old(out)@.map_values(|sc: StuckClaim| stuck_view(sc)) + tagged(
            field,
            claims@.map_values(|pc: (Phase, String)| (pc.0, pc.1@)),
        ),
{
    let ghost base = out@.len() as int;
    let mut k: usize = 0;
    while k < claims.len()
        invariant
            k <= claims@.len(),
            base == old(out)@.len(),
            out@.len() == base + k,
            forall|j: int| 0 <= j < base ==> out@[j] == old(out)@[j],
            forall|j: int|
                0 <= j < k ==> stuck_view(#[trigger] out@[base + j]) == (
                    field,
                    claims@[j].0,
                    claims@[j].1@,
                ),
        decreases claims@.len() - k,
    {
        let pc = &claims[k];
        out.push(StuckClaim { field, phase: pc.0, who: pc.1.clone() });
        k = k + 1;
    }
    proof {
        let m = |pc: (Phase, String)| (pc.0, pc.1@);
        let sv = |sc: StuckClaim| stuck_view(sc);
        let lhs = out@.map_values(sv);
        let rhs = old(out)@.map_values(sv) + tagged(field, claims@.map_values(m));
        assert(lhs.len() == rhs.len());
        assert forall|j: int| 0 <= j < lhs.len() implies lhs[j] == rhs[j] by {
            assert(lhs[j] == stuck_view(out@[j]));
            if j < base {
                assert(rhs[j] == stuck_view(old(out)@[j]));
            } else {
                assert(rhs[j] == tagged(field, claims@.map_values(m))[j - base]);
                assert(claims@.map_values(m)[j - base] == (claims@[j - base].0, claims@[j
                    - base].1@));
                assert(stuck_view(out@[base + (j - base)]) == (
                    field,
                    claims@[j - base].0,
                    claims@[j - base].1@,
                ));
            }
        }
        assert(lhs =~= rhs);
    }
}


/// The immutable finalized snapshot of a resolved character.
#[derive(Debug, PartialEq, Eq)]
pub struct FinalCharacter {
    pub name: String,
    pub total_level: u32,
    pub race_name: String,
    pub class_names: Vec<String>,
    pub proficiency_bonus: u32,
    pub initiative: i32,
    pub health: u32,
    pub temp_health: u32,
    pub max_health: u32,
    pub strength: u32,
    pub dexterity: u32,
    pub constitution: u32,
    pub intelligence: u32,
    pub wisdom: u32,
    pub charisma: u32,
    pub strength_modifier: i32,
    pub dexterity_modifier: i32,
    pub constitution_modifier: i32,
    pub intelligence_modifier: i32,
    pub wisdom_modifier: i32,
    pub charisma_modifier: i32,
    pub size: CreatureSize,
    pub skill_proficiencies: Vec<(Skill, ProficiencyType)>,
    pub tool_proficiencies: Vec<(String, ProficiencyType)>,
    pub languages: Vec<Language>,
    pub walking_speed: u32,
    pub flying_speed: u32,
    pub climbing_speed: u32,
    pub swimming_speed: u32,
    pub burrowing_speed: u32,
    pub attacks_per_action: u32,
    pub saving_throw_notes: Vec<String>,
    pub race_traits: Vec<Feature>,
    pub class_features: Vec<Feature>,
    pub background_features: Vec<Feature>,
    pub feat_features: Vec<Feature>,
    pub actions: Vec<Move>,
    pub bonus_actions: Vec<Move>,
    pub reactions: Vec<Move>,
    pub money: [u32; 5],
    pub inspiration: bool,
    pub alignment: Alignment,
}

impl Character {
    /// The snapshot that finalizing this record produces: every staged value
    /// copied out beside the append-only lists and plain fields.
    pub open spec fn snapshot_spec(self) -> FinalCharacter {
        FinalCharacter {
            name: self.name.val(),
            total_level: self.total_level.val(),
            race_name: self.race_name.val(),
            class_names: self.class_names.val(),
            proficiency_bonus: self.proficiency_bonus.val(),
            initiative: self.initiative.val(),
            health: self.health.val(),
            temp_health: self.temp_health.val(),
            max_health: self.max_health.val(),
            strength: self.strength.val(),
            dexterity: self.dexterity.val(),
            constitution: self.constitution.val(),
            intelligence: self.intelligence.val(),
            wisdom: self.wisdom.val(),
            charisma: self.charisma.val(),
            strength_modifier: self.strength_modifier.val(),
            dexterity_modifier: self.dexterity_modifier.val(),
            constitution_modifier: self.constitution_modifier.val(),
            intelligence_modifier: self.intelligence_modifier.val(),
            wisdom_modifier: self.wisdom_modifier.val(),
            charisma_modifier: self.charisma_modifier.val(),
            size: self.size.val(),
            skill_proficiencies: self.skill_proficiencies.val(),
            tool_proficiencies: self.tool_proficiencies.val(),
            languages: self.languages.val(),
            walking_speed: self.walking_speed.val(),
            flying_speed: self.flying_speed.val(),
            climbing_speed: self.climbing_speed.val(),
            swimming_speed: self.swimming_speed.val(),
            burrowing_speed: self.burrowing_speed.val(),
            attacks_per_action: self.attacks_per_action.val(),
            saving_throw_notes: self.saving_throw_notes.val(),
            race_traits: self.race_traits,
            class_features: self.class_features,
            background_features: self.background_features,
            feat_features: self.feat_features,
            actions: self.actions,
            bonus_actions: self.bonus_actions,
            reactions: self.reactions,
            money: self.money,
            inspiration: self.inspiration,
            alignment: self.alignment,
        }
    }

    /// Copies every staged field's plain value into an immutable snapshot.
    /// Valid only once every claim has cleared; calling it earlier is a
    /// programmer error, ruled out by the precondition.
    pub fn finalize(self) -> (r: FinalCharacter)
        requires
            self.count_spec() == 0,
        ensures
            r == self.snapshot_spec(),
    {
        FinalCharacter {
            name: self.name.unwrap(),
            total_level: self.total_level.unwrap(),
            race_name: self.race_name.unwrap(),
            class_names: self.class_names.unwrap(),
            proficiency_bonus: self.proficiency_bonus.unwrap(),
            initiative: self.initiative.unwrap(),
            health: self.health.unwrap(),
            temp_health: self.temp_health.unwrap(),
            max_health: self.max_health.unwrap(),
            strength: self.strength.unwrap(),
            dexterity: self.dexterity.unwrap(),
            constitution: self.constitution.unwrap(),
            intelligence: self.intelligence.unwrap(),
            wisdom: self.wisdom.unwrap(),
            charisma: self.charisma.unwrap(),
            strength_modifier: self.strength_modifier.unwrap(),
            dexterity_modifier: self.dexterity_modifier.unwrap(),
            constitution_modifier: self.constitution_modifier.unwrap(),
            intelligence_modifier: self.intelligence_modifier.unwrap(),
            wisdom_modifier: self.wisdom_modifier.unwrap(),
            charisma_modifier: self.charisma_modifier.unwrap(),
            size: self.size.unwrap(),
            skill_proficiencies: self.skill_proficiencies.unwrap(),
            tool_proficiencies: self.tool_proficiencies.unwrap(),
            languages: self.languages.unwrap(),
            walking_speed: self.walking_speed.unwrap(),
            flying_speed: self.flying_speed.unwrap(),
            climbing_speed: self.climbing_speed.unwrap(),
            swimming_speed: self.swimming_speed.unwrap(),
            burrowing_speed: self.burrowing_speed.unwrap(),
            attacks_per_action: self.attacks_per_action.unwrap(),
            saving_throw_notes: self.saving_throw_notes.unwrap(),
            race_traits: self.race_traits,
            class_features: self.class_features,
            background_features: self.background_features,
            feat_features: self.feat_features,
            actions: self.actions,
            bonus_actions: self.bonus_actions,
            reactions: self.reactions,
            money: self.money,
            inspiration: self.inspiration,
            alignment: self.alignment,
        }
    }
}

} // verus!

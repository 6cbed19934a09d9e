//! Rule contributors: the tagged variants of the three-phase protocol.
//!
//! Every contributor implements declare / iterate / last over a shared
//! character record, under the driver contract: declaring adds at most its
//! declared budget of claims, iterating never increases the pending count, and
//! the last phase leaves the count unchanged. A contributor that owns a nested
//! contributor forwards all three calls to it.

use vstd::prelude::*;
use crate::character::{Character, FieldName, FieldValue};
use crate::feature::Feature;
use crate::misc::{Ability, CreatureSize, Language, ProficiencyType, Skill};
use crate::staged::{Phase, Staged};

verus! {

/// The ability-score modifier: the score minus ten, halved and rounded down.
pub open spec fn modifier_of(score: int) -> int {
    (score - 10) / 2
}

/// Computes the ability modifier for a score.
pub fn ability_modifier(score: u32) -> (m: i32)
    ensures
        m as int == modifier_of(score as int),
{
    if score >= 10 {
        ((score - 10) / 2) as i32
    } else {
        let d: u32 = 10 - score;
        let q: u32 = (d + 1) / 2;
        0 - (q as i32)
    }
}

/// One step of a scripted contributor: a claim it declares on a field, whether
/// it ever attempts to resolve it, and the value it writes when it does.
#[derive(Debug)]
pub struct ScriptedClaim {
    pub field: FieldName,
    pub phase: Phase,
    pub attempt: bool,
    pub value: Option<FieldValue>,
}

impl Clone for ScriptedClaim {
    fn clone(&self) -> (r: Self)
        ensures
            r == *self,
    {
        ScriptedClaim {
            field: self.field,
            phase: self.phase,
            attempt: self.attempt,
            value: match &self.value {
                Some(v) => Some(v.clone()),
                None => None,
            },
        }
    }
}

/// A data-driven contributor: declares the claims of its script, then resolves
/// each claim it is told to attempt, writing the scripted value when the claim
/// clears. A claim never attempted never clears, which is how a deadlock is
/// provoked deliberately.
#[derive(Debug)]
pub struct Scripted {
    pub name: String,
    pub script: Vec<ScriptedClaim>,
}

/// A race that grants two chosen ability-score increases, one chosen skill
/// proficiency, a chosen language beside Common, a fixed Medium size, and one
/// chosen feat carried as a nested contributor.
#[derive(Debug)]
pub struct VariantHuman {
    pub abilities: Vec<Ability>,
    pub skill: Skill,
    pub feat: Box<Contributor>,
    pub language: Language,
}

/// A rule contributor, one tagged variant per kind.
#[derive(Debug)]
pub enum Contributor {
    /// The distinguished fallback: contributes nothing in any phase.
    Unknown,
    /// The shared rules that derive the six ability modifiers.
    CommonRules,
    /// The Variant Human race.
    VariantHuman(VariantHuman),
    /// A data-driven contributor, mainly for registry-provided content.
    Scripted(Scripted),
}


/// The staged field that holds the score of ability `a`.
pub open spec fn field_of(a: Ability) -> FieldName {
    match a {
        Ability::Strength => FieldName::Strength,
        Ability::Dexterity => FieldName::Dexterity,
        Ability::Constitution => FieldName::Constitution,
        Ability::Intelligence => FieldName::Intelligence,
        Ability::Wisdom => FieldName::Wisdom,
        Ability::Charisma => FieldName::Charisma,
    }
}

/// The modifier-phase claim set of ability `a`'s staged score field.
pub open spec fn ability_mods(c: Character, a: Ability) -> Set<Seq<char>> {
    match a {
        Ability::Strength => c.strength.modifiers(),
        Ability::Dexterity => c.dexterity.modifiers(),
        Ability::Constitution => c.constitution.modifiers(),
        Ability::Intelligence => c.intelligence.modifiers(),
        Ability::Wisdom => c.wisdom.modifiers(),
        Ability::Charisma => c.charisma.modifiers(),
    }
}

/// The initializer-phase claim set of ability `a`'s staged score field.
pub open spec fn ability_inits(c: Character, a: Ability) -> Set<Seq<char>> {
    match a {
        Ability::Strength => c.strength.initializers(),
        Ability::Dexterity => c.dexterity.initializers(),
        Ability::Constitution => c.constitution.initializers(),
        Ability::Intelligence => c.intelligence.initializers(),
        Ability::Wisdom => c.wisdom.initializers(),
        Ability::Charisma => c.charisma.initializers(),
    }
}

/// The staged score of ability `a`.
pub open spec fn ability_score(c: Character, a: Ability) -> u32 {
    match a {
        Ability::Strength => c.strength.val(),
        Ability::Dexterity => c.dexterity.val(),
        Ability::Constitution => c.constitution.val(),
        Ability::Intelligence => c.intelligence.val(),
        Ability::Wisdom => c.wisdom.val(),
        Ability::Charisma => c.charisma.val(),
    }
}

/// What the shared rules' declare pass does: each of the six modifier fields'
/// initializer sets gains the shared rules' id; nothing else changes.
pub open spec fn common_rules_declared(a: Character, b: Character) -> bool {
    &&& b.strength_modifier.initializers() == a.strength_modifier.initializers().insert("Common Rules"@)
    &&& b.strength_modifier.modifiers() == a.strength_modifier.modifiers()
    &&& b.strength_modifier.finalizers() == a.strength_modifier.finalizers()
    &&& b.dexterity_modifier.initializers() == a.dexterity_modifier.initializers().insert("Common Rules"@)
    &&& b.dexterity_modifier.modifiers() == a.dexterity_modifier.modifiers()
    &&& b.dexterity_modifier.finalizers() == a.dexterity_modifier.finalizers()
    &&& b.constitution_modifier.initializers() == a.constitution_modifier.initializers().insert("Common Rules"@)
    &&& b.constitution_modifier.modifiers() == a.constitution_modifier.modifiers()
    &&& b.constitution_modifier.finalizers() == a.constitution_modifier.finalizers()
    &&& b.intelligence_modifier.initializers() == a.intelligence_modifier.initializers().insert("Common Rules"@)
    &&& b.intelligence_modifier.modifiers() == a.intelligence_modifier.modifiers()
    &&& b.intelligence_modifier.finalizers() == a.intelligence_modifier.finalizers()
    &&& b.wisdom_modifier.initializers() == a.wisdom_modifier.initializers().insert("Common Rules"@)
    &&& b.wisdom_modifier.modifiers() == a.wisdom_modifier.modifiers()
    &&& b.wisdom_modifier.finalizers() == a.wisdom_modifier.finalizers()
    &&& b.charisma_modifier.initializers() == a.charisma_modifier.initializers().insert("Common Rules"@)
    &&& b.charisma_modifier.modifiers() == a.charisma_modifier.modifiers()
    &&& b.charisma_modifier.finalizers() == a.charisma_modifier.finalizers()
    &&& Staged::same_claims(a.name, b.name)
    &&& Staged::same_claims(a.total_level, b.total_level)
    &&& Staged::same_claims(a.race_name, b.race_name)
    &&& Staged::same_claims(a.class_names, b.class_names)
    &&& Staged::same_claims(a.proficiency_bonus, b.proficiency_bonus)
    &&& Staged::same_claims(a.initiative, b.initiative)
    &&& Staged::same_claims(a.health, b.health)
    &&& Staged::same_claims(a.temp_health, b.temp_health)
    &&& Staged::same_claims(a.max_health, b.max_health)
    &&& Staged::same_claims(a.strength, b.strength)
    &&& Staged::same_claims(a.dexterity, b.dexterity)
    &&& Staged::same_claims(a.constitution, b.constitution)
    &&& Staged::same_claims(a.intelligence, b.intelligence)
    &&& Staged::same_claims(a.wisdom, b.wisdom)
    &&& Staged::same_claims(a.charisma, b.charisma)
    &&& Staged::same_claims(a.size, b.size)
    &&& Staged::same_claims(a.skill_proficiencies, b.skill_proficiencies)
    &&& Staged::same_claims(a.tool_proficiencies, b.tool_proficiencies)
    &&& Staged::same_claims(a.languages, b.languages)
    &&& Staged::same_claims(a.walking_speed, b.walking_speed)
    &&& Staged::same_claims(a.flying_speed, b.flying_speed)
    &&& Staged::same_claims(a.climbing_speed, b.climbing_speed)
    &&& Staged::same_claims(a.swimming_speed, b.swimming_speed)
    &&& Staged::same_claims(a.burrowing_speed, b.burrowing_speed)
    &&& Staged::same_claims(a.attacks_per_action, b.attacks_per_action)
    &&& Staged::same_claims(a.saving_throw_notes, b.saving_throw_notes)
    &&& Character::same_values(a, b)
}


/// What the Variant Human's declare pass guarantees afterwards: its id is
/// pending as an initializer on its name, size, language and skill fields and
/// as a modifier on each chosen ability score.
pub open spec fn vh_declared(v: &VariantHuman, b: Character) -> bool {
    &&& b.race_name.initializers().contains("Variant Human"@)
    &&& b.size.initializers().contains("Variant Human"@)
    &&& b.languages.initializers().contains("Variant Human"@)
    &&& b.skill_proficiencies.initializers().contains("Variant Human"@)
    &&& forall|k: int|
        0 <= k < v.abilities@.len() ==> (#[trigger] ability_mods(b, v.abilities@[k])).contains(
            "Variant Human"@,
        )
}


/// A pending modifier claim on an ability survives any step that only
/// inserts claims.
proof fn lemma_grow_keeps_ability_mod(a: Character, b: Character, x: Ability, id: Seq<char>)
    requires
        Character::claims_grow(a, b),
        ability_mods(a, x).contains(id),
    ensures
        ability_mods(b, x).contains(id),
{
}


/// One shared-rules round: for each ability whose own claims have all
/// cleared, the pending modifier-initializer claim is removed and the
/// modifier derived from the score; a not-yet-resolved ability blocks its
/// pair untouched. Nothing else changes.
pub open spec fn common_rules_iterated(a: Character, b: Character) -> bool {
    &&& (a.strength.resolved() ==> {
        &&& b.strength_modifier.initializers() == a.strength_modifier.initializers().remove("Common Rules"@)
        &&& (a.strength_modifier.initializers().contains("Common Rules"@) ==> b.strength_modifier.val() as int == modifier_of(
            a.strength.val() as int,
        ))
        &&& (!a.strength_modifier.initializers().contains("Common Rules"@) ==> b.strength_modifier.val() == a.strength_modifier.val())
    })
    &&& (!a.strength.resolved() ==> Staged::same_claims(a.strength_modifier, b.strength_modifier) && b.strength_modifier.val() == a.strength_modifier.val())
    &&& b.strength_modifier.modifiers() == a.strength_modifier.modifiers()
    &&& b.strength_modifier.finalizers() == a.strength_modifier.finalizers()
    &&& (a.dexterity.resolved() ==> {
        &&& b.dexterity_modifier.initializers() == a.dexterity_modifier.initializers().remove("Common Rules"@)
        &&& (a.dexterity_modifier.initializers().contains("Common Rules"@) ==> b.dexterity_modifier.val() as int == modifier_of(
            a.dexterity.val() as int,
        ))
        &&& (!a.dexterity_modifier.initializers().contains("Common Rules"@) ==> b.dexterity_modifier.val() == a.dexterity_modifier.val())
    })
    &&& (!a.dexterity.resolved() ==> Staged::same_claims(a.dexterity_modifier, b.dexterity_modifier) && b.dexterity_modifier.val() == a.dexterity_modifier.val())
    &&& b.dexterity_modifier.modifiers() == a.dexterity_modifier.modifiers()
    &&& b.dexterity_modifier.finalizers() == a.dexterity_modifier.finalizers()
    &&& (a.constitution.resolved() ==> {
        &&& b.constitution_modifier.initializers() == a.constitution_modifier.initializers().remove("Common Rules"@)
        &&& (a.constitution_modifier.initializers().contains("Common Rules"@) ==> b.constitution_modifier.val() as int == modifier_of(
            a.constitution.val() as int,
        ))
        &&& (!a.constitution_modifier.initializers().contains("Common Rules"@) ==> b.constitution_modifier.val() == a.constitution_modifier.val())
    })
    &&& (!a.constitution.resolved() ==> Staged::same_claims(a.constitution_modifier, b.constitution_modifier) && b.constitution_modifier.val() == a.constitution_modifier.val())
    &&& b.constitution_modifier.modifiers() == a.constitution_modifier.modifiers()
    &&& b.constitution_modifier.finalizers() == a.constitution_modifier.finalizers()
    &&& (a.intelligence.resolved() ==> {
        &&& b.intelligence_modifier.initializers() == a.intelligence_modifier.initializers().remove("Common Rules"@)
        &&& (a.intelligence_modifier.initializers().contains("Common Rules"@) ==> b.intelligence_modifier.val() as int == modifier_of(
            a.intelligence.val() as int,
        ))
        &&& (!a.intelligence_modifier.initializers().contains("Common Rules"@) ==> b.intelligence_modifier.val() == a.intelligence_modifier.val())
    })
    &&& (!a.intelligence.resolved() ==> Staged::same_claims(a.intelligence_modifier, b.intelligence_modifier) && b.intelligence_modifier.val() == a.intelligence_modifier.val())
    &&& b.intelligence_modifier.modifiers() == a.intelligence_modifier.modifiers()
    &&& b.intelligence_modifier.finalizers() == a.intelligence_modifier.finalizers()
    &&& (a.wisdom.resolved() ==> {
        &&& b.wisdom_modifier.initializers() == a.wisdom_modifier.initializers().remove("Common Rules"@)
        &&& (a.wisdom_modifier.initializers().contains("Common Rules"@) ==> b.wisdom_modifier.val() as int == modifier_of(
            a.wisdom.val() as int,
        ))
        &&& (!a.wisdom_modifier.initializers().contains("Common Rules"@) ==> b.wisdom_modifier.val() == a.wisdom_modifier.val())
    })
    &&& (!a.wisdom.resolved() ==> Staged::same_claims(a.wisdom_modifier, b.wisdom_modifier) && b.wisdom_modifier.val() == a.wisdom_modifier.val())
    &&& b.wisdom_modifier.modifiers() == a.wisdom_modifier.modifiers()
    &&& b.wisdom_modifier.finalizers() == a.wisdom_modifier.finalizers()
    &&& (a.charisma.resolved() ==> {
        &&& b.charisma_modifier.initializers() == a.charisma_modifier.initializers().remove("Common Rules"@)
        &&& (a.charisma_modifier.initializers().contains("Common Rules"@) ==> b.charisma_modifier.val() as int == modifier_of(
            a.charisma.val() as int,
        ))
        &&& (!a.charisma_modifier.initializers().contains("Common Rules"@) ==> b.charisma_modifier.val() == a.charisma_modifier.val())
    })
    &&& (!a.charisma.resolved() ==> Staged::same_claims(a.charisma_modifier, b.charisma_modifier) && b.charisma_modifier.val() == a.charisma_modifier.val())
    &&& b.charisma_modifier.modifiers() == a.charisma_modifier.modifiers()
    &&& b.charisma_modifier.finalizers() == a.charisma_modifier.finalizers()
    &&& Staged::same_claims(a.name, b.name)
    &&& b.name.val() == a.name.val()
    &&& Staged::same_claims(a.total_level, b.total_level)
    &&& b.total_level.val() == a.total_level.val()
    &&& Staged::same_claims(a.race_name, b.race_name)
    &&& b.race_name.val() == a.race_name.val()
    &&& Staged::same_claims(a.class_names, b.class_names)
    &&& b.class_names.val() == a.class_names.val()
    &&& Staged::same_claims(a.proficiency_bonus, b.proficiency_bonus)
    &&& b.proficiency_bonus.val() == a.proficiency_bonus.val()
    &&& Staged::same_claims(a.initiative, b.initiative)
    &&& b.initiative.val() == a.initiative.val()
    &&& Staged::same_claims(a.health, b.health)
    &&& b.health.val() == a.health.val()
    &&& Staged::same_claims(a.temp_health, b.temp_health)
    &&& b.temp_health.val() == a.temp_health.val()
    &&& Staged::same_claims(a.max_health, b.max_health)
    &&& b.max_health.val() == a.max_health.val()
    &&& Staged::same_claims(a.strength, b.strength)
    &&& b.strength.val() == a.strength.val()
    &&& Staged::same_claims(a.dexterity, b.dexterity)
    &&& b.dexterity.val() == a.dexterity.val()
    &&& Staged::same_claims(a.constitution, b.constitution)
    &&& b.constitution.val() == a.constitution.val()
    &&& Staged::same_claims(a.intelligence, b.intelligence)
    &&& b.intelligence.val() == a.intelligence.val()
    &&& Staged::same_claims(a.wisdom, b.wisdom)
    &&& b.wisdom.val() == a.wisdom.val()
    &&& Staged::same_claims(a.charisma, b.charisma)
    &&& b.charisma.val() == a.charisma.val()
    &&& Staged::same_claims(a.size, b.size)
    &&& b.size.val() == a.size.val()
    &&& Staged::same_claims(a.skill_proficiencies, b.skill_proficiencies)
    &&& b.skill_proficiencies.val() == a.skill_proficiencies.val()
    &&& Staged::same_claims(a.tool_proficiencies, b.tool_proficiencies)
    &&& b.tool_proficiencies.val() == a.tool_proficiencies.val()
    &&& Staged::same_claims(a.languages, b.languages)
    &&& b.languages.val() == a.languages.val()
    &&& Staged::same_claims(a.walking_speed, b.walking_speed)
    &&& b.walking_speed.val() == a.walking_speed.val()
    &&& Staged::same_claims(a.flying_speed, b.flying_speed)
    &&& b.flying_speed.val() == a.flying_speed.val()
    &&& Staged::same_claims(a.climbing_speed, b.climbing_speed)
    &&& b.climbing_speed.val() == a.climbing_speed.val()
    &&& Staged::same_claims(a.swimming_speed, b.swimming_speed)
    &&& b.swimming_speed.val() == a.swimming_speed.val()
    &&& Staged::same_claims(a.burrowing_speed, b.burrowing_speed)
    &&& b.burrowing_speed.val() == a.burrowing_speed.val()
    &&& Staged::same_claims(a.attacks_per_action, b.attacks_per_action)
    &&& b.attacks_per_action.val() == a.attacks_per_action.val()
    &&& Staged::same_claims(a.saving_throw_notes, b.saving_throw_notes)
    &&& b.saving_throw_notes.val() == a.saving_throw_notes.val()
    &&& Character::same_lists(a, b)
}

/// One Variant Human round: its initializer claims on name, size, languages
/// and skill are cleared (and can never reappear, since iterating only
/// removes claims); with the inert fallback feat, the gated value effects are
/// exact: size Medium, the race name, Common plus the chosen language, the
/// chosen skill proficiency, and one point on each distinct chosen ability
/// whose initializers had cleared while its claim was pending.
pub open spec fn vh_iterated(v: &VariantHuman, a: Character, b: Character) -> bool {
    &&& !b.race_name.initializers().contains("Variant Human"@)
    &&& !b.size.initializers().contains("Variant Human"@)
    &&& !b.languages.initializers().contains("Variant Human"@)
    &&& !b.skill_proficiencies.initializers().contains("Variant Human"@)
    &&& (*v.feat is Unknown ==> {
        &&& (a.size.initializers().contains("Variant Human"@) ==> b.size.val()
            == CreatureSize::Medium)
        &&& (!a.size.initializers().contains("Variant Human"@) ==> b.size.val() == a.size.val())
        &&& (a.race_name.initializers().contains("Variant Human"@) ==> b.race_name.val()@
            == "Variant Human"@)
        &&& (a.languages.initializers().contains("Variant Human"@) ==> b.languages.val()@
            == a.languages.val()@ + (if v.language is Unspecified {
            seq![Language::Common]
        } else {
            seq![Language::Common, v.language]
        }))
        &&& (!a.languages.initializers().contains("Variant Human"@) ==> b.languages.val()
            == a.languages.val())
        &&& (a.skill_proficiencies.initializers().contains("Variant Human"@)
            ==> b.skill_proficiencies.val()@ == a.skill_proficiencies.val()@.push(
            (v.skill, ProficiencyType::SINGLE),
        ))
        &&& (v.abilities@.no_duplicates() ==> forall|k: int|
            0 <= k < v.abilities@.len() && ability_inits(a, v.abilities@[k])
                == Set::<Seq<char>>::empty() && (#[trigger] ability_mods(
                a,
                v.abilities@[k],
            )).contains("Variant Human"@) ==> ability_score(b, v.abilities@[k]) as int == (
            if ability_score(a, v.abilities@[k]) < u32::MAX {
                ability_score(a, v.abilities@[k]) + 1
            } else {
                ability_score(a, v.abilities@[k]) as int
            }))
    })
}

/// Attempts the Variant Human's plus-one on one ability: if every initializer
/// on the score field has cleared and `who`'s modifier claim is pending, the
/// claim clears and the score rises by one (stopping at the integer maximum);
/// otherwise a silent no-op. No other field is touched.
#[verifier::rlimit(100)]
fn bump_ability(c: &mut Character, a: Ability, who: &str)
    requires
        old(c).wf(),
    ensures
        final(c).wf(),
        final(c).count_spec() <= old(c).count_spec(),
        Character::claims_shrink(*old(c), *final(c)),
        Character::claims_except(*old(c), *final(c), field_of(a)),
        Character::values_unchanged_except(*old(c), *final(c), field_of(a)),
        forall|a2: Ability| #[trigger] ability_inits(*final(c), a2) == ability_inits(*old(c), a2),
        forall|a2: Ability|
            a2 != a ==> (#[trigger] ability_mods(*final(c), a2) == ability_mods(*old(c), a2)
                && ability_score(*final(c), a2) == ability_score(*old(c), a2)),
        ability_inits(*old(c), a) == Set::<Seq<char>>::empty() ==> {
            &&& ability_mods(*final(c), a) == ability_mods(*old(c), a).remove(who@)
            &&& (ability_mods(*old(c), a).contains(who@) ==> ability_score(*final(c), a) as int
                == (if ability_score(*old(c), a) < u32::MAX {
                ability_score(*old(c), a) + 1
            } else {
                ability_score(*old(c), a) as int
            }))
            &&& (!ability_mods(*old(c), a).contains(who@) ==> ability_score(*final(c), a)
                == ability_score(*old(c), a))
        },
        ability_inits(*old(c), a) != Set::<Seq<char>>::empty() ==> *final(c) == *old(c),
{
    match a {
        Ability::Strength => {
            if c.strength.modify(who) {
                let v = *c.strength.get();
                c.strength.set(
                    if v < u32::MAX {
                        v + 1
                    } else {
                        v
                    },
                );
            }
        },
        Ability::Dexterity => {
            if c.dexterity.modify(who) {
                let v = *c.dexterity.get();
                c.dexterity.set(
                    if v < u32::MAX {
                        v + 1
                    } else {
                        v
                    },
                );
            }
        },
        Ability::Constitution => {
            if c.constitution.modify(who) {
                let v = *c.constitution.get();
                c.constitution.set(
                    if v < u32::MAX {
                        v + 1
                    } else {
                        v
                    },
                );
            }
        },
        Ability::Intelligence => {
            if c.intelligence.modify(who) {
                let v = *c.intelligence.get();
                c.intelligence.set(
                    if v < u32::MAX {
                        v + 1
                    } else {
                        v
                    },
                );
            }
        },
        Ability::Wisdom => {
            if c.wisdom.modify(who) {
                let v = *c.wisdom.get();
                c.wisdom.set(
                    if v < u32::MAX {
                        v + 1
                    } else {
                        v
                    },
                );
            }
        },
        Ability::Charisma => {
            if c.charisma.modify(who) {
                let v = *c.charisma.get();
                c.charisma.set(
                    if v < u32::MAX {
                        v + 1
                    } else {
                        v
                    },
                );
            }
        },
    }
}


/// What the Variant Human's last pass appends: its four trait descriptions,
/// in order, after whatever was already there; with the inert fallback feat
/// they are exactly the four new entries and no other list changes.
pub open spec fn vh_lasted(v: &VariantHuman, a: Character, b: Character) -> bool {
    &&& b.race_traits@.len() >= a.race_traits@.len() + 4
    &&& b.race_traits@[a.race_traits@.len() as int].text@
        == "**Ability Score Increase:** Two different ability scores of your choice increase by 1."@
    &&& b.race_traits@[a.race_traits@.len() as int + 1].text@
        == "**Skills:** You gain proficiency in one skill of your choice."@
    &&& b.race_traits@[a.race_traits@.len() as int + 2].text@
        == "**Languages:** You can speak, read, and write Common and one extra language of your choice."@
    &&& b.race_traits@[a.race_traits@.len() as int + 3].text@
        == "**Feat:** You gain one feat of your choice."@
    &&& (*v.feat is Unknown ==> {
        &&& b.race_traits@.len() == a.race_traits@.len() + 4
        &&& b.class_features == a.class_features
        &&& b.background_features == a.background_features
        &&& b.feat_features == a.feat_features
        &&& b.actions == a.actions
        &&& b.bonus_actions == a.bonus_actions
        &&& b.reactions == a.reactions
    })
}

impl Contributor {
    /// An upper bound on how many claims this contributor's declare pass adds.
    pub open spec fn declare_budget(&self) -> nat
        decreases self,
    {
        match self {
            Contributor::Unknown => 0,
            Contributor::CommonRules => 6,
            Contributor::VariantHuman(v) => 4 + v.abilities@.len() + v.feat.declare_budget(),
            Contributor::Scripted(s) => s.script@.len(),
        }
    }

    /// Declare phase: registers every claim this contributor intends to
    /// resolve, tagged with its own stable name.
    pub fn declare(&self, c: &mut Character)
        requires
            old(c).wf(),
        ensures
            final(c).wf(),
            final(c).count_spec() <= old(c).count_spec() + self.declare_budget(),
            Character::same_values(*old(c), *final(c)),
            Character::claims_grow(*old(c), *final(c)),
            self.declare_budget() == 0 ==> *final(c) == *old(c),
            self is CommonRules ==> common_rules_declared(*old(c), *final(c)),
            self matches Contributor::VariantHuman(v) ==> vh_declared(v, *final(c)),
            self matches Contributor::Scripted(sc) ==> (forall|k: int|
                0 <= k < sc.script@.len() ==> (#[trigger] final(c).claim_set_at(
                    sc.script@[k].field,
                    sc.script@[k].phase,
                )).contains(sc.name@)),
        decreases *self,
    {
        match self {
            Contributor::Unknown => {},
            Contributor::CommonRules => {
                common_rules_declare(c);
            },
            Contributor::VariantHuman(v) => {
                v.declare(c);
            },
            Contributor::Scripted(s) => {
                s.declare(c);
            },
        }
    }

    /// Iterate phase: attempts this contributor's own resolutions; blocked
    /// attempts are silent no-ops, so the pending count never grows.
    pub fn iterate(&self, c: &mut Character)
        requires
            old(c).wf(),
        ensures
            final(c).wf(),
            final(c).count_spec() <= old(c).count_spec(),
            Character::claims_shrink(*old(c), *final(c)),
            Character::same_lists(*old(c), *final(c)),
            self.declare_budget() == 0 ==> *final(c) == *old(c),
            self is CommonRules ==> common_rules_iterated(*old(c), *final(c)),
            self matches Contributor::VariantHuman(v) ==> vh_iterated(v, *old(c), *final(c)),
        decreases *self,
    {
        match self {
            Contributor::Unknown => {},
            Contributor::CommonRules => {
                common_rules_iterate(c);
            },
            Contributor::VariantHuman(v) => {
                v.iterate(c);
            },
            Contributor::Scripted(s) => {
                s.iterate(c);
            },
        }
    }

    /// Last phase, success path only: appends human-meaningful feature
    /// entries; the claim bookkeeping is already clear and stays untouched.
    pub fn last(&self, c: &mut Character)
        requires
            old(c).wf(),
        ensures
            final(c).wf(),
            final(c).count_spec() == old(c).count_spec(),
            Character::same_claims(*old(c), *final(c)),
            Character::same_staged_values(*old(c), *final(c)),
            Character::lists_extend(*old(c), *final(c)),
            self.declare_budget() == 0 ==> *final(c) == *old(c),
            !(self is VariantHuman) ==> *final(c) == *old(c),
            self matches Contributor::VariantHuman(v) ==> vh_lasted(v, *old(c), *final(c)),
        decreases *self,
    {
        match self {
            Contributor::Unknown => {},
            Contributor::CommonRules => {},
            Contributor::VariantHuman(v) => {
                v.last(c);
            },
            Contributor::Scripted(_) => {},
        }
    }
}

impl Default for Contributor {
    /// The distinguished fallback used when nothing has been chosen yet.
    fn default() -> (r: Self)
        ensures
            r is Unknown,
    {
        Contributor::Unknown
    }
}

impl VariantHuman {
    /// The stable claimant id of this race.
    fn name() -> (r: &'static str)
        ensures
            r@ == "Variant Human"@,
    {
        "Variant Human"
    }

    /// Declares this race's claims: its name, size, languages and chosen skill
    /// as initializer claims, one modifier claim per chosen ability, and
    /// whatever the nested feat declares.
    #[verifier::rlimit(100)]
    pub fn declare(&self, c: &mut Character)
        requires
            old(c).wf(),
        ensures
            final(c).wf(),
            final(c).count_spec() <= old(c).count_spec() + 4 + self.abilities@.len()
                + self.feat.declare_budget(),
            Character::same_values(*old(c), *final(c)),
            Character::claims_grow(*old(c), *final(c)),
            vh_declared(self, *final(c)),
        decreases *self,
    {
        c.race_name.declare_initializer(Self::name());
        c.size.declare_initializer(Self::name());
        c.languages.declare_initializer(Self::name());
        c.skill_proficiencies.declare_initializer(Self::name());
        let ghost mid = *c;
        let ghost base = c.count_spec();
        let mut i: usize = 0;
        while i < self.abilities.len()
            invariant
                c.wf(),
                i <= self.abilities@.len(),
                c.count_spec() <= base + i,
                Character::same_values(mid, *c),
                Character::claims_grow(mid, *c),
                c.race_name.initializers().contains("Variant Human"@),
                c.size.initializers().contains("Variant Human"@),
                c.languages.initializers().contains("Variant Human"@),
                c.skill_proficiencies.initializers().contains("Variant Human"@),
                forall|k: int|
                    0 <= k < i ==> (#[trigger] ability_mods(*c, self.abilities@[k])).contains(
                        "Variant Human"@,
                    ),
            decreases self.abilities@.len() - i,
        {
            let ghost pre = *c;
            let a = self.abilities[i];
            declare_ability_mod(c, a, Self::name());
            proof {
                assert forall|k: int|
                    0 <= k < i + 1 implies (#[trigger] ability_mods(*c, self.abilities@[k])).contains(
                    "Variant Human"@,
                ) by {
                    let ak = self.abilities@[k];
                    if k < i {
                        if ak != a {
                            assert(ability_mods(*c, ak) == ability_mods(pre, ak));
                        }
                    }
                }
            }
            i = i + 1;
        }
        let ghost before_feat = *c;
        self.feat.declare(c);
        proof {
            assert forall|k: int|
                0 <= k < self.abilities@.len() implies (#[trigger] ability_mods(
                *c,
                self.abilities@[k],
            )).contains("Variant Human"@) by {
                lemma_grow_keeps_ability_mod(before_feat, *c, self.abilities@[k], "Variant Human"@);
            }
        }
    }

    /// One round of this race's resolutions: size to Medium, Common plus the
    /// chosen language, one point on each chosen ability once its initializers
    /// have cleared, the chosen skill proficiency, then the nested feat.
    #[verifier::rlimit(100)]
    pub fn iterate(&self, c: &mut Character)
        requires
            old(c).wf(),
        ensures
            final(c).wf(),
            final(c).count_spec() <= old(c).count_spec(),
            Character::claims_shrink(*old(c), *final(c)),
            Character::same_lists(*old(c), *final(c)),
            vh_iterated(self, *old(c), *final(c)),
        decreases *self,
    {
        if c.race_name.initialize(Self::name()) {
            c.race_name.set("Variant Human".to_owned());
        }
        if c.size.initialize(Self::name()) {
            c.size.set(CreatureSize::Medium);
        }
        if c.languages.initialize(Self::name()) {
            let mut l = c.languages.replace(Vec::new());
            l.push(Language::Common);
            match &self.language {
                Language::Unspecified => {},
                lang => {
                    l.push(lang.clone());
                },
            }
            c.languages.set(l);
            proof {
                if !(self.language is Unspecified) {
                    assert(c.languages.val()@ =~= old(c).languages.val()@ + seq![
                        Language::Common,
                        self.language,
                    ]);
                } else {
                    assert(c.languages.val()@ =~= old(c).languages.val()@ + seq![
                        Language::Common,
                    ]);
                }
            }
        }
        if c.skill_proficiencies.initialize(Self::name()) {
            let mut sp = c.skill_proficiencies.replace(Vec::new());
            sp.push((self.skill, ProficiencyType::SINGLE));
            c.skill_proficiencies.set(sp);
        }
        let ghost mid = *c;
        let ghost base = c.count_spec();
        let mut i: usize = 0;
        while i < self.abilities.len()
            invariant
                c.wf(),
                i <= self.abilities@.len(),
                c.count_spec() <= base,
                Character::claims_shrink(mid, *c),
                Character::same_lists(mid, *c),
                !c.race_name.initializers().contains("Variant Human"@),
                !c.size.initializers().contains("Variant Human"@),
                !c.languages.initializers().contains("Variant Human"@),
                !c.skill_proficiencies.initializers().contains("Variant Human"@),
                c.race_name.val() == mid.race_name.val(),
                c.size.val() == mid.size.val(),
                c.languages.val() == mid.languages.val(),
                c.skill_proficiencies.val() == mid.skill_proficiencies.val(),
                forall|x: Ability| #[trigger] ability_inits(*c, x) == ability_inits(mid, x),
                self.abilities@.no_duplicates() ==> forall|k: int|
                    i <= k < self.abilities@.len() ==> (#[trigger] ability_mods(
                        *c,
                        self.abilities@[k],
                    ) == ability_mods(mid, self.abilities@[k]) && ability_score(
                        *c,
                        self.abilities@[k],
                    ) == ability_score(mid, self.abilities@[k])),
                self.abilities@.no_duplicates() ==> forall|k: int|
                    0 <= k < i && ability_inits(mid, self.abilities@[k])
                        == Set::<Seq<char>>::empty() && (#[trigger] ability_mods(
                        mid,
                        self.abilities@[k],
                    )).contains("Variant Human"@) ==> ability_score(*c, self.abilities@[k]) as int
                        == (if ability_score(mid, self.abilities@[k]) < u32::MAX {
                        ability_score(mid, self.abilities@[k]) + 1
                    } else {
                        ability_score(mid, self.abilities@[k]) as int
                    }),
            decreases self.abilities@.len() - i,
        {
            let ghost pre = *c;
            let a = self.abilities[i];
            bump_ability(c, a, Self::name());
            proof {
                if self.abilities@.no_duplicates() {
                    assert forall|k: int|
                        i + 1 <= k < self.abilities@.len() implies (#[trigger] ability_mods(
                        *c,
                        self.abilities@[k],
                    ) == ability_mods(mid, self.abilities@[k]) && ability_score(
                        *c,
                        self.abilities@[k],
                    ) == ability_score(mid, self.abilities@[k])) by {
                        assert(self.abilities@[k] != self.abilities@[i as int]);
                        assert(ability_mods(pre, self.abilities@[k]) == ability_mods(
                            mid,
                            self.abilities@[k],
                        ));
                        assert(ability_score(pre, self.abilities@[k]) == ability_score(
                            mid,
                            self.abilities@[k],
                        ));
                        assert(ability_mods(*c, self.abilities@[k]) == ability_mods(
                            pre,
                            self.abilities@[k],
                        ));
                        assert(ability_score(*c, self.abilities@[k]) == ability_score(
                            pre,
                            self.abilities@[k],
                        ));
                    }
                    assert forall|k: int|
                        0 <= k < i + 1 && ability_inits(mid, self.abilities@[k])
                            == Set::<Seq<char>>::empty() && (#[trigger] ability_mods(
                            mid,
                            self.abilities@[k],
                        )).contains("Variant Human"@) implies ability_score(
                        *c,
                        self.abilities@[k],
                    ) as int == (if ability_score(mid, self.abilities@[k]) < u32::MAX {
                        ability_score(mid, self.abilities@[k]) + 1
                    } else {
                        ability_score(mid, self.abilities@[k]) as int
                    }) by {
                        if k < i {
                            assert(self.abilities@[k] != self.abilities@[i as int]);
                            assert(ability_score(*c, self.abilities@[k]) == ability_score(
                                pre,
                                self.abilities@[k],
                            ));
                        } else {
                            assert(ability_mods(pre, self.abilities@[k]) == ability_mods(
                                mid,
                                self.abilities@[k],
                            ));
                            assert(ability_score(pre, self.abilities@[k]) == ability_score(
                                mid,
                                self.abilities@[k],
                            ));
                            assert(ability_inits(pre, self.abilities@[k]) == ability_inits(
                                mid,
                                self.abilities@[k],
                            ));
                        }
                    }
                }
            }
            i = i + 1;
        }
        let ghost before_feat = *c;
        self.feat.iterate(c);
        proof {
            assert(c.race_name.initializers().subset_of(before_feat.race_name.initializers()));
            assert(c.size.initializers().subset_of(before_feat.size.initializers()));
            assert(c.languages.initializers().subset_of(before_feat.languages.initializers()));
            assert(c.skill_proficiencies.initializers().subset_of(
                before_feat.skill_proficiencies.initializers(),
            ));
            if *self.feat is Unknown {
                assert((*self.feat).declare_budget() == 0);
                assert(*c == before_feat);
                if self.abilities@.no_duplicates() {
                    assert forall|k: int|
                        0 <= k < self.abilities@.len() && ability_inits(
                            *old(c),
                            self.abilities@[k],
                        ) == Set::<Seq<char>>::empty() && (#[trigger] ability_mods(
                            *old(c),
                            self.abilities@[k],
                        )).contains("Variant Human"@) implies ability_score(
                        *c,
                        self.abilities@[k],
                    ) as int == (if ability_score(*old(c), self.abilities@[k]) < u32::MAX {
                        ability_score(*old(c), self.abilities@[k]) + 1
                    } else {
                        ability_score(*old(c), self.abilities@[k]) as int
                    }) by {
                        assert(ability_inits(mid, self.abilities@[k]) == ability_inits(
                            *old(c),
                            self.abilities@[k],
                        ));
                        assert(ability_mods(mid, self.abilities@[k]) == ability_mods(
                            *old(c),
                            self.abilities@[k],
                        ));
                        assert(ability_score(mid, self.abilities@[k]) == ability_score(
                            *old(c),
                            self.abilities@[k],
                        ));
                    }
                }
            }
        }
    }

    /// Appends this race's trait descriptions and forwards to the nested feat.
    #[verifier::rlimit(100)]
    pub fn last(&self, c: &mut Character)
        requires
            old(c).wf(),
        ensures
            final(c).wf(),
            final(c).count_spec() == old(c).count_spec(),
            Character::same_claims(*old(c), *final(c)),
            Character::same_staged_values(*old(c), *final(c)),
            Character::lists_extend(*old(c), *final(c)),
            vh_lasted(self, *old(c), *final(c)),
        decreases *self,
    {
        c.race_traits.push(
            Feature {
                text:
                    "**Ability Score Increase:** Two different ability scores of your choice increase by 1.".to_owned(),
            },
        );
        c.race_traits.push(
            Feature { text: "**Skills:** You gain proficiency in one skill of your choice.".to_owned() },
        );
        c.race_traits.push(
            Feature {
                text:
                    "**Languages:** You can speak, read, and write Common and one extra language of your choice.".to_owned(),
            },
        );
        c.race_traits.push(Feature { text: "**Feat:** You gain one feat of your choice.".to_owned() });
        let ghost mid = *c;
        self.feat.last(c);
        proof {
            if *self.feat is Unknown {
                assert((*self.feat).declare_budget() == 0);
                assert(*c == mid);
            }
        }
    }
}

impl Scripted {
    /// Declares every claim of the script under this contributor's name.
    pub fn declare(&self, c: &mut Character)
        requires
            old(c).wf(),
        ensures
            final(c).wf(),
            final(c).count_spec() <= old(c).count_spec() + self.script@.len(),
            Character::same_values(*old(c), *final(c)),
            Character::claims_grow(*old(c), *final(c)),
            self.script@.len() == 0 ==> *final(c) == *old(c),
            forall|k: int|
                0 <= k < self.script@.len() ==> (#[trigger] final(c).claim_set_at(
                    self.script@[k].field,
                    self.script@[k].phase,
                )).contains(self.name@),
    {
        let ghost base = c.count_spec();
        let mut i: usize = 0;
        while i < self.script.len()
            invariant
                c.wf(),
                i <= self.script@.len(),
                c.count_spec() <= base + i,
                Character::same_values(*old(c), *c),
                Character::claims_grow(*old(c), *c),
                self.script@.len() == 0 ==> *c == *old(c),
                forall|k: int|
                    0 <= k < i ==> (#[trigger] c.claim_set_at(
                        self.script@[k].field,
                        self.script@[k].phase,
                    )).contains(self.name@),
            decreases self.script@.len() - i,
        {
            let ghost pre = *c;
            let a = &self.script[i];
            c.declare_claim(a.field, a.phase, self.name.as_str());
            proof {
                assert forall|k: int|
                    0 <= k < i + 1 implies (#[trigger] c.claim_set_at(
                    self.script@[k].field,
                    self.script@[k].phase,
                )).contains(self.name@) by {
                    let fk = self.script@[k].field;
                    let pk = self.script@[k].phase;
                    if k < i {
                        if fk != self.script@[i as int].field {
                            crate::character::lemma_claims_except_preserves(
                                pre,
                                *c,
                                self.script@[i as int].field,
                                fk,
                                pk,
                            );
                        } else {
                            if pk != self.script@[i as int].phase {
                                match pk {
                                    Phase::Initializer => {},
                                    Phase::Modifier => {},
                                    Phase::Finalizer => {},
                                }
                            }
                        }
                    }
                }
            }
            i = i + 1;
        }
    }

    /// Attempts each scripted resolution once; when a claim clears and the
    /// script carries a value, writes it into the field.
    pub fn iterate(&self, c: &mut Character)
        requires
            old(c).wf(),
        ensures
            final(c).wf(),
            final(c).count_spec() <= old(c).count_spec(),
            Character::claims_shrink(*old(c), *final(c)),
            Character::same_lists(*old(c), *final(c)),
            self.script@.len() == 0 ==> *final(c) == *old(c),
    {
        let ghost base = c.count_spec();
        let mut i: usize = 0;
        while i < self.script.len()
            invariant
                c.wf(),
                i <= self.script@.len(),
                c.count_spec() <= base,
                Character::claims_shrink(*old(c), *c),
                Character::same_lists(*old(c), *c),
                self.script@.len() == 0 ==> *c == *old(c),
            decreases self.script@.len() - i,
        {
            let a = &self.script[i];
            if a.attempt {
                let ok = c.resolve_claim(a.field, a.phase, self.name.as_str());
                if ok {
                    if let Some(v) = &a.value {
                        c.set_field(a.field, v);
                    }
                }
            }
            i = i + 1;
        }
    }
}



/// Declares the shared rules' initializer claim on each of the six ability
/// modifier fields.
#[verifier::rlimit(100)]
fn common_rules_declare(c: &mut Character)
    requires
        old(c).wf(),
    ensures
        final(c).wf(),
        Character::same_values(*old(c), *final(c)),
        Character::claims_grow(*old(c), *final(c)),
        final(c).count_spec() <= old(c).count_spec() + 6,
        common_rules_declared(*old(c), *final(c)),
{
    c.strength_modifier.declare_initializer("Common Rules");
    c.dexterity_modifier.declare_initializer("Common Rules");
    c.constitution_modifier.declare_initializer("Common Rules");
    c.intelligence_modifier.declare_initializer("Common Rules");
    c.wisdom_modifier.declare_initializer("Common Rules");
    c.charisma_modifier.declare_initializer("Common Rules");
}

/// Declares `who` as a modifier claimant on ability `a`'s score field.
#[verifier::rlimit(100)]
fn declare_ability_mod(c: &mut Character, a: Ability, who: &str)
    requires
        old(c).wf(),
    ensures
        final(c).wf(),
        Character::same_values(*old(c), *final(c)),
        Character::claims_grow(*old(c), *final(c)),
        Character::claims_except(*old(c), *final(c), field_of(a)),
        final(c).count_spec() <= old(c).count_spec() + 1,
        ability_mods(*final(c), a) == ability_mods(*old(c), a).insert(who@),
        forall|a2: Ability| a2 != a ==> #[trigger] ability_mods(*final(c), a2) == ability_mods(
            *old(c),
            a2,
        ),
        forall|a2: Ability| #[trigger] ability_inits(*final(c), a2) == ability_inits(*old(c), a2),
{
    match a {
        Ability::Strength => c.strength.declare_modifier(who),
        Ability::Dexterity => c.dexterity.declare_modifier(who),
        Ability::Constitution => c.constitution.declare_modifier(who),
        Ability::Intelligence => c.intelligence.declare_modifier(who),
        Ability::Wisdom => c.wisdom.declare_modifier(who),
        Ability::Charisma => c.charisma.declare_modifier(who),
    }
}

/// One round of the shared rules: once an ability is fully resolved, clear the
/// pending modifier-initializer claim and derive the modifier from the score.
#[verifier::rlimit(100)]
fn common_rules_iterate(c: &mut Character)
    requires
        old(c).wf(),
    ensures
        final(c).wf(),
        final(c).count_spec() <= old(c).count_spec(),
        Character::claims_shrink(*old(c), *final(c)),
        Character::same_lists(*old(c), *final(c)),
        common_rules_iterated(*old(c), *final(c)),
{
    derive_strength_modifier(c);
    derive_dexterity_modifier(c);
    derive_constitution_modifier(c);
    derive_intelligence_modifier(c);
    derive_wisdom_modifier(c);
    derive_charisma_modifier(c);
}


/// One shared-rules step for one ability pair: once the ability's own claims
/// have all cleared, the pending modifier-initializer claim clears and the
/// modifier is derived from the score; otherwise nothing happens.
#[verifier::rlimit(100)]
fn derive_strength_modifier(c: &mut Character)
    requires
        old(c).wf(),
    ensures
        final(c).wf(),
        final(c).count_spec() <= old(c).count_spec(),
        Character::claims_shrink(*old(c), *final(c)),
        Character::same_lists(*old(c), *final(c)),
        Character::claims_except(*old(c), *final(c), FieldName::StrengthModifier),
        Character::values_unchanged_except(*old(c), *final(c), FieldName::StrengthModifier),
        final(c).strength_modifier.modifiers() == old(c).strength_modifier.modifiers(),
        final(c).strength_modifier.finalizers() == old(c).strength_modifier.finalizers(),
        old(c).strength.resolved() ==> {
            &&& final(c).strength_modifier.initializers() == old(c).strength_modifier.initializers().remove("Common Rules"@)
            &&& (old(c).strength_modifier.initializers().contains("Common Rules"@) ==> final(c).strength_modifier.val() as int
                == modifier_of(old(c).strength.val() as int))
            &&& (!old(c).strength_modifier.initializers().contains("Common Rules"@) ==> final(c).strength_modifier.val() == old(
                c,
            ).strength_modifier.val())
        },
        !old(c).strength.resolved() ==> *final(c) == *old(c),
{
    if c.strength.finalized() {
        if c.strength_modifier.initialize("Common Rules") {
            let m = ability_modifier(*c.strength.get());
            c.strength_modifier.set(m);
        }
    }
}

/// One shared-rules step for one ability pair: once the ability's own claims
/// have all cleared, the pending modifier-initializer claim clears and the
/// modifier is derived from the score; otherwise nothing happens.
#[verifier::rlimit(100)]
fn derive_dexterity_modifier(c: &mut Character)
    requires
        old(c).wf(),
    ensures
        final(c).wf(),
        final(c).count_spec() <= old(c).count_spec(),
        Character::claims_shrink(*old(c), *final(c)),
        Character::same_lists(*old(c), *final(c)),
        Character::claims_except(*old(c), *final(c), FieldName::DexterityModifier),
        Character::values_unchanged_except(*old(c), *final(c), FieldName::DexterityModifier),
        final(c).dexterity_modifier.modifiers() == old(c).dexterity_modifier.modifiers(),
        final(c).dexterity_modifier.finalizers() == old(c).dexterity_modifier.finalizers(),
        old(c).dexterity.resolved() ==> {
            &&& final(c).dexterity_modifier.initializers() == old(c).dexterity_modifier.initializers().remove("Common Rules"@)
            &&& (old(c).dexterity_modifier.initializers().contains("Common Rules"@) ==> final(c).dexterity_modifier.val() as int
                == modifier_of(old(c).dexterity.val() as int))
            &&& (!old(c).dexterity_modifier.initializers().contains("Common Rules"@) ==> final(c).dexterity_modifier.val() == old(
                c,
            ).dexterity_modifier.val())
        },
        !old(c).dexterity.resolved() ==> *final(c) == *old(c),
{
    if c.dexterity.finalized() {
        if c.dexterity_modifier.initialize("Common Rules") {
            let m = ability_modifier(*c.dexterity.get());
            c.dexterity_modifier.set(m);
        }
    }
}

/// One shared-rules step for one ability pair: once the ability's own claims
/// have all cleared, the pending modifier-initializer claim clears and the
/// modifier is derived from the score; otherwise nothing happens.
#[verifier::rlimit(100)]
fn derive_constitution_modifier(c: &mut Character)
    requires
        old(c).wf(),
    ensures
        final(c).wf(),
        final(c).count_spec() <= old(c).count_spec(),
        Character::claims_shrink(*old(c), *final(c)),
        Character::same_lists(*old(c), *final(c)),
        Character::claims_except(*old(c), *final(c), FieldName::ConstitutionModifier),
        Character::values_unchanged_except(*old(c), *final(c), FieldName::ConstitutionModifier),
        final(c).constitution_modifier.modifiers() == old(c).constitution_modifier.modifiers(),
        final(c).constitution_modifier.finalizers() == old(c).constitution_modifier.finalizers(),
        old(c).constitution.resolved() ==> {
            &&& final(c).constitution_modifier.initializers() == old(c).constitution_modifier.initializers().remove("Common Rules"@)
            &&& (old(c).constitution_modifier.initializers().contains("Common Rules"@) ==> final(c).constitution_modifier.val() as int
                == modifier_of(old(c).constitution.val() as int))
            &&& (!old(c).constitution_modifier.initializers().contains("Common Rules"@) ==> final(c).constitution_modifier.val() == old(
                c,
            ).constitution_modifier.val())
        },
        !old(c).constitution.resolved() ==> *final(c) == *old(c),
{
    if c.constitution.finalized() {
        if c.constitution_modifier.initialize("Common Rules") {
            let m = ability_modifier(*c.constitution.get());
            c.constitution_modifier.set(m);
        }
    }
}

/// One shared-rules step for one ability pair: once the ability's own claims
/// have all cleared, the pending modifier-initializer claim clears and the
/// modifier is derived from the score; otherwise nothing happens.
#[verifier::rlimit(100)]
fn derive_intelligence_modifier(c: &mut Character)
    requires
        old(c).wf(),
    ensures
        final(c).wf(),
        final(c).count_spec() <= old(c).count_spec(),
        Character::claims_shrink(*old(c), *final(c)),
        Character::same_lists(*old(c), *final(c)),
        Character::claims_except(*old(c), *final(c), FieldName::IntelligenceModifier),
        Character::values_unchanged_except(*old(c), *final(c), FieldName::IntelligenceModifier),
        final(c).intelligence_modifier.modifiers() == old(c).intelligence_modifier.modifiers(),
        final(c).intelligence_modifier.finalizers() == old(c).intelligence_modifier.finalizers(),
        old(c).intelligence.resolved() ==> {
            &&& final(c).intelligence_modifier.initializers() == old(c).intelligence_modifier.initializers().remove("Common Rules"@)
            &&& (old(c).intelligence_modifier.initializers().contains("Common Rules"@) ==> final(c).intelligence_modifier.val() as int
                == modifier_of(old(c).intelligence.val() as int))
            &&& (!old(c).intelligence_modifier.initializers().contains("Common Rules"@) ==> final(c).intelligence_modifier.val() == old(
                c,
            ).intelligence_modifier.val())
        },
        !old(c).intelligence.resolved() ==> *final(c) == *old(c),
{
    if c.intelligence.finalized() {
        if c.intelligence_modifier.initialize("Common Rules") {
            let m = ability_modifier(*c.intelligence.get());
            c.intelligence_modifier.set(m);
        }
    }
}

/// One shared-rules step for one ability pair: once the ability's own claims
/// have all cleared, the pending modifier-initializer claim clears and the
/// modifier is derived from the score; otherwise nothing happens.
#[verifier::rlimit(100)]
fn derive_wisdom_modifier(c: &mut Character)
    requires
        old(c).wf(),
    ensures
        final(c).wf(),
        final(c).count_spec() <= old(c).count_spec(),
        Character::claims_shrink(*old(c), *final(c)),
        Character::same_lists(*old(c), *final(c)),
        Character::claims_except(*old(c), *final(c), FieldName::WisdomModifier),
        Character::values_unchanged_except(*old(c), *final(c), FieldName::WisdomModifier),
        final(c).wisdom_modifier.modifiers() == old(c).wisdom_modifier.modifiers(),
        final(c).wisdom_modifier.finalizers() == old(c).wisdom_modifier.finalizers(),
        old(c).wisdom.resolved() ==> {
            &&& final(c).wisdom_modifier.initializers() == old(c).wisdom_modifier.initializers().remove("Common Rules"@)
            &&& (old(c).wisdom_modifier.initializers().contains("Common Rules"@) ==> final(c).wisdom_modifier.val() as int
                == modifier_of(old(c).wisdom.val() as int))
            &&& (!old(c).wisdom_modifier.initializers().contains("Common Rules"@) ==> final(c).wisdom_modifier.val() == old(
                c,
            ).wisdom_modifier.val())
        },
        !old(c).wisdom.resolved() ==> *final(c) == *old(c),
{
    if c.wisdom.finalized() {
        if c.wisdom_modifier.initialize("Common Rules") {
            let m = ability_modifier(*c.wisdom.get());
            c.wisdom_modifier.set(m);
        }
    }
}

/// One shared-rules step for one ability pair: once the ability's own claims
/// have all cleared, the pending modifier-initializer claim clears and the
/// modifier is derived from the score; otherwise nothing happens.
#[verifier::rlimit(100)]
fn derive_charisma_modifier(c: &mut Character)
    requires
        old(c).wf(),
    ensures
        final(c).wf(),
        final(c).count_spec() <= old(c).count_spec(),
        Character::claims_shrink(*old(c), *final(c)),
        Character::same_lists(*old(c), *final(c)),
        Character::claims_except(*old(c), *final(c), FieldName::CharismaModifier),
        Character::values_unchanged_except(*old(c), *final(c), FieldName::CharismaModifier),
        final(c).charisma_modifier.modifiers() == old(c).charisma_modifier.modifiers(),
        final(c).charisma_modifier.finalizers() == old(c).charisma_modifier.finalizers(),
        old(c).charisma.resolved() ==> {
            &&& final(c).charisma_modifier.initializers() == old(c).charisma_modifier.initializers().remove("Common Rules"@)
            &&& (old(c).charisma_modifier.initializers().contains("Common Rules"@) ==> final(c).charisma_modifier.val() as int
                == modifier_of(old(c).charisma.val() as int))
            &&& (!old(c).charisma_modifier.initializers().contains("Common Rules"@) ==> final(c).charisma_modifier.val() == old(
                c,
            ).charisma_modifier.val())
        },
        !old(c).charisma.resolved() ==> *final(c) == *old(c),
{
    if c.charisma.finalized() {
        if c.charisma_modifier.initialize("Common Rules") {
            let m = ability_modifier(*c.charisma.get());
            c.charisma_modifier.set(m);
        }
    }
}

} // verus!

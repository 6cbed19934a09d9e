//! Plain enumerations of the character sheet: sizes, alignments, abilities,
//! skills, saving throws, proficiency grades and languages.

use vstd::prelude::*;

verus! {

/// A creature's size category.
#[derive(Clone, Copy, PartialEq, Eq, Structural, Debug)]
pub enum CreatureSize {
    Unspecified,
    Fine,
    Diminutive,
    Tiny,
    Small,
    Medium,
    Large,
    Huge,
    Gargantuan,
    Colossal,
}

impl Default for CreatureSize {
    fn default() -> (r: Self)
        ensures
            r == CreatureSize::Unspecified,
    {
        CreatureSize::Unspecified
    }
}

/// A creature's moral and ethical outlook.
#[derive(Clone, Copy, PartialEq, Eq, Structural, Debug)]
pub enum Alignment {
    LawfulGood,
    LawfulNeutral,
    LawfulEvil,
    NeutralGood,
    TrueNeutral,
    NeutralEvil,
    ChaoticGood,
    ChaoticNeutral,
    ChaoticEvil,
    Unspecified,
    ItsComplicated,
}

impl Default for Alignment {
    fn default() -> (r: Self)
        ensures
            r == Alignment::Unspecified,
    {
        Alignment::Unspecified
    }
}

/// One of the six ability scores.
#[derive(Clone, Copy, PartialEq, Eq, Structural, Debug)]
pub enum Ability {
    Strength,
    Dexterity,
    Constitution,
    Intelligence,
    Wisdom,
    Charisma,
}

/// A skill a character may be proficient in.
#[derive(Clone, Copy, PartialEq, Eq, Structural, Debug)]
pub enum Skill {
    Acrobatics,
    AnimalHandling,
    Arcana,
    Athletics,
    Deception,
    History,
    Insight,
    Intimidation,
    Investigation,
    Medicine,
    Nature,
    Perception,
    Performance,
    Persuasion,
    Religion,
    SleightOfHand,
    Stealth,
    Survival,
}

/// A saving throw a character may be proficient in.
#[derive(Clone, Copy, PartialEq, Eq, Structural, Debug)]
pub enum SavingThrow {
    Strength,
    Dexterity,
    Constitution,
    Intelligence,
    Wisdom,
    Charisma,
    Death,
}

/// How strongly a proficiency applies.
#[derive(Clone, Copy, PartialEq, Eq, Structural, Debug)]
pub enum ProficiencyType {
    NONE,
    HALF,
    SINGLE,
    DOUBLE,
}

/// A language a character may speak.
#[derive(PartialEq, Eq, Debug)]
pub enum Language {
    Abyssal,
    Aquan,
    Auran,
    Celestial,
    Common,
    DeepSpeech,
    Draconic,
    Druidic,
    Dwarvish,
    Elvish,
    Giant,
    Gnomish,
    Goblin,
    Gnoll,
    Halfling,
    Ignan,
    Infernal,
    Orc,
    Primordial,
    Sylvan,
    Terran,
    Undercommon,
    Unspecified,
    Other(String),
}

impl Default for Language {
    fn default() -> (r: Self)
        ensures
            r == Language::Unspecified,
    {
        Language::Unspecified
    }
}

impl Clone for Language {
    fn clone(&self) -> (r: Self)
        ensures
            r == *self,
    {
        match self {
            Language::Abyssal => Language::Abyssal,
            Language::Aquan => Language::Aquan,
            Language::Auran => Language::Auran,
            Language::Celestial => Language::Celestial,
            Language::Common => Language::Common,
            Language::DeepSpeech => Language::DeepSpeech,
            Language::Draconic => Language::Draconic,
            Language::Druidic => Language::Druidic,
            Language::Dwarvish => Language::Dwarvish,
            Language::Elvish => Language::Elvish,
            Language::Giant => Language::Giant,
            Language::Gnomish => Language::Gnomish,
            Language::Goblin => Language::Goblin,
            Language::Gnoll => Language::Gnoll,
            Language::Halfling => Language::Halfling,
            Language::Ignan => Language::Ignan,
            Language::Infernal => Language::Infernal,
            Language::Orc => Language::Orc,
            Language::Primordial => Language::Primordial,
            Language::Sylvan => Language::Sylvan,
            Language::Terran => Language::Terran,
            Language::Undercommon => Language::Undercommon,
            Language::Unspecified => Language::Unspecified,
            Language::Other(s) => Language::Other(s.clone()),
        }
    }
}

} // verus!

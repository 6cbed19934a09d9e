//! Choice and selection: committing a user-facing label to one of several
//! bound locations of the same selectable type.
//!
//! A closed selection draws from a fixed variant set (here: abilities); an
//! open selection draws from a registry of named contributor prototypes. A
//! commit names its location by index into the bound slots, so several fields
//! can be bound at once without aliasing. An out-of-range index, an unknown
//! closed label and an unknown registry name are three distinct errors; none
//! silently substitutes a default.

use vstd::prelude::*;
use vstd::pervasive::VecAdditionalExecFns;
use crate::contributor::{Contributor, Scripted, VariantHuman};
use crate::misc::{Ability, Skill};

verus! {

/// Why a choice commit or a registry lookup failed.
#[derive(Clone, Copy, PartialEq, Eq, Structural, Debug)]
pub enum ChoiceError {
    /// The location index is outside the bound slots.
    IndexOutOfRange,
    /// The label is not among a closed selection's options.
    UnknownOption,
    /// The name is absent from the registry.
    LookupFailure,
}

/// The user-facing label of an ability option.
pub open spec fn ability_label(a: Ability) -> Seq<char> {
    match a {
        Ability::Strength => "Strength"@,
        Ability::Dexterity => "Dexterity"@,
        Ability::Constitution => "Constitution"@,
        Ability::Intelligence => "Intelligence"@,
        Ability::Wisdom => "Wisdom"@,
        Ability::Charisma => "Charisma"@,
    }
}

/// Lists every label of the closed ability selection.
pub fn ability_labels() -> (r: Vec<&'static str>)
    ensures
        r@.map_values(|s: &str| s@) == seq![
            ability_label(Ability::Strength),
            ability_label(Ability::Dexterity),
            ability_label(Ability::Constitution),
            ability_label(Ability::Intelligence),
            ability_label(Ability::Wisdom),
            ability_label(Ability::Charisma),
        ],
{
    let mut r: Vec<&'static str> = Vec::new();
    r.push("Strength");
    r.push("Dexterity");
    r.push("Constitution");
    r.push("Intelligence");
    r.push("Wisdom");
    r.push("Charisma");
    proof {
        assert(r@.map_values(|s: &str| s@) =~= seq![
            ability_label(Ability::Strength),
            ability_label(Ability::Dexterity),
            ability_label(Ability::Constitution),
            ability_label(Ability::Intelligence),
            ability_label(Ability::Wisdom),
            ability_label(Ability::Charisma),
        ]);
    }
    r
}

/// The ability option matching a label, if the label is known.
pub fn ability_from_label(label: &str) -> (r: Option<Ability>)
    ensures
        r matches Some(a) ==> ability_label(a) == label@,
        r is None ==> forall|a: Ability| ability_label(a) != label@,
{
    let l: String = label.to_owned();
    if l == "Strength".to_owned() {
        Some(Ability::Strength)
    } else if l == "Dexterity".to_owned() {
        Some(Ability::Dexterity)
    } else if l == "Constitution".to_owned() {
        Some(Ability::Constitution)
    } else if l == "Intelligence".to_owned() {
        Some(Ability::Intelligence)
    } else if l == "Wisdom".to_owned() {
        Some(Ability::Wisdom)
    } else {
        let r = if l == "Charisma".to_owned() {
            Some(Ability::Charisma)
        } else {
            None
        };
        r
    }
}

/// Commits the labelled ability option to the bound location `index`. Fails
/// with an index error off the end of the bound slots, and with an option
/// error on an unknown label; neither failure changes any location.
pub fn commit_ability(locs: &mut Vec<Ability>, label: &str, index: usize) -> (r: Result<
    (),
    ChoiceError,
>)
    ensures
        index >= old(locs)@.len() ==> r == Err::<(), ChoiceError>(ChoiceError::IndexOutOfRange)
            && final(locs)@ == old(locs)@,
        (index < old(locs)@.len() && (forall|a: Ability| ability_label(a) != label@)) ==> r
            == Err::<(), ChoiceError>(ChoiceError::UnknownOption) && final(locs)@ == old(locs)@,
        r is Ok ==> {
            &&& index < old(locs)@.len()
            &&& final(locs)@.len() == old(locs)@.len()
            &&& ability_label(final(locs)@[index as int]) == label@
            &&& forall|j: int|
                0 <= j < old(locs)@.len() && j != index ==> final(locs)@[j] == old(locs)@[j]
        },
        (index < old(locs)@.len() && (exists|a: Ability| ability_label(a) == label@)) ==> r is Ok,
{
    if index >= locs.len() {
        return Err(ChoiceError::IndexOutOfRange);
    }
    match ability_from_label(label) {
        None => Err(ChoiceError::UnknownOption),
        Some(a) => {
            locs.set(index, a);
            Ok(())
        },
    }
}


/// The user-facing label of a skill option.
pub open spec fn skill_label(a: Skill) -> Seq<char> {
    match a {
        Skill::Acrobatics => "Acrobatics"@,
        Skill::AnimalHandling => "AnimalHandling"@,
        Skill::Arcana => "Arcana"@,
        Skill::Athletics => "Athletics"@,
        Skill::Deception => "Deception"@,
        Skill::History => "History"@,
        Skill::Insight => "Insight"@,
        Skill::Intimidation => "Intimidation"@,
        Skill::Investigation => "Investigation"@,
        Skill::Medicine => "Medicine"@,
        Skill::Nature => "Nature"@,
        Skill::Perception => "Perception"@,
        Skill::Performance => "Performance"@,
        Skill::Persuasion => "Persuasion"@,
        Skill::Religion => "Religion"@,
        Skill::SleightOfHand => "SleightOfHand"@,
        Skill::Stealth => "Stealth"@,
        Skill::Survival => "Survival"@,
    }
}


/// Lists every label of the closed skill selection.
pub fn skill_labels() -> (r: Vec<&'static str>)
    ensures
        r@.map_values(|s: &str| s@) == seq![
            skill_label(Skill::Acrobatics),
            skill_label(Skill::AnimalHandling),
            skill_label(Skill::Arcana),
            skill_label(Skill::Athletics),
            skill_label(Skill::Deception),
            skill_label(Skill::History),
            skill_label(Skill::Insight),
            skill_label(Skill::Intimidation),
            skill_label(Skill::Investigation),
            skill_label(Skill::Medicine),
            skill_label(Skill::Nature),
            skill_label(Skill::Perception),
            skill_label(Skill::Performance),
            skill_label(Skill::Persuasion),
            skill_label(Skill::Religion),
            skill_label(Skill::SleightOfHand),
            skill_label(Skill::Stealth),
            skill_label(Skill::Survival),
        ],
{
    let mut r: Vec<&'static str> = Vec::new();
    r.push("Acrobatics");
    r.push("AnimalHandling");
    r.push("Arcana");
    r.push("Athletics");
    r.push("Deception");
    r.push("History");
    r.push("Insight");
    r.push("Intimidation");
    r.push("Investigation");
    r.push("Medicine");
    r.push("Nature");
    r.push("Perception");
    r.push("Performance");
    r.push("Persuasion");
    r.push("Religion");
    r.push("SleightOfHand");
    r.push("Stealth");
    r.push("Survival");
    proof {
        assert(r@.map_values(|s: &str| s@) =~= seq![
            skill_label(Skill::Acrobatics),
            skill_label(Skill::AnimalHandling),
            skill_label(Skill::Arcana),
            skill_label(Skill::Athletics),
            skill_label(Skill::Deception),
            skill_label(Skill::History),
            skill_label(Skill::Insight),
            skill_label(Skill::Intimidation),
            skill_label(Skill::Investigation),
            skill_label(Skill::Medicine),
            skill_label(Skill::Nature),
            skill_label(Skill::Perception),
            skill_label(Skill::Performance),
            skill_label(Skill::Persuasion),
            skill_label(Skill::Religion),
            skill_label(Skill::SleightOfHand),
            skill_label(Skill::Stealth),
            skill_label(Skill::Survival),
        ]);
    }
    r
}

/// The skill option matching a label, if the label is known.
pub fn skill_from_label(label: &str) -> (r: Option<Skill>)
    ensures
        r matches Some(a) ==> skill_label(a) == label@,
        r is None ==> forall|a: Skill| skill_label(a) != label@,
{
    let l: String = label.to_owned();
    if l == "Acrobatics".to_owned() {
        Some(Skill::Acrobatics)
    } else if l == "AnimalHandling".to_owned() {
        Some(Skill::AnimalHandling)
    } else if l == "Arcana".to_owned() {
        Some(Skill::Arcana)
    } else if l == "Athletics".to_owned() {
        Some(Skill::Athletics)
    } else if l == "Deception".to_owned() {
        Some(Skill::Deception)
    } else if l == "History".to_owned() {
        Some(Skill::History)
    } else if l == "Insight".to_owned() {
        Some(Skill::Insight)
    } else if l == "Intimidation".to_owned() {
        Some(Skill::Intimidation)
    } else if l == "Investigation".to_owned() {
        Some(Skill::Investigation)
    } else if l == "Medicine".to_owned() {
        Some(Skill::Medicine)
    } else if l == "Nature".to_owned() {
        Some(Skill::Nature)
    } else if l == "Perception".to_owned() {
        Some(Skill::Perception)
    } else if l == "Performance".to_owned() {
        Some(Skill::Performance)
    } else if l == "Persuasion".to_owned() {
        Some(Skill::Persuasion)
    } else if l == "Religion".to_owned() {
        Some(Skill::Religion)
    } else if l == "SleightOfHand".to_owned() {
        Some(Skill::SleightOfHand)
    } else if l == "Stealth".to_owned() {
        Some(Skill::Stealth)
    } else if l == "Survival".to_owned() {
        Some(Skill::Survival)
    } else {
        None
    }
}

/// Commits the labelled skill option to the bound location `index`. Fails
/// with an index error off the end of the bound slots, and with an option
/// error on an unknown label; neither failure changes any location.
pub fn commit_skill(locs: &mut Vec<Skill>, label: &str, index: usize) -> (r: Result<
    (),
    ChoiceError,
>)
    ensures
        index >= old(locs)@.len() ==> r == Err::<(), ChoiceError>(ChoiceError::IndexOutOfRange)
            && final(locs)@ == old(locs)@,
        (index < old(locs)@.len() && (forall|a: Skill| skill_label(a) != label@)) ==> r == Err::<
            (),
            ChoiceError,
        >(ChoiceError::UnknownOption) && final(locs)@ == old(locs)@,
        r is Ok ==> {
            &&& index < old(locs)@.len()
            &&& final(locs)@.len() == old(locs)@.len()
            &&& skill_label(final(locs)@[index as int]) == label@
            &&& forall|j: int|
                0 <= j < old(locs)@.len() && j != index ==> final(locs)@[j] == old(locs)@[j]
        },
        (index < old(locs)@.len() && (exists|a: Skill| skill_label(a) == label@)) ==> r is Ok,
{
    if index >= locs.len() {
        return Err(ChoiceError::IndexOutOfRange);
    }
    match skill_from_label(label) {
        None => Err(ChoiceError::UnknownOption),
        Some(a) => {
            locs.set(index, a);
            Ok(())
        },
    }
}

/// Whether two contributors carry the same content, field for field (nested
/// contributors compared recursively, lists by their elements).
pub open spec fn equiv(a: Contributor, b: Contributor) -> bool
    decreases a,
{
    match (a, b) {
        (Contributor::Unknown, Contributor::Unknown) => true,
        (Contributor::CommonRules, Contributor::CommonRules) => true,
        (Contributor::VariantHuman(x), Contributor::VariantHuman(y)) => {
            &&& x.abilities@ == y.abilities@
            &&& x.skill == y.skill
            &&& x.language == y.language
            &&& equiv(*x.feat, *y.feat)
        },
        (Contributor::Scripted(x), Contributor::Scripted(y)) => {
            &&& x.name == y.name
            &&& x.script@ == y.script@
        },
        _ => false,
    }
}

/// Copies a vector of chosen abilities.
fn clone_abilities(v: &Vec<Ability>) -> (r: Vec<Ability>)
    ensures
        r@ == v@,
{
    let mut r: Vec<Ability> = Vec::new();
    let mut i: usize = 0;
    while i < v.len()
        invariant
            i <= v@.len(),
            r@ == v@.take(i as int),
        decreases v@.len() - i,
    {
        r.push(v[i]);
        proof {
            assert(r@ =~= v@.take(i + 1));
        }
        i = i + 1;
    }
    proof {
        assert(v@.take(v@.len() as int) =~= v@);
    }
    r
}

/// Copies a scripted contributor's script.
fn clone_script(v: &Vec<crate::contributor::ScriptedClaim>) -> (r: Vec<
    crate::contributor::ScriptedClaim,
>)
    ensures
        r@ == v@,
{
    let mut r: Vec<crate::contributor::ScriptedClaim> = Vec::new();
    let mut i: usize = 0;
    while i < v.len()
        invariant
            i <= v@.len(),
            r@ == v@.take(i as int),
        decreases v@.len() - i,
    {
        r.push(v[i].clone());
        proof {
            assert(r@ =~= v@.take(i + 1));
        }
        i = i + 1;
    }
    proof {
        assert(v@.take(v@.len() as int) =~= v@);
    }
    r
}

/// Builds a contributor with the same content as the given one.
pub fn clone_contributor(c: &Contributor) -> (r: Contributor)
    ensures
        equiv(*c, r),
    decreases *c,
{
    match c {
        Contributor::Unknown => Contributor::Unknown,
        Contributor::CommonRules => Contributor::CommonRules,
        Contributor::VariantHuman(v) => Contributor::VariantHuman(
            VariantHuman {
                abilities: clone_abilities(&v.abilities),
                skill: v.skill,
                feat: Box::new(clone_contributor(&v.feat)),
                language: v.language.clone(),
            },
        ),
        Contributor::Scripted(s) => Contributor::Scripted(
            Scripted { name: s.name.clone(), script: clone_script(&s.script) },
        ),
    }
}

/// The explicit content registry: a mapping from a stable string tag to a
/// contributor prototype, built at start-up. Construction hands out a copy of
/// the prototype registered first under the tag.
#[derive(Debug)]
pub struct Registry {
    entries: Vec<(String, Contributor)>,
}

impl Registry {
    /// The registered tags, in registration order.
    pub closed spec fn names(&self) -> Seq<Seq<char>> {
        self.entries@.map_values(|e: (String, Contributor)| e.0@)
    }

    /// The registered prototypes, in registration order.
    pub closed spec fn protos(&self) -> Seq<Contributor> {
        self.entries@.map_values(|e: (String, Contributor)| e.1)
    }

    /// An empty registry.
    pub fn new() -> (r: Self)
        ensures
            r.names() == Seq::<Seq<char>>::empty(),
            r.protos() == Seq::<Contributor>::empty(),
    {
        let r = Registry { entries: Vec::new() };
        proof {
            assert(r.names() =~= Seq::<Seq<char>>::empty());
            assert(r.protos() =~= Seq::<Contributor>::empty());
        }
        r
    }

    /// Registers one more named prototype.
    pub fn register(&mut self, name: &str, proto: Contributor)
        ensures
            final(self).names() == old(self).names().push(name@),
            final(self).protos() == old(self).protos().push(proto),
    {
        self.entries.push((name.to_owned(), proto));
        proof {
            assert(self.names() =~= old(self).names().push(name@));
            assert(self.protos() =~= old(self).protos().push(proto));
        }
    }

    /// Lists every registered tag.
    pub fn list_names(&self) -> (r: Vec<String>)
        ensures
            r@.map_values(|s: String| s@) == self.names(),
    {
        let mut r: Vec<String> = Vec::new();
        let mut i: usize = 0;
        while i < self.entries.len()
            invariant
                i <= self.entries@.len(),
                r@.len() == i,
                forall|j: int| 0 <= j < i ==> r@[j]@ == self.names()[j],
            decreases self.entries@.len() - i,
        {
            r.push(self.entries[i].0.clone());
            i = i + 1;
        }
        proof {
            assert(r@.map_values(|s: String| s@) =~= self.names());
        }
        r
    }

    /// Constructs the contributor registered under `name`: a copy of the
    /// first prototype with that tag. An absent name is a lookup failure,
    /// never a silent default.
    pub fn construct(&self, name: &str) -> (r: Result<Contributor, ChoiceError>)
        ensures
            (r is Ok) == self.names().contains(name@),
            r matches Ok(ctr) ==> exists|i: int|
                0 <= i < self.names().len() && self.names()[i] == name@ && #[trigger] equiv(
                    self.protos()[i],
                    ctr,
                ),
            r matches Err(e) ==> e == ChoiceError::LookupFailure,
    {
        let n: String = name.to_owned();
        let mut i: usize = 0;
        while i < self.entries.len()
            invariant
                i <= self.entries@.len(),
                n@ == name@,
                forall|j: int| 0 <= j < i ==> self.names()[j] != name@,
            decreases self.entries@.len() - i,
        {
            let e = &self.entries[i];
            proof {
                assert(self.names()[i as int] == self.entries@[i as int].0@);
                assert(self.protos()[i as int] == self.entries@[i as int].1);
            }
            if e.0 == n {
                let ctr = clone_contributor(&e.1);
                proof {
                    assert(self.names()[i as int] == name@);
                    assert(equiv(self.protos()[i as int], ctr));
                }
                return Ok(ctr);
            }
            i = i + 1;
        }
        proof {
            assert forall|j: int| 0 <= j < self.names().len() implies self.names()[j]
                != name@ by {}
        }
        Err(ChoiceError::LookupFailure)
    }
}

/// Commits the contributor registered under `label` to the bound location
/// `index`. An out-of-range index and an unknown name are distinct failures;
/// neither changes any location.
pub fn commit_contributor(
    locs: &mut Vec<Contributor>,
    registry: &Registry,
    label: &str,
    index: usize,
) -> (r: Result<(), ChoiceError>)
    ensures
        index >= old(locs)@.len() ==> r == Err::<(), ChoiceError>(ChoiceError::IndexOutOfRange)
            && final(locs)@ == old(locs)@,
        (index < old(locs)@.len() && !registry.names().contains(label@)) ==> r == Err::<
            (),
            ChoiceError,
        >(ChoiceError::LookupFailure) && final(locs)@ == old(locs)@,
        (index < old(locs)@.len() && registry.names().contains(label@)) ==> r is Ok,
        r is Ok ==> {
            &&& index < old(locs)@.len()
            &&& final(locs)@.len() == old(locs)@.len()
            &&& exists|i: int|
                0 <= i < registry.names().len() && registry.names()[i] == label@
                    && #[trigger] equiv(registry.protos()[i], final(locs)@[index as int])
            &&& forall|j: int|
                0 <= j < old(locs)@.len() && j != index ==> final(locs)@[j] == old(locs)@[j]
        },
{
    if index >= locs.len() {
        return Err(ChoiceError::IndexOutOfRange);
    }
    match registry.construct(label) {
        Err(e) => Err(e),
        Ok(ctr) => {
            let ghost w = choose|i: int|
                0 <= i < registry.names().len() && registry.names()[i] == label@ && #[trigger] equiv(
                    registry.protos()[i],
                    ctr,
                );
            locs.set(index, ctr);
            proof {
                assert(equiv(registry.protos()[w], locs@[index as int]));
            }
            Ok(())
        },
    }
}

} // verus!

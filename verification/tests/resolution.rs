use dndcent::character::{FieldName, FieldValue, StuckClaim};
use dndcent::choice::{
    ability_from_label, ability_labels, commit_ability, commit_contributor, commit_skill,
    skill_from_label, skill_labels, ChoiceError, Registry,
};
use dndcent::contributor::{ability_modifier, Contributor, Scripted, ScriptedClaim, VariantHuman};
use dndcent::driver::{ResolveError, StoredCharacter};
use dndcent::misc::{
    Ability, Alignment, CreatureSize, Language, ProficiencyType, Skill,
};
use dndcent::staged::{Phase, Staged};

fn base_stored(race: Contributor, classes: Vec<Contributor>) -> StoredCharacter {
    StoredCharacter {
        name: "Tordek".to_owned(),
        health: 17,
        temp_health: 2,
        base_strength: 10,
        base_dexterity: 10,
        base_constitution: 10,
        base_intelligence: 10,
        base_wisdom: 10,
        base_charisma: 10,
        alignment: Alignment::LawfulGood,
        inspiration: true,
        money: [1, 2, 3, 4, 5],
        race,
        classes,
    }
}

#[test]
fn zero_contributors_converges_unchanged() {
    let stored = base_stored(Contributor::Unknown, Vec::new());
    let f = stored.resolve().expect("must converge in round zero");
    assert_eq!(f.name, "Tordek");
    assert_eq!(f.health, 17);
    assert_eq!(f.temp_health, 2);
    assert_eq!(f.strength, 10);
    assert_eq!(f.charisma, 10);
    assert_eq!(f.strength_modifier, 0);
    assert_eq!(f.charisma_modifier, 0);
    assert_eq!(f.size, CreatureSize::Unspecified);
    assert_eq!(f.race_name, "");
    assert!(f.languages.is_empty());
    assert!(f.race_traits.is_empty());
    assert_eq!(f.money, [1, 2, 3, 4, 5]);
    assert!(f.inspiration);
    assert_eq!(f.alignment, Alignment::LawfulGood);
}

#[test]
fn declared_ids_resolve_in_any_order() {
    let mut field: Staged<u32> = Staged::new(7);
    field.declare_initializer("a");
    field.declare_initializer("b");
    field.declare_initializer("c");
    field.declare_initializer("b");
    assert_eq!(field.count_unresolved(), 3);
    assert!(field.initialize("c"));
    assert!(field.initialize("a"));
    assert!(field.initialize("b"));
    assert!(field.initialized());
    assert_eq!(field.count_unresolved(), 0);

    let mut again: Staged<u32> = Staged::new(7);
    again.declare_initializer("c");
    again.declare_initializer("a");
    again.declare_initializer("b");
    assert!(again.initialize("b"));
    assert!(again.initialize("a"));
    assert!(again.initialize("c"));
    assert!(again.initialized());
}

#[test]
fn blocked_modify_is_a_no_op() {
    let mut field: Staged<u32> = Staged::new(7);
    field.declare_initializer("init owner");
    field.declare_modifier("mod owner");
    assert!(!field.modify("mod owner"));
    assert_eq!(*field.get(), 7);
    assert_eq!(field.count_unresolved(), 2);
    assert!(!field.finalize("mod owner"));
    assert_eq!(field.count_unresolved(), 2);
}

#[test]
fn circular_dependency_is_reported_as_deadlock() {
    let never = Contributor::Scripted(Scripted {
        name: "Stuck Initializer".to_owned(),
        script: vec![ScriptedClaim {
            field: FieldName::Health,
            phase: Phase::Initializer,
            attempt: false,
            value: None,
        }],
    });
    let blocked = Contributor::Scripted(Scripted {
        name: "Blocked Modifier".to_owned(),
        script: vec![ScriptedClaim {
            field: FieldName::Health,
            phase: Phase::Modifier,
            attempt: true,
            value: Some(FieldValue::Number(99)),
        }],
    });
    let stored = base_stored(never, vec![blocked]);
    match stored.resolve() {
        Ok(_) => panic!("a circular dependency must deadlock"),
        Err(ResolveError::Deadlock { stuck }) => {
            assert_eq!(stuck.len(), 2);
            assert!(stuck.contains(&StuckClaim {
                field: FieldName::Health,
                phase: Phase::Initializer,
                who: "Stuck Initializer".to_owned(),
            }));
            assert!(stuck.contains(&StuckClaim {
                field: FieldName::Health,
                phase: Phase::Modifier,
                who: "Blocked Modifier".to_owned(),
            }));
        }
    }
}

#[test]
fn out_of_range_index_fails_with_index_error() {
    let mut locs = vec![Ability::Strength, Ability::Strength];
    assert_eq!(
        commit_ability(&mut locs, "Wisdom", 2),
        Err(ChoiceError::IndexOutOfRange)
    );
    assert_eq!(locs, vec![Ability::Strength, Ability::Strength]);
}

#[test]
fn unknown_closed_label_fails_with_option_error() {
    let mut locs = vec![Ability::Strength];
    assert_eq!(
        commit_ability(&mut locs, "Luck", 0),
        Err(ChoiceError::UnknownOption)
    );
    assert_eq!(locs, vec![Ability::Strength]);
}

#[test]
fn unknown_open_label_fails_with_lookup_error() {
    let registry = Registry::new();
    let mut locs = vec![Contributor::Unknown];
    assert_eq!(
        commit_contributor(&mut locs, &registry, "Alert", 0),
        Err(ChoiceError::LookupFailure)
    );
    assert!(matches!(locs[0], Contributor::Unknown));
}

#[test]
fn committing_a_known_label_sets_one_location() {
    let mut locs = vec![Ability::Strength, Ability::Strength];
    assert_eq!(commit_ability(&mut locs, "Wisdom", 1), Ok(()));
    assert_eq!(locs, vec![Ability::Strength, Ability::Wisdom]);
}

#[test]
fn ability_labels_round_trip() {
    let labels = ability_labels();
    assert_eq!(
        labels,
        vec![
            "Strength",
            "Dexterity",
            "Constitution",
            "Intelligence",
            "Wisdom",
            "Charisma"
        ]
    );
    for l in labels {
        assert!(ability_from_label(l).is_some());
    }
    assert!(ability_from_label("Moxie").is_none());
}

#[test]
fn registry_lists_and_constructs_by_name() {
    let mut registry = Registry::new();
    registry.register("Unknown Feat", Contributor::Unknown);
    registry.register(
        "Tough",
        Contributor::Scripted(Scripted {
            name: "Tough".to_owned(),
            script: vec![ScriptedClaim {
                field: FieldName::MaxHealth,
                phase: Phase::Initializer,
                attempt: true,
                value: Some(FieldValue::Number(4)),
            }],
        }),
    );
    assert_eq!(registry.list_names(), vec!["Unknown Feat", "Tough"]);
    assert!(matches!(
        registry.construct("Unknown Feat"),
        Ok(Contributor::Unknown)
    ));
    match registry.construct("Tough") {
        Ok(Contributor::Scripted(s)) => {
            assert_eq!(s.name, "Tough");
            assert_eq!(s.script.len(), 1);
        }
        other => panic!("expected the scripted prototype, got {:?}", other),
    }
    assert_eq!(
        registry.construct("Lucky").err(),
        Some(ChoiceError::LookupFailure)
    );
}

#[test]
fn determinism_same_inputs_same_output() {
    let make = || {
        base_stored(
            Contributor::VariantHuman(VariantHuman {
                abilities: vec![Ability::Strength, Ability::Dexterity],
                skill: Skill::Athletics,
                feat: Box::new(Contributor::Unknown),
                language: Language::Elvish,
            }),
            vec![Contributor::CommonRules],
        )
    };
    let a = make().resolve().expect("must converge");
    let b = make().resolve().expect("must converge");
    assert_eq!(a, b);
}

#[test]
fn all_tens_and_no_contributors_gives_zero_modifiers() {
    let stored = base_stored(Contributor::Unknown, Vec::new());
    let f = stored.resolve().expect("must converge in round zero");
    for m in [
        f.strength_modifier,
        f.dexterity_modifier,
        f.constitution_modifier,
        f.intelligence_modifier,
        f.wisdom_modifier,
        f.charisma_modifier,
    ] {
        assert_eq!(m, 0);
    }
}

#[test]
fn one_initializer_claim_resolves_in_one_round() {
    let sizer = Contributor::Scripted(Scripted {
        name: "Sizer".to_owned(),
        script: vec![ScriptedClaim {
            field: FieldName::Size,
            phase: Phase::Initializer,
            attempt: true,
            value: Some(FieldValue::Size(CreatureSize::Medium)),
        }],
    });
    let stored = base_stored(sizer, Vec::new());
    let f = stored.resolve().expect("one attempted claim must clear");
    assert_eq!(f.size, CreatureSize::Medium);
}

#[test]
fn unresolved_count_drops_as_claims_clear() {
    let mut field: Staged<CreatureSize> = Staged::new(CreatureSize::Unspecified);
    field.declare_initializer("Sizer");
    assert_eq!(field.count_unresolved(), 1);
    assert!(field.initialize("Sizer"));
    field.set(CreatureSize::Medium);
    assert_eq!(field.count_unresolved(), 0);
    assert_eq!(*field.get(), CreatureSize::Medium);
}

#[test]
fn ability_modifier_matches_the_formula() {
    assert_eq!(ability_modifier(10), 0);
    assert_eq!(ability_modifier(11), 0);
    assert_eq!(ability_modifier(12), 1);
    assert_eq!(ability_modifier(17), 3);
    assert_eq!(ability_modifier(20), 5);
    assert_eq!(ability_modifier(9), -1);
    assert_eq!(ability_modifier(8), -1);
    assert_eq!(ability_modifier(7), -2);
    assert_eq!(ability_modifier(1), -5);
    assert_eq!(ability_modifier(0), -5);
}

#[test]
fn variant_human_contributes_its_traits() {
    let stored = StoredCharacter {
        base_strength: 16,
        ..base_stored(
            Contributor::VariantHuman(VariantHuman {
                abilities: vec![Ability::Strength, Ability::Dexterity],
                skill: Skill::Athletics,
                feat: Box::new(Contributor::Unknown),
                language: Language::Elvish,
            }),
            vec![Contributor::CommonRules],
        )
    };
    let f = stored.resolve().expect("must converge");
    assert_eq!(f.race_name, "Variant Human");
    assert_eq!(f.size, CreatureSize::Medium);
    assert_eq!(f.strength, 17);
    assert_eq!(f.dexterity, 11);
    assert_eq!(f.strength_modifier, 3);
    assert_eq!(f.dexterity_modifier, 0);
    assert_eq!(f.languages, vec![Language::Common, Language::Elvish]);
    assert_eq!(
        f.skill_proficiencies,
        vec![(Skill::Athletics, ProficiencyType::SINGLE)]
    );
    assert_eq!(f.race_traits.len(), 4);
}

#[test]
fn defaults_are_the_unspecified_variants() {
    assert_eq!(CreatureSize::default(), CreatureSize::Unspecified);
    assert_eq!(Alignment::default(), Alignment::Unspecified);
    assert_eq!(Language::default(), Language::Unspecified);
}

#[test]
fn skill_choice_commits_and_rejects() {
    let mut locs = vec![Skill::History];
    assert_eq!(commit_skill(&mut locs, "SleightOfHand", 0), Ok(()));
    assert_eq!(locs, vec![Skill::SleightOfHand]);
    assert_eq!(
        commit_skill(&mut locs, "Basketweaving", 0),
        Err(ChoiceError::UnknownOption)
    );
    assert_eq!(
        commit_skill(&mut locs, "Stealth", 1),
        Err(ChoiceError::IndexOutOfRange)
    );
    assert_eq!(locs, vec![Skill::SleightOfHand]);
    assert!(skill_from_label("Arcana").is_some());
}

#[test]
fn skill_labels_round_trip() {
    let labels = skill_labels();
    assert_eq!(labels.len(), 18);
    assert_eq!(labels[0], "Acrobatics");
    assert_eq!(labels[17], "Survival");
    for l in labels {
        assert!(skill_from_label(l).is_some());
    }
}

#[test]
fn contributors_that_declare_nothing_leave_the_base_unchanged() {
    let idle = Contributor::Scripted(Scripted {
        name: "Idle".to_owned(),
        script: Vec::new(),
    });
    let stored = base_stored(idle, vec![Contributor::Unknown]);
    let f = stored.resolve().expect("no declared claim means round-zero convergence");
    assert_eq!(f.name, "Tordek");
    assert_eq!(f.strength, 10);
    assert_eq!(f.size, CreatureSize::Unspecified);
    assert!(f.race_traits.is_empty());
}

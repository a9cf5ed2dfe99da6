use hmk::core_rules::{
    opposed_outcome, to_signed, Attribute, AttributeSet, OpposedResult, Skill, SkillSet,
    SuccessResult, Tiebreak,
};
use hmk::being::Chance;

#[test]
fn success_levels_follow_the_roll() {
    assert_eq!(SuccessResult::from_roll(50, 30), SuccessResult::CriticalSuccess(30));
    assert_eq!(SuccessResult::from_roll(50, 31), SuccessResult::Success(31));
    assert_eq!(SuccessResult::from_roll(50, 50), SuccessResult::CriticalSuccess(50));
    assert_eq!(SuccessResult::from_roll(50, 51), SuccessResult::Fail(51));
    assert_eq!(SuccessResult::from_roll(50, 55), SuccessResult::CriticalFail(55));
    assert_eq!(SuccessResult::from_roll(0, 100), SuccessResult::CriticalFail(100));
}

#[test]
fn numeric_and_value_modifier() {
    assert_eq!(SuccessResult::CriticalSuccess(5).numeric(), 3);
    assert_eq!(SuccessResult::Success(7).numeric(), 2);
    assert_eq!(SuccessResult::Fail(7).numeric(), 1);
    assert_eq!(SuccessResult::CriticalFail(5).numeric(), 0);
    assert_eq!(SuccessResult::CriticalSuccess(5).value_modifer(), 1);
    assert_eq!(SuccessResult::Success(7).value_modifer(), 0);
    assert_eq!(SuccessResult::Fail(7).value_modifer(), -1);
    assert_eq!(SuccessResult::CriticalFail(5).value_modifer(), -2);
}

#[test]
fn opposed_outcomes() {
    let cs = SuccessResult::CriticalSuccess(10);
    let ms = SuccessResult::Success(12);
    let mf = SuccessResult::Fail(80);
    let cf = SuccessResult::CriticalFail(90);
    assert_eq!(opposed_outcome(cs, cf), (OpposedResult::Victory, 3));
    assert_eq!(opposed_outcome(ms, mf), (OpposedResult::Victory, 1));
    assert_eq!(opposed_outcome(mf, cs), (OpposedResult::Loss, 2));
    assert_eq!(opposed_outcome(mf, cf), (OpposedResult::Tie(Tiebreak::Neither), 0));
    assert_eq!(
        opposed_outcome(SuccessResult::Success(40), SuccessResult::Success(12)),
        (OpposedResult::Tie(Tiebreak::Lhs), 0)
    );
    assert_eq!(
        opposed_outcome(SuccessResult::CriticalSuccess(10), SuccessResult::CriticalSuccess(20)),
        (OpposedResult::Tie(Tiebreak::Rhs), 0)
    );
}

#[test]
fn opposed_outcome_mirrors_when_sides_swap() {
    let results = [
        SuccessResult::CriticalSuccess(10),
        SuccessResult::Success(12),
        SuccessResult::Success(40),
        SuccessResult::Fail(81),
        SuccessResult::CriticalFail(95),
    ];
    for l in results {
        for r in results {
            let (a, sa) = opposed_outcome(l, r);
            let (b, sb) = opposed_outcome(r, l);
            assert_eq!(sa, sb);
            match a {
                OpposedResult::Victory => assert_eq!(b, OpposedResult::Loss),
                OpposedResult::Loss => assert_eq!(b, OpposedResult::Victory),
                OpposedResult::Tie(Tiebreak::Neither) => {
                    assert_eq!(b, OpposedResult::Tie(Tiebreak::Neither))
                }
                OpposedResult::Tie(_) => assert!(matches!(b, OpposedResult::Tie(_))),
            }
            assert!(sa <= 3);
        }
    }
}

#[test]
fn signed_reading_of_bytes() {
    assert_eq!(to_signed(0), 0);
    assert_eq!(to_signed(127), 127);
    assert_eq!(to_signed(128), -128);
    assert_eq!(to_signed(255), -1);
}

#[test]
fn attribute_set_holds_one_value_each() {
    let mut set = AttributeSet::new();
    assert_eq!(set.get(Attribute::Strength), None);
    assert_eq!(set.insert(Attribute::Strength, 12), None);
    assert_eq!(set.insert(Attribute::Strength, 14), Some(12));
    assert_eq!(set.get(Attribute::Strength), Some(14));
    set.insert(Attribute::Aura, 9);
    assert_eq!(set.pairs(), vec![(Attribute::Strength, 14), (Attribute::Aura, 9)]);
    assert_eq!(Attribute::all().len(), 12);
}

#[test]
fn skill_set_learning_and_unlearning() {
    let mut set = SkillSet::new();
    set.learn(Skill::Melee);
    assert_eq!(set.get(&Skill::Melee), Some(1));
    set.learn(Skill::Melee);
    assert_eq!(set.get(&Skill::Melee), Some(2));
    set.unlearn(Skill::Melee);
    assert_eq!(set.get(&Skill::Melee), Some(1));
    set.unlearn(Skill::Melee);
    assert_eq!(set.get(&Skill::Melee), None);
    set.unlearn(Skill::Dodge);
    assert_eq!(set.get(&Skill::Dodge), None);
}

#[test]
fn unlearning_undoes_learning_on_examples() {
    let mut set = SkillSet::new();
    set.insert(Skill::Language("Harnic".to_string()), 4);
    set.learn(Skill::Language("Harnic".to_string()));
    set.unlearn(Skill::Language("Harnic".to_string()));
    assert_eq!(set.get(&Skill::Language("Harnic".to_string())), Some(4));
    set.learn(Skill::Riding);
    set.unlearn(Skill::Riding);
    assert_eq!(set.get(&Skill::Riding), None);
    assert_eq!(set.pairs().len(), 1);
}

#[test]
fn named_skills_are_told_apart_by_name() {
    let mut set = SkillSet::new();
    set.insert(Skill::Language("Harnic".to_string()), 3);
    set.insert(Skill::Language("Khuzdul".to_string()), 5);
    assert_eq!(set.get(&Skill::Language("Harnic".to_string())), Some(3));
    assert_eq!(set.get(&Skill::Language("Khuzdul".to_string())), Some(5));
    assert!(Skill::Language("a".to_string()).same(&Skill::Language("a".to_string())));
    assert!(!Skill::Language("a".to_string()).same(&Skill::Language("b".to_string())));
    set.remove(&Skill::Language("Harnic".to_string()));
    assert_eq!(set.get(&Skill::Language("Harnic".to_string())), None);
}

#[test]
fn skill_and_attribute_labels() {
    assert_eq!(Skill::Melee.label(), "Melee");
    assert_eq!(Skill::Language("Harnic".to_string()).label(), "Harnic");
    assert_eq!(Attribute::Eloquence.label(), "Eloquence");
}

#[test]
fn tables_render_in_rows() {
    let mut set = AttributeSet::new();
    set.insert(Attribute::Strength, 12);
    set.insert(Attribute::Will, 7);
    assert_eq!(
        set.render(),
        "Attributes:\n   Strength: .... 12\n   Will: ........  7\n"
    );
    let mut skills = SkillSet::new();
    skills.insert(Skill::Melee, 4);
    assert_eq!(skills.render(), "Skills:\n   Melee: .......  4\n");
}

#[test]
fn entered_levels_read_back() {
    let mut set = SkillSet::new();
    assert_eq!(set.insert(Skill::Riding, 3), None);
    set.insert(Skill::Stealth, 4);
    assert_eq!(set.insert(Skill::Riding, 6), Some(3));
    assert_eq!(set.get(&Skill::Riding), Some(6));
    assert_eq!(set.get(&Skill::Stealth), Some(4));
    assert_eq!(set.pairs().len(), 2);
}

#[test]
fn outcomes_order_as_declared() {
    assert!(SuccessResult::CriticalSuccess(90) < SuccessResult::Success(1));
    assert!(SuccessResult::Fail(10) < SuccessResult::Fail(20));
    assert!(SuccessResult::Fail(99) < SuccessResult::CriticalFail(5));
    assert!(OpposedResult::Victory < OpposedResult::Tie(Tiebreak::Lhs));
    assert!(OpposedResult::Tie(Tiebreak::Rhs) < OpposedResult::Tie(Tiebreak::Neither));
    assert!(OpposedResult::Tie(Tiebreak::Neither) < OpposedResult::Loss);
    assert!(Chance::Nil < Chance::Low && Chance::Mid < Chance::High);
    assert_eq!([Chance::High, Chance::Nil].iter().max(), Some(&Chance::High));
}

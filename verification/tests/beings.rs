use hmk::being::{
    AttackRolls, Being, BodyType, Chance, Injury, Location, LocationEntry, MeleeHit, MeleeRolls, MissileRolls,
    ShockState,
};
use hmk::core_rules::{Attribute, AttributeSet, Skill, SkillSet, SuccessResult};
use hmk::item::{Aspect, Attack, DefenseOption, Inventory, Item, Mode, ProjectileHead, ProjectileShaft};

fn humanoid() -> BodyType {
    BodyType(vec![
        (
            1,
            vec![
                LocationEntry::new(5, Location::Skull, 5),
                LocationEntry::new(8, Location::Face, 4),
                LocationEntry::new(10, Location::Neck, 5),
            ],
        ),
        (
            3,
            vec![
                LocationEntry::new(3, Location::Shoulder, 3),
                LocationEntry::new(10, Location::Hand, 2),
            ],
        ),
        (10, vec![LocationEntry::new(10, Location::Thorax, 4)]),
    ])
}

fn being(name: &str) -> Being {
    Being {
        name: name.to_string(),
        attributes: AttributeSet::new(),
        skills: SkillSet::new(),
        prime_hand: None,
        off_hand: None,
        inventory: Inventory(Vec::new()),
        body: humanoid(),
        injuries: Vec::new(),
        shock: None,
    }
}

fn sword() -> Mode {
    Mode::Melee {
        length: 4,
        heft: 3,
        thrust: true,
        two_hand: false,
        aspect: Aspect::Edge,
        zone_die: 10,
        impact_die: 6,
        impact_mod: 2,
        defense_mod: 0,
    }
}

#[test]
fn location_entry_new_keeps_fields() {
    let e = LocationEntry::new(7, Location::Knee, 2);
    assert_eq!(e.die_limit, 7);
    assert_eq!(e.location, Location::Knee);
    assert_eq!(e.shock, 2);
}

#[test]
fn body_locates_by_row_then_entry() {
    let body = humanoid();
    assert_eq!(body.locate(1, 1), Some(Location::Skull));
    assert_eq!(body.locate(1, 6), Some(Location::Face));
    assert_eq!(body.locate(1, 10), Some(Location::Neck));
    assert_eq!(body.locate(2, 3), Some(Location::Shoulder));
    assert_eq!(body.locate(3, 4), Some(Location::Hand));
    assert_eq!(body.locate(9, 2), Some(Location::Thorax));
    assert_eq!(body.locate(11, 2), None);
    assert_eq!(body.locate(1, 11), None);
}

#[test]
fn body_lists_and_selects_locations() {
    let body = humanoid();
    assert_eq!(
        body.locations(),
        vec![
            Location::Skull,
            Location::Face,
            Location::Neck,
            Location::Shoulder,
            Location::Hand,
            Location::Thorax
        ]
    );
    assert_eq!(body.select(Location::Hand), Some(LocationEntry::new(10, Location::Hand, 2)));
    assert_eq!(body.select(Location::Tail), None);
}

#[test]
fn body_shock_adds_location_and_injury() {
    let body = humanoid();
    let injury = Injury { location: Location::Neck, shock: 3, aspect: Aspect::Edge, bleed: false };
    assert_eq!(body.shock(injury), Some(8));
    let tail = Injury { location: Location::Tail, shock: 3, aspect: Aspect::Edge, bleed: false };
    assert_eq!(body.shock(tail), None);
}

#[test]
fn rolled_locations_stay_in_reach() {
    let body = humanoid();
    let mut seen = Vec::new();
    for _ in 0..300 {
        let l = body.roll(10, 0).expect("every roll lands on this body");
        if !seen.contains(&l) {
            seen.push(l);
        }
    }
    assert!(seen.len() >= 3);
}

#[test]
fn injuries_are_graded_by_impact() {
    assert!(Injury::new(Location::Thorax, 0, Aspect::Edge, Chance::High).is_none());
    let minor = Injury::new(Location::Thorax, 4, Aspect::Edge, Chance::High).unwrap();
    assert_eq!((minor.shock, minor.bleed), (1, false));
    let serious = Injury::new(Location::Thorax, 7, Aspect::Edge, Chance::High).unwrap();
    assert_eq!((serious.shock, serious.bleed), (2, false));
    let bleeding = Injury::new(Location::Thorax, 12, Aspect::Edge, Chance::High).unwrap();
    assert_eq!((bleeding.shock, bleeding.bleed), (3, true));
    let dry = Injury::new(Location::Thorax, 12, Aspect::Edge, Chance::Mid).unwrap();
    assert_eq!((dry.shock, dry.bleed), (3, false));
    let grievous = Injury::new(Location::Thorax, 17, Aspect::Point, Chance::Mid).unwrap();
    assert_eq!((grievous.shock, grievous.bleed), (4, true));
    let burnt = Injury::new(Location::Thorax, 40, Aspect::FireFrost, Chance::High).unwrap();
    assert_eq!((burnt.shock, burnt.bleed), (5, false));
    let cut = Injury::new(Location::Thorax, 25, Aspect::Blunt, Chance::Low).unwrap();
    assert_eq!((cut.shock, cut.bleed), (5, true));
    assert_eq!(cut.location, Location::Thorax);
    assert_eq!(cut.aspect, Aspect::Blunt);
}

#[test]
fn compounding_stops_at_five() {
    let mut injury = Injury { location: Location::Face, shock: 4, aspect: Aspect::Edge, bleed: false };
    injury.compound();
    assert_eq!(injury.shock, 5);
    injury.compound();
    assert_eq!(injury.shock, 5);
}

#[test]
fn injuries_compare_by_location_and_severity() {
    let a = Injury { location: Location::Face, shock: 2, aspect: Aspect::Edge, bleed: false };
    let b = Injury { location: Location::Face, shock: 2, aspect: Aspect::Blunt, bleed: true };
    let c = Injury { location: Location::Face, shock: 3, aspect: Aspect::Edge, bleed: false };
    assert!(a == b);
    assert!(a != c);
    assert!(c > a);
    assert!(a < c);
    assert!(a > b);
}

#[test]
fn chance_symbols() {
    assert_eq!(Chance::Nil.circle(), " ");
    assert_eq!(Chance::High.circle(), "●");
    assert_eq!(Chance::Mid.triangle(), "⧨");
    assert_eq!(Chance::Low.rank(), 1);
    assert_eq!(Location::UpperArm.label(), "upper arm");
    assert_eq!(ShockState::Unconscious.label(), "Unconscious");
}

#[test]
fn attributes_and_skills_default() {
    let mut b = being("Ada");
    assert_eq!(b.attribute(Attribute::Aura), 10);
    b.attributes.insert(Attribute::Aura, 14);
    assert_eq!(b.attribute(Attribute::Aura), 14);
    assert_eq!(b.skill(&Skill::Melee), Some(5));
    assert_eq!(b.skill(&Skill::Awareness), None);
    b.skills.insert(Skill::Melee, 2);
    assert_eq!(b.skill(&Skill::Melee), Some(2));
}

#[test]
fn mastery_levels() {
    let mut b = being("Ada");
    b.attributes.insert(Attribute::Strength, 12);
    assert_eq!(b.ml(&Attribute::Strength), 60);
    assert_eq!(b.ml(&Skill::Melee), 50);
    b.skills.insert(Skill::Melee, 6);
    assert_eq!(b.ml(&Skill::Melee), 57);
    assert_eq!(b.eml(&Skill::Melee), 57);
    b.injuries.push(Injury { location: Location::Hand, shock: 2, aspect: Aspect::Edge, bleed: false });
    assert_eq!(b.eml(&Skill::Melee), 47);
    b.injuries.push(Injury { location: Location::Thorax, shock: 4, aspect: Aspect::Edge, bleed: false });
    assert_eq!(b.eml(&Skill::Melee), 0);
}

#[test]
fn strength_modifier() {
    let mut b = being("Ada");
    assert_eq!(b.str_mod(), 0);
    b.attributes.insert(Attribute::Strength, 12);
    assert_eq!(b.str_mod(), 1);
    b.attributes.insert(Attribute::Strength, 4);
    assert_eq!(b.str_mod(), -7);
}

#[test]
fn hands_and_modes() {
    let mut b = being("Ada");
    assert_eq!(b.hands_full(), 0);
    b.prime_hand = Some(Item::Weapon { name: "Sword".to_string(), modes: vec![sword()], description: String::new() });
    assert_eq!(b.hands_full(), 1);
    assert_eq!(b.modes().len(), 1);
    b.equip(Item::Misc { name: "Rope".to_string(), description: String::new() });
    assert_eq!(b.inventory.0.len(), 1);
    assert_eq!(b.heft_mod(sword()), Some(0));
    b.attributes.insert(Attribute::Strength, 1);
    assert_eq!(b.heft_mod(sword()), Some(-10));
}

#[test]
fn success_tests_read_the_roll_against_the_eml() {
    let b = being("Ada");
    let mut rolls = Vec::new();
    for _ in 0..200 {
        let r = b.success_test(&Skill::Melee, 0);
        let roll = match r {
            SuccessResult::CriticalSuccess(x)
            | SuccessResult::Success(x)
            | SuccessResult::Fail(x)
            | SuccessResult::CriticalFail(x) => x,
        };
        assert!((1..=100).contains(&roll));
        assert_eq!(r, SuccessResult::from_roll(50, roll));
        if !rolls.contains(&roll) {
            rolls.push(roll);
        }
    }
    assert!(rolls.len() > 10);
}

#[test]
fn value_tests_stay_near_the_index() {
    let b = being("Ada");
    for _ in 0..50 {
        let v = b.value_test(&Skill::Melee, 0);
        assert!((3..=6).contains(&v));
    }
}

#[test]
fn injury_is_recorded() {
    let mut b = being("Ada");
    let injury = Injury { location: Location::Thorax, shock: 2, aspect: Aspect::Edge, bleed: false };
    b.injure(injury);
    assert_eq!(b.injuries.len(), 1);
    assert_eq!(b.injuries[0].location, Location::Thorax);
    b.injure(injury);
    assert_eq!(b.injuries.len(), 2);
    assert!(b.injuries.iter().all(|i| (2..=3).contains(&i.shock)));
}

#[test]
fn out_of_reach_melee_does_nothing() {
    let mut a = being("Ada");
    let mut t = being("Bo");
    let r = a.attack(&mut t, 20, 1, sword(), None, DefenseOption::Dodge, sword(), 0, 0);
    assert!(r.is_none());
    assert!(t.injuries.is_empty());
}

#[test]
fn melee_attack_wounds_at_most_one_side() {
    for _ in 0..50 {
        let mut a = being("Ada");
        let mut t = being("Bo");
        let r = a.attack(&mut t, 1, 1, sword(), None, DefenseOption::Block, sword(), 0, 0);
        match r {
            None => {
                assert!(a.injuries.is_empty());
                assert!(t.injuries.is_empty());
            }
            Some(i) => {
                assert!((1..=5).contains(&i.shock));
                assert_eq!(a.injuries.len() + t.injuries.len(), 1);
            }
        }
    }
}

#[test]
fn sheet_lists_everything() {
    let mut b = being("Rook");
    b.body = BodyType(vec![(10, vec![LocationEntry::new(10, Location::Skull, 5)])]);
    b.attributes.insert(Attribute::Strength, 12);
    b.skills.insert(Skill::Melee, 3);
    b.inventory.equip(Item::Misc { name: "Rope".to_string(), description: String::new() });
    b.injuries.push(Injury { location: Location::Skull, shock: 1, aspect: Aspect::Blunt, bleed: false });
    let expected = "Rook\n\nAttributes:\n   Strength: .... 12 55\n\nSkills:\n   Melee: .......  3 25\n\nInventory:\nRope\n\n            B  E  P  F  Shk\n    skull:  0  0  0  0  ○5   M1B\n";
    assert_eq!(b.sheet(), expected);
    b.shock = Some(ShockState::Stunned);
    assert!(b.sheet().starts_with("Rook [Stunned]\n"));
}

#[test]
fn tests_are_refused_when_levels_overflow() {
    let mut b = being("Ada");
    b.attributes.insert(Attribute::Strength, 12);
    assert!(b.can_test(&Attribute::Strength, 0));
    assert!(b.can_test(&Skill::Melee, -20));
    b.attributes.insert(Attribute::Strength, 60);
    assert!(!b.can_test(&Attribute::Strength, 0));
    b.skills.insert(Skill::Melee, 200);
    assert!(!b.can_test(&Skill::Melee, 0));
}

#[test]
fn sheets_are_refused_when_levels_overflow() {
    let mut b = being("Ada");
    b.attributes.insert(Attribute::Strength, 12);
    assert_eq!(b.try_sheet(), Some(b.sheet()));
    b.attributes.insert(Attribute::Strength, 60);
    assert_eq!(b.try_sheet(), None);
}

#[test]
fn attacks_are_refused_outside_the_rules_arithmetic() {
    let mut a = being("Ada");
    let mut t = being("Bo");
    assert!(a.every_injury_fits());
    assert!(a.heft_mod_fits_check(sword()));
    let refused = a.try_attack(&mut t, 1, 0, sword(), None, DefenseOption::Dodge, sword(), 0, 0);
    assert!(refused.is_none());
    assert!(t.injuries.is_empty() && a.injuries.is_empty());
    let done = a.try_attack(&mut t, 1, 1, sword(), None, DefenseOption::Dodge, sword(), 0, 0);
    assert!(done.is_some());
    let far = a.try_attack(&mut t, 30, 0, sword(), None, DefenseOption::Dodge, sword(), 0, 0);
    assert_eq!(far, Some(None));
}

#[test]
fn shock_grows_with_the_wound() {
    for _ in 0..50 {
        let mut b = being("Ada");
        let light = Injury { location: Location::Thorax, shock: 1, aspect: Aspect::Blunt, bleed: false };
        let state = b.shock(light);
        assert!(matches!(state, None | Some(ShockState::Stunned)));
        assert_eq!(b.shock, state);
        let mut c = being("Bo");
        let heavy = Injury { location: Location::Thorax, shock: 5, aspect: Aspect::Blunt, bleed: false };
        let state = c.shock(heavy);
        assert!(matches!(
            state,
            Some(ShockState::Incapacitated) | Some(ShockState::Unconscious) | Some(ShockState::Killed)
        ));
    }
    let mut b = being("Ada");
    let tail = Injury { location: Location::Tail, shock: 5, aspect: Aspect::Blunt, bleed: false };
    assert_eq!(b.shock(tail), None);
    assert_eq!(b.shock, None);
}

#[test]
fn further_injuries_never_raise_the_eml() {
    let mut b = being("Ada");
    let mut last = b.eml(&Skill::Melee);
    for shock in [1, 2, 1, 3, 4] {
        b.injuries.push(Injury { location: Location::Shoulder, shock, aspect: Aspect::Edge, bleed: false });
        let now = b.eml(&Skill::Melee);
        assert!(now <= last);
        last = now;
    }
    assert_eq!(last, 0);
}

#[test]
fn strikes_land_the_blow_the_exchange_calls_for() {
    let mut a = being("Ada");
    let mut t = being("Bo");
    let atk = Attack::new(Location::Thorax, 7, Aspect::Edge);
    let def = Attack::new(Location::Hand, 12, Aspect::Blunt);
    assert_eq!(a.strike(&mut t, MeleeHit::Nobody, atk, def, 10, 50), None);
    assert!(a.injuries.is_empty() && t.injuries.is_empty());
    let r = a.strike(&mut t, MeleeHit::TargetByAttacker, atk, def, 10, 50).unwrap();
    assert_eq!((r.location, r.shock, r.aspect), (Location::Thorax, 2, Aspect::Edge));
    assert_eq!(t.injuries.len(), 1);
    assert!(a.injuries.is_empty());
    let r = a.strike(&mut t, MeleeHit::AttackerByDefender, atk, def, 10, 50).unwrap();
    assert_eq!((r.location, r.shock, r.aspect), (Location::Hand, 3, Aspect::Blunt));
    assert_eq!(a.injuries.len(), 1);
    assert_eq!(t.injuries.len(), 1);
    let nothing = Attack::new(Location::Thorax, 0, Aspect::Edge);
    assert_eq!(a.strike(&mut t, MeleeHit::TargetByDefender, atk, nothing, 10, 50), None);
    assert_eq!(t.injuries.len(), 1);
}

#[test]
fn shock_follows_the_test_result() {
    let thorax = Injury { location: Location::Thorax, shock: 2, aspect: Aspect::Blunt, bleed: false };
    let cases = [
        (SuccessResult::CriticalSuccess(5), None),
        (SuccessResult::Success(3), None),
        (SuccessResult::Fail(71), Some(ShockState::Stunned)),
        (SuccessResult::CriticalFail(95), Some(ShockState::Incapacitated)),
    ];
    for (test, expected) in cases {
        let mut b = being("Ada");
        b.shock = Some(ShockState::Killed);
        assert_eq!(b.apply_shock(thorax, test), expected);
        assert_eq!(b.shock, expected);
    }
    let mut b = being("Ada");
    b.shock = Some(ShockState::Stunned);
    let tail = Injury { location: Location::Tail, shock: 5, aspect: Aspect::Blunt, bleed: false };
    assert_eq!(b.apply_shock(tail, SuccessResult::CriticalFail(100)), None);
    assert_eq!(b.shock, Some(ShockState::Stunned));
}

#[test]
fn a_low_wound_roll_compounds_the_worst_injury() {
    let old = Injury { location: Location::Thorax, shock: 2, aspect: Aspect::Edge, bleed: false };
    let new = Injury { location: Location::Thorax, shock: 3, aspect: Aspect::Point, bleed: false };
    let mut b = being("Ada");
    b.injuries.push(old);
    b.injure_with(new, 5, 100);
    assert_eq!(b.injuries, vec![old, Injury { shock: 4, ..new }]);
    assert_eq!(b.shock, Some(ShockState::Killed));
    let mut c = being("Bo");
    c.injuries.push(old);
    c.injure_with(new, 6, 100);
    assert_eq!(c.injuries, vec![old, new]);
    assert_eq!(c.shock, Some(ShockState::Unconscious));
    let mut d = being("Cy");
    d.injure_with(new, 1, 100);
    assert_eq!(d.injuries, vec![new]);
    assert_eq!(d.shock, Some(ShockState::Unconscious));
}

fn melee_dice(atk_test: u8, def_test: u8) -> AttackRolls {
    AttackRolls {
        melee: MeleeRolls {
            atk_test,
            def_test,
            atk_zone: 5,
            atk_spot: 1,
            atk_face: 6,
            def_zone: 2,
            def_spot: 4,
            def_face: 4,
        },
        missile: MissileRolls { test: 1, zone_face: 1, zone: 2, spot: 1, impact_face: 1 },
        wound: 10,
        shock: 100,
    }
}

#[test]
fn a_won_exchange_wounds_the_target_only() {
    let mut a = being("Ada");
    let mut t = being("Bo");
    let r = a.resolve_attack(&mut t, 1, 1, sword(), None, DefenseOption::Block, sword(), 0, 0, melee_dice(1, 99));
    let hit = Injury { location: Location::Thorax, shock: 2, aspect: Aspect::Edge, bleed: false };
    assert_eq!(r, Some(hit));
    assert_eq!(t.injuries, vec![hit]);
    assert_eq!(t.shock, Some(ShockState::Incapacitated));
    assert!(a.injuries.is_empty());
    assert_eq!(a.shock, None);
}

#[test]
fn a_lost_counterstrike_exchange_wounds_the_attacker() {
    let mut a = being("Ada");
    let mut t = being("Bo");
    let dice = melee_dice(99, 1);
    let r = a.resolve_attack(&mut t, 1, 1, sword(), None, DefenseOption::Counterstrike, sword(), 0, 0, dice);
    let hit = Injury { location: Location::Hand, shock: 2, aspect: Aspect::Edge, bleed: false };
    assert_eq!(r, Some(hit));
    assert_eq!(a.injuries, vec![hit]);
    assert_eq!(a.shock, None);
    assert!(t.injuries.is_empty());
    let mut a = being("Ada");
    let r = a.resolve_attack(&mut t, 1, 1, sword(), None, DefenseOption::Block, sword(), 0, 0, dice);
    assert_eq!(r, None);
    assert!(a.injuries.is_empty() && t.injuries.is_empty());
}

#[test]
fn a_shot_for_known_dice() {
    let bow = Mode::Range { draw: 60, two_hand: true, base_range: 20, impact_mod: 3 };
    let arrow = Item::Ammo { shaft: ProjectileShaft::Heavy, head: ProjectileHead::Bodkin };
    let mut a = being("Ada");
    a.skills.insert(Skill::Archery, 5);
    let mut t = being("Bo");
    let dice = AttackRolls {
        melee: melee_dice(1, 1).melee,
        missile: MissileRolls { test: 1, zone_face: 3, zone: 4, spot: 2, impact_face: 7 },
        wound: 10,
        shock: 100,
    };
    let r = a.resolve_attack(&mut t, 15, 1, bow, Some(arrow), DefenseOption::Dodge, sword(), 0, 0, dice);
    let hit = Injury { location: Location::Thorax, shock: 3, aspect: Aspect::Point, bleed: false };
    assert_eq!(r, Some(hit));
    assert_eq!(t.injuries, vec![hit]);
    assert_eq!(t.shock, Some(ShockState::Unconscious));
    assert!(a.injuries.is_empty());
    let missed = AttackRolls { missile: MissileRolls { test: 99, ..dice.missile }, ..dice };
    let mut u = being("Cy");
    let arrow = Item::Ammo { shaft: ProjectileShaft::Heavy, head: ProjectileHead::Bodkin };
    assert_eq!(a.resolve_attack(&mut u, 15, 1, bow, Some(arrow), DefenseOption::Dodge, sword(), 0, 0, missed), None);
    assert!(u.injuries.is_empty());
    assert_eq!(a.resolve_attack(&mut u, 15, 1, bow, None, DefenseOption::Dodge, sword(), 0, 0, dice), None);
    assert!(u.injuries.is_empty());
}

#[test]
fn a_default_being_is_empty() {
    let b = Being::default();
    assert!(b.name.is_empty());
    assert_eq!(b.attribute(Attribute::Strength), 10);
    assert_eq!(b.skill(&Skill::Archery), None);
    assert!(b.prime_hand.is_none() && b.off_hand.is_none());
    assert!(b.inventory.0.is_empty());
    assert!(b.body.0.is_empty());
    assert!(b.injuries.is_empty());
    assert_eq!(b.shock, None);
}

#[test]
fn tests_for_known_rolls() {
    let b = being("Ada");
    let eml = b.eml(&Skill::Melee) as u8;
    assert_eq!(b.success_test_with(&Skill::Melee, 0, 100), SuccessResult::CriticalFail(100));
    assert_eq!(b.success_test_with(&Skill::Melee, 0, 1), SuccessResult::Success(1));
    assert_eq!(b.success_test_with(&Skill::Melee, 0, eml), SuccessResult::from_roll(eml, eml));
    assert_eq!(DefenseOption::Dodge.test_with(&b, sword(), 0, 0, 99), SuccessResult::Fail(99));
    assert_eq!(DefenseOption::Block.test_with(&b, sword(), 0, 0, 5), SuccessResult::CriticalSuccess(5));
}

#[test]
fn value_tests_for_known_rolls() {
    let b = being("Ada");
    let index = (b.ml(&Skill::Melee) / 10) as i8;
    assert_eq!(b.value_test_with(&Skill::Melee, 0, 100), index - 2);
    assert_eq!(b.value_test_with(&Skill::Melee, 0, 1), index);
    assert_eq!(b.value_test_with(&Skill::Melee, 0, 99), index - 1);
}

use hmk::beastiary::{Character, Folk, Gender, Npc};
use hmk::core_rules::{Attribute, Skill};

#[test]
fn npc_action_skills_stand_at_the_base() {
    let mut npc = Npc::default();
    npc.name = "Guard".to_string();
    npc.action_base = 7;
    npc.set_skill(Skill::Awareness, 3);
    assert_eq!(npc.skill(&Skill::Initiative), Some(7));
    assert_eq!(npc.skill(&Skill::Dodge), Some(7));
    assert_eq!(npc.skill(&Skill::Awareness), Some(3));
    assert_eq!(npc.skill(&Skill::Riding), None);
    npc.set_skill(Skill::Melee, 2);
    assert_eq!(npc.skill(&Skill::Melee), Some(7));
    assert_eq!(npc.attribute(Attribute::Aura), 10);
    assert_eq!(npc.name(), "Guard");
    assert!(npc.ammo().is_none());
    assert!(npc.armor().0.is_empty());
    npc.injuries().clear();
    *npc.shock_state() = None;
}

#[test]
fn characters_from_npcs() {
    let mut npc = Npc::default();
    npc.name = "Guard".to_string();
    npc.action_base = 6;
    npc.set_skill(Skill::Awareness, 3);
    npc.set_skill(Skill::Melee, 2);
    let c = Character::from(npc);
    assert_eq!(c.name(), "Guard");
    assert_eq!(c.folk(), Folk::Human);
    assert_eq!(c.gender(), Gender::Male);
    assert_eq!(c.birthdate().as_ordinal(), 1);
    assert_eq!(c.birthdate().year(), 1);
    for a in Attribute::all() {
        assert_eq!(c.attribute(a), Some(10));
    }
    assert_eq!(c.skill(&Skill::Melee), Some(6));
    assert_eq!(c.skill(&Skill::Shock), Some(6));
    assert_eq!(c.skill(&Skill::Initiative), Some(6));
    assert_eq!(c.skill(&Skill::Dodge), Some(6));
    assert_eq!(c.skill(&Skill::Awareness), Some(3));
    assert_eq!(c.skill(&Skill::Riding), None);
    assert!(c.injuries.is_empty());
    assert!(c.shock_state.is_none());
}

#[test]
fn conversion_keeps_every_skill_level() {
    let mut npc = Npc::default();
    npc.action_base = 9;
    npc.set_skill(Skill::Stealth, 4);
    let skills = [Skill::Stealth, Skill::Melee, Skill::Initiative, Skill::Riding, Skill::Dodge, Skill::Shock];
    let before: Vec<Option<u8>> = skills.iter().map(|s| npc.skill(s)).collect();
    let c = Character::from(npc);
    let after: Vec<Option<u8>> = skills.iter().map(|s| c.skill(s)).collect();
    assert_eq!(before, after);
}

#[test]
fn a_default_character_is_a_blank_human() {
    let c = Character::default();
    assert!(c.name().is_empty());
    assert_eq!(c.folk(), Folk::Human);
    assert_eq!(c.gender(), Gender::Male);
    assert_eq!(c.birthdate().year(), 1);
    assert_eq!(c.birthdate().as_ordinal(), 1);
    assert_eq!(c.attribute(Attribute::Strength), None);
    assert_eq!(c.skill(&Skill::Melee), None);
    assert!(c.armor().0.is_empty());
}

#[test]
fn clones_keep_every_entry() {
    let mut npc = Npc::default();
    npc.set_skill(Skill::Language("Harnic".to_string()), 4);
    npc.set_skill(Skill::Melee, 6);
    let copy = npc.clone();
    assert_eq!(copy.skill(&Skill::Language("Harnic".to_string())), Some(4));
    assert_eq!(copy.skill(&Skill::Melee), npc.skill(&Skill::Melee));
    let c = Character::from(npc);
    let d = c.clone();
    assert_eq!(d.attribute(Attribute::Will), Some(10));
    assert_eq!(d.skill(&Skill::Language("Harnic".to_string())), Some(4));
    assert_eq!(Skill::Talent("Sing".to_string()).clone(), Skill::Talent("Sing".to_string()));
}

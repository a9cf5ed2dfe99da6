use hmk::being::{Being, BodyType, Location, LocationEntry};
use hmk::core_rules::{AttributeSet, SkillSet, SuccessResult};
use hmk::item::{
    copy_modes, saturating_sub_i8, Aspect, Attack, DefenseOption, Inventory, Item, Material,
    MissileRange, Mode, ProjectileHead, ProjectileShaft, Rigidity,
};

fn melee(length: u8, thrust: bool) -> Mode {
    Mode::Melee {
        length,
        heft: 3,
        thrust,
        two_hand: false,
        aspect: Aspect::Edge,
        zone_die: 10,
        impact_die: 6,
        impact_mod: 2,
        defense_mod: -5,
    }
}

fn bow() -> Mode {
    Mode::Range { draw: 60, two_hand: true, base_range: 20, impact_mod: 3 }
}

fn armor(name: &str, material: Material, covers: Vec<Location>) -> Item {
    Item::Armor { name: name.to_string(), material, covers, description: String::new() }
}

#[test]
fn reach_penalties_go_to_the_longer_thrusting_weapon() {
    assert_eq!(melee(6, true).reach_diff(melee(4, false)), (10, 0));
    assert_eq!(melee(6, false).reach_diff(melee(4, false)), (0, 0));
    assert_eq!(melee(2, true).reach_diff(melee(5, true)), (0, -15));
    assert_eq!(melee(2, true).reach_diff(bow()), (0, 0));
}

#[test]
fn mode_fields() {
    let m = melee(4, true);
    assert_eq!(m.heft(), 3);
    assert_eq!(m.defense_mod(), -5);
    assert_eq!(m.aspect(), Aspect::Edge);
    assert_eq!(m.impact_die(), 6);
    assert_eq!(m.impact_mod(), 2);
    assert_eq!(bow().heft(), 0);
    assert_eq!(bow().aspect(), Aspect::Point);
    assert_eq!(bow().impact_mod(), 3);
}

#[test]
fn missile_bands() {
    assert_eq!(bow().calc_range(10), MissileRange::DirectPB);
    assert_eq!(bow().calc_range(11), MissileRange::Direct);
    assert_eq!(bow().calc_range(20), MissileRange::Direct);
    assert_eq!(bow().calc_range(40), MissileRange::Volley2);
    assert_eq!(bow().calc_range(60), MissileRange::Volley3);
    assert_eq!(bow().calc_range(80), MissileRange::Volley4);
    assert_eq!(bow().calc_range(81), MissileRange::OutOfRange);
    assert_eq!(melee(4, true).calc_range(1), MissileRange::OutOfRange);
}

#[test]
fn bands_never_come_nearer_with_distance() {
    let rank = |r: MissileRange| match r {
        MissileRange::DirectPB => 0,
        MissileRange::Direct => 1,
        MissileRange::Volley2 => 2,
        MissileRange::Volley3 => 3,
        MissileRange::Volley4 => 4,
        MissileRange::OutOfRange => 5,
    };
    let mut last = 0;
    for v in 0..100u16 {
        let r = rank(bow().calc_range(v));
        assert!(r >= last);
        last = r;
    }
}

#[test]
fn band_modifiers() {
    assert_eq!(MissileRange::DirectPB.test_mod(), Some(10));
    assert_eq!(MissileRange::Volley3.test_mod(), Some(-20));
    assert_eq!(MissileRange::OutOfRange.test_mod(), None);
    assert_eq!(MissileRange::Direct.zone_die(), Some(8));
    assert_eq!(MissileRange::Volley4.zone_die(), Some(10));
    assert_eq!(MissileRange::DirectPB.impact_mod(), Some(2));
    assert_eq!(MissileRange::Volley4.impact_mod(), Some(-4));
    assert_eq!(MissileRange::OutOfRange.impact_mod(), None);
}

#[test]
fn missile_impact() {
    let blunt = Item::Ammo { shaft: ProjectileShaft::Heavy, head: ProjectileHead::Blunt };
    let bodkin = Item::Ammo { shaft: ProjectileShaft::Light, head: ProjectileHead::Bodkin };
    assert_eq!(blunt.impact_for_face(7, 0), 3);
    assert_eq!(blunt.impact_for_face(1, -4), -1);
    assert_eq!(bodkin.impact_for_face(8, 2), 10);
    let rope = Item::Misc { name: "Rope".to_string(), description: String::new() };
    assert_eq!(rope.calc_impact(3), 0);
    let mut seen = Vec::new();
    for _ in 0..200 {
        let i = bodkin.calc_impact(0);
        assert!((1..=8).contains(&i));
        if !seen.contains(&i) {
            seen.push(i);
        }
    }
    assert!(seen.len() > 1);
}

#[test]
fn inventory_protection_and_injury() {
    let mut inv = Inventory(Vec::new());
    inv.equip(armor("Jerkin", Material::Leather, vec![Location::Thorax, Location::Thorax]));
    inv.equip(armor("Cuirass", Material::Plate, vec![Location::Thorax, Location::Abdomen]));
    inv.equip(Item::Ammo { shaft: ProjectileShaft::Heavy, head: ProjectileHead::Broad });
    assert_eq!(inv.protection(Location::Thorax, Aspect::Edge), 15);
    assert_eq!(inv.protection(Location::Abdomen, Aspect::Blunt), 6);
    assert_eq!(inv.protection(Location::Face, Aspect::Blunt), 0);
    let injury = inv.calc_injury(Attack::new(Location::Thorax, 20, Aspect::Edge)).unwrap();
    assert_eq!((injury.location, injury.shock, injury.bleed), (Location::Thorax, 2, false));
    assert!(inv.calc_injury(Attack::new(Location::Thorax, 15, Aspect::Edge)).is_none());
    let through = inv.calc_injury(Attack::new(Location::Thorax, 10, Aspect::Edge)).unwrap();
    assert_eq!(through.shock, 5);
    assert_eq!(inv.ammo().len(), 1);
}

#[test]
fn material_tables() {
    assert_eq!(Material::Mail.av(), [2, 8, 7, 3]);
    assert_eq!(Material::Plate.av_for(Aspect::Point), 9);
    assert_eq!(Material::Quilted.rigidity(), Rigidity::Soft);
    assert_eq!(Material::Kurbul.rigidity(), Rigidity::Rigid);
    assert_eq!(Material::Scale.rigidity(), Rigidity::Mail);
    assert_eq!(Material::Plate.rigidity(), Rigidity::Plate);
    assert_eq!(Material::Kurbul.label(), "Kûrbúl");
    assert_eq!(Aspect::FireFrost.array_index(), 3);
    assert_eq!(Aspect::Edge.letter(), "E");
}

#[test]
fn saturating_difference() {
    assert_eq!(saturating_sub_i8(10, 3), 7);
    assert_eq!(saturating_sub_i8(-100, 100), -128);
    assert_eq!(saturating_sub_i8(100, -100), 127);
}

#[test]
fn modes_of_items() {
    let sword = Item::Weapon { name: "Sword".to_string(), modes: vec![melee(4, true), bow()], description: String::new() };
    assert_eq!(sword.modes().len(), 2);
    assert_eq!(copy_modes(&vec![bow()]).len(), 1);
    assert_eq!(Item::Misc { name: "x".to_string(), description: String::new() }.modes().len(), 0);
}

#[test]
fn renders() {
    assert_eq!(melee(4, true).render(), "4T d10 d6+2E");
    assert_eq!(melee(12, false).render(), "12 d10 d6+2E");
    assert_eq!(bow().render(), "60lb •+3P");
    assert_eq!(armor("Cuirass", Material::Kurbul, vec![]).render(), "Kûrbúl Cuirass");
    assert_eq!(Item::Ammo { shaft: ProjectileShaft::Heavy, head: ProjectileHead::Bodkin }.render(), "Heavy Bodkin");
    assert_eq!(DefenseOption::Counterstrike.label(), "Counterstrike");
    assert_eq!(DefenseOption::all(), vec![DefenseOption::Block, DefenseOption::Dodge, DefenseOption::Counterstrike]);
}

#[test]
fn defence_tests_use_the_right_skill() {
    let b = Being {
        name: "Bo".to_string(),
        attributes: AttributeSet::new(),
        skills: SkillSet::new(),
        prime_hand: None,
        off_hand: None,
        inventory: Inventory(Vec::new()),
        body: BodyType(vec![(10, vec![LocationEntry::new(10, Location::Thorax, 4)])]),
        injuries: Vec::new(),
        shock: None,
    };
    for _ in 0..100 {
        let r = DefenseOption::Dodge.test(&b, melee(4, true), 0, 0);
        let roll = match r {
            SuccessResult::CriticalSuccess(x)
            | SuccessResult::Success(x)
            | SuccessResult::Fail(x)
            | SuccessResult::CriticalFail(x) => x,
        };
        assert_eq!(r, SuccessResult::from_roll(45, roll));
        let c = DefenseOption::Counterstrike.test(&b, melee(4, true), 0, 10);
        let roll = match c {
            SuccessResult::CriticalSuccess(x)
            | SuccessResult::Success(x)
            | SuccessResult::Fail(x)
            | SuccessResult::CriticalFail(x) => x,
        };
        assert_eq!(c, SuccessResult::from_roll(35, roll));
    }
}

#[test]
fn equipping_never_lowers_protection_on_examples() {
    let mut inv = Inventory(Vec::new());
    let pieces = vec![
        armor("Cap", Material::Leather, vec![Location::Skull]),
        Item::Misc { name: "Rope".to_string(), description: String::new() },
        armor("Coif", Material::Mail, vec![Location::Skull, Location::Neck]),
        armor("Helm", Material::Plate, vec![Location::Skull]),
    ];
    let mut last = inv.protection(Location::Skull, Aspect::Edge);
    for p in pieces {
        inv.equip(p);
        let now = inv.protection(Location::Skull, Aspect::Edge);
        assert!(now >= last);
        last = now;
    }
    assert_eq!(last, 2 + 8 + 11);
}

#[test]
fn defaults_are_empty() {
    let mut a = AttributeSet::default();
    assert_eq!(a.get(hmk::core_rules::Attribute::Aura), None);
    assert_eq!(a.insert(hmk::core_rules::Attribute::Aura, 12), None);
    assert_eq!(a.insert(hmk::core_rules::Attribute::Aura, 14), Some(12));
    assert_eq!(a.clone().get(hmk::core_rules::Attribute::Aura), Some(14));
    assert_eq!(a.get(hmk::core_rules::Attribute::Will), None);
    assert_eq!(SkillSet::default().pairs().len(), 0);
    assert!(BodyType::default().0.is_empty());
    assert!(hmk::item::Inventory::default().0.is_empty());
    assert_eq!(hmk::item::Material::default(), hmk::item::Material::Cloth);
    assert_eq!(BodyType::default(), BodyType(Vec::new()));
}

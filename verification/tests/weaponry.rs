use hmk::armor::Location;
use hmk::armory::{projectiles, Suit};
use hmk::weapons::{
    Aspect, Attack, Group, MissileRange, Projectile, ProjectileHead, ProjectileShaft,
    RangeWeapon, Restriction,
};

fn longbow() -> RangeWeapon {
    RangeWeapon {
        name: "Longbow".to_string(),
        group: Group::Bows,
        restriction: Restriction::Common,
        quality: 13,
        draw: 80,
        base_range: 20,
        impact_mod: 4,
        weight: 3,
        price: 120,
        description: String::new(),
    }
}

#[test]
fn shot_bands() {
    let bow = longbow();
    assert_eq!(bow.calc_range(40), MissileRange::DirectPB);
    assert_eq!(bow.calc_range(39), MissileRange::Direct);
    assert_eq!(bow.calc_range(20), MissileRange::Direct);
    assert_eq!(bow.calc_range(10), MissileRange::Volley2);
    assert_eq!(bow.calc_range(7), MissileRange::Volley3);
    assert_eq!(bow.calc_range(5), MissileRange::Volley4);
    assert_eq!(bow.calc_range(4), MissileRange::OutOfRange);
}

#[test]
fn band_modifiers_of_shots() {
    assert_eq!(MissileRange::DirectPB.test_mod(), Some(10));
    assert_eq!(MissileRange::Volley4.test_mod(), Some(-40));
    assert_eq!(MissileRange::Volley2.zone_die(), Some(10));
    assert_eq!(MissileRange::DirectPB.zone_die(), Some(6));
    assert_eq!(MissileRange::Volley3.impact_mod(), Some(-3));
    assert_eq!(MissileRange::OutOfRange.test_mod(), None);
}

#[test]
fn projectile_impact() {
    let blunt = Projectile { shaft: ProjectileShaft::Heavy, head: ProjectileHead::Blunt };
    let bodkin = Projectile { shaft: ProjectileShaft::Light, head: ProjectileHead::Bodkin };
    assert_eq!(blunt.impact_for_face(7, 0), 3);
    assert_eq!(bodkin.impact_for_face(8, 2), 10);
    assert_eq!(bodkin.impact_for_face(1, -4), 253);
    let mut seen = Vec::new();
    for _ in 0..200 {
        let i = blunt.calc_impact(0);
        assert!(i <= 6);
        if !seen.contains(&i) {
            seen.push(i);
        }
    }
    assert!(seen.len() > 1);
}

#[test]
fn attacks_and_aspects() {
    let a = Attack::new(Location::Calf, 9, Aspect::Point);
    assert_eq!((a.location, a.impact, a.aspect), (Location::Calf, 9, Aspect::Point));
    assert_eq!(Aspect::Point.array_index(), 2);
    assert_eq!(Aspect::FireFrost.letter(), "F");
}

#[test]
fn stock_suits_name_their_files() {
    let clothing = Suit::Clothing.files();
    assert_eq!(
        clothing,
        vec![
            "items/armor/cloth_vest.toml".to_string(),
            "items/armor/cloth_tunic.toml".to_string(),
            "items/armor/cloth_breeches.toml".to_string(),
            "items/armor/cloth_swaddle.toml".to_string(),
        ]
    );
    assert_eq!(Suit::PlateMail.files().len(), 17);
    assert_eq!(Suit::KurbulMail.files()[0], "items/armor/plate_34_helm.toml");
}

#[test]
fn every_projectile_kind_under_its_own_name() {
    let all = projectiles();
    assert_eq!(all.len(), 6);
    assert_eq!(
        all[0],
        ("Heavy Bodkin".to_string(), Projectile { shaft: ProjectileShaft::Heavy, head: ProjectileHead::Bodkin })
    );
    assert_eq!(all[5].0, "Light Broad");
    for (i, (a, _)) in all.iter().enumerate() {
        for (b, _) in all.iter().skip(i + 1) {
            assert_ne!(a, b);
        }
    }
}

use hmk::armor::{Armor, ArmorSet, HitError, Location, Material, Rigidity, Zone};
use hmk::weapons::Aspect;

fn piece(name: &str, material: Material, covers: Vec<Location>) -> Armor {
    Armor { name: name.to_string(), material, covers, description: String::new() }
}

#[test]
fn locations_lie_in_zones() {
    assert_eq!(Location::Neck.zone(), Zone::Head);
    assert_eq!(Location::Elbow.zone(), Zone::Arms);
    assert_eq!(Location::Pelvis.zone(), Zone::Torso);
    assert_eq!(Location::Foot.zone(), Zone::Legs);
    assert_eq!(Location::Thorax.array_index(), 8);
    assert_eq!(Location::Abdomen.bloodloss(), 3);
    assert_eq!(Location::Hand.bloodloss(), 0);
    assert_eq!(Location::Skull.shock(), 5);
    assert_eq!(Location::UpperArm.label(), "upper arm");
}

#[test]
fn strikes_find_locations_by_zone() {
    assert_eq!(Location::locate(1, 5), Ok(Location::Skull));
    assert_eq!(Location::locate(1, 6), Ok(Location::Face));
    assert_eq!(Location::locate(1, 9), Ok(Location::Neck));
    assert_eq!(Location::locate(2, 7), Ok(Location::Elbow));
    assert_eq!(Location::locate(3, 10), Ok(Location::Hand));
    assert_eq!(Location::locate(5, 5), Ok(Location::Abdomen));
    assert_eq!(Location::locate(7, 8), Ok(Location::Pelvis));
    assert_eq!(Location::locate(9, 5), Ok(Location::Knee));
    assert_eq!(Location::locate(10, 9), Ok(Location::Foot));
}

#[test]
fn a_zone_roll_outside_one_to_ten_misses() {
    assert_eq!(Location::locate(0, 3), Err(HitError::Missed));
    assert_eq!(Location::locate(11, 3), Err(HitError::Missed));
    assert_eq!(Location::try_from(0), Err(HitError::Missed));
    assert_eq!(Location::try_from(200), Err(HitError::Missed));
}

#[test]
fn rolled_locations_stay_in_the_zone() {
    let mut seen = Vec::new();
    for _ in 0..200 {
        let l = Location::try_from(4).unwrap();
        assert_eq!(l.zone(), Zone::Torso);
        if !seen.contains(&l) {
            seen.push(l);
        }
    }
    assert!(seen.len() >= 2);
}

#[test]
fn materials() {
    assert_eq!(Material::Plate.av(), [6, 11, 9, 5]);
    assert_eq!(Material::Gambeson.av_for(Aspect::FireFrost), 5);
    assert_eq!(Material::Leather.rigidity(), Rigidity::Soft);
    assert_eq!(Material::Mail.rigidity(), Rigidity::Mail);
    assert_eq!(Material::Kurbul.label(), "Kûrbúl");
    assert_eq!(Material::default(), Material::Cloth);
}

#[test]
fn at_most_five_layers_over_a_location() {
    let mut set = ArmorSet::default();
    let shirt = piece("Shirt", Material::Cloth, vec![Location::Thorax]);
    for _ in 0..7 {
        set.don(&shirt);
    }
    assert_eq!(set.0.len(), 5);
    set.don(&piece("Hood", Material::Cloth, vec![Location::Face, Location::Thorax]));
    assert_eq!(set.0.len(), 5);
    set.don(&piece("Cap", Material::Leather, vec![Location::Skull])).don(&piece(
        "Mask",
        Material::Leather,
        vec![Location::Face],
    ));
    assert_eq!(set.0.len(), 7);
    assert_eq!(set.0[6].name, "Mask");
}

#[test]
fn suit_protection() {
    let mut set = ArmorSet::default();
    set.don(&piece("Jerkin", Material::Leather, vec![Location::Thorax, Location::Thorax]));
    set.don(&piece("Cuirass", Material::Plate, vec![Location::Thorax]));
    assert_eq!(set.protection(Location::Thorax, Aspect::Edge), 15);
    assert_eq!(set.protection(Location::Thorax, Aspect::Blunt), 8);
    assert_eq!(set.protection(Location::Knee, Aspect::Blunt), 0);
}

#[test]
fn suit_renders_as_a_list() {
    let mut set = ArmorSet::default();
    assert_eq!(set.render(), "Items:\n\n");
    set.don(&piece("Jerkin", Material::Leather, vec![Location::Thorax]));
    set.don(&piece("Cuirass", Material::Plate, vec![Location::Thorax]));
    assert_eq!(set.render(), "Items:\nLeather Jerkin, Plate Cuirass\n");
    assert_eq!(set.0[0].render(), "Leather Jerkin");
}

#[test]
fn armour_copies_and_defaults() {
    let a = piece("Coif", Material::Mail, vec![Location::Neck, Location::Skull]);
    let b = a.duplicate();
    assert_eq!(b.name, "Coif");
    assert_eq!(b.covers, vec![Location::Neck, Location::Skull]);
    let d = Armor::default();
    assert!(d.name.is_empty() && d.covers.is_empty());
    assert_eq!(d.material, Material::Cloth);
}

#[test]
fn a_miss_says_so() {
    assert_eq!(Location::try_from(0).err().map(|e| e.message()), Some("Missed!"));
    assert_eq!(HitError::Missed.message(), "Missed!");
}

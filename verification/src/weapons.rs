//! Weapons of the layered armour rules: melee and missile weapons, their
//! attack modes, projectiles and the bands of a missile shot.
use vstd::prelude::*;

use crate::armor::{Location, Material};

verus! {

/// An attack mode of a weapon.
#[derive(Debug, Clone, Copy)]
pub enum Mode {
    Melee {
        length: u8,
        thrusting: bool,
        two_hand: bool,
        aspect: Aspect,
        zone_die: u8,
        impact_die: u8,
        impact_mod: u8,
    },
    Range { draw: u16, two_hand: bool, base_range: u16, impact_mod: u8 },
}

/// Something a being can carry.
#[derive(Debug, Clone)]
pub enum Item {
    Weapon { name: String, heft: u8, defense_mod: i8, modes: Vec<Mode>, description: String },
    Armor { name: String, material: Material, covers: Vec<Location>, description: String },
    Ammo { shaft: ProjectileShaft, head: ProjectileHead },
    Misc { name: String, description: String },
}

/// A blow that lands: where, how hard, and with which aspect.
#[derive(Debug, Clone, Copy)]
pub struct Attack {
    pub location: Location,
    pub impact: u8,
    pub aspect: Aspect,
}

impl Attack {
    pub fn new(location: Location, impact: u8, aspect: Aspect) -> (a: Attack)
        ensures
            a == (Attack { location, impact, aspect }),
    {
        Attack { location, impact, aspect }
    }
}

/// The kind of damage a blow does.
#[derive(Debug, PartialEq, Eq, Structural, Clone, Copy)]
pub enum Aspect {
    Blunt,
    Edge,
    Point,
    FireFrost,
}

impl Aspect {
    pub open spec fn spec_array_index(self) -> int {
        match self {
            Aspect::Blunt => 0,
            Aspect::Edge => 1,
            Aspect::Point => 2,
            Aspect::FireFrost => 3,
        }
    }

    /// The aspect's column in an armour value table.
    pub fn array_index(self) -> (i: usize)
        ensures
            i == self.spec_array_index(),
    {
        match self {
            Aspect::Blunt => 0,
            Aspect::Edge => 1,
            Aspect::Point => 2,
            Aspect::FireFrost => 3,
        }
    }
}

/// The family a weapon belongs to.
#[derive(Debug, PartialEq, Eq, Structural, Clone, Copy)]
pub enum Group {
    Axes,
    Bows,
    Crossbows,
    Slings,
    Clubs,
    Flails,
    Knives,
    Polearms,
    Shields,
    Swords,
    Unarmed,
}

/// Who may bear a weapon.
#[derive(Debug, PartialEq, Eq, Structural, Clone, Copy)]
pub enum Restriction {
    Common,
    Simple,
    Chivalric,
}

/// How a defender meets a melee attack.
#[derive(Debug, PartialEq, Eq, Structural, Clone, Copy)]
pub enum DefenseOption {
    Block,
    Dodge,
    Counterstrike,
}

/// A melee weapon as its data file describes it.
#[derive(Debug, Clone)]
pub struct MeleeWeapon {
    pub name: String,
    pub group: Group,
    pub restriction: Restriction,
    pub quality: u8,
    pub heft: u8,
    pub length: u8,
    pub thrusting: bool,
    pub aspect: Aspect,
    pub zone_die: u8,
    pub impact_die: u8,
    pub impact_mod: u8,
    pub weight: u8,
    pub price: u16,
    pub description: String,
}

#[derive(Debug, PartialEq, Eq, Structural, Clone, Copy)]
pub enum ProjectileShaft {
    Heavy,
    Light,
}

#[derive(Debug, PartialEq, Eq, Structural, Clone, Copy)]
pub enum ProjectileHead {
    Bodkin,
    Blunt,
    Broad,
}

/// A missile: its shaft and its head.
#[derive(Debug, PartialEq, Eq, Structural, Clone, Copy)]
pub struct Projectile {
    pub shaft: ProjectileShaft,
    pub head: ProjectileHead,
}

/// An integer taken modulo 256, as a cast to `u8` takes it.
pub open spec fn wrap_u8(v: int) -> u8 {
    (((v % 256) + 256) % 256) as u8
}

/// Division rounding toward zero, as integer division does.
pub open spec fn quotient_toward_zero(a: int, b: int) -> int {
    if a >= 0 {
        a / b
    } else {
        -((-a) / b)
    }
}

impl Projectile {
    /// The faces of the impact die: 12 for a heavy shaft, 8 for a light one.
    pub open spec fn spec_impact_die(self) -> i8 {
        match self.shaft {
            ProjectileShaft::Heavy => 12,
            ProjectileShaft::Light => 8,
        }
    }

    /// A blunt head halves the impact.
    pub open spec fn spec_divisor(self) -> i8 {
        match self.head {
            ProjectileHead::Blunt => 2,
            _ => 1,
        }
    }

    /// The impact for a face of the impact die: face plus modifier, divided
    /// by the head's divisor toward zero, and taken as a byte.
    pub open spec fn spec_impact(self, face: i8, modifier: i8) -> u8 {
        wrap_u8(quotient_toward_zero(face + modifier, self.spec_divisor() as int))
    }

    /// Whether face plus modifier stays an `i8` for every face of the die.
    pub open spec fn impact_fits(self, modifier: i8) -> bool {
        self.spec_impact_die() + modifier <= 127
    }

    /// The impact for a known face of the impact die.
    pub fn impact_for_face(&self, face: i8, modifier: i8) -> (impact: u8)
        requires
            1 <= face <= self.spec_impact_die(),
            self.impact_fits(modifier),
        ensures
            impact == self.spec_impact(face, modifier),
    {
        let head_mod_div: i8 = match self.head {
            ProjectileHead::Blunt => 2,
            _ => 1,
        };
        let sum: i8 = face + modifier;
        let q: i8 = sum / head_mod_div;
        proof {
            assert(q == quotient_toward_zero(sum as int, head_mod_div as int));
        }
        if q >= 0 {
            q as u8
        } else {
            (q as i16 + 256) as u8
        }
    }

    /// Rolls the impact of the missile: a die of 12 faces for a heavy
    /// shaft, 8 for a light one, plus the modifier, halved for a blunt head.
    pub fn calc_impact(&self, modifier: i8) -> (impact: u8)
        requires
            self.impact_fits(modifier),
        ensures
            exists|face: i8|
                1 <= face <= self.spec_impact_die() && impact == self.spec_impact(face, modifier),
    {
        let impact_die: i8 = match self.shaft {
            ProjectileShaft::Heavy => 12,
            ProjectileShaft::Light => 8,
        };
        let face = crate::dice::roll_die(1, impact_die as i32) as i8;
        self.impact_for_face(face, modifier)
    }
}

/// The band of a missile shot, from point blank to out of range.
#[derive(Debug, PartialEq, Eq, Structural, Clone, Copy)]
pub enum MissileRange {
    DirectPB,
    Direct,
    Volley2,
    Volley3,
    Volley4,
    OutOfRange,
}

impl MissileRange {
    /// How far out the band lies: 0 at point blank, 5 out of range.
    pub open spec fn distance_rank(self) -> int {
        match self {
            MissileRange::DirectPB => 0,
            MissileRange::Direct => 1,
            MissileRange::Volley2 => 2,
            MissileRange::Volley3 => 3,
            MissileRange::Volley4 => 4,
            MissileRange::OutOfRange => 5,
        }
    }

    pub open spec fn spec_test_mod(self) -> Option<i8> {
        match self {
            MissileRange::DirectPB => Some(10),
            MissileRange::Direct | MissileRange::Volley2 => Some(0),
            MissileRange::Volley3 => Some(-20i8),
            MissileRange::Volley4 => Some(-40i8),
            MissileRange::OutOfRange => None,
        }
    }

    /// The modifier to the missile skill test.
    pub fn test_mod(self) -> (m: Option<i8>)
        ensures
            m == self.spec_test_mod(),
    {
        match self {
            MissileRange::DirectPB => Some(10),
            MissileRange::Direct | MissileRange::Volley2 => Some(0),
            MissileRange::Volley3 => Some(-20),
            MissileRange::Volley4 => Some(-40),
            MissileRange::OutOfRange => None,
        }
    }

    pub open spec fn spec_zone_die(self) -> Option<u8> {
        match self {
            MissileRange::DirectPB => Some(6),
            MissileRange::Direct => Some(8),
            MissileRange::Volley2 | MissileRange::Volley3 | MissileRange::Volley4 => Some(10),
            MissileRange::OutOfRange => None,
        }
    }

    /// The die rolled for the strike zone.
    pub fn zone_die(self) -> (d: Option<u8>)
        ensures
            d == self.spec_zone_die(),
    {
        match self {
            MissileRange::DirectPB => Some(6),
            MissileRange::Direct => Some(8),
            MissileRange::Volley2 | MissileRange::Volley3 | MissileRange::Volley4 => Some(10),
            MissileRange::OutOfRange => None,
        }
    }

    pub open spec fn spec_impact_mod(self) -> Option<i8> {
        match self {
            MissileRange::DirectPB => Some(2),
            MissileRange::Direct => Some(0),
            MissileRange::Volley2 => Some(-2i8),
            MissileRange::Volley3 => Some(-3i8),
            MissileRange::Volley4 => Some(-4i8),
            MissileRange::OutOfRange => None,
        }
    }

    /// The modifier to the missile's impact.
    pub fn impact_mod(self) -> (m: Option<i8>)
        ensures
            m == self.spec_impact_mod(),
    {
        match self {
            MissileRange::DirectPB => Some(2),
            MissileRange::Direct => Some(0),
            MissileRange::Volley2 => Some(-2),
            MissileRange::Volley3 => Some(-3),
            MissileRange::Volley4 => Some(-4),
            MissileRange::OutOfRange => None,
        }
    }
}

/// A missile weapon as its data file describes it.
#[derive(Debug, Clone)]
pub struct RangeWeapon {
    pub name: String,
    pub group: Group,
    pub restriction: Restriction,
    pub quality: u8,
    pub draw: u16,
    pub base_range: u16,
    pub impact_mod: u8,
    pub weight: u8,
    pub price: u16,
    pub description: String,
}

/// The band of a shot whose value is `value` with a weapon of base range
/// `base`: twice the base or more is point blank, the base or more direct,
/// and a half, a third or a quarter of the base the three volley bands.
pub open spec fn spec_shot_band(base: u16, value: u16) -> MissileRange {
    if value >= base * 2 {
        MissileRange::DirectPB
    } else if value >= base {
        MissileRange::Direct
    } else if value * 2 >= base {
        MissileRange::Volley2
    } else if value * 3 >= base {
        MissileRange::Volley3
    } else if value * 4 >= base {
        MissileRange::Volley4
    } else {
        MissileRange::OutOfRange
    }
}

impl RangeWeapon {
    /// The band of a shot with this weapon.
    pub fn calc_range(&self, value: u16) -> (r: MissileRange)
        requires
            self.base_range * 2 <= u16::MAX,
        ensures
            r == spec_shot_band(self.base_range, value),
    {
        if value >= self.base_range * 2 {
            MissileRange::DirectPB
        } else if value >= self.base_range {
            MissileRange::Direct
        } else if value * 2 >= self.base_range {
            MissileRange::Volley2
        } else if value * 3 >= self.base_range {
            MissileRange::Volley3
        } else if value * 4 >= self.base_range {
            MissileRange::Volley4
        } else {
            MissileRange::OutOfRange
        }
    }
}

/// A greater value never puts a shot in a further band.
pub proof fn shot_band_is_antitone(base: u16, low: u16, high: u16)
    requires
        low <= high,
    ensures
        spec_shot_band(base, high).distance_rank() <= spec_shot_band(base, low).distance_rank(),
{
}

impl Aspect {
    pub open spec fn spec_letter(self) -> Seq<char> {
        match self {
            Aspect::Blunt => "B"@,
            Aspect::Edge => "E"@,
            Aspect::Point => "P"@,
            Aspect::FireFrost => "F"@,
        }
    }

    /// The aspect's letter.
    pub fn letter(self) -> (s: &'static str)
        ensures
            s@ == self.spec_letter(),
    {
        match self {
            Aspect::Blunt => "B",
            Aspect::Edge => "E",
            Aspect::Point => "P",
            Aspect::FireFrost => "F",
        }
    }
}

} // verus!

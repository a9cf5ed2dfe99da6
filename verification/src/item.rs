//! Items: weapons and their attack modes, armour, ammunition, the inventory
//! that holds them, missile ranges and the defence options of melee.
use vstd::prelude::*;

use crate::being::{Being, Injury, Location};
use crate::core_rules::{Skill, SuccessResult, as_signed};
use crate::text::{append_decimal, append_signed, decimal, signed_decimal};

use vstd::string::StringExecFns;

verus! {

/// An attack mode of a weapon.
#[derive(Debug, Clone, Copy)]
pub enum Mode {
    Melee {
        length: u8,
        heft: u8,
        thrust: bool,
        two_hand: bool,
        aspect: Aspect,
        zone_die: u8,
        impact_die: i8,
        impact_mod: u8,
        defense_mod: i8,
    },
    Range { draw: u16, two_hand: bool, base_range: u16, impact_mod: u8 },
}

/// The reach penalties of a melee exchange, for the attacker and for the
/// defender: the longer weapon gets 5 per unit of length difference, and
/// only when it thrusts.
pub open spec fn spec_reach_diff(atk: Mode, def: Mode) -> (int, int) {
    match (atk, def) {
        (
            Mode::Melee { length: atk_length, thrust: atk_thrust, .. },
            Mode::Melee { length: def_length, thrust: def_thrust, .. },
        ) => {
            let d = (as_signed(atk_length) - as_signed(def_length)) * 5;
            (
                if d > 0 && atk_thrust {
                    d
                } else {
                    0
                },
                if d < 0 && def_thrust {
                    d
                } else {
                    0
                },
            )
        },
        _ => (0, 0),
    }
}

/// Whether the reach difference of two modes fits in an `i8`.
pub open spec fn reach_fits(atk: Mode, def: Mode) -> bool {
    match (atk, def) {
        (Mode::Melee { length: a, .. }, Mode::Melee { length: d, .. }) => {
            &&& -128 <= as_signed(a) - as_signed(d) <= 127
            &&& -128 <= (as_signed(a) - as_signed(d)) * 5 <= 127
        },
        _ => true,
    }
}

/// The band a missile shot falls in at `value` yards with a weapon of
/// base range `base`.
pub open spec fn spec_band(base: u16, value: u16) -> MissileRange {
    if value <= base / 2 {
        MissileRange::DirectPB
    } else if value <= base {
        MissileRange::Direct
    } else if value <= base * 2 {
        MissileRange::Volley2
    } else if value <= base * 3 {
        MissileRange::Volley3
    } else if value <= base * 4 {
        MissileRange::Volley4
    } else {
        MissileRange::OutOfRange
    }
}

/// Whether the multiples of the base range that a shot at `value` needs fit
/// in a `u16`.
pub open spec fn band_fits(base: u16, value: u16) -> bool {
    &&& value > base ==> base * 2 <= u16::MAX
    &&& value > base * 2 ==> base * 3 <= u16::MAX
    &&& value > base * 3 ==> base * 4 <= u16::MAX
}

impl Mode {
    /// The reach penalties of attacking in this mode against `rhs`.
    pub fn reach_diff(self, rhs: Mode) -> (r: (i8, i8))
        requires
            reach_fits(self, rhs),
        ensures
            (r.0 as int, r.1 as int) == spec_reach_diff(self, rhs),
    {
        match self {
            Mode::Melee { length: atk_length, thrust: atk_thrust, .. } => match rhs {
                Mode::Melee { length: def_length, thrust: def_thrust, .. } => {
                    let a: i8 = if atk_length < 128 {
                        atk_length as i8
                    } else {
                        (atk_length as i16 - 256) as i8
                    };
                    let d: i8 = if def_length < 128 {
                        def_length as i8
                    } else {
                        (def_length as i16 - 256) as i8
                    };
                    let reach_diff = (a - d) * 5;
                    (
                        if reach_diff > 0 && atk_thrust {
                            reach_diff
                        } else {
                            0
                        },
                        if reach_diff < 0 && def_thrust {
                            reach_diff
                        } else {
                            0
                        },
                    )
                },
                Mode::Range { .. } => (0, 0),
            },
            Mode::Range { .. } => (0, 0),
        }
    }

    pub open spec fn spec_heft(self) -> u8 {
        match self {
            Mode::Melee { heft, .. } => heft,
            Mode::Range { .. } => 0,
        }
    }

    /// The weight a mode asks of the wielder's strength; none for missiles.
    pub fn heft(self) -> (h: u8)
        ensures
            h == self.spec_heft(),
    {
        match self {
            Mode::Melee { heft, .. } => heft,
            Mode::Range { .. } => 0,
        }
    }

    pub open spec fn spec_defense_mod(self) -> i8 {
        match self {
            Mode::Melee { defense_mod, .. } => defense_mod,
            Mode::Range { .. } => 0,
        }
    }

    /// The modifier the mode gives to defending with it.
    pub fn defense_mod(self) -> (m: i8)
        ensures
            m == self.spec_defense_mod(),
    {
        match self {
            Mode::Melee { defense_mod, .. } => defense_mod,
            Mode::Range { .. } => 0,
        }
    }

    pub open spec fn spec_aspect(self) -> Aspect {
        match self {
            Mode::Melee { aspect, .. } => aspect,
            Mode::Range { .. } => Aspect::Point,
        }
    }

    /// The aspect of the damage done; missiles strike with their point.
    pub fn aspect(self) -> (a: Aspect)
        ensures
            a == self.spec_aspect(),
    {
        match self {
            Mode::Melee { aspect, .. } => aspect,
            Mode::Range { .. } => Aspect::Point,
        }
    }

    pub open spec fn spec_impact_die(self) -> i8 {
        match self {
            Mode::Melee { impact_die, .. } => impact_die,
            Mode::Range { .. } => 1,
        }
    }

    /// The number of faces of the impact die.
    pub fn impact_die(self) -> (d: i8)
        ensures
            d == self.spec_impact_die(),
    {
        match self {
            Mode::Melee { impact_die, .. } => impact_die,
            Mode::Range { .. } => 1,
        }
    }

    pub open spec fn spec_impact_mod(self) -> u8 {
        match self {
            Mode::Melee { impact_mod, .. } => impact_mod,
            Mode::Range { impact_mod, .. } => impact_mod,
        }
    }

    /// The impact added per victory star.
    pub fn impact_mod(self) -> (m: u8)
        ensures
            m == self.spec_impact_mod(),
    {
        match self {
            Mode::Melee { impact_mod, .. } | Mode::Range { impact_mod, .. } => impact_mod,
        }
    }

    pub open spec fn spec_calc_range(self, value: u16) -> MissileRange {
        match self {
            Mode::Range { base_range, .. } => spec_band(base_range, value),
            Mode::Melee { .. } => MissileRange::OutOfRange,
        }
    }

    /// The missile band of a shot at `value` yards; a melee mode has none.
    pub fn calc_range(self, value: u16) -> (r: MissileRange)
        requires
            self matches Mode::Range { base_range, .. } ==> band_fits(base_range, value),
        ensures
            r == self.spec_calc_range(value),
    {
        match self {
            Mode::Range { base_range, .. } => {
                if value <= base_range / 2 {
                    MissileRange::DirectPB
                } else if value <= base_range {
                    MissileRange::Direct
                } else if value <= base_range * 2 {
                    MissileRange::Volley2
                } else if value <= base_range * 3 {
                    MissileRange::Volley3
                } else if value <= base_range * 4 {
                    MissileRange::Volley4
                } else {
                    MissileRange::OutOfRange
                }
            },
            Mode::Melee { .. } => MissileRange::OutOfRange,
        }
    }
}

/// The band of a missile shot, from point blank to out of range.
#[derive(Debug, PartialEq, Eq, Structural, Clone, Copy)]
pub enum MissileRange {
    DirectPB,
    Direct,
    Volley2,
    Volley3,
    Volley4,
    OutOfRange,
}

impl MissileRange {
    /// How far out the band lies: 0 at point blank, 5 out of range.
    pub open spec fn distance_rank(self) -> int {
        match self {
            MissileRange::DirectPB => 0,
            MissileRange::Direct => 1,
            MissileRange::Volley2 => 2,
            MissileRange::Volley3 => 3,
            MissileRange::Volley4 => 4,
            MissileRange::OutOfRange => 5,
        }
    }

    pub open spec fn spec_test_mod(self) -> Option<i32> {
        match self {
            MissileRange::DirectPB => Some(10),
            MissileRange::Direct | MissileRange::Volley2 => Some(0),
            MissileRange::Volley3 => Some(-20i32),
            MissileRange::Volley4 => Some(-40i32),
            MissileRange::OutOfRange => None,
        }
    }

    /// The modifier to the missile skill test.
    pub fn test_mod(self) -> (m: Option<i32>)
        ensures
            m == self.spec_test_mod(),
    {
        match self {
            MissileRange::DirectPB => Some(10),
            MissileRange::Direct | MissileRange::Volley2 => Some(0),
            MissileRange::Volley3 => Some(-20),
            MissileRange::Volley4 => Some(-40),
            MissileRange::OutOfRange => None,
        }
    }

    pub open spec fn spec_zone_die(self) -> Option<u8> {
        match self {
            MissileRange::DirectPB => Some(6),
            MissileRange::Direct => Some(8),
            MissileRange::Volley2 | MissileRange::Volley3 | MissileRange::Volley4 => Some(10),
            MissileRange::OutOfRange => None,
        }
    }

    /// The die rolled for the strike zone.
    pub fn zone_die(self) -> (d: Option<u8>)
        ensures
            d == self.spec_zone_die(),
    {
        match self {
            MissileRange::DirectPB => Some(6),
            MissileRange::Direct => Some(8),
            MissileRange::Volley2 | MissileRange::Volley3 | MissileRange::Volley4 => Some(10),
            MissileRange::OutOfRange => None,
        }
    }

    pub open spec fn spec_impact_mod(self) -> Option<i8> {
        match self {
            MissileRange::DirectPB => Some(2),
            MissileRange::Direct => Some(0),
            MissileRange::Volley2 => Some(-2i8),
            MissileRange::Volley3 => Some(-3i8),
            MissileRange::Volley4 => Some(-4i8),
            MissileRange::OutOfRange => None,
        }
    }

    /// The modifier to the missile's impact.
    pub fn impact_mod(self) -> (m: Option<i8>)
        ensures
            m == self.spec_impact_mod(),
    {
        match self {
            MissileRange::DirectPB => Some(2),
            MissileRange::Direct => Some(0),
            MissileRange::Volley2 => Some(-2),
            MissileRange::Volley3 => Some(-3),
            MissileRange::Volley4 => Some(-4),
            MissileRange::OutOfRange => None,
        }
    }
}

/// A shot further away never falls in a nearer band.
pub proof fn band_is_monotonic(base: u16, near: u16, far: u16)
    requires
        near <= far,
    ensures
        spec_band(base, near).distance_rank() <= spec_band(base, far).distance_rank(),
{
}

/// Something a being can carry.
#[derive(Debug, Clone)]
pub enum Item {
    Weapon { name: String, modes: Vec<Mode>, description: String },
    Armor { name: String, material: Material, covers: Vec<Location>, description: String },
    Ammo { shaft: ProjectileShaft, head: ProjectileHead },
    Misc { name: String, description: String },
}

/// Division rounding toward zero, as integer division does.
pub open spec fn div_toward_zero(a: int, b: int) -> int {
    if a >= 0 {
        a / b
    } else {
        -((-a) / b)
    }
}

impl ProjectileShaft {
    pub open spec fn spec_impact_die(self) -> i8 {
        match self {
            ProjectileShaft::Heavy => 12,
            ProjectileShaft::Light => 8,
        }
    }

    /// The faces of the impact die: 12 for a heavy shaft, 8 for a light one.
    pub fn impact_die(self) -> (d: i8)
        ensures
            d == self.spec_impact_die(),
    {
        match self {
            ProjectileShaft::Heavy => 12,
            ProjectileShaft::Light => 8,
        }
    }
}

impl ProjectileHead {
    pub open spec fn spec_divisor(self) -> i8 {
        match self {
            ProjectileHead::Blunt => 2,
            _ => 1,
        }
    }
}

impl Item {
    /// The impact of a missile of this ammunition, given the face the
    /// impact die showed: face plus modifier, halved for a blunt head. Any
    /// other item does no impact.
    pub open spec fn spec_impact(self, face: i8, modifier: i8) -> int {
        match self {
            Item::Ammo { shaft, head } => div_toward_zero(face + modifier, head.spec_divisor() as int),
            _ => 0,
        }
    }

    /// Whether the impact of this item can be computed for every face of
    /// its die.
    pub open spec fn impact_fits(self, modifier: i8) -> bool {
        match self {
            Item::Ammo { shaft, .. } => shaft.spec_impact_die() + modifier <= 127,
            _ => true,
        }
    }

    /// The impact for a known face of the impact die.
    pub fn impact_for_face(&self, face: i8, modifier: i8) -> (impact: i8)
        requires
            self matches Item::Ammo { shaft, .. } ==> 1 <= face <= shaft.spec_impact_die(),
            self.impact_fits(modifier),
        ensures
            impact == self.spec_impact(face, modifier),
    {
        match self {
            Item::Ammo { shaft, head } => {
                let head_mod_div: i8 = match head {
                    ProjectileHead::Blunt => 2,
                    _ => 1,
                };
                let sum: i8 = face + modifier;
                if sum >= 0 {
                    sum / head_mod_div
                } else {
                    -((-(sum as i16)) / (head_mod_div as i16)) as i8
                }
            },
            _ => 0,
        }
    }

    /// Rolls the impact of a missile of this ammunition; any other item
    /// does no impact.
    pub fn calc_impact(&self, modifier: i8) -> (impact: i8)
        requires
            self.impact_fits(modifier),
        ensures
            match self {
                Item::Ammo { shaft, .. } => exists|face: i8|
                    1 <= face <= shaft.spec_impact_die() && impact == self.spec_impact(face, modifier),
                _ => impact == 0,
            },
    {
        match self {
            Item::Ammo { shaft, .. } => {
                let face = crate::dice::roll_die(1, shaft.impact_die() as i32) as i8;
                self.impact_for_face(face, modifier)
            },
            _ => 0,
        }
    }

    pub open spec fn spec_modes(self) -> Seq<Mode> {
        match self {
            Item::Weapon { modes, .. } => modes@,
            _ => Seq::empty(),
        }
    }

    /// The attack modes of a weapon; other items have none.
    pub fn modes(&self) -> (m: Vec<Mode>)
        ensures
            m@ == self.spec_modes(),
    {
        match self {
            Item::Weapon { modes, .. } => copy_modes(modes),
            _ => Vec::new(),
        }
    }
}

/// A copy of a list of modes.
pub fn copy_modes(modes: &Vec<Mode>) -> (v: Vec<Mode>)
    ensures
        v@ == modes@,
{
    let mut v: Vec<Mode> = Vec::new();
    let mut i: usize = 0;
    while i < modes.len()
        invariant
            i <= modes@.len(),
            v@ == modes@.take(i as int),
        decreases modes@.len() - i,
    {
        v.push(modes[i]);
        i = i + 1;
        assert(v@ =~= modes@.take(i as int));
    }
    assert(modes@.take(modes@.len() as int) =~= modes@);
    v
}

/// The protection one item gives a location against an aspect: its
/// material's value once for each time it covers the location.
pub open spec fn item_protection(item: Item, location: Location, aspect: Aspect) -> int {
    match item {
        Item::Armor { material, covers, .. } => covers_count(covers@, location) * material.spec_av(aspect),
        _ => 0,
    }
}

/// The protection a list of items gives a location against an aspect.
pub open spec fn total_protection(items: Seq<Item>, location: Location, aspect: Aspect) -> int
    decreases items.len(),
{
    if items.len() == 0 {
        0
    } else {
        total_protection(items.drop_last(), location, aspect) + item_protection(
            items.last(),
            location,
            aspect,
        )
    }
}

impl Default for Material {
    /// Cloth, the least of the materials.
    fn default() -> (m: Material)
        ensures
            m == Material::Cloth,
    {
        Material::Cloth
    }
}

impl Default for Inventory {
    /// An inventory with no items.
    fn default() -> (i: Self)
        ensures
            i.0@ == Seq::<Item>::empty(),
    {
        Inventory(Vec::new())
    }
}

/// The items a being carries.
#[derive(Debug, Clone)]
pub struct Inventory(pub Vec<Item>);

impl Inventory {
    /// The ammunition in the inventory, in order.
    pub fn ammo(&self) -> (v: Vec<Item>)
        ensures
            v@ == self.0@.filter(|i: Item| i is Ammo),
    {
        let mut v: Vec<Item> = Vec::new();
        let mut i: usize = 0;
        while i < self.0.len()
            invariant
                i <= self.0@.len(),
                v@ == self.0@.take(i as int).filter(|i: Item| i is Ammo),
            decreases self.0@.len() - i,
        {
            proof {
                assert(self.0@.take(i + 1).drop_last() =~= self.0@.take(i as int));
                reveal_with_fuel(Seq::filter, 1);
            }
            match &self.0[i] {
                Item::Ammo { shaft, head } => {
                    v.push(Item::Ammo { shaft: *shaft, head: *head });
                },
                _ => {},
            }
            i = i + 1;
        }
        assert(self.0@.take(self.0@.len() as int) =~= self.0@);
        v
    }

    /// The protection the inventory gives a location against an aspect.
    pub fn protection(&self, location: Location, aspect: Aspect) -> (p: i8)
        requires
            forall|n: int|
                0 <= n <= self.0@.len() ==> -128 <= #[trigger] total_protection(
                    self.0@.take(n),
                    location,
                    aspect,
                ) <= 127,
        ensures
            p == total_protection(self.0@, location, aspect),
    {
        let mut acc: i8 = 0;
        let mut i: usize = 0;
        while i < self.0.len()
            invariant
                i <= self.0@.len(),
                acc == total_protection(self.0@.take(i as int), location, aspect),
                forall|n: int|
                    0 <= n <= self.0@.len() ==> -128 <= #[trigger] total_protection(
                        self.0@.take(n),
                        location,
                        aspect,
                    ) <= 127,
            decreases self.0@.len() - i,
        {
            proof {
                assert(self.0@.take(i + 1).drop_last() =~= self.0@.take(i as int));
                assert(self.0@.take(i + 1).last() == self.0@[i as int]);
                assert(-128 <= total_protection(self.0@.take(i + 1), location, aspect) <= 127);
            }
            let x = &self.0[i];
            if let Item::Armor { material, covers, .. } = x {
                let av = material.av_for(aspect);
                let mut j: usize = 0;
                let ghost base = acc as int;
                let ghost all = covers_count(covers@, location);
                proof {
                    assert(covers@.take(0) =~= Seq::<Location>::empty());
                    assert(covers_count(covers@.take(0), location) == 0);
                    assert(covers_count(covers@.take(0), location) * av == 0);
                    lemma_covers_count_nonneg(covers@, location);
                }
                while j < covers.len()
                    invariant
                        j <= covers@.len(),
                        0 <= av <= 11,
                        all == covers_count(covers@, location),
                        acc == base + covers_count(covers@.take(j as int), location) * av,
                        base + all * av == total_protection(self.0@.take(i + 1), location, aspect),
                        -128 <= total_protection(self.0@.take(i + 1), location, aspect) <= 127,
                        -128 <= base <= 127,
                    decreases covers@.len() - j,
                {
                    proof {
                        assert(covers@.take(j + 1).drop_last() =~= covers@.take(j as int));
                        lemma_covers_count_grows(covers@, location, j as int + 1);
                        lemma_covers_count_nonneg(covers@.take(j as int), location);
                    }
                    if covers[j] == location {
                        proof {
                            let before = covers_count(covers@.take(j as int), location);
                            let after = covers_count(covers@.take(j + 1), location);
                            assert(after == before + 1);
                            assert(after * av <= all * av) by (nonlinear_arith)
                                requires
                                    after <= all,
                                    av >= 0,
                            ;
                            assert(before * av >= 0) by (nonlinear_arith)
                                requires
                                    before >= 0,
                                    av >= 0,
                            ;
                            assert(after * av == before * av + av) by (nonlinear_arith)
                                requires
                                    after == before + 1,
                            ;
                        }
                        acc = acc + av;
                    }
                    j = j + 1;
                }
                assert(covers@.take(covers@.len() as int) =~= covers@);
            }
            i = i + 1;
        }
        assert(self.0@.take(self.0@.len() as int) =~= self.0@);
        acc
    }

    /// Adds an item to the inventory.
    pub fn equip(&mut self, item: Item)
        ensures
            final(self).0@ == old(self).0@.push(item),
    {
        self.0.push(item);
    }

    /// The injury an attack does through the inventory's protection: the
    /// impact less the protection (held at the `i8` bounds), graded by
    /// `Injury::new`.
    pub fn calc_injury(&self, attack: Attack) -> (r: Option<Injury>)
        requires
            forall|n: int|
                0 <= n <= self.0@.len() ==> -128 <= #[trigger] total_protection(
                    self.0@.take(n),
                    attack.location,
                    attack.aspect,
                ) <= 127,
        ensures
            r == Injury::spec_new(
                attack.location,
                saturating_i8(
                    attack.impact - total_protection(self.0@, attack.location, attack.aspect),
                ),
                attack.aspect,
                attack.location.spec_bleed(),
            ),
    {
        let p = self.protection(attack.location, attack.aspect);
        Injury::new(
            attack.location,
            saturating_sub_i8(attack.impact, p),
            attack.aspect,
            attack.location.bleed(),
        )
    }
}

/// `a - b`, held within the bounds of an `i8`.
pub fn saturating_sub_i8(a: i8, b: i8) -> (r: i8)
    ensures
        r == saturating_i8(a - b),
{
    let d: i16 = a as i16 - b as i16;
    if d < -128 {
        -128
    } else if d > 127 {
        127
    } else {
        d as i8
    }
}

/// A value held within the bounds of an `i8`.
pub open spec fn saturating_i8(v: int) -> i8 {
    if v < -128 {
        -128i8
    } else if v > 127 {
        127
    } else {
        v as i8
    }
}

/// How many times a list of covered locations names `location`.
pub open spec fn covers_count(covers: Seq<Location>, location: Location) -> int
    decreases covers.len(),
{
    if covers.len() == 0 {
        0
    } else {
        covers_count(covers.drop_last(), location) + if covers.last() == location {
            1int
        } else {
            0
        }
    }
}

pub(crate) proof fn lemma_covers_count_nonneg(covers: Seq<Location>, location: Location)
    ensures
        covers_count(covers, location) >= 0,
    decreases covers.len(),
{
    if covers.len() > 0 {
        lemma_covers_count_nonneg(covers.drop_last(), location);
    }
}

pub(crate) proof fn lemma_covers_count_grows(covers: Seq<Location>, location: Location, n: int)
    requires
        0 <= n <= covers.len(),
    ensures
        covers_count(covers.take(n), location) <= covers_count(covers, location),
    decreases covers.len(),
{
    if n == covers.len() {
        assert(covers.take(n) =~= covers);
    } else {
        assert(covers.take(n) =~= covers.drop_last().take(n));
        lemma_covers_count_grows(covers.drop_last(), location, n);
        lemma_covers_count_nonneg(covers, location);
        lemma_covers_count_nonneg(covers.drop_last(), location);
    }
}

/// The kind of damage a blow does.
#[derive(Debug, PartialEq, Eq, Structural, Clone, Copy)]
pub enum Aspect {
    Blunt,
    Edge,
    Point,
    FireFrost,
}

impl Aspect {
    pub open spec fn spec_array_index(self) -> int {
        match self {
            Aspect::Blunt => 0,
            Aspect::Edge => 1,
            Aspect::Point => 2,
            Aspect::FireFrost => 3,
        }
    }

    /// The aspect's column in an armour value table.
    pub fn array_index(self) -> (i: usize)
        ensures
            i == self.spec_array_index(),
    {
        match self {
            Aspect::Blunt => 0,
            Aspect::Edge => 1,
            Aspect::Point => 2,
            Aspect::FireFrost => 3,
        }
    }
}

/// A blow that lands: where, how hard, and with which aspect.
#[derive(Debug, Clone, Copy)]
pub struct Attack {
    pub location: Location,
    pub impact: i8,
    pub aspect: Aspect,
}

impl Attack {
    pub fn new(location: Location, impact: i8, aspect: Aspect) -> (a: Attack)
        ensures
            a == (Attack { location, impact, aspect }),
    {
        Attack { location, impact, aspect }
    }
}

#[derive(Debug, PartialEq, Eq, Structural, Clone, Copy)]
pub enum ProjectileShaft {
    Heavy,
    Light,
}

#[derive(Debug, PartialEq, Eq, Structural, Clone, Copy)]
pub enum ProjectileHead {
    Bodkin,
    Blunt,
    Broad,
}

/// The material an armour piece is made of.
#[derive(Debug, PartialEq, Eq, Structural, Clone, Copy)]
pub enum Material {
    Cloth,
    Leather,
    Padded,
    Quilted,
    Gambeson,
    Kurbul,
    Scale,
    Mail,
    Plate,
}

/// How stiff an armour material is.
#[derive(Debug, PartialEq, Eq, Structural, Clone, Copy)]
pub enum Rigidity {
    Soft,
    Rigid,
    Mail,
    Plate,
}

impl Material {
    /// The armour values of the material against blunt, edge, point and
    /// fire/frost.
    pub open spec fn spec_av_table(self) -> [i8; 4] {
        match self {
            Material::Cloth => [0, 1, 0, 1],
            Material::Leather => [1, 2, 1, 3],
            Material::Padded => [2, 2, 1, 2],
            Material::Quilted => [4, 3, 2, 3],
            Material::Gambeson => [6, 5, 4, 5],
            Material::Kurbul => [4, 6, 5, 4],
            Material::Scale => [4, 8, 5, 5],
            Material::Mail => [2, 8, 7, 3],
            Material::Plate => [6, 11, 9, 5],
        }
    }

    pub open spec fn spec_av(self, aspect: Aspect) -> i8 {
        self.spec_av_table()@[aspect.spec_array_index()]
    }

    pub fn av(self) -> (t: [i8; 4])
        ensures
            t == self.spec_av_table(),
    {
        match self {
            Material::Cloth => [0, 1, 0, 1],
            Material::Leather => [1, 2, 1, 3],
            Material::Padded => [2, 2, 1, 2],
            Material::Quilted => [4, 3, 2, 3],
            Material::Gambeson => [6, 5, 4, 5],
            Material::Kurbul => [4, 6, 5, 4],
            Material::Scale => [4, 8, 5, 5],
            Material::Mail => [2, 8, 7, 3],
            Material::Plate => [6, 11, 9, 5],
        }
    }

    /// The material's armour value against one aspect.
    pub fn av_for(self, aspect: Aspect) -> (v: i8)
        ensures
            v == self.spec_av(aspect),
            0 <= v <= 11,
    {
        let t = self.av();
        t[aspect.array_index()]
    }

    pub open spec fn spec_rigidity(self) -> Rigidity {
        match self {
            Material::Cloth | Material::Leather | Material::Padded | Material::Quilted => Rigidity::Soft,
            Material::Gambeson | Material::Kurbul => Rigidity::Rigid,
            Material::Scale | Material::Mail => Rigidity::Mail,
            Material::Plate => Rigidity::Plate,
        }
    }

    pub fn rigidity(self) -> (r: Rigidity)
        ensures
            r == self.spec_rigidity(),
    {
        match self {
            Material::Cloth | Material::Leather | Material::Padded | Material::Quilted => Rigidity::Soft,
            Material::Gambeson | Material::Kurbul => Rigidity::Rigid,
            Material::Scale | Material::Mail => Rigidity::Mail,
            Material::Plate => Rigidity::Plate,
        }
    }
}

/// How a defender meets a melee attack.
#[derive(Debug, PartialEq, Eq, Structural, Clone, Copy)]
pub enum DefenseOption {
    Block,
    Dodge,
    Counterstrike,
}

impl DefenseOption {
    /// The skill a defence tests: dodge for a dodge, melee otherwise.
    pub open spec fn spec_skill(self) -> Skill {
        match self {
            DefenseOption::Dodge => Skill::Dodge,
            _ => Skill::Melee,
        }
    }

    /// The modifier of a defence test, from the mode's defence modifier,
    /// the heft penalty and the situational modifier; a counterstrike also
    /// takes the reach penalty.
    pub open spec fn spec_modifier(self, being: &Being, mode: Mode, def_mod: i8, reach_penalty: i8) -> int {
        let basic = mode.spec_defense_mod() + being.spec_heft_mod(mode) + def_mod;
        match self {
            DefenseOption::Counterstrike => basic - reach_penalty,
            _ => basic,
        }
    }

    /// Whether a defence test can be rolled without overflow.
    pub open spec fn test_fits(self, being: &Being, mode: Mode, def_mod: i8, reach_penalty: i8) -> bool {
        &&& being.heft_mod_fits(mode)
        &&& -128 <= mode.spec_defense_mod() + being.spec_heft_mod(mode) <= 127
        &&& -128 <= mode.spec_defense_mod() + being.spec_heft_mod(mode) + def_mod <= 127
        &&& being.test_fits(&self.spec_skill(), self.spec_modifier(being, mode, def_mod, reach_penalty))
    }

    /// Rolls the defender's test: melee to block, dodge to dodge, melee
    /// less the reach penalty to counterstrike.
    pub fn test(self, being: &Being, mode: Mode, def_mod: i8, reach_penalty: i8) -> (r: SuccessResult)
        requires
            self.test_fits(being, mode, def_mod, reach_penalty),
        ensures
            1 <= r.roll() <= 100,
            r == SuccessResult::spec_from_roll(
                being.spec_test_eml(&self.spec_skill(), self.spec_modifier(being, mode, def_mod, reach_penalty)),
                r.roll(),
            ),
    {
        let roll = crate::dice::roll_die(1, 100) as u8;
        self.test_with(being, mode, def_mod, reach_penalty, roll)
    }

    /// The defender's test for a known d100 roll.
    pub fn test_with(self, being: &Being, mode: Mode, def_mod: i8, reach_penalty: i8, roll: u8) -> (r:
        SuccessResult)
        requires
            self.test_fits(being, mode, def_mod, reach_penalty),
        ensures
            r == SuccessResult::spec_from_roll(
                being.spec_test_eml(&self.spec_skill(), self.spec_modifier(being, mode, def_mod, reach_penalty)),
                roll,
            ),
    {
        let heft = match being.heft_mod(mode) {
            Some(h) => h,
            None => 0,
        };
        let basic: i8 = mode.defense_mod() + heft + def_mod;
        let basic_mod = basic as i32;
        match self {
            DefenseOption::Block => being.success_test_with(&Skill::Melee, basic_mod, roll),
            DefenseOption::Dodge => being.success_test_with(&Skill::Dodge, basic_mod, roll),
            DefenseOption::Counterstrike => being.success_test_with(
                &Skill::Melee,
                basic_mod - reach_penalty as i32,
                roll,
            ),
        }
    }

    /// Every defence option, in the order the rules list them.
    pub fn all() -> (v: Vec<DefenseOption>)
        ensures
            v@ == seq![DefenseOption::Block, DefenseOption::Dodge, DefenseOption::Counterstrike],
    {
        vec![DefenseOption::Block, DefenseOption::Dodge, DefenseOption::Counterstrike]
    }
}

impl Material {
    pub open spec fn spec_label(self) -> Seq<char> {
        match self {
            Material::Cloth => "Cloth"@,
            Material::Leather => "Leather"@,
            Material::Padded => "Padded"@,
            Material::Quilted => "Quilted"@,
            Material::Gambeson => "Gambeson"@,
            Material::Kurbul => "Kûrbúl"@,
            Material::Scale => "Scale"@,
            Material::Mail => "Mail"@,
            Material::Plate => "Plate"@,
        }
    }

    /// The material's name.
    pub fn label(self) -> (s: &'static str)
        ensures
            s@ == self.spec_label(),
    {
        match self {
            Material::Cloth => "Cloth",
            Material::Leather => "Leather",
            Material::Padded => "Padded",
            Material::Quilted => "Quilted",
            Material::Gambeson => "Gambeson",
            Material::Kurbul => "Kûrbúl",
            Material::Scale => "Scale",
            Material::Mail => "Mail",
            Material::Plate => "Plate",
        }
    }
}

impl Aspect {
    pub open spec fn spec_letter(self) -> Seq<char> {
        match self {
            Aspect::Blunt => "B"@,
            Aspect::Edge => "E"@,
            Aspect::Point => "P"@,
            Aspect::FireFrost => "F"@,
        }
    }

    /// The aspect's letter.
    pub fn letter(self) -> (s: &'static str)
        ensures
            s@ == self.spec_letter(),
    {
        match self {
            Aspect::Blunt => "B",
            Aspect::Edge => "E",
            Aspect::Point => "P",
            Aspect::FireFrost => "F",
        }
    }
}

impl DefenseOption {
    pub open spec fn spec_label(self) -> Seq<char> {
        match self {
            DefenseOption::Block => "Block"@,
            DefenseOption::Dodge => "Dodge"@,
            DefenseOption::Counterstrike => "Counterstrike"@,
        }
    }

    /// The option's name.
    pub fn label(self) -> (s: &'static str)
        ensures
            s@ == self.spec_label(),
    {
        match self {
            DefenseOption::Block => "Block",
            DefenseOption::Dodge => "Dodge",
            DefenseOption::Counterstrike => "Counterstrike",
        }
    }
}

impl ProjectileShaft {
    pub open spec fn spec_label(self) -> Seq<char> {
        match self {
            ProjectileShaft::Heavy => "Heavy"@,
            ProjectileShaft::Light => "Light"@,
        }
    }

    /// The shaft's name.
    pub fn label(self) -> (s: &'static str)
        ensures
            s@ == self.spec_label(),
    {
        match self {
            ProjectileShaft::Heavy => "Heavy",
            ProjectileShaft::Light => "Light",
        }
    }
}

impl ProjectileHead {
    pub open spec fn spec_label(self) -> Seq<char> {
        match self {
            ProjectileHead::Bodkin => "Bodkin"@,
            ProjectileHead::Blunt => "Blunt"@,
            ProjectileHead::Broad => "Broad"@,
        }
    }

    /// The head's name.
    pub fn label(self) -> (s: &'static str)
        ensures
            s@ == self.spec_label(),
    {
        match self {
            ProjectileHead::Bodkin => "Bodkin",
            ProjectileHead::Blunt => "Blunt",
            ProjectileHead::Broad => "Broad",
        }
    }
}

impl Mode {
    /// The mode as a sheet writes it: for melee the length (with T for a
    /// thrusting weapon), the zone die, the impact die and modifier and the
    /// aspect; for a missile weapon the draw and the impact modifier.
    pub open spec fn spec_render(self) -> Seq<char> {
        match self {
            Mode::Melee { length, thrust, aspect, zone_die, impact_die, impact_mod, .. } => decimal(
                length as nat,
            ) + (if thrust {
                "T"@
            } else {
                Seq::empty()
            }) + " d"@ + decimal(zone_die as nat) + " d"@ + signed_decimal(impact_die as int) + "+"@
                + decimal(impact_mod as nat) + aspect.spec_letter(),
            Mode::Range { draw, impact_mod, .. } => decimal(draw as nat) + "lb •+"@ + decimal(
                impact_mod as nat,
            ) + "P"@,
        }
    }

    /// The mode as a sheet writes it.
    pub fn render(self) -> (s: String)
        ensures
            s@ == self.spec_render(),
    {
        let mut s = String::new();
        match self {
            Mode::Melee { length, thrust, aspect, zone_die, impact_die, impact_mod, .. } => {
                append_decimal(&mut s, length as u64);
                if thrust {
                    s.append("T");
                }
                s.append(" d");
                append_decimal(&mut s, zone_die as u64);
                s.append(" d");
                append_signed(&mut s, impact_die as i64);
                s.append("+");
                append_decimal(&mut s, impact_mod as u64);
                s.append(aspect.letter());
                proof {
                    assert(s@ =~= self.spec_render());
                }
            },
            Mode::Range { draw, impact_mod, .. } => {
                append_decimal(&mut s, draw as u64);
                s.append("lb •+");
                append_decimal(&mut s, impact_mod as u64);
                s.append("P");
                proof {
                    assert(s@ =~= self.spec_render());
                }
            },
        }
        s
    }
}

impl Item {
    /// The item as a sheet writes it: an armour piece by material and
    /// name, ammunition by shaft and head, anything else by name.
    pub open spec fn spec_render(self) -> Seq<char> {
        match self {
            Item::Armor { name, material, .. } => material.spec_label() + " "@ + name@,
            Item::Ammo { shaft, head } => shaft.spec_label() + " "@ + head.spec_label(),
            Item::Weapon { name, .. } => name@,
            Item::Misc { name, .. } => name@,
        }
    }

    /// The item as a sheet writes it.
    pub fn render(&self) -> (s: String)
        ensures
            s@ == self.spec_render(),
    {
        match self {
            Item::Armor { name, material, .. } => {
                let mut s = material.label().to_owned();
                s.append(" ");
                s.append(name.as_str());
                s
            },
            Item::Ammo { shaft, head } => {
                let mut s = shaft.label().to_owned();
                s.append(" ");
                s.append(head.label());
                s
            },
            Item::Weapon { name, .. } => name.clone(),
            Item::Misc { name, .. } => name.clone(),
        }
    }
}

/// Equipping an item never lowers the protection at any location against
/// any aspect.
pub proof fn equipping_never_lowers_protection(
    items: Seq<Item>,
    item: Item,
    location: Location,
    aspect: Aspect,
)
    ensures
        total_protection(items.push(item), location, aspect) >= total_protection(
            items,
            location,
            aspect,
        ),
{
    assert(items.push(item).drop_last() =~= items);
    lemma_item_protection_nonneg(item, location, aspect);
}

/// No item lowers protection.
pub(crate) proof fn lemma_item_protection_nonneg(item: Item, location: Location, aspect: Aspect)
    ensures
        item_protection(item, location, aspect) >= 0,
{
    match item {
        Item::Armor { material, covers, .. } => {
            let c = covers_count(covers@, location);
            let av = material.spec_av(aspect);
            lemma_covers_count_nonneg(covers@, location);
            assert(av >= 0) by {
                assert(material.spec_av_table()@[aspect.spec_array_index()] >= 0);
            }
            assert(c * av >= 0) by (nonlinear_arith)
                requires
                    c >= 0,
                    av >= 0,
            ;
        },
        _ => {},
    }
}

} // verus!

//! Beings: body types and hit locations, injuries and shock, and the tests
//! and combat a being takes part in.
use vstd::prelude::*;

use crate::core_rules::{
    Attribute, AttributeSet, OpposedResult, Skill, SkillKey, SkillSet, SuccessResult, Testable, Tiebreak,
    as_signed, eml_fits, spec_eml, spec_opposed_outcome, opposed_outcome,
};
use crate::item::{self, Aspect, DefenseOption, Inventory, Item, Mode};

verus! {

/// One hit location of a body type: a location-die roll at or under
/// `die_limit` lands there, and a wound there adds `shock` to shock rolls.
#[derive(Debug, Clone, Copy, PartialEq, Eq, Structural, Hash)]
pub struct LocationEntry {
    pub die_limit: u8,
    pub location: Location,
    pub shock: i8,
}

impl LocationEntry {
    pub fn new(die: u8, location: Location, shock: i8) -> (e: Self)
        ensures
            e == (LocationEntry { die_limit: die, location, shock }),
    {
        Self { die_limit: die, location, shock }
    }
}

/// A body type: rows of hit locations, each row a strike zone reached by a
/// zone roll at or under its limit.
#[derive(Debug, Clone, PartialEq, Eq, Hash)]
pub struct BodyType(pub Vec<(u8, Vec<LocationEntry>)>);

/// The first entry of a row at or over a location-die roll.
pub open spec fn entry_for_roll(entries: Seq<LocationEntry>, roll: u8) -> Option<LocationEntry>
    decreases entries.len(),
{
    if entries.len() == 0 {
        None
    } else if roll <= entries[0].die_limit {
        Some(entries[0])
    } else {
        entry_for_roll(entries.drop_first(), roll)
    }
}

/// The first row at or over a zone roll.
pub open spec fn row_for_roll(rows: Seq<(u8, Vec<LocationEntry>)>, roll: int) -> Option<Seq<LocationEntry>>
    decreases rows.len(),
{
    if rows.len() == 0 {
        None
    } else if roll <= rows[0].0 {
        Some(rows[0].1@)
    } else {
        row_for_roll(rows.drop_first(), roll)
    }
}

/// The hit location for a zone roll and a location roll.
pub open spec fn spec_locate(rows: Seq<(u8, Vec<LocationEntry>)>, zone_roll: int, location_roll: u8) -> Option<Location> {
    match row_for_roll(rows, zone_roll) {
        Some(row) => match entry_for_roll(row, location_roll) {
            Some(e) => Some(e.location),
            None => None,
        },
        None => None,
    }
}

/// The first entry for a location in a list of entries.
pub open spec fn entry_for_location(entries: Seq<LocationEntry>, location: Location) -> Option<LocationEntry>
    decreases entries.len(),
{
    if entries.len() == 0 {
        None
    } else if entries[0].location == location {
        Some(entries[0])
    } else {
        entry_for_location(entries.drop_first(), location)
    }
}

/// The first entry for a location in the rows, taken in order.
pub open spec fn select_in_rows(rows: Seq<(u8, Vec<LocationEntry>)>, location: Location) -> Option<LocationEntry>
    decreases rows.len(),
{
    if rows.len() == 0 {
        None
    } else {
        match entry_for_location(rows[0].1@, location) {
            Some(e) => Some(e),
            None => select_in_rows(rows.drop_first(), location),
        }
    }
}

/// The locations of all the rows, in order.
pub open spec fn row_locations(rows: Seq<(u8, Vec<LocationEntry>)>) -> Seq<Location>
    decreases rows.len(),
{
    if rows.len() == 0 {
        Seq::empty()
    } else {
        row_locations(rows.drop_last()) + rows.last().1@.map_values(|e: LocationEntry| e.location)
    }
}

impl BodyType {
    pub open spec fn spec_shock(&self, injury: Injury) -> Option<int> {
        match select_in_rows(self.0@, injury.location) {
            Some(e) => Some(e.shock + injury.shock),
            None => None,
        }
    }

    /// The hit location for a zone roll and a location roll: the first row
    /// the zone roll reaches, then the first location in it the location
    /// roll reaches.
    pub fn locate(&self, zone_roll: u8, location_roll: u8) -> (r: Option<Location>)
        ensures
            r == spec_locate(self.0@, zone_roll as int, location_roll),
    {
        let mut i: usize = 0;
        assert(self.0@.skip(0) =~= self.0@);
        while i < self.0.len()
            invariant
                i <= self.0@.len(),
                row_for_roll(self.0@, zone_roll as int) == row_for_roll(self.0@.skip(i as int), zone_roll as int),
            decreases self.0@.len() - i,
        {
            assert(self.0@.skip(i as int).drop_first() =~= self.0@.skip(i + 1));
            if zone_roll <= self.0[i].0 {
                let row = &self.0[i].1;
                let mut j: usize = 0;
                assert(row@.skip(0) =~= row@);
                assert(self.0@.skip(i as int)[0] == self.0@[i as int]);
                assert(row_for_roll(self.0@, zone_roll as int) == Some(row@));
                while j < row.len()
                    invariant
                        j <= row@.len(),
                        row_for_roll(self.0@, zone_roll as int) == Some(row@),
                        entry_for_roll(row@, location_roll) == entry_for_roll(row@.skip(j as int), location_roll),
                    decreases row@.len() - j,
                {
                    assert(row@.skip(j as int).drop_first() =~= row@.skip(j + 1));
                    if location_roll <= row[j].die_limit {
                        proof {
                            assert(row@.skip(j as int)[0] == row@[j as int]);
                        }
                        return Some(row[j].location);
                    }
                    j = j + 1;
                }
                assert(row@.skip(j as int) =~= Seq::<LocationEntry>::empty());
                return None;
            }
            i = i + 1;
        }
        assert(self.0@.skip(i as int) =~= Seq::<(u8, Vec<LocationEntry>)>::empty());
        None
    }

    /// Rolls a hit location: a zone die with `zone_die` faces plus `aim`,
    /// then a d10 for the location.
    pub fn roll(&self, zone_die: u8, aim: u8) -> (r: Option<Location>)
        requires
            zone_die >= 1,
            zone_die + aim <= 255,
        ensures
            exists|z: int, l: u8|
                1 + aim <= z <= zone_die + aim && 1 <= l <= 10 && r == spec_locate(self.0@, z, l),
    {
        let z = crate::dice::roll_die(1, zone_die as i32) as u8 + aim;
        let l = crate::dice::roll_die(1, 10) as u8;
        let r = self.locate(z, l);
        assert(1 + aim <= z as int <= zone_die + aim && 1 <= l <= 10 && r == spec_locate(self.0@, z as int, l));
        r
    }

    /// The first entry for a location, rows taken in order.
    pub fn select(&self, location: Location) -> (r: Option<LocationEntry>)
        ensures
            r == select_in_rows(self.0@, location),
    {
        let mut i: usize = 0;
        assert(self.0@.skip(0) =~= self.0@);
        while i < self.0.len()
            invariant
                i <= self.0@.len(),
                select_in_rows(self.0@, location) == select_in_rows(self.0@.skip(i as int), location),
            decreases self.0@.len() - i,
        {
            assert(self.0@.skip(i as int).drop_first() =~= self.0@.skip(i + 1));
            let row = &self.0[i].1;
            let mut j: usize = 0;
            assert(row@.skip(0) =~= row@);
            assert(self.0@.skip(i as int)[0] == self.0@[i as int]);
            assert(select_in_rows(self.0@, location) == match entry_for_location(row@, location) {
                Some(e) => Some(e),
                None => select_in_rows(self.0@.skip(i + 1), location),
            });
            while j < row.len()
                invariant
                    j <= row@.len(),
                    select_in_rows(self.0@, location) == match entry_for_location(row@, location) {
                        Some(e) => Some(e),
                        None => select_in_rows(self.0@.skip(i + 1), location),
                    },
                    entry_for_location(row@, location) == entry_for_location(row@.skip(j as int), location),
                decreases row@.len() - j,
            {
                assert(row@.skip(j as int).drop_first() =~= row@.skip(j + 1));
                if row[j].location == location {
                    proof {
                        assert(row@.skip(j as int)[0] == row@[j as int]);
                    }
                    return Some(row[j]);
                }
                j = j + 1;
            }
            assert(row@.skip(j as int) =~= Seq::<LocationEntry>::empty());
            i = i + 1;
        }
        assert(self.0@.skip(i as int) =~= Seq::<(u8, Vec<LocationEntry>)>::empty());
        None
    }

    /// Every location of the body type, row by row.
    pub fn locations(&self) -> (v: Vec<Location>)
        ensures
            v@ == row_locations(self.0@),
    {
        let mut v: Vec<Location> = Vec::new();
        let mut i: usize = 0;
        while i < self.0.len()
            invariant
                i <= self.0@.len(),
                v@ == row_locations(self.0@.take(i as int)),
            decreases self.0@.len() - i,
        {
            let row = &self.0[i].1;
            let mut j: usize = 0;
            let ghost start = v@;
            while j < row.len()
                invariant
                    j <= row@.len(),
                    v@ == start + row@.take(j as int).map_values(|e: LocationEntry| e.location),
                decreases row@.len() - j,
            {
                v.push(row[j].location);
                j = j + 1;
                assert(v@ =~= start + row@.take(j as int).map_values(|e: LocationEntry| e.location));
            }
            assert(row@.take(j as int) =~= row@);
            assert(self.0@.take(i + 1).drop_last() =~= self.0@.take(i as int));
            i = i + 1;
        }
        assert(self.0@.take(i as int) =~= self.0@);
        v
    }

    /// The shock of an injury on this body type: the location's shock plus
    /// the injury's, or nothing for a location the body lacks.
    pub fn shock(&self, injury: Injury) -> (r: Option<i8>)
        requires
            match select_in_rows(self.0@, injury.location) {
                Some(e) => -128 <= e.shock + injury.shock <= 127,
                None => true,
            },
        ensures
            match self.spec_shock(injury) {
                Some(s) => r == Some(s as i8),
                None => r is None,
            },
    {
        match self.select(injury.location) {
            Some(e) => Some(e.shock + injury.shock),
            None => None,
        }
    }
}

/// A chance of bleeding or of amputation.
#[derive(Debug, Clone, Copy, PartialEq, Eq, Structural, PartialOrd, Ord, Hash)]
pub enum Chance {
    Nil,
    Low,
    Mid,
    High,
}

impl Chance {
    pub open spec fn spec_rank(self) -> int {
        match self {
            Chance::Nil => 0,
            Chance::Low => 1,
            Chance::Mid => 2,
            Chance::High => 3,
        }
    }

    /// How high the chance is, from 0 for none to 3 for high.
    pub fn rank(self) -> (r: u8)
        ensures
            r == self.spec_rank(),
    {
        match self {
            Chance::Nil => 0,
            Chance::Low => 1,
            Chance::Mid => 2,
            Chance::High => 3,
        }
    }

    pub open spec fn spec_circle(self) -> Seq<char> {
        match self {
            Chance::Nil => seq![' '],
            Chance::Low => seq!['○'],
            Chance::Mid => seq!['◐'],
            Chance::High => seq!['●'],
        }
    }

    pub open spec fn spec_triangle(self) -> Seq<char> {
        match self {
            Chance::Nil => seq![' '],
            Chance::Low => seq!['▽'],
            Chance::Mid => seq!['⧨'],
            Chance::High => seq!['▼'],
        }
    }

    /// The chance drawn as a circle, for bleeding.
    pub fn circle(&self) -> (s: &'static str)
        ensures
            s@ == self.spec_circle(),
    {
        match self {
            Chance::Nil => {
                proof {
                    reveal_strlit(" ");
                }
                " "
            },
            Chance::Low => {
                proof {
                    reveal_strlit("○");
                }
                "○"
            },
            Chance::Mid => {
                proof {
                    reveal_strlit("◐");
                }
                "◐"
            },
            Chance::High => {
                proof {
                    reveal_strlit("●");
                }
                "●"
            },
        }
    }

    /// The chance drawn as a triangle, for amputation.
    pub fn triangle(&self) -> (s: &'static str)
        ensures
            s@ == self.spec_triangle(),
    {
        match self {
            Chance::Nil => {
                proof {
                    reveal_strlit(" ");
                }
                " "
            },
            Chance::Low => {
                proof {
                    reveal_strlit("▽");
                }
                "▽"
            },
            Chance::Mid => {
                proof {
                    reveal_strlit("⧨");
                }
                "⧨"
            },
            Chance::High => {
                proof {
                    reveal_strlit("▼");
                }
                "▼"
            },
        }
    }
}

/// A hit location, of humans and of beasts.
#[derive(Debug, Clone, Copy, PartialEq, Eq, Structural, Hash)]
pub enum Location {
    Skull,
    Face,
    Abdomen,
    Knee,
    LowerArm,
    Calf,
    Ear,
    LowerLeg,
    Elbow,
    Neck,
    Pelvis,
    FrontFoot,
    Quarter,
    FrontLeg,
    Shoulder,
    Flank,
    Thigh,
    Forearm,
    Tail,
    Foot,
    Trunk,
    Hand,
    Thorax,
    HindLeg,
    UpperArm,
    HindFoot,
    UpperLeg,
    Horn,
    Wing,
    Head,
    Arm,
    Torso,
    Leg,
}

impl Location {
    /// How likely a wound at the location is to bleed.
    pub open spec fn spec_bleed(self) -> Chance {
        match self {
            Location::Tail | Location::Foot | Location::Hand | Location::Horn => Chance::Nil,
            Location::Wing
            | Location::Skull
            | Location::Knee
            | Location::LowerArm
            | Location::Ear
            | Location::Calf
            | Location::UpperArm
            | Location::Arm
            | Location::HindFoot
            | Location::Forearm
            | Location::LowerLeg
            | Location::Trunk
            | Location::Leg
            | Location::Elbow
            | Location::FrontLeg
            | Location::FrontFoot => Chance::Low,
            Location::Face
            | Location::Pelvis
            | Location::Quarter
            | Location::Shoulder
            | Location::Flank
            | Location::Thigh
            | Location::Thorax
            | Location::HindLeg
            | Location::UpperLeg => Chance::Mid,
            Location::Head | Location::Neck | Location::Abdomen | Location::Torso => Chance::High,
        }
    }

    pub fn bleed(self) -> (r: Chance)
        ensures
            r == self.spec_bleed(),
    {
        match self {
            Location::Tail | Location::Foot | Location::Hand | Location::Horn => Chance::Nil,
            Location::Wing
            | Location::Skull
            | Location::Knee
            | Location::LowerArm
            | Location::Ear
            | Location::Calf
            | Location::UpperArm
            | Location::Arm
            | Location::HindFoot
            | Location::Forearm
            | Location::LowerLeg
            | Location::Trunk
            | Location::Leg
            | Location::Elbow
            | Location::FrontLeg
            | Location::FrontFoot => Chance::Low,
            Location::Face
            | Location::Pelvis
            | Location::Quarter
            | Location::Shoulder
            | Location::Flank
            | Location::Thigh
            | Location::Thorax
            | Location::HindLeg
            | Location::UpperLeg => Chance::Mid,
            Location::Head | Location::Neck | Location::Abdomen | Location::Torso => Chance::High,
        }
    }

    /// How likely a grievous wound at the location is to sever it.
    pub open spec fn spec_amputate(self) -> Chance {
        match self {
            Location::Skull
            | Location::Face
            | Location::Abdomen
            | Location::Pelvis
            | Location::Quarter
            | Location::Shoulder
            | Location::Thorax
            | Location::Horn
            | Location::Flank
            | Location::Head
            | Location::Torso => Chance::Nil,
            Location::Neck | Location::Thigh | Location::UpperLeg | Location::Wing => Chance::Low,
            Location::Knee
            | Location::LowerArm
            | Location::Calf
            | Location::Ear
            | Location::LowerLeg
            | Location::Elbow
            | Location::FrontFoot
            | Location::FrontLeg
            | Location::Forearm
            | Location::Foot
            | Location::Trunk
            | Location::HindLeg
            | Location::UpperArm
            | Location::HindFoot
            | Location::Arm
            | Location::Leg => Chance::Mid,
            Location::Tail | Location::Hand => Chance::High,
        }
    }

    pub fn amputate(self) -> (r: Chance)
        ensures
            r == self.spec_amputate(),
    {
        match self {
            Location::Skull
            | Location::Face
            | Location::Abdomen
            | Location::Pelvis
            | Location::Quarter
            | Location::Shoulder
            | Location::Thorax
            | Location::Horn
            | Location::Flank
            | Location::Head
            | Location::Torso => Chance::Nil,
            Location::Neck | Location::Thigh | Location::UpperLeg | Location::Wing => Chance::Low,
            Location::Knee
            | Location::LowerArm
            | Location::Calf
            | Location::Ear
            | Location::LowerLeg
            | Location::Elbow
            | Location::FrontFoot
            | Location::FrontLeg
            | Location::Forearm
            | Location::Foot
            | Location::Trunk
            | Location::HindLeg
            | Location::UpperArm
            | Location::HindFoot
            | Location::Arm
            | Location::Leg => Chance::Mid,
            Location::Tail | Location::Hand => Chance::High,
        }
    }

    /// The body zone the location belongs to.
    pub open spec fn spec_zone(self) -> Zone {
        match self {
            Location::Skull
            | Location::Face
            | Location::Neck
            | Location::Horn
            | Location::Ear
            | Location::Trunk
            | Location::Head => Zone::Head,
            Location::Shoulder
            | Location::UpperArm
            | Location::Elbow
            | Location::Forearm
            | Location::Hand
            | Location::LowerArm
            | Location::FrontFoot
            | Location::FrontLeg
            | Location::Wing
            | Location::Arm => Zone::Arm,
            Location::Thorax
            | Location::Abdomen
            | Location::Pelvis
            | Location::Flank
            | Location::Torso => Zone::Torso,
            Location::Thigh
            | Location::Knee
            | Location::Calf
            | Location::Foot
            | Location::LowerLeg
            | Location::Quarter
            | Location::Tail
            | Location::HindLeg
            | Location::HindFoot
            | Location::UpperLeg
            | Location::Leg => Zone::Leg,
        }
    }

    pub fn zone(self) -> (r: Zone)
        ensures
            r == self.spec_zone(),
    {
        match self {
            Location::Skull
            | Location::Face
            | Location::Neck
            | Location::Horn
            | Location::Ear
            | Location::Trunk
            | Location::Head => Zone::Head,
            Location::Shoulder
            | Location::UpperArm
            | Location::Elbow
            | Location::Forearm
            | Location::Hand
            | Location::LowerArm
            | Location::FrontFoot
            | Location::FrontLeg
            | Location::Wing
            | Location::Arm => Zone::Arm,
            Location::Thorax
            | Location::Abdomen
            | Location::Pelvis
            | Location::Flank
            | Location::Torso => Zone::Torso,
            Location::Thigh
            | Location::Knee
            | Location::Calf
            | Location::Foot
            | Location::LowerLeg
            | Location::Quarter
            | Location::Tail
            | Location::HindLeg
            | Location::HindFoot
            | Location::UpperLeg
            | Location::Leg => Zone::Leg,
        }
    }
}

/// A zone of the body.
#[derive(Debug, Clone, Copy, PartialEq, Eq, Structural)]
pub enum Zone {
    Head,
    Arm,
    Torso,
    Leg,
}

/// How badly shock has taken a being.
#[derive(Debug, Clone, Copy, PartialEq, Eq, Structural)]
pub enum ShockState {
    Stunned,
    Incapacitated,
    Unconscious,
    Killed,
}

/// An injury: where, how severe (1 to 5), of which aspect, and whether it
/// bleeds.
#[derive(Debug, Clone, Copy)]
pub struct Injury {
    pub location: Location,
    pub shock: i8,
    pub aspect: Aspect,
    pub bleed: bool,
}

impl Injury {
    /// The injury an impact causes: none at 0; below 5 minor (severity 1),
    /// below 10 serious (2), below 15 serious (3), below 20 grievous (4),
    /// anything else grievous (5). Whether it bleeds depends on the
    /// severity, the aspect and the location's chance of bleeding.
    pub open spec fn spec_new(location: Location, shock: i8, aspect: Aspect, bleed: Chance) -> Option<Injury> {
        if shock == 0 {
            None
        } else if 1 <= shock < 5 {
            Some(Injury { location, shock: 1, aspect, bleed: false })
        } else if 5 <= shock < 10 {
            Some(Injury { location, shock: 2, aspect, bleed: false })
        } else if 10 <= shock < 15 {
            Some(
                Injury {
                    location,
                    shock: 3,
                    aspect,
                    bleed: aspect == Aspect::Edge && bleed.spec_rank() >= 3,
                },
            )
        } else if 15 <= shock < 20 {
            Some(
                Injury {
                    location,
                    shock: 4,
                    aspect,
                    bleed: aspect == Aspect::Edge || (aspect == Aspect::Point && bleed.spec_rank() >= 2),
                },
            )
        } else {
            Some(
                Injury {
                    location,
                    shock: 5,
                    aspect,
                    bleed: aspect != Aspect::FireFrost && bleed.spec_rank() >= 1,
                },
            )
        }
    }

    pub fn new(location: Location, shock: i8, aspect: Aspect, bleed: Chance) -> (r: Option<Injury>)
        ensures
            r == Self::spec_new(location, shock, aspect, bleed),
    {
        if shock == 0 {
            None
        } else if 1 <= shock && shock < 5 {
            Some(Injury { location, shock: 1, aspect, bleed: false })
        } else if 5 <= shock && shock < 10 {
            Some(Injury { location, shock: 2, aspect, bleed: false })
        } else if 10 <= shock && shock < 15 {
            Some(
                Injury {
                    location,
                    shock: 3,
                    aspect,
                    bleed: aspect == Aspect::Edge && bleed.rank() >= 3,
                },
            )
        } else if 15 <= shock && shock < 20 {
            Some(
                Injury {
                    location,
                    shock: 4,
                    aspect,
                    bleed: aspect == Aspect::Edge || (aspect == Aspect::Point && bleed.rank() >= 2),
                },
            )
        } else {
            Some(
                Injury {
                    location,
                    shock: 5,
                    aspect,
                    bleed: aspect != Aspect::FireFrost && bleed.rank() >= 1,
                },
            )
        }
    }

    /// The injury made one step worse, up to severity 5.
    pub open spec fn spec_compounded(self) -> Injury {
        if self.shock < 5 {
            Injury { shock: (self.shock + 1) as i8, ..self }
        } else {
            self
        }
    }

    /// Makes the injury one step worse, up to severity 5.
    pub fn compound(&mut self)
        ensures
            *final(self) == old(self).spec_compounded(),
    {
        if self.shock < 5 {
            self.shock = self.shock + 1;
        }
    }
}

/// Every injury an impact causes has a severity from 1 to 5, at the place
/// the blow landed and with its aspect.
pub proof fn injury_severity_in_range(location: Location, shock: i8, aspect: Aspect, bleed: Chance)
    ensures
        Injury::spec_new(location, shock, aspect, bleed) is None <==> shock == 0,
        Injury::spec_new(location, shock, aspect, bleed) matches Some(i) ==> 1 <= i.shock <= 5
            && i.location == location && i.aspect == aspect,
{
}

/// The severity of an injury follows the impact in steps of five: no
/// impact does no injury, 1 to 4 is severity 1, each further five a step
/// more, up to 5 from an impact of 20; the injury is where the blow landed
/// and of its aspect.
pub proof fn severity_follows_impact(location: Location, shock: i8, aspect: Aspect, bleed: Chance)
    ensures
        shock == 0 <==> Injury::spec_new(location, shock, aspect, bleed) is None,
        Injury::spec_new(location, shock, aspect, bleed) matches Some(i) ==> i.location == location
            && i.aspect == aspect,
        1 <= shock ==> (Injury::spec_new(location, shock, aspect, bleed) matches Some(i) && i.shock == (
        if shock / 5 + 1 < 5 {
            shock / 5 + 1
        } else {
            5
        })),
{
}

/// When a wound bleeds: a light or serious wound (impact under 10) never
/// does; a grievous edged wound (impact 15 to 19) always does, whatever
/// the location's chance of bleeding; a fire or frost wound never bleeds,
/// nor a blunt one short of severity 5 (impact 20); and a greater chance
/// of bleeding never stops a wound from bleeding.
pub proof fn bleeding_rules(location: Location, shock: i8, aspect: Aspect, low: Chance, high: Chance)
    requires
        low.spec_rank() <= high.spec_rank(),
    ensures
        1 <= shock < 10 ==> (Injury::spec_new(location, shock, aspect, low) matches Some(i) && !i.bleed),
        15 <= shock < 20 && aspect == Aspect::Edge ==> (Injury::spec_new(location, shock, aspect, low) matches Some(
            i,
        ) && i.bleed),
        (Injury::spec_new(location, shock, aspect, low) matches Some(i) && i.bleed) ==> (Injury::spec_new(
            location,
            shock,
            aspect,
            high,
        ) matches Some(j) && j.bleed),
        aspect == Aspect::FireFrost ==> !(Injury::spec_new(location, shock, aspect, low) matches Some(i)
            && i.bleed),
        aspect == Aspect::Blunt && 1 <= shock < 20 ==> !(Injury::spec_new(location, shock, aspect, low) matches Some(
            i,
        ) && i.bleed),
{
}

/// Compounding an injury never makes it lighter and never takes it past 5.
pub proof fn compounding_worsens(injury: Injury)
    requires
        injury.shock <= 5,
    ensures
        injury.spec_compounded().shock >= injury.shock,
        injury.spec_compounded().shock <= 5,
        injury.spec_compounded().location == injury.location,
{
}

/// A character or creature.
#[derive(Clone)]
pub struct Being {
    pub name: String,
    pub attributes: AttributeSet,
    pub skills: SkillSet,
    pub prime_hand: Option<Item>,
    pub off_hand: Option<Item>,
    pub inventory: Inventory,
    pub body: BodyType,
    pub injuries: Vec<Injury>,
    pub shock: Option<ShockState>,
}

impl Default for BodyType {
    /// A body type with no locations.
    fn default() -> (b: Self)
        ensures
            b.0@ == Seq::<(u8, Vec<LocationEntry>)>::empty(),
    {
        BodyType(Vec::new())
    }
}

impl Default for Being {
    /// A being with no name, no attribute values or skills, nothing in hand
    /// or in the inventory, a body with no locations, no injuries and no
    /// shock.
    fn default() -> (b: Self)
        ensures
            b.name@ == Seq::<char>::empty(),
            b.attributes@ == Map::<Attribute, u8>::empty(),
            b.skills@ == Map::<SkillKey, u8>::empty(),
            b.prime_hand is None,
            b.off_hand is None,
            b.inventory.0@ == Seq::<Item>::empty(),
            b.body.0@ == Seq::<(u8, Vec<LocationEntry>)>::empty(),
            b.injuries@ == Seq::<Injury>::empty(),
            b.shock is None,
    {
        Being {
            name: String::new(),
            attributes: AttributeSet::new(),
            skills: SkillSet::new(),
            prime_hand: None,
            off_hand: None,
            inventory: Inventory(Vec::new()),
            body: BodyType(Vec::new()),
            injuries: Vec::new(),
            shock: None,
        }
    }
}

/// The attack modes of what a hand holds.
pub open spec fn hand_modes(hand: Option<Item>) -> Seq<Mode> {
    match hand {
        Some(item) => item.spec_modes(),
        None => Seq::empty(),
    }
}

/// The sum of the severities of the injuries at a location.
pub open spec fn existing_shock(injuries: Seq<Injury>, location: Location) -> int
    decreases injuries.len(),
{
    if injuries.len() == 0 {
        0
    } else {
        existing_shock(injuries.drop_last(), location) + if injuries.last().location == location {
            injuries.last().shock as int
        } else {
            0
        }
    }
}

/// The injury at a location that compounding picks in `injuries`, whose
/// last entry is the new injury: scanning the first `n` entries, the latest
/// at the location with a severity at least that of the pick so far, which
/// starts as the new injury at index 0.
pub open spec fn worst_pick(injuries: Seq<Injury>, location: Location, n: nat) -> (int, Injury)
    decreases n,
{
    if n == 0 {
        (0, injuries.last())
    } else {
        let (i, highest) = worst_pick(injuries, location, (n - 1) as nat);
        let k = n - 1;
        if injuries[k].location == location && injuries[k].shock >= highest.shock {
            (k, injuries[k])
        } else {
            (i, highest)
        }
    }
}

/// The shock state for a shock total: none up to 6, stunned at 7,
/// incapacitated at 8, unconscious at 9, killed from 10.
pub open spec fn shock_state_for(total: int) -> Option<ShockState> {
    if total <= 6 {
        None
    } else if total == 7 {
        Some(ShockState::Stunned)
    } else if total == 8 {
        Some(ShockState::Incapacitated)
    } else if total == 9 {
        Some(ShockState::Unconscious)
    } else {
        Some(ShockState::Killed)
    }
}

/// What a shock test adds to the shock total: -1 on a critical success,
/// 0 on a success, 1 on a failure, 2 on a critical failure.
pub open spec fn shock_test_delta(r: SuccessResult) -> int {
    match r {
        SuccessResult::CriticalSuccess(_) => -1,
        SuccessResult::Success(_) => 0,
        SuccessResult::Fail(_) => 1,
        SuccessResult::CriticalFail(_) => 2,
    }
}

/// The strength modifier to impact for a strength value read as signed.
pub open spec fn spec_str_mod(strength: int) -> int {
    if strength <= 5 {
        strength - 11
    } else {
        strength / 2 - 5
    }
}

impl Being {
    pub open spec fn spec_attribute(&self, attribute: Attribute) -> u8 {
        if self.attributes@.dom().contains(attribute) {
            self.attributes@[attribute]
        } else {
            10
        }
    }

    pub open spec fn spec_skill(&self, skill: Skill) -> Option<u8> {
        if self.skills@.dom().contains(skill.key()) {
            Some(self.skills@[skill.key()])
        } else {
            match skill {
                Skill::Initiative | Skill::Shock | Skill::Melee | Skill::Dodge => Some(5),
                _ => None,
            }
        }
    }

    /// The attack modes of whatever the hands hold, prime hand first.
    pub fn modes(&self) -> (v: Vec<Mode>)
        ensures
            v@ == hand_modes(self.prime_hand) + hand_modes(self.off_hand),
    {
        let mut attack_modes = Vec::<Mode>::new();
        if let Some(v) = &self.prime_hand {
            let mut m = v.modes();
            attack_modes.append(&mut m);
        }
        if let Some(v) = &self.off_hand {
            let mut m = v.modes();
            attack_modes.append(&mut m);
        }
        assert(attack_modes@ =~= hand_modes(self.prime_hand) + hand_modes(self.off_hand));
        attack_modes
    }

    /// An attribute's value; 10 where the sheet gives none.
    pub fn attribute(&self, attribute: Attribute) -> (v: u8)
        ensures
            v == self.spec_attribute(attribute),
    {
        match self.attributes.get(attribute) {
            Some(v) => v,
            None => 10,
        }
    }

    /// A skill's level; the action skills (initiative, shock, melee, dodge)
    /// default to 5, any other skill the sheet lacks is unknown.
    pub fn skill(&self, skill: &Skill) -> (v: Option<u8>)
        ensures
            v == self.spec_skill(*skill),
    {
        if let Some(o) = self.skills.get(skill) {
            Some(o)
        } else {
            match skill {
                Skill::Initiative | Skill::Shock | Skill::Melee | Skill::Dodge => Some(5),
                _ => None,
            }
        }
    }

    pub fn name(&self) -> (n: &String)
        ensures
            n == &self.name,
    {
        &self.name
    }

    pub fn injuries(&self) -> (v: &Vec<Injury>)
        ensures
            v@ == self.injuries@,
    {
        &self.injuries
    }

    /// The being's shock state, to read or to change.
    pub fn shock_state(&mut self) -> (s: &mut Option<ShockState>)
        ensures
            *s == old(self).shock,
            final(self).shock == *final(s),
            final(self).name == old(self).name,
            final(self).attributes == old(self).attributes,
            final(self).skills == old(self).skills,
            final(self).prime_hand == old(self).prime_hand,
            final(self).off_hand == old(self).off_hand,
            final(self).inventory == old(self).inventory,
            final(self).body == old(self).body,
            final(self).injuries == old(self).injuries,
    {
        &mut self.shock
    }

    pub open spec fn test_fits<T: Testable>(&self, test: &T, modifier: int) -> bool {
        &&& test.ml_fits(self)
        &&& eml_fits(test.spec_ml(self) as u8, modifier, self.injuries@, test.spec_impaired_by())
    }

    pub open spec fn spec_test_eml<T: Testable>(&self, test: &T, modifier: int) -> u8 {
        spec_eml(test.spec_ml(self) as u8, modifier, self.injuries@, test.spec_impaired_by()) as u8
    }

    /// Rolls a success test: d100 against the effective mastery level.
    pub fn success_test<T: Testable>(&self, test: &T, modifier: i32) -> (r: SuccessResult)
        requires
            self.test_fits(test, modifier as int),
        ensures
            1 <= r.roll() <= 100,
            r == SuccessResult::spec_from_roll(self.spec_test_eml(test, modifier as int), r.roll()),
    {
        let roll = crate::dice::roll_die(1, 100) as u8;
        self.success_test_with(test, modifier, roll)
    }

    /// A success test for a known d100 roll.
    pub fn success_test_with<T: Testable>(&self, test: &T, modifier: i32, roll: u8) -> (r: SuccessResult)
        requires
            self.test_fits(test, modifier as int),
        ensures
            r == SuccessResult::spec_from_roll(self.spec_test_eml(test, modifier as int), roll),
    {
        let eml = test.eml(modifier, self);
        SuccessResult::from_roll(eml, roll)
    }

    /// The mastery level of a skill or attribute.
    pub fn ml<T: Testable>(&self, test: &T) -> (ml: u8)
        requires
            test.ml_fits(self),
        ensures
            ml == test.spec_ml(self),
    {
        test.ml(self)
    }

    /// The effective mastery level of a skill or attribute, unmodified.
    pub fn eml<T: Testable>(&self, test: &T) -> (eml: u32)
        requires
            self.test_fits(test, 0),
        ensures
            eml == self.spec_test_eml(test, 0),
    {
        test.eml(0, self) as u32
    }

    /// Rolls an opposed test against an opponent's result.
    pub fn opposed_test<T: Testable>(&self, test: &T, modifier: i8, rhs: SuccessResult) -> (r: (
        OpposedResult,
        u8,
    ))
        requires
            self.test_fits(test, modifier as int),
        ensures
            exists|roll: u8|
                1 <= roll <= 100 && r == spec_opposed_outcome(
                    SuccessResult::spec_from_roll(self.spec_test_eml(test, modifier as int), roll),
                    rhs,
                ),
    {
        let lhs = self.success_test(test, modifier as i32);
        let r = opposed_outcome(lhs, rhs);
        assert(1 <= lhs.roll() <= 100 && r == spec_opposed_outcome(
            SuccessResult::spec_from_roll(self.spec_test_eml(test, modifier as int), lhs.roll()),
            rhs,
        ));
        r
    }

    /// Rolls a value test: the index of the mastery level plus the success
    /// level's bonus.
    pub fn value_test<T: Testable>(&self, test: &T, modifier: i8) -> (v: i8)
        requires
            self.test_fits(test, modifier as int),
        ensures
            exists|roll: u8|
                1 <= roll <= 100 && v == test.spec_ml(self) / 10 + SuccessResult::spec_from_roll(
                    self.spec_test_eml(test, modifier as int),
                    roll,
                ).spec_numeric() - 2,
    {
        let roll = crate::dice::roll_die(1, 100) as u8;
        self.value_test_with(test, modifier, roll)
    }

    /// A value test for a known d100 roll.
    pub fn value_test_with<T: Testable>(&self, test: &T, modifier: i8, roll: u8) -> (v: i8)
        requires
            self.test_fits(test, modifier as int),
        ensures
            v == test.spec_ml(self) / 10 + SuccessResult::spec_from_roll(
                self.spec_test_eml(test, modifier as int),
                roll,
            ).spec_numeric() - 2,
    {
        let index = test.index(self);
        let r = self.success_test_with(test, modifier as i32, roll);
        index as i8 + r.value_modifer()
    }

    /// Puts an item in the inventory.
    pub fn equip(&mut self, item: Item)
        ensures
            final(self).inventory.0@ == old(self).inventory.0@.push(item),
            final(self).name == old(self).name,
            final(self).attributes == old(self).attributes,
            final(self).skills == old(self).skills,
            final(self).prime_hand == old(self).prime_hand,
            final(self).off_hand == old(self).off_hand,
            final(self).body == old(self).body,
            final(self).injuries == old(self).injuries,
            final(self).shock == old(self).shock,
    {
        self.inventory.equip(item);
    }

    pub open spec fn spec_hands_full(&self) -> u8 {
        ((if self.prime_hand is Some { 1int } else { 0 }) + (if self.off_hand is Some { 1int } else { 0 })) as u8
    }

    /// How many hands hold something.
    pub fn hands_full(&self) -> (n: u8)
        ensures
            n == self.spec_hands_full(),
    {
        let mut n: u8 = 0;
        if self.prime_hand.is_some() {
            n = n + 1;
        }
        if self.off_hand.is_some() {
            n = n + 1;
        }
        n
    }

    /// The heft of a mode, less 5 when both hands are full.
    pub open spec fn spec_heft(&self, mode: Mode) -> int {
        as_signed(mode.spec_heft()) + if self.spec_hands_full() > 1 {
            -5int
        } else {
            0
        }
    }

    /// The penalty for wielding a mode heavier than one's strength: 5 per
    /// point of heft over strength.
    pub open spec fn spec_heft_mod(&self, mode: Mode) -> int {
        let strength = as_signed(self.spec_attribute(Attribute::Strength));
        let heft = self.spec_heft(mode);
        if strength < heft {
            (heft - strength) * -5
        } else {
            0
        }
    }

    pub open spec fn heft_mod_fits(&self, mode: Mode) -> bool {
        let strength = as_signed(self.spec_attribute(Attribute::Strength));
        &&& -128 <= self.spec_heft(mode) <= 127
        &&& strength < self.spec_heft(mode) ==> -128 <= (self.spec_heft(mode) - strength) * -5
    }

    pub fn heft_mod(&self, mode: Mode) -> (m: Option<i8>)
        requires
            self.heft_mod_fits(mode),
        ensures
            m == Some(self.spec_heft_mod(mode) as i8),
    {
        let s = self.attribute(Attribute::Strength);
        let strength: i8 = if s < 128 {
            s as i8
        } else {
            (s as i16 - 256) as i8
        };
        let h = mode.heft();
        let h_signed: i8 = if h < 128 {
            h as i8
        } else {
            (h as i16 - 256) as i8
        };
        let heft = h_signed + if self.hands_full() > 1 {
            -5
        } else {
            0
        };
        Some(
            if strength < heft {
                (heft - strength) * -5
            } else {
                0
            },
        )
    }

    /// The strength modifier to impact: strength less 11 up to strength 5,
    /// half strength less 5 above.
    pub fn str_mod(&self) -> (m: i8)
        requires
            as_signed(self.spec_attribute(Attribute::Strength)) >= 1,
        ensures
            m == spec_str_mod(as_signed(self.spec_attribute(Attribute::Strength))),
    {
        let s = self.attribute(Attribute::Strength);
        let str = s as i8;
        if str <= 5 {
            str - 11
        } else {
            str / 2 - 5
        }
    }

    /// Whether a shock roll for `injury` can be worked out in `i8`
    /// arithmetic, and the shock skill's mastery level in `u8`.
    pub open spec fn shock_fits(&self, injury: Injury) -> bool {
        match select_in_rows(self.body.0@, injury.location) {
            Some(e) => {
                &&& -127 <= e.shock + injury.shock <= 125
                &&& Skill::Shock.ml_fits(self)
            },
            None => true,
        }
    }

    /// The shock state that a shock test's result gives for `injury`: the
    /// state for the location's shock plus the injury's plus the test's
    /// adjustment; nothing where the body has no such location.
    pub open spec fn shock_for_test(&self, injury: Injury, test: SuccessResult) -> Option<ShockState> {
        match self.body.spec_shock(injury) {
            Some(base) => shock_state_for(base + shock_test_delta(test)),
            None => None,
        }
    }

    /// What a shock roll for `injury` may give: the shock state for the
    /// result of a shock test on some d100 roll.
    pub open spec fn shock_outcome(&self, injury: Injury, after: Option<ShockState>) -> bool {
        exists|roll: u8|
            1 <= roll <= 100 && after == self.shock_for_test(
                injury,
                #[trigger] SuccessResult::spec_from_roll(self.spec_test_eml(&Skill::Shock, 0), roll),
            )
    }

    /// Sets the shock state from the result of a shock test for an injury;
    /// a location the body lacks leaves everything as it was.
    pub fn apply_shock(&mut self, injury: Injury, test: SuccessResult) -> (r: Option<ShockState>)
        requires
            match select_in_rows(old(self).body.0@, injury.location) {
                Some(e) => -127 <= e.shock + injury.shock <= 125,
                None => true,
            },
        ensures
            r == old(self).shock_for_test(injury, test),
            final(self).shock == (if old(self).body.spec_shock(injury) is Some { r } else { old(self).shock }),
            final(self).name == old(self).name,
            final(self).attributes == old(self).attributes,
            final(self).skills == old(self).skills,
            final(self).prime_hand == old(self).prime_hand,
            final(self).off_hand == old(self).off_hand,
            final(self).inventory == old(self).inventory,
            final(self).body == old(self).body,
            final(self).injuries == old(self).injuries,
    {
        let base = match self.body.shock(injury) {
            Some(b) => b,
            None => return None,
        };
        let delta: i8 = match test {
            SuccessResult::CriticalSuccess(_) => -1,
            SuccessResult::Success(_) => 0,
            SuccessResult::Fail(_) => 1,
            SuccessResult::CriticalFail(_) => 2,
        };
        let i: i8 = base + delta;
        let shock = if i <= 6 {
            None
        } else if i == 7 {
            Some(ShockState::Stunned)
        } else if i == 8 {
            Some(ShockState::Incapacitated)
        } else if i == 9 {
            Some(ShockState::Unconscious)
        } else {
            Some(ShockState::Killed)
        };
        self.shock = shock;
        shock
    }

    /// Rolls shock for an injury and sets the shock state from it; a
    /// location the body lacks leaves everything as it was.
    pub fn shock(&mut self, injury: Injury) -> (r: Option<ShockState>)
        requires
            old(self).shock_fits(injury),
        ensures
            old(self).shock_outcome(injury, r),
            final(self).shock == (if old(self).body.spec_shock(injury) is Some { r } else { old(self).shock }),
            final(self).name == old(self).name,
            final(self).attributes == old(self).attributes,
            final(self).skills == old(self).skills,
            final(self).prime_hand == old(self).prime_hand,
            final(self).off_hand == old(self).off_hand,
            final(self).inventory == old(self).inventory,
            final(self).body == old(self).body,
            final(self).injuries == old(self).injuries,
    {
        if self.body.shock(injury).is_none() {
            proof {
                assert(None::<ShockState> == self.shock_for_test(
                    injury,
                    SuccessResult::spec_from_roll(self.spec_test_eml(&Skill::Shock, 0), 1),
                ));
            }
            return None;
        }
        proof {
            lemma_no_zones_no_impairment(self.injuries@);
        }
        let test = self.success_test(&Skill::Shock, 0);
        self.apply_shock(injury, test)
    }

    /// Whether injuring the being with `injury` stays within `i8`
    /// arithmetic and the shock skill's range, whatever the rolls.
    pub open spec fn injure_fits(&self, injury: Injury) -> bool {
        let existing = existing_shock(self.injuries@, injury.location);
        let pushed = self.injuries@.push(injury);
        let pick = worst_pick(pushed, injury.location, pushed.len());
        &&& forall|n: int|
            0 <= n <= self.injuries@.len() ==> -128 <= #[trigger] existing_shock(
                self.injuries@.take(n),
                injury.location,
            ) <= 127
        &&& existing > 0 ==> -128 <= injury.shock + existing <= 127
        &&& self.shock_fits(injury)
        &&& self.shock_fits(pushed[pick.0].spec_compounded())
    }

    /// The injuries after `injury` lands, given the d10 compounding roll:
    /// on an already wounded location a roll at or under the new severity
    /// plus the old ones compounds the worst injury there.
    pub open spec fn injuries_after(&self, injury: Injury, roll: i8) -> Seq<Injury> {
        let existing = existing_shock(self.injuries@, injury.location);
        let pushed = self.injuries@.push(injury);
        let pick = worst_pick(pushed, injury.location, pushed.len());
        if existing > 0 && roll <= injury.shock + existing {
            pushed.update(pick.0, pushed[pick.0].spec_compounded())
        } else {
            pushed
        }
    }

    /// The injury whose shock is rolled after `injury` lands.
    pub open spec fn injury_shocked(&self, injury: Injury, roll: i8) -> Injury {
        let existing = existing_shock(self.injuries@, injury.location);
        let pushed = self.injuries@.push(injury);
        let pick = worst_pick(pushed, injury.location, pushed.len());
        if existing > 0 && roll <= injury.shock + existing {
            pushed[pick.0].spec_compounded()
        } else {
            injury
        }
    }

    /// What injuring a being does for a given d10 compounding roll and d100
    /// shock roll: the injury is recorded (compounding the worst one at the
    /// location on a low d10), the shock state is set from the shock test
    /// for the injury that results, taken with the injuries as they now
    /// stand, and nothing else changes.
    pub open spec fn wounded(&self, after: &Being, injury: Injury, wound: i8, shock_roll: u8) -> bool {
        let shocked = self.injury_shocked(injury, wound);
        let hurt = Being { injuries: after.injuries, ..*self };
        &&& after.injuries@ == self.injuries_after(injury, wound)
        &&& after.shock == if self.body.spec_shock(shocked) is Some {
            hurt.shock_for_test(
                shocked,
                SuccessResult::spec_from_roll(hurt.spec_test_eml(&Skill::Shock, 0), shock_roll),
            )
        } else {
            self.shock
        }
        &&& after.name == self.name
        &&& after.attributes == self.attributes
        &&& after.skills == self.skills
        &&& after.prime_hand == self.prime_hand
        &&& after.off_hand == self.off_hand
        &&& after.inventory == self.inventory
        &&& after.body == self.body
    }

    /// What injuring a being may do: `wounded` for some d10 and d100.
    pub open spec fn injured(&self, after: &Being, injury: Injury) -> bool {
        exists|wound: i8, shock_roll: u8|
            1 <= wound <= 10 && 1 <= shock_roll <= 100 && #[trigger] self.wounded(
                after,
                injury,
                wound,
                shock_roll,
            )
    }

    /// Records an injury, compounds the worst injury at the location on a low
    /// d10, and rolls shock.
    pub fn injure(&mut self, injury: Injury)
        requires
            old(self).injure_fits(injury),
        ensures
            old(self).injured(final(self), injury),
    {
        let wound = crate::dice::roll_die(1, 10) as i8;
        let shock_roll = crate::dice::roll_die(1, 100) as u8;
        self.injure_with(injury, wound, shock_roll);
    }

    /// Records an injury for a known d10 compounding roll and d100 shock
    /// roll: the worst injury at the location compounds when the roll is at
    /// or under the new severity plus the old ones there, and shock is set
    /// from the injury that results.
    pub fn injure_with(&mut self, injury: Injury, wound: i8, shock_roll: u8)
        requires
            old(self).injure_fits(injury),
        ensures
            old(self).wounded(final(self), injury, wound, shock_roll),
    {
        let ghost before = *self;
        let n0 = self.injuries.len();
        let mut existing: i8 = 0;
        let mut k: usize = 0;
        while k < n0
            invariant
                k <= n0,
                n0 == before.injuries@.len(),
                self.injuries@ == before.injuries@,
                existing == existing_shock(before.injuries@.take(k as int), injury.location),
                forall|n: int|
                    0 <= n <= before.injuries@.len() ==> -128 <= #[trigger] existing_shock(
                        before.injuries@.take(n),
                        injury.location,
                    ) <= 127,
            decreases n0 - k,
        {
            proof {
                assert(before.injuries@.take(k + 1).drop_last() =~= before.injuries@.take(k as int));
                assert(-128 <= existing_shock(before.injuries@.take(k + 1), injury.location) <= 127);
            }
            if self.injuries[k].location == injury.location {
                existing = existing + self.injuries[k].shock;
            }
            k = k + 1;
        }
        assert(before.injuries@.take(n0 as int) =~= before.injuries@);
        self.injuries.push(injury);
        let ghost pushed = self.injuries@;
        let to_shock = if existing > 0 && wound <= injury.shock + existing {
            let n = self.injuries.len();
            let mut index: usize = 0;
            let mut highest: Injury = self.injuries[n - 1];
            let mut j: usize = 0;
            while j < n
                invariant
                    j <= n,
                    n == pushed.len(),
                    self.injuries@ == pushed,
                    (index as int, highest) == worst_pick(pushed, injury.location, j as nat),
                    index < n,
                decreases n - j,
            {
                let x = self.injuries[j];
                if x.location == injury.location && x.shock >= highest.shock {
                    index = j;
                    highest = x;
                }
                j = j + 1;
            }
            proof {
                lemma_worst_pick_at_location(pushed, injury.location);
            }
            let mut worse = self.injuries[index];
            worse.compound();
            self.injuries.set(index, worse);
            worse
        } else {
            injury
        };
        proof {
            assert(self.injuries@ == before.injuries_after(injury, wound));
            assert(to_shock == before.injury_shocked(injury, wound));
            lemma_worst_pick_at_location(pushed, injury.location);
        }
        let ghost mid = *self;
        assert(mid == (Being { injuries: mid.injuries, ..before }));
        if self.body.shock(to_shock).is_some() {
            proof {
                lemma_no_zones_no_impairment(self.injuries@);
            }
            let test = self.success_test_with(&Skill::Shock, 0, shock_roll);
            self.apply_shock(to_shock, test);
        }
        proof {
            assert(self.injuries@ == before.injuries_after(injury, wound));
        }
    }
}

/// With no zones to impair, injuries neither block nor impair.
pub proof fn lemma_no_zones_no_impairment(injuries: Seq<Injury>)
    ensures
        crate::core_rules::impairment(injuries, Seq::<Zone>::empty()) == 0,
        !crate::core_rules::blocked(injuries, Seq::<Zone>::empty()),
    decreases injuries.len(),
{
    if injuries.len() > 0 {
        lemma_no_zones_no_impairment(injuries.drop_last());
    }
}

proof fn lemma_worst_pick_steps(injuries: Seq<Injury>, location: Location, n: nat)
    requires
        injuries.len() > 0,
        n <= injuries.len(),
    ensures
        worst_pick(injuries, location, n) == (0int, injuries.last()) || {
            let p = worst_pick(injuries, location, n);
            &&& 0 <= p.0 < n
            &&& injuries[p.0] == p.1
            &&& p.1.location == location
        },
    decreases n,
{
    if n > 0 {
        lemma_worst_pick_steps(injuries, location, (n - 1) as nat);
    }
}

/// The compounding pick lands on an injury at the location whenever the
/// list ends with an injury there.
proof fn lemma_worst_pick_at_location(injuries: Seq<Injury>, location: Location)
    requires
        injuries.len() > 0,
        injuries.last().location == location,
    ensures
        0 <= worst_pick(injuries, location, injuries.len()).0 < injuries.len(),
        injuries[worst_pick(injuries, location, injuries.len()).0].location == location,
{
    let n = injuries.len();
    lemma_worst_pick_steps(injuries, location, (n - 1) as nat);
    lemma_worst_pick_steps(injuries, location, n);
}

/// The dice of a melee exchange: the defender's and the attacker's d100,
/// the zone and location rolls and the impact die face of each side's blow.
#[derive(Debug, Clone, Copy, PartialEq, Eq, Structural)]
pub struct MeleeRolls {
    pub atk_test: u8,
    pub def_test: u8,
    pub atk_zone: u8,
    pub atk_spot: u8,
    pub atk_face: i8,
    pub def_zone: u8,
    pub def_spot: u8,
    pub def_face: i8,
}

/// The dice of a shot: the missile test's d100, the zone die face, the zone
/// and location rolls, and the ammunition's impact die face.
#[derive(Debug, Clone, Copy, PartialEq, Eq, Structural)]
pub struct MissileRolls {
    pub test: u8,
    pub zone_face: u8,
    pub zone: u16,
    pub spot: u8,
    pub impact_face: i8,
}

/// All the dice of an attack: those of a melee exchange and those of a
/// shot (an attack uses the ones of its mode), and the d10 compounding roll
/// and d100 shock roll of the injury it does, if any.
#[derive(Debug, Clone, Copy, PartialEq, Eq, Structural)]
pub struct AttackRolls {
    pub melee: MeleeRolls,
    pub missile: MissileRolls,
    pub wound: i8,
    pub shock: u8,
}

/// Who a melee exchange wounds, and with whose blow.
#[derive(Debug, Clone, Copy, PartialEq, Eq, Structural)]
pub enum MeleeHit {
    Nobody,
    TargetByAttacker,
    TargetByDefender,
    AttackerByDefender,
}

/// The consequence of a melee exchange: a victory lets the attacker's blow
/// land; a tie lands it on a dodge the attacker wins, lands the defender's
/// blow on a counterstrike with a winner, and nothing on a block; a loss
/// lands the defender's blow on the attacker only on a counterstrike.
pub open spec fn spec_melee_hit(res: OpposedResult, defense: DefenseOption) -> MeleeHit {
    match res {
        OpposedResult::Victory => MeleeHit::TargetByAttacker,
        OpposedResult::Tie(winner) => match defense {
            DefenseOption::Block => MeleeHit::Nobody,
            DefenseOption::Dodge => if winner == Tiebreak::Lhs {
                MeleeHit::TargetByAttacker
            } else {
                MeleeHit::Nobody
            },
            DefenseOption::Counterstrike => if winner == Tiebreak::Neither {
                MeleeHit::Nobody
            } else {
                MeleeHit::TargetByDefender
            },
        },
        OpposedResult::Loss => if defense == DefenseOption::Counterstrike {
            MeleeHit::AttackerByDefender
        } else {
            MeleeHit::Nobody
        },
    }
}

/// Who a melee exchange wounds, told by its outcome: the attacker's blow
/// lands on the target exactly when the attacker wins outright or wins the
/// tiebreak of a tie against a dodge, which counts as much as a victory;
/// the defender's blow lands only on a counterstrike, on the target in a
/// tie that someone wins, and on the attacker in a loss.
pub proof fn who_a_melee_exchange_wounds(res: OpposedResult, defense: DefenseOption)
    ensures
        (spec_melee_hit(res, defense) == MeleeHit::TargetByAttacker) <==> (res == OpposedResult::Victory || (res
            == OpposedResult::Tie(Tiebreak::Lhs) && defense == DefenseOption::Dodge)),
        (spec_melee_hit(res, defense) == MeleeHit::TargetByDefender) <==> (defense == DefenseOption::Counterstrike
            && res is Tie && res != OpposedResult::Tie(Tiebreak::Neither)),
        (spec_melee_hit(res, defense) == MeleeHit::AttackerByDefender) <==> (defense
            == DefenseOption::Counterstrike && res == OpposedResult::Loss),
        spec_melee_hit(OpposedResult::Tie(Tiebreak::Lhs), DefenseOption::Dodge) == spec_melee_hit(
            OpposedResult::Victory,
            defense,
        ),
{
}

/// Resolves who a melee exchange wounds.
pub fn melee_hit(res: OpposedResult, defense: DefenseOption) -> (h: MeleeHit)
    ensures
        h == spec_melee_hit(res, defense),
{
    match res {
        OpposedResult::Victory => MeleeHit::TargetByAttacker,
        OpposedResult::Tie(winner) => match defense {
            DefenseOption::Block => MeleeHit::Nobody,
            DefenseOption::Dodge => if winner == Tiebreak::Lhs {
                MeleeHit::TargetByAttacker
            } else {
                MeleeHit::Nobody
            },
            DefenseOption::Counterstrike => if winner == Tiebreak::Neither {
                MeleeHit::Nobody
            } else {
                MeleeHit::TargetByDefender
            },
        },
        OpposedResult::Loss => if defense == DefenseOption::Counterstrike {
            MeleeHit::AttackerByDefender
        } else {
            MeleeHit::Nobody
        },
    }
}

/// The injury a blow does through an inventory's protection: the impact
/// less the protection at the spot (held at the `i8` bounds), graded by
/// `Injury::new` with the location's chance of bleeding.
pub open spec fn injury_from(inventory: Inventory, attack: item::Attack) -> Option<Injury> {
    Injury::spec_new(
        attack.location,
        item::saturating_i8(
            attack.impact - item::total_protection(inventory.0@, attack.location, attack.aspect),
        ),
        attack.aspect,
        attack.location.spec_bleed(),
    )
}

/// The furthest a melee mode of length `length` reaches: its length, and
/// never less than 5.
pub open spec fn melee_reach(length: u8) -> int {
    if length < 5 {
        5
    } else {
        length as int
    }
}

/// Whether a blow with an impact die of `die` faces, a strength modifier
/// and a bonus stays within `i8` arithmetic for every face.
pub open spec fn blow_fits(die: int, str_mod: int, bonus: int) -> bool {
    &&& 0 <= bonus <= 255
    &&& -128 <= 1 + str_mod
    &&& die + str_mod <= 127
    &&& -128 <= 1 + str_mod + as_signed(bonus as u8)
    &&& die + str_mod + as_signed(bonus as u8) <= 127
}

/// Whether a blow fits for every number of victory stars, 0 to 3.
pub open spec fn blow_fits_any_stars(die: int, str_mod: int, per_star: u8) -> bool {
    &&& blow_fits(die, str_mod, 0)
    &&& blow_fits(die, str_mod, per_star as int)
    &&& blow_fits(die, str_mod, 2 * per_star)
    &&& blow_fits(die, str_mod, 3 * per_star)
}

/// Whether the protection of an inventory at a location against an aspect
/// can be summed in an `i8`.
pub open spec fn protection_fits(inventory: Inventory, location: Location, aspect: Aspect) -> bool {
    forall|n: int|
        0 <= n <= inventory.0@.len() ==> -128 <= #[trigger] item::total_protection(
            inventory.0@.take(n),
            location,
            aspect,
        ) <= 127
}

impl Being {
    /// Whether a melee attack that gets past its checks of hands and reach
    /// stays within the arithmetic the rules use, whatever the rolls.
    pub open spec fn melee_fits(
        &self,
        target: &Being,
        aim_zone: u8,
        atk_mode: Mode,
        defense: DefenseOption,
        def_mode: Mode,
        atk_mod: i8,
        def_mod: i8,
    ) -> bool {
        match atk_mode {
            Mode::Melee { aspect, zone_die, impact_die, impact_mod, .. } => {
                let reach = item::spec_reach_diff(atk_mode, def_mode);
                let heft = self.spec_heft_mod(atk_mode);
                &&& item::reach_fits(atk_mode, def_mode)
                &&& self.heft_mod_fits(atk_mode)
                &&& -128 <= atk_mod + heft <= 127
                &&& -128 <= atk_mod + heft + reach.0 <= 127
                &&& defense.test_fits(target, def_mode, def_mod, reach.1 as i8)
                &&& self.test_fits(&Skill::Melee, atk_mod + heft + reach.0)
                &&& aim_zone >= 1
                &&& zone_die >= 1
                &&& zone_die + aim_zone - 1 <= 255
                &&& impact_die >= 1
                &&& def_mode.spec_impact_die() >= 1
                &&& as_signed(self.spec_attribute(Attribute::Strength)) >= 1
                &&& as_signed(target.spec_attribute(Attribute::Strength)) >= 1
                &&& blow_fits_any_stars(
                    impact_die as int,
                    spec_str_mod(as_signed(self.spec_attribute(Attribute::Strength))),
                    impact_mod,
                )
                &&& blow_fits_any_stars(
                    def_mode.spec_impact_die() as int,
                    spec_str_mod(as_signed(target.spec_attribute(Attribute::Strength))),
                    def_mode.spec_impact_mod(),
                )
                &&& forall|l: Location| #[trigger] protection_fits(target.inventory, l, aspect)
                &&& forall|l: Location| #[trigger] protection_fits(target.inventory, l, def_mode.spec_aspect())
                &&& forall|l: Location| #[trigger] protection_fits(self.inventory, l, def_mode.spec_aspect())
                &&& forall|i: Injury| 1 <= i.shock <= 5 ==> #[trigger] target.injure_fits(i)
                &&& forall|i: Injury| 1 <= i.shock <= 5 ==> #[trigger] self.injure_fits(i)
            },
            _ => true,
        }
    }

    /// Whether a missile attack that gets past its check of hands stays
    /// within the arithmetic the rules use, whatever the rolls.
    pub open spec fn missile_fits(
        &self,
        target: &Being,
        range: u16,
        aim_zone: u8,
        atk_mode: Mode,
        ammo: Option<Item>,
    ) -> bool {
        match atk_mode {
            Mode::Range { base_range, impact_mod, .. } => {
                let band = item::spec_band(base_range, range);
                &&& item::band_fits(base_range, range)
                &&& band.spec_test_mod() matches Some(m) ==> {
                    let rim = band.spec_impact_mod()->0;
                    &&& self.test_fits(&Skill::Archery, m as int)
                    &&& band.spec_zone_die()->0 + aim_zone <= 255
                    &&& 2 * impact_mod <= 255
                    &&& -128 <= rim + as_signed(impact_mod) <= 127
                    &&& -128 <= rim + as_signed((2 * impact_mod) as u8) <= 127
                    &&& ammo matches Some(a) ==> {
                        &&& a.impact_fits((rim + as_signed(impact_mod)) as i8)
                        &&& a.impact_fits((rim + as_signed((2 * impact_mod) as u8)) as i8)
                    }
                    &&& forall|l: Location| #[trigger] protection_fits(target.inventory, l, Aspect::Point)
                    &&& forall|i: Injury| 1 <= i.shock <= 5 ==> #[trigger] target.injure_fits(i)
                }
            },
            _ => true,
        }
    }

    /// What an attack may leave behind: nothing changed when it wounds no
    /// one; else one injury of severity 1 to 5, recorded on the target or,
    /// only by a counterstrike, on the attacker, the other side unchanged. A
    /// two-handed mode with both hands full, a melee target out of reach,
    /// and a missile out of range or without ammunition wound no one, and a
    /// missile only ever wounds the target, with a point.
    pub open spec fn attack_outcome(
        &self,
        target: Being,
        after: Being,
        target_after: Being,
        range: u16,
        atk_mode: Mode,
        ammo: Option<Item>,
        defense: DefenseOption,
        r: Option<Injury>,
    ) -> bool {
        &&& r is None ==> after == *self && target_after == target
        &&& r matches Some(i) ==> 1 <= i.shock <= 5 && ((target.injured(&target_after, i) && after
            == *self) || (self.injured(&after, i) && target_after == target))
        &&& match atk_mode {
            Mode::Melee { two_hand, length, .. } => ((two_hand && self.spec_hands_full() > 1) || range
                > melee_reach(length) ==> r is None) && (defense != DefenseOption::Counterstrike ==> (
            r matches Some(i) ==> target.injured(&target_after, i) && after == *self)),
            Mode::Range { two_hand, base_range, .. } => ((two_hand && self.spec_hands_full() > 1)
                || item::spec_band(base_range, range) == item::MissileRange::OutOfRange || ammo is None
                ==> r is None) && (r matches Some(i) ==> i.aspect == Aspect::Point && target.injured(
                &target_after,
                i,
            )),
        }
    }

    /// Whether the dice of a melee exchange are ones the rules can roll:
    /// d100 for both tests, the zone die shifted by the aim less one and a
    /// d10 for each hit location, and each side's impact die.
    pub open spec fn melee_rolls_fit(&self, aim_zone: u8, atk_mode: Mode, def_mode: Mode, rolls: MeleeRolls) -> bool {
        let zone_die = match atk_mode {
            Mode::Melee { zone_die, .. } => zone_die as int,
            _ => 0,
        };
        &&& 1 <= rolls.atk_test <= 100
        &&& 1 <= rolls.def_test <= 100
        &&& aim_zone <= rolls.atk_zone <= zone_die + aim_zone - 1
        &&& 1 <= rolls.atk_spot <= 10
        &&& 1 <= rolls.atk_face <= atk_mode.spec_impact_die()
        &&& aim_zone <= rolls.def_zone <= zone_die + aim_zone - 1
        &&& 1 <= rolls.def_spot <= 10
        &&& 1 <= rolls.def_face <= def_mode.spec_impact_die()
    }

    /// The outcome of the tests of a melee exchange, and its victory stars:
    /// the defender tests the defence's skill under its modifier and the
    /// reach penalty, the attacker tests melee under the situational
    /// modifier, the heft penalty and the reach modifier, against that.
    pub open spec fn melee_exchange(
        &self,
        target: Being,
        atk_mode: Mode,
        defense: DefenseOption,
        def_mode: Mode,
        atk_mod: i8,
        def_mod: i8,
        rolls: MeleeRolls,
    ) -> (OpposedResult, u8) {
        let reach = item::spec_reach_diff(atk_mode, def_mode);
        let modifier = atk_mod + self.spec_heft_mod(atk_mode) + reach.0;
        let rhs = SuccessResult::spec_from_roll(
            target.spec_test_eml(
                &defense.spec_skill(),
                defense.spec_modifier(&target, def_mode, def_mod, reach.1 as i8),
            ),
            rolls.def_test,
        );
        spec_opposed_outcome(
            SuccessResult::spec_from_roll(self.spec_test_eml(&Skill::Melee, modifier), rolls.atk_test),
            rhs,
        )
    }

    /// The injury a melee exchange does for given dice: the defender tests
    /// the defence's skill, the attacker tests melee against that result;
    /// each side's blow lands at the location its rolls pick on the
    /// attacker's and the target's body, with an impact of the die, the
    /// strength modifier and the mode's impact modifier for each victory
    /// star; the outcome of the tests decides which blow lands, if any
    /// (see `spec_melee_hit`), and the blow does `injury_from` through the
    /// protection of the one it lands on. A roll that finds no location on
    /// a body ends the exchange with no injury.
    pub open spec fn melee_outcome(
        &self,
        target: Being,
        atk_mode: Mode,
        defense: DefenseOption,
        def_mode: Mode,
        atk_mod: i8,
        def_mod: i8,
        rolls: MeleeRolls,
    ) -> Option<Injury> {
        match atk_mode {
            Mode::Melee { aspect, impact_mod, .. } => {
                let (res, stars) = self.melee_exchange(
                    target,
                    atk_mode,
                    defense,
                    def_mode,
                    atk_mod,
                    def_mod,
                    rolls,
                );
                match (
                    spec_locate(self.body.0@, rolls.atk_zone as int, rolls.atk_spot),
                    spec_locate(target.body.0@, rolls.def_zone as int, rolls.def_spot),
                ) {
                    (Some(atk_loc), Some(def_loc)) => {
                        let atk = item::Attack {
                            location: atk_loc,
                            impact: (rolls.atk_face + spec_str_mod(
                                as_signed(self.spec_attribute(Attribute::Strength)),
                            ) + as_signed((stars * impact_mod) as u8)) as i8,
                            aspect,
                        };
                        let def = item::Attack {
                            location: def_loc,
                            impact: (rolls.def_face + spec_str_mod(
                                as_signed(target.spec_attribute(Attribute::Strength)),
                            ) + as_signed((stars * def_mode.spec_impact_mod()) as u8)) as i8,
                            aspect: def_mode.spec_aspect(),
                        };
                        match spec_melee_hit(res, defense) {
                            MeleeHit::Nobody => None,
                            MeleeHit::TargetByAttacker => injury_from(target.inventory, atk),
                            MeleeHit::TargetByDefender => injury_from(target.inventory, def),
                            MeleeHit::AttackerByDefender => injury_from(self.inventory, def),
                        }
                    },
                    _ => None,
                }
            },
            _ => None,
        }
    }

    /// Whether the dice of a shot are ones the rules can roll: d100 for the
    /// missile test, the band's zone die, that face shifted by the aim and a
    /// d10 for the hit location, and the ammunition's impact die.
    pub open spec fn missile_rolls_fit(
        &self,
        range: u16,
        aim_zone: u8,
        atk_mode: Mode,
        ammo: Option<Item>,
        rolls: MissileRolls,
    ) -> bool {
        let band = atk_mode.spec_calc_range(range);
        &&& 1 <= rolls.test <= 100
        &&& band.spec_zone_die() matches Some(d) ==> 1 <= rolls.zone_face <= d
        &&& 1 + aim_zone <= rolls.zone <= rolls.zone_face + aim_zone
        &&& 1 <= rolls.spot <= 10
        &&& ammo matches Some(Item::Ammo { shaft, .. }) ==> 1 <= rolls.impact_face
            <= shaft.spec_impact_die()
    }

    /// The injury a shot does for given dice: a success on the missile test
    /// under the band's modifier earns one victory star, a critical success
    /// two, anything else misses; the location is picked on the target's
    /// body by the zone face shifted by the aim and the d10; the impact is
    /// the ammunition's for its die face, under the band's impact modifier
    /// and the weapon's for each star; the blow, of point aspect, does
    /// `injury_from` through the target's protection. A shot out of range,
    /// without ammunition, or finding no location does no injury.
    pub open spec fn missile_outcome(
        &self,
        target: Being,
        range: u16,
        aim_zone: u8,
        atk_mode: Mode,
        ammo: Option<Item>,
        rolls: MissileRolls,
    ) -> Option<Injury> {
        match atk_mode {
            Mode::Range { impact_mod, .. } => {
                let band = atk_mode.spec_calc_range(range);
                match (band.spec_test_mod(), band.spec_impact_mod(), ammo) {
                    (Some(m), Some(band_impact), Some(missile)) => {
                        let stars: u8 = match SuccessResult::spec_from_roll(
                            self.spec_test_eml(&Skill::Archery, m as int),
                            rolls.test,
                        ) {
                            SuccessResult::CriticalSuccess(_) => 2,
                            SuccessResult::Success(_) => 1,
                            _ => 0,
                        };
                        if stars == 0 {
                            None
                        } else {
                            match spec_locate(target.body.0@, rolls.zone as int, rolls.spot) {
                                Some(location) => injury_from(
                                    target.inventory,
                                    item::Attack {
                                        location,
                                        impact: missile.spec_impact(
                                            rolls.impact_face,
                                            (band_impact + as_signed((impact_mod * stars) as u8)) as i8,
                                        ) as i8,
                                        aspect: Aspect::Point,
                                    },
                                ),
                                None => None,
                            }
                        }
                    },
                    _ => None,
                }
            },
            _ => None,
        }
    }

    /// Whether an attack stays within the arithmetic the rules use,
    /// whatever the rolls: nothing is asked of an attack its checks stop.
    pub open spec fn attack_fits(
        &self,
        target: &Being,
        range: u16,
        aim_zone: u8,
        atk_mode: Mode,
        ammo: Option<Item>,
        defense: DefenseOption,
        def_mode: Mode,
        atk_mod: i8,
        def_mod: i8,
    ) -> bool {
        match atk_mode {
            Mode::Melee { two_hand, length, .. } => (two_hand && self.spec_hands_full() > 1) || range
                > melee_reach(length) || self.melee_fits(
                target,
                aim_zone,
                atk_mode,
                defense,
                def_mode,
                atk_mod,
                def_mod,
            ),
            Mode::Range { two_hand, .. } => (two_hand && self.spec_hands_full() > 1)
                || self.missile_fits(target, range, aim_zone, atk_mode, ammo),
        }
    }

    /// Whether a blow can land on the being within the arithmetic of the
    /// rules: its protection at the spot can be summed, and any injury can
    /// be recorded.
    pub open spec fn can_take_blow(&self, attack: item::Attack) -> bool {
        &&& protection_fits(self.inventory, attack.location, attack.aspect)
        &&& forall|i: Injury| 1 <= i.shock <= 5 ==> #[trigger] self.injure_fits(i)
    }

    /// What a blow leaves behind on the being, for a given d10 compounding
    /// roll and d100 shock roll: the injury its impact does through the
    /// inventory's protection, recorded on the being when there is one, and
    /// nothing changed when there is none.
    pub open spec fn took_blow(
        &self,
        after: Being,
        attack: item::Attack,
        wound: i8,
        shock_roll: u8,
        r: Option<Injury>,
    ) -> bool {
        &&& r == injury_from(self.inventory, attack)
        &&& r is None ==> after == *self
        &&& r matches Some(i) ==> 1 <= i.shock <= 5 && i.aspect == attack.aspect && self.wounded(
            &after,
            i,
            wound,
            shock_roll,
        )
    }

    /// Lands the blow a melee exchange calls for, with the given d10
    /// compounding roll and d100 shock roll: none, the attacker's or the
    /// defender's blow on the target, or the defender's blow on the
    /// attacker.
    pub fn strike(
        &mut self,
        target: &mut Being,
        hit: MeleeHit,
        atk: item::Attack,
        def: item::Attack,
        wound: i8,
        shock_roll: u8,
    ) -> (r: Option<Injury>)
        requires
            match hit {
                MeleeHit::Nobody => true,
                MeleeHit::TargetByAttacker => old(target).can_take_blow(atk),
                MeleeHit::TargetByDefender => old(target).can_take_blow(def),
                MeleeHit::AttackerByDefender => old(self).can_take_blow(def),
            },
        ensures
            match hit {
                MeleeHit::Nobody => r is None && *final(self) == *old(self) && *final(target)
                    == *old(target),
                MeleeHit::TargetByAttacker => old(target).took_blow(*final(target), atk, wound, shock_roll, r)
                    && *final(self) == *old(self),
                MeleeHit::TargetByDefender => old(target).took_blow(*final(target), def, wound, shock_roll, r)
                    && *final(self) == *old(self),
                MeleeHit::AttackerByDefender => old(self).took_blow(*final(self), def, wound, shock_roll, r)
                    && *final(target) == *old(target),
            },
    {
        match hit {
            MeleeHit::Nobody => None,
            MeleeHit::TargetByAttacker => target.take_blow(atk, wound, shock_roll),
            MeleeHit::TargetByDefender => target.take_blow(def, wound, shock_roll),
            MeleeHit::AttackerByDefender => self.take_blow(def, wound, shock_roll),
        }
    }

    /// Wounds the being with an attack's injury if the attack does one.
    fn take_blow(&mut self, attack: item::Attack, wound: i8, shock_roll: u8) -> (r: Option<Injury>)
        requires
            old(self).can_take_blow(attack),
        ensures
            old(self).took_blow(*final(self), attack, wound, shock_roll, r),
    {
        let injury = self.inventory.calc_injury(attack);
        match injury {
            Some(i) => {
                proof {
                    crate::being::injury_severity_in_range(
                        attack.location,
                        item::saturating_i8(
                            attack.impact - item::total_protection(
                                self.inventory.0@,
                                attack.location,
                                attack.aspect,
                            ),
                        ),
                        attack.aspect,
                        attack.location.spec_bleed(),
                    );
                }
                self.injure_with(i, wound, shock_roll);
                Some(i)
            },
            None => None,
        }
    }

    /// Whether the dice of an attack are ones the rules can roll: those of
    /// its mode (see `melee_rolls_fit` and `missile_rolls_fit`), a d10 and a
    /// d100. Nothing is asked of the dice of an attack its checks stop.
    pub open spec fn attack_rolls_fit(
        &self,
        range: u16,
        aim_zone: u8,
        atk_mode: Mode,
        ammo: Option<Item>,
        def_mode: Mode,
        rolls: AttackRolls,
    ) -> bool {
        &&& 1 <= rolls.wound <= 10
        &&& 1 <= rolls.shock <= 100
        &&& match atk_mode {
            Mode::Melee { two_hand, length, .. } => (two_hand && self.spec_hands_full() > 1) || range
                > melee_reach(length) || self.melee_rolls_fit(aim_zone, atk_mode, def_mode, rolls.melee),
            Mode::Range { two_hand, .. } => (two_hand && self.spec_hands_full() > 1)
                || self.missile_rolls_fit(range, aim_zone, atk_mode, ammo, rolls.missile),
        }
    }

    /// What a melee exchange does for given dice: the injury of
    /// `melee_outcome`, recorded (see `wounded`) on the attacker when the
    /// defender's counterstrike lands, else on the target; the other side,
    /// and both when there is no injury, unchanged.
    pub open spec fn melee_resolved(
        &self,
        target: Being,
        after: Being,
        target_after: Being,
        atk_mode: Mode,
        defense: DefenseOption,
        def_mode: Mode,
        atk_mod: i8,
        def_mod: i8,
        rolls: AttackRolls,
        r: Option<Injury>,
    ) -> bool {
        let hit = spec_melee_hit(
            self.melee_exchange(target, atk_mode, defense, def_mode, atk_mod, def_mod, rolls.melee).0,
            defense,
        );
        &&& r == self.melee_outcome(target, atk_mode, defense, def_mode, atk_mod, def_mod, rolls.melee)
        &&& r is None ==> after == *self && target_after == target
        &&& r matches Some(i) ==> 1 <= i.shock <= 5 && if hit == MeleeHit::AttackerByDefender {
            target_after == target && self.wounded(&after, i, rolls.wound, rolls.shock)
        } else {
            after == *self && target.wounded(&target_after, i, rolls.wound, rolls.shock)
        }
    }

    /// What a shot does for given dice: the injury of `missile_outcome`,
    /// recorded (see `wounded`) on the target; the attacker, and the target
    /// when there is no injury, unchanged.
    pub open spec fn missile_resolved(
        &self,
        target: Being,
        after: Being,
        target_after: Being,
        range: u16,
        aim_zone: u8,
        atk_mode: Mode,
        ammo: Option<Item>,
        rolls: AttackRolls,
        r: Option<Injury>,
    ) -> bool {
        &&& r == self.missile_outcome(target, range, aim_zone, atk_mode, ammo, rolls.missile)
        &&& after == *self
        &&& r is None ==> target_after == target
        &&& r matches Some(i) ==> 1 <= i.shock <= 5 && i.aspect == Aspect::Point && target.wounded(
            &target_after,
            i,
            rolls.wound,
            rolls.shock,
        )
    }

    /// What an attack does for given dice: nothing for a two-handed mode
    /// with both hands full or a melee target out of reach, else the melee
    /// exchange or the shot of its mode.
    pub open spec fn attack_resolved(
        &self,
        target: Being,
        after: Being,
        target_after: Being,
        range: u16,
        aim_zone: u8,
        atk_mode: Mode,
        ammo: Option<Item>,
        defense: DefenseOption,
        def_mode: Mode,
        atk_mod: i8,
        def_mod: i8,
        rolls: AttackRolls,
        r: Option<Injury>,
    ) -> bool {
        match atk_mode {
            Mode::Melee { two_hand, length, .. } => if (two_hand && self.spec_hands_full() > 1) || range
                > melee_reach(length) {
                r is None && after == *self && target_after == target
            } else {
                self.melee_resolved(target, after, target_after, atk_mode, defense, def_mode, atk_mod, def_mod, rolls, r)
            },
            Mode::Range { two_hand, .. } => if two_hand && self.spec_hands_full() > 1 {
                r is None && after == *self && target_after == target
            } else {
                self.missile_resolved(target, after, target_after, range, aim_zone, atk_mode, ammo, rolls, r)
            },
        }
    }

    /// Attacks a target in a mode, at a range, aiming at a zone. In melee
    /// the target defends with `defense` in `def_mode`; a missile needs
    /// ammunition. Rolls the dice the attack calls for and carries it out
    /// with them (see `resolve_attack`); returns the injury done, if any.
    pub fn attack(
        &mut self,
        target: &mut Being,
        range: u16,
        aim_zone: u8,
        atk_mode: Mode,
        ammo: Option<Item>,
        defense: DefenseOption,
        def_mode: Mode,
        atk_mod: i8,
        def_mod: i8,
    ) -> (r: Option<Injury>)
        requires
            old(self).attack_fits(
                old(target),
                range,
                aim_zone,
                atk_mode,
                ammo,
                defense,
                def_mode,
                atk_mod,
                def_mod,
            ),
        ensures
            old(self).attack_outcome(*old(target), *final(self), *final(target), range, atk_mode, ammo, defense, r),
            exists|rolls: AttackRolls|
                old(self).attack_rolls_fit(range, aim_zone, atk_mode, ammo, def_mode, rolls)
                    && #[trigger] old(self).attack_resolved(
                    *old(target),
                    *final(self),
                    *final(target),
                    range,
                    aim_zone,
                    atk_mode,
                    ammo,
                    defense,
                    def_mode,
                    atk_mod,
                    def_mod,
                    rolls,
                    r,
                ),
    {
        let ghost self0 = *self;
        let ghost target0 = *target;
        let wound = crate::dice::roll_die(1, 10) as i8;
        let shock = crate::dice::roll_die(1, 100) as u8;
        let blank_melee = MeleeRolls {
            atk_test: 1,
            def_test: 1,
            atk_zone: aim_zone,
            atk_spot: 1,
            atk_face: 1,
            def_zone: aim_zone,
            def_spot: 1,
            def_face: 1,
        };
        let blank_missile = MissileRolls {
            test: 1,
            zone_face: 1,
            zone: aim_zone as u16 + 1,
            spot: 1,
            impact_face: 1,
        };
        let rolls = match atk_mode {
            Mode::Melee { two_hand, length, zone_die, impact_die, .. } => {
                let reach: u16 = if length < 5 {
                    5
                } else {
                    length as u16
                };
                if (two_hand && self.hands_full() > 1) || range > reach {
                    AttackRolls { melee: blank_melee, missile: blank_missile, wound, shock }
                } else {
                    let lo = aim_zone as i32;
                    let hi = zone_die as i32 + aim_zone as i32 - 1;
                    let melee = MeleeRolls {
                        atk_test: crate::dice::roll_die(1, 100) as u8,
                        def_test: crate::dice::roll_die(1, 100) as u8,
                        atk_zone: crate::dice::roll_die(lo, hi) as u8,
                        atk_spot: crate::dice::roll_die(1, 10) as u8,
                        atk_face: crate::dice::roll_die(1, impact_die as i32) as i8,
                        def_zone: crate::dice::roll_die(lo, hi) as u8,
                        def_spot: crate::dice::roll_die(1, 10) as u8,
                        def_face: crate::dice::roll_die(1, def_mode.impact_die() as i32) as i8,
                    };
                    AttackRolls { melee, missile: blank_missile, wound, shock }
                }
            },
            Mode::Range { two_hand, .. } => {
                if two_hand && self.hands_full() > 1 {
                    AttackRolls { melee: blank_melee, missile: blank_missile, wound, shock }
                } else {
                    let zone_face: u8 = match atk_mode.calc_range(range).zone_die() {
                        Some(d) => crate::dice::roll_die(1, d as i32) as u8,
                        None => 1,
                    };
                    let impact_face: i8 = match &ammo {
                        Some(Item::Ammo { shaft, .. }) => crate::dice::roll_die(1, shaft.impact_die() as i32) as i8,
                        _ => 1,
                    };
                    let missile = MissileRolls {
                        test: crate::dice::roll_die(1, 100) as u8,
                        zone_face,
                        zone: crate::dice::roll_die(1 + aim_zone as i32, zone_face as i32 + aim_zone as i32) as u16,
                        spot: crate::dice::roll_die(1, 10) as u8,
                        impact_face,
                    };
                    AttackRolls { melee: blank_melee, missile, wound, shock }
                }
            },
        };
        let r = self.resolve_attack(
            target,
            range,
            aim_zone,
            atk_mode,
            ammo,
            defense,
            def_mode,
            atk_mod,
            def_mod,
            rolls,
        );
        proof {
            assert(self0.attack_rolls_fit(range, aim_zone, atk_mode, ammo, def_mode, rolls));
            lemma_resolved_attack_outcome(
                self0,
                target0,
                *self,
                *target,
                range,
                aim_zone,
                atk_mode,
                ammo,
                defense,
                def_mode,
                atk_mod,
                def_mod,
                rolls,
                r,
            );
        }
        r
    }

    /// Carries out an attack for given dice; see `attack_resolved`.
    pub fn resolve_attack(
        &mut self,
        target: &mut Being,
        range: u16,
        aim_zone: u8,
        atk_mode: Mode,
        ammo: Option<Item>,
        defense: DefenseOption,
        def_mode: Mode,
        atk_mod: i8,
        def_mod: i8,
        rolls: AttackRolls,
    ) -> (r: Option<Injury>)
        requires
            old(self).attack_fits(
                old(target),
                range,
                aim_zone,
                atk_mode,
                ammo,
                defense,
                def_mode,
                atk_mod,
                def_mod,
            ),
            old(self).attack_rolls_fit(range, aim_zone, atk_mode, ammo, def_mode, rolls),
        ensures
            old(self).attack_resolved(
                *old(target),
                *final(self),
                *final(target),
                range,
                aim_zone,
                atk_mode,
                ammo,
                defense,
                def_mode,
                atk_mod,
                def_mod,
                rolls,
                r,
            ),
    {
        match atk_mode {
            Mode::Melee { two_hand, length, .. } => {
                if two_hand && self.hands_full() > 1 {
                    return None;
                }
                let reach: u16 = if length < 5 {
                    5
                } else {
                    length as u16
                };
                if range > reach {
                    return None;
                }
                self.resolve_melee(target, aim_zone, atk_mode, defense, def_mode, atk_mod, def_mod, rolls)
            },
            Mode::Range { two_hand, .. } => {
                if two_hand && self.hands_full() > 1 {
                    return None;
                }
                self.resolve_missile(target, range, aim_zone, atk_mode, ammo, rolls)
            },
        }
    }

    /// A melee exchange for given dice; see `melee_resolved`.
    fn resolve_melee(
        &mut self,
        target: &mut Being,
        aim_zone: u8,
        atk_mode: Mode,
        defense: DefenseOption,
        def_mode: Mode,
        atk_mod: i8,
        def_mod: i8,
        rolls: AttackRolls,
    ) -> (r: Option<Injury>)
        requires
            atk_mode is Melee,
            old(self).melee_fits(old(target), aim_zone, atk_mode, defense, def_mode, atk_mod, def_mod),
            old(self).melee_rolls_fit(aim_zone, atk_mode, def_mode, rolls.melee),
        ensures
            old(self).melee_resolved(
                *old(target),
                *final(self),
                *final(target),
                atk_mode,
                defense,
                def_mode,
                atk_mod,
                def_mod,
                rolls,
                r,
            ),
    {
        match atk_mode {
            Mode::Melee { aspect, impact_mod, .. } => {
                let dice = rolls.melee;
                let (atk_r, def_r) = atk_mode.reach_diff(def_mode);
                let heft = match self.heft_mod(atk_mode) {
                    Some(h) => h,
                    None => return None,
                };
                let modifier: i8 = atk_mod + heft + atk_r;
                let rhs = defense.test_with(target, def_mode, def_mod, def_r, dice.def_test);
                let lhs = self.success_test_with(&Skill::Melee, modifier as i32, dice.atk_test);
                let (res, stars) = opposed_outcome(lhs, rhs);
                proof {
                    assert(heft as int == self.spec_heft_mod(atk_mode));
                    assert((res, stars) == self.melee_exchange(
                        *target,
                        atk_mode,
                        defense,
                        def_mode,
                        atk_mod,
                        def_mod,
                        dice,
                    ));
                    crate::core_rules::opposed_stars_at_most_three(lhs, rhs);
                    let smod = spec_str_mod(as_signed(self.spec_attribute(Attribute::Strength)));
                    let tmod = spec_str_mod(as_signed(target.spec_attribute(Attribute::Strength)));
                    let dmod = def_mode.spec_impact_mod();
                    let die = atk_mode.spec_impact_die() as int;
                    assert(stars * impact_mod <= 255 && blow_fits(die, smod, stars * impact_mod) && stars
                        * dmod <= 255 && blow_fits(def_mode.spec_impact_die() as int, tmod, stars * dmod)) by {
                        if stars == 0 {
                        } else if stars == 1 {
                        } else if stars == 2 {
                        } else {
                            assert(stars == 3);
                        }
                    }
                }
                let atk_loc = match self.body.locate(dice.atk_zone, dice.atk_spot) {
                    Some(l) => l,
                    None => return None,
                };
                let atk_bonus: u8 = stars * impact_mod;
                let atk_impact = dice.atk_face + self.str_mod() + crate::core_rules::to_signed(atk_bonus);
                let atk = item::Attack::new(atk_loc, atk_impact, aspect);
                let def_loc = match target.body.locate(dice.def_zone, dice.def_spot) {
                    Some(l) => l,
                    None => return None,
                };
                let def_bonus: u8 = stars * def_mode.impact_mod();
                let def_impact = dice.def_face + target.str_mod() + crate::core_rules::to_signed(def_bonus);
                let def = item::Attack::new(def_loc, def_impact, def_mode.aspect());
                let hit = melee_hit(res, defense);
                proof {
                    assert(self.melee_outcome(*target, atk_mode, defense, def_mode, atk_mod, def_mod, dice)
                        == match spec_melee_hit(res, defense) {
                        MeleeHit::Nobody => None,
                        MeleeHit::TargetByAttacker => injury_from(target.inventory, atk),
                        MeleeHit::TargetByDefender => injury_from(target.inventory, def),
                        MeleeHit::AttackerByDefender => injury_from(self.inventory, def),
                    });
                }
                self.strike(target, hit, atk, def, rolls.wound, rolls.shock)
            },
            _ => None,
        }
    }

    /// A shot for given dice; see `missile_resolved`.
    fn resolve_missile(
        &mut self,
        target: &mut Being,
        range: u16,
        aim_zone: u8,
        atk_mode: Mode,
        ammo: Option<Item>,
        rolls: AttackRolls,
    ) -> (r: Option<Injury>)
        requires
            atk_mode is Range,
            old(self).missile_fits(old(target), range, aim_zone, atk_mode, ammo),
            old(self).missile_rolls_fit(range, aim_zone, atk_mode, ammo, rolls.missile),
        ensures
            old(self).missile_resolved(
                *old(target),
                *final(self),
                *final(target),
                range,
                aim_zone,
                atk_mode,
                ammo,
                rolls,
                r,
            ),
    {
        match atk_mode {
            Mode::Range { impact_mod, .. } => {
                let dice = rolls.missile;
                let band = atk_mode.calc_range(range);
                let test_mod = match band.test_mod() {
                    Some(m) => m,
                    None => return None,
                };
                let test = self.success_test_with(&Skill::Archery, test_mod, dice.test);
                let stars: u8 = match test {
                    SuccessResult::CriticalSuccess(_) => 2,
                    SuccessResult::Success(_) => 1,
                    _ => return None,
                };
                let zone_die = match band.zone_die() {
                    Some(d) => d,
                    None => return None,
                };
                let location = match target.body.locate(dice.zone as u8, dice.spot) {
                    Some(l) => l,
                    None => return None,
                };
                let band_impact = match band.impact_mod() {
                    Some(m) => m,
                    None => return None,
                };
                let missile = match &ammo {
                    Some(a) => a,
                    None => return None,
                };
                let modifier: i8 = band_impact + crate::core_rules::to_signed(impact_mod * stars);
                let impact = missile.impact_for_face(dice.impact_face, modifier);
                let attack = item::Attack::new(location, impact, Aspect::Point);
                proof {
                    assert(self.missile_outcome(*target, range, aim_zone, atk_mode, ammo, dice) == injury_from(
                        target.inventory,
                        attack,
                    ));
                }
                target.take_blow(attack, rolls.wound, rolls.shock)
            },
            _ => None,
        }
    }
}

/// What an attack does for dice the rules can roll is one of the outcomes
/// that `attack_outcome` allows.
pub proof fn lemma_resolved_attack_outcome(
    attacker: Being,
    target: Being,
    after: Being,
    target_after: Being,
    range: u16,
    aim_zone: u8,
    atk_mode: Mode,
    ammo: Option<Item>,
    defense: DefenseOption,
    def_mode: Mode,
    atk_mod: i8,
    def_mod: i8,
    rolls: AttackRolls,
    r: Option<Injury>,
)
    requires
        attacker.attack_rolls_fit(range, aim_zone, atk_mode, ammo, def_mode, rolls),
        attacker.attack_resolved(
            target,
            after,
            target_after,
            range,
            aim_zone,
            atk_mode,
            ammo,
            defense,
            def_mode,
            atk_mod,
            def_mod,
            rolls,
            r,
        ),
    ensures
        attacker.attack_outcome(target, after, target_after, range, atk_mode, ammo, defense, r),
{
    if let Some(i) = r {
        if target.wounded(&target_after, i, rolls.wound, rolls.shock) {
            assert(target.injured(&target_after, i));
        }
        if attacker.wounded(&after, i, rolls.wound, rolls.shock) {
            assert(attacker.injured(&after, i));
        }
    }
}

impl Location {
    pub open spec fn spec_label(self) -> Seq<char> {
        match self {
            Location::Skull => "skull"@,
            Location::Face => "face"@,
            Location::Neck => "neck"@,
            Location::Shoulder => "shoulder"@,
            Location::UpperArm => "upper arm"@,
            Location::Elbow => "elbow"@,
            Location::Forearm => "forearm"@,
            Location::Hand => "hand"@,
            Location::Thorax => "thorax"@,
            Location::Abdomen => "abdomen"@,
            Location::Pelvis => "pelvis"@,
            Location::Thigh => "thigh"@,
            Location::Knee => "knee"@,
            Location::Calf => "calf"@,
            Location::Foot => "foot"@,
            Location::LowerArm => "lower arm"@,
            Location::Ear => "ear"@,
            Location::LowerLeg => "lower leg"@,
            Location::FrontFoot => "front foot"@,
            Location::Quarter => "quarter"@,
            Location::FrontLeg => "front leg"@,
            Location::Flank => "flank"@,
            Location::Tail => "tail"@,
            Location::Trunk => "trunk"@,
            Location::HindLeg => "hind leg"@,
            Location::HindFoot => "hind foot"@,
            Location::UpperLeg => "upper leg"@,
            Location::Horn => "horn"@,
            Location::Wing => "wing"@,
            Location::Head => "head"@,
            Location::Arm => "arm"@,
            Location::Torso => "torso"@,
            Location::Leg => "leg"@,
        }
    }

    /// The location's name, as the sheet writes it.
    pub fn label(self) -> (s: &'static str)
        ensures
            s@ == self.spec_label(),
    {
        match self {
            Location::Skull => "skull",
            Location::Face => "face",
            Location::Neck => "neck",
            Location::Shoulder => "shoulder",
            Location::UpperArm => "upper arm",
            Location::Elbow => "elbow",
            Location::Forearm => "forearm",
            Location::Hand => "hand",
            Location::Thorax => "thorax",
            Location::Abdomen => "abdomen",
            Location::Pelvis => "pelvis",
            Location::Thigh => "thigh",
            Location::Knee => "knee",
            Location::Calf => "calf",
            Location::Foot => "foot",
            Location::LowerArm => "lower arm",
            Location::Ear => "ear",
            Location::LowerLeg => "lower leg",
            Location::FrontFoot => "front foot",
            Location::Quarter => "quarter",
            Location::FrontLeg => "front leg",
            Location::Flank => "flank",
            Location::Tail => "tail",
            Location::Trunk => "trunk",
            Location::HindLeg => "hind leg",
            Location::HindFoot => "hind foot",
            Location::UpperLeg => "upper leg",
            Location::Horn => "horn",
            Location::Wing => "wing",
            Location::Head => "head",
            Location::Arm => "arm",
            Location::Torso => "torso",
            Location::Leg => "leg",
        }
    }
}

impl ShockState {
    pub open spec fn spec_label(self) -> Seq<char> {
        match self {
            ShockState::Stunned => "Stunned"@,
            ShockState::Incapacitated => "Incapacitated"@,
            ShockState::Unconscious => "Unconscious"@,
            ShockState::Killed => "Killed"@,
        }
    }

    /// The state's name.
    pub fn label(self) -> (s: &'static str)
        ensures
            s@ == self.spec_label(),
    {
        match self {
            ShockState::Stunned => "Stunned",
            ShockState::Incapacitated => "Incapacitated",
            ShockState::Unconscious => "Unconscious",
            ShockState::Killed => "Killed",
        }
    }
}

/// How grave a shock state is: 0 for none, up to 4 for killed.
pub open spec fn shock_rank(state: Option<ShockState>) -> int {
    match state {
        None => 0,
        Some(ShockState::Stunned) => 1,
        Some(ShockState::Incapacitated) => 2,
        Some(ShockState::Unconscious) => 3,
        Some(ShockState::Killed) => 4,
    }
}

/// More shock never leaves a being in a milder state.
pub proof fn shock_state_is_monotonic(low: int, high: int)
    requires
        low <= high,
    ensures
        shock_rank(shock_state_for(low)) <= shock_rank(shock_state_for(high)),
{
}

} // verus!

//! Layered armour: materials, the fifteen hit locations grouped in zones,
//! pieces of armour and the suit they make when worn one over another.
use vstd::prelude::*;

use crate::text::{joined, lemma_joined_push};
use crate::weapons::Aspect;

use vstd::string::StringExecFns;

verus! {

/// The material an armour piece is made of.
#[derive(Debug, PartialEq, Eq, Structural, Clone, Copy)]
pub enum Material {
    Cloth,
    Leather,
    Padded,
    Quilted,
    Gambeson,
    Kurbul,
    Scale,
    Mail,
    Plate,
}

impl Default for Material {
    fn default() -> (m: Material)
        ensures
            m == Material::Cloth,
    {
        Material::Cloth
    }
}

/// How stiff an armour material is.
#[derive(Debug, PartialEq, Eq, Structural, Clone, Copy)]
pub enum Rigidity {
    Soft,
    Rigid,
    Mail,
    Plate,
}

impl Material {
    /// The armour values of the material against blunt, edge, point and
    /// fire/frost.
    pub open spec fn spec_av_table(self) -> [u8; 4] {
        match self {
            Material::Cloth => [0, 1, 0, 1],
            Material::Leather => [1, 2, 1, 3],
            Material::Padded => [2, 2, 1, 2],
            Material::Quilted => [4, 3, 2, 3],
            Material::Gambeson => [6, 5, 4, 5],
            Material::Kurbul => [4, 6, 5, 4],
            Material::Scale => [4, 8, 5, 5],
            Material::Mail => [2, 8, 7, 3],
            Material::Plate => [6, 11, 9, 5],
        }
    }

    /// The material's armour value against one aspect.
    pub open spec fn spec_av(self, aspect: Aspect) -> u8 {
        self.spec_av_table()@[aspect.spec_array_index()]
    }

    pub fn av(self) -> (t: [u8; 4])
        ensures
            t == self.spec_av_table(),
    {
        match self {
            Material::Cloth => [0, 1, 0, 1],
            Material::Leather => [1, 2, 1, 3],
            Material::Padded => [2, 2, 1, 2],
            Material::Quilted => [4, 3, 2, 3],
            Material::Gambeson => [6, 5, 4, 5],
            Material::Kurbul => [4, 6, 5, 4],
            Material::Scale => [4, 8, 5, 5],
            Material::Mail => [2, 8, 7, 3],
            Material::Plate => [6, 11, 9, 5],
        }
    }

    /// The material's armour value against one aspect.
    pub fn av_for(self, aspect: Aspect) -> (v: u8)
        ensures
            v == self.spec_av(aspect),
            v <= 11,
    {
        let t = self.av();
        t[aspect.array_index()]
    }

    pub open spec fn spec_rigidity(self) -> Rigidity {
        match self {
            Material::Cloth | Material::Leather | Material::Padded | Material::Quilted => Rigidity::Soft,
            Material::Gambeson | Material::Kurbul => Rigidity::Rigid,
            Material::Scale | Material::Mail => Rigidity::Mail,
            Material::Plate => Rigidity::Plate,
        }
    }

    pub fn rigidity(self) -> (r: Rigidity)
        ensures
            r == self.spec_rigidity(),
    {
        match self {
            Material::Cloth | Material::Leather | Material::Padded | Material::Quilted => Rigidity::Soft,
            Material::Gambeson | Material::Kurbul => Rigidity::Rigid,
            Material::Scale | Material::Mail => Rigidity::Mail,
            Material::Plate => Rigidity::Plate,
        }
    }
}

/// A region of the body that a strike is aimed at.
#[derive(Debug, PartialEq, Eq, Structural, Clone, Copy)]
pub enum Zone {
    Head,
    Arms,
    Torso,
    Legs,
    Nowhere,
}

/// A hit location.
#[derive(Debug, PartialEq, Eq, Structural, Clone, Copy)]
pub enum Location {
    Skull,
    Face,
    Neck,
    Shoulder,
    UpperArm,
    Elbow,
    Forearm,
    Hand,
    Thorax,
    Abdomen,
    Pelvis,
    Thigh,
    Knee,
    Calf,
    Foot,
}

/// The strike missed: the zone roll named no zone.
#[derive(Debug, PartialEq, Eq, Structural, Clone, Copy)]
pub enum HitError {
    Missed,
}

impl HitError {
    /// The text of the error.
    pub fn message(&self) -> (s: &'static str)
        ensures
            s@ == "Missed!"@,
    {
        match self {
            HitError::Missed => "Missed!",
        }
    }
}

/// The zone a zone roll of 1 to 10 names: 1 the head, 2 and 3 the arms,
/// 4 to 7 the torso, 8 to 10 the legs; any other roll names none.
pub open spec fn zone_of_roll(zone_roll: u8) -> Zone {
    if zone_roll == 1 {
        Zone::Head
    } else if 2 <= zone_roll <= 3 {
        Zone::Arms
    } else if 4 <= zone_roll <= 7 {
        Zone::Torso
    } else if 8 <= zone_roll <= 10 {
        Zone::Legs
    } else {
        Zone::Nowhere
    }
}

/// The location a d10 roll picks within a zone.
pub open spec fn location_in_zone(zone: Zone, roll: u8) -> Location {
    match zone {
        Zone::Head => if roll <= 5 {
            Location::Skull
        } else if roll <= 8 {
            Location::Face
        } else {
            Location::Neck
        },
        Zone::Arms => if roll <= 3 {
            Location::Shoulder
        } else if roll <= 6 {
            Location::UpperArm
        } else if roll == 7 {
            Location::Elbow
        } else if roll <= 9 {
            Location::Forearm
        } else {
            Location::Hand
        },
        Zone::Torso => if roll <= 4 {
            Location::Thorax
        } else if roll <= 7 {
            Location::Abdomen
        } else {
            Location::Pelvis
        },
        _ => if roll <= 4 {
            Location::Thigh
        } else if roll == 5 {
            Location::Knee
        } else if roll <= 8 {
            Location::Calf
        } else {
            Location::Foot
        },
    }
}

impl Location {
    pub open spec fn spec_zone(self) -> Zone {
        match self {
            Location::Skull | Location::Face | Location::Neck => Zone::Head,
            Location::Shoulder
            | Location::UpperArm
            | Location::Elbow
            | Location::Forearm
            | Location::Hand => Zone::Arms,
            Location::Thorax | Location::Abdomen | Location::Pelvis => Zone::Torso,
            Location::Thigh | Location::Knee | Location::Calf | Location::Foot => Zone::Legs,
        }
    }

    /// The zone the location lies in.
    pub fn zone(self) -> (z: Zone)
        ensures
            z == self.spec_zone(),
    {
        match self {
            Location::Skull | Location::Face | Location::Neck => Zone::Head,
            Location::Shoulder
            | Location::UpperArm
            | Location::Elbow
            | Location::Forearm
            | Location::Hand => Zone::Arms,
            Location::Thorax | Location::Abdomen | Location::Pelvis => Zone::Torso,
            Location::Thigh | Location::Knee | Location::Calf | Location::Foot => Zone::Legs,
        }
    }

    /// The location's position in the list of locations.
    pub open spec fn spec_array_index(self) -> usize {
        match self {
            Location::Skull => 0,
            Location::Face => 1,
            Location::Neck => 2,
            Location::Shoulder => 3,
            Location::UpperArm => 4,
            Location::Elbow => 5,
            Location::Forearm => 6,
            Location::Hand => 7,
            Location::Thorax => 8,
            Location::Abdomen => 9,
            Location::Pelvis => 10,
            Location::Thigh => 11,
            Location::Knee => 12,
            Location::Calf => 13,
            Location::Foot => 14,
        }
    }

    pub fn array_index(self) -> (r: usize)
        ensures
            r == self.spec_array_index(),
    {
        match self {
            Location::Skull => 0,
            Location::Face => 1,
            Location::Neck => 2,
            Location::Shoulder => 3,
            Location::UpperArm => 4,
            Location::Elbow => 5,
            Location::Forearm => 6,
            Location::Hand => 7,
            Location::Thorax => 8,
            Location::Abdomen => 9,
            Location::Pelvis => 10,
            Location::Thigh => 11,
            Location::Knee => 12,
            Location::Calf => 13,
            Location::Foot => 14,
        }
    }

    /// How much a wound at the location bleeds.
    pub open spec fn spec_bloodloss(self) -> u8 {
        match self {
            Location::Skull => 1,
            Location::Face => 2,
            Location::Neck => 3,
            Location::Shoulder => 2,
            Location::UpperArm => 1,
            Location::Elbow => 1,
            Location::Forearm => 1,
            Location::Hand => 0,
            Location::Thorax => 2,
            Location::Abdomen => 3,
            Location::Pelvis => 2,
            Location::Thigh => 2,
            Location::Knee => 1,
            Location::Calf => 1,
            Location::Foot => 0,
        }
    }

    pub fn bloodloss(self) -> (r: u8)
        ensures
            r == self.spec_bloodloss(),
    {
        match self {
            Location::Skull => 1,
            Location::Face => 2,
            Location::Neck => 3,
            Location::Shoulder => 2,
            Location::UpperArm => 1,
            Location::Elbow => 1,
            Location::Forearm => 1,
            Location::Hand => 0,
            Location::Thorax => 2,
            Location::Abdomen => 3,
            Location::Pelvis => 2,
            Location::Thigh => 2,
            Location::Knee => 1,
            Location::Calf => 1,
            Location::Foot => 0,
        }
    }

    /// The shock a wound at the location adds.
    pub open spec fn spec_shock(self) -> i8 {
        match self {
            Location::Skull => 5,
            Location::Face => 4,
            Location::Neck => 5,
            Location::Shoulder => 3,
            Location::UpperArm => 1,
            Location::Elbow => 2,
            Location::Forearm => 1,
            Location::Hand => 2,
            Location::Thorax => 4,
            Location::Abdomen => 4,
            Location::Pelvis => 4,
            Location::Thigh => 3,
            Location::Knee => 2,
            Location::Calf => 1,
            Location::Foot => 2,
        }
    }

    pub fn shock(self) -> (r: i8)
        ensures
            r == self.spec_shock(),
    {
        match self {
            Location::Skull => 5,
            Location::Face => 4,
            Location::Neck => 5,
            Location::Shoulder => 3,
            Location::UpperArm => 1,
            Location::Elbow => 2,
            Location::Forearm => 1,
            Location::Hand => 2,
            Location::Thorax => 4,
            Location::Abdomen => 4,
            Location::Pelvis => 4,
            Location::Thigh => 3,
            Location::Knee => 2,
            Location::Calf => 1,
            Location::Foot => 2,
        }
    }

    /// The location a strike finds, given the zone roll and the d10 roll
    /// within the zone; a zone roll outside 1 to 10 misses.
    pub fn locate(zone_roll: u8, location_roll: u8) -> (r: Result<Location, HitError>)
        requires
            1 <= location_roll <= 10,
        ensures
            match r {
                Ok(l) => zone_of_roll(zone_roll) != Zone::Nowhere && l == location_in_zone(
                    zone_of_roll(zone_roll),
                    location_roll,
                ),
                Err(e) => e == HitError::Missed && zone_of_roll(zone_roll) == Zone::Nowhere,
            },
    {
        let location = location_roll;
        if zone_roll == 1 {
            Ok(
                if location <= 5 {
                    Location::Skull
                } else if location <= 8 {
                    Location::Face
                } else {
                    Location::Neck
                },
            )
        } else if 2 <= zone_roll && zone_roll <= 3 {
            Ok(
                if location <= 3 {
                    Location::Shoulder
                } else if location <= 6 {
                    Location::UpperArm
                } else if location == 7 {
                    Location::Elbow
                } else if location <= 9 {
                    Location::Forearm
                } else {
                    Location::Hand
                },
            )
        } else if 4 <= zone_roll && zone_roll <= 7 {
            Ok(
                if location <= 4 {
                    Location::Thorax
                } else if location <= 7 {
                    Location::Abdomen
                } else {
                    Location::Pelvis
                },
            )
        } else if 8 <= zone_roll && zone_roll <= 10 {
            Ok(
                if location <= 4 {
                    Location::Thigh
                } else if location == 5 {
                    Location::Knee
                } else if location <= 8 {
                    Location::Calf
                } else {
                    Location::Foot
                },
            )
        } else {
            Err(HitError::Missed)
        }
    }

    /// The location a strike with this zone roll finds, rolling a d10
    /// within the zone; a zone roll outside 1 to 10 misses.
    pub fn try_from(value: u8) -> (r: Result<Location, HitError>)
        ensures
            match r {
                Ok(l) => zone_of_roll(value) != Zone::Nowhere && exists|roll: u8|
                    1 <= roll <= 10 && l == location_in_zone(zone_of_roll(value), roll),
                Err(e) => e == HitError::Missed && zone_of_roll(value) == Zone::Nowhere,
            },
    {
        let location = crate::dice::roll_die(1, 10) as u8;
        Location::locate(value, location)
    }
}

/// How many times a list of covered locations names `location`.
pub open spec fn location_count(covers: Seq<Location>, location: Location) -> int
    decreases covers.len(),
{
    if covers.len() == 0 {
        0
    } else {
        location_count(covers.drop_last(), location) + if covers.last() == location {
            1int
        } else {
            0
        }
    }
}

proof fn lemma_location_count_bounds(covers: Seq<Location>, location: Location)
    ensures
        0 <= location_count(covers, location) <= covers.len(),
    decreases covers.len(),
{
    if covers.len() > 0 {
        lemma_location_count_bounds(covers.drop_last(), location);
    }
}

proof fn lemma_location_count_prefix(covers: Seq<Location>, location: Location, n: int)
    requires
        0 <= n <= covers.len(),
    ensures
        location_count(covers.take(n), location) <= location_count(covers, location),
    decreases covers.len(),
{
    if n == covers.len() {
        assert(covers.take(n) =~= covers);
    } else {
        assert(covers.take(n) =~= covers.drop_last().take(n));
        lemma_location_count_prefix(covers.drop_last(), location, n);
        lemma_location_count_bounds(covers, location);
        lemma_location_count_bounds(covers.drop_last(), location);
    }
}

/// An armour piece as plain values.
pub struct ArmorView {
    pub name: Seq<char>,
    pub material: Material,
    pub covers: Seq<Location>,
    pub description: Seq<char>,
}

/// A piece of armour: its name, its material, the locations it covers and
/// a description.
#[derive(Debug, Clone)]
pub struct Armor {
    pub name: String,
    pub material: Material,
    pub covers: Vec<Location>,
    pub description: String,
}

impl View for Armor {
    type V = ArmorView;

    open spec fn view(&self) -> ArmorView {
        ArmorView {
            name: self.name@,
            material: self.material,
            covers: self.covers@,
            description: self.description@,
        }
    }
}

impl Default for Armor {
    fn default() -> (a: Armor)
        ensures
            a@ == (ArmorView {
                name: Seq::empty(),
                material: Material::Cloth,
                covers: Seq::empty(),
                description: Seq::empty(),
            }),
    {
        Armor {
            name: String::new(),
            material: Material::Cloth,
            covers: Vec::new(),
            description: String::new(),
        }
    }
}

/// A copy of a list of locations.
fn copy_locations(covers: &Vec<Location>) -> (v: Vec<Location>)
    ensures
        v@ == covers@,
{
    let mut v: Vec<Location> = Vec::new();
    let mut i: usize = 0;
    while i < covers.len()
        invariant
            i <= covers@.len(),
            v@ == covers@.take(i as int),
        decreases covers@.len() - i,
    {
        v.push(covers[i]);
        i = i + 1;
        assert(v@ =~= covers@.take(i as int));
    }
    assert(covers@.take(covers@.len() as int) =~= covers@);
    v
}

impl Armor {
    /// A copy of the piece.
    pub fn duplicate(&self) -> (a: Armor)
        ensures
            a@ == self@,
    {
        Armor {
            name: self.name.clone(),
            material: self.material,
            covers: copy_locations(&self.covers),
            description: self.description.clone(),
        }
    }
}

/// How many pieces of a suit lie over a location, a piece counted once for
/// each time it names the location.
pub open spec fn layer_count(pieces: Seq<ArmorView>, location: Location) -> int
    decreases pieces.len(),
{
    if pieces.len() == 0 {
        0
    } else {
        layer_count(pieces.drop_last(), location) + location_count(pieces.last().covers, location)
    }
}

/// At most this many layers may be worn over one location.
pub open spec fn layer_limit() -> int {
    5
}

/// Whether a suit already has its full number of layers over a location.
pub open spec fn full_at(pieces: Seq<ArmorView>, location: Location) -> bool {
    layer_count(pieces, location) >= layer_limit()
}

/// Whether a piece may be put on over a suit: none of the locations it
/// covers is full yet.
pub open spec fn can_don(pieces: Seq<ArmorView>, piece: ArmorView) -> bool {
    forall|m: int| 0 <= m < piece.covers.len() ==> !#[trigger] full_at(pieces, piece.covers[m])
}

/// The suit after trying to put a piece on: the piece is added at the end
/// when it may be put on, and the suit is unchanged otherwise.
pub open spec fn donned(pieces: Seq<ArmorView>, piece: ArmorView) -> Seq<ArmorView> {
    if can_don(pieces, piece) {
        pieces.push(piece)
    } else {
        pieces
    }
}

/// The protection a suit gives a location against an aspect: for each
/// piece, its material's value once for each time it covers the location.
pub open spec fn set_protection(pieces: Seq<ArmorView>, location: Location, aspect: Aspect) -> int
    decreases pieces.len(),
{
    if pieces.len() == 0 {
        0
    } else {
        set_protection(pieces.drop_last(), location, aspect) + location_count(
            pieces.last().covers,
            location,
        ) * pieces.last().material.spec_av(aspect)
    }
}

proof fn lemma_layer_count_nonneg(pieces: Seq<ArmorView>, location: Location)
    ensures
        layer_count(pieces, location) >= 0,
    decreases pieces.len(),
{
    if pieces.len() > 0 {
        lemma_layer_count_nonneg(pieces.drop_last(), location);
        lemma_location_count_bounds(pieces.last().covers, location);
    }
}

proof fn lemma_set_protection_prefix(
    pieces: Seq<ArmorView>,
    location: Location,
    aspect: Aspect,
    n: int,
)
    requires
        0 <= n <= pieces.len(),
    ensures
        0 <= set_protection(pieces.take(n), location, aspect) <= set_protection(
            pieces,
            location,
            aspect,
        ),
    decreases pieces.len(),
{
    if pieces.len() > 0 {
        let last = pieces.last();
        let c = location_count(last.covers, location);
        let av = last.material.spec_av(aspect);
        lemma_location_count_bounds(last.covers, location);
        assert(c * av >= 0) by (nonlinear_arith)
            requires
                c >= 0,
                av >= 0,
        ;
        if n == pieces.len() {
            assert(pieces.take(n) =~= pieces);
            lemma_set_protection_prefix(pieces.drop_last(), location, aspect, n - 1);
            assert(pieces.drop_last().take(n - 1) =~= pieces.drop_last());
        } else {
            assert(pieces.take(n) =~= pieces.drop_last().take(n));
            lemma_set_protection_prefix(pieces.drop_last(), location, aspect, n);
        }
    }
}

/// The pieces of armour worn, innermost first.
#[derive(Debug, Clone)]
pub struct ArmorSet(pub Vec<Armor>);

impl View for ArmorSet {
    type V = Seq<ArmorView>;

    open spec fn view(&self) -> Seq<ArmorView> {
        self.0@.map_values(|a: Armor| a@)
    }
}

impl Default for ArmorSet {
    fn default() -> (s: ArmorSet)
        ensures
            s@ == Seq::<ArmorView>::empty(),
    {
        let s = ArmorSet(Vec::new());
        assert(s@ =~= Seq::<ArmorView>::empty());
        s
    }
}

impl ArmorSet {
    /// The layers over a location, counted up to the limit.
    fn layers_capped(&self, location: Location) -> (n: u8)
        ensures
            n == (if layer_count(self@, location) < layer_limit() {
                layer_count(self@, location)
            } else {
                layer_limit()
            }),
    {
        let mut n: u8 = 0;
        let mut i: usize = 0;
        while i < self.0.len()
            invariant
                i <= self.0@.len(),
                n == (if layer_count(self@.take(i as int), location) < 5 {
                    layer_count(self@.take(i as int), location)
                } else {
                    5
                }),
            decreases self.0@.len() - i,
        {
            let covers = &self.0[i].covers;
            let ghost before = layer_count(self@.take(i as int), location);
            proof {
                assert(self@.take(i + 1).drop_last() =~= self@.take(i as int));
                assert(self@.take(i + 1).last() == self.0@[i as int]@);
                assert(covers@.take(0) =~= Seq::<Location>::empty());
            }
            let mut j: usize = 0;
            while j < covers.len()
                invariant
                    j <= covers@.len(),
                    n == (if before + location_count(covers@.take(j as int), location) < 5 {
                        before + location_count(covers@.take(j as int), location)
                    } else {
                        5
                    }),
                decreases covers@.len() - j,
            {
                proof {
                    assert(covers@.take(j + 1).drop_last() =~= covers@.take(j as int));
                }
                if covers[j] == location && n < 5 {
                    n = n + 1;
                }
                j = j + 1;
            }
            proof {
                assert(covers@.take(covers@.len() as int) =~= covers@);
            }
            i = i + 1;
        }
        assert(self@.take(self.0@.len() as int) =~= self@);
        n
    }

    /// Puts a piece on over the suit, unless one of the locations it covers
    /// already bears the full number of layers; a refused piece leaves the
    /// suit as it was.
    pub fn don(&mut self, piece: &Armor) -> (r: &mut ArmorSet)
        ensures
            (*r)@ == donned(old(self)@, piece@),
            *final(self) == *final(r),
    {
        let mut flag = false;
        let mut k: usize = 0;
        while k < piece.covers.len()
            invariant
                k <= piece.covers@.len(),
                !flag <==> forall|m: int|
                    0 <= m < k ==> !#[trigger] full_at(self@, piece.covers@[m]),
            decreases piece.covers@.len() - k,
        {
            let i = self.layers_capped(piece.covers[k]);
            proof {
                assert(i >= 5 <==> full_at(self@, piece.covers@[k as int]));
            }
            if i >= 5 {
                flag = true;
            }
            k = k + 1;
        }
        if flag {
            proof {
                let m = choose|m: int| 0 <= m < k && full_at(self@, piece.covers@[m]);
                assert(piece@.covers[m] == piece.covers@[m]);
            }
            assert(!can_don(self@, piece@));
        } else {
            assert(can_don(self@, piece@));
            let copy = piece.duplicate();
            self.0.push(copy);
            proof {
                assert(self@ =~= donned(old(self)@, piece@));
            }
        }
        self
    }

    /// The protection the suit gives a location against an aspect.
    pub fn protection(&self, location: Location, aspect: Aspect) -> (p: u8)
        requires
            set_protection(self@, location, aspect) <= u8::MAX,
        ensures
            p == set_protection(self@, location, aspect),
    {
        let mut acc: u8 = 0;
        let mut i: usize = 0;
        while i < self.0.len()
            invariant
                i <= self.0@.len(),
                acc == set_protection(self@.take(i as int), location, aspect),
                set_protection(self@, location, aspect) <= u8::MAX,
            decreases self.0@.len() - i,
        {
            let x = &self.0[i];
            let av = x.material.av_for(aspect);
            let ghost base = acc as int;
            let ghost all = location_count(x.covers@, location);
            proof {
                assert(self@.take(i + 1).drop_last() =~= self@.take(i as int));
                assert(self@.take(i + 1).last() == self.0@[i as int]@);
                lemma_set_protection_prefix(self@, location, aspect, i + 1);
                assert(x.covers@.take(0) =~= Seq::<Location>::empty());
                lemma_location_count_bounds(x.covers@, location);
            }
            let mut j: usize = 0;
            while j < x.covers.len()
                invariant
                    j <= x.covers@.len(),
                    av <= 11,
                    all == location_count(x.covers@, location),
                    acc == base + location_count(x.covers@.take(j as int), location) * av,
                    base + all * av == set_protection(self@.take(i + 1), location, aspect),
                    set_protection(self@.take(i + 1), location, aspect) <= u8::MAX,
                    0 <= base,
                decreases x.covers@.len() - j,
            {
                proof {
                    assert(x.covers@.take(j + 1).drop_last() =~= x.covers@.take(j as int));
                    lemma_location_count_prefix(x.covers@, location, j as int + 1);
                    lemma_location_count_bounds(x.covers@.take(j as int), location);
                }
                if x.covers[j] == location {
                    proof {
                        let before = location_count(x.covers@.take(j as int), location);
                        let after = location_count(x.covers@.take(j + 1), location);
                        assert(after * av <= all * av) by (nonlinear_arith)
                            requires
                                after <= all,
                                av >= 0,
                        ;
                        assert(before * av >= 0) by (nonlinear_arith)
                            requires
                                before >= 0,
                                av >= 0,
                        ;
                        assert(after * av == before * av + av) by (nonlinear_arith)
                            requires
                                after == before + 1,
                        ;
                    }
                    acc = acc + av;
                }
                j = j + 1;
            }
            assert(x.covers@.take(x.covers@.len() as int) =~= x.covers@);
            i = i + 1;
        }
        assert(self@.take(self.0@.len() as int) =~= self@);
        acc
    }
}

proof fn lemma_location_count_found(covers: Seq<Location>, location: Location)
    ensures
        location_count(covers, location) > 0 ==> exists|m: int|
            0 <= m < covers.len() && covers[m] == location,
        covers.no_duplicates() ==> location_count(covers, location) <= 1,
    decreases covers.len(),
{
    if covers.len() > 0 {
        let rest = covers.drop_last();
        lemma_location_count_found(rest, location);
        lemma_location_count_bounds(rest, location);
        if location_count(rest, location) > 0 {
            let m = choose|m: int| 0 <= m < rest.len() && rest[m] == location;
            assert(covers[m] == location);
        }
        if covers.no_duplicates() {
            assert(rest.no_duplicates());
            if covers.last() == location && location_count(rest, location) > 0 {
                let m = choose|m: int| 0 <= m < rest.len() && rest[m] == location;
                assert(covers[m] == covers[covers.len() - 1]);
            }
        }
        if covers.last() == location {
            assert(covers[covers.len() - 1] == location);
        }
    }
}

/// Putting a piece on never takes a location past the layer limit, so long
/// as the location was within it before and the piece names each location
/// it covers only once.
pub proof fn don_keeps_layer_limit(pieces: Seq<ArmorView>, piece: ArmorView, location: Location)
    requires
        layer_count(pieces, location) <= layer_limit(),
        piece.covers.no_duplicates(),
    ensures
        layer_count(donned(pieces, piece), location) <= layer_limit(),
{
    if can_don(pieces, piece) {
        let after = pieces.push(piece);
        assert(after.drop_last() =~= pieces);
        assert(layer_count(after, location) == layer_count(pieces, location) + location_count(
            piece.covers,
            location,
        ));
        lemma_location_count_found(piece.covers, location);
        lemma_location_count_bounds(piece.covers, location);
        if location_count(piece.covers, location) > 0 {
            let m = choose|m: int| 0 <= m < piece.covers.len() && piece.covers[m] == location;
            assert(!full_at(pieces, piece.covers[m]));
        }
    }
}

impl Location {
    pub open spec fn spec_label(self) -> Seq<char> {
        match self {
            Location::Skull => "skull"@,
            Location::Face => "face"@,
            Location::Neck => "neck"@,
            Location::Shoulder => "shoulder"@,
            Location::UpperArm => "upper arm"@,
            Location::Elbow => "elbow"@,
            Location::Forearm => "forearm"@,
            Location::Hand => "hand"@,
            Location::Thorax => "thorax"@,
            Location::Abdomen => "abdomen"@,
            Location::Pelvis => "pelvis"@,
            Location::Thigh => "thigh"@,
            Location::Knee => "knee"@,
            Location::Calf => "calf"@,
            Location::Foot => "foot"@,
        }
    }

    /// The location's name.
    pub fn label(self) -> (s: &'static str)
        ensures
            s@ == self.spec_label(),
    {
        match self {
            Location::Skull => "skull",
            Location::Face => "face",
            Location::Neck => "neck",
            Location::Shoulder => "shoulder",
            Location::UpperArm => "upper arm",
            Location::Elbow => "elbow",
            Location::Forearm => "forearm",
            Location::Hand => "hand",
            Location::Thorax => "thorax",
            Location::Abdomen => "abdomen",
            Location::Pelvis => "pelvis",
            Location::Thigh => "thigh",
            Location::Knee => "knee",
            Location::Calf => "calf",
            Location::Foot => "foot",
        }
    }
}

impl Material {
    pub open spec fn spec_label(self) -> Seq<char> {
        match self {
            Material::Cloth => "Cloth"@,
            Material::Leather => "Leather"@,
            Material::Padded => "Padded"@,
            Material::Quilted => "Quilted"@,
            Material::Gambeson => "Gambeson"@,
            Material::Kurbul => "Kûrbúl"@,
            Material::Scale => "Scale"@,
            Material::Mail => "Mail"@,
            Material::Plate => "Plate"@,
        }
    }

    /// The material's name.
    pub fn label(self) -> (s: &'static str)
        ensures
            s@ == self.spec_label(),
    {
        match self {
            Material::Cloth => "Cloth",
            Material::Leather => "Leather",
            Material::Padded => "Padded",
            Material::Quilted => "Quilted",
            Material::Gambeson => "Gambeson",
            Material::Kurbul => "Kûrbúl",
            Material::Scale => "Scale",
            Material::Mail => "Mail",
            Material::Plate => "Plate",
        }
    }
}

impl ArmorView {
    /// The piece as a list writes it: material, then name.
    pub open spec fn spec_render(self) -> Seq<char> {
        self.material.spec_label() + " "@ + self.name
    }
}

impl Armor {
    /// The piece as a list writes it: material, then name.
    pub fn render(&self) -> (s: String)
        ensures
            s@ == self@.spec_render(),
    {
        let mut s = self.material.label().to_owned();
        s.append(" ");
        s.append(self.name.as_str());
        s
    }
}

/// The suit as a list writes it: a heading, then the pieces separated by
/// commas, on a line of their own.
pub open spec fn render_suit(pieces: Seq<ArmorView>) -> Seq<char> {
    "Items:\n"@ + joined(pieces.map_values(|p: ArmorView| p.spec_render()), ", "@) + "\n"@
}

impl ArmorSet {
    /// The suit as a list writes it.
    pub fn render(&self) -> (s: String)
        ensures
            s@ == render_suit(self@),
    {
        let mut body = String::new();
        let mut i: usize = 0;
        while i < self.0.len()
            invariant
                i <= self.0@.len(),
                body@ == joined(
                    self@.take(i as int).map_values(|p: ArmorView| p.spec_render()),
                    ", "@,
                ),
            decreases self.0@.len() - i,
        {
            let part = self.0[i].render();
            proof {
                let before = self@.take(i as int).map_values(|p: ArmorView| p.spec_render());
                assert(self@.take(i + 1).map_values(|p: ArmorView| p.spec_render()) =~= before.push(
                    part@,
                ));
                lemma_joined_push(before, ", "@, part@);
            }
            if i > 0 {
                body.append(", ");
            }
            body.append(part.as_str());
            i = i + 1;
        }
        assert(self@.take(self.0@.len() as int) =~= self@);
        let mut s = "Items:\n".to_owned();
        s.append(body.as_str());
        s.append("\n");
        s
    }
}

} // verus!

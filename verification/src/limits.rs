//! Checks, made before the work, that a test or a sheet stays within the
//! arithmetic the rules use; callers that cannot prove the bounds ask here.
use vstd::prelude::*;

use crate::being::{
    AttackRolls, Being, Injury, Location, Zone, blow_fits, blow_fits_any_stars, existing_shock, protection_fits,
    worst_pick,
};
use crate::core_rules::{
    Attribute, Skill, Testable, as_signed, blocked, blocks, impairment, penalty, to_signed,
    zone_listed,
};
use crate::item::{
    Aspect, DefenseOption, Inventory, Item, Mode, ProjectileShaft, covers_count, item_protection,
    lemma_covers_count_grows, lemma_item_protection_nonneg, total_protection,
};

verus! {

/// The impairment of the first `n` injuries never exceeds that of all.
proof fn lemma_impairment_prefix(injuries: Seq<Injury>, zones: Seq<Zone>, n: int)
    requires
        0 <= n <= injuries.len(),
    ensures
        0 <= impairment(injuries.take(n), zones) <= impairment(injuries, zones),
    decreases injuries.len(),
{
    if n == injuries.len() {
        assert(injuries.take(n) =~= injuries);
        if injuries.len() > 0 {
            lemma_impairment_prefix(injuries.drop_last(), zones, n - 1);
            assert(injuries.drop_last().take(n - 1) =~= injuries.drop_last());
        }
    } else {
        assert(injuries.take(n) =~= injuries.drop_last().take(n));
        lemma_impairment_prefix(injuries.drop_last(), zones, n);
    }
}

/// The impairment of the injuries, counted up to 2^31, and whether one of
/// them blocks the faculty.
fn impairment_capped(injuries: &Vec<Injury>, zones: &Vec<Zone>) -> (r: (u64, bool))
    ensures
        r.0 == (if impairment(injuries@, zones@) < 0x8000_0000 {
            impairment(injuries@, zones@)
        } else {
            0x8000_0000
        }),
        r.1 == blocked(injuries@, zones@),
{
    let mut total: u64 = 0;
    let mut block = false;
    let mut i: usize = 0;
    while i < injuries.len()
        invariant
            i <= injuries@.len(),
            total == (if impairment(injuries@.take(i as int), zones@) < 0x8000_0000 {
                impairment(injuries@.take(i as int), zones@)
            } else {
                0x8000_0000
            }),
            block == blocked(injuries@.take(i as int), zones@),
        decreases injuries@.len() - i,
    {
        let x = injuries[i];
        let ghost t = injuries@.take(i + 1);
        proof {
            assert(t.drop_last() =~= injuries@.take(i as int));
            assert(t.last() == x);
            lemma_impairment_prefix(t, zones@, i as int);
            assert(t.take(i as int) =~= injuries@.take(i as int));
        }
        let mut p: u64 = 0;
        if zone_listed(zones, x.location.zone()) {
            if x.shock > 3 {
                block = true;
            } else if x.shock > 1 {
                p = 10;
            } else {
                p = 5;
            }
        }
        proof {
            assert(p == penalty(x, zones@));
            if blocked(t, zones@) && !blocked(injuries@.take(i as int), zones@) {
                let k = choose|k: int| 0 <= k < t.len() && blocks(#[trigger] t[k], zones@);
                if k < i {
                    assert(injuries@.take(i as int)[k] == t[k]);
                }
            }
            if blocked(injuries@.take(i as int), zones@) {
                let k = choose|k: int|
                    0 <= k < i && blocks(#[trigger] injuries@.take(i as int)[k], zones@);
                assert(t[k] == injuries@.take(i as int)[k]);
            }
            if zones@.contains(x.location.spec_zone()) && x.shock > 3 {
                assert(blocks(t[i as int], zones@));
            }
        }
        total = if total + p < 0x8000_0000 {
            total + p
        } else {
            0x8000_0000
        };
        i = i + 1;
    }
    proof {
        assert(injuries@.take(injuries@.len() as int) =~= injuries@);
    }
    (total, block)
}

impl Being {
    /// Whether a test on `test` under `modifier` can be rolled: its mastery
    /// level and its effective mastery level can be worked out.
    pub fn can_test<T: Testable>(&self, test: &T, modifier: i32) -> (b: bool)
        ensures
            b == self.test_fits(test, modifier as int),
    {
        let ml = match test.ml_checked(self) {
            Some(m) => m,
            None => return false,
        };
        let zones = test.impaired_by();
        let (total, block) = impairment_capped(&self.injuries, &zones);
        if total > 0x7fff_ffff {
            return false;
        }
        if block {
            return true;
        }
        let signed: i64 = if ml < 128 {
            ml as i64
        } else {
            ml as i64 - 256
        };
        let raw: i64 = signed + modifier as i64;
        let reduced: i64 = raw - total as i64;
        proof {
            assert(signed == as_signed(ml));
        }
        -0x8000_0000 <= raw && raw <= 0x7fff_ffff && -0x8000_0000 <= reduced && reduced
            <= 0x7fff_ffff
    }
}

/// The protection of a list of items never falls below nothing, and that of
/// the first `n` never exceeds that of all.
proof fn lemma_protection_prefix(items: Seq<Item>, location: Location, aspect: Aspect, n: int)
    requires
        0 <= n <= items.len(),
    ensures
        0 <= total_protection(items.take(n), location, aspect) <= total_protection(
            items,
            location,
            aspect,
        ),
    decreases items.len(),
{
    if items.len() > 0 {
        lemma_item_protection_nonneg(items.last(), location, aspect);
        if n == items.len() {
            assert(items.take(n) =~= items);
            lemma_protection_prefix(items.drop_last(), location, aspect, n - 1);
            assert(items.drop_last().take(n - 1) =~= items.drop_last());
        } else {
            assert(items.take(n) =~= items.drop_last().take(n));
            lemma_protection_prefix(items.drop_last(), location, aspect, n);
        }
    } else {
        assert(items.take(n) =~= items);
    }
}

impl Inventory {
    /// Whether the protection at a location against an aspect can be
    /// summed item by item in an `i8`.
    pub fn protection_fits_check(&self, location: Location, aspect: Aspect) -> (b: bool)
        ensures
            b == (forall|n: int|
                0 <= n <= self.0@.len() ==> -128 <= #[trigger] total_protection(
                    self.0@.take(n),
                    location,
                    aspect,
                ) <= 127),
    {
        let mut acc: i64 = 0;
        let mut i: usize = 0;
        while i < self.0.len()
            invariant
                i <= self.0@.len(),
                acc == total_protection(self.0@.take(i as int), location, aspect),
                0 <= acc <= 127,
            decreases self.0@.len() - i,
        {
            let ghost before = acc as int;
            proof {
                assert(self.0@.take(i + 1).drop_last() =~= self.0@.take(i as int));
                assert(self.0@.take(i + 1).last() == self.0@[i as int]);
                lemma_item_protection_nonneg(self.0@[i as int], location, aspect);
            }
            if let Item::Armor { material, covers, .. } = &self.0[i] {
                let av = material.av_for(aspect);
                let mut j: usize = 0;
                let mut part: i64 = 0;
                proof {
                    assert(covers@.take(0) =~= Seq::<Location>::empty());
                    assert(item_protection(self.0@[i as int], location, aspect) == covers_count(
                        covers@,
                        location,
                    ) * av);
                    assert(total_protection(self.0@.take(i + 1), location, aspect) == before
                        + item_protection(self.0@[i as int], location, aspect));
                }
                while j < covers.len()
                    invariant
                        j <= covers@.len(),
                        0 <= av <= 11,
                        part == covers_count(covers@.take(j as int), location) * av,
                        0 <= part,
                        acc + part <= 127,
                        0 <= before <= 127,
                        acc == before,
                        i < self.0@.len(),
                        item_protection(self.0@[i as int], location, aspect) == covers_count(
                            covers@,
                            location,
                        ) * av,
                        total_protection(self.0@.take(i + 1), location, aspect) == before
                            + item_protection(self.0@[i as int], location, aspect),
                    decreases covers@.len() - j,
                {
                    proof {
                        assert(covers@.take(j + 1).drop_last() =~= covers@.take(j as int));
                        assert(covers@.take(j + 1).last() == covers@[j as int]);
                        let c0 = covers_count(covers@.take(j as int), location);
                        assert((c0 + 1) * av == c0 * av + av) by (nonlinear_arith);
                    }
                    if covers[j] == location {
                        part = part + av as i64;
                    }
                    j = j + 1;
                    if acc + part > 127 {
                        proof {
                            lemma_covers_count_grows(covers@, location, j as int);
                            let c = covers_count(covers@.take(j as int), location);
                            let call = covers_count(covers@, location);
                            assert(c * av <= call * av) by (nonlinear_arith)
                                requires
                                    c <= call,
                                    av >= 0,
                            ;
                            assert(total_protection(self.0@.take(i + 1), location, aspect) > 127);
                        }
                        return false;
                    }
                }
                proof {
                    assert(covers@.take(covers@.len() as int) =~= covers@);
                }
                acc = acc + part;
            }
            i = i + 1;
        }
        proof {
            assert(self.0@.take(self.0@.len() as int) =~= self.0@);
            assert forall|n: int| 0 <= n <= self.0@.len() implies -128 <= #[trigger] total_protection(
                self.0@.take(n),
                location,
                aspect,
            ) <= 127 by {
                lemma_protection_prefix(self.0@, location, aspect, n);
            }
        }
        true
    }
}

/// Every hit location, of humans and of beasts.
pub fn all_locations() -> (v: Vec<Location>)
    ensures
        forall|l: Location| v@.contains(l),
{
    let v = vec![
        Location::Skull,
        Location::Face,
        Location::Abdomen,
        Location::Knee,
        Location::LowerArm,
        Location::Calf,
        Location::Ear,
        Location::LowerLeg,
        Location::Elbow,
        Location::Neck,
        Location::Pelvis,
        Location::FrontFoot,
        Location::Quarter,
        Location::FrontLeg,
        Location::Shoulder,
        Location::Flank,
        Location::Thigh,
        Location::Forearm,
        Location::Tail,
        Location::Foot,
        Location::Trunk,
        Location::Hand,
        Location::Thorax,
        Location::HindLeg,
        Location::UpperArm,
        Location::HindFoot,
        Location::UpperLeg,
        Location::Horn,
        Location::Wing,
        Location::Head,
        Location::Arm,
        Location::Torso,
        Location::Leg,
    ];
    proof {
        assert forall|l: Location| v@.contains(l) by {
            match l {
                Location::Skull => assert(v@[0] == l),
                Location::Face => assert(v@[1] == l),
                Location::Abdomen => assert(v@[2] == l),
                Location::Knee => assert(v@[3] == l),
                Location::LowerArm => assert(v@[4] == l),
                Location::Calf => assert(v@[5] == l),
                Location::Ear => assert(v@[6] == l),
                Location::LowerLeg => assert(v@[7] == l),
                Location::Elbow => assert(v@[8] == l),
                Location::Neck => assert(v@[9] == l),
                Location::Pelvis => assert(v@[10] == l),
                Location::FrontFoot => assert(v@[11] == l),
                Location::Quarter => assert(v@[12] == l),
                Location::FrontLeg => assert(v@[13] == l),
                Location::Shoulder => assert(v@[14] == l),
                Location::Flank => assert(v@[15] == l),
                Location::Thigh => assert(v@[16] == l),
                Location::Forearm => assert(v@[17] == l),
                Location::Tail => assert(v@[18] == l),
                Location::Foot => assert(v@[19] == l),
                Location::Trunk => assert(v@[20] == l),
                Location::Hand => assert(v@[21] == l),
                Location::Thorax => assert(v@[22] == l),
                Location::HindLeg => assert(v@[23] == l),
                Location::UpperArm => assert(v@[24] == l),
                Location::HindFoot => assert(v@[25] == l),
                Location::UpperLeg => assert(v@[26] == l),
                Location::Horn => assert(v@[27] == l),
                Location::Wing => assert(v@[28] == l),
                Location::Head => assert(v@[29] == l),
                Location::Arm => assert(v@[30] == l),
                Location::Torso => assert(v@[31] == l),
                Location::Leg => assert(v@[32] == l),
            }
        }
    }
    v
}

/// The injury with the same location and severity, of blunt aspect and
/// not bleeding.
pub open spec fn plain_injury(injury: Injury) -> Injury {
    Injury { location: injury.location, shock: injury.shock, aspect: Aspect::Blunt, bleed: false }
}

/// Two lists that agree on every location and severity pick the same place
/// to compound, and a pick of the same location and severity.
proof fn lemma_pick_ignores_aspect(a: Seq<Injury>, b: Seq<Injury>, location: Location, n: nat)
    requires
        a.len() == b.len(),
        a.len() > 0,
        n <= a.len(),
        forall|k: int|
            0 <= k < a.len() ==> (#[trigger] a[k]).location == b[k].location && a[k].shock
                == b[k].shock,
    ensures
        worst_pick(a, location, n).0 == worst_pick(b, location, n).0,
        worst_pick(a, location, n).1.shock == worst_pick(b, location, n).1.shock,
        worst_pick(a, location, n).1.location == worst_pick(b, location, n).1.location,
    decreases n,
{
    if n > 0 {
        lemma_pick_ignores_aspect(a, b, location, (n - 1) as nat);
        assert(a[n - 1].location == b[n - 1].location);
    } else {
        assert(a[a.len() - 1].location == b[b.len() - 1].location);
    }
}

impl Being {
    /// Whether a shock roll for an injury stays within the arithmetic of
    /// the rules.
    pub fn shock_fits_check(&self, injury: Injury) -> (b: bool)
        ensures
            b == self.shock_fits(injury),
    {
        match self.body.select(injury.location) {
            Some(e) => {
                let total: i16 = e.shock as i16 + injury.shock as i16;
                -127 <= total && total <= 125 && Skill::Shock.ml_checked(self).is_some()
            },
            None => true,
        }
    }

    /// Only the location and severity of an injury matter to whether it can
    /// be recorded.
    proof fn lemma_injure_fits_plain(&self, injury: Injury)
        ensures
            self.injure_fits(injury) == self.injure_fits(plain_injury(injury)),
    {
        let p = plain_injury(injury);
        let a = self.injuries@.push(injury);
        let b = self.injuries@.push(p);
        assert forall|k: int| 0 <= k < a.len() implies (#[trigger] a[k]).location == b[k].location
            && a[k].shock == b[k].shock by {
            if k < self.injuries@.len() {
                assert(a[k] == self.injuries@[k] && b[k] == self.injuries@[k]);
            }
        }
        lemma_pick_ignores_aspect(a, b, injury.location, a.len());
        let i = worst_pick(a, injury.location, a.len()).0;
        assert(worst_pick(b, p.location, b.len()).0 == i);
        lemma_pick_index(a, injury.location);
        lemma_pick_index(b, p.location);
        assert(a[i].location == b[i].location && a[i].shock == b[i].shock);
        assert(a[i].spec_compounded().location == b[i].spec_compounded().location);
        assert(a[i].spec_compounded().shock == b[i].spec_compounded().shock);
    }

    /// Whether recording an injury stays within the arithmetic of the
    /// rules.
    pub fn injure_fits_check(&self, injury: Injury) -> (b: bool)
        ensures
            b == self.injure_fits(injury),
    {
        let location = injury.location;
        let n0 = self.injuries.len();
        let mut existing: i64 = 0;
        let mut k: usize = 0;
        assert(existing_shock(self.injuries@.take(0), location) == 0);
        while k < n0
            invariant
                k <= n0,
                n0 == self.injuries@.len(),
                existing == existing_shock(self.injuries@.take(k as int), location),
                location == injury.location,
                -128 <= existing <= 127,
                forall|m: int|
                    0 <= m <= k ==> -128 <= #[trigger] existing_shock(
                        self.injuries@.take(m),
                        location,
                    ) <= 127,
            decreases n0 - k,
        {
            proof {
                assert(self.injuries@.take(k + 1).drop_last() =~= self.injuries@.take(k as int));
                assert(self.injuries@.take(k + 1).last() == self.injuries@[k as int]);
            }
            if self.injuries[k].location == location {
                existing = existing + self.injuries[k].shock as i64;
            }
            k = k + 1;
            proof {
                assert(existing == existing_shock(self.injuries@.take(k as int), location));
            }
            if existing < -128 || existing > 127 {
                proof {
                    let bad = k as int;
                    let e = existing_shock(self.injuries@.take(bad), injury.location);
                    assert(e < -128 || e > 127);
                }
                return false;
            }
        }
        proof {
            assert(self.injuries@.take(n0 as int) =~= self.injuries@);
        }
        if existing > 0 && (injury.shock as i64 + existing < -128 || injury.shock as i64
            + existing > 127) {
            return false;
        }
        if !self.shock_fits_check(injury) {
            return false;
        }
        let ghost pushed = self.injuries@.push(injury);
        let mut index: usize = 0;
        let mut highest: Injury = injury;
        let mut j: usize = 0;
        proof {
            assert(pushed.last() == injury);
        }
        while j < n0
            invariant
                j <= n0,
                n0 == self.injuries@.len(),
                pushed == self.injuries@.push(injury),
                (index as int, highest) == worst_pick(pushed, location, j as nat),
            decreases n0 - j,
        {
            let x = self.injuries[j];
            assert(x == pushed[j as int]);
            if x.location == location && x.shock >= highest.shock {
                index = j;
                highest = x;
            }
            j = j + 1;
        }
        assert(injury == pushed[n0 as int]);
        if injury.location == location && injury.shock >= highest.shock {
            index = n0;
            highest = injury;
        }
        assert((index as int, highest) == worst_pick(pushed, location, pushed.len()));
        proof {
            lemma_pick_index(pushed, location);
        }
        let mut worse = if index < n0 {
            self.injuries[index]
        } else {
            injury
        };
        assert(worse == pushed[index as int]);
        worse.compound();
        self.shock_fits_check(worse)
    }
}

/// The pick always names a place in the list.
proof fn lemma_pick_index(injuries: Seq<Injury>, location: Location)
    requires
        injuries.len() > 0,
    ensures
        0 <= worst_pick(injuries, location, injuries.len()).0 < injuries.len(),
{
    lemma_pick_bound(injuries, location, injuries.len());
}

proof fn lemma_pick_bound(injuries: Seq<Injury>, location: Location, n: nat)
    requires
        injuries.len() > 0,
        n <= injuries.len(),
    ensures
        0 <= worst_pick(injuries, location, n).0 < injuries.len(),
        n > 0 ==> worst_pick(injuries, location, n).0 < n,
    decreases n,
{
    if n > 0 {
        lemma_pick_bound(injuries, location, (n - 1) as nat);
    }
}

impl Being {
    /// Whether every injury of severity 1 to 5 could be recorded.
    pub fn every_injury_fits(&self) -> (b: bool)
        ensures
            b == (forall|i: Injury| 1 <= i.shock <= 5 ==> #[trigger] self.injure_fits(i)),
    {
        let locations = all_locations();
        let mut m: usize = 0;
        while m < locations.len()
            invariant
                m <= locations@.len(),
                forall|l: Location| locations@.contains(l),
                forall|k: int, s: i8|
                    0 <= k < m && 1 <= s <= 5 ==> self.injure_fits(
                        #[trigger] plain_injury(Injury { location: locations@[k], shock: s, aspect: Aspect::Blunt, bleed: false }),
                    ),
            decreases locations@.len() - m,
        {
            let l = locations[m];
            let mut s: i8 = 1;
            while s <= 5
                invariant
                    1 <= s <= 6,
                    m < locations@.len(),
                    l == locations@[m as int],
                    forall|k: int, t: i8|
                        0 <= k < m && 1 <= t <= 5 ==> self.injure_fits(
                            #[trigger] plain_injury(Injury { location: locations@[k], shock: t, aspect: Aspect::Blunt, bleed: false }),
                        ),
                    forall|t: i8|
                        1 <= t < s ==> self.injure_fits(
                            #[trigger] plain_injury(Injury { location: l, shock: t, aspect: Aspect::Blunt, bleed: false }),
                        ),
                decreases 6 - s,
            {
                let candidate = Injury { location: l, shock: s, aspect: Aspect::Blunt, bleed: false };
                if !self.injure_fits_check(candidate) {
                    proof {
                        self.lemma_injure_fits_plain(candidate);
                    }
                    return false;
                }
                proof {
                    assert(plain_injury(candidate) == candidate);
                }
                s = s + 1;
            }
            m = m + 1;
        }
        proof {
            assert forall|i: Injury| 1 <= i.shock <= 5 implies #[trigger] self.injure_fits(i) by {
                self.lemma_injure_fits_plain(i);
                assert(locations@.contains(i.location));
                let k = choose|k: int| 0 <= k < locations@.len() && locations@[k] == i.location;
                let p = Injury { location: locations@[k], shock: i.shock, aspect: Aspect::Blunt, bleed: false };
                assert(plain_injury(p) == plain_injury(i));
                assert(self.injure_fits(plain_injury(p)));
            }
        }
        true
    }
}

/// Whether the protection of an inventory against an aspect can be summed
/// in an `i8` at every location.
pub fn protection_fits_everywhere(inventory: &Inventory, aspect: Aspect) -> (b: bool)
    ensures
        b == (forall|l: Location| #[trigger] protection_fits(*inventory, l, aspect)),
{
    let locations = all_locations();
    let mut m: usize = 0;
    while m < locations.len()
        invariant
            m <= locations@.len(),
            forall|l: Location| locations@.contains(l),
            forall|k: int| 0 <= k < m ==> #[trigger] protection_fits(*inventory, locations@[k], aspect),
        decreases locations@.len() - m,
    {
        if !inventory.protection_fits_check(locations[m], aspect) {
            assert(!protection_fits(*inventory, locations@[m as int], aspect));
            return false;
        }
        m = m + 1;
    }
    proof {
        assert forall|l: Location| #[trigger] protection_fits(*inventory, l, aspect) by {
            assert(locations@.contains(l));
            let k = choose|k: int| 0 <= k < locations@.len() && locations@[k] == l;
            assert(protection_fits(*inventory, locations@[k], aspect));
        }
    }
    true
}

/// Whether a blow stays within the arithmetic of the rules.
fn blow_fits_check(die: i32, str_mod: i32, bonus: u32) -> (b: bool)
    requires
        -256 <= die <= 256,
        -256 <= str_mod <= 256,
    ensures
        b == blow_fits(die as int, str_mod as int, bonus as int),
{
    if bonus > 255 {
        return false;
    }
    let signed = to_signed(bonus as u8) as i32;
    -128 <= 1 + str_mod && die + str_mod <= 127 && -128 <= 1 + str_mod + signed && die + str_mod
        + signed <= 127
}

/// Whether a blow stays within the arithmetic for 0 to 3 victory stars.
fn blow_fits_any_stars_check(die: i32, str_mod: i32, per_star: u8) -> (b: bool)
    requires
        -256 <= die <= 256,
        -256 <= str_mod <= 256,
    ensures
        b == blow_fits_any_stars(die as int, str_mod as int, per_star),
{
    let p = per_star as u32;
    blow_fits_check(die, str_mod, 0) && blow_fits_check(die, str_mod, p) && blow_fits_check(
        die,
        str_mod,
        2 * p,
    ) && blow_fits_check(die, str_mod, 3 * p)
}

impl Being {
    /// Whether the heft penalty of a mode can be worked out in an `i8`.
    pub fn heft_mod_fits_check(&self, mode: Mode) -> (b: bool)
        ensures
            b == self.heft_mod_fits(mode),
    {
        let hands: i32 = if self.hands_full() > 1 {
            -5
        } else {
            0
        };
        let heft: i32 = to_signed(mode.heft()) as i32 + hands;
        let strength: i32 = to_signed(self.attribute(Attribute::Strength)) as i32;
        if heft < -128 || heft > 127 {
            return false;
        }
        if strength >= heft {
            return true;
        }
        let over: i32 = heft - strength;
        assert(0 < over <= 255);
        -128 <= over * -5
    }

    /// Whether a defence test stays within the arithmetic of the rules.
    pub fn defense_fits_check(
        &self,
        defense: DefenseOption,
        mode: Mode,
        def_mod: i8,
        reach_penalty: i8,
    ) -> (b: bool)
        ensures
            b == defense.test_fits(self, mode, def_mod, reach_penalty),
    {
        if !self.heft_mod_fits_check(mode) {
            return false;
        }
        let heft = match self.heft_mod(mode) {
            Some(h) => h as i32,
            None => 0,
        };
        let basic: i32 = mode.defense_mod() as i32 + heft;
        let total: i32 = basic + def_mod as i32;
        if basic < -128 || basic > 127 || total < -128 || total > 127 {
            return false;
        }
        match defense {
            DefenseOption::Dodge => self.can_test(&Skill::Dodge, total),
            DefenseOption::Block => self.can_test(&Skill::Melee, total),
            DefenseOption::Counterstrike => self.can_test(&Skill::Melee, total - reach_penalty as i32),
        }
    }

    /// Whether a melee attack that gets past its checks of hands and reach
    /// stays within the arithmetic of the rules, whatever the rolls.
    pub fn melee_fits_check(
        &self,
        target: &Being,
        aim_zone: u8,
        atk_mode: Mode,
        defense: DefenseOption,
        def_mode: Mode,
        atk_mod: i8,
        def_mod: i8,
    ) -> (b: bool)
        ensures
            b == self.melee_fits(target, aim_zone, atk_mode, defense, def_mode, atk_mod, def_mod),
    {
        match atk_mode {
            Mode::Melee { aspect, zone_die, impact_die, impact_mod, length, .. } => {
                if let Mode::Melee { length: other, .. } = def_mode {
                    let diff: i32 = to_signed(length) as i32 - to_signed(other) as i32;
                    if diff < -128 || diff > 127 || diff * 5 < -128 || diff * 5 > 127 {
                        return false;
                    }
                }
                if !self.heft_mod_fits_check(atk_mode) {
                    return false;
                }
                let heft = match self.heft_mod(atk_mode) {
                    Some(h) => h as i32,
                    None => 0,
                };
                let (atk_r, def_r) = atk_mode.reach_diff(def_mode);
                let first: i32 = atk_mod as i32 + heft;
                let second: i32 = first + atk_r as i32;
                if first < -128 || first > 127 || second < -128 || second > 127 {
                    return false;
                }
                if !target.defense_fits_check(defense, def_mode, def_mod, def_r) {
                    return false;
                }
                if !self.can_test(&Skill::Melee, second) {
                    return false;
                }
                if aim_zone < 1 || zone_die < 1 || zone_die as u16 + aim_zone as u16 - 1 > 255
                    || impact_die < 1 || def_mode.impact_die() < 1 {
                    return false;
                }
                if to_signed(self.attribute(Attribute::Strength)) < 1 || to_signed(
                    target.attribute(Attribute::Strength),
                ) < 1 {
                    return false;
                }
                let own = self.str_mod() as i32;
                let theirs = target.str_mod() as i32;
                blow_fits_any_stars_check(impact_die as i32, own, impact_mod)
                    && blow_fits_any_stars_check(def_mode.impact_die() as i32, theirs, def_mode.impact_mod())
                    && protection_fits_everywhere(&target.inventory, aspect)
                    && protection_fits_everywhere(&target.inventory, def_mode.aspect())
                    && protection_fits_everywhere(&self.inventory, def_mode.aspect())
                    && target.every_injury_fits() && self.every_injury_fits()
            },
            _ => true,
        }
    }
}

/// Whether the impact of a missile of this item can be computed under a
/// modifier for every face of its die.
fn impact_fits_check(item: &Item, modifier: i8) -> (b: bool)
    ensures
        b == item.impact_fits(modifier),
{
    match item {
        Item::Ammo { shaft, .. } => {
            let die: i16 = match shaft {
                ProjectileShaft::Heavy => 12,
                ProjectileShaft::Light => 8,
            };
            die + modifier as i16 <= 127
        },
        _ => true,
    }
}

impl Being {
    /// Whether a missile attack that gets past its check of hands stays
    /// within the arithmetic of the rules, whatever the rolls.
    pub fn missile_fits_check(
        &self,
        target: &Being,
        range: u16,
        aim_zone: u8,
        atk_mode: Mode,
        ammo: &Option<Item>,
    ) -> (b: bool)
        ensures
            b == self.missile_fits(target, range, aim_zone, atk_mode, *ammo),
    {
        match atk_mode {
            Mode::Range { base_range, impact_mod, .. } => {
                let base = base_range as u32;
                let value = range as u32;
                if (value > base && base * 2 > 65535) || (value > base * 2 && base * 3 > 65535) || (
                value > base * 3 && base * 4 > 65535) {
                    return false;
                }
                let band = atk_mode.calc_range(range);
                let m = match band.test_mod() {
                    Some(m) => m,
                    None => return true,
                };
                let rim: i32 = match band.impact_mod() {
                    Some(r) => r as i32,
                    None => 0,
                };
                let zone_die: u16 = match band.zone_die() {
                    Some(z) => z as u16,
                    None => 0,
                };
                if !self.can_test(&Skill::Archery, m) {
                    return false;
                }
                if zone_die + aim_zone as u16 > 255 || 2 * impact_mod as u16 > 255 {
                    return false;
                }
                let single: i32 = rim + to_signed(impact_mod) as i32;
                let double: i32 = rim + to_signed(2 * impact_mod) as i32;
                if single < -128 || single > 127 || double < -128 || double > 127 {
                    return false;
                }
                if let Some(a) = ammo {
                    if !impact_fits_check(a, single as i8) || !impact_fits_check(a, double as i8) {
                        return false;
                    }
                }
                protection_fits_everywhere(&target.inventory, Aspect::Point)
                    && target.every_injury_fits()
            },
            _ => true,
        }
    }

    /// Whether an attack stays within the arithmetic of the rules, whatever
    /// the rolls.
    pub fn attack_fits_check(
        &self,
        target: &Being,
        range: u16,
        aim_zone: u8,
        atk_mode: Mode,
        ammo: &Option<Item>,
        defense: DefenseOption,
        def_mode: Mode,
        atk_mod: i8,
        def_mod: i8,
    ) -> (b: bool)
        ensures
            b == self.attack_fits(
                target,
                range,
                aim_zone,
                atk_mode,
                *ammo,
                defense,
                def_mode,
                atk_mod,
                def_mod,
            ),
    {
        match atk_mode {
            Mode::Melee { two_hand, length, .. } => {
                let reach: u16 = if length < 5 {
                    5
                } else {
                    length as u16
                };
                (two_hand && self.hands_full() > 1) || range > reach || self.melee_fits_check(
                    target,
                    aim_zone,
                    atk_mode,
                    defense,
                    def_mode,
                    atk_mod,
                    def_mod,
                )
            },
            Mode::Range { two_hand, .. } => (two_hand && self.hands_full() > 1)
                || self.missile_fits_check(target, range, aim_zone, atk_mode, ammo),
        }
    }

    /// An attack, where it stays within the arithmetic of the rules: its
    /// outcome, or nothing (and no change) where it would not.
    pub fn try_attack(
        &mut self,
        target: &mut Being,
        range: u16,
        aim_zone: u8,
        atk_mode: Mode,
        ammo: Option<Item>,
        defense: DefenseOption,
        def_mode: Mode,
        atk_mod: i8,
        def_mod: i8,
    ) -> (r: Option<Option<Injury>>)
        ensures
            r is Some <==> old(self).attack_fits(
                old(target),
                range,
                aim_zone,
                atk_mode,
                ammo,
                defense,
                def_mode,
                atk_mod,
                def_mod,
            ),
            r is None ==> *final(self) == *old(self) && *final(target) == *old(target),
            r matches Some(outcome) ==> old(self).attack_outcome(
                *old(target),
                *final(self),
                *final(target),
                range,
                atk_mode,
                ammo,
                defense,
                outcome,
            ),
            r matches Some(outcome) ==> exists|rolls: AttackRolls|
                old(self).attack_rolls_fit(range, aim_zone, atk_mode, ammo, def_mode, rolls)
                    && #[trigger] old(self).attack_resolved(
                    *old(target),
                    *final(self),
                    *final(target),
                    range,
                    aim_zone,
                    atk_mode,
                    ammo,
                    defense,
                    def_mode,
                    atk_mod,
                    def_mod,
                    rolls,
                    outcome,
                ),
    {
        if !self.attack_fits_check(
            target,
            range,
            aim_zone,
            atk_mode,
            &ammo,
            defense,
            def_mode,
            atk_mod,
            def_mod,
        ) {
            return None;
        }
        Some(
            self.attack(
                target,
                range,
                aim_zone,
                atk_mode,
                ammo,
                defense,
                def_mode,
                atk_mod,
                def_mod,
            ),
        )
    }
}

} // verus!

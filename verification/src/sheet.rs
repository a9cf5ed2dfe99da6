//! The character sheet: a being's name and state, its attributes and skills
//! with their effective mastery levels, its inventory, and for each hit
//! location the protection, the chances of bleeding and amputation, the
//! shock and the injuries there.
use vstd::prelude::*;

use vstd::string::StringExecFns;

use crate::being::{
    Being, Injury, Location, LocationEntry, entry_for_location, row_locations, select_in_rows,
};
use crate::core_rules::{
    Attribute, Skill, append_column, append_row_head, column, present_attributes, row_head,
};
use crate::item::{Aspect, Item, total_protection};
use crate::text::{
    append_decimal, append_padded, append_signed, decimal, joined, lemma_joined_push, pad_to,
};

verus! {

/// The letter of an injury's severity: M for minor (1), S for serious (2 or
/// 3), G for grievous (4 or 5).
pub open spec fn severity_code(shock: i8) -> Seq<char> {
    if shock == 1 {
        "M"@
    } else if shock <= 3 {
        "S"@
    } else {
        "G"@
    }
}

impl Injury {
    /// The injury as a sheet writes it: the severity's letter and number,
    /// the aspect's letter, and BLD when it bleeds.
    pub open spec fn spec_render(self) -> Seq<char> {
        severity_code(self.shock) + decimal(self.shock as nat) + self.aspect.spec_letter() + if self.bleed {
            " BLD"@
        } else {
            Seq::empty()
        }
    }

    /// The injury as a sheet writes it.
    pub fn render(&self) -> (s: String)
        requires
            1 <= self.shock <= 5,
        ensures
            s@ == self.spec_render(),
    {
        let mut s = if self.shock == 1 {
            "M".to_owned()
        } else if self.shock <= 3 {
            "S".to_owned()
        } else {
            "G".to_owned()
        };
        append_decimal(&mut s, self.shock as u64);
        s.append(self.aspect.letter());
        if self.bleed {
            s.append(" BLD");
        }
        proof {
            assert(s@ =~= self.spec_render());
        }
        s
    }
}

/// The injuries at a location, in order.
pub open spec fn injuries_at(injuries: Seq<Injury>, location: Location) -> Seq<Injury> {
    injuries.filter(|x: Injury| x.location == location)
}

/// The injuries at a location, written one after another with commas.
pub open spec fn injury_list(injuries: Seq<Injury>, location: Location) -> Seq<char> {
    joined(injuries_at(injuries, location).map_values(|x: Injury| x.spec_render()), ", "@)
}

/// Whether a location lies in a list of entries, and if so its entry is
/// found there.
proof fn lemma_entry_found(entries: Seq<LocationEntry>, location: Location)
    ensures
        entries.map_values(|e: LocationEntry| e.location).contains(location) ==> entry_for_location(
            entries,
            location,
        ) is Some,
    decreases entries.len(),
{
    if entries.len() > 0 {
        let names = entries.map_values(|e: LocationEntry| e.location);
        let rest = entries.drop_first();
        lemma_entry_found(rest, location);
        if names.contains(location) && entries[0].location != location {
            let k = choose|k: int| 0 <= k < names.len() && names[k] == location;
            assert(k > 0);
            assert(rest.map_values(|e: LocationEntry| e.location)[k - 1] == location);
        }
    }
}

/// The locations of the rows are those of the first row and then those of
/// the rest.
proof fn lemma_row_locations_first(rows: Seq<(u8, Vec<LocationEntry>)>)
    requires
        rows.len() > 0,
    ensures
        row_locations(rows) == rows[0].1@.map_values(|e: LocationEntry| e.location) + row_locations(
            rows.drop_first(),
        ),
    decreases rows.len(),
{
    if rows.len() == 1 {
        assert(rows.drop_last() =~= Seq::<(u8, Vec<LocationEntry>)>::empty());
        assert(rows.drop_first() =~= Seq::<(u8, Vec<LocationEntry>)>::empty());
        assert(row_locations(rows) =~= rows[0].1@.map_values(|e: LocationEntry| e.location));
    } else {
        lemma_row_locations_first(rows.drop_last());
        assert(rows.drop_last().drop_first() =~= rows.drop_first().drop_last());
        assert(rows.drop_first().last() == rows.last());
        assert(rows.drop_last()[0] == rows[0]);
    }
}

/// Every location of a body type has an entry in it.
proof fn lemma_location_selected(rows: Seq<(u8, Vec<LocationEntry>)>, location: Location)
    requires
        row_locations(rows).contains(location),
    ensures
        select_in_rows(rows, location) is Some,
    decreases rows.len(),
{
    if rows.len() > 0 {
        lemma_row_locations_first(rows);
        let first = rows[0].1@.map_values(|e: LocationEntry| e.location);
        lemma_entry_found(rows[0].1@, location);
        if !first.contains(location) {
            let k = choose|k: int| 0 <= k < row_locations(rows).len() && row_locations(rows)[k] == location;
            assert(row_locations(rows.drop_first())[k - first.len()] == location);
            lemma_location_selected(rows.drop_first(), location);
        }
    }
}

/// The shock a location's entry adds, for a location of the body.
pub open spec fn entry_shock(rows: Seq<(u8, Vec<LocationEntry>)>, location: Location) -> i8 {
    match select_in_rows(rows, location) {
        Some(e) => e.shock,
        None => 0,
    }
}

impl Being {
    /// The first line of the sheet: the name, and the shock state in
    /// brackets when there is one.
    pub open spec fn sheet_header(&self) -> Seq<char> {
        self.name@ + match self.shock {
            Some(state) => " ["@ + state.spec_label() + "]"@,
            None => Seq::empty(),
        } + "\n"@
    }

    /// A row of the attribute table: name, value and effective mastery
    /// level.
    pub open spec fn attribute_row(&self, pair: (Attribute, u8)) -> Seq<char> {
        row_head(pair.0.spec_label()) + column(pair.1 as int) + " "@ + column(
            self.spec_test_eml(&pair.0, 0) as int,
        ) + "\n"@
    }

    /// A row of the skill table: name, level and effective mastery level.
    pub open spec fn skill_row(&self, pair: (Skill, u8)) -> Seq<char> {
        row_head(pair.0.spec_label()) + column(pair.1 as int) + " "@ + column(
            self.spec_test_eml(&pair.0, 0) as int,
        ) + "\n"@
    }

    pub open spec fn attribute_rows(&self, pairs: Seq<(Attribute, u8)>) -> Seq<char>
        decreases pairs.len(),
    {
        if pairs.len() == 0 {
            Seq::empty()
        } else {
            self.attribute_rows(pairs.drop_last()) + self.attribute_row(pairs.last())
        }
    }

    pub open spec fn skill_rows(&self, pairs: Seq<(Skill, u8)>) -> Seq<char>
        decreases pairs.len(),
    {
        if pairs.len() == 0 {
            Seq::empty()
        } else {
            self.skill_rows(pairs.drop_last()) + self.skill_row(pairs.last())
        }
    }

    /// A row of the location table: the location, its protection against
    /// the four aspects, its chance of bleeding, its shock, its chance of
    /// amputation, and the injuries there.
    pub open spec fn location_row(&self, location: Location) -> Seq<char> {
        pad_to(location.spec_label() + ":"@, 10) + self.protection_columns(location) + "  "@
            + self.location_marks(location) + "  "@ + injury_list(self.injuries@, location) + "\n"@
    }

    /// The protection of a location against blunt, edge, point and
    /// fire/frost, each after a space in two columns.
    pub open spec fn protection_columns(&self, location: Location) -> Seq<char> {
        let inv = self.inventory.0@;
        " "@ + column(total_protection(inv, location, Aspect::Blunt)) + " "@ + column(
            total_protection(inv, location, Aspect::Edge),
        ) + " "@ + column(total_protection(inv, location, Aspect::Point)) + " "@ + column(
            total_protection(inv, location, Aspect::FireFrost),
        )
    }

    /// The chance of bleeding, the shock and the chance of amputation of a
    /// location.
    pub open spec fn location_marks(&self, location: Location) -> Seq<char> {
        location.spec_bleed().spec_circle() + signed_decimal_of(entry_shock(self.body.0@, location))
            + location.spec_amputate().spec_triangle()
    }

    pub open spec fn location_rows(&self, locations: Seq<Location>) -> Seq<char>
        decreases locations.len(),
    {
        if locations.len() == 0 {
            Seq::empty()
        } else {
            self.location_rows(locations.drop_last()) + self.location_row(locations.last())
        }
    }

    /// The whole sheet.
    pub open spec fn spec_sheet(&self) -> Seq<char> {
        self.sheet_header() + "\nAttributes:\n"@ + self.attribute_rows(
            present_attributes(self.attributes@, 12),
        ) + "\nSkills:\n"@ + self.skill_rows(self.skills.entry_list()) + "\nInventory:\n"@ + joined(
            self.inventory.0@.map_values(|i: Item| i.spec_render()),
            ", "@,
        ) + "\n"@ + "\n            B  E  P  F  Shk\n"@ + self.location_rows(
            row_locations(self.body.0@),
        )
    }

    /// Whether the protection of a location against an aspect can be
    /// summed in an `i8`.
    pub open spec fn protection_fits(&self, location: Location, aspect: Aspect) -> bool {
        forall|n: int|
            0 <= n <= self.inventory.0@.len() ==> -128 <= #[trigger] total_protection(
                self.inventory.0@.take(n),
                location,
                aspect,
            ) <= 127
    }

    /// Whether the effective mastery level of every attribute held can be
    /// worked out.
    pub open spec fn attributes_fit(&self) -> bool {
        forall|a: Attribute| self.attributes@.dom().contains(a) ==> #[trigger] self.test_fits(&a, 0)
    }

    /// Whether the effective mastery level of every skill held can be
    /// worked out.
    pub open spec fn skills_fit(&self) -> bool {
        forall|i: int|
            0 <= i < self.skills.entry_list().len() ==> self.test_fits(
                &(#[trigger] self.skills.entry_list()[i]).0,
                0,
            )
    }

    /// Whether the row of a location can be written: its protection
    /// against each aspect can be summed, and the injuries there have a
    /// severity from 1 to 5.
    pub open spec fn location_fits(&self, location: Location) -> bool {
        &&& self.protection_fits(location, Aspect::Blunt)
        &&& self.protection_fits(location, Aspect::Edge)
        &&& self.protection_fits(location, Aspect::Point)
        &&& self.protection_fits(location, Aspect::FireFrost)
        &&& forall|i: int|
            0 <= i < self.injuries@.len() && (#[trigger] self.injuries@[i]).location == location
                ==> 1 <= self.injuries@[i].shock <= 5
    }

    /// Whether the sheet can be written: every effective mastery level can
    /// be worked out, and every row of a location of the body.
    pub open spec fn sheet_fits(&self) -> bool {
        &&& self.attributes_fit()
        &&& self.skills_fit()
        &&& forall|l: Location|
            row_locations(self.body.0@).contains(l) ==> #[trigger] self.location_fits(l)
    }
}

/// The decimal numeral of a shock value.
pub open spec fn signed_decimal_of(v: i8) -> Seq<char> {
    crate::text::signed_decimal(v as int)
}

impl Being {
    /// Writes the injuries at a location, separated by commas.
    fn append_injury_list(&self, s: &mut String, location: Location)
        requires
            forall|i: int|
                0 <= i < self.injuries@.len() && (#[trigger] self.injuries@[i]).location == location
                    ==> 1 <= self.injuries@[i].shock <= 5,
        ensures
            final(s)@ == old(s)@ + injury_list(self.injuries@, location),
    {
        let mut body = String::new();
        let mut first = true;
        let mut k: usize = 0;
        while k < self.injuries.len()
            invariant
                k <= self.injuries@.len(),
                body@ == joined(
                    injuries_at(self.injuries@.take(k as int), location).map_values(
                        |x: Injury| x.spec_render(),
                    ),
                    ", "@,
                ),
                first == (injuries_at(self.injuries@.take(k as int), location).len() == 0),
                forall|i: int|
                    0 <= i < self.injuries@.len() && (#[trigger] self.injuries@[i]).location
                        == location ==> 1 <= self.injuries@[i].shock <= 5,
            decreases self.injuries@.len() - k,
        {
            let x = self.injuries[k];
            let ghost before = injuries_at(self.injuries@.take(k as int), location);
            proof {
                assert(self.injuries@.take(k + 1).drop_last() =~= self.injuries@.take(k as int));
                assert(self.injuries@.take(k + 1).last() == x);
                reveal_with_fuel(Seq::filter, 1);
            }
            if x.location == location {
                let part = x.render();
                proof {
                    let parts = before.map_values(|y: Injury| y.spec_render());
                    assert(injuries_at(self.injuries@.take(k + 1), location) == before.push(x));
                    assert(before.push(x).map_values(|y: Injury| y.spec_render()) =~= parts.push(
                        part@,
                    ));
                    lemma_joined_push(parts, ", "@, part@);
                }
                if !first {
                    body.append(", ");
                }
                body.append(part.as_str());
                first = false;
            } else {
                proof {
                    assert(injuries_at(self.injuries@.take(k + 1), location) == before);
                }
            }
            k = k + 1;
        }
        proof {
            assert(self.injuries@.take(self.injuries@.len() as int) =~= self.injuries@);
        }
        s.append(body.as_str());
    }

    /// Writes a space and then the protection of a location against an
    /// aspect in two columns.
    fn append_protection_column(&self, s: &mut String, location: Location, aspect: Aspect)
        requires
            self.protection_fits(location, aspect),
        ensures
            final(s)@ == old(s)@ + " "@ + column(
                total_protection(self.inventory.0@, location, aspect),
            ),
    {
        s.append(" ");
        let p = self.inventory.protection(location, aspect);
        append_column(s, p as i64);
        proof {
            assert(s@ =~= old(s)@ + " "@ + column(
                total_protection(self.inventory.0@, location, aspect),
            ));
        }
    }

    /// Writes the protection columns of a location.
    fn append_protection_columns(&self, s: &mut String, location: Location)
        requires
            self.location_fits(location),
        ensures
            final(s)@ == old(s)@ + self.protection_columns(location),
    {
        self.append_protection_column(s, location, Aspect::Blunt);
        self.append_protection_column(s, location, Aspect::Edge);
        self.append_protection_column(s, location, Aspect::Point);
        self.append_protection_column(s, location, Aspect::FireFrost);
        proof {
            assert(s@ =~= old(s)@ + self.protection_columns(location));
        }
    }

    /// Writes the chances and the shock of a location of the body.
    fn append_location_marks(&self, s: &mut String, location: Location)
        requires
            row_locations(self.body.0@).contains(location),
        ensures
            final(s)@ == old(s)@ + self.location_marks(location),
    {
        proof {
            lemma_location_selected(self.body.0@, location);
        }
        s.append(location.bleed().circle());
        let entry = self.body.select(location).unwrap();
        append_signed(s, entry.shock as i64);
        s.append(location.amputate().triangle());
        proof {
            assert(s@ =~= old(s)@ + self.location_marks(location));
        }
    }

    /// Writes the row of the location table for one location of the body.
    fn append_location_row(&self, s: &mut String, location: Location)
        requires
            row_locations(self.body.0@).contains(location),
            self.location_fits(location),
        ensures
            final(s)@ == old(s)@ + self.location_row(location),
    {
        let mut name = location.label().to_owned();
        name.append(":");
        append_padded(s, name.as_str(), 10);
        self.append_protection_columns(s, location);
        s.append("  ");
        self.append_location_marks(s, location);
        s.append("  ");
        self.append_injury_list(s, location);
        s.append("\n");
        proof {
            assert(s@ =~= old(s)@ + self.location_row(location));
        }
    }

    /// Writes a row of the attribute table.
    fn append_attribute_row(&self, s: &mut String, pair: (Attribute, u8))
        requires
            self.test_fits(&pair.0, 0),
        ensures
            final(s)@ == old(s)@ + self.attribute_row(pair),
    {
        let eml = self.eml(&pair.0);
        append_row_head(s, pair.0.label());
        append_column(s, pair.1 as i64);
        s.append(" ");
        append_column(s, eml as i64);
        s.append("\n");
        proof {
            assert(s@ =~= old(s)@ + self.attribute_row(pair));
        }
    }

    /// Writes a row of the skill table.
    fn append_skill_row(&self, s: &mut String, skill: &Skill, level: u8)
        requires
            self.test_fits(skill, 0),
        ensures
            final(s)@ == old(s)@ + self.skill_row((*skill, level)),
    {
        let eml = self.eml(skill);
        let name = skill.label();
        append_row_head(s, name.as_str());
        append_column(s, level as i64);
        s.append(" ");
        append_column(s, eml as i64);
        s.append("\n");
        proof {
            assert(s@ =~= old(s)@ + self.skill_row((*skill, level)));
        }
    }

    /// The rows of the attribute table.
    fn attribute_table(&self) -> (s: String)
        requires
            self.attributes_fit(),
        ensures
            s@ == self.attribute_rows(present_attributes(self.attributes@, 12)),
    {
        let mut s = String::new();
        let pairs = self.attributes.pairs();
        let mut i: usize = 0;
        while i < pairs.len()
            invariant
                i <= pairs@.len(),
                pairs@ == present_attributes(self.attributes@, 12),
                forall|j: int|
                    0 <= j < pairs@.len() ==> self.attributes@.dom().contains(#[trigger] pairs@[j].0),
                self.attributes_fit(),
                s@ == self.attribute_rows(pairs@.take(i as int)),
            decreases pairs@.len() - i,
        {
            proof {
                assert(pairs@.take(i + 1).drop_last() =~= pairs@.take(i as int));
                assert(self.attributes@.dom().contains(pairs@[i as int].0));
                assert(self.test_fits(&pairs@[i as int].0, 0));
            }
            self.append_attribute_row(&mut s, pairs[i]);
            i = i + 1;
        }
        proof {
            assert(pairs@.take(pairs@.len() as int) =~= pairs@);
        }
        s
    }

    /// The rows of the skill table.
    fn skill_table(&self) -> (s: String)
        requires
            self.skills_fit(),
        ensures
            s@ == self.skill_rows(self.skills.entry_list()),
    {
        let mut s = String::new();
        let entries = self.skills.pairs();
        let mut i: usize = 0;
        while i < entries.len()
            invariant
                i <= entries@.len(),
                entries@ == self.skills.entry_list(),
                self.skills_fit(),
                s@ == self.skill_rows(entries@.take(i as int)),
            decreases entries@.len() - i,
        {
            proof {
                assert(entries@.take(i + 1).drop_last() =~= entries@.take(i as int));
                assert(self.test_fits(&self.skills.entry_list()[i as int].0, 0));
            }
            let entry = &entries[i];
            self.append_skill_row(&mut s, &entry.0, entry.1);
            i = i + 1;
        }
        proof {
            assert(entries@.take(entries@.len() as int) =~= entries@);
        }
        s
    }

    /// The inventory, items separated by commas.
    fn inventory_list(&self) -> (s: String)
        ensures
            s@ == joined(self.inventory.0@.map_values(|i: Item| i.spec_render()), ", "@),
    {
        let items = &self.inventory.0;
        let mut list = String::new();
        let mut i: usize = 0;
        while i < items.len()
            invariant
                i <= items@.len(),
                list@ == joined(
                    items@.take(i as int).map_values(|x: Item| x.spec_render()),
                    ", "@,
                ),
            decreases items@.len() - i,
        {
            let part = items[i].render();
            proof {
                let before = items@.take(i as int).map_values(|x: Item| x.spec_render());
                assert(items@.take(i + 1).map_values(|x: Item| x.spec_render()) =~= before.push(
                    part@,
                ));
                lemma_joined_push(before, ", "@, part@);
            }
            if i > 0 {
                list.append(", ");
            }
            list.append(part.as_str());
            i = i + 1;
        }
        proof {
            assert(items@.take(items@.len() as int) =~= items@);
        }
        list
    }

    /// The rows of the location table.
    fn location_table(&self) -> (s: String)
        requires
            forall|l: Location|
                row_locations(self.body.0@).contains(l) ==> #[trigger] self.location_fits(l),
        ensures
            s@ == self.location_rows(row_locations(self.body.0@)),
    {
        let mut s = String::new();
        let locations = self.body.locations();
        let mut i: usize = 0;
        while i < locations.len()
            invariant
                i <= locations@.len(),
                locations@ == row_locations(self.body.0@),
                forall|l: Location|
                    row_locations(self.body.0@).contains(l) ==> #[trigger] self.location_fits(l),
                s@ == self.location_rows(locations@.take(i as int)),
            decreases locations@.len() - i,
        {
            proof {
                assert(locations@.take(i + 1).drop_last() =~= locations@.take(i as int));
                assert(row_locations(self.body.0@).contains(locations@[i as int]));
                assert(self.location_fits(locations@[i as int]));
            }
            self.append_location_row(&mut s, locations[i]);
            i = i + 1;
        }
        proof {
            assert(locations@.take(locations@.len() as int) =~= locations@);
        }
        s
    }

    /// The character sheet: the name and shock state, the attributes and
    /// skills with their effective mastery levels, the inventory, and the
    /// table of hit locations.
    pub fn sheet(&self) -> (s: String)
        requires
            self.sheet_fits(),
        ensures
            s@ == self.spec_sheet(),
    {
        let mut s = self.name.clone();
        match self.shock {
            Some(state) => {
                s.append(" [");
                s.append(state.label());
                s.append("]");
            },
            None => {},
        }
        s.append("\n");
        proof {
            assert(s@ =~= self.sheet_header());
        }
        let attributes = self.attribute_table();
        let skills = self.skill_table();
        let inventory = self.inventory_list();
        let locations = self.location_table();
        s.append("\nAttributes:\n");
        s.append(attributes.as_str());
        s.append("\nSkills:\n");
        s.append(skills.as_str());
        s.append("\nInventory:\n");
        s.append(inventory.as_str());
        s.append("\n");
        s.append("\n            B  E  P  F  Shk\n");
        s.append(locations.as_str());
        proof {
            assert(s@ =~= self.spec_sheet());
        }
        s
    }
}

impl Being {
    /// Whether the injuries at a location all have a severity from 1 to 5.
    fn injuries_at_fit(&self, location: Location) -> (b: bool)
        ensures
            b == (forall|i: int|
                0 <= i < self.injuries@.len() && (#[trigger] self.injuries@[i]).location == location
                    ==> 1 <= self.injuries@[i].shock <= 5),
    {
        let mut k: usize = 0;
        while k < self.injuries.len()
            invariant
                k <= self.injuries@.len(),
                forall|i: int|
                    0 <= i < k && (#[trigger] self.injuries@[i]).location == location ==> 1
                        <= self.injuries@[i].shock <= 5,
            decreases self.injuries@.len() - k,
        {
            let x = self.injuries[k];
            if x.location == location && (x.shock < 1 || x.shock > 5) {
                assert(self.injuries@[k as int] == x);
                return false;
            }
            k = k + 1;
        }
        true
    }

    /// Whether the row of a location can be written.
    fn location_fits_check(&self, location: Location) -> (b: bool)
        ensures
            b == self.location_fits(location),
    {
        self.inventory.protection_fits_check(location, Aspect::Blunt)
            && self.inventory.protection_fits_check(location, Aspect::Edge)
            && self.inventory.protection_fits_check(location, Aspect::Point)
            && self.inventory.protection_fits_check(location, Aspect::FireFrost)
            && self.injuries_at_fit(location)
    }

    /// The character sheet, where it can be written: nothing where an
    /// effective mastery level or a protection would leave the arithmetic
    /// the rules use, or an injury on the body has a severity outside 1 to
    /// 5.
    pub fn try_sheet(&self) -> (r: Option<String>)
        ensures
            r is Some <==> self.sheet_fits(),
            r matches Some(s) ==> s@ == self.spec_sheet(),
    {
        let pairs = self.attributes.pairs();
        let mut i: usize = 0;
        while i < pairs.len()
            invariant
                i <= pairs@.len(),
                forall|j: int|
                    0 <= j < pairs@.len() ==> self.attributes@.dom().contains(#[trigger] pairs@[j].0),
                forall|a: Attribute|
                    self.attributes@.dom().contains(a) ==> exists|j: int|
                        0 <= j < pairs@.len() && #[trigger] pairs@[j].0 == a,
                forall|j: int| 0 <= j < i ==> self.test_fits(&(#[trigger] pairs@[j]).0, 0),
            decreases pairs@.len() - i,
        {
            let a = pairs[i].0;
            if !self.can_test(&a, 0) {
                return None;
            }
            i = i + 1;
        }
        proof {
            assert forall|a: Attribute| self.attributes@.dom().contains(a) implies #[trigger] self.test_fits(&a, 0) by {
                let j = choose|j: int| 0 <= j < pairs@.len() && #[trigger] pairs@[j].0 == a;
                assert(self.test_fits(&pairs@[j].0, 0));
            }
        }
        let entries = self.skills.pairs();
        let mut i: usize = 0;
        while i < entries.len()
            invariant
                i <= entries@.len(),
                entries@ == self.skills.entry_list(),
                self.attributes_fit(),
                forall|j: int| 0 <= j < i ==> self.test_fits(&(#[trigger] entries@[j]).0, 0),
            decreases entries@.len() - i,
        {
            if !self.can_test(&entries[i].0, 0) {
                return None;
            }
            i = i + 1;
        }
        let locations = self.body.locations();
        let mut i: usize = 0;
        while i < locations.len()
            invariant
                i <= locations@.len(),
                locations@ == row_locations(self.body.0@),
                self.attributes_fit(),
                self.skills_fit(),
                forall|j: int| 0 <= j < i ==> self.location_fits(#[trigger] locations@[j]),
            decreases locations@.len() - i,
        {
            if !self.location_fits_check(locations[i]) {
                return None;
            }
            i = i + 1;
        }
        proof {
            assert forall|l: Location| row_locations(self.body.0@).contains(l) implies #[trigger] self.location_fits(l) by {
                let j = choose|j: int| 0 <= j < locations@.len() && locations@[j] == l;
                assert(self.location_fits(locations@[j]));
            }
        }
        Some(self.sheet())
    }
}

} // verus!

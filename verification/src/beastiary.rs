//! Non-player characters with a single action base, and the full characters
//! they become.
use vstd::prelude::*;

use crate::armor::{ArmorSet, ArmorView};
use crate::being::{Injury, ShockState};
use crate::core_rules::{Attribute, AttributeSet, Skill, SkillKey, SkillSet};
use crate::date::Date;
use crate::weapons::{MeleeWeapon, Projectile, RangeWeapon};

verus! {

/// The folk a character belongs to.
#[derive(Debug, PartialEq, Eq, Structural, Clone, Copy)]
pub enum Folk {
    Human,
    Kuzhai,
    Aenarin,
    Sinai,
    Sidhe,
}

impl Default for Folk {
    fn default() -> (f: Folk)
        ensures
            f == Folk::Human,
    {
        Folk::Human
    }
}

#[derive(Debug, PartialEq, Eq, Structural, Clone, Copy)]
pub enum Gender {
    Male,
    Female,
}

impl Default for Gender {
    fn default() -> (g: Gender)
        ensures
            g == Gender::Male,
    {
        Gender::Male
    }
}

/// A non-player character: its action skills (initiative, shock, melee and
/// dodge) all stand at one action base, its other skills in a table.
#[derive(Debug, Clone)]
pub struct Npc {
    pub name: String,
    pub skills: SkillSet,
    pub action_base: u8,
    pub mh_weapon: Option<MeleeWeapon>,
    pub oh_weapon: Option<MeleeWeapon>,
    pub rg_weapon: Option<RangeWeapon>,
    pub ammo: Option<Projectile>,
    pub armor: ArmorSet,
    pub injuries: Vec<Injury>,
    pub shock_state: Option<ShockState>,
}

/// Whether a skill is one of the four that stand at the action base.
pub open spec fn is_action_skill(skill: Skill) -> bool {
    ||| skill is Initiative
    ||| skill is Shock
    ||| skill is Melee
    ||| skill is Dodge
}

/// A skill table with the four action skills set to `base`.
pub open spec fn with_action_skills(skills: Map<SkillKey, u8>, base: u8) -> Map<SkillKey, u8> {
    skills.insert(Skill::Initiative.key(), base).insert(Skill::Shock.key(), base).insert(
        Skill::Melee.key(),
        base,
    ).insert(Skill::Dodge.key(), base)
}

/// The level a skill table holds for a key, if any.
pub open spec fn lookup(skills: Map<SkillKey, u8>, key: SkillKey) -> Option<u8> {
    if skills.dom().contains(key) {
        Some(skills[key])
    } else {
        None
    }
}

impl Default for Npc {
    fn default() -> (n: Npc)
        ensures
            n.name@ == Seq::<char>::empty(),
            n.skills@ == Map::<SkillKey, u8>::empty(),
            n.action_base == 0,
            n.mh_weapon is None,
            n.oh_weapon is None,
            n.rg_weapon is None,
            n.ammo is None,
            n.armor@ == Seq::<ArmorView>::empty(),
            n.injuries@ == Seq::<Injury>::empty(),
            n.shock_state is None,
    {
        Npc {
            name: String::new(),
            skills: SkillSet::new(),
            action_base: 0,
            mh_weapon: None,
            oh_weapon: None,
            rg_weapon: None,
            ammo: None,
            armor: ArmorSet::default(),
            injuries: Vec::new(),
            shock_state: None,
        }
    }
}

impl Npc {
    /// The level the character has in a skill: the action base for an
    /// action skill, the table's entry otherwise.
    pub open spec fn spec_skill(&self, skill: Skill) -> Option<u8> {
        if is_action_skill(skill) {
            Some(self.action_base)
        } else {
            lookup(self.skills@, skill.key())
        }
    }

    /// Sets the level of a skill in the table.
    pub fn set_skill(&mut self, skill: Skill, value: u8)
        ensures
            final(self).skills@ == old(self).skills@.insert(skill.key(), value),
            final(self).name == old(self).name,
            final(self).action_base == old(self).action_base,
            final(self).mh_weapon == old(self).mh_weapon,
            final(self).oh_weapon == old(self).oh_weapon,
            final(self).rg_weapon == old(self).rg_weapon,
            final(self).ammo == old(self).ammo,
            final(self).armor == old(self).armor,
            final(self).injuries == old(self).injuries,
            final(self).shock_state == old(self).shock_state,
    {
        self.skills.insert(skill, value);
    }

    pub fn name(&self) -> (n: &String)
        ensures
            n == &self.name,
    {
        &self.name
    }

    /// Every attribute of a non-player character is 10.
    pub fn attribute(&self, attribute: Attribute) -> (v: u8)
        ensures
            v == 10,
    {
        10
    }

    pub fn mh_weapon(&self) -> (w: &Option<MeleeWeapon>)
        ensures
            w == &self.mh_weapon,
    {
        &self.mh_weapon
    }

    pub fn oh_weapon(&self) -> (w: &Option<MeleeWeapon>)
        ensures
            w == &self.oh_weapon,
    {
        &self.oh_weapon
    }

    pub fn rg_weapon(&self) -> (w: &Option<RangeWeapon>)
        ensures
            w == &self.rg_weapon,
    {
        &self.rg_weapon
    }

    pub fn ammo(&self) -> (a: Option<Projectile>)
        ensures
            a == self.ammo,
    {
        self.ammo
    }

    pub fn armor(&self) -> (a: &ArmorSet)
        ensures
            a == &self.armor,
    {
        &self.armor
    }

    /// The injuries, to be changed in place.
    pub fn injuries(&mut self) -> (r: &mut Vec<Injury>)
        ensures
            *r == old(self).injuries,
            final(self).injuries == *final(r),
            final(self).name == old(self).name,
            final(self).skills == old(self).skills,
            final(self).action_base == old(self).action_base,
            final(self).mh_weapon == old(self).mh_weapon,
            final(self).oh_weapon == old(self).oh_weapon,
            final(self).rg_weapon == old(self).rg_weapon,
            final(self).ammo == old(self).ammo,
            final(self).armor == old(self).armor,
            final(self).shock_state == old(self).shock_state,
    {
        &mut self.injuries
    }

    /// The shock state, to be changed in place.
    pub fn shock_state(&mut self) -> (r: &mut Option<ShockState>)
        ensures
            *r == old(self).shock_state,
            final(self).shock_state == *final(r),
            final(self).name == old(self).name,
            final(self).skills == old(self).skills,
            final(self).action_base == old(self).action_base,
            final(self).mh_weapon == old(self).mh_weapon,
            final(self).oh_weapon == old(self).oh_weapon,
            final(self).rg_weapon == old(self).rg_weapon,
            final(self).ammo == old(self).ammo,
            final(self).armor == old(self).armor,
            final(self).injuries == old(self).injuries,
    {
        &mut self.shock_state
    }

    /// The level the character has in a skill: the action base for
    /// initiative, shock, melee and dodge, the table's entry otherwise.
    pub fn skill(&self, skill: &Skill) -> (level: Option<u8>)
        ensures
            level == self.spec_skill(*skill),
    {
        match skill {
            Skill::Initiative | Skill::Shock | Skill::Melee | Skill::Dodge => Some(self.action_base),
            _ => self.skills.get(skill),
        }
    }
}

/// A character as plain values.
pub struct CharacterView {
    pub name: Seq<char>,
    pub folk: Folk,
    pub gender: Gender,
    pub birthdate: Date,
    pub attributes: Map<Attribute, u8>,
    pub skills: Map<SkillKey, u8>,
    pub mh_weapon: Option<MeleeWeapon>,
    pub oh_weapon: Option<MeleeWeapon>,
    pub rg_weapon: Option<RangeWeapon>,
    pub ammo: Option<Projectile>,
    pub armor: Seq<ArmorView>,
    pub injuries: Seq<Injury>,
    pub shock_state: Option<ShockState>,
}

/// A full character: folk, gender, birthdate and attributes beside the
/// skills and equipment.
#[derive(Debug, Clone)]
pub struct Character {
    name: String,
    folk: Folk,
    gender: Gender,
    birthdate: Date,
    attributes: AttributeSet,
    skills: SkillSet,
    mh_weapon: Option<MeleeWeapon>,
    oh_weapon: Option<MeleeWeapon>,
    rg_weapon: Option<RangeWeapon>,
    ammo: Option<Projectile>,
    armor: ArmorSet,
    pub injuries: Vec<Injury>,
    pub shock_state: Option<ShockState>,
}

impl Default for Character {
    /// A nameless human male born on the first day of the first year, with
    /// no attribute values, skills, weapons, ammunition, armour, injuries or
    /// shock.
    fn default() -> (c: Character)
        ensures
            c@.name == Seq::<char>::empty(),
            c@.folk == Folk::Human,
            c@.gender == Gender::Male,
            c@.birthdate.spec_year() == 1,
            c@.birthdate.spec_month() == 1,
            c@.birthdate.spec_day() == 1,
            c@.attributes == Map::<Attribute, u8>::empty(),
            c@.skills == Map::<SkillKey, u8>::empty(),
            c@.mh_weapon is None,
            c@.oh_weapon is None,
            c@.rg_weapon is None,
            c@.ammo is None,
            c@.armor == Seq::<ArmorView>::empty(),
            c@.injuries == Seq::<Injury>::empty(),
            c@.shock_state is None,
    {
        Character {
            name: String::new(),
            folk: Folk::default(),
            gender: Gender::default(),
            birthdate: Date::default(),
            attributes: AttributeSet::new(),
            skills: SkillSet::new(),
            mh_weapon: None,
            oh_weapon: None,
            rg_weapon: None,
            ammo: None,
            armor: ArmorSet::default(),
            injuries: Vec::new(),
            shock_state: None,
        }
    }
}

impl View for Character {
    type V = CharacterView;

    closed spec fn view(&self) -> CharacterView {
        CharacterView {
            name: self.name@,
            folk: self.folk,
            gender: self.gender,
            birthdate: self.birthdate,
            attributes: self.attributes@,
            skills: self.skills@,
            mh_weapon: self.mh_weapon,
            oh_weapon: self.oh_weapon,
            rg_weapon: self.rg_weapon,
            ammo: self.ammo,
            armor: self.armor@,
            injuries: self.injuries@,
            shock_state: self.shock_state,
        }
    }
}

impl Character {
    /// The character a non-player character becomes: a human male born on
    /// the first day of the first year, with every attribute at 10 and the
    /// four action skills entered in the table at the action base.
    pub fn from(val: Npc) -> (c: Character)
        ensures
            c@.name == val.name@,
            c@.folk == Folk::Human,
            c@.gender == Gender::Male,
            c@.birthdate.spec_year() == 1,
            c@.birthdate.spec_month() == 1,
            c@.birthdate.spec_day() == 1,
            c@.attributes == Map::new(|a: Attribute| true, |a: Attribute| 10u8),
            c@.skills == with_action_skills(val.skills@, val.action_base),
            c@.mh_weapon == val.mh_weapon,
            c@.oh_weapon == val.oh_weapon,
            c@.rg_weapon == val.rg_weapon,
            c@.ammo == val.ammo,
            c@.armor == val.armor@,
            c@.injuries == val.injuries@,
            c@.shock_state == val.shock_state,
    {
        let mut val = val;
        let mut map = AttributeSet::new();
        let all = Attribute::all();
        proof {
            assert forall|a: Attribute| #[trigger] all@[a.spec_index()] == a by {
                assert(all@[a.spec_index()].spec_index() == a.spec_index());
            }
        }
        let mut i: usize = 0;
        while i < all.len()
            invariant
                i <= all@.len(),
                all@.len() == 12,
                forall|j: int| 0 <= j < 12 ==> (#[trigger] all@[j]).spec_index() == j,
                forall|a: Attribute| #[trigger] all@[a.spec_index()] == a,
                forall|a: Attribute| #[trigger] map@.dom().contains(a) <==> a.spec_index() < i,
                forall|a: Attribute| #[trigger] map@.dom().contains(a) ==> map@[a] == 10,
            decreases all@.len() - i,
        {
            map.insert(all[i], 10);
            i = i + 1;
        }
        proof {
            assert(map@ =~= Map::new(|a: Attribute| true, |a: Attribute| 10u8));
        }
        let base = val.action_base;
        val.set_skill(Skill::Initiative, base);
        val.set_skill(Skill::Shock, base);
        val.set_skill(Skill::Melee, base);
        val.set_skill(Skill::Dodge, base);
        Character {
            name: val.name,
            folk: Folk::Human,
            gender: Gender::Male,
            birthdate: Date::default(),
            attributes: map,
            skills: val.skills,
            mh_weapon: val.mh_weapon,
            oh_weapon: val.oh_weapon,
            rg_weapon: val.rg_weapon,
            ammo: val.ammo,
            armor: val.armor,
            injuries: val.injuries,
            shock_state: val.shock_state,
        }
    }
}

/// A character made from a non-player character has, in every skill, the
/// level the non-player character reported: the action base for the four
/// action skills and the table's entry for the rest.
pub proof fn conversion_keeps_skill_levels(npc: Npc, skill: Skill)
    ensures
        lookup(with_action_skills(npc.skills@, npc.action_base), skill.key()) == npc.spec_skill(
            skill,
        ),
{
    if !is_action_skill(skill) {
        assert(skill.key() != Skill::Initiative.key());
        assert(skill.key() != Skill::Shock.key());
        assert(skill.key() != Skill::Melee.key());
        assert(skill.key() != Skill::Dodge.key());
    }
}

impl Character {
    pub fn name(&self) -> (n: &String)
        ensures
            n@ == self@.name,
    {
        &self.name
    }

    pub fn folk(&self) -> (f: Folk)
        ensures
            f == self@.folk,
    {
        self.folk
    }

    pub fn gender(&self) -> (g: Gender)
        ensures
            g == self@.gender,
    {
        self.gender
    }

    pub fn birthdate(&self) -> (d: Date)
        ensures
            d == self@.birthdate,
    {
        self.birthdate
    }

    /// The value of an attribute, if the character has one.
    pub fn attribute(&self, attribute: Attribute) -> (v: Option<u8>)
        ensures
            v == (if self@.attributes.dom().contains(attribute) {
                Some(self@.attributes[attribute])
            } else {
                None
            }),
    {
        self.attributes.get(attribute)
    }

    /// The level of a skill in the table, if the character has one.
    pub fn skill(&self, skill: &Skill) -> (v: Option<u8>)
        ensures
            v == lookup(self@.skills, skill.key()),
    {
        self.skills.get(skill)
    }

    pub fn armor(&self) -> (a: &ArmorSet)
        ensures
            a@ == self@.armor,
    {
        &self.armor
    }
}

/// After a skill is set on a non-player character, the character reports
/// the level set, except for the four action skills, which stay at the
/// action base.
pub proof fn set_skill_reads_back(before: Npc, after: Npc, skill: Skill, value: u8)
    requires
        after.skills@ == before.skills@.insert(skill.key(), value),
        after.action_base == before.action_base,
    ensures
        after.spec_skill(skill) == if is_action_skill(skill) {
            Some(before.action_base)
        } else {
            Some(value)
        },
{
}

} // verus!

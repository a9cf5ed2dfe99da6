//! Tests of skills and attributes: success levels, opposed results, skill
//! bases, mastery levels and effective mastery levels.
use vstd::prelude::*;

use vstd::string::StringExecFns;
use std::collections::HashMap;

use crate::being::{Being, Injury, Zone};
use crate::text::{append_filled, append_padded, decimal_string, fill_to, pad_to, signed_decimal};

verus! {

/// The outcome of a success test, with the d100 roll that produced it.
#[derive(Debug, PartialEq, Eq, Structural, Clone, Copy, PartialOrd, Ord)]
pub enum SuccessResult {
    CriticalSuccess(u8),
    Success(u8),
    Fail(u8),
    CriticalFail(u8),
}

impl SuccessResult {
    /// Success level: 3 for a critical success down to 0 for a critical failure.
    pub open spec fn spec_numeric(self) -> u8 {
        match self {
            SuccessResult::CriticalSuccess(_) => 3,
            SuccessResult::Success(_) => 2,
            SuccessResult::Fail(_) => 1,
            SuccessResult::CriticalFail(_) => 0,
        }
    }

    /// The d100 roll recorded in the result.
    pub open spec fn roll(self) -> u8 {
        match self {
            SuccessResult::CriticalSuccess(r) => r,
            SuccessResult::Success(r) => r,
            SuccessResult::Fail(r) => r,
            SuccessResult::CriticalFail(r) => r,
        }
    }

    /// What a test against `eml` yields for a roll: at or under the EML is a
    /// success, over it a failure, and a roll divisible by 5 makes either
    /// critical.
    pub open spec fn spec_from_roll(eml: u8, roll: u8) -> SuccessResult {
        if roll <= eml {
            if roll % 5 == 0 {
                SuccessResult::CriticalSuccess(roll)
            } else {
                SuccessResult::Success(roll)
            }
        } else if roll % 5 == 0 {
            SuccessResult::CriticalFail(roll)
        } else {
            SuccessResult::Fail(roll)
        }
    }

    /// Classifies a d100 roll against an effective mastery level.
    pub fn from_roll(eml: u8, roll: u8) -> (r: SuccessResult)
        ensures
            r == Self::spec_from_roll(eml, roll),
    {
        if roll <= eml {
            if roll % 5 == 0 {
                SuccessResult::CriticalSuccess(roll)
            } else {
                SuccessResult::Success(roll)
            }
        } else if roll % 5 == 0 {
            SuccessResult::CriticalFail(roll)
        } else {
            SuccessResult::Fail(roll)
        }
    }

    pub fn numeric(self) -> (n: u8)
        ensures
            n == self.spec_numeric(),
    {
        match self {
            SuccessResult::CriticalSuccess(_) => 3,
            SuccessResult::Success(_) => 2,
            SuccessResult::Fail(_) => 1,
            SuccessResult::CriticalFail(_) => 0,
        }
    }

    /// The bonus a success level adds to a value test: +1 for a critical
    /// success, 0 for a success, -1 for a failure, -2 for a critical failure.
    pub fn value_modifer(self) -> (m: i8)
        ensures
            m == self.spec_numeric() - 2,
    {
        self.numeric() as i8 - 2
    }
}

/// The outcome of an opposed test, from the side of the one who tests first.
#[derive(Debug, PartialEq, Eq, Structural, Clone, Copy, PartialOrd, Ord)]
pub enum OpposedResult {
    Victory,
    Tie(Tiebreak),
    Loss,
}

/// Which side a tie favours: the higher of two equal successes.
#[derive(Debug, PartialEq, Eq, Structural, Clone, Copy, PartialOrd, Ord)]
pub enum Tiebreak {
    Lhs,
    Rhs,
    Neither,
}

/// The result of an opposed test and the number of victory stars, given the
/// success results of both sides.
pub open spec fn spec_opposed_outcome(lhs: SuccessResult, rhs: SuccessResult) -> (
    OpposedResult,
    u8,
) {
    match (lhs, rhs) {
        (SuccessResult::CriticalSuccess(l), SuccessResult::CriticalSuccess(r)) => (
            OpposedResult::Tie(
                if l >= r {
                    Tiebreak::Lhs
                } else {
                    Tiebreak::Rhs
                },
            ),
            0,
        ),
        (SuccessResult::Success(l), SuccessResult::Success(r)) => (
            OpposedResult::Tie(
                if l >= r {
                    Tiebreak::Lhs
                } else {
                    Tiebreak::Rhs
                },
            ),
            0,
        ),
        _ => if lhs.spec_numeric() > rhs.spec_numeric() && lhs.spec_numeric() >= 2 {
            (OpposedResult::Victory, (lhs.spec_numeric() - rhs.spec_numeric()) as u8)
        } else if rhs.spec_numeric() > lhs.spec_numeric() && rhs.spec_numeric() >= 2 {
            (OpposedResult::Loss, (rhs.spec_numeric() - lhs.spec_numeric()) as u8)
        } else {
            (OpposedResult::Tie(Tiebreak::Neither), 0)
        },
    }
}

/// Resolves an opposed test from the two success results.
pub fn opposed_outcome(lhs: SuccessResult, rhs: SuccessResult) -> (r: (OpposedResult, u8))
    ensures
        r == spec_opposed_outcome(lhs, rhs),
{
    match (&lhs, &rhs) {
        (SuccessResult::CriticalSuccess(l), SuccessResult::CriticalSuccess(r))
        | (SuccessResult::Success(l), SuccessResult::Success(r)) => (
            OpposedResult::Tie(
                if l >= r {
                    Tiebreak::Lhs
                } else {
                    Tiebreak::Rhs
                },
            ),
            0,
        ),
        (SuccessResult::CriticalSuccess(_), _) => (
            OpposedResult::Victory,
            lhs.numeric() - rhs.numeric(),
        ),
        (_, SuccessResult::CriticalSuccess(_)) => (
            OpposedResult::Loss,
            rhs.numeric() - lhs.numeric(),
        ),
        (SuccessResult::Success(_), _) => (OpposedResult::Victory, lhs.numeric() - rhs.numeric()),
        (_, SuccessResult::Success(_)) => (OpposedResult::Loss, rhs.numeric() - lhs.numeric()),
        _ => (OpposedResult::Tie(Tiebreak::Neither), 0),
    }
}

/// Swapping the two sides of an opposed test turns a victory into a loss and
/// back, by the same number of stars; a tie stays a tie.
pub proof fn opposed_outcome_is_symmetric(lhs: SuccessResult, rhs: SuccessResult)
    ensures
        spec_opposed_outcome(lhs, rhs).0 == OpposedResult::Victory <==> spec_opposed_outcome(
            rhs,
            lhs,
        ).0 == OpposedResult::Loss,
        spec_opposed_outcome(lhs, rhs).1 == spec_opposed_outcome(rhs, lhs).1,
        spec_opposed_outcome(lhs, rhs).0 is Tie <==> spec_opposed_outcome(rhs, lhs).0 is Tie,
{
}

/// A skill. Some skills name a language, an instrument, a ritual, a
/// script, a ship type, a summoning or a talent.
#[derive(Debug, PartialEq, Eq, Hash)]
pub enum Skill {
    Acrobatics,
    Agriculture,
    Alchemy,
    Animalcraft,
    Archery,
    Astrology,
    Awareness,
    Brewing,
    Ceramics,
    Charm,
    Climbing,
    Command,
    Cookery,
    Dancing,
    Discourse,
    Dodge,
    Drawing,
    Embalming,
    Engineering,
    Fishing,
    Fletching,
    Folklore,
    Glassworking,
    Guile,
    Heraldry,
    Herblore,
    Hideworking,
    Initiative,
    Intrigue,
    Jewelcraft,
    Jumping,
    Language(String),
    Law,
    Legerdemain,
    Lockcraft,
    Masonry,
    Mathematics,
    Melee,
    Mercantilism,
    Metalcraft,
    Milling,
    Mineralogy,
    Musician(String),
    Perfumery,
    Physician,
    Piloting,
    Pvarism,
    Riding,
    Ritual(String),
    Runecraft,
    Script(String),
    Seamanship,
    Shipwright(String),
    Shock,
    Slings,
    Spirit,
    Stealth,
    Summoning(String),
    Survival,
    Swimming,
    Talent(String),
    Tarotry,
    Textilecraft,
    Theatrics,
    Throwing,
    Timbercraft,
    Tracking,
    Trance,
    Weaponcraft,
    Woodworking,
}

/// What identifies a skill in a skill set: the variant's position and the
/// name it carries (empty for skills without one).
pub type SkillKey = (u8, Seq<char>);

impl Skill {
    /// The position of the variant in the list of skills.
    pub open spec fn spec_tag(self) -> u8 {
        match self {
            Skill::Acrobatics => 0,
            Skill::Agriculture => 1,
            Skill::Alchemy => 2,
            Skill::Animalcraft => 3,
            Skill::Archery => 4,
            Skill::Astrology => 5,
            Skill::Awareness => 6,
            Skill::Brewing => 7,
            Skill::Ceramics => 8,
            Skill::Charm => 9,
            Skill::Climbing => 10,
            Skill::Command => 11,
            Skill::Cookery => 12,
            Skill::Dancing => 13,
            Skill::Discourse => 14,
            Skill::Dodge => 15,
            Skill::Drawing => 16,
            Skill::Embalming => 17,
            Skill::Engineering => 18,
            Skill::Fishing => 19,
            Skill::Fletching => 20,
            Skill::Folklore => 21,
            Skill::Glassworking => 22,
            Skill::Guile => 23,
            Skill::Heraldry => 24,
            Skill::Herblore => 25,
            Skill::Hideworking => 26,
            Skill::Initiative => 27,
            Skill::Intrigue => 28,
            Skill::Jewelcraft => 29,
            Skill::Jumping => 30,
            Skill::Language(_) => 31,
            Skill::Law => 32,
            Skill::Legerdemain => 33,
            Skill::Lockcraft => 34,
            Skill::Masonry => 35,
            Skill::Mathematics => 36,
            Skill::Melee => 37,
            Skill::Mercantilism => 38,
            Skill::Metalcraft => 39,
            Skill::Milling => 40,
            Skill::Mineralogy => 41,
            Skill::Musician(_) => 42,
            Skill::Perfumery => 43,
            Skill::Physician => 44,
            Skill::Piloting => 45,
            Skill::Pvarism => 46,
            Skill::Riding => 47,
            Skill::Ritual(_) => 48,
            Skill::Runecraft => 49,
            Skill::Script(_) => 50,
            Skill::Seamanship => 51,
            Skill::Shipwright(_) => 52,
            Skill::Shock => 53,
            Skill::Slings => 54,
            Skill::Spirit => 55,
            Skill::Stealth => 56,
            Skill::Summoning(_) => 57,
            Skill::Survival => 58,
            Skill::Swimming => 59,
            Skill::Talent(_) => 60,
            Skill::Tarotry => 61,
            Skill::Textilecraft => 62,
            Skill::Theatrics => 63,
            Skill::Throwing => 64,
            Skill::Timbercraft => 65,
            Skill::Tracking => 66,
            Skill::Trance => 67,
            Skill::Weaponcraft => 68,
            Skill::Woodworking => 69,
        }
    }

    /// The position of the variant in the list of skills.
    pub fn tag(&self) -> (t: u8)
        ensures
            t == self.spec_tag(),
    {
        match self {
            Skill::Acrobatics => 0,
            Skill::Agriculture => 1,
            Skill::Alchemy => 2,
            Skill::Animalcraft => 3,
            Skill::Archery => 4,
            Skill::Astrology => 5,
            Skill::Awareness => 6,
            Skill::Brewing => 7,
            Skill::Ceramics => 8,
            Skill::Charm => 9,
            Skill::Climbing => 10,
            Skill::Command => 11,
            Skill::Cookery => 12,
            Skill::Dancing => 13,
            Skill::Discourse => 14,
            Skill::Dodge => 15,
            Skill::Drawing => 16,
            Skill::Embalming => 17,
            Skill::Engineering => 18,
            Skill::Fishing => 19,
            Skill::Fletching => 20,
            Skill::Folklore => 21,
            Skill::Glassworking => 22,
            Skill::Guile => 23,
            Skill::Heraldry => 24,
            Skill::Herblore => 25,
            Skill::Hideworking => 26,
            Skill::Initiative => 27,
            Skill::Intrigue => 28,
            Skill::Jewelcraft => 29,
            Skill::Jumping => 30,
            Skill::Language(_) => 31,
            Skill::Law => 32,
            Skill::Legerdemain => 33,
            Skill::Lockcraft => 34,
            Skill::Masonry => 35,
            Skill::Mathematics => 36,
            Skill::Melee => 37,
            Skill::Mercantilism => 38,
            Skill::Metalcraft => 39,
            Skill::Milling => 40,
            Skill::Mineralogy => 41,
            Skill::Musician(_) => 42,
            Skill::Perfumery => 43,
            Skill::Physician => 44,
            Skill::Piloting => 45,
            Skill::Pvarism => 46,
            Skill::Riding => 47,
            Skill::Ritual(_) => 48,
            Skill::Runecraft => 49,
            Skill::Script(_) => 50,
            Skill::Seamanship => 51,
            Skill::Shipwright(_) => 52,
            Skill::Shock => 53,
            Skill::Slings => 54,
            Skill::Spirit => 55,
            Skill::Stealth => 56,
            Skill::Summoning(_) => 57,
            Skill::Survival => 58,
            Skill::Swimming => 59,
            Skill::Talent(_) => 60,
            Skill::Tarotry => 61,
            Skill::Textilecraft => 62,
            Skill::Theatrics => 63,
            Skill::Throwing => 64,
            Skill::Timbercraft => 65,
            Skill::Tracking => 66,
            Skill::Trance => 67,
            Skill::Weaponcraft => 68,
            Skill::Woodworking => 69,
        }
    }

    /// The name carried by the skill, empty for skills without one.
    pub open spec fn spec_name(self) -> Seq<char> {
        match self {
            Skill::Language(s) => s@,
            Skill::Musician(s) => s@,
            Skill::Ritual(s) => s@,
            Skill::Script(s) => s@,
            Skill::Shipwright(s) => s@,
            Skill::Summoning(s) => s@,
            Skill::Talent(s) => s@,
            _ => Seq::empty(),
        }
    }

    pub open spec fn key(self) -> SkillKey {
        (self.spec_tag(), self.spec_name())
    }

    /// Whether the skill carries a name.
    pub open spec fn carries_name(self) -> bool {
        ||| self is Language
        ||| self is Musician
        ||| self is Ritual
        ||| self is Script
        ||| self is Shipwright
        ||| self is Summoning
        ||| self is Talent
    }

    proof fn lemma_named_tags(self)
        ensures
            self.carries_name() <==> (self.spec_tag() == 31 || self.spec_tag() == 42
                || self.spec_tag() == 48 || self.spec_tag() == 50 || self.spec_tag() == 52
                || self.spec_tag() == 57 || self.spec_tag() == 60),
            !self.carries_name() ==> self.spec_name() == Seq::<char>::empty(),
    {
    }

    /// The name the skill carries, if it carries one.
    pub fn name(&self) -> (n: Option<&String>)
        ensures
            match n {
                Some(s) => self.carries_name() && s@ == self.spec_name(),
                None => !self.carries_name(),
            },
    {
        match self {
            Skill::Language(s)
            | Skill::Musician(s)
            | Skill::Ritual(s)
            | Skill::Script(s)
            | Skill::Shipwright(s)
            | Skill::Summoning(s)
            | Skill::Talent(s) => Some(s),
            _ => None,
        }
    }

    /// Whether two skills are the same skill (same variant, same name).
    pub fn same(&self, other: &Skill) -> (b: bool)
        ensures
            b == (self.key() == other.key()),
    {
        proof {
            self.lemma_named_tags();
            other.lemma_named_tags();
        }
        if self.tag() != other.tag() {
            return false;
        }
        match self.name() {
            Some(a) => match other.name() {
                Some(b) => {
                    let eq: bool = *a == *b;
                    eq
                },
                None => false,
            },
            None => other.name().is_none(),
        }
    }

    /// A copy of the skill.
    pub fn duplicate(&self) -> (s: Skill)
        ensures
            s == *self,
    {
        match self {
            Skill::Acrobatics => Skill::Acrobatics,
            Skill::Agriculture => Skill::Agriculture,
            Skill::Alchemy => Skill::Alchemy,
            Skill::Animalcraft => Skill::Animalcraft,
            Skill::Archery => Skill::Archery,
            Skill::Astrology => Skill::Astrology,
            Skill::Awareness => Skill::Awareness,
            Skill::Brewing => Skill::Brewing,
            Skill::Ceramics => Skill::Ceramics,
            Skill::Charm => Skill::Charm,
            Skill::Climbing => Skill::Climbing,
            Skill::Command => Skill::Command,
            Skill::Cookery => Skill::Cookery,
            Skill::Dancing => Skill::Dancing,
            Skill::Discourse => Skill::Discourse,
            Skill::Dodge => Skill::Dodge,
            Skill::Drawing => Skill::Drawing,
            Skill::Embalming => Skill::Embalming,
            Skill::Engineering => Skill::Engineering,
            Skill::Fishing => Skill::Fishing,
            Skill::Fletching => Skill::Fletching,
            Skill::Folklore => Skill::Folklore,
            Skill::Glassworking => Skill::Glassworking,
            Skill::Guile => Skill::Guile,
            Skill::Heraldry => Skill::Heraldry,
            Skill::Herblore => Skill::Herblore,
            Skill::Hideworking => Skill::Hideworking,
            Skill::Initiative => Skill::Initiative,
            Skill::Intrigue => Skill::Intrigue,
            Skill::Jewelcraft => Skill::Jewelcraft,
            Skill::Jumping => Skill::Jumping,
            Skill::Language(name) => Skill::Language(name.clone()),
            Skill::Law => Skill::Law,
            Skill::Legerdemain => Skill::Legerdemain,
            Skill::Lockcraft => Skill::Lockcraft,
            Skill::Masonry => Skill::Masonry,
            Skill::Mathematics => Skill::Mathematics,
            Skill::Melee => Skill::Melee,
            Skill::Mercantilism => Skill::Mercantilism,
            Skill::Metalcraft => Skill::Metalcraft,
            Skill::Milling => Skill::Milling,
            Skill::Mineralogy => Skill::Mineralogy,
            Skill::Musician(name) => Skill::Musician(name.clone()),
            Skill::Perfumery => Skill::Perfumery,
            Skill::Physician => Skill::Physician,
            Skill::Piloting => Skill::Piloting,
            Skill::Pvarism => Skill::Pvarism,
            Skill::Riding => Skill::Riding,
            Skill::Ritual(name) => Skill::Ritual(name.clone()),
            Skill::Runecraft => Skill::Runecraft,
            Skill::Script(name) => Skill::Script(name.clone()),
            Skill::Seamanship => Skill::Seamanship,
            Skill::Shipwright(name) => Skill::Shipwright(name.clone()),
            Skill::Shock => Skill::Shock,
            Skill::Slings => Skill::Slings,
            Skill::Spirit => Skill::Spirit,
            Skill::Stealth => Skill::Stealth,
            Skill::Summoning(name) => Skill::Summoning(name.clone()),
            Skill::Survival => Skill::Survival,
            Skill::Swimming => Skill::Swimming,
            Skill::Talent(name) => Skill::Talent(name.clone()),
            Skill::Tarotry => Skill::Tarotry,
            Skill::Textilecraft => Skill::Textilecraft,
            Skill::Theatrics => Skill::Theatrics,
            Skill::Throwing => Skill::Throwing,
            Skill::Timbercraft => Skill::Timbercraft,
            Skill::Tracking => Skill::Tracking,
            Skill::Trance => Skill::Trance,
            Skill::Weaponcraft => Skill::Weaponcraft,
            Skill::Woodworking => Skill::Woodworking,
        }
    }
}

impl Skill {
    /// The two attributes whose average is the skill base, in the order in
    /// which the rules list them.
    pub open spec fn spec_base_attributes(self) -> (Attribute, Attribute) {
        match self {
            Skill::Alchemy => (Attribute::Aura, Attribute::Perception),
            Skill::Animalcraft => (Attribute::Empathy, Attribute::Will),
            Skill::Archery | Skill::Glassworking | Skill::Jewelcraft => (Attribute::Perception, Attribute::Dexterity),
            Skill::Astrology | Skill::Runecraft | Skill::Tarotry => (Attribute::Aura, Attribute::Empathy),
            Skill::Brewing
            | Skill::Cookery
            | Skill::Herblore
            | Skill::Mineralogy
            | Skill::Perfumery
            | Skill::Timbercraft => (Attribute::Perception, Attribute::Reasoning),
            Skill::Ceramics
            | Skill::Fletching
            | Skill::Hideworking
            | Skill::Legerdemain
            | Skill::Lockcraft
            | Skill::Slings
            | Skill::Textilecraft
            | Skill::Throwing => (Attribute::Dexterity, Attribute::Perception),
            Skill::Charm => (Attribute::Comeliness, Attribute::Empathy),
            Skill::Climbing => (Attribute::Agility, Attribute::Dexterity),
            Skill::Command => (Attribute::Will, Attribute::Eloquence),
            Skill::Dancing => (Attribute::Agility, Attribute::Creativity),
            Skill::Discourse => (Attribute::Reasoning, Attribute::Eloquence),
            Skill::Dodge => (Attribute::Agility, Attribute::Perception),
            Skill::Drawing => (Attribute::Dexterity, Attribute::Creativity),
            Skill::Embalming
            | Skill::Mercantilism
            | Skill::Physician
            | Skill::Piloting
            | Skill::Script(_)
            | Skill::Tracking => (Attribute::Reasoning, Attribute::Perception),
            Skill::Engineering | Skill::Mathematics | Skill::Shipwright(_) => (Attribute::Reasoning, Attribute::Creativity),
            Skill::Agriculture | Skill::Awareness | Skill::Fishing => (Attribute::Perception, Attribute::Will),
            Skill::Folklore | Skill::Heraldry | Skill::Law => (Attribute::Reasoning, Attribute::Will),
            Skill::Guile => (Attribute::Empathy, Attribute::Creativity),
            Skill::Initiative | Skill::Ritual(_) | Skill::Survival => (Attribute::Will, Attribute::Reasoning),
            Skill::Intrigue => (Attribute::Empathy, Attribute::Reasoning),
            Skill::Jumping => (Attribute::Agility, Attribute::Strength),
            Skill::Language(_) => (Attribute::Eloquence, Attribute::Reasoning),
            Skill::Masonry | Skill::Metalcraft | Skill::Weaponcraft | Skill::Woodworking => (
                Attribute::Dexterity,
                Attribute::Strength,
            ),
            Skill::Melee => (Attribute::Dexterity, Attribute::Agility),
            Skill::Milling => (Attribute::Perception, Attribute::Strength),
            Skill::Musician(_) => (Attribute::Perception, Attribute::Creativity),
            Skill::Pvarism => (Attribute::Aura, Attribute::Reasoning),
            Skill::Riding => (Attribute::Empathy, Attribute::Agility),
            Skill::Seamanship => (Attribute::Will, Attribute::Perception),
            Skill::Shock => (Attribute::Strength, Attribute::Endurance),
            Skill::Spirit | Skill::Talent(_) => (Attribute::Aura, Attribute::Will),
            Skill::Stealth => (Attribute::Agility, Attribute::Will),
            Skill::Summoning(_) => (Attribute::Aura, Attribute::Eloquence),
            Skill::Acrobatics | Skill::Swimming => (Attribute::Agility, Attribute::Endurance),
            Skill::Theatrics => (Attribute::Creativity, Attribute::Eloquence),
            Skill::Trance => (Attribute::Aura, Attribute::Creativity),
        }
    }

    fn base_attributes(&self) -> (p: (Attribute, Attribute))
        ensures
            p == self.spec_base_attributes(),
    {
        match self {
            Skill::Alchemy => (Attribute::Aura, Attribute::Perception),
            Skill::Animalcraft => (Attribute::Empathy, Attribute::Will),
            Skill::Archery | Skill::Glassworking | Skill::Jewelcraft => (Attribute::Perception, Attribute::Dexterity),
            Skill::Astrology | Skill::Runecraft | Skill::Tarotry => (Attribute::Aura, Attribute::Empathy),
            Skill::Brewing
            | Skill::Cookery
            | Skill::Herblore
            | Skill::Mineralogy
            | Skill::Perfumery
            | Skill::Timbercraft => (Attribute::Perception, Attribute::Reasoning),
            Skill::Ceramics
            | Skill::Fletching
            | Skill::Hideworking
            | Skill::Legerdemain
            | Skill::Lockcraft
            | Skill::Slings
            | Skill::Textilecraft
            | Skill::Throwing => (Attribute::Dexterity, Attribute::Perception),
            Skill::Charm => (Attribute::Comeliness, Attribute::Empathy),
            Skill::Climbing => (Attribute::Agility, Attribute::Dexterity),
            Skill::Command => (Attribute::Will, Attribute::Eloquence),
            Skill::Dancing => (Attribute::Agility, Attribute::Creativity),
            Skill::Discourse => (Attribute::Reasoning, Attribute::Eloquence),
            Skill::Dodge => (Attribute::Agility, Attribute::Perception),
            Skill::Drawing => (Attribute::Dexterity, Attribute::Creativity),
            Skill::Embalming
            | Skill::Mercantilism
            | Skill::Physician
            | Skill::Piloting
            | Skill::Script(_)
            | Skill::Tracking => (Attribute::Reasoning, Attribute::Perception),
            Skill::Engineering | Skill::Mathematics | Skill::Shipwright(_) => (Attribute::Reasoning, Attribute::Creativity),
            Skill::Agriculture | Skill::Awareness | Skill::Fishing => (Attribute::Perception, Attribute::Will),
            Skill::Folklore | Skill::Heraldry | Skill::Law => (Attribute::Reasoning, Attribute::Will),
            Skill::Guile => (Attribute::Empathy, Attribute::Creativity),
            Skill::Initiative | Skill::Ritual(_) | Skill::Survival => (Attribute::Will, Attribute::Reasoning),
            Skill::Intrigue => (Attribute::Empathy, Attribute::Reasoning),
            Skill::Jumping => (Attribute::Agility, Attribute::Strength),
            Skill::Language(_) => (Attribute::Eloquence, Attribute::Reasoning),
            Skill::Masonry | Skill::Metalcraft | Skill::Weaponcraft | Skill::Woodworking => (
                Attribute::Dexterity,
                Attribute::Strength,
            ),
            Skill::Melee => (Attribute::Dexterity, Attribute::Agility),
            Skill::Milling => (Attribute::Perception, Attribute::Strength),
            Skill::Musician(_) => (Attribute::Perception, Attribute::Creativity),
            Skill::Pvarism => (Attribute::Aura, Attribute::Reasoning),
            Skill::Riding => (Attribute::Empathy, Attribute::Agility),
            Skill::Seamanship => (Attribute::Will, Attribute::Perception),
            Skill::Shock => (Attribute::Strength, Attribute::Endurance),
            Skill::Spirit | Skill::Talent(_) => (Attribute::Aura, Attribute::Will),
            Skill::Stealth => (Attribute::Agility, Attribute::Will),
            Skill::Summoning(_) => (Attribute::Aura, Attribute::Eloquence),
            Skill::Acrobatics | Skill::Swimming => (Attribute::Agility, Attribute::Endurance),
            Skill::Theatrics => (Attribute::Creativity, Attribute::Eloquence),
            Skill::Trance => (Attribute::Aura, Attribute::Creativity),
        }
    }

    /// The body zones whose injuries impair the skill.
    pub open spec fn spec_impaired_zones(self) -> Seq<Zone> {
        match self {
            Skill::Acrobatics
            | Skill::Archery
            | Skill::Climbing
            | Skill::Dancing
            | Skill::Jumping
            | Skill::Melee
            | Skill::Riding
            | Skill::Slings
            | Skill::Swimming
            | Skill::Throwing => seq![Zone::Head, Zone::Arm, Zone::Torso, Zone::Leg],
            Skill::Awareness => seq![Zone::Head],
            Skill::Dodge
            | Skill::Stealth
            | Skill::Ceramics
            | Skill::Drawing
            | Skill::Fletching
            | Skill::Glassworking
            | Skill::Hideworking
            | Skill::Jewelcraft
            | Skill::Lockcraft
            | Skill::Masonry
            | Skill::Metalcraft
            | Skill::Milling
            | Skill::Musician(_)
            | Skill::Textilecraft
            | Skill::Weaponcraft
            | Skill::Woodworking => seq![Zone::Head, Zone::Torso, Zone::Leg],
            Skill::Legerdemain => seq![Zone::Head, Zone::Arm],
            _ => seq![],
        }
    }
}

/// A character attribute.
#[derive(Debug, PartialEq, Eq, Structural, Clone, Copy, Hash)]
pub enum Attribute {
    Strength,
    Endurance,
    Dexterity,
    Agility,
    Perception,
    Comeliness,
    Aura,
    Will,
    Reasoning,
    Creativity,
    Empathy,
    Eloquence,
}

impl Attribute {
    pub open spec fn spec_index(self) -> int {
        match self {
            Attribute::Strength => 0,
            Attribute::Endurance => 1,
            Attribute::Dexterity => 2,
            Attribute::Agility => 3,
            Attribute::Perception => 4,
            Attribute::Comeliness => 5,
            Attribute::Aura => 6,
            Attribute::Will => 7,
            Attribute::Reasoning => 8,
            Attribute::Creativity => 9,
            Attribute::Empathy => 10,
            Attribute::Eloquence => 11,
        }
    }

    /// The attribute's position in the list of attributes.
    pub fn slot(self) -> (i: usize)
        ensures
            i == self.spec_index(),
            i < 12,
    {
        match self {
            Attribute::Strength => 0,
            Attribute::Endurance => 1,
            Attribute::Dexterity => 2,
            Attribute::Agility => 3,
            Attribute::Perception => 4,
            Attribute::Comeliness => 5,
            Attribute::Aura => 6,
            Attribute::Will => 7,
            Attribute::Reasoning => 8,
            Attribute::Creativity => 9,
            Attribute::Empathy => 10,
            Attribute::Eloquence => 11,
        }
    }

    /// Every attribute, in the order of the list.
    pub fn all() -> (v: Vec<Attribute>)
        ensures
            v@.len() == 12,
            forall|i: int| 0 <= i < 12 ==> (#[trigger] v@[i]).spec_index() == i,
    {
        vec![
            Attribute::Strength,
            Attribute::Endurance,
            Attribute::Dexterity,
            Attribute::Agility,
            Attribute::Perception,
            Attribute::Comeliness,
            Attribute::Aura,
            Attribute::Will,
            Attribute::Reasoning,
            Attribute::Creativity,
            Attribute::Empathy,
            Attribute::Eloquence,
        ]
    }

    /// The body zones whose injuries impair the attribute.
    pub open spec fn spec_impaired_zones(self) -> Seq<Zone> {
        match self {
            Attribute::Agility => seq![Zone::Head, Zone::Torso, Zone::Leg],
            Attribute::Dexterity => seq![Zone::Head, Zone::Arm, Zone::Torso],
            Attribute::Strength => seq![Zone::Head, Zone::Arm, Zone::Torso, Zone::Leg],
            _ => seq![],
        }
    }
}

/// The attribute at a position of the list of attributes.
pub open spec fn attribute_at(i: int) -> Attribute {
    if i == 0 {
        Attribute::Strength
    } else if i == 1 {
        Attribute::Endurance
    } else if i == 2 {
        Attribute::Dexterity
    } else if i == 3 {
        Attribute::Agility
    } else if i == 4 {
        Attribute::Perception
    } else if i == 5 {
        Attribute::Comeliness
    } else if i == 6 {
        Attribute::Aura
    } else if i == 7 {
        Attribute::Will
    } else if i == 8 {
        Attribute::Reasoning
    } else if i == 9 {
        Attribute::Creativity
    } else if i == 10 {
        Attribute::Empathy
    } else {
        Attribute::Eloquence
    }
}

/// The attributes a table holds, with their values, among the first `n`
/// of the list of attributes, in the order of the list.
pub open spec fn present_attributes(m: Map<Attribute, u8>, n: int) -> Seq<(Attribute, u8)>
    decreases n,
{
    if n <= 0 {
        Seq::empty()
    } else {
        let a = attribute_at(n - 1);
        present_attributes(m, n - 1) + if m.dom().contains(a) {
            seq![(a, m[a])]
        } else {
            Seq::empty()
        }
    }
}

/// The attribute values of a character, each kept under the attribute's
/// place in the list of attributes.
#[derive(Debug, Clone)]
pub struct AttributeSet {
    values: HashMap<u8, u8>,
}

impl View for AttributeSet {
    type V = Map<Attribute, u8>;

    closed spec fn view(&self) -> Map<Attribute, u8> {
        Map::new(
            |a: Attribute| self.values@.contains_key(a.spec_index() as u8),
            |a: Attribute| self.values@[a.spec_index() as u8],
        )
    }
}

impl AttributeSet {
    /// A set with no attribute values.
    pub fn new() -> (s: Self)
        ensures
            s@ == Map::<Attribute, u8>::empty(),
    {
        let s = AttributeSet { values: HashMap::new() };
        assert(s@ =~= Map::<Attribute, u8>::empty());
        s
    }

    /// The value of an attribute, if the set holds one.
    pub fn get(&self, attribute: Attribute) -> (v: Option<u8>)
        ensures
            v == (if self@.dom().contains(attribute) {
                Some(self@[attribute])
            } else {
                None
            }),
    {
        broadcast use vstd::std_specs::hash::group_hash_axioms;

        let key = attribute.slot() as u8;
        match self.values.get(&key) {
            Some(v) => Some(*v),
            None => None,
        }
    }

    /// Sets the value of an attribute and returns the value it replaced.
    pub fn insert(&mut self, attribute: Attribute, value: u8) -> (previous: Option<u8>)
        ensures
            final(self)@ == old(self)@.insert(attribute, value),
            previous == (if old(self)@.dom().contains(attribute) {
                Some(old(self)@[attribute])
            } else {
                None
            }),
    {
        broadcast use vstd::std_specs::hash::group_hash_axioms;

        let key = attribute.slot() as u8;
        let previous = self.values.insert(key, value);
        proof {
            assert forall|a: Attribute| a.spec_index() as u8 == key implies a == attribute by {}
            assert(self@ =~= old(self)@.insert(attribute, value));
        }
        previous
    }

    /// The attribute values as pairs, in the order of the list of attributes.
    pub fn pairs(&self) -> (v: Vec<(Attribute, u8)>)
        ensures
            v@ == present_attributes(self@, 12),
            forall|i: int| 0 <= i < v@.len() ==> self@.dom().contains(#[trigger] v@[i].0) && self@[v@[i].0] == v@[i].1,
            forall|a: Attribute| self@.dom().contains(a) ==> exists|i: int| 0 <= i < v@.len() && #[trigger] v@[i].0 == a,
    {
        let all = Attribute::all();
        let mut v: Vec<(Attribute, u8)> = Vec::new();
        let mut k: usize = 0;
        while k < 12
            invariant
                0 <= k <= 12,
                all@.len() == 12,
                forall|i: int| 0 <= i < 12 ==> (#[trigger] all@[i]).spec_index() == i,
                forall|i: int| 0 <= i < v@.len() ==> self@.dom().contains(#[trigger] v@[i].0) && self@[v@[i].0] == v@[i].1,
                forall|a: Attribute| self@.dom().contains(a) && a.spec_index() < k ==> exists|i: int| 0 <= i < v@.len() && #[trigger] v@[i].0 == a,
                v@ == present_attributes(self@, k as int),
            decreases 12 - k,
        {
            let a = all[k];
            let ghost old_v = v@;
            proof {
                assert(a == attribute_at(k as int));
            }
            match self.get(a) {
                Some(value) => {
                    v.push((a, value));
                },
                None => {},
            }
            proof {
                assert(v@ =~= present_attributes(self@, k + 1));
                assert forall|b: Attribute| self@.dom().contains(b) && b.spec_index() < k + 1 implies exists|i: int| 0 <= i < v@.len() && #[trigger] v@[i].0 == b by {
                    if b.spec_index() == k {
                        assert(b == a);
                        assert(v@[v@.len() - 1].0 == a);
                    } else {
                        let i = choose|i: int| 0 <= i < old_v.len() && #[trigger] old_v[i].0 == b;
                        assert(v@[i] == old_v[i]);
                    }
                }
            }
            k = k + 1;
        }
        v
    }
}

impl Default for AttributeSet {
    /// A set with no attribute values.
    fn default() -> (s: Self)
        ensures
            s@ == Map::<Attribute, u8>::empty(),
    {
        AttributeSet::new()
    }
}

impl Default for SkillSet {
    /// A set with no skills.
    fn default() -> (s: Self)
        ensures
            s@ == Map::<SkillKey, u8>::empty(),
    {
        SkillSet::new()
    }
}

impl Clone for Skill {
    fn clone(&self) -> (s: Self)
        ensures
            s == *self,
    {
        self.duplicate()
    }
}

impl Clone for SkillSet {
    fn clone(&self) -> (s: Self)
        ensures
            s@ == self@,
    {
        proof {
            use_type_invariant(self);
        }
        let mut entries: Vec<(Skill, u8)> = Vec::new();
        let mut i: usize = 0;
        while i < self.entries.len()
            invariant
                i <= self.entries@.len(),
                entries@ == self.entries@.take(i as int),
            decreases self.entries@.len() - i,
        {
            let (skill, level) = &self.entries[i];
            entries.push((skill.duplicate(), *level));
            proof {
                assert(entries@ =~= self.entries@.take(i + 1));
            }
            i = i + 1;
        }
        assert(entries@ =~= self.entries@);
        SkillSet { entries }
    }
}

/// The skills a character knows, each with its skill level: at most one
/// entry per skill.
#[derive(Debug)]
pub struct SkillSet {
    entries: Vec<(Skill, u8)>,
}

/// Whether the entry at `i` holds the skill with key `k`.
pub open spec fn entry_has_key(entries: Seq<(Skill, u8)>, i: int, k: SkillKey) -> bool {
    0 <= i < entries.len() && entries[i].0.key() == k
}

impl View for SkillSet {
    type V = Map<SkillKey, u8>;

    closed spec fn view(&self) -> Map<SkillKey, u8> {
        Map::new(
            |k: SkillKey| exists|i: int| entry_has_key(self.entries@, i, k),
            |k: SkillKey| self.entries@[choose|i: int| entry_has_key(self.entries@, i, k)].1,
        )
    }
}

/// The skill set after learning a skill once more: a new skill is learned
/// at level 1, a known one goes up one level.
pub open spec fn learned(m: Map<SkillKey, u8>, k: SkillKey) -> Map<SkillKey, u8> {
    if m.dom().contains(k) {
        m.insert(k, (m[k] + 1) as u8)
    } else {
        m.insert(k, 1)
    }
}

/// The skill set after unlearning a skill once: a skill at level 1 is
/// forgotten, a higher one goes down one level, an unknown one stays unknown.
pub open spec fn unlearned(m: Map<SkillKey, u8>, k: SkillKey) -> Map<SkillKey, u8> {
    if m.dom().contains(k) {
        if m[k] == 1 {
            m.remove(k)
        } else {
            m.insert(k, (m[k] - 1) as u8)
        }
    } else {
        m
    }
}

/// Unlearning a skill right after learning it gives back the skill set one
/// started with, whenever the skill was unknown or known at a level from 1
/// to 254.
pub proof fn unlearn_undoes_learn(m: Map<SkillKey, u8>, k: SkillKey)
    requires
        m.dom().contains(k) ==> 1 <= m[k] < 255,
    ensures
        unlearned(learned(m, k), k) == m,
{
    if m.dom().contains(k) {
        assert(unlearned(learned(m, k), k) =~= m);
    } else {
        assert(unlearned(learned(m, k), k) =~= m);
    }
}

impl SkillSet {
    #[verifier::type_invariant]
    spec fn one_entry_per_skill(self) -> bool {
        forall|i: int, j: int|
            0 <= i < j < self.entries@.len() ==> (#[trigger] self.entries@[i]).0.key()
                != (#[trigger] self.entries@[j]).0.key()
    }

    proof fn lemma_entry_in_view(self, i: int)
        requires
            self.one_entry_per_skill(),
            0 <= i < self.entries@.len(),
        ensures
            self@.dom().contains(self.entries@[i].0.key()),
            self@[self.entries@[i].0.key()] == self.entries@[i].1,
    {
        let k = self.entries@[i].0.key();
        assert(entry_has_key(self.entries@, i, k));
        let j = choose|j: int| entry_has_key(self.entries@, j, k);
        if j != i {
            if j < i {
                assert(self.entries@[j].0.key() != self.entries@[i].0.key());
            } else {
                assert(self.entries@[i].0.key() != self.entries@[j].0.key());
            }
        }
    }

    /// A set with no skills.
    pub fn new() -> (s: Self)
        ensures
            s@ == Map::<SkillKey, u8>::empty(),
    {
        let s = SkillSet { entries: Vec::new() };
        assert(s@ =~= Map::<SkillKey, u8>::empty());
        s
    }

    /// Where the set holds `skill`, if it does.
    fn position(&self, skill: &Skill) -> (p: Option<usize>)
        ensures
            match p {
                Some(i) => i < self.entries@.len() && self.entries@[i as int].0.key() == skill.key(),
                None => !self@.dom().contains(skill.key()),
            },
    {
        let mut i: usize = 0;
        while i < self.entries.len()
            invariant
                i <= self.entries@.len(),
                forall|j: int| 0 <= j < i ==> self.entries@[j].0.key() != skill.key(),
            decreases self.entries@.len() - i,
        {
            if self.entries[i].0.same(skill) {
                return Some(i);
            }
            i = i + 1;
        }
        None
    }

    /// The level of a skill, if the set holds it.
    pub fn get(&self, skill: &Skill) -> (level: Option<u8>)
        ensures
            level == (if self@.dom().contains(skill.key()) {
                Some(self@[skill.key()])
            } else {
                None
            }),
    {
        proof {
            use_type_invariant(self);
        }
        match self.position(skill) {
            Some(i) => {
                proof {
                    self.lemma_entry_in_view(i as int);
                }
                Some(self.entries[i].1)
            },
            None => None,
        }
    }

    /// Sets the level of a skill and returns the level it replaced.
    pub fn insert(&mut self, skill: Skill, level: u8) -> (previous: Option<u8>)
        ensures
            final(self)@ == old(self)@.insert(skill.key(), level),
            previous == (if old(self)@.dom().contains(skill.key()) {
                Some(old(self)@[skill.key()])
            } else {
                None
            }),
    {
        proof {
            use_type_invariant(&*self);
        }
        let ghost k = skill.key();
        let ghost before = *self;
        let p = self.position(&skill);
        let mut entries: Vec<(Skill, u8)> = Vec::new();
        std::mem::swap(&mut entries, &mut self.entries);
        assert(entries@ == before.entries@);
        match p {
            Some(i) => {
                proof {
                    before.lemma_entry_in_view(i as int);
                }
                let previous = entries[i].1;
                entries.set(i, (skill, level));
                proof {
                    assert forall|a: int, b: int|
                        0 <= a < b < entries@.len() implies (#[trigger] entries@[a]).0.key()
                        != (#[trigger] entries@[b]).0.key() by {
                        assert(before.entries@[a].0.key() != before.entries@[b].0.key());
                    }
                }
                self.entries = entries;
                proof {
                    assert forall|kk: SkillKey| #![auto] self@.dom().contains(kk) == before@.insert(k, level).dom().contains(kk) by {
                        if kk != k && before@.dom().contains(kk) {
                            let j = choose|j: int| entry_has_key(before.entries@, j, kk);
                            assert(entry_has_key(self.entries@, j, kk));
                        }
                        if self@.dom().contains(kk) {
                            let j = choose|j: int| entry_has_key(self.entries@, j, kk);
                            if j != i {
                                assert(entry_has_key(before.entries@, j, kk));
                            }
                        }
                        assert(entry_has_key(self.entries@, i as int, k));
                    }
                    assert forall|kk: SkillKey| #[trigger] self@.dom().contains(kk) implies self@[kk] == before@.insert(k, level)[kk] by {
                        let j = choose|j: int| entry_has_key(self.entries@, j, kk);
                        self.lemma_entry_in_view(j);
                        if j != i {
                            before.lemma_entry_in_view(j);
                        }
                    }
                    assert(self@ =~= before@.insert(k, level));
                }
                Some(previous)
            },
            None => {
                entries.push((skill, level));
                proof {
                    let n = before.entries@.len() as int;
                    assert forall|a: int, b: int|
                        0 <= a < b < entries@.len() implies (#[trigger] entries@[a]).0.key()
                        != (#[trigger] entries@[b]).0.key() by {
                        if b == n {
                            assert(!entry_has_key(before.entries@, a, k));
                        } else {
                            assert(before.entries@[a].0.key() != before.entries@[b].0.key());
                        }
                    }
                }
                self.entries = entries;
                proof {
                    let n = before.entries@.len() as int;
                    assert forall|kk: SkillKey| #![auto] self@.dom().contains(kk) == before@.insert(k, level).dom().contains(kk) by {
                        if kk != k && before@.dom().contains(kk) {
                            let j = choose|j: int| entry_has_key(before.entries@, j, kk);
                            assert(entry_has_key(self.entries@, j, kk));
                        }
                        if self@.dom().contains(kk) {
                            let j = choose|j: int| entry_has_key(self.entries@, j, kk);
                            if j != n {
                                assert(entry_has_key(before.entries@, j, kk));
                            }
                        }
                        assert(entry_has_key(self.entries@, n, k));
                    }
                    assert forall|kk: SkillKey| #[trigger] self@.dom().contains(kk) implies self@[kk] == before@.insert(k, level)[kk] by {
                        let j = choose|j: int| entry_has_key(self.entries@, j, kk);
                        self.lemma_entry_in_view(j);
                        if j != n {
                            before.lemma_entry_in_view(j);
                        }
                    }
                    assert(self@ =~= before@.insert(k, level));
                }
                None
            },
        }
    }

    /// Drops a skill from the set; a skill it does not hold changes nothing.
    pub fn remove(&mut self, skill: &Skill)
        ensures
            final(self)@ == old(self)@.remove(skill.key()),
    {
        proof {
            use_type_invariant(&*self);
        }
        let ghost k = skill.key();
        let ghost before = *self;
        match self.position(skill) {
            Some(i) => {
                let mut entries: Vec<(Skill, u8)> = Vec::new();
                std::mem::swap(&mut entries, &mut self.entries);
                assert(entries@ == before.entries@);
                entries.remove(i);
                proof {
                    assert forall|a: int| 0 <= a < entries@.len() implies #[trigger] entries@[a] == before.entries@[if a < i { a } else { a + 1 }] by {}
                    assert forall|a: int, b: int|
                        0 <= a < b < entries@.len() implies (#[trigger] entries@[a]).0.key()
                        != (#[trigger] entries@[b]).0.key() by {
                        let a2 = if a < i { a } else { a + 1 };
                        let b2 = if b < i { b } else { b + 1 };
                        assert(entries@[a] == before.entries@[a2]);
                        assert(entries@[b] == before.entries@[b2]);
                        assert(before.entries@[a2].0.key() != before.entries@[b2].0.key());
                    }
                }
                self.entries = entries;
                proof {
                    assert forall|a: int| 0 <= a < self.entries@.len() implies #[trigger] self.entries@[a] == before.entries@[if a < i { a } else { a + 1 }] by {}
                    assert forall|kk: SkillKey| #![auto] self@.dom().contains(kk) == before@.remove(k).dom().contains(kk) by {
                        if kk != k && before@.dom().contains(kk) {
                            let j = choose|j: int| entry_has_key(before.entries@, j, kk);
                            assert(j != i);
                            let j2 = if j < i { j } else { j - 1 };
                            assert(self.entries@[j2] == before.entries@[j]);
                            assert(entry_has_key(self.entries@, j2, kk));
                        }
                        if self@.dom().contains(kk) {
                            let j = choose|j: int| entry_has_key(self.entries@, j, kk);
                            let j2 = if j < i { j } else { j + 1 };
                            assert(self.entries@[j] == before.entries@[j2]);
                            assert(entry_has_key(before.entries@, j2, kk));
                            assert(j2 != i ==> before.entries@[j2].0.key() != before.entries@[i as int].0.key());
                        }
                    }
                    assert forall|kk: SkillKey| #[trigger] self@.dom().contains(kk) implies self@[kk] == before@.remove(k)[kk] by {
                        let j = choose|j: int| entry_has_key(self.entries@, j, kk);
                        self.lemma_entry_in_view(j);
                        let j2 = if j < i { j } else { j + 1 };
                        assert(self.entries@[j] == before.entries@[j2]);
                        before.lemma_entry_in_view(j2);
                    }
                    assert(self@ =~= before@.remove(k));
                }
            },
            None => {
                assert(self@ =~= before@.remove(k));
            },
        }
    }

    /// Learns a skill once more: a new skill at level 1, a known one a level
    /// higher.
    pub fn learn(&mut self, skill: Skill)
        requires
            old(self)@.dom().contains(skill.key()) ==> old(self)@[skill.key()] < 255,
        ensures
            final(self)@ == learned(old(self)@, skill.key()),
    {
        let copy = skill.duplicate();
        if let Some(level) = self.insert(skill, 1) {
            self.insert(copy, level + 1);
        }
        proof {
            assert(self@ =~= learned(old(self)@, copy.key()));
        }
    }

    /// Unlearns a skill once: one at level 1 is forgotten, a higher one goes
    /// down a level.
    pub fn unlearn(&mut self, skill: Skill)
        requires
            old(self)@.dom().contains(skill.key()) ==> old(self)@[skill.key()] != 0,
        ensures
            final(self)@ == unlearned(old(self)@, skill.key()),
    {
        if let Some(level) = self.get(&skill) {
            if level == 1 {
                self.remove(&skill);
            } else {
                self.insert(skill, level - 1);
            }
        }
        proof {
            assert(self@ =~= unlearned(old(self)@, skill.key()));
        }
    }

    /// The entries of the table, in the order it keeps them.
    pub closed spec fn entry_list(&self) -> Seq<(Skill, u8)> {
        self.entries@
    }

    /// The skills with their levels, one pair per skill.
    pub fn pairs(&self) -> (v: &Vec<(Skill, u8)>)
        ensures
            v@ == self.entry_list(),
            forall|i: int| 0 <= i < v@.len() ==> self@.dom().contains(#[trigger] v@[i].0.key()) && self@[v@[i].0.key()] == v@[i].1,
            forall|k: SkillKey| self@.dom().contains(k) ==> exists|i: int| 0 <= i < v@.len() && #[trigger] v@[i].0.key() == k,
    {
        proof {
            use_type_invariant(self);
            assert forall|i: int| 0 <= i < self.entries@.len() implies self@.dom().contains(#[trigger] self.entries@[i].0.key()) && self@[self.entries@[i].0.key()] == self.entries@[i].1 by {
                self.lemma_entry_in_view(i);
            }
            assert forall|k: SkillKey| self@.dom().contains(k) implies exists|i: int| 0 <= i < self.entries@.len() && #[trigger] self.entries@[i].0.key() == k by {
                let j = choose|j: int| entry_has_key(self.entries@, j, k);
                assert(self.entries@[j].0.key() == k);
            }
        }
        &self.entries
    }
}

/// A `u8` read as an `i8`: values from 128 up wrap around to negatives.
pub open spec fn as_signed(v: u8) -> int {
    if v < 128 {
        v as int
    } else {
        v - 256
    }
}

/// Reads a `u8` as an `i8`, as `u8::cast_signed` does.
pub fn to_signed(v: u8) -> (r: i8)
    ensures
        r == as_signed(v),
{
    if v < 128 {
        v as i8
    } else {
        (v as i16 - 256) as i8
    }
}

/// An opposed test never yields more than three victory stars.
pub proof fn opposed_stars_at_most_three(lhs: SuccessResult, rhs: SuccessResult)
    ensures
        spec_opposed_outcome(lhs, rhs).1 <= 3,
{
}

/// Whether an injury stops all use of a faculty impaired by `zones`: a
/// grievous injury (shock above 3) in one of the zones.
pub open spec fn blocks(injury: Injury, zones: Seq<Zone>) -> bool {
    zones.contains(injury.location.spec_zone()) && injury.shock > 3
}

/// The penalty one injury puts on a faculty impaired by `zones`: 10 for a
/// serious injury (shock 2 or 3), 5 for a lesser one, nothing outside the
/// zones or for a blocking one.
pub open spec fn penalty(injury: Injury, zones: Seq<Zone>) -> int {
    if zones.contains(injury.location.spec_zone()) {
        if injury.shock > 3 {
            0
        } else if injury.shock > 1 {
            10
        } else {
            5
        }
    } else {
        0
    }
}

/// The total impairment from a list of injuries.
pub open spec fn impairment(injuries: Seq<Injury>, zones: Seq<Zone>) -> int
    decreases injuries.len(),
{
    if injuries.len() == 0 {
        0
    } else {
        impairment(injuries.drop_last(), zones) + penalty(injuries.last(), zones)
    }
}

/// Whether some injury in the list blocks the faculty.
pub open spec fn blocked(injuries: Seq<Injury>, zones: Seq<Zone>) -> bool {
    exists|i: int| 0 <= i < injuries.len() && blocks(#[trigger] injuries[i], zones)
}

/// The effective mastery level: 0 when an injury blocks the faculty, else
/// the mastery level plus the modifier minus the impairment, held between 5
/// and 95.
pub open spec fn spec_eml(ml: u8, modifier: int, injuries: Seq<Injury>, zones: Seq<Zone>) -> int {
    if blocked(injuries, zones) {
        0
    } else {
        let e = as_signed(ml) + modifier - impairment(injuries, zones);
        if e < 5 {
            5
        } else if e < 95 {
            e
        } else {
            95
        }
    }
}

/// Whether the effective mastery level can be worked out in 32-bit
/// arithmetic.
pub open spec fn eml_fits(ml: u8, modifier: int, injuries: Seq<Injury>, zones: Seq<Zone>) -> bool {
    &&& impairment(injuries, zones) <= i32::MAX
    &&& !blocked(injuries, zones) ==> {
        &&& i32::MIN <= as_signed(ml) + modifier <= i32::MAX
        &&& i32::MIN <= as_signed(ml) + modifier - impairment(injuries, zones) <= i32::MAX
    }
}

proof fn lemma_impairment_grows(injuries: Seq<Injury>, zones: Seq<Zone>, n: int)
    requires
        0 <= n <= injuries.len(),
    ensures
        0 <= impairment(injuries.take(n), zones) <= impairment(injuries, zones),
    decreases injuries.len(),
{
    if n == injuries.len() {
        assert(injuries.take(n) =~= injuries);
        if injuries.len() > 0 {
            lemma_impairment_grows(injuries.drop_last(), zones, n - 1);
        }
    } else {
        assert(injuries.take(n) =~= injuries.drop_last().take(n));
        lemma_impairment_grows(injuries.drop_last(), zones, n);
    }
}

/// Whether a zone is in the list.
pub fn zone_listed(zones: &Vec<Zone>, zone: Zone) -> (b: bool)
    ensures
        b == zones@.contains(zone),
{
    let mut i: usize = 0;
    while i < zones.len()
        invariant
            i <= zones@.len(),
            forall|j: int| 0 <= j < i ==> zones@[j] != zone,
        decreases zones@.len() - i,
    {
        if zones[i] == zone {
            assert(zones@[i as int] == zone);
            return true;
        }
        i = i + 1;
    }
    false
}

/// Something a character can be tested on: a skill or an attribute.
pub trait Testable {
    /// Whether the skill base can be computed for the character.
    spec fn sb_fits(&self, character: &Being) -> bool;

    /// The skill base.
    spec fn spec_sb(&self, character: &Being) -> int;

    /// Whether the mastery level can be computed for the character.
    spec fn ml_fits(&self, character: &Being) -> bool;

    /// The mastery level.
    spec fn spec_ml(&self, character: &Being) -> int;

    /// The zones whose injuries impair the faculty.
    spec fn spec_impaired_by(&self) -> Seq<Zone>;

    fn sb(&self, character: &Being) -> (sb: u8)
        requires
            self.sb_fits(character),
        ensures
            sb == self.spec_sb(character),
    ;

    fn ml(&self, character: &Being) -> (ml: u8)
        requires
            self.ml_fits(character),
        ensures
            ml == self.spec_ml(character),
    ;

    fn impaired_by(&self) -> (zones: Vec<Zone>)
        ensures
            zones@ == self.spec_impaired_by(),
    ;

    /// The mastery level where it can be computed, and nothing where it
    /// cannot.
    fn ml_checked(&self, character: &Being) -> (ml: Option<u8>)
        ensures
            ml is Some <==> self.ml_fits(character),
            ml matches Some(v) ==> v == self.spec_ml(character),
    ;

    /// The mastery level divided by ten.
    fn index(&self, character: &Being) -> (i: u8)
        requires
            self.ml_fits(character),
        ensures
            i == self.spec_ml(character) / 10,
            i <= 25,
    {
        self.ml(character) / 10
    }

    /// The effective mastery level under a modifier and the character's
    /// injuries.
    fn eml(&self, modifier: i32, character: &Being) -> (eml: u8)
        requires
            self.ml_fits(character),
            eml_fits(
                self.spec_ml(character) as u8,
                modifier as int,
                character.injuries@,
                self.spec_impaired_by(),
            ),
        ensures
            eml == spec_eml(
                self.spec_ml(character) as u8,
                modifier as int,
                character.injuries@,
                self.spec_impaired_by(),
            ),
            eml == 0 || 5 <= eml <= 95,
    {
        let zones = self.impaired_by();
        let injuries = character.injuries();
        let ghost inj = injuries@;
        let mut block = false;
        let mut imparement: i32 = 0;
        let mut i: usize = 0;
        while i < injuries.len()
            invariant
                i <= inj.len(),
                inj == injuries@,
                imparement == impairment(inj.take(i as int), zones@),
                impairment(inj, zones@) <= i32::MAX,
                block == blocked(inj.take(i as int), zones@),
            decreases inj.len() - i,
        {
            let x = injuries[i];
            proof {
                assert(inj.take(i + 1).drop_last() =~= inj.take(i as int));
                lemma_impairment_grows(inj, zones@, i + 1);
            }
            if zone_listed(&zones, x.location.zone()) {
                if x.shock > 3 {
                    block = true;
                } else if x.shock > 1 {
                    imparement = imparement + 10;
                } else {
                    imparement = imparement + 5;
                }
            }
            proof {
                let t = inj.take(i + 1);
                if blocked(t, zones@) && !blocked(inj.take(i as int), zones@) {
                    let k = choose|k: int| 0 <= k < t.len() && blocks(#[trigger] t[k], zones@);
                    if k < i {
                        assert(inj.take(i as int)[k] == t[k]);
                    }
                }
                if blocked(inj.take(i as int), zones@) {
                    let k = choose|k: int| 0 <= k < i && blocks(#[trigger] inj.take(i as int)[k], zones@);
                    assert(t[k] == inj.take(i as int)[k]);
                }
                if x.location.spec_zone() == x.location.spec_zone() && zones@.contains(x.location.spec_zone()) && x.shock > 3 {
                    assert(t[i as int] == x);
                }
            }
            i = i + 1;
        }
        proof {
            assert(inj.take(inj.len() as int) =~= inj);
        }
        if block {
            return 0;
        }
        let ml = self.ml(character);
        let ml_signed: i32 = if ml < 128 {
            ml as i32
        } else {
            ml as i32 - 256
        };
        let eml = ml_signed + modifier - imparement;
        if eml < 5 {
            5
        } else if eml < 95 {
            eml as u8
        } else {
            95
        }
    }
}

/// One boost of a mastery level past skill level 5: +10 below 40, and
/// smaller steps further up, down to +3 from 100.
pub open spec fn boost_step(ml: int) -> int {
    if ml < 40 {
        10
    } else if ml < 45 {
        9
    } else if ml < 50 {
        8
    } else if ml < 60 {
        7
    } else if ml < 70 {
        6
    } else if ml < 80 {
        5
    } else if ml < 100 {
        4
    } else {
        3
    }
}

/// A mastery level after `n` boosts.
pub open spec fn boosted(ml: int, n: nat) -> int
    decreases n,
{
    if n == 0 {
        ml
    } else {
        boosted(ml + boost_step(ml), (n - 1) as nat)
    }
}

proof fn lemma_boosted_grows(ml: int, n: nat)
    ensures
        boosted(ml, n) >= ml,
    decreases n,
{
    if n > 0 {
        lemma_boosted_grows(ml + boost_step(ml), (n - 1) as nat);
    }
}

/// The skill base for two attribute values: their average, rounded up
/// only when the first is the larger and the sum is odd.
pub open spec fn base_of(first: u8, second: u8) -> int {
    let sum = first + second;
    if first > second && sum % 2 == 1 {
        sum / 2 + 1
    } else {
        sum / 2
    }
}

/// The mastery level of a skill at `level` with skill base `sb`: up to
/// level 5 the product, each level beyond a boost.
pub open spec fn skill_ml(level: u8, sb: int) -> int {
    if level > 5 {
        boosted(5 * sb, (level - 5) as nat)
    } else {
        level * sb
    }
}

impl Testable for Skill {
    open spec fn sb_fits(&self, character: &Being) -> bool {
        let (a, b) = self.spec_base_attributes();
        character.spec_attribute(a) + character.spec_attribute(b) <= 255
    }

    open spec fn spec_sb(&self, character: &Being) -> int {
        let (a, b) = self.spec_base_attributes();
        base_of(character.spec_attribute(a), character.spec_attribute(b))
    }

    open spec fn ml_fits(&self, character: &Being) -> bool {
        &&& self.sb_fits(character)
        &&& match character.spec_skill(*self) {
            Some(level) => skill_ml(level, self.spec_sb(character)) <= 255,
            None => true,
        }
    }

    open spec fn spec_ml(&self, character: &Being) -> int {
        match character.spec_skill(*self) {
            Some(level) => skill_ml(level, self.spec_sb(character)),
            None => 0,
        }
    }

    open spec fn spec_impaired_by(&self) -> Seq<Zone> {
        self.spec_impaired_zones()
    }

    fn sb(&self, character: &Being) -> (sb: u8) {
        let (a, b) = self.base_attributes();
        let first = character.attribute(a);
        let second = character.attribute(b);
        let sum: u8 = first + second;
        if first > second && sum % 2 == 1 {
            (sum / 2) + 1
        } else {
            sum / 2
        }
    }

    fn ml(&self, character: &Being) -> (ml: u8) {
        if let Some(level) = character.skill(self) {
            let sb = self.sb(character);
            let mut sm = level;
            let mut boosts: u8 = 0;
            if sm > 5 {
                boosts = sm - 5;
                sm = 5;
            }
            proof {
                if level > 5 {
                    lemma_boosted_grows(5 * sb, boosts as nat);
                }
            }
            let mut ml: u8 = sm * sb;
            while boosts > 0
                invariant
                    boosted(ml as int, boosts as nat) == skill_ml(level, sb as int),
                    skill_ml(level, sb as int) <= 255,
                decreases boosts,
            {
                proof {
                    lemma_boosted_grows(ml + boost_step(ml as int), (boosts - 1) as nat);
                }
                ml = if ml < 40 {
                    ml + 10
                } else if ml < 45 {
                    ml + 9
                } else if ml < 50 {
                    ml + 8
                } else if ml < 60 {
                    ml + 7
                } else if ml < 70 {
                    ml + 6
                } else if ml < 80 {
                    ml + 5
                } else if ml < 100 {
                    ml + 4
                } else {
                    ml + 3
                };
                boosts = boosts - 1;
            }
            ml
        } else {
            0
        }
    }

    fn ml_checked(&self, character: &Being) -> (ml: Option<u8>) {
        let (a, b) = self.base_attributes();
        let first = character.attribute(a);
        let second = character.attribute(b);
        if first as u16 + second as u16 > 255 {
            return None;
        }
        let sb = self.sb(character);
        match character.skill(self) {
            None => Some(0),
            Some(level) => {
                let mut ml: u32;
                let mut boosts: u32;
                if level > 5 {
                    ml = 5 * sb as u32;
                    boosts = level as u32 - 5;
                } else {
                    proof {
                        assert(level * sb <= 5 * 255) by (nonlinear_arith)
                            requires
                                level <= 5,
                                sb <= 255,
                        ;
                    }
                    ml = level as u32 * sb as u32;
                    boosts = 0;
                }
                while boosts > 0
                    invariant
                        boosted(ml as int, boosts as nat) == skill_ml(level, sb as int),
                        ml + 10 * boosts <= 5 * 255 + 10 * 250,
                    decreases boosts,
                {
                    ml = if ml < 40 {
                        ml + 10
                    } else if ml < 45 {
                        ml + 9
                    } else if ml < 50 {
                        ml + 8
                    } else if ml < 60 {
                        ml + 7
                    } else if ml < 70 {
                        ml + 6
                    } else if ml < 80 {
                        ml + 5
                    } else if ml < 100 {
                        ml + 4
                    } else {
                        ml + 3
                    };
                    boosts = boosts - 1;
                }
                if ml <= 255 {
                    Some(ml as u8)
                } else {
                    None
                }
            },
        }
    }

    fn impaired_by(&self) -> (zones: Vec<Zone>) {
        match self {
            Skill::Acrobatics
            | Skill::Archery
            | Skill::Climbing
            | Skill::Dancing
            | Skill::Jumping
            | Skill::Melee
            | Skill::Riding
            | Skill::Slings
            | Skill::Swimming
            | Skill::Throwing => vec![Zone::Head, Zone::Arm, Zone::Torso, Zone::Leg],
            Skill::Awareness => vec![Zone::Head],
            Skill::Dodge
            | Skill::Stealth
            | Skill::Ceramics
            | Skill::Drawing
            | Skill::Fletching
            | Skill::Glassworking
            | Skill::Hideworking
            | Skill::Jewelcraft
            | Skill::Lockcraft
            | Skill::Masonry
            | Skill::Metalcraft
            | Skill::Milling
            | Skill::Musician(_)
            | Skill::Textilecraft
            | Skill::Weaponcraft
            | Skill::Woodworking => vec![Zone::Head, Zone::Torso, Zone::Leg],
            Skill::Legerdemain => vec![Zone::Head, Zone::Arm],
            _ => vec![],
        }
    }
}

impl Testable for Attribute {
    open spec fn sb_fits(&self, character: &Being) -> bool {
        true
    }

    open spec fn spec_sb(&self, character: &Being) -> int {
        character.spec_attribute(*self) as int
    }

    open spec fn ml_fits(&self, character: &Being) -> bool {
        character.spec_attribute(*self) * 5 <= 255
    }

    open spec fn spec_ml(&self, character: &Being) -> int {
        character.spec_attribute(*self) * 5
    }

    open spec fn spec_impaired_by(&self) -> Seq<Zone> {
        self.spec_impaired_zones()
    }

    fn sb(&self, character: &Being) -> (sb: u8) {
        let v = character.attribute(*self);
        assert(v == character.spec_attribute(*self));
        assert(self.spec_sb(character) == character.spec_attribute(*self) as int);
        v
    }

    fn ml(&self, character: &Being) -> (ml: u8) {
        character.attribute(*self) * 5
    }

    fn ml_checked(&self, character: &Being) -> (ml: Option<u8>) {
        let v = character.attribute(*self);
        if v <= 51 {
            Some(v * 5)
        } else {
            None
        }
    }

    fn impaired_by(&self) -> (zones: Vec<Zone>) {
        match self {
            Attribute::Agility => vec![Zone::Head, Zone::Torso, Zone::Leg],
            Attribute::Dexterity => vec![Zone::Head, Zone::Arm, Zone::Torso],
            Attribute::Strength => vec![Zone::Head, Zone::Arm, Zone::Torso, Zone::Leg],
            _ => Vec::new(),
        }
    }
}

impl Attribute {
    pub open spec fn spec_label(self) -> Seq<char> {
        match self {
            Attribute::Strength => "Strength"@,
            Attribute::Endurance => "Endurance"@,
            Attribute::Dexterity => "Dexterity"@,
            Attribute::Agility => "Agility"@,
            Attribute::Perception => "Perception"@,
            Attribute::Comeliness => "Comeliness"@,
            Attribute::Aura => "Aura"@,
            Attribute::Will => "Will"@,
            Attribute::Reasoning => "Reasoning"@,
            Attribute::Creativity => "Creativity"@,
            Attribute::Empathy => "Empathy"@,
            Attribute::Eloquence => "Eloquence"@,
        }
    }

    /// The attribute's name.
    pub fn label(self) -> (s: &'static str)
        ensures
            s@ == self.spec_label(),
    {
        match self {
            Attribute::Strength => "Strength",
            Attribute::Endurance => "Endurance",
            Attribute::Dexterity => "Dexterity",
            Attribute::Agility => "Agility",
            Attribute::Perception => "Perception",
            Attribute::Comeliness => "Comeliness",
            Attribute::Aura => "Aura",
            Attribute::Will => "Will",
            Attribute::Reasoning => "Reasoning",
            Attribute::Creativity => "Creativity",
            Attribute::Empathy => "Empathy",
            Attribute::Eloquence => "Eloquence",
        }
    }
}

impl Skill {
    /// The skill's name as a sheet writes it: the name it carries, or the
    /// name of the skill itself.
    pub open spec fn spec_label(self) -> Seq<char> {
        match self {
            Skill::Acrobatics => "Acrobatics"@,
            Skill::Agriculture => "Agriculture"@,
            Skill::Alchemy => "Alchemy"@,
            Skill::Animalcraft => "Animalcraft"@,
            Skill::Archery => "Archery"@,
            Skill::Astrology => "Astrology"@,
            Skill::Awareness => "Awareness"@,
            Skill::Brewing => "Brewing"@,
            Skill::Ceramics => "Ceramics"@,
            Skill::Charm => "Charm"@,
            Skill::Climbing => "Climbing"@,
            Skill::Command => "Command"@,
            Skill::Cookery => "Cookery"@,
            Skill::Dancing => "Dancing"@,
            Skill::Discourse => "Discourse"@,
            Skill::Dodge => "Dodge"@,
            Skill::Drawing => "Drawing"@,
            Skill::Embalming => "Embalming"@,
            Skill::Engineering => "Engineering"@,
            Skill::Fishing => "Fishing"@,
            Skill::Fletching => "Fletching"@,
            Skill::Folklore => "Folklore"@,
            Skill::Glassworking => "Glassworking"@,
            Skill::Guile => "Guile"@,
            Skill::Heraldry => "Heraldry"@,
            Skill::Herblore => "Herblore"@,
            Skill::Hideworking => "Hideworking"@,
            Skill::Initiative => "Initiative"@,
            Skill::Intrigue => "Intrigue"@,
            Skill::Jewelcraft => "Jewelcraft"@,
            Skill::Jumping => "Jumping"@,
            Skill::Language(s) => s@,
            Skill::Law => "Law"@,
            Skill::Legerdemain => "Legerdemain"@,
            Skill::Lockcraft => "Lockcraft"@,
            Skill::Masonry => "Masonry"@,
            Skill::Mathematics => "Mathematics"@,
            Skill::Melee => "Melee"@,
            Skill::Mercantilism => "Mercantilism"@,
            Skill::Metalcraft => "Metalcraft"@,
            Skill::Milling => "Milling"@,
            Skill::Mineralogy => "Mineralogy"@,
            Skill::Musician(s) => s@,
            Skill::Perfumery => "Perfumery"@,
            Skill::Physician => "Physician"@,
            Skill::Piloting => "Piloting"@,
            Skill::Pvarism => "Pvarism"@,
            Skill::Riding => "Riding"@,
            Skill::Ritual(s) => s@,
            Skill::Runecraft => "Runecraft"@,
            Skill::Script(s) => s@,
            Skill::Seamanship => "Seamanship"@,
            Skill::Shipwright(s) => s@,
            Skill::Shock => "Shock"@,
            Skill::Slings => "Slings"@,
            Skill::Spirit => "Spirit"@,
            Skill::Stealth => "Stealth"@,
            Skill::Summoning(s) => s@,
            Skill::Survival => "Survival"@,
            Skill::Swimming => "Swimming"@,
            Skill::Talent(s) => s@,
            Skill::Tarotry => "Tarotry"@,
            Skill::Textilecraft => "Textilecraft"@,
            Skill::Theatrics => "Theatrics"@,
            Skill::Throwing => "Throwing"@,
            Skill::Timbercraft => "Timbercraft"@,
            Skill::Tracking => "Tracking"@,
            Skill::Trance => "Trance"@,
            Skill::Weaponcraft => "Weaponcraft"@,
            Skill::Woodworking => "Woodworking"@,
        }
    }

    /// The skill's name as a sheet writes it.
    pub fn label(&self) -> (s: String)
        ensures
            s@ == self.spec_label(),
    {
        match self {
            Skill::Acrobatics => "Acrobatics".to_owned(),
            Skill::Agriculture => "Agriculture".to_owned(),
            Skill::Alchemy => "Alchemy".to_owned(),
            Skill::Animalcraft => "Animalcraft".to_owned(),
            Skill::Archery => "Archery".to_owned(),
            Skill::Astrology => "Astrology".to_owned(),
            Skill::Awareness => "Awareness".to_owned(),
            Skill::Brewing => "Brewing".to_owned(),
            Skill::Ceramics => "Ceramics".to_owned(),
            Skill::Charm => "Charm".to_owned(),
            Skill::Climbing => "Climbing".to_owned(),
            Skill::Command => "Command".to_owned(),
            Skill::Cookery => "Cookery".to_owned(),
            Skill::Dancing => "Dancing".to_owned(),
            Skill::Discourse => "Discourse".to_owned(),
            Skill::Dodge => "Dodge".to_owned(),
            Skill::Drawing => "Drawing".to_owned(),
            Skill::Embalming => "Embalming".to_owned(),
            Skill::Engineering => "Engineering".to_owned(),
            Skill::Fishing => "Fishing".to_owned(),
            Skill::Fletching => "Fletching".to_owned(),
            Skill::Folklore => "Folklore".to_owned(),
            Skill::Glassworking => "Glassworking".to_owned(),
            Skill::Guile => "Guile".to_owned(),
            Skill::Heraldry => "Heraldry".to_owned(),
            Skill::Herblore => "Herblore".to_owned(),
            Skill::Hideworking => "Hideworking".to_owned(),
            Skill::Initiative => "Initiative".to_owned(),
            Skill::Intrigue => "Intrigue".to_owned(),
            Skill::Jewelcraft => "Jewelcraft".to_owned(),
            Skill::Jumping => "Jumping".to_owned(),
            Skill::Language(s) => s.clone(),
            Skill::Law => "Law".to_owned(),
            Skill::Legerdemain => "Legerdemain".to_owned(),
            Skill::Lockcraft => "Lockcraft".to_owned(),
            Skill::Masonry => "Masonry".to_owned(),
            Skill::Mathematics => "Mathematics".to_owned(),
            Skill::Melee => "Melee".to_owned(),
            Skill::Mercantilism => "Mercantilism".to_owned(),
            Skill::Metalcraft => "Metalcraft".to_owned(),
            Skill::Milling => "Milling".to_owned(),
            Skill::Mineralogy => "Mineralogy".to_owned(),
            Skill::Musician(s) => s.clone(),
            Skill::Perfumery => "Perfumery".to_owned(),
            Skill::Physician => "Physician".to_owned(),
            Skill::Piloting => "Piloting".to_owned(),
            Skill::Pvarism => "Pvarism".to_owned(),
            Skill::Riding => "Riding".to_owned(),
            Skill::Ritual(s) => s.clone(),
            Skill::Runecraft => "Runecraft".to_owned(),
            Skill::Script(s) => s.clone(),
            Skill::Seamanship => "Seamanship".to_owned(),
            Skill::Shipwright(s) => s.clone(),
            Skill::Shock => "Shock".to_owned(),
            Skill::Slings => "Slings".to_owned(),
            Skill::Spirit => "Spirit".to_owned(),
            Skill::Stealth => "Stealth".to_owned(),
            Skill::Summoning(s) => s.clone(),
            Skill::Survival => "Survival".to_owned(),
            Skill::Swimming => "Swimming".to_owned(),
            Skill::Talent(s) => s.clone(),
            Skill::Tarotry => "Tarotry".to_owned(),
            Skill::Textilecraft => "Textilecraft".to_owned(),
            Skill::Theatrics => "Theatrics".to_owned(),
            Skill::Throwing => "Throwing".to_owned(),
            Skill::Timbercraft => "Timbercraft".to_owned(),
            Skill::Tracking => "Tracking".to_owned(),
            Skill::Trance => "Trance".to_owned(),
            Skill::Weaponcraft => "Weaponcraft".to_owned(),
            Skill::Woodworking => "Woodworking".to_owned(),
        }
    }
}

/// The head of a table row: three spaces, then the name and a colon dotted
/// out to 14 characters, then a space.
pub open spec fn row_head(label: Seq<char>) -> Seq<char> {
    "   "@ + fill_to(label + ": "@, '.', 14) + " "@
}

/// A value right-aligned in two columns.
pub open spec fn column(value: int) -> Seq<char> {
    pad_to(signed_decimal(value), 2)
}

/// One row of a table of attributes or skills: the name and the value.
pub open spec fn table_row(label: Seq<char>, value: u8) -> Seq<char> {
    row_head(label) + column(value as int) + "\n"@
}

/// Writes the head of a table row.
pub fn append_row_head(s: &mut String, label: &str)
    ensures
        final(s)@ == old(s)@ + row_head(label@),
{
    proof {
        reveal_strlit(".");
    }
    let mut name = label.to_owned();
    name.append(": ");
    s.append("   ");
    append_filled(s, name.as_str(), ".", 14);
    s.append(" ");
    proof {
        assert(s@ =~= old(s)@ + row_head(label@));
    }
}

/// Writes a value right-aligned in two columns.
pub fn append_column(s: &mut String, value: i64)
    ensures
        final(s)@ == old(s)@ + column(value as int),
{
    let text = decimal_string(value);
    append_padded(s, text.as_str(), 2);
}

/// The rows of a table of attributes, in order.
pub open spec fn attribute_rows(pairs: Seq<(Attribute, u8)>) -> Seq<char>
    decreases pairs.len(),
{
    if pairs.len() == 0 {
        Seq::empty()
    } else {
        attribute_rows(pairs.drop_last()) + table_row(pairs.last().0.spec_label(), pairs.last().1)
    }
}

/// The rows of a table of skills, in order.
pub open spec fn skill_rows(pairs: Seq<(Skill, u8)>) -> Seq<char>
    decreases pairs.len(),
{
    if pairs.len() == 0 {
        Seq::empty()
    } else {
        skill_rows(pairs.drop_last()) + table_row(pairs.last().0.spec_label(), pairs.last().1)
    }
}

impl AttributeSet {
    /// The table as a sheet writes it: a heading, then one row per
    /// attribute held, in the order of the list of attributes.
    pub fn render(&self) -> (s: String)
        ensures
            s@ == "Attributes:\n"@ + attribute_rows(present_attributes(self@, 12)),
    {
        let pairs = self.pairs();
        let mut s = "Attributes:\n".to_owned();
        let mut i: usize = 0;
        while i < pairs.len()
            invariant
                i <= pairs@.len(),
                s@ == "Attributes:\n"@ + attribute_rows(pairs@.take(i as int)),
            decreases pairs@.len() - i,
        {
            let (a, v) = pairs[i];
            proof {
                assert(pairs@.take(i + 1).drop_last() =~= pairs@.take(i as int));
            }
            append_row_head(&mut s, a.label());
            append_column(&mut s, v as i64);
            s.append("\n");
            i = i + 1;
            proof {
                assert(s@ =~= "Attributes:\n"@ + attribute_rows(pairs@.take(i as int)));
            }
        }
        assert(pairs@.take(pairs@.len() as int) =~= pairs@);
        s
    }
}

impl SkillSet {
    /// The table as a sheet writes it: a heading, then one row per skill,
    /// in the order the table keeps them.
    pub fn render(&self) -> (s: String)
        ensures
            s@ == "Skills:\n"@ + skill_rows(self.entry_list()),
    {
        let pairs = self.pairs();
        let mut s = "Skills:\n".to_owned();
        let mut i: usize = 0;
        while i < pairs.len()
            invariant
                i <= pairs@.len(),
                s@ == "Skills:\n"@ + skill_rows(pairs@.take(i as int)),
            decreases pairs@.len() - i,
        {
            let entry = &pairs[i];
            proof {
                assert(pairs@.take(i + 1).drop_last() =~= pairs@.take(i as int));
            }
            let name = entry.0.label();
            append_row_head(&mut s, name.as_str());
            append_column(&mut s, entry.1 as i64);
            s.append("\n");
            i = i + 1;
            proof {
                assert(s@ =~= "Skills:\n"@ + skill_rows(pairs@.take(i as int)));
            }
        }
        assert(pairs@.take(pairs@.len() as int) =~= pairs@);
        s
    }
}

/// A larger modifier never lowers the effective mastery level of a skill,
/// and a further injury never raises it.
pub proof fn skill_eml_is_monotone(being: Being, hurt: Being, skill: Skill, low: int, high: int, injury: Injury)
    requires
        low <= high,
        hurt == (Being { injuries: hurt.injuries, ..being }),
        hurt.injuries@ == being.injuries@.push(injury),
    ensures
        being.spec_test_eml(&skill, low) <= being.spec_test_eml(&skill, high),
        hurt.spec_test_eml(&skill, low) <= being.spec_test_eml(&skill, low),
{
    assert(skill.spec_ml(&hurt) == skill.spec_ml(&being));
    injury_never_raises_eml(skill.spec_ml(&being) as u8, low, being.injuries@, injury, skill.spec_impaired_by());
}

/// A larger modifier never lowers the effective mastery level of an
/// attribute, and a further injury never raises it.
pub proof fn attribute_eml_is_monotone(
    being: Being,
    hurt: Being,
    attribute: Attribute,
    low: int,
    high: int,
    injury: Injury,
)
    requires
        low <= high,
        hurt == (Being { injuries: hurt.injuries, ..being }),
        hurt.injuries@ == being.injuries@.push(injury),
    ensures
        being.spec_test_eml(&attribute, low) <= being.spec_test_eml(&attribute, high),
        hurt.spec_test_eml(&attribute, low) <= being.spec_test_eml(&attribute, low),
{
    assert(attribute.spec_ml(&hurt) == attribute.spec_ml(&being));
    injury_never_raises_eml(
        attribute.spec_ml(&being) as u8,
        low,
        being.injuries@,
        injury,
        attribute.spec_impaired_by(),
    );
}

/// Dodging is hampered by wounds to the head, the torso and the legs, but
/// not the arms: an arm wound leaves the effective mastery level of dodge
/// as it was, and a grievous wound (shock over 3) anywhere else brings it
/// to 0.
pub proof fn dodging_ignores_arm_wounds(being: Being, hurt: Being, injury: Injury, modifier: int)
    requires
        hurt == (Being { injuries: hurt.injuries, ..being }),
        hurt.injuries@ == being.injuries@.push(injury),
    ensures
        injury.location.spec_zone() == Zone::Arm ==> hurt.spec_test_eml(&Skill::Dodge, modifier)
            == being.spec_test_eml(&Skill::Dodge, modifier),
        injury.location.spec_zone() != Zone::Arm && injury.shock > 3 ==> hurt.spec_test_eml(
            &Skill::Dodge,
            modifier,
        ) == 0,
{
    let zones = Skill::Dodge.spec_impaired_zones();
    let before = being.injuries@;
    let after = hurt.injuries@;
    assert(after.drop_last() =~= before);
    assert(after[after.len() - 1] == injury);
    assert(Skill::Dodge.spec_ml(&hurt) == Skill::Dodge.spec_ml(&being));
    if injury.location.spec_zone() == Zone::Arm {
        assert(!zones.contains(Zone::Arm)) by {
            if zones.contains(Zone::Arm) {
                let k = choose|k: int| 0 <= k < zones.len() && zones[k] == Zone::Arm;
                assert(zones[0] == Zone::Head && zones[1] == Zone::Torso && zones[2] == Zone::Leg);
            }
        }
        assert(blocked(after, zones) == blocked(before, zones)) by {
            if blocked(after, zones) {
                let k = choose|k: int| 0 <= k < after.len() && blocks(#[trigger] after[k], zones);
                assert(k < before.len());
                assert(before[k] == after[k]);
            }
            if blocked(before, zones) {
                let k = choose|k: int| 0 <= k < before.len() && blocks(#[trigger] before[k], zones);
                assert(after[k] == before[k]);
            }
        }
        assert(impairment(after, zones) == impairment(before, zones));
    } else {
        assert(zones.contains(injury.location.spec_zone())) by {
            let z = injury.location.spec_zone();
            if z == Zone::Head {
                assert(zones[0] == z);
            } else if z == Zone::Torso {
                assert(zones[1] == z);
            } else {
                assert(zones[2] == z);
            }
        }
        if injury.shock > 3 {
            assert(blocks(after[after.len() - 1], zones));
            assert(blocked(after, zones));
        }
    }
}

/// The skill base of riding is the average of Empathy and Agility, an odd
/// sum rounded up where Empathy is the greater and down otherwise: it
/// depends on those two attributes and no other.
pub proof fn riding_rests_on_empathy_and_agility(a: Being, b: Being)
    ensures
        ({
            let e = a.spec_attribute(Attribute::Empathy) as int;
            let g = a.spec_attribute(Attribute::Agility) as int;
            let sb = Skill::Riding.spec_sb(&a);
            &&& e + g - 1 <= 2 * sb <= e + g + 1
            &&& 2 * sb == e + g + 1 <==> (e > g && (e + g) % 2 == 1)
            &&& 2 * sb == e + g - 1 <==> (e <= g && (e + g) % 2 == 1)
        }),
        a.spec_attribute(Attribute::Empathy) == b.spec_attribute(Attribute::Empathy) && a.spec_attribute(
            Attribute::Agility,
        ) == b.spec_attribute(Attribute::Agility) ==> Skill::Riding.spec_sb(&a) == Skill::Riding.spec_sb(&b),
{
    let e = a.spec_attribute(Attribute::Empathy);
    let g = a.spec_attribute(Attribute::Agility);
    assert(Skill::Riding.spec_sb(&a) == base_of(e, g));
    let sum = e + g;
    assert(sum == 2 * (sum / 2) + sum % 2 && 0 <= sum % 2 < 2) by (nonlinear_arith)
        requires
            sum >= 0,
    ;
}

/// A further injury never raises an effective mastery level.
pub proof fn injury_never_raises_eml(
    ml: u8,
    modifier: int,
    injuries: Seq<Injury>,
    injury: Injury,
    zones: Seq<Zone>,
)
    ensures
        spec_eml(ml, modifier, injuries.push(injury), zones) <= spec_eml(
            ml,
            modifier,
            injuries,
            zones,
        ),
{
    let after = injuries.push(injury);
    assert(after.drop_last() =~= injuries);
    if blocked(injuries, zones) {
        let k = choose|k: int| 0 <= k < injuries.len() && blocks(#[trigger] injuries[k], zones);
        assert(after[k] == injuries[k]);
    }
    if !blocked(after, zones) {
        assert(penalty(injury, zones) >= 0);
    }
}

/// A skill table gives back the level last entered for a skill, and
/// entering it leaves every other skill as it was.
pub proof fn entered_level_reads_back(m: Map<SkillKey, u8>, skill: Skill, level: u8, other: Skill)
    ensures
        m.insert(skill.key(), level).dom().contains(skill.key()),
        m.insert(skill.key(), level)[skill.key()] == level,
        other.key() != skill.key() ==> (m.insert(skill.key(), level).dom().contains(other.key())
            == m.dom().contains(other.key()) && m.insert(skill.key(), level)[other.key()]
            == m[other.key()]),
{
}

} // verus!

//! Rules of the HMK roleplaying system: success tests, mastery levels,
//! injuries and shock, armour protection, weapon modes, missile ranges,
//! initiative, the calendar and the character sheet, each stated as a
//! contract and proved.
pub mod armor;
pub mod armory;
pub mod beastiary;
pub mod being;
pub mod core_rules;
pub mod date;
pub mod dice;
pub mod initiative;
pub mod item;
pub mod limits;
pub mod ranking;
pub mod sheet;
pub mod text;
pub mod weapons;

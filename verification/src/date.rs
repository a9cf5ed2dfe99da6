//! The calendar: dates of twelve months of thirty days, and the sunsigns
//! they fall under.
use vstd::prelude::*;

verus! {

/// A day of the calendar: twelve months of thirty days each.
#[derive(Debug, Clone, Copy)]
pub struct Date {
    year: u16,
    month: u8,
    day: u8,
}

/// Why a date could not be made.
#[derive(Debug, PartialEq, Eq, Structural, Clone, Copy)]
pub enum DateError {
    /// The month is not 1 to 12, or the day not 1 to 30.
    BadInput,
}

impl DateError {
    /// The text of the error.
    pub fn message(&self) -> (s: &'static str)
        ensures
            s@ == "bad date input"@,
    {
        match self {
            DateError::BadInput => "bad date input",
        }
    }
}

/// Whether a month and day name a day of the calendar.
pub open spec fn valid_day(month: u8, day: u8) -> bool {
    1 <= month <= 12 && 1 <= day <= 30
}

impl Default for Date {
    /// The first day of the first month of the first year.
    fn default() -> (d: Date)
        ensures
            d.spec_year() == 1,
            d.spec_month() == 1,
            d.spec_day() == 1,
    {
        Date { year: 1, month: 1, day: 1 }
    }
}

impl Date {
    #[verifier::type_invariant]
    spec fn is_calendar_day(self) -> bool {
        valid_day(self.month, self.day)
    }

    pub closed spec fn spec_year(self) -> u16 {
        self.year
    }

    pub closed spec fn spec_month(self) -> u8 {
        self.month
    }

    pub closed spec fn spec_day(self) -> u8 {
        self.day
    }

    /// The date of a day; a month outside 1 to 12 or a day outside 1 to 30
    /// is refused.
    pub fn new(year: u16, month: u8, day: u8) -> (r: Result<Date, DateError>)
        ensures
            match r {
                Ok(d) => valid_day(month, day) && d.spec_year() == year && d.spec_month() == month
                    && d.spec_day() == day,
                Err(e) => !valid_day(month, day) && e == DateError::BadInput,
            },
    {
        if month <= 12 && month > 0 && day <= 30 && day > 0 {
            Ok(Date { month, day, year })
        } else {
            Err(DateError::BadInput)
        }
    }

    pub fn year(&self) -> (y: u16)
        ensures
            y == self.spec_year(),
    {
        self.year
    }

    pub fn month(&self) -> (m: u8)
        ensures
            m == self.spec_month(),
            1 <= m <= 12,
    {
        proof {
            use_type_invariant(self);
        }
        self.month
    }

    pub fn day(&self) -> (d: u8)
        ensures
            d == self.spec_day(),
            1 <= d <= 30,
    {
        proof {
            use_type_invariant(self);
        }
        self.day
    }

    /// The day of the year, from 1 to 360.
    pub open spec fn spec_ordinal(self) -> int {
        (self.spec_month() - 1) * 30 + self.spec_day()
    }

    /// The day of the year, from 1 to 360.
    pub fn as_ordinal(&self) -> (o: u16)
        ensures
            o == self.spec_ordinal(),
            1 <= o <= 360,
    {
        proof {
            use_type_invariant(self);
        }
        (self.month as u16 - 1) * 30 + self.day as u16
    }
}

/// The twelve sunsigns of the year.
#[derive(Debug, PartialEq, Eq, Structural, Clone, Copy)]
pub enum Sunsign {
    Ulandus,
    Aralius,
    Feneri,
    Ahnu,
    Angberelius,
    Nadai,
    Hirin,
    Tarael,
    Tai,
    Skorus,
    Masara,
    Lado,
}

/// The sunsign of a day of the year, and the second sign of a day that lies
/// on the cusp of two.
pub open spec fn sunsign_of_day(ordinal: int) -> (Sunsign, Option<Sunsign>) {
    if 2 <= ordinal < 6 {
        (Sunsign::Lado, Some(Sunsign::Ulandus))
    } else if 6 <= ordinal < 32 {
        (Sunsign::Ulandus, None)
    } else if 32 <= ordinal < 36 {
        (Sunsign::Ulandus, Some(Sunsign::Aralius))
    } else if 36 <= ordinal < 61 {
        (Sunsign::Aralius, None)
    } else if 61 <= ordinal < 65 {
        (Sunsign::Aralius, Some(Sunsign::Feneri))
    } else if 65 <= ordinal < 92 {
        (Sunsign::Feneri, None)
    } else if 92 <= ordinal < 96 {
        (Sunsign::Feneri, Some(Sunsign::Ahnu))
    } else if 96 <= ordinal < 123 {
        (Sunsign::Ahnu, None)
    } else if 123 <= ordinal < 127 {
        (Sunsign::Ahnu, Some(Sunsign::Angberelius))
    } else if 127 <= ordinal < 155 {
        (Sunsign::Angberelius, None)
    } else if 155 <= ordinal < 159 {
        (Sunsign::Angberelius, Some(Sunsign::Nadai))
    } else if 159 <= ordinal < 184 {
        (Sunsign::Nadai, None)
    } else if 184 <= ordinal < 188 {
        (Sunsign::Nadai, Some(Sunsign::Hirin))
    } else if 188 <= ordinal < 213 {
        (Sunsign::Hirin, None)
    } else if 213 <= ordinal < 217 {
        (Sunsign::Hirin, Some(Sunsign::Tarael))
    } else if 217 <= ordinal < 242 {
        (Sunsign::Tarael, None)
    } else if 242 <= ordinal < 246 {
        (Sunsign::Tarael, Some(Sunsign::Tai))
    } else if 246 <= ordinal < 271 {
        (Sunsign::Tai, None)
    } else if 271 <= ordinal < 275 {
        (Sunsign::Tai, Some(Sunsign::Skorus))
    } else if 275 <= ordinal < 301 {
        (Sunsign::Skorus, None)
    } else if 301 <= ordinal < 305 {
        (Sunsign::Skorus, Some(Sunsign::Masara))
    } else if 305 <= ordinal < 330 {
        (Sunsign::Masara, None)
    } else if 330 <= ordinal < 334 {
        (Sunsign::Masara, Some(Sunsign::Lado))
    } else {
        (Sunsign::Lado, None)
    }
}

impl Sunsign {
    /// The sign that follows this one through the year.
    pub open spec fn next(self) -> Sunsign {
        match self {
            Sunsign::Ulandus => Sunsign::Aralius,
            Sunsign::Aralius => Sunsign::Feneri,
            Sunsign::Feneri => Sunsign::Ahnu,
            Sunsign::Ahnu => Sunsign::Angberelius,
            Sunsign::Angberelius => Sunsign::Nadai,
            Sunsign::Nadai => Sunsign::Hirin,
            Sunsign::Hirin => Sunsign::Tarael,
            Sunsign::Tarael => Sunsign::Tai,
            Sunsign::Tai => Sunsign::Skorus,
            Sunsign::Skorus => Sunsign::Masara,
            Sunsign::Masara => Sunsign::Lado,
            Sunsign::Lado => Sunsign::Ulandus,
        }
    }
}

/// The signs follow the days through the cusps: from one day to the next
/// (the last day of the year followed by the first) the sign stays the
/// same, except that the day after a cusp falls under the sign the cusp
/// led into.
pub proof fn signs_follow_the_cusps(ordinal: int)
    requires
        1 <= ordinal <= 360,
    ensures
        ({
            let today = sunsign_of_day(ordinal);
            let tomorrow = sunsign_of_day(if ordinal == 360 { 1 } else { ordinal + 1 });
            tomorrow.0 == match (today.1, tomorrow.1) {
                (Some(next), None) => next,
                _ => today.0,
            }
        }),
{
}

/// A day on a cusp lies between a sign and the sign that follows it.
pub proof fn cusp_joins_neighbours(ordinal: int)
    ensures
        sunsign_of_day(ordinal).1 matches Some(second) ==> second == sunsign_of_day(ordinal).0.next(),
{
}

impl Sunsign {
    /// The sunsign a date falls under, with the second sign of a cusp day.
    pub fn from_date(date: &Date) -> (r: (Sunsign, Option<Sunsign>))
        ensures
            r == sunsign_of_day(date.spec_ordinal()),
    {
        let o = date.as_ordinal();
        if 2 <= o && o < 6 {
            (Sunsign::Lado, Some(Sunsign::Ulandus))
        } else if 6 <= o && o < 32 {
            (Sunsign::Ulandus, None)
        } else if 32 <= o && o < 36 {
            (Sunsign::Ulandus, Some(Sunsign::Aralius))
        } else if 36 <= o && o < 61 {
            (Sunsign::Aralius, None)
        } else if 61 <= o && o < 65 {
            (Sunsign::Aralius, Some(Sunsign::Feneri))
        } else if 65 <= o && o < 92 {
            (Sunsign::Feneri, None)
        } else if 92 <= o && o < 96 {
            (Sunsign::Feneri, Some(Sunsign::Ahnu))
        } else if 96 <= o && o < 123 {
            (Sunsign::Ahnu, None)
        } else if 123 <= o && o < 127 {
            (Sunsign::Ahnu, Some(Sunsign::Angberelius))
        } else if 127 <= o && o < 155 {
            (Sunsign::Angberelius, None)
        } else if 155 <= o && o < 159 {
            (Sunsign::Angberelius, Some(Sunsign::Nadai))
        } else if 159 <= o && o < 184 {
            (Sunsign::Nadai, None)
        } else if 184 <= o && o < 188 {
            (Sunsign::Nadai, Some(Sunsign::Hirin))
        } else if 188 <= o && o < 213 {
            (Sunsign::Hirin, None)
        } else if 213 <= o && o < 217 {
            (Sunsign::Hirin, Some(Sunsign::Tarael))
        } else if 217 <= o && o < 242 {
            (Sunsign::Tarael, None)
        } else if 242 <= o && o < 246 {
            (Sunsign::Tarael, Some(Sunsign::Tai))
        } else if 246 <= o && o < 271 {
            (Sunsign::Tai, None)
        } else if 271 <= o && o < 275 {
            (Sunsign::Tai, Some(Sunsign::Skorus))
        } else if 275 <= o && o < 301 {
            (Sunsign::Skorus, None)
        } else if 301 <= o && o < 305 {
            (Sunsign::Skorus, Some(Sunsign::Masara))
        } else if 305 <= o && o < 330 {
            (Sunsign::Masara, None)
        } else if 330 <= o && o < 334 {
            (Sunsign::Masara, Some(Sunsign::Lado))
        } else if 334 <= o && o < 361 {
            (Sunsign::Lado, None)
        } else {
            (Sunsign::Lado, None)
        }
    }

    /// The traits of the sign, from the virtues to the vices.
    pub open spec fn spec_trait(self, n: int) -> Seq<char> {
        match self {
            Sunsign::Ulandus => if n == 0 {
                "patient"@
            } else if n == 1 {
                "confident"@
            } else if n == 2 {
                "calm"@
            } else if n == 3 {
                "aloof"@
            } else if n == 4 {
                "inflexible"@
            } else {
                "stubborn"@
            },
            Sunsign::Aralius => if n == 0 {
                "energetic"@
            } else if n == 1 {
                "optimistic"@
            } else if n == 2 {
                "enthusiastic"@
            } else if n == 3 {
                "impulsive"@
            } else if n == 4 {
                "demanding"@
            } else {
                "volatile"@
            },
            Sunsign::Feneri => if n == 0 {
                "hard-working"@
            } else if n == 1 {
                "productive"@
            } else if n == 2 {
                "restless"@
            } else if n == 3 {
                "impatient"@
            } else if n == 4 {
                "argumentative"@
            } else {
                "obsessive"@
            },
            Sunsign::Ahnu => if n == 0 {
                "ambitious"@
            } else if n == 1 {
                "experimental"@
            } else if n == 2 {
                "idealistic"@
            } else if n == 3 {
                "perfectionist"@
            } else if n == 4 {
                "critical"@
            } else {
                "quick-tempered"@
            },
            Sunsign::Angberelius => if n == 0 {
                "lively"@
            } else if n == 1 {
                "impassioned"@
            } else if n == 2 {
                "persistent"@
            } else if n == 3 {
                "blunt"@
            } else if n == 4 {
                "aggressive"@
            } else {
                "destructive"@
            },
            Sunsign::Nadai => if n == 0 {
                "exuberant"@
            } else if n == 1 {
                "imaginative"@
            } else if n == 2 {
                "spontaneous"@
            } else if n == 3 {
                "unfocused"@
            } else if n == 4 {
                "evasive"@
            } else {
                "wasteful"@
            },
            Sunsign::Hirin => if n == 0 {
                "free-spirited"@
            } else if n == 1 {
                "instinctive"@
            } else if n == 2 {
                "opportunistic"@
            } else if n == 3 {
                "rebellious"@
            } else if n == 4 {
                "inscrutable"@
            } else {
                "merciless"@
            },
            Sunsign::Tarael => if n == 0 {
                "dedicated"@
            } else if n == 1 {
                "contemplative"@
            } else if n == 2 {
                "indirect"@
            } else if n == 3 {
                "enigmatic"@
            } else if n == 4 {
                "indecisive"@
            } else {
                "obedient"@
            },
            Sunsign::Tai => if n == 0 {
                "philosophical"@
            } else if n == 1 {
                "truthful"@
            } else if n == 2 {
                "restrained"@
            } else if n == 3 {
                "unemotional"@
            } else if n == 4 {
                "inconsiderate"@
            } else {
                "naive"@
            },
            Sunsign::Skorus => if n == 0 {
                "personable"@
            } else if n == 1 {
                "curious"@
            } else if n == 2 {
                "inspiring"@
            } else if n == 3 {
                "avid"@
            } else if n == 4 {
                "intrusive"@
            } else {
                "dictatorial"@
            },
            Sunsign::Masara => if n == 0 {
                "affectionate"@
            } else if n == 1 {
                "tenacious"@
            } else if n == 2 {
                "emotional"@
            } else if n == 3 {
                "temperamental"@
            } else if n == 4 {
                "resentful"@
            } else {
                "overbearing"@
            },
            Sunsign::Lado => if n == 0 {
                "composed"@
            } else if n == 1 {
                "tolerant"@
            } else if n == 2 {
                "adaptive"@
            } else if n == 3 {
                "yielding"@
            } else if n == 4 {
                "indulgent"@
            } else {
                "nonchalant"@
            },
        }
    }

    /// The `n`th trait of the sign.
    pub fn trait_for(&self, n: u8) -> (t: &'static str)
        requires
            n < 6,
        ensures
            t@ == self.spec_trait(n as int),
    {
        match self {
            Sunsign::Ulandus => if n == 0 {
                "patient"
            } else if n == 1 {
                "confident"
            } else if n == 2 {
                "calm"
            } else if n == 3 {
                "aloof"
            } else if n == 4 {
                "inflexible"
            } else {
                "stubborn"
            },
            Sunsign::Aralius => if n == 0 {
                "energetic"
            } else if n == 1 {
                "optimistic"
            } else if n == 2 {
                "enthusiastic"
            } else if n == 3 {
                "impulsive"
            } else if n == 4 {
                "demanding"
            } else {
                "volatile"
            },
            Sunsign::Feneri => if n == 0 {
                "hard-working"
            } else if n == 1 {
                "productive"
            } else if n == 2 {
                "restless"
            } else if n == 3 {
                "impatient"
            } else if n == 4 {
                "argumentative"
            } else {
                "obsessive"
            },
            Sunsign::Ahnu => if n == 0 {
                "ambitious"
            } else if n == 1 {
                "experimental"
            } else if n == 2 {
                "idealistic"
            } else if n == 3 {
                "perfectionist"
            } else if n == 4 {
                "critical"
            } else {
                "quick-tempered"
            },
            Sunsign::Angberelius => if n == 0 {
                "lively"
            } else if n == 1 {
                "impassioned"
            } else if n == 2 {
                "persistent"
            } else if n == 3 {
                "blunt"
            } else if n == 4 {
                "aggressive"
            } else {
                "destructive"
            },
            Sunsign::Nadai => if n == 0 {
                "exuberant"
            } else if n == 1 {
                "imaginative"
            } else if n == 2 {
                "spontaneous"
            } else if n == 3 {
                "unfocused"
            } else if n == 4 {
                "evasive"
            } else {
                "wasteful"
            },
            Sunsign::Hirin => if n == 0 {
                "free-spirited"
            } else if n == 1 {
                "instinctive"
            } else if n == 2 {
                "opportunistic"
            } else if n == 3 {
                "rebellious"
            } else if n == 4 {
                "inscrutable"
            } else {
                "merciless"
            },
            Sunsign::Tarael => if n == 0 {
                "dedicated"
            } else if n == 1 {
                "contemplative"
            } else if n == 2 {
                "indirect"
            } else if n == 3 {
                "enigmatic"
            } else if n == 4 {
                "indecisive"
            } else {
                "obedient"
            },
            Sunsign::Tai => if n == 0 {
                "philosophical"
            } else if n == 1 {
                "truthful"
            } else if n == 2 {
                "restrained"
            } else if n == 3 {
                "unemotional"
            } else if n == 4 {
                "inconsiderate"
            } else {
                "naive"
            },
            Sunsign::Skorus => if n == 0 {
                "personable"
            } else if n == 1 {
                "curious"
            } else if n == 2 {
                "inspiring"
            } else if n == 3 {
                "avid"
            } else if n == 4 {
                "intrusive"
            } else {
                "dictatorial"
            },
            Sunsign::Masara => if n == 0 {
                "affectionate"
            } else if n == 1 {
                "tenacious"
            } else if n == 2 {
                "emotional"
            } else if n == 3 {
                "temperamental"
            } else if n == 4 {
                "resentful"
            } else {
                "overbearing"
            },
            Sunsign::Lado => if n == 0 {
                "composed"
            } else if n == 1 {
                "tolerant"
            } else if n == 2 {
                "adaptive"
            } else if n == 3 {
                "yielding"
            } else if n == 4 {
                "indulgent"
            } else {
                "nonchalant"
            },
        }
    }

    /// A trait of the sign, picked at random among its six.
    pub fn gen_trait(&self) -> (t: &'static str)
        ensures
            exists|n: int| 0 <= n < 6 && t@ == self.spec_trait(n),
    {
        let n = crate::dice::roll_die(0, 5) as u8;
        self.trait_for(n)
    }
}

} // verus!

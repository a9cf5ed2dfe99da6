//! How injuries compare: two injuries are equal when they lie at the same
//! location with the same severity, and one ranks above another unless it
//! is less severe.
use vstd::prelude::*;

use core::cmp::Ordering;
use vstd::std_specs::cmp::{PartialEqSpecImpl, PartialOrdSpecImpl};

use crate::being::Injury;

verus! {

impl PartialEq for Injury {
    fn eq(&self, other: &Injury) -> (r: bool) {
        self.location == other.location && self.shock == other.shock
    }
}

impl PartialEqSpecImpl for Injury {
    open spec fn obeys_eq_spec() -> bool {
        true
    }

    open spec fn eq_spec(&self, other: &Injury) -> bool {
        self.location == other.location && self.shock == other.shock
    }
}

impl Eq for Injury {
}

impl PartialOrd for Injury {
    fn partial_cmp(&self, other: &Injury) -> (r: Option<Ordering>) {
        if self.shock < other.shock {
            Some(Ordering::Less)
        } else {
            Some(Ordering::Greater)
        }
    }
}

impl PartialOrdSpecImpl for Injury {
    open spec fn obeys_partial_cmp_spec() -> bool {
        true
    }

    open spec fn partial_cmp_spec(&self, other: &Injury) -> Option<Ordering> {
        if self.shock < other.shock {
            Some(Ordering::Less)
        } else {
            Some(Ordering::Greater)
        }
    }
}

} // verus!

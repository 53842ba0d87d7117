//! Event categories derived from the hundred-range of the event identifier.

use vstd::prelude::*;

verus! {

/// Event categories, one per hundred-range of event identifiers.
#[derive(Debug, Clone, Copy, PartialEq, Eq, Hash, Structural)]
pub enum EventCategory {
    Economy,
    Server,
    Time,
    Customer,
    Shop,
    Employee,
    Persistence,
    Building,
    ModSystems,
}

impl EventCategory {
    /// The category's display name.
    pub open spec fn spec_str(self) -> Seq<char> {
        match self {
            EventCategory::Economy => "Economy"@,
            EventCategory::Server => "Server"@,
            EventCategory::Time => "Time"@,
            EventCategory::Customer => "Customer"@,
            EventCategory::Shop => "Shop"@,
            EventCategory::Employee => "Employee"@,
            EventCategory::Persistence => "Persistence"@,
            EventCategory::Building => "Building"@,
            EventCategory::ModSystems => "ModSystems"@,
        }
    }

    /// The category's display name (e.g. `"Economy"`).
    pub fn as_str(self) -> (s: &'static str)
        ensures
            s@ == self.spec_str(),
    {
        match self {
            EventCategory::Economy => {
                proof {
                    reveal_strlit("Economy");
                }
                "Economy"
            },
            EventCategory::Server => {
                proof {
                    reveal_strlit("Server");
                }
                "Server"
            },
            EventCategory::Time => {
                proof {
                    reveal_strlit("Time");
                }
                "Time"
            },
            EventCategory::Customer => {
                proof {
                    reveal_strlit("Customer");
                }
                "Customer"
            },
            EventCategory::Shop => {
                proof {
                    reveal_strlit("Shop");
                }
                "Shop"
            },
            EventCategory::Employee => {
                proof {
                    reveal_strlit("Employee");
                }
                "Employee"
            },
            EventCategory::Persistence => {
                proof {
                    reveal_strlit("Persistence");
                }
                "Persistence"
            },
            EventCategory::Building => {
                proof {
                    reveal_strlit("Building");
                }
                "Building"
            },
            EventCategory::ModSystems => {
                proof {
                    reveal_strlit("ModSystems");
                }
                "ModSystems"
            },
        }
    }
}

/// The half-open range `[lo, hi)` of event identifiers that belongs to a category.
pub open spec fn category_range(c: EventCategory) -> (u32, u32) {
    match c {
        EventCategory::Economy => (100, 200),
        EventCategory::Server => (200, 300),
        EventCategory::Time => (300, 400),
        EventCategory::Customer => (400, 500),
        EventCategory::Shop => (500, 600),
        EventCategory::Employee => (600, 700),
        EventCategory::Persistence => (700, 800),
        EventCategory::Building => (800, 900),
        EventCategory::ModSystems => (1000, 1100),
    }
}

} // verus!

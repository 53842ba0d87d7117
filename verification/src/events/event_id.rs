//! Numeric event identifiers grouped by category, including mod-system events.

use vstd::prelude::*;

use super::category::{category_range, EventCategory};
use crate::text::{decimal, push_decimal};

verus! {

/// Every known event identifier, grouped by category.
///
/// Each category uses its own hundred-range of numeric identifiers:
/// - **1xx**: Economy
/// - **2xx**: Server and infrastructure
/// - **3xx**: Time
/// - **4xx**: Customer
/// - **5xx**: Shop
/// - **6xx**: Employee
/// - **7xx**: Persistence (save/load)
/// - **8xx**: Building
/// - **10xx**: Mod systems (custom employees)

#[derive(Debug, Clone, Copy, PartialEq, Eq, Hash, Structural)]
pub enum EventId {
    MoneyChanged,
    XpChanged,
    ReputationChanged,
    ServerPowered,
    ServerBroken,
    ServerRepaired,
    ServerInstalled,
    CableConnected,
    CableDisconnected,
    ServerCustomerChanged,
    ServerAppChanged,
    RackUnmounted,
    SwitchBroken,
    SwitchRepaired,
    ObjectSpawned,
    DayEnded,
    MonthEnded,
    CustomerAccepted,
    CustomerSatisfied,
    CustomerUnsatisfied,
    ShopCheckout,
    ShopItemAdded,
    ShopCartCleared,
    ShopItemRemoved,
    EmployeeHired,
    EmployeeFired,
    GameSaved,
    GameLoaded,
    GameAutoSaved,
    WallPurchased,
    CustomEmployeeHired,
    CustomEmployeeFired,
}

impl EventId {
    /// The numeric identifier sent across the event interface.
    pub open spec fn spec_as_u32(self) -> u32 {
        match self {
            EventId::MoneyChanged => 100,
            EventId::XpChanged => 101,
            EventId::ReputationChanged => 102,
            EventId::ServerPowered => 200,
            EventId::ServerBroken => 201,
            EventId::ServerRepaired => 202,
            EventId::ServerInstalled => 203,
            EventId::CableConnected => 204,
            EventId::CableDisconnected => 205,
            EventId::ServerCustomerChanged => 206,
            EventId::ServerAppChanged => 207,
            EventId::RackUnmounted => 208,
            EventId::SwitchBroken => 209,
            EventId::SwitchRepaired => 210,
            EventId::ObjectSpawned => 211,
            EventId::DayEnded => 300,
            EventId::MonthEnded => 301,
            EventId::CustomerAccepted => 400,
            EventId::CustomerSatisfied => 401,
            EventId::CustomerUnsatisfied => 402,
            EventId::ShopCheckout => 500,
            EventId::ShopItemAdded => 501,
            EventId::ShopCartCleared => 502,
            EventId::ShopItemRemoved => 503,
            EventId::EmployeeHired => 600,
            EventId::EmployeeFired => 601,
            EventId::GameSaved => 700,
            EventId::GameLoaded => 701,
            EventId::GameAutoSaved => 702,
            EventId::WallPurchased => 800,
            EventId::CustomEmployeeHired => 1000,
            EventId::CustomEmployeeFired => 1001,
        }
    }

    /// The event with numeric identifier `id`, if there is one.
    pub open spec fn spec_from_raw(id: u32) -> Option<EventId> {
        match id {
            100 => Some(EventId::MoneyChanged),
            101 => Some(EventId::XpChanged),
            102 => Some(EventId::ReputationChanged),
            200 => Some(EventId::ServerPowered),
            201 => Some(EventId::ServerBroken),
            202 => Some(EventId::ServerRepaired),
            203 => Some(EventId::ServerInstalled),
            204 => Some(EventId::CableConnected),
            205 => Some(EventId::CableDisconnected),
            206 => Some(EventId::ServerCustomerChanged),
            207 => Some(EventId::ServerAppChanged),
            208 => Some(EventId::RackUnmounted),
            209 => Some(EventId::SwitchBroken),
            210 => Some(EventId::SwitchRepaired),
            211 => Some(EventId::ObjectSpawned),
            300 => Some(EventId::DayEnded),
            301 => Some(EventId::MonthEnded),
            400 => Some(EventId::CustomerAccepted),
            401 => Some(EventId::CustomerSatisfied),
            402 => Some(EventId::CustomerUnsatisfied),
            500 => Some(EventId::ShopCheckout),
            501 => Some(EventId::ShopItemAdded),
            502 => Some(EventId::ShopCartCleared),
            503 => Some(EventId::ShopItemRemoved),
            600 => Some(EventId::EmployeeHired),
            601 => Some(EventId::EmployeeFired),
            700 => Some(EventId::GameSaved),
            701 => Some(EventId::GameLoaded),
            702 => Some(EventId::GameAutoSaved),
            800 => Some(EventId::WallPurchased),
            1000 => Some(EventId::CustomEmployeeHired),
            1001 => Some(EventId::CustomEmployeeFired),
            _ => None,
        }
    }

    /// The human-readable name of the event.
    pub open spec fn spec_name(self) -> Seq<char> {
        match self {
            EventId::MoneyChanged => "MoneyChanged"@,
            EventId::XpChanged => "XpChanged"@,
            EventId::ReputationChanged => "ReputationChanged"@,
            EventId::ServerPowered => "ServerPowered"@,
            EventId::ServerBroken => "ServerBroken"@,
            EventId::ServerRepaired => "ServerRepaired"@,
            EventId::ServerInstalled => "ServerInstalled"@,
            EventId::CableConnected => "CableConnected"@,
            EventId::CableDisconnected => "CableDisconnected"@,
            EventId::ServerCustomerChanged => "ServerCustomerChanged"@,
            EventId::ServerAppChanged => "ServerAppChanged"@,
            EventId::RackUnmounted => "RackUnmounted"@,
            EventId::SwitchBroken => "SwitchBroken"@,
            EventId::SwitchRepaired => "SwitchRepaired"@,
            EventId::ObjectSpawned => "ObjectSpawned"@,
            EventId::DayEnded => "DayEnded"@,
            EventId::MonthEnded => "MonthEnded"@,
            EventId::CustomerAccepted => "CustomerAccepted"@,
            EventId::CustomerSatisfied => "CustomerSatisfied"@,
            EventId::CustomerUnsatisfied => "CustomerUnsatisfied"@,
            EventId::ShopCheckout => "ShopCheckout"@,
            EventId::ShopItemAdded => "ShopItemAdded"@,
            EventId::ShopCartCleared => "ShopCartCleared"@,
            EventId::ShopItemRemoved => "ShopItemRemoved"@,
            EventId::EmployeeHired => "EmployeeHired"@,
            EventId::EmployeeFired => "EmployeeFired"@,
            EventId::GameSaved => "GameSaved"@,
            EventId::GameLoaded => "GameLoaded"@,
            EventId::GameAutoSaved => "GameAutoSaved"@,
            EventId::WallPurchased => "WallPurchased"@,
            EventId::CustomEmployeeHired => "CustomEmployeeHired"@,
            EventId::CustomEmployeeFired => "CustomEmployeeFired"@,
        }
    }

    /// The category of the event.
    pub open spec fn spec_category(self) -> EventCategory {
        match self {
            EventId::MoneyChanged => EventCategory::Economy,
            EventId::XpChanged => EventCategory::Economy,
            EventId::ReputationChanged => EventCategory::Economy,
            EventId::ServerPowered => EventCategory::Server,
            EventId::ServerBroken => EventCategory::Server,
            EventId::ServerRepaired => EventCategory::Server,
            EventId::ServerInstalled => EventCategory::Server,
            EventId::CableConnected => EventCategory::Server,
            EventId::CableDisconnected => EventCategory::Server,
            EventId::ServerCustomerChanged => EventCategory::Server,
            EventId::ServerAppChanged => EventCategory::Server,
            EventId::RackUnmounted => EventCategory::Server,
            EventId::SwitchBroken => EventCategory::Server,
            EventId::SwitchRepaired => EventCategory::Server,
            EventId::ObjectSpawned => EventCategory::Server,
            EventId::DayEnded => EventCategory::Time,
            EventId::MonthEnded => EventCategory::Time,
            EventId::CustomerAccepted => EventCategory::Customer,
            EventId::CustomerSatisfied => EventCategory::Customer,
            EventId::CustomerUnsatisfied => EventCategory::Customer,
            EventId::ShopCheckout => EventCategory::Shop,
            EventId::ShopItemAdded => EventCategory::Shop,
            EventId::ShopCartCleared => EventCategory::Shop,
            EventId::ShopItemRemoved => EventCategory::Shop,
            EventId::EmployeeHired => EventCategory::Employee,
            EventId::EmployeeFired => EventCategory::Employee,
            EventId::GameSaved => EventCategory::Persistence,
            EventId::GameLoaded => EventCategory::Persistence,
            EventId::GameAutoSaved => EventCategory::Persistence,
            EventId::WallPurchased => EventCategory::Building,
            EventId::CustomEmployeeHired => EventCategory::ModSystems,
            EventId::CustomEmployeeFired => EventCategory::ModSystems,
        }
    }

    /// Every known event identifier, in definition order.
    pub open spec fn spec_all() -> Seq<EventId> {
        seq![
            EventId::MoneyChanged,
            EventId::XpChanged,
            EventId::ReputationChanged,
            EventId::ServerPowered,
            EventId::ServerBroken,
            EventId::ServerRepaired,
            EventId::ServerInstalled,
            EventId::CableConnected,
            EventId::CableDisconnected,
            EventId::ServerCustomerChanged,
            EventId::ServerAppChanged,
            EventId::RackUnmounted,
            EventId::SwitchBroken,
            EventId::SwitchRepaired,
            EventId::ObjectSpawned,
            EventId::DayEnded,
            EventId::MonthEnded,
            EventId::CustomerAccepted,
            EventId::CustomerSatisfied,
            EventId::CustomerUnsatisfied,
            EventId::ShopCheckout,
            EventId::ShopItemAdded,
            EventId::ShopCartCleared,
            EventId::ShopItemRemoved,
            EventId::EmployeeHired,
            EventId::EmployeeFired,
            EventId::GameSaved,
            EventId::GameLoaded,
            EventId::GameAutoSaved,
            EventId::WallPurchased,
            EventId::CustomEmployeeHired,
            EventId::CustomEmployeeFired,
        ]
    }

    /// Every known event identifier, in definition order.
    pub fn all() -> (v: Vec<EventId>)
        ensures
            v@ == Self::spec_all(),
    {
        vec![
            EventId::MoneyChanged,
            EventId::XpChanged,
            EventId::ReputationChanged,
            EventId::ServerPowered,
            EventId::ServerBroken,
            EventId::ServerRepaired,
            EventId::ServerInstalled,
            EventId::CableConnected,
            EventId::CableDisconnected,
            EventId::ServerCustomerChanged,
            EventId::ServerAppChanged,
            EventId::RackUnmounted,
            EventId::SwitchBroken,
            EventId::SwitchRepaired,
            EventId::ObjectSpawned,
            EventId::DayEnded,
            EventId::MonthEnded,
            EventId::CustomerAccepted,
            EventId::CustomerSatisfied,
            EventId::CustomerUnsatisfied,
            EventId::ShopCheckout,
            EventId::ShopItemAdded,
            EventId::ShopCartCleared,
            EventId::ShopItemRemoved,
            EventId::EmployeeHired,
            EventId::EmployeeFired,
            EventId::GameSaved,
            EventId::GameLoaded,
            EventId::GameAutoSaved,
            EventId::WallPurchased,
            EventId::CustomEmployeeHired,
            EventId::CustomEmployeeFired,
        ]
    }

    /// The known event with numeric identifier `id`; `None` for unknown identifiers.
    pub fn from_raw(id: u32) -> (r: Option<EventId>)
        ensures
            r == Self::spec_from_raw(id),
            r matches Some(e) ==> e.spec_as_u32() == id,
            r is None ==> forall|e: EventId| e.spec_as_u32() != id,
    {
        match id {
            100 => Some(EventId::MoneyChanged),
            101 => Some(EventId::XpChanged),
            102 => Some(EventId::ReputationChanged),
            200 => Some(EventId::ServerPowered),
            201 => Some(EventId::ServerBroken),
            202 => Some(EventId::ServerRepaired),
            203 => Some(EventId::ServerInstalled),
            204 => Some(EventId::CableConnected),
            205 => Some(EventId::CableDisconnected),
            206 => Some(EventId::ServerCustomerChanged),
            207 => Some(EventId::ServerAppChanged),
            208 => Some(EventId::RackUnmounted),
            209 => Some(EventId::SwitchBroken),
            210 => Some(EventId::SwitchRepaired),
            211 => Some(EventId::ObjectSpawned),
            300 => Some(EventId::DayEnded),
            301 => Some(EventId::MonthEnded),
            400 => Some(EventId::CustomerAccepted),
            401 => Some(EventId::CustomerSatisfied),
            402 => Some(EventId::CustomerUnsatisfied),
            500 => Some(EventId::ShopCheckout),
            501 => Some(EventId::ShopItemAdded),
            502 => Some(EventId::ShopCartCleared),
            503 => Some(EventId::ShopItemRemoved),
            600 => Some(EventId::EmployeeHired),
            601 => Some(EventId::EmployeeFired),
            700 => Some(EventId::GameSaved),
            701 => Some(EventId::GameLoaded),
            702 => Some(EventId::GameAutoSaved),
            800 => Some(EventId::WallPurchased),
            1000 => Some(EventId::CustomEmployeeHired),
            1001 => Some(EventId::CustomEmployeeFired),
            _ => None,
        }
    }

    /// The numeric identifier of the event.
    pub fn as_u32(self) -> (r: u32)
        ensures
            r == self.spec_as_u32(),
    {
        match self {
            EventId::MoneyChanged => 100,
            EventId::XpChanged => 101,
            EventId::ReputationChanged => 102,
            EventId::ServerPowered => 200,
            EventId::ServerBroken => 201,
            EventId::ServerRepaired => 202,
            EventId::ServerInstalled => 203,
            EventId::CableConnected => 204,
            EventId::CableDisconnected => 205,
            EventId::ServerCustomerChanged => 206,
            EventId::ServerAppChanged => 207,
            EventId::RackUnmounted => 208,
            EventId::SwitchBroken => 209,
            EventId::SwitchRepaired => 210,
            EventId::ObjectSpawned => 211,
            EventId::DayEnded => 300,
            EventId::MonthEnded => 301,
            EventId::CustomerAccepted => 400,
            EventId::CustomerSatisfied => 401,
            EventId::CustomerUnsatisfied => 402,
            EventId::ShopCheckout => 500,
            EventId::ShopItemAdded => 501,
            EventId::ShopCartCleared => 502,
            EventId::ShopItemRemoved => 503,
            EventId::EmployeeHired => 600,
            EventId::EmployeeFired => 601,
            EventId::GameSaved => 700,
            EventId::GameLoaded => 701,
            EventId::GameAutoSaved => 702,
            EventId::WallPurchased => 800,
            EventId::CustomEmployeeHired => 1000,
            EventId::CustomEmployeeFired => 1001,
        }
    }

    /// The human-readable name of the event (e.g. `"MoneyChanged"`).
    pub fn name(self) -> (s: &'static str)
        ensures
            s@ == self.spec_name(),
    {
        match self {
            EventId::MoneyChanged => {
                proof {
                    reveal_strlit("MoneyChanged");
                }
                "MoneyChanged"
            },
            EventId::XpChanged => {
                proof {
                    reveal_strlit("XpChanged");
                }
                "XpChanged"
            },
            EventId::ReputationChanged => {
                proof {
                    reveal_strlit("ReputationChanged");
                }
                "ReputationChanged"
            },
            EventId::ServerPowered => {
                proof {
                    reveal_strlit("ServerPowered");
                }
                "ServerPowered"
            },
            EventId::ServerBroken => {
                proof {
                    reveal_strlit("ServerBroken");
                }
                "ServerBroken"
            },
            EventId::ServerRepaired => {
                proof {
                    reveal_strlit("ServerRepaired");
                }
                "ServerRepaired"
            },
            EventId::ServerInstalled => {
                proof {
                    reveal_strlit("ServerInstalled");
                }
                "ServerInstalled"
            },
            EventId::CableConnected => {
                proof {
                    reveal_strlit("CableConnected");
                }
                "CableConnected"
            },
            EventId::CableDisconnected => {
                proof {
                    reveal_strlit("CableDisconnected");
                }
                "CableDisconnected"
            },
            EventId::ServerCustomerChanged => {
                proof {
                    reveal_strlit("ServerCustomerChanged");
                }
                "ServerCustomerChanged"
            },
            EventId::ServerAppChanged => {
                proof {
                    reveal_strlit("ServerAppChanged");
                }
                "ServerAppChanged"
            },
            EventId::RackUnmounted => {
                proof {
                    reveal_strlit("RackUnmounted");
                }
                "RackUnmounted"
            },
            EventId::SwitchBroken => {
                proof {
                    reveal_strlit("SwitchBroken");
                }
                "SwitchBroken"
            },
            EventId::SwitchRepaired => {
                proof {
                    reveal_strlit("SwitchRepaired");
                }
                "SwitchRepaired"
            },
            EventId::ObjectSpawned => {
                proof {
                    reveal_strlit("ObjectSpawned");
                }
                "ObjectSpawned"
            },
            EventId::DayEnded => {
                proof {
                    reveal_strlit("DayEnded");
                }
                "DayEnded"
            },
            EventId::MonthEnded => {
                proof {
                    reveal_strlit("MonthEnded");
                }
                "MonthEnded"
            },
            EventId::CustomerAccepted => {
                proof {
                    reveal_strlit("CustomerAccepted");
                }
                "CustomerAccepted"
            },
            EventId::CustomerSatisfied => {
                proof {
                    reveal_strlit("CustomerSatisfied");
                }
                "CustomerSatisfied"
            },
            EventId::CustomerUnsatisfied => {
                proof {
                    reveal_strlit("CustomerUnsatisfied");
                }
                "CustomerUnsatisfied"
            },
            EventId::ShopCheckout => {
                proof {
                    reveal_strlit("ShopCheckout");
                }
                "ShopCheckout"
            },
            EventId::ShopItemAdded => {
                proof {
                    reveal_strlit("ShopItemAdded");
                }
                "ShopItemAdded"
            },
            EventId::ShopCartCleared => {
                proof {
                    reveal_strlit("ShopCartCleared");
                }
                "ShopCartCleared"
            },
            EventId::ShopItemRemoved => {
                proof {
                    reveal_strlit("ShopItemRemoved");
                }
                "ShopItemRemoved"
            },
            EventId::EmployeeHired => {
                proof {
                    reveal_strlit("EmployeeHired");
                }
                "EmployeeHired"
            },
            EventId::EmployeeFired => {
                proof {
                    reveal_strlit("EmployeeFired");
                }
                "EmployeeFired"
            },
            EventId::GameSaved => {
                proof {
                    reveal_strlit("GameSaved");
                }
                "GameSaved"
            },
            EventId::GameLoaded => {
                proof {
                    reveal_strlit("GameLoaded");
                }
                "GameLoaded"
            },
            EventId::GameAutoSaved => {
                proof {
                    reveal_strlit("GameAutoSaved");
                }
                "GameAutoSaved"
            },
            EventId::WallPurchased => {
                proof {
                    reveal_strlit("WallPurchased");
                }
                "WallPurchased"
            },
            EventId::CustomEmployeeHired => {
                proof {
                    reveal_strlit("CustomEmployeeHired");
                }
                "CustomEmployeeHired"
            },
            EventId::CustomEmployeeFired => {
                proof {
                    reveal_strlit("CustomEmployeeFired");
                }
                "CustomEmployeeFired"
            },
        }
    }

    /// The category the event belongs to.
    pub fn category(self) -> (c: EventCategory)
        ensures
            c == self.spec_category(),
    {
        match self {
            EventId::MoneyChanged => EventCategory::Economy,
            EventId::XpChanged => EventCategory::Economy,
            EventId::ReputationChanged => EventCategory::Economy,
            EventId::ServerPowered => EventCategory::Server,
            EventId::ServerBroken => EventCategory::Server,
            EventId::ServerRepaired => EventCategory::Server,
            EventId::ServerInstalled => EventCategory::Server,
            EventId::CableConnected => EventCategory::Server,
            EventId::CableDisconnected => EventCategory::Server,
            EventId::ServerCustomerChanged => EventCategory::Server,
            EventId::ServerAppChanged => EventCategory::Server,
            EventId::RackUnmounted => EventCategory::Server,
            EventId::SwitchBroken => EventCategory::Server,
            EventId::SwitchRepaired => EventCategory::Server,
            EventId::ObjectSpawned => EventCategory::Server,
            EventId::DayEnded => EventCategory::Time,
            EventId::MonthEnded => EventCategory::Time,
            EventId::CustomerAccepted => EventCategory::Customer,
            EventId::CustomerSatisfied => EventCategory::Customer,
            EventId::CustomerUnsatisfied => EventCategory::Customer,
            EventId::ShopCheckout => EventCategory::Shop,
            EventId::ShopItemAdded => EventCategory::Shop,
            EventId::ShopCartCleared => EventCategory::Shop,
            EventId::ShopItemRemoved => EventCategory::Shop,
            EventId::EmployeeHired => EventCategory::Employee,
            EventId::EmployeeFired => EventCategory::Employee,
            EventId::GameSaved => EventCategory::Persistence,
            EventId::GameLoaded => EventCategory::Persistence,
            EventId::GameAutoSaved => EventCategory::Persistence,
            EventId::WallPurchased => EventCategory::Building,
            EventId::CustomEmployeeHired => EventCategory::ModSystems,
            EventId::CustomEmployeeFired => EventCategory::ModSystems,
        }
    }

    /// The display form `Name(id)`, e.g. `"MoneyChanged(100)"`.
    pub open spec fn spec_display(self) -> Seq<char> {
        self.spec_name() + seq!['('] + decimal(self.spec_as_u32() as nat) + seq![')']
    }

    /// The display form `Name(id)`, e.g. `"MoneyChanged(100)"`.
    pub fn to_display(self) -> (s: String)
        ensures
            s@ == self.spec_display(),
    {
        let mut s = self.name().to_owned();
        proof {
            reveal_strlit("(");
            reveal_strlit(")");
        }
        s.append("(");
        push_decimal(&mut s, self.as_u32());
        s.append(")");
        s
    }
}

/// A short fingerprint of a name: its length and a few of its characters
/// (a space where the name is too short). It tells the event names apart.
pub open spec fn name_fingerprint(s: Seq<char>) -> (int, char, char, char) {
    (s.len() as int, if s.len() > 1 { s[1] } else { ' ' }, if s.len() > 8 { s[8] } else { ' ' }, if s.len() > 14 { s[14] } else { ' ' })
}

impl EventId {
    /// The fingerprint of the event's name.
    pub open spec fn spec_fingerprint(self) -> (int, char, char, char) {
        match self {
            EventId::MoneyChanged => (12int, 'o', 'n', ' '),
            EventId::XpChanged => (9int, 'p', 'd', ' '),
            EventId::ReputationChanged => (17int, 'e', 'o', 'g'),
            EventId::ServerPowered => (13int, 'e', 'w', ' '),
            EventId::ServerBroken => (12int, 'e', 'o', ' '),
            EventId::ServerRepaired => (14int, 'e', 'p', ' '),
            EventId::ServerInstalled => (15int, 'e', 's', 'd'),
            EventId::CableConnected => (14int, 'a', 'n', ' '),
            EventId::CableDisconnected => (17int, 'a', 'c', 't'),
            EventId::ServerCustomerChanged => (21int, 'e', 's', 'C'),
            EventId::ServerAppChanged => (16int, 'e', 'p', 'e'),
            EventId::RackUnmounted => (13int, 'a', 'u', ' '),
            EventId::SwitchBroken => (12int, 'w', 'o', ' '),
            EventId::SwitchRepaired => (14int, 'w', 'p', ' '),
            EventId::ObjectSpawned => (13int, 'b', 'a', ' '),
            EventId::DayEnded => (8int, 'a', ' ', ' '),
            EventId::MonthEnded => (10int, 'o', 'e', ' '),
            EventId::CustomerAccepted => (16int, 'u', 'A', 'e'),
            EventId::CustomerSatisfied => (17int, 'u', 'S', 'i'),
            EventId::CustomerUnsatisfied => (19int, 'u', 'U', 's'),
            EventId::ShopCheckout => (12int, 'h', 'k', ' '),
            EventId::ShopItemAdded => (13int, 'h', 'A', ' '),
            EventId::ShopCartCleared => (15int, 'h', 'C', 'd'),
            EventId::ShopItemRemoved => (15int, 'h', 'R', 'd'),
            EventId::EmployeeHired => (13int, 'm', 'H', ' '),
            EventId::EmployeeFired => (13int, 'm', 'F', ' '),
            EventId::GameSaved => (9int, 'a', 'd', ' '),
            EventId::GameLoaded => (10int, 'a', 'e', ' '),
            EventId::GameAutoSaved => (13int, 'a', 'S', ' '),
            EventId::WallPurchased => (13int, 'a', 'h', ' '),
            EventId::CustomEmployeeHired => (19int, 'u', 'p', 'H'),
            EventId::CustomEmployeeFired => (19int, 'u', 'p', 'F'),
        }
    }

    /// The event whose name has the given fingerprint.
    pub open spec fn from_fingerprint(f: (int, char, char, char)) -> EventId {
        if f == (12int, 'o', 'n', ' ') {
            EventId::MoneyChanged
        } else if f == (9int, 'p', 'd', ' ') {
            EventId::XpChanged
        } else if f == (17int, 'e', 'o', 'g') {
            EventId::ReputationChanged
        } else if f == (13int, 'e', 'w', ' ') {
            EventId::ServerPowered
        } else if f == (12int, 'e', 'o', ' ') {
            EventId::ServerBroken
        } else if f == (14int, 'e', 'p', ' ') {
            EventId::ServerRepaired
        } else if f == (15int, 'e', 's', 'd') {
            EventId::ServerInstalled
        } else if f == (14int, 'a', 'n', ' ') {
            EventId::CableConnected
        } else if f == (17int, 'a', 'c', 't') {
            EventId::CableDisconnected
        } else if f == (21int, 'e', 's', 'C') {
            EventId::ServerCustomerChanged
        } else if f == (16int, 'e', 'p', 'e') {
            EventId::ServerAppChanged
        } else if f == (13int, 'a', 'u', ' ') {
            EventId::RackUnmounted
        } else if f == (12int, 'w', 'o', ' ') {
            EventId::SwitchBroken
        } else if f == (14int, 'w', 'p', ' ') {
            EventId::SwitchRepaired
        } else if f == (13int, 'b', 'a', ' ') {
            EventId::ObjectSpawned
        } else if f == (8int, 'a', ' ', ' ') {
            EventId::DayEnded
        } else if f == (10int, 'o', 'e', ' ') {
            EventId::MonthEnded
        } else if f == (16int, 'u', 'A', 'e') {
            EventId::CustomerAccepted
        } else if f == (17int, 'u', 'S', 'i') {
            EventId::CustomerSatisfied
        } else if f == (19int, 'u', 'U', 's') {
            EventId::CustomerUnsatisfied
        } else if f == (12int, 'h', 'k', ' ') {
            EventId::ShopCheckout
        } else if f == (13int, 'h', 'A', ' ') {
            EventId::ShopItemAdded
        } else if f == (15int, 'h', 'C', 'd') {
            EventId::ShopCartCleared
        } else if f == (15int, 'h', 'R', 'd') {
            EventId::ShopItemRemoved
        } else if f == (13int, 'm', 'H', ' ') {
            EventId::EmployeeHired
        } else if f == (13int, 'm', 'F', ' ') {
            EventId::EmployeeFired
        } else if f == (9int, 'a', 'd', ' ') {
            EventId::GameSaved
        } else if f == (10int, 'a', 'e', ' ') {
            EventId::GameLoaded
        } else if f == (13int, 'a', 'S', ' ') {
            EventId::GameAutoSaved
        } else if f == (13int, 'a', 'h', ' ') {
            EventId::WallPurchased
        } else if f == (19int, 'u', 'p', 'H') {
            EventId::CustomEmployeeHired
        } else {
            EventId::CustomEmployeeFired
        }
    }

    /// Position of the event in `spec_all`.
    pub open spec fn index_of(self) -> int {
        match self {
            EventId::MoneyChanged => 0,
            EventId::XpChanged => 1,
            EventId::ReputationChanged => 2,
            EventId::ServerPowered => 3,
            EventId::ServerBroken => 4,
            EventId::ServerRepaired => 5,
            EventId::ServerInstalled => 6,
            EventId::CableConnected => 7,
            EventId::CableDisconnected => 8,
            EventId::ServerCustomerChanged => 9,
            EventId::ServerAppChanged => 10,
            EventId::RackUnmounted => 11,
            EventId::SwitchBroken => 12,
            EventId::SwitchRepaired => 13,
            EventId::ObjectSpawned => 14,
            EventId::DayEnded => 15,
            EventId::MonthEnded => 16,
            EventId::CustomerAccepted => 17,
            EventId::CustomerSatisfied => 18,
            EventId::CustomerUnsatisfied => 19,
            EventId::ShopCheckout => 20,
            EventId::ShopItemAdded => 21,
            EventId::ShopCartCleared => 22,
            EventId::ShopItemRemoved => 23,
            EventId::EmployeeHired => 24,
            EventId::EmployeeFired => 25,
            EventId::GameSaved => 26,
            EventId::GameLoaded => 27,
            EventId::GameAutoSaved => 28,
            EventId::WallPurchased => 29,
            EventId::CustomEmployeeHired => 30,
            EventId::CustomEmployeeFired => 31,
        }
    }
}

/// The fingerprint of each event's name is the one its variant records.
proof fn lemma_name_fingerprint(e: EventId)
    ensures
        name_fingerprint(e.spec_name()) == e.spec_fingerprint(),
{
    match e {
        EventId::MoneyChanged => {
            reveal_strlit("MoneyChanged");
        },
        EventId::XpChanged => {
            reveal_strlit("XpChanged");
        },
        EventId::ReputationChanged => {
            reveal_strlit("ReputationChanged");
        },
        EventId::ServerPowered => {
            reveal_strlit("ServerPowered");
        },
        EventId::ServerBroken => {
            reveal_strlit("ServerBroken");
        },
        EventId::ServerRepaired => {
            reveal_strlit("ServerRepaired");
        },
        EventId::ServerInstalled => {
            reveal_strlit("ServerInstalled");
        },
        EventId::CableConnected => {
            reveal_strlit("CableConnected");
        },
        EventId::CableDisconnected => {
            reveal_strlit("CableDisconnected");
        },
        EventId::ServerCustomerChanged => {
            reveal_strlit("ServerCustomerChanged");
        },
        EventId::ServerAppChanged => {
            reveal_strlit("ServerAppChanged");
        },
        EventId::RackUnmounted => {
            reveal_strlit("RackUnmounted");
        },
        EventId::SwitchBroken => {
            reveal_strlit("SwitchBroken");
        },
        EventId::SwitchRepaired => {
            reveal_strlit("SwitchRepaired");
        },
        EventId::ObjectSpawned => {
            reveal_strlit("ObjectSpawned");
        },
        EventId::DayEnded => {
            reveal_strlit("DayEnded");
        },
        EventId::MonthEnded => {
            reveal_strlit("MonthEnded");
        },
        EventId::CustomerAccepted => {
            reveal_strlit("CustomerAccepted");
        },
        EventId::CustomerSatisfied => {
            reveal_strlit("CustomerSatisfied");
        },
        EventId::CustomerUnsatisfied => {
            reveal_strlit("CustomerUnsatisfied");
        },
        EventId::ShopCheckout => {
            reveal_strlit("ShopCheckout");
        },
        EventId::ShopItemAdded => {
            reveal_strlit("ShopItemAdded");
        },
        EventId::ShopCartCleared => {
            reveal_strlit("ShopCartCleared");
        },
        EventId::ShopItemRemoved => {
            reveal_strlit("ShopItemRemoved");
        },
        EventId::EmployeeHired => {
            reveal_strlit("EmployeeHired");
        },
        EventId::EmployeeFired => {
            reveal_strlit("EmployeeFired");
        },
        EventId::GameSaved => {
            reveal_strlit("GameSaved");
        },
        EventId::GameLoaded => {
            reveal_strlit("GameLoaded");
        },
        EventId::GameAutoSaved => {
            reveal_strlit("GameAutoSaved");
        },
        EventId::WallPurchased => {
            reveal_strlit("WallPurchased");
        },
        EventId::CustomEmployeeHired => {
            reveal_strlit("CustomEmployeeHired");
        },
        EventId::CustomEmployeeFired => {
            reveal_strlit("CustomEmployeeFired");
        },
    }
}

/// No two events share a name.
pub proof fn lemma_names_distinct(a: EventId, b: EventId)
    ensures
        a.spec_name() == b.spec_name() ==> a == b,
{
    lemma_name_fingerprint(a);
    lemma_name_fingerprint(b);
    assert(EventId::from_fingerprint(a.spec_fingerprint()) == a);
    assert(EventId::from_fingerprint(b.spec_fingerprint()) == b);
}

/// Reading back the numeric identifier of any known event gives that event.
pub proof fn lemma_from_raw_as_u32(e: EventId)
    ensures
        EventId::spec_from_raw(e.spec_as_u32()) == Some(e),
{
}

/// `from_raw` succeeds exactly on the identifiers of known events, and gives the event back.
pub proof fn lemma_as_u32_from_raw(id: u32)
    ensures
        EventId::spec_from_raw(id) matches Some(e) ==> e.spec_as_u32() == id,
        EventId::spec_from_raw(id) is None ==> forall|e: EventId| e.spec_as_u32() != id,
{
}

/// No two events share a numeric identifier.
pub proof fn lemma_ids_distinct(a: EventId, b: EventId)
    ensures
        a.spec_as_u32() == b.spec_as_u32() ==> a == b,
{
    lemma_from_raw_as_u32(a);
    lemma_from_raw_as_u32(b);
}

/// Every event's identifier lies in the hundred-range of its category.
pub proof fn lemma_id_in_category_range(e: EventId)
    ensures
        category_range(e.spec_category()).0 <= e.spec_as_u32() < category_range(e.spec_category()).1,
{
}

/// The list of all events holds every event exactly once.
pub proof fn lemma_all_complete(e: EventId)
    ensures
        EventId::spec_all().contains(e),
        EventId::spec_all().no_duplicates(),
        EventId::spec_all().len() == 32,
{
    let s = EventId::spec_all();
    assert(s[EventId::index_of(e)] == e);
    assert forall|i: int, j: int| 0 <= i < s.len() && 0 <= j < s.len() && i != j implies s[i] != s[j] by {
        assert(EventId::index_of(s[i]) == i);
        assert(EventId::index_of(s[j]) == j);
    }
}

/// Every event's name is non-empty.
pub proof fn lemma_name_non_empty(e: EventId)
    ensures
        e.spec_name().len() > 0,
{
    reveal_strlit("MoneyChanged");
    reveal_strlit("XpChanged");
    reveal_strlit("ReputationChanged");
    reveal_strlit("ServerPowered");
    reveal_strlit("ServerBroken");
    reveal_strlit("ServerRepaired");
    reveal_strlit("ServerInstalled");
    reveal_strlit("CableConnected");
    reveal_strlit("CableDisconnected");
    reveal_strlit("ServerCustomerChanged");
    reveal_strlit("ServerAppChanged");
    reveal_strlit("RackUnmounted");
    reveal_strlit("SwitchBroken");
    reveal_strlit("SwitchRepaired");
    reveal_strlit("ObjectSpawned");
    reveal_strlit("DayEnded");
    reveal_strlit("MonthEnded");
    reveal_strlit("CustomerAccepted");
    reveal_strlit("CustomerSatisfied");
    reveal_strlit("CustomerUnsatisfied");
    reveal_strlit("ShopCheckout");
    reveal_strlit("ShopItemAdded");
    reveal_strlit("ShopCartCleared");
    reveal_strlit("ShopItemRemoved");
    reveal_strlit("EmployeeHired");
    reveal_strlit("EmployeeFired");
    reveal_strlit("GameSaved");
    reveal_strlit("GameLoaded");
    reveal_strlit("GameAutoSaved");
    reveal_strlit("WallPurchased");
    reveal_strlit("CustomEmployeeHired");
    reveal_strlit("CustomEmployeeFired");
}


/// The event numbers are the game's fixed wire numbers, category by
/// category in hundreds (economy 1xx, servers 2xx, time 3xx, customers 4xx,
/// shop 5xx, employees 6xx, persistence 7xx, building 8xx, mod systems 10xx): every
/// event has its number, and reading that number back gives the event.
pub proof fn lemma_wire_numbers()
    ensures
        EventId::MoneyChanged.spec_as_u32() == 100,
        EventId::spec_from_raw(100) == Some(EventId::MoneyChanged),
        EventId::XpChanged.spec_as_u32() == 101,
        EventId::spec_from_raw(101) == Some(EventId::XpChanged),
        EventId::ReputationChanged.spec_as_u32() == 102,
        EventId::spec_from_raw(102) == Some(EventId::ReputationChanged),
        EventId::ServerPowered.spec_as_u32() == 200,
        EventId::spec_from_raw(200) == Some(EventId::ServerPowered),
        EventId::ServerBroken.spec_as_u32() == 201,
        EventId::spec_from_raw(201) == Some(EventId::ServerBroken),
        EventId::ServerRepaired.spec_as_u32() == 202,
        EventId::spec_from_raw(202) == Some(EventId::ServerRepaired),
        EventId::ServerInstalled.spec_as_u32() == 203,
        EventId::spec_from_raw(203) == Some(EventId::ServerInstalled),
        EventId::CableConnected.spec_as_u32() == 204,
        EventId::spec_from_raw(204) == Some(EventId::CableConnected),
        EventId::CableDisconnected.spec_as_u32() == 205,
        EventId::spec_from_raw(205) == Some(EventId::CableDisconnected),
        EventId::ServerCustomerChanged.spec_as_u32() == 206,
        EventId::spec_from_raw(206) == Some(EventId::ServerCustomerChanged),
        EventId::ServerAppChanged.spec_as_u32() == 207,
        EventId::spec_from_raw(207) == Some(EventId::ServerAppChanged),
        EventId::RackUnmounted.spec_as_u32() == 208,
        EventId::spec_from_raw(208) == Some(EventId::RackUnmounted),
        EventId::SwitchBroken.spec_as_u32() == 209,
        EventId::spec_from_raw(209) == Some(EventId::SwitchBroken),
        EventId::SwitchRepaired.spec_as_u32() == 210,
        EventId::spec_from_raw(210) == Some(EventId::SwitchRepaired),
        EventId::ObjectSpawned.spec_as_u32() == 211,
        EventId::spec_from_raw(211) == Some(EventId::ObjectSpawned),
        EventId::DayEnded.spec_as_u32() == 300,
        EventId::spec_from_raw(300) == Some(EventId::DayEnded),
        EventId::MonthEnded.spec_as_u32() == 301,
        EventId::spec_from_raw(301) == Some(EventId::MonthEnded),
        EventId::CustomerAccepted.spec_as_u32() == 400,
        EventId::spec_from_raw(400) == Some(EventId::CustomerAccepted),
        EventId::CustomerSatisfied.spec_as_u32() == 401,
        EventId::spec_from_raw(401) == Some(EventId::CustomerSatisfied),
        EventId::CustomerUnsatisfied.spec_as_u32() == 402,
        EventId::spec_from_raw(402) == Some(EventId::CustomerUnsatisfied),
        EventId::ShopCheckout.spec_as_u32() == 500,
        EventId::spec_from_raw(500) == Some(EventId::ShopCheckout),
        EventId::ShopItemAdded.spec_as_u32() == 501,
        EventId::spec_from_raw(501) == Some(EventId::ShopItemAdded),
        EventId::ShopCartCleared.spec_as_u32() == 502,
        EventId::spec_from_raw(502) == Some(EventId::ShopCartCleared),
        EventId::ShopItemRemoved.spec_as_u32() == 503,
        EventId::spec_from_raw(503) == Some(EventId::ShopItemRemoved),
        EventId::EmployeeHired.spec_as_u32() == 600,
        EventId::spec_from_raw(600) == Some(EventId::EmployeeHired),
        EventId::EmployeeFired.spec_as_u32() == 601,
        EventId::spec_from_raw(601) == Some(EventId::EmployeeFired),
        EventId::GameSaved.spec_as_u32() == 700,
        EventId::spec_from_raw(700) == Some(EventId::GameSaved),
        EventId::GameLoaded.spec_as_u32() == 701,
        EventId::spec_from_raw(701) == Some(EventId::GameLoaded),
        EventId::GameAutoSaved.spec_as_u32() == 702,
        EventId::spec_from_raw(702) == Some(EventId::GameAutoSaved),
        EventId::WallPurchased.spec_as_u32() == 800,
        EventId::spec_from_raw(800) == Some(EventId::WallPurchased),
        EventId::CustomEmployeeHired.spec_as_u32() == 1000,
        EventId::spec_from_raw(1000) == Some(EventId::CustomEmployeeHired),
        EventId::CustomEmployeeFired.spec_as_u32() == 1001,
        EventId::spec_from_raw(1001) == Some(EventId::CustomEmployeeFired),
{
}

} // verus!

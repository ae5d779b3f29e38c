//! The four service tiers and the live figures of each.

use vstd::prelude::*;
use vstd::string::StringExecFns;

use crate::memory::Memory;
use crate::money::Money;
use crate::ops::Ops;

verus! {

/// A service tier, from the plainest to the most demanding.
#[derive(Debug, Clone, Copy, PartialEq, Eq, Structural, Hash)]
pub enum ServiceKind {
    Base,
    Super,
    Epic,
    Awesome,
}

/// The number that stands for a tier in a compact record.
pub open spec fn service_code(kind: ServiceKind) -> int {
    match kind {
        ServiceKind::Base => 0,
        ServiceKind::Super => 1,
        ServiceKind::Epic => 2,
        ServiceKind::Awesome => 3,
    }
}

/// The bytes of memory that one operation of a tier holds while it runs.
pub open spec fn service_mem_required(kind: ServiceKind) -> int {
    match kind {
        ServiceKind::Base => 512_000,
        ServiceKind::Super => 768_000,
        ServiceKind::Epic => 1_000_000,
        ServiceKind::Awesome => 4_000_000,
    }
}

/// The name of a tier.
pub open spec fn service_name(kind: ServiceKind) -> Seq<char> {
    match kind {
        ServiceKind::Base => seq!['B', 'a', 's', 'e'],
        ServiceKind::Super => seq!['S', 'u', 'p', 'e', 'r'],
        ServiceKind::Epic => seq!['E', 'p', 'i', 'c'],
        ServiceKind::Awesome => seq!['A', 'w', 'e', 's', 'o', 'm', 'e'],
    }
}

impl ServiceKind {
    /// The tier that `code` stands for, if it stands for one.
    pub fn from_code(code: u8) -> (kind: Option<Self>)
        ensures
            kind is Some <==> code <= 3,
            kind is Some ==> service_code(kind->0) == code,
    {
        match code {
            0 => Some(ServiceKind::Base),
            1 => Some(ServiceKind::Super),
            2 => Some(ServiceKind::Epic),
            3 => Some(ServiceKind::Awesome),
            _ => None,
        }
    }

    pub fn to_code(self) -> (code: u8)
        ensures
            code == service_code(self),
    {
        match self {
            ServiceKind::Base => 0,
            ServiceKind::Super => 1,
            ServiceKind::Epic => 2,
            ServiceKind::Awesome => 3,
        }
    }

    /// The memory that one operation of this tier holds while it runs.
    pub fn mem_required(&self) -> (m: Memory)
        ensures
            m@ == service_mem_required(*self),
    {
        match self {
            ServiceKind::Base => Memory::kb(512),
            ServiceKind::Super => Memory::kb(768),
            ServiceKind::Epic => Memory::mb(1),
            ServiceKind::Awesome => Memory::mb(4),
        }
    }

    /// The name of the tier.
    pub fn to_string(&self) -> (s: String)
        ensures
            s@ == service_name(*self),
    {
        proof {
            reveal_strlit("Base");
            reveal_strlit("Super");
            reveal_strlit("Epic");
            reveal_strlit("Awesome");
        }
        let name = match self {
            ServiceKind::Base => "Base",
            ServiceKind::Super => "Super",
            ServiceKind::Epic => "Epic",
            ServiceKind::Awesome => "Awesome",
        };
        assert(name@ =~= service_name(*self));
        String::from_str(name)
    }
}

/// The live figures of one service tier.
#[derive(Debug, Clone, Copy, PartialEq, Eq, Structural)]
pub struct ServiceInfo {
    /// the price of one operation
    pub price: Money,
    /// money earned with every operation, whoever asked for it
    /// (but for malicious requests)
    pub entitlement: Money,
    /// the operations that the player has left to spend
    pub available: Ops,
    /// the operations performed since the start
    pub total: Ops,
    /// whether the player has unlocked the service
    pub unlocked: bool,
    /// whether the service is still closed to customers
    pub private: bool,
}

impl ServiceInfo {
    /// A service that the player has, and that no customer can use yet.
    pub fn new_private(price: Money) -> (info: Self)
        ensures
            info == (ServiceInfo {
                price,
                entitlement: Money(0),
                available: Ops(0),
                total: Ops(0),
                unlocked: true,
                private: true,
            }),
    {
        ServiceInfo {
            price,
            entitlement: Money::zero(),
            available: Ops(0),
            total: Ops(0),
            unlocked: true,
            private: true,
        }
    }

    /// A service that the player has yet to unlock.
    pub fn new_locked(price: Money) -> (info: Self)
        ensures
            info == (ServiceInfo {
                price,
                entitlement: Money(0),
                available: Ops(0),
                total: Ops(0),
                unlocked: false,
                private: true,
            }),
    {
        ServiceInfo {
            price,
            entitlement: Money::zero(),
            available: Ops(0),
            total: Ops(0),
            unlocked: false,
            private: true,
        }
    }
}

impl Default for ServiceInfo {
    fn default() -> (info: Self)
        ensures
            info == (ServiceInfo {
                price: Money(0),
                entitlement: Money(0),
                available: Ops(0),
                total: Ops(0),
                unlocked: false,
                private: false,
            }),
    {
        ServiceInfo {
            price: Money::zero(),
            entitlement: Money::zero(),
            available: Ops(0),
            total: Ops(0),
            unlocked: false,
            private: false,
        }
    }
}

} // verus!

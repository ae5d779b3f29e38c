//! Cohorts: the sources of the traffic that customers send.

use vstd::prelude::*;

use crate::service::ServiceKind;
use crate::Time;

verus! {

/// A cohort of cloud users: a source of requests for one service tier.
#[derive(Debug, Clone, Copy, PartialEq, Eq, Structural)]
pub struct CloudUserSpec {
    /// the number by which the cohort is found; no two live cohorts share it
    pub id: u32,
    /// the service that the cohort uses
    pub service: ServiceKind,
    /// the time up to which the cohort does not pay per request
    /// (0 for a cohort that always pays)
    pub trial_time: Time,
    /// whether the cohort is malicious and sends only bad requests
    pub bad: bool,
}

impl CloudUserSpec {
    /// Whether a request of this cohort that is fulfilled at `time` is paid
    /// for.
    pub fn is_paying(&self, time: Time) -> (paying: bool)
        ensures
            paying == (!self.bad && time >= self.trial_time),
    {
        !self.bad && time >= self.trial_time
    }

    /// Whether the cohort stays for good: it has no trial that could end.
    pub open spec fn is_permanent(&self) -> bool {
        self.trial_time == 0
    }

    /// Whether the cohort still sends requests at `time`: it is permanent,
    /// or its trial has not ended.
    pub open spec fn is_live(&self, time: Time) -> bool {
        self.trial_time == 0 || self.trial_time > time
    }
}

/// What a card says of the customers that it brings: never malicious, and
/// with a trial that is a duration, not a point in time.
#[derive(Debug, Clone, Copy, PartialEq, Eq, Structural)]
pub struct CloudClientSpec {
    /// the service that the customers will use
    pub service: ServiceKind,
    /// for how long the customers do not pay per request
    /// (0 for customers who always pay)
    pub trial_duration: u32,
}

} // verus!

//! What a card does to the state of the game when it is used.

use vstd::prelude::*;

use crate::cards::CardEffect;
use crate::cloud_user::{CloudClientSpec, CloudUserSpec};
use crate::electricity::{capped_add, capped_sum, Electricity, MAX_ELECTRICITY_COST_LEVEL};
use crate::memory::Memory;
use crate::money::{clamp_i64, Money};
use crate::node::CloudNode;
use crate::sampling::CHANCE_SCALE;
use crate::service::{ServiceInfo, ServiceKind};
use crate::state::{
    cohorts_in_order, memory_reserve_required, nodes_in_order, DEMAND_DOS_THRESHOLD,
    MAX_CACHE_LEVEL, MAX_SOFTWARE_LEVEL, OPENING_DEMAND, WorldState,
};
use crate::Time;

verus! {

/// Whether one of the cohorts uses `service` and is malicious or not as
/// `bad` says.
pub open spec fn has_cohort(specs: Seq<CloudUserSpec>, service: ServiceKind, bad: bool) -> bool {
    exists|i: int|
        0 <= i < specs.len() && (#[trigger] specs[i]).service == service && specs[i].bad == bad
}

/// Whether there is a number left for one more cohort.
pub open spec fn has_free_number(specs: Seq<CloudUserSpec>) -> bool {
    specs.len() == 0 || specs.last().id < u32::MAX
}

/// The number of the next cohort: one more than the highest in use.
pub open spec fn next_number(specs: Seq<CloudUserSpec>) -> u32 {
    if specs.len() == 0 {
        1
    } else {
        (specs.last().id + 1) as u32
    }
}

/// The cohorts with one more behind them, where it is `wanted` and a
/// number is left for it.
pub open spec fn with_cohort(
    specs: Seq<CloudUserSpec>,
    wanted: bool,
    service: ServiceKind,
    trial_time: Time,
    bad: bool,
) -> Seq<CloudUserSpec> {
    if wanted && has_free_number(specs) {
        specs.push(CloudUserSpec { id: next_number(specs), service, trial_time, bad })
    } else {
        specs
    }
}

/// The cohorts with a malicious one added for every tier that has none,
/// from the base tier up.
pub open spec fn with_attackers(specs: Seq<CloudUserSpec>) -> Seq<CloudUserSpec> {
    let a = with_cohort(
        specs,
        !has_cohort(specs, ServiceKind::Base, true),
        ServiceKind::Base,
        0,
        true,
    );
    let b = with_cohort(a, !has_cohort(a, ServiceKind::Super, true), ServiceKind::Super, 0, true);
    let c = with_cohort(b, !has_cohort(b, ServiceKind::Epic, true), ServiceKind::Epic, 0, true);
    with_cohort(c, !has_cohort(c, ServiceKind::Awesome, true), ServiceKind::Awesome, 0, true)
}

/// The cohorts that are not malicious, in their order.
pub open spec fn without_attackers(specs: Seq<CloudUserSpec>) -> Seq<CloudUserSpec> {
    specs.filter(|spec: CloudUserSpec| !spec.bad)
}

/// The end of the trial of customers who come at `time` with a trial of
/// `duration`.
pub open spec fn trial_end(time: Time, duration: u32) -> Time {
    crate::queue::time_after(time, duration as int)
}

/// The larger of two numbers.
pub open spec fn larger(a: int, b: int) -> int {
    if a >= b {
        a
    } else {
        b
    }
}

/// The smaller of two numbers.
pub open spec fn smaller(a: int, b: int) -> int {
    if a <= b {
        a
    } else {
        b
    }
}

/// The ambient demand after an effect.
pub open spec fn demand_after(state: WorldState, effect: CardEffect) -> u64 {
    match effect {
        CardEffect::PublishService(ServiceKind::Base) => OPENING_DEMAND,
        CardEffect::SetElectricityCostLevel(4) => capped_sum(state.demand as int, 5_000_000) as u64,
        CardEffect::SetElectricityCostLevel(6) => capped_sum(state.demand as int, 50_000_000) as u64,
        CardEffect::AddClientsWithPublicity(_, delta) => capped_sum(
            state.demand as int,
            delta as int,
        ) as u64,
        CardEffect::AddPublicityRate(delta, _) => capped_sum(state.demand as int, delta as int) as u64,
        _ => state.demand,
    }
}

/// The growth of the ambient demand after an effect.
pub open spec fn demand_rate_after(state: WorldState, effect: CardEffect) -> u64 {
    match effect {
        CardEffect::SetElectricityCostLevel(4) => capped_sum(state.demand_rate as int, 32_000) as u64,
        CardEffect::SetElectricityCostLevel(6) => capped_sum(state.demand_rate as int, 64_000) as u64,
        CardEffect::AddPublicityRate(_, delta) => capped_sum(
            state.demand_rate as int,
            delta as int,
        ) as u64,
        _ => state.demand_rate,
    }
}

/// The figures of the service `kind` after an effect.
pub open spec fn service_after(state: WorldState, effect: CardEffect, kind: ServiceKind) -> ServiceInfo {
    let info = state.service(kind);
    match effect {
        CardEffect::UnlockService(k) if k == kind => ServiceInfo {
            unlocked: true,
            private: true,
            ..info
        },
        CardEffect::PublishService(k) if k == kind => ServiceInfo { private: false, ..info },
        CardEffect::UpgradeEntitlements(k, money) if k == kind => ServiceInfo {
            entitlement: Money(larger(info.entitlement@, money@) as i64),
            ..info
        },
        _ => info,
    }
}

/// The cohorts after an effect.
pub open spec fn cohorts_after(state: WorldState, effect: CardEffect) -> Seq<CloudUserSpec> {
    let specs = state.user_specs@;
    match effect {
        CardEffect::PublishService(kind) => {
            let customers = with_cohort(specs, !has_cohort(specs, kind, false), kind, 0, false);
            with_cohort(
                customers,
                demand_after(state, effect) > DEMAND_DOS_THRESHOLD && !has_cohort(
                    customers,
                    kind,
                    true,
                ),
                kind,
                0,
                true,
            )
        },
        CardEffect::AddClients(client) => with_cohort(
            specs,
            true,
            client.service,
            trial_end(state.time, client.trial_duration),
            false,
        ),
        CardEffect::AddClientsWithPublicity(client, _) => with_cohort(
            specs,
            true,
            client.service,
            if client.trial_duration > 0 {
                trial_end(state.time, client.trial_duration)
            } else {
                0
            },
            false,
        ),
        CardEffect::AddPublicityRate(_, _) => if state.demand <= DEMAND_DOS_THRESHOLD
            && demand_after(state, effect) > DEMAND_DOS_THRESHOLD {
            with_attackers(specs)
        } else {
            specs
        },
        CardEffect::UpgradeSpamProtection(chance) => if chance >= CHANCE_SCALE {
            without_attackers(specs)
        } else {
            specs
        },
        _ => specs,
    }
}

/// The state after an effect, but for the cohorts and the nodes, which
/// are those of `state`.
pub open spec fn figures_after(state: WorldState, effect: CardEffect) -> WorldState {
    WorldState {
        demand: demand_after(state, effect),
        demand_rate: demand_rate_after(state, effect),
        base_service: service_after(state, effect, ServiceKind::Base),
        super_service: service_after(state, effect, ServiceKind::Super),
        epic_service: service_after(state, effect, ServiceKind::Epic),
        awesome_service: service_after(state, effect, ServiceKind::Awesome),
        funds: match effect {
            CardEffect::AddFunds(money) => Money(clamp_i64(state.funds@ + money@) as i64),
            _ => state.funds,
        },
        electricity: match effect {
            CardEffect::SetElectricityCostLevel(level) => Electricity {
                cost_level: larger(
                    state.electricity.cost_level as int,
                    smaller(level as int, MAX_ELECTRICITY_COST_LEVEL as int),
                ) as u8,
                ..state.electricity
            },
            _ => state.electricity,
        },
        ops_per_click: match effect {
            CardEffect::UpgradeOpsPerClick(amount) => larger(
                state.ops_per_click as int,
                amount as int,
            ) as u32,
            _ => state.ops_per_click,
        },
        software_level: match effect {
            CardEffect::UpgradeServices => smaller(
                state.software_level + 1,
                MAX_SOFTWARE_LEVEL as int,
            ) as u8,
            _ => state.software_level,
        },
        cache_level: match effect {
            CardEffect::MoreCaching => smaller(state.cache_level + 1, MAX_CACHE_LEVEL as int) as u8,
            _ => state.cache_level,
        },
        spam_protection: match effect {
            CardEffect::UpgradeSpamProtection(chance) => larger(
                state.spam_protection as int,
                smaller(chance as int, CHANCE_SCALE as int),
            ) as u32,
            _ => state.spam_protection,
        },
        routing_level: match effect {
            CardEffect::UpgradeRoutingLevel(level) => if state.routing_level.rank()
                >= level.rank() {
                state.routing_level
            } else {
                level
            },
            _ => state.routing_level,
        },
        can_see_demand: state.can_see_demand || effect is UnlockDemandEstimate,
        can_see_energy_consumption: state.can_see_energy_consumption
            || effect is UnlockEnergyEstimate,
        can_see_request_rates: state.can_see_request_rates || effect is UnlockRequestRateEstimate,
        can_buy_nodes: state.can_buy_nodes || effect is UnlockMultiNodes,
        can_buy_racks: state.can_buy_racks || effect is UnlockMultiRacks,
        can_buy_datacenters: state.can_buy_datacenters || effect is UnlockMultiDatacenters,
        ..state
    }
}

/// A node after its reservation was cut down to `maximum_reserve`: what was
/// reserved beyond that is free again, and nothing else has changed.
pub open spec fn node_trimmed(before: CloudNode, after: CloudNode, maximum_reserve: int) -> bool {
    &&& after.same_hardware(&before)
    &&& after.processing == before.processing
    &&& after.requests == before.requests
    &&& after.ram_reserved@ == smaller(before.ram_reserved@, maximum_reserve)
    &&& after.ram_usage@ - after.ram_reserved@ == before.ram_usage@ - before.ram_reserved@
}

/// The nodes after an effect: an upgrade of the service software cuts the
/// reservation of every node down to what the new software is expected to
/// need; no other effect touches a node.
pub open spec fn nodes_after(
    state: WorldState,
    effect: CardEffect,
    nodes: Seq<CloudNode>,
) -> bool {
    if effect is UpgradeServices {
        &&& nodes.len() == state.nodes@.len()
        &&& forall|i: int|
            0 <= i < nodes.len() ==> node_trimmed(
                state.nodes@[i],
                #[trigger] nodes[i],
                memory_reserve_required(
                    state.highest_tier(),
                    0,
                    smaller(state.software_level + 1, MAX_SOFTWARE_LEVEL as int),
                ),
            )
    } else {
        nodes == state.nodes@
    }
}

/// Whether `after` is the state that `effect` makes of `before`.
pub open spec fn effect_applied(before: WorldState, effect: CardEffect, after: WorldState) -> bool {
    &&& after.user_specs@ == cohorts_after(before, effect)
    &&& nodes_after(before, effect, after.nodes@)
    &&& after == (WorldState {
        user_specs: after.user_specs,
        nodes: after.nodes,
        ..figures_after(before, effect)
    })
}

impl WorldState {
    /// Whether one of the cohorts uses `service` and is malicious or not as
    /// `bad` says.
    pub fn has_cohort(&self, service: ServiceKind, bad: bool) -> (b: bool)
        ensures
            b == has_cohort(self.user_specs@, service, bad),
    {
        let mut i: usize = 0;
        while i < self.user_specs.len()
            invariant
                0 <= i <= self.user_specs@.len(),
                forall|j: int|
                    0 <= j < i ==> !((#[trigger] self.user_specs@[j]).service == service
                        && self.user_specs@[j].bad == bad),
            decreases self.user_specs@.len() - i,
        {
            if self.user_specs[i].service == service && self.user_specs[i].bad == bad {
                return true;
            }
            i = i + 1;
        }
        false
    }

    /// Adds a cohort where it is `wanted` and a number is left for it.
    pub fn add_cohort(&mut self, wanted: bool, service: ServiceKind, trial_time: Time, bad: bool)
        requires
            cohorts_in_order(old(self).user_specs@),
        ensures
            final(self).user_specs@ == with_cohort(
                old(self).user_specs@,
                wanted,
                service,
                trial_time,
                bad,
            ),
            cohorts_in_order(final(self).user_specs@),
            *final(self) == (WorldState { user_specs: final(self).user_specs, ..*old(self) }),
    {
        if wanted {
            let count = self.user_specs.len();
            if count == 0 || self.user_specs[count - 1].id < u32::MAX {
                let id = self.next_user_spec_id();
                self.user_specs.push(CloudUserSpec { id, service, trial_time, bad });
            }
        }
    }

    /// Adds a malicious cohort for every tier that has none.
    pub fn add_attackers(&mut self)
        requires
            cohorts_in_order(old(self).user_specs@),
        ensures
            final(self).user_specs@ == with_attackers(old(self).user_specs@),
            cohorts_in_order(final(self).user_specs@),
            *final(self) == (WorldState { user_specs: final(self).user_specs, ..*old(self) }),
    {
        let wanted = !self.has_cohort(ServiceKind::Base, true);
        self.add_cohort(wanted, ServiceKind::Base, 0, true);
        let wanted = !self.has_cohort(ServiceKind::Super, true);
        self.add_cohort(wanted, ServiceKind::Super, 0, true);
        let wanted = !self.has_cohort(ServiceKind::Epic, true);
        self.add_cohort(wanted, ServiceKind::Epic, 0, true);
        let wanted = !self.has_cohort(ServiceKind::Awesome, true);
        self.add_cohort(wanted, ServiceKind::Awesome, 0, true);
    }

    /// Sends the malicious cohorts away.
    pub fn remove_attackers(&mut self)
        requires
            cohorts_in_order(old(self).user_specs@),
        ensures
            final(self).user_specs@ == without_attackers(old(self).user_specs@),
            cohorts_in_order(final(self).user_specs@),
            *final(self) == (WorldState { user_specs: final(self).user_specs, ..*old(self) }),
    {
        let mut kept: Vec<CloudUserSpec> = Vec::new();
        let mut i: usize = 0;
        proof {
            reveal(Seq::filter);
            assert(self.user_specs@.take(0) =~= Seq::<CloudUserSpec>::empty());
        }
        while i < self.user_specs.len()
            invariant
                0 <= i <= self.user_specs@.len(),
                *self == *old(self),
                cohorts_in_order(self.user_specs@),
                kept@ == without_attackers(self.user_specs@.take(i as int)),
                cohorts_in_order(kept@),
                forall|j: int|
                    0 <= j < kept@.len() ==> exists|k: int|
                        0 <= k < i && self.user_specs@[k] == #[trigger] kept@[j],
            decreases self.user_specs@.len() - i,
        {
            let spec = self.user_specs[i];
            proof {
                reveal(Seq::filter);
                assert(self.user_specs@.take(i as int + 1).drop_last() =~= self.user_specs@.take(
                    i as int,
                ));
            }
            if !spec.bad {
                proof {
                    let longer = kept@.push(spec);
                    assert forall|a: int, b: int| 0 <= a < b < longer.len() implies longer[a].id
                        < longer[b].id by {
                        if b == kept@.len() {
                            let k = choose|k: int| 0 <= k < i && self.user_specs@[k] == kept@[a];
                            assert(self.user_specs@[k].id < self.user_specs@[i as int].id);
                        }
                    }
                    assert forall|j: int| 0 <= j < longer.len() implies exists|k: int|
                        0 <= k < i + 1 && self.user_specs@[k] == #[trigger] longer[j] by {
                        if j < kept@.len() {
                            let k = choose|k: int| 0 <= k < i && self.user_specs@[k] == kept@[j];
                            assert(self.user_specs@[k] == longer[j]);
                        } else {
                            assert(self.user_specs@[i as int] == longer[j]);
                        }
                    }
                }
                kept.push(spec);
            }
            i = i + 1;
        }
        assert(self.user_specs@.take(self.user_specs@.len() as int) =~= self.user_specs@);
        self.user_specs = kept;
    }

    /// Cuts the reservation of every node down to `maximum_reserve`.
    pub fn trim_reserves(&mut self, maximum_reserve: Memory)
        requires
            nodes_in_order(old(self).nodes@),
            maximum_reserve@ >= 0,
        ensures
            final(self).nodes@.len() == old(self).nodes@.len(),
            forall|i: int|
                0 <= i < old(self).nodes@.len() ==> node_trimmed(
                    old(self).nodes@[i],
                    #[trigger] final(self).nodes@[i],
                    maximum_reserve@,
                ),
            nodes_in_order(final(self).nodes@),
            *final(self) == (WorldState { nodes: final(self).nodes, ..*old(self) }),
    {
        let mut i: usize = 0;
        while i < self.nodes.len()
            invariant
                0 <= i <= self.nodes@.len(),
                self.nodes@.len() == old(self).nodes@.len(),
                maximum_reserve@ >= 0,
                nodes_in_order(self.nodes@),
                forall|j: int|
                    0 <= j < i ==> node_trimmed(
                        old(self).nodes@[j],
                        #[trigger] self.nodes@[j],
                        maximum_reserve@,
                    ),
                forall|j: int| i <= j < self.nodes@.len() ==> self.nodes@[j] == old(self).nodes@[j],
                *self == (WorldState { nodes: self.nodes, ..*old(self) }),
            decreases self.nodes@.len() - i,
        {
            let node = &mut self.nodes[i];
            node.release_excess_reserve(maximum_reserve);
            i = i + 1;
        }
    }

    /// Gives the player a service, which stays closed to the customers.
    pub fn unlock_service(&mut self, kind: ServiceKind)
        requires
            old(self).is_sound(),
        ensures
            final(self).is_sound(),
            effect_applied(*old(self), CardEffect::UnlockService(kind), *final(self)),
    {
        let info = self.service_by_kind(kind);
        self.set_service(kind, ServiceInfo { unlocked: true, private: true, ..info });
    }

    /// Opens a service to the customers, without a thought for the cohorts.
    fn open_service(&mut self, kind: ServiceKind)
        ensures
            *final(self) == (WorldState {
                user_specs: old(self).user_specs,
                nodes: old(self).nodes,
                ..figures_after(*old(self), CardEffect::PublishService(kind))
            }),
    {
        let info = self.service_by_kind(kind);
        self.set_service(kind, ServiceInfo { private: false, ..info });
        if kind == ServiceKind::Base {
            self.demand = OPENING_DEMAND;
        }
    }

    /// Opens a service to the customers. The service gets a cohort of
    /// customers unless it has one, and a malicious cohort where the demand
    /// is high and it has none. Opening the base service sets the ambient
    /// demand to its first value.
    pub fn publish_service(&mut self, kind: ServiceKind)
        requires
            old(self).is_sound(),
        ensures
            final(self).is_sound(),
            effect_applied(*old(self), CardEffect::PublishService(kind), *final(self)),
    {
        self.open_service(kind);
        let ghost opened = *self;
        let wanted = !self.has_cohort(kind, false);
        self.add_cohort(wanted, kind, 0, false);
        let wanted = self.demand > DEMAND_DOS_THRESHOLD && !self.has_cohort(kind, true);
        self.add_cohort(wanted, kind, 0, true);
        assert(self.user_specs@ == cohorts_after(*old(self), CardEffect::PublishService(kind)));
        assert(*self == (WorldState { user_specs: self.user_specs, ..opened }));
    }

    /// Raises the money that every operation of a service earns to at least
    /// `money`.
    pub fn upgrade_entitlements(&mut self, kind: ServiceKind, money: Money)
        requires
            old(self).is_sound(),
        ensures
            final(self).is_sound(),
            effect_applied(*old(self), CardEffect::UpgradeEntitlements(kind, money), *final(self)),
    {
        let info = self.service_by_kind(kind);
        self.set_service(kind, ServiceInfo { entitlement: info.entitlement.max(money), ..info });
    }

    /// Raises the level of the cost of electricity to at least `level`, and
    /// no further than its last level. The fourth and the sixth level come
    /// with publicity.
    pub fn set_electricity_cost_level(&mut self, level: u8)
        requires
            old(self).is_sound(),
        ensures
            final(self).is_sound(),
            effect_applied(*old(self), CardEffect::SetElectricityCostLevel(level), *final(self)),
    {
        let capped: u8 = if level > MAX_ELECTRICITY_COST_LEVEL {
            MAX_ELECTRICITY_COST_LEVEL
        } else {
            level
        };
        if capped > self.electricity.cost_level {
            self.electricity.cost_level = capped;
        }
        if level == 4 {
            self.demand = capped_add(self.demand, 5_000_000);
            self.demand_rate = capped_add(self.demand_rate, 32_000);
        } else if level == 6 {
            self.demand = capped_add(self.demand, 50_000_000);
            self.demand_rate = capped_add(self.demand_rate, 64_000);
        }
    }

    /// Brings a cohort of customers, whose trial ends `trial_duration` from
    /// now.
    pub fn add_clients(&mut self, client: CloudClientSpec)
        requires
            old(self).is_sound(),
        ensures
            final(self).is_sound(),
            effect_applied(*old(self), CardEffect::AddClients(client), *final(self)),
    {
        let trial_time = crate::queue::time_plus(self.time, client.trial_duration as u64);
        self.add_cohort(true, client.service, trial_time, false);
    }

    /// Raises the ambient demand by `delta` and brings a cohort of
    /// customers, who always pay where their trial has no duration.
    pub fn add_clients_with_publicity(&mut self, client: CloudClientSpec, delta: u64)
        requires
            old(self).is_sound(),
        ensures
            final(self).is_sound(),
            effect_applied(
                *old(self),
                CardEffect::AddClientsWithPublicity(client, delta),
                *final(self),
            ),
    {
        self.demand = capped_add(self.demand, delta);
        let trial_time = if client.trial_duration > 0 {
            crate::queue::time_plus(self.time, client.trial_duration as u64)
        } else {
            0
        };
        self.add_cohort(true, client.service, trial_time, false);
    }

    /// Raises the ambient demand and its growth. Where the demand becomes
    /// high by this, every tier gets a malicious cohort unless it has one.
    pub fn add_publicity_rate(&mut self, delta: u64, rate_delta: u64)
        requires
            old(self).is_sound(),
        ensures
            final(self).is_sound(),
            effect_applied(*old(self), CardEffect::AddPublicityRate(delta, rate_delta), *final(self)),
    {
        let was_high = self.demand > DEMAND_DOS_THRESHOLD;
        self.demand = capped_add(self.demand, delta);
        self.demand_rate = capped_add(self.demand_rate, rate_delta);
        if !was_high && self.demand > DEMAND_DOS_THRESHOLD {
            self.add_attackers();
        }
    }

    /// Takes the service software to its next level, unless it is at its
    /// last, and frees the memory that the nodes have reserved beyond what
    /// the software is now expected to need.
    pub fn upgrade_services(&mut self)
        requires
            old(self).is_sound(),
        ensures
            final(self).is_sound(),
            effect_applied(*old(self), CardEffect::UpgradeServices, *final(self)),
    {
        if self.software_level < MAX_SOFTWARE_LEVEL {
            self.software_level = self.software_level + 1;
        }
        let maximum_reserve = self.expected_ram_reserved();
        self.trim_reserves(maximum_reserve);
    }

    /// Raises the chance that a malicious request is caught to at least
    /// `chance` thousandths. With a chance of a thousand the malicious
    /// cohorts leave.
    pub fn upgrade_spam_protection(&mut self, chance: u32)
        requires
            old(self).is_sound(),
        ensures
            final(self).is_sound(),
            effect_applied(*old(self), CardEffect::UpgradeSpamProtection(chance), *final(self)),
    {
        let capped: u32 = if chance > CHANCE_SCALE {
            CHANCE_SCALE
        } else {
            chance
        };
        if capped > self.spam_protection {
            self.spam_protection = capped;
        }
        if chance >= CHANCE_SCALE {
            self.remove_attackers();
        }
    }

    /// Does what the effects do that change one figure and nothing else.
    fn apply_plain_effect(&mut self, effect: &CardEffect)
        requires
            old(self).is_sound(),
            match *effect {
                CardEffect::Nothing
                | CardEffect::UnlockDemandEstimate
                | CardEffect::UnlockEnergyEstimate
                | CardEffect::UnlockRequestRateEstimate
                | CardEffect::UnlockMultiNodes
                | CardEffect::UnlockMultiRacks
                | CardEffect::UnlockMultiDatacenters
                | CardEffect::UpgradeOpsPerClick(_)
                | CardEffect::AddFunds(_)
                | CardEffect::MoreCaching
                | CardEffect::UpgradeRoutingLevel(_) => true,
                _ => false,
            },
        ensures
            final(self).is_sound(),
            effect_applied(*old(self), *effect, *final(self)),
    {
        match effect {
            CardEffect::UnlockDemandEstimate => {
                self.can_see_demand = true;
            },
            CardEffect::UnlockEnergyEstimate => {
                self.can_see_energy_consumption = true;
            },
            CardEffect::UnlockRequestRateEstimate => {
                self.can_see_request_rates = true;
            },
            CardEffect::UnlockMultiNodes => {
                self.can_buy_nodes = true;
            },
            CardEffect::UnlockMultiRacks => {
                self.can_buy_racks = true;
            },
            CardEffect::UnlockMultiDatacenters => {
                self.can_buy_datacenters = true;
            },
            CardEffect::UpgradeOpsPerClick(amount) => {
                if *amount > self.ops_per_click {
                    self.ops_per_click = *amount;
                }
            },
            CardEffect::AddFunds(money) => {
                self.funds = self.funds.saturating_plus(*money);
            },
            CardEffect::MoreCaching => {
                if self.cache_level < MAX_CACHE_LEVEL {
                    self.cache_level = self.cache_level + 1;
                }
            },
            CardEffect::UpgradeRoutingLevel(level) => {
                self.routing_level = self.routing_level.max(*level);
            },
            _ => {},
        }
    }

    /// Does to the state what a card does when it is used.
    pub fn apply_card_effect(&mut self, effect: &CardEffect)
        requires
            old(self).is_sound(),
        ensures
            final(self).is_sound(),
            effect_applied(*old(self), *effect, *final(self)),
    {
        match effect {
            CardEffect::UnlockService(kind) => self.unlock_service(*kind),
            CardEffect::PublishService(kind) => self.publish_service(*kind),
            CardEffect::UpgradeEntitlements(kind, money) => self.upgrade_entitlements(
                *kind,
                *money,
            ),
            CardEffect::SetElectricityCostLevel(level) => self.set_electricity_cost_level(*level),
            CardEffect::AddClients(client) => self.add_clients(*client),
            CardEffect::AddClientsWithPublicity(client, delta) => self.add_clients_with_publicity(
                *client,
                *delta,
            ),
            CardEffect::AddPublicityRate(delta, rate_delta) => self.add_publicity_rate(
                *delta,
                *rate_delta,
            ),
            CardEffect::UpgradeServices => self.upgrade_services(),
            CardEffect::UpgradeSpamProtection(chance) => self.upgrade_spam_protection(*chance),
            _ => self.apply_plain_effect(effect),
        }
    }
}

/// Whether no level of `after` is below that level of `before`: the
/// software, caching, routing, spam protection and electricity levels, and
/// the CPU and RAM level of every node that `before` has.
pub open spec fn levels_kept(before: WorldState, after: WorldState) -> bool {
    &&& before.software_level <= after.software_level
    &&& before.cache_level <= after.cache_level
    &&& before.routing_level.rank() <= after.routing_level.rank()
    &&& before.spam_protection <= after.spam_protection
    &&& before.electricity.cost_level <= after.electricity.cost_level
    &&& before.nodes@.len() <= after.nodes@.len()
    &&& forall|i: int|
        0 <= i < before.nodes@.len() ==> (#[trigger] before.nodes@[i]).cpu_level
            <= after.nodes@[i].cpu_level && before.nodes@[i].ram_level <= after.nodes@[i].ram_level
}

/// No effect lowers a level.
pub proof fn lemma_effect_keeps_levels(before: WorldState, effect: CardEffect, after: WorldState)
    requires
        before.is_sound(),
        effect_applied(before, effect, after),
    ensures
        levels_kept(before, after),
{
    if effect is UpgradeServices {
        assert forall|i: int| 0 <= i < before.nodes@.len() implies (
        #[trigger] before.nodes@[i]).cpu_level <= after.nodes@[i].cpu_level
            && before.nodes@[i].ram_level <= after.nodes@[i].ram_level by {
            assert(node_trimmed(before.nodes@[i], after.nodes@[i], memory_reserve_required(
                before.highest_tier(),
                0,
                smaller(before.software_level + 1, MAX_SOFTWARE_LEVEL as int),
            )));
        }
    }
}

/// Levels never decrease across a sequence of effects: where each of the
/// sound states of `states` is made of the one before it by the effect of
/// `effects` at that place, no later state has a level below that of an
/// earlier one.
pub proof fn lemma_effects_keep_levels(
    states: Seq<WorldState>,
    effects: Seq<CardEffect>,
    earlier: int,
    later: int,
)
    requires
        states.len() == effects.len() + 1,
        forall|i: int| 0 <= i < states.len() ==> (#[trigger] states[i]).is_sound(),
        forall|i: int|
            0 <= i < effects.len() ==> effect_applied(
                #[trigger] states[i],
                effects[i],
                states[i + 1],
            ),
        0 <= earlier <= later < states.len(),
    ensures
        levels_kept(states[earlier], states[later]),
    decreases later - earlier,
{
    if earlier < later {
        lemma_effects_keep_levels(states, effects, earlier, later - 1);
        assert(effect_applied(states[later - 1], effects[later - 1], states[later]));
        lemma_effect_keeps_levels(states[later - 1], effects[later - 1], states[later]);
        let a = states[earlier];
        let b = states[later - 1];
        let c = states[later];
        assert forall|i: int| 0 <= i < a.nodes@.len() implies (#[trigger] a.nodes@[i]).cpu_level
            <= c.nodes@[i].cpu_level && a.nodes@[i].ram_level <= c.nodes@[i].ram_level by {
            assert(a.nodes@[i].cpu_level <= b.nodes@[i].cpu_level);
            assert(b.nodes@[i].cpu_level <= c.nodes@[i].cpu_level);
        }
    }
}

} // verus!

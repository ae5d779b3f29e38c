//! The whole state of a game.

use std::collections::VecDeque;
use vstd::prelude::*;

use crate::cloud_user::CloudUserSpec;
use crate::cost::Cost;
use crate::electricity::{ELECTRICITY_BILL_PERIOD, Electricity, MAX_ELECTRICITY_COST_LEVEL};
use crate::memory::Memory;
use crate::money::{clamp_i64, Money};
use crate::node::CloudNode;
use crate::ops::Ops;
use crate::sampling::CHANCE_SCALE;
use crate::service::{ServiceInfo, ServiceKind};
use crate::text::{comes_before, same_text, text_before};
use crate::Time;

verus! {

/// The last level of the service software.
pub const MAX_SOFTWARE_LEVEL: u8 = 4;

/// The last level of caching.
pub const MAX_CACHE_LEVEL: u8 = 4;

/// The ambient demand, in thousandths, above which malicious cohorts
/// emerge.
pub const DEMAND_DOS_THRESHOLD: u64 = 2_500_000;

/// The ambient demand of a service that was just opened to the public, in
/// thousandths.
pub const OPENING_DEMAND: u64 = 1_000;

/// The unpaid amount above which power is saved once a bill period has
/// passed, in millicents.
pub const POWERSAVE_DUE: i64 = 1_000_000;

/// How requests find their node.
#[derive(Debug, Clone, Copy, PartialEq, Eq, Structural)]
pub enum RoutingLevel {
    /// The first node does all the routing.
    MainNode,
    /// The nodes share the routing among them.
    Distributed,
    /// Routing takes no time and no core.
    NoRoutingCost,
}

impl RoutingLevel {
    /// The place of the level in the order of the upgrades.
    pub open spec fn rank(self) -> int {
        match self {
            RoutingLevel::MainNode => 0,
            RoutingLevel::Distributed => 1,
            RoutingLevel::NoRoutingCost => 2,
        }
    }

    /// The higher of two levels.
    pub fn max(self, other: Self) -> (level: Self)
        ensures
            level == if self.rank() >= other.rank() { self } else { other },
    {
        match (self, other) {
            (RoutingLevel::NoRoutingCost, _) | (_, RoutingLevel::NoRoutingCost) => {
                RoutingLevel::NoRoutingCost
            },
            (RoutingLevel::Distributed, _) | (_, RoutingLevel::Distributed) => {
                RoutingLevel::Distributed
            },
            _ => RoutingLevel::MainNode,
        }
    }
}

impl Default for RoutingLevel {
    fn default() -> (level: Self)
        ensures
            level == RoutingLevel::MainNode,
    {
        RoutingLevel::MainNode
    }
}

/// Whether `level` is the routing level of a new game.
pub fn is_default_routing_level(level: &RoutingLevel) -> (b: bool)
    ensures
        b == (*level == RoutingLevel::MainNode),
{
    match level {
        RoutingLevel::MainNode => true,
        _ => false,
    }
}

pub fn is_false(b: &bool) -> (r: bool)
    ensures
        r == !*b,
{
    !*b
}

pub fn is_zero_u64(x: &u64) -> (r: bool)
    ensures
        r == (*x == 0),
{
    *x == 0
}

/// A service counts as unlocked where a record does not say.
pub fn unlocked_default() -> (unlocked: bool)
    ensures
        unlocked,
{
    true
}

/// The record of a card that was used, and when.
#[derive(Debug, Clone, PartialEq)]
pub struct UsedCard {
    pub id: String,
    pub time: Time,
}

/// By how much caching multiplies the memory that a node reserves, at each
/// level of caching.
pub open spec fn cache_reserve_multipliers() -> Seq<int> {
    seq![1, 4, 16, 18, 20]
}

/// The chance that a request is served from the cache, in thousandths, at
/// each level of caching.
pub open spec fn cache_hit_chances() -> Seq<int> {
    seq![0, 250, 500, 750, 875]
}

/// The share of the memory reserve that the service software needs at each
/// of its levels, in thirty-seconds.
pub open spec fn software_memory_shares() -> Seq<int> {
    seq![32, 31, 24, 20, 4]
}

/// The entry of [`cache_reserve_multipliers`] for `level`.
pub fn cache_reserve_multiplier(level: u8) -> (multiplier: i64)
    requires
        level <= MAX_CACHE_LEVEL,
    ensures
        multiplier == cache_reserve_multipliers()[level as int],
{
    match level {
        0 => 1,
        1 => 4,
        2 => 16,
        3 => 18,
        _ => 20,
    }
}

/// The entry of [`cache_hit_chances`] for `level`.
pub fn cache_hit_chance(level: u8) -> (chance: u32)
    requires
        level <= MAX_CACHE_LEVEL,
    ensures
        chance == cache_hit_chances()[level as int],
{
    match level {
        0 => 0,
        1 => 250,
        2 => 500,
        3 => 750,
        _ => 875,
    }
}

/// The entry of [`software_memory_shares`] for `level`.
pub fn software_memory_share(level: u8) -> (share: i64)
    requires
        level <= MAX_SOFTWARE_LEVEL,
    ensures
        share == software_memory_shares()[level as int],
{
    match level {
        0 => 32,
        1 => 31,
        2 => 24,
        3 => 20,
        _ => 4,
    }
}

/// The memory that a node reserves for a tier before caching and software
/// change it, in bytes.
pub open spec fn base_memory_reserve(service: ServiceKind) -> int {
    match service {
        ServiceKind::Base => 32_000_000,
        ServiceKind::Super => 256_000_000,
        ServiceKind::Epic => 2_000_000_000,
        ServiceKind::Awesome => 16_000_000_000,
    }
}

/// The memory that a node must have reserved to serve a tier: the base
/// reserve of the tier, times the multiplier of the caching level, of which
/// the software at its level needs its share.
pub open spec fn memory_reserve_required(
    service: ServiceKind,
    cache_level: int,
    software_level: int,
) -> int {
    base_memory_reserve(service) * cache_reserve_multipliers()[cache_level]
        * software_memory_shares()[software_level] / 32
}

/// The base reserve of a tier.
pub fn base_reserve(service: ServiceKind) -> (reserve: i64)
    ensures
        reserve == base_memory_reserve(service),
{
    match service {
        ServiceKind::Base => 32_000_000,
        ServiceKind::Super => 256_000_000,
        ServiceKind::Epic => 2_000_000_000,
        ServiceKind::Awesome => 16_000_000_000,
    }
}

/// Computes [`memory_reserve_required`].
pub fn calculate_memory_reserve_required(
    service: ServiceKind,
    cache_level: u8,
    software_level: u8,
) -> (reserve: Memory)
    requires
        cache_level <= MAX_CACHE_LEVEL,
        software_level <= MAX_SOFTWARE_LEVEL,
    ensures
        reserve@ == memory_reserve_required(service, cache_level as int, software_level as int),
        reserve@ >= 0,
{
    let base: i64 = base_reserve(service);
    let multiplier: i64 = cache_reserve_multiplier(cache_level);
    let share: i64 = software_memory_share(software_level);
    assert(0 <= base * multiplier <= 320_000_000_000) by (nonlinear_arith)
        requires
            0 <= base <= 16_000_000_000,
            0 <= multiplier <= 20,
    ;
    let cached: i64 = base * multiplier;
    assert(0 <= cached * share <= 10_240_000_000_000) by (nonlinear_arith)
        requires
            0 <= cached <= 320_000_000_000,
            0 <= share <= 32,
    ;
    Memory(cached * share / 32)
}

/// Whether the cohorts stand in the order of their numbers, no number
/// twice.
pub open spec fn cohorts_in_order(specs: Seq<CloudUserSpec>) -> bool {
    forall|i: int, j: int| 0 <= i < j < specs.len() ==> specs[i].id < specs[j].id
}

/// The cohort with the number `id`, if there is one.
pub open spec fn find_cohort(specs: Seq<CloudUserSpec>, id: u32) -> Option<CloudUserSpec>
    decreases specs.len(),
{
    if specs.len() == 0 {
        None
    } else if specs.last().id == id {
        Some(specs.last())
    } else {
        find_cohort(specs.drop_last(), id)
    }
}

/// The cohorts without the one with the number `id`.
pub open spec fn without_cohort(specs: Seq<CloudUserSpec>, id: u32) -> Seq<CloudUserSpec>
    decreases specs.len(),
{
    if specs.len() == 0 {
        specs
    } else if specs.last().id == id {
        specs.drop_last()
    } else {
        without_cohort(specs.drop_last(), id).push(specs.last())
    }
}

/// Among cohorts in order, the cohort with a number is the one that stands
/// where that number is found, and taking it away leaves the others in
/// their order.
pub proof fn lemma_cohort_found(specs: Seq<CloudUserSpec>, index: int)
    requires
        cohorts_in_order(specs),
        0 <= index < specs.len(),
    ensures
        find_cohort(specs, specs[index].id) == Some(specs[index]),
        without_cohort(specs, specs[index].id) == specs.remove(index),
        cohorts_in_order(specs.remove(index)),
    decreases specs.len(),
{
    let id = specs[index].id;
    if index < specs.len() - 1 {
        let front = specs.drop_last();
        assert(front[index] == specs[index]);
        assert(specs[index].id < specs[specs.len() - 1].id);
        lemma_cohort_found(front, index);
        assert(front.remove(index).push(specs.last()) =~= specs.remove(index));
    } else {
        assert(specs.drop_last() =~= specs.remove(index));
    }
    let rest = specs.remove(index);
    assert forall|i: int, j: int| 0 <= i < j < rest.len() implies rest[i].id < rest[j].id by {
        let a = if i < index { i } else { i + 1 };
        let b = if j < index { j } else { j + 1 };
        assert(rest[i] == specs[a] && rest[j] == specs[b]);
    }
}

/// Where no cohort has a number, none is found under it, and there is none
/// to take away.
pub proof fn lemma_cohort_missing(specs: Seq<CloudUserSpec>, id: u32)
    requires
        forall|i: int| 0 <= i < specs.len() ==> specs[i].id != id,
    ensures
        find_cohort(specs, id) is None,
        without_cohort(specs, id) == specs,
    decreases specs.len(),
{
    if specs.len() > 0 {
        let front = specs.drop_last();
        assert forall|i: int| 0 <= i < front.len() implies front[i].id != id by {
            assert(front[i] == specs[i]);
        }
        lemma_cohort_missing(front, id);
        assert(front.push(specs.last()) =~= specs);
    }
}

/// Whether every node is sound and stands at the place that its number
/// gives.
pub open spec fn nodes_in_order(nodes: Seq<CloudNode>) -> bool {
    forall|i: int| 0 <= i < nodes.len() ==> (#[trigger] nodes[i]).id == i && nodes[i].is_sound()
}

/// Whether all the nodes of `after` but the one at `index` are those of
/// `before`.
pub open spec fn nodes_kept_but(before: Seq<CloudNode>, after: Seq<CloudNode>, index: int) -> bool {
    &&& after.len() == before.len()
    &&& forall|i: int| 0 <= i < before.len() && i != index ==> after[i] == before[i]
}

/// The state of a game: the clock, the money, the services, the cohorts,
/// the nodes, and the upgrades that were bought.
#[derive(Debug, Clone, PartialEq)]
pub struct WorldState {
    /// the virtual time
    pub time: Time,
    /// the money that the player has
    pub funds: Money,
    /// the money that the player has spent
    pub spent: Money,
    /// the money that the services have earned
    pub earned: Money,
    /// the ambient demand for the services, in thousandths of a request per
    /// second, before price and tier change it
    pub demand: u64,
    /// by how much the ambient demand grows at each of its periods, in
    /// thousandths
    pub demand_rate: u64,
    /// how often the service software was upgraded
    pub software_level: u8,
    /// how often caching was upgraded
    pub cache_level: u8,
    /// how requests find their node
    pub routing_level: RoutingLevel,
    /// how many operations one click of the player asks for
    pub ops_per_click: u32,
    pub base_service: ServiceInfo,
    pub super_service: ServiceInfo,
    pub epic_service: ServiceInfo,
    pub awesome_service: ServiceInfo,
    /// the requests that were dropped for want of capacity
    pub requests_dropped: u64,
    /// the malicious requests that were thrown out or let through in vain
    pub requests_failed: u64,
    /// the live cohorts, in the order of their numbers
    pub user_specs: Vec<CloudUserSpec>,
    pub electricity: Electricity,
    /// the nodes, each at the place that its number gives
    pub nodes: Vec<CloudNode>,
    pub can_see_demand: bool,
    pub can_see_energy_consumption: bool,
    pub can_see_request_rates: bool,
    pub can_buy_nodes: bool,
    pub can_buy_racks: bool,
    pub can_buy_datacenters: bool,
    /// the chance that a malicious request is caught before it is routed, in
    /// thousandths
    pub spam_protection: u32,
    /// the cards that were used, in the order of their identifiers
    pub cards_used: Vec<UsedCard>,
}

impl WorldState {
    /// Whether the state is one that the game can work on: there is a node,
    /// the nodes and the cohorts are in order, and every level lies in its
    /// table.
    pub open spec fn is_sound(&self) -> bool {
        &&& 1 <= self.nodes@.len() <= u32::MAX
        &&& nodes_in_order(self.nodes@)
        &&& cohorts_in_order(self.user_specs@)
        &&& self.software_level <= MAX_SOFTWARE_LEVEL
        &&& self.cache_level <= MAX_CACHE_LEVEL
        &&& self.electricity.cost_level <= MAX_ELECTRICITY_COST_LEVEL
        &&& self.spam_protection <= CHANCE_SCALE
    }

    /// The figures of the service of a tier.
    pub open spec fn service(&self, kind: ServiceKind) -> ServiceInfo {
        match kind {
            ServiceKind::Base => self.base_service,
            ServiceKind::Super => self.super_service,
            ServiceKind::Epic => self.epic_service,
            ServiceKind::Awesome => self.awesome_service,
        }
    }

    /// The state with the figures of one service replaced.
    pub open spec fn with_service(self, kind: ServiceKind, info: ServiceInfo) -> WorldState {
        match kind {
            ServiceKind::Base => WorldState { base_service: info, ..self },
            ServiceKind::Super => WorldState { super_service: info, ..self },
            ServiceKind::Epic => WorldState { epic_service: info, ..self },
            ServiceKind::Awesome => WorldState { awesome_service: info, ..self },
        }
    }

    /// Whether power is being saved: more than ten dollars are due, and
    /// have been for a bill period. This follows from the bills; it is not
    /// stored.
    pub open spec fn powersaving(&self) -> bool {
        self.electricity.total_due@ > POWERSAVE_DUE && self.time
            - self.electricity.last_bill_time >= ELECTRICITY_BILL_PERIOD
    }

    /// The highest tier that is unlocked.
    pub open spec fn highest_tier(&self) -> ServiceKind {
        if self.awesome_service.unlocked {
            ServiceKind::Awesome
        } else if self.epic_service.unlocked {
            ServiceKind::Epic
        } else if self.super_service.unlocked {
            ServiceKind::Super
        } else {
            ServiceKind::Base
        }
    }

    /// Whether the player has what `cost` asks for.
    pub open spec fn affords(&self, cost: &Cost) -> bool {
        &&& self.funds@ >= cost.money@
        &&& self.base_service.available@ >= cost.base_ops@
        &&& self.super_service.available@ >= cost.super_ops@
        &&& self.epic_service.available@ >= cost.epic_ops@
        &&& self.awesome_service.available@ >= cost.awesome_ops@
    }

    /// The place of the cohort with the number `id`, if it is live.
    pub fn user_spec_index(&self, id: u32) -> (index: Option<usize>)
        requires
            cohorts_in_order(self.user_specs@),
        ensures
            index is Some ==> index->0 < self.user_specs@.len() && self.user_specs@[index->0 as int].id
                == id,
            index is None ==> forall|i: int|
                0 <= i < self.user_specs@.len() ==> self.user_specs@[i].id != id,
    {
        let mut low: usize = 0;
        let mut high: usize = self.user_specs.len();
        while low < high
            invariant
                0 <= low <= high <= self.user_specs@.len(),
                cohorts_in_order(self.user_specs@),
                forall|i: int| 0 <= i < low ==> self.user_specs@[i].id < id,
                forall|i: int| high <= i < self.user_specs@.len() ==> self.user_specs@[i].id > id,
            decreases high - low,
        {
            let middle: usize = low + (high - low) / 2;
            let found: u32 = self.user_specs[middle].id;
            if found == id {
                return Some(middle);
            } else if found < id {
                low = middle + 1;
            } else {
                high = middle;
            }
        }
        None
    }

    /// The cohort with the number `id`, if it is live.
    pub fn user_spec(&self, id: u32) -> (spec: Option<CloudUserSpec>)
        requires
            cohorts_in_order(self.user_specs@),
        ensures
            spec == find_cohort(self.user_specs@, id),
            spec is Some ==> spec->0.id == id && self.user_specs@.contains(spec->0),
            spec is None ==> forall|i: int|
                0 <= i < self.user_specs@.len() ==> self.user_specs@[i].id != id,
    {
        match self.user_spec_index(id) {
            Some(index) => {
                proof {
                    lemma_cohort_found(self.user_specs@, index as int);
                }
                Some(self.user_specs[index])
            },
            None => {
                proof {
                    lemma_cohort_missing(self.user_specs@, id);
                }
                None
            },
        }
    }

    /// Takes the cohort with the number `id` away, if there is one.
    pub fn remove_cohort(&mut self, id: u32)
        requires
            cohorts_in_order(old(self).user_specs@),
        ensures
            final(self).user_specs@ == without_cohort(old(self).user_specs@, id),
            cohorts_in_order(final(self).user_specs@),
            *final(self) == (WorldState { user_specs: final(self).user_specs, ..*old(self) }),
    {
        match self.user_spec_index(id) {
            Some(index) => {
                proof {
                    lemma_cohort_found(self.user_specs@, index as int);
                }
                self.user_specs.remove(index);
            },
            None => {
                proof {
                    lemma_cohort_missing(self.user_specs@, id);
                }
            },
        }
    }

    /// The place of the node with the number `id`, if there is one: its
    /// number.
    pub fn node_index(&self, id: u32) -> (index: Option<usize>)
        requires
            nodes_in_order(self.nodes@),
        ensures
            index == if id < self.nodes@.len() { Some(id as usize) } else { None::<usize> },
    {
        let mut low: usize = 0;
        let mut high: usize = self.nodes.len();
        while low < high
            invariant
                0 <= low <= high <= self.nodes@.len(),
                nodes_in_order(self.nodes@),
                low <= id,
                id < self.nodes@.len() ==> id < high,
            decreases high - low,
        {
            let middle: usize = low + (high - low) / 2;
            let found: u32 = self.nodes[middle].id;
            if found == id {
                return Some(middle);
            } else if found < id {
                low = middle + 1;
            } else {
                high = middle;
            }
        }
        None
    }

    /// The node with the number `id`, if there is one.
    pub fn node(&self, id: u32) -> (node: Option<&CloudNode>)
        requires
            nodes_in_order(self.nodes@),
        ensures
            id < self.nodes@.len() ==> node == Some(&self.nodes@[id as int]),
            id >= self.nodes@.len() ==> node is None,
    {
        match self.node_index(id) {
            Some(index) => Some(&self.nodes[index]),
            None => None,
        }
    }

    /// The figures of the service of a tier.
    pub fn service_by_kind(&self, kind: ServiceKind) -> (info: ServiceInfo)
        ensures
            info == self.service(kind),
    {
        match kind {
            ServiceKind::Base => self.base_service,
            ServiceKind::Super => self.super_service,
            ServiceKind::Epic => self.epic_service,
            ServiceKind::Awesome => self.awesome_service,
        }
    }

    /// The figures of the service of a tier, to be changed in place.
    pub fn service_by_kind_mut(&mut self, kind: ServiceKind) -> (info: &mut ServiceInfo)
        ensures
            *info == old(self).service(kind),
            *final(self) == old(self).with_service(kind, *final(info)),
    {
        match kind {
            ServiceKind::Base => &mut self.base_service,
            ServiceKind::Super => &mut self.super_service,
            ServiceKind::Epic => &mut self.epic_service,
            ServiceKind::Awesome => &mut self.awesome_service,
        }
    }

    /// The node with the number `id`, if there is one, to be changed in
    /// place.
    pub fn node_mut(&mut self, id: u32) -> (node: Option<&mut CloudNode>)
        requires
            nodes_in_order(old(self).nodes@),
        ensures
            node is Some <==> id < old(self).nodes@.len(),
            node is Some ==> *node->0 == old(self).nodes@[id as int] && final(self).nodes@ == old(
                self,
            ).nodes@.update(id as int, *final(node->0)) && *final(self) == (WorldState {
                nodes: final(self).nodes,
                ..*old(self)
            }),
            node is None ==> *final(self) == *old(self),
    {
        match self.node_index(id) {
            Some(index) => Some(&mut self.nodes[index]),
            None => None,
        }
    }

    /// Replaces the figures of the service of a tier.
    pub fn set_service(&mut self, kind: ServiceKind, info: ServiceInfo)
        ensures
            *final(self) == old(self).with_service(kind, info),
    {
        match kind {
            ServiceKind::Base => {
                self.base_service = info;
            },
            ServiceKind::Super => {
                self.super_service = info;
            },
            ServiceKind::Epic => {
                self.epic_service = info;
            },
            ServiceKind::Awesome => {
                self.awesome_service = info;
            },
        }
    }

    /// Whether the player has what `cost` asks for.
    pub fn can_afford(&self, cost: &Cost) -> (b: bool)
        ensures
            b == self.affords(cost),
    {
        self.funds.0 >= cost.money.0 && self.base_service.available.0 >= cost.base_ops.0
            && self.super_service.available.0 >= cost.super_ops.0
            && self.epic_service.available.0 >= cost.epic_ops.0
            && self.awesome_service.available.0 >= cost.awesome_ops.0
    }

    /// Whether power is being saved.
    pub fn is_powersaving(&self) -> (b: bool)
        ensures
            b == self.powersaving(),
    {
        self.electricity.total_due.0 > POWERSAVE_DUE && self.time
            >= self.electricity.last_bill_time && self.time - self.electricity.last_bill_time
            >= ELECTRICITY_BILL_PERIOD
    }

    /// The highest tier that is unlocked.
    pub fn service_tier(&self) -> (kind: ServiceKind)
        ensures
            kind == self.highest_tier(),
    {
        if self.awesome_service.unlocked {
            ServiceKind::Awesome
        } else if self.epic_service.unlocked {
            ServiceKind::Epic
        } else if self.super_service.unlocked {
            ServiceKind::Super
        } else {
            ServiceKind::Base
        }
    }

    /// The most memory that a node is expected to reserve to serve every
    /// tier that is unlocked, without caching.
    pub fn expected_ram_reserved(&self) -> (reserve: Memory)
        requires
            self.software_level <= MAX_SOFTWARE_LEVEL,
        ensures
            reserve@ == memory_reserve_required(
                self.highest_tier(),
                0,
                self.software_level as int,
            ),
            reserve@ >= 0,
    {
        calculate_memory_reserve_required(self.service_tier(), 0, self.software_level)
    }

    /// The number for the next cohort: one more than the highest number in
    /// use. Where that number cannot be represented, the highest number
    /// itself is returned, and no cohort can be added.
    pub fn next_user_spec_id(&self) -> (id: u32)
        requires
            cohorts_in_order(self.user_specs@),
        ensures
            self.user_specs@.len() == 0 ==> id == 1,
            self.user_specs@.len() > 0 ==> id == if self.user_specs@.last().id < u32::MAX {
                self.user_specs@.last().id + 1
            } else {
                u32::MAX as int
            },
            id < u32::MAX ==> forall|i: int|
                0 <= i < self.user_specs@.len() ==> self.user_specs@[i].id < id,
    {
        let count = self.user_specs.len();
        if count == 0 {
            1
        } else {
            self.user_specs[count - 1].id.saturating_add(1)
        }
    }
}

/// Where the record of a card with the identifier `id` goes among the
/// records of the used cards: behind the last record whose identifier does
/// not come after `id`.
pub open spec fn used_card_index(cards: Seq<UsedCard>, id: Seq<char>) -> int
    decreases cards.len(),
{
    if cards.len() == 0 {
        0
    } else if text_before(id, cards.last().id@) {
        used_card_index(cards.drop_last(), id)
    } else {
        cards.len() as int
    }
}

/// Whether a card with the identifier `id` was used.
pub open spec fn card_used(cards: Seq<UsedCard>, id: Seq<char>) -> bool {
    exists|i: int| 0 <= i < cards.len() && (#[trigger] cards[i]).id@ == id
}

/// A node as a saved game gives it back: with its hardware, and without
/// load.
pub fn into_node_at_rest(node: &CloudNode) -> (rested: CloudNode)
    ensures
        rested.same_hardware(node),
        rested.processing == 0,
        rested.ram_usage@ == 0,
        rested.ram_reserved@ == 0,
        rested.requests@.len() == 0,
{
    CloudNode {
        id: node.id,
        cpu_level: node.cpu_level,
        ram_level: node.ram_level,
        num_cores: node.num_cores,
        ram_capacity: node.ram_capacity,
        cpu_speed: node.cpu_speed,
        processing: 0,
        ram_usage: Memory::zero(),
        ram_reserved: Memory::zero(),
        requests: VecDeque::new(),
    }
}

impl WorldState {
    /// The state after `cost` was taken: the money leaves the funds and is
    /// counted as spent, the operations leave what is available of their
    /// tier. Each figure is held at the ends of the range where the exact
    /// one cannot be represented.
    pub open spec fn charged(self, cost: Cost) -> WorldState {
        WorldState {
            funds: Money(clamp_i64(self.funds@ - cost.money@) as i64),
            spent: Money(clamp_i64(self.spent@ + cost.money@) as i64),
            base_service: ServiceInfo {
                available: Ops(clamp_i64(self.base_service.available@ - cost.base_ops@) as i64),
                ..self.base_service
            },
            super_service: ServiceInfo {
                available: Ops(clamp_i64(self.super_service.available@ - cost.super_ops@) as i64),
                ..self.super_service
            },
            epic_service: ServiceInfo {
                available: Ops(clamp_i64(self.epic_service.available@ - cost.epic_ops@) as i64),
                ..self.epic_service
            },
            awesome_service: ServiceInfo {
                available: Ops(
                    clamp_i64(self.awesome_service.available@ - cost.awesome_ops@) as i64,
                ),
                ..self.awesome_service
            },
            ..self
        }
    }

    /// Takes `cost` from the player.
    pub fn apply_cost(&mut self, cost: &Cost)
        ensures
            *final(self) == old(self).charged(*cost),
    {
        self.funds = self.funds.saturating_minus(cost.money);
        self.spent = self.spent.saturating_plus(cost.money);
        self.base_service.available = Ops(
            crate::money::saturating_sub_i64(self.base_service.available.0, cost.base_ops.0),
        );
        self.super_service.available = Ops(
            crate::money::saturating_sub_i64(self.super_service.available.0, cost.super_ops.0),
        );
        self.epic_service.available = Ops(
            crate::money::saturating_sub_i64(self.epic_service.available.0, cost.epic_ops.0),
        );
        self.awesome_service.available = Ops(
            crate::money::saturating_sub_i64(
                self.awesome_service.available.0,
                cost.awesome_ops.0,
            ),
        );
    }

    /// Whether a card with the identifier `card_id` was used.
    pub fn is_card_used(&self, card_id: &str) -> (used: bool)
        ensures
            used == card_used(self.cards_used@, card_id@),
    {
        let mut i: usize = 0;
        while i < self.cards_used.len()
            invariant
                0 <= i <= self.cards_used@.len(),
                forall|j: int| 0 <= j < i ==> (#[trigger] self.cards_used@[j]).id@ != card_id@,
            decreases self.cards_used@.len() - i,
        {
            if same_text(self.cards_used[i].id.as_str(), card_id) {
                return true;
            }
            i = i + 1;
        }
        false
    }

    /// Records that the card with the identifier `id` was used at `time`.
    /// The record goes behind the records whose identifiers do not come
    /// after `id`, so that records in the order of their identifiers stay in
    /// that order.
    pub fn record_card(&mut self, id: String, time: Time)
        ensures
            final(self).cards_used@ == old(self).cards_used@.insert(
                used_card_index(old(self).cards_used@, id@),
                UsedCard { id, time },
            ),
            0 <= used_card_index(old(self).cards_used@, id@) <= old(self).cards_used@.len(),
            *final(self) == (WorldState { cards_used: final(self).cards_used, ..*old(self) }),
    {
        let mut index: usize = self.cards_used.len();
        assert(self.cards_used@.take(index as int) =~= self.cards_used@);
        while index > 0 && comes_before(id.as_str(), self.cards_used[index - 1].id.as_str())
            invariant
                0 <= index <= self.cards_used@.len(),
                *self == *old(self),
                used_card_index(self.cards_used@, id@) == used_card_index(
                    self.cards_used@.take(index as int),
                    id@,
                ),
            decreases index,
        {
            proof {
                assert(self.cards_used@.take(index as int).drop_last() =~= self.cards_used@.take(
                    index as int - 1,
                ));
            }
            index = index - 1;
        }
        self.cards_used.insert(index, UsedCard { id, time });
    }

    /// Checks [`WorldState::is_sound`].
    pub fn check_sound(&self) -> (ok: bool)
        ensures
            ok == self.is_sound(),
    {
        if self.nodes.len() < 1 || self.nodes.len() > u32::MAX as usize {
            return false;
        }
        if self.software_level > MAX_SOFTWARE_LEVEL || self.cache_level > MAX_CACHE_LEVEL
            || self.electricity.cost_level > MAX_ELECTRICITY_COST_LEVEL || self.spam_protection
            > CHANCE_SCALE {
            return false;
        }
        let mut i: usize = 0;
        while i < self.nodes.len()
            invariant
                0 <= i <= self.nodes@.len() <= u32::MAX,
                forall|j: int| 0 <= j < i ==> (#[trigger] self.nodes@[j]).id == j && self.nodes@[j].is_sound(),
            decreases self.nodes@.len() - i,
        {
            if self.nodes[i].id != i as u32 || !self.nodes[i].check_sound() {
                return false;
            }
            i = i + 1;
        }
        let mut k: usize = 1;
        while k < self.user_specs.len()
            invariant
                1 <= k,
                forall|a: int, b: int|
                    0 <= a < b < k && b < self.user_specs@.len() ==> self.user_specs@[a].id
                        < self.user_specs@[b].id,
            decreases self.user_specs@.len() - k,
        {
            if self.user_specs[k - 1].id >= self.user_specs[k].id {
                return false;
            }
            k = k + 1;
        }
        true
    }

    /// Whether nothing runs or waits in the nodes, no node holds memory,
    /// and the window of the consumption statistic is empty: the figures
    /// that no saved game carries have the values of a new game.
    pub open spec fn at_rest(&self) -> bool {
        &&& forall|i: int|
            0 <= i < self.nodes@.len() ==> {
                &&& (#[trigger] self.nodes@[i]).processing == 0
                &&& self.nodes@[i].ram_usage@ == 0
                &&& self.nodes@[i].ram_reserved@ == 0
                &&& self.nodes@[i].requests@.len() == 0
            }
        &&& self.electricity.recent_energy_consumed == 0
        &&& self.electricity.energy_consumption_rate == 0
    }

    /// Whether every figure that a saved game carries is the same in both
    /// states: all but the load of the nodes and the window of the
    /// consumption statistic.
    pub open spec fn same_persisted(&self, other: &WorldState) -> bool {
        &&& self.nodes@.len() == other.nodes@.len()
        &&& forall|i: int|
            0 <= i < self.nodes@.len() ==> (#[trigger] self.nodes@[i]).same_hardware(
                &other.nodes@[i],
            )
        &&& self.electricity == (Electricity {
            recent_energy_consumed: self.electricity.recent_energy_consumed,
            energy_consumption_rate: self.electricity.energy_consumption_rate,
            ..other.electricity
        })
        &&& *self == (WorldState {
            nodes: self.nodes,
            electricity: self.electricity,
            ..*other
        })
    }

    /// Whether the figures that a saved game carries are those of a state
    /// that the game can work on.
    pub open spec fn persisted_sound(&self) -> bool {
        &&& 1 <= self.nodes@.len() <= u32::MAX
        &&& forall|i: int|
            0 <= i < self.nodes@.len() ==> {
                &&& (#[trigger] self.nodes@[i]).id == i
                &&& self.nodes@[i].cpu_level <= crate::node::MAX_CPU_LEVEL
                &&& self.nodes@[i].ram_level <= crate::node::MAX_RAM_LEVEL
                &&& self.nodes@[i].cpu_speed >= 1
                &&& self.nodes@[i].ram_capacity@ >= 0
            }
        &&& cohorts_in_order(self.user_specs@)
        &&& self.software_level <= MAX_SOFTWARE_LEVEL
        &&& self.cache_level <= MAX_CACHE_LEVEL
        &&& self.electricity.cost_level <= MAX_ELECTRICITY_COST_LEVEL
        &&& self.spam_protection <= CHANCE_SCALE
    }

    /// Brings the state to rest, as a saved game gives it back: whatever
    /// ran or waited in the nodes is gone and holds no memory, and the
    /// window of the consumption statistic is empty. Every figure that a
    /// saved game carries stays as it is.
    pub fn reset_transients(&mut self)
        ensures
            final(self).at_rest(),
            final(self).same_persisted(old(self)),
    {
        let mut rested: Vec<CloudNode> = Vec::new();
        let mut i: usize = 0;
        while i < self.nodes.len()
            invariant
                0 <= i <= self.nodes@.len(),
                *self == *old(self),
                rested@.len() == i,
                forall|j: int|
                    0 <= j < i ==> {
                        &&& (#[trigger] rested@[j]).same_hardware(&self.nodes@[j])
                        &&& rested@[j].processing == 0
                        &&& rested@[j].ram_usage@ == 0
                        &&& rested@[j].ram_reserved@ == 0
                        &&& rested@[j].requests@.len() == 0
                    },
            decreases self.nodes@.len() - i,
        {
            rested.push(into_node_at_rest(&self.nodes[i]));
            i = i + 1;
        }
        self.nodes = rested;
        self.electricity.recent_energy_consumed = 0;
        self.electricity.energy_consumption_rate = 0;
    }

    /// The state as a saved game gives it back: at rest, with every figure
    /// that the saved game carries. Gives `None` where those figures are not
    /// those of a state that the game can work on.
    pub fn restore(self) -> (restored: Option<WorldState>)
        ensures
            restored is Some <==> self.persisted_sound(),
            restored is Some ==> {
                &&& restored->0.is_sound()
                &&& restored->0.at_rest()
                &&& restored->0.same_persisted(&self)
            },
    {
        let mut state = self;
        state.reset_transients();
        proof {
            assert forall|i: int| 0 <= i < state.nodes@.len() implies (
            #[trigger] state.nodes@[i]).same_hardware(&self.nodes@[i]) by {}
            if self.persisted_sound() {
                assert forall|i: int| 0 <= i < state.nodes@.len() implies (
                #[trigger] state.nodes@[i]).id == i && state.nodes@[i].is_sound() by {
                    assert(state.nodes@[i].same_hardware(&self.nodes@[i]));
                }
            }
            if state.is_sound() {
                assert forall|i: int| 0 <= i < self.nodes@.len() implies {
                    &&& (#[trigger] self.nodes@[i]).id == i
                    &&& self.nodes@[i].cpu_level <= crate::node::MAX_CPU_LEVEL
                    &&& self.nodes@[i].ram_level <= crate::node::MAX_RAM_LEVEL
                    &&& self.nodes@[i].cpu_speed >= 1
                    &&& self.nodes@[i].ram_capacity@ >= 0
                } by {
                    assert(state.nodes@[i].same_hardware(&self.nodes@[i]));
                    assert(state.nodes@[i].is_sound());
                }
            }
        }
        if state.check_sound() {
            Some(state)
        } else {
            None
        }
    }
}

/// A game that is saved at rest comes back as it was: of two states that
/// agree in every figure that a saved game carries, and that are both at
/// rest, each is the other.
pub proof fn lemma_saved_game_comes_back(saved: WorldState, loaded: WorldState)
    requires
        saved.at_rest(),
        loaded.at_rest(),
        loaded.same_persisted(&saved),
    ensures
        loaded.nodes@.len() == saved.nodes@.len(),
        forall|i: int|
            0 <= i < saved.nodes@.len() ==> {
                &&& (#[trigger] loaded.nodes@[i]).same_hardware(&saved.nodes@[i])
                &&& loaded.nodes@[i].processing == saved.nodes@[i].processing
                &&& loaded.nodes@[i].ram_usage == saved.nodes@[i].ram_usage
                &&& loaded.nodes@[i].ram_reserved == saved.nodes@[i].ram_reserved
                &&& loaded.nodes@[i].requests@ == saved.nodes@[i].requests@
            },
        loaded.electricity == saved.electricity,
        loaded == (WorldState { nodes: loaded.nodes, ..saved }),
{
    assert forall|i: int| 0 <= i < saved.nodes@.len() implies {
        &&& (#[trigger] loaded.nodes@[i]).same_hardware(&saved.nodes@[i])
        &&& loaded.nodes@[i].processing == saved.nodes@[i].processing
        &&& loaded.nodes@[i].ram_usage == saved.nodes@[i].ram_usage
        &&& loaded.nodes@[i].ram_reserved == saved.nodes@[i].ram_reserved
        &&& loaded.nodes@[i].requests@ == saved.nodes@[i].requests@
    } by {
        assert(loaded.nodes@[i].requests@ =~= saved.nodes@[i].requests@);
    }
}

impl Default for WorldState {
    /// The state of a new game: ten dollars, one node at the first level,
    /// the base service private, the other services locked.
    fn default() -> (state: Self)
        ensures
            state.is_sound(),
            state.time == 0,
            state.funds@ == 1_000_000,
            state.spent@ == 0,
            state.earned@ == 0,
            state.demand == 0,
            state.demand_rate == 250,
            state.software_level == 0,
            state.cache_level == 0,
            state.routing_level == RoutingLevel::MainNode,
            state.ops_per_click == 1,
            state.base_service == (ServiceInfo {
                price: Money(50),
                entitlement: Money(0),
                available: Ops(0),
                total: Ops(0),
                unlocked: true,
                private: true,
            }),
            state.super_service == (ServiceInfo {
                price: Money(500),
                entitlement: Money(0),
                available: Ops(0),
                total: Ops(0),
                unlocked: false,
                private: true,
            }),
            state.epic_service == (ServiceInfo {
                price: Money(5_000),
                entitlement: Money(0),
                available: Ops(0),
                total: Ops(0),
                unlocked: false,
                private: true,
            }),
            state.awesome_service == (ServiceInfo {
                price: Money(100_000),
                entitlement: Money(0),
                available: Ops(0),
                total: Ops(0),
                unlocked: false,
                private: true,
            }),
            state.requests_dropped == 0,
            state.requests_failed == 0,
            state.user_specs@.len() == 0,
            state.electricity == (Electricity {
                cost_level: 0,
                consumed: 0,
                total_consumed: 0,
                total_due: Money(0),
                last_bill_time: 0,
                recent_energy_consumed: 0,
                energy_consumption_rate: 0,
            }),
            state.nodes@.len() == 1,
            state.nodes@[0].cpu_level == 0 && state.nodes@[0].ram_level == 0,
            state.nodes@[0].num_cores == 1 && state.nodes@[0].cpu_speed == 2,
            state.nodes@[0].ram_capacity@ == 256_000_000,
            state.nodes@[0].processing == 0 && state.nodes@[0].ram_usage@ == 0,
            state.nodes@[0].ram_reserved@ == 0 && state.nodes@[0].requests@.len() == 0,
            !state.can_see_demand && !state.can_see_energy_consumption
                && !state.can_see_request_rates,
            !state.can_buy_nodes && !state.can_buy_racks && !state.can_buy_datacenters,
            state.spam_protection == 0,
            state.cards_used@.len() == 0,
    {
        let mut nodes: Vec<CloudNode> = Vec::new();
        nodes.push(CloudNode::new(0));
        WorldState {
            time: 0,
            funds: Money::dollars(10),
            spent: Money::zero(),
            earned: Money::zero(),
            demand: 0,
            demand_rate: 250,
            software_level: 0,
            cache_level: 0,
            routing_level: RoutingLevel::MainNode,
            ops_per_click: 1,
            base_service: ServiceInfo::new_private(Money::millicents(50)),
            super_service: ServiceInfo::new_locked(Money::dec_cents(5)),
            epic_service: ServiceInfo::new_locked(Money::cents(5)),
            awesome_service: ServiceInfo::new_locked(Money::dollars(1)),
            requests_dropped: 0,
            requests_failed: 0,
            user_specs: Vec::new(),
            electricity: Electricity::default(),
            nodes,
            can_see_demand: false,
            can_see_energy_consumption: false,
            can_see_request_rates: false,
            can_buy_nodes: false,
            can_buy_racks: false,
            can_buy_datacenters: false,
            spam_protection: 0,
            cards_used: Vec::new(),
        }
    }
}

/// How much of the cores and of the memory of all the nodes is in use.
#[derive(Debug, Clone, Copy, PartialEq, Eq, Structural)]
pub struct LoadTotals {
    /// the requests that run
    pub processing: u64,
    /// the cores
    pub cores: u64,
    /// the memory in use, in bytes
    pub ram_usage: i128,
    /// the memory, in bytes
    pub ram_capacity: i128,
}

/// The requests that run on the nodes.
pub open spec fn total_running(nodes: Seq<CloudNode>) -> int
    decreases nodes.len(),
{
    if nodes.len() == 0 {
        0
    } else {
        total_running(nodes.drop_last()) + nodes.last().processing
    }
}

/// The cores of the nodes.
pub open spec fn total_cores(nodes: Seq<CloudNode>) -> int
    decreases nodes.len(),
{
    if nodes.len() == 0 {
        0
    } else {
        total_cores(nodes.drop_last()) + nodes.last().num_cores
    }
}

/// The memory that the nodes use.
pub open spec fn total_ram_usage(nodes: Seq<CloudNode>) -> int
    decreases nodes.len(),
{
    if nodes.len() == 0 {
        0
    } else {
        total_ram_usage(nodes.drop_last()) + nodes.last().ram_usage@
    }
}

/// The memory of the nodes.
pub open spec fn total_ram_capacity(nodes: Seq<CloudNode>) -> int
    decreases nodes.len(),
{
    if nodes.len() == 0 {
        0
    } else {
        total_ram_capacity(nodes.drop_last()) + nodes.last().ram_capacity@
    }
}

impl WorldState {
    /// The load of all the nodes together, and what they could bear.
    pub fn total_processing(&self) -> (totals: LoadTotals)
        requires
            self.nodes@.len() <= u32::MAX,
        ensures
            totals.processing == total_running(self.nodes@),
            totals.cores == total_cores(self.nodes@),
            totals.ram_usage == total_ram_usage(self.nodes@),
            totals.ram_capacity == total_ram_capacity(self.nodes@),
    {
        let mut totals = LoadTotals { processing: 0, cores: 0, ram_usage: 0, ram_capacity: 0 };
        let mut i: usize = 0;
        assert(self.nodes@.take(0) =~= Seq::<CloudNode>::empty());
        while i < self.nodes.len()
            invariant
                0 <= i <= self.nodes@.len() <= u32::MAX,
                totals.processing == total_running(self.nodes@.take(i as int)),
                totals.cores == total_cores(self.nodes@.take(i as int)),
                totals.ram_usage == total_ram_usage(self.nodes@.take(i as int)),
                totals.ram_capacity == total_ram_capacity(self.nodes@.take(i as int)),
                totals.processing <= i * 0xffff_ffff,
                totals.cores <= i * 0xffff_ffff,
                -i * 0x8000_0000_0000_0000 <= totals.ram_usage <= i * 0x8000_0000_0000_0000,
                -i * 0x8000_0000_0000_0000 <= totals.ram_capacity <= i * 0x8000_0000_0000_0000,
            decreases self.nodes@.len() - i,
        {
            assert(self.nodes@.take(i as int + 1).drop_last() =~= self.nodes@.take(i as int));
            let node = &self.nodes[i];
            totals = LoadTotals {
                processing: totals.processing + node.processing as u64,
                cores: totals.cores + node.num_cores as u64,
                ram_usage: totals.ram_usage + node.ram_usage.0 as i128,
                ram_capacity: totals.ram_capacity + node.ram_capacity.0 as i128,
            };
            i = i + 1;
        }
        assert(self.nodes@.take(self.nodes@.len() as int) =~= self.nodes@);
        totals
    }
}

} // verus!

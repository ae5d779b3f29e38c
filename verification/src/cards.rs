//! Cards: the upgrades that the player can buy, when they are on offer, and
//! what they do.

use vstd::prelude::*;

use crate::cloud_user::CloudClientSpec;
use crate::cost::Cost;
use crate::money::Money;
use crate::node::{CloudNode, MAX_CPU_LEVEL};
use crate::ops::Ops;
use crate::service::ServiceKind;
use crate::state::{card_used, RoutingLevel, UsedCard, WorldState};
use crate::text::{comes_before, lemma_text_order, same_text, text_before};
use crate::TIME_UNITS_PER_MILLISECOND;

verus! {

/// When a card comes on offer.
#[derive(Debug, Clone, PartialEq)]
pub enum CardCondition {
    /// on offer if and only if `test` is true
    Test { test: bool },
    /// the player has this much money
    Funds(Money),
    /// the player has spent less than this
    Spent(Money),
    /// the services have earned this much
    Earned(Money),
    /// the base service has performed this many operations in all
    TotalBaseOps(Ops),
    /// the player has this many base operations to spend
    AvailableBaseOps(Ops),
    TotalSuperOps(Ops),
    AvailableSuperOps(Ops),
    TotalEpicOps(Ops),
    AvailableEpicOps(Ops),
    TotalAwesomeOps(Ops),
    AvailableAwesomeOps(Ops),
    /// this many requests were dropped
    RequestsDropped(u32),
    /// this many malicious requests have failed
    RequestsFailed(u64),
    /// the ambient demand has come to this, in thousandths
    Demand(u64),
    /// the first electricity bill has come
    FirstBillArrived,
    /// another card was used, this long ago
    TimeAfterCard {
        /// the identifier of the other card
        card: String,
        /// the time units that must have passed since it was used
        duration: u32,
    },
    /// the RAM levels of all the nodes add up to this
    TotalMemoryUpgrades(u32),
    /// there are this many nodes
    TotalCloudNodes(u32),
    /// the first node has the last CPU level
    FullyUpgradedNode,
    /// the first rack is full and upgraded
    FullyUpgradedRack,
    /// the first data center is full and upgraded
    FullyUpgradedDatacenter,
}

/// What a card does when it is used.
#[derive(Debug, Clone, PartialEq)]
pub enum CardEffect {
    Nothing,
    /// Opens a service to the customers.
    PublishService(ServiceKind),
    /// Gives the player a service, which stays closed to the customers.
    UnlockService(ServiceKind),
    /// Adds money to the funds (or takes it, where it is negative).
    AddFunds(Money),
    /// Raises the money that every operation of a service earns to at least
    /// this.
    UpgradeEntitlements(ServiceKind, Money),
    /// Brings a cohort of customers.
    AddClients(CloudClientSpec),
    /// Brings a cohort of customers and raises the ambient demand by so many
    /// thousandths.
    AddClientsWithPublicity(CloudClientSpec, u64),
    /// Raises the ambient demand, and the rate at which it grows, by so
    /// many thousandths.
    AddPublicityRate(u64, u64),
    /// Raises the operations per click to at least this.
    UpgradeOpsPerClick(u32),
    /// Raises the level of the cost of electricity to at least this (a
    /// higher level is a lower price).
    SetElectricityCostLevel(u8),
    /// Takes the service software to its next level.
    UpgradeServices,
    /// Takes caching to its next level.
    MoreCaching,
    UnlockMultiNodes,
    UnlockMultiRacks,
    UnlockMultiDatacenters,
    /// Shows the estimate of the demand.
    UnlockDemandEstimate,
    /// Shows the estimate of the energy consumed.
    UnlockEnergyEstimate,
    /// Shows the rates at which requests are dropped and fail.
    UnlockRequestRateEstimate,
    /// Raises the chance that a malicious request is caught to at least
    /// this many thousandths.
    UpgradeSpamProtection(u32),
    /// Raises the routing level to at least this.
    UpgradeRoutingLevel(RoutingLevel),
}

/// A card: what it costs, when it comes on offer, and what it does.
#[derive(Debug, Clone, PartialEq)]
pub struct CardSpec {
    /// the identifier of the card, which no other card has
    pub id: String,
    pub title: String,
    pub description: String,
    /// what the card costs
    pub cost: Cost,
    /// when the card comes on offer (it also takes that the services whose
    /// operations it costs are unlocked)
    pub condition: CardCondition,
    /// what the card does
    pub effect: CardEffect,
}

/// The sum of the RAM levels of the nodes.
pub open spec fn total_ram_levels(nodes: Seq<CloudNode>) -> nat
    decreases nodes.len(),
{
    if nodes.len() == 0 {
        0
    } else {
        total_ram_levels(nodes.drop_last()) + nodes.last().ram_level as nat
    }
}

/// Whether one of the records says that the card `card` was used at least
/// `duration` before `time`.
pub open spec fn used_since(cards: Seq<UsedCard>, card: Seq<char>, duration: int, time: int) -> bool {
    exists|i: int|
        0 <= i < cards.len() && (#[trigger] cards[i]).id@ == card && cards[i].time + duration
            <= time
}

/// Whether a condition holds in a state.
pub open spec fn condition_holds(condition: CardCondition, state: WorldState) -> bool {
    match condition {
        CardCondition::Test { test } => test,
        CardCondition::Funds(money) => state.funds@ >= money@,
        CardCondition::Spent(money) => state.spent@ < money@,
        CardCondition::Earned(money) => state.earned@ >= money@,
        CardCondition::TotalBaseOps(ops) => state.base_service.total@ >= ops@,
        CardCondition::AvailableBaseOps(ops) => state.base_service.available@ >= ops@,
        CardCondition::TotalSuperOps(ops) => state.super_service.total@ >= ops@,
        CardCondition::AvailableSuperOps(ops) => state.super_service.available@ >= ops@,
        CardCondition::TotalEpicOps(ops) => state.epic_service.total@ >= ops@,
        CardCondition::AvailableEpicOps(ops) => state.epic_service.available@ >= ops@,
        CardCondition::TotalAwesomeOps(ops) => state.awesome_service.total@ >= ops@,
        CardCondition::AvailableAwesomeOps(ops) => state.awesome_service.available@ >= ops@,
        CardCondition::RequestsDropped(count) => state.requests_dropped >= count,
        CardCondition::RequestsFailed(count) => state.requests_failed >= count,
        CardCondition::Demand(demand) => state.demand >= demand,
        CardCondition::FirstBillArrived => state.electricity.last_bill_time > 0,
        CardCondition::TimeAfterCard { card, duration } => used_since(
            state.cards_used@,
            card@,
            duration as int,
            state.time as int,
        ),
        CardCondition::TotalMemoryUpgrades(count) => total_ram_levels(state.nodes@) >= count,
        CardCondition::TotalCloudNodes(count) => state.nodes@.len() >= count,
        CardCondition::FullyUpgradedNode => state.nodes@.len() >= 1 && state.nodes@[0].cpu_level
            == MAX_CPU_LEVEL,
        CardCondition::FullyUpgradedRack => state.nodes@.len() == 4 && state.nodes@[1].cpu_level
            == MAX_CPU_LEVEL,
        CardCondition::FullyUpgradedDatacenter => false,
    }
}

/// Whether the services whose operations a cost asks for are unlocked. The
/// base service needs no unlocking.
pub open spec fn services_unlocked(cost: Cost, state: WorldState) -> bool {
    &&& cost.super_ops@ == 0 || state.super_service.unlocked
    &&& cost.epic_ops@ == 0 || state.epic_service.unlocked
    &&& cost.awesome_ops@ == 0 || state.awesome_service.unlocked
}

/// Whether `text` begins with `prefix`, by their bytes.
pub open spec fn begins_with(text: Seq<char>, prefix: Seq<char>) -> bool {
    let bytes = vstd::utf8::encode_utf8(text);
    let wanted = vstd::utf8::encode_utf8(prefix);
    wanted.len() <= bytes.len() && bytes.take(wanted.len() as int) == wanted
}

/// The four letters that begin the identifier of a card that is never on
/// offer.
pub open spec fn test_prefix() -> Seq<char> {
    seq!['t', 'e', 's', 't']
}

/// Whether a card is on offer in a state: it was not used yet, its
/// condition holds, the services that it costs operations of are unlocked,
/// and it is no test card.
pub open spec fn card_on_offer(card: CardSpec, state: WorldState) -> bool {
    &&& !card_used(state.cards_used@, card.id@)
    &&& condition_holds(card.condition, state)
    &&& services_unlocked(card.cost, state)
    &&& !begins_with(card.id@, test_prefix())
}

/// Whether `text` begins with `prefix`.
pub fn starts_with(text: &str, prefix: &str) -> (b: bool)
    ensures
        b == begins_with(text@, prefix@),
{
    let bytes = text.as_bytes();
    let wanted = prefix.as_bytes();
    if wanted.len() > bytes.len() {
        return false;
    }
    let mut i: usize = 0;
    while i < wanted.len()
        invariant
            0 <= i <= wanted@.len() <= bytes@.len(),
            bytes@ == vstd::utf8::encode_utf8(text@),
            wanted@ == vstd::utf8::encode_utf8(prefix@),
            forall|j: int| 0 <= j < i ==> bytes@[j] == wanted@[j],
        decreases wanted@.len() - i,
    {
        if bytes[i] != wanted[i] {
            assert(bytes@.take(wanted@.len() as int)[i as int] == bytes@[i as int]);
            return false;
        }
        i = i + 1;
    }
    assert(bytes@.take(wanted@.len() as int) =~= wanted@);
    true
}

impl CardCondition {
    /// The condition of a card that is on offer from the start.
    pub fn appear_immediately() -> (condition: Self)
        ensures
            condition == (CardCondition::Test { test: true }),
    {
        CardCondition::Test { test: true }
    }

    /// The condition of a card that comes on offer about `millis`
    /// milliseconds after the card `card_id` was used: the tenth of `millis`
    /// in time units.
    pub fn after_card_millis(card_id: String, millis: u32) -> (condition: Self)
        ensures
            condition == (CardCondition::TimeAfterCard {
                card: card_id,
                duration: (millis / TIME_UNITS_PER_MILLISECOND) as u32,
            }),
    {
        CardCondition::TimeAfterCard { card: card_id, duration: millis / TIME_UNITS_PER_MILLISECOND }
    }

    /// Whether the condition holds in `state`. This asks neither whether
    /// the card was used nor whether the services that it costs are
    /// unlocked.
    pub fn should_appear(&self, state: &WorldState) -> (b: bool)
        ensures
            b == condition_holds(*self, *state),
    {
        match self {
            CardCondition::Test { test } => *test,
            CardCondition::Funds(money) => state.funds.0 >= money.0,
            CardCondition::Spent(money) => state.spent.0 < money.0,
            CardCondition::Earned(money) => state.earned.0 >= money.0,
            CardCondition::TotalBaseOps(ops) => state.base_service.total.0 >= ops.0,
            CardCondition::AvailableBaseOps(ops) => state.base_service.available.0 >= ops.0,
            CardCondition::TotalSuperOps(ops) => state.super_service.total.0 >= ops.0,
            CardCondition::AvailableSuperOps(ops) => state.super_service.available.0 >= ops.0,
            CardCondition::TotalEpicOps(ops) => state.epic_service.total.0 >= ops.0,
            CardCondition::AvailableEpicOps(ops) => state.epic_service.available.0 >= ops.0,
            CardCondition::TotalAwesomeOps(ops) => state.awesome_service.total.0 >= ops.0,
            CardCondition::AvailableAwesomeOps(ops) => state.awesome_service.available.0 >= ops.0,
            CardCondition::RequestsDropped(count) => state.requests_dropped >= *count as u64,
            CardCondition::RequestsFailed(count) => state.requests_failed >= *count,
            CardCondition::Demand(demand) => state.demand >= *demand,
            CardCondition::FirstBillArrived => state.electricity.last_bill_time > 0,
            CardCondition::TimeAfterCard { card, duration } => was_used_since(
                &state.cards_used,
                card.as_str(),
                *duration,
                state.time,
            ),
            CardCondition::TotalMemoryUpgrades(count) => sum_ram_levels(&state.nodes)
                >= *count as u64,
            CardCondition::TotalCloudNodes(count) => state.nodes.len() >= *count as usize,
            CardCondition::FullyUpgradedNode => state.nodes.len() >= 1 && state.nodes[0].cpu_level
                == MAX_CPU_LEVEL,
            CardCondition::FullyUpgradedRack => state.nodes.len() == 4 && state.nodes[1].cpu_level
                == MAX_CPU_LEVEL,
            CardCondition::FullyUpgradedDatacenter => false,
        }
    }
}

/// Computes [`used_since`].
pub fn was_used_since(cards: &Vec<UsedCard>, card: &str, duration: u32, time: u64) -> (b: bool)
    ensures
        b == used_since(cards@, card@, duration as int, time as int),
{
    let mut i: usize = 0;
    while i < cards.len()
        invariant
            0 <= i <= cards@.len(),
            forall|j: int|
                0 <= j < i ==> !((#[trigger] cards@[j]).id@ == card@ && cards@[j].time + duration
                    <= time),
        decreases cards@.len() - i,
    {
        if same_text(cards[i].id.as_str(), card) && time >= duration as u64 && cards[i].time
            <= time - duration as u64 {
            return true;
        }
        i = i + 1;
    }
    false
}

/// Computes [`total_ram_levels`].
pub fn sum_ram_levels(nodes: &Vec<CloudNode>) -> (total: u64)
    ensures
        total == if total_ram_levels(nodes@) > u64::MAX {
            u64::MAX as nat
        } else {
            total_ram_levels(nodes@)
        },
{
    let mut total: u64 = 0;
    let mut i: usize = 0;
    assert(nodes@.take(0) =~= Seq::<CloudNode>::empty());
    while i < nodes.len()
        invariant
            0 <= i <= nodes@.len(),
            total == if total_ram_levels(nodes@.take(i as int)) > u64::MAX {
                u64::MAX as nat
            } else {
                total_ram_levels(nodes@.take(i as int))
            },
        decreases nodes@.len() - i,
    {
        assert(nodes@.take(i as int + 1).drop_last() =~= nodes@.take(i as int));
        total = total.saturating_add(nodes[i].ram_level as u64);
        i = i + 1;
    }
    assert(nodes@.take(nodes@.len() as int) =~= nodes@);
    total
}

impl CardSpec {
    /// Whether the services whose operations the card costs are unlocked.
    pub fn has_services_unlocked(&self, state: &WorldState) -> (b: bool)
        ensures
            b == services_unlocked(self.cost, *state),
    {
        (self.cost.super_ops.0 == 0 || state.super_service.unlocked) && (self.cost.epic_ops.0 == 0
            || state.epic_service.unlocked) && (self.cost.awesome_ops.0 == 0
            || state.awesome_service.unlocked)
    }

    /// Whether the card is on offer in `state`.
    pub fn should_appear(&self, state: &WorldState) -> (b: bool)
        ensures
            b == card_on_offer(*self, *state),
    {
        proof {
            reveal_strlit("test");
            assert("test"@ =~= test_prefix());
        }
        !state.is_card_used(self.id.as_str()) && self.condition.should_appear(state)
            && self.has_services_unlocked(state) && !starts_with(self.id.as_str(), "test")
    }
}

/// Whether the cards of a catalog stand in the order of their identifiers,
/// no identifier twice.
pub open spec fn catalog_in_order(catalog: Seq<CardSpec>) -> bool {
    forall|i: int, j: int|
        0 <= i < j < catalog.len() ==> text_before(
            (#[trigger] catalog[i]).id@,
            (#[trigger] catalog[j]).id@,
        )
}

/// Whether a catalog holds a card with the identifier `id`.
pub open spec fn in_catalog(catalog: Seq<CardSpec>, id: Seq<char>) -> bool {
    exists|i: int| 0 <= i < catalog.len() && (#[trigger] catalog[i]).id@ == id
}

/// Checks [`catalog_in_order`].
pub fn check_catalog(catalog: &Vec<CardSpec>) -> (ok: bool)
    ensures
        ok == catalog_in_order(catalog@),
{
    let mut k: usize = 1;
    while k < catalog.len()
        invariant
            1 <= k,
            forall|i: int, j: int|
                0 <= i < j < k && j < catalog@.len() ==> text_before(
                    (#[trigger] catalog@[i]).id@,
                    (#[trigger] catalog@[j]).id@,
                ),
        decreases catalog@.len() - k,
    {
        if !comes_before(catalog[k - 1].id.as_str(), catalog[k].id.as_str()) {
            return false;
        }
        proof {
            assert forall|i: int, j: int| 0 <= i < j < k + 1 && j < catalog@.len() implies text_before(
                (#[trigger] catalog@[i]).id@,
                (#[trigger] catalog@[j]).id@,
            ) by {
                if j == k && i < k - 1 {
                    crate::text::lemma_bytes_before_transitive(
                        vstd::utf8::encode_utf8(catalog@[i].id@),
                        vstd::utf8::encode_utf8(catalog@[k - 1].id@),
                        vstd::utf8::encode_utf8(catalog@[k as int].id@),
                    );
                }
            }
        }
        k = k + 1;
    }
    true
}

/// Looks a card up by its identifier, by halving a catalog that is in the
/// order of its identifiers. What is found is the card that was asked for.
/// In a catalog that is in order, nothing is found only where the catalog
/// has no such card.
pub fn card_index(catalog: &Vec<CardSpec>, id: &str) -> (index: Option<usize>)
    ensures
        index is Some ==> index->0 < catalog@.len() && catalog@[index->0 as int].id@ == id@,
        catalog_in_order(catalog@) ==> (index is Some <==> in_catalog(catalog@, id@)),
{
    let mut low: usize = 0;
    let mut high: usize = catalog.len();
    while low < high
        invariant
            0 <= low <= high <= catalog@.len(),
            catalog_in_order(catalog@) ==> forall|i: int|
                0 <= i < low || high <= i < catalog@.len() ==> (#[trigger] catalog@[i]).id@ != id@,
        decreases high - low,
    {
        let middle: usize = low + (high - low) / 2;
        let found: &str = catalog[middle].id.as_str();
        if same_text(found, id) {
            return Some(middle);
        } else if comes_before(found, id) {
            proof {
                if catalog_in_order(catalog@) {
                    assert forall|i: int| 0 <= i < middle + 1 implies (#[trigger] catalog@[i]).id@
                        != id@ by {
                        if i < middle {
                            assert(text_before(catalog@[i].id@, catalog@[middle as int].id@));
                            lemma_text_order(catalog@[middle as int].id@, id@);
                        }
                    }
                }
            }
            low = middle + 1;
        } else {
            proof {
                if catalog_in_order(catalog@) {
                    assert forall|i: int| middle <= i < catalog@.len() implies (
                    #[trigger] catalog@[i]).id@ != id@ by {
                        if i > middle {
                            assert(text_before(catalog@[middle as int].id@, catalog@[i].id@));
                        }
                    }
                }
            }
            high = middle;
        }
    }
    None
}

/// The card of a catalog with the identifier `id`.
pub fn card_by_id<'a>(catalog: &'a Vec<CardSpec>, id: &str) -> (card: Option<&'a CardSpec>)
    ensures
        card is Some ==> card->0.id@ == id@ && catalog@.contains(*card->0),
        catalog_in_order(catalog@) ==> (card is Some <==> in_catalog(catalog@, id@)),
{
    match card_index(catalog, id) {
        Some(index) => Some(&catalog[index]),
        None => None,
    }
}

} // verus!

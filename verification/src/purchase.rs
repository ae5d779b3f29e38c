//! What the player buys: upgrades of the nodes, new nodes, and cards.

use vstd::prelude::*;

use crate::cards::{card_index, catalog_in_order, in_catalog, CardSpec};
use crate::effects::{effect_applied, larger};
use crate::memory::Memory;
use crate::money::{clamp_i64, Money};
use crate::node::{
    cpu_level, cpu_levels, ram_level, ram_levels, CloudNode, MAX_CPU_LEVEL, MAX_RAM_LEVEL,
    RACK_CAPACITY,
};
use crate::state::{nodes_kept_but, used_card_index, UsedCard, WorldState};

verus! {

/// The price of a bare node, in millicents.
pub const BARE_NODE_COST: i64 = 200_000_000;

/// The price of a fully upgraded node, in millicents.
pub const UPGRADED_NODE_COST: i64 = 7_000_000_000;

/// The price of a rack of fully upgraded nodes, in millicents.
pub const UPGRADED_RACK_COST: i64 = 28_000_000_000;

/// How an action of the player has ended. An action that is not applied
/// leaves everything as it was.
#[derive(Debug, Clone, Copy, PartialEq, Eq, Structural)]
pub enum ActionOutcome {
    /// The action was applied in full. `new_cohorts` cohorts came with it:
    /// they are the last of the cohorts, and their first requests are yet
    /// to be scheduled.
    Applied { new_cohorts: usize },
    /// The player lacks the money.
    NotEnoughFunds,
    /// The player lacks the money or the operations that a card costs.
    CardTooExpensive,
    /// There is no node with that number.
    NoSuchNode,
    /// The node is at its last level.
    NoFurtherLevel,
    /// There is no room for another node.
    NoRoom,
    /// The catalog has no card with that identifier.
    NoSuchCard,
}

/// The kinds of node that can be bought.
#[derive(Debug, Clone, Copy, PartialEq, Eq, Structural)]
pub enum NodeKind {
    Bare,
    Upgraded,
    Rack,
}

/// The price of a node of a kind, in millicents.
pub open spec fn node_price(kind: NodeKind) -> int {
    match kind {
        NodeKind::Bare => BARE_NODE_COST as int,
        NodeKind::Upgraded => UPGRADED_NODE_COST as int,
        NodeKind::Rack => UPGRADED_RACK_COST as int,
    }
}

/// Whether `node` is a node of a kind as it is bought: with the number
/// `id`, the hardware of its kind, and no load.
pub open spec fn is_bought_node(node: CloudNode, kind: NodeKind, id: u32) -> bool {
    let level: int = if kind is Bare {
        0
    } else {
        10
    };
    let times: int = if kind is Rack {
        RACK_CAPACITY as int
    } else {
        1
    };
    &&& node.id == id
    &&& node.cpu_level == level
    &&& node.ram_level == level
    &&& node.num_cores == cpu_levels()[level].cores * times
    &&& node.cpu_speed == cpu_levels()[level].speed
    &&& node.ram_capacity@ == ram_levels()[level].capacity@ * times
    &&& node.processing == 0
    &&& node.ram_usage@ == 0
    &&& node.ram_reserved@ == 0
    &&& node.requests@.len() == 0
}

/// How the purchase of a node ends.
pub open spec fn node_purchase_outcome(state: WorldState, kind: NodeKind) -> ActionOutcome {
    if state.funds@ < node_price(kind) {
        ActionOutcome::NotEnoughFunds
    } else if state.nodes@.len() >= u32::MAX {
        ActionOutcome::NoRoom
    } else {
        ActionOutcome::Applied { new_cohorts: 0 }
    }
}

/// How the upgrade of the CPU of the node `node` ends.
pub open spec fn cpu_upgrade_outcome(state: WorldState, node: u32) -> ActionOutcome {
    if node >= state.nodes@.len() {
        ActionOutcome::NoSuchNode
    } else if state.nodes@[node as int].cpu_level >= MAX_CPU_LEVEL {
        ActionOutcome::NoFurtherLevel
    } else if state.funds@ < cpu_levels()[state.nodes@[node as int].cpu_level + 1].cost@ {
        ActionOutcome::NotEnoughFunds
    } else {
        ActionOutcome::Applied { new_cohorts: 0 }
    }
}

/// How the upgrade of the RAM of the node `node` ends.
pub open spec fn ram_upgrade_outcome(state: WorldState, node: u32) -> ActionOutcome {
    if node >= state.nodes@.len() {
        ActionOutcome::NoSuchNode
    } else if state.nodes@[node as int].ram_level >= MAX_RAM_LEVEL {
        ActionOutcome::NoFurtherLevel
    } else if state.funds@ < ram_levels()[state.nodes@[node as int].ram_level + 1].cost@ {
        ActionOutcome::NotEnoughFunds
    } else {
        ActionOutcome::Applied { new_cohorts: 0 }
    }
}

/// The state after `amount` was paid: the money leaves the funds and is
/// counted as spent.
pub open spec fn paid(state: WorldState, amount: int) -> WorldState {
    WorldState {
        funds: Money(clamp_i64(state.funds@ - amount) as i64),
        spent: Money(clamp_i64(state.spent@ + amount) as i64),
        ..state
    }
}

/// Whether `after` and `outcome` are what the upgrade of the CPU of the node
/// `node` makes of `before`: the node rises by one level and gets the cores
/// and the speed of that level (it keeps its own cores where it had more),
/// and the price of the level is paid.
pub open spec fn cpu_upgraded(
    before: WorldState,
    node: u32,
    outcome: ActionOutcome,
    after: WorldState,
) -> bool {
    &&& outcome == cpu_upgrade_outcome(before, node)
    &&& !(outcome is Applied) ==> after == before
    &&& outcome is Applied ==> {
        let old_node = before.nodes@[node as int];
        let level = cpu_levels()[old_node.cpu_level + 1];
        &&& nodes_kept_but(before.nodes@, after.nodes@, node as int)
        &&& after.nodes@[node as int] == (CloudNode {
            cpu_level: (old_node.cpu_level + 1) as u8,
            num_cores: larger(old_node.num_cores as int, level.cores as int) as u32,
            cpu_speed: level.speed,
            ..old_node
        })
        &&& after == (WorldState { nodes: after.nodes, ..paid(before, level.cost@) })
    }
}

/// Whether `after` and `outcome` are what the upgrade of the RAM of the node
/// `node` makes of `before`: the node rises by one level and gets the
/// capacity of that level (it keeps its own where it had more), and the
/// price of the level is paid.
pub open spec fn ram_upgraded(
    before: WorldState,
    node: u32,
    outcome: ActionOutcome,
    after: WorldState,
) -> bool {
    &&& outcome == ram_upgrade_outcome(before, node)
    &&& !(outcome is Applied) ==> after == before
    &&& outcome is Applied ==> {
        let old_node = before.nodes@[node as int];
        let level = ram_levels()[old_node.ram_level + 1];
        &&& nodes_kept_but(before.nodes@, after.nodes@, node as int)
        &&& after.nodes@[node as int] == (CloudNode {
            ram_level: (old_node.ram_level + 1) as u8,
            ram_capacity: Memory(larger(old_node.ram_capacity@, level.capacity@) as i64),
            ..old_node
        })
        &&& after == (WorldState { nodes: after.nodes, ..paid(before, level.cost@) })
    }
}

/// Whether `after` and `outcome` are what the purchase of a node of a kind
/// makes of `before`: the price leaves the funds, and the node comes behind
/// the others, with the next number.
pub open spec fn node_bought(
    before: WorldState,
    kind: NodeKind,
    outcome: ActionOutcome,
    after: WorldState,
) -> bool {
    &&& outcome == node_purchase_outcome(before, kind)
    &&& !(outcome is Applied) ==> after == before
    &&& outcome is Applied ==> {
        &&& after.nodes@.len() == before.nodes@.len() + 1
        &&& after.nodes@.drop_last() == before.nodes@
        &&& is_bought_node(after.nodes@.last(), kind, before.nodes@.len() as u32)
        &&& after == (WorldState {
            nodes: after.nodes,
            funds: Money((before.funds@ - node_price(kind)) as i64),
            ..before
        })
    }
}

impl WorldState {
    /// Takes `amount` from the funds and counts it as spent.
    pub fn pay(&mut self, amount: Money)
        ensures
            *final(self) == paid(*old(self), amount@),
    {
        self.funds = self.funds.saturating_minus(amount);
        self.spent = self.spent.saturating_plus(amount);
    }

    /// Pays what is due for electricity, whether or not the funds cover it.
    pub fn pay_electricity_bill(&mut self)
        ensures
            *final(self) == (WorldState {
                electricity: crate::electricity::Electricity {
                    total_due: Money(0),
                    ..old(self).electricity
                },
                ..paid(*old(self), old(self).electricity.total_due@)
            }),
    {
        let due = self.electricity.total_due;
        self.pay(due);
        self.electricity.pay_bills();
    }

    /// Raises the CPU of the node `node` by one level, for the price of
    /// that level. The node gets the cores and the speed of the level (and
    /// keeps its own where it had more).
    pub fn upgrade_cpu(&mut self, node: u32) -> (outcome: ActionOutcome)
        requires
            old(self).is_sound(),
        ensures
            final(self).is_sound(),
            cpu_upgraded(*old(self), node, outcome, *final(self)),
    {
        let index = match self.node_index(node) {
            Some(index) => index,
            None => {
                return ActionOutcome::NoSuchNode;
            },
        };
        let current = self.nodes[index].cpu_level;
        if current >= MAX_CPU_LEVEL {
            return ActionOutcome::NoFurtherLevel;
        }
        let level = cpu_level(current + 1);
        if self.funds.0 < level.cost.0 {
            return ActionOutcome::NotEnoughFunds;
        }
        {
            let upgraded = &mut self.nodes[index];
            upgraded.cpu_level = current + 1;
            if level.cores > upgraded.num_cores {
                upgraded.num_cores = level.cores;
            }
            upgraded.cpu_speed = level.speed;
        }
        self.pay(level.cost);
        ActionOutcome::Applied { new_cohorts: 0 }
    }

    /// Raises the RAM of the node `node` by one level, for the price of
    /// that level. The node gets the capacity of the level (and keeps its
    /// own where it had more).
    pub fn upgrade_ram(&mut self, node: u32) -> (outcome: ActionOutcome)
        requires
            old(self).is_sound(),
        ensures
            final(self).is_sound(),
            ram_upgraded(*old(self), node, outcome, *final(self)),
    {
        let index = match self.node_index(node) {
            Some(index) => index,
            None => {
                return ActionOutcome::NoSuchNode;
            },
        };
        let current = self.nodes[index].ram_level;
        if current >= MAX_RAM_LEVEL {
            return ActionOutcome::NoFurtherLevel;
        }
        let level = ram_level(current + 1);
        if self.funds.0 < level.cost.0 {
            return ActionOutcome::NotEnoughFunds;
        }
        {
            let upgraded = &mut self.nodes[index];
            upgraded.ram_level = current + 1;
            if level.capacity.0 > upgraded.ram_capacity.0 {
                upgraded.ram_capacity = level.capacity;
            }
        }
        self.pay(level.cost);
        ActionOutcome::Applied { new_cohorts: 0 }
    }

    /// Buys a node of a kind: the price leaves the funds, and the node
    /// comes behind the others, with the next number.
    pub fn buy_node(&mut self, kind: NodeKind) -> (outcome: ActionOutcome)
        requires
            old(self).is_sound(),
        ensures
            final(self).is_sound(),
            node_bought(*old(self), kind, outcome, *final(self)),
    {
        let price: i64 = match kind {
            NodeKind::Bare => BARE_NODE_COST,
            NodeKind::Upgraded => UPGRADED_NODE_COST,
            NodeKind::Rack => UPGRADED_RACK_COST,
        };
        if self.funds.0 < price {
            return ActionOutcome::NotEnoughFunds;
        }
        if self.nodes.len() >= u32::MAX as usize {
            return ActionOutcome::NoRoom;
        }
        let id = self.nodes.len() as u32;
        let node = match kind {
            NodeKind::Bare => CloudNode::new(id),
            NodeKind::Upgraded => CloudNode::new_fully_upgraded(id),
            NodeKind::Rack => CloudNode::new_fully_upgraded_rack(id),
        };
        self.funds = Money(self.funds.0 - price);
        self.nodes.push(node);
        assert(self.nodes@.drop_last() =~= old(self).nodes@);
        ActionOutcome::Applied { new_cohorts: 0 }
    }
}

/// Whether `after` is `before` after the card `card` was used: its cost was
/// taken, its effect was applied to what was left, and the use was
/// recorded with the time.
pub open spec fn card_used_up(before: WorldState, card: CardSpec, after: WorldState) -> bool {
    &&& effect_applied(
        before.charged(card.cost),
        card.effect,
        WorldState { cards_used: before.cards_used, ..after },
    )
    &&& after.cards_used@ == before.cards_used@.insert(
        used_card_index(before.cards_used@, card.id@),
        UsedCard { id: card.id, time: before.time },
    )
}

/// How many cohorts came: by how many the cohorts of `after` outnumber
/// those of `before`.
pub open spec fn cohorts_gained(before: WorldState, after: WorldState) -> int {
    if after.user_specs@.len() > before.user_specs@.len() {
        after.user_specs@.len() - before.user_specs@.len()
    } else {
        0
    }
}

/// Whether `after` and `outcome` are what the use of the card with the
/// identifier `id` makes of `before`. A card that is not found, or that the
/// player cannot afford, changes nothing; in a catalog that is in order a
/// card is not found only where there is none.
pub open spec fn card_played(
    before: WorldState,
    catalog: Seq<CardSpec>,
    id: Seq<char>,
    outcome: ActionOutcome,
    after: WorldState,
) -> bool {
    &&& !(outcome is Applied) ==> after == before
    &&& outcome is NoSuchCard || outcome is CardTooExpensive || outcome is Applied
    &&& catalog_in_order(catalog) ==> (outcome is NoSuchCard <==> !in_catalog(catalog, id))
    &&& !(outcome is NoSuchCard) ==> exists|index: int|
        0 <= index < catalog.len() && (#[trigger] catalog[index]).id@ == id && (
        outcome is CardTooExpensive <==> !before.affords(&catalog[index].cost)) && (outcome is Applied
            ==> card_used_up(before, catalog[index], after))
    &&& outcome is Applied ==> outcome->new_cohorts == cohorts_gained(before, after)
}

impl WorldState {
    /// Uses the card with the identifier `id` of `catalog`: takes its cost,
    /// applies its effect, and records its use.
    pub fn use_card(&mut self, catalog: &Vec<CardSpec>, id: &str) -> (outcome: ActionOutcome)
        requires
            old(self).is_sound(),
        ensures
            final(self).is_sound(),
            card_played(*old(self), catalog@, id@, outcome, *final(self)),
    {
        let index = match card_index(catalog, id) {
            Some(index) => index,
            None => {
                return ActionOutcome::NoSuchCard;
            },
        };
        let card = &catalog[index];
        if !self.can_afford(&card.cost) {
            return ActionOutcome::CardTooExpensive;
        }
        let cohorts_before = self.user_specs.len();
        self.apply_cost(&card.cost);
        self.apply_card_effect(&card.effect);
        let ghost worked = *self;
        let time = self.time;
        self.record_card(card.id.clone(), time);
        proof {
            assert(worked == (WorldState { cards_used: old(self).cards_used, ..*self }));
        }
        let cohorts_after = self.user_specs.len();
        ActionOutcome::Applied {
            new_cohorts: if cohorts_after > cohorts_before {
                cohorts_after - cohorts_before
            } else {
                0
            },
        }
    }
}

} // verus!

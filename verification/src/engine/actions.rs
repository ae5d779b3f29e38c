//! The actions of the player, as the engine applies them.

use vstd::prelude::*;

use crate::action::PlayerAction;
use crate::capacity::cores_respected;
use crate::cards::CardSpec;
use crate::effects::{lemma_effect_keeps_levels, levels_kept, node_trimmed, smaller};
use crate::electricity::Electricity;
use crate::engine::{EngineView, GameEngine};
use crate::money::Money;
use crate::purchase::{
    card_played, card_used_up, cpu_upgraded, node_bought, paid, ram_upgraded, ActionOutcome,
    NodeKind,
};
use crate::queue::{with_event, RequestEvent, RequestEventStage};
use crate::service::{ServiceInfo, ServiceKind};
use crate::state::{memory_reserve_required, MAX_SOFTWARE_LEVEL, WorldState};

verus! {

/// The event of operations that the player has asked for by hand: they
/// arrive at the time of the click.
pub open spec fn click_event(state: WorldState, kind: ServiceKind, amount: u32) -> RequestEvent {
    RequestEvent {
        timestamp: state.time,
        user_spec_id: None,
        amount,
        service: kind,
        bad: false,
        kind: RequestEventStage::RequestArrived,
    }
}

/// Whether `after`, `engine_after` and `outcome` are what an action of the
/// player makes of `before` and `engine`. An action either is applied in
/// full or changes nothing.
pub open spec fn action_applied(
    before: WorldState,
    engine: EngineView,
    action: PlayerAction,
    catalog: Seq<CardSpec>,
    outcome: ActionOutcome,
    after: WorldState,
    engine_after: EngineView,
) -> bool {
    &&& !(outcome is Applied) ==> after == before
    &&& engine_after == match action {
        PlayerAction::OpClick { kind, amount } => EngineView {
            queue: with_event(engine.queue, click_event(before, kind, amount)),
            ..engine
        },
        _ => engine,
    }
    &&& match action {
        PlayerAction::OpClick { kind, amount } => outcome == (ActionOutcome::Applied {
            new_cohorts: 0,
        }) && after == before,
        PlayerAction::Payment { amount } => outcome == (ActionOutcome::Applied { new_cohorts: 0 })
            && after == paid(before, amount@),
        PlayerAction::PayElectricityBill => outcome == (ActionOutcome::Applied { new_cohorts: 0 })
            && after == (WorldState {
            electricity: Electricity { total_due: Money(0), ..before.electricity },
            ..paid(before, before.electricity.total_due@)
        }),
        PlayerAction::ChangePrice { kind, new_price } => outcome == (ActionOutcome::Applied {
            new_cohorts: 0,
        }) && after == before.with_service(
            kind,
            ServiceInfo { price: new_price, ..before.service(kind) },
        ),
        PlayerAction::UpgradeCpu { node } => cpu_upgraded(before, node, outcome, after),
        PlayerAction::UpgradeRam { node } => ram_upgraded(before, node, outcome, after),
        PlayerAction::AddNode => node_bought(before, NodeKind::Bare, outcome, after),
        PlayerAction::AddUpgradedNode => node_bought(before, NodeKind::Upgraded, outcome, after),
        PlayerAction::AddRack => node_bought(before, NodeKind::Rack, outcome, after),
        PlayerAction::UseCard { id } => card_played(before, catalog, id@, outcome, after),
    }
}

impl GameEngine {
    /// Applies an action of the player. The cards are looked up in
    /// `catalog`.
    pub fn apply_action(
        &mut self,
        state: &mut WorldState,
        action: PlayerAction,
        catalog: &Vec<CardSpec>,
    ) -> (outcome: ActionOutcome)
        requires
            old(state).is_sound(),
        ensures
            final(self).chance() == old(self).chance(),
            final(state).is_sound(),
            action_applied(
                *old(state),
                old(self)@,
                action,
                catalog@,
                outcome,
                *final(state),
                final(self)@,
            ),
    {
        match action {
            PlayerAction::OpClick { kind, amount } => {
                self.queue.push(RequestEvent::new_arrived(state.time, None, amount, kind, false));
                ActionOutcome::Applied { new_cohorts: 0 }
            },
            PlayerAction::Payment { amount } => {
                state.pay(amount);
                ActionOutcome::Applied { new_cohorts: 0 }
            },
            PlayerAction::PayElectricityBill => {
                state.pay_electricity_bill();
                ActionOutcome::Applied { new_cohorts: 0 }
            },
            PlayerAction::ChangePrice { kind, new_price } => {
                let info = state.service_by_kind(kind);
                state.set_service(kind, ServiceInfo { price: new_price, ..info });
                ActionOutcome::Applied { new_cohorts: 0 }
            },
            PlayerAction::UpgradeCpu { node } => state.upgrade_cpu(node),
            PlayerAction::UpgradeRam { node } => state.upgrade_ram(node),
            PlayerAction::AddNode => state.buy_node(NodeKind::Bare),
            PlayerAction::AddUpgradedNode => state.buy_node(NodeKind::Upgraded),
            PlayerAction::AddRack => state.buy_node(NodeKind::Rack),
            PlayerAction::UseCard { id } => state.use_card(catalog, id.as_str()),
        }
    }
}

/// No action lowers a level: an upgrade raises the level of its node, a
/// card does what its effect does, and no other action touches a level.
pub proof fn lemma_action_keeps_levels(
    before: WorldState,
    engine: EngineView,
    action: PlayerAction,
    catalog: Seq<CardSpec>,
    outcome: ActionOutcome,
    after: WorldState,
    engine_after: EngineView,
)
    requires
        before.is_sound(),
        action_applied(before, engine, action, catalog, outcome, after, engine_after),
    ensures
        levels_kept(before, after),
{
    match action {
        PlayerAction::UpgradeCpu { node } => {
            if outcome is Applied {
                assert forall|i: int| 0 <= i < before.nodes@.len() implies (
                #[trigger] before.nodes@[i]).cpu_level <= after.nodes@[i].cpu_level
                    && before.nodes@[i].ram_level <= after.nodes@[i].ram_level by {
                    if i != node {
                        assert(after.nodes@[i] == before.nodes@[i]);
                    }
                }
            }
        },
        PlayerAction::UpgradeRam { node } => {
            if outcome is Applied {
                assert forall|i: int| 0 <= i < before.nodes@.len() implies (
                #[trigger] before.nodes@[i]).cpu_level <= after.nodes@[i].cpu_level
                    && before.nodes@[i].ram_level <= after.nodes@[i].ram_level by {
                    if i != node {
                        assert(after.nodes@[i] == before.nodes@[i]);
                    }
                }
            }
        },
        PlayerAction::AddNode | PlayerAction::AddUpgradedNode | PlayerAction::AddRack => {
            if outcome is Applied {
                assert forall|i: int| 0 <= i < before.nodes@.len() implies (
                #[trigger] before.nodes@[i]).cpu_level <= after.nodes@[i].cpu_level
                    && before.nodes@[i].ram_level <= after.nodes@[i].ram_level by {
                    assert(after.nodes@.drop_last()[i] == after.nodes@[i]);
                }
            }
        },
        PlayerAction::UseCard { id } => {
            if outcome is Applied {
                let index = choose|index: int|
                    0 <= index < catalog.len() && (#[trigger] catalog[index]).id@ == id@ && (
                    outcome is CardTooExpensive <==> !before.affords(&catalog[index].cost)) && (
                    outcome is Applied ==> card_used_up(before, catalog[index], after));
                let card = catalog[index];
                assert(card_used_up(before, card, after));
                let worked = WorldState { cards_used: before.cards_used, ..after };
                lemma_effect_keeps_levels(before.charged(card.cost), card.effect, worked);
            }
        },
        _ => {},
    }
}

/// An action keeps the requests in flight within the cores that the nodes
/// may use.
pub proof fn lemma_action_respects_cores(
    before: WorldState,
    engine: EngineView,
    action: PlayerAction,
    catalog: Seq<CardSpec>,
    outcome: ActionOutcome,
    after: WorldState,
    engine_after: EngineView,
)
    requires
        before.is_sound(),
        cores_respected(before),
        action_applied(before, engine, action, catalog, outcome, after, engine_after),
    ensures
        cores_respected(after),
{
    assert forall|i: int| 0 <= i < before.nodes@.len() implies (#[trigger] before.nodes@[i]).processing
        <= before.nodes@[i].effective_cores(before.powersaving()) && before.nodes@[i].processing
        <= before.nodes@[i].num_cores by {}
    match action {
        PlayerAction::UpgradeCpu { node } => {
            if outcome is Applied {
                assert forall|i: int| 0 <= i < after.nodes@.len() implies (
                #[trigger] after.nodes@[i]).processing <= after.nodes@[i].effective_cores(
                    after.powersaving(),
                ) by {
                    assert(before.nodes@[i].processing <= before.nodes@[i].effective_cores(
                        before.powersaving(),
                    ));
                    if i != node {
                        assert(after.nodes@[i] == before.nodes@[i]);
                    }
                }
            }
        },
        PlayerAction::UpgradeRam { node } => {
            if outcome is Applied {
                assert forall|i: int| 0 <= i < after.nodes@.len() implies (
                #[trigger] after.nodes@[i]).processing <= after.nodes@[i].effective_cores(
                    after.powersaving(),
                ) by {
                    assert(before.nodes@[i].processing <= before.nodes@[i].effective_cores(
                        before.powersaving(),
                    ));
                    if i != node {
                        assert(after.nodes@[i] == before.nodes@[i]);
                    }
                }
            }
        },
        PlayerAction::AddNode | PlayerAction::AddUpgradedNode | PlayerAction::AddRack => {
            if outcome is Applied {
                assert forall|i: int| 0 <= i < after.nodes@.len() implies (
                #[trigger] after.nodes@[i]).processing <= after.nodes@[i].effective_cores(
                    after.powersaving(),
                ) by {
                    if i < before.nodes@.len() {
                        assert(after.nodes@.drop_last()[i] == after.nodes@[i]);
                        assert(before.nodes@[i].processing <= before.nodes@[i].effective_cores(
                            before.powersaving(),
                        ));
                    }
                }
            }
        },
        PlayerAction::UseCard { id } => {
            if outcome is Applied {
                let index = choose|index: int|
                    0 <= index < catalog.len() && (#[trigger] catalog[index]).id@ == id@ && (
                    outcome is CardTooExpensive <==> !before.affords(&catalog[index].cost)) && (
                    outcome is Applied ==> card_used_up(before, catalog[index], after));
                let card = catalog[index];
                assert(card_used_up(before, card, after));
                assert forall|i: int| 0 <= i < after.nodes@.len() implies (
                #[trigger] after.nodes@[i]).processing <= after.nodes@[i].effective_cores(
                    after.powersaving(),
                ) by {
                    assert(before.nodes@[i].processing <= before.nodes@[i].effective_cores(
                        before.powersaving(),
                    ));
                    if card.effect is UpgradeServices {
                        assert(node_trimmed(
                            before.nodes@[i],
                            after.nodes@[i],
                            memory_reserve_required(
                                before.charged(card.cost).highest_tier(),
                                0,
                                smaller(before.software_level + 1, MAX_SOFTWARE_LEVEL as int),
                            ),
                        ));
                    }
                }
            }
        },
        PlayerAction::PayElectricityBill => {
            assert(!after.powersaving());
        },
        _ => {},
    }
}

} // verus!

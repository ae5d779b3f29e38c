//! What is conserved: an action takes its price from the funds, or nothing,
//! and the operations that are left to spend never go below zero.

use vstd::prelude::*;

use crate::action::PlayerAction;
use crate::cards::{catalog_in_order, in_catalog, CardEffect, CardSpec};
use crate::cost::Cost;
use crate::effects::effect_applied;
use crate::engine::{Arrival, EngineView};
use crate::engine::actions::action_applied;
use crate::engine::run::stepped;
use crate::money::clamp_i64;
use crate::node::{cpu_levels, ram_levels};
use crate::purchase::{
    card_played, card_used_up, ActionOutcome, BARE_NODE_COST, UPGRADED_NODE_COST,
    UPGRADED_RACK_COST,
};
use crate::service::ServiceKind;
use crate::state::{used_card_index, UsedCard, WorldState};
use crate::text::{lemma_bytes_before_transitive, lemma_text_order, text_before};
use crate::Time;

verus! {

/// The price of an action other than the use of a card, in millicents:
/// what is paid, the price of the next level of the node, or the price of
/// the node that is bought. A click and a change of price cost nothing.
pub open spec fn action_price(state: WorldState, action: PlayerAction) -> int {
    match action {
        PlayerAction::OpClick { kind, amount } => 0,
        PlayerAction::ChangePrice { kind, new_price } => 0,
        PlayerAction::Payment { amount } => amount@,
        PlayerAction::PayElectricityBill => state.electricity.total_due@,
        PlayerAction::UpgradeCpu { node } => cpu_levels()[state.nodes@[node as int].cpu_level
            + 1].cost@,
        PlayerAction::UpgradeRam { node } => ram_levels()[state.nodes@[node as int].ram_level
            + 1].cost@,
        PlayerAction::AddNode => BARE_NODE_COST as int,
        PlayerAction::AddUpgradedNode => UPGRADED_NODE_COST as int,
        PlayerAction::AddRack => UPGRADED_RACK_COST as int,
        PlayerAction::UseCard { id } => 0,
    }
}

/// Whether an action is a purchase, which is applied only where the funds
/// cover its price.
pub open spec fn is_purchase(action: PlayerAction) -> bool {
    action is UpgradeCpu || action is UpgradeRam || action is AddNode || action is AddUpgradedNode
        || action is AddRack
}

/// What is left of `funds` after a card was used: the price of the card is
/// taken, and a card that adds funds adds them. Each step is held at the
/// ends of the range of money.
pub open spec fn funds_after_card(funds: int, card: CardSpec) -> int {
    let left = clamp_i64(funds - card.cost.money@);
    match card.effect {
        CardEffect::AddFunds(money) => clamp_i64(left + money@),
        _ => left,
    }
}

/// An action that is applied changes the funds by exactly its price, and
/// one that is not leaves them as they are. (The funds are held at the ends
/// of the range of money, which a payment can reach; a purchase cannot.)
pub proof fn lemma_action_conserves_funds(
    before: WorldState,
    engine: EngineView,
    action: PlayerAction,
    catalog: Seq<CardSpec>,
    outcome: ActionOutcome,
    after: WorldState,
    engine_after: EngineView,
)
    requires
        before.is_sound(),
        !(action is UseCard),
        action_applied(before, engine, action, catalog, outcome, after, engine_after),
    ensures
        !(outcome is Applied) ==> after.funds == before.funds,
        outcome is Applied ==> after.funds@ == clamp_i64(
            before.funds@ - action_price(before, action),
        ),
        outcome is Applied && is_purchase(action) ==> 0 <= action_price(before, action)
            <= before.funds@ && after.funds@ == before.funds@ - action_price(before, action),
{
}

/// A card that is used changes the funds by exactly its price (and by what
/// it adds, where it adds funds); a card that is not used leaves them as
/// they are.
pub proof fn lemma_card_conserves_funds(
    before: WorldState,
    catalog: Seq<CardSpec>,
    id: Seq<char>,
    outcome: ActionOutcome,
    after: WorldState,
)
    requires
        before.is_sound(),
        card_played(before, catalog, id, outcome, after),
    ensures
        !(outcome is Applied) ==> after.funds == before.funds,
        outcome is Applied ==> exists|index: int|
            0 <= index < catalog.len() && (#[trigger] catalog[index]).id@ == id && before.funds@
                >= catalog[index].cost.money@ && after.funds@ == funds_after_card(
                before.funds@,
                catalog[index],
            ),
{
    if outcome is Applied {
        let index = choose|index: int|
            0 <= index < catalog.len() && (#[trigger] catalog[index]).id@ == id && (
            outcome is CardTooExpensive <==> !before.affords(&catalog[index].cost)) && (
            outcome is Applied ==> card_used_up(before, catalog[index], after));
        let card = catalog[index];
        assert(card_used_up(before, card, after));
        assert(after.funds@ == funds_after_card(before.funds@, card));
    }
}

/// Whether no service has fewer than no operations left to spend.
pub open spec fn ops_not_negative(state: WorldState) -> bool {
    &&& state.base_service.available@ >= 0
    &&& state.super_service.available@ >= 0
    &&& state.epic_service.available@ >= 0
    &&& state.awesome_service.available@ >= 0
}

/// The operations that are left to spend never go below zero: a card is
/// used only where the operations that it costs are there.
pub proof fn lemma_card_keeps_ops(
    before: WorldState,
    catalog: Seq<CardSpec>,
    id: Seq<char>,
    outcome: ActionOutcome,
    after: WorldState,
)
    requires
        before.is_sound(),
        ops_not_negative(before),
        card_played(before, catalog, id, outcome, after),
    ensures
        ops_not_negative(after),
{
    if outcome is Applied {
        let index = choose|index: int|
            0 <= index < catalog.len() && (#[trigger] catalog[index]).id@ == id && (
            outcome is CardTooExpensive <==> !before.affords(&catalog[index].cost)) && (
            outcome is Applied ==> card_used_up(before, catalog[index], after));
        let card = catalog[index];
        assert(card_used_up(before, card, after));
        assert(before.affords(&card.cost));
    }
}

/// No action takes the operations that are left to spend below zero.
pub proof fn lemma_action_keeps_ops(
    before: WorldState,
    engine: EngineView,
    action: PlayerAction,
    catalog: Seq<CardSpec>,
    outcome: ActionOutcome,
    after: WorldState,
    engine_after: EngineView,
)
    requires
        before.is_sound(),
        ops_not_negative(before),
        action_applied(before, engine, action, catalog, outcome, after, engine_after),
    ensures
        ops_not_negative(after),
{
    match action {
        PlayerAction::UseCard { id } => {
            lemma_card_keeps_ops(before, catalog, id@, outcome, after);
        },
        PlayerAction::ChangePrice { kind, new_price } => {
            assert(before.service(kind).available@ >= 0);
        },
        _ => {},
    }
}

/// No step of the game takes the operations that are left to spend below
/// zero: a completed request adds to them, and nothing else changes them.
pub proof fn lemma_step_keeps_ops(
    before: WorldState,
    engine: EngineView,
    time: Time,
    arrival: Arrival,
    after: WorldState,
    engine_after: EngineView,
)
    requires
        before.is_sound(),
        ops_not_negative(before),
        stepped(before, engine, time, arrival, after, engine_after),
    ensures
        ops_not_negative(after),
{
    assert(before.service(ServiceKind::Base) == before.base_service);
    assert(before.service(ServiceKind::Super) == before.super_service);
    assert(before.service(ServiceKind::Epic) == before.epic_service);
    assert(before.service(ServiceKind::Awesome) == before.awesome_service);
}

/// Whether no part of a cost is below zero.
pub open spec fn cost_not_negative(cost: Cost) -> bool {
    &&& cost.money@ >= 0
    &&& cost.base_ops@ >= 0
    &&& cost.super_ops@ >= 0
    &&& cost.epic_ops@ >= 0
    &&& cost.awesome_ops@ >= 0
}

/// Whether the records of the used cards stand in the order of their
/// identifiers.
pub open spec fn records_in_order(cards: Seq<UsedCard>) -> bool {
    forall|i: int, j: int|
        0 <= i < j < cards.len() ==> !text_before(
            (#[trigger] cards[j]).id@,
            (#[trigger] cards[i]).id@,
        )
}

/// What comes before a text comes before every text that does not come
/// before that one.
pub proof fn lemma_before_no_later(a: Seq<char>, b: Seq<char>, c: Seq<char>)
    requires
        text_before(a, b),
        !text_before(c, b),
    ensures
        text_before(a, c),
{
    lemma_text_order(b, c);
    if b != c {
        lemma_bytes_before_transitive(
            vstd::utf8::encode_utf8(a),
            vstd::utf8::encode_utf8(b),
            vstd::utf8::encode_utf8(c),
        );
    }
}

/// Among records in order, the place of a new record has before it the
/// records whose identifiers do not come after the new one, and from it on
/// those whose identifiers do.
pub proof fn lemma_used_card_index(cards: Seq<UsedCard>, id: Seq<char>)
    requires
        records_in_order(cards),
    ensures
        0 <= used_card_index(cards, id) <= cards.len(),
        forall|i: int|
            0 <= i < used_card_index(cards, id) ==> !text_before(id, (#[trigger] cards[i]).id@),
        forall|i: int|
            used_card_index(cards, id) <= i < cards.len() ==> text_before(
                id,
                (#[trigger] cards[i]).id@,
            ),
    decreases cards.len(),
{
    if cards.len() > 0 {
        let front = cards.drop_last();
        assert(records_in_order(front)) by {
            assert forall|i: int, j: int| 0 <= i < j < front.len() implies !text_before(
                (#[trigger] front[j]).id@,
                (#[trigger] front[i]).id@,
            ) by {
                assert(front[i] == cards[i] && front[j] == cards[j]);
            }
        }
        if text_before(id, cards.last().id@) {
            lemma_used_card_index(front, id);
            let index = used_card_index(front, id);
            assert forall|i: int| 0 <= i < index implies !text_before(
                id,
                (#[trigger] cards[i]).id@,
            ) by {
                assert(front[i] == cards[i]);
            }
            assert forall|i: int| index <= i < cards.len() implies text_before(
                id,
                (#[trigger] cards[i]).id@,
            ) by {
                if i < front.len() {
                    assert(front[i] == cards[i]);
                }
            }
        } else {
            assert forall|i: int| 0 <= i < cards.len() implies !text_before(
                id,
                (#[trigger] cards[i]).id@,
            ) by {
                if i < cards.len() - 1 && text_before(id, cards[i].id@) {
                    assert(!text_before(cards[cards.len() - 1].id@, cards[i].id@));
                    lemma_before_no_later(id, cards[i].id@, cards.last().id@);
                }
            }
        }
    }
}

/// A new record keeps the records of the used cards in the order of their
/// identifiers.
pub proof fn lemma_record_keeps_order(cards: Seq<UsedCard>, card: UsedCard)
    requires
        records_in_order(cards),
    ensures
        records_in_order(cards.insert(used_card_index(cards, card.id@), card)),
{
    lemma_used_card_index(cards, card.id@);
    let index = used_card_index(cards, card.id@);
    let after = cards.insert(index, card);
    assert forall|i: int, j: int| 0 <= i < j < after.len() implies !text_before(
        (#[trigger] after[j]).id@,
        (#[trigger] after[i]).id@,
    ) by {
        if j == index {
            assert(after[i] == cards[i]);
        } else if i == index {
            assert(after[j] == cards[j - 1]);
            lemma_text_order(card.id@, cards[j - 1].id@);
        } else {
            let a = if i < index { i } else { i - 1 };
            let b = if j < index { j } else { j - 1 };
            assert(after[i] == cards[a] && after[j] == cards[b]);
        }
    }
}

/// A card that is accepted takes exactly its cost and does its work once.
///
/// Where the catalog is in order, a card of it whose cost the player has
/// is used. If no part of the cost is below zero, and the money spent stays
/// within the range of money, the funds fall by the money of the cost, the
/// money spent rises by it, and the operations that are left of each tier
/// fall by those of the cost, and none falls below zero. The effect of the
/// card is applied to what is left, and the use is recorded with the time,
/// in the order of the identifiers. (A card that adds funds is left out: it
/// changes the funds by more than its cost.)
pub proof fn lemma_accepted_card(
    before: WorldState,
    catalog: Seq<CardSpec>,
    index: int,
    outcome: ActionOutcome,
    after: WorldState,
)
    requires
        before.is_sound(),
        catalog_in_order(catalog),
        0 <= index < catalog.len(),
        before.affords(&catalog[index].cost),
        cost_not_negative(catalog[index].cost),
        before.spent@ + catalog[index].cost.money@ <= i64::MAX,
        !(catalog[index].effect is AddFunds),
        card_played(before, catalog, catalog[index].id@, outcome, after),
    ensures
        outcome is Applied,
        after.funds@ == before.funds@ - catalog[index].cost.money@,
        after.spent@ == before.spent@ + catalog[index].cost.money@,
        after.base_service.available@ == before.base_service.available@
            - catalog[index].cost.base_ops@,
        after.super_service.available@ == before.super_service.available@
            - catalog[index].cost.super_ops@,
        after.epic_service.available@ == before.epic_service.available@
            - catalog[index].cost.epic_ops@,
        after.awesome_service.available@ == before.awesome_service.available@
            - catalog[index].cost.awesome_ops@,
        ops_not_negative(after),
        effect_applied(
            before.charged(catalog[index].cost),
            catalog[index].effect,
            WorldState { cards_used: before.cards_used, ..after },
        ),
        after.cards_used@ == before.cards_used@.insert(
            used_card_index(before.cards_used@, catalog[index].id@),
            UsedCard { id: catalog[index].id, time: before.time },
        ),
        records_in_order(before.cards_used@) ==> records_in_order(after.cards_used@),
{
    let id = catalog[index].id@;
    assert(in_catalog(catalog, id));
    let found = choose|found: int|
        0 <= found < catalog.len() && (#[trigger] catalog[found]).id@ == id && (
        outcome is CardTooExpensive <==> !before.affords(&catalog[found].cost)) && (
        outcome is Applied ==> card_used_up(before, catalog[found], after));
    assert(found == index) by {
        lemma_text_order(id, id);
        if found < index {
            assert(text_before(catalog[found].id@, catalog[index].id@));
        } else if index < found {
            assert(text_before(catalog[index].id@, catalog[found].id@));
        }
    }
    let card = catalog[index];
    assert(card_used_up(before, card, after));
    let paid_up = before.charged(card.cost);
    let worked = WorldState { cards_used: before.cards_used, ..after };
    assert(worked.base_service.available == paid_up.base_service.available);
    assert(worked.super_service.available == paid_up.super_service.available);
    assert(worked.epic_service.available == paid_up.epic_service.available);
    assert(worked.awesome_service.available == paid_up.awesome_service.available);
    if records_in_order(before.cards_used@) {
        lemma_record_keeps_order(
            before.cards_used@,
            UsedCard { id: card.id, time: before.time },
        );
    }
}

} // verus!

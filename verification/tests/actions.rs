use cloud_champion::cards::{card_by_id, card_index, check_catalog, CardCondition, CardEffect, CardSpec};
use cloud_champion::engine::GameEngine;
use cloud_champion::purchase::{ActionOutcome, NodeKind, BARE_NODE_COST, UPGRADED_NODE_COST, UPGRADED_RACK_COST};
use cloud_champion::queue::RequestEvent;
use cloud_champion::state::UsedCard;
use cloud_champion::{CloudClientSpec, Cost, Memory, Money, Ops, PlayerAction, ServiceKind, WorldState};

fn card(id: &str, cost: Cost, effect: CardEffect) -> CardSpec {
    CardSpec {
        id: id.to_string(),
        title: format!("card {}", id),
        description: String::new(),
        cost,
        condition: CardCondition::appear_immediately(),
        effect,
    }
}

fn catalog() -> Vec<CardSpec> {
    vec![
        card("a0p", Cost::base_ops(8), CardEffect::PublishService(ServiceKind::Base)),
        card("a1", Cost::base_ops(4_000).and(Cost::dollars(200)), CardEffect::UnlockService(ServiceKind::Super)),
        card("b0", Cost::base_ops(50), CardEffect::AddFunds(Money::dollars(60))),
        card("d0", Cost::nothing(), CardEffect::AddClientsWithPublicity(
            CloudClientSpec { service: ServiceKind::Base, trial_duration: 50_000 },
            2_000,
        )),
        card("d3.5", Cost::dollars(750), CardEffect::AddPublicityRate(250_000, 2_000)),
        card("s1", Cost::money(Money::dollars(5)).and(Cost::base_ops(64)), CardEffect::UpgradeServices),
        card("test-0", Cost::nothing(), CardEffect::AddFunds(Money::dollars(200))),
    ]
}

#[test]
fn click_schedules_an_arrival() {
    let mut state = WorldState::default();
    state.time = 41;
    let mut engine = GameEngine::with_seed(1);
    let before = state.clone();
    let outcome = engine.apply_action(
        &mut state,
        PlayerAction::OpClick { kind: ServiceKind::Super, amount: 4 },
        &catalog(),
    );
    assert_eq!(outcome, ActionOutcome::Applied { new_cohorts: 0 });
    assert_eq!(state, before);
    assert_eq!(engine.next_due(40), None);
    assert_eq!(
        engine.pop_due(41),
        Some(RequestEvent::new_arrived(41, None, 4, ServiceKind::Super, false))
    );
}

#[test]
fn accepted_upgrade_takes_exactly_its_price() {
    let mut state = WorldState::default();
    let mut engine = GameEngine::with_seed(1);
    state.funds = Money::dollars(100);
    assert_eq!(state.nodes[0].next_cpu_upgrade_cost(), Some(Money::dollars(60)));
    assert_eq!(state.nodes[0].next_ram_upgrade_cost(), Some(Money::dollars(40)));

    let outcome = engine.apply_action(&mut state, PlayerAction::UpgradeCpu { node: 0 }, &catalog());
    assert_eq!(outcome, ActionOutcome::Applied { new_cohorts: 0 });
    assert_eq!(state.funds, Money::dollars(40));
    assert_eq!(state.spent, Money::dollars(60));
    assert_eq!(state.nodes[0].cpu_level, 1);
    assert_eq!(state.nodes[0].num_cores, 2);
    assert_eq!(state.nodes[0].cpu_speed, 2);

    let outcome = engine.apply_action(&mut state, PlayerAction::UpgradeRam { node: 0 }, &catalog());
    assert_eq!(outcome, ActionOutcome::Applied { new_cohorts: 0 });
    assert_eq!(state.funds, Money::zero());
    assert_eq!(state.spent, Money::dollars(100));
    assert_eq!(state.nodes[0].ram_level, 1);
    assert_eq!(state.nodes[0].ram_capacity, Memory::mb(512));
}

#[test]
fn rejected_action_changes_nothing() {
    let mut state = WorldState::default();
    let mut engine = GameEngine::with_seed(1);
    state.funds = Money::dollars(60) - Money::millicents(1);
    state.base_service.available = Ops(7);
    let before = state.clone();
    let rejected = [
        (PlayerAction::UpgradeCpu { node: 0 }, ActionOutcome::NotEnoughFunds),
        (PlayerAction::UpgradeCpu { node: 1 }, ActionOutcome::NoSuchNode),
        (PlayerAction::UpgradeRam { node: 7 }, ActionOutcome::NoSuchNode),
        (PlayerAction::AddNode, ActionOutcome::NotEnoughFunds),
        (PlayerAction::AddUpgradedNode, ActionOutcome::NotEnoughFunds),
        (PlayerAction::AddRack, ActionOutcome::NotEnoughFunds),
        (PlayerAction::UseCard { id: "nope".to_string() }, ActionOutcome::NoSuchCard),
        (PlayerAction::UseCard { id: "a0p".to_string() }, ActionOutcome::CardTooExpensive),
        (PlayerAction::UseCard { id: "d3.5".to_string() }, ActionOutcome::CardTooExpensive),
    ];
    for (action, expected) in rejected {
        let outcome = engine.apply_action(&mut state, action, &catalog());
        assert_eq!(outcome, expected);
        assert_eq!(state, before);
        assert_eq!(engine.pending_events(), 0);
    }

    state.nodes[0] = cloud_champion::node::CloudNode::new_fully_upgraded(0);
    state.funds = Money::dollars(1_000_000);
    let before = state.clone();
    assert_eq!(state.nodes[0].next_cpu_upgrade_cost(), None);
    assert_eq!(state.nodes[0].next_ram_upgrade_cost(), None);
    assert_eq!(state.upgrade_cpu(0), ActionOutcome::NoFurtherLevel);
    assert_eq!(state.upgrade_ram(0), ActionOutcome::NoFurtherLevel);
    assert_eq!(state, before);
}

#[test]
fn nodes_are_bought_for_their_price() {
    let mut state = WorldState::default();
    let mut engine = GameEngine::with_seed(1);
    state.funds = Money::dollars(400_000);
    assert_eq!(BARE_NODE_COST, Money::dollars(2_000).to_millicents());
    assert_eq!(UPGRADED_NODE_COST, Money::dollars(70_000).to_millicents());
    assert_eq!(UPGRADED_RACK_COST, Money::dollars(280_000).to_millicents());

    assert_eq!(
        engine.apply_action(&mut state, PlayerAction::AddNode, &catalog()),
        ActionOutcome::Applied { new_cohorts: 0 }
    );
    assert_eq!(state.funds, Money::dollars(398_000));
    assert_eq!(state.nodes.len(), 2);
    assert_eq!(state.nodes[1], cloud_champion::node::CloudNode::new(1));

    assert_eq!(
        engine.apply_action(&mut state, PlayerAction::AddUpgradedNode, &catalog()),
        ActionOutcome::Applied { new_cohorts: 0 }
    );
    assert_eq!(state.funds, Money::dollars(328_000));
    assert_eq!(state.nodes[2].id, 2);
    assert_eq!(state.nodes[2].num_cores, 64);
    assert_eq!(state.nodes[2].cpu_speed, 8);
    assert_eq!(state.nodes[2].ram_capacity, Memory::gb(64));

    assert_eq!(state.buy_node(NodeKind::Rack), ActionOutcome::Applied { new_cohorts: 0 });
    assert_eq!(state.funds, Money::dollars(48_000));
    assert_eq!(state.nodes[3].id, 3);
    assert_eq!(state.nodes[3].num_cores, 256);
    assert_eq!(state.nodes[3].ram_capacity, Memory::gb(256));
    assert_eq!(state.spent, Money::zero());
    assert!(state.check_sound());
    assert_eq!(state.node(3).map(|n| n.id), Some(3));
    assert!(state.node(4).is_none());
}

#[test]
fn payments_and_prices() {
    let mut state = WorldState::default();
    let mut engine = GameEngine::with_seed(1);
    engine.apply_action(&mut state, PlayerAction::Payment { amount: Money::dollars(3) }, &catalog());
    assert_eq!(state.funds, Money::dollars(7));
    assert_eq!(state.spent, Money::dollars(3));

    // a bill is paid whether or not the funds cover it
    state.electricity.total_due = Money::dollars(12);
    state.electricity.last_bill_time = 77;
    engine.apply_action(&mut state, PlayerAction::PayElectricityBill, &catalog());
    assert_eq!(state.funds, Money::zero() - Money::dollars(5));
    assert_eq!(state.spent, Money::dollars(15));
    assert_eq!(state.electricity.total_due, Money::zero());
    assert_eq!(state.electricity.last_bill_time, 77);

    engine.apply_action(
        &mut state,
        PlayerAction::ChangePrice { kind: ServiceKind::Epic, new_price: Money::cents(7) },
        &catalog(),
    );
    assert_eq!(state.epic_service.price, Money::cents(7));
    assert_eq!(state.base_service.price, Money::millicents(50));
    assert_eq!(state.funds, Money::zero() - Money::dollars(5));

    // the funds stop at the ends of the range of money
    state.funds = Money::millicents(i64::MIN + 1);
    state.pay(Money::millicents(5));
    assert_eq!(state.funds, Money::millicents(i64::MIN));
}

#[test]
fn used_card_takes_its_cost_and_does_its_work() {
    let mut state = WorldState::default();
    let mut engine = GameEngine::with_seed(1);
    state.time = 900;
    state.base_service.available = Ops(5_000);
    state.funds = Money::dollars(300);

    let outcome = engine.apply_action(&mut state, PlayerAction::UseCard { id: "b0".to_string() }, &catalog());
    assert_eq!(outcome, ActionOutcome::Applied { new_cohorts: 0 });
    assert_eq!(state.base_service.available, Ops(4_950));
    assert_eq!(state.funds, Money::dollars(360));
    assert_eq!(state.cards_used, vec![UsedCard { id: "b0".to_string(), time: 900 }]);

    let outcome = engine.apply_action(&mut state, PlayerAction::UseCard { id: "a1".to_string() }, &catalog());
    assert_eq!(outcome, ActionOutcome::Applied { new_cohorts: 0 });
    assert_eq!(state.base_service.available, Ops(950));
    assert_eq!(state.funds, Money::dollars(160));
    assert_eq!(state.spent, Money::dollars(200));
    assert!(state.super_service.unlocked);
    assert!(state.super_service.private);

    // the card that opens the base service brings the first cohort
    state.time = 1_000;
    let outcome = engine.apply_action(&mut state, PlayerAction::UseCard { id: "a0p".to_string() }, &catalog());
    assert_eq!(outcome, ActionOutcome::Applied { new_cohorts: 1 });
    assert!(!state.base_service.private);
    assert_eq!(state.demand, 1_000);
    assert_eq!(state.user_specs.len(), 1);
    assert_eq!(state.user_specs[0].id, 1);
    assert_eq!(engine.pending_events(), 0);

    // the records stay in the order of the identifiers
    let ids: Vec<&str> = state.cards_used.iter().map(|c| c.id.as_str()).collect();
    assert_eq!(ids, vec!["a0p", "a1", "b0"]);
    assert_eq!(state.cards_used[0].time, 1_000);
    assert!(state.is_card_used("a1"));
    assert!(!state.is_card_used("a"));
    assert!(!state.is_card_used("d0"));
}

#[test]
fn cards_are_found_by_their_identifier() {
    let cards = catalog();
    assert!(check_catalog(&cards));
    for (index, card) in cards.iter().enumerate() {
        assert_eq!(card_index(&cards, &card.id), Some(index));
        assert_eq!(card_by_id(&cards, &card.id), Some(card));
    }
    for id in ["", "a", "a0", "a0pp", "b", "d3", "d3.50", "test-", "zzz", "\u{e9}"] {
        assert_eq!(card_index(&cards, id), None);
        assert!(card_by_id(&cards, id).is_none());
    }
    let mut unordered = catalog();
    unordered.swap(1, 2);
    assert!(!check_catalog(&unordered));
    let mut doubled = catalog();
    doubled.insert(1, card("a0p", Cost::nothing(), CardEffect::Nothing));
    assert!(!check_catalog(&doubled));
    assert!(check_catalog(&Vec::new()));
}

#[test]
fn cards_come_on_offer_by_their_condition() {
    let mut state = WorldState::default();
    let cards = catalog();
    let test_card = &cards[6];
    let publish = &cards[0];
    let unlock = &cards[1];
    assert!(publish.should_appear(&state));
    assert!(unlock.should_appear(&state));
    // a test card is never on offer
    assert!(test_card.condition.should_appear(&state));
    assert!(!test_card.should_appear(&state));
    // nor is a card that was used
    state.record_card("a0p".to_string(), 10);
    assert!(!publish.should_appear(&state));
    // nor one that costs operations of a locked service
    let mut pricey = card("x1", Cost::super_ops(1), CardEffect::Nothing);
    assert!(!pricey.should_appear(&state));
    assert!(!pricey.has_services_unlocked(&state));
    state.super_service.unlocked = true;
    assert!(pricey.should_appear(&state));
    pricey.cost = Cost::epic_ops(1).and(Cost::awesome_ops(1));
    assert!(!pricey.should_appear(&state));
    state.epic_service.unlocked = true;
    assert!(!pricey.should_appear(&state));
    state.awesome_service.unlocked = true;
    assert!(pricey.should_appear(&state));
}

#[test]
fn conditions_hold_by_the_state() {
    let mut state = WorldState::default();
    state.time = 5_000;
    state.funds = Money::dollars(20);
    state.spent = Money::dollars(5);
    state.earned = Money::dollars(50);
    state.base_service.total = Ops(500);
    state.base_service.available = Ops(100);
    state.requests_dropped = 500;
    state.requests_failed = 20_000;
    state.demand = 2_500_250;
    state.record_card("a1".to_string(), 2_000);
    let holds = |condition: CardCondition, state: &WorldState| condition.should_appear(state);
    assert!(holds(CardCondition::Test { test: true }, &state));
    assert!(!holds(CardCondition::Test { test: false }, &state));
    assert!(holds(CardCondition::Funds(Money::dollars(20)), &state));
    assert!(!holds(CardCondition::Funds(Money::dollars(21)), &state));
    assert!(holds(CardCondition::Spent(Money::dollars(6)), &state));
    assert!(!holds(CardCondition::Spent(Money::dollars(5)), &state));
    assert!(holds(CardCondition::Earned(Money::dollars(50)), &state));
    assert!(!holds(CardCondition::Earned(Money::dollars(51)), &state));
    assert!(holds(CardCondition::TotalBaseOps(Ops(500)), &state));
    assert!(!holds(CardCondition::TotalBaseOps(Ops(501)), &state));
    assert!(holds(CardCondition::AvailableBaseOps(Ops(100)), &state));
    assert!(!holds(CardCondition::AvailableBaseOps(Ops(101)), &state));
    assert!(!holds(CardCondition::TotalSuperOps(Ops(1)), &state));
    assert!(!holds(CardCondition::AvailableSuperOps(Ops(1)), &state));
    assert!(!holds(CardCondition::TotalEpicOps(Ops(1)), &state));
    assert!(!holds(CardCondition::AvailableEpicOps(Ops(1)), &state));
    assert!(holds(CardCondition::TotalAwesomeOps(Ops(0)), &state));
    assert!(holds(CardCondition::AvailableAwesomeOps(Ops(0)), &state));
    assert!(holds(CardCondition::RequestsDropped(500), &state));
    assert!(!holds(CardCondition::RequestsDropped(501), &state));
    assert!(holds(CardCondition::RequestsFailed(20_000), &state));
    assert!(!holds(CardCondition::RequestsFailed(20_001), &state));
    assert!(holds(CardCondition::Demand(2_500_250), &state));
    assert!(!holds(CardCondition::Demand(2_500_251), &state));
    assert!(!holds(CardCondition::FirstBillArrived, &state));
    assert!(holds(CardCondition::TimeAfterCard { card: "a1".to_string(), duration: 3_000 }, &state));
    assert!(!holds(CardCondition::TimeAfterCard { card: "a1".to_string(), duration: 3_001 }, &state));
    assert!(!holds(CardCondition::TimeAfterCard { card: "a2".to_string(), duration: 0 }, &state));
    assert_eq!(
        CardCondition::after_card_millis("a1".to_string(), 60_000),
        CardCondition::TimeAfterCard { card: "a1".to_string(), duration: 6_000 }
    );
    assert!(!holds(CardCondition::TotalMemoryUpgrades(1), &state));
    assert!(holds(CardCondition::TotalCloudNodes(1), &state));
    assert!(!holds(CardCondition::TotalCloudNodes(2), &state));
    assert!(!holds(CardCondition::FullyUpgradedNode, &state));
    assert!(!holds(CardCondition::FullyUpgradedRack, &state));
    assert!(!holds(CardCondition::FullyUpgradedDatacenter, &state));

    state.electricity.last_bill_time = 1;
    assert!(holds(CardCondition::FirstBillArrived, &state));
    state.nodes[0].ram_level = 3;
    state.nodes[0].cpu_level = 10;
    assert!(holds(CardCondition::FullyUpgradedNode, &state));
    for id in 1..4 {
        state.nodes.push(cloud_champion::node::CloudNode::new_fully_upgraded(id));
    }
    assert!(holds(CardCondition::TotalMemoryUpgrades(33), &state));
    assert!(!holds(CardCondition::TotalMemoryUpgrades(34), &state));
    assert!(holds(CardCondition::FullyUpgradedRack, &state));
}

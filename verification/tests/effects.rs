use cloud_champion::cards::CardEffect;
use cloud_champion::node::CloudNode;
use cloud_champion::state::RoutingLevel;
use cloud_champion::{CloudClientSpec, CloudUserSpec, Memory, Money, ServiceKind, WorldState};

fn levels(state: &WorldState) -> Vec<u32> {
    let routing = match state.routing_level {
        RoutingLevel::MainNode => 0,
        RoutingLevel::Distributed => 1,
        RoutingLevel::NoRoutingCost => 2,
    };
    let mut levels = vec![
        state.software_level as u32,
        state.cache_level as u32,
        routing,
        state.spam_protection,
        state.electricity.cost_level as u32,
    ];
    for node in state.nodes.iter() {
        levels.push(node.cpu_level as u32);
        levels.push(node.ram_level as u32);
    }
    levels
}

#[test]
fn levels_never_decrease() {
    let effects = vec![
        CardEffect::UpgradeRoutingLevel(RoutingLevel::NoRoutingCost),
        CardEffect::UpgradeRoutingLevel(RoutingLevel::Distributed),
        CardEffect::UpgradeRoutingLevel(RoutingLevel::MainNode),
        CardEffect::UpgradeSpamProtection(875),
        CardEffect::UpgradeSpamProtection(500),
        CardEffect::UpgradeSpamProtection(5_000),
        CardEffect::SetElectricityCostLevel(5),
        CardEffect::SetElectricityCostLevel(2),
        CardEffect::SetElectricityCostLevel(200),
        CardEffect::UpgradeServices,
        CardEffect::MoreCaching,
        CardEffect::UpgradeServices,
        CardEffect::MoreCaching,
        CardEffect::UpgradeServices,
        CardEffect::MoreCaching,
        CardEffect::UpgradeServices,
        CardEffect::MoreCaching,
        CardEffect::UpgradeServices,
        CardEffect::MoreCaching,
        CardEffect::Nothing,
        CardEffect::AddFunds(Money::dollars(-5)),
        CardEffect::PublishService(ServiceKind::Epic),
        CardEffect::UnlockMultiDatacenters,
    ];
    let mut state = WorldState::default();
    state.nodes.push(CloudNode::new_fully_upgraded(1));
    let mut before = levels(&state);
    for effect in effects.iter() {
        state.apply_card_effect(effect);
        assert!(state.check_sound());
        let after = levels(&state);
        for (a, b) in before.iter().zip(after.iter()) {
            assert!(a <= b);
        }
        before = after;
    }
    assert_eq!(before, vec![4, 4, 2, 1_000, 6, 0, 0, 10, 10]);
    assert_eq!(state.nodes.len(), 2);
    assert!(state.can_buy_datacenters);
}

#[test]
fn flags_are_unlocked() {
    let mut state = WorldState::default();
    state.apply_card_effect(&CardEffect::UnlockDemandEstimate);
    assert!(state.can_see_demand && !state.can_see_energy_consumption);
    state.apply_card_effect(&CardEffect::UnlockEnergyEstimate);
    assert!(state.can_see_energy_consumption && !state.can_see_request_rates);
    state.apply_card_effect(&CardEffect::UnlockRequestRateEstimate);
    assert!(state.can_see_request_rates && !state.can_buy_nodes);
    state.apply_card_effect(&CardEffect::UnlockMultiNodes);
    assert!(state.can_buy_nodes && !state.can_buy_racks);
    state.apply_card_effect(&CardEffect::UnlockMultiRacks);
    assert!(state.can_buy_racks && !state.can_buy_datacenters);
    let mut expected = WorldState::default();
    expected.can_see_demand = true;
    expected.can_see_energy_consumption = true;
    expected.can_see_request_rates = true;
    expected.can_buy_nodes = true;
    expected.can_buy_racks = true;
    assert_eq!(state, expected);
}

#[test]
fn services_are_unlocked_and_published() {
    let mut state = WorldState::default();
    state.apply_card_effect(&CardEffect::UnlockService(ServiceKind::Epic));
    assert!(state.epic_service.unlocked && state.epic_service.private);
    assert!(!state.super_service.unlocked);
    assert_eq!(state.service_tier(), ServiceKind::Epic);

    state.demand = 77;
    state.apply_card_effect(&CardEffect::PublishService(ServiceKind::Epic));
    assert!(!state.epic_service.private);
    assert_eq!(state.demand, 77);
    assert_eq!(
        state.user_specs,
        vec![CloudUserSpec { id: 1, service: ServiceKind::Epic, trial_time: 0, bad: false }]
    );
    // a service gets one cohort of customers, however often it is opened
    state.apply_card_effect(&CardEffect::PublishService(ServiceKind::Epic));
    assert_eq!(state.user_specs.len(), 1);

    // with a high demand, a malicious cohort comes as well
    state.demand = 2_500_001;
    state.apply_card_effect(&CardEffect::PublishService(ServiceKind::Super));
    assert_eq!(
        state.user_specs[1..],
        [
            CloudUserSpec { id: 2, service: ServiceKind::Super, trial_time: 0, bad: false },
            CloudUserSpec { id: 3, service: ServiceKind::Super, trial_time: 0, bad: true },
        ]
    );
    // opening the base service sets the demand to its first value
    state.apply_card_effect(&CardEffect::PublishService(ServiceKind::Base));
    assert_eq!(state.demand, 1_000);
    assert_eq!(state.user_specs.len(), 4);
    assert_eq!(state.user_specs[3].id, 4);
    assert!(state.has_cohort(ServiceKind::Base, false));
    assert!(!state.has_cohort(ServiceKind::Base, true));
    assert_eq!(state.user_spec(3), Some(state.user_specs[2]));
    assert_eq!(state.user_spec(5), None);
    assert_eq!(state.next_user_spec_id(), 5);
}

#[test]
fn publicity_brings_attackers_once_the_demand_is_high() {
    let mut state = WorldState::default();
    state.apply_card_effect(&CardEffect::AddPublicityRate(2_500_000, 500));
    assert_eq!(state.demand, 2_500_000);
    assert_eq!(state.demand_rate, 750);
    assert_eq!(state.user_specs.len(), 0);

    state.user_specs.push(CloudUserSpec { id: 6, service: ServiceKind::Epic, trial_time: 0, bad: true });
    state.apply_card_effect(&CardEffect::AddPublicityRate(1, 0));
    assert_eq!(state.demand, 2_500_001);
    let cohorts: Vec<(u32, ServiceKind, bool)> =
        state.user_specs.iter().map(|s| (s.id, s.service, s.bad)).collect();
    assert_eq!(
        cohorts,
        vec![
            (6, ServiceKind::Epic, true),
            (7, ServiceKind::Base, true),
            (8, ServiceKind::Super, true),
            (9, ServiceKind::Awesome, true),
        ]
    );
    // only the step over the threshold brings them
    state.remove_cohort(8);
    state.apply_card_effect(&CardEffect::AddPublicityRate(1_000, 0));
    assert_eq!(state.user_specs.len(), 3);

    // full protection sends them away, and only them
    state.user_specs.push(CloudUserSpec { id: 12, service: ServiceKind::Base, trial_time: 0, bad: false });
    state.apply_card_effect(&CardEffect::UpgradeSpamProtection(999));
    assert_eq!(state.user_specs.len(), 4);
    assert_eq!(state.spam_protection, 999);
    state.apply_card_effect(&CardEffect::UpgradeSpamProtection(1_000));
    assert_eq!(
        state.user_specs,
        vec![CloudUserSpec { id: 12, service: ServiceKind::Base, trial_time: 0, bad: false }]
    );
}

#[test]
fn customers_come_with_a_trial() {
    let mut state = WorldState::default();
    state.time = 1_000;
    let client = CloudClientSpec { service: ServiceKind::Super, trial_duration: 500 };
    let paying = CloudClientSpec { service: ServiceKind::Base, trial_duration: 0 };
    state.apply_card_effect(&CardEffect::AddClients(client));
    state.apply_card_effect(&CardEffect::AddClientsWithPublicity(client, 2_000));
    state.apply_card_effect(&CardEffect::AddClientsWithPublicity(paying, 250));
    state.apply_card_effect(&CardEffect::AddClients(paying));
    assert_eq!(state.demand, 2_250);
    assert_eq!(
        state.user_specs,
        vec![
            CloudUserSpec { id: 1, service: ServiceKind::Super, trial_time: 1_500, bad: false },
            CloudUserSpec { id: 2, service: ServiceKind::Super, trial_time: 1_500, bad: false },
            CloudUserSpec { id: 3, service: ServiceKind::Base, trial_time: 0, bad: false },
            CloudUserSpec { id: 4, service: ServiceKind::Base, trial_time: 1_000, bad: false },
        ]
    );
    assert!(!state.user_specs[0].is_paying(1_499));
    assert!(state.user_specs[0].is_paying(1_500));
    assert!(state.user_specs[2].is_paying(0));
    assert!(!CloudUserSpec { id: 9, service: ServiceKind::Base, trial_time: 0, bad: true }.is_paying(5));

    // when the numbers run out no cohort is added
    state.user_specs.push(CloudUserSpec { id: u32::MAX, service: ServiceKind::Base, trial_time: 0, bad: false });
    state.apply_card_effect(&CardEffect::AddClients(client));
    assert_eq!(state.user_specs.len(), 5);
    assert!(state.check_sound());
}

#[test]
fn entitlements_clicks_and_funds() {
    let mut state = WorldState::default();
    state.apply_card_effect(&CardEffect::UpgradeEntitlements(ServiceKind::Base, Money::millicents(5)));
    state.apply_card_effect(&CardEffect::UpgradeEntitlements(ServiceKind::Base, Money::millicents(3)));
    assert_eq!(state.base_service.entitlement, Money::millicents(5));
    assert_eq!(state.super_service.entitlement, Money::zero());
    state.apply_card_effect(&CardEffect::UpgradeOpsPerClick(4));
    state.apply_card_effect(&CardEffect::UpgradeOpsPerClick(2));
    assert_eq!(state.ops_per_click, 4);
    state.apply_card_effect(&CardEffect::AddFunds(Money::dollars(60)));
    assert_eq!(state.funds, Money::dollars(70));
    state.funds = Money::millicents(i64::MAX - 1);
    state.apply_card_effect(&CardEffect::AddFunds(Money::dollars(60)));
    assert_eq!(state.funds, Money::millicents(i64::MAX));
}

#[test]
fn cheaper_electricity_comes_with_publicity() {
    let mut state = WorldState::default();
    state.apply_card_effect(&CardEffect::SetElectricityCostLevel(3));
    assert_eq!((state.electricity.cost_level, state.demand, state.demand_rate), (3, 0, 250));
    state.apply_card_effect(&CardEffect::SetElectricityCostLevel(4));
    assert_eq!((state.electricity.cost_level, state.demand, state.demand_rate), (4, 5_000_000, 32_250));
    state.apply_card_effect(&CardEffect::SetElectricityCostLevel(6));
    assert_eq!((state.electricity.cost_level, state.demand, state.demand_rate), (6, 55_000_000, 96_250));
    state.apply_card_effect(&CardEffect::SetElectricityCostLevel(4));
    assert_eq!((state.electricity.cost_level, state.demand, state.demand_rate), (6, 60_000_000, 128_250));
}

#[test]
fn better_software_frees_reserved_memory() {
    let mut state = WorldState::default();
    state.nodes.push(CloudNode::new(1));
    state.nodes[0].ram_reserved = Memory::mb(128);
    state.nodes[0].ram_usage = Memory::mb(130);
    state.nodes[1].ram_reserved = Memory::mb(8);
    state.nodes[1].ram_usage = Memory::mb(8);
    assert_eq!(state.expected_ram_reserved(), Memory::mb(32));
    state.apply_card_effect(&CardEffect::UpgradeServices);
    assert_eq!(state.software_level, 1);
    // the base reserve, of which the software now needs 31 parts in 32
    assert_eq!(state.expected_ram_reserved(), Memory::mb(31));
    assert_eq!(state.nodes[0].ram_reserved, Memory::mb(31));
    assert_eq!(state.nodes[0].ram_usage, Memory::mb(33));
    assert_eq!(state.nodes[1].ram_reserved, Memory::mb(8));
    assert_eq!(state.nodes[1].ram_usage, Memory::mb(8));
    state.awesome_service.unlocked = true;
    state.software_level = 4;
    assert_eq!(state.expected_ram_reserved(), Memory::gb(2));
    assert_eq!(
        cloud_champion::state::calculate_memory_reserve_required(ServiceKind::Super, 3, 2),
        Memory::mb(3_456)
    );
}

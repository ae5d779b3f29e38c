use cloud_champion::electricity::{electricity_cost, Electricity};
use cloud_champion::node::{cpu_level, ram_level, CloudNode, WaitingRequest};
use cloud_champion::sampling::{roll_hits, SampleGenerator};
use cloud_champion::service::ServiceInfo;
use cloud_champion::state::{
    cache_hit_chance, cache_reserve_multiplier, is_default_routing_level, is_false, is_zero_u64,
    software_memory_share, unlocked_default, LoadTotals, RoutingLevel,
};
use cloud_champion::text::{comes_before, same_text};
use cloud_champion::{CloudUserSpec, Cost, GameEngine, Memory, Money, Ops, ServiceKind, WorldState};

#[test]
fn new_game() {
    let state = WorldState::default();
    assert!(state.check_sound());
    assert_eq!(state.time, 0);
    assert_eq!(state.funds, Money::dollars(10));
    assert_eq!(state.demand_rate, 250);
    assert_eq!(state.ops_per_click, 1);
    assert_eq!(state.base_service, ServiceInfo::new_private(Money::millicents(50)));
    assert_eq!(state.super_service, ServiceInfo::new_locked(Money::dec_cents(5)));
    assert_eq!(state.epic_service, ServiceInfo::new_locked(Money::cents(5)));
    assert_eq!(state.awesome_service, ServiceInfo::new_locked(Money::dollars(1)));
    assert_eq!(state.electricity, Electricity::default());
    assert_eq!(state.nodes, vec![CloudNode::new(0)]);
    assert_eq!(state.routing_level, RoutingLevel::default());
    assert_eq!(state.service_tier(), ServiceKind::Base);
    assert!(!state.is_powersaving());
    let engine = GameEngine::new();
    assert_eq!(engine.pending_events(), 0);
    assert_eq!(engine.waiting_requests(), 0);
    assert_eq!((engine.drop_rate, engine.failure_rate), (0, 0));
}

#[test]
fn saved_game_comes_back_at_rest() {
    let mut state = WorldState::default();
    state.time = 123_456;
    state.funds = Money::dollars(77);
    state.demand = 9_999;
    state.requests_dropped = 5;
    state.nodes.push(CloudNode::new_fully_upgraded_rack(1));
    state.user_specs.push(CloudUserSpec { id: 3, service: ServiceKind::Base, trial_time: 9, bad: false });
    state.record_card("c0".to_string(), 55);
    state.electricity.consumed = 40;
    state.electricity.total_consumed = 90;
    state.electricity.total_due = Money::cents(70);
    state.electricity.last_bill_time = 100;
    let persisted = state.clone();

    // whatever the load was, the game comes back without it
    state.nodes[0].processing = 1;
    state.nodes[0].ram_usage = Memory::mb(40);
    state.nodes[0].ram_reserved = Memory::mb(32);
    state.nodes[0].requests.push_back(WaitingRequest {
        timestamp: 1,
        amount: 2,
        user_spec_id: Some(3),
        service: ServiceKind::Base,
        mem_required: Memory::mb(1),
    });
    state.nodes[1].processing = 200;
    state.electricity.recent_energy_consumed = 12;
    state.electricity.energy_consumption_rate = 34;
    assert_ne!(state, persisted);
    let mut again = state.clone();
    state.reset_transients();
    assert_eq!(state, persisted);
    assert!(state.check_sound());
    state.reset_transients();
    assert_eq!(state, persisted);

    // an unsound load makes no difference to the game that comes back
    again.nodes[1].processing = 300;
    assert!(!again.check_sound());
    assert_eq!(again.clone().restore(), Some(persisted));
    // but figures that the saved game carries must be sound
    again.cache_level = 5;
    assert_eq!(again.clone().restore(), None);
    again.cache_level = 4;
    again.nodes[1].id = 2;
    assert_eq!(again.clone().restore(), None);
    again.nodes[1].id = 1;
    again.nodes[1].ram_capacity = Memory::bytes(-1);
    assert_eq!(again.clone().restore(), None);
    again.nodes[1].ram_capacity = Memory::zero();
    again.nodes[1].cpu_speed = 0;
    assert_eq!(again.clone().restore(), None);
    again.nodes.clear();
    assert_eq!(again.restore(), None);
}

#[test]
fn unsound_states_are_told() {
    let sound = WorldState::default();
    let mut state = sound.clone();
    state.nodes.clear();
    assert!(!state.check_sound());
    let mut state = sound.clone();
    state.nodes[0].id = 1;
    assert!(!state.check_sound());
    let mut state = sound.clone();
    state.nodes[0].processing = 2;
    assert!(!state.check_sound());
    let mut state = sound.clone();
    state.nodes[0].ram_usage = Memory::mb(257);
    assert!(!state.check_sound());
    let mut state = sound.clone();
    state.nodes[0].ram_reserved = Memory::bytes(1);
    assert!(!state.check_sound());
    let mut state = sound.clone();
    state.nodes[0].cpu_speed = 0;
    assert!(!state.check_sound());
    let mut state = sound.clone();
    state.nodes[0].cpu_level = 11;
    assert!(!state.check_sound());
    let mut state = sound.clone();
    state.software_level = 5;
    assert!(!state.check_sound());
    let mut state = sound.clone();
    state.cache_level = 5;
    assert!(!state.check_sound());
    let mut state = sound.clone();
    state.electricity.cost_level = 7;
    assert!(!state.check_sound());
    let mut state = sound.clone();
    state.spam_protection = 1_001;
    assert!(!state.check_sound());
    let mut state = sound.clone();
    state.user_specs.push(CloudUserSpec { id: 2, service: ServiceKind::Base, trial_time: 0, bad: false });
    state.user_specs.push(CloudUserSpec { id: 2, service: ServiceKind::Base, trial_time: 0, bad: true });
    assert!(!state.check_sound());
}

#[test]
fn costs_are_afforded_and_taken() {
    let mut state = WorldState::default();
    state.base_service.available = Ops(10);
    state.epic_service.available = Ops(3);
    let cost = Cost::dollars(10).and(Cost::base_ops(10)).and(Cost::epic_ops(3));
    assert!(state.can_afford(&cost));
    assert!(!state.can_afford(&cost.clone().and(Cost::cents(1))));
    assert!(!state.can_afford(&cost.clone().and(Cost::base_ops(1))));
    assert!(!state.can_afford(&cost.clone().and(Cost::super_ops(1))));
    assert!(!state.can_afford(&cost.clone().and(Cost::epic_ops(1))));
    assert!(!state.can_afford(&cost.clone().and(Cost::awesome_ops(1))));
    state.apply_cost(&cost);
    assert_eq!(state.funds, Money::zero());
    assert_eq!(state.spent, Money::dollars(10));
    assert_eq!(state.base_service.available, Ops(0));
    assert_eq!(state.epic_service.available, Ops(0));
    assert_eq!(state.base_service.total, Ops(0));
}

#[test]
fn tables() {
    assert_eq!(cpu_level(0).cores, 1);
    assert_eq!(cpu_level(4).cost, Money::dollars(850));
    assert_eq!((cpu_level(10).cores, cpu_level(10).speed), (64, 8));
    assert_eq!(ram_level(0).capacity, Memory::mb(256));
    assert_eq!(ram_level(7).capacity, Memory::gb(24));
    assert_eq!(ram_level(10).cost, Money::dollars(3_600));
    let prices: Vec<i64> = (0..7).map(|level| electricity_cost(level).to_millicents()).collect();
    assert_eq!(prices, vec![32_000, 29_000, 25_000, 18_000, 5_000, 500, 0]);
    let cache: Vec<(i64, u32)> =
        (0..5).map(|level| (cache_reserve_multiplier(level), cache_hit_chance(level))).collect();
    assert_eq!(cache, vec![(1, 0), (4, 250), (16, 500), (18, 750), (20, 875)]);
    let shares: Vec<i64> = (0..5).map(software_memory_share).collect();
    assert_eq!(shares, vec![32, 31, 24, 20, 4]);
    let node = CloudNode::new(0);
    assert_eq!(node.time_per_request(ServiceKind::Base, 0), 5_750);
    assert_eq!(node.time_per_request(ServiceKind::Super, 1), 7_250);
    assert_eq!(node.time_per_request(ServiceKind::Epic, 2), 20_900);
    assert_eq!(node.time_per_request(ServiceKind::Awesome, 4), 80_264);
    assert_eq!(node.time_per_request_routing(), 128);
    assert_eq!(CloudNode::new_fully_upgraded(3).time_per_request(ServiceKind::Awesome, 4), 20_264);
    assert_eq!(CloudNode::new_fully_upgraded(3).time_per_request_routing(), 32);
    assert_eq!(ServiceKind::Base.mem_required(), Memory::kb(512));
    assert_eq!(ServiceKind::Super.mem_required(), Memory::kb(768));
    assert_eq!(ServiceKind::Epic.mem_required(), Memory::mb(1));
    assert_eq!(ServiceKind::Awesome.mem_required(), Memory::mb(4));
    for code in 0..4 {
        assert_eq!(ServiceKind::from_code(code).unwrap().to_code(), code);
    }
    assert_eq!(ServiceKind::from_code(2), Some(ServiceKind::Epic));
    assert_eq!(ServiceKind::from_code(4), None);
    assert_eq!(RoutingLevel::MainNode.max(RoutingLevel::Distributed), RoutingLevel::Distributed);
    assert_eq!(RoutingLevel::NoRoutingCost.max(RoutingLevel::MainNode), RoutingLevel::NoRoutingCost);
    assert_eq!(RoutingLevel::MainNode.max(RoutingLevel::MainNode), RoutingLevel::MainNode);
    assert!(is_default_routing_level(&RoutingLevel::MainNode));
    assert!(!is_default_routing_level(&RoutingLevel::Distributed));
    assert!(is_false(&false) && !is_false(&true));
    assert!(is_zero_u64(&0) && !is_zero_u64(&1));
    assert!(unlocked_default());
}

#[test]
fn node_reserves_and_releases() {
    let mut node = CloudNode::new(0);
    assert!(node.reserve_for(Memory::mb(32)));
    assert_eq!((node.ram_reserved, node.ram_usage), (Memory::mb(32), Memory::mb(32)));
    // a reservation never shrinks
    assert!(node.reserve_for(Memory::mb(16)));
    assert_eq!((node.ram_reserved, node.ram_usage), (Memory::mb(32), Memory::mb(32)));
    node.ram_usage = Memory::mb(200);
    assert!(node.reserve_for(Memory::mb(88)));
    assert_eq!((node.ram_reserved, node.ram_usage), (Memory::mb(88), Memory::mb(256)));
    assert!(!node.reserve_for(Memory::mb(89)));
    assert_eq!((node.ram_reserved, node.ram_usage), (Memory::mb(88), Memory::mb(256)));
    assert!(!node.release_excess_reserve(Memory::mb(88)));
    assert!(node.release_excess_reserve(Memory::mb(80)));
    assert_eq!((node.ram_reserved, node.ram_usage), (Memory::mb(80), Memory::mb(248)));
    node.release(Memory::mb(100));
    assert_eq!((node.ram_reserved, node.ram_usage), (Memory::mb(80), Memory::mb(148)));
    // what is reserved is not given back with the memory of a request
    node.release(Memory::mb(100));
    assert_eq!((node.ram_reserved, node.ram_usage), (Memory::mb(80), Memory::mb(80)));
    node.release_reserved();
    assert_eq!((node.ram_reserved, node.ram_usage), (Memory::zero(), Memory::zero()));
    assert!(node.check_sound());
}

#[test]
fn load_of_all_nodes() {
    let mut state = WorldState::default();
    state.nodes.push(CloudNode::new_fully_upgraded(1));
    state.nodes[0].processing = 1;
    state.nodes[1].processing = 7;
    state.nodes[1].ram_usage = Memory::gb(3);
    assert_eq!(
        state.total_processing(),
        LoadTotals {
            processing: 8,
            cores: 65,
            ram_usage: 3_000_000_000,
            ram_capacity: 64_256_000_000,
        }
    );
}

#[test]
fn chance_stays_in_its_range() {
    let mut gen = SampleGenerator::new();
    let mut seen = [false; 3];
    for _ in 0..300 {
        let n = gen.gen_range(10, 13);
        assert!((10..13).contains(&n));
        seen[(n - 10) as usize] = true;
    }
    assert_eq!(seen, [true, true, true]);
    assert_eq!(gen.gen_range(41, 42), 41);
    let mut seeded = SampleGenerator::from_seed(3);
    let mut again = SampleGenerator::from_seed(3);
    let mut other = SampleGenerator::from_seed(4);
    let a: Vec<u32> = (0..40).map(|_| seeded.gen_range(0, 1_000_000)).collect();
    let b: Vec<u32> = (0..40).map(|_| again.gen_range(0, 1_000_000)).collect();
    let c: Vec<u32> = (0..40).map(|_| other.gen_range(0, 1_000_000)).collect();
    assert_eq!(a, b);
    assert_ne!(a, c);
}

#[test]
fn trials_succeed_by_their_chance() {
    assert!(roll_hits(0, 1));
    assert!(roll_hits(749, 750));
    assert!(!roll_hits(750, 750));
    assert!(!roll_hits(0, 0));
    let mut gen = SampleGenerator::from_seed(11);
    for _ in 0..100 {
        assert!(!gen.gen_bool(0));
        assert!(gen.gen_bool(1_000));
    }
    // three in four, give or take
    let k = 2_000;
    let hits = (0..k).filter(|_| gen.gen_bool(750)).count();
    assert!(hits > 1_440 && hits < 1_560, "hit rate was {}", hits);
    let hits = (0..k).filter(|_| gen.gen_bool(400)).count();
    assert!(hits > 740 && hits < 860, "hit rate was {}", hits);
}

#[test]
fn identifiers_are_ordered_by_their_bytes() {
    assert!(comes_before("a0p", "a1"));
    assert!(comes_before("a1", "a1p"));
    assert!(comes_before("d3", "d3.5"));
    assert!(comes_before("d3.5", "d4"));
    assert!(comes_before("", "a"));
    assert!(comes_before("test-4", "win0"));
    assert!(comes_before("z", "\u{e9}"));
    assert!(!comes_before("a1", "a1"));
    assert!(!comes_before("b", "a1"));
    assert!(!comes_before("", ""));
    assert!(same_text("win9", "win9"));
    assert!(!same_text("win9", "win"));
    assert!(!same_text("win9", "win8"));
    for (a, b) in [("a", "b"), ("d3", "d3.5"), ("x", "x"), ("", "q")] {
        assert_eq!(comes_before(a, b), a < b);
        assert_eq!(comes_before(b, a), b < a);
    }
}

#[test]
fn test_gen_rate() {
    let mut gen = SampleGenerator::new();
    let k = 2_000;
    let mut sum = 0.;
    for _ in 0..k {
        if gen.gen_bool(750) {
            sum += 1.;
        }
    }
    let avg = sum / k as f64;
    // should be around 0.75
    // (the margin is generous to prevent flaky tests)
    assert!(avg > 0.72 && avg < 0.78, "hit rate was {}", avg);

    let mut sum = 0.;
    for _ in 0..k {
        if gen.gen_bool(400) {
            sum += 1.;
        }
    }
    let avg = sum / k as f64;
    // should be around 0.4
    assert!(avg > 0.37 && avg < 0.43, "hit rate was {}", avg);
}

#[test]
fn figures_are_changed_in_place() {
    let mut state = WorldState::default();
    state.nodes.push(CloudNode::new(1));
    state.service_by_kind_mut(ServiceKind::Epic).price = Money::cents(9);
    state.service_by_kind_mut(ServiceKind::Base).unlocked = false;
    assert_eq!(state.epic_service.price, Money::cents(9));
    assert!(!state.base_service.unlocked);
    assert_eq!(state.service_by_kind(ServiceKind::Epic), state.epic_service);
    assert_eq!(state.super_service, WorldState::default().super_service);
    state.node_mut(1).unwrap().processing = 1;
    assert_eq!(state.nodes[1].processing, 1);
    assert_eq!(state.nodes[0].processing, 0);
    assert!(state.node_mut(2).is_none());
    assert_eq!(state.node_index(1), Some(1));
    assert_eq!(state.node_index(2), None);
}

#[test]
fn engine_rolls_are_the_picks_of_its_seed() {
    let mut state = WorldState::default();
    for id in 1..7 {
        state.nodes.push(CloudNode::new(id));
    }
    let mut engine = GameEngine::with_seed(77);
    let mut gen = SampleGenerator::from_seed(77);
    let mut targets = Vec::new();
    for _ in 0..20 {
        let rolls = engine.roll_routed(&state);
        assert_eq!(rolls.spam, gen.gen_range(0, 1_000));
        assert_eq!(rolls.target, gen.gen_range(0, 7));
        assert_eq!(rolls.cache, gen.gen_range(0, 1_000));
        targets.push(rolls.target);
    }
    // the picks move on along the stream: they are not all the same
    assert!(targets.iter().any(|&t| t != targets[0]));
    // another seed, another stream
    let mut other = GameEngine::with_seed(78);
    let others: Vec<u32> = (0..20).map(|_| other.roll_routed(&state).target).collect();
    assert_ne!(targets, others);
}

//! Compute nodes: their cores and memory, and the work that waits in them.

use std::collections::VecDeque;
use vstd::prelude::*;

use crate::memory::Memory;
use crate::money::Money;
use crate::service::ServiceKind;
use crate::Time;

verus! {

/// The highest level that a node's CPU can be upgraded to.
pub const MAX_CPU_LEVEL: u8 = 10;

/// The highest level that a node's RAM can be upgraded to.
pub const MAX_RAM_LEVEL: u8 = 10;

/// How many nodes one rack holds.
pub const RACK_CAPACITY: u32 = 4;

/// How long a request waits in a node before it is given up, in time units.
pub const REQUEST_TIMEOUT: u64 = 240_000;

/// What a CPU level gives, and what it costs to reach it from the level
/// below.
#[derive(Debug, Clone, Copy, PartialEq, Eq, Structural)]
pub struct CpuLevel {
    /// how many requests the node runs side by side
    pub cores: u32,
    /// the base requests that one core fulfils in a unit of work
    pub speed: u32,
    pub cost: Money,
}

/// What a RAM level gives, and what it costs to reach it from the level
/// below.
#[derive(Debug, Clone, Copy, PartialEq, Eq, Structural)]
pub struct RamLevel {
    pub capacity: Memory,
    pub cost: Money,
}

/// The CPU levels, the one that a new node has first.
pub open spec fn cpu_levels() -> Seq<CpuLevel> {
    seq![
        CpuLevel { cores: 1, speed: 2, cost: Money(0) },
        CpuLevel { cores: 2, speed: 2, cost: Money(6_000_000) },
        CpuLevel { cores: 3, speed: 2, cost: Money(16_000_000) },
        CpuLevel { cores: 4, speed: 3, cost: Money(36_000_000) },
        CpuLevel { cores: 6, speed: 3, cost: Money(85_000_000) },
        CpuLevel { cores: 8, speed: 4, cost: Money(198_000_000) },
        CpuLevel { cores: 16, speed: 4, cost: Money(300_000_000) },
        CpuLevel { cores: 24, speed: 5, cost: Money(540_000_000) },
        CpuLevel { cores: 32, speed: 6, cost: Money(820_000_000) },
        CpuLevel { cores: 48, speed: 7, cost: Money(1_400_000_000) },
        CpuLevel { cores: 64, speed: 8, cost: Money(2_500_000_000) },
    ]
}

/// The RAM levels, the one that a new node has first.
pub open spec fn ram_levels() -> Seq<RamLevel> {
    seq![
        RamLevel { capacity: Memory(256_000_000), cost: Money(0) },
        RamLevel { capacity: Memory(512_000_000), cost: Money(4_000_000) },
        RamLevel { capacity: Memory(1_000_000_000), cost: Money(6_000_000) },
        RamLevel { capacity: Memory(2_000_000_000), cost: Money(10_000_000) },
        RamLevel { capacity: Memory(4_000_000_000), cost: Money(18_000_000) },
        RamLevel { capacity: Memory(8_000_000_000), cost: Money(32_000_000) },
        RamLevel { capacity: Memory(16_000_000_000), cost: Money(66_000_000) },
        RamLevel { capacity: Memory(24_000_000_000), cost: Money(90_000_000) },
        RamLevel { capacity: Memory(32_000_000_000), cost: Money(120_000_000) },
        RamLevel { capacity: Memory(48_000_000_000), cost: Money(200_000_000) },
        RamLevel { capacity: Memory(64_000_000_000), cost: Money(360_000_000) },
    ]
}

/// The entry of [`cpu_levels`] for `level`.
pub fn cpu_level(level: u8) -> (entry: CpuLevel)
    requires
        level <= MAX_CPU_LEVEL,
    ensures
        entry == cpu_levels()[level as int],
{
    match level {
        0 => CpuLevel { cores: 1, speed: 2, cost: Money::dollars(0) },
        1 => CpuLevel { cores: 2, speed: 2, cost: Money::dollars(60) },
        2 => CpuLevel { cores: 3, speed: 2, cost: Money::dollars(160) },
        3 => CpuLevel { cores: 4, speed: 3, cost: Money::dollars(360) },
        4 => CpuLevel { cores: 6, speed: 3, cost: Money::dollars(850) },
        5 => CpuLevel { cores: 8, speed: 4, cost: Money::dollars(1_980) },
        6 => CpuLevel { cores: 16, speed: 4, cost: Money::dollars(3_000) },
        7 => CpuLevel { cores: 24, speed: 5, cost: Money::dollars(5_400) },
        8 => CpuLevel { cores: 32, speed: 6, cost: Money::dollars(8_200) },
        9 => CpuLevel { cores: 48, speed: 7, cost: Money::dollars(14_000) },
        _ => CpuLevel { cores: 64, speed: 8, cost: Money::dollars(25_000) },
    }
}

/// The entry of [`ram_levels`] for `level`.
pub fn ram_level(level: u8) -> (entry: RamLevel)
    requires
        level <= MAX_RAM_LEVEL,
    ensures
        entry == ram_levels()[level as int],
{
    match level {
        0 => RamLevel { capacity: Memory::mb(256), cost: Money::dollars(0) },
        1 => RamLevel { capacity: Memory::mb(512), cost: Money::dollars(40) },
        2 => RamLevel { capacity: Memory::gb(1), cost: Money::dollars(60) },
        3 => RamLevel { capacity: Memory::gb(2), cost: Money::dollars(100) },
        4 => RamLevel { capacity: Memory::gb(4), cost: Money::dollars(180) },
        5 => RamLevel { capacity: Memory::gb(8), cost: Money::dollars(320) },
        6 => RamLevel { capacity: Memory::gb(16), cost: Money::dollars(660) },
        7 => RamLevel { capacity: Memory::gb(24), cost: Money::dollars(900) },
        8 => RamLevel { capacity: Memory::gb(32), cost: Money::dollars(1_200) },
        9 => RamLevel { capacity: Memory::gb(48), cost: Money::dollars(2_000) },
        _ => RamLevel { capacity: Memory::gb(64), cost: Money::dollars(3_600) },
    }
}

/// Each level gives at least what the level before it gives: the tables
/// ascend in cores, in speed and in capacity.
pub proof fn lemma_levels_ascend(lower: int, higher: int)
    requires
        0 <= lower <= higher <= 10,
    ensures
        cpu_levels()[lower].cores <= cpu_levels()[higher].cores,
        cpu_levels()[lower].speed <= cpu_levels()[higher].speed,
        ram_levels()[lower].capacity@ <= ram_levels()[higher].capacity@,
        cpu_levels()[lower].speed >= 1,
{
}

/// A request, or a set of requests bundled into one, that waits for a free
/// core in a node.
#[derive(Debug, Clone, Copy, PartialEq, Eq, Structural)]
pub struct WaitingRequest {
    /// when the request came to the node
    pub timestamp: Time,
    /// how many requests are bundled into this one
    pub amount: u32,
    /// the cohort that the request comes from, or `None` where the player
    /// asked for it
    pub user_spec_id: Option<u32>,
    pub service: ServiceKind,
    /// the memory that the request holds while it waits and runs
    pub mem_required: Memory,
}

/// A compute node and its load.
#[derive(Debug, Clone, PartialEq)]
pub struct CloudNode {
    /// the number by which the node is found
    pub id: u32,
    /// the level of the CPU (see [`cpu_levels`])
    pub cpu_level: u8,
    /// the level of the RAM (see [`ram_levels`])
    pub ram_level: u8,
    /// how many requests the node runs side by side
    pub num_cores: u32,
    /// how much memory the node has
    pub ram_capacity: Memory,
    /// the base speed of a core; requests of higher tiers run slower
    pub cpu_speed: u32,
    /// how many requests run on the node right now (not persisted)
    pub processing: u32,
    /// the memory in use, the reserved part included (not persisted)
    pub ram_usage: Memory,
    /// the part of the memory in use that is reserved (not persisted)
    pub ram_reserved: Memory,
    /// the requests that hold memory and wait for a core, the oldest first
    /// (not persisted)
    pub requests: VecDeque<WaitingRequest>,
}

/// A rack of nodes.
#[derive(Debug)]
pub struct CloudRack {
    pub nodes: Vec<CloudNode>,
    /// how many nodes the rack holds at most
    pub capacity: u8,
}

/// Whether a request that came at `timestamp` has waited too long at `time`.
pub open spec fn timed_out(timestamp: Time, time: Time) -> bool {
    timestamp + REQUEST_TIMEOUT < time
}

/// The requests of `requests` that have not timed out at `time`, in their
/// order.
pub open spec fn still_waiting(requests: Seq<WaitingRequest>, time: Time) -> Seq<WaitingRequest> {
    requests.filter(|r: WaitingRequest| !timed_out(r.timestamp, time))
}

/// The operations that the timed-out requests of `requests` stand for.
pub open spec fn timed_out_amount(requests: Seq<WaitingRequest>, time: Time) -> nat
    decreases requests.len(),
{
    if requests.len() == 0 {
        0
    } else {
        timed_out_amount(requests.drop_last(), time) + if timed_out(
            requests.last().timestamp,
            time,
        ) {
            requests.last().amount as nat
        } else {
            0
        }
    }
}

/// The memory that the timed-out requests of `requests` hold; a request
/// that claims to hold less than nothing holds nothing.
pub open spec fn timed_out_memory(requests: Seq<WaitingRequest>, time: Time) -> nat
    decreases requests.len(),
{
    if requests.len() == 0 {
        0
    } else {
        timed_out_memory(requests.drop_last(), time) + if timed_out(
            requests.last().timestamp,
            time,
        ) && requests.last().mem_required@ > 0 {
            requests.last().mem_required@ as nat
        } else {
            0
        }
    }
}

/// The time that one request of a tier takes on a core of speed
/// `cpu_speed`, with the service software at `software_level`.
pub open spec fn request_time(cpu_speed: int, service: ServiceKind, software_level: int) -> int {
    let factor: int = match service {
        ServiceKind::Base => 1,
        ServiceKind::Super => 4,
        ServiceKind::Epic => 16,
        ServiceKind::Awesome => 64,
    };
    2_500 * factor / cpu_speed + 4_500int / (software_level * software_level + 1)
}

impl CloudNode {
    /// Whether the node's figures fit together: its levels are in the
    /// tables, its cores have a speed, no more requests run than it has
    /// cores, and the memory in use holds the reserved memory and is held by
    /// the capacity.
    pub open spec fn is_sound(&self) -> bool {
        &&& self.cpu_level <= MAX_CPU_LEVEL
        &&& self.ram_level <= MAX_RAM_LEVEL
        &&& self.cpu_speed >= 1
        &&& self.processing <= self.num_cores
        &&& 0 <= self.ram_reserved@ <= self.ram_usage@ <= self.ram_capacity@
    }

    /// The cores that the node may use: all of them, or a quarter while power
    /// is being saved.
    pub open spec fn effective_cores(&self, powersave: bool) -> int {
        if powersave {
            self.num_cores as int / 4
        } else {
            self.num_cores as int
        }
    }

    /// The node as it was but for its load, which may have changed.
    pub open spec fn same_hardware(&self, before: &CloudNode) -> bool {
        &&& self.id == before.id
        &&& self.cpu_level == before.cpu_level
        &&& self.ram_level == before.ram_level
        &&& self.num_cores == before.num_cores
        &&& self.ram_capacity == before.ram_capacity
        &&& self.cpu_speed == before.cpu_speed
    }

    /// Checks [`CloudNode::is_sound`].
    pub fn check_sound(&self) -> (ok: bool)
        ensures
            ok == self.is_sound(),
    {
        self.cpu_level <= MAX_CPU_LEVEL && self.ram_level <= MAX_RAM_LEVEL && self.cpu_speed >= 1
            && self.processing <= self.num_cores && 0 <= self.ram_reserved.0
            && self.ram_reserved.0 <= self.ram_usage.0 && self.ram_usage.0
            <= self.ram_capacity.0
    }

    /// A node at the first level of CPU and RAM, with no load.
    pub fn new(id: u32) -> (node: Self)
        ensures
            node.id == id,
            node.cpu_level == 0,
            node.ram_level == 0,
            node.num_cores == cpu_levels()[0].cores,
            node.cpu_speed == cpu_levels()[0].speed,
            node.ram_capacity == ram_levels()[0].capacity,
            node.processing == 0,
            node.ram_usage@ == 0,
            node.ram_reserved@ == 0,
            node.requests@.len() == 0,
            node.is_sound(),
    {
        CloudNode {
            id,
            cpu_level: 0,
            ram_level: 0,
            num_cores: cpu_level(0).cores,
            ram_capacity: ram_level(0).capacity,
            cpu_speed: cpu_level(0).speed,
            processing: 0,
            ram_usage: Memory::zero(),
            ram_reserved: Memory::zero(),
            requests: VecDeque::new(),
        }
    }

    /// A node at the last level of CPU and RAM, with no load.
    pub fn new_fully_upgraded(id: u32) -> (node: Self)
        ensures
            node.id == id,
            node.cpu_level == MAX_CPU_LEVEL,
            node.ram_level == MAX_RAM_LEVEL,
            node.num_cores == cpu_levels()[10].cores,
            node.cpu_speed == cpu_levels()[10].speed,
            node.ram_capacity == ram_levels()[10].capacity,
            node.processing == 0,
            node.ram_usage@ == 0,
            node.ram_reserved@ == 0,
            node.requests@.len() == 0,
            node.is_sound(),
    {
        CloudNode {
            id,
            cpu_level: MAX_CPU_LEVEL,
            ram_level: MAX_RAM_LEVEL,
            num_cores: cpu_level(MAX_CPU_LEVEL).cores,
            ram_capacity: ram_level(MAX_RAM_LEVEL).capacity,
            cpu_speed: cpu_level(MAX_CPU_LEVEL).speed,
            processing: 0,
            ram_usage: Memory::zero(),
            ram_reserved: Memory::zero(),
            requests: VecDeque::new(),
        }
    }

    /// A node with the cores and the memory of a rack of fully upgraded
    /// nodes, with no load.
    pub fn new_fully_upgraded_rack(id: u32) -> (node: Self)
        ensures
            node.id == id,
            node.cpu_level == MAX_CPU_LEVEL,
            node.ram_level == MAX_RAM_LEVEL,
            node.num_cores == cpu_levels()[10].cores * RACK_CAPACITY,
            node.cpu_speed == cpu_levels()[10].speed,
            node.ram_capacity@ == ram_levels()[10].capacity@ * RACK_CAPACITY,
            node.processing == 0,
            node.ram_usage@ == 0,
            node.ram_reserved@ == 0,
            node.requests@.len() == 0,
            node.is_sound(),
    {
        CloudNode {
            id,
            cpu_level: MAX_CPU_LEVEL,
            ram_level: MAX_RAM_LEVEL,
            num_cores: cpu_level(MAX_CPU_LEVEL).cores * RACK_CAPACITY,
            ram_capacity: Memory(ram_level(MAX_RAM_LEVEL).capacity.0 * 4),
            cpu_speed: cpu_level(MAX_CPU_LEVEL).speed,
            processing: 0,
            ram_usage: Memory::zero(),
            ram_reserved: Memory::zero(),
            requests: VecDeque::new(),
        }
    }

    /// The time units that the node needs for one request of a tier.
    pub fn time_per_request(&self, service: ServiceKind, software_level: u8) -> (time: u32)
        requires
            self.cpu_speed >= 1,
        ensures
            time == request_time(self.cpu_speed as int, service, software_level as int),
            time <= 164_500,
    {
        let factor: u32 = match service {
            ServiceKind::Base => 1,
            ServiceKind::Super => 4,
            ServiceKind::Epic => 16,
            ServiceKind::Awesome => 64,
        };
        let software: u32 = software_level as u32;
        assert(software * software <= 65_025) by (nonlinear_arith)
            requires
                software <= 255,
        ;
        proof {
            let work: int = 2_500 * factor;
            let speed: int = self.cpu_speed as int;
            let slack: int = software * software + 1;
            assert(work / speed <= work) by (nonlinear_arith)
                requires
                    work >= 0,
                    speed >= 1,
            ;
            assert(4_500int / slack <= 4_500) by (nonlinear_arith)
                requires
                    slack >= 1,
            ;
        }
        2_500 * factor / self.cpu_speed + (4_500 / (software * software + 1))
    }

    /// The time units that the node needs to route one request.
    pub fn time_per_request_routing(&self) -> (time: u32)
        requires
            self.cpu_speed >= 1,
        ensures
            time == 256int / (self.cpu_speed as int),
    {
        256 / self.cpu_speed
    }

    /// What the next CPU level costs, or `None` at the last level.
    pub fn next_cpu_upgrade_cost(&self) -> (cost: Option<Money>)
        ensures
            self.cpu_level < MAX_CPU_LEVEL ==> cost == Some(cpu_levels()[self.cpu_level + 1].cost),
            self.cpu_level >= MAX_CPU_LEVEL ==> cost is None,
    {
        if self.cpu_level < MAX_CPU_LEVEL {
            Some(cpu_level(self.cpu_level + 1).cost)
        } else {
            None
        }
    }

    /// What the next RAM level costs, or `None` at the last level.
    pub fn next_ram_upgrade_cost(&self) -> (cost: Option<Money>)
        ensures
            self.ram_level < MAX_RAM_LEVEL ==> cost == Some(ram_levels()[self.ram_level + 1].cost),
            self.ram_level >= MAX_RAM_LEVEL ==> cost is None,
    {
        if self.ram_level < MAX_RAM_LEVEL {
            Some(ram_level(self.ram_level + 1).cost)
        } else {
            None
        }
    }

    /// Makes sure that at least `memory` is reserved. The reservation grows
    /// where it was smaller and the node has the room; it never shrinks.
    /// Gives `false`, and changes nothing, where the node lacks the room.
    pub fn reserve_for(&mut self, memory: Memory) -> (reserved: bool)
        requires
            old(self).is_sound(),
        ensures
            final(self).is_sound(),
            final(self).same_hardware(old(self)),
            final(self).processing == old(self).processing,
            final(self).requests == old(self).requests,
            reserved == (memory@ <= old(self).ram_capacity@ + old(self).ram_reserved@ - old(
                self,
            ).ram_usage@),
            !reserved ==> *final(self) == *old(self),
            reserved ==> final(self).ram_reserved@ == if old(self).ram_reserved@ < memory@ {
                memory@
            } else {
                old(self).ram_reserved@
            },
            final(self).ram_usage@ - final(self).ram_reserved@ == old(self).ram_usage@ - old(
                self,
            ).ram_reserved@,
    {
        let available: i64 = self.ram_capacity.0 - self.ram_usage.0 + self.ram_reserved.0;
        if available < memory.0 {
            false
        } else {
            if self.ram_reserved.0 < memory.0 {
                self.release_reserved();
                self.ram_reserved = memory;
                self.ram_usage = Memory(self.ram_usage.0 + memory.0);
            }
            true
        }
    }

    /// Gives the reserved memory back.
    pub fn release_reserved(&mut self)
        requires
            old(self).is_sound(),
        ensures
            final(self).is_sound(),
            final(self).ram_reserved@ == 0,
            final(self).ram_usage@ == old(self).ram_usage@ - old(self).ram_reserved@,
            final(self).same_hardware(old(self)),
            final(self).processing == old(self).processing,
            final(self).requests == old(self).requests,
    {
        self.ram_usage = Memory(self.ram_usage.0 - self.ram_reserved.0);
        self.ram_reserved = Memory::zero();
    }

    /// Gives back what is reserved beyond `maximum_reserve`, and says
    /// whether there was anything to give back.
    pub fn release_excess_reserve(&mut self, maximum_reserve: Memory) -> (released: bool)
        requires
            old(self).is_sound(),
            maximum_reserve@ >= 0,
        ensures
            final(self).is_sound(),
            released == (old(self).ram_reserved@ > maximum_reserve@),
            !released ==> *final(self) == *old(self),
            released ==> final(self).ram_reserved == maximum_reserve,
            final(self).ram_usage@ - final(self).ram_reserved@ == old(self).ram_usage@ - old(
                self,
            ).ram_reserved@,
            final(self).same_hardware(old(self)),
            final(self).processing == old(self).processing,
            final(self).requests == old(self).requests,
    {
        if self.ram_reserved.0 > maximum_reserve.0 {
            let excess: i64 = self.ram_reserved.0 - maximum_reserve.0;
            self.ram_reserved = maximum_reserve;
            self.ram_usage = Memory(self.ram_usage.0 - excess);
            true
        } else {
            false
        }
    }

    /// Gives back `memory` that a request held, but never part of the
    /// reservation: no more than the node uses beyond what it has reserved.
    pub fn release(&mut self, memory: Memory)
        requires
            old(self).is_sound(),
        ensures
            final(self).is_sound(),
            final(self).ram_usage@ == if memory@ <= 0 {
                old(self).ram_usage@
            } else if old(self).ram_usage@ - memory@ < old(self).ram_reserved@ {
                old(self).ram_reserved@
            } else {
                old(self).ram_usage@ - memory@
            },
            final(self).ram_reserved == old(self).ram_reserved,
            final(self).same_hardware(old(self)),
            final(self).processing == old(self).processing,
            final(self).requests == old(self).requests,
    {
        if memory.0 > 0 {
            let held: i64 = self.ram_usage.0 - self.ram_reserved.0;
            if memory.0 > held {
                self.ram_usage = self.ram_reserved;
            } else {
                self.ram_usage = Memory(self.ram_usage.0 - memory.0);
            }
        }
    }

    /// Whether the node has no core left for another request.
    pub fn is_busy(&self, powersave: bool) -> (busy: bool)
        ensures
            busy == (self.processing >= self.effective_cores(powersave)),
    {
        if powersave {
            self.processing >= self.num_cores / 4
        } else {
            self.processing >= self.num_cores
        }
    }

    /// How many cores are left for more requests.
    pub fn free_cores(&self, powersave: bool) -> (free: u32)
        ensures
            free == if self.processing >= self.effective_cores(powersave) {
                0
            } else {
                self.effective_cores(powersave) - self.processing
            },
    {
        if powersave {
            (self.num_cores / 4).saturating_sub(self.processing)
        } else {
            self.num_cores.saturating_sub(self.processing)
        }
    }

    /// Gives up the waiting requests that have timed out at `time`, and
    /// gives their memory back. Returns the operations that they stood for
    /// (held at the largest number that can be represented).
    pub fn clear_timedout_requests(&mut self, time: u64) -> (dropped: u64)
        requires
            old(self).is_sound(),
        ensures
            final(self).is_sound(),
            final(self).same_hardware(old(self)),
            final(self).processing == old(self).processing,
            final(self).ram_reserved == old(self).ram_reserved,
            final(self).requests@ == still_waiting(old(self).requests@, time),
            dropped == if timed_out_amount(old(self).requests@, time) > u64::MAX {
                u64::MAX as int
            } else {
                timed_out_amount(old(self).requests@, time) as int
            },
            final(self).ram_usage@ == if old(self).ram_usage@ - timed_out_memory(
                old(self).requests@,
                time,
            ) < old(self).ram_reserved@ {
                old(self).ram_reserved@
            } else {
                old(self).ram_usage@ - timed_out_memory(old(self).requests@, time)
            },
    {
        let mut dropped: u64 = 0;
        let mut kept: VecDeque<WaitingRequest> = VecDeque::new();
        let count: usize = self.requests.len();
        let mut i: usize = 0;
        proof {
            reveal(Seq::filter);
            assert(old(self).requests@.take(0) =~= Seq::<WaitingRequest>::empty());
        }
        while i < count
            invariant
                0 <= i <= count,
                count == self.requests@.len(),
                self.requests == old(self).requests,
                self.is_sound(),
                self.same_hardware(old(self)),
                self.processing == old(self).processing,
                self.ram_reserved == old(self).ram_reserved,
                kept@ == still_waiting(self.requests@.take(i as int), time),
                dropped == if timed_out_amount(self.requests@.take(i as int), time) > u64::MAX {
                    u64::MAX as int
                } else {
                    timed_out_amount(self.requests@.take(i as int), time) as int
                },
                self.ram_usage@ == if old(self).ram_usage@ - timed_out_memory(
                    self.requests@.take(i as int),
                    time,
                ) < self.ram_reserved@ {
                    self.ram_reserved@
                } else {
                    old(self).ram_usage@ - timed_out_memory(self.requests@.take(i as int), time)
                },
            decreases count - i,
        {
            let request: WaitingRequest = self.requests[i];
            proof {
                reveal(Seq::filter);
                let next = self.requests@.take(i as int + 1);
                assert(next.drop_last() =~= self.requests@.take(i as int));
                assert(next.last() == request);
            }
            if time > REQUEST_TIMEOUT && request.timestamp < time - REQUEST_TIMEOUT {
                self.release(request.mem_required);
                dropped = dropped.saturating_add(request.amount as u64);
            } else {
                kept.push_back(request);
            }
            i = i + 1;
        }
        assert(self.requests@.take(count as int) =~= self.requests@);
        self.requests = kept;
        dropped
    }
}

/// What a node does with a request that is handed to it.
#[derive(Debug, Clone, Copy, PartialEq, Eq, Structural)]
pub enum Admission {
    /// The node cannot reserve the memory that the tier needs: the request
    /// is dropped.
    NoReserve,
    /// The node lacks the memory for the request itself: the request is
    /// dropped.
    NoMemory,
    /// A core was free: the request runs.
    Started,
    /// No core was free: the request holds its memory and waits.
    Queued,
}

/// The time that `amount` requests of a tier take on a core: the time of
/// one request for each of them, four times as long while power is being
/// saved, and a twentieth of that, but no less than one time unit, where
/// the cache is hit. The time is held at the longest that can be
/// represented.
pub open spec fn processing_duration(
    cpu_speed: int,
    service: ServiceKind,
    software_level: int,
    amount: int,
    powersave: bool,
    cache_hit: bool,
) -> int {
    let plain = request_time(cpu_speed, service, software_level) * amount;
    let slowed = if powersave {
        plain * 4
    } else {
        plain
    };
    let held = if slowed > u32::MAX {
        u32::MAX as int
    } else {
        slowed
    };
    if cache_hit {
        if held / 20 < 1 {
            1
        } else {
            held / 20
        }
    } else {
        held
    }
}

/// The time that routing `amount` requests takes on a core, held at the
/// longest that can be represented.
pub open spec fn routing_duration(cpu_speed: int, amount: int) -> int {
    if (256int / cpu_speed) * amount > u32::MAX {
        u32::MAX as int
    } else {
        (256int / cpu_speed) * amount
    }
}

/// The memory that `amount` requests of a tier hold.
pub open spec fn memory_for(service: ServiceKind, amount: int) -> int {
    crate::service::service_mem_required(service) * amount
}

impl CloudNode {
    /// Whether the node has room to have `reserve` reserved.
    pub open spec fn can_reserve(&self, reserve: int) -> bool {
        reserve <= self.ram_capacity@ + self.ram_reserved@ - self.ram_usage@
    }

    /// What is reserved once at least `reserve` is.
    pub open spec fn reserved_with(&self, reserve: int) -> int {
        if self.ram_reserved@ < reserve {
            reserve
        } else {
            self.ram_reserved@
        }
    }

    /// What the node does with a request that needs `reserve` reserved and
    /// holds `memory` itself.
    pub open spec fn admission_of(&self, reserve: int, memory: int, powersave: bool) -> Admission {
        if !self.can_reserve(reserve) {
            Admission::NoReserve
        } else if memory > self.ram_capacity@ - (self.ram_usage@ - self.ram_reserved@
            + self.reserved_with(reserve)) {
            Admission::NoMemory
        } else if self.processing < self.effective_cores(powersave) {
            Admission::Started
        } else {
            Admission::Queued
        }
    }

    /// Whether `after` is this node after it was handed `request`, which
    /// needs `reserve` reserved, with the outcome `admission`.
    pub open spec fn took_in(
        &self,
        after: &CloudNode,
        reserve: int,
        request: WaitingRequest,
        admission: Admission,
    ) -> bool {
        &&& after.same_hardware(self)
        &&& after.ram_reserved@ == if admission is NoReserve {
            self.ram_reserved@
        } else {
            self.reserved_with(reserve)
        }
        &&& after.ram_usage@ - after.ram_reserved@ == self.ram_usage@ - self.ram_reserved@ + (
        if admission is Started || admission is Queued {
            request.mem_required@
        } else {
            0
        })
        &&& after.processing == self.processing + if admission is Started {
            1int
        } else {
            0
        }
        &&& after.requests@ == if admission is Queued {
            self.requests@.push(request)
        } else {
            self.requests@
        }
    }

    /// Hands `request` to the node. The node first grows its reservation to
    /// `reserve`, then takes the memory of the request, then gives the
    /// request a core or lets it wait; where the memory for one of the first
    /// two is lacking the request is not taken.
    pub fn take_in(&mut self, reserve: Memory, request: WaitingRequest, powersave: bool) -> (admission:
        Admission)
        requires
            old(self).is_sound(),
            request.mem_required@ >= 0,
        ensures
            final(self).is_sound(),
            admission == old(self).admission_of(reserve@, request.mem_required@, powersave),
            old(self).took_in(final(self), reserve@, request, admission),
    {
        if !self.reserve_for(reserve) {
            return Admission::NoReserve;
        }
        if request.mem_required.0 > self.ram_capacity.0 - self.ram_usage.0 {
            return Admission::NoMemory;
        }
        self.ram_usage = Memory(self.ram_usage.0 + request.mem_required.0);
        if self.free_cores(powersave) >= 1 {
            self.processing = self.processing + 1;
            Admission::Started
        } else {
            self.requests.push_back(request);
            Admission::Queued
        }
    }

    /// Computes [`processing_duration`] for this node.
    pub fn processing_time(
        &self,
        service: ServiceKind,
        software_level: u8,
        amount: u32,
        powersave: bool,
        cache_hit: bool,
    ) -> (duration: u32)
        requires
            self.cpu_speed >= 1,
        ensures
            duration == processing_duration(
                self.cpu_speed as int,
                service,
                software_level as int,
                amount as int,
                powersave,
                cache_hit,
            ),
    {
        let each: u64 = self.time_per_request(service, software_level) as u64;
        assert(each * amount <= 164_500 * 0xffff_ffff) by (nonlinear_arith)
            requires
                0 <= each <= 164_500,
                0 <= amount <= 0xffff_ffff,
        ;
        let plain: u64 = each * (amount as u64);
        let slowed: u64 = if powersave {
            plain * 4
        } else {
            plain
        };
        let held: u32 = if slowed > u32::MAX as u64 {
            u32::MAX
        } else {
            slowed as u32
        };
        if cache_hit {
            if held / 20 < 1 {
                1
            } else {
                held / 20
            }
        } else {
            held
        }
    }

    /// Computes [`routing_duration`] for this node.
    pub fn routing_time(&self, amount: u32) -> (duration: u32)
        requires
            self.cpu_speed >= 1,
        ensures
            duration == routing_duration(self.cpu_speed as int, amount as int),
    {
        let each: u64 = self.time_per_request_routing() as u64;
        assert(each * amount <= 256 * 0xffff_ffff) by (nonlinear_arith)
            requires
                0 <= each <= 256,
                0 <= amount <= 0xffff_ffff,
        ;
        let duration: u64 = each * (amount as u64);
        if duration > u32::MAX as u64 {
            u32::MAX
        } else {
            duration as u32
        }
    }
}

} // verus!

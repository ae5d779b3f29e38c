//! The simulation core of a game in which the player runs a cloud
//! computing business: requests arrive, are routed to compute nodes with
//! finite cores and memory, are processed and billed, while a virtual clock
//! advances.
//!
//! The state of a game is a [`WorldState`]; a [`GameEngine`] holds the
//! pending request events and carries each request through its stages:
//! it arrives, it is routed, it is processed. The host of the game ticks
//! the clock with [`GameEngine::update`], hands the actions of the player
//! to [`GameEngine::apply_action`], and samples the time between two
//! requests of a cohort, which the engine asks for whenever it needs one.
//!
//! All quantities are whole numbers. Money is counted in millicents, memory
//! in bytes, and time in time units, ten to the millisecond. Demand is
//! counted in thousandths of a request per second, a chance in thousandths,
//! and electricity in hundredths of a milliWattever. Sums that outgrow their
//! type stop at its ends.

use vstd::prelude::*;
use vstd::std_specs::convert::FromSpecImpl;

pub mod accounting;
pub mod action;
pub mod capacity;
pub mod cards;
pub mod closed_runs;
pub mod cloud_user;
pub mod conservation;
pub mod cost;
pub mod display;
pub mod effects;
pub mod electricity;
pub mod engine;
pub mod memory;
pub mod money;
pub mod node;
pub mod ops;
pub mod pricing;
pub mod purchase;
pub mod queue;
pub mod routing;
pub mod sampling;
pub mod service;
pub mod state;
pub mod text;

pub use crate::action::PlayerAction;
pub use crate::cloud_user::{CloudClientSpec, CloudUserSpec};
pub use crate::cost::Cost;
pub use crate::engine::GameEngine;
pub use crate::memory::Memory;
pub use crate::money::Money;
pub use crate::ops::Ops;
pub use crate::sampling::SampleGenerator;
pub use crate::service::ServiceKind;
pub use crate::state::WorldState;

verus! {

/// An absolute measure of virtual time, in time units.
pub type Time = u64;

/// The milliseconds between two ticks of the game.
pub const MILLISECONDS_PER_CYCLE: u32 = 50;

/// How many time units make up one millisecond.
pub const TIME_UNITS_PER_MILLISECOND: u32 = 10;

/// How many time units pass between two ticks of the game.
pub const TIME_UNITS_PER_CYCLE: u32 = 500;

/// What the game loop reacts to.
#[derive(Debug, Clone, PartialEq)]
pub enum GameMsg {
    /// the player has done something
    Action(PlayerAction),
    /// the clock has ticked: the game goes on
    Tick,
    /// the game is to stop
    Pause,
    /// the game is to go on again
    Resume,
}

impl From<PlayerAction> for GameMsg {
    fn from(action: PlayerAction) -> (msg: Self) {
        GameMsg::Action(action)
    }
}

impl FromSpecImpl<PlayerAction> for GameMsg {
    open spec fn obeys_from_spec() -> bool {
        true
    }

    open spec fn from_spec(action: PlayerAction) -> Self {
        GameMsg::Action(action)
    }
}

} // verus!

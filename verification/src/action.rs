//! What the player can do.

use vstd::prelude::*;

use crate::money::Money;
use crate::service::ServiceKind;

verus! {

/// An action of the player that changes the game.
#[allow(inconsistent_fields)]
#[derive(Debug, Clone, PartialEq)]
pub enum PlayerAction {
    /// Ask for operations of a service by hand.
    OpClick {
        /// the service that was clicked
        kind: ServiceKind,
        /// how many operations to perform
        amount: u32,
    },
    /// Take money from the player's funds.
    Payment { amount: Money },
    /// Pay what is due for electricity.
    PayElectricityBill,
    /// Set the price of a service.
    ChangePrice { kind: ServiceKind, new_price: Money },
    /// Raise the CPU of a node by one level.
    UpgradeCpu { node: u32 },
    /// Raise the RAM of a node by one level.
    UpgradeRam { node: u32 },
    /// Buy a bare node.
    AddNode,
    /// Buy a fully upgraded node.
    AddUpgradedNode,
    /// Buy a rack of fully upgraded nodes.
    AddRack,
    /// Use a card. What the card does is found in the catalog of the cards.
    UseCard {
        /// the identifier of the card
        id: String,
    },
}

} // verus!

use vstd::prelude::*;

use crate::address::Address;

verus! {

/// What one leg of a swap is paid in: the ledger's native currency, or a
/// fungible token identified by its mint.
#[derive(Clone, Copy, Debug)]
pub enum Asset {
    Native,
    Fungible(Address),
}

impl PartialEq for Asset {
    fn eq(&self, other: &Asset) -> (r: bool) {
        match (self, other) {
            (Asset::Native, Asset::Native) => true,
            (Asset::Fungible(a), Asset::Fungible(b)) => *a == *b,
            _ => false,
        }
    }
}

impl vstd::std_specs::cmp::PartialEqSpecImpl for Asset {
    open spec fn obeys_eq_spec() -> bool {
        true
    }

    open spec fn eq_spec(&self, other: &Asset) -> bool {
        *self == *other
    }
}

impl Eq for Asset {
}

impl Asset {
    pub fn is_native(&self) -> (r: bool)
        ensures
            r == (*self is Native),
    {
        matches!(self, Asset::Native)
    }
}

/// A balance-holding account as the protocol sees it: who may sign for it,
/// which asset it holds, and how much. For the native currency this is the
/// party's own wallet; for a token, the party's account for that mint.
#[derive(Clone, Copy, Debug)]
pub struct Holding {
    pub owner: Address,
    pub asset: Asset,
    pub amount: u64,
}

/// One side of the exchange.
#[derive(Clone, Copy, Debug, PartialEq, Eq, Structural)]
pub enum Leg {
    Give,
    Want,
}

/// A custody endpoint: a party's holding of the asset in question, or the
/// escrow's vault for one leg. Funds leave a vault only under the escrow's
/// derived custody authority; they leave a party's holding under that
/// party's signature.
#[derive(Clone, Copy, Debug, PartialEq, Eq)]
pub enum Endpoint {
    Party(Address),
    Vault(Leg),
}

/// One step that the ledger must carry out for an operation, in order.
#[derive(Clone, Copy, Debug, PartialEq, Eq)]
pub enum Effect {
    /// Create the vault of `leg` for `asset` if it does not exist yet: a
    /// token account for a fungible asset, a funded value account for the
    /// native currency.
    OpenVault { leg: Leg, asset: Asset },
    /// Move `amount` of `asset` from one endpoint to another.
    Move { asset: Asset, from: Endpoint, to: Endpoint, amount: u64 },
    /// Close the vault of `leg`, sweeping what is left in it to `recipient`.
    CloseVault { leg: Leg, asset: Asset, recipient: Address },
    /// Close the escrow record, returning its storage deposit to `recipient`.
    CloseEscrow { recipient: Address },
}

/// The asset-kind-agnostic transfer: the same step for either kind, which
/// the ledger dispatches on `asset`.
pub fn move_asset(asset: Asset, from: Endpoint, to: Endpoint, amount: u64) -> (r: Effect)
    ensures
        r == (Effect::Move { asset, from, to, amount }),
{
    Effect::Move { asset, from, to, amount }
}

} // verus!

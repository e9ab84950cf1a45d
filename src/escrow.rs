use vstd::prelude::*;

use crate::address::Address;
use crate::asset::{move_asset, Asset, Effect, Endpoint, Holding, Leg};

verus! {

/// Why an escrow operation was refused. A refused operation changes nothing.
#[derive(Clone, Copy, Debug, PartialEq, Eq, Structural)]
pub enum EscrowError {
    InvalidAmount,
    InvalidMint,
    AlreadyDeposited,
    AlreadyTaken,
    Unauthorized,
    InsufficientBalance,
    InvalidVault,
    InvalidAccounts,
    Overflow,
    EscrowClosed,
}

/// The negotiated terms of one swap and how far it has come.
#[derive(Clone, Copy, Debug)]
pub struct Escrow {
    pub maker: Address,
    pub taker: Option<Address>,
    pub give_asset: Asset,
    pub give_amount: u64,
    pub want_asset: Asset,
    pub want_amount: u64,
    pub give_deposited: bool,
    pub want_deposited: bool,
    /// Derivation tag of the escrow's custody authority.
    pub bump: u8,
}

/// The escrow-owned account that holds one leg's locked funds.
#[derive(Clone, Copy, Debug, PartialEq, Eq, Structural)]
pub struct Vault {
    pub open: bool,
    pub balance: u64,
}

/// Whether the escrow still exists, and if not, how it ended.
#[derive(Clone, Copy, Debug, PartialEq, Eq, Structural)]
pub enum Outcome {
    Open,
    Settled,
    Cancelled,
}

/// One escrow together with the custody it controls.
#[derive(Clone, Copy, Debug)]
pub struct Swap {
    pub escrow: Escrow,
    pub give_vault: Vault,
    pub want_vault: Vault,
    pub outcome: Outcome,
}

pub open spec fn held(amount: u64) -> Vault {
    Vault { open: true, balance: amount }
}

pub open spec fn closed_vault() -> Vault {
    Vault { open: false, balance: 0 }
}

/// The vault of a leg is open, holding exactly the leg's amount, while the
/// leg is deposited and the escrow is open; otherwise it is closed and empty.
pub open spec fn vault_for(deposited: bool, outcome: Outcome, amount: u64) -> Vault {
    if deposited && outcome == Outcome::Open {
        held(amount)
    } else {
        closed_vault()
    }
}

pub open spec fn init_error(
    give_asset: Asset,
    give_amount: u64,
    want_asset: Asset,
    want_amount: u64,
) -> Option<EscrowError> {
    if give_amount == 0 || want_amount == 0 {
        Some(EscrowError::InvalidAmount)
    } else if give_asset == want_asset {
        Some(EscrowError::InvalidMint)
    } else {
        None
    }
}

/// The escrow as Initialize creates it: nothing deposited, no taker.
pub open spec fn fresh(
    maker: Address,
    give_asset: Asset,
    give_amount: u64,
    want_asset: Asset,
    want_amount: u64,
    bump: u8,
) -> Swap {
    Swap {
        escrow: Escrow {
            maker,
            taker: None,
            give_asset,
            give_amount,
            want_asset,
            want_amount,
            give_deposited: false,
            want_deposited: false,
            bump,
        },
        give_vault: closed_vault(),
        want_vault: closed_vault(),
        outcome: Outcome::Open,
    }
}

/// What is wrong, if anything, with the account a depositor pays from.
pub open spec fn source_error(
    source: Holding,
    asset: Asset,
    owner: Address,
    amount: u64,
) -> Option<EscrowError> {
    if source.asset != asset {
        Some(EscrowError::InvalidMint)
    } else if source.owner != owner {
        Some(EscrowError::Unauthorized)
    } else if source.amount < amount {
        Some(EscrowError::InsufficientBalance)
    } else {
        None
    }
}

/// What is wrong, if anything, with the account a payout goes to;
/// `missing` is the error when no account was presented.
pub open spec fn payee_error(
    payee: Option<Holding>,
    asset: Asset,
    owner: Address,
    amount: u64,
    missing: EscrowError,
) -> Option<EscrowError> {
    match payee {
        None => Some(missing),
        Some(h) => if h.asset != asset {
            Some(EscrowError::InvalidMint)
        } else if h.owner != owner {
            Some(EscrowError::InvalidAccounts)
        } else if h.amount + amount > u64::MAX {
            Some(EscrowError::Overflow)
        } else {
            None
        },
    }
}

/// Locking a leg: create its vault if absent, then move the funds in under
/// the depositor's signature.
pub open spec fn lock_plan(leg: Leg, asset: Asset, party: Address, amount: u64) -> Seq<Effect> {
    seq![
        Effect::OpenVault { leg, asset },
        Effect::Move { asset, from: Endpoint::Party(party), to: Endpoint::Vault(leg), amount },
    ]
}

/// Settlement: pay each leg out of its vault to the other party, close both
/// vaults and the escrow, all residue going to the maker.
pub open spec fn settle_plan(e: Escrow, taker: Address) -> Seq<Effect> {
    seq![
        Effect::Move {
            asset: e.give_asset,
            from: Endpoint::Vault(Leg::Give),
            to: Endpoint::Party(taker),
            amount: e.give_amount,
        },
        Effect::Move {
            asset: e.want_asset,
            from: Endpoint::Vault(Leg::Want),
            to: Endpoint::Party(e.maker),
            amount: e.want_amount,
        },
        Effect::CloseVault { leg: Leg::Give, asset: e.give_asset, recipient: e.maker },
        Effect::CloseVault { leg: Leg::Want, asset: e.want_asset, recipient: e.maker },
        Effect::CloseEscrow { recipient: e.maker },
    ]
}

impl Swap {
    /// The invariant that every reachable escrow keeps.
    pub open spec fn wf(&self) -> bool {
        let e = self.escrow;
        &&& e.give_amount > 0
        &&& e.want_amount > 0
        &&& e.give_asset != e.want_asset
        &&& (e.want_deposited <==> e.taker is Some)
        &&& self.give_vault == vault_for(e.give_deposited, self.outcome, e.give_amount)
        &&& self.want_vault == vault_for(e.want_deposited, self.outcome, e.want_amount)
        &&& (self.outcome == Outcome::Open ==> !(e.give_deposited && e.want_deposited))
        &&& (self.outcome == Outcome::Settled ==> e.give_deposited && e.want_deposited)
        &&& (self.outcome == Outcome::Cancelled ==> e.taker is None)
    }

    pub open spec fn give_error(&self, caller: Address, source: Holding) -> Option<EscrowError> {
        let e = self.escrow;
        if e.give_deposited {
            Some(EscrowError::AlreadyDeposited)
        } else if e.taker is Some {
            Some(EscrowError::AlreadyTaken)
        } else if self.outcome != Outcome::Open {
            Some(EscrowError::EscrowClosed)
        } else if caller != e.maker {
            Some(EscrowError::Unauthorized)
        } else {
            source_error(source, e.give_asset, caller, e.give_amount)
        }
    }

    pub open spec fn after_give(&self) -> Swap {
        Swap {
            escrow: Escrow { give_deposited: true, ..self.escrow },
            give_vault: held(self.escrow.give_amount),
            ..*self
        }
    }

    /// The state a DepositGive call leaves behind.
    pub open spec fn give_result(&self, caller: Address, source: Holding) -> Swap {
        if self.give_error(caller, source) is Some {
            *self
        } else {
            self.after_give()
        }
    }

    pub open spec fn want_error(
        &self,
        caller: Address,
        source: Holding,
        taker_payee: Option<Holding>,
        maker_payee: Option<Holding>,
    ) -> Option<EscrowError> {
        let e = self.escrow;
        if e.taker is Some {
            Some(EscrowError::AlreadyTaken)
        } else if e.want_deposited {
            Some(EscrowError::AlreadyDeposited)
        } else if self.outcome != Outcome::Open {
            Some(EscrowError::EscrowClosed)
        } else if source_error(source, e.want_asset, caller, e.want_amount) is Some {
            source_error(source, e.want_asset, caller, e.want_amount)
        } else if !e.give_deposited {
            None
        } else if payee_error(
            taker_payee,
            e.give_asset,
            caller,
            e.give_amount,
            EscrowError::InvalidAccounts,
        ) is Some {
            payee_error(taker_payee, e.give_asset, caller, e.give_amount, EscrowError::InvalidAccounts)
        } else {
            payee_error(maker_payee, e.want_asset, e.maker, e.want_amount, EscrowError::InvalidAccounts)
        }
    }

    /// The taker is recorded and the want leg locked; when the give leg was
    /// already locked, settlement follows at once.
    pub open spec fn after_want(&self, taker: Address) -> Swap {
        let e = Escrow { want_deposited: true, taker: Some(taker), ..self.escrow };
        if self.escrow.give_deposited {
            Swap {
                escrow: e,
                give_vault: closed_vault(),
                want_vault: closed_vault(),
                outcome: Outcome::Settled,
            }
        } else {
            Swap { escrow: e, want_vault: held(self.escrow.want_amount), ..*self }
        }
    }

    pub open spec fn want_plan(&self, taker: Address) -> Seq<Effect> {
        let e = self.escrow;
        let lock = lock_plan(Leg::Want, e.want_asset, taker, e.want_amount);
        if e.give_deposited {
            lock + settle_plan(Escrow { want_deposited: true, taker: Some(taker), ..e }, taker)
        } else {
            lock
        }
    }

    /// The state a DepositWant call leaves behind.
    pub open spec fn want_result(
        &self,
        caller: Address,
        source: Holding,
        taker_payee: Option<Holding>,
        maker_payee: Option<Holding>,
    ) -> Swap {
        if self.want_error(caller, source, taker_payee, maker_payee) is Some {
            *self
        } else {
            self.after_want(caller)
        }
    }

    pub open spec fn cancel_error(&self, caller: Address, refund_to: Option<Holding>) -> Option<
        EscrowError,
    > {
        let e = self.escrow;
        if caller != e.maker {
            Some(EscrowError::Unauthorized)
        } else if e.taker is Some {
            Some(EscrowError::AlreadyTaken)
        } else if self.outcome != Outcome::Open {
            Some(EscrowError::EscrowClosed)
        } else if e.give_deposited {
            payee_error(refund_to, e.give_asset, e.maker, e.give_amount, EscrowError::InvalidVault)
        } else {
            None
        }
    }

    pub open spec fn after_cancel(&self) -> Swap {
        Swap { give_vault: closed_vault(), outcome: Outcome::Cancelled, ..*self }
    }

    /// Cancelling refunds the give leg, if it was locked, and closes its
    /// vault; the escrow record is closed either way.
    pub open spec fn cancel_plan(&self) -> Seq<Effect> {
        let e = self.escrow;
        if e.give_deposited {
            seq![
                Effect::Move {
                    asset: e.give_asset,
                    from: Endpoint::Vault(Leg::Give),
                    to: Endpoint::Party(e.maker),
                    amount: e.give_amount,
                },
                Effect::CloseVault { leg: Leg::Give, asset: e.give_asset, recipient: e.maker },
                Effect::CloseEscrow { recipient: e.maker },
            ]
        } else {
            seq![Effect::CloseEscrow { recipient: e.maker }]
        }
    }

    /// The state a Cancel call leaves behind.
    pub open spec fn cancel_result(&self, caller: Address, refund_to: Option<Holding>) -> Swap {
        if self.cancel_error(caller, refund_to) is Some {
            *self
        } else {
            self.after_cancel()
        }
    }
}

fn check_source(source: &Holding, asset: Asset, owner: Address, amount: u64) -> (r: Option<
    EscrowError,
>)
    ensures
        r == source_error(*source, asset, owner, amount),
{
    if !(source.asset == asset) {
        Some(EscrowError::InvalidMint)
    } else if !(source.owner == owner) {
        Some(EscrowError::Unauthorized)
    } else if source.amount < amount {
        Some(EscrowError::InsufficientBalance)
    } else {
        None
    }
}

fn check_payee(
    payee: &Option<Holding>,
    asset: Asset,
    owner: Address,
    amount: u64,
    missing: EscrowError,
) -> (r: Option<EscrowError>)
    ensures
        r == payee_error(*payee, asset, owner, amount, missing),
{
    match payee {
        None => Some(missing),
        Some(h) => {
            if !(h.asset == asset) {
                Some(EscrowError::InvalidMint)
            } else if !(h.owner == owner) {
                Some(EscrowError::InvalidAccounts)
            } else if h.amount > u64::MAX - amount {
                Some(EscrowError::Overflow)
            } else {
                None
            }
        },
    }
}

fn lock(leg: Leg, asset: Asset, party: Address, amount: u64) -> (plan: Vec<Effect>)
    ensures
        plan@ == lock_plan(leg, asset, party, amount),
{
    let mut plan: Vec<Effect> = Vec::new();
    plan.push(Effect::OpenVault { leg, asset });
    plan.push(move_asset(asset, Endpoint::Party(party), Endpoint::Vault(leg), amount));
    proof {
        assert(plan@ =~= lock_plan(leg, asset, party, amount));
    }
    plan
}

fn expected_vault(deposited: bool, outcome: Outcome, amount: u64) -> (v: Vault)
    ensures
        v == vault_for(deposited, outcome, amount),
{
    if deposited && outcome == Outcome::Open {
        Vault { open: true, balance: amount }
    } else {
        Vault { open: false, balance: 0 }
    }
}

impl Swap {
    /// Initialize: record the terms of a new escrow. Both amounts must be
    /// positive and the two assets must differ.
    pub fn initialize(
        maker: Address,
        give_asset: Asset,
        give_amount: u64,
        want_asset: Asset,
        want_amount: u64,
        bump: u8,
    ) -> (r: Result<Swap, EscrowError>)
        ensures
            match r {
                Ok(s) => {
                    &&& init_error(give_asset, give_amount, want_asset, want_amount) is None
                    &&& s == fresh(maker, give_asset, give_amount, want_asset, want_amount, bump)
                    &&& s.wf()
                    &&& !s.escrow.give_deposited
                    &&& !s.escrow.want_deposited
                    &&& s.escrow.taker is None
                },
                Err(e) => init_error(give_asset, give_amount, want_asset, want_amount) == Some(e),
            },
    {
        if give_amount == 0 || want_amount == 0 {
            return Err(EscrowError::InvalidAmount);
        }
        if give_asset == want_asset {
            return Err(EscrowError::InvalidMint);
        }
        Ok(
            Swap {
                escrow: Escrow {
                    maker,
                    taker: None,
                    give_asset,
                    give_amount,
                    want_asset,
                    want_amount,
                    give_deposited: false,
                    want_deposited: false,
                    bump,
                },
                give_vault: Vault { open: false, balance: 0 },
                want_vault: Vault { open: false, balance: 0 },
                outcome: Outcome::Open,
            },
        )
    }

    /// Whether a record read back from storage satisfies the invariant that
    /// the operations require.
    pub fn is_well_formed(&self) -> (r: bool)
        ensures
            r == self.wf(),
    {
        let e = &self.escrow;
        let give_vault = expected_vault(e.give_deposited, self.outcome, e.give_amount);
        let want_vault = expected_vault(e.want_deposited, self.outcome, e.want_amount);
        let both = e.give_deposited && e.want_deposited;
        let outcome_consistent = match self.outcome {
            Outcome::Open => !both,
            Outcome::Settled => both,
            Outcome::Cancelled => e.taker.is_none(),
        };
        e.give_amount > 0 && e.want_amount > 0 && !(e.give_asset == e.want_asset)
            && e.want_deposited == e.taker.is_some() && self.give_vault == give_vault
            && self.want_vault == want_vault && outcome_consistent
    }

    /// An open escrow as it is stored, with the custody its flags imply.
    pub open spec fn stored(escrow: Escrow) -> Swap {
        Swap {
            escrow,
            give_vault: vault_for(escrow.give_deposited, Outcome::Open, escrow.give_amount),
            want_vault: vault_for(escrow.want_deposited, Outcome::Open, escrow.want_amount),
            outcome: Outcome::Open,
        }
    }

    /// Picks up a stored, still open escrow; none if the record breaks the
    /// invariant.
    pub fn resume(escrow: Escrow) -> (r: Option<Swap>)
        ensures
            match r {
                Some(s) => s == Swap::stored(escrow) && s.wf(),
                None => !Swap::stored(escrow).wf(),
            },
    {
        let s = Swap {
            escrow,
            give_vault: expected_vault(escrow.give_deposited, Outcome::Open, escrow.give_amount),
            want_vault: expected_vault(escrow.want_deposited, Outcome::Open, escrow.want_amount),
            outcome: Outcome::Open,
        };
        if s.is_well_formed() {
            Some(s)
        } else {
            None
        }
    }

    /// DepositGive: the maker locks the give leg into its vault.
    pub fn deposit_give(&mut self, caller: Address, source: &Holding) -> (r: Result<
        Vec<Effect>,
        EscrowError,
    >)
        requires
            old(self).wf(),
        ensures
            final(self).wf(),
            *final(self) == old(self).give_result(caller, *source),
            match r {
                Ok(plan) => {
                    &&& old(self).give_error(caller, *source) is None
                    &&& plan@ == lock_plan(
                        Leg::Give,
                        old(self).escrow.give_asset,
                        caller,
                        old(self).escrow.give_amount,
                    )
                },
                Err(e) => old(self).give_error(caller, *source) == Some(e),
            },
    {
        if self.escrow.give_deposited {
            return Err(EscrowError::AlreadyDeposited);
        }
        if self.escrow.taker.is_some() {
            return Err(EscrowError::AlreadyTaken);
        }
        if self.outcome != Outcome::Open {
            return Err(EscrowError::EscrowClosed);
        }
        if !(caller == self.escrow.maker) {
            return Err(EscrowError::Unauthorized);
        }
        if let Some(e) = check_source(
            source,
            self.escrow.give_asset,
            caller,
            self.escrow.give_amount,
        ) {
            return Err(e);
        }
        let plan = lock(Leg::Give, self.escrow.give_asset, caller, self.escrow.give_amount);
        self.escrow.give_deposited = true;
        self.give_vault = Vault { open: true, balance: self.escrow.give_amount };
        Ok(plan)
    }

    /// DepositWant: the caller becomes the taker and locks the want leg. All
    /// checks run on the state as of entry; the record is updated only
    /// after them; settlement is decided only after that update.
    pub fn deposit_want(
        &mut self,
        caller: Address,
        source: &Holding,
        taker_payee: Option<Holding>,
        maker_payee: Option<Holding>,
    ) -> (r: Result<Vec<Effect>, EscrowError>)
        requires
            old(self).wf(),
        ensures
            final(self).wf(),
            *final(self) == old(self).want_result(caller, *source, taker_payee, maker_payee),
            match r {
                Ok(plan) => {
                    &&& old(self).want_error(caller, *source, taker_payee, maker_payee) is None
                    &&& plan@ == old(self).want_plan(caller)
                },
                Err(e) => old(self).want_error(caller, *source, taker_payee, maker_payee) == Some(
                    e,
                ),
            },
    {
        if self.escrow.taker.is_some() {
            return Err(EscrowError::AlreadyTaken);
        }
        if self.escrow.want_deposited {
            return Err(EscrowError::AlreadyDeposited);
        }
        if self.outcome != Outcome::Open {
            return Err(EscrowError::EscrowClosed);
        }
        if let Some(e) = check_source(
            source,
            self.escrow.want_asset,
            caller,
            self.escrow.want_amount,
        ) {
            return Err(e);
        }
        if self.escrow.give_deposited {
            if let Some(e) = check_payee(
                &taker_payee,
                self.escrow.give_asset,
                caller,
                self.escrow.give_amount,
                EscrowError::InvalidAccounts,
            ) {
                return Err(e);
            }
            if let Some(e) = check_payee(
                &maker_payee,
                self.escrow.want_asset,
                self.escrow.maker,
                self.escrow.want_amount,
                EscrowError::InvalidAccounts,
            ) {
                return Err(e);
            }
        }
        let mut plan = lock(Leg::Want, self.escrow.want_asset, caller, self.escrow.want_amount);
        self.escrow.want_deposited = true;
        self.escrow.taker = Some(caller);
        self.want_vault = Vault { open: true, balance: self.escrow.want_amount };
        if self.escrow.give_deposited {
            let mut payout = self.settle(caller);
            plan.append(&mut payout);
        }
        Ok(plan)
    }

    /// Settle: the atomic dual payout. Reached only from `deposit_want`,
    /// once both legs are locked.
    fn settle(&mut self, taker: Address) -> (plan: Vec<Effect>)
        requires
            old(self).escrow.give_deposited,
            old(self).escrow.want_deposited,
            old(self).escrow.taker == Some(taker),
            old(self).outcome == Outcome::Open,
        ensures
            *final(self) == (Swap {
                give_vault: closed_vault(),
                want_vault: closed_vault(),
                outcome: Outcome::Settled,
                ..*old(self)
            }),
            plan@ == settle_plan(old(self).escrow, taker),
    {
        let e = self.escrow;
        let mut plan: Vec<Effect> = Vec::new();
        plan.push(
            move_asset(
                e.give_asset,
                Endpoint::Vault(Leg::Give),
                Endpoint::Party(taker),
                e.give_amount,
            ),
        );
        plan.push(
            move_asset(
                e.want_asset,
                Endpoint::Vault(Leg::Want),
                Endpoint::Party(e.maker),
                e.want_amount,
            ),
        );
        plan.push(Effect::CloseVault { leg: Leg::Give, asset: e.give_asset, recipient: e.maker });
        plan.push(Effect::CloseVault { leg: Leg::Want, asset: e.want_asset, recipient: e.maker });
        plan.push(Effect::CloseEscrow { recipient: e.maker });
        self.give_vault = Vault { open: false, balance: 0 };
        self.want_vault = Vault { open: false, balance: 0 };
        self.outcome = Outcome::Settled;
        proof {
            assert(plan@ =~= settle_plan(e, taker));
        }
        plan
    }

    /// Cancel: the maker withdraws the offer while no taker has committed,
    /// getting the give leg back if it was locked.
    pub fn cancel(&mut self, caller: Address, refund_to: Option<Holding>) -> (r: Result<
        Vec<Effect>,
        EscrowError,
    >)
        requires
            old(self).wf(),
        ensures
            final(self).wf(),
            *final(self) == old(self).cancel_result(caller, refund_to),
            match r {
                Ok(plan) => {
                    &&& old(self).cancel_error(caller, refund_to) is None
                    &&& plan@ == old(self).cancel_plan()
                },
                Err(e) => old(self).cancel_error(caller, refund_to) == Some(e),
            },
    {
        if !(caller == self.escrow.maker) {
            return Err(EscrowError::Unauthorized);
        }
        if self.escrow.taker.is_some() {
            return Err(EscrowError::AlreadyTaken);
        }
        if self.outcome != Outcome::Open {
            return Err(EscrowError::EscrowClosed);
        }
        let e = self.escrow;
        let mut plan: Vec<Effect> = Vec::new();
        if e.give_deposited {
            if let Some(err) = check_payee(
                &refund_to,
                e.give_asset,
                e.maker,
                e.give_amount,
                EscrowError::InvalidVault,
            ) {
                return Err(err);
            }
            plan.push(
                move_asset(
                    e.give_asset,
                    Endpoint::Vault(Leg::Give),
                    Endpoint::Party(e.maker),
                    e.give_amount,
                ),
            );
            plan.push(
                Effect::CloseVault { leg: Leg::Give, asset: e.give_asset, recipient: e.maker },
            );
            self.give_vault = Vault { open: false, balance: 0 };
        }
        plan.push(Effect::CloseEscrow { recipient: e.maker });
        self.outcome = Outcome::Cancelled;
        proof {
            assert(plan@ =~= old(self).cancel_plan());
        }
        Ok(plan)
    }
}

} // verus!

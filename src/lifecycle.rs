use vstd::prelude::*;

use crate::address::Address;
use crate::asset::{Effect, Endpoint, Holding, Leg};
use crate::escrow::{
    closed_vault, held, lock_plan, settle_plan, EscrowError, Outcome, Swap,
};

verus! {

/// Once DepositGive has succeeded, any further DepositGive, by any caller
/// and from any account, is refused with AlreadyDeposited and leaves the
/// escrow, and so the balance of its give vault, as it was.
pub proof fn lemma_give_deposited_once(
    s: Swap,
    caller: Address,
    source: Holding,
    again_caller: Address,
    again_source: Holding,
)
    requires
        s.wf(),
        s.give_error(caller, source) is None,
    ensures
        s.give_result(caller, source).wf(),
        s.give_result(caller, source).give_vault == held(s.escrow.give_amount),
        s.give_result(caller, source).give_error(again_caller, again_source) == Some(
            EscrowError::AlreadyDeposited,
        ),
        s.give_result(caller, source).give_result(again_caller, again_source) == s.give_result(
            caller,
            source,
        ),
{
}

/// A successful DepositWant records its caller as the taker, and every
/// later DepositWant, whoever makes it, is refused with AlreadyTaken and
/// leaves the escrow as it was.
pub proof fn lemma_taker_recorded_once(
    s: Swap,
    caller: Address,
    source: Holding,
    taker_payee: Option<Holding>,
    maker_payee: Option<Holding>,
    other: Address,
    other_source: Holding,
    other_taker_payee: Option<Holding>,
    other_maker_payee: Option<Holding>,
)
    requires
        s.wf(),
        s.want_error(caller, source, taker_payee, maker_payee) is None,
    ensures
        s.want_result(caller, source, taker_payee, maker_payee).wf(),
        s.want_result(caller, source, taker_payee, maker_payee).escrow.taker == Some(caller),
        s.want_result(caller, source, taker_payee, maker_payee).want_error(
            other,
            other_source,
            other_taker_payee,
            other_maker_payee,
        ) == Some(EscrowError::AlreadyTaken),
        s.want_result(caller, source, taker_payee, maker_payee).want_result(
            other,
            other_source,
            other_taker_payee,
            other_maker_payee,
        ) == s.want_result(caller, source, taker_payee, maker_payee),
{
}

/// A recorded taker is never changed or removed by any operation.
pub proof fn lemma_taker_kept(
    s: Swap,
    taker: Address,
    caller: Address,
    source: Holding,
    taker_payee: Option<Holding>,
    maker_payee: Option<Holding>,
    refund_to: Option<Holding>,
)
    requires
        s.wf(),
        s.escrow.taker == Some(taker),
    ensures
        s.give_result(caller, source).escrow.taker == Some(taker),
        s.want_result(caller, source, taker_payee, maker_payee).escrow.taker == Some(taker),
        s.cancel_result(caller, refund_to).escrow.taker == Some(taker),
{
}

/// In every well-formed escrow, settlement has happened exactly when both
/// legs are deposited, and a settled escrow has both vaults closed and
/// empty.
pub proof fn lemma_settled_iff_both_deposited(s: Swap)
    requires
        s.wf(),
    ensures
        (s.outcome == Outcome::Settled) <==> (s.escrow.give_deposited && s.escrow.want_deposited),
        s.outcome == Outcome::Settled ==> s.give_vault == closed_vault() && s.want_vault
            == closed_vault(),
{
}

/// A successful DepositWant settles exactly when the give leg was already
/// deposited. Its plan then locks the want leg, pays the give leg to the
/// taker and the want leg to the maker, and closes both vaults; otherwise it
/// only locks the want leg.
pub proof fn lemma_deposit_want_settles(
    s: Swap,
    caller: Address,
    source: Holding,
    taker_payee: Option<Holding>,
    maker_payee: Option<Holding>,
)
    requires
        s.wf(),
        s.want_error(caller, source, taker_payee, maker_payee) is None,
    ensures
        s.want_result(caller, source, taker_payee, maker_payee).wf(),
        (s.want_result(caller, source, taker_payee, maker_payee).outcome == Outcome::Settled)
            <==> s.escrow.give_deposited,
        s.escrow.give_deposited ==> {
            let s1 = s.want_result(caller, source, taker_payee, maker_payee);
            &&& s1.give_vault == closed_vault()
            &&& s1.want_vault == closed_vault()
            &&& s.want_plan(caller) == lock_plan(
                Leg::Want,
                s.escrow.want_asset,
                caller,
                s.escrow.want_amount,
            ) + settle_plan(s1.escrow, caller)
        },
        !s.escrow.give_deposited ==> s.want_plan(caller) == lock_plan(
            Leg::Want,
            s.escrow.want_asset,
            caller,
            s.escrow.want_amount,
        ),
{
}

/// Cancel before any deposit moves no funds and leaves both vaults as they
/// were: it only closes the escrow record. Cancel after the give deposit
/// pays exactly the give amount, from the give vault to the maker, as its
/// only transfer, and closes the give vault.
pub proof fn lemma_cancel_refunds(s: Swap, caller: Address, refund_to: Option<Holding>)
    requires
        s.wf(),
        s.cancel_error(caller, refund_to) is None,
    ensures
        s.cancel_result(caller, refund_to).wf(),
        s.cancel_result(caller, refund_to).outcome == Outcome::Cancelled,
        !s.escrow.give_deposited ==> {
            &&& forall|i: int|
                0 <= i < s.cancel_plan().len() ==> !(#[trigger] s.cancel_plan()[i] is Move)
            &&& s.cancel_result(caller, refund_to).give_vault == s.give_vault
            &&& s.cancel_result(caller, refund_to).want_vault == s.want_vault
        },
        s.escrow.give_deposited ==> {
            &&& s.cancel_plan()[0] == (Effect::Move {
                asset: s.escrow.give_asset,
                from: Endpoint::Vault(Leg::Give),
                to: Endpoint::Party(s.escrow.maker),
                amount: s.escrow.give_amount,
            })
            &&& forall|i: int|
                0 < i < s.cancel_plan().len() ==> !(#[trigger] s.cancel_plan()[i] is Move)
            &&& s.cancel_result(caller, refund_to).give_vault == closed_vault()
        },
{
}

} // verus!

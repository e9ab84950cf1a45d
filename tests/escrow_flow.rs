use escrow::{Address, Asset, Effect, Endpoint, EscrowError, Holding, Leg, Outcome, Swap, Vault};

fn addr(tag: u8) -> Address {
    Address::new([tag; 32])
}

fn token(tag: u8) -> Asset {
    Asset::Fungible(addr(tag))
}

fn holding(owner: Address, asset: Asset, amount: u64) -> Holding {
    Holding { owner, asset, amount }
}

const MAKER: u8 = 1;
const TAKER: u8 = 2;
const OTHER: u8 = 3;
const MINT_A: u8 = 10;
const MINT_B: u8 = 11;

fn closed() -> Vault {
    Vault { open: false, balance: 0 }
}

fn open_escrow(give: u64, want: u64) -> Swap {
    Swap::initialize(addr(MAKER), token(MINT_A), give, token(MINT_B), want, 254).unwrap()
}

#[test]
fn initialize_starts_empty() {
    let s = open_escrow(100, 50);
    assert!(!s.escrow.give_deposited);
    assert!(!s.escrow.want_deposited);
    assert!(s.escrow.taker.is_none());
    assert_eq!(s.escrow.maker, addr(MAKER));
    assert_eq!(s.escrow.give_amount, 100);
    assert_eq!(s.escrow.want_amount, 50);
    assert_eq!(s.escrow.bump, 254);
    assert_eq!(s.give_vault, closed());
    assert_eq!(s.want_vault, closed());
    assert_eq!(s.outcome, Outcome::Open);
    assert!(s.is_well_formed());
}

#[test]
fn initialize_rejects_zero_amounts() {
    let r = Swap::initialize(addr(MAKER), token(MINT_A), 0, token(MINT_B), 50, 0);
    assert_eq!(r.unwrap_err(), EscrowError::InvalidAmount);
    let r = Swap::initialize(addr(MAKER), token(MINT_A), 100, token(MINT_B), 0, 0);
    assert_eq!(r.unwrap_err(), EscrowError::InvalidAmount);
    let r = Swap::initialize(addr(MAKER), token(MINT_A), 0, token(MINT_A), 0, 0);
    assert_eq!(r.unwrap_err(), EscrowError::InvalidAmount);
}

#[test]
fn initialize_rejects_same_asset() {
    let r = Swap::initialize(addr(MAKER), token(MINT_A), 1, token(MINT_A), 1, 0);
    assert_eq!(r.unwrap_err(), EscrowError::InvalidMint);
    let r = Swap::initialize(addr(MAKER), Asset::Native, 1, Asset::Native, 1, 0);
    assert_eq!(r.unwrap_err(), EscrowError::InvalidMint);
    assert!(Swap::initialize(addr(MAKER), Asset::Native, 1, token(MINT_A), 1, 0).is_ok());
}

#[test]
fn full_swap_settles_atomically() {
    let mut s = open_escrow(100, 50);
    let plan = s.deposit_give(addr(MAKER), &holding(addr(MAKER), token(MINT_A), 100)).unwrap();
    assert_eq!(
        plan,
        vec![
            Effect::OpenVault { leg: Leg::Give, asset: token(MINT_A) },
            Effect::Move {
                asset: token(MINT_A),
                from: Endpoint::Party(addr(MAKER)),
                to: Endpoint::Vault(Leg::Give),
                amount: 100,
            },
        ]
    );
    assert_eq!(s.give_vault, Vault { open: true, balance: 100 });

    let plan = s
        .deposit_want(
            addr(TAKER),
            &holding(addr(TAKER), token(MINT_B), 50),
            Some(holding(addr(TAKER), token(MINT_A), 0)),
            Some(holding(addr(MAKER), token(MINT_B), 0)),
        )
        .unwrap();
    assert_eq!(
        plan,
        vec![
            Effect::OpenVault { leg: Leg::Want, asset: token(MINT_B) },
            Effect::Move {
                asset: token(MINT_B),
                from: Endpoint::Party(addr(TAKER)),
                to: Endpoint::Vault(Leg::Want),
                amount: 50,
            },
            Effect::Move {
                asset: token(MINT_A),
                from: Endpoint::Vault(Leg::Give),
                to: Endpoint::Party(addr(TAKER)),
                amount: 100,
            },
            Effect::Move {
                asset: token(MINT_B),
                from: Endpoint::Vault(Leg::Want),
                to: Endpoint::Party(addr(MAKER)),
                amount: 50,
            },
            Effect::CloseVault { leg: Leg::Give, asset: token(MINT_A), recipient: addr(MAKER) },
            Effect::CloseVault { leg: Leg::Want, asset: token(MINT_B), recipient: addr(MAKER) },
            Effect::CloseEscrow { recipient: addr(MAKER) },
        ]
    );
    assert_eq!(s.outcome, Outcome::Settled);
    assert_eq!(s.escrow.taker, Some(addr(TAKER)));
    assert!(s.escrow.give_deposited && s.escrow.want_deposited);
    assert_eq!(s.give_vault, closed());
    assert_eq!(s.want_vault, closed());
    assert!(s.is_well_formed());
}

#[test]
fn native_give_leg_swaps_for_token() {
    let mut s = Swap::initialize(addr(MAKER), Asset::Native, 7, token(MINT_B), 3, 1).unwrap();
    s.deposit_give(addr(MAKER), &holding(addr(MAKER), Asset::Native, 7)).unwrap();
    let plan = s
        .deposit_want(
            addr(TAKER),
            &holding(addr(TAKER), token(MINT_B), 3),
            Some(holding(addr(TAKER), Asset::Native, 10)),
            Some(holding(addr(MAKER), token(MINT_B), 0)),
        )
        .unwrap();
    assert_eq!(
        plan[2],
        Effect::Move {
            asset: Asset::Native,
            from: Endpoint::Vault(Leg::Give),
            to: Endpoint::Party(addr(TAKER)),
            amount: 7,
        }
    );
    assert_eq!(plan.len(), 7);
    assert_eq!(s.outcome, Outcome::Settled);
}

#[test]
fn cancel_after_give_refunds_maker() {
    let mut s = open_escrow(10, 5);
    s.deposit_give(addr(MAKER), &holding(addr(MAKER), token(MINT_A), 10)).unwrap();
    let plan = s.cancel(addr(MAKER), Some(holding(addr(MAKER), token(MINT_A), 0))).unwrap();
    assert_eq!(
        plan,
        vec![
            Effect::Move {
                asset: token(MINT_A),
                from: Endpoint::Vault(Leg::Give),
                to: Endpoint::Party(addr(MAKER)),
                amount: 10,
            },
            Effect::CloseVault { leg: Leg::Give, asset: token(MINT_A), recipient: addr(MAKER) },
            Effect::CloseEscrow { recipient: addr(MAKER) },
        ]
    );
    assert!(!plan.iter().any(|e| matches!(e, Effect::OpenVault { leg: Leg::Want, .. })));
    assert_eq!(s.outcome, Outcome::Cancelled);
    assert_eq!(s.give_vault, closed());
    assert_eq!(s.want_vault, closed());
    assert!(s.escrow.taker.is_none());
    assert!(s.is_well_formed());
}

#[test]
fn cancel_before_deposit_moves_nothing() {
    let mut s = open_escrow(10, 5);
    let plan = s.cancel(addr(MAKER), None).unwrap();
    assert_eq!(plan, vec![Effect::CloseEscrow { recipient: addr(MAKER) }]);
    assert_eq!(s.give_vault, closed());
    assert_eq!(s.want_vault, closed());
    assert_eq!(s.outcome, Outcome::Cancelled);
}

#[test]
fn second_taker_is_rejected() {
    let mut s = open_escrow(100, 50);
    s.deposit_give(addr(MAKER), &holding(addr(MAKER), token(MINT_A), 100)).unwrap();
    let first = s.deposit_want(
        addr(TAKER),
        &holding(addr(TAKER), token(MINT_B), 50),
        Some(holding(addr(TAKER), token(MINT_A), 0)),
        Some(holding(addr(MAKER), token(MINT_B), 0)),
    );
    let before = s;
    let second = s.deposit_want(
        addr(OTHER),
        &holding(addr(OTHER), token(MINT_B), 50),
        Some(holding(addr(OTHER), token(MINT_A), 0)),
        Some(holding(addr(MAKER), token(MINT_B), 0)),
    );
    assert!(first.is_ok());
    assert_eq!(second.unwrap_err(), EscrowError::AlreadyTaken);
    assert_eq!(s.escrow.taker, Some(addr(TAKER)));
    assert_eq!(s.outcome, before.outcome);
}

#[test]
fn second_taker_is_rejected_before_settlement() {
    let mut s = open_escrow(100, 50);
    s.deposit_want(addr(TAKER), &holding(addr(TAKER), token(MINT_B), 50), None, None).unwrap();
    assert_eq!(s.outcome, Outcome::Open);
    assert_eq!(s.want_vault, Vault { open: true, balance: 50 });
    let r = s.deposit_want(addr(OTHER), &holding(addr(OTHER), token(MINT_B), 50), None, None);
    assert_eq!(r.unwrap_err(), EscrowError::AlreadyTaken);
    assert_eq!(s.escrow.taker, Some(addr(TAKER)));
    assert_eq!(s.want_vault, Vault { open: true, balance: 50 });
}

#[test]
fn second_give_deposit_is_rejected() {
    let mut s = open_escrow(100, 50);
    s.deposit_give(addr(MAKER), &holding(addr(MAKER), token(MINT_A), 100)).unwrap();
    let r = s.deposit_give(addr(MAKER), &holding(addr(MAKER), token(MINT_A), 1000));
    assert_eq!(r.unwrap_err(), EscrowError::AlreadyDeposited);
    assert_eq!(s.give_vault, Vault { open: true, balance: 100 });
    let r = s.deposit_give(addr(OTHER), &holding(addr(OTHER), token(MINT_A), 1000));
    assert_eq!(r.unwrap_err(), EscrowError::AlreadyDeposited);
    assert_eq!(s.give_vault, Vault { open: true, balance: 100 });
}

#[test]
fn deposit_give_rejects_bad_source() {
    let mut s = open_escrow(100, 50);
    let r = s.deposit_give(addr(OTHER), &holding(addr(OTHER), token(MINT_A), 100));
    assert_eq!(r.unwrap_err(), EscrowError::Unauthorized);
    let r = s.deposit_give(addr(MAKER), &holding(addr(MAKER), token(MINT_B), 100));
    assert_eq!(r.unwrap_err(), EscrowError::InvalidMint);
    let r = s.deposit_give(addr(MAKER), &holding(addr(OTHER), token(MINT_A), 100));
    assert_eq!(r.unwrap_err(), EscrowError::Unauthorized);
    let r = s.deposit_give(addr(MAKER), &holding(addr(MAKER), token(MINT_A), 99));
    assert_eq!(r.unwrap_err(), EscrowError::InsufficientBalance);
    assert!(!s.escrow.give_deposited);
    assert_eq!(s.give_vault, closed());
}

#[test]
fn deposit_give_after_taker_is_rejected() {
    let mut s = open_escrow(100, 50);
    s.deposit_want(addr(TAKER), &holding(addr(TAKER), token(MINT_B), 50), None, None).unwrap();
    let r = s.deposit_give(addr(MAKER), &holding(addr(MAKER), token(MINT_A), 100));
    assert_eq!(r.unwrap_err(), EscrowError::AlreadyTaken);
}

#[test]
fn deposit_want_rejects_bad_accounts() {
    let mut s = open_escrow(100, 50);
    s.deposit_give(addr(MAKER), &holding(addr(MAKER), token(MINT_A), 100)).unwrap();
    let src = holding(addr(TAKER), token(MINT_B), 50);
    let taker_in = Some(holding(addr(TAKER), token(MINT_A), 0));
    let maker_in = Some(holding(addr(MAKER), token(MINT_B), 0));

    let r = s.deposit_want(addr(TAKER), &holding(addr(TAKER), token(MINT_A), 50), taker_in, maker_in);
    assert_eq!(r.unwrap_err(), EscrowError::InvalidMint);
    let r = s.deposit_want(addr(TAKER), &holding(addr(OTHER), token(MINT_B), 50), taker_in, maker_in);
    assert_eq!(r.unwrap_err(), EscrowError::Unauthorized);
    let r = s.deposit_want(addr(TAKER), &holding(addr(TAKER), token(MINT_B), 49), taker_in, maker_in);
    assert_eq!(r.unwrap_err(), EscrowError::InsufficientBalance);
    let r = s.deposit_want(addr(TAKER), &src, None, maker_in);
    assert_eq!(r.unwrap_err(), EscrowError::InvalidAccounts);
    let r = s.deposit_want(addr(TAKER), &src, taker_in, None);
    assert_eq!(r.unwrap_err(), EscrowError::InvalidAccounts);
    let r = s.deposit_want(addr(TAKER), &src, Some(holding(addr(TAKER), token(MINT_B), 0)), maker_in);
    assert_eq!(r.unwrap_err(), EscrowError::InvalidMint);
    let r = s.deposit_want(addr(TAKER), &src, Some(holding(addr(OTHER), token(MINT_A), 0)), maker_in);
    assert_eq!(r.unwrap_err(), EscrowError::InvalidAccounts);
    let r = s.deposit_want(addr(TAKER), &src, taker_in, Some(holding(addr(OTHER), token(MINT_B), 0)));
    assert_eq!(r.unwrap_err(), EscrowError::InvalidAccounts);
    let r = s.deposit_want(
        addr(TAKER),
        &src,
        Some(holding(addr(TAKER), token(MINT_A), u64::MAX - 99)),
        maker_in,
    );
    assert_eq!(r.unwrap_err(), EscrowError::Overflow);
    let r = s.deposit_want(
        addr(TAKER),
        &src,
        taker_in,
        Some(holding(addr(MAKER), token(MINT_B), u64::MAX - 49)),
    );
    assert_eq!(r.unwrap_err(), EscrowError::Overflow);

    assert!(s.escrow.taker.is_none());
    assert!(!s.escrow.want_deposited);
    assert_eq!(s.want_vault, closed());
    assert_eq!(s.outcome, Outcome::Open);

    let r = s.deposit_want(
        addr(TAKER),
        &src,
        Some(holding(addr(TAKER), token(MINT_A), u64::MAX - 100)),
        Some(holding(addr(MAKER), token(MINT_B), u64::MAX - 50)),
    );
    assert!(r.is_ok());
}

#[test]
fn cancel_errors() {
    let mut s = open_escrow(10, 5);
    s.deposit_give(addr(MAKER), &holding(addr(MAKER), token(MINT_A), 10)).unwrap();
    let r = s.cancel(addr(OTHER), Some(holding(addr(OTHER), token(MINT_A), 0)));
    assert_eq!(r.unwrap_err(), EscrowError::Unauthorized);
    let r = s.cancel(addr(MAKER), None);
    assert_eq!(r.unwrap_err(), EscrowError::InvalidVault);
    let r = s.cancel(addr(MAKER), Some(holding(addr(MAKER), token(MINT_B), 0)));
    assert_eq!(r.unwrap_err(), EscrowError::InvalidMint);
    let r = s.cancel(addr(MAKER), Some(holding(addr(OTHER), token(MINT_A), 0)));
    assert_eq!(r.unwrap_err(), EscrowError::InvalidAccounts);
    let r = s.cancel(addr(MAKER), Some(holding(addr(MAKER), token(MINT_A), u64::MAX - 9)));
    assert_eq!(r.unwrap_err(), EscrowError::Overflow);
    assert_eq!(s.outcome, Outcome::Open);
    assert_eq!(s.give_vault, Vault { open: true, balance: 10 });

    s.cancel(addr(MAKER), Some(holding(addr(MAKER), token(MINT_A), 0))).unwrap();
    let r = s.cancel(addr(MAKER), Some(holding(addr(MAKER), token(MINT_A), 0)));
    assert_eq!(r.unwrap_err(), EscrowError::EscrowClosed);
}

#[test]
fn cancel_after_taker_is_rejected() {
    let mut s = open_escrow(10, 5);
    s.deposit_want(addr(TAKER), &holding(addr(TAKER), token(MINT_B), 5), None, None).unwrap();
    let r = s.cancel(addr(MAKER), None);
    assert_eq!(r.unwrap_err(), EscrowError::AlreadyTaken);
}

#[test]
fn operations_on_cancelled_escrow_are_rejected() {
    let mut s = open_escrow(10, 5);
    s.cancel(addr(MAKER), None).unwrap();
    let r = s.deposit_give(addr(MAKER), &holding(addr(MAKER), token(MINT_A), 10));
    assert_eq!(r.unwrap_err(), EscrowError::EscrowClosed);
    let r = s.deposit_want(addr(TAKER), &holding(addr(TAKER), token(MINT_B), 5), None, None);
    assert_eq!(r.unwrap_err(), EscrowError::EscrowClosed);
}

#[test]
fn settled_escrow_refuses_everything() {
    let mut s = open_escrow(100, 50);
    s.deposit_give(addr(MAKER), &holding(addr(MAKER), token(MINT_A), 100)).unwrap();
    s.deposit_want(
        addr(TAKER),
        &holding(addr(TAKER), token(MINT_B), 50),
        Some(holding(addr(TAKER), token(MINT_A), 0)),
        Some(holding(addr(MAKER), token(MINT_B), 0)),
    )
    .unwrap();
    let r = s.deposit_give(addr(MAKER), &holding(addr(MAKER), token(MINT_A), 100));
    assert_eq!(r.unwrap_err(), EscrowError::AlreadyDeposited);
    let r = s.cancel(addr(MAKER), Some(holding(addr(MAKER), token(MINT_A), 0)));
    assert_eq!(r.unwrap_err(), EscrowError::AlreadyTaken);
}

#[test]
fn well_formedness_check_rejects_inconsistent_records() {
    let mut s = open_escrow(10, 5);
    s.give_vault = Vault { open: true, balance: 10 };
    assert!(!s.is_well_formed());
    let mut s = open_escrow(10, 5);
    s.escrow.taker = Some(addr(TAKER));
    assert!(!s.is_well_formed());
    let mut s = open_escrow(10, 5);
    s.outcome = Outcome::Settled;
    assert!(!s.is_well_formed());
}

#[test]
fn address_equality_compares_every_byte() {
    let mut b = [7u8; 32];
    assert_eq!(Address::new(b), Address::new([7u8; 32]));
    b[31] = 8;
    assert_ne!(Address::new(b), Address::new([7u8; 32]));
    assert_ne!(token(MINT_A), Asset::Native);
    assert!(Asset::Native.is_native());
    assert!(!token(MINT_A).is_native());
}

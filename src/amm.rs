use vstd::prelude::*;

verus! {

/// Liquidity locked for good when a pool is created, so that the first
/// depositor cannot claim the whole supply of pool shares.
pub const MINIMUM_LIQUIDITY: u64 = 1_000;

/// The largest fee, in basis points: one hundred percent.
pub const MAX_FEE_BPS: u16 = 10_000;

#[derive(Clone, Copy, Debug, PartialEq, Eq, Structural)]
pub enum AmmError {
    DefaultError,
    OfferExpired,
    PoolLocked,
    SlippageExceeded,
    Overflow,
    Underflow,
    InvalidToken,
    LiquidityLessThanMinimum,
    NoLiquidityInPool,
    BumpError,
    CurveError,
    InvalidFee,
    InvalidAuthority,
    NoAuthoritySet,
    AmmIsImmutable,
    InvalidAmount,
    InvalidPrecision,
    InsufficientBalance,
    ZeroBalance,
    InvalidMint,
    InvalidVestingSchedule,
    InsufficientUnlockedLp,
    NotPositionOwner,
    PositionNotEmpty,
    InvalidPool,
    PoolNotInitialized,
    InsufficientInitialLiquidity,
}

/// `r` is the integer square root of `n`: the largest whole number whose
/// square does not exceed `n`.
pub open spec fn is_floor_sqrt(r: int, n: int) -> bool {
    0 <= r && r * r <= n && n < (r + 1) * (r + 1)
}

proof fn lemma_newton_bound(n: int, x: int, t: int)
    requires
        1 <= x,
        0 <= t,
        t * t <= n,
    ensures
        t <= (x + n / x) / 2,
{
    let q = n / x;
    vstd::arithmetic::div_mod::lemma_fundamental_div_mod(n, x);
    assert(n < (q + 1) * x) by (nonlinear_arith)
        requires
            n == x * q + n % x,
            n % x < x,
    ;
    if 2 * t > x + q {
        assert((q + 1) * x <= (2 * t - x) * x) by (nonlinear_arith)
            requires
                q + 1 <= 2 * t - x,
                x >= 1,
        ;
        assert((2 * t - x) * x <= t * t) by (nonlinear_arith);
    }
}

proof fn lemma_newton_no_overflow(n: int, x: int)
    requires
        1 <= x <= n,
    ensures
        n / x >= 1,
        x + n / x <= n + 1,
{
    let q = n / x;
    vstd::arithmetic::div_mod::lemma_fundamental_div_mod(n, x);
    assert(q >= 1) by (nonlinear_arith)
        requires
            n == x * q + n % x,
            0 <= n % x < x,
            x <= n,
    ;
    assert(x + q <= x * q + 1) by (nonlinear_arith)
        requires
            x >= 1,
            q >= 1,
    ;
    assert(x * q <= n) by (nonlinear_arith)
        requires
            n == x * q + n % x,
            0 <= n % x,
    ;
}

proof fn lemma_newton_exit(n: int, x: int)
    requires
        1 <= x,
        (x + n / x) / 2 >= x,
    ensures
        x * x <= n,
{
    let q = n / x;
    vstd::arithmetic::div_mod::lemma_fundamental_div_mod(n, x);
    assert(x * x <= n) by (nonlinear_arith)
        requires
            q >= x,
            n == x * q + n % x,
            0 <= n % x,
            x >= 1,
    ;
}

/// Integer square root by Newton's iteration, starting from `n` itself.
pub fn integer_sqrt(n: u128) -> (r: u128)
    requires
        n < u128::MAX,
    ensures
        is_floor_sqrt(r as int, n as int),
{
    if n == 0 {
        assert(is_floor_sqrt(0, 0)) by (nonlinear_arith);
        return 0;
    }
    let mut x: u128 = n;
    assert(n as int / n as int == 1) by (nonlinear_arith)
        requires
            n >= 1,
    ;
    let mut y: u128 = (x + 1) / 2;
    assert forall|t: int| 0 <= t && #[trigger] (t * t) <= n implies t <= x by {
        assert(t <= n) by (nonlinear_arith)
            requires
                0 <= t,
                t * t <= n,
                n >= 1,
        ;
    }
    while y < x
        invariant
            1 <= x <= n,
            n < u128::MAX,
            y == (x + n / x) / 2,
            forall|t: int| 0 <= t && #[trigger] (t * t) <= n ==> t <= x,
        decreases x,
    {
        assert forall|t: int| 0 <= t && #[trigger] (t * t) <= n implies t <= y by {
            lemma_newton_bound(n as int, x as int, t);
        }
        proof {
            lemma_newton_no_overflow(n as int, x as int);
            lemma_newton_no_overflow(n as int, y as int);
        }
        x = y;
        y = (x + n / x) / 2;
    }
    proof {
        lemma_newton_exit(n as int, x as int);
        if (x + 1) * (x + 1) <= n {
            assert(0 <= x + 1 && (x + 1) * (x + 1) <= n);
        }
    }
    x
}

/// How the first deposit into a new pool splits into pool shares.
#[derive(Clone, Copy, Debug, PartialEq, Eq, Structural)]
pub struct InitialLiquidity {
    /// Shares that the deposit is worth: the integer square root of the
    /// product of the two amounts.
    pub liquidity: u64,
    /// Shares minted to the depositor: `liquidity` less the locked minimum.
    pub minted: u64,
}

/// Checks the parameters of a new pool and computes the shares of its
/// first deposit.
pub fn initial_liquidity(fee: u16, init_m_amount: u64, init_n_amount: u64) -> (r: Result<
    InitialLiquidity,
    AmmError,
>)
    ensures
        fee > MAX_FEE_BPS ==> r == Err::<InitialLiquidity, AmmError>(AmmError::InvalidFee),
        fee <= MAX_FEE_BPS && (init_m_amount == 0 || init_n_amount == 0) ==> r == Err::<
            InitialLiquidity,
            AmmError,
        >(AmmError::InvalidAmount),
        fee <= MAX_FEE_BPS && init_m_amount > 0 && init_n_amount > 0 ==> (match r {
            Ok(l) => {
                &&& is_floor_sqrt(l.liquidity as int, init_m_amount * init_n_amount)
                &&& l.liquidity > MINIMUM_LIQUIDITY
                &&& l.minted == l.liquidity - MINIMUM_LIQUIDITY
            },
            Err(e) => {
                &&& e == AmmError::InsufficientInitialLiquidity
                &&& init_m_amount * init_n_amount < (MINIMUM_LIQUIDITY + 1) * (MINIMUM_LIQUIDITY
                    + 1)
            },
        }),
{
    if fee > MAX_FEE_BPS {
        return Err(AmmError::InvalidFee);
    }
    if init_m_amount == 0 || init_n_amount == 0 {
        return Err(AmmError::InvalidAmount);
    }
    let m = init_m_amount as u128;
    let n = init_n_amount as u128;
    assert(m * n <= 0xffff_ffff_ffff_ffffu128 * 0xffff_ffff_ffff_ffffu128) by (nonlinear_arith)
        requires
            m <= 0xffff_ffff_ffff_ffffu128,
            n <= 0xffff_ffff_ffff_ffffu128,
    ;
    let product = match m.checked_mul(n) {
        Some(p) => p,
        None => return Err(AmmError::Overflow),
    };
    let root = integer_sqrt(product);
    assert(root <= 0xffff_ffff_ffff_ffffu128) by (nonlinear_arith)
        requires
            root * root <= product,
            product <= 0xffff_ffff_ffff_ffffu128 * 0xffff_ffff_ffff_ffffu128,
    ;
    let liquidity = root as u64;
    if liquidity <= MINIMUM_LIQUIDITY {
        assert(product < (MINIMUM_LIQUIDITY + 1) * (MINIMUM_LIQUIDITY + 1)) by (nonlinear_arith)
            requires
                product < (root + 1) * (root + 1),
                root <= MINIMUM_LIQUIDITY,
        ;
        return Err(AmmError::InsufficientInitialLiquidity);
    }
    Ok(InitialLiquidity { liquidity, minted: liquidity - MINIMUM_LIQUIDITY })
}

} // verus!

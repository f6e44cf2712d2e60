use vstd::prelude::*;
use crate::error::ErrorCode;

verus! {

/// Number of units in one pricing lot.
pub const LOT_SIZE: u64 = 1000;

/// Price of one unit on the linear, exponential and time-bomb curves at zero sold.
pub const BASE_PRICE: u64 = 1000;

/// The four pricing curves a market can be launched with.
#[derive(Debug, Clone, Copy, PartialEq, Eq, Structural)]
pub enum CurveType {
    Linear,
    Exponential,
    LinearDecay,
    TimeBomb,
}

/// Whether `tag` names one of the four curves.
pub open spec fn valid_curve(tag: u8) -> bool {
    tag <= 3
}

/// The curve that a valid tag names.
pub open spec fn curve_of(tag: u8) -> CurveType {
    if tag == 0 {
        CurveType::Linear
    } else if tag == 1 {
        CurveType::Exponential
    } else if tag == 2 {
        CurveType::LinearDecay
    } else {
        CurveType::TimeBomb
    }
}

/// `base` raised to the power `e`.
pub open spec fn power(base: nat, e: nat) -> nat
    decreases e,
{
    if e == 0 {
        1
    } else {
        base * power(base, (e - 1) as nat)
    }
}

/// Number of whole lots in `sold` units.
pub open spec fn lots(sold: nat) -> nat {
    sold / 1000
}

/// Whether `1000 * 105^k` fits in a `u128`, the width the exponential curve
/// is computed in.
pub open spec fn exp_fits(k: nat) -> bool {
    1000 * power(105, k) <= u128::MAX
}

/// `1000 * 1.05^k`, truncated toward zero.
pub open spec fn exp_price(k: nat) -> nat {
    1000 * power(105, k) / power(100, k)
}

/// Whether the price of `curve` at `sold` units can be computed.
pub open spec fn price_defined(curve: CurveType, sold: nat) -> bool {
    curve == CurveType::Exponential ==> exp_fits(lots(sold))
}

/// Unit price of `curve` after `sold` units have been sold.
pub open spec fn curve_price(curve: CurveType, sold: nat) -> nat {
    match curve {
        CurveType::Linear => 1000 + lots(sold),
        CurveType::Exponential => exp_price(lots(sold)),
        CurveType::LinearDecay => if sold / 10 >= 1000 {
            0
        } else {
            (1000 - sold / 10) as nat
        },
        CurveType::TimeBomb => 1000,
    }
}

/// What pricing returns for a raw curve tag: the price, or why there is none.
pub open spec fn price_result(tag: u8, sold: nat) -> Result<u64, ErrorCode> {
    if !valid_curve(tag) {
        Err(ErrorCode::InvalidCurveType)
    } else if !price_defined(curve_of(tag), sold) {
        Err(ErrorCode::ArithmeticOverflow)
    } else {
        Ok(curve_price(curve_of(tag), sold) as u64)
    }
}

/// Powers of a base of at least one do not decrease with the exponent.
pub proof fn lemma_power_monotone(base: nat, e1: nat, e2: nat)
    requires
        base >= 1,
        e1 <= e2,
    ensures
        power(base, e1) <= power(base, e2),
    decreases e2,
{
    if e1 < e2 {
        lemma_power_monotone(base, e1, (e2 - 1) as nat);
        assert(power(base, (e2 - 1) as nat) <= base * power(base, (e2 - 1) as nat)) by (nonlinear_arith)
            requires
                base >= 1,
        ;
    }
}

/// The exponential curve fits in a `u128` for at most seventeen lots.
proof fn lemma_exp_fits_bound(k: nat)
    requires
        exp_fits(k),
    ensures
        k <= 17,
{
    if k > 17 {
        reveal_with_fuel(power, 19);
        assert(1000 * power(105, 18) > u128::MAX);
        lemma_power_monotone(105, 18, k);
    }
}

/// `105^k` stays within `100^k * 2^k`.
proof fn lemma_power_ratio(k: nat)
    ensures
        power(105, k) <= power(100, k) * power(2, k),
        power(100, k) >= 1,
    decreases k,
{
    if k > 0 {
        let j = (k - 1) as nat;
        lemma_power_ratio(j);
        let a = power(105, j);
        let b = power(100, j);
        let c = power(2, j);
        assert(power(105, k) == 105 * a);
        assert(power(100, k) == 100 * b);
        assert(power(2, k) == 2 * c);
        assert(105 * a <= (100 * b) * (2 * c)) by (nonlinear_arith)
            requires
                a <= b * c,
        ;
        assert(100 * b >= 1) by (nonlinear_arith)
            requires
                b >= 1,
        ;
        assert(power(100, k) * power(2, k) == (100 * b) * (2 * c));
    } else {
        assert(power(105, 0) == 1 && power(100, 0) == 1 && power(2, 0) == 1);
    }
}

/// The exponential price fits in a `u64` wherever it can be computed.
proof fn lemma_exp_price_fits(k: nat)
    requires
        exp_fits(k),
    ensures
        exp_price(k) <= u64::MAX,
{
    lemma_exp_fits_bound(k);
    lemma_power_ratio(k);
    lemma_power_monotone(2, k, 17);
    reveal_with_fuel(power, 18);
    assert(power(2, 17) == 131072);
    let n = power(105, k);
    let d = power(100, k);
    let c = power(2, k);
    assert(1000 * n / d <= 1000 * c) by (nonlinear_arith)
        requires
            n <= d * c,
            d >= 1,
    ;
}

/// Every price that can be computed fits in a `u64`.
pub proof fn lemma_price_fits(curve: CurveType, sold: nat)
    requires
        price_defined(curve, sold),
        sold <= u64::MAX,
    ensures
        curve_price(curve, sold) <= u64::MAX,
{
    if curve == CurveType::Exponential {
        lemma_exp_price_fits(lots(sold));
    }
}

/// On the linear curve the price never falls as more units are sold, and two
/// counters in the same lot have the same price.
pub proof fn lemma_linear_monotone(s1: u64, s2: u64)
    requires
        s1 <= s2,
    ensures
        price_result(0, s1 as nat) is Ok,
        price_result(0, s2 as nat) is Ok,
        price_result(0, s1 as nat)->Ok_0 <= price_result(0, s2 as nat)->Ok_0,
        s1 / 1000 == s2 / 1000 ==> price_result(0, s1 as nat) == price_result(0, s2 as nat),
{
    assert(s1 as nat / 1000 <= s2 as nat / 1000) by (nonlinear_arith)
        requires
            s1 <= s2,
    ;
}

/// The exponential curve at whole lots is `1000 * 1.05^k` truncated, and it can
/// be computed for the first ten lots and more.
pub proof fn lemma_exponential_at_lots(k: nat)
    requires
        k <= 17,
    ensures
        price_result(1, k * 1000) == Ok::<u64, ErrorCode>(exp_price(k) as u64),
        exp_price(k) == 1000 * power(105, k) / power(100, k),
{
    assert(k * 1000 / 1000 == k) by (nonlinear_arith);
    reveal_with_fuel(power, 18);
    assert(1000 * power(105, 17) <= u128::MAX);
    lemma_power_monotone(105, k, 17);
}

/// The linear-decay price never fails, never goes below zero, and is zero from
/// ten thousand units sold on.
pub proof fn lemma_linear_decay_floor(s: u64)
    ensures
        price_result(2, s as nat) is Ok,
        price_result(2, s as nat)->Ok_0 >= 0,
        s >= 10000 ==> price_result(2, s as nat) == Ok::<u64, ErrorCode>(0),
        price_result(2, 10000) == Ok::<u64, ErrorCode>(0),
{
}

/// The time-bomb price is 1000 whatever has been sold.
pub proof fn lemma_time_bomb_constant(s: u64)
    ensures
        price_result(3, s as nat) == Ok::<u64, ErrorCode>(1000),
{
}

impl CurveType {
    /// The curve named by `tag`, or `InvalidCurveType`.
    pub fn from_tag(tag: u8) -> (r: Result<CurveType, ErrorCode>)
        ensures
            valid_curve(tag) ==> r == Ok::<CurveType, ErrorCode>(curve_of(tag)),
            !valid_curve(tag) ==> r == Err::<CurveType, ErrorCode>(ErrorCode::InvalidCurveType),
    {
        match tag {
            0 => Ok(CurveType::Linear),
            1 => Ok(CurveType::Exponential),
            2 => Ok(CurveType::LinearDecay),
            3 => Ok(CurveType::TimeBomb),
            _ => Err(ErrorCode::InvalidCurveType),
        }
    }

    /// The tag that names this curve in a market record.
    pub fn tag(&self) -> (r: u8)
        ensures
            valid_curve(r),
            curve_of(r) == *self,
    {
        match self {
            CurveType::Linear => 0,
            CurveType::Exponential => 1,
            CurveType::LinearDecay => 2,
            CurveType::TimeBomb => 3,
        }
    }

    /// Unit price of this curve after `sold` units have been sold; fails with
    /// `ArithmeticOverflow` where the exponential curve outgrows a `u128`.
    pub fn price(&self, sold: u64) -> (r: Result<u64, ErrorCode>)
        ensures
            price_defined(*self, sold as nat) ==> r == Ok::<u64, ErrorCode>(curve_price(*self, sold as nat) as u64),
            price_defined(*self, sold as nat) ==> curve_price(*self, sold as nat) <= u64::MAX,
            !price_defined(*self, sold as nat) ==> r == Err::<u64, ErrorCode>(ErrorCode::ArithmeticOverflow),
    {
        let lot_count = sold / LOT_SIZE;
        match self {
            CurveType::Linear => Ok(BASE_PRICE + lot_count),
            CurveType::Exponential => exponential_price(lot_count),
            CurveType::LinearDecay => Ok(BASE_PRICE.saturating_sub(sold / 10)),
            CurveType::TimeBomb => Ok(BASE_PRICE),
        }
    }
}

/// `1000 * 1.05^k` truncated, computed as `1000 * 105^k / 100^k` in `u128`.
fn exponential_price(k: u64) -> (r: Result<u64, ErrorCode>)
    ensures
        exp_fits(k as nat) ==> r == Ok::<u64, ErrorCode>(exp_price(k as nat) as u64),
        exp_fits(k as nat) ==> exp_price(k as nat) <= u64::MAX,
        !exp_fits(k as nat) ==> r == Err::<u64, ErrorCode>(ErrorCode::ArithmeticOverflow),
{
    let mut num: u128 = 1000;
    let mut den: u128 = 1;
    let mut i: u64 = 0;
    while i < k
        invariant
            i <= k,
            num == 1000 * power(105, i as nat),
            den == power(100, i as nat),
            1 <= den <= num,
        decreases k - i,
    {
        match num.checked_mul(105) {
            None => {
                proof {
                    assert(power(105, (i + 1) as nat) == 105 * power(105, i as nat));
                    lemma_power_monotone(105, (i + 1) as nat, k as nat);
                }
                return Err(ErrorCode::ArithmeticOverflow);
            },
            Some(next) => {
                proof {
                    assert(den * 100 <= num * 105) by (nonlinear_arith)
                        requires
                            den <= num,
                    ;
                }
                num = next;
                den = den * 100;
                i = i + 1;
            },
        }
    }
    proof {
        lemma_exp_price_fits(k as nat);
    }
    Ok((num / den) as u64)
}

/// Unit price of the curve tagged `curve_type` after `tokens_sold` units have
/// been sold.
pub fn get_price(curve_type: u8, tokens_sold: u64) -> (r: Result<u64, ErrorCode>)
    ensures
        r == price_result(curve_type, tokens_sold as nat),
        r is Ok ==> curve_price(curve_of(curve_type), tokens_sold as nat) <= u64::MAX,
{
    let curve = CurveType::from_tag(curve_type)?;
    curve.price(tokens_sold)
}

} // verus!

use vstd::prelude::*;
use crate::curve::{curve_of, curve_price, get_price, price_result, valid_curve, CurveType};
use crate::error::ErrorCode;

verus! {

/// Seconds after launch during which a market is alive whatever it has sold.
pub const ALIVE_WINDOW_SECS: i64 = 86400;

/// Percentage of the supply sold from which a market stays alive for good.
pub const ALIVE_SOLD_PERCENT: u64 = 70;

/// Tag of the time-bomb curve in a market record.
pub const TIME_BOMB_TAG: u8 = 3;

/// The durable record of one launched token.
#[derive(Debug, Clone, Copy)]
pub struct BondingConfig {
    /// Address of the traded token's mint.
    pub token_mint: [u8; 32],
    /// Units minted at launch.
    pub total_supply: u64,
    /// Tag of the pricing curve (see `CurveType::tag`).
    pub curve_type: u8,
    /// Bump seed of the record's derived address.
    pub bump: u8,
    /// Net units sold by the market so far.
    pub tokens_sold: u64,
    /// Unix time of the launch, in seconds.
    pub launch_timestamp: i64,
}

/// What one trade moves: `tokens` units of the token one way and `lamports`
/// of the native currency the other way.
#[derive(Debug, Clone, Copy, PartialEq, Eq, Structural)]
pub struct Settlement {
    pub tokens: u64,
    pub lamports: u64,
}

/// Whether the market was launched less than a day before `now`.
pub open spec fn is_young(config: BondingConfig, now: i64) -> bool {
    now - config.launch_timestamp < 86400
}

/// Percentage of the supply sold, rounded down.
pub open spec fn sold_percent(config: BondingConfig) -> int {
    (config.tokens_sold * 100) / (config.total_supply as int)
}

/// Whether the market is alive at `now`: young, or at least 70% sold. The sold
/// fraction of an old market with no supply cannot be computed.
pub open spec fn alive_result(config: BondingConfig, now: i64) -> Result<bool, ErrorCode> {
    if is_young(config, now) {
        Ok(true)
    } else if config.total_supply == 0 {
        Err(ErrorCode::DivisionByZero)
    } else {
        Ok(sold_percent(config) >= 70)
    }
}

/// The record that a launch creates.
pub open spec fn launched(
    token_mint: [u8; 32],
    bump: u8,
    now: i64,
    supply: u64,
    curve_type: u8,
) -> BondingConfig {
    BondingConfig {
        token_mint,
        total_supply: supply,
        curve_type,
        bump,
        tokens_sold: 0,
        launch_timestamp: now,
    }
}

/// The record after `amount` more units were sold to buyers.
pub open spec fn after_buy(config: BondingConfig, amount: u64) -> BondingConfig {
    BondingConfig { tokens_sold: (config.tokens_sold + amount) as u64, ..config }
}

/// The record after `amount` units were sold back, the counter stopping at zero.
pub open spec fn after_sell(config: BondingConfig, amount: u64) -> BondingConfig {
    BondingConfig {
        tokens_sold: if amount >= config.tokens_sold {
            0
        } else {
            (config.tokens_sold - amount) as u64
        },
        ..config
    }
}

/// Outcome of a buy of `amount` units by a buyer holding `buyer_lamports`.
pub open spec fn buy_result(
    config: BondingConfig,
    now: i64,
    buyer_lamports: u64,
    amount: u64,
) -> Result<Settlement, ErrorCode> {
    if config.curve_type == 3 && alive_result(config, now) is Err {
        Err(alive_result(config, now)->Err_0)
    } else if config.curve_type == 3 && alive_result(config, now) == Ok::<bool, ErrorCode>(false) {
        Err(ErrorCode::TokenSelfDestructed)
    } else if price_result(config.curve_type, config.tokens_sold as nat) is Err {
        Err(price_result(config.curve_type, config.tokens_sold as nat)->Err_0)
    } else {
        let total = price_result(config.curve_type, config.tokens_sold as nat)->Ok_0 * amount;
        if total > u64::MAX {
            Err(ErrorCode::ArithmeticOverflow)
        } else if buyer_lamports < total {
            Err(ErrorCode::InsufficientFunds)
        } else if config.tokens_sold + amount > u64::MAX {
            Err(ErrorCode::ArithmeticOverflow)
        } else {
            Ok(Settlement { tokens: amount, lamports: total as u64 })
        }
    }
}

/// Outcome of a sell of `amount` units, priced at the current counter.
pub open spec fn sell_result(config: BondingConfig, amount: u64) -> Result<Settlement, ErrorCode> {
    if price_result(config.curve_type, config.tokens_sold as nat) is Err {
        Err(price_result(config.curve_type, config.tokens_sold as nat)->Err_0)
    } else {
        let total = price_result(config.curve_type, config.tokens_sold as nat)->Ok_0 * amount;
        if total > u64::MAX {
            Err(ErrorCode::ArithmeticOverflow)
        } else {
            Ok(Settlement { tokens: amount, lamports: total as u64 })
        }
    }
}

/// Outcome of a destroy at `now`.
pub open spec fn nuke_result(config: BondingConfig, now: i64) -> Result<(), ErrorCode> {
    if config.curve_type != 3 {
        Err(ErrorCode::NotTimeBomb)
    } else if alive_result(config, now) is Err {
        Err(alive_result(config, now)->Err_0)
    } else if alive_result(config, now)->Ok_0 {
        Err(ErrorCode::TokenStillAlive)
    } else {
        Ok(())
    }
}

/// A market is alive during its first day whatever it has sold; it is dead
/// exactly when a day has passed and less than 70% of a non-empty supply is sold.
pub proof fn lemma_alive_window(config: BondingConfig, now: i64)
    ensures
        is_young(config, now) ==> alive_result(config, now) == Ok::<bool, ErrorCode>(true),
        alive_result(config, now) == Ok::<bool, ErrorCode>(false) <==> (!is_young(config, now)
            && config.total_supply > 0 && sold_percent(config) < 70),
{
}

/// A buy followed at once by a sell of the same amount puts the counter back
/// where it was, but refunds the price of the raised counter: the trader's
/// native balance comes back exactly when the price is the same at both
/// counters, and on the linear curve the refund is never less than the payment.
pub proof fn lemma_buy_sell_round_trip(
    config: BondingConfig,
    now: i64,
    buyer_lamports: u64,
    amount: u64,
)
    requires
        buy_result(config, now, buyer_lamports, amount) is Ok,
    ensures
        ({
            let curve = curve_of(config.curve_type);
            let paid = buy_result(config, now, buyer_lamports, amount)->Ok_0;
            let raised = after_buy(config, amount);
            let refund = sell_result(raised, amount);
            &&& paid == (Settlement {
                tokens: amount,
                lamports: (curve_price(curve, config.tokens_sold as nat) * amount) as u64,
            })
            &&& refund is Ok ==> after_sell(raised, amount) == config
            &&& refund is Ok ==> refund->Ok_0 == (Settlement {
                tokens: amount,
                lamports: (curve_price(curve, raised.tokens_sold as nat) * amount) as u64,
            })
            &&& (refund is Ok && amount > 0) ==> (refund->Ok_0.lamports == paid.lamports
                <==> curve_price(curve, config.tokens_sold as nat) == curve_price(
                curve,
                raised.tokens_sold as nat,
            ))
            &&& (refund is Ok && config.curve_type == 0) ==> refund->Ok_0.lamports
                >= paid.lamports
        }),
{
    let curve = curve_of(config.curve_type);
    let raised = after_buy(config, amount);
    let p1 = curve_price(curve, config.tokens_sold as nat);
    let p2 = curve_price(curve, raised.tokens_sold as nat);
    crate::curve::lemma_price_fits(curve, config.tokens_sold as nat);
    if sell_result(raised, amount) is Ok {
        crate::curve::lemma_price_fits(curve, raised.tokens_sold as nat);
        if amount > 0 {
            assert(p1 * amount == p2 * amount <==> p1 == p2) by (nonlinear_arith)
                requires
                    amount > 0,
            ;
        }
        if config.curve_type == 0 {
            crate::curve::lemma_linear_monotone(config.tokens_sold, raised.tokens_sold);
            assert(p1 * amount <= p2 * amount) by (nonlinear_arith)
                requires
                    p1 <= p2,
            ;
        }
    }
}

/// Destroying fails with `NotTimeBomb` on every curve but the time bomb, and
/// with `TokenStillAlive` on a time bomb in its first day or with 70% sold.
pub proof fn lemma_nuke_guards(config: BondingConfig, now: i64)
    ensures
        config.curve_type != 3 ==> nuke_result(config, now) == Err::<(), ErrorCode>(
            ErrorCode::NotTimeBomb,
        ),
        config.curve_type == 3 && is_young(config, now) ==> nuke_result(config, now) == Err::<
            (),
            ErrorCode,
        >(ErrorCode::TokenStillAlive),
        config.curve_type == 3 && config.total_supply > 0 && sold_percent(config) >= 70
            ==> nuke_result(config, now) == Err::<(), ErrorCode>(ErrorCode::TokenStillAlive),
{
}

/// Whether the market is alive at `now`: launched less than a day ago, or with
/// at least 70% of its supply sold.
pub fn is_token_alive(config: &BondingConfig, now: i64) -> (r: Result<bool, ErrorCode>)
    ensures
        r == alive_result(*config, now),
{
    let duration: i128 = now as i128 - config.launch_timestamp as i128;
    if duration < ALIVE_WINDOW_SECS as i128 {
        return Ok(true);
    }
    if config.total_supply == 0 {
        return Err(ErrorCode::DivisionByZero);
    }
    let percent: u128 = (config.tokens_sold as u128) * 100 / (config.total_supply as u128);
    Ok(percent >= ALIVE_SOLD_PERCENT as u128)
}

/// Creates the record of a new market with nothing sold. The host mints
/// `supply` units to the launcher.
pub fn launch_token(token_mint: [u8; 32], bump: u8, now: i64, supply: u64, curve_type: u8) -> (r:
    Result<BondingConfig, ErrorCode>)
    ensures
        valid_curve(curve_type) ==> r == Ok::<BondingConfig, ErrorCode>(
            launched(token_mint, bump, now, supply, curve_type),
        ),
        !valid_curve(curve_type) ==> r == Err::<BondingConfig, ErrorCode>(
            ErrorCode::InvalidCurveType,
        ),
{
    CurveType::from_tag(curve_type)?;
    Ok(
        BondingConfig {
            token_mint,
            total_supply: supply,
            curve_type,
            bump,
            tokens_sold: 0,
            launch_timestamp: now,
        },
    )
}

/// Sells `amount` units to a buyer holding `buyer_lamports`. On success the
/// buyer pays `lamports` to the market's owner and receives `tokens` units from
/// the vault; on failure the record is left as it was.
pub fn buy_tokens(config: &mut BondingConfig, now: i64, buyer_lamports: u64, amount: u64) -> (r:
    Result<Settlement, ErrorCode>)
    ensures
        r == buy_result(*old(config), now, buyer_lamports, amount),
        r is Ok ==> *final(config) == after_buy(*old(config), amount),
        r is Err ==> *final(config) == *old(config),
{
    if config.curve_type == TIME_BOMB_TAG && !is_token_alive(config, now)? {
        return Err(ErrorCode::TokenSelfDestructed);
    }
    let price_per_token = get_price(config.curve_type, config.tokens_sold)?;
    let total_price = match price_per_token.checked_mul(amount) {
        Some(t) => t,
        None => return Err(ErrorCode::ArithmeticOverflow),
    };
    if buyer_lamports < total_price {
        return Err(ErrorCode::InsufficientFunds);
    }
    let sold = match config.tokens_sold.checked_add(amount) {
        Some(s) => s,
        None => return Err(ErrorCode::ArithmeticOverflow),
    };
    config.tokens_sold = sold;
    Ok(Settlement { tokens: amount, lamports: total_price })
}

/// Buys `amount` units back from a seller, at the price of the current counter.
/// On success the owner pays `lamports` to the seller and the seller moves
/// `tokens` units into the vault; the counter stops at zero.
pub fn sell_tokens(config: &mut BondingConfig, amount: u64) -> (r: Result<Settlement, ErrorCode>)
    ensures
        r == sell_result(*old(config), amount),
        r is Ok ==> *final(config) == after_sell(*old(config), amount),
        r is Err ==> *final(config) == *old(config),
{
    let price_per_token = get_price(config.curve_type, config.tokens_sold)?;
    let total_refund = match price_per_token.checked_mul(amount) {
        Some(t) => t,
        None => return Err(ErrorCode::ArithmeticOverflow),
    };
    config.tokens_sold = config.tokens_sold.saturating_sub(amount);
    Ok(Settlement { tokens: amount, lamports: total_refund })
}

/// Checks that a time-bomb market may be destroyed at `now`: it must be dead.
/// On success the host closes the mint and hands its balance to the owner.
pub fn nuke_token(config: &BondingConfig, now: i64) -> (r: Result<(), ErrorCode>)
    ensures
        r == nuke_result(*config, now),
{
    if config.curve_type != TIME_BOMB_TAG {
        return Err(ErrorCode::NotTimeBomb);
    }
    if is_token_alive(config, now)? {
        return Err(ErrorCode::TokenStillAlive);
    }
    Ok(())
}

} // verus!

//! The market entity: its record, lifecycle transitions, and the
//! constant-product pricing update that every trade runs through.

use vstd::prelude::*;
use crate::math::{lemma_price_le_scale, lemma_u64_mul_fits_u128, spec_price, PRICE_SCALE};

verus! {

/// Opaque 32-byte identity handle on the host ledger: an owner, an oracle
/// feed, or one of the two position tokens.  The pricing logic stores
/// these and never looks inside them.
#[derive(Clone, Copy, Debug, PartialEq, Eq)]
pub struct AccountId(pub [u8; 32]);

/// Lifecycle phase of a market.  The intended order of transitions is
/// Created -> Prepare -> Active -> Resolved; guarding which transition is
/// legal is the calling layer's responsibility.
#[derive(Clone, Copy, Debug, PartialEq, Eq, Structural)]
pub enum MarketStatus {
    Created,
    Prepare,
    Active,
    Resolved,
}

/// The one error the pricing engine reports: any overflow, underflow or
/// division by zero in a checked arithmetic step.
#[derive(Clone, Copy, Debug, PartialEq, Eq, Structural)]
pub enum ContractError {
    ArithmeticError,
}

/// State of one binary prediction market.
#[derive(Clone, Copy, Debug)]
pub struct Market {
    /// Raw bit pattern of the decimal threshold the market predicts
    /// against; immutable after creation and never interpreted here.
    pub value: u64,
    /// Tolerance band around `value`, read only by the resolution layer.
    pub range: u8,
    /// Owner of the market.
    pub creator: AccountId,
    /// Oracle feed consulted at resolution.
    pub feed: AccountId,
    /// The YES position token.
    pub token_a: AccountId,
    /// The NO position token.
    pub token_b: AccountId,
    /// Lifecycle phase gating which operations are legal.
    pub market_status: MarketStatus,
    /// Pool reserve of the YES side.
    pub token_a_amount: u64,
    /// Pool reserve of the NO side.
    pub token_b_amount: u64,
    /// Quoted YES price, scaled by `PRICE_SCALE`.
    pub token_price_a: u64,
    /// Quoted NO price, scaled by `PRICE_SCALE`.
    pub token_price_b: u64,
    /// Aggregate liquidity counter, reset at initialization.
    pub total_reserve: u64,
    /// Cumulative YES volume bought since creation; never decreases.
    pub yes_amount: u64,
    /// Cumulative NO volume bought since creation; never decreases.
    pub no_amount: u64,
    /// Settled outcome; meaningful only once the market is Resolved.
    pub result: bool,
    /// Address-derivation nonce, set by the allocating layer.
    pub bump: u8,
    /// Creation timestamp.
    pub date: i64,
}

/// Parameters seeding one new market.  `value` carries the raw bit
/// pattern of the decimal threshold.
#[derive(Clone, Debug)]
pub struct MarketParams {
    pub market_id: String,
    pub value: u64,
    pub range: u8,
    pub token_amount: u64,
    pub token_price: u64,
    pub date: i64,
    pub name_a: Option<String>,
    pub symbol_a: Option<String>,
    pub url_a: Option<String>,
    pub name_b: Option<String>,
    pub symbol_b: Option<String>,
    pub url_b: Option<String>,
}

/// Parameters of one trade against a market's pool.
#[derive(Clone, Debug)]
pub struct BettingParams {
    pub market_id: String,
    pub amount: u64,
    pub is_yes: bool,
}

/// The constant-product invariant `k` of the pool: the product of the two
/// reserves before a trade.
pub open spec fn pool_product(m: Market) -> int {
    m.token_a_amount * m.token_b_amount
}

/// Every checked step of a YES trade of `amount` passes: the cumulative
/// volume still fits, the YES reserve keeps at least one unit, the
/// restored NO reserve fits 64 bits, and so does the total liquidity.
pub open spec fn yes_trade_ok(m: Market, amount: u64) -> bool {
    &&& m.yes_amount + amount <= u64::MAX
    &&& amount < m.token_a_amount
    &&& pool_product(m) / (m.token_a_amount - amount) <= u64::MAX
    &&& m.token_a_amount - amount + pool_product(m) / (m.token_a_amount - amount) <= u64::MAX
}

/// Mirror image of `yes_trade_ok` for a NO trade: the NO reserve is the
/// consumed side and the YES reserve is restored from the product.
pub open spec fn no_trade_ok(m: Market, amount: u64) -> bool {
    &&& m.no_amount + amount <= u64::MAX
    &&& amount < m.token_b_amount
    &&& pool_product(m) / (m.token_b_amount - amount) <= u64::MAX
    &&& m.token_b_amount - amount + pool_product(m) / (m.token_b_amount - amount) <= u64::MAX
}

/// A trade of `amount` on the given side passes every checked step.
pub open spec fn trade_ok(m: Market, amount: u64, is_yes: bool) -> bool {
    if is_yes {
        yes_trade_ok(m, amount)
    } else {
        no_trade_ok(m, amount)
    }
}

/// The market after a successful trade: the consumed reserve shrinks by
/// `amount`, the paired reserve is restored to `k` over the new consumed
/// reserve (rounded down), the side's cumulative volume grows, and both
/// prices are requoted from the new reserves whenever the new total
/// liquidity is positive; a drained pool keeps its last quoted prices.
pub open spec fn trade_result(m: Market, amount: u64, is_yes: bool) -> Market {
    let k = pool_product(m);
    let new_a = if is_yes {
        m.token_a_amount - amount
    } else {
        k / (m.token_b_amount - amount)
    };
    let new_b = if is_yes {
        k / (m.token_a_amount - amount)
    } else {
        m.token_b_amount - amount
    };
    let total = new_a + new_b;
    Market {
        token_a_amount: new_a as u64,
        token_b_amount: new_b as u64,
        yes_amount: if is_yes {
            (m.yes_amount + amount) as u64
        } else {
            m.yes_amount
        },
        no_amount: if is_yes {
            m.no_amount
        } else {
            (m.no_amount + amount) as u64
        },
        token_price_a: if total > 0 {
            spec_price(new_b, total) as u64
        } else {
            m.token_price_a
        },
        token_price_b: if total > 0 {
            spec_price(new_a, total) as u64
        } else {
            m.token_price_b
        },
        ..m
    }
}

/// One trade as a total state transformation: the post-state when every
/// checked step passes, the unchanged market when any step fails.
pub open spec fn apply_trade(m: Market, amount: u64, is_yes: bool) -> Market {
    if trade_ok(m, amount, is_yes) {
        trade_result(m, amount, is_yes)
    } else {
        m
    }
}

/// The fixed namespace tag of the signer-seed tuple: the ASCII bytes of
/// "market".
pub open spec fn market_seed() -> Seq<u8> {
    seq![109u8, 97u8, 114u8, 107u8, 101u8, 116u8]
}

impl Market {
    /// One-shot initializer, run exactly once on a freshly allocated
    /// record: writes the immutable identity and parameter fields, seeds
    /// both reserves to `token_amount` and both prices to `token_price`,
    /// resets the status to `Created`, and zeroes every counter and the
    /// outcome.  The address-derivation nonce is left to the allocator.
    pub fn update_market_settings(
        &mut self,
        value: u64,
        range: u8,
        creator: AccountId,
        feed: AccountId,
        token_a: AccountId,
        token_b: AccountId,
        token_amount: u64,
        token_price: u64,
        date: i64,
    )
        ensures
            final(self).value == value,
            final(self).range == range,
            final(self).creator == creator,
            final(self).feed == feed,
            final(self).token_a == token_a,
            final(self).token_b == token_b,
            final(self).market_status == MarketStatus::Created,
            final(self).token_a_amount == token_amount,
            final(self).token_b_amount == token_amount,
            final(self).token_price_a == token_price,
            final(self).token_price_b == token_price,
            final(self).total_reserve == 0,
            final(self).yes_amount == 0,
            final(self).no_amount == 0,
            final(self).result == false,
            final(self).bump == old(self).bump,
            final(self).date == date,
    {
        self.value = value;
        self.range = range;
        self.creator = creator;
        self.feed = feed;
        self.token_a = token_a;
        self.token_b = token_b;
        self.market_status = MarketStatus::Created;
        self.token_a_amount = token_amount;
        self.token_b_amount = token_amount;
        self.token_price_a = token_price;
        self.token_price_b = token_price;
        self.total_reserve = 0;
        self.yes_amount = 0;
        self.no_amount = 0;
        self.result = false;
        self.date = date;
    }

    /// Unconditional overwrite of the lifecycle status; nothing else
    /// changes.  Whether the requested transition is legal is checked by
    /// the calling layer, not here.
    pub fn update_market_status(&mut self, status: MarketStatus)
        ensures
            *final(self) == (Market { market_status: status, ..*old(self) }),
    {
        self.market_status = status;
    }

    /// Constant-product pricing update for one trade of `amount` units on
    /// the YES side (`is_yes`) or the NO side.  On success the market
    /// becomes exactly `trade_result`; when any checked arithmetic step
    /// would overflow, drain the consumed reserve, or divide by zero, the
    /// whole call fails with `ArithmeticError` and no field changes.
    pub fn set_token_price(&mut self, amount: u64, is_yes: bool) -> (r: Result<(), ContractError>)
        ensures
            *final(self) == apply_trade(*old(self), amount, is_yes),
            r is Ok <==> trade_ok(*old(self), amount, is_yes),
            r is Err ==> r == Err::<(), ContractError>(ContractError::ArithmeticError)
                && *final(self) == *old(self),
    {
        if is_yes {
            // Cumulative YES volume grows by the gross trade size.
            let new_yes = match self.yes_amount.checked_add(amount) {
                Some(v) => v,
                None => {
                    return Err(ContractError::ArithmeticError);
                },
            };
            proof {
                lemma_u64_mul_fits_u128(self.token_a_amount, self.token_b_amount);
            }
            // The invariant k, in the widened range it always fits.
            let k = (self.token_a_amount as u128) * (self.token_b_amount as u128);
            // The consumed reserve after the purchase.
            let new_a = match self.token_a_amount.checked_sub(amount) {
                Some(v) => v,
                None => {
                    return Err(ContractError::ArithmeticError);
                },
            };
            // Restore the invariant: the paired reserve becomes k over the
            // new consumed reserve, failing on a drained divisor.
            let quotient = match k.checked_div(new_a as u128) {
                Some(v) => v,
                None => {
                    return Err(ContractError::ArithmeticError);
                },
            };
            if quotient > u64::MAX as u128 {
                return Err(ContractError::ArithmeticError);
            }
            let new_b = quotient as u64;
            let total = match new_a.checked_add(new_b) {
                Some(v) => v,
                None => {
                    return Err(ContractError::ArithmeticError);
                },
            };
            // Every check has passed: commit the new state.
            self.yes_amount = new_yes;
            self.token_a_amount = new_a;
            self.token_b_amount = new_b;
            if total > 0 {
                self.requote(total);
            }
            Ok(())
        } else {
            // Cumulative NO volume grows by the gross trade size.
            let new_no = match self.no_amount.checked_add(amount) {
                Some(v) => v,
                None => {
                    return Err(ContractError::ArithmeticError);
                },
            };
            proof {
                lemma_u64_mul_fits_u128(self.token_a_amount, self.token_b_amount);
            }
            // The invariant k, in the widened range it always fits.
            let k = (self.token_a_amount as u128) * (self.token_b_amount as u128);
            // The consumed reserve after the purchase.
            let new_b = match self.token_b_amount.checked_sub(amount) {
                Some(v) => v,
                None => {
                    return Err(ContractError::ArithmeticError);
                },
            };
            // Restore the invariant: the paired reserve becomes k over the
            // new consumed reserve, failing on a drained divisor.
            let quotient = match k.checked_div(new_b as u128) {
                Some(v) => v,
                None => {
                    return Err(ContractError::ArithmeticError);
                },
            };
            if quotient > u64::MAX as u128 {
                return Err(ContractError::ArithmeticError);
            }
            let new_a = quotient as u64;
            let total = match new_a.checked_add(new_b) {
                Some(v) => v,
                None => {
                    return Err(ContractError::ArithmeticError);
                },
            };
            // Every check has passed: commit the new state.
            self.no_amount = new_no;
            self.token_a_amount = new_a;
            self.token_b_amount = new_b;
            if total > 0 {
                self.requote(total);
            }
            Ok(())
        }
    }

    /// Requote both prices from the already-updated reserves: each side's
    /// price is the opposite reserve's share of the total liquidity,
    /// scaled to `PRICE_SCALE` and rounded down.
    fn requote(&mut self, total: u64)
        requires
            total == old(self).token_a_amount + old(self).token_b_amount,
            total > 0,
        ensures
            *final(self) == (Market {
                token_price_a: spec_price(old(self).token_b_amount as int, total as int) as u64,
                token_price_b: spec_price(old(self).token_a_amount as int, total as int) as u64,
                ..*old(self)
            }),
    {
        proof {
            lemma_u64_mul_fits_u128(self.token_b_amount, PRICE_SCALE);
            lemma_u64_mul_fits_u128(self.token_a_amount, PRICE_SCALE);
            lemma_price_le_scale(self.token_b_amount as int, total as int);
            lemma_price_le_scale(self.token_a_amount as int, total as int);
        }
        let price_a = (self.token_b_amount as u128) * (PRICE_SCALE as u128) / (total as u128);
        let price_b = (self.token_a_amount as u128) * (PRICE_SCALE as u128) / (total as u128);
        self.token_price_a = price_a as u64;
        self.token_price_b = price_b as u64;
    }

    /// Domain-separation tuple the authorization layer signs with to prove
    /// the program's authority over the market's custodial accounts: the
    /// fixed namespace tag, the market's identifier bytes, and the
    /// address-derivation nonce.  Pure and deterministic.
    pub fn get_signer(bump: u8, market_id: &[u8]) -> (r: Vec<Vec<u8>>)
        ensures
            r@.len() == 3,
            r@[0]@ == market_seed(),
            r@[1]@ == market_id@,
            r@[2]@ == seq![bump],
    {
        let mut tag: Vec<u8> = Vec::new();
        tag.push(109);
        tag.push(97);
        tag.push(114);
        tag.push(107);
        tag.push(101);
        tag.push(116);
        proof {
            assert(tag@ =~= market_seed());
        }
        let mut id: Vec<u8> = Vec::new();
        let mut i: usize = 0;
        while i < market_id.len()
            invariant
                i <= market_id.len(),
                id@ == market_id@.subrange(0, i as int),
            decreases market_id.len() - i,
        {
            id.push(market_id[i]);
            i = i + 1;
        }
        proof {
            assert(id@ =~= market_id@);
        }
        let mut nonce: Vec<u8> = Vec::new();
        nonce.push(bump);
        proof {
            assert(nonce@ =~= seq![bump]);
        }
        let mut r: Vec<Vec<u8>> = Vec::new();
        r.push(tag);
        r.push(id);
        r.push(nonce);
        r
    }
}

} // verus!

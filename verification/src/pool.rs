//! The pool state manager and contract surface.
//!
//! The pool owns two token reserve records and the cached invariant `k`.
//! Operations that move tokens are split into a synchronous decision step
//! (validate, price, and hand the host the transfer legs to perform) and
//! confirmation callbacks that commit the pending reserve deltas once the
//! transfer legs are known to have succeeded. Reserves are held unchanged
//! between initiation and confirmation: the single commit point for a swap
//! or a liquidity addition is `callback_update`.

use vstd::prelude::*;
use vstd::arithmetic::div_mod::{lemma_basic_div, lemma_div_pos_is_pos};
use vstd::arithmetic::mul::lemma_mul_nonnegative;
use crate::errors::AmmError;
use crate::math::{calc_dy, decimals, lemma_pow10_pos, pow10, pow10_checked, quote, scaled,
    whole_units};

verus! {

/// The identity of an external account or token-ledger contract.
pub type AccountId = String;

/// One side of the pool: a token record.
#[derive(Debug)]
pub struct Token {
    /// The external ledger contract that custodies this token.
    pub account_id: AccountId,
    /// The amount of this token currently attributed to the pool, in the
    /// token's native integer unit.
    pub reserve: u128,
    /// The ticker symbol; display only, no semantic role in pricing.
    pub ticker: String,
    /// The number of fractional digits used to interpret `reserve`.
    pub decimal: u8,
    /// Whether `decimal` has been confirmed by the token's own metadata.
    /// Pricing is rejected until both sides' decimals are confirmed.
    pub decimal_known: bool,
}

/// The pool: an administrator, the cached invariant, and the two sides.
#[derive(Debug)]
pub struct Contract {
    /// The pool's administrator; the only account allowed to add liquidity.
    pub admin: AccountId,
    /// Cached invariant `k`, tracked at whole-unit granularity. Derived:
    /// recomputed at every commit point, never independently mutated.
    pub k: u128,
    /// Token on side A.
    pub token_a: Token,
    /// Token on side B.
    pub token_b: Token,
}

/// The pending outcome of a swap, handed to the host: pull `amount_out`'s
/// counterpart in, pay `amount_out` of `token_out` to `receiver`, and on
/// confirmation commit the reserves to `a_added` and `b_added`.
#[derive(Debug)]
pub struct SwapRequest {
    /// Side-A reserve after the swap commits.
    pub a_added: u128,
    /// Side-B reserve after the swap commits.
    pub b_added: u128,
    /// The ledger contract of the output-side token.
    pub token_out: AccountId,
    /// The account owed the output amount.
    pub receiver: AccountId,
    /// The priced output amount.
    pub amount_out: u128,
}

/// The transfer-out leg of a swap, handed to the host after the
/// transfer-in leg is confirmed.
#[derive(Debug)]
pub struct TransferCmd {
    /// The ledger contract to transfer on.
    pub token: AccountId,
    /// The account to pay.
    pub receiver: AccountId,
    /// The amount to pay.
    pub amount: u128,
}

/// The pending outcome of a liquidity addition: on confirmation of both
/// transfer legs, commit the reserves to `a_added` and `b_added`.
#[derive(Debug)]
pub struct LiquidityRequest {
    /// Side-A reserve after the addition commits.
    pub a_added: u128,
    /// Side-B reserve after the addition commits.
    pub b_added: u128,
}

/// The invariant product at whole-unit granularity:
/// `(reserve_a / 10^decimal_a) * (reserve_b / 10^decimal_b)`.
pub open spec fn k_value(c: Contract) -> int {
    whole_units(c.token_a.reserve, c.token_a.decimal) * whole_units(
        c.token_b.reserve,
        c.token_b.decimal,
    )
}

/// The cached `k` equals the product of the two whole-unit reserves.
pub open spec fn k_consistent(c: Contract) -> bool {
    c.k == k_value(c)
}

/// The pool with its cached invariant recomputed from current reserves.
pub open spec fn recalc_k(c: Contract) -> Contract {
    Contract { k: k_value(c) as u128, ..c }
}

/// The pool with both reserves replaced, everything else unchanged.
pub open spec fn with_reserves(c: Contract, ra: u128, rb: u128) -> Contract {
    Contract {
        token_a: Token { reserve: ra, ..c.token_a },
        token_b: Token { reserve: rb, ..c.token_b },
        ..c
    }
}

/// The priced output of a swap from `tin` into `tout`, after scaling both
/// reserves to the common basis; error precedence included.
pub open spec fn swap_quote(tin: Token, tout: Token, dx: u128) -> Result<u128, AmmError> {
    if scaled(tin.reserve, tin.decimal) > u128::MAX || scaled(tout.reserve, tout.decimal)
        > u128::MAX {
        Err(AmmError::Overflow)
    } else {
        quote(scaled(tin.reserve, tin.decimal) as u128, scaled(tout.reserve, tout.decimal) as u128, dx)
    }
}

/// The full outcome of one swap attempt from `tin` into `tout`:
/// `Ok((new input-side reserve, new output-side reserve, amount out))`,
/// or the error that rejects it.
pub open spec fn swap_step(tin: Token, tout: Token, dx: u128) -> Result<
    (u128, u128, u128),
    AmmError,
> {
    match swap_quote(tin, tout, dx) {
        Err(e) => Err(e),
        Ok(dy) => if tin.reserve + dx > u128::MAX {
            Err(AmmError::Overflow)
        } else if dy > tout.reserve {
            Err(AmmError::Underflow)
        } else {
            Ok(((tin.reserve + dx) as u128, (tout.reserve - dy) as u128, dy))
        },
    }
}

/// The outcome of a liquidity addition: both reserves grow, or the
/// addition is rejected for overflow.
pub open spec fn liquidity_step(c: Contract, amount_a: u128, amount_b: u128) -> Result<
    (u128, u128),
    AmmError,
> {
    if c.token_a.reserve + amount_a > u128::MAX {
        Err(AmmError::Overflow)
    } else if c.token_b.reserve + amount_b > u128::MAX {
        Err(AmmError::Overflow)
    } else {
        Ok(((c.token_a.reserve + amount_a) as u128, (c.token_b.reserve + amount_b) as u128))
    }
}

/// The pool after a decimals answer for the token ledger `id` arrives.
/// Decimals are learned once and thereafter immutable; an answer for an
/// unknown ledger, or for a side already confirmed, changes nothing.
pub open spec fn learn_decimals(c: Contract, id: Seq<char>, d: u8) -> Contract {
    if id == c.token_a.account_id@ && !c.token_a.decimal_known {
        Contract { token_a: Token { decimal: d, decimal_known: true, ..c.token_a }, ..c }
    } else if id == c.token_b.account_id@ && !c.token_b.decimal_known {
        Contract { token_b: Token { decimal: d, decimal_known: true, ..c.token_b }, ..c }
    } else {
        c
    }
}

/// The whole-unit product is never negative.
pub proof fn lemma_k_value_nonneg(c: Contract)
    ensures
        k_value(c) >= 0,
{
    lemma_pow10_pos(c.token_a.decimal as nat);
    lemma_pow10_pos(c.token_b.decimal as nat);
    lemma_div_pos_is_pos(c.token_a.reserve as int, pow10(c.token_a.decimal as nat) as int);
    lemma_div_pos_is_pos(c.token_b.reserve as int, pow10(c.token_b.decimal as nat) as int);
    lemma_mul_nonnegative(
        whole_units(c.token_a.reserve, c.token_a.decimal),
        whole_units(c.token_b.reserve, c.token_b.decimal),
    );
}

/// Recomputing the cached invariant establishes its consistency.
pub proof fn lemma_recalc_k_consistent(c: Contract)
    requires
        k_value(c) <= u128::MAX,
    ensures
        k_consistent(recalc_k(c)),
{
    lemma_k_value_nonneg(c);
}

/// Recomputing the cached invariant twice in a row, with no intervening
/// reserve or decimals change, is the same as recomputing it once.
pub proof fn lemma_recalc_k_idempotent(c: Contract)
    ensures
        recalc_k(recalc_k(c)) == recalc_k(c),
{
    assert(k_value(recalc_k(c)) == k_value(c));
}

/// `reserve / 10^d`, total: where `10^d` exceeds the representable range
/// it also exceeds `reserve`, and the quotient is zero.
fn whole_units_checked(v: u128, d: u8) -> (r: u128)
    ensures
        r == whole_units(v, d),
{
    match pow10_checked(d) {
        Some(p) => {
            proof {
                lemma_pow10_pos(d as nat);
            }
            v / p
        },
        None => {
            proof {
                lemma_basic_div(v as int, pow10(d as nat) as int);
            }
            0
        },
    }
}

impl Token {
    /// A fresh token record for the ledger `account_id`: empty reserve,
    /// placeholder decimals awaiting the metadata answer.
    pub fn new(account_id: AccountId, prefix: &str) -> (t: Token)
        ensures
            t.account_id == account_id,
            t.reserve == 0,
            t.ticker@ == prefix@,
            t.decimal == 1,
            !t.decimal_known,
    {
        Token {
            account_id,
            reserve: 0,
            ticker: prefix.to_owned(),
            decimal: 1,
            decimal_known: false,
        }
    }
}

fn init_token(account_id: AccountId, prefix: &str) -> (t: Token)
    ensures
        t.account_id == account_id,
        t.reserve == 0,
        t.ticker@ == prefix@,
        t.decimal == 1,
        !t.decimal_known,
{
    Token::new(account_id, prefix)
}

impl Contract {
    /// Creates the pool once: owner recorded, both reserves zero, `k` zero,
    /// decimals of both sides still to be learned. A second initialization
    /// (the host reports existing state) is rejected and changes nothing.
    pub fn init(state_exists: bool, owner_id: AccountId, a_id: AccountId, b_id: AccountId) -> (r:
        Result<Contract, AmmError>)
        ensures
            state_exists ==> r == Err::<Contract, AmmError>(AmmError::AlreadyInitialized),
            !state_exists ==> (r matches Ok(c) && {
                &&& c.admin == owner_id
                &&& c.k == 0
                &&& c.token_a.account_id == a_id
                &&& c.token_a.reserve == 0
                &&& c.token_a.ticker@ == "a"@
                &&& c.token_a.decimal == 1
                &&& !c.token_a.decimal_known
                &&& c.token_b.account_id == b_id
                &&& c.token_b.reserve == 0
                &&& c.token_b.ticker@ == "b"@
                &&& c.token_b.decimal == 1
                &&& !c.token_b.decimal_known
                &&& k_consistent(c)
            }),
    {
        if state_exists {
            return Err(AmmError::AlreadyInitialized);
        }
        let c = Contract {
            admin: owner_id,
            k: 0,
            token_a: init_token(a_id, "a"),
            token_b: init_token(b_id, "b"),
        };
        proof {
            lemma_pow10_pos(c.token_a.decimal as nat);
            lemma_pow10_pos(c.token_b.decimal as nat);
            lemma_basic_div(0, pow10(c.token_a.decimal as nat) as int);
            lemma_basic_div(0, pow10(c.token_b.decimal as nat) as int);
            assert(whole_units(c.token_a.reserve, c.token_a.decimal) == 0);
            assert(whole_units(c.token_b.reserve, c.token_b.decimal) == 0);
            assert(k_value(c) == 0);
        }
        Ok(c)
    }

    /// Read-only snapshot of both sides: identity, symbol, reserve and
    /// decimals. No side effects.
    pub fn get_info(&self) -> (r: (
        (AccountId, String, u128, u8),
        (AccountId, String, u128, u8),
    ))
        ensures
            r.0.0 == self.token_a.account_id,
            r.0.1 == self.token_a.ticker,
            r.0.2 == self.token_a.reserve,
            r.0.3 == self.token_a.decimal,
            r.1.0 == self.token_b.account_id,
            r.1.1 == self.token_b.ticker,
            r.1.2 == self.token_b.reserve,
            r.1.3 == self.token_b.decimal,
    {
        (
            (
                self.token_a.account_id.clone(),
                self.token_a.ticker.clone(),
                self.token_a.reserve,
                self.token_a.decimal,
            ),
            (
                self.token_b.account_id.clone(),
                self.token_b.ticker.clone(),
                self.token_b.reserve,
                self.token_b.decimal,
            ),
        )
    }

    /// Prices one swap side: scale both reserves, quote the output, and
    /// form the pending reserve deltas. Pure; commits nothing.
    fn swap_side(tin: &Token, tout: &Token, dx: u128) -> (r: Result<(u128, u128, u128), AmmError>)
        ensures
            r == swap_step(*tin, *tout, dx),
    {
        let x = match decimals(tin.reserve, tin.decimal) {
            Ok(v) => v,
            Err(e) => {
                return Err(e);
            },
        };
        let y = match decimals(tout.reserve, tout.decimal) {
            Ok(v) => v,
            Err(e) => {
                return Err(e);
            },
        };
        let dy = match calc_dy(x, y, dx) {
            Ok(v) => v,
            Err(e) => {
                return Err(e);
            },
        };
        let new_in = match tin.reserve.checked_add(dx) {
            Some(v) => v,
            None => {
                return Err(AmmError::Overflow);
            },
        };
        let new_out = match tout.reserve.checked_sub(dy) {
            Some(v) => v,
            None => {
                return Err(AmmError::Underflow);
            },
        };
        Ok((new_in, new_out, dy))
    }

    /// Validates and prices a swap of `amount_in` of the token ledger
    /// `token_in` for the other side's token. Commits nothing: the returned
    /// request carries the transfer legs for the host to perform and the
    /// reserve deltas that `callback_update` commits on confirmation.
    pub fn swap(&mut self, caller: AccountId, token_in: AccountId, amount_in: u128) -> (r: Result<
        SwapRequest,
        AmmError,
    >)
        ensures
            *final(self) == *old(self),
            ({
                let c = *old(self);
                let in_a = token_in@ == c.token_a.account_id@;
                let in_b = token_in@ == c.token_b.account_id@;
                if !in_a && !in_b {
                    r == Err::<SwapRequest, AmmError>(AmmError::InvalidToken)
                } else if amount_in == 0 {
                    r == Err::<SwapRequest, AmmError>(AmmError::ZeroAmount)
                } else if !(c.token_a.decimal_known && c.token_b.decimal_known) {
                    r == Err::<SwapRequest, AmmError>(AmmError::DecimalsUnknown)
                } else if in_a {
                    match swap_step(c.token_a, c.token_b, amount_in) {
                        Err(e) => r == Err::<SwapRequest, AmmError>(e),
                        Ok(t) => r matches Ok(req) && (req.a_added == t.0 && req.b_added == t.1
                            && req.amount_out == t.2 && req.token_out@ == c.token_b.account_id@
                            && req.receiver@ == caller@),
                    }
                } else {
                    match swap_step(c.token_b, c.token_a, amount_in) {
                        Err(e) => r == Err::<SwapRequest, AmmError>(e),
                        Ok(t) => r matches Ok(req) && (req.b_added == t.0 && req.a_added == t.1
                            && req.amount_out == t.2 && req.token_out@ == c.token_a.account_id@
                            && req.receiver@ == caller@),
                    }
                }
            }),
    {
        let in_a = token_in == self.token_a.account_id;
        let in_b = token_in == self.token_b.account_id;
        if !in_a && !in_b {
            return Err(AmmError::InvalidToken);
        }
        if amount_in == 0 {
            return Err(AmmError::ZeroAmount);
        }
        if !(self.token_a.decimal_known && self.token_b.decimal_known) {
            return Err(AmmError::DecimalsUnknown);
        }
        if in_a {
            match Self::swap_side(&self.token_a, &self.token_b, amount_in) {
                Ok((new_in, new_out, dy)) => Ok(
                    SwapRequest {
                        a_added: new_in,
                        b_added: new_out,
                        token_out: self.token_b.account_id.clone(),
                        receiver: caller,
                        amount_out: dy,
                    },
                ),
                Err(e) => Err(e),
            }
        } else {
            match Self::swap_side(&self.token_b, &self.token_a, amount_in) {
                Ok((new_in, new_out, dy)) => Ok(
                    SwapRequest {
                        b_added: new_in,
                        a_added: new_out,
                        token_out: self.token_a.account_id.clone(),
                        receiver: caller,
                        amount_out: dy,
                    },
                ),
                Err(e) => Err(e),
            }
        }
    }

    /// Validates a liquidity addition by the pool owner. Commits nothing:
    /// the host moves both amounts from the owner into pool custody and
    /// confirms through `callback_update`, which commits the deltas.
    pub fn add_liquidity(&mut self, caller: AccountId, amount_a: u128, amount_b: u128) -> (r:
        Result<LiquidityRequest, AmmError>)
        ensures
            *final(self) == *old(self),
            ({
                let c = *old(self);
                if caller@ != c.admin@ {
                    r == Err::<LiquidityRequest, AmmError>(AmmError::Unauthorized)
                } else {
                    match liquidity_step(c, amount_a, amount_b) {
                        Err(e) => r == Err::<LiquidityRequest, AmmError>(e),
                        Ok(t) => r matches Ok(req) && (req.a_added == t.0 && req.b_added == t.1),
                    }
                }
            }),
    {
        if !(caller == self.admin) {
            return Err(AmmError::Unauthorized);
        }
        let a_added = match self.token_a.reserve.checked_add(amount_a) {
            Some(v) => v,
            None => {
                return Err(AmmError::Overflow);
            },
        };
        let b_added = match self.token_b.reserve.checked_add(amount_b) {
            Some(v) => v,
            None => {
                return Err(AmmError::Overflow);
            },
        };
        Ok(LiquidityRequest { a_added, b_added })
    }

    /// Reconciliation callback after the transfer-in leg of a swap: only
    /// the pool itself may call it. On a confirmed deposit it hands the
    /// host the transfer-out leg; on a failed one the pending operation
    /// aborts and reserves stay exactly as they were.
    pub fn callback_ft_deposit(
        &mut self,
        caller: AccountId,
        self_id: AccountId,
        a_added: u128,
        b_added: u128,
        contract_id: AccountId,
        receiver_id: AccountId,
        amount: u128,
        deposit_ok: bool,
    ) -> (r: Result<TransferCmd, AmmError>)
        ensures
            *final(self) == *old(self),
            caller@ != self_id@ ==> r == Err::<TransferCmd, AmmError>(AmmError::Unauthorized),
            caller@ == self_id@ && !deposit_ok ==> r == Err::<TransferCmd, AmmError>(
                AmmError::TransferFailed,
            ),
            caller@ == self_id@ && deposit_ok ==> (r matches Ok(cmd) && (cmd.token == contract_id
                && cmd.receiver == receiver_id && cmd.amount == amount)),
    {
        if !(caller == self_id) {
            return Err(AmmError::Unauthorized);
        }
        if !deposit_ok {
            return Err(AmmError::TransferFailed);
        }
        // the pending deltas only ride along here: the host echoes them
        // into `callback_update` once the transfer-out leg confirms
        let _ = a_added;
        let _ = b_added;
        Ok(TransferCmd { token: contract_id, receiver: receiver_id, amount })
    }

    /// The commit point for swaps and liquidity additions: only the pool
    /// itself may call it, and only a confirmed final transfer leg commits
    /// the pending reserve deltas and recomputes `k`. Any failure leaves
    /// reserves and `k` exactly as they were.
    pub fn callback_update(
        &mut self,
        caller: AccountId,
        self_id: AccountId,
        a_added: u128,
        b_added: u128,
        transfer_ok: bool,
    ) -> (r: Result<(), AmmError>)
        ensures
            ({
                let c = *old(self);
                let committed = with_reserves(c, a_added, b_added);
                if caller@ != self_id@ {
                    r == Err::<(), AmmError>(AmmError::Unauthorized) && *final(self) == c
                } else if !transfer_ok {
                    r == Err::<(), AmmError>(AmmError::TransferFailed) && *final(self) == c
                } else if k_value(committed) > u128::MAX {
                    r == Err::<(), AmmError>(AmmError::Overflow) && *final(self) == c
                } else {
                    r == Ok::<(), AmmError>(()) && *final(self) == recalc_k(committed)
                        && k_consistent(*final(self))
                }
            }),
    {
        if !(caller == self_id) {
            return Err(AmmError::Unauthorized);
        }
        if !transfer_ok {
            return Err(AmmError::TransferFailed);
        }
        let wa = whole_units_checked(a_added, self.token_a.decimal);
        let wb = whole_units_checked(b_added, self.token_b.decimal);
        match wa.checked_mul(wb) {
            Some(k) => {
                self.token_a.reserve = a_added;
                self.token_b.reserve = b_added;
                self.k = k;
                proof {
                    let committed = with_reserves(*old(self), a_added, b_added);
                    assert(k_value(committed) == wa * wb);
                    assert(*self == recalc_k(committed));
                }
                Ok(())
            },
            None => Err(AmmError::Overflow),
        }
    }

    /// Reconciliation callback for a token's metadata answer: only the
    /// pool itself may call it. Records the answered decimals for the
    /// matching side, once, and recomputes `k`; an answer that would
    /// overflow the cached invariant changes nothing.
    pub fn callback_get_info(
        &mut self,
        caller: AccountId,
        self_id: AccountId,
        contract_id: AccountId,
        val: (String, u8),
    ) -> (r: Result<(), AmmError>)
        ensures
            ({
                let c = *old(self);
                let learned = learn_decimals(c, contract_id@, val.1);
                if caller@ != self_id@ {
                    r == Err::<(), AmmError>(AmmError::Unauthorized) && *final(self) == c
                } else if k_value(learned) > u128::MAX {
                    r == Err::<(), AmmError>(AmmError::Overflow) && *final(self) == c
                } else {
                    r == Ok::<(), AmmError>(()) && *final(self) == recalc_k(learned)
                        && k_consistent(*final(self))
                }
            }),
    {
        if !(caller == self_id) {
            return Err(AmmError::Unauthorized);
        }
        let set_a = contract_id == self.token_a.account_id && !self.token_a.decimal_known;
        let set_b = !set_a && contract_id == self.token_b.account_id && !self.token_b.decimal_known;
        let da = if set_a {
            val.1
        } else {
            self.token_a.decimal
        };
        let db = if set_b {
            val.1
        } else {
            self.token_b.decimal
        };
        let wa = whole_units_checked(self.token_a.reserve, da);
        let wb = whole_units_checked(self.token_b.reserve, db);
        match wa.checked_mul(wb) {
            Some(k) => {
                if set_a {
                    self.token_a.decimal = val.1;
                    self.token_a.decimal_known = true;
                }
                if set_b {
                    self.token_b.decimal = val.1;
                    self.token_b.decimal_known = true;
                }
                self.k = k;
                proof {
                    let learned = learn_decimals(*old(self), contract_id@, val.1);
                    assert(k_value(learned) == wa * wb);
                    assert(*self == recalc_k(learned));
                }
                Ok(())
            },
            None => Err(AmmError::Overflow),
        }
    }

    /// Recomputes the cached invariant `k` from the current reserves at
    /// whole-unit granularity. Reserves are untouched; an overflowing
    /// product is rejected and changes nothing.
    pub fn calc_k(&mut self) -> (r: Result<(), AmmError>)
        ensures
            r is Ok <==> k_value(*old(self)) <= u128::MAX,
            r is Ok ==> *final(self) == recalc_k(*old(self)) && k_consistent(*final(self)),
            r is Err ==> *final(self) == *old(self) && r == Err::<(), AmmError>(AmmError::Overflow),
    {
        let wa = whole_units_checked(self.token_a.reserve, self.token_a.decimal);
        let wb = whole_units_checked(self.token_b.reserve, self.token_b.decimal);
        match wa.checked_mul(wb) {
            Some(k) => {
                self.k = k;
                Ok(())
            },
            None => Err(AmmError::Overflow),
        }
    }
}

} // verus!

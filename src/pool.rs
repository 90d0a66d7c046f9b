use vstd::prelude::*;

use crate::error::SwapError;

verus! {

/// One of the two sides of a pool.
#[derive(Debug, Clone, Copy, PartialEq, Eq, Structural)]
pub enum Side {
    A,
    B,
}

/// The side that a trade sells, given the pool's tokens and the token offered:
/// `token_a` is tried first, then `token_b`.
pub open spec fn side_of(token_a: Seq<char>, token_b: Seq<char>, input_token: Seq<char>) -> Result<
    Side,
    SwapError,
> {
    if input_token == token_a {
        Ok(Side::A)
    } else if input_token == token_b {
        Ok(Side::B)
    } else {
        Err(SwapError::InvalidInputToken)
    }
}

/// Picks the side of the pool whose token is being sold.
pub fn select_side(token_a: &String, token_b: &String, input_token: &String) -> (r: Result<
    Side,
    SwapError,
>)
    ensures
        r == side_of(token_a@, token_b@, input_token@),
{
    if *input_token == *token_a {
        Ok(Side::A)
    } else if *input_token == *token_b {
        Ok(Side::B)
    } else {
        Err(SwapError::InvalidInputToken)
    }
}

impl Side {
    /// The side that a trade on this side buys from.
    pub open spec fn opposite(self) -> Side {
        match self {
            Side::A => Side::B,
            Side::B => Side::A,
        }
    }
}

/// A two-token pool as a request states it: each token's identifier and its
/// reserve before the trade.
pub struct Pool<R> {
    pub token_a: String,
    pub reserve_a: R,
    pub token_b: String,
    pub reserve_b: R,
}

/// A routed trade: the side being sold, the reserve of the token sold and the
/// reserve of the token bought, both as they were before the trade.
#[derive(Debug, PartialEq)]
pub struct Trade<R> {
    pub sold: Side,
    pub reserve_in: R,
    pub reserve_out: R,
}

/// What a swap returns: the amount handed to the trader and the pool's two
/// reserves after the trade.
#[derive(Debug, PartialEq)]
pub struct SwapResult<R> {
    pub amount_out: R,
    pub new_reserve_a: R,
    pub new_reserve_b: R,
}

impl<R> SwapResult<R> {
    pub open spec fn reserve_on(self, side: Side) -> R {
        match side {
            Side::A => self.new_reserve_a,
            Side::B => self.new_reserve_b,
        }
    }
}

impl<R: Copy> Pool<R> {
    pub open spec fn reserve_on(&self, side: Side) -> R {
        match side {
            Side::A => self.reserve_a,
            Side::B => self.reserve_b,
        }
    }

    pub open spec fn token_on(&self, side: Side) -> Seq<char> {
        match side {
            Side::A => self.token_a@,
            Side::B => self.token_b@,
        }
    }

    /// The trade that offering `input_token` to this pool makes.
    pub open spec fn trade_of(&self, input_token: Seq<char>) -> Result<Trade<R>, SwapError> {
        match side_of(self.token_a@, self.token_b@, input_token) {
            Ok(side) => Ok(
                Trade {
                    sold: side,
                    reserve_in: self.reserve_on(side),
                    reserve_out: self.reserve_on(side.opposite()),
                },
            ),
            Err(e) => Err(e),
        }
    }

    /// Routes a trade that sells `input_token`: selling token A reads the
    /// reserves as (A, B), selling token B as (B, A); any other token is
    /// refused.
    pub fn trade(&self, input_token: &String) -> (r: Result<Trade<R>, SwapError>)
        ensures
            r == self.trade_of(input_token@),
    {
        match select_side(&self.token_a, &self.token_b, input_token) {
            Ok(Side::A) => Ok(
                Trade { sold: Side::A, reserve_in: self.reserve_a, reserve_out: self.reserve_b },
            ),
            Ok(Side::B) => Ok(
                Trade { sold: Side::B, reserve_in: self.reserve_b, reserve_out: self.reserve_a },
            ),
            Err(e) => Err(e),
        }
    }
}

impl<R: Copy> Trade<R> {
    /// The result of this trade, given the amount paid out and the balances
    /// of the input and output sides after it.
    pub open spec fn result_of(self, amount_out: R, in_after: R, out_after: R) -> SwapResult<R> {
        match self.sold {
            Side::A => SwapResult { amount_out, new_reserve_a: in_after, new_reserve_b: out_after },
            Side::B => SwapResult { amount_out, new_reserve_a: out_after, new_reserve_b: in_after },
        }
    }

    /// Puts the input-side balance on the sold token's side and the
    /// output-side balance on the other.
    pub fn settle(&self, amount_out: R, in_after: R, out_after: R) -> (r: SwapResult<R>)
        ensures
            r == self.result_of(amount_out, in_after, out_after),
    {
        match self.sold {
            Side::A => SwapResult { amount_out, new_reserve_a: in_after, new_reserve_b: out_after },
            Side::B => SwapResult { amount_out, new_reserve_a: out_after, new_reserve_b: in_after },
        }
    }
}

/// A settled trade moves each reserve in one role only: the sold token's side
/// is the one the trade read as its input reserve and ends at the input-side
/// balance, and the other side is the one read as the output reserve and ends
/// at the output-side balance.
pub proof fn lemma_settle_moves_each_side_once<R: Copy>(
    pool: Pool<R>,
    input_token: Seq<char>,
    amount_out: R,
    in_after: R,
    out_after: R,
)
    requires
        pool.trade_of(input_token) is Ok,
    ensures
        ({
            let t = pool.trade_of(input_token)->Ok_0;
            let res = t.result_of(amount_out, in_after, out_after);
            &&& t.sold.opposite() != t.sold
            &&& pool.token_on(t.sold) == input_token
            &&& t.reserve_in == pool.reserve_on(t.sold)
            &&& t.reserve_out == pool.reserve_on(t.sold.opposite())
            &&& res.reserve_on(t.sold) == in_after
            &&& res.reserve_on(t.sold.opposite()) == out_after
            &&& res.amount_out == amount_out
        }),
{
}

/// Trading back: once a trade has settled, offering the token that was bought
/// to the pool with its new reserves sells the other side, reading as input
/// reserve the balance that the first trade left on its output side and as
/// output reserve the balance it left on its input side.
pub proof fn lemma_trade_back<R: Copy>(
    pool: Pool<R>,
    input_token: Seq<char>,
    amount_out: R,
    in_after: R,
    out_after: R,
)
    requires
        pool.token_a@ != pool.token_b@,
        pool.trade_of(input_token) is Ok,
    ensures
        ({
            let t = pool.trade_of(input_token)->Ok_0;
            let res = t.result_of(amount_out, in_after, out_after);
            let after = Pool {
                token_a: pool.token_a,
                reserve_a: res.new_reserve_a,
                token_b: pool.token_b,
                reserve_b: res.new_reserve_b,
            };
            after.trade_of(pool.token_on(t.sold.opposite())) == Ok::<Trade<R>, SwapError>(
                Trade { sold: t.sold.opposite(), reserve_in: out_after, reserve_out: in_after },
            )
        }),
{
}

} // verus!

//! The pool's state transitions: seeding a pool and swapping against it.
//!
//! Each operation works on a snapshot of the token holdings it touches. It
//! either refuses the request and leaves the snapshot as it was, or updates the
//! snapshot to the balances after settlement and returns the transfers, in
//! order, that the host must carry out.
use vstd::prelude::*;
use vstd::utf8::encode_utf8;

use crate::authority::{authority_of, authority_seeds, authority_seeds_of, create_program_address};
use crate::error::ErrorCode;
use crate::CONSTANT_PRICE;

verus! {

/// A token account as the pool sees it: its address and its balance.
#[derive(Clone, Copy, Debug)]
pub struct Holding {
    pub key: [u8; 32],
    pub amount: u64,
}

/// One transfer of `amount` tokens from `from` to `to`, authorised by
/// `authority`. Where `signer_seeds` is not empty, `authority` is the pool's
/// derived authority and signs with those seeds.
#[derive(Debug)]
pub struct TokenTransfer {
    pub from: [u8; 32],
    pub to: [u8; 32],
    pub authority: [u8; 32],
    pub amount: u64,
    pub signer_seeds: Vec<Vec<u8>>,
}

/// The pool record.
#[derive(Clone, Debug)]
pub struct Exchange {
    pub name_pool: String,
    pub provider: [u8; 32],
    pub token_x_amount: [u8; 32],
    pub token_y_amount: [u8; 32],
    pub reserve_token_x: [u8; 32],
    pub reserve_token_y: [u8; 32],
}

/// What seeding a pool works on: the provider, the pool record, the
/// provider's two holdings and the pool's two reserves.
#[derive(Clone, Debug)]
pub struct Initialize {
    pub owner: [u8; 32],
    pub exchange: Exchange,
    pub user_token_x: Holding,
    pub user_token_y: Holding,
    pub reserve_token_x: Holding,
    pub reserve_token_y: Holding,
}

/// What a swap works on: the program and the pool record that the
/// authority is derived from, the bump supplied for it, the caller, the
/// caller's two holdings and the pool's two reserves.
#[derive(Clone, Copy, Debug)]
pub struct Swap {
    pub program_id: [u8; 32],
    pub exchange_key: [u8; 32],
    pub pool_authority_bump: u8,
    pub owner: [u8; 32],
    pub user_token_x: Holding,
    pub user_token_y: Holding,
    pub reserve_token_x: Holding,
    pub reserve_token_y: Holding,
}

/// Whether `t` moves `amount` from `from` to `to` under `authority`, signed
/// with `seeds`.
pub open spec fn transfer_is(
    t: TokenTransfer,
    from: [u8; 32],
    to: [u8; 32],
    authority: Seq<u8>,
    amount: int,
    seeds: Seq<Seq<u8>>,
) -> bool {
    &&& t.from == from
    &&& t.to == to
    &&& t.authority@ == authority
    &&& t.amount == amount
    &&& t.signer_seeds.deep_view() == seeds
}

/// `h` with `delta` added to its balance.
pub open spec fn shifted(h: Holding, delta: int) -> Holding {
    Holding { key: h.key, amount: (h.amount + delta) as u64 }
}

/// The fixed price: route 0 pays `amount_in * CONSTANT_PRICE` of asset Y,
/// route 1 pays `amount_in / CONSTANT_PRICE` of asset X, rounded down.
pub open spec fn price(amount_in: u64, route: u64) -> int {
    if route == 0 {
        amount_in * CONSTANT_PRICE
    } else {
        (amount_in / CONSTANT_PRICE) as int
    }
}

/// The amount a swap of `amount_in` along `route` pays out.
pub fn amount_out(amount_in: u64, route: u64) -> (r: Result<u64, ErrorCode>)
    ensures
        route > 1 ==> r == Err::<u64, ErrorCode>(ErrorCode::InvalidRoute),
        route <= 1 && price(amount_in, route) <= u64::MAX ==> r == Ok::<u64, ErrorCode>(
            price(amount_in, route) as u64,
        ),
        route <= 1 && price(amount_in, route) > u64::MAX ==> r == Err::<u64, ErrorCode>(
            ErrorCode::Overflow,
        ),
        route == 0 && amount_in * 10 <= u64::MAX ==> r == Ok::<u64, ErrorCode>((amount_in * 10) as u64),
        route == 1 ==> r == Ok::<u64, ErrorCode>(amount_in / 10),
{
    if route == 0 {
        match amount_in.checked_mul(CONSTANT_PRICE) {
            Some(out) => Ok(out),
            None => Err(ErrorCode::Overflow),
        }
    } else if route == 1 {
        match amount_in.checked_div(CONSTANT_PRICE) {
            Some(out) => Ok(out),
            None => Err(ErrorCode::Overflow),
        }
    } else {
        Err(ErrorCode::InvalidRoute)
    }
}


/// Why seeding a pool with `token_x_amount` and `token_y_amount` from `pre`
/// is refused, if it is.
pub open spec fn initialize_error(pre: Initialize, token_x_amount: u64, token_y_amount: u64) -> Option<ErrorCode> {
    if token_x_amount > pre.user_token_x.amount || token_y_amount > pre.user_token_y.amount {
        Some(ErrorCode::InsufficientBalance)
    } else if pre.reserve_token_x.amount + token_x_amount > u64::MAX
        || pre.reserve_token_y.amount + token_y_amount > u64::MAX {
        Some(ErrorCode::Overflow)
    } else {
        None
    }
}

/// Seeds the pool: records the provider and the name on the pool record and
/// moves `token_x_amount` and `token_y_amount` from the provider's holdings to
/// the pool's reserves, under the provider's own authority.
pub fn initialize_pool(
    ctx: &mut Initialize,
    name_pool: String,
    token_x_amount: u64,
    token_y_amount: u64,
) -> (r: Result<Vec<TokenTransfer>, ErrorCode>)
    ensures
        match r {
            Ok(transfers) => {
                &&& initialize_error(*old(ctx), token_x_amount, token_y_amount) is None
                &&& final(ctx).owner == old(ctx).owner
                &&& final(ctx).exchange == (Exchange {
                    name_pool,
                    provider: old(ctx).owner,
                    ..old(ctx).exchange
                })
                &&& final(ctx).user_token_x == shifted(old(ctx).user_token_x, -token_x_amount)
                &&& final(ctx).user_token_y == shifted(old(ctx).user_token_y, -token_y_amount)
                &&& final(ctx).reserve_token_x == shifted(old(ctx).reserve_token_x, token_x_amount as int)
                &&& final(ctx).reserve_token_y == shifted(old(ctx).reserve_token_y, token_y_amount as int)
                &&& transfers@.len() == 2
                &&& transfer_is(transfers@[0], old(ctx).user_token_x.key, old(ctx).reserve_token_x.key,
                    old(ctx).owner@, token_x_amount as int, seq![])
                &&& transfer_is(transfers@[1], old(ctx).user_token_y.key, old(ctx).reserve_token_y.key,
                    old(ctx).owner@, token_y_amount as int, seq![])
            },
            Err(e) => {
                &&& initialize_error(*old(ctx), token_x_amount, token_y_amount) == Some(e)
                &&& *final(ctx) == *old(ctx)
            },
        },
        // seeding within the provider's balances succeeds and grows each reserve by its seed
        token_x_amount <= old(ctx).user_token_x.amount && token_y_amount <= old(ctx).user_token_y.amount
            && old(ctx).reserve_token_x.amount + token_x_amount <= u64::MAX
            && old(ctx).reserve_token_y.amount + token_y_amount <= u64::MAX ==> {
            &&& r is Ok
            &&& final(ctx).reserve_token_x.amount == old(ctx).reserve_token_x.amount + token_x_amount
            &&& final(ctx).reserve_token_y.amount == old(ctx).reserve_token_y.amount + token_y_amount
        },
        // seeding beyond them is refused and changes nothing
        token_x_amount > old(ctx).user_token_x.amount || token_y_amount > old(ctx).user_token_y.amount ==> {
            &&& r == Err::<Vec<TokenTransfer>, ErrorCode>(ErrorCode::InsufficientBalance)
            &&& *final(ctx) == *old(ctx)
        },
{
    if token_x_amount > ctx.user_token_x.amount {
        return Err(ErrorCode::InsufficientBalance);
    }
    if token_y_amount > ctx.user_token_y.amount {
        return Err(ErrorCode::InsufficientBalance);
    }
    if token_x_amount > u64::MAX - ctx.reserve_token_x.amount {
        return Err(ErrorCode::Overflow);
    }
    if token_y_amount > u64::MAX - ctx.reserve_token_y.amount {
        return Err(ErrorCode::Overflow);
    }
    ctx.exchange.provider = ctx.owner;
    ctx.exchange.name_pool = name_pool;
    ctx.user_token_x.amount = ctx.user_token_x.amount - token_x_amount;
    ctx.user_token_y.amount = ctx.user_token_y.amount - token_y_amount;
    ctx.reserve_token_x.amount = ctx.reserve_token_x.amount + token_x_amount;
    ctx.reserve_token_y.amount = ctx.reserve_token_y.amount + token_y_amount;
    let deposit_x = TokenTransfer {
        from: ctx.user_token_x.key,
        to: ctx.reserve_token_x.key,
        authority: ctx.owner,
        amount: token_x_amount,
        signer_seeds: Vec::new(),
    };
    let deposit_y = TokenTransfer {
        from: ctx.user_token_y.key,
        to: ctx.reserve_token_y.key,
        authority: ctx.owner,
        amount: token_y_amount,
        signer_seeds: Vec::new(),
    };
    assert(deposit_x.signer_seeds.deep_view() =~= seq![]);
    assert(deposit_y.signer_seeds.deep_view() =~= seq![]);
    let mut transfers: Vec<TokenTransfer> = Vec::new();
    transfers.push(deposit_x);
    transfers.push(deposit_y);
    Ok(transfers)
}

/// The caller's holding that pays `amount_in` on `route`.
pub open spec fn source_of(ctx: Swap, route: u64) -> Holding {
    if route == 0 { ctx.user_token_x } else { ctx.user_token_y }
}

/// The pool's reserve that receives `amount_in` on `route`.
pub open spec fn reserve_in_of(ctx: Swap, route: u64) -> Holding {
    if route == 0 { ctx.reserve_token_x } else { ctx.reserve_token_y }
}

/// The pool's reserve that pays out on `route`; its balance before the swap
/// bounds `amount_in`.
pub open spec fn reserve_out_of(ctx: Swap, route: u64) -> Holding {
    if route == 0 { ctx.reserve_token_y } else { ctx.reserve_token_x }
}

/// The caller's holding that receives the payout on `route`.
pub open spec fn destination_of(ctx: Swap, route: u64) -> Holding {
    if route == 0 { ctx.user_token_y } else { ctx.user_token_x }
}

/// The pool's authority as derived for a swap on `ctx` naming the pool `name`.
pub open spec fn swap_authority(ctx: Swap, name: Seq<u8>) -> Option<Seq<u8>> {
    authority_of(ctx.program_id@, name, ctx.exchange_key@, ctx.pool_authority_bump)
}

/// Why a swap of `amount_in` along `route` on `ctx`, naming the pool `name`,
/// is refused, if it is; the checks come in this order.
pub open spec fn swap_error(ctx: Swap, amount_in: u64, route: u64, name: Seq<u8>) -> Option<ErrorCode> {
    let out = price(amount_in, route);
    if amount_in == 0 {
        Some(ErrorCode::AmountTooLow)
    } else if route > 1 {
        Some(ErrorCode::InvalidRoute)
    } else if amount_in > reserve_out_of(ctx, route).amount {
        Some(ErrorCode::InsufficientLiquidity)
    } else if swap_authority(ctx, name) is None {
        Some(ErrorCode::InvalidAuthority)
    } else if amount_in > source_of(ctx, route).amount {
        Some(ErrorCode::InsufficientFunds)
    } else if reserve_in_of(ctx, route).amount + amount_in > u64::MAX {
        Some(ErrorCode::Overflow)
    } else if out > u64::MAX {
        Some(ErrorCode::Overflow)
    } else if out > reserve_out_of(ctx, route).amount {
        Some(ErrorCode::InsufficientFunds)
    } else if destination_of(ctx, route).amount + out > u64::MAX {
        Some(ErrorCode::Overflow)
    } else {
        None
    }
}

/// The holdings after a settled swap of `amount_in` along `route`.
pub open spec fn settled(ctx: Swap, amount_in: u64, route: u64) -> Swap {
    let out = price(amount_in, route);
    if route == 0 {
        Swap {
            user_token_x: shifted(ctx.user_token_x, -amount_in),
            reserve_token_x: shifted(ctx.reserve_token_x, amount_in as int),
            reserve_token_y: shifted(ctx.reserve_token_y, -out),
            user_token_y: shifted(ctx.user_token_y, out),
            ..ctx
        }
    } else {
        Swap {
            user_token_y: shifted(ctx.user_token_y, -amount_in),
            reserve_token_y: shifted(ctx.reserve_token_y, amount_in as int),
            reserve_token_x: shifted(ctx.reserve_token_x, -out),
            user_token_x: shifted(ctx.user_token_x, out),
            ..ctx
        }
    }
}

/// Swaps `amount_in` along `route` (0: asset X for asset Y, 1: asset Y for
/// asset X) at the fixed price. The caller pays into the pool's reserve under
/// its own authority; the opposite reserve pays the caller under the pool's
/// authority, derived from `name_pool`, the pool record and the bump.
pub fn swap(ctx: &mut Swap, amount_in: u64, route: u64, name_pool: String) -> (r: Result<Vec<TokenTransfer>, ErrorCode>)
    ensures
        match r {
            Ok(transfers) => {
                &&& swap_error(*old(ctx), amount_in, route, encode_utf8(name_pool@)) is None
                &&& *final(ctx) == settled(*old(ctx), amount_in, route)
                &&& transfers@.len() == 2
                &&& transfer_is(transfers@[0], source_of(*old(ctx), route).key,
                    reserve_in_of(*old(ctx), route).key, old(ctx).owner@, amount_in as int, seq![])
                &&& transfer_is(transfers@[1], reserve_out_of(*old(ctx), route).key,
                    destination_of(*old(ctx), route).key,
                    swap_authority(*old(ctx), encode_utf8(name_pool@))->Some_0,
                    price(amount_in, route),
                    authority_seeds_of(encode_utf8(name_pool@), old(ctx).exchange_key@,
                        old(ctx).pool_authority_bump))
            },
            Err(e) => {
                &&& swap_error(*old(ctx), amount_in, route, encode_utf8(name_pool@)) == Some(e)
                &&& *final(ctx) == *old(ctx)
            },
        },
        // nothing is swapped for nothing, whatever the route or the reserves
        amount_in == 0 ==> r == Err::<Vec<TokenTransfer>, ErrorCode>(ErrorCode::AmountTooLow),
        // more than the paying reserve holds is refused and changes nothing
        amount_in > 0 && route == 0 && amount_in > old(ctx).reserve_token_y.amount ==> {
            &&& r == Err::<Vec<TokenTransfer>, ErrorCode>(ErrorCode::InsufficientLiquidity)
            &&& *final(ctx) == *old(ctx)
        },
        amount_in > 0 && route == 1 && amount_in > old(ctx).reserve_token_x.amount ==> {
            &&& r == Err::<Vec<TokenTransfer>, ErrorCode>(ErrorCode::InsufficientLiquidity)
            &&& *final(ctx) == *old(ctx)
        },
{
    if amount_in == 0 {
        return Err(ErrorCode::AmountTooLow);
    }
    if route > 1 {
        return Err(ErrorCode::InvalidRoute);
    }
    let (source, reserve_in, reserve_out, destination) = if route == 0 {
        (ctx.user_token_x, ctx.reserve_token_x, ctx.reserve_token_y, ctx.user_token_y)
    } else {
        (ctx.user_token_y, ctx.reserve_token_y, ctx.reserve_token_x, ctx.user_token_x)
    };
    if amount_in > reserve_out.amount {
        return Err(ErrorCode::InsufficientLiquidity);
    }
    let seeds = authority_seeds(name_pool.as_str(), &ctx.exchange_key, ctx.pool_authority_bump);
    let authority = match create_program_address(&seeds, &ctx.program_id) {
        Some(k) => k,
        None => return Err(ErrorCode::InvalidAuthority),
    };
    if amount_in > source.amount {
        return Err(ErrorCode::InsufficientFunds);
    }
    if amount_in > u64::MAX - reserve_in.amount {
        return Err(ErrorCode::Overflow);
    }
    let out = match amount_out(amount_in, route) {
        Ok(out) => out,
        Err(e) => return Err(e),
    };
    if out > reserve_out.amount {
        return Err(ErrorCode::InsufficientFunds);
    }
    if out > u64::MAX - destination.amount {
        return Err(ErrorCode::Overflow);
    }
    let source_after = source.amount - amount_in;
    let reserve_in_after = reserve_in.amount + amount_in;
    let reserve_out_after = reserve_out.amount - out;
    let destination_after = destination.amount + out;
    if route == 0 {
        ctx.user_token_x.amount = source_after;
        ctx.reserve_token_x.amount = reserve_in_after;
        ctx.reserve_token_y.amount = reserve_out_after;
        ctx.user_token_y.amount = destination_after;
    } else {
        ctx.user_token_y.amount = source_after;
        ctx.reserve_token_y.amount = reserve_in_after;
        ctx.reserve_token_x.amount = reserve_out_after;
        ctx.user_token_x.amount = destination_after;
    }
    let pay_in = TokenTransfer {
        from: source.key,
        to: reserve_in.key,
        authority: ctx.owner,
        amount: amount_in,
        signer_seeds: Vec::new(),
    };
    let pay_out = TokenTransfer {
        from: reserve_out.key,
        to: destination.key,
        authority,
        amount: out,
        signer_seeds: seeds,
    };
    assert(pay_in.signer_seeds.deep_view() =~= seq![]);
    let mut transfers: Vec<TokenTransfer> = Vec::new();
    transfers.push(pay_in);
    transfers.push(pay_out);
    Ok(transfers)
}

} // verus!

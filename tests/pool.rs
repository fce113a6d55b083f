use anchor_lang::prelude::Pubkey;
use swap::{
    amount_out, derive_pool_authority, initialize_pool, name_seed, swap, ErrorCode, Exchange, Holding, Initialize,
    Swap,
};

const PROGRAM: [u8; 32] = [7u8; 32];
const POOL: [u8; 32] = [9u8; 32];
const NAME: &str = "sol-move";

fn holding(tag: u8, amount: u64) -> Holding {
    Holding { key: [tag; 32], amount }
}

fn valid_bump(name: &str, pool: &[u8; 32]) -> (Pubkey, u8) {
    Pubkey::find_program_address(
        &[b"pool_authority", name_seed(name), pool.as_ref()],
        &Pubkey::new_from_array(PROGRAM),
    )
}

fn invalid_bump(name: &str, pool: &[u8; 32]) -> u8 {
    let program = Pubkey::new_from_array(PROGRAM);
    for bump in (0..=255u8).rev() {
        let seeds: &[&[u8]] = &[b"pool_authority", name_seed(name), pool.as_ref(), &[bump]];
        if Pubkey::create_program_address(seeds, &program).is_err() {
            return bump;
        }
    }
    panic!("every bump gave an address");
}

fn empty_exchange() -> Exchange {
    Exchange {
        name_pool: String::new(),
        provider: [0; 32],
        token_x_amount: [0; 32],
        token_y_amount: [0; 32],
        reserve_token_x: [0; 32],
        reserve_token_y: [0; 32],
    }
}

fn init_ctx(user_x: u64, user_y: u64, reserve_x: u64, reserve_y: u64) -> Initialize {
    Initialize {
        owner: [1; 32],
        exchange: empty_exchange(),
        user_token_x: holding(2, user_x),
        user_token_y: holding(3, user_y),
        reserve_token_x: holding(4, reserve_x),
        reserve_token_y: holding(5, reserve_y),
    }
}

fn swap_ctx(user_x: u64, user_y: u64, reserve_x: u64, reserve_y: u64) -> Swap {
    let (_, bump) = valid_bump(NAME, &POOL);
    Swap {
        program_id: PROGRAM,
        exchange_key: POOL,
        pool_authority_bump: bump,
        owner: [6; 32],
        user_token_x: holding(12, user_x),
        user_token_y: holding(13, user_y),
        reserve_token_x: holding(4, reserve_x),
        reserve_token_y: holding(5, reserve_y),
    }
}

fn amounts(ctx: &Swap) -> [u64; 4] {
    [ctx.user_token_x.amount, ctx.user_token_y.amount, ctx.reserve_token_x.amount, ctx.reserve_token_y.amount]
}

#[test]
fn amount_out_route_zero_multiplies() {
    assert_eq!(amount_out(5, 0), Ok(50));
}

#[test]
fn amount_out_route_one_divides_down() {
    assert_eq!(amount_out(25, 1), Ok(2));
    assert_eq!(amount_out(9, 1), Ok(0));
}

#[test]
fn amount_out_overflow_and_bad_route() {
    assert_eq!(amount_out(u64::MAX / 10 + 1, 0), Err(ErrorCode::Overflow));
    assert_eq!(amount_out(u64::MAX / 10, 0), Ok(u64::MAX / 10 * 10));
    assert_eq!(amount_out(5, 2), Err(ErrorCode::InvalidRoute));
}

#[test]
fn initialize_moves_seed_amounts() {
    let mut ctx = init_ctx(1500, 2000, 0, 0);
    let transfers = initialize_pool(&mut ctx, String::from("pool"), 1000, 1200).unwrap();
    assert_eq!(ctx.user_token_x.amount, 500);
    assert_eq!(ctx.user_token_y.amount, 800);
    assert_eq!(ctx.reserve_token_x.amount, 1000);
    assert_eq!(ctx.reserve_token_y.amount, 1200);
    assert_eq!(ctx.exchange.provider, [1; 32]);
    assert_eq!(ctx.exchange.name_pool, "pool");
    assert_eq!(transfers.len(), 2);
    assert_eq!((transfers[0].from, transfers[0].to, transfers[0].amount), ([2; 32], [4; 32], 1000));
    assert_eq!((transfers[1].from, transfers[1].to, transfers[1].amount), ([3; 32], [5; 32], 1200));
    assert_eq!(transfers[0].authority, [1; 32]);
    assert!(transfers[1].signer_seeds.is_empty());
}

#[test]
fn initialize_with_whole_balance() {
    let mut ctx = init_ctx(7, 8, 1, 2);
    assert!(initialize_pool(&mut ctx, String::from("p"), 7, 8).is_ok());
    assert_eq!((ctx.user_token_x.amount, ctx.user_token_y.amount), (0, 0));
    assert_eq!((ctx.reserve_token_x.amount, ctx.reserve_token_y.amount), (8, 10));
}

#[test]
fn initialize_refuses_more_than_balance() {
    let mut ctx = init_ctx(100, 100, 0, 0);
    assert_eq!(initialize_pool(&mut ctx, String::from("p"), 101, 1).unwrap_err(), ErrorCode::InsufficientBalance);
    assert_eq!(initialize_pool(&mut ctx, String::from("p"), 1, 101).unwrap_err(), ErrorCode::InsufficientBalance);
    assert_eq!(ctx.user_token_x.amount, 100);
    assert_eq!(ctx.user_token_y.amount, 100);
    assert_eq!(ctx.reserve_token_x.amount, 0);
    assert_eq!(ctx.reserve_token_y.amount, 0);
    assert_eq!(ctx.exchange.name_pool, "");
}

#[test]
fn initialize_refuses_reserve_overflow() {
    let mut ctx = init_ctx(100, 100, u64::MAX, 0);
    assert_eq!(initialize_pool(&mut ctx, String::from("p"), 1, 1).unwrap_err(), ErrorCode::Overflow);
    assert_eq!(ctx.reserve_token_x.amount, u64::MAX);
}

#[test]
fn swap_zero_amount_is_too_low() {
    for route in 0..3u64 {
        let mut ctx = swap_ctx(0, 0, 0, 0);
        assert_eq!(swap(&mut ctx, 0, route, String::from(NAME)).unwrap_err(), ErrorCode::AmountTooLow);
        let mut ctx = swap_ctx(1000, 1000, 1000, 1000);
        assert_eq!(swap(&mut ctx, 0, route, String::from(NAME)).unwrap_err(), ErrorCode::AmountTooLow);
    }
}

#[test]
fn swap_route_zero_checks_y_reserve() {
    let mut ctx = swap_ctx(1000, 1000, 1000, 20);
    assert_eq!(swap(&mut ctx, 21, 0, String::from(NAME)).unwrap_err(), ErrorCode::InsufficientLiquidity);
    assert_eq!(amounts(&ctx), [1000, 1000, 1000, 20]);
}

#[test]
fn swap_route_one_checks_x_reserve() {
    let mut ctx = swap_ctx(1000, 1000, 20, 1000);
    assert_eq!(swap(&mut ctx, 21, 1, String::from(NAME)).unwrap_err(), ErrorCode::InsufficientLiquidity);
    assert_eq!(amounts(&ctx), [1000, 1000, 20, 1000]);
}

#[test]
fn swap_refuses_unknown_route() {
    let mut ctx = swap_ctx(1000, 1000, 1000, 1000);
    assert_eq!(swap(&mut ctx, 10, 2, String::from(NAME)).unwrap_err(), ErrorCode::InvalidRoute);
    assert_eq!(amounts(&ctx), [1000, 1000, 1000, 1000]);
}

#[test]
fn swap_refuses_invalid_bump() {
    let mut ctx = swap_ctx(1000, 1000, 1000, 1000);
    ctx.pool_authority_bump = invalid_bump(NAME, &POOL);
    assert_eq!(swap(&mut ctx, 10, 0, String::from(NAME)).unwrap_err(), ErrorCode::InvalidAuthority);
    assert_eq!(amounts(&ctx), [1000, 1000, 1000, 1000]);
}

#[test]
fn swap_refuses_payment_beyond_caller_balance() {
    let mut ctx = swap_ctx(5, 1000, 1000, 1000);
    assert_eq!(swap(&mut ctx, 10, 0, String::from(NAME)).unwrap_err(), ErrorCode::InsufficientFunds);
    assert_eq!(amounts(&ctx), [5, 1000, 1000, 1000]);
}

#[test]
fn swap_refuses_payout_beyond_reserve() {
    let mut ctx = swap_ctx(1000, 0, 0, 50);
    assert_eq!(swap(&mut ctx, 10, 0, String::from(NAME)).unwrap_err(), ErrorCode::InsufficientFunds);
    assert_eq!(amounts(&ctx), [1000, 0, 0, 50]);
}

#[test]
fn swap_refuses_price_overflow() {
    let big = u64::MAX / 10 + 1;
    let mut ctx = swap_ctx(u64::MAX, 0, 0, u64::MAX);
    assert_eq!(swap(&mut ctx, big, 0, String::from(NAME)).unwrap_err(), ErrorCode::Overflow);
    assert_eq!(amounts(&ctx), [u64::MAX, 0, 0, u64::MAX]);
}

#[test]
fn swap_route_one_may_pay_nothing() {
    let mut ctx = swap_ctx(0, 100, 100, 100);
    let transfers = swap(&mut ctx, 9, 1, String::from(NAME)).unwrap();
    assert_eq!(amounts(&ctx), [0, 91, 100, 109]);
    assert_eq!(transfers[1].amount, 0);
}

#[test]
fn swap_round_trip() {
    let mut init = init_ctx(1000, 1000, 0, 0);
    initialize_pool(&mut init, String::from(NAME), 1000, 1000).unwrap();
    let mut ctx = swap_ctx(500, 0, init.reserve_token_x.amount, init.reserve_token_y.amount);

    let (authority, bump) = valid_bump(NAME, &POOL);
    let first = swap(&mut ctx, 10, 0, String::from(NAME)).unwrap();
    assert_eq!(amounts(&ctx), [490, 100, 1010, 900]);
    assert_eq!((first[0].from, first[0].to, first[0].amount), ([12; 32], [4; 32], 10));
    assert_eq!(first[0].authority, [6; 32]);
    assert_eq!((first[1].from, first[1].to, first[1].amount), ([5; 32], [13; 32], 100));
    assert_eq!(first[1].authority, authority.to_bytes());
    let expected_seeds: Vec<Vec<u8>> =
        vec![b"pool_authority".to_vec(), NAME.as_bytes().to_vec(), POOL.to_vec(), vec![bump]];
    assert_eq!(first[1].signer_seeds, expected_seeds);

    let second = swap(&mut ctx, 100, 1, String::from(NAME)).unwrap();
    assert_eq!(amounts(&ctx), [500, 0, 1000, 1000]);
    assert_eq!((second[0].from, second[0].to, second[0].amount), ([13; 32], [5; 32], 100));
    assert_eq!((second[1].from, second[1].to, second[1].amount), ([4; 32], [12; 32], 10));
}

#[test]
fn name_seed_truncates_long_names() {
    let long = "abcdefghijklmnopqrstuvwxyz0123456789ABCD";
    assert_eq!(long.len(), 40);
    assert_eq!(name_seed(long), &long.as_bytes()[..32]);
    assert_eq!(name_seed("short"), b"short");
    assert_eq!(name_seed(""), b"");
}

#[test]
fn authority_is_reproducible() {
    let (expected, bump) = valid_bump(NAME, &POOL);
    let a = derive_pool_authority(&PROGRAM, NAME, &POOL, bump);
    let b = derive_pool_authority(&PROGRAM, NAME, &POOL, bump);
    assert_eq!(a, b);
    assert_eq!(a, Some(expected.to_bytes()));
    assert_ne!(a, Some(POOL));
}

#[test]
fn authority_ignores_bytes_past_the_limit() {
    let long = "abcdefghijklmnopqrstuvwxyz0123456789ABCD";
    let prefix = &long[..32];
    let (_, bump) = valid_bump(prefix, &POOL);
    let a = derive_pool_authority(&PROGRAM, long, &POOL, bump);
    assert!(a.is_some());
    assert_eq!(a, derive_pool_authority(&PROGRAM, prefix, &POOL, bump));
    assert_ne!(a, derive_pool_authority(&PROGRAM, "abc", &POOL, bump));
}

#[test]
fn authority_refused_for_invalid_bump() {
    let bump = invalid_bump(NAME, &POOL);
    assert_eq!(derive_pool_authority(&PROGRAM, NAME, &POOL, bump), None);
}

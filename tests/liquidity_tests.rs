use neonswap::address::Address;
use neonswap::liquidity::{
    approvals, default_web3_options, route_liquidity, Bootstrap, BootstrapAction, BootstrapError,
    BootstrapEvent, LiquidityCall, Stage, TxOptions,
};
use neonswap::paths::{Artifact, ContractPaths};
use neonswap::token::{Erc20Means, Erc20Specs, Erc20Token, SwapToken, WethToken};

fn at(last: u8) -> Address {
    let mut a = Address::zero();
    a.bytes[19] = last;
    a
}

fn weth() -> SwapToken {
    SwapToken::Weth(WethToken { eth_address: at(1) })
}

fn token(last: u8) -> SwapToken {
    SwapToken::Erc20(Erc20Token {
        specs: Erc20Specs { name: "T".to_string(), symbol: "T".to_string(), decimals: 18 },
        eth_address: at(last),
        means: Erc20Means::Origin,
    })
}

#[test]
fn default_options() {
    assert_eq!(default_web3_options(), TxOptions { gas: 3_000_000, gas_price: 1_000_000_000, value: None });
}

#[test]
fn native_pair_routes_to_native_entry() {
    let to = at(9);
    let call = route_liquidity(&weth(), &token(2), 1000, 4000, to, 77).unwrap();
    match call {
        LiquidityCall::AddLiquidityEth { token, amount_token, amount_native, deadline, .. } => {
            assert_eq!(token, at(2));
            assert_eq!(amount_token, 4000);
            assert_eq!(amount_native, 1000);
            assert_eq!(deadline, 77);
        }
        other => panic!("{:?}", other),
    }
    assert_eq!(call.options().value, Some(1000));
    let swapped = route_liquidity(&token(2), &weth(), 4000, 1000, to, 77).unwrap();
    match swapped {
        LiquidityCall::AddLiquidityEth { token, amount_token, amount_native, .. } => {
            assert_eq!(token, at(2));
            assert_eq!(amount_token, 4000);
            assert_eq!(amount_native, 1000);
        }
        other => panic!("{:?}", other),
    }
}

#[test]
fn two_issued_tokens_route_to_plain_entry() {
    let call = route_liquidity(&token(2), &token(3), 5, 6, at(9), 1).unwrap();
    assert!(matches!(call, LiquidityCall::AddLiquidity { amount_a: 5, amount_b: 6, .. }));
    assert_eq!(call.options().value, None);
}

#[test]
fn two_native_tokens_rejected() {
    assert_eq!(route_liquidity(&weth(), &weth(), 1, 1, at(9), 1).err(), Some(BootstrapError::BothNative));
    assert_eq!(Bootstrap::new(&weth(), &weth(), 1, 1, at(9), 1).err(), Some(BootstrapError::BothNative));
}

#[test]
fn approvals_only_for_issued_tokens() {
    let ap = approvals(&weth(), &token(2), 10, 20);
    assert_eq!(ap.len(), 1);
    assert_eq!(ap[0].token, at(2));
    assert_eq!(ap[0].amount, 20);
    let ap = approvals(&token(3), &token(2), 10, 20);
    assert_eq!(ap.len(), 2);
    assert_eq!(ap[0].amount, 10);
    assert_eq!(ap[1].token, at(2));
}

#[test]
fn bootstrap_creates_missing_pair_then_approves_and_provides() {
    let mut b = Bootstrap::new(&token(3), &token(2), 10, 20, at(9), 1).unwrap();
    assert!(matches!(b.action(), BootstrapAction::QueryPair));
    assert!(matches!(b.step(BootstrapEvent::PairQueried { exists: false }), BootstrapAction::CreatePair));
    assert!(matches!(b.step(BootstrapEvent::Receipt { success: true }), BootstrapAction::QueryPair));
    assert!(matches!(b.step(BootstrapEvent::PairQueried { exists: true }), BootstrapAction::Approve(a) if a.amount == 10));
    assert!(matches!(b.step(BootstrapEvent::Receipt { success: false }), BootstrapAction::Approve(a) if a.amount == 20));
    assert!(matches!(b.step(BootstrapEvent::Receipt { success: true }), BootstrapAction::Provide(LiquidityCall::AddLiquidity { .. })));
    assert_eq!(b.approved(), &vec![false, true]);
    assert!(matches!(b.step(BootstrapEvent::Receipt { success: true }), BootstrapAction::Done { provided: true }));
    assert_eq!(b.stage(), Stage::Done { provided: true });
}

#[test]
fn bootstrap_existing_pair_skips_creation() {
    let mut b = Bootstrap::new(&weth(), &token(2), 10, 20, at(9), 1).unwrap();
    assert!(matches!(b.step(BootstrapEvent::PairQueried { exists: true }), BootstrapAction::Approve(a) if a.token == at(2)));
    assert!(matches!(b.step(BootstrapEvent::Receipt { success: true }), BootstrapAction::Provide(LiquidityCall::AddLiquidityEth { amount_native: 10, .. })));
    assert!(matches!(b.step(BootstrapEvent::Receipt { success: false }), BootstrapAction::Done { provided: false }));
}

#[test]
fn bootstrap_failed_creation_is_fatal() {
    let mut b = Bootstrap::new(&weth(), &token(2), 10, 20, at(9), 1).unwrap();
    b.step(BootstrapEvent::PairQueried { exists: false });
    assert!(matches!(b.step(BootstrapEvent::Receipt { success: false }), BootstrapAction::Failed(BootstrapError::PairCreationFailed)));
    assert!(matches!(b.step(BootstrapEvent::Receipt { success: true }), BootstrapAction::Failed(BootstrapError::PairCreationFailed)));
}

#[test]
fn bootstrap_pair_still_missing_is_fatal() {
    let mut b = Bootstrap::new(&weth(), &token(2), 10, 20, at(9), 1).unwrap();
    b.step(BootstrapEvent::PairQueried { exists: false });
    b.step(BootstrapEvent::Receipt { success: true });
    assert!(matches!(b.step(BootstrapEvent::PairQueried { exists: false }), BootstrapAction::Failed(BootstrapError::PairMissing)));
}

#[test]
fn bootstrap_unexpected_event() {
    let mut b = Bootstrap::new(&weth(), &token(2), 10, 20, at(9), 1).unwrap();
    assert!(matches!(b.step(BootstrapEvent::Receipt { success: true }), BootstrapAction::Failed(BootstrapError::UnexpectedEvent)));
}

#[test]
fn contract_paths_lookup() {
    let s = |x: &str| x.to_string();
    let p = ContractPaths {
        uni: s("uni"), timelock: s("timelock"), governor_alpha: s("gov"), weth9: s("weth9"),
        uniswap_v1factory: s("v1f"), uniswap_v1exchange: s("v1e"), uniswap_v2factory: s("v2f"),
        uniswap_v2router01: s("r01"), uniswap_v2router02: s("r02"), router_event_emitter: s("ree"),
        uniswap_v2migrator: s("mig"), multicall: s("mc"), erc20: s("erc20"), erc20wrapper: s("wrap"),
        example: s("ex"),
    };
    assert_eq!(p.path_of(Artifact::Uni), "uni");
    assert_eq!(p.path_of(Artifact::UniswapV2Router02), "r02");
    assert_eq!(p.path_of(Artifact::Erc20Wrapper), "wrap");
    assert_eq!(p.path_of(Artifact::Example), "ex");
}

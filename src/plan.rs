//! The exchange deployment: governance, wrapped native token, both
//! exchange generations, helpers and test tokens, in nonce order.

use vstd::prelude::*;
use crate::deployer::{ArgSource, CallFn, Step, StepKind};
use crate::paths::Artifact;

verus! {

/// The timelock's delay: three days, in seconds.
pub const TIMELOCK_DELAY_SECS: u128 = 259200;

/// Supply of the token paired with the wrapped native token, and of test
/// token A: 500000 whole tokens of 18 decimals.
pub const SUPPLY_LARGE: u128 = 500000000000000000000000;

/// Supply of test token B: 300000 whole tokens of 18 decimals.
pub const SUPPLY_SMALL: u128 = 300000000000000000000000;

/// Slot of the first generation's factory, whose functions two steps call.
pub const SLOT_V1_FACTORY: u64 = 4;

/// Slot of the token that is paired with the wrapped native token.
pub const SLOT_WETH_PARTNER: u64 = 13;

/// Slot of the wrapped native token.
pub const SLOT_WETH: u64 = 3;

/// The plan's steps: what each slot does and where its arguments come from.
pub open spec fn plan_spec() -> Seq<(StepKind, Seq<ArgSource>)> {
    seq![
        (StepKind::Deploy(Artifact::Uni), seq![ArgSource::Signer, ArgSource::SlotAddress(1), ArgSource::Deadline]),
        (StepKind::Deploy(Artifact::Timelock), seq![ArgSource::SlotAddress(2), ArgSource::Uint(TIMELOCK_DELAY_SECS)]),
        (StepKind::Deploy(Artifact::GovernorAlpha), seq![ArgSource::SlotAddress(1), ArgSource::SlotAddress(0)]),
        (StepKind::Deploy(Artifact::Weth9), seq![]),
        (StepKind::Deploy(Artifact::UniswapV1Factory), seq![]),
        (StepKind::Deploy(Artifact::UniswapV1Exchange), seq![]),
        (StepKind::Call { target: SLOT_V1_FACTORY, artifact: Artifact::UniswapV1Factory, function: CallFn::InitializeFactory }, seq![ArgSource::SlotAddress(5)]),
        (StepKind::Deploy(Artifact::UniswapV2Factory), seq![ArgSource::Signer]),
        (StepKind::Deploy(Artifact::UniswapV2Router01), seq![ArgSource::SlotAddress(7), ArgSource::SlotAddress(3)]),
        (StepKind::Deploy(Artifact::UniswapV2Router02), seq![ArgSource::SlotAddress(7), ArgSource::SlotAddress(3)]),
        (StepKind::Deploy(Artifact::RouterEventEmitter), seq![]),
        (StepKind::Deploy(Artifact::UniswapV2Migrator), seq![ArgSource::SlotAddress(4), ArgSource::SlotAddress(8)]),
        (StepKind::Deploy(Artifact::Multicall), seq![]),
        (StepKind::Deploy(Artifact::Erc20), seq![ArgSource::Uint(SUPPLY_LARGE)]),
        (StepKind::Deploy(Artifact::Erc20), seq![ArgSource::Uint(SUPPLY_LARGE)]),
        (StepKind::Deploy(Artifact::Erc20), seq![ArgSource::Uint(SUPPLY_SMALL)]),
        (StepKind::Deploy(Artifact::Example), seq![ArgSource::SlotAddress(7), ArgSource::SlotAddress(4), ArgSource::SlotAddress(9)]),
        (StepKind::Call { target: SLOT_V1_FACTORY, artifact: Artifact::UniswapV1Factory, function: CallFn::CreateExchange }, seq![ArgSource::SlotAddress(SLOT_WETH_PARTNER)]),
    ]
}

fn step(kind: StepKind, args: Vec<ArgSource>) -> (r: Step)
    ensures
        r.kind == kind,
        r.args@ == args@,
{
    Step { kind, args }
}

/// The deployment plan; the step at index `i` is executed with nonce `i`.
pub fn neonswap_plan() -> (r: Vec<Step>)
    ensures
        r@.len() == plan_spec().len(),
        forall|i: int|
            0 <= i < r@.len() ==> (#[trigger] r@[i]).kind == plan_spec()[i].0 && r@[i].args@
                == plan_spec()[i].1,
{
    let mut r: Vec<Step> = Vec::new();
    r.push(step(StepKind::Deploy(Artifact::Uni), vec![ArgSource::Signer, ArgSource::SlotAddress(1), ArgSource::Deadline]));
    r.push(step(StepKind::Deploy(Artifact::Timelock), vec![ArgSource::SlotAddress(2), ArgSource::Uint(TIMELOCK_DELAY_SECS)]));
    r.push(step(StepKind::Deploy(Artifact::GovernorAlpha), vec![ArgSource::SlotAddress(1), ArgSource::SlotAddress(0)]));
    r.push(step(StepKind::Deploy(Artifact::Weth9), vec![]));
    r.push(step(StepKind::Deploy(Artifact::UniswapV1Factory), vec![]));
    r.push(step(StepKind::Deploy(Artifact::UniswapV1Exchange), vec![]));
    r.push(step(StepKind::Call { target: SLOT_V1_FACTORY, artifact: Artifact::UniswapV1Factory, function: CallFn::InitializeFactory }, vec![ArgSource::SlotAddress(5)]));
    r.push(step(StepKind::Deploy(Artifact::UniswapV2Factory), vec![ArgSource::Signer]));
    r.push(step(StepKind::Deploy(Artifact::UniswapV2Router01), vec![ArgSource::SlotAddress(7), ArgSource::SlotAddress(3)]));
    r.push(step(StepKind::Deploy(Artifact::UniswapV2Router02), vec![ArgSource::SlotAddress(7), ArgSource::SlotAddress(3)]));
    r.push(step(StepKind::Deploy(Artifact::RouterEventEmitter), vec![]));
    r.push(step(StepKind::Deploy(Artifact::UniswapV2Migrator), vec![ArgSource::SlotAddress(4), ArgSource::SlotAddress(8)]));
    r.push(step(StepKind::Deploy(Artifact::Multicall), vec![]));
    r.push(step(StepKind::Deploy(Artifact::Erc20), vec![ArgSource::Uint(SUPPLY_LARGE)]));
    r.push(step(StepKind::Deploy(Artifact::Erc20), vec![ArgSource::Uint(SUPPLY_LARGE)]));
    r.push(step(StepKind::Deploy(Artifact::Erc20), vec![ArgSource::Uint(SUPPLY_SMALL)]));
    r.push(step(StepKind::Deploy(Artifact::Example), vec![ArgSource::SlotAddress(7), ArgSource::SlotAddress(4), ArgSource::SlotAddress(9)]));
    r.push(step(StepKind::Call { target: SLOT_V1_FACTORY, artifact: Artifact::UniswapV1Factory, function: CallFn::CreateExchange }, vec![ArgSource::SlotAddress(SLOT_WETH_PARTNER)]));
    proof {
        assert forall|i: int| 0 <= i < r@.len() implies r@[i].args@ =~= plan_spec()[i].1 by {
            assert(0 <= i < 18);
        }
    }
    r
}

} // verus!

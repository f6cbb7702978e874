//! Bootstrapping a trading pair: make sure the pair exists, approve the
//! router for each issued token, then deposit the initial liquidity through
//! the entry point that fits the pair.
//!
//! The caller performs each action and reports what came back; the
//! machine decides what comes next.

use vstd::prelude::*;
use crate::address::Address;
use crate::token::SwapToken;

verus! {

/// Gas limit of every transaction.
pub const DEFAULT_GAS: u64 = 3000000;

/// Gas price of every transaction.
pub const DEFAULT_GAS_PRICE: u64 = 1000000000;

/// Options of a transaction: gas limit, gas price and the native amount
/// attached, if any.
#[derive(Clone, Copy, Debug, PartialEq, Eq, Structural)]
pub struct TxOptions {
    pub gas: u64,
    pub gas_price: u64,
    pub value: Option<u128>,
}

/// The options used for every transaction: fixed gas and gas price, no
/// value.
pub fn default_web3_options() -> (r: TxOptions)
    ensures
        r == (TxOptions { gas: DEFAULT_GAS, gas_price: DEFAULT_GAS_PRICE, value: None }),
{
    TxOptions { gas: DEFAULT_GAS, gas_price: DEFAULT_GAS_PRICE, value: None }
}

/// An allowance for the router to move `amount` of `token`.
#[derive(Clone, Copy, Debug)]
pub struct Approval {
    pub token: Address,
    pub amount: u128,
}

/// The deposit of initial liquidity.
#[derive(Clone, Copy, Debug)]
pub enum LiquidityCall {
    /// Two issued tokens: both amounts are arguments.
    AddLiquidity {
        token_a: Address,
        token_b: Address,
        amount_a: u128,
        amount_b: u128,
        to: Address,
        deadline: u128,
    },
    /// An issued token against the native token: the native amount is
    /// attached to the transaction as its value.
    AddLiquidityEth { token: Address, amount_token: u128, amount_native: u128, to: Address, deadline: u128 },
}

impl LiquidityCall {
    pub open spec fn options_spec(&self) -> TxOptions {
        match self {
            LiquidityCall::AddLiquidity { .. } => TxOptions {
                gas: DEFAULT_GAS,
                gas_price: DEFAULT_GAS_PRICE,
                value: None,
            },
            LiquidityCall::AddLiquidityEth { amount_native, .. } => TxOptions {
                gas: DEFAULT_GAS,
                gas_price: DEFAULT_GAS_PRICE,
                value: Some(*amount_native),
            },
        }
    }

    /// The transaction options of the deposit: the native amount, where
    /// there is one, goes as the value.
    pub fn options(&self) -> (r: TxOptions)
        ensures
            r == self.options_spec(),
    {
        let mut o = default_web3_options();
        match self {
            LiquidityCall::AddLiquidity { .. } => {},
            LiquidityCall::AddLiquidityEth { amount_native, .. } => {
                o.value = Some(*amount_native);
            },
        }
        o
    }
}

/// Why a bootstrap cannot go on.
#[derive(Clone, Copy, Debug, PartialEq, Eq, Structural)]
pub enum BootstrapError {
    /// Both sides of the pair are the native token.
    BothNative,
    /// The transaction that creates the pair failed.
    PairCreationFailed,
    /// The pair is still missing after it was created.
    PairMissing,
    /// An event came that the current stage does not wait for.
    UnexpectedEvent,
}

/// The deposit for a pair, with `amount_a` of `a` and `amount_b` of `b`.
pub open spec fn route_spec(
    a: SwapToken,
    b: SwapToken,
    amount_a: u128,
    amount_b: u128,
    to: Address,
    deadline: u128,
) -> Result<LiquidityCall, BootstrapError> {
    match (a, b) {
        (SwapToken::Weth(_), SwapToken::Weth(_)) => Err(BootstrapError::BothNative),
        (SwapToken::Weth(_), SwapToken::Erc20(t)) => Ok(
            LiquidityCall::AddLiquidityEth {
                token: t.eth_address,
                amount_token: amount_b,
                amount_native: amount_a,
                to,
                deadline,
            },
        ),
        (SwapToken::Erc20(t), SwapToken::Weth(_)) => Ok(
            LiquidityCall::AddLiquidityEth {
                token: t.eth_address,
                amount_token: amount_a,
                amount_native: amount_b,
                to,
                deadline,
            },
        ),
        (SwapToken::Erc20(ta), SwapToken::Erc20(tb)) => Ok(
            LiquidityCall::AddLiquidity {
                token_a: ta.eth_address,
                token_b: tb.eth_address,
                amount_a,
                amount_b,
                to,
                deadline,
            },
        ),
    }
}

/// Chooses the deposit's entry point: the native-paired one where one side
/// is the native token, the two-token one otherwise; a pair of two native
/// tokens is refused.
pub fn route_liquidity(
    a: &SwapToken,
    b: &SwapToken,
    amount_a: u128,
    amount_b: u128,
    to: Address,
    deadline: u128,
) -> (r: Result<LiquidityCall, BootstrapError>)
    ensures
        r == route_spec(*a, *b, amount_a, amount_b, to, deadline),
{
    match (a, b) {
        (SwapToken::Weth(_), SwapToken::Weth(_)) => Err(BootstrapError::BothNative),
        (SwapToken::Weth(_), SwapToken::Erc20(t)) => Ok(
            LiquidityCall::AddLiquidityEth {
                token: t.eth_address,
                amount_token: amount_b,
                amount_native: amount_a,
                to,
                deadline,
            },
        ),
        (SwapToken::Erc20(t), SwapToken::Weth(_)) => Ok(
            LiquidityCall::AddLiquidityEth {
                token: t.eth_address,
                amount_token: amount_a,
                amount_native: amount_b,
                to,
                deadline,
            },
        ),
        (SwapToken::Erc20(ta), SwapToken::Erc20(tb)) => Ok(
            LiquidityCall::AddLiquidity {
                token_a: ta.eth_address,
                token_b: tb.eth_address,
                amount_a,
                amount_b,
                to,
                deadline,
            },
        ),
    }
}

/// A pair of the native token and an issued token is deposited through the
/// native-paired entry point, with the native amount attached as the
/// transaction's value, whichever side the native token is on; a pair of
/// two native tokens is refused.
pub proof fn native_pair_attaches_value(
    native: SwapToken,
    issued: SwapToken,
    amount_native: u128,
    amount_issued: u128,
    to: Address,
    deadline: u128,
)
    requires
        native is Weth,
        issued is Erc20,
    ensures
        route_spec(native, issued, amount_native, amount_issued, to, deadline) is Ok,
        route_spec(native, issued, amount_native, amount_issued, to, deadline)->Ok_0 is AddLiquidityEth,
        route_spec(native, issued, amount_native, amount_issued, to, deadline)->Ok_0.options_spec().value
            == Some(amount_native),
        route_spec(issued, native, amount_issued, amount_native, to, deadline)->Ok_0
            == route_spec(native, issued, amount_native, amount_issued, to, deadline)->Ok_0,
        route_spec(native, native, amount_native, amount_native, to, deadline) == Err::<
            LiquidityCall,
            BootstrapError,
        >(BootstrapError::BothNative),
{
}

/// The approvals a pair needs: one per issued token, in pair order.
pub open spec fn approvals_spec(a: SwapToken, b: SwapToken, amount_a: u128, amount_b: u128) -> Seq<
    Approval,
> {
    let first = match a {
        SwapToken::Weth(_) => Seq::<Approval>::empty(),
        SwapToken::Erc20(t) => seq![Approval { token: t.eth_address, amount: amount_a }],
    };
    let second = match b {
        SwapToken::Weth(_) => Seq::<Approval>::empty(),
        SwapToken::Erc20(t) => seq![Approval { token: t.eth_address, amount: amount_b }],
    };
    first + second
}

pub fn approvals(a: &SwapToken, b: &SwapToken, amount_a: u128, amount_b: u128) -> (r: Vec<Approval>)
    ensures
        r@ == approvals_spec(*a, *b, amount_a, amount_b),
{
    let mut r: Vec<Approval> = Vec::new();
    match a {
        SwapToken::Weth(_) => {},
        SwapToken::Erc20(t) => r.push(Approval { token: t.eth_address, amount: amount_a }),
    }
    match b {
        SwapToken::Weth(_) => {},
        SwapToken::Erc20(t) => r.push(Approval { token: t.eth_address, amount: amount_b }),
    }
    assert(r@ =~= approvals_spec(*a, *b, amount_a, amount_b));
    r
}

/// What the caller reports back.
#[derive(Clone, Copy, Debug, PartialEq, Eq, Structural)]
pub enum BootstrapEvent {
    /// The answer to a pair query.
    PairQueried { exists: bool },
    /// The receipt status of the last transaction.
    Receipt { success: bool },
}

/// Where a bootstrap stands: each stage but the last two waits for one
/// event.
#[derive(Clone, Copy, Debug, PartialEq, Eq, Structural)]
pub enum Stage {
    /// Waiting for a pair query; `created` once the pair was created here.
    Query { created: bool },
    /// Waiting for the receipt of the pair creation.
    Create,
    /// Waiting for the receipt of the approval at this index.
    Approve(usize),
    /// Waiting for the receipt of the deposit.
    Provide,
    /// Finished; `provided` where the deposit succeeded.
    Done { provided: bool },
    Failed(BootstrapError),
}

/// What the caller must do next.
#[derive(Clone, Copy, Debug)]
pub enum BootstrapAction {
    QueryPair,
    CreatePair,
    Approve(Approval),
    Provide(LiquidityCall),
    Done { provided: bool },
    Failed(BootstrapError),
}

/// The stage after `e`, with `n` approvals to make. A failed approval is
/// not fatal: the deposit is still attempted.
pub open spec fn next_stage(s: Stage, e: BootstrapEvent, n: nat) -> Stage {
    let after_pair = if n > 0 {
        Stage::Approve(0)
    } else {
        Stage::Provide
    };
    match s {
        Stage::Query { created } => match e {
            BootstrapEvent::PairQueried { exists } => if exists {
                after_pair
            } else if created {
                Stage::Failed(BootstrapError::PairMissing)
            } else {
                Stage::Create
            },
            _ => Stage::Failed(BootstrapError::UnexpectedEvent),
        },
        Stage::Create => match e {
            BootstrapEvent::Receipt { success } => if success {
                Stage::Query { created: true }
            } else {
                Stage::Failed(BootstrapError::PairCreationFailed)
            },
            _ => Stage::Failed(BootstrapError::UnexpectedEvent),
        },
        Stage::Approve(i) => match e {
            BootstrapEvent::Receipt { .. } => if i + 1 < n {
                Stage::Approve((i + 1) as usize)
            } else {
                Stage::Provide
            },
            _ => Stage::Failed(BootstrapError::UnexpectedEvent),
        },
        Stage::Provide => match e {
            BootstrapEvent::Receipt { success } => Stage::Done { provided: success },
            _ => Stage::Failed(BootstrapError::UnexpectedEvent),
        },
        Stage::Done { .. } => s,
        Stage::Failed(_) => s,
    }
}

/// One bootstrap of a pair.
pub struct Bootstrap {
    approvals: Vec<Approval>,
    call: LiquidityCall,
    stage: Stage,
    approved: Vec<bool>,
}

impl Bootstrap {
    pub closed spec fn approvals_spec(&self) -> Seq<Approval> {
        self.approvals@
    }

    pub closed spec fn call_spec(&self) -> LiquidityCall {
        self.call
    }

    pub closed spec fn stage_spec(&self) -> Stage {
        self.stage
    }

    /// The receipt status of each approval made so far.
    pub closed spec fn approved_spec(&self) -> Seq<bool> {
        self.approved@
    }

    pub closed spec fn wf(&self) -> bool {
        &&& self.approvals@.len() <= 2
        &&& (self.stage matches Stage::Approve(i) ==> i < self.approvals@.len() && self.approved@.len() == i)
        &&& self.approved@.len() <= self.approvals@.len()
        &&& (self.stage is Query || self.stage is Create) ==> self.approved@.len() == 0
    }

    /// Whether `r` is the action of the current stage.
    pub open spec fn is_action(&self, r: BootstrapAction) -> bool {
        match self.stage_spec() {
            Stage::Query { .. } => r is QueryPair,
            Stage::Create => r is CreatePair,
            Stage::Approve(i) => r == BootstrapAction::Approve(self.approvals_spec()[i as int]),
            Stage::Provide => r == BootstrapAction::Provide(self.call_spec()),
            Stage::Done { provided } => r == BootstrapAction::Done { provided },
            Stage::Failed(e) => r == BootstrapAction::Failed(e),
        }
    }

    /// Prepares the bootstrap of the pair `(a, b)`, whose deposit goes to
    /// `to` with `deadline`. A pair of two native tokens is refused here,
    /// before anything reaches the chain.
    pub fn new(
        a: &SwapToken,
        b: &SwapToken,
        amount_a: u128,
        amount_b: u128,
        to: Address,
        deadline: u128,
    ) -> (r: Result<Bootstrap, BootstrapError>)
        ensures
            r is Err <==> route_spec(*a, *b, amount_a, amount_b, to, deadline) is Err,
            r is Err ==> r->Err_0 == BootstrapError::BothNative,
            r is Ok ==> {
                &&& r->Ok_0.wf()
                &&& Ok::<LiquidityCall, BootstrapError>(r->Ok_0.call_spec()) == route_spec(
                    *a,
                    *b,
                    amount_a,
                    amount_b,
                    to,
                    deadline,
                )
                &&& r->Ok_0.approvals_spec() == approvals_spec(*a, *b, amount_a, amount_b)
                &&& r->Ok_0.stage_spec() == Stage::Query { created: false }
                &&& r->Ok_0.approved_spec() == Seq::<bool>::empty()
            },
    {
        match route_liquidity(a, b, amount_a, amount_b, to, deadline) {
            Err(e) => Err(e),
            Ok(call) => {
                let ap = approvals(a, b, amount_a, amount_b);
                Ok(Bootstrap { approvals: ap, call, stage: Stage::Query { created: false }, approved: Vec::new() })
            },
        }
    }

    pub fn stage(&self) -> (r: Stage)
        ensures
            r == self.stage_spec(),
    {
        self.stage
    }

    /// The receipt status of each approval made so far.
    pub fn approved(&self) -> (r: &Vec<bool>)
        ensures
            r@ == self.approved_spec(),
    {
        &self.approved
    }

    /// The action of the current stage.
    pub fn action(&self) -> (r: BootstrapAction)
        requires
            self.wf(),
        ensures
            self.is_action(r),
    {
        match self.stage {
            Stage::Query { .. } => BootstrapAction::QueryPair,
            Stage::Create => BootstrapAction::CreatePair,
            Stage::Approve(i) => BootstrapAction::Approve(self.approvals[i]),
            Stage::Provide => BootstrapAction::Provide(self.call),
            Stage::Done { provided } => BootstrapAction::Done { provided },
            Stage::Failed(e) => BootstrapAction::Failed(e),
        }
    }

    /// Takes what the last action brought back and returns the next action.
    pub fn step(&mut self, e: BootstrapEvent) -> (r: BootstrapAction)
        requires
            old(self).wf(),
        ensures
            final(self).wf(),
            final(self).approvals_spec() == old(self).approvals_spec(),
            final(self).call_spec() == old(self).call_spec(),
            final(self).stage_spec() == next_stage(
                old(self).stage_spec(),
                e,
                old(self).approvals_spec().len(),
            ),
            final(self).is_action(r),
            (old(self).stage_spec() is Approve && e is Receipt) ==> final(self).approved_spec()
                == old(self).approved_spec().push(e->success),
            !(old(self).stage_spec() is Approve && e is Receipt) ==> final(self).approved_spec()
                == old(self).approved_spec(),
    {
        let n = self.approvals.len();
        let after_pair = if n > 0 {
            Stage::Approve(0)
        } else {
            Stage::Provide
        };
        let next = match self.stage {
            Stage::Query { created } => match e {
                BootstrapEvent::PairQueried { exists } => if exists {
                    after_pair
                } else if created {
                    Stage::Failed(BootstrapError::PairMissing)
                } else {
                    Stage::Create
                },
                _ => Stage::Failed(BootstrapError::UnexpectedEvent),
            },
            Stage::Create => match e {
                BootstrapEvent::Receipt { success } => if success {
                    Stage::Query { created: true }
                } else {
                    Stage::Failed(BootstrapError::PairCreationFailed)
                },
                _ => Stage::Failed(BootstrapError::UnexpectedEvent),
            },
            Stage::Approve(i) => match e {
                BootstrapEvent::Receipt { success } => {
                    self.approved.push(success);
                    if i + 1 < n {
                        Stage::Approve(i + 1)
                    } else {
                        Stage::Provide
                    }
                },
                _ => Stage::Failed(BootstrapError::UnexpectedEvent),
            },
            Stage::Provide => match e {
                BootstrapEvent::Receipt { success } => Stage::Done { provided: success },
                _ => Stage::Failed(BootstrapError::UnexpectedEvent),
            },
            Stage::Done { provided } => Stage::Done { provided },
            Stage::Failed(x) => Stage::Failed(x),
        };
        self.stage = next;
        self.action()
    }
}

} // verus!

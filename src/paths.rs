//! Where the compiled artifact (bytecode and ABI) of each contract lies.

use vstd::prelude::*;

verus! {

/// The contracts that the deployment knows how to create or call.
#[derive(Clone, Copy, Debug, PartialEq, Eq, Structural)]
pub enum Artifact {
    Uni,
    Timelock,
    GovernorAlpha,
    Weth9,
    UniswapV1Factory,
    UniswapV1Exchange,
    UniswapV2Factory,
    UniswapV2Router01,
    UniswapV2Router02,
    RouterEventEmitter,
    UniswapV2Migrator,
    Multicall,
    Erc20,
    Erc20Wrapper,
    Example,
}

/// One artifact file per contract.
#[derive(Clone, Debug)]
pub struct ContractPaths {
    pub uni: String,
    pub timelock: String,
    pub governor_alpha: String,
    pub weth9: String,
    pub uniswap_v1factory: String,
    pub uniswap_v1exchange: String,
    pub uniswap_v2factory: String,
    pub uniswap_v2router01: String,
    pub uniswap_v2router02: String,
    pub router_event_emitter: String,
    pub uniswap_v2migrator: String,
    pub multicall: String,
    pub erc20: String,
    pub erc20wrapper: String,
    pub example: String,
}

impl ContractPaths {
    /// The file that holds the given contract's artifact.
    pub open spec fn path_spec(&self, a: Artifact) -> Seq<char> {
        match a {
            Artifact::Uni => self.uni@,
            Artifact::Timelock => self.timelock@,
            Artifact::GovernorAlpha => self.governor_alpha@,
            Artifact::Weth9 => self.weth9@,
            Artifact::UniswapV1Factory => self.uniswap_v1factory@,
            Artifact::UniswapV1Exchange => self.uniswap_v1exchange@,
            Artifact::UniswapV2Factory => self.uniswap_v2factory@,
            Artifact::UniswapV2Router01 => self.uniswap_v2router01@,
            Artifact::UniswapV2Router02 => self.uniswap_v2router02@,
            Artifact::RouterEventEmitter => self.router_event_emitter@,
            Artifact::UniswapV2Migrator => self.uniswap_v2migrator@,
            Artifact::Multicall => self.multicall@,
            Artifact::Erc20 => self.erc20@,
            Artifact::Erc20Wrapper => self.erc20wrapper@,
            Artifact::Example => self.example@,
        }
    }

    pub fn path_of(&self, a: Artifact) -> (r: &str)
        ensures
            r@ == self.path_spec(a),
    {
        match a {
            Artifact::Uni => self.uni.as_str(),
            Artifact::Timelock => self.timelock.as_str(),
            Artifact::GovernorAlpha => self.governor_alpha.as_str(),
            Artifact::Weth9 => self.weth9.as_str(),
            Artifact::UniswapV1Factory => self.uniswap_v1factory.as_str(),
            Artifact::UniswapV1Exchange => self.uniswap_v1exchange.as_str(),
            Artifact::UniswapV2Factory => self.uniswap_v2factory.as_str(),
            Artifact::UniswapV2Router01 => self.uniswap_v2router01.as_str(),
            Artifact::UniswapV2Router02 => self.uniswap_v2router02.as_str(),
            Artifact::RouterEventEmitter => self.router_event_emitter.as_str(),
            Artifact::UniswapV2Migrator => self.uniswap_v2migrator.as_str(),
            Artifact::Multicall => self.multicall.as_str(),
            Artifact::Erc20 => self.erc20.as_str(),
            Artifact::Erc20Wrapper => self.erc20wrapper.as_str(),
            Artifact::Example => self.example.as_str(),
        }
    }
}

} // verus!

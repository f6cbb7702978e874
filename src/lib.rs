//! Resumable deployment of an ordered set of interdependent contracts, with
//! the address of every contract predicted from its deployer and nonce.

pub mod address;
pub mod paths;
pub mod deployer;
pub mod plan;
pub mod token;
pub mod liquidity;

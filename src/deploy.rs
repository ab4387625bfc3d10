//! Settings for installing the contract on a network.

use vstd::prelude::*;

verus! {

/// Gas granted to the installation of the contract, in motes.
pub const DEPLOY_GAS_LIMIT: u64 = 200_000_000_000;

/// The script that installs the contract, or loads an installed one.
pub struct CasperClickerDeployScript;

impl CasperClickerDeployScript {
    /// The gas granted to the installation.
    pub fn gas_limit(&self) -> (r: u64)
        ensures
            r == DEPLOY_GAS_LIMIT,
    {
        DEPLOY_GAS_LIMIT
    }
}

} // verus!

//! Addresses of the contracts deployed on one chain.

use vstd::prelude::*;

verus! {

/// A 20-byte account address.
#[derive(Clone, Copy, Debug, PartialEq, Eq)]
pub struct Address(pub [u8; 20]);

/// Contracts that the chains of one ecosystem share.
#[derive(Clone, Copy, Debug, PartialEq, Eq)]
pub struct EcosystemContracts {
    pub transparent_proxy_admin_addr: Address,
}

/// The contracts deployed on one chain.
#[derive(Clone, Copy, Debug, PartialEq, Eq)]
pub struct ContractsConfig {
    pub diamond_proxy_addr: Address,
    pub governance_addr: Address,
    pub ecosystem_contracts: Option<EcosystemContracts>,
}

impl ContractsConfig {
    /// The admin of the transparent proxy, where the ecosystem contracts are known.
    pub open spec fn proxy_admin_spec(&self) -> Option<Address> {
        match self.ecosystem_contracts {
            Some(ecosystem) => Some(ecosystem.transparent_proxy_admin_addr),
            None => None,
        }
    }

    /// The admin of the transparent proxy, where the ecosystem contracts are known.
    pub fn proxy_admin(&self) -> (admin: Option<Address>)
        ensures
            admin == self.proxy_admin_spec(),
    {
        match self.ecosystem_contracts {
            Some(ecosystem) => Some(ecosystem.transparent_proxy_admin_addr),
            None => None,
        }
    }
}

} // verus!

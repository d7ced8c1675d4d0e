//! The per-chain query client: a shared transport bound to one chain's
//! contracts and confirmation depth.

use crate::config::Chains;
use crate::contracts::{Address, ContractsConfig};
use crate::shared::share;
use std::sync::Arc;
use vstd::prelude::*;

verus! {

/// A query client as plain values.
pub struct ClientView<T> {
    pub name: Seq<char>,
    pub client: Arc<T>,
    pub diamond_proxy_addr: Address,
    pub transparent_proxy_admin_addr: Option<Address>,
    pub governance_addr: Address,
    pub confirmations_for_event: Option<u64>,
}

/// One chain's query client. It is not `Clone`: a client belongs to one task.
#[derive(Debug)]
pub struct ChainQueryClient<T> {
    pub name: String,
    pub client: Arc<T>,
    pub diamond_proxy_addr: Address,
    pub transparent_proxy_admin_addr: Option<Address>,
    pub governance_addr: Address,
    pub confirmations_for_event: Option<u64>,
}

impl<T> View for ChainQueryClient<T> {
    type V = ClientView<T>;

    open spec fn view(&self) -> ClientView<T> {
        ClientView {
            name: self.name@,
            client: self.client,
            diamond_proxy_addr: self.diamond_proxy_addr,
            transparent_proxy_admin_addr: self.transparent_proxy_admin_addr,
            governance_addr: self.governance_addr,
            confirmations_for_event: self.confirmations_for_event,
        }
    }
}

/// The client of `chain`: its own name, the chain's contracts and
/// confirmation depth, and the shared transport.
pub open spec fn client_for<T>(
    chain: Chains,
    contracts: ContractsConfig,
    confirmations: Option<u64>,
    transport: Arc<T>,
) -> ClientView<T> {
    ClientView {
        name: chain.client_name_text(),
        client: transport,
        diamond_proxy_addr: contracts.diamond_proxy_addr,
        transparent_proxy_admin_addr: contracts.proxy_admin_spec(),
        governance_addr: contracts.governance_addr,
        confirmations_for_event: confirmations,
    }
}

impl<T> ChainQueryClient<T> {
    /// A client that queries the given contracts over `client`.
    pub fn new(
        name: String,
        client: Arc<T>,
        diamond_proxy_addr: Address,
        transparent_proxy_admin_addr: Option<Address>,
        governance_addr: Address,
        confirmations_for_event: Option<u64>,
    ) -> (out: Self)
        ensures
            out@ == (ClientView {
                name: name@,
                client,
                diamond_proxy_addr,
                transparent_proxy_admin_addr,
                governance_addr,
                confirmations_for_event,
            }),
    {
        ChainQueryClient {
            name,
            client,
            diamond_proxy_addr,
            transparent_proxy_admin_addr,
            governance_addr,
            confirmations_for_event,
        }
    }
}

/// Builds the query client of `chain` from that chain's contracts and
/// confirmation depth. The transport is shared, not copied.
pub fn build_client<T>(
    chain: Chains,
    contracts: &ContractsConfig,
    confirmations: Option<u64>,
    transport: &Arc<T>,
) -> (out: ChainQueryClient<T>)
    ensures
        out@ == client_for(chain, *contracts, confirmations, *transport),
{
    ChainQueryClient::new(
        chain.client_name().to_owned(),
        share(transport),
        contracts.diamond_proxy_addr,
        contracts.proxy_admin(),
        contracts.governance_addr,
        confirmations,
    )
}

} // verus!

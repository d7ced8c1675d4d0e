//! The wiring layer: from the configuration and the shared resources to one
//! registered watch task per chain.

use crate::client::{build_client, client_for, ClientView};
use crate::config::{ChainWatchConfig, Chains};
use crate::contracts::ContractsConfig;
use crate::service::{task_ids, ContextView, ResourceKind, ServiceContext, WiringError};
use crate::shared::share;
use crate::task::{lemma_task_ids_distinct, task_id_text, ChainWatchTask, TaskView};
use crate::time::nanos_per_milli;
use std::sync::Arc;
use vstd::prelude::*;

verus! {

/// Wiring layer of the chain watcher.
///
/// It asks the service for the storage pool and for the transport, and adds
/// one watch task for each chain.
#[derive(Clone, Copy, Debug)]
pub struct ChainWatchLayer {
    pub chain_watch_config: ChainWatchConfig,
    pub contracts_config: ContractsConfig,
    pub bnb_contracts_config: ContractsConfig,
}

impl ChainWatchLayer {
    /// The contracts of `chain`.
    pub open spec fn contracts_spec(&self, chain: Chains) -> ContractsConfig {
        match chain {
            Chains::ETH => self.contracts_config,
            Chains::BNB => self.bnb_contracts_config,
        }
    }

    /// The query client that wiring builds for `chain`.
    pub open spec fn planned_client<T>(&self, chain: Chains, transport: Arc<T>) -> ClientView<T> {
        client_for(
            chain,
            self.contracts_spec(chain),
            self.chain_watch_config.confirmations_spec(chain),
            transport,
        )
    }

    /// The task that wiring builds for `chain`.
    pub open spec fn planned_task<P, T>(
        &self,
        chain: Chains,
        pool: Arc<P>,
        transport: Arc<T>,
    ) -> TaskView<P, T> {
        TaskView {
            chain,
            main_pool: pool,
            client: self.planned_client(chain, transport),
            diamond_proxy_address: self.contracts_spec(chain).diamond_proxy_addr,
            poll_interval_nanos: self.chain_watch_config.poll_interval_millis(chain) as nat
                * nanos_per_milli(),
        }
    }

    /// The tasks that wiring builds: one for each chain, in wiring order.
    pub open spec fn planned_tasks<P, T>(&self, pool: Arc<P>, transport: Arc<T>) -> Seq<
        TaskView<P, T>,
    > {
        Seq::new(
            Chains::declared_spec().len(),
            |i: int| self.planned_task(Chains::declared_spec()[i], pool, transport),
        )
    }

    /// How wiring ends on `context`: it needs the pool, then the transport,
    /// then a valid configuration.
    pub open spec fn wire_outcome<P, T>(&self, context: ContextView<P, T>) -> Result<
        (),
        WiringError,
    > {
        if context.pool is None {
            Err(WiringError::MissingResource(ResourceKind::MasterPool))
        } else if context.eth_interface is None {
            Err(WiringError::MissingResource(ResourceKind::EthInterface))
        } else {
            match self.chain_watch_config.validate_spec() {
                Err(e) => Err(WiringError::Config(e)),
                Ok(_) => Ok(()),
            }
        }
    }

    /// What wiring leaves of `context`: with the planned tasks behind the
    /// tasks that were there, or, where it fails, as it was.
    pub open spec fn wired<P, T>(&self, context: ContextView<P, T>) -> ContextView<P, T> {
        if self.wire_outcome(context) is Ok {
            ContextView {
                tasks: context.tasks + self.planned_tasks(
                    context.pool->Some_0,
                    context.eth_interface->Some_0,
                ),
                ..context
            }
        } else {
            context
        }
    }

    /// A layer that watches the ETH chain through `contracts_config` and the
    /// BNB chain through `bnb_contracts_config`.
    pub fn new(
        chain_watch_config: ChainWatchConfig,
        contracts_config: ContractsConfig,
        bnb_contracts_config: ContractsConfig,
    ) -> (layer: Self)
        ensures
            layer == (ChainWatchLayer { chain_watch_config, contracts_config, bnb_contracts_config }),
    {
        ChainWatchLayer { chain_watch_config, contracts_config, bnb_contracts_config }
    }

    /// The layer's name.
    pub fn layer_name(&self) -> (name: &'static str)
        ensures
            name@ == "chain_watch_layer"@,
    {
        "chain_watch_layer"
    }

    /// The contracts of `chain`.
    pub fn contracts(&self, chain: Chains) -> (contracts: &ContractsConfig)
        ensures
            *contracts == self.contracts_spec(chain),
    {
        match chain {
            Chains::ETH => &self.contracts_config,
            Chains::BNB => &self.bnb_contracts_config,
        }
    }

    /// Builds the task of `chain`: its own client over the shared transport,
    /// the shared pool, and the chain's poll interval.
    pub fn build_task<P, T>(&self, chain: Chains, pool: &Arc<P>, transport: &Arc<T>) -> (task:
        ChainWatchTask<P, T>)
        ensures
            task@ == self.planned_task(chain, *pool, *transport),
    {
        let contracts = self.contracts(chain);
        let client = build_client(
            chain,
            contracts,
            self.chain_watch_config.confirmations(chain),
            transport,
        );
        ChainWatchTask {
            chain,
            main_pool: share(pool),
            client,
            diamond_proxy_address: contracts.diamond_proxy_addr,
            poll_interval: self.chain_watch_config.poll_interval(chain),
        }
    }

    /// Wires the layer into `context`.
    ///
    /// Both resources are taken once; a missing one, or a configuration with
    /// a zero poll interval, fails the wiring before any task is registered.
    /// Otherwise one task for each chain is registered, in wiring order,
    /// behind the tasks that were there. No task is started.
    pub fn wire<P, T>(self, context: &mut ServiceContext<P, T>) -> (res: Result<(), WiringError>)
        ensures
            res == self.wire_outcome(old(context)@),
            final(context)@ == self.wired(old(context)@),
            res is Err ==> final(context)@ == old(context)@,
            old(context)@.pool is None ==> res == Err::<(), WiringError>(
                WiringError::MissingResource(ResourceKind::MasterPool),
            ),
    {
        let main_pool = match context.get_pool() {
            Ok(pool) => pool,
            Err(e) => {
                return Err(e);
            },
        };
        let client = match context.get_eth_interface() {
            Ok(client) => client,
            Err(e) => {
                return Err(e);
            },
        };
        match self.chain_watch_config.validate() {
            Ok(_) => {},
            Err(e) => {
                return Err(WiringError::Config(e));
            },
        }
        let chains = Chains::declared();
        let ghost planned = self.planned_tasks(main_pool, client);
        let mut i: usize = 0;
        while i < chains.len()
            invariant
                i <= chains.len(),
                chains@ == Chains::declared_spec(),
                planned == self.planned_tasks(main_pool, client),
                context@ == (ContextView {
                    tasks: old(context)@.tasks + planned.take(i as int),
                    ..old(context)@
                }),
            decreases chains.len() - i,
        {
            let task = self.build_task(chains[i], &main_pool, &client);
            context.add_task(task);
            i += 1;
            assert(old(context)@.tasks + planned.take(i as int) =~= (old(context)@.tasks
                + planned.take(i - 1)).push(planned[i - 1]));
        }
        assert(planned.take(i as int) =~= planned);
        Ok(())
    }
}

/// Wiring plans exactly one task for each chain: as many tasks as chains, the
/// task at each place being that of the chain at that place, and every chain
/// having exactly one place.
pub proof fn lemma_one_task_per_chain<P, T>(layer: ChainWatchLayer, pool: Arc<P>, transport: Arc<T>)
    ensures
        layer.planned_tasks(pool, transport).len() == Chains::declared_spec().len(),
        forall|i: int|
            0 <= i < Chains::declared_spec().len() ==> (#[trigger] layer.planned_tasks(
                pool,
                transport,
            )[i]).chain == Chains::declared_spec()[i],
        Chains::declared_spec().no_duplicates(),
        forall|chain: Chains| Chains::declared_spec().contains(chain),
{
    assert forall|chain: Chains| Chains::declared_spec().contains(chain) by {
        match chain {
            Chains::ETH => assert(Chains::declared_spec()[0] == chain),
            Chains::BNB => assert(Chains::declared_spec()[1] == chain),
        }
    }
}

/// The ids of the tasks that wiring plans are the ids of the chains in wiring
/// order, whatever the layer and the resources: wiring again gives the same
/// ids. No id occurs twice among them.
pub proof fn lemma_planned_ids_stable_and_distinct<P, T>(
    layer: ChainWatchLayer,
    pool: Arc<P>,
    transport: Arc<T>,
)
    ensures
        task_ids(layer.planned_tasks(pool, transport)) == seq![
            task_id_text(Chains::ETH),
            task_id_text(Chains::BNB),
        ],
        task_ids(layer.planned_tasks(pool, transport)).no_duplicates(),
{
    lemma_task_ids_distinct(Chains::ETH, Chains::BNB);
}

/// Wiring is a function of the layer and the service alone: wiring equal
/// layers into equal services ends the same way and leaves equal services.
pub proof fn lemma_wiring_is_repeatable<P, T>(
    first: ChainWatchLayer,
    second: ChainWatchLayer,
    first_context: ContextView<P, T>,
    second_context: ContextView<P, T>,
)
    requires
        first == second,
        first_context == second_context,
    ensures
        first.wire_outcome(first_context) == second.wire_outcome(second_context),
        first.wired(first_context) == second.wired(second_context),
{
}

/// Wiring into a service whose registered ids are distinct, and none of them
/// a watch task's, leaves the registered ids distinct.
pub proof fn lemma_wiring_keeps_ids_distinct<P, T>(layer: ChainWatchLayer, context: ContextView<P, T>)
    requires
        task_ids(context.tasks).no_duplicates(),
        forall|chain: Chains| !task_ids(context.tasks).contains(task_id_text(chain)),
    ensures
        task_ids(layer.wired(context).tasks).no_duplicates(),
{
    if layer.wire_outcome(context) is Ok {
        let pool = context.pool->Some_0;
        let transport = context.eth_interface->Some_0;
        let planned = layer.planned_tasks(pool, transport);
        let before = task_ids(context.tasks);
        let after = task_ids(layer.wired(context).tasks);
        lemma_planned_ids_stable_and_distinct(layer, pool, transport);
        assert forall|i: int, j: int| 0 <= i < after.len() && 0 <= j < after.len() && i != j implies after[i]
            != after[j] by {
            let n = before.len() as int;
            if i < n && j >= n {
                assert(before.contains(before[i]));
            } else if j < n && i >= n {
                assert(before.contains(before[j]));
            } else if i >= n && j >= n {
                assert(after[i] == task_ids(planned)[i - n]);
                assert(after[j] == task_ids(planned)[j - n]);
            }
        }
    }
}

/// Each chain's client is built from that chain's own contracts and
/// confirmation depth.
pub proof fn lemma_client_reads_own_chain<T>(layer: ChainWatchLayer, chain: Chains, transport: Arc<T>)
    ensures
        layer.planned_client(chain, transport).diamond_proxy_addr == layer.contracts_spec(
            chain,
        ).diamond_proxy_addr,
        layer.planned_client(chain, transport).transparent_proxy_admin_addr
            == layer.contracts_spec(chain).proxy_admin_spec(),
        layer.planned_client(chain, transport).governance_addr == layer.contracts_spec(
            chain,
        ).governance_addr,
        layer.planned_client(chain, transport).confirmations_for_event
            == layer.chain_watch_config.confirmations_spec(chain),
{
}

/// Swapping the contracts of the two chains swaps the addresses of their
/// clients: each client of the swapped layer has the addresses that the
/// other chain's client had.
pub proof fn lemma_swapped_contracts_swap_clients<T>(
    layer: ChainWatchLayer,
    swapped: ChainWatchLayer,
    transport: Arc<T>,
)
    requires
        swapped.contracts_config == layer.bnb_contracts_config,
        swapped.bnb_contracts_config == layer.contracts_config,
    ensures
        same_addresses(
            swapped.planned_client(Chains::ETH, transport),
            layer.planned_client(Chains::BNB, transport),
        ),
        same_addresses(
            swapped.planned_client(Chains::BNB, transport),
            layer.planned_client(Chains::ETH, transport),
        ),
{
}

/// The two clients query the same contracts.
pub open spec fn same_addresses<T>(first: ClientView<T>, second: ClientView<T>) -> bool {
    &&& first.diamond_proxy_addr == second.diamond_proxy_addr
    &&& first.transparent_proxy_admin_addr == second.transparent_proxy_admin_addr
    &&& first.governance_addr == second.governance_addr
}

} // verus!

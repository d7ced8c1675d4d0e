//! The watch task of one chain: its identity, what its engine is started
//! with, and how the engine's outcome becomes the task's.

use crate::client::{ChainQueryClient, ClientView};
use crate::config::Chains;
use crate::contracts::Address;
use crate::time::duration_nanos;
use std::sync::Arc;
use std::time::Duration;
use vstd::prelude::*;

verus! {

/// The name under which a task is registered.
#[derive(Debug, PartialEq, Eq)]
pub struct TaskId(pub String);

impl Clone for TaskId {
    fn clone(&self) -> (id: Self)
        ensures
            id@ == self@,
    {
        TaskId(self.0.clone())
    }
}

impl View for TaskId {
    type V = Seq<char>;

    open spec fn view(&self) -> Seq<char> {
        self.0@
    }
}

impl DeepView for TaskId {
    type V = Seq<char>;

    open spec fn deep_view(&self) -> Seq<char> {
        self.0@
    }
}

/// What every watch task's id starts with.
pub open spec fn task_id_prefix() -> Seq<char> {
    "chain_watch_"@
}

/// The id of the watch task of `chain`: the prefix, then the chain's name.
pub open spec fn task_id_text(chain: Chains) -> Seq<char> {
    task_id_prefix() + chain.name_text()
}

/// A watch task as plain values.
pub struct TaskView<P, T> {
    pub chain: Chains,
    pub main_pool: Arc<P>,
    pub client: ClientView<T>,
    pub diamond_proxy_address: Address,
    pub poll_interval_nanos: nat,
}

/// The watch task of one chain. It owns its query client and shares the
/// storage pool with the other tasks.
#[derive(Debug)]
pub struct ChainWatchTask<P, T> {
    pub chain: Chains,
    pub main_pool: Arc<P>,
    pub client: ChainQueryClient<T>,
    pub diamond_proxy_address: Address,
    pub poll_interval: Duration,
}

impl<P, T> View for ChainWatchTask<P, T> {
    type V = TaskView<P, T>;

    open spec fn view(&self) -> TaskView<P, T> {
        TaskView {
            chain: self.chain,
            main_pool: self.main_pool,
            client: self.client@,
            diamond_proxy_address: self.diamond_proxy_address,
            poll_interval_nanos: duration_nanos(self.poll_interval),
        }
    }
}

/// What the watcher engine of a task is built from and run with.
#[derive(Debug)]
pub struct EngineStart<P, T, S> {
    pub name: String,
    pub diamond_proxy_address: Address,
    pub client: ChainQueryClient<T>,
    pub main_pool: Arc<P>,
    pub poll_interval: Duration,
    pub stop_receiver: S,
}

/// A failure of the engine, with the task it belongs to.
#[derive(Debug)]
pub struct TaskError<E> {
    pub task_id: TaskId,
    pub source: E,
}

impl<P, T> ChainWatchTask<P, T> {
    /// The task's id: it names the chain, so no two chains share one.
    pub fn id(&self) -> (id: TaskId)
        ensures
            id@ == task_id_text(self.chain),
    {
        let mut id = "chain_watch_".to_owned();
        id.append(self.chain.name());
        TaskId(id)
    }

    /// Starts the task: hands over, untouched, what the engine is built from
    /// (the chain's name and proxy address, the task's own client, the shared
    /// pool, the poll interval) and the stop receiver it is to be run with.
    pub fn run<S>(self, stop_receiver: S) -> (start: EngineStart<P, T, S>)
        ensures
            start.name@ == self.chain.name_text(),
            start.diamond_proxy_address == self.diamond_proxy_address,
            start.client == self.client,
            start.main_pool == self.main_pool,
            start.poll_interval == self.poll_interval,
            start.stop_receiver == stop_receiver,
    {
        EngineStart {
            name: self.chain.name().to_owned(),
            diamond_proxy_address: self.diamond_proxy_address,
            client: self.client,
            main_pool: self.main_pool,
            poll_interval: self.poll_interval,
            stop_receiver,
        }
    }
}

/// Turns what the engine answered, when it was built or when it returned,
/// into the task's own answer: a success passes through, a failure passes
/// through unchanged with the task's id attached.
pub fn attribute<V, E>(task_id: &TaskId, outcome: Result<V, E>) -> (res: Result<V, TaskError<E>>)
    ensures
        match outcome {
            Ok(value) => res == Ok::<V, TaskError<E>>(value),
            Err(source) => res matches Err(error) && error.task_id@ == task_id@ && error.source
                == source,
        },
{
    match outcome {
        Ok(value) => Ok(value),
        Err(source) => Err(TaskError { task_id: task_id.clone(), source }),
    }
}

/// No two chains have the same task id.
pub proof fn lemma_task_ids_distinct(first: Chains, second: Chains)
    ensures
        task_id_text(first) == task_id_text(second) <==> first == second,
{
    reveal_strlit("ethereum");
    reveal_strlit("binance");
    if first != second {
        assert(first.name_text().len() != second.name_text().len());
        assert(task_id_text(first).len() != task_id_text(second).len());
    }
}

} // verus!

//! The host service as wiring sees it: the resources that earlier stages
//! provided, and the tasks registered so far.

use crate::config::ConfigError;
use crate::shared::share;
use crate::task::{task_id_text, ChainWatchTask, TaskId, TaskView};
use std::sync::Arc;
use vstd::prelude::*;

verus! {

/// The resources that wiring asks for.
#[derive(Clone, Copy, Debug, PartialEq, Eq)]
pub enum ResourceKind {
    /// The storage pool that all tasks share.
    MasterPool,
    /// The transport to the chains' nodes.
    EthInterface,
}

/// Why wiring failed.
#[derive(Clone, Copy, Debug, PartialEq, Eq)]
pub enum WiringError {
    /// No earlier stage provided the resource.
    MissingResource(ResourceKind),
    /// The configuration was turned down.
    Config(ConfigError),
}

/// A service context as plain values.
pub struct ContextView<P, T> {
    pub pool: Option<Arc<P>>,
    pub eth_interface: Option<Arc<T>>,
    pub tasks: Seq<TaskView<P, T>>,
}

/// The service under construction.
#[derive(Debug)]
pub struct ServiceContext<P, T> {
    pool: Option<Arc<P>>,
    eth_interface: Option<Arc<T>>,
    tasks: Vec<ChainWatchTask<P, T>>,
}

/// The views of `tasks`, one for one.
pub open spec fn task_views<P, T>(tasks: Seq<ChainWatchTask<P, T>>) -> Seq<TaskView<P, T>> {
    Seq::new(tasks.len(), |i: int| tasks[i]@)
}

/// The ids of `tasks`, one for one.
pub open spec fn task_ids<P, T>(tasks: Seq<TaskView<P, T>>) -> Seq<Seq<char>> {
    Seq::new(tasks.len(), |i: int| task_id_text(tasks[i].chain))
}

impl<P, T> View for ServiceContext<P, T> {
    type V = ContextView<P, T>;

    closed spec fn view(&self) -> ContextView<P, T> {
        ContextView {
            pool: self.pool,
            eth_interface: self.eth_interface,
            tasks: task_views(self.tasks@),
        }
    }
}

impl<P, T> ServiceContext<P, T> {
    /// A service with the resources that were provided, and no task yet.
    pub fn new(pool: Option<Arc<P>>, eth_interface: Option<Arc<T>>) -> (context: Self)
        ensures
            context@ == (ContextView { pool, eth_interface, tasks: Seq::empty() }),
    {
        let context = ServiceContext { pool, eth_interface, tasks: Vec::new() };
        assert(context@.tasks =~= Seq::empty());
        context
    }

    /// The shared storage pool, if a stage provided it.
    pub fn get_pool(&self) -> (res: Result<Arc<P>, WiringError>)
        ensures
            res == match self@.pool {
                Some(pool) => Ok::<Arc<P>, WiringError>(pool),
                None => Err(WiringError::MissingResource(ResourceKind::MasterPool)),
            },
    {
        match &self.pool {
            Some(pool) => Ok(share(pool)),
            None => Err(WiringError::MissingResource(ResourceKind::MasterPool)),
        }
    }

    /// The shared transport, if a stage provided it.
    pub fn get_eth_interface(&self) -> (res: Result<Arc<T>, WiringError>)
        ensures
            res == match self@.eth_interface {
                Some(client) => Ok::<Arc<T>, WiringError>(client),
                None => Err(WiringError::MissingResource(ResourceKind::EthInterface)),
            },
    {
        match &self.eth_interface {
            Some(client) => Ok(share(client)),
            None => Err(WiringError::MissingResource(ResourceKind::EthInterface)),
        }
    }

    /// Registers `task` behind the tasks that are there. It is not started.
    pub fn add_task(&mut self, task: ChainWatchTask<P, T>)
        ensures
            final(self)@ == (ContextView { tasks: old(self)@.tasks.push(task@), ..old(self)@ }),
    {
        self.tasks.push(task);
        assert(self@.tasks =~= old(self)@.tasks.push(task@));
    }

    /// The ids of the registered tasks, in the order of registration.
    pub fn task_ids(&self) -> (ids: Vec<TaskId>)
        ensures
            ids.deep_view() == task_ids(self@.tasks),
    {
        let mut ids: Vec<TaskId> = Vec::new();
        let mut i: usize = 0;
        while i < self.tasks.len()
            invariant
                i <= self.tasks.len(),
                ids@.len() == i,
                forall|k: int| 0 <= k < i ==> (#[trigger] ids@[k])@ == task_ids(self@.tasks)[k],
            decreases self.tasks.len() - i,
        {
            let id = self.tasks[i].id();
            ids.push(id);
            i += 1;
        }
        ids
    }

    /// Hands the registered tasks to whoever runs them.
    pub fn into_tasks(self) -> (tasks: Vec<ChainWatchTask<P, T>>)
        ensures
            task_views(tasks@) == self@.tasks,
    {
        self.tasks
    }
}

} // verus!

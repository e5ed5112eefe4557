pub mod node_pool_utils;
pub mod nodes_pool_container;

use godot::obj::InstanceId;
use vstd::prelude::*;

use node_pool_utils::{NodePoolError, PoolEntry, PoolableState};
use nodes_pool_container::{all_have_state, NodesPoolContainer, PoolModel};

verus! {

/// A pool of reusable nodes. It is created empty and filled once with
/// `initialize_nodes`; from then on it follows the state changes its nodes
/// report.
pub struct NodePool {
    nodes_container: Option<NodesPoolContainer>,
}

impl View for NodePool {
    type V = Option<PoolModel>;

    closed spec fn view(&self) -> Option<PoolModel> {
        match self.nodes_container {
            Some(c) => Some(c@),
            None => None,
        }
    }
}

impl NodePool {
    /// Every pool that was filled holds as many nodes as it was filled with.
    pub open spec fn wf(&self) -> bool {
        self@ matches Some(m) ==> m.wf()
    }

    /// A pool that has not been filled yet.
    pub fn init() -> (pool: NodePool)
        ensures
            pool.wf(),
            pool@ is None,
    {
        NodePool { nodes_container: None }
    }

    /// Whether the pool has been filled.
    pub fn is_initialized(&self) -> (r: bool)
        ensures
            r == self@ is Some,
    {
        self.nodes_container.is_some()
    }

    /// Fills the pool with `nodes`, each in the list of the state it reports;
    /// a pool can be filled once only.
    pub fn initialize_nodes(&mut self, nodes: Vec<PoolEntry>) -> (r: Result<(), NodePoolError>)
        requires
            old(self).wf(),
            old(self)@ is None ==> all_have_state(nodes@),
        ensures
            final(self).wf(),
            old(self)@ is Some ==> r == Err::<(), NodePoolError>(NodePoolError::NodePoolAlreadyInitialized)
                && final(self)@ == old(self)@,
            old(self)@ is None ==> r is Ok && final(self)@ == Some(PoolModel::from_entries(nodes@)),
    {
        if self.nodes_container.is_some() {
            return Err(NodePoolError::NodePoolAlreadyInitialized);
        }
        self.nodes_container = Some(NodesPoolContainer::new(nodes));
        Ok(())
    }

    /// The node that joined `state` last.
    pub fn get_node(&self, state: PoolableState) -> (r: Result<InstanceId, NodePoolError>)
        ensures
            r == match self@ {
                Some(m) => m.get_node(state),
                None => Err(NodePoolError::NodePoolContainerNotCreated),
            },
    {
        if let Some(container) = &self.nodes_container {
            return container.get_node(state);
        }
        Err(NodePoolError::NodePoolContainerNotCreated)
    }

    /// Every node in `state`, in the order in which they joined it.
    pub fn get_nodes(&self, state: PoolableState) -> (r: Result<Vec<InstanceId>, NodePoolError>)
        ensures
            match self@ {
                Some(m) => r matches Ok(nodes) && nodes@ == m.nodes(state),
                None => r == Err::<Vec<InstanceId>, NodePoolError>(NodePoolError::NodePoolContainerNotCreated),
            },
    {
        if let Some(container) = &self.nodes_container {
            return container.get_nodes(state);
        }
        Err(NodePoolError::NodePoolContainerNotCreated)
    }

    /// Moves `node` from `old_state` to the end of `new_state`'s list.
    pub fn set_node_state(
        &mut self,
        node: InstanceId,
        old_state: PoolableState,
        new_state: PoolableState,
    ) -> (r: Result<(), NodePoolError>)
        requires
            old(self).wf(),
        ensures
            final(self).wf(),
            match old(self)@ {
                Some(m) => r == m.set_node_state_result(node, old_state)
                    && final(self)@ == Some(m.after_set_node_state(node, old_state, new_state)),
                None => r == Err::<(), NodePoolError>(NodePoolError::NodePoolContainerNotCreated)
                    && final(self)@ is None,
            },
    {
        if let Some(container) = &mut self.nodes_container {
            return container.set_node_state(node, old_state, new_state);
        }
        Err(NodePoolError::NodePoolContainerNotCreated)
    }

    /// What the pool does when one of its nodes reports that it went from
    /// `old_state` to `new_state`: the node follows in the pool. A report
    /// about a node the pool does not hold in `old_state` changes nothing.
    pub fn node_state_change_listener(
        &mut self,
        signaling_node: InstanceId,
        old_state: PoolableState,
        new_state: PoolableState,
    )
        requires
            old(self).wf(),
        ensures
            final(self).wf(),
            final(self)@ == match old(self)@ {
                Some(m) => Some(m.after_set_node_state(signaling_node, old_state, new_state)),
                None => None,
            },
    {
        if let Some(container) = &mut self.nodes_container {
            let _ = container.set_node_state(signaling_node, old_state, new_state);
        }
    }
}

} // verus!

use godot::obj::InstanceId;
use vstd::prelude::*;

verus! {

/// Godot's identifier of an object. The pool tells its nodes apart by it.
#[verifier::external_type_specification]
#[verifier::external_body]
pub struct ExInstanceId(InstanceId);

/// Compares two ids with `InstanceId`'s `PartialEq`, which godot derives over
/// the id's one field, the non-zero number: equal ids are the same value.
#[verifier::external_body]
pub(crate) fn same_instance(a: &InstanceId, b: &InstanceId) -> (r: bool)
    ensures
        r == (*a == *b),
{
    a == b
}

/// Lifecycle state of a poolable node.
#[derive(Clone, Copy, PartialEq, Eq, Structural, Hash, Debug)]
pub enum PoolableState {
    ActiveAndInUse,
    ActiveAndWaiting,
    Deactive,
}

impl PoolableState {
    /// Every state, in declaration order.
    pub fn iter() -> (states: Vec<PoolableState>)
        ensures
            states@ == seq![
                PoolableState::ActiveAndInUse,
                PoolableState::ActiveAndWaiting,
                PoolableState::Deactive,
            ],
    {
        vec![PoolableState::ActiveAndInUse, PoolableState::ActiveAndWaiting, PoolableState::Deactive]
    }
}

/// Errors reported by the node pool.
#[derive(Clone, Copy, PartialEq, Eq, Structural, Debug)]
pub enum NodePoolError {
    NoNodeFound,
    ErrorInvalidInput,
    NotEnoughNodesInPool,
    NodePoolAlreadyInitialized,
    AllNodesActive,
    NodesMapNotInitialized,
    NodePoolContainerNotCreated,
    ErrorCreatingNode,
}

/// Placement of a node relative to the scene tree.
#[derive(Clone, Copy, PartialEq, Eq, Structural, Hash, Debug)]
pub enum NodeState {
    Active,
    InactiveAndReady,
    InactiveNeedsTree,
    Dead,
}

impl NodeState {
    /// Every state, in declaration order.
    pub fn iter() -> (states: Vec<NodeState>)
        ensures
            states@ == seq![
                NodeState::Active,
                NodeState::InactiveAndReady,
                NodeState::InactiveNeedsTree,
                NodeState::Dead,
            ],
    {
        vec![NodeState::Active, NodeState::InactiveAndReady, NodeState::InactiveNeedsTree, NodeState::Dead]
    }
}

/// A node together with where it stands relative to the scene tree.
pub struct NodeInfo {
    pub node: InstanceId,
    pub state: NodeState,
}

impl NodeInfo {
    /// A freshly created node: it still has to be added to the tree.
    pub fn new(node: InstanceId) -> (info: NodeInfo)
        ensures
            info.node == node,
            info.state == NodeState::InactiveNeedsTree,
    {
        NodeInfo { node, state: NodeState::InactiveNeedsTree }
    }
}

/// What the pool reads of a poolable node: its id and the state it reports.
#[derive(Clone, Copy)]
pub struct PoolEntry {
    pub id: InstanceId,
    pub state: Option<PoolableState>,
}

} // verus!

use game_core::node_pool::node_pool_utils::{
    NodeInfo, NodePoolError, NodeState, PoolEntry, PoolableState,
};
use game_core::node_pool::nodes_pool_container::NodesPoolContainer;
use game_core::node_pool::NodePool;
use godot::obj::InstanceId;

fn id(n: i64) -> InstanceId {
    InstanceId::from_i64(n)
}

fn entry(n: i64, state: PoolableState) -> PoolEntry {
    PoolEntry { id: id(n), state: Some(state) }
}

fn sample_entries() -> Vec<PoolEntry> {
    vec![
        entry(1, PoolableState::ActiveAndWaiting),
        entry(2, PoolableState::ActiveAndInUse),
        entry(3, PoolableState::ActiveAndWaiting),
        entry(4, PoolableState::Deactive),
    ]
}

#[test]
fn poolable_state_iter_lists_every_state_in_order() {
    assert_eq!(
        PoolableState::iter(),
        vec![
            PoolableState::ActiveAndInUse,
            PoolableState::ActiveAndWaiting,
            PoolableState::Deactive
        ]
    );
}

#[test]
fn node_state_iter_lists_every_state_in_order() {
    assert_eq!(
        NodeState::iter(),
        vec![
            NodeState::Active,
            NodeState::InactiveAndReady,
            NodeState::InactiveNeedsTree,
            NodeState::Dead
        ]
    );
}

#[test]
fn node_info_starts_outside_the_tree() {
    let info = NodeInfo::new(id(9));
    assert_eq!(info.node, id(9));
    assert_eq!(info.state, NodeState::InactiveNeedsTree);
}

#[test]
fn container_groups_nodes_by_reported_state() {
    let pool = NodesPoolContainer::new(sample_entries());
    assert_eq!(pool.get_nodes(PoolableState::ActiveAndWaiting).unwrap(), vec![id(1), id(3)]);
    assert_eq!(pool.get_nodes(PoolableState::ActiveAndInUse).unwrap(), vec![id(2)]);
    assert_eq!(pool.get_nodes(PoolableState::Deactive).unwrap(), vec![id(4)]);
}

#[test]
fn container_get_node_hands_out_the_last_node_of_a_state() {
    let pool = NodesPoolContainer::new(sample_entries());
    assert_eq!(pool.get_node(PoolableState::ActiveAndWaiting).unwrap(), id(3));
    assert_eq!(pool.get_node(PoolableState::Deactive).unwrap(), id(4));
}

#[test]
fn container_get_node_of_an_empty_state_is_all_nodes_active() {
    let pool = NodesPoolContainer::new(vec![entry(1, PoolableState::ActiveAndInUse)]);
    assert_eq!(pool.get_node(PoolableState::ActiveAndWaiting), Err(NodePoolError::AllNodesActive));
    assert_eq!(pool.get_nodes(PoolableState::ActiveAndWaiting).unwrap(), vec![]);
}

#[test]
fn container_of_no_nodes_is_empty_in_every_state() {
    let pool = NodesPoolContainer::new(vec![]);
    for state in PoolableState::iter() {
        assert_eq!(pool.get_nodes(state).unwrap(), vec![]);
        assert_eq!(pool.get_node(state), Err(NodePoolError::AllNodesActive));
    }
}

#[test]
fn set_node_state_moves_a_node_to_the_end_of_its_new_state() {
    let mut pool = NodesPoolContainer::new(sample_entries());
    assert_eq!(
        pool.set_node_state(id(1), PoolableState::ActiveAndWaiting, PoolableState::ActiveAndInUse),
        Ok(())
    );
    assert_eq!(pool.get_nodes(PoolableState::ActiveAndWaiting).unwrap(), vec![id(3)]);
    assert_eq!(pool.get_nodes(PoolableState::ActiveAndInUse).unwrap(), vec![id(2), id(1)]);
    assert_eq!(pool.get_nodes(PoolableState::Deactive).unwrap(), vec![id(4)]);
    // what a read gives back of the write
    assert_eq!(pool.get_node(PoolableState::ActiveAndInUse).unwrap(), id(1));
}

#[test]
fn set_node_state_of_a_node_not_in_the_old_state_is_no_node_found() {
    let mut pool = NodesPoolContainer::new(sample_entries());
    // node 2 exists, but not in the waiting list
    assert_eq!(
        pool.set_node_state(id(2), PoolableState::ActiveAndWaiting, PoolableState::Deactive),
        Err(NodePoolError::NoNodeFound)
    );
    assert_eq!(
        pool.set_node_state(id(77), PoolableState::Deactive, PoolableState::ActiveAndWaiting),
        Err(NodePoolError::NoNodeFound)
    );
    assert_eq!(pool.get_nodes(PoolableState::ActiveAndWaiting).unwrap(), vec![id(1), id(3)]);
    assert_eq!(pool.get_nodes(PoolableState::ActiveAndInUse).unwrap(), vec![id(2)]);
    assert_eq!(pool.get_nodes(PoolableState::Deactive).unwrap(), vec![id(4)]);
}

#[test]
fn set_node_state_to_the_same_state_moves_the_node_to_the_end() {
    let mut pool = NodesPoolContainer::new(sample_entries());
    assert_eq!(
        pool.set_node_state(id(1), PoolableState::ActiveAndWaiting, PoolableState::ActiveAndWaiting),
        Ok(())
    );
    assert_eq!(pool.get_nodes(PoolableState::ActiveAndWaiting).unwrap(), vec![id(3), id(1)]);
}

#[test]
fn set_node_state_moves_the_first_of_repeated_nodes() {
    let mut pool = NodesPoolContainer::new(vec![
        entry(5, PoolableState::Deactive),
        entry(6, PoolableState::Deactive),
        entry(5, PoolableState::Deactive),
    ]);
    assert_eq!(
        pool.set_node_state(id(5), PoolableState::Deactive, PoolableState::ActiveAndWaiting),
        Ok(())
    );
    assert_eq!(pool.get_nodes(PoolableState::Deactive).unwrap(), vec![id(6), id(5)]);
    assert_eq!(pool.get_nodes(PoolableState::ActiveAndWaiting).unwrap(), vec![id(5)]);
}

#[test]
fn a_full_cycle_keeps_every_node_in_the_pool() {
    let mut pool = NodesPoolContainer::new(sample_entries());
    let moves = [
        (3, PoolableState::ActiveAndWaiting, PoolableState::ActiveAndInUse),
        (3, PoolableState::ActiveAndInUse, PoolableState::Deactive),
        (3, PoolableState::Deactive, PoolableState::ActiveAndWaiting),
    ];
    for (n, from, to) in moves {
        assert_eq!(pool.set_node_state(id(n), from, to), Ok(()));
    }
    let mut all: Vec<i64> = Vec::new();
    for state in PoolableState::iter() {
        all.extend(pool.get_nodes(state).unwrap().iter().map(|i| i.to_i64()));
    }
    all.sort();
    assert_eq!(all, vec![1, 2, 3, 4]);
    assert_eq!(pool.get_nodes(PoolableState::ActiveAndWaiting).unwrap(), vec![id(1), id(3)]);
    assert_eq!(pool.get_nodes(PoolableState::Deactive).unwrap(), vec![id(4)]);
}

#[test]
fn node_pool_before_initialization_reports_container_not_created() {
    let mut pool = NodePool::init();
    assert_eq!(
        pool.get_node(PoolableState::ActiveAndWaiting),
        Err(NodePoolError::NodePoolContainerNotCreated)
    );
    assert_eq!(
        pool.get_nodes(PoolableState::ActiveAndWaiting),
        Err(NodePoolError::NodePoolContainerNotCreated)
    );
    assert_eq!(
        pool.set_node_state(id(1), PoolableState::ActiveAndWaiting, PoolableState::Deactive),
        Err(NodePoolError::NodePoolContainerNotCreated)
    );
    pool.node_state_change_listener(id(1), PoolableState::ActiveAndWaiting, PoolableState::Deactive);
    assert_eq!(
        pool.get_node(PoolableState::Deactive),
        Err(NodePoolError::NodePoolContainerNotCreated)
    );
}

#[test]
fn node_pool_can_be_initialized_once_only() {
    let mut pool = NodePool::init();
    assert_eq!(pool.initialize_nodes(sample_entries()), Ok(()));
    assert_eq!(
        pool.initialize_nodes(vec![entry(8, PoolableState::ActiveAndWaiting)]),
        Err(NodePoolError::NodePoolAlreadyInitialized)
    );
    assert_eq!(pool.get_nodes(PoolableState::ActiveAndWaiting).unwrap(), vec![id(1), id(3)]);
    assert_eq!(pool.get_node(PoolableState::ActiveAndWaiting).unwrap(), id(3));
}

#[test]
fn node_pool_listener_follows_reported_changes() {
    let mut pool = NodePool::init();
    pool.initialize_nodes(sample_entries()).unwrap();
    pool.node_state_change_listener(id(3), PoolableState::ActiveAndWaiting, PoolableState::ActiveAndInUse);
    assert_eq!(pool.get_nodes(PoolableState::ActiveAndInUse).unwrap(), vec![id(2), id(3)]);
    assert_eq!(pool.get_node(PoolableState::ActiveAndWaiting).unwrap(), id(1));
    // a report about a node that is not where it says it was changes nothing
    pool.node_state_change_listener(id(3), PoolableState::Deactive, PoolableState::ActiveAndWaiting);
    assert_eq!(pool.get_nodes(PoolableState::ActiveAndInUse).unwrap(), vec![id(2), id(3)]);
    assert_eq!(pool.get_nodes(PoolableState::ActiveAndWaiting).unwrap(), vec![id(1)]);
    assert_eq!(
        pool.set_node_state(id(3), PoolableState::ActiveAndInUse, PoolableState::Deactive),
        Ok(())
    );
    assert_eq!(pool.get_nodes(PoolableState::Deactive).unwrap(), vec![id(4), id(3)]);
}

#[test]
fn node_pool_errors_are_told_apart() {
    let all = [
        NodePoolError::NoNodeFound,
        NodePoolError::ErrorInvalidInput,
        NodePoolError::NotEnoughNodesInPool,
        NodePoolError::NodePoolAlreadyInitialized,
        NodePoolError::AllNodesActive,
        NodePoolError::NodesMapNotInitialized,
        NodePoolError::NodePoolContainerNotCreated,
        NodePoolError::ErrorCreatingNode,
    ];
    for (i, a) in all.iter().enumerate() {
        for (j, b) in all.iter().enumerate() {
            assert_eq!(i == j, a == b);
        }
    }
}

use godot::obj::InstanceId;
use vstd::multiset::Multiset;
use vstd::prelude::*;

use super::node_pool_utils::{same_instance, NodePoolError, PoolEntry, PoolableState};

verus! {

/// The abstract content of a pool: the nodes of each state, in the order in
/// which they joined that state, and the number of nodes the pool was made
/// with.
#[verifier::ext_equal]
pub struct PoolModel {
    pub size: nat,
    pub in_use: Seq<InstanceId>,
    pub waiting: Seq<InstanceId>,
    pub deactive: Seq<InstanceId>,
}

/// The first index at which `id` occurs in `s` (meaningful only where it occurs).
pub open spec fn first_position(s: Seq<InstanceId>, id: InstanceId) -> int {
    choose|i: int| 0 <= i < s.len() && s[i] == id && forall|j: int| 0 <= j < i ==> s[j] != id
}

/// The ids of the entries that report `state`, in input order.
pub open spec fn ids_in_state(entries: Seq<PoolEntry>, state: PoolableState) -> Seq<InstanceId>
    decreases entries.len(),
{
    if entries.len() == 0 {
        Seq::empty()
    } else {
        let before = ids_in_state(entries.drop_last(), state);
        if entries.last().state == Some(state) {
            before.push(entries.last().id)
        } else {
            before
        }
    }
}

/// Every entry reports a state.
pub open spec fn all_have_state(entries: Seq<PoolEntry>) -> bool {
    forall|i: int| 0 <= i < entries.len() ==> (#[trigger] entries[i]).state is Some
}

impl PoolModel {
    pub open spec fn nodes(self, state: PoolableState) -> Seq<InstanceId> {
        match state {
            PoolableState::ActiveAndInUse => self.in_use,
            PoolableState::ActiveAndWaiting => self.waiting,
            PoolableState::Deactive => self.deactive,
        }
    }

    pub open spec fn with_nodes(self, state: PoolableState, nodes: Seq<InstanceId>) -> PoolModel {
        match state {
            PoolableState::ActiveAndInUse => PoolModel { in_use: nodes, ..self },
            PoolableState::ActiveAndWaiting => PoolModel { waiting: nodes, ..self },
            PoolableState::Deactive => PoolModel { deactive: nodes, ..self },
        }
    }

    /// How many nodes the pool holds over all states.
    pub open spec fn total(self) -> nat {
        self.in_use.len() + self.waiting.len() + self.deactive.len()
    }

    /// All nodes of the pool, whatever their state.
    pub open spec fn all_nodes(self) -> Multiset<InstanceId> {
        self.in_use.to_multiset().add(self.waiting.to_multiset()).add(self.deactive.to_multiset())
    }

    /// The pool holds exactly as many nodes as it was made with.
    pub open spec fn wf(self) -> bool {
        self.total() == self.size
    }

    /// The pool made from `entries`: each entry joins the list of the state it reports.
    pub open spec fn from_entries(entries: Seq<PoolEntry>) -> PoolModel {
        PoolModel {
            size: entries.len(),
            in_use: ids_in_state(entries, PoolableState::ActiveAndInUse),
            waiting: ids_in_state(entries, PoolableState::ActiveAndWaiting),
            deactive: ids_in_state(entries, PoolableState::Deactive),
        }
    }

    /// What `get_node` answers: the node that joined `state` last.
    pub open spec fn get_node(self, state: PoolableState) -> Result<InstanceId, NodePoolError> {
        if self.nodes(state).len() == 0 {
            Err(NodePoolError::AllNodesActive)
        } else {
            Ok(self.nodes(state).last())
        }
    }

    /// What `set_node_state` answers.
    pub open spec fn set_node_state_result(self, id: InstanceId, old_state: PoolableState) -> Result<(), NodePoolError> {
        if self.nodes(old_state).contains(id) {
            Ok(())
        } else {
            Err(NodePoolError::NoNodeFound)
        }
    }

    /// The pool after `id` moved from `old_state` to `new_state`: its first
    /// occurrence leaves the old list and it joins the end of the new one.
    pub open spec fn moved(self, id: InstanceId, old_state: PoolableState, new_state: PoolableState) -> PoolModel {
        let removed = self.with_nodes(
            old_state,
            self.nodes(old_state).remove(first_position(self.nodes(old_state), id)),
        );
        removed.with_nodes(new_state, removed.nodes(new_state).push(id))
    }

    /// The pool after `set_node_state`: moved where the node was found, unchanged otherwise.
    pub open spec fn after_set_node_state(
        self,
        id: InstanceId,
        old_state: PoolableState,
        new_state: PoolableState,
    ) -> PoolModel {
        if self.nodes(old_state).contains(id) {
            self.moved(id, old_state, new_state)
        } else {
            self
        }
    }
}

/// The first position is a position of `id`, and no earlier one is.
pub proof fn lemma_first_position(s: Seq<InstanceId>, id: InstanceId, i: int)
    requires
        0 <= i < s.len(),
        s[i] == id,
        forall|j: int| 0 <= j < i ==> s[j] != id,
    ensures
        first_position(s, id) == i,
{
    let k = first_position(s, id);
    assert(0 <= k < s.len() && s[k] == id && forall|j: int| 0 <= j < k ==> s[j] != id);
    if k < i {
        assert(s[k] != id);
    } else if i < k {
        assert(s[i] != id);
    }
}

/// Where `id` occurs among the first `n` elements of `s`, some occurrence
/// among them has no earlier one.
proof fn lemma_earliest_occurrence(s: Seq<InstanceId>, id: InstanceId, n: int)
    requires
        0 <= n <= s.len(),
        exists|j: int| 0 <= j < n && s[j] == id,
    ensures
        exists|i: int| 0 <= i < n && s[i] == id && forall|j: int| 0 <= j < i ==> s[j] != id,
    decreases n,
{
    if exists|j: int| 0 <= j < n - 1 && s[j] == id {
        lemma_earliest_occurrence(s, id, n - 1);
        let i = choose|i: int| 0 <= i < n - 1 && s[i] == id && forall|j: int| 0 <= j < i ==> s[j] != id;
        assert(0 <= i < n && s[i] == id);
    } else {
        assert(s[n - 1] == id);
        assert(forall|j: int| 0 <= j < n - 1 ==> s[j] != id);
    }
}

/// Where `id` occurs in `s`, its first position is one of its occurrences.
pub proof fn lemma_first_position_exists(s: Seq<InstanceId>, id: InstanceId)
    requires
        s.contains(id),
    ensures
        0 <= first_position(s, id) < s.len(),
        s[first_position(s, id)] == id,
        forall|j: int| 0 <= j < first_position(s, id) ==> s[j] != id,
{
    lemma_earliest_occurrence(s, id, s.len() as int);
}

/// A pool made from entries that all report a state counts each entry once:
/// its lists together hold as many nodes as there were entries.
pub proof fn lemma_from_entries_counts_every_entry(entries: Seq<PoolEntry>)
    requires
        all_have_state(entries),
    ensures
        PoolModel::from_entries(entries).wf(),
    decreases entries.len(),
{
    if entries.len() > 0 {
        let rest = entries.drop_last();
        assert(all_have_state(rest)) by {
            assert forall|i: int| 0 <= i < rest.len() implies (#[trigger] rest[i]).state is Some by {
                assert(rest[i] == entries[i]);
            }
        }
        lemma_from_entries_counts_every_entry(rest);
        let last = entries[entries.len() - 1];
        assert(last.state is Some);
        let a = ids_in_state(entries, PoolableState::ActiveAndInUse);
        let b = ids_in_state(entries, PoolableState::ActiveAndWaiting);
        let c = ids_in_state(entries, PoolableState::Deactive);
        let a0 = ids_in_state(rest, PoolableState::ActiveAndInUse);
        let b0 = ids_in_state(rest, PoolableState::ActiveAndWaiting);
        let c0 = ids_in_state(rest, PoolableState::Deactive);
        assert(a0.len() + b0.len() + c0.len() == rest.len());
        match last.state {
            Some(PoolableState::ActiveAndInUse) => {
                assert(a == a0.push(last.id) && b == b0 && c == c0);
            },
            Some(PoolableState::ActiveAndWaiting) => {
                assert(a == a0 && b == b0.push(last.id) && c == c0);
            },
            Some(PoolableState::Deactive) => {
                assert(a == a0 && b == b0 && c == c0.push(last.id));
            },
            None => {},
        }
    }
}

/// Moving a node between states keeps the pool's nodes: none is lost, none is
/// added, the count stays what the pool was made with, and the moved node is
/// the one a later `get_node` of its new state hands out.
pub proof fn lemma_moved_keeps_nodes(
    m: PoolModel,
    id: InstanceId,
    old_state: PoolableState,
    new_state: PoolableState,
)
    requires
        m.wf(),
        m.nodes(old_state).contains(id),
    ensures
        m.moved(id, old_state, new_state).wf(),
        m.moved(id, old_state, new_state).all_nodes() == m.all_nodes(),
        m.moved(id, old_state, new_state).get_node(new_state) == Ok::<InstanceId, NodePoolError>(id),
{
    broadcast use vstd::seq_lib::to_multiset_remove, vstd::seq_lib::to_multiset_build;
    broadcast use vstd::multiset::group_multiset_axioms;

    let old_list = m.nodes(old_state);
    lemma_first_position_exists(old_list, id);
    let i = first_position(old_list, id);
    let removed = m.with_nodes(old_state, old_list.remove(i));
    let moved = m.moved(id, old_state, new_state);
    assert(old_list.remove(i).to_multiset() == old_list.to_multiset().remove(id));
    assert(removed.nodes(new_state).push(id).to_multiset() == removed.nodes(new_state).to_multiset().insert(id));
    lemma_all_nodes_with(m, old_state, old_list.remove(i));
    lemma_all_nodes_with(removed, new_state, removed.nodes(new_state).push(id));
    vstd::seq_lib::to_multiset_contains(old_list, id);
    assert forall|v: InstanceId| moved.all_nodes().count(v) == m.all_nodes().count(v) by {
        assert(moved.all_nodes().add(removed.nodes(new_state).to_multiset()).count(v)
            == removed.all_nodes().add(removed.nodes(new_state).push(id).to_multiset()).count(v));
        assert(removed.all_nodes().add(old_list.to_multiset()).count(v)
            == m.all_nodes().add(old_list.remove(i).to_multiset()).count(v));
    }
    assert(moved.all_nodes() =~= m.all_nodes());
}

/// Moving a node takes out exactly its first occurrence in the old state's
/// list, keeping every other node of that list in its order, and appends it
/// at the end of the new state's list; the third state's list is untouched.
pub proof fn lemma_moved_keeps_order(
    m: PoolModel,
    id: InstanceId,
    old_state: PoolableState,
    new_state: PoolableState,
    i: int,
)
    requires
        0 <= i < m.nodes(old_state).len(),
        m.nodes(old_state)[i] == id,
        forall|j: int| 0 <= j < i ==> m.nodes(old_state)[j] != id,
    ensures
        ({
            let old_list = m.nodes(old_state);
            let after = m.moved(id, old_state, new_state);
            let kept = if old_state == new_state {
                after.nodes(old_state).drop_last()
            } else {
                after.nodes(old_state)
            };
            &&& kept.len() == old_list.len() - 1
            &&& forall|j: int| 0 <= j < i ==> kept[j] == old_list[j]
            &&& forall|j: int| i <= j < kept.len() ==> kept[j] == old_list[j + 1]
            &&& old_state != new_state ==> after.nodes(new_state).len() == m.nodes(new_state).len() + 1
                && after.nodes(new_state).last() == id
                && forall|j: int| 0 <= j < m.nodes(new_state).len() ==> after.nodes(new_state)[j] == m.nodes(new_state)[j]
            &&& old_state == new_state ==> after.nodes(old_state).last() == id
            &&& forall|s: PoolableState| s != old_state && s != new_state ==> after.nodes(s) == m.nodes(s)
            &&& after.size == m.size
        }),
{
    lemma_first_position(m.nodes(old_state), id, i);
    let after = m.moved(id, old_state, new_state);
    if old_state == new_state {
        assert(after.nodes(old_state).drop_last() =~= m.nodes(old_state).remove(i));
    }
}

/// The pool made from `entries` files each entry under the state it reports:
/// the list of a state is the ids of exactly the entries reporting it, in
/// input order, and every entry's id is in the list of its state.
pub proof fn lemma_from_entries_files_by_state(entries: Seq<PoolEntry>, state: PoolableState)
    ensures
        PoolModel::from_entries(entries).nodes(state) == entries.filter(
            |e: PoolEntry| e.state == Some(state),
        ).map_values(|e: PoolEntry| e.id),
        forall|i: int|
            0 <= i < entries.len() && (#[trigger] entries[i]).state == Some(state) ==> PoolModel::from_entries(
                entries,
            ).nodes(state).contains(entries[i].id),
        PoolModel::from_entries(entries).size == entries.len(),
{
    lemma_ids_in_state_is_filter(entries, state);
    let pred = |e: PoolEntry| e.state == Some(state);
    let f = |e: PoolEntry| e.id;
    assert forall|i: int|
        0 <= i < entries.len() && (#[trigger] entries[i]).state == Some(state) implies PoolModel::from_entries(
        entries,
    ).nodes(state).contains(entries[i].id) by {
        entries.lemma_filter_contains(pred, i);
        let filtered = entries.filter(pred);
        let k = choose|k: int| 0 <= k < filtered.len() && filtered[k] == entries[i];
        assert(filtered.map_values(f)[k] == entries[i].id);
    }
}

proof fn lemma_ids_in_state_is_filter(entries: Seq<PoolEntry>, state: PoolableState)
    ensures
        ids_in_state(entries, state) == entries.filter(|e: PoolEntry| e.state == Some(state)).map_values(
            |e: PoolEntry| e.id,
        ),
    decreases entries.len(),
{
    let pred = |e: PoolEntry| e.state == Some(state);
    let f = |e: PoolEntry| e.id;
    if entries.len() == 0 {
        reveal_with_fuel(Seq::<PoolEntry>::filter, 1);
        assert(entries.filter(pred) =~= Seq::<PoolEntry>::empty());
        assert(entries.filter(pred).map_values(f) =~= Seq::<InstanceId>::empty());
    } else {
        lemma_ids_in_state_is_filter(entries.drop_last(), state);
        let sub = entries.drop_last().filter(pred);
        assert(entries =~= entries.drop_last().push(entries.last()));
        entries.drop_last().lemma_filter_push(entries.last(), pred);
        if pred(entries.last()) {
            assert(entries.filter(pred) == sub.push(entries.last()));
            assert(sub.push(entries.last()).map_values(f) =~= sub.map_values(f).push(entries.last().id));
        } else {
            assert(entries.filter(pred) == sub);
        }
    }
}

/// Replacing the list of one state replaces its share of all nodes.
proof fn lemma_all_nodes_with(m: PoolModel, state: PoolableState, nodes: Seq<InstanceId>)
    ensures
        m.with_nodes(state, nodes).all_nodes().add(m.nodes(state).to_multiset())
            == m.all_nodes().add(nodes.to_multiset()),
{
    broadcast use vstd::multiset::group_multiset_axioms;

    assert(m.with_nodes(state, nodes).all_nodes().add(m.nodes(state).to_multiset())
        =~= m.all_nodes().add(nodes.to_multiset()));
}

/// Nodes of a poolable kind, grouped by the state each reports.
pub struct NodesPoolContainer {
    /// The number of nodes the pool was made with; moving nodes between
    /// states never changes how many there are.
    size: usize,
    in_use: Vec<InstanceId>,
    waiting: Vec<InstanceId>,
    deactive: Vec<InstanceId>,
}

impl View for NodesPoolContainer {
    type V = PoolModel;

    closed spec fn view(&self) -> PoolModel {
        PoolModel {
            size: self.size as nat,
            in_use: self.in_use@,
            waiting: self.waiting@,
            deactive: self.deactive@,
        }
    }
}

/// The first index of `id` in `nodes`, if it occurs.
fn find_position(nodes: &Vec<InstanceId>, id: &InstanceId) -> (r: Option<usize>)
    ensures
        r is None <==> !nodes@.contains(*id),
        r matches Some(i) ==> i < nodes.len() && i == first_position(nodes@, *id),
{
    let mut i: usize = 0;
    while i < nodes.len()
        invariant
            i <= nodes.len(),
            forall|j: int| 0 <= j < i ==> nodes@[j] != *id,
        decreases nodes.len() - i,
    {
        if same_instance(&nodes[i], id) {
            proof {
                lemma_first_position(nodes@, *id, i as int);
            }
            return Some(i);
        }
        i = i + 1;
    }
    None
}

impl NodesPoolContainer {
    pub open spec fn wf(&self) -> bool {
        self@.wf()
    }

    /// A pool of `nodes`, each in the list of the state it reports.
    pub fn new(nodes: Vec<PoolEntry>) -> (pool: NodesPoolContainer)
        requires
            all_have_state(nodes@),
        ensures
            pool.wf(),
            pool@ == PoolModel::from_entries(nodes@),
            forall|state: PoolableState|
                #![trigger pool@.nodes(state)]
                pool@.nodes(state) == nodes@.filter(|e: PoolEntry| e.state == Some(state)).map_values(
                    |e: PoolEntry| e.id,
                ),
    {
        let size = nodes.len();
        let mut pool = NodesPoolContainer {
            size,
            in_use: Vec::new(),
            waiting: Vec::new(),
            deactive: Vec::new(),
        };
        let mut i: usize = 0;
        while i < nodes.len()
            invariant
                i <= nodes.len(),
                size == nodes.len(),
                all_have_state(nodes@),
                pool.size == size,
                pool.in_use@ == ids_in_state(nodes@.take(i as int), PoolableState::ActiveAndInUse),
                pool.waiting@ == ids_in_state(nodes@.take(i as int), PoolableState::ActiveAndWaiting),
                pool.deactive@ == ids_in_state(nodes@.take(i as int), PoolableState::Deactive),
            decreases nodes.len() - i,
        {
            let entry = nodes[i];
            assert(nodes@.take(i as int + 1).drop_last() == nodes@.take(i as int));
            assert(entry.state is Some);
            match entry.state {
                Some(PoolableState::ActiveAndInUse) => pool.in_use.push(entry.id),
                Some(PoolableState::ActiveAndWaiting) => pool.waiting.push(entry.id),
                Some(PoolableState::Deactive) => pool.deactive.push(entry.id),
                None => {},
            }
            i = i + 1;
        }
        assert(nodes@.take(nodes.len() as int) == nodes@);
        proof {
            lemma_from_entries_counts_every_entry(nodes@);
            lemma_from_entries_files_by_state(nodes@, PoolableState::ActiveAndInUse);
            lemma_from_entries_files_by_state(nodes@, PoolableState::ActiveAndWaiting);
            lemma_from_entries_files_by_state(nodes@, PoolableState::Deactive);
        }
        pool
    }

    fn list(&self, state: PoolableState) -> (nodes: &Vec<InstanceId>)
        ensures
            nodes@ == self@.nodes(state),
    {
        match state {
            PoolableState::ActiveAndInUse => &self.in_use,
            PoolableState::ActiveAndWaiting => &self.waiting,
            PoolableState::Deactive => &self.deactive,
        }
    }

    fn remove_at(&mut self, state: PoolableState, i: usize) -> (node: InstanceId)
        requires
            i < old(self)@.nodes(state).len(),
        ensures
            node == old(self)@.nodes(state)[i as int],
            final(self)@ == old(self)@.with_nodes(state, old(self)@.nodes(state).remove(i as int)),
    {
        match state {
            PoolableState::ActiveAndInUse => self.in_use.remove(i),
            PoolableState::ActiveAndWaiting => self.waiting.remove(i),
            PoolableState::Deactive => self.deactive.remove(i),
        }
    }

    fn push_to(&mut self, state: PoolableState, node: InstanceId)
        ensures
            final(self)@ == old(self)@.with_nodes(state, old(self)@.nodes(state).push(node)),
    {
        match state {
            PoolableState::ActiveAndInUse => self.in_use.push(node),
            PoolableState::ActiveAndWaiting => self.waiting.push(node),
            PoolableState::Deactive => self.deactive.push(node),
        }
    }

    /// Every node in `state`, in the order in which they joined it.
    pub fn get_nodes(&self, state: PoolableState) -> (r: Result<Vec<InstanceId>, NodePoolError>)
        ensures
            r matches Ok(nodes) && nodes@ == self@.nodes(state),
    {
        let list = self.list(state);
        let mut out: Vec<InstanceId> = Vec::new();
        let mut i: usize = 0;
        while i < list.len()
            invariant
                i <= list.len(),
                out@ == list@.take(i as int),
            decreases list.len() - i,
        {
            out.push(list[i]);
            assert(list@.take(i as int + 1) == list@.take(i as int).push(list@[i as int]));
            i = i + 1;
        }
        assert(list@.take(list.len() as int) == list@);
        Ok(out)
    }

    /// The node that joined `state` last, or `AllNodesActive` when no node is in it.
    pub fn get_node(&self, state: PoolableState) -> (r: Result<InstanceId, NodePoolError>)
        ensures
            r == self@.get_node(state),
    {
        let list = self.list(state);
        if list.len() == 0 {
            Err(NodePoolError::AllNodesActive)
        } else {
            Ok(list[list.len() - 1])
        }
    }

    /// Moves `node` from `old_state` to the end of `new_state`'s list, or
    /// answers `NoNodeFound`, changing nothing, where `old_state` does not hold it.
    pub fn set_node_state(
        &mut self,
        node: InstanceId,
        old_state: PoolableState,
        new_state: PoolableState,
    ) -> (r: Result<(), NodePoolError>)
        requires
            old(self).wf(),
        ensures
            final(self).wf(),
            r == old(self)@.set_node_state_result(node, old_state),
            final(self)@ == old(self)@.after_set_node_state(node, old_state, new_state),
    {
        let found = find_position(self.list(old_state), &node);
        match found {
            None => Err(NodePoolError::NoNodeFound),
            Some(i) => {
                proof {
                    lemma_first_position_exists(self@.nodes(old_state), node);
                    lemma_moved_keeps_nodes(self@, node, old_state, new_state);
                }
                let found_node = self.remove_at(old_state, i);
                self.push_to(new_state, found_node);
                Ok(())
            },
        }
    }
}

} // verus!

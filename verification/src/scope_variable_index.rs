use crate::variable::{
    container_views, variable_views, Variable, VariableContainer, VariableContainerView,
    VariableView,
};
use std::collections::{HashMap, HashSet};
use vstd::prelude::*;
use vstd::std_specs::hash::group_hash_axioms;

verus! {

broadcast use group_hash_axioms;

/// Whether a walk that has come down through the references of `path`
/// goes on into the children of `reference`: they are fetched, and the walk
/// is not inside them already.
pub open spec fn descends(
    lists: Map<u64, Seq<VariableView>>,
    path: Seq<u64>,
    reference: u64,
) -> bool {
    reference > 0 && lists.contains_key(reference) && !path.contains(reference)
}

/// The variables `children` of `reference`, all at `depth`, each followed
/// by everything fetched below it, depth first. `path` holds the references
/// that the walk has come down through, `reference` being the last.
pub open spec fn variables_below(
    lists: Map<u64, Seq<VariableView>>,
    path: Seq<u64>,
    reference: u64,
    children: Seq<VariableView>,
    depth: nat,
) -> Seq<VariableContainerView>
    decreases lists.dom().difference(path.to_set()).len(), children.len(),
    when lists.dom().finite()
    via variables_below_terminates
{
    if children.len() == 0 {
        Seq::empty()
    } else {
        let inner = children[0].container_reference;
        let below = if descends(lists, path, inner) {
            variables_below(lists, path.push(inner), inner, lists[inner], depth + 1)
        } else {
            Seq::empty()
        };
        seq![
            VariableContainerView { container_reference: reference, variable: children[0], depth },
        ] + below + variables_below(lists, path, reference, children.drop_first(), depth)
    }
}

/// Going into a reference that the walk is not inside yet leaves fewer
/// references to go into.
proof fn fewer_left(lists: Map<u64, Seq<VariableView>>, path: Seq<u64>, inner: u64)
    requires
        lists.dom().finite(),
        descends(lists, path, inner),
    ensures
        lists.dom().difference(path.push(inner).to_set()).len() < lists.dom().difference(
            path.to_set(),
        ).len(),
{
    let left = lists.dom().difference(path.to_set());
    assert(left.contains(inner));
    assert forall|r: u64| path.push(inner).contains(r) <==> (r == inner || path.contains(r)) by {
        if path.push(inner).contains(r) {
            let at = choose|at: int| 0 <= at < path.push(inner).len() && path.push(inner)[at] == r;
            if at < path.len() {
                assert(path[at] == r);
            }
        }
        if path.contains(r) {
            let at = choose|at: int| 0 <= at < path.len() && path[at] == r;
            assert(path.push(inner)[at] == r);
        }
        if r == inner {
            assert(path.push(inner)[path.len() as int] == r);
        }
    }
    assert(lists.dom().difference(path.push(inner).to_set()) =~= left.remove(inner));
}

#[via_fn]
proof fn variables_below_terminates(
    lists: Map<u64, Seq<VariableView>>,
    path: Seq<u64>,
    reference: u64,
    children: Seq<VariableView>,
    depth: nat,
) {
    if children.len() > 0 {
        let inner = children[0].container_reference;
        if descends(lists, path, inner) {
            fewer_left(lists, path, inner);
        }
    }
}

/// Everything fetched below `root`, depth first: the children of `root` at
/// depth 1, each followed by its own fetched children. Nothing if `root` is
/// 0 or has not been fetched.
pub open spec fn all_variables(lists: Map<u64, Seq<VariableView>>, root: u64) -> Seq<
    VariableContainerView,
> {
    if root > 0 && lists.contains_key(root) {
        variables_below(lists, seq![root], root, lists[root], 1)
    } else {
        Seq::empty()
    }
}

/// Whether `reference` is among `path`.
fn on_path(path: &Vec<u64>, reference: u64) -> (r: bool)
    ensures
        r == path@.contains(reference),
{
    let mut i: usize = 0;
    while i < path.len()
        invariant
            0 <= i <= path.len(),
            forall|j: int| 0 <= j < i ==> path@[j] != reference,
        decreases path.len() - i,
    {
        if path[i] == reference {
            return true;
        }
        i += 1;
    }
    false
}

/// Children already fetched for one scope of one stack frame, stored per
/// container reference. The lists are kept apart: the visible order of the
/// tree is computed from them on demand and never stored.
pub struct ScopeVariableIndex {
    fetched_ids: HashSet<u64>,
    fetched_children: HashMap<u64, Vec<Variable>>,
}

impl View for ScopeVariableIndex {
    type V = Map<u64, Seq<VariableView>>;

    /// The fetched lists by container reference.
    closed spec fn view(&self) -> Map<u64, Seq<VariableView>> {
        self.fetched_children@.map_values(|list: Vec<Variable>| variable_views(list@))
    }
}

impl ScopeVariableIndex {
    /// The set of fetched references is the set of references with a list.
    pub closed spec fn wf(&self) -> bool {
        self.fetched_ids@ == self.fetched_children@.dom()
    }

    /// An index with nothing fetched.
    pub fn new() -> (r: ScopeVariableIndex)
        ensures
            r.wf(),
            r@ == Map::<u64, Seq<VariableView>>::empty(),
    {
        let r = ScopeVariableIndex { fetched_ids: HashSet::new(), fetched_children: HashMap::new() };
        assert(r@ =~= Map::<u64, Seq<VariableView>>::empty());
        r
    }

    /// Whether the children of `container_reference` have been fetched.
    pub fn fetched(&self, container_reference: &u64) -> (r: bool)
        requires
            self.wf(),
        ensures
            r == self@.contains_key(*container_reference),
    {
        self.fetched_ids.contains(container_reference)
    }

    /// The references fetched so far.
    pub fn fetched_ids(&self) -> (r: &HashSet<u64>)
        requires
            self.wf(),
        ensures
            r@ == self@.dom(),
    {
        assert(self@.dom() =~= self.fetched_children@.dom());
        &self.fetched_ids
    }

    /// Number of references fetched so far.
    pub fn len(&self) -> (n: usize)
        ensures
            n == self@.dom().len(),
    {
        assert(self@.dom() =~= self.fetched_children@.dom());
        self.fetched_children.len()
    }

    /// Whether nothing has been fetched.
    pub fn is_empty(&self) -> (r: bool)
        ensures
            r == (self@ == Map::<u64, Seq<VariableView>>::empty()),
    {
        assert(self@.dom() =~= self.fetched_children@.dom());
        let n = self.fetched_children.len();
        proof {
            if n == 0 {
                assert(self.fetched_children@.dom().finite());
                assert(self@.dom() =~= Set::<u64>::empty());
                assert(self@ =~= Map::<u64, Seq<VariableView>>::empty());
            } else {
                assert(self@.dom().len() != 0);
            }
        }
        n == 0
    }

    /// The list fetched for `container_reference`, if it has been fetched.
    pub fn get_children(&self, container_reference: u64) -> (r: Option<&[Variable]>)
        requires
            self.wf(),
        ensures
            match r {
                Some(list) => self@.contains_key(container_reference) && variable_views(list@)
                    == self@[container_reference],
                None => !self@.contains_key(container_reference),
            },
    {
        match self.fetched_children.get(&container_reference) {
            Some(list) => Some(list.as_slice()),
            None => None,
        }
    }

    /// Appends to `out` the variables `children` of `reference`, each
    /// followed by everything fetched below it.
    fn push_variables_below(
        &self,
        path: &mut Vec<u64>,
        reference: u64,
        children: &[Variable],
        out: &mut Vec<VariableContainer>,
    )
        requires
            self.wf(),
            old(path)@.len() > 0,
        ensures
            final(path)@ == old(path)@,
            container_views(final(out)@) == container_views(old(out)@) + variables_below(
                self@,
                old(path)@,
                reference,
                variable_views(children@),
                old(path)@.len(),
            ),
        decreases self@.dom().difference(old(path)@.to_set()).len(),
    {
        let depth = path.len();
        let ghost lists = self@;
        let ghost way = path@;
        let ghost all = variable_views(children@);
        proof {
            assert(lists.dom() =~= self.fetched_children@.dom());
            assert(all.skip(0) =~= all);
        }
        let ghost total = container_views(out@) + variables_below(
            lists,
            way,
            reference,
            all,
            depth as nat,
        );
        let mut i: usize = 0;
        while i < children.len()
            invariant
                self.wf(),
                lists == self@,
                lists.dom().finite(),
                path@ == way,
                way == old(path)@,
                way.len() == depth,
                depth > 0,
                0 <= i <= children.len(),
                all == variable_views(children@),
                container_views(out@) + variables_below(
                    lists,
                    way,
                    reference,
                    all.skip(i as int),
                    depth as nat,
                ) == total,
            decreases children.len() - i,
        {
            let child = &children[i];
            let inner = child.container_reference;
            let ghost rest = all.skip(i as int);
            let ghost found = VariableContainerView {
                container_reference: reference,
                variable: child@,
                depth: depth as nat,
            };
            let ghost before = container_views(out@);
            proof {
                assert(rest[0] == child@);
                assert(rest.drop_first() =~= all.skip(i + 1));
            }
            out.push(
                VariableContainer {
                    container_reference: reference,
                    variable: child.clone(),
                    depth,
                },
            );
            assert(container_views(out@) =~= before.push(found));
            let mut went = false;
            if inner > 0 && !on_path(path, inner) {
                match self.get_children(inner) {
                    Some(list) => {
                        proof {
                            fewer_left(lists, way, inner);
                        }
                        path.push(inner);
                        self.push_variables_below(path, inner, list, out);
                        let _ = path.pop();
                        assert(path@ =~= way);
                        went = true;
                    },
                    None => {},
                }
            }
            proof {
                let below = if descends(lists, way, inner) {
                    variables_below(lists, way.push(inner), inner, lists[inner], (depth + 1) as nat)
                } else {
                    Seq::empty()
                };
                assert(went == descends(lists, way, inner));
                assert(container_views(out@) =~= before.push(found) + below);
                assert(before.push(found) + below + variables_below(
                    lists,
                    way,
                    reference,
                    all.skip(i + 1),
                    depth as nat,
                ) =~= before + (seq![found] + below + variables_below(
                    lists,
                    way,
                    reference,
                    rest.drop_first(),
                    depth as nat,
                )));
            }
            i += 1;
        }
        proof {
            assert(all.skip(children.len() as int) =~= Seq::<VariableView>::empty());
            assert(container_views(out@) + Seq::<VariableContainerView>::empty()
                =~= container_views(out@));
        }
    }

    /// Everything fetched below `root`, depth first: the children of `root`
    /// at depth 1, each followed by its own fetched children, before its
    /// next sibling. Children that are their own ancestors are listed but
    /// not gone into again.
    pub fn variables(&self, root: u64) -> (r: Vec<VariableContainer>)
        requires
            self.wf(),
        ensures
            container_views(r@) == all_variables(self@, root),
    {
        let mut out: Vec<VariableContainer> = Vec::new();
        assert(container_views(out@) =~= Seq::<VariableContainerView>::empty());
        if root > 0 {
            match self.get_children(root) {
                Some(list) => {
                    let mut path: Vec<u64> = Vec::new();
                    path.push(root);
                    assert(path@ =~= seq![root]);
                    self.push_variables_below(&mut path, root, list, &mut out);
                    assert(Seq::<VariableContainerView>::empty() + all_variables(self@, root)
                        =~= all_variables(self@, root));
                },
                None => {},
            }
        }
        out
    }

    /// Records `container_reference` as fetched with `variables` as its
    /// children. A list stored earlier for the same reference is replaced;
    /// the lists of all other references stay as they are.
    pub fn add_variables(&mut self, container_reference: u64, variables: Vec<Variable>)
        requires
            old(self).wf(),
        ensures
            final(self).wf(),
            final(self)@ == old(self)@.insert(container_reference, variable_views(variables@)),
    {
        let ghost list = variable_views(variables@);
        let _ = self.fetched_ids.insert(container_reference);
        let _ = self.fetched_children.insert(container_reference, variables);
        assert(self.fetched_ids@ =~= self.fetched_children@.dom());
        assert(self@ =~= old(self)@.insert(container_reference, list));
    }
}

} // verus!

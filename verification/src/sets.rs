use vstd::prelude::*;
use indexmap::IndexSet;
use crate::msg::{NodeFilterApplicable, NodeFilterApplicableView, NodeSorter, NodeSorterApplicable};
use crate::node::{Node, NodeView};
use crate::paths::{path_eq, same_path};
use crate::text::strings_view;

verus! {

#[verifier::external_type_specification]
#[verifier::external_body]
#[verifier::reject_recursive_types(T)]
#[verifier::reject_recursive_types(S)]
pub struct ExIndexSet<T, S>(IndexSet<T, S>);

/// `items` in their order, each kept once, as inserting them one by one into
/// an empty set keeps them.
pub open spec fn first_occurrences<A>(items: Seq<A>) -> Seq<A>
    decreases items.len(),
{
    if items.len() == 0 {
        Seq::empty()
    } else {
        let rest = first_occurrences(items.drop_last());
        if rest.contains(items.last()) {
            rest
        } else {
            rest.push(items.last())
        }
    }
}

// ---------------------------------------------------------------------------
// Sets of nodes (the selection)

/// The nodes in a set of nodes, in insertion order.
pub uninterp spec fn node_set_items(s: IndexSet<Node>) -> Seq<NodeView>;

/// Which selected nodes a retain keeps.
pub enum NodeKeep {
    /// Those other than this node.
    NotNode(Node),
    /// Those whose absolute path is not this path.
    NotPath(String),
    /// Those whose absolute path is one of these texts.
    AmongPaths(Vec<String>),
}

/// Whether `rule` keeps a node whose value is `n`.
pub open spec fn node_keep_holds(rule: &NodeKeep, n: NodeView) -> bool {
    match rule {
        NodeKeep::NotNode(m) => n != m@,
        NodeKeep::NotPath(p) => !path_eq(n.absolute_path, p@),
        NodeKeep::AmongPaths(ps) => strings_view(ps@).contains(n.absolute_path),
    }
}

/// Whether `p` is one of the texts in `ps`.
pub fn among(ps: &Vec<String>, p: &String) -> (r: bool)
    ensures
        r == strings_view(ps@).contains(p@),
{
    let mut i: usize = 0;
    while i < ps.len()
        invariant
            i <= ps.len(),
            forall|j: int| 0 <= j < i ==> ps@[j]@ != p@,
        decreases ps.len() - i,
    {
        if ps[i] == *p {
            assert(strings_view(ps@)[i as int] == p@);
            return true;
        }
        i = i + 1;
    }
    assert forall|j: int| 0 <= j < strings_view(ps@).len() implies strings_view(ps@)[j] != p@ by {
        assert(strings_view(ps@)[j] == ps@[j]@);
    }
    false
}

/// Whether `rule` keeps `n` (see [`node_keep_holds`]).
pub fn node_keeps(rule: &NodeKeep, n: &Node) -> (r: bool)
    ensures
        r == node_keep_holds(rule, n@),
{
    match rule {
        NodeKeep::NotNode(m) => !n.same_as(m),
        NodeKeep::NotPath(p) => !same_path(n.absolute_path.as_str(), p.as_str()),
        NodeKeep::AmongPaths(ps) => among(ps, &n.absolute_path),
    }
}

/// `IndexSet::new`: an empty set.
#[verifier::external_body]
pub(crate) fn node_set_new() -> (r: IndexSet<Node>)
    ensures
        node_set_items(r) == Seq::<NodeView>::empty(),
{
    IndexSet::new()
}

/// `IndexSet::insert`: appends the node unless an equal one is in the set
/// (then the set is unchanged); answers whether it appended.
#[verifier::external_body]
pub(crate) fn node_set_insert(s: &mut IndexSet<Node>, v: Node) -> (r: bool)
    ensures
        r == !node_set_items(*old(s)).contains(v@),
        node_set_items(*final(s)) == if r {
            node_set_items(*old(s)).push(v@)
        } else {
            node_set_items(*old(s))
        },
{
    s.insert(v)
}

/// `IndexSet::contains`: whether an equal node is in the set.
#[verifier::external_body]
pub(crate) fn node_set_contains(s: &IndexSet<Node>, v: &Node) -> (r: bool)
    ensures
        r == node_set_items(*s).contains(v@),
{
    s.contains(v)
}

/// `IndexSet::retain`: keeps, in order, the nodes that `rule` keeps.
#[verifier::external_body]
pub(crate) fn node_set_retain(s: &mut IndexSet<Node>, rule: &NodeKeep)
    ensures
        node_set_items(*final(s)) == node_set_items(*old(s)).filter(
            |n: NodeView| node_keep_holds(rule, n),
        ),
{
    s.retain(|n| node_keeps(rule, n))
}

/// `IndexSet::clear`: empties the set.
#[verifier::external_body]
pub(crate) fn node_set_clear(s: &mut IndexSet<Node>)
    ensures
        node_set_items(*final(s)) == Seq::<NodeView>::empty(),
{
    s.clear()
}

/// `IndexSet::len`: the number of nodes.
#[verifier::external_body]
pub(crate) fn node_set_len(s: &IndexSet<Node>) -> (r: usize)
    ensures
        r == node_set_items(*s).len(),
{
    s.len()
}

/// `IndexSet::is_empty`: whether the set holds no node.
#[verifier::external_body]
pub(crate) fn node_set_is_empty(s: &IndexSet<Node>) -> (r: bool)
    ensures
        r == (node_set_items(*s).len() == 0),
{
    s.is_empty()
}

/// `IndexSet::get_index`: the node at position `i`, if there is one.
#[verifier::external_body]
pub(crate) fn node_set_get(s: &IndexSet<Node>, i: usize) -> (r: Option<&Node>)
    ensures
        match r {
            Some(n) => i < node_set_items(*s).len() && n@ == node_set_items(*s)[i as int],
            None => i >= node_set_items(*s).len(),
        },
{
    s.get_index(i)
}

/// `IndexSet::clone`: a set with the same nodes in the same order.
#[verifier::external_body]
pub(crate) fn node_set_clone(s: &IndexSet<Node>) -> (r: IndexSet<Node>)
    ensures
        node_set_items(r) == node_set_items(*s),
{
    s.clone()
}

// ---------------------------------------------------------------------------
// Sets of node filters

/// The filters in a set of filters, in insertion order.
pub uninterp spec fn filter_set_items(s: IndexSet<NodeFilterApplicable>) -> Seq<NodeFilterApplicableView>;

/// Whether `f` differs from `g` (the test a filter retain applies).
pub fn filter_differs(f: &NodeFilterApplicable, g: &NodeFilterApplicable) -> (r: bool)
    ensures
        r == (f@ != g@),
{
    !f.same_as(g)
}

/// `IndexSet::new`: an empty set.
#[verifier::external_body]
pub(crate) fn filter_set_new() -> (r: IndexSet<NodeFilterApplicable>)
    ensures
        filter_set_items(r) == Seq::<NodeFilterApplicableView>::empty(),
{
    IndexSet::new()
}

/// `IndexSet::insert`: appends the filter unless an equal one is in the set.
#[verifier::external_body]
pub(crate) fn filter_set_insert(s: &mut IndexSet<NodeFilterApplicable>, v: NodeFilterApplicable) -> (r: bool)
    ensures
        r == !filter_set_items(*old(s)).contains(v@),
        filter_set_items(*final(s)) == if r {
            filter_set_items(*old(s)).push(v@)
        } else {
            filter_set_items(*old(s))
        },
{
    s.insert(v)
}

/// `IndexSet::replace`: appends the filter unless an equal one is in the set,
/// in which case that one is replaced in place by the new, equal, value.
#[verifier::external_body]
pub(crate) fn filter_set_replace(s: &mut IndexSet<NodeFilterApplicable>, v: NodeFilterApplicable) -> (r: Option<NodeFilterApplicable>)
    ensures
        match r {
            Some(old_v) => filter_set_items(*old(s)).contains(v@) && old_v@ == v@,
            None => !filter_set_items(*old(s)).contains(v@),
        },
        filter_set_items(*final(s)) == if filter_set_items(*old(s)).contains(v@) {
            filter_set_items(*old(s))
        } else {
            filter_set_items(*old(s)).push(v@)
        },
{
    s.replace(v)
}

/// `IndexSet::contains`: whether an equal filter is in the set.
#[verifier::external_body]
pub(crate) fn filter_set_contains(s: &IndexSet<NodeFilterApplicable>, v: &NodeFilterApplicable) -> (r: bool)
    ensures
        r == filter_set_items(*s).contains(v@),
{
    s.contains(v)
}

/// `IndexSet::retain`: keeps, in order, the filters other than `f`.
#[verifier::external_body]
pub(crate) fn filter_set_retain(s: &mut IndexSet<NodeFilterApplicable>, f: &NodeFilterApplicable)
    ensures
        filter_set_items(*final(s)) == filter_set_items(*old(s)).filter(
            |g: NodeFilterApplicableView| g != f@,
        ),
{
    s.retain(|g| filter_differs(g, f))
}

/// `IndexSet::pop`: removes and returns the last filter.
#[verifier::external_body]
pub(crate) fn filter_set_pop(s: &mut IndexSet<NodeFilterApplicable>) -> (r: Option<NodeFilterApplicable>)
    ensures
        match r {
            Some(f) => filter_set_items(*old(s)).len() > 0
                && f@ == filter_set_items(*old(s)).last()
                && filter_set_items(*final(s)) == filter_set_items(*old(s)).drop_last(),
            None => filter_set_items(*old(s)).len() == 0
                && filter_set_items(*final(s)) == filter_set_items(*old(s)),
        },
{
    s.pop()
}

/// `IndexSet::clear`: empties the set.
#[verifier::external_body]
pub(crate) fn filter_set_clear(s: &mut IndexSet<NodeFilterApplicable>)
    ensures
        filter_set_items(*final(s)) == Seq::<NodeFilterApplicableView>::empty(),
{
    s.clear()
}

/// `IndexSet::clone`: a set with the same filters in the same order.
#[verifier::external_body]
pub(crate) fn filter_set_clone(s: &IndexSet<NodeFilterApplicable>) -> (r: IndexSet<NodeFilterApplicable>)
    ensures
        filter_set_items(r) == filter_set_items(*s),
{
    s.clone()
}

// ---------------------------------------------------------------------------
// Sets of node sorters

/// The sorters in a set of sorters, in insertion order.
pub uninterp spec fn sorter_set_items(s: IndexSet<NodeSorterApplicable>) -> Seq<NodeSorterApplicable>;

/// Whether `s` sorts by another key than `sorter` (the test a sorter retain applies).
pub fn sorter_differs(s: &NodeSorterApplicable, sorter: NodeSorter) -> (r: bool)
    ensures
        r == (s.sorter != sorter),
{
    s.sorter != sorter
}

/// `IndexSet::new`: an empty set.
#[verifier::external_body]
pub(crate) fn sorter_set_new() -> (r: IndexSet<NodeSorterApplicable>)
    ensures
        sorter_set_items(r) == Seq::<NodeSorterApplicable>::empty(),
{
    IndexSet::new()
}

/// `IndexSet::replace`: appends the sorter unless an equal one is in the set
/// (which then stays as it was).
#[verifier::external_body]
pub(crate) fn sorter_set_replace(s: &mut IndexSet<NodeSorterApplicable>, v: NodeSorterApplicable) -> (r: Option<NodeSorterApplicable>)
    ensures
        match r {
            Some(old_v) => sorter_set_items(*old(s)).contains(v) && old_v == v,
            None => !sorter_set_items(*old(s)).contains(v),
        },
        sorter_set_items(*final(s)) == if sorter_set_items(*old(s)).contains(v) {
            sorter_set_items(*old(s))
        } else {
            sorter_set_items(*old(s)).push(v)
        },
{
    s.replace(v)
}

/// `IndexSet::contains`: whether the sorter is in the set.
#[verifier::external_body]
pub(crate) fn sorter_set_contains(s: &IndexSet<NodeSorterApplicable>, v: &NodeSorterApplicable) -> (r: bool)
    ensures
        r == sorter_set_items(*s).contains(*v),
{
    s.contains(v)
}

/// `IndexSet::retain`: keeps, in order, the sorters by another key than `sorter`.
#[verifier::external_body]
pub(crate) fn sorter_set_retain(s: &mut IndexSet<NodeSorterApplicable>, sorter: NodeSorter)
    ensures
        sorter_set_items(*final(s)) == sorter_set_items(*old(s)).filter(
            |x: NodeSorterApplicable| x.sorter != sorter,
        ),
{
    s.retain(|x| sorter_differs(x, sorter))
}

/// `IndexSet::pop`: removes and returns the last sorter.
#[verifier::external_body]
pub(crate) fn sorter_set_pop(s: &mut IndexSet<NodeSorterApplicable>) -> (r: Option<NodeSorterApplicable>)
    ensures
        match r {
            Some(x) => sorter_set_items(*old(s)).len() > 0
                && x == sorter_set_items(*old(s)).last()
                && sorter_set_items(*final(s)) == sorter_set_items(*old(s)).drop_last(),
            None => sorter_set_items(*old(s)).len() == 0
                && sorter_set_items(*final(s)) == sorter_set_items(*old(s)),
        },
{
    s.pop()
}

/// `IndexSet::clear`: empties the set.
#[verifier::external_body]
pub(crate) fn sorter_set_clear(s: &mut IndexSet<NodeSorterApplicable>)
    ensures
        sorter_set_items(*final(s)) == Seq::<NodeSorterApplicable>::empty(),
{
    s.clear()
}

/// `IndexSet::clone`: a set with the same sorters in the same order.
#[verifier::external_body]
pub(crate) fn sorter_set_clone(s: &IndexSet<NodeSorterApplicable>) -> (r: IndexSet<NodeSorterApplicable>)
    ensures
        sorter_set_items(r) == sorter_set_items(*s),
{
    s.clone()
}

/// `IndexSet::into_iter` collected into a vector: the sorters in order.
#[verifier::external_body]
pub(crate) fn sorter_set_into_vec(s: IndexSet<NodeSorterApplicable>) -> (r: Vec<NodeSorterApplicable>)
    ensures
        r@ == sorter_set_items(s),
{
    s.into_iter().collect()
}

/// `IndexSet::from_iter` over a vector: inserts the sorters one by one, so a
/// sorter equal to an earlier one is dropped.
#[verifier::external_body]
pub(crate) fn sorter_set_from_vec(v: Vec<NodeSorterApplicable>) -> (r: IndexSet<NodeSorterApplicable>)
    ensures
        sorter_set_items(r) == first_occurrences(v@),
{
    v.into_iter().collect()
}

} // verus!

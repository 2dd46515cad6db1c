use vstd::prelude::*;
use crate::app::{mode_popped, mode_switched, modes_view, saves_mode, App, AppError,
    
    all_reversed, next_focus, previous_focus, set_insert, table_get, table_insert, with_focus,
    first_key_index, nodes_view, select_all_done, selected, set_insert_all, set_remove_all,
    un_select_all_done, absolute, node_at, path_selected, toggle_selection_by_path_done,
    selection_now,
};
use crate::paths::path_eq;
use crate::app::{directory_change_ended_done, handle_external_done, listed_done, visited_done, Step};
use crate::input::Key;
use crate::msg::ExternalMsg;
use crate::history::{law_back_then_forward, spec_visit_last, spec_visit_next};
use crate::sets::{node_keep_holds, NodeKeep};
use crate::text::strings_view;
use crate::config::{Mode, action_kept, bindings_sanitized, opt_action_sanitized, ActionView, KeyBindingsView};
use crate::msg::NodeSorterApplicable;
use crate::node::DirectoryBuffer;
use crate::sets::first_occurrences;

verus! {

/// When some entry is for `k`, there is a first such entry.
pub proof fn lemma_first_entry_exists<V>(es: Seq<(Seq<char>, V)>, k: Seq<char>)
    requires
        exists|i: int| 0 <= i < es.len() && es[i].0 == k,
    ensures
        exists|i: int| 0 <= i < es.len() && es[i].0 == k && forall|j: int| 0 <= j < i ==> es[j].0 != k,
    decreases es.len(),
{
    if es[0].0 == k {
        assert(forall|j: int| 0 <= j < 0 ==> es[j].0 != k);
    } else {
        let rest = es.drop_first();
        let w = choose|i: int| 0 <= i < es.len() && es[i].0 == k;
        assert(rest[w - 1].0 == k);
        lemma_first_entry_exists(rest, k);
        let i = choose|i: int| 0 <= i < rest.len() && rest[i].0 == k && forall|j: int| 0 <= j < i ==> rest[j].0 != k;
        assert(es[i + 1].0 == k);
        assert forall|j: int| 0 <= j < i + 1 implies es[j].0 != k by {
            if j > 0 {
                assert(es[j] == rest[j - 1]);
            }
        }
    }
}

/// What [`first_key_index`] answers: the first entry for `k`, or none when
/// no entry is for `k`.
pub proof fn lemma_first_key_index<V>(es: Seq<(Seq<char>, V)>, k: Seq<char>)
    ensures
        match first_key_index(es, k) {
            Some(i) => 0 <= i < es.len() && es[i].0 == k && forall|j: int| 0 <= j < i ==> es[j].0 != k,
            None => forall|j: int| 0 <= j < es.len() ==> es[j].0 != k,
        },
{
    if exists|i: int| 0 <= i < es.len() && es[i].0 == k {
        lemma_first_entry_exists(es, k);
    }
}

/// Remembering a focus for a directory and reading it back gives that focus.
pub proof fn law_last_focus_read_after_write<V>(es: Seq<(Seq<char>, V)>, k: Seq<char>, v: V)
    ensures
        table_get(table_insert(es, k, v), k) == Some(v),
{
    let t = table_insert(es, k, v);
    lemma_first_key_index(es, k);
    lemma_first_key_index(t, k);
    match first_key_index(es, k) {
        Some(i) => {
            assert(t[i].0 == k);
            assert forall|j: int| 0 <= j < i implies t[j].0 != k by {
                assert(t[j] == es[j]);
            }
            match first_key_index(t, k) {
                Some(j) => {
                    assert(j == i);
                },
                None => {},
            }
        },
        None => {
            assert(t[es.len() as int].0 == k);
            match first_key_index(t, k) {
                Some(j) => {
                    assert(j == es.len());
                },
                None => {},
            }
        },
    }
}

/// Remembering a focus for one directory leaves what is remembered for the others.
pub proof fn law_last_focus_other_keys<V>(es: Seq<(Seq<char>, V)>, k: Seq<char>, v: V, k2: Seq<char>)
    requires
        k2 != k,
    ensures
        table_get(table_insert(es, k, v), k2) == table_get(es, k2),
{
    let t = table_insert(es, k, v);
    lemma_first_key_index(es, k);
    lemma_first_key_index(t, k);
    lemma_first_key_index(es, k2);
    lemma_first_key_index(t, k2);
    assert forall|m: int| 0 <= m < es.len() implies (#[trigger] t[m].0 == k2 <==> es[m].0 == k2) by {
        match first_key_index(es, k) {
            Some(i) => {
                if m == i {
                    assert(t[m].0 == k);
                } else {
                    assert(t[m] == es[m]);
                }
            },
            None => {
                assert(t[m] == es[m]);
            },
        }
    }
    match first_key_index(es, k) {
        Some(i) => {
            assert(t.len() == es.len());
            match (first_key_index(es, k2), first_key_index(t, k2)) {
                (Some(a), Some(b)) => {
                    assert(t[a].0 == k2);
                    assert(es[b].0 == k2);
                    assert(a == b);
                },
                (None, Some(b)) => {
                    assert(es[b].0 == k2);
                },
                (Some(a), None) => {
                    assert(t[a].0 == k2);
                },
                (None, None) => {},
            }
        },
        None => {
            assert(t.len() == es.len() + 1);
            assert(t[es.len() as int].0 == k);
            match (first_key_index(es, k2), first_key_index(t, k2)) {
                (Some(a), Some(b)) => {
                    assert(t[a].0 == k2);
                    assert(b < es.len());
                    assert(es[b].0 == k2);
                    assert(a == b);
                },
                (None, Some(b)) => {
                    assert(es[b].0 == k2);
                },
                (Some(a), None) => {
                    assert(t[a].0 == k2);
                },
                (None, None) => {},
            }
        },
    }
}

/// Inserting into a set without duplicates keeps it without duplicates, and
/// the set then holds the inserted item.
pub proof fn law_insert_keeps_set<A>(items: Seq<A>, v: A)
    requires
        items.no_duplicates(),
    ensures
        set_insert(items, v).no_duplicates(),
        set_insert(items, v).contains(v),
{
    if !items.contains(v) {
        assert(items.push(v)[items.len() as int] == v);
    } else {
    }
}

/// Removing an item just inserted into a set that did not hold it gives the
/// set back (adding then removing a filter, selecting then unselecting a node).
pub proof fn law_insert_then_remove<A>(items: Seq<A>, v: A)
    requires
        !items.contains(v),
    ensures
        set_insert(items, v).filter(|x: A| x != v) == items,
{
    broadcast use vstd::seq_lib::group_filter_ensures;
    reveal(Seq::filter);
    assert(items.push(v).drop_last() =~= items);
    lemma_filter_all_kept(items, v);
}

/// Filtering out an item a sequence does not hold leaves it unchanged.
pub proof fn lemma_filter_all_kept<A>(items: Seq<A>, v: A)
    requires
        !items.contains(v),
    ensures
        items.filter(|x: A| x != v) == items,
    decreases items.len(),
{
    reveal(Seq::filter);
    if items.len() > 0 {
        assert(!items.drop_last().contains(v)) by {
            if items.drop_last().contains(v) {
                let i = choose|i: int| 0 <= i < items.drop_last().len() && items.drop_last()[i] == v;
                assert(items[i] == v);
            }
        }
        lemma_filter_all_kept(items.drop_last(), v);
        assert(items.drop_last().push(items.last()) =~= items);
    } else {
        assert(items.filter(|x: A| x != v) =~= items);
    }
}

/// Moving the focus down and then up returns to the same node, when the
/// listing's count is its number of nodes and the focus is on a node, unless
/// navigation is bounded and the focus was on the last node.
pub proof fn law_next_then_previous(d: DirectoryBuffer, bounded: bool)
    requires
        d.total == d.nodes.len(),
        d.focus < d.total,
        !(bounded && d.focus + 1 == d.total),
    ensures
        previous_focus(with_focus(d, next_focus(d, bounded)), bounded) == d.focus,
{
}

/// Moving the focus up and then down returns to the same node, under the
/// same conditions (bounded navigation stops at the first node).
pub proof fn law_previous_then_next(d: DirectoryBuffer, bounded: bool)
    requires
        d.total == d.nodes.len(),
        d.focus < d.total,
        !(bounded && d.focus == 0),
    ensures
        next_focus(with_focus(d, previous_focus(d, bounded)), bounded) == d.focus,
{
}

/// Moving the focus up or down keeps it on a node.
pub proof fn law_focus_moves_stay_in_listing(d: DirectoryBuffer, bounded: bool)
    requires
        d.total == d.nodes.len(),
        d.focus < d.total,
    ensures
        next_focus(d, bounded) < d.total,
        previous_focus(d, bounded) < d.total,
{
}

/// A mode sanitized for read-only use keeps only actions whose messages may
/// all run in read-only mode.
pub proof fn law_sanitized_actions_are_read_only(kb: KeyBindingsView)
    ensures
        forall|i: int| 0 <= i < bindings_sanitized(kb, true).on_key.len()
            ==> action_kept(#[trigger] bindings_sanitized(kb, true).on_key[i].1, true),
        opt_action_sanitized(kb.default, true) matches Some(a) ==> action_kept(a, true),
{
    broadcast use vstd::seq_lib::group_filter_ensures;
    let pred = |e: (Seq<char>, ActionView)| action_kept(e.1, true);
    assert forall|i: int| 0 <= i < kb.on_key.filter(pred).len() implies action_kept(#[trigger] kb.on_key.filter(pred)[i].1, true) by {
        assert(pred(kb.on_key.filter(pred)[i]));
    }
}

/// Turning every sorter around twice gives the sorters back.
pub proof fn law_reverse_twice(items: Seq<NodeSorterApplicable>)
    ensures
        all_reversed(all_reversed(items)) == items,
{
    assert(all_reversed(all_reversed(items)) =~= items);
}

/// Keeping first occurrences of a sequence without duplicates changes nothing.
pub proof fn law_first_occurrences_of_distinct<A>(items: Seq<A>)
    requires
        items.no_duplicates(),
    ensures
        first_occurrences(items) == items,
    decreases items.len(),
{
    if items.len() > 0 {
        assert(items.drop_last().no_duplicates());
        law_first_occurrences_of_distinct(items.drop_last());
        assert(!items.drop_last().contains(items.last())) by {
            if items.drop_last().contains(items.last()) {
                let i = choose|i: int| 0 <= i < items.drop_last().len() && items.drop_last()[i] == items.last();
                assert(items[i] == items[items.len() - 1]);
            }
        }
        assert(items.drop_last().push(items.last()) =~= items);
    }
}

/// Turning every sorter around keeps a set of sorters without duplicates, so
/// doing it twice gives the set back.
pub proof fn law_reverse_sorters_twice(items: Seq<NodeSorterApplicable>)
    requires
        items.no_duplicates(),
    ensures
        first_occurrences(all_reversed(first_occurrences(all_reversed(items)))) == items,
{
    assert(all_reversed(items).no_duplicates()) by {
        assert forall|i: int, j: int| 0 <= i < all_reversed(items).len() && 0 <= j < all_reversed(items).len() && i != j
            implies all_reversed(items)[i] != all_reversed(items)[j] by {
            assert(items[i] != items[j]);
        }
    }
    law_first_occurrences_of_distinct(all_reversed(items));
    assert(all_reversed(all_reversed(items)) =~= items);
    law_first_occurrences_of_distinct(items);
}

/// Entering a mode that saves the current one, then going back, returns to
/// the mode the explorer was in.
pub proof fn law_switch_then_pop_mode(
    s: App,
    m: Mode,
    missing: Seq<char>,
    keep_input: bool,
    a: App,
    keep_input2: bool,
    b: App,
)
    requires
        saves_mode(s),
        mode_switched(s, Some(m), missing, keep_input, Ok::<App, AppError>(a)),
        mode_popped(a, keep_input2, Ok::<App, AppError>(b)),
    ensures
        b.mode@ == s.mode@,
        modes_view(b.last_modes@) == modes_view(s.last_modes@),
{
    assert(modes_view(a.last_modes@).len() == a.last_modes@.len());
    assert(modes_view(a.last_modes@)[a.last_modes@.len() - 1] == a.last_modes@.last()@);
    assert(modes_view(b.last_modes@) =~= modes_view(a.last_modes@).drop_last());
}

/// Filtering twice keeps what both predicates keep.
pub proof fn lemma_filter_twice<A>(xs: Seq<A>, p: spec_fn(A) -> bool, q: spec_fn(A) -> bool)
    ensures
        xs.filter(p).filter(q) == xs.filter(|e: A| p(e) && q(e)),
    decreases xs.len(),
{
    broadcast use vstd::seq_lib::group_filter_ensures;
    reveal(Seq::filter);
    if xs.len() > 0 {
        lemma_filter_twice(xs.drop_last(), p, q);
        xs.drop_last().filter(p).lemma_filter_push(xs.last(), q);
    }
}

/// Removing each of `vs` in turn keeps exactly the items that are none of `vs`.
pub proof fn lemma_remove_all_filters<A>(xs: Seq<A>, vs: Seq<A>)
    ensures
        set_remove_all(xs, vs) == xs.filter(|e: A| !vs.contains(e)),
    decreases vs.len(),
{
    reveal(Seq::filter);
    if vs.len() == 0 {
        lemma_filter_keeps_all(xs, |e: A| !vs.contains(e));
        assert(set_remove_all(xs, vs) == xs);
    } else {
        let d = vs.drop_last();
        let l = vs.last();
        lemma_remove_all_filters(xs, d);
        let p = |e: A| !d.contains(e);
        let q = |e: A| e != l;
        lemma_filter_twice(xs, p, q);
        assert forall|e: A| #![auto] (!d.contains(e) && e != l) == !vs.contains(e) by {
            assert(d.push(l) =~= vs);
            if d.contains(e) {
                let i = choose|i: int| 0 <= i < d.len() && d[i] == e;
                assert(vs[i] == e);
            }
            if vs.contains(e) && e != l {
                let i = choose|i: int| 0 <= i < vs.len() && vs[i] == e;
                assert(d[i] == e);
            }
        }
        assert((|e: A| p(e) && q(e)) =~= (|e: A| !vs.contains(e)));
        assert((|x: A| x != vs.last()) =~= q);
    }
}

/// A filter that every item passes keeps the whole sequence.
pub proof fn lemma_filter_keeps_all<A>(xs: Seq<A>, p: spec_fn(A) -> bool)
    requires
        forall|i: int| 0 <= i < xs.len() ==> p(#[trigger] xs[i]),
    ensures
        xs.filter(p) == xs,
    decreases xs.len(),
{
    reveal(Seq::filter);
    if xs.len() > 0 {
        assert(p(xs[xs.len() - 1]));
        lemma_filter_keeps_all(xs.drop_last(), p);
        assert(xs.drop_last().push(xs.last()) =~= xs);
    }
}

/// Inserting each of `vs` in turn only appends items, each of them one of `vs`.
pub proof fn lemma_insert_all_appends<A>(xs: Seq<A>, vs: Seq<A>) -> (w: Seq<A>)
    ensures
        set_insert_all(xs, vs) == xs + w,
        forall|i: int| 0 <= i < w.len() ==> vs.contains(#[trigger] w[i]),
    decreases vs.len(),
{
    if vs.len() == 0 {
        assert(xs + Seq::<A>::empty() =~= xs);
        Seq::<A>::empty()
    } else {
        let d = vs.drop_last();
        let l = vs.last();
        let w0 = lemma_insert_all_appends(xs, d);
        assert forall|i: int| 0 <= i < w0.len() implies vs.contains(#[trigger] w0[i]) by {
            let j = choose|j: int| 0 <= j < d.len() && d[j] == w0[i];
            assert(vs[j] == w0[i]);
        }
        assert(vs[vs.len() - 1] == l);
        if (xs + w0).contains(l) {
            w0
        } else {
            assert((xs + w0).push(l) =~= xs + w0.push(l));
            w0.push(l)
        }
    }
}

/// Selecting every node of the listing and then unselecting every node of it
/// gives back the selection, when the selection held none of those nodes;
/// nothing else about the explorer changes.
pub proof fn law_select_all_then_un_select_all(s: App, a: App, b: App)
    requires
        s.directory_buffer is Some,
        forall|i: int| 0 <= i < s.directory_buffer->0.nodes.len()
            ==> !selected(s).contains(#[trigger] s.directory_buffer->0.nodes@[i]@),
        select_all_done(s, Ok::<App, AppError>(a)),
        un_select_all_done(a, Ok::<App, AppError>(b)),
    ensures
        selected(b) == selected(s),
        b == (App { selection: b.selection, ..s }),
{
    let d = s.directory_buffer->0;
    let vs = nodes_view(d.nodes@);
    let xs = selected(s);
    let w = lemma_insert_all_appends(xs, vs);
    lemma_remove_all_filters(xs + w, vs);
    let p = |e: crate::node::NodeView| !vs.contains(e);
    vstd::seq::Seq::filter_distributes_over_add(xs, w, p);
    assert forall|i: int| 0 <= i < xs.len() implies p(#[trigger] xs[i]) by {
        if vs.contains(xs[i]) {
            let j = choose|j: int| 0 <= j < vs.len() && vs[j] == xs[i];
            assert(vs[j] == d.nodes@[j]@);
            assert(xs.contains(xs[i]));
        }
    }
    lemma_filter_keeps_all(xs, p);
    w.lemma_all_neg_filter_empty(p);
    assert(xs.filter(p) + w.filter(p) =~= xs);
}

/// Toggling the same path twice gives the selection back, when no selected
/// node has that path and the node the path names has the path itself (its
/// parent joined with its file name is the same path); nothing else changes.
pub proof fn law_toggle_path_twice(s: App, path: Seq<char>, a: App, b: App)
    requires
        forall|i: int| 0 <= i < selected(s).len()
            ==> !path_eq(#[trigger] selected(s)[i].absolute_path, absolute(s, path)),
        node_at(absolute(s, path)) matches Some(n) ==> path_eq(n.absolute_path, absolute(s, path)),
        toggle_selection_by_path_done(s, path, Ok::<App, AppError>(a)),
        toggle_selection_by_path_done(a, path, Ok::<App, AppError>(b)),
    ensures
        selected(b) == selected(s),
        b == (App { selection: b.selection, ..s }),
{
    let q = absolute(s, path);
    let xs = selected(s);
    assert(!path_selected(s, q));
    assert(absolute(a, path) == q);
    let keep = |x: crate::node::NodeView| !path_eq(x.absolute_path, q);
    assert forall|i: int| 0 <= i < xs.len() implies keep(#[trigger] xs[i]) by {
        if path_eq(xs[i].absolute_path, q) {
            assert(path_selected(s, q));
        }
    }
    lemma_filter_keeps_all(xs, keep);
    match node_at(q) {
        Some(n) => {
            assert(!xs.contains(n)) by {
                if xs.contains(n) {
                    let i = choose|i: int| 0 <= i < xs.len() && xs[i] == n;
                    assert(keep(xs[i]));
                }
            }
            assert(selected(a) == xs.push(n));
            assert(selected(a)[xs.len() as int] == n);
            assert(path_selected(a, q));
            lemma_filter_push_dropped(xs, n, keep);
        },
        None => {
            assert(a == s);
        },
    }
}

/// Appending an item a filter drops, then filtering, is filtering alone.
proof fn lemma_filter_push_dropped<A>(xs: Seq<A>, v: A, p: spec_fn(A) -> bool)
    requires
        !p(v),
    ensures
        xs.push(v).filter(p) == xs.filter(p),
{
    xs.lemma_filter_push(v, p);
}

/// After a message the runner keeps selected only the nodes that still exist:
/// when the paths it hands to [`App::keep_existing`] all exist and include
/// every selected path that exists, every node left selected exists, the
/// selection is the earlier one without the nodes that do not, in the same
/// order, and nothing else changes.
pub proof fn law_refresh_keeps_only_existing(
    s: App,
    existing: Vec<String>,
    on_disk: spec_fn(Seq<char>) -> bool,
    a: App,
)
    requires
        forall|i: int| 0 <= i < existing.len() ==> on_disk(#[trigger] existing@[i]@),
        forall|i: int| 0 <= i < selected(s).len() && on_disk(#[trigger] selected(s)[i].absolute_path)
            ==> strings_view(existing@).contains(selected(s)[i].absolute_path),
        selection_now(
            s,
            selected(s).filter(|x: crate::node::NodeView| node_keep_holds(&NodeKeep::AmongPaths(existing), x)),
            Ok::<App, AppError>(a),
        ),
    ensures
        forall|i: int| 0 <= i < selected(a).len() ==> on_disk(#[trigger] selected(a)[i].absolute_path),
        selected(a) == selected(s).filter(|x: crate::node::NodeView| on_disk(x.absolute_path)),
        a == (App { selection: a.selection, ..s }),
{
    broadcast use vstd::seq_lib::group_filter_ensures;
    let xs = selected(s);
    let p = |x: crate::node::NodeView| node_keep_holds(&NodeKeep::AmongPaths(existing), x);
    let e = |x: crate::node::NodeView| on_disk(x.absolute_path);
    assert forall|i: int| 0 <= i < xs.len() implies p(#[trigger] xs[i]) == e(xs[i]) by {
        if p(xs[i]) {
            let j = choose|j: int| 0 <= j < strings_view(existing@).len() && strings_view(existing@)[j] == xs[i].absolute_path;
            assert(strings_view(existing@)[j] == existing@[j]@);
            assert(on_disk(existing@[j]@));
        }
    }
    lemma_filter_same_on(xs, p, e);
    assert forall|i: int| 0 <= i < selected(a).len() implies on_disk(#[trigger] selected(a)[i].absolute_path) by {
        assert(e(xs.filter(e)[i]));
    }
}

/// Two predicates that agree on every item of a sequence filter it alike.
proof fn lemma_filter_same_on<A>(xs: Seq<A>, p: spec_fn(A) -> bool, q: spec_fn(A) -> bool)
    requires
        forall|i: int| 0 <= i < xs.len() ==> p(#[trigger] xs[i]) == q(xs[i]),
    ensures
        xs.filter(p) == xs.filter(q),
    decreases xs.len(),
{
    reveal(Seq::filter);
    if xs.len() > 0 {
        assert(p(xs[xs.len() - 1]) == q(xs[xs.len() - 1]));
        lemma_filter_same_on(xs.drop_last(), p, q);
    }
}

/// Going to the next visited path undoes going to the last one: with the
/// cursor past the first entry of a well-formed history, stepping back and
/// then forward leaves the history as it was.
pub proof fn law_last_then_next_visited(s: App, st1: Step, st2: Step)
    requires
        0 < s.history.loc < s.history.paths.len(),
        visited_done(s, spec_visit_last(s.history@), Ok::<Step, AppError>(st1)),
        visited_done(st1.app, spec_visit_next(st1.app.history@), Ok::<Step, AppError>(st2)),
    ensures
        st2.app.history@ == s.history@,
{
    law_back_then_forward(s.history@);
}

/// The work the runner does for a visited path leaves the history alone:
/// entering a directory without recording the visit, and then taking in the
/// listing and focusing a file without recording it, change no history.
pub proof fn law_visit_work_keeps_history(
    s: App,
    dir: Seq<char>,
    focus: Option<(String, bool)>,
    outcome: Result<(), String>,
    st: Step,
    listing: DirectoryBuffer,
    a: App,
)
    requires
        focus matches Some((_, b)) ==> !b,
        directory_change_ended_done(s, dir, false, focus, outcome, Ok::<Step, AppError>(st)),
        listed_done(st.app, listing, focus, Ok::<App, AppError>(a)),
    ensures
        st.app.history@ == s.history@,
        a.history@ == s.history@,
{
}

/// By the end of a message, only nodes that exist stay selected: the message
/// is handled (giving `st`; `mid` is its state, or the state after the work
/// the runner was asked for), then the runner hands [`App::keep_existing`]
/// paths that all exist and include every selected path that exists. Every
/// node left selected then exists, and the selection is the one the handler
/// produced without the nodes that do not, in the same order.
pub proof fn law_external_message_refreshed(
    s: App,
    msg: ExternalMsg,
    key: Option<Key>,
    st: Step,
    mid: App,
    existing: Vec<String>,
    on_disk: spec_fn(Seq<char>) -> bool,
    a: App,
)
    requires
        handle_external_done(s, msg, key, Ok::<Step, AppError>(st)),
        st.io is None ==> mid == st.app,
        forall|i: int| 0 <= i < existing.len() ==> on_disk(#[trigger] existing@[i]@),
        forall|i: int| 0 <= i < selected(mid).len() && on_disk(#[trigger] selected(mid)[i].absolute_path)
            ==> strings_view(existing@).contains(selected(mid)[i].absolute_path),
        selection_now(
            mid,
            selected(mid).filter(|x: crate::node::NodeView| node_keep_holds(&NodeKeep::AmongPaths(existing), x)),
            Ok::<App, AppError>(a),
        ),
    ensures
        forall|i: int| 0 <= i < selected(a).len() ==> on_disk(#[trigger] selected(a)[i].absolute_path),
        selected(a) == selected(mid).filter(|x: crate::node::NodeView| on_disk(x.absolute_path)),
        a == (App { selection: a.selection, ..mid }),
{
    law_refresh_keeps_only_existing(mid, existing, on_disk, a);
}

/// Whether each key stands in one entry of a table at most.
pub open spec fn keys_unique<V>(es: Seq<(Seq<char>, V)>) -> bool {
    forall|i: int, j: int| 0 <= i < j < es.len() ==> es[i].0 != es[j].0
}

/// Setting an entry keeps every key once: a table built by setting entries
/// from an empty one (such as the remembered focus of each directory) maps
/// each key to one value, as a map does.
pub proof fn law_table_insert_keeps_keys_unique<V>(es: Seq<(Seq<char>, V)>, k: Seq<char>, v: V)
    requires
        keys_unique(es),
    ensures
        keys_unique(table_insert(es, k, v)),
{
    lemma_first_key_index(es, k);
    let t = table_insert(es, k, v);
    match first_key_index(es, k) {
        Some(i) => {
            assert forall|a: int, b: int| 0 <= a < b < t.len() implies t[a].0 != t[b].0 by {
                if a != i && b != i {
                    assert(t[a] == es[a] && t[b] == es[b]);
                }
            }
        },
        None => {
            assert forall|a: int, b: int| 0 <= a < b < t.len() implies t[a].0 != t[b].0 by {
                if b < es.len() {
                    assert(t[a] == es[a] && t[b] == es[b]);
                }
            }
        },
    }
}

/// In a table whose keys are unique, looking a key up gives the value of the
/// one entry for it, as a map does.
pub proof fn law_unique_key_lookup<V>(es: Seq<(Seq<char>, V)>, i: int)
    requires
        keys_unique(es),
        0 <= i < es.len(),
    ensures
        table_get(es, es[i].0) == Some(es[i].1),
{
    let k = es[i].0;
    lemma_first_key_index(es, k);
    match first_key_index(es, k) {
        Some(j) => {
            if j < i {
                assert(es[j].0 != es[i].0);
            } else if j > i {
                assert(es[i].0 != k);
            }
        },
        None => {
            assert(es[i].0 != k);
        },
    }
}

} // verus!

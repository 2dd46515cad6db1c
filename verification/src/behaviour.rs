use vstd::prelude::*;
use crate::app::{
    enter_done, focus_by_index_done, focus_previous_done, focus_next_by_relative_index_done, focus_next_by_relative_index_from_input_done,
    focus_next_done, focus_previous_by_relative_index_done, handle_external_done, handle_key_done,
    is_task_for, nodes_view, focused, filters, sorters, select_done, un_select_done, select_all_done,
    un_select_all_done, add_node_filter_done, remove_node_filter_done, toggle_node_filter_done,
    add_node_sorter_done, remove_node_sorter_done, set_insert, focus_by_file_name_done, log_done,
    buffer_input_done, selected, toggle_select_all_done, typed_index, App, AppError, Step,
};
use crate::config::{first_with_key, Action, KeyBindings};
use crate::explore::{lowercased, passes};
use crate::input::{Key, KeyKind};
use crate::laws::lemma_remove_all_filters;
use crate::msg::{ExternalMsg, ExternalMsgView, NodeFilter, NodeFilterApplicable, NodeFilterApplicableView, NodeSorter, NodeSorterApplicable};
use crate::node::NodeView;
use crate::log::LogLevel;

verus! {

// ---------------------------------------------------------------------------
// Key bindings

/// No entry of `entries` is named `k`, so a lookup by name finds none.
proof fn lemma_no_entry_named<V>(entries: Seq<(String, V)>, k: Seq<char>)
    requires
        forall|i: int| 0 <= i < entries.len() ==> #[trigger] entries[i].0@ != k,
    ensures
        first_with_key(entries, k) is None,
    decreases entries.len(),
{
    if entries.len() > 0 {
        assert(entries[0].0@ != k);
        assert forall|i: int| 0 <= i < entries.drop_first().len() implies #[trigger] entries.drop_first()[i].0@ != k by {
            assert(entries.drop_first()[i] == entries[i + 1]);
        }
        lemma_no_entry_named(entries.drop_first(), k);
    }
}

/// A lookup by name finds the first entry with that name.
proof fn lemma_first_entry_named<V>(entries: Seq<(String, V)>, k: Seq<char>, j: int)
    requires
        0 <= j < entries.len(),
        entries[j].0@ == k,
        forall|i: int| 0 <= i < j ==> #[trigger] entries[i].0@ != k,
    ensures
        first_with_key(entries, k) == Some(entries[j].1),
    decreases j,
{
    if j > 0 {
        assert(entries[0].0@ != k);
        assert forall|i: int| 0 <= i < j - 1 implies #[trigger] entries.drop_first()[i].0@ != k by {
            assert(entries.drop_first()[i] == entries[i + 1]);
        }
        assert(entries.drop_first()[j - 1] == entries[j]);
        lemma_first_entry_named(entries.drop_first(), k, j - 1);
    }
}

/// A key with no binding of its own, in a class whose binding is set (a
/// letter with `on_alphabet`, a digit with `on_number`, a special character
/// with `on_special_character`, a navigation key with `on_navigation`, a
/// function key with `on_function`), queues exactly that binding's messages,
/// in order, each sent by the key, after what was queued before.
pub proof fn law_key_uses_its_class_binding(s: App, key: Key, a: Action, b: App)
    requires
        forall|i: int| 0 <= i < s.mode.key_bindings.on_key.len()
            ==> #[trigger] s.mode.key_bindings.on_key@[i].0@ != key.name@,
        (key.kind == KeyKind::Alphabet && s.mode.key_bindings.on_alphabet == Some(a))
            || (key.kind == KeyKind::Number && s.mode.key_bindings.on_number == Some(a))
            || (key.kind == KeyKind::SpecialCharacter && s.mode.key_bindings.on_special_character == Some(a))
            || (key.kind == KeyKind::Navigation && s.mode.key_bindings.on_navigation == Some(a))
            || (key.kind == KeyKind::Function && s.mode.key_bindings.on_function == Some(a)),
        handle_key_done(s, key, Ok::<App, AppError>(b)),
    ensures
        b.msg_out@.len() == s.msg_out@.len() + a.messages.len(),
        b.msg_out@.take(s.msg_out@.len() as int) == s.msg_out@,
        forall|i: int| 0 <= i < a.messages.len()
            ==> is_task_for(#[trigger] b.msg_out@[s.msg_out@.len() + i], a.messages@[i]@, key),
        b == (App { msg_out: b.msg_out, ..s }),
{
    lemma_no_entry_named(s.mode.key_bindings.on_key@, key.name@);
    assert forall|i: int| 0 <= i < a.messages.len()
        implies is_task_for(#[trigger] b.msg_out@[s.msg_out@.len() + i], a.messages@[i]@, key) by {
        assert(a@.messages[i] == a.messages@[i]@);
    }
}

/// A key bound by name queues exactly the messages of the first binding with
/// its name, whatever the classes of keys are bound to.
pub proof fn law_key_uses_its_own_binding(s: App, key: Key, j: int, b: App)
    requires
        0 <= j < s.mode.key_bindings.on_key.len(),
        s.mode.key_bindings.on_key@[j].0@ == key.name@,
        forall|i: int| 0 <= i < j ==> #[trigger] s.mode.key_bindings.on_key@[i].0@ != key.name@,
        handle_key_done(s, key, Ok::<App, AppError>(b)),
    ensures
        b.msg_out@.len() == s.msg_out@.len() + s.mode.key_bindings.on_key@[j].1.messages.len(),
        b.msg_out@.take(s.msg_out@.len() as int) == s.msg_out@,
        forall|i: int| 0 <= i < s.mode.key_bindings.on_key@[j].1.messages.len()
            ==> is_task_for(#[trigger] b.msg_out@[s.msg_out@.len() + i], s.mode.key_bindings.on_key@[j].1.messages@[i]@, key),
{
    let a = s.mode.key_bindings.on_key@[j].1;
    lemma_first_entry_named(s.mode.key_bindings.on_key@, key.name@, j);
    assert forall|i: int| 0 <= i < a.messages.len()
        implies is_task_for(#[trigger] b.msg_out@[s.msg_out@.len() + i], a.messages@[i]@, key) by {
        assert(a@.messages[i] == a.messages@[i]@);
    }
}

/// No binding for the key's own class of keys is set.
pub open spec fn class_unbound(kb: KeyBindings, key: Key) -> bool {
    &&& key.kind == KeyKind::Alphabet ==> kb.on_alphabet is None
    &&& key.kind == KeyKind::Number ==> kb.on_number is None
    &&& key.kind == KeyKind::SpecialCharacter ==> kb.on_special_character is None
    &&& key.kind == KeyKind::Navigation ==> kb.on_navigation is None
    &&& key.kind == KeyKind::Function ==> kb.on_function is None
}

/// `b` is `s` with a task for each of `msgs`, in order and sent by `key`,
/// queued after what was queued before.
pub open spec fn queued_exactly(s: App, b: App, msgs: Seq<ExternalMsgView>, key: Key) -> bool {
    &&& b == (App { msg_out: b.msg_out, ..s })
    &&& b.msg_out@.len() == s.msg_out@.len() + msgs.len()
    &&& b.msg_out@.take(s.msg_out@.len() as int) == s.msg_out@
    &&& forall|i: int| 0 <= i < msgs.len() ==> is_task_for(#[trigger] b.msg_out@[s.msg_out@.len() + i], msgs[i], key)
}

/// A letter or a digit with no binding of its own nor of its class uses the
/// binding for letters and digits, when it is set.
pub proof fn law_key_falls_back_to_alphanumeric(s: App, key: Key, a: Action, b: App)
    requires
        forall|i: int| 0 <= i < s.mode.key_bindings.on_key.len()
            ==> #[trigger] s.mode.key_bindings.on_key@[i].0@ != key.name@,
        key.kind == KeyKind::Alphabet || key.kind == KeyKind::Number,
        class_unbound(s.mode.key_bindings, key),
        s.mode.key_bindings.on_alphanumeric == Some(a),
        handle_key_done(s, key, Ok::<App, AppError>(b)),
    ensures
        queued_exactly(s, b, a@.messages, key),
{
    lemma_no_entry_named(s.mode.key_bindings.on_key@, key.name@);
}

/// A key that types a character, with no binding of its own, of its class,
/// or (for letters and digits) for letters and digits, uses the binding for
/// characters, when it is set.
pub proof fn law_key_falls_back_to_character(s: App, key: Key, a: Action, b: App)
    requires
        forall|i: int| 0 <= i < s.mode.key_bindings.on_key.len()
            ==> #[trigger] s.mode.key_bindings.on_key@[i].0@ != key.name@,
        class_unbound(s.mode.key_bindings, key),
        (key.kind == KeyKind::Alphabet || key.kind == KeyKind::Number) ==> s.mode.key_bindings.on_alphanumeric is None,
        key.character is Some,
        s.mode.key_bindings.on_character == Some(a),
        handle_key_done(s, key, Ok::<App, AppError>(b)),
    ensures
        queued_exactly(s, b, a@.messages, key),
{
    lemma_no_entry_named(s.mode.key_bindings.on_key@, key.name@);
}

/// A key with no more specific binding uses the default binding, when set.
pub proof fn law_key_falls_back_to_default(s: App, key: Key, a: Action, b: App)
    requires
        forall|i: int| 0 <= i < s.mode.key_bindings.on_key.len()
            ==> #[trigger] s.mode.key_bindings.on_key@[i].0@ != key.name@,
        class_unbound(s.mode.key_bindings, key),
        (key.kind == KeyKind::Alphabet || key.kind == KeyKind::Number) ==> s.mode.key_bindings.on_alphanumeric is None,
        key.character is Some ==> s.mode.key_bindings.on_character is None,
        s.mode.key_bindings.default == Some(a),
        handle_key_done(s, key, Ok::<App, AppError>(b)),
    ensures
        queued_exactly(s, b, a@.messages, key),
{
    lemma_no_entry_named(s.mode.key_bindings.on_key@, key.name@);
}

/// A key bound nowhere queues one message: a switch to the recover mode when
/// it is enabled, else the warning "Key map not found.".
pub proof fn law_unbound_key(s: App, key: Key, b: App)
    requires
        forall|i: int| 0 <= i < s.mode.key_bindings.on_key.len()
            ==> #[trigger] s.mode.key_bindings.on_key@[i].0@ != key.name@,
        class_unbound(s.mode.key_bindings, key),
        (key.kind == KeyKind::Alphabet || key.kind == KeyKind::Number) ==> s.mode.key_bindings.on_alphanumeric is None,
        key.character is Some ==> s.mode.key_bindings.on_character is None,
        s.mode.key_bindings.default is None,
        handle_key_done(s, key, Ok::<App, AppError>(b)),
    ensures
        queued_exactly(s, b, seq![if s.config.general.enable_recover_mode {
            ExternalMsgView::SwitchModeBuiltin("recover"@)
        } else {
            ExternalMsgView::LogWarning("Key map not found."@)
        }], key),
{
    lemma_no_entry_named(s.mode.key_bindings.on_key@, key.name@);
}

// ---------------------------------------------------------------------------
// Moving the focus by several nodes

/// Moving down by `index` within the listing lands exactly `index` nodes
/// further, and changes nothing of the listing but the focus.
pub proof fn law_move_down_by_exact(s: App, index: usize, a: App)
    requires
        s.directory_buffer is Some,
        s.directory_buffer->0.focus + index < s.directory_buffer->0.total,
        focus_next_by_relative_index_done(s, index, Ok::<App, AppError>(a)),
    ensures
        a.directory_buffer is Some,
        a.directory_buffer->0.focus == s.directory_buffer->0.focus + index,
        a.directory_buffer->0.nodes == s.directory_buffer->0.nodes,
        a.directory_buffer->0.total == s.directory_buffer->0.total,
        a.directory_buffer->0.parent == s.directory_buffer->0.parent,
{
}

/// Moving down past the end of the listing stops on its last node.
pub proof fn law_move_down_by_stops_at_last(s: App, index: usize, a: App)
    requires
        s.directory_buffer is Some,
        s.directory_buffer->0.total >= 1,
        s.directory_buffer->0.focus + index >= s.directory_buffer->0.total,
        focus_next_by_relative_index_done(s, index, Ok::<App, AppError>(a)),
    ensures
        a.directory_buffer is Some,
        a.directory_buffer->0.focus == s.directory_buffer->0.total - 1,
{
}

/// Moving down by the number typed in the input buffer lands exactly that
/// many nodes further, within the listing.
pub proof fn law_move_down_by_typed_exact(s: App, k: usize, a: App)
    requires
        s.directory_buffer is Some,
        typed_index(s) == Some(k),
        s.directory_buffer->0.focus + k < s.directory_buffer->0.total,
        focus_next_by_relative_index_from_input_done(s, Ok::<App, AppError>(a)),
    ensures
        a.directory_buffer is Some,
        a.directory_buffer->0.focus == s.directory_buffer->0.focus + k,
{
}

/// Moving down by one agrees with moving to the next node, away from the
/// last node.
pub proof fn law_down_by_one_is_next(s: App, a: App, b: App)
    requires
        s.directory_buffer is Some,
        s.directory_buffer->0.focus + 1 < s.directory_buffer->0.total,
        focus_next_by_relative_index_done(s, 1, Ok::<App, AppError>(a)),
        focus_next_done(s, Ok::<App, AppError>(b)),
    ensures
        a.directory_buffer == b.directory_buffer,
{
}

/// Moving down by `k` within the listing and then up by `k` returns to the
/// node the focus started on.
pub proof fn law_down_then_up_by(s: App, k: usize, a: App, b: App)
    requires
        s.directory_buffer is Some,
        s.directory_buffer->0.focus + k < s.directory_buffer->0.total,
        focus_next_by_relative_index_done(s, k, Ok::<App, AppError>(a)),
        focus_previous_by_relative_index_done(a, k, Ok::<App, AppError>(b)),
    ensures
        b.directory_buffer is Some,
        b.directory_buffer->0.focus == s.directory_buffer->0.focus,
        b.directory_buffer->0.nodes == s.directory_buffer->0.nodes,
{
}

/// Moving up by `index` when that many nodes lie above lands exactly
/// `index` nodes higher; moving further stops on the first node.
pub proof fn law_move_up_by(s: App, index: usize, a: App)
    requires
        s.directory_buffer is Some,
        focus_previous_by_relative_index_done(s, index, Ok::<App, AppError>(a)),
    ensures
        a.directory_buffer is Some,
        a.directory_buffer->0.nodes == s.directory_buffer->0.nodes,
        s.directory_buffer->0.focus >= index ==> a.directory_buffer->0.focus == s.directory_buffer->0.focus - index,
        s.directory_buffer->0.focus < index ==> a.directory_buffer->0.focus == 0,
{
}

/// Focusing the node at `index` lands on it when the listing has it, else on
/// the last node.
pub proof fn law_focus_by_index(s: App, index: usize, a: App)
    requires
        s.directory_buffer is Some,
        focus_by_index_done(s, index, Ok::<App, AppError>(a)),
    ensures
        a.directory_buffer is Some,
        a.directory_buffer->0.nodes == s.directory_buffer->0.nodes,
        index < s.directory_buffer->0.total ==> a.directory_buffer->0.focus == index,
        index >= s.directory_buffer->0.total >= 1 ==> a.directory_buffer->0.focus == s.directory_buffer->0.total - 1,
{
}

/// Moving to the next node goes one node down; from the last node it wraps
/// to the first, or stays when navigation is bounded.
pub proof fn law_focus_next(s: App, a: App)
    requires
        s.directory_buffer is Some,
        s.directory_buffer->0.focus < s.directory_buffer->0.total,
        focus_next_done(s, Ok::<App, AppError>(a)),
    ensures
        a.directory_buffer is Some,
        s.directory_buffer->0.focus + 1 < s.directory_buffer->0.total
            ==> a.directory_buffer->0.focus == s.directory_buffer->0.focus + 1,
        s.directory_buffer->0.focus + 1 == s.directory_buffer->0.total
            ==> a.directory_buffer->0.focus == if s.config.general.enforce_bounded_index_navigation {
                s.directory_buffer->0.focus
            } else {
                0
            },
{
}

/// Moving to the previous node goes one node up; from the first node it
/// wraps to the last, or stays when navigation is bounded.
pub proof fn law_focus_previous(s: App, a: App)
    requires
        s.directory_buffer is Some,
        s.directory_buffer->0.total >= 1,
        focus_previous_done(s, Ok::<App, AppError>(a)),
    ensures
        a.directory_buffer is Some,
        s.directory_buffer->0.focus > 0 ==> a.directory_buffer->0.focus == s.directory_buffer->0.focus - 1,
        s.directory_buffer->0.focus == 0 ==> a.directory_buffer->0.focus == if s.config.general.enforce_bounded_index_navigation {
            0
        } else {
            s.directory_buffer->0.total - 1
        },
{
}

// ---------------------------------------------------------------------------
// Read-only mode

/// Read-only mode refuses exactly the messages that run a command, a shell
/// script or Lua code; every other message (navigation, selection, filters,
/// modes, input) may run.
pub proof fn law_read_only_refuses_only_code(m: ExternalMsg)
    ensures
        m@.read_only() <==> !(m is Call || m is CallSilently || m is BashExec || m is BashExecSilently
            || m is CallLua || m is CallLuaSilently || m is LuaEval || m is LuaEvalSilently),
{
}

/// Entering the focused directory works the same in read-only mode: it asks
/// the runner to enter it, with nothing logged.
pub proof fn law_enter_in_read_only_mode(s: App, key: Option<crate::input::Key>, r: Result<Step, AppError>)
    requires
        s.config.general.read_only,
        handle_external_done(s, ExternalMsg::Enter, key, r),
    ensures
        enter_done(s, r),
{
}

// ---------------------------------------------------------------------------
// Filters that ignore case

/// The filter that an `I` filter is, with case taken into account.
pub open spec fn case_sensitive_of(f: NodeFilter) -> Option<NodeFilter> {
    match f {
        NodeFilter::IRelativePathIs => Some(NodeFilter::RelativePathIs),
        NodeFilter::IRelativePathIsNot => Some(NodeFilter::RelativePathIsNot),
        NodeFilter::IRelativePathDoesStartWith => Some(NodeFilter::RelativePathDoesStartWith),
        NodeFilter::IRelativePathDoesNotStartWith => Some(NodeFilter::RelativePathDoesNotStartWith),
        NodeFilter::IRelativePathDoesContain => Some(NodeFilter::RelativePathDoesContain),
        NodeFilter::IRelativePathDoesNotContain => Some(NodeFilter::RelativePathDoesNotContain),
        NodeFilter::IRelativePathDoesEndWith => Some(NodeFilter::RelativePathDoesEndWith),
        NodeFilter::IRelativePathDoesNotEndWith => Some(NodeFilter::RelativePathDoesNotEndWith),
        NodeFilter::IRelativePathDoesMatchRegex => Some(NodeFilter::RelativePathDoesMatchRegex),
        NodeFilter::IRelativePathDoesNotMatchRegex => Some(NodeFilter::RelativePathDoesNotMatchRegex),
        NodeFilter::IAbsolutePathIs => Some(NodeFilter::AbsolutePathIs),
        NodeFilter::IAbsolutePathIsNot => Some(NodeFilter::AbsolutePathIsNot),
        NodeFilter::IAbsolutePathDoesStartWith => Some(NodeFilter::AbsolutePathDoesStartWith),
        NodeFilter::IAbsolutePathDoesNotStartWith => Some(NodeFilter::AbsolutePathDoesNotStartWith),
        NodeFilter::IAbsolutePathDoesContain => Some(NodeFilter::AbsolutePathDoesContain),
        NodeFilter::IAbsolutePathDoesNotContain => Some(NodeFilter::AbsolutePathDoesNotContain),
        NodeFilter::IAbsolutePathDoesEndWith => Some(NodeFilter::AbsolutePathDoesEndWith),
        NodeFilter::IAbsolutePathDoesNotEndWith => Some(NodeFilter::AbsolutePathDoesNotEndWith),
        NodeFilter::IAbsolutePathDoesMatchRegex => Some(NodeFilter::AbsolutePathDoesMatchRegex),
        NodeFilter::IAbsolutePathDoesNotMatchRegex => Some(NodeFilter::AbsolutePathDoesNotMatchRegex),
        _ => None,
    }
}

/// The node with both of its paths lowercased.
pub open spec fn lowercased_node(n: NodeView) -> NodeView {
    NodeView { relative_path: lowercased(n.relative_path), absolute_path: lowercased(n.absolute_path), ..n }
}

/// A filter whose name starts with `I` decides as the same filter with case
/// taken into account does on the lowercased paths and the lowercased input.
pub proof fn law_i_filters_ignore_case(f: NodeFilterApplicableView, n: NodeView, g: NodeFilter)
    requires
        case_sensitive_of(f.filter) == Some(g),
    ensures
        passes(f, n) == passes(NodeFilterApplicableView { filter: g, input: lowercased(f.input) }, lowercased_node(n)),
{
}

/// A filter whose name starts with `I` gives the same answer for texts that
/// differ only in case: when the paths and the inputs lowercase alike, the
/// node passes one exactly when it passes the other.
pub proof fn law_i_filters_blind_to_case(f: NodeFilterApplicableView, n: NodeView, f2: NodeFilterApplicableView, n2: NodeView)
    requires
        case_sensitive_of(f.filter) is Some,
        f2.filter == f.filter,
        lowercased(f2.input) == lowercased(f.input),
        lowercased(n2.relative_path) == lowercased(n.relative_path),
        lowercased(n2.absolute_path) == lowercased(n.absolute_path),
    ensures
        passes(f, n) == passes(f2, n2),
{
    let g = case_sensitive_of(f.filter)->0;
    law_i_filters_ignore_case(f, n, g);
    law_i_filters_ignore_case(f2, n2, g);
    assert(lowercased_node(n).relative_path == lowercased_node(n2).relative_path);
}

// ---------------------------------------------------------------------------
// Selecting the whole listing

/// Toggling the selection of the whole listing when some node of it is not
/// selected leaves every node of the listing selected, and keeps selected
/// what was selected before.
pub proof fn law_toggle_all_selects_when_some_missing(s: App, a: App)
    requires
        s.directory_buffer is Some,
        exists|i: int| 0 <= i < s.directory_buffer->0.nodes.len()
            && !selected(s).contains(#[trigger] s.directory_buffer->0.nodes@[i]@),
        toggle_select_all_done(s, Ok::<App, AppError>(a)),
    ensures
        forall|i: int| 0 <= i < s.directory_buffer->0.nodes.len()
            ==> selected(a).contains(#[trigger] s.directory_buffer->0.nodes@[i]@),
        forall|i: int| 0 <= i < selected(s).len() ==> selected(a).contains(#[trigger] selected(s)[i]),
{
    let d = s.directory_buffer->0;
    let vs = nodes_view(d.nodes@);
    let xs = selected(s);
    lemma_insert_all_contains(xs, vs);
    assert forall|i: int| 0 <= i < d.nodes.len() implies selected(a).contains(#[trigger] d.nodes@[i]@) by {
        assert(vs[i] == d.nodes@[i]@);
    }
}

/// Toggling the selection of the whole listing when every node of it is
/// selected leaves none of them selected, and keeps the rest of the
/// selection in order.
pub proof fn law_toggle_all_unselects_when_all_selected(s: App, a: App)
    requires
        s.directory_buffer is Some,
        forall|i: int| 0 <= i < s.directory_buffer->0.nodes.len()
            ==> selected(s).contains(#[trigger] s.directory_buffer->0.nodes@[i]@),
        toggle_select_all_done(s, Ok::<App, AppError>(a)),
    ensures
        forall|i: int| 0 <= i < s.directory_buffer->0.nodes.len()
            ==> !selected(a).contains(#[trigger] s.directory_buffer->0.nodes@[i]@),
        selected(a) == selected(s).filter(|x: NodeView| !nodes_view(s.directory_buffer->0.nodes@).contains(x)),
{
    broadcast use vstd::seq_lib::group_filter_ensures;
    let d = s.directory_buffer->0;
    let vs = nodes_view(d.nodes@);
    let xs = selected(s);
    lemma_remove_all_filters(xs, vs);
    assert forall|i: int| 0 <= i < d.nodes.len() implies !selected(a).contains(#[trigger] d.nodes@[i]@) by {
        assert(vs[i] == d.nodes@[i]@);
        if selected(a).contains(d.nodes@[i]@) {
            let j = choose|j: int| 0 <= j < selected(a).len() && selected(a)[j] == d.nodes@[i]@;
            assert(vs.contains(vs[i]));
        }
    }
}

/// After inserting each of `vs`, every item before and every one of `vs` is
/// there.
proof fn lemma_insert_all_contains<A>(xs: Seq<A>, vs: Seq<A>)
    ensures
        forall|i: int| 0 <= i < vs.len() ==> crate::app::set_insert_all(xs, vs).contains(#[trigger] vs[i]),
        forall|i: int| 0 <= i < xs.len() ==> crate::app::set_insert_all(xs, vs).contains(#[trigger] xs[i]),
    decreases vs.len(),
{
    if vs.len() > 0 {
        let d = vs.drop_last();
        lemma_insert_all_contains(xs, d);
        let before = crate::app::set_insert_all(xs, d);
        let after = crate::app::set_insert_all(xs, vs);
        assert(after == crate::app::set_insert(before, vs.last()));
        assert forall|y: A| before.contains(y) implies after.contains(y) by {
            if !before.contains(vs.last()) {
                let j = choose|j: int| 0 <= j < before.len() && before[j] == y;
                assert(before.push(vs.last())[j] == y);
            }
        }
        assert forall|i: int| 0 <= i < vs.len() implies after.contains(#[trigger] vs[i]) by {
            if i < vs.len() - 1 {
                assert(d[i] == vs[i]);
                assert(before.contains(d[i]));
            } else if !before.contains(vs.last()) {
                assert(before.push(vs.last())[before.len() as int] == vs.last());
            }
        }
        assert forall|i: int| 0 <= i < xs.len() implies after.contains(#[trigger] xs[i]) by {
            assert(before.contains(xs[i]));
        }
    }
}

// ---------------------------------------------------------------------------
// Selecting and unselecting, adding and removing filters and sorters

/// An inserted item is there afterwards, and so is every item before.
proof fn lemma_set_insert_contains<A>(xs: Seq<A>, v: A)
    ensures
        set_insert(xs, v).contains(v),
        forall|i: int| 0 <= i < xs.len() ==> set_insert(xs, v).contains(#[trigger] xs[i]),
{
    if !xs.contains(v) {
        assert(xs.push(v)[xs.len() as int] == v);
        assert forall|i: int| 0 <= i < xs.len() implies set_insert(xs, v).contains(#[trigger] xs[i]) by {
            assert(xs.push(v)[i] == xs[i]);
        }
    }
}

/// Filtering out the items equal to `v` drops `v` and keeps every other item.
proof fn lemma_filter_out<A>(xs: Seq<A>, v: A)
    ensures
        !xs.filter(|x: A| x != v).contains(v),
        forall|i: int| 0 <= i < xs.len() && xs[i] != v ==> xs.filter(|x: A| x != v).contains(#[trigger] xs[i]),
{
    broadcast use vstd::seq_lib::group_filter_ensures;
    let p = |x: A| x != v;
    if xs.filter(p).contains(v) {
        let j = choose|j: int| 0 <= j < xs.filter(p).len() && xs.filter(p)[j] == v;
        assert(p(xs.filter(p)[j]));
    }
}

/// Selecting the focused node leaves it selected and keeps every node that
/// was selected; nothing else changes.
pub proof fn law_select_keeps_and_adds(s: App, a: App)
    requires
        focused(s) is Some,
        select_done(s, Ok::<App, AppError>(a)),
    ensures
        selected(a).contains(focused(s)->0@),
        forall|i: int| 0 <= i < selected(s).len() ==> selected(a).contains(#[trigger] selected(s)[i]),
        a == (App { selection: a.selection, ..s }),
{
    lemma_set_insert_contains(selected(s), focused(s)->0@);
}

/// Unselecting the focused node leaves it unselected and keeps every other
/// selected node; nothing else changes.
pub proof fn law_un_select_drops_only_focused(s: App, a: App)
    requires
        focused(s) is Some,
        un_select_done(s, Ok::<App, AppError>(a)),
    ensures
        !selected(a).contains(focused(s)->0@),
        forall|i: int| 0 <= i < selected(s).len() && selected(s)[i] != focused(s)->0@
            ==> selected(a).contains(#[trigger] selected(s)[i]),
        a == (App { selection: a.selection, ..s }),
{
    lemma_filter_out(selected(s), focused(s)->0@);
}

/// Selecting every node of the listing leaves each of them selected and keeps
/// what was selected before.
pub proof fn law_select_all_covers_listing(s: App, a: App)
    requires
        s.directory_buffer is Some,
        select_all_done(s, Ok::<App, AppError>(a)),
    ensures
        forall|i: int| 0 <= i < s.directory_buffer->0.nodes.len()
            ==> selected(a).contains(#[trigger] s.directory_buffer->0.nodes@[i]@),
        forall|i: int| 0 <= i < selected(s).len() ==> selected(a).contains(#[trigger] selected(s)[i]),
{
    let d = s.directory_buffer->0;
    let vs = nodes_view(d.nodes@);
    lemma_insert_all_contains(selected(s), vs);
    assert forall|i: int| 0 <= i < d.nodes.len() implies selected(a).contains(#[trigger] d.nodes@[i]@) by {
        assert(vs[i] == d.nodes@[i]@);
    }
}

/// Unselecting every node of the listing leaves none of them selected and
/// keeps every other selected node.
pub proof fn law_un_select_all_clears_listing(s: App, a: App)
    requires
        s.directory_buffer is Some,
        un_select_all_done(s, Ok::<App, AppError>(a)),
    ensures
        forall|i: int| 0 <= i < s.directory_buffer->0.nodes.len()
            ==> !selected(a).contains(#[trigger] s.directory_buffer->0.nodes@[i]@),
        forall|i: int| 0 <= i < selected(s).len() && !nodes_view(s.directory_buffer->0.nodes@).contains(selected(s)[i])
            ==> selected(a).contains(#[trigger] selected(s)[i]),
{
    broadcast use vstd::seq_lib::group_filter_ensures;
    let d = s.directory_buffer->0;
    let vs = nodes_view(d.nodes@);
    let xs = selected(s);
    let p = |x: NodeView| !vs.contains(x);
    lemma_remove_all_filters(xs, vs);
    assert forall|i: int| 0 <= i < d.nodes.len() implies !selected(a).contains(#[trigger] d.nodes@[i]@) by {
        assert(vs[i] == d.nodes@[i]@);
        if selected(a).contains(d.nodes@[i]@) {
            let j = choose|j: int| 0 <= j < xs.filter(p).len() && xs.filter(p)[j] == d.nodes@[i]@;
            assert(p(xs.filter(p)[j]));
            assert(vs.contains(vs[i]));
        }
    }
    assert forall|i: int| 0 <= i < xs.len() && !vs.contains(xs[i]) implies selected(a).contains(#[trigger] xs[i]) by {
        assert(p(xs[i]));
    }
}

/// Adding a filter leaves it among the filters and keeps the others; only
/// the filters change.
pub proof fn law_add_filter(s: App, f: NodeFilterApplicable, a: App)
    requires
        add_node_filter_done(s, f, Ok::<App, AppError>(a)),
    ensures
        filters(a).contains(f@),
        forall|i: int| 0 <= i < filters(s).len() ==> filters(a).contains(#[trigger] filters(s)[i]),
        a.explorer_config.sorters == s.explorer_config.sorters,
        a.selection == s.selection,
{
    lemma_set_insert_contains(filters(s), f@);
}

/// Removing a filter leaves it out and keeps every other filter.
pub proof fn law_remove_filter(s: App, f: NodeFilterApplicable, a: App)
    requires
        remove_node_filter_done(s, f, Ok::<App, AppError>(a)),
    ensures
        !filters(a).contains(f@),
        forall|i: int| 0 <= i < filters(s).len() && filters(s)[i] != f@ ==> filters(a).contains(#[trigger] filters(s)[i]),
{
    lemma_filter_out(filters(s), f@);
}

/// Toggling a filter flips whether it is among the filters.
pub proof fn law_toggle_filter(s: App, f: NodeFilterApplicable, a: App)
    requires
        toggle_node_filter_done(s, f, Ok::<App, AppError>(a)),
    ensures
        filters(a).contains(f@) == !filters(s).contains(f@),
{
    lemma_set_insert_contains(filters(s), f@);
    lemma_filter_out(filters(s), f@);
}

/// Adding a sorter leaves it among the sorters and keeps the others.
pub proof fn law_add_sorter(s: App, x: NodeSorterApplicable, a: App)
    requires
        add_node_sorter_done(s, x, Ok::<App, AppError>(a)),
    ensures
        sorters(a).contains(x),
        forall|i: int| 0 <= i < sorters(s).len() ==> sorters(a).contains(#[trigger] sorters(s)[i]),
        a.explorer_config.filters == s.explorer_config.filters,
{
    lemma_set_insert_contains(sorters(s), x);
}

/// Removing a sort key leaves no sorter by it (in either direction) and
/// keeps every sorter by another key.
pub proof fn law_remove_sorter(s: App, k: NodeSorter, a: App)
    requires
        remove_node_sorter_done(s, k, Ok::<App, AppError>(a)),
    ensures
        forall|i: int| 0 <= i < sorters(a).len() ==> (#[trigger] sorters(a)[i]).sorter != k,
        forall|i: int| 0 <= i < sorters(s).len() && sorters(s)[i].sorter != k ==> sorters(a).contains(#[trigger] sorters(s)[i]),
{
    broadcast use vstd::seq_lib::group_filter_ensures;
    let p = |x: NodeSorterApplicable| x.sorter != k;
    assert forall|i: int| 0 <= i < sorters(a).len() implies (#[trigger] sorters(a)[i]).sorter != k by {
        assert(p(sorters(s).filter(p)[i]));
    }
    assert forall|i: int| 0 <= i < sorters(s).len() && sorters(s)[i].sorter != k implies sorters(a).contains(#[trigger] sorters(s)[i]) by {
        assert(p(sorters(s)[i]));
    }
}

// ---------------------------------------------------------------------------
// Focusing by name, logging, typing

/// Focusing a file by name moves the focus to the first node with that name
/// and keeps the listing.
pub proof fn law_focus_by_file_name_finds_first(s: App, name: Seq<char>, save_history: bool, j: int, a: App)
    requires
        s.directory_buffer is Some,
        0 <= j < s.directory_buffer->0.nodes.len(),
        s.directory_buffer->0.nodes@[j].relative_path@ == name,
        forall|k: int| 0 <= k < j ==> (#[trigger] s.directory_buffer->0.nodes@[k]).relative_path@ != name,
        focus_by_file_name_done(s, name, save_history, Ok::<App, AppError>(a)),
    ensures
        a.directory_buffer is Some,
        a.directory_buffer->0.focus == j,
        a.directory_buffer->0.nodes == s.directory_buffer->0.nodes,
        a.logs == s.logs,
{
    let nodes = s.directory_buffer->0.nodes@;
    let c = choose|i: int| 0 <= i < nodes.len() && nodes[i].relative_path@ == name
        && forall|k: int| 0 <= k < i ==> nodes[k].relative_path@ != name;
    assert(c == j) by {
        if c < j {
            assert(nodes[c].relative_path@ != name);
        } else if c > j {
            assert(nodes[j].relative_path@ != name);
        }
    }
}

/// Focusing a file by a name no node has keeps the focus and logs the error
/// "<name> not found in $PWD".
pub proof fn law_focus_by_missing_file_name(s: App, name: Seq<char>, save_history: bool, a: App)
    requires
        s.directory_buffer is Some,
        forall|k: int| 0 <= k < s.directory_buffer->0.nodes.len()
            ==> (#[trigger] s.directory_buffer->0.nodes@[k]).relative_path@ != name,
        focus_by_file_name_done(s, name, save_history, Ok::<App, AppError>(a)),
    ensures
        a.directory_buffer == s.directory_buffer,
        a.logs@.len() == s.logs@.len() + 1,
        a.logs@.last().level == LogLevel::Error,
        a.logs@.last().message@ == name + " not found in $PWD"@,
        !a.logs_hidden,
{
}

/// Logging adds one entry at the end, with the level and message given, and
/// shows the logs; nothing else changes.
pub proof fn law_log_appends(s: App, level: LogLevel, message: Seq<char>, a: App)
    requires
        log_done(s, level, message, Ok::<App, AppError>(a)),
    ensures
        a.logs@.len() == s.logs@.len() + 1,
        forall|i: int| 0 <= i < s.logs@.len() ==> a.logs@[i] == #[trigger] s.logs@[i],
        a.logs@[s.logs@.len() as int].level == level,
        a.logs@[s.logs@.len() as int].message@ == message,
        !a.logs_hidden,
        a.selection == s.selection && a.directory_buffer == s.directory_buffer && a.mode == s.mode,
{
    assert forall|i: int| 0 <= i < s.logs@.len() implies a.logs@[i] == #[trigger] s.logs@[i] by {
        assert(a.logs@.drop_last()[i] == a.logs@[i]);
    }
}

/// Typing text appends it to the input buffer (an empty buffer when there
/// was none) and puts the cursor at the end.
pub proof fn law_buffer_input_appends(s: App, text: Seq<char>, a: App)
    requires
        buffer_input_done(s, text, Ok::<App, AppError>(a)),
    ensures
        a.input is Some,
        a.input->0.value@ == (match s.input {
            Some(b) => b.value@,
            None => Seq::<char>::empty(),
        }) + text,
        a.input->0.cursor == a.input->0.value@.len(),
{
    if s.input is None {
        assert(Seq::<char>::empty() + text =~= text);
    }
}

} // verus!

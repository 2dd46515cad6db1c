use vstd::prelude::*;
use std::collections::VecDeque;
use indexmap::IndexSet;
use crate::config::{BuiltinModesConfig, copy_msgs, msgs_view, find_entry, first_with_key, Action, KeyBindings, mode_sanitized, opt_text, Config, Layout, Mode, ModeView};
use crate::history::{History, HistoryView, spec_peek, spec_push, spec_visit_last, spec_visit_next};
use crate::input::{input_handled, InputBuffer, Key, KeyKind};
use crate::log::{log_line, timestamp_display, Log, LogLevel};
use crate::msg::{ExternalMsg, ExternalMsgView, InternalMsg, MsgIn, InputOperation, Command, CommandView, MsgOut, NodeFilter, NodeFilterApplicable, NodeFilterApplicableView, NodeSorter, NodeSorterApplicable, Task};
use crate::node::{DirectoryBuffer, Node, NodeView};
use crate::sets::{filter_set_clone, node_set_clone, filter_set_new, node_set_new, node_set_is_empty, filter_set_clear, filter_set_contains, filter_set_insert, filter_set_items, filter_set_pop, filter_set_replace, filter_set_retain, first_occurrences, sorter_set_clear, sorter_set_clone, sorter_set_contains, sorter_set_from_vec, sorter_set_into_vec, sorter_set_items, sorter_set_new, sorter_set_pop, sorter_set_replace, sorter_set_retain, node_keep_holds, node_set_clear, node_set_contains, node_set_get, node_set_insert, node_set_items, node_set_len, node_set_retain, NodeKeep};
use crate::text::{char_count, char_text, chars_of, join_strings, joined, strings_view};
use crate::help::{help_lines_view, help_section, section_text, HelpLineView, HelpMenuLine};
use crate::help_menu::mode_help_menu;
use crate::paths::{ends_with_char, strip_suffix_char, file_name, is_relative, join, parent, parse_usize, parsed_usize, path_eq, path_file_name, path_is_relative, path_joined, path_parent, same_path};

verus! {

/// The filters and sorters applied when listing a directory.
#[derive(Debug)]
pub struct ExplorerConfig {
    pub filters: IndexSet<NodeFilterApplicable>,
    pub sorters: IndexSet<NodeSorterApplicable>,
}

/// The files through which scripts talk to the explorer.
#[derive(Debug, Clone, PartialEq, Eq)]
pub struct Pipe {
    pub path: String,
    pub msg_in: String,
    pub selection_out: String,
    pub result_out: String,
    pub directory_nodes_out: String,
    pub global_help_menu_out: String,
    pub logs_out: String,
    pub history_out: String,
}

/// Why handling a message stopped.
#[derive(Debug, Clone, PartialEq, Eq)]
pub struct AppError {
    pub message: String,
}

/// What Lua functions get to see of the state: everything they read.
pub struct LuaContextHeavy {
    pub version: String,
    pub pwd: String,
    pub focused_node: Option<Node>,
    pub directory_buffer: Option<DirectoryBuffer>,
    pub selection: IndexSet<Node>,
    pub mode: Mode,
    pub layout: Layout,
    pub input_buffer: Option<String>,
    pub pid: u32,
    pub session_path: String,
    pub explorer_config: ExplorerConfig,
    pub history: History,
    pub last_modes: Vec<Mode>,
}

/// What Lua functions get to see of the state when they run often: no
/// listing, history or mode stack.
pub struct LuaContextLight {
    pub version: String,
    pub pwd: String,
    pub focused_node: Option<Node>,
    pub selection: IndexSet<Node>,
    pub mode: Mode,
    pub layout: Layout,
    pub input_buffer: Option<String>,
    pub pid: u32,
    pub session_path: String,
    pub explorer_config: ExplorerConfig,
}

impl ExplorerConfig {
    /// A copy of the filters and sorters.
    pub fn copy(&self) -> (r: Self)
        ensures
            filter_set_items(r.filters) == filter_set_items(self.filters),
            sorter_set_items(r.sorters) == sorter_set_items(self.sorters),
    {
        ExplorerConfig { filters: filter_set_clone(&self.filters), sorters: sorter_set_clone(&self.sorters) }
    }
}

/// An optional node, taken by its value.
pub open spec fn opt_node(o: Option<Node>) -> Option<NodeView> {
    match o {
        Some(n) => Some(n@),
        None => None,
    }
}

/// What the shared fields of a Lua context hold: copies of the state's.
pub open spec fn lua_fields_copied(
    s: App,
    version: String,
    pwd: String,
    focused_node: Option<Node>,
    selection: IndexSet<Node>,
    mode: Mode,
    layout: Layout,
    input_buffer: Option<String>,
    pid: u32,
    session_path: String,
    explorer_config: ExplorerConfig,
) -> bool {
    &&& version@ == s.version@
    &&& pwd@ == s.pwd@
    &&& opt_node(focused_node) == match focused(s) {
        Some(n) => Some(n@),
        None => None,
    }
    &&& node_set_items(selection) == selected(s)
    &&& mode@ == s.mode@
    &&& layout == s.layout
    &&& opt_text(input_buffer) == typed(s)
    &&& pid == s.pid
    &&& session_path@ == s.session_path@
    &&& filter_set_items(explorer_config.filters) == filters(s)
    &&& sorter_set_items(explorer_config.sorters) == sorters(s)
}

/// The state of the explorer.
pub struct App {
    pub version: String,
    pub config: Config,
    pub pwd: String,
    pub directory_buffer: Option<DirectoryBuffer>,
    pub last_focus: Vec<(String, Option<String>)>,
    pub selection: IndexSet<Node>,
    pub msg_out: VecDeque<MsgOut>,
    pub mode: Mode,
    pub layout: Layout,
    pub input: Option<InputBuffer>,
    pub pid: u32,
    pub session_path: String,
    pub pipe: Pipe,
    pub explorer_config: ExplorerConfig,
    pub logs: Vec<Log>,
    pub logs_hidden: bool,
    pub history: History,
    pub last_modes: Vec<Mode>,
}

/// The last index of a listing of `total` nodes (0 when it is empty).
pub open spec fn last_index(total: usize) -> usize {
    if total >= 1 {
        (total - 1) as usize
    } else {
        0
    }
}

/// The absolute path of the node under the focus, if any.
pub open spec fn focused_path(d: DirectoryBuffer) -> Option<Seq<char>> {
    if d.focus < d.nodes.len() {
        Some(d.nodes[d.focus as int].absolute_path@)
    } else {
        None
    }
}

/// The listing with the focus moved to `f`.
pub open spec fn with_focus(d: DirectoryBuffer, f: usize) -> DirectoryBuffer {
    DirectoryBuffer { focus: f, ..d }
}

/// The history after visiting `p`, if there is a path to visit.
pub open spec fn push_opt(h: HistoryView, p: Option<Seq<char>>) -> HistoryView {
    match p {
        Some(x) => spec_push(h, x),
        None => h,
    }
}

/// The history after a focus move from `d` to focus `f` that records both ends:
/// the node left (if any) is visited, then the node reached; when no node is
/// reached, the history stays as it was.
pub open spec fn history_after_move(h: HistoryView, d: DirectoryBuffer, f: usize) -> HistoryView {
    match focused_path(with_focus(d, f)) {
        Some(p) => spec_push(push_opt(h, focused_path(d)), p),
        None => h,
    }
}

/// The focus after moving one node up.
pub open spec fn previous_focus(d: DirectoryBuffer, bounded: bool) -> usize {
    if d.focus == 0 {
        if bounded {
            d.focus
        } else {
            last_index(d.total)
        }
    } else {
        (d.focus - 1) as usize
    }
}

/// The focus after moving one node down.
pub open spec fn next_focus(d: DirectoryBuffer, bounded: bool) -> usize {
    if d.focus + 1 == d.total {
        if bounded {
            d.focus
        } else {
            0
        }
    } else {
        (d.focus + 1) as usize
    }
}

/// The logs after one more entry of `level` with `message`.
pub open spec fn logged(before: Seq<Log>, after: Seq<Log>, level: LogLevel, message: Seq<char>) -> bool {
    &&& after.len() == before.len() + 1
    &&& after.drop_last() == before
    &&& after.last().level == level
    &&& after.last().message@ == message
}

/// A log entry of `level` with `message` was added and the logs are shown.
pub open spec fn log_done(s: App, level: LogLevel, message: Seq<char>, r: Result<App, AppError>) -> bool {
    r matches Ok(a) && a == (App { logs: a.logs, logs_hidden: false, ..s }) && logged(s.logs@, a.logs@, level, message)
}

/// The result of a move of the focus to `f` that records the node reached,
/// and first the node left when `both` holds.
pub open spec fn moved_focus(s: App, d: DirectoryBuffer, f: usize, both: bool, r: Result<App, AppError>) -> bool {
    r matches Ok(a)
        && a == (App { directory_buffer: Some(with_focus(d, f)), history: a.history, ..s })
        && a.history@ == if both {
            history_after_move(s.history@, d, f)
        } else {
            push_opt(s.history@, focused_path(with_focus(d, f)))
        }
}

/// [`App::focus_first`] was applied.
pub open spec fn focus_first_done(s: App, save_history: bool, r: Result<App, AppError>) -> bool {
    match s.directory_buffer {
        None => r == Ok::<App, AppError>(s),
        Some(d) => if save_history {
            moved_focus(s, d, 0, true, r)
        } else {
            r matches Ok(a) && a == (App { directory_buffer: Some(with_focus(d, 0)), history: a.history, ..s })
                && a.history@ == s.history@
        },
    }
}

/// [`App::focus_last`] was applied.
pub open spec fn focus_last_done(s: App, r: Result<App, AppError>) -> bool {
    match s.directory_buffer {
        None => r == Ok::<App, AppError>(s),
        Some(d) => moved_focus(s, d, last_index(d.total), true, r),
    }
}

/// [`App::focus_previous`] was applied.
pub open spec fn focus_previous_done(s: App, r: Result<App, AppError>) -> bool {
    match s.directory_buffer {
        None => r == Ok::<App, AppError>(s),
        Some(d) => r == Ok::<App, AppError>(App {
            directory_buffer: Some(with_focus(d, previous_focus(d, s.config.general.enforce_bounded_index_navigation))),
            ..s
        }),
    }
}

/// [`App::focus_next`] was applied.
pub open spec fn focus_next_done(s: App, r: Result<App, AppError>) -> bool {
    match s.directory_buffer {
        None => r == Ok::<App, AppError>(s),
        Some(d) => r == Ok::<App, AppError>(App {
            directory_buffer: Some(with_focus(d, next_focus(d, s.config.general.enforce_bounded_index_navigation))),
            ..s
        }),
    }
}

/// The focus after moving `index` nodes up.
pub open spec fn back_by(d: DirectoryBuffer, index: usize) -> usize {
    (if d.focus >= index { d.focus - index } else { 0 }) as usize
}

/// The focus after moving `index` nodes down.
pub open spec fn forward_by(d: DirectoryBuffer, index: usize) -> usize {
    (if d.focus + index <= last_index(d.total) { d.focus + index } else { last_index(d.total) as int }) as usize
}

/// The focus after moving to `index`.
pub open spec fn clamped_index(d: DirectoryBuffer, index: usize) -> usize {
    if index <= last_index(d.total) { index } else { last_index(d.total) }
}

/// [`App::focus_previous_by_relative_index`] was applied.
pub open spec fn focus_previous_by_relative_index_done(s: App, index: usize, r: Result<App, AppError>) -> bool {
    match s.directory_buffer {
        None => r == Ok::<App, AppError>(s),
        Some(d) => moved_focus(s, d, back_by(d, index), true, r),
    }
}

/// [`App::focus_next_by_relative_index`] was applied.
pub open spec fn focus_next_by_relative_index_done(s: App, index: usize, r: Result<App, AppError>) -> bool {
    match s.directory_buffer {
        None => r == Ok::<App, AppError>(s),
        Some(d) => moved_focus(s, d, forward_by(d, index), true, r),
    }
}

/// [`App::focus_by_index`] was applied.
pub open spec fn focus_by_index_done(s: App, index: usize, r: Result<App, AppError>) -> bool {
    match s.directory_buffer {
        None => r == Ok::<App, AppError>(s),
        Some(d) => moved_focus(s, d, clamped_index(d, index), false, r),
    }
}

/// The number typed in the input buffer, if it holds one.
pub open spec fn typed_index(s: App) -> Option<usize> {
    match s.input {
        Some(i) => parsed_usize(i.value@),
        None => None,
    }
}

/// An entry of the last-focus table, taken by its texts.
pub open spec fn focus_entry_view(e: (String, Option<String>)) -> (Seq<char>, Option<Seq<char>>) {
    (e.0@, opt_text(e.1))
}

/// The last-focus table, taken by its texts.
pub open spec fn focus_table(es: Seq<(String, Option<String>)>) -> Seq<(Seq<char>, Option<Seq<char>>)> {
    es.map_values(|e: (String, Option<String>)| focus_entry_view(e))
}

/// The position of the first entry for directory `k`, if any.
pub open spec fn first_key_index<V>(es: Seq<(Seq<char>, V)>, k: Seq<char>) -> Option<int> {
    if exists|i: int| 0 <= i < es.len() && es[i].0 == k {
        Some(choose|i: int| 0 <= i < es.len() && es[i].0 == k && forall|j: int| 0 <= j < i ==> es[j].0 != k)
    } else {
        None
    }
}

/// The value of the first entry for `k`, if any.
pub open spec fn table_get<V>(es: Seq<(Seq<char>, V)>, k: Seq<char>) -> Option<V> {
    match first_key_index(es, k) {
        Some(i) => Some(es[i].1),
        None => None,
    }
}

/// The table after setting the entry for `k` to `v`: the first entry for `k`
/// is overwritten, or a new entry is appended.
pub open spec fn table_insert<V>(es: Seq<(Seq<char>, V)>, k: Seq<char>, v: V) -> Seq<(Seq<char>, V)> {
    match first_key_index(es, k) {
        Some(i) => es.update(i, (k, v)),
        None => es.push((k, v)),
    }
}

/// [`App::add_last_focus`] was applied.
pub open spec fn add_last_focus_done(s: App, parent: Seq<char>, focus: Option<Seq<char>>, r: Result<App, AppError>) -> bool {
    r matches Ok(a) && a == (App { last_focus: a.last_focus, ..s })
        && focus_table(a.last_focus@) == table_insert(focus_table(s.last_focus@), parent, focus)
}

/// The relative path of the node under the focus of `d`, if any.
pub open spec fn focused_name(d: DirectoryBuffer) -> Option<Seq<char>> {
    if d.focus < d.nodes.len() {
        Some(d.nodes[d.focus as int].relative_path@)
    } else {
        None
    }
}

/// [`App::set_directory`] was applied: the focus in `dir` is remembered for its
/// directory, and `dir` becomes the listing when it lists the working directory.
pub open spec fn set_directory_done(s: App, dir: DirectoryBuffer, r: Result<App, AppError>) -> bool {
    r matches Ok(a)
        && focus_table(a.last_focus@) == table_insert(focus_table(s.last_focus@), dir.parent@, focused_name(dir))
        && if dir.parent@ == s.pwd@ {
            a == (App { last_focus: a.last_focus, directory_buffer: Some(dir), ..s })
        } else {
            a == (App { last_focus: a.last_focus, ..s })
        }
}

/// [`App::focus_by_file_name`] was applied.
pub open spec fn focus_by_file_name_done(s: App, name: Seq<char>, save_history: bool, r: Result<App, AppError>) -> bool {
    match s.directory_buffer {
        None => r == Ok::<App, AppError>(s),
        Some(d) => match index_of_name(d.nodes@, name) {
            Some(i) => if save_history {
                moved_focus(s, d, i as usize, true, r)
            } else {
                r == Ok::<App, AppError>(App { directory_buffer: Some(with_focus(d, i as usize)), ..s })
            },
            None => log_done(s, LogLevel::Error, name + " not found in $PWD"@, r),
        },
    }
}

/// The runner is asked for `out`.
pub open spec fn sent_done(s: App, out: MsgOut, r: Result<App, AppError>) -> bool {
    r matches Ok(a) && a == (App { msg_out: a.msg_out, ..s }) && a.msg_out@ == s.msg_out@.push(out)
}

/// The logs are hidden and the runner is asked for `out`.
pub open spec fn sent_hiding_logs_done(s: App, out: MsgOut, r: Result<App, AppError>) -> bool {
    r matches Ok(a) && a == (App { msg_out: a.msg_out, logs_hidden: true, ..s }) && a.msg_out@ == s.msg_out@.push(out)
}

/// The runner is asked to run a command that hides the logs, with a copy of
/// `cmd` and with or without output.
pub open spec fn called_done(s: App, cmd: CommandView, silently: bool, r: Result<App, AppError>) -> bool {
    r matches Ok(a) && a == (App { msg_out: a.msg_out, logs_hidden: true, ..s })
        && a.msg_out@.len() == s.msg_out@.len() + 1
        && a.msg_out@.drop_last() == s.msg_out@
        && if silently {
            a.msg_out@.last() matches MsgOut::CallSilently(c) && c@ == cmd
        } else {
            a.msg_out@.last() matches MsgOut::Call(c) && c@ == cmd
        }
}

/// The command that runs `script` with `bash -c`.
pub open spec fn bash_command(script: Seq<char>) -> CommandView {
    CommandView { command: "bash"@, args: seq!["-c"@, script] }
}

/// The command that runs `script` with `bash -c` (see [`bash_command`]).
fn bash(script: String) -> (r: Command)
    ensures
        r@ == bash_command(script@),
{
    let mut args: Vec<String> = Vec::new();
    args.push(String::from_str("-c"));
    args.push(script);
    let r = Command { command: String::from_str("bash"), args };
    assert(r@.args =~= seq!["-c"@, script@]);
    r
}

/// A list of modes, taken by their values.
pub open spec fn modes_view(ms: Seq<Mode>) -> Seq<ModeView> {
    ms.map_values(|m: Mode| m@)
}

/// Whether entering another mode saves the current one on the stack: unless
/// it is the recover mode or already on top of the stack.
pub open spec fn saves_mode(s: App) -> bool {
    s.mode@ != s.config.modes.builtin.recover@
        && (s.last_modes@.len() == 0 || s.last_modes@.last()@ != s.mode@)
}

/// The stack of earlier modes after the current one is saved (if it is).
pub open spec fn modes_after_push(s: App) -> Seq<ModeView> {
    if saves_mode(s) {
        modes_view(s.last_modes@).push(s.mode@)
    } else {
        modes_view(s.last_modes@)
    }
}

/// The result of switching to the mode `found` (looked up by name), keeping
/// the input buffer or clearing it; when no mode was found, an error with
/// `missing` is logged (and the input buffer still cleared unless kept).
pub open spec fn mode_switched(s: App, found: Option<Mode>, missing: Seq<char>, keep_input: bool, r: Result<App, AppError>) -> bool {
    match found {
        Some(m) => r matches Ok(a)
            && a == (App { last_modes: a.last_modes, mode: a.mode, input: a.input, ..s })
            && modes_view(a.last_modes@) == modes_after_push(s)
            && a.mode@ == mode_sanitized(m@, s.config.general.read_only)
            && a.input == if keep_input { s.input } else { None },
        None => r matches Ok(a)
            && log_done(s, LogLevel::Error, missing, Ok(App { input: s.input, ..a }))
            && a.input == if keep_input { s.input } else { None },
    }
}

/// The result of going back to the mode saved last (if any), keeping the
/// input buffer or clearing it.
pub open spec fn mode_popped(s: App, keep_input: bool, r: Result<App, AppError>) -> bool {
    let input = if keep_input { s.input } else { None };
    if s.last_modes@.len() == 0 {
        r == Ok::<App, AppError>(App { input: input, ..s })
    } else {
        r matches Ok(a) && a == (App { last_modes: a.last_modes, mode: s.last_modes@.last(), input: input, ..s })
            && a.last_modes@ == s.last_modes@.drop_last()
    }
}

/// The result of switching to the layout `found` (looked up by name); when
/// none was found, an error with `missing` is logged.
pub open spec fn layout_switched(s: App, found: Option<Layout>, missing: Seq<char>, r: Result<App, AppError>) -> bool {
    match found {
        Some(l) => r == Ok::<App, AppError>(App { layout: l, ..s }),
        None => log_done(s, LogLevel::Error, missing, r),
    }
}

/// Work that only the runner can do (it touches the file system), asked for
/// while handling a message.
pub enum Io {
    /// List the working directory: call [`App::prepare_explore_pwd`], list
    /// the directory, and pass the listing to [`App::set_directory`].
    ExplorePwd,
    /// Make `dir` the working directory of the process, and hand what came
    /// of it to [`App::directory_change_ended`].
    ChangeDirectory { dir: String, save_history: bool, focus: Option<(String, bool)> },
    /// As [`Io::ExplorePwd`], then focus the file `name` (see
    /// [`App::listed`]).
    ExplorePwdThenFocus { name: String, save_history: bool },
}

/// The state after a message, and the work the runner must still do.
pub struct Step {
    pub app: App,
    pub io: Option<Io>,
}

/// The state of a step that asks for no work.
pub open spec fn app_of(r: Result<Step, AppError>) -> Result<App, AppError> {
    match r {
        Ok(st) => Ok(st.app),
        Err(e) => Err(e),
    }
}

/// The step asks the runner for nothing.
pub open spec fn no_io(r: Result<Step, AppError>) -> bool {
    r matches Ok(st) ==> st.io is None
}

/// A step that only asks the runner to enter `dir` (then maybe focus a file).
pub open spec fn asks_change_dir(s: App, dir: Seq<char>, save_history: bool, focus: Option<(Seq<char>, bool)>, r: Result<Step, AppError>) -> bool {
    r matches Ok(st) && st.app == s && match st.io {
        Some(Io::ChangeDirectory { dir: d, save_history: sh, focus: f }) => d@ == dir && sh == save_history && match (f, focus) {
            (Some((n, b)), Some((n2, b2))) => n@ == n2 && b == b2,
            (None, None) => true,
            _ => false,
        },
        _ => false,
    }
}

/// [`App::change_directory`] was applied.
pub open spec fn change_directory_done(s: App, dir: Seq<char>, save_history: bool, r: Result<Step, AppError>) -> bool {
    asks_change_dir(s, absolute(s, dir), save_history, None, r)
}

/// [`App::explore_pwd`] was applied.
pub open spec fn explore_pwd_done(s: App, r: Result<Step, AppError>) -> bool {
    r matches Ok(st) && st.app == s && st.io matches Some(Io::ExplorePwd)
}

/// [`App::focus_path`] was applied: the runner is asked to enter the path's
/// directory and focus its file; without such parts an error is logged.
pub open spec fn focus_path_done(s: App, path: Seq<char>, save_history: bool, r: Result<Step, AppError>) -> bool {
    let p = absolute(s, path);
    match path_parent(p) {
        Some(dir) => match path_file_name(p) {
            Some(name) => asks_change_dir(s, absolute(s, dir), false, Some((name, save_history)), r),
            None => no_io(r) && log_done(s, LogLevel::Error, path + " not found"@, app_of(r)),
        },
        None => no_io(r) && log_done(s, LogLevel::Error, "Cannot focus on "@ + path, app_of(r)),
    }
}

/// [`App::enter`] was applied.
pub open spec fn enter_done(s: App, r: Result<Step, AppError>) -> bool {
    match focused(s) {
        Some(n) => change_directory_done(s, n.absolute_path@, true, r),
        None => r matches Ok(st) && st.app == s && st.io is None,
    }
}

/// [`App::back`] was applied.
pub open spec fn back_done(s: App, r: Result<Step, AppError>) -> bool {
    match path_parent(s.pwd@) {
        Some(p) => change_directory_done(s, p, true, r),
        None => r matches Ok(st) && st.app == s && st.io is None,
    }
}

/// [`App::follow_symlink`] was applied.
pub open spec fn follow_symlink_done(s: App, r: Result<Step, AppError>) -> bool {
    match focused(s) {
        Some(n) => match n.symlink {
            Some(l) => focus_path_done(s, l.absolute_path@, true, r),
            None => r matches Ok(st) && st.app == s && st.io is None,
        },
        None => r matches Ok(st) && st.app == s && st.io is None,
    }
}

/// [`App::focus_path_from_input`] was applied.
pub open spec fn focus_path_from_input_done(s: App, r: Result<Step, AppError>) -> bool {
    match typed(s) {
        Some(t) => focus_path_done(s, t, true, r),
        None => r matches Ok(st) && st.app == s && st.io is None,
    }
}

/// The visited path the cursor moved to, handled: a directory (its text ends
/// with `/`) is entered, a file is focused.
pub open spec fn visited_done(s: App, h: HistoryView, r: Result<Step, AppError>) -> bool {
    r matches Ok(st) && st.app.history@ == h && {
        let s2 = App { history: st.app.history, ..s };
        match spec_peek(h) {
            Some(t) => if t.len() > 0 && t.last() == '/' {
                change_directory_done(s2, t.drop_last(), false, r)
            } else {
                focus_path_done(s2, t, false, r)
            },
            None => st.app == s2 && st.io is None,
        }
    }
}

/// [`App::directory_change_ended`] was applied: on success the directory is
/// entered and the runner is asked to list it (then to focus `focus`); on
/// failure the error is logged and `focus` is looked for in the listing at
/// hand.
pub open spec fn directory_change_ended_done(
    s: App,
    dir: Seq<char>,
    save_history: bool,
    focus: Option<(String, bool)>,
    outcome: Result<(), String>,
    r: Result<Step, AppError>,
) -> bool {
    r matches Ok(st) && match outcome {
        Ok(_) => entered_directory_done(s, dir, save_history, Ok(st.app)) && match focus {
            Some((n, b)) => st.io matches Some(Io::ExplorePwdThenFocus { name, save_history: b2 })
                && name@ == n@ && b2 == b,
            None => st.io matches Some(Io::ExplorePwd),
        },
        Err(e) => st.io is None && match focus {
            Some((n, b)) => exists|mid: App| #[trigger] log_done(s, LogLevel::Error, e@, Ok(mid))
                && focus_by_file_name_done(mid, n@, b, Ok(st.app)),
            None => log_done(s, LogLevel::Error, e@, Ok(st.app)),
        },
    }
}

/// [`App::listed`] was applied: the listing is taken in, then the file
/// `focus` names, if any, is focused.
pub open spec fn listed_done(s: App, dir: DirectoryBuffer, focus: Option<(String, bool)>, r: Result<App, AppError>) -> bool {
    match focus {
        Some((n, b)) => exists|mid: App| #[trigger] set_directory_done(s, dir, Ok(mid))
            && focus_by_file_name_done(mid, n@, b, r),
        None => set_directory_done(s, dir, r),
    }
}

/// [`App::entered_directory`] was applied.
pub open spec fn entered_directory_done(s: App, dir: Seq<char>, save_history: bool, r: Result<App, AppError>) -> bool {
    r matches Ok(a)
        && a == (App { last_focus: a.last_focus, pwd: a.pwd, history: a.history, ..s })
        && focus_table(a.last_focus@) == table_insert(
            focus_table(s.last_focus@),
            s.pwd@,
            match s.directory_buffer {
                Some(d) => focused_name(d),
                None => None,
            },
        )
        && a.pwd@ == dir
        && a.history@ == if save_history { spec_push(s.history@, dir + seq!['/']) } else { s.history@ }
}

/// What the working directory's last focus is remembered as.
pub open spec fn remembered_focus(s: App) -> Option<Seq<char>> {
    match table_get(focus_table(s.last_focus@), s.pwd@) {
        Some(f) => f,
        None => None,
    }
}

/// A list of nodes, taken by their values.
pub open spec fn nodes_view(ns: Seq<Node>) -> Seq<NodeView> {
    ns.map_values(|n: Node| n@)
}

/// The items after inserting `v` into an insertion-ordered set.
pub open spec fn set_insert<A>(items: Seq<A>, v: A) -> Seq<A> {
    if items.contains(v) {
        items
    } else {
        items.push(v)
    }
}

/// The items after inserting each of `vs` in turn.
pub open spec fn set_insert_all<A>(items: Seq<A>, vs: Seq<A>) -> Seq<A>
    decreases vs.len(),
{
    if vs.len() == 0 {
        items
    } else {
        set_insert(set_insert_all(items, vs.drop_last()), vs.last())
    }
}

/// The items after removing each of `vs` in turn.
pub open spec fn set_remove_all<A>(items: Seq<A>, vs: Seq<A>) -> Seq<A>
    decreases vs.len(),
{
    if vs.len() == 0 {
        items
    } else {
        set_remove_all(items, vs.drop_last()).filter(|x: A| x != vs.last())
    }
}

/// The selected nodes.
pub open spec fn selected(s: App) -> Seq<NodeView> {
    node_set_items(s.selection)
}

/// Only the selection changed, to `items`.
pub open spec fn selection_now(s: App, items: Seq<NodeView>, r: Result<App, AppError>) -> bool {
    r matches Ok(a) && a == (App { selection: a.selection, ..s }) && selected(a) == items
}

/// The node under the focus, if any.
pub open spec fn focused(s: App) -> Option<Node> {
    match s.directory_buffer {
        Some(d) => if d.focus < d.nodes.len() {
            Some(d.nodes@[d.focus as int])
        } else {
            None
        },
        None => None,
    }
}

/// A path made absolute against the working directory (when it is relative).
pub open spec fn absolute(s: App, path: Seq<char>) -> Seq<char> {
    if path_is_relative(path) {
        path_joined(s.pwd@, path)
    } else {
        path
    }
}

/// The node that a path names (by its parent and file name), if it has both.
pub open spec fn node_at(p: Seq<char>) -> Option<NodeView> {
    match (path_parent(p), path_file_name(p)) {
        (Some(dir), Some(name)) => Some(NodeView {
            parent: dir,
            relative_path: name,
            absolute_path: path_joined(dir, name),
            symlink: None,
        }),
        _ => None,
    }
}

/// [`App::select`] was applied.
pub open spec fn select_done(s: App, r: Result<App, AppError>) -> bool {
    match focused(s) {
        Some(n) => selection_now(s, set_insert(selected(s), n@), r),
        None => r == Ok::<App, AppError>(s),
    }
}

/// [`App::select_path`] was applied.
pub open spec fn select_path_done(s: App, path: Seq<char>, r: Result<App, AppError>) -> bool {
    match node_at(absolute(s, path)) {
        Some(n) => selection_now(s, set_insert(selected(s), n), r),
        None => r == Ok::<App, AppError>(s),
    }
}

/// [`App::select_all`] was applied.
pub open spec fn select_all_done(s: App, r: Result<App, AppError>) -> bool {
    match s.directory_buffer {
        Some(d) => selection_now(s, set_insert_all(selected(s), nodes_view(d.nodes@)), r),
        None => r == Ok::<App, AppError>(s),
    }
}

/// [`App::un_select`] was applied.
pub open spec fn un_select_done(s: App, r: Result<App, AppError>) -> bool {
    match focused(s) {
        Some(n) => selection_now(s, selected(s).filter(|x: NodeView| x != n@), r),
        None => r == Ok::<App, AppError>(s),
    }
}

/// [`App::un_select_path`] was applied.
pub open spec fn un_select_path_done(s: App, path: Seq<char>, r: Result<App, AppError>) -> bool {
    selection_now(s, selected(s).filter(|x: NodeView| !path_eq(x.absolute_path, absolute(s, path))), r)
}

/// [`App::un_select_all`] was applied.
pub open spec fn un_select_all_done(s: App, r: Result<App, AppError>) -> bool {
    match s.directory_buffer {
        Some(d) => selection_now(s, set_remove_all(selected(s), nodes_view(d.nodes@)), r),
        None => r == Ok::<App, AppError>(s),
    }
}

/// Whether some selected node has the path `p`.
pub open spec fn path_selected(s: App, p: Seq<char>) -> bool {
    exists|i: int| 0 <= i < selected(s).len() && path_eq(#[trigger] selected(s)[i].absolute_path, p)
}

/// [`App::toggle_selection_by_path`] was applied.
pub open spec fn toggle_selection_by_path_done(s: App, path: Seq<char>, r: Result<App, AppError>) -> bool {
    if path_selected(s, absolute(s, path)) {
        un_select_path_done(s, path, r)
    } else {
        select_path_done(s, path, r)
    }
}

/// [`App::toggle_selection`] was applied.
pub open spec fn toggle_selection_done(s: App, r: Result<App, AppError>) -> bool {
    match focused(s) {
        Some(n) => toggle_selection_by_path_done(s, n.absolute_path@, r),
        None => r == Ok::<App, AppError>(s),
    }
}

/// Whether every node of the listing is selected.
pub open spec fn all_selected(s: App, d: DirectoryBuffer) -> bool {
    forall|i: int| 0 <= i < d.nodes.len() ==> selected(s).contains(#[trigger] d.nodes@[i]@)
}

/// [`App::toggle_select_all`] was applied.
pub open spec fn toggle_select_all_done(s: App, r: Result<App, AppError>) -> bool {
    match s.directory_buffer {
        Some(d) => if all_selected(s, d) {
            un_select_all_done(s, r)
        } else {
            select_all_done(s, r)
        },
        None => r == Ok::<App, AppError>(s),
    }
}

/// The node filters.
pub open spec fn filters(s: App) -> Seq<NodeFilterApplicableView> {
    filter_set_items(s.explorer_config.filters)
}

/// The node sorters.
pub open spec fn sorters(s: App) -> Seq<NodeSorterApplicable> {
    sorter_set_items(s.explorer_config.sorters)
}

/// Only the filters changed, to `items`.
pub open spec fn filters_now(s: App, items: Seq<NodeFilterApplicableView>, r: Result<App, AppError>) -> bool {
    r matches Ok(a) && a == (App { explorer_config: a.explorer_config, ..s })
        && a.explorer_config.sorters == s.explorer_config.sorters && filters(a) == items
}

/// Only the sorters changed, to `items`.
pub open spec fn sorters_now(s: App, items: Seq<NodeSorterApplicable>, r: Result<App, AppError>) -> bool {
    r matches Ok(a) && a == (App { explorer_config: a.explorer_config, ..s })
        && a.explorer_config.filters == s.explorer_config.filters && sorters(a) == items
}

/// The filter that hides the nodes whose name starts with a dot.
pub open spec fn hide_dotfiles() -> NodeFilterApplicableView {
    NodeFilterApplicableView { filter: NodeFilter::RelativePathDoesNotStartWith, input: "."@ }
}

/// The filters without `f`.
pub open spec fn removing_filter(items: Seq<NodeFilterApplicableView>, f: NodeFilterApplicableView) -> Seq<NodeFilterApplicableView> {
    items.filter(|g: NodeFilterApplicableView| g != f)
}

/// The items without their last one (unchanged when empty).
pub open spec fn without_last<A>(items: Seq<A>) -> Seq<A> {
    if items.len() == 0 {
        items
    } else {
        items.drop_last()
    }
}

/// The sorters with those by `sorter` turned around.
pub open spec fn reversing(items: Seq<NodeSorterApplicable>, sorter: NodeSorter) -> Seq<NodeSorterApplicable> {
    items.map_values(|x: NodeSorterApplicable| if x.sorter == sorter {
        NodeSorterApplicable { sorter: x.sorter, reverse: !x.reverse }
    } else {
        x
    })
}

/// All sorters turned around.
pub open spec fn all_reversed(items: Seq<NodeSorterApplicable>) -> Seq<NodeSorterApplicable> {
    items.map_values(|x: NodeSorterApplicable| NodeSorterApplicable { sorter: x.sorter, reverse: !x.reverse })
}

/// The text typed in the input buffer, if any.
pub open spec fn typed(s: App) -> Option<Seq<char>> {
    match s.input {
        Some(i) => Some(i.value@),
        None => None,
    }
}

/// Only the input buffer and whether the logs are hidden may have changed.
pub open spec fn input_frame(s: App, a: App) -> bool {
    a == (App { input: a.input, logs_hidden: a.logs_hidden, ..s })
}

/// The input buffer holds `value` with the cursor at `cursor`.
pub open spec fn buffer_is(a: App, value: Seq<char>, cursor: int) -> bool {
    a.input matches Some(b) && b.value@ == value && b.cursor == cursor
}

/// [`App::update_input_buffer`] was applied.
pub open spec fn update_input_buffer_done(s: App, op: InputOperation, r: Result<App, AppError>) -> bool {
    match s.input {
        Some(b) => {
            let e = input_handled(b.value@, b.cursor, op);
            r matches Ok(a) && input_frame(s, a) && a.logs_hidden && buffer_is(a, e.0, e.1 as int)
        },
        None => {
            let e = input_handled(Seq::empty(), 0, op);
            if e.2 {
                r matches Ok(a) && input_frame(s, a) && a.logs_hidden && buffer_is(a, e.0, e.1 as int)
            } else {
                r == Ok::<App, AppError>(s)
            }
        },
    }
}

/// [`App::buffer_input`] was applied: `text` is appended to the input buffer
/// (which is created when missing) and the cursor is at its end.
pub open spec fn buffer_input_done(s: App, text: Seq<char>, r: Result<App, AppError>) -> bool {
    let v = match s.input {
        Some(b) => b.value@ + text,
        None => text,
    };
    r matches Ok(a) && input_frame(s, a) && a.logs_hidden && buffer_is(a, v, v.len() as int)
}

/// The action bound to `key`: by its name, else by its class (letter, digit,
/// special character, navigation, function key), else as a letter or digit,
/// else as a character, else the default action.
pub open spec fn key_action(kb: KeyBindings, key: Key) -> Option<Action> {
    match first_with_key(kb.on_key@, key.name@) {
        Some(a) => Some(a),
        None => {
            let class = if key.kind == KeyKind::Alphabet {
                kb.on_alphabet
            } else if key.kind == KeyKind::Number {
                kb.on_number
            } else if key.kind == KeyKind::SpecialCharacter {
                kb.on_special_character
            } else if key.kind == KeyKind::Navigation {
                kb.on_navigation
            } else if key.kind == KeyKind::Function {
                kb.on_function
            } else {
                None
            };
            match class {
                Some(a) => Some(a),
                None => {
                    let alnum = if key.kind == KeyKind::Alphabet || key.kind == KeyKind::Number {
                        kb.on_alphanumeric
                    } else {
                        None
                    };
                    match alnum {
                        Some(a) => Some(a),
                        None => {
                            let chr = if key.character is Some {
                                kb.on_character
                            } else {
                                None
                            };
                            match chr {
                                Some(a) => Some(a),
                                None => kb.default,
                            }
                        },
                    }
                },
            }
        },
    }
}

/// The messages a key press sends in the current mode: those of its action,
/// or, when nothing is bound, a switch to the recover mode (when enabled) or
/// a warning.
pub open spec fn key_messages(s: App, key: Key) -> Seq<ExternalMsgView> {
    match key_action(s.mode.key_bindings, key) {
        Some(a) => a@.messages,
        None => if s.config.general.enable_recover_mode {
            seq![ExternalMsgView::SwitchModeBuiltin("recover"@)]
        } else {
            seq![ExternalMsgView::LogWarning("Key map not found."@)]
        },
    }
}

/// Two keys are equal.
pub open spec fn same_key(a: Key, b: Key) -> bool {
    a.name@ == b.name@ && a.kind == b.kind && a.character == b.character && a.input_operation == b.input_operation
}

/// `after` is `before` followed by a task for each of `msgs`, sent by `key`.
pub open spec fn enqueued(before: Seq<MsgOut>, after: Seq<MsgOut>, msgs: Seq<ExternalMsgView>, key: Key) -> bool {
    &&& after.len() == before.len() + msgs.len()
    &&& after.take(before.len() as int) == before
    &&& forall|i: int| 0 <= i < msgs.len() ==> is_task_for(#[trigger] after[before.len() + i], msgs[i], key)
}

/// `o` queues a task for message `m`, sent by `key`.
pub open spec fn is_task_for(o: MsgOut, m: ExternalMsgView, key: Key) -> bool {
    match o {
        MsgOut::Enque(t) => match t.msg {
            MsgIn::External(x) => x@ == m && match t.key {
                Some(k) => same_key(k, key),
                None => false,
            },
            _ => false,
        },
        _ => false,
    }
}

/// [`App::handle_key`] was applied: the key's messages are queued for the runner.
pub open spec fn handle_key_done(s: App, key: Key, r: Result<App, AppError>) -> bool {
    r matches Ok(a) && a == (App { msg_out: a.msg_out, ..s }) && enqueued(s.msg_out@, a.msg_out@, key_messages(s, key), key)
}

/// [`App::handle_internal`] was applied.
pub open spec fn handle_internal_done(s: App, msg: InternalMsg, r: Result<App, AppError>) -> bool {
    match msg {
        InternalMsg::SetDirectory(d) => set_directory_done(s, d, r),
        InternalMsg::AddLastFocus(p, f) => add_last_focus_done(s, p@, opt_text(f), r),
        InternalMsg::HandleKey(k) => handle_key_done(s, k, r),
    }
}

/// The texts of `items`, each followed by a line break.
pub open spec fn lines(items: Seq<Seq<char>>) -> Seq<char>
    decreases items.len(),
{
    if items.len() == 0 {
        Seq::empty()
    } else {
        lines(items.drop_last()) + items.last() + seq!['\n']
    }
}

/// The absolute paths of some nodes.
pub open spec fn paths_of(ns: Seq<NodeView>) -> Seq<Seq<char>> {
    ns.map_values(|n: NodeView| n.absolute_path)
}

/// The nodes the explorer acts on: the selection, or the focused node when
/// nothing is selected.
pub open spec fn result_nodes(s: App) -> Seq<NodeView> {
    if selected(s).len() == 0 {
        match focused(s) {
            Some(n) => seq![n@],
            None => Seq::empty(),
        }
    } else {
        selected(s)
    }
}

/// [`App::focus_next_by_relative_index_from_input`] was applied.
pub open spec fn focus_next_by_relative_index_from_input_done(s: App, r: Result<App, AppError>) -> bool {
    match typed_index(s) {
        Some(i) => focus_next_by_relative_index_done(s, i, r),
        None => r == Ok::<App, AppError>(s),
    }
}

/// [`App::focus_by_index_from_input`] was applied.
pub open spec fn focus_by_index_from_input_done(s: App, r: Result<App, AppError>) -> bool {
    match typed_index(s) {
        Some(i) => focus_by_index_done(s, i, r),
        None => r == Ok::<App, AppError>(s),
    }
}

/// [`App::focus_previous_by_relative_index_from_input`] was applied.
pub open spec fn focus_previous_by_relative_index_from_input_done(s: App, r: Result<App, AppError>) -> bool {
    match typed_index(s) {
        Some(i) => focus_previous_by_relative_index_done(s, i, r),
        None => r == Ok::<App, AppError>(s),
    }
}

/// [`App::clear_selection`] was applied.
pub open spec fn clear_selection_done(s: App, r: Result<App, AppError>) -> bool {
    selection_now(s, Seq::empty(), r)
}

/// [`App::add_node_filter`] was applied.
pub open spec fn add_node_filter_done(s: App, filter: NodeFilterApplicable, r: Result<App, AppError>) -> bool {
    filters_now(s, set_insert(filters(s), filter@), r)
}

/// [`App::add_node_filter_from_input`] was applied.
pub open spec fn add_node_filter_from_input_done(s: App, filter: NodeFilter, r: Result<App, AppError>) -> bool {
    match typed(s) {
        Some(t) => filters_now(s, set_insert(filters(s), NodeFilterApplicableView { filter, input: t }), r),
        None => r == Ok::<App, AppError>(s),
    }
}

/// [`App::remove_node_filter`] was applied.
pub open spec fn remove_node_filter_done(s: App, filter: NodeFilterApplicable, r: Result<App, AppError>) -> bool {
    filters_now(s, filters(s).filter(|g: NodeFilterApplicableView| g != filter@), r)
}

/// [`App::remove_node_filter_from_input`] was applied.
pub open spec fn remove_node_filter_from_input_done(s: App, filter: NodeFilter, r: Result<App, AppError>) -> bool {
    match typed(s) {
        Some(t) => filters_now(s, removing_filter(filters(s), NodeFilterApplicableView { filter, input: t }), r),
        None => r == Ok::<App, AppError>(s),
    }
}

/// [`App::toggle_node_filter`] was applied.
pub open spec fn toggle_node_filter_done(s: App, filter: NodeFilterApplicable, r: Result<App, AppError>) -> bool {
    if filters(s).contains(filter@) {
        filters_now(s, filters(s).filter(|g: NodeFilterApplicableView| g != filter@), r)
    } else {
        filters_now(s, set_insert(filters(s), filter@), r)
    }
}

/// [`App::remove_last_node_filter`] was applied.
pub open spec fn remove_last_node_filter_done(s: App, r: Result<App, AppError>) -> bool {
    filters_now(s, without_last(filters(s)), r)
}

/// [`App::reset_node_filters`] was applied.
pub open spec fn reset_node_filters_done(s: App, r: Result<App, AppError>) -> bool {
    filters_now(
        s,
        if s.config.general.show_hidden { Seq::empty() } else { seq![hide_dotfiles()] },
        r,
    )
}

/// [`App::clear_node_filters`] was applied.
pub open spec fn clear_node_filters_done(s: App, r: Result<App, AppError>) -> bool {
    filters_now(s, Seq::empty(), r)
}

/// [`App::add_node_sorter`] was applied.
pub open spec fn add_node_sorter_done(s: App, sorter: NodeSorterApplicable, r: Result<App, AppError>) -> bool {
    sorters_now(s, set_insert(sorters(s), sorter), r)
}

/// [`App::remove_node_sorter`] was applied.
pub open spec fn remove_node_sorter_done(s: App, sorter: NodeSorter, r: Result<App, AppError>) -> bool {
    sorters_now(s, sorters(s).filter(|x: NodeSorterApplicable| x.sorter != sorter), r)
}

/// [`App::toggle_node_sorter`] was applied.
pub open spec fn toggle_node_sorter_done(s: App, sorter: NodeSorterApplicable, r: Result<App, AppError>) -> bool {
    if sorters(s).contains(sorter) {
        sorters_now(s, sorters(s).filter(|x: NodeSorterApplicable| x.sorter != sorter.sorter), r)
    } else {
        sorters_now(s, set_insert(sorters(s), sorter), r)
    }
}

/// [`App::remove_last_node_sorter`] was applied.
pub open spec fn remove_last_node_sorter_done(s: App, r: Result<App, AppError>) -> bool {
    sorters_now(s, without_last(sorters(s)), r)
}

/// [`App::reverse_node_sorter`] was applied.
pub open spec fn reverse_node_sorter_done(s: App, sorter: NodeSorter, r: Result<App, AppError>) -> bool {
    sorters_now(s, first_occurrences(reversing(sorters(s), sorter)), r)
}

/// [`App::reverse_node_sorters`] was applied.
pub open spec fn reverse_node_sorters_done(s: App, r: Result<App, AppError>) -> bool {
    sorters_now(s, first_occurrences(all_reversed(sorters(s))), r)
}

/// [`App::reset_node_sorters`] was applied.
pub open spec fn reset_node_sorters_done(s: App, r: Result<App, AppError>) -> bool {
    sorters_now(
        s,
        match s.config.general.initial_sorting {
            Some(set) => sorter_set_items(set),
            None => Seq::empty(),
        },
        r,
    )
}

/// [`App::clear_node_sorters`] was applied.
pub open spec fn clear_node_sorters_done(s: App, r: Result<App, AppError>) -> bool {
    sorters_now(s, Seq::empty(), r)
}

/// [`App::update_input_buffer_from_key`] was applied.
pub open spec fn update_input_buffer_from_key_done(s: App, key: Option<Key>, r: Result<App, AppError>) -> bool {
    match key {
        Some(k) => match k.input_operation {
            Some(op) => update_input_buffer_done(s, op, r),
            None => r == Ok::<App, AppError>(s),
        },
        None => r == Ok::<App, AppError>(s),
    }
}

/// [`App::buffer_input_from_key`] was applied.
pub open spec fn buffer_input_from_key_done(s: App, key: Option<Key>, r: Result<App, AppError>) -> bool {
    match key {
        Some(k) => match k.character {
            Some(c) => buffer_input_done(s, seq![c], r),
            None => r == Ok::<App, AppError>(s),
        },
        None => r == Ok::<App, AppError>(s),
    }
}

/// [`App::set_input_buffer`] was applied.
pub open spec fn set_input_buffer_done(s: App, string: String, r: Result<App, AppError>) -> bool {
    r matches Ok(a) && input_frame(s, a) && a.logs_hidden && buffer_is(a, string@, string@.len() as int)
}

/// [`App::remove_input_buffer_last_character`] was applied.
pub open spec fn remove_input_buffer_last_character_done(s: App, r: Result<App, AppError>) -> bool {
    match s.input {
        Some(b) => {
            let v = if b.value@.len() == 0 { b.value@ } else { b.value@.drop_last() };
            r matches Ok(a) && input_frame(s, a) && a.logs_hidden && buffer_is(a, v, v.len() as int)
        },
        None => r == Ok::<App, AppError>(s),
    }
}

/// [`App::remove_input_buffer_last_word`] was applied.
pub open spec fn remove_input_buffer_last_word_done(s: App, r: Result<App, AppError>) -> bool {
    match s.input {
        Some(b) => {
            let e = input_handled(b.value@, b.value@.len() as usize, InputOperation::DeletePreviousWord);
            r matches Ok(a) && input_frame(s, a) && a.logs_hidden && buffer_is(a, e.0, e.1 as int)
        },
        None => r == Ok::<App, AppError>(s),
    }
}

/// [`App::reset_input_buffer`] was applied.
pub open spec fn reset_input_buffer_done(s: App, r: Result<App, AppError>) -> bool {
    r == Ok::<App, AppError>(App { input: None, ..s })
}

/// [`App::handle_external`] was applied: read-only mode refuses the messages
/// that run code; every other message does what its method does.
pub open spec fn handle_external_done(s: App, msg: ExternalMsg, key: Option<Key>, r: Result<Step, AppError>) -> bool {
    if s.config.general.read_only && !msg@.read_only() {
        no_io(r) && log_done(s, LogLevel::Error, "Cannot execute code in read-only mode."@, app_of(r))
    } else {
        match msg {
            ExternalMsg::ExplorePwd => explore_pwd_done(s, r),
            ExternalMsg::ExploreParentsAsync => no_io(r) && sent_done(s, MsgOut::ExploreParentsAsync, app_of(r)),
            ExternalMsg::ExplorePwdAsync => no_io(r) && sent_done(s, MsgOut::ExplorePwdAsync, app_of(r)),
            ExternalMsg::Refresh => no_io(r) && sent_done(s, MsgOut::Refresh, app_of(r)),
            ExternalMsg::ClearScreen => no_io(r) && sent_done(s, MsgOut::ClearScreen, app_of(r)),
            ExternalMsg::FocusFirst => no_io(r) && focus_first_done(s, true, app_of(r)),
            ExternalMsg::FocusLast => no_io(r) && focus_last_done(s, app_of(r)),
            ExternalMsg::FocusPrevious => no_io(r) && focus_previous_done(s, app_of(r)),
            ExternalMsg::FocusPreviousByRelativeIndex(i) => no_io(r) && focus_previous_by_relative_index_done(s, i, app_of(r)),
            ExternalMsg::FocusPreviousByRelativeIndexFromInput => no_io(r) && focus_previous_by_relative_index_from_input_done(s, app_of(r)),
            ExternalMsg::FocusNext => no_io(r) && focus_next_done(s, app_of(r)),
            ExternalMsg::FocusNextByRelativeIndex(i) => no_io(r) && focus_next_by_relative_index_done(s, i, app_of(r)),
            ExternalMsg::FocusNextByRelativeIndexFromInput => no_io(r) && focus_next_by_relative_index_from_input_done(s, app_of(r)),
            ExternalMsg::FocusPath(p) => focus_path_done(s, p@, true, r),
            ExternalMsg::FocusPathFromInput => focus_path_from_input_done(s, r),
            ExternalMsg::FocusByIndex(i) => no_io(r) && focus_by_index_done(s, i, app_of(r)),
            ExternalMsg::FocusByIndexFromInput => no_io(r) && focus_by_index_from_input_done(s, app_of(r)),
            ExternalMsg::FocusByFileName(n) => no_io(r) && focus_by_file_name_done(s, n@, true, app_of(r)),
            ExternalMsg::ChangeDirectory(d) => change_directory_done(s, d@, true, r),
            ExternalMsg::Enter => enter_done(s, r),
            ExternalMsg::Back => back_done(s, r),
            ExternalMsg::LastVisitedPath => visited_done(s, spec_visit_last(s.history@), r),
            ExternalMsg::NextVisitedPath => visited_done(s, spec_visit_next(s.history@), r),
            ExternalMsg::FollowSymlink => follow_symlink_done(s, r),
            ExternalMsg::UpdateInputBuffer(op) => no_io(r) && update_input_buffer_done(s, op, app_of(r)),
            ExternalMsg::UpdateInputBufferFromKey => no_io(r) && update_input_buffer_from_key_done(s, key, app_of(r)),
            ExternalMsg::BufferInput(x) => no_io(r) && buffer_input_done(s, x@, app_of(r)),
            ExternalMsg::BufferInputFromKey => no_io(r) && buffer_input_from_key_done(s, key, app_of(r)),
            ExternalMsg::SetInputBuffer(x) => no_io(r) && set_input_buffer_done(s, x, app_of(r)),
            ExternalMsg::RemoveInputBufferLastCharacter => no_io(r) && remove_input_buffer_last_character_done(s, app_of(r)),
            ExternalMsg::RemoveInputBufferLastWord => no_io(r) && remove_input_buffer_last_word_done(s, app_of(r)),
            ExternalMsg::ResetInputBuffer => no_io(r) && reset_input_buffer_done(s, app_of(r)),
            ExternalMsg::SwitchMode(m) => no_io(r) && mode_switched(s, s.config.modes.named(m@), "Mode not found: "@ + m@, false, app_of(r)),
            ExternalMsg::SwitchModeKeepingInputBuffer(m) => no_io(r) && mode_switched(s, s.config.modes.named(m@), "Mode not found: "@ + m@, true, app_of(r)),
            ExternalMsg::SwitchModeBuiltin(m) => no_io(r) && mode_switched(s, s.config.modes.builtin.named(m@), "Builtin mode not found: "@ + m@, false, app_of(r)),
            ExternalMsg::SwitchModeBuiltinKeepingInputBuffer(m) => no_io(r) && mode_switched(s, s.config.modes.builtin.named(m@), "Builtin mode not found: "@ + m@, true, app_of(r)),
            ExternalMsg::SwitchModeCustom(m) => no_io(r) && mode_switched(s, first_with_key(s.config.modes.custom@, m@), "Custom mode not found: "@ + m@, false, app_of(r)),
            ExternalMsg::SwitchModeCustomKeepingInputBuffer(m) => no_io(r) && mode_switched(s, first_with_key(s.config.modes.custom@, m@), "Custom mode not found: "@ + m@, true, app_of(r)),
            ExternalMsg::PopMode => no_io(r) && mode_popped(s, false, app_of(r)),
            ExternalMsg::PopModeKeepingInputBuffer => no_io(r) && mode_popped(s, true, app_of(r)),
            ExternalMsg::SwitchLayout(l) => no_io(r) && layout_switched(s, s.config.layouts.named(l@), "Layout not found: "@ + l@, app_of(r)),
            ExternalMsg::SwitchLayoutBuiltin(l) => no_io(r) && layout_switched(s, s.config.layouts.builtin.named(l@), "Builtin layout not found: "@ + l@, app_of(r)),
            ExternalMsg::SwitchLayoutCustom(l) => no_io(r) && layout_switched(s, first_with_key(s.config.layouts.custom@, l@), "Custom layout not found: "@ + l@, app_of(r)),
            ExternalMsg::Call(c) => no_io(r) && called_done(s, c@, false, app_of(r)),
            ExternalMsg::CallSilently(c) => no_io(r) && called_done(s, c@, true, app_of(r)),
            ExternalMsg::BashExec(x) => no_io(r) && called_done(s, bash_command(x@), false, app_of(r)),
            ExternalMsg::BashExecSilently(x) => no_io(r) && called_done(s, bash_command(x@), true, app_of(r)),
            ExternalMsg::CallLua(x) => no_io(r) && sent_hiding_logs_done(s, MsgOut::CallLua(x), app_of(r)),
            ExternalMsg::CallLuaSilently(x) => no_io(r) && sent_hiding_logs_done(s, MsgOut::CallLuaSilently(x), app_of(r)),
            ExternalMsg::LuaEval(x) => no_io(r) && sent_hiding_logs_done(s, MsgOut::LuaEval(x), app_of(r)),
            ExternalMsg::LuaEvalSilently(x) => no_io(r) && sent_hiding_logs_done(s, MsgOut::LuaEvalSilently(x), app_of(r)),
            ExternalMsg::Select => no_io(r) && select_done(s, app_of(r)),
            ExternalMsg::SelectAll => no_io(r) && select_all_done(s, app_of(r)),
            ExternalMsg::SelectPath(p) => no_io(r) && select_path_done(s, p@, app_of(r)),
            ExternalMsg::UnSelect => no_io(r) && un_select_done(s, app_of(r)),
            ExternalMsg::UnSelectAll => no_io(r) && un_select_all_done(s, app_of(r)),
            ExternalMsg::UnSelectPath(p) => no_io(r) && un_select_path_done(s, p@, app_of(r)),
            ExternalMsg::ToggleSelection => no_io(r) && toggle_selection_done(s, app_of(r)),
            ExternalMsg::ToggleSelectAll => no_io(r) && toggle_select_all_done(s, app_of(r)),
            ExternalMsg::ToggleSelectionByPath(p) => no_io(r) && toggle_selection_by_path_done(s, p@, app_of(r)),
            ExternalMsg::ClearSelection => no_io(r) && clear_selection_done(s, app_of(r)),
            ExternalMsg::AddNodeFilter(f) => no_io(r) && add_node_filter_done(s, f, app_of(r)),
            ExternalMsg::AddNodeFilterFromInput(f) => no_io(r) && add_node_filter_from_input_done(s, f, app_of(r)),
            ExternalMsg::RemoveNodeFilter(f) => no_io(r) && remove_node_filter_done(s, f, app_of(r)),
            ExternalMsg::RemoveNodeFilterFromInput(f) => no_io(r) && remove_node_filter_from_input_done(s, f, app_of(r)),
            ExternalMsg::ToggleNodeFilter(f) => no_io(r) && toggle_node_filter_done(s, f, app_of(r)),
            ExternalMsg::RemoveLastNodeFilter => no_io(r) && remove_last_node_filter_done(s, app_of(r)),
            ExternalMsg::ResetNodeFilters => no_io(r) && reset_node_filters_done(s, app_of(r)),
            ExternalMsg::ClearNodeFilters => no_io(r) && clear_node_filters_done(s, app_of(r)),
            ExternalMsg::AddNodeSorter(x) => no_io(r) && add_node_sorter_done(s, x, app_of(r)),
            ExternalMsg::RemoveNodeSorter(x) => no_io(r) && remove_node_sorter_done(s, x, app_of(r)),
            ExternalMsg::ReverseNodeSorter(x) => no_io(r) && reverse_node_sorter_done(s, x, app_of(r)),
            ExternalMsg::ToggleNodeSorter(x) => no_io(r) && toggle_node_sorter_done(s, x, app_of(r)),
            ExternalMsg::RemoveLastNodeSorter => no_io(r) && remove_last_node_sorter_done(s, app_of(r)),
            ExternalMsg::ReverseNodeSorters => no_io(r) && reverse_node_sorters_done(s, app_of(r)),
            ExternalMsg::ResetNodeSorters => no_io(r) && reset_node_sorters_done(s, app_of(r)),
            ExternalMsg::ClearNodeSorters => no_io(r) && clear_node_sorters_done(s, app_of(r)),
            ExternalMsg::EnableMouse => no_io(r) && sent_done(s, MsgOut::EnableMouse, app_of(r)),
            ExternalMsg::DisableMouse => no_io(r) && sent_done(s, MsgOut::DisableMouse, app_of(r)),
            ExternalMsg::ToggleMouse => no_io(r) && sent_done(s, MsgOut::ToggleMouse, app_of(r)),
            ExternalMsg::StartFifo(x) => no_io(r) && sent_done(s, MsgOut::StartFifo(x), app_of(r)),
            ExternalMsg::StopFifo => no_io(r) && sent_done(s, MsgOut::StopFifo, app_of(r)),
            ExternalMsg::ToggleFifo(x) => no_io(r) && sent_done(s, MsgOut::ToggleFifo(x), app_of(r)),
            ExternalMsg::LogInfo(x) => no_io(r) && log_done(s, LogLevel::Info, x@, app_of(r)),
            ExternalMsg::LogSuccess(x) => no_io(r) && log_done(s, LogLevel::Success, x@, app_of(r)),
            ExternalMsg::LogWarning(x) => no_io(r) && log_done(s, LogLevel::Warning, x@, app_of(r)),
            ExternalMsg::LogError(x) => no_io(r) && log_done(s, LogLevel::Error, x@, app_of(r)),
            ExternalMsg::Quit => no_io(r) && sent_done(s, MsgOut::Quit, app_of(r)),
            ExternalMsg::PrintPwdAndQuit => no_io(r) && sent_done(s, MsgOut::PrintPwdAndQuit, app_of(r)),
            ExternalMsg::PrintFocusPathAndQuit => no_io(r) && sent_done(s, MsgOut::PrintFocusPathAndQuit, app_of(r)),
            ExternalMsg::PrintSelectionAndQuit => no_io(r) && sent_done(s, MsgOut::PrintSelectionAndQuit, app_of(r)),
            ExternalMsg::PrintResultAndQuit => no_io(r) && sent_done(s, MsgOut::PrintResultAndQuit, app_of(r)),
            ExternalMsg::PrintAppStateAndQuit => no_io(r) && sent_done(s, MsgOut::PrintAppStateAndQuit, app_of(r)),
            ExternalMsg::Debug(x) => no_io(r) && sent_done(s, MsgOut::Debug(x), app_of(r)),
            ExternalMsg::Terminate => r matches Err(e) && e.message@ == Seq::<char>::empty(),
        }
    }
}

/// What handling `msg` needs of the state so that no arithmetic overflows.
pub open spec fn external_msg_allowed(s: App, msg: ExternalMsg) -> bool {
    match msg {
        ExternalMsg::FocusNext => s.directory_buffer matches Some(d) ==> d.focus < usize::MAX,
        ExternalMsg::FocusNextByRelativeIndex(i) => s.directory_buffer matches Some(d) ==> d.focus + i <= usize::MAX,
        ExternalMsg::FocusNextByRelativeIndexFromInput => typed_index(s) matches Some(i) ==> (s.directory_buffer matches Some(d) ==> d.focus + i <= usize::MAX),
        ExternalMsg::BufferInput(x) => s.input matches Some(b) ==> b.value@.len() + x@.len() < usize::MAX,
        ExternalMsg::BufferInputFromKey => s.input matches Some(b) ==> b.value@.len() + 1 < usize::MAX,
        ExternalMsg::NextVisitedPath => s.history.loc < usize::MAX,
        _ => true,
    }
}

/// `r` is the step `mid` with a redraw asked for at the end.
pub open spec fn then_refreshed(mid: Result<Step, AppError>, r: Result<Step, AppError>) -> bool {
    match mid {
        Ok(st) => r matches Ok(st2) && st2.io == st.io && sent_done(st.app, MsgOut::Refresh, Ok(st2.app)),
        Err(e) => r == Err::<Step, AppError>(e),
    }
}

/// [`App::handle_task`] was applied: the task's message was handled, then a
/// redraw was asked for.
pub open spec fn handle_task_done(s: App, task: Task, r: Result<Step, AppError>) -> bool {
    match task.msg {
        MsgIn::Internal(m) => exists|mid: Result<App, AppError>| #[trigger] handle_internal_done(s, m, mid)
            && then_refreshed(match mid {
                Ok(a) => Ok(Step { app: a, io: None }),
                Err(e) => Err(e),
            }, r),
        MsgIn::External(m) => exists|mid: Result<Step, AppError>| #[trigger] handle_external_done(s, m, task.key, mid)
            && then_refreshed(mid, r),
    }
}

/// The mode the explorer starts in: the one the configuration names (or
/// `default`), sanitized for read-only use when the explorer is read-only.
pub open spec fn initial_mode(c: Config) -> Option<Mode> {
    c.modes.named(match c.general.initial_mode {
        Some(n) => n@,
        None => "default"@,
    })
}

/// The layout the explorer starts with: the one the configuration names (or `default`).
pub open spec fn initial_layout(c: Config) -> Option<Layout> {
    c.layouts.named(match c.general.initial_layout {
        Some(n) => n@,
        None => "default"@,
    })
}

/// The starting state before load errors are logged: no listing, nothing
/// selected or queued, the initial mode and layout, dotfiles hidden unless
/// shown, the initial sorters, empty logs and history.
pub open spec fn fresh_state(a: App, version: Seq<char>, pwd: Seq<char>, pid: u32, session_path: Seq<char>, pipe: Pipe, mode: Mode, layout: Layout) -> bool {
    &&& a.version@ == version
    &&& a.pwd@ == pwd
    &&& a.pid == pid
    &&& a.session_path@ == session_path
    &&& a.pipe == pipe
    &&& a.directory_buffer is None
    &&& a.last_focus@.len() == 0
    &&& selected(a).len() == 0
    &&& a.msg_out@.len() == 0
    &&& a.mode@ == mode_sanitized(mode@, a.config.general.read_only)
    &&& a.layout == layout
    &&& a.input is None
    &&& filters(a) == if a.config.general.show_hidden { Seq::empty() } else { seq![hide_dotfiles()] }
    &&& sorters(a) == match a.config.general.initial_sorting {
        Some(set) => sorter_set_items(set),
        None => Seq::empty(),
    }
    &&& !a.logs_hidden
    &&& a.history@ == (HistoryView { loc: 0, paths: Seq::empty() })
    &&& a.last_modes@.len() == 0
}

/// The logs are the errors `errs`, in order.
pub open spec fn errors_logged(logs: Seq<Log>, errs: Seq<Seq<char>>) -> bool {
    &&& logs.len() == errs.len()
    &&& forall|i: int| 0 <= i < errs.len() ==> (#[trigger] logs[i]).level == LogLevel::Error && logs[i].message@ == errs[i]
}

/// [`App::create`] was applied: the starting state is built from the
/// configuration; the errors met while loading it are logged and, unless
/// disabled, the debug-error mode is entered.
pub open spec fn create_done(
    version: Seq<char>,
    config: Config,
    pwd: Seq<char>,
    pid: u32,
    session_path: Seq<char>,
    pipe: Pipe,
    load_errs: Seq<Seq<char>>,
    r: Result<App, AppError>,
) -> bool {
    match (initial_mode(config), initial_layout(config)) {
        (Some(m), Some(l)) => r matches Ok(a) && a.config == config && {
            let errs = load_errs.len() > 0;
            if errs && !config.general.disable_debug_error_mode {
                exists|b: App| #[trigger] fresh_state(b, version, pwd, pid, session_path, pipe, m, l)
                    && b.config == config && errors_logged(b.logs@, load_errs)
                    && mode_switched(b, config.modes.builtin.named("debug_error"@), "Builtin mode not found: "@ + "debug_error"@, false, r)
            } else {
                fresh_state(a, version, pwd, pid, session_path, pipe, m, l) && errors_logged(a.logs@, load_errs)
            }
        },
        (None, _) => r matches Err(e) && e.message@ == "'default' mode is missing"@,
        (Some(_), None) => r matches Err(e) && e.message@ == "'default' layout is missing"@,
    }
}

/// The titles of the help menu's sections: the builtin modes' names (in a
/// fixed order, the filter mode twice), then the custom modes' names.
pub open spec fn help_titles(c: Config) -> Seq<Seq<char>> {
    seq![c.modes.builtin.default.name@, c.modes.builtin.debug_error.name@, c.modes.builtin.recover.name@, c.modes.builtin.filter.name@, c.modes.builtin.number.name@, c.modes.builtin.go_to.name@, c.modes.builtin.search.name@, c.modes.builtin.selection_ops.name@, c.modes.builtin.action.name@, c.modes.builtin.create.name@, c.modes.builtin.create_file.name@, c.modes.builtin.create_directory.name@, c.modes.builtin.rename.name@, c.modes.builtin.duplicate_as.name@, c.modes.builtin.delete.name@, c.modes.builtin.sort.name@, c.modes.builtin.filter.name@, c.modes.builtin.relative_path_does_contain.name@, c.modes.builtin.relative_path_does_not_contain.name@, c.modes.builtin.switch_layout.name@]
        + c.modes.custom@.map_values(|e: (String, Mode)| e.0@)
}

/// The built-in mode of the help menu's section `i` (for `i` below 20), in
/// the order of [`help_titles`].
pub open spec fn builtin_help_mode(b: BuiltinModesConfig, i: int) -> Mode {
    if i == 0 {
        b.default
    } else if i == 1 {
        b.debug_error
    } else if i == 2 {
        b.recover
    } else if i == 3 {
        b.filter
    } else if i == 4 {
        b.number
    } else if i == 5 {
        b.go_to
    } else if i == 6 {
        b.search
    } else if i == 7 {
        b.selection_ops
    } else if i == 8 {
        b.action
    } else if i == 9 {
        b.create
    } else if i == 10 {
        b.create_file
    } else if i == 11 {
        b.create_directory
    } else if i == 12 {
        b.rename
    } else if i == 13 {
        b.duplicate_as
    } else if i == 14 {
        b.delete
    } else if i == 15 {
        b.sort
    } else if i == 16 {
        b.filter
    } else if i == 17 {
        b.relative_path_does_contain
    } else if i == 18 {
        b.relative_path_does_not_contain
    } else {
        b.switch_layout
    }
}

/// The help lines of each section of the help menu, in the order of
/// [`help_titles`]: each mode's own (see [`mode_help_menu`]).
pub open spec fn help_menus_of(c: Config) -> Seq<Seq<HelpLineView>> {
    Seq::new((20 + c.modes.custom.len()) as nat, |i: int| if i < 20 {
        mode_help_menu(builtin_help_mode(c.modes.builtin, i)@)
    } else {
        mode_help_menu(c.modes.custom@[i - 20].1@)
    })
}

/// The built-in mode of the help menu's section `i` (see [`builtin_help_mode`]).
fn builtin_mode_at(b: &BuiltinModesConfig, i: usize) -> (r: &Mode)
    requires
        i < 20,
    ensures
        *r == builtin_help_mode(*b, i as int),
{
    match i {
            0 => &b.default,
            1 => &b.debug_error,
            2 => &b.recover,
            3 => &b.filter,
            4 => &b.number,
            5 => &b.go_to,
            6 => &b.search,
            7 => &b.selection_ops,
            8 => &b.action,
            9 => &b.create,
            10 => &b.create_file,
            11 => &b.create_directory,
            12 => &b.rename,
            13 => &b.duplicate_as,
            14 => &b.delete,
            15 => &b.sort,
            16 => &b.filter,
            17 => &b.relative_path_does_contain,
            18 => &b.relative_path_does_not_contain,
            _ => &b.switch_layout,
    }
}

/// The help menu: one section per title, each with its lines, separated by
/// blank lines.
pub open spec fn help_menu_text(titles: Seq<Seq<char>>, menus: Seq<Seq<HelpLineView>>) -> Seq<char> {
    joined(Seq::new(titles.len(), |i: int| section_text(titles[i], menus[i])), seq!['\n'])
}

/// The index of the first node named `name`, if any.
pub open spec fn index_of_name(nodes: Seq<Node>, name: Seq<char>) -> Option<int> {
    if exists|i: int| 0 <= i < nodes.len() && nodes[i].relative_path@ == name {
        Some(choose|i: int| 0 <= i < nodes.len() && nodes[i].relative_path@ == name
            && forall|j: int| 0 <= j < i ==> nodes[j].relative_path@ != name)
    } else {
        None
    }
}

/// The position of the first node named `name`.
fn find_named(nodes: &Vec<Node>, name: &str) -> (r: Option<usize>)
    ensures
        match r {
            Some(k) => index_of_name(nodes@, name@) == Some(k as int),
            None => index_of_name(nodes@, name@) is None,
        },
{
    let key = String::from_str(name);
    let mut i: usize = 0;
    while i < nodes.len()
        invariant
            i <= nodes.len(),
            key@ == name@,
            forall|j: int| 0 <= j < i ==> nodes@[j].relative_path@ != name@,
        decreases nodes.len() - i,
    {
        if nodes[i].relative_path == key {
            proof {
                let c = choose|c: int| 0 <= c < nodes@.len() && nodes@[c].relative_path@ == name@
                    && forall|j: int| 0 <= j < c ==> nodes@[j].relative_path@ != name@;
                assert(c == i as int);
            }
            return Some(i);
        }
        i = i + 1;
    }
    None
}

/// The position of the first entry for directory `k` in the last-focus table.
fn find_focus_entry(es: &Vec<(String, Option<String>)>, k: &String) -> (r: Option<usize>)
    ensures
        match r {
            Some(i) => first_key_index(focus_table(es@), k@) == Some(i as int) && i < es.len(),
            None => first_key_index(focus_table(es@), k@) is None,
        },
{
    let ghost t = focus_table(es@);
    let mut i: usize = 0;
    while i < es.len()
        invariant
            i <= es.len(),
            t == focus_table(es@),
            forall|j: int| 0 <= j < i ==> t[j].0 != k@,
        decreases es.len() - i,
    {
        assert(t[i as int] == focus_entry_view(es@[i as int]));
        if es[i].0 == *k {
            proof {
                let c = choose|c: int| 0 <= c < t.len() && t[c].0 == k@ && forall|j: int| 0 <= j < c ==> t[j].0 != k@;
                assert(c == i as int);
            }
            return Some(i);
        }
        i = i + 1;
    }
    None
}

/// A step that asks the runner for nothing.
fn pure(r: Result<App, AppError>) -> (st: Result<Step, AppError>)
    ensures
        app_of(st) == r,
        no_io(st),
{
    match r {
        Ok(a) => Ok(Step { app: a, io: None }),
        Err(e) => Err(e),
    }
}

impl App {
    /// The node under the focus of the listing, if any.
    pub fn focused_node(&self) -> (r: Option<&Node>)
        ensures
            match r {
                Some(n) => self.directory_buffer matches Some(d) && d.focus < d.nodes.len()
                    && *n == d.nodes@[d.focus as int],
                None => self.directory_buffer matches Some(d) ==> d.focus >= d.nodes.len(),
            },
    {
        match &self.directory_buffer {
            Some(d) => d.focused_node(),
            None => None,
        }
    }

    /// The absolute path of the node under the focus (empty when there is none).
    pub fn focused_node_str(&self) -> (r: String)
        ensures
            r@ == match self.directory_buffer {
                Some(d) => match focused_path(d) {
                    Some(p) => p,
                    None => Seq::empty(),
                },
                None => Seq::empty(),
            },
    {
        match self.focused_node() {
            Some(n) => n.absolute_path.clone(),
            None => String::new(),
        }
    }

    /// Adds a log entry and shows the logs.
    fn log(self, level: LogLevel, message: String) -> (r: Self)
        ensures
            r == (App { logs: r.logs, logs_hidden: false, ..self }),
            logged(self.logs@, r.logs@, level, message@),
    {
        let mut app = self;
        app.logs_hidden = false;
        app.logs.push(Log::new(level, message));
        proof {
            assert(app.logs@.drop_last() =~= self.logs@);
        }
        app
    }

    /// Adds an information entry to the logs and shows them.
    pub fn log_info(self, message: String) -> (r: Result<Self, AppError>)
        ensures
            log_done(self, LogLevel::Info, message@, r),
    {
        Ok(self.log(LogLevel::Info, message))
    }

    /// Adds a success entry to the logs and shows them.
    pub fn log_success(self, message: String) -> (r: Result<Self, AppError>)
        ensures
            log_done(self, LogLevel::Success, message@, r),
    {
        Ok(self.log(LogLevel::Success, message))
    }

    /// Adds a warning to the logs and shows them.
    pub fn log_warning(self, message: String) -> (r: Result<Self, AppError>)
        ensures
            log_done(self, LogLevel::Warning, message@, r),
    {
        Ok(self.log(LogLevel::Warning, message))
    }

    /// Adds an error to the logs and shows them.
    pub fn log_error(self, message: String) -> (r: Result<Self, AppError>)
        ensures
            log_done(self, LogLevel::Error, message@, r),
    {
        Ok(self.log(LogLevel::Error, message))
    }

    /// Moves the focus to the first node; with `save_history`, records the
    /// node left and the node reached.
    pub fn focus_first(self, save_history: bool) -> (r: Result<Self, AppError>)
        ensures
            focus_first_done(self, save_history, r),
    {
        let mut app = self;
        match app.directory_buffer.take() {
            None => Ok(app),
            Some(mut d) => {
                let mut history = app.history.copy();
                if save_history {
                    if let Some(n) = d.focused_node() {
                        history = history.push(n.absolute_path.clone());
                    }
                }
                d.focus = 0;
                if save_history {
                    if let Some(n) = d.focused_node() {
                        app.history = history.push(n.absolute_path.clone());
                    }
                }
                app.directory_buffer = Some(d);
                Ok(app)
            },
        }
    }

    /// Moves the focus to the last node, recording the node left and the node
    /// reached.
    pub fn focus_last(self) -> (r: Result<Self, AppError>)
        ensures
            focus_last_done(self, r),
    {
        let mut app = self;
        match app.directory_buffer.take() {
            None => Ok(app),
            Some(mut d) => {
                let mut history = app.history.copy();
                if let Some(n) = d.focused_node() {
                    history = history.push(n.absolute_path.clone());
                }
                d.focus = if d.total >= 1 { d.total - 1 } else { 0 };
                if let Some(n) = d.focused_node() {
                    app.history = history.push(n.absolute_path.clone());
                }
                app.directory_buffer = Some(d);
                Ok(app)
            },
        }
    }

    /// Moves the focus one node up; from the first node it wraps to the last,
    /// unless navigation is bounded.
    pub fn focus_previous(self) -> (r: Result<Self, AppError>)
        ensures
            focus_previous_done(self, r),
    {
        let mut app = self;
        let bounded = app.config.general.enforce_bounded_index_navigation;
        match app.directory_buffer.take() {
            None => Ok(app),
            Some(mut d) => {
                d.focus = if d.focus == 0 {
                    if bounded {
                        d.focus
                    } else if d.total >= 1 {
                        d.total - 1
                    } else {
                        0
                    }
                } else {
                    d.focus - 1
                };
                app.directory_buffer = Some(d);
                Ok(app)
            },
        }
    }

    /// Moves the focus one node down; from the last node it wraps to the
    /// first, unless navigation is bounded.
    pub fn focus_next(self) -> (r: Result<Self, AppError>)
        requires
            self.directory_buffer matches Some(d) ==> d.focus < usize::MAX,
        ensures
            focus_next_done(self, r),
    {
        let mut app = self;
        let bounded = app.config.general.enforce_bounded_index_navigation;
        match app.directory_buffer.take() {
            None => Ok(app),
            Some(mut d) => {
                d.focus = if d.focus + 1 == d.total {
                    if bounded {
                        d.focus
                    } else {
                        0
                    }
                } else {
                    d.focus + 1
                };
                app.directory_buffer = Some(d);
                Ok(app)
            },
        }
    }

    /// Moves the focus `index` nodes up (stopping at the first), recording the
    /// node left and the node reached.
    pub fn focus_previous_by_relative_index(self, index: usize) -> (r: Result<Self, AppError>)
        ensures
            focus_previous_by_relative_index_done(self, index, r),
    {
        let mut app = self;
        match app.directory_buffer.take() {
            None => Ok(app),
            Some(mut d) => {
                let mut history = app.history.copy();
                if let Some(n) = d.focused_node() {
                    history = history.push(n.absolute_path.clone());
                }
                d.focus = if d.focus >= index { d.focus - index } else { 0 };
                if let Some(n) = d.focused_node() {
                    app.history = history.push(n.absolute_path.clone());
                }
                app.directory_buffer = Some(d);
                Ok(app)
            },
        }
    }

    /// Moves the focus `index` nodes down (stopping at the last), recording
    /// the node left and the node reached.
    pub fn focus_next_by_relative_index(self, index: usize) -> (r: Result<Self, AppError>)
        requires
            self.directory_buffer matches Some(d) ==> d.focus + index <= usize::MAX,
        ensures
            focus_next_by_relative_index_done(self, index, r),
    {
        let mut app = self;
        match app.directory_buffer.take() {
            None => Ok(app),
            Some(mut d) => {
                let mut history = app.history.copy();
                if let Some(n) = d.focused_node() {
                    history = history.push(n.absolute_path.clone());
                }
                let last = if d.total >= 1 { d.total - 1 } else { 0 };
                let target = d.focus + index;
                d.focus = if target <= last { target } else { last };
                if let Some(n) = d.focused_node() {
                    app.history = history.push(n.absolute_path.clone());
                }
                app.directory_buffer = Some(d);
                Ok(app)
            },
        }
    }

    /// Moves the focus to the node at `index` (at most the last), recording
    /// the node reached.
    pub fn focus_by_index(self, index: usize) -> (r: Result<Self, AppError>)
        ensures
            focus_by_index_done(self, index, r),
    {
        let mut app = self;
        match app.directory_buffer.take() {
            None => Ok(app),
            Some(mut d) => {
                let history = app.history.copy();
                let last = if d.total >= 1 { d.total - 1 } else { 0 };
                d.focus = if index <= last { index } else { last };
                if let Some(n) = d.focused_node() {
                    app.history = history.push(n.absolute_path.clone());
                }
                app.directory_buffer = Some(d);
                Ok(app)
            },
        }
    }

    /// [`App::focus_next_by_relative_index`] with the number typed in the
    /// input buffer; nothing happens when it holds no number.
    pub fn focus_next_by_relative_index_from_input(self) -> (r: Result<Self, AppError>)
        requires
            typed_index(self) matches Some(i) ==> (self.directory_buffer matches Some(d) ==> d.focus + i <= usize::MAX),
        ensures
            focus_next_by_relative_index_from_input_done(self, r),
    {
        match self.input_index() {
            Some(index) => self.focus_next_by_relative_index(index),
            None => Ok(self),
        }
    }

    /// [`App::focus_by_index`] with the number typed in the input buffer;
    /// nothing happens when it holds no number.
    pub fn focus_by_index_from_input(self) -> (r: Result<Self, AppError>)
        ensures
            focus_by_index_from_input_done(self, r),
    {
        match self.input_index() {
            Some(index) => self.focus_by_index(index),
            None => Ok(self),
        }
    }

    /// Moves the focus to the first node named `name`; with `save_history`,
    /// records the node left and the node reached. When no node has that name,
    /// logs an error.
    pub fn focus_by_file_name(self, name: &str, save_history: bool) -> (r: Result<Self, AppError>)
        ensures
            focus_by_file_name_done(self, name@, save_history, r),
    {
        let mut app = self;
        match app.directory_buffer.take() {
            None => Ok(app),
            Some(mut d) => {
                let found = find_named(&d.nodes, name);
                match found {
                    Some(focus) => {
                        let mut history = app.history.copy();
                        if save_history {
                            if let Some(n) = d.focused_node() {
                                history = history.push(n.absolute_path.clone());
                            }
                        }
                        d.focus = focus;
                        if save_history {
                            if let Some(n) = d.focused_node() {
                                app.history = history.push(n.absolute_path.clone());
                            }
                        }
                        app.directory_buffer = Some(d);
                        Ok(app)
                    },
                    None => {
                        app.directory_buffer = Some(d);
                        let mut message = String::from_str(name);
                        message.append(" not found in $PWD");
                        app.log_error(message)
                    },
                }
            },
        }
    }

    /// Remembers `focused_path` as the focus in directory `parent`.
    pub fn add_last_focus(self, parent: String, focused_path: Option<String>) -> (r: Result<Self, AppError>)
        ensures
            add_last_focus_done(self, parent@, opt_text(focused_path), r),
    {
        let mut app = self;
        let ghost es = focus_table(app.last_focus@);
        let found = find_focus_entry(&app.last_focus, &parent);
        match found {
            Some(k) => {
                app.last_focus.set(k, (parent, focused_path));
            },
            None => {
                app.last_focus.push((parent, focused_path));
            },
        }
        assert(focus_table(app.last_focus@) =~= table_insert(es, parent@, opt_text(focused_path)));
        Ok(app)
    }

    /// Takes in a new listing: remembers its focus for its directory, and
    /// shows it when it lists the working directory.
    pub fn set_directory(self, dir: DirectoryBuffer) -> (r: Result<Self, AppError>)
        ensures
            set_directory_done(self, dir, r),
    {
        let focused = match dir.focused_node() {
            Some(n) => Some(n.relative_path.clone()),
            None => None,
        };
        let parent = dir.parent.clone();
        let mut app = match self.add_last_focus(parent, focused) {
            Ok(a) => a,
            Err(e) => return Err(e),
        };
        if dir.parent == app.pwd {
            app.directory_buffer = Some(dir);
        }
        Ok(app)
    }

    /// Asks the runner for `out`.
    fn send(self, out: MsgOut) -> (r: Result<Self, AppError>)
        ensures
            sent_done(self, out, r),
    {
        let mut app = self;
        app.msg_out.push_back(out);
        Ok(app)
    }

    /// Hides the logs and asks the runner for `out`.
    fn send_hiding_logs(self, out: MsgOut) -> (r: Result<Self, AppError>)
        ensures
            sent_hiding_logs_done(self, out, r),
    {
        let mut app = self;
        app.logs_hidden = true;
        app.msg_out.push_back(out);
        Ok(app)
    }

    /// Asks the runner to run `command`, with its output shown.
    pub fn call(self, command: Command) -> (r: Result<Self, AppError>)
        ensures
            called_done(self, command@, false, r),
    {
        let ghost s0 = self;
        let ghost out = MsgOut::Call(command);
        let r = self.send_hiding_logs(MsgOut::Call(command));
        assert(s0.msg_out@.push(out).drop_last() =~= s0.msg_out@);
        r
    }

    /// Asks the runner to run `command`, with its output hidden.
    pub fn call_silently(self, command: Command) -> (r: Result<Self, AppError>)
        ensures
            called_done(self, command@, true, r),
    {
        let ghost s0 = self;
        let ghost out = MsgOut::CallSilently(command);
        let r = self.send_hiding_logs(MsgOut::CallSilently(command));
        assert(s0.msg_out@.push(out).drop_last() =~= s0.msg_out@);
        r
    }

    /// Asks the runner to run `script` with `bash -c`, with its output shown.
    pub fn bash_exec(self, script: String) -> (r: Result<Self, AppError>)
        ensures
            called_done(self, bash_command(script@), false, r),
    {
        let c = bash(script);
        self.call(c)
    }

    /// Asks the runner to run `script` with `bash -c`, with its output hidden.
    pub fn bash_exec_silently(self, script: String) -> (r: Result<Self, AppError>)
        ensures
            called_done(self, bash_command(script@), true, r),
    {
        let c = bash(script);
        self.call_silently(c)
    }

    /// Asks the runner to list the working directory in the background.
    pub fn explore_pwd_async(self) -> (r: Result<Self, AppError>)
        ensures
            sent_done(self, MsgOut::ExplorePwdAsync, r),
    {
        self.send(MsgOut::ExplorePwdAsync)
    }

    /// Asks the runner to list the parent directories in the background.
    pub fn explore_parents_async(self) -> (r: Result<Self, AppError>)
        ensures
            sent_done(self, MsgOut::ExploreParentsAsync, r),
    {
        self.send(MsgOut::ExploreParentsAsync)
    }

    /// Asks the runner to redraw the screen.
    pub fn refresh(self) -> (r: Result<Self, AppError>)
        ensures
            sent_done(self, MsgOut::Refresh, r),
    {
        self.send(MsgOut::Refresh)
    }

    /// Asks the runner to clear the screen.
    pub fn clear_screen(self) -> (r: Result<Self, AppError>)
        ensures
            sent_done(self, MsgOut::ClearScreen, r),
    {
        self.send(MsgOut::ClearScreen)
    }

    /// Asks the runner to enable the mouse.
    pub fn enable_mouse(self) -> (r: Result<Self, AppError>)
        ensures
            sent_done(self, MsgOut::EnableMouse, r),
    {
        self.send(MsgOut::EnableMouse)
    }

    /// Asks the runner to disable the mouse.
    pub fn disable_mouse(self) -> (r: Result<Self, AppError>)
        ensures
            sent_done(self, MsgOut::DisableMouse, r),
    {
        self.send(MsgOut::DisableMouse)
    }

    /// Asks the runner to toggle the mouse.
    pub fn toggle_mouse(self) -> (r: Result<Self, AppError>)
        ensures
            sent_done(self, MsgOut::ToggleMouse, r),
    {
        self.send(MsgOut::ToggleMouse)
    }

    /// Asks the runner to stop writing to the FIFO.
    pub fn stop_fifo(self) -> (r: Result<Self, AppError>)
        ensures
            sent_done(self, MsgOut::StopFifo, r),
    {
        self.send(MsgOut::StopFifo)
    }

    /// Asks the runner to quit.
    pub fn quit(self) -> (r: Result<Self, AppError>)
        ensures
            sent_done(self, MsgOut::Quit, r),
    {
        self.send(MsgOut::Quit)
    }

    /// Asks the runner to print the working directory and quit.
    pub fn print_pwd_and_quit(self) -> (r: Result<Self, AppError>)
        ensures
            sent_done(self, MsgOut::PrintPwdAndQuit, r),
    {
        self.send(MsgOut::PrintPwdAndQuit)
    }

    /// Asks the runner to print the focused path and quit.
    pub fn print_focus_path_and_quit(self) -> (r: Result<Self, AppError>)
        ensures
            sent_done(self, MsgOut::PrintFocusPathAndQuit, r),
    {
        self.send(MsgOut::PrintFocusPathAndQuit)
    }

    /// Asks the runner to print the selection and quit.
    pub fn print_selection_and_quit(self) -> (r: Result<Self, AppError>)
        ensures
            sent_done(self, MsgOut::PrintSelectionAndQuit, r),
    {
        self.send(MsgOut::PrintSelectionAndQuit)
    }

    /// Asks the runner to print the result and quit.
    pub fn print_result_and_quit(self) -> (r: Result<Self, AppError>)
        ensures
            sent_done(self, MsgOut::PrintResultAndQuit, r),
    {
        self.send(MsgOut::PrintResultAndQuit)
    }

    /// Asks the runner to print the state and quit.
    pub fn print_app_state_and_quit(self) -> (r: Result<Self, AppError>)
        ensures
            sent_done(self, MsgOut::PrintAppStateAndQuit, r),
    {
        self.send(MsgOut::PrintAppStateAndQuit)
    }

    /// Asks the runner to write to the FIFO at `path`.
    pub fn start_fifo(self, path: String) -> (r: Result<Self, AppError>)
        ensures
            sent_done(self, MsgOut::StartFifo(path), r),
    {
        self.send(MsgOut::StartFifo(path))
    }

    /// Asks the runner to toggle writing to the FIFO at `path`.
    pub fn toggle_fifo(self, path: String) -> (r: Result<Self, AppError>)
        ensures
            sent_done(self, MsgOut::ToggleFifo(path), r),
    {
        self.send(MsgOut::ToggleFifo(path))
    }

    /// Asks the runner to write the state to `path` for debugging.
    pub fn debug(self, path: String) -> (r: Result<Self, AppError>)
        ensures
            sent_done(self, MsgOut::Debug(path), r),
    {
        self.send(MsgOut::Debug(path))
    }

    /// Asks the runner to call the Lua function `func`, with its output shown.
    pub fn call_lua(self, func: String) -> (r: Result<Self, AppError>)
        ensures
            sent_hiding_logs_done(self, MsgOut::CallLua(func), r),
    {
        self.send_hiding_logs(MsgOut::CallLua(func))
    }

    /// Asks the runner to call the Lua function `func`, with its output hidden.
    pub fn call_lua_silently(self, func: String) -> (r: Result<Self, AppError>)
        ensures
            sent_hiding_logs_done(self, MsgOut::CallLuaSilently(func), r),
    {
        self.send_hiding_logs(MsgOut::CallLuaSilently(func))
    }

    /// Asks the runner to evaluate the Lua `code`, with its output shown.
    pub fn lua_eval(self, code: String) -> (r: Result<Self, AppError>)
        ensures
            sent_hiding_logs_done(self, MsgOut::LuaEval(code), r),
    {
        self.send_hiding_logs(MsgOut::LuaEval(code))
    }

    /// Asks the runner to evaluate the Lua `code`, with its output hidden.
    pub fn lua_eval_silently(self, code: String) -> (r: Result<Self, AppError>)
        ensures
            sent_hiding_logs_done(self, MsgOut::LuaEvalSilently(code), r),
    {
        self.send_hiding_logs(MsgOut::LuaEvalSilently(code))
    }

    /// Queues `task` for the runner.
    pub fn enqueue(self, task: Task) -> (r: Self)
        ensures
            r == (App { msg_out: r.msg_out, ..self }),
            r.msg_out@ == self.msg_out@.push(MsgOut::Enque(task)),
    {
        let mut app = self;
        app.msg_out.push_back(MsgOut::Enque(task));
        app
    }

    /// Saves the current mode on the stack, unless it is the recover mode or
    /// already on top.
    pub fn push_mode(self) -> (r: Self)
        ensures
            r == (App { last_modes: r.last_modes, ..self }),
            modes_view(r.last_modes@) == modes_after_push(self),
    {
        let mut app = self;
        let not_recover = !app.mode.same_as(&app.config.modes.builtin.recover);
        let differs = if app.last_modes.len() == 0 {
            true
        } else {
            !app.last_modes[app.last_modes.len() - 1].same_as(&app.mode)
        };
        if not_recover && differs {
            let m = app.mode.copy();
            app.last_modes.push(m);
        }
        assert(modes_view(app.last_modes@) =~= modes_after_push(self));
        app
    }

    /// Goes back to the mode saved last (if any), keeping the input buffer.
    pub fn pop_mode_keeping_input_buffer(self) -> (r: Result<Self, AppError>)
        ensures
            mode_popped(self, true, r),
    {
        let mut app = self;
        if app.last_modes.len() > 0 {
            if let Some(mode) = app.last_modes.pop() {
                app.mode = mode;
            }
        }
        Ok(app)
    }

    /// Goes back to the mode saved last (if any) and clears the input buffer.
    pub fn pop_mode(self) -> (r: Result<Self, AppError>)
        ensures
            mode_popped(self, false, r),
    {
        match self.pop_mode_keeping_input_buffer() {
            Ok(a) => {
                let mut a = a;
                a.input = None;
                Ok(a)
            },
            Err(e) => Err(e),
        }
    }

    /// Saves the current mode and enters `found` (sanitized for read-only use
    /// when the explorer is read-only), or logs `missing` when nothing was found.
    fn enter_mode(self, found: Option<Mode>, missing: String) -> (r: Result<Self, AppError>)
        ensures
            mode_switched(self, found, missing@, true, r),
    {
        match found {
            Some(m) => {
                let mut app = self.push_mode();
                let read_only = app.config.general.read_only;
                app.mode = m.sanitized(read_only);
                Ok(app)
            },
            None => self.log_error(missing),
        }
    }

    /// Enters the mode named `mode`, keeping the input buffer.
    pub fn switch_mode_keeping_input_buffer(self, mode: &str) -> (r: Result<Self, AppError>)
        ensures
            mode_switched(self, self.config.modes.named(mode@), "Mode not found: "@ + mode@, true, r),
    {
        let found = match self.config.modes.get(mode) {
            Some(m) => Some(m.copy()),
            None => None,
        };
        let mut missing = String::from_str("Mode not found: ");
        missing.append(mode);
        self.enter_mode(found, missing)
    }

    /// Enters the mode named `mode` and clears the input buffer.
    pub fn switch_mode(self, mode: &str) -> (r: Result<Self, AppError>)
        ensures
            mode_switched(self, self.config.modes.named(mode@), "Mode not found: "@ + mode@, false, r),
    {
        match self.switch_mode_keeping_input_buffer(mode) {
            Ok(a) => {
                let mut a = a;
                a.input = None;
                Ok(a)
            },
            Err(e) => Err(e),
        }
    }

    /// Enters the builtin mode named `mode`, keeping the input buffer.
    pub fn switch_mode_builtin_keeping_input_buffer(self, mode: &str) -> (r: Result<Self, AppError>)
        ensures
            mode_switched(self, self.config.modes.builtin.named(mode@), "Builtin mode not found: "@ + mode@, true, r),
    {
        let found = match self.config.modes.builtin.get(mode) {
            Some(m) => Some(m.copy()),
            None => None,
        };
        let mut missing = String::from_str("Builtin mode not found: ");
        missing.append(mode);
        self.enter_mode(found, missing)
    }

    /// Enters the builtin mode named `mode` and clears the input buffer.
    pub fn switch_mode_builtin(self, mode: &str) -> (r: Result<Self, AppError>)
        ensures
            mode_switched(self, self.config.modes.builtin.named(mode@), "Builtin mode not found: "@ + mode@, false, r),
    {
        match self.switch_mode_builtin_keeping_input_buffer(mode) {
            Ok(a) => {
                let mut a = a;
                a.input = None;
                Ok(a)
            },
            Err(e) => Err(e),
        }
    }

    /// Enters the custom mode named `mode`, keeping the input buffer.
    pub fn switch_mode_custom_keeping_input_buffer(self, mode: &str) -> (r: Result<Self, AppError>)
        ensures
            mode_switched(self, first_with_key(self.config.modes.custom@, mode@), "Custom mode not found: "@ + mode@, true, r),
    {
        let found = match find_entry(&self.config.modes.custom, mode) {
            Some(m) => Some(m.copy()),
            None => None,
        };
        let mut missing = String::from_str("Custom mode not found: ");
        missing.append(mode);
        self.enter_mode(found, missing)
    }

    /// Enters the custom mode named `mode` and clears the input buffer.
    pub fn switch_mode_custom(self, mode: &str) -> (r: Result<Self, AppError>)
        ensures
            mode_switched(self, first_with_key(self.config.modes.custom@, mode@), "Custom mode not found: "@ + mode@, false, r),
    {
        match self.switch_mode_custom_keeping_input_buffer(mode) {
            Ok(a) => {
                let mut a = a;
                a.input = None;
                Ok(a)
            },
            Err(e) => Err(e),
        }
    }

    /// Switches to the layout named `layout`, or logs an error when there is none.
    pub fn switch_layout(self, layout: &str) -> (r: Result<Self, AppError>)
        ensures
            layout_switched(self, self.config.layouts.named(layout@), "Layout not found: "@ + layout@, r),
    {
        let found = match self.config.layouts.get(layout) {
            Some(l) => Some(l.copy()),
            None => None,
        };
        match found {
            Some(l) => {
                let mut app = self;
                app.layout = l;
                Ok(app)
            },
            None => {
                let mut missing = String::from_str("Layout not found: ");
                missing.append(layout);
                self.log_error(missing)
            },
        }
    }

    /// Switches to the builtin layout named `layout`, or logs an error when there is none.
    pub fn switch_layout_builtin(self, layout: &str) -> (r: Result<Self, AppError>)
        ensures
            layout_switched(self, self.config.layouts.builtin.named(layout@), "Builtin layout not found: "@ + layout@, r),
    {
        let found = match self.config.layouts.builtin.get(layout) {
            Some(l) => Some(l.copy()),
            None => None,
        };
        match found {
            Some(l) => {
                let mut app = self;
                app.layout = l;
                Ok(app)
            },
            None => {
                let mut missing = String::from_str("Builtin layout not found: ");
                missing.append(layout);
                self.log_error(missing)
            },
        }
    }

    /// Switches to the custom layout named `layout`, or logs an error when there is none.
    pub fn switch_layout_custom(self, layout: &str) -> (r: Result<Self, AppError>)
        ensures
            layout_switched(self, first_with_key(self.config.layouts.custom@, layout@), "Custom layout not found: "@ + layout@, r),
    {
        let found = match self.config.layouts.get_custom(layout) {
            Some(l) => Some(l.copy()),
            None => None,
        };
        match found {
            Some(l) => {
                let mut app = self;
                app.layout = l;
                Ok(app)
            },
            None => {
                let mut missing = String::from_str("Custom layout not found: ");
                missing.append(layout);
                self.log_error(missing)
            },
        }
    }

    /// A path made absolute against the working directory (see [`absolute`]).
    fn absolute_path_of(&self, path: &str) -> (r: String)
        ensures
            r@ == absolute(*self, path@),
    {
        if is_relative(path) {
            join(self.pwd.as_str(), path)
        } else {
            String::from_str(path)
        }
    }

    /// Selects the node under the focus.
    pub fn select(self) -> (r: Result<Self, AppError>)
        ensures
            select_done(self, r),
    {
        let n = match self.focused_node() {
            Some(n) => n.copy(),
            None => return Ok(self),
        };
        let mut app = self;
        node_set_insert(&mut app.selection, n);
        Ok(app)
    }

    /// Selects the node at `path` (relative to the working directory when relative).
    pub fn select_path(self, path: String) -> (r: Result<Self, AppError>)
        ensures
            select_path_done(self, path@, r),
    {
        let p = self.absolute_path_of(path.as_str());
        let dir = parent(p.as_str());
        let name = file_name(p.as_str());
        match (dir, name) {
            (Some(d), Some(n)) => {
                let mut app = self;
                node_set_insert(&mut app.selection, Node::new(d, n));
                Ok(app)
            },
            _ => Ok(self),
        }
    }

    /// Selects every node of the listing.
    pub fn select_all(self) -> (r: Result<Self, AppError>)
        ensures
            select_all_done(self, r),
    {
        let mut app = self;
        match app.directory_buffer.take() {
            None => Ok(app),
            Some(d) => {
                let ghost items0 = node_set_items(app.selection);
                let mut i: usize = 0;
                while i < d.nodes.len()
                    invariant
                        self.directory_buffer == Some(d),
                        app == (App { selection: app.selection, directory_buffer: None, ..self }),
                        i <= d.nodes.len(),
                        node_set_items(app.selection) == set_insert_all(items0, nodes_view(d.nodes@.take(i as int))),
                    decreases d.nodes.len() - i,
                {
                    let n = d.nodes[i].copy();
                    node_set_insert(&mut app.selection, n);
                    assert(nodes_view(d.nodes@.take(i + 1)).drop_last() =~= nodes_view(d.nodes@.take(i as int)));
                    i = i + 1;
                }
                assert(d.nodes@.take(d.nodes.len() as int) =~= d.nodes@);
                app.directory_buffer = Some(d);
                Ok(app)
            },
        }
    }

    /// Unselects the node under the focus.
    pub fn un_select(self) -> (r: Result<Self, AppError>)
        ensures
            un_select_done(self, r),
    {
        let ghost s0 = self;
        let n = match self.focused_node() {
            Some(n) => n.copy(),
            None => return Ok(self),
        };
        let mut app = self;
        let ghost nv = n@;
        assert(nv == focused(s0)->0@);
        let rule = NodeKeep::NotNode(n);
        node_set_retain(&mut app.selection, &rule);
        assert((|x: NodeView| node_keep_holds(&rule, x)) =~= (|x: NodeView| x != nv));
        assert((|x: NodeView| x != nv) =~= (|x: NodeView| x != focused(s0)->0@));
        Ok(app)
    }

    /// Unselects the nodes at `path` (relative to the working directory when relative).
    pub fn un_select_path(self, path: String) -> (r: Result<Self, AppError>)
        ensures
            un_select_path_done(self, path@, r),
    {
        let p = self.absolute_path_of(path.as_str());
        let mut app = self;
        let ghost pv = p@;
        let rule = NodeKeep::NotPath(p);
        node_set_retain(&mut app.selection, &rule);
        assert((|x: NodeView| node_keep_holds(&rule, x)) =~= (|x: NodeView| !path_eq(x.absolute_path, pv)));
        Ok(app)
    }

    /// Unselects every node of the listing.
    pub fn un_select_all(self) -> (r: Result<Self, AppError>)
        ensures
            un_select_all_done(self, r),
    {
        let mut app = self;
        match app.directory_buffer.take() {
            None => Ok(app),
            Some(d) => {
                let ghost items0 = node_set_items(app.selection);
                let mut i: usize = 0;
                while i < d.nodes.len()
                    invariant
                        self.directory_buffer == Some(d),
                        app == (App { selection: app.selection, directory_buffer: None, ..self }),
                        i <= d.nodes.len(),
                        node_set_items(app.selection) == set_remove_all(items0, nodes_view(d.nodes@.take(i as int))),
                    decreases d.nodes.len() - i,
                {
                    let rule = NodeKeep::NotNode(d.nodes[i].copy());
                    node_set_retain(&mut app.selection, &rule);
                    assert((|x: NodeView| node_keep_holds(&rule, x)) =~= (|x: NodeView| x != nodes_view(d.nodes@.take(i + 1)).last()));
                    assert(nodes_view(d.nodes@.take(i + 1)).drop_last() =~= nodes_view(d.nodes@.take(i as int)));
                    i = i + 1;
                }
                assert(d.nodes@.take(d.nodes.len() as int) =~= d.nodes@);
                app.directory_buffer = Some(d);
                Ok(app)
            },
        }
    }

    /// Whether some selected node has the path `p`.
    fn has_selected_path(&self, p: &String) -> (r: bool)
        ensures
            r == path_selected(*self, p@),
    {
        let n = node_set_len(&self.selection);
        let mut i: usize = 0;
        while i < n
            invariant
                n == selected(*self).len(),
                i <= n,
                forall|j: int| 0 <= j < i ==> !path_eq(selected(*self)[j].absolute_path, p@),
            decreases n - i,
        {
            match node_set_get(&self.selection, i) {
                Some(x) => {
                    if same_path(x.absolute_path.as_str(), p.as_str()) {
                        assert(path_eq(selected(*self)[i as int].absolute_path, p@));
                        return true;
                    }
                },
                None => {},
            }
            i = i + 1;
        }
        false
    }

    /// Unselects the nodes at `path` when one is selected, else selects it.
    pub fn toggle_selection_by_path(self, path: String) -> (r: Result<Self, AppError>)
        ensures
            toggle_selection_by_path_done(self, path@, r),
    {
        let p = self.absolute_path_of(path.as_str());
        if self.has_selected_path(&p) {
            self.un_select_path(path)
        } else {
            self.select_path(path)
        }
    }

    /// Toggles the selection of the node under the focus.
    pub fn toggle_selection(self) -> (r: Result<Self, AppError>)
        ensures
            toggle_selection_done(self, r),
    {
        let p = match self.focused_node() {
            Some(n) => n.absolute_path.clone(),
            None => return Ok(self),
        };
        self.toggle_selection_by_path(p)
    }

    /// Unselects every node of the listing when all are selected, else selects them all.
    pub fn toggle_select_all(self) -> (r: Result<Self, AppError>)
        ensures
            toggle_select_all_done(self, r),
    {
        let all = match &self.directory_buffer {
            None => return Ok(self),
            Some(d) => {
                let mut i: usize = 0;
                let mut all = true;
                while i < d.nodes.len()
                    invariant
                        i <= d.nodes.len(),
                        all == forall|j: int| 0 <= j < i ==> selected(self).contains(#[trigger] d.nodes@[j]@),
                    decreases d.nodes.len() - i,
                {
                    if !node_set_contains(&self.selection, &d.nodes[i]) {
                        all = false;
                    }
                    i = i + 1;
                }
                all
            },
        };
        if all {
            self.un_select_all()
        } else {
            self.select_all()
        }
    }

    /// Empties the selection.
    pub fn clear_selection(self) -> (r: Result<Self, AppError>)
        ensures
            clear_selection_done(self, r),
    {
        let mut app = self;
        node_set_clear(&mut app.selection);
        Ok(app)
    }

    /// Keeps selected only the nodes whose absolute path is one of `existing`
    /// (the runner passes the paths that still exist on disk).
    pub fn keep_existing(self, existing: Vec<String>) -> (r: Result<Self, AppError>)
        ensures
            selection_now(
                self,
                selected(self).filter(|x: NodeView| node_keep_holds(&NodeKeep::AmongPaths(existing), x)),
                r,
            ),
    {
        let mut app = self;
        let rule = NodeKeep::AmongPaths(existing);
        node_set_retain(&mut app.selection, &rule);
        Ok(app)
    }

    /// Adds a node filter (kept once).
    pub fn add_node_filter(self, filter: NodeFilterApplicable) -> (r: Result<Self, AppError>)
        ensures
            add_node_filter_done(self, filter, r),
    {
        let mut app = self;
        filter_set_replace(&mut app.explorer_config.filters, filter);
        Ok(app)
    }

    /// Adds the filter `filter` applied to the text typed in the input buffer
    /// (nothing happens when there is none).
    pub fn add_node_filter_from_input(self, filter: NodeFilter) -> (r: Result<Self, AppError>)
        ensures
            add_node_filter_from_input_done(self, filter, r),
    {
        let f = match &self.input {
            Some(i) => NodeFilterApplicable::new(filter, String::from_str(i.value())),
            None => return Ok(self),
        };
        let mut app = self;
        filter_set_insert(&mut app.explorer_config.filters, f);
        Ok(app)
    }

    /// Removes a node filter.
    pub fn remove_node_filter(self, filter: NodeFilterApplicable) -> (r: Result<Self, AppError>)
        ensures
            remove_node_filter_done(self, filter, r),
    {
        let mut app = self;
        filter_set_retain(&mut app.explorer_config.filters, &filter);
        Ok(app)
    }

    /// Removes the filter `filter` applied to the text typed in the input
    /// buffer (nothing happens when there is none).
    pub fn remove_node_filter_from_input(self, filter: NodeFilter) -> (r: Result<Self, AppError>)
        ensures
            remove_node_filter_from_input_done(self, filter, r),
    {
        let ghost s0 = self;
        let f = match &self.input {
            Some(i) => NodeFilterApplicable::new(filter, String::from_str(i.value())),
            None => return Ok(self),
        };
        let ghost fv = f@;
        assert(fv == NodeFilterApplicableView { filter, input: typed(s0)->0 });
        let mut app = self;
        filter_set_retain(&mut app.explorer_config.filters, &f);
        assert(filters(app) == removing_filter(filters(s0), fv));
        Ok(app)
    }

    /// Removes a node filter when present, else adds it.
    pub fn toggle_node_filter(self, filter: NodeFilterApplicable) -> (r: Result<Self, AppError>)
        ensures
            toggle_node_filter_done(self, filter, r),
    {
        if filter_set_contains(&self.explorer_config.filters, &filter) {
            self.remove_node_filter(filter)
        } else {
            self.add_node_filter(filter)
        }
    }

    /// Removes the node filter added last.
    pub fn remove_last_node_filter(self) -> (r: Result<Self, AppError>)
        ensures
            remove_last_node_filter_done(self, r),
    {
        let mut app = self;
        filter_set_pop(&mut app.explorer_config.filters);
        Ok(app)
    }

    /// Removes all node filters, then hides dotfiles unless the configuration
    /// shows hidden files.
    pub fn reset_node_filters(self) -> (r: Result<Self, AppError>)
        ensures
            reset_node_filters_done(self, r),
    {
        let mut app = self;
        filter_set_clear(&mut app.explorer_config.filters);
        if !app.config.general.show_hidden {
            let f = NodeFilterApplicable::new(NodeFilter::RelativePathDoesNotStartWith, String::from_str("."));
            let r = app.add_node_filter(f);
            proof {
                assert(Seq::<NodeFilterApplicableView>::empty().push(hide_dotfiles()) =~= seq![hide_dotfiles()]);
            }
            r
        } else {
            Ok(app)
        }
    }

    /// Removes all node filters.
    pub fn clear_node_filters(self) -> (r: Result<Self, AppError>)
        ensures
            clear_node_filters_done(self, r),
    {
        let mut app = self;
        filter_set_clear(&mut app.explorer_config.filters);
        Ok(app)
    }

    /// Adds a node sorter (kept once).
    pub fn add_node_sorter(self, sorter: NodeSorterApplicable) -> (r: Result<Self, AppError>)
        ensures
            add_node_sorter_done(self, sorter, r),
    {
        let mut app = self;
        sorter_set_replace(&mut app.explorer_config.sorters, sorter);
        Ok(app)
    }

    /// Removes the node sorters by `sorter`, in either direction.
    pub fn remove_node_sorter(self, sorter: NodeSorter) -> (r: Result<Self, AppError>)
        ensures
            remove_node_sorter_done(self, sorter, r),
    {
        let mut app = self;
        sorter_set_retain(&mut app.explorer_config.sorters, sorter);
        Ok(app)
    }

    /// Removes a node sorter (by its key) when it is present, else adds it.
    pub fn toggle_node_sorter(self, sorter: NodeSorterApplicable) -> (r: Result<Self, AppError>)
        ensures
            toggle_node_sorter_done(self, sorter, r),
    {
        if sorter_set_contains(&self.explorer_config.sorters, &sorter) {
            self.remove_node_sorter(sorter.sorter)
        } else {
            self.add_node_sorter(sorter)
        }
    }

    /// Removes the node sorter added last.
    pub fn remove_last_node_sorter(self) -> (r: Result<Self, AppError>)
        ensures
            remove_last_node_sorter_done(self, r),
    {
        let mut app = self;
        sorter_set_pop(&mut app.explorer_config.sorters);
        Ok(app)
    }

    /// Turns around the sorters by `sorter` (when that makes two equal, the
    /// first stays).
    pub fn reverse_node_sorter(self, sorter: NodeSorter) -> (r: Result<Self, AppError>)
        ensures
            reverse_node_sorter_done(self, sorter, r),
    {
        let mut app = self;
        let mut set = sorter_set_new();
        std::mem::swap(&mut set, &mut app.explorer_config.sorters);
        let v = sorter_set_into_vec(set);
        let mut w: Vec<NodeSorterApplicable> = Vec::new();
        let mut i: usize = 0;
        while i < v.len()
            invariant
                i <= v.len(),
                w@ == reversing(v@.take(i as int), sorter),
            decreases v.len() - i,
        {
            let x = v[i];
            if x.sorter == sorter {
                w.push(x.reversed());
            } else {
                w.push(x);
            }
            assert(reversing(v@.take(i + 1), sorter) =~= reversing(v@.take(i as int), sorter).push(w@.last()));
            i = i + 1;
        }
        assert(v@.take(v.len() as int) =~= v@);
        app.explorer_config.sorters = sorter_set_from_vec(w);
        Ok(app)
    }

    /// Turns around every node sorter (when that makes two equal, the first stays).
    pub fn reverse_node_sorters(self) -> (r: Result<Self, AppError>)
        ensures
            reverse_node_sorters_done(self, r),
    {
        let mut app = self;
        let mut set = sorter_set_new();
        std::mem::swap(&mut set, &mut app.explorer_config.sorters);
        let v = sorter_set_into_vec(set);
        let mut w: Vec<NodeSorterApplicable> = Vec::new();
        let mut i: usize = 0;
        while i < v.len()
            invariant
                i <= v.len(),
                w@ == all_reversed(v@.take(i as int)),
            decreases v.len() - i,
        {
            w.push(v[i].reversed());
            assert(all_reversed(v@.take(i + 1)) =~= all_reversed(v@.take(i as int)).push(w@.last()));
            i = i + 1;
        }
        assert(v@.take(v.len() as int) =~= v@);
        app.explorer_config.sorters = sorter_set_from_vec(w);
        Ok(app)
    }

    /// Puts back the sorters the configuration starts with (none if it names none).
    pub fn reset_node_sorters(self) -> (r: Result<Self, AppError>)
        ensures
            reset_node_sorters_done(self, r),
    {
        let mut app = self;
        let set = match &app.config.general.initial_sorting {
            Some(s) => sorter_set_clone(s),
            None => sorter_set_new(),
        };
        app.explorer_config.sorters = set;
        Ok(app)
    }

    /// Removes all node sorters.
    pub fn clear_node_sorters(self) -> (r: Result<Self, AppError>)
        ensures
            clear_node_sorters_done(self, r),
    {
        let mut app = self;
        sorter_set_clear(&mut app.explorer_config.sorters);
        Ok(app)
    }

    /// Applies `op` to the input buffer (creating it when the edit changes
    /// anything) and hides the logs when the buffer is there.
    pub fn update_input_buffer(self, op: InputOperation) -> (r: Result<Self, AppError>)
        ensures
            update_input_buffer_done(self, op, r),
    {
        let mut app = self;
        match app.input.take() {
            Some(mut buf) => {
                buf.handle(op);
                app.input = Some(buf);
                app.logs_hidden = true;
                Ok(app)
            },
            None => {
                let mut buf = InputBuffer::new();
                if buf.handle(op) {
                    app.input = Some(buf);
                    app.logs_hidden = true;
                }
                Ok(app)
            },
        }
    }

    /// Applies the edit that `key` stands for (nothing happens when it stands
    /// for none, or when no key is given).
    pub fn update_input_buffer_from_key(self, key: Option<Key>) -> (r: Result<Self, AppError>)
        ensures
            update_input_buffer_from_key_done(self, key, r),
    {
        match key {
            Some(k) => match k.to_input_operation() {
                Some(op) => self.update_input_buffer(op),
                None => Ok(self),
            },
            None => Ok(self),
        }
    }

    /// Appends `input` to the input buffer (created when missing), moving the
    /// cursor to the end.
    pub fn buffer_input(self, input: &str) -> (r: Result<Self, AppError>)
        requires
            self.input matches Some(b) ==> b.value@.len() + input@.len() < usize::MAX,
        ensures
            buffer_input_done(self, input@, r),
    {
        let mut app = self;
        match app.input.take() {
            Some(mut buf) => {
                let ghost v0 = buf.value@;
                buf.handle(InputOperation::GoToEnd);
                let cs = chars_of(input);
                let mut i: usize = 0;
                while i < cs.len()
                    invariant
                        i <= cs.len(),
                        cs@ == input@,
                        v0.len() + input@.len() < usize::MAX,
                        buf.value@ == v0 + input@.take(i as int),
                        buf.cursor == buf.value@.len(),
                    decreases cs.len() - i,
                {
                    let ghost before = buf.value@;
                    buf.handle(InputOperation::InsertCharacter(cs[i]));
                    assert(before.take(before.len() as int) =~= before);
                    assert(before.skip(before.len() as int) =~= Seq::<char>::empty());
                    assert(v0 + input@.take(i + 1) =~= before.push(cs@[i as int]));
                    i = i + 1;
                }
                assert(input@.take(cs.len() as int) =~= input@);
                app.input = Some(buf);
                app.logs_hidden = true;
                Ok(app)
            },
            None => {
                app.input = Some(InputBuffer::with_value(String::from_str(input)));
                app.logs_hidden = true;
                Ok(app)
            },
        }
    }

    /// Appends the character that `key` types (nothing happens when it types
    /// none, or when no key is given).
    pub fn buffer_input_from_key(self, key: Option<Key>) -> (r: Result<Self, AppError>)
        requires
            self.input matches Some(b) ==> b.value@.len() + 1 < usize::MAX,
        ensures
            buffer_input_from_key_done(self, key, r),
    {
        match key {
            Some(k) => match k.to_char() {
                Some(c) => {
                    let t = char_text(c);
                    self.buffer_input(t.as_str())
                },
                None => Ok(self),
            },
            None => Ok(self),
        }
    }

    /// Replaces the input buffer by one holding `string`, with the cursor at its end.
    pub fn set_input_buffer(self, string: String) -> (r: Result<Self, AppError>)
        ensures
            set_input_buffer_done(self, string, r),
    {
        let mut app = self;
        app.input = Some(InputBuffer::with_value(string));
        app.logs_hidden = true;
        Ok(app)
    }

    /// Deletes the last character of the input buffer (if there is a buffer).
    pub fn remove_input_buffer_last_character(self) -> (r: Result<Self, AppError>)
        ensures
            remove_input_buffer_last_character_done(self, r),
    {
        let mut app = self;
        match app.input.take() {
            Some(mut buf) => {
                let ghost v0 = buf.value@;
                buf.handle(InputOperation::GoToEnd);
                assert(buf.value@ == v0 && buf.cursor == v0.len());
                buf.handle(InputOperation::DeletePreviousCharacter);
                proof {
                    if v0.len() > 0 {
                        assert(v0.remove(v0.len() - 1) =~= v0.drop_last());
                        assert(buf.value@ == v0.drop_last());
                    }
                }
                app.input = Some(buf);
                app.logs_hidden = true;
                Ok(app)
            },
            None => Ok(app),
        }
    }

    /// Deletes the last word of the input buffer (if there is a buffer).
    pub fn remove_input_buffer_last_word(self) -> (r: Result<Self, AppError>)
        ensures
            remove_input_buffer_last_word_done(self, r),
    {
        let mut app = self;
        match app.input.take() {
            Some(mut buf) => {
                buf.handle(InputOperation::GoToEnd);
                buf.handle(InputOperation::DeletePreviousWord);
                app.input = Some(buf);
                app.logs_hidden = true;
                Ok(app)
            },
            None => Ok(app),
        }
    }

    /// Drops the input buffer.
    pub fn reset_input_buffer(self) -> (r: Result<Self, AppError>)
        ensures
            reset_input_buffer_done(self, r),
    {
        let mut app = self;
        app.input = None;
        Ok(app)
    }

    /// Queues, for the runner, the messages that `key` sends in the current
    /// mode (see [`key_messages`]).
    pub fn handle_key(self, key: Key) -> (r: Result<Self, AppError>)
        ensures
            handle_key_done(self, key, r),
    {
        let ghost s0 = self;
        let msgs: Vec<ExternalMsg> = {
            let kb = &self.mode.key_bindings;
            let name = key.to_text();
            let mut action: Option<&Action> = find_entry(&kb.on_key, name.as_str());
            if action.is_none() {
                action = if key.is_alphabet() {
                    kb.on_alphabet.as_ref()
                } else if key.is_number() {
                    kb.on_number.as_ref()
                } else if key.is_special_character() {
                    kb.on_special_character.as_ref()
                } else if key.is_navigation() {
                    kb.on_navigation.as_ref()
                } else if key.is_function() {
                    kb.on_function.as_ref()
                } else {
                    None
                };
            }
            if action.is_none() && key.is_alphanumeric() {
                action = kb.on_alphanumeric.as_ref();
            }
            if action.is_none() && key.is_character() {
                action = kb.on_character.as_ref();
            }
            if action.is_none() {
                action = kb.default.as_ref();
            }
            match action {
                Some(a) => copy_msgs(&a.messages),
                None => {
                    let mut v: Vec<ExternalMsg> = Vec::new();
                    if self.config.general.enable_recover_mode {
                        v.push(ExternalMsg::SwitchModeBuiltin(String::from_str("recover")));
                    } else {
                        v.push(ExternalMsg::LogWarning(String::from_str("Key map not found.")));
                    }
                    assert(msgs_view(v@) =~= key_messages(s0, key));
                    v
                },
            }
        };
        assert(msgs_view(msgs@) == key_messages(s0, key));
        let mut app = self;
        let mut i: usize = 0;
        assert(s0.msg_out@.take(s0.msg_out@.len() as int) =~= s0.msg_out@);
        while i < msgs.len()
            invariant
                i <= msgs.len(),
                msgs_view(msgs@) == key_messages(s0, key),
                app == (App { msg_out: app.msg_out, ..s0 }),
                enqueued(s0.msg_out@, app.msg_out@, msgs_view(msgs@).take(i as int), key),
            decreases msgs.len() - i,
        {
            let ghost before = app.msg_out@;
            let m = msgs[i].copy();
            app = app.enqueue(Task::new(MsgIn::External(m), Some(key.copy())));
            assert(app.msg_out@.take(s0.msg_out@.len() as int) =~= before.take(s0.msg_out@.len() as int));
            assert forall|j: int| 0 <= j < i + 1 implies is_task_for(#[trigger] app.msg_out@[s0.msg_out@.len() + j], msgs_view(msgs@).take(i + 1)[j], key) by {
                if j < i {
                    assert(app.msg_out@[s0.msg_out@.len() + j] == before[s0.msg_out@.len() + j]);
                }
            }
            i = i + 1;
        }
        assert(msgs_view(msgs@).take(msgs.len() as int) =~= msgs_view(msgs@));
        Ok(app)
    }

    /// Handles a message from inside the explorer.
    pub fn handle_internal(self, msg: InternalMsg) -> (r: Result<Self, AppError>)
        ensures
            handle_internal_done(self, msg, r),
    {
        match msg {
            InternalMsg::SetDirectory(dir) => self.set_directory(dir),
            InternalMsg::AddLastFocus(parent, focus_path) => self.add_last_focus(parent, focus_path),
            InternalMsg::HandleKey(key) => self.handle_key(key),
        }
    }

    /// The name of the current mode, with a line break.
    pub fn mode_str(&self) -> (r: String)
        ensures
            r@ == self.mode.name@ + seq!['\n'],
    {
        let mut s = self.mode.name.clone();
        s.append("\n");
        proof {
            reveal_strlit("\n");
        }
        s
    }

    /// The working directory, with a line break.
    pub fn pwd_str(&self) -> (r: String)
        ensures
            r@ == self.pwd@ + seq!['\n'],
    {
        let mut s = self.pwd.clone();
        s.append("\n");
        proof {
            reveal_strlit("\n");
        }
        s
    }

    /// The absolute paths of the listed nodes, one per line (empty when
    /// nothing is listed).
    pub fn directory_nodes_str(&self) -> (r: String)
        ensures
            r@ == match self.directory_buffer {
                Some(d) => lines(paths_of(nodes_view(d.nodes@))),
                None => Seq::empty(),
            },
    {
        match &self.directory_buffer {
            Some(d) => {
                let mut s = String::new();
                let mut i: usize = 0;
                while i < d.nodes.len()
                    invariant
                        i <= d.nodes.len(),
                        s@ == lines(paths_of(nodes_view(d.nodes@.take(i as int)))),
                    decreases d.nodes.len() - i,
                {
                    s.append(d.nodes[i].absolute_path.as_str());
                    s.append("\n");
                    proof {
                        reveal_strlit("\n");
                        assert(paths_of(nodes_view(d.nodes@.take(i + 1))).drop_last() =~= paths_of(nodes_view(d.nodes@.take(i as int))));
                    }
                    i = i + 1;
                }
                assert(d.nodes@.take(d.nodes.len() as int) =~= d.nodes@);
                s
            },
            None => String::new(),
        }
    }

    /// The absolute paths of the selected nodes, one per line.
    pub fn selection_str(&self) -> (r: String)
        ensures
            r@ == lines(paths_of(selected(*self))),
    {
        let n = node_set_len(&self.selection);
        let mut s = String::new();
        let mut i: usize = 0;
        while i < n
            invariant
                n == selected(*self).len(),
                i <= n,
                s@ == lines(paths_of(selected(*self).take(i as int))),
            decreases n - i,
        {
            match node_set_get(&self.selection, i) {
                Some(x) => {
                    s.append(x.absolute_path.as_str());
                    s.append("\n");
                    proof {
                        reveal_strlit("\n");
                        assert(paths_of(selected(*self).take(i + 1)).drop_last() =~= paths_of(selected(*self).take(i as int)));
                    }
                },
                None => {},
            }
            i = i + 1;
        }
        assert(selected(*self).take(n as int) =~= selected(*self));
        s
    }

    /// The nodes the explorer acts on: the selected ones, or the focused one
    /// when nothing is selected.
    pub fn result(&self) -> (r: Vec<&Node>)
        ensures
            r@.map_values(|n: &Node| n@) == result_nodes(*self),
    {
        let mut v: Vec<&Node> = Vec::new();
        if node_set_is_empty(&self.selection) {
            match self.focused_node() {
                Some(n) => v.push(n),
                None => {},
            }
            assert(v@.map_values(|n: &Node| n@) =~= result_nodes(*self));
            v
        } else {
            let n = node_set_len(&self.selection);
            let mut i: usize = 0;
            while i < n
                invariant
                    n == selected(*self).len(),
                    i <= n,
                    v@.map_values(|x: &Node| x@) == selected(*self).take(i as int),
                decreases n - i,
            {
                match node_set_get(&self.selection, i) {
                    Some(x) => {
                        let ghost before = v@;
                        v.push(x);
                        assert(v@ == before.push(x));
                        assert(v@.map_values(|y: &Node| y@) =~= before.map_values(|y: &Node| y@).push(x@));
                        assert(selected(*self).take(i + 1) =~= selected(*self).take(i as int).push(selected(*self)[i as int]));
                    },
                    None => {},
                }
                i = i + 1;
            }
            assert(selected(*self).take(n as int) =~= selected(*self));
            v
        }
    }

    /// The absolute paths of the nodes the explorer acts on, one per line.
    pub fn result_str(&self) -> (r: String)
        ensures
            r@ == lines(paths_of(result_nodes(*self))),
    {
        let nodes = self.result();
        let mut s = String::new();
        let mut i: usize = 0;
        let ghost all = nodes@.map_values(|n: &Node| n@);
        while i < nodes.len()
            invariant
                i <= nodes.len(),
                all == nodes@.map_values(|n: &Node| n@),
                s@ == lines(paths_of(all.take(i as int))),
            decreases nodes.len() - i,
        {
            s.append(nodes[i].absolute_path.as_str());
            s.append("\n");
            proof {
                reveal_strlit("\n");
                assert(paths_of(all.take(i + 1)).drop_last() =~= paths_of(all.take(i as int)));
                assert(all.take(i + 1).last() == nodes@[i as int]@);
            }
            i = i + 1;
        }
        assert(all.take(nodes.len() as int) =~= all);
        s
    }

    /// The log entries, one per line.
    pub fn logs_str(&self) -> (r: String)
        ensures
            r@ == lines(self.logs@.map_values(|l: Log| log_line(
                timestamp_display(l.created_at.secs, l.created_at.nanos, l.created_at.offset_secs),
                l.level,
                l.message@,
            ))),
    {
        let ghost texts = self.logs@.map_values(|l: Log| log_line(
            timestamp_display(l.created_at.secs, l.created_at.nanos, l.created_at.offset_secs),
            l.level,
            l.message@,
        ));
        let mut s = String::new();
        let mut i: usize = 0;
        while i < self.logs.len()
            invariant
                i <= self.logs.len(),
                texts == self.logs@.map_values(|l: Log| log_line(
                    timestamp_display(l.created_at.secs, l.created_at.nanos, l.created_at.offset_secs),
                    l.level,
                    l.message@,
                )),
                s@ == lines(texts.take(i as int)),
            decreases self.logs.len() - i,
        {
            let t = self.logs[i].to_text();
            s.append(t.as_str());
            s.append("\n");
            proof {
                reveal_strlit("\n");
                assert(texts.take(i + 1).drop_last() =~= texts.take(i as int));
            }
            i = i + 1;
        }
        assert(texts.take(self.logs.len() as int) =~= texts);
        s
    }

    /// The visited paths, one per line.
    pub fn history_str(&self) -> (r: String)
        ensures
            r@ == lines(self.history@.paths),
    {
        let mut s = String::new();
        let mut i: usize = 0;
        while i < self.history.paths.len()
            invariant
                i <= self.history.paths.len(),
                s@ == lines(self.history@.paths.take(i as int)),
            decreases self.history.paths.len() - i,
        {
            s.append(self.history.paths[i].as_str());
            s.append("\n");
            proof {
                reveal_strlit("\n");
                assert(self.history@.paths.take(i + 1).drop_last() =~= self.history@.paths.take(i as int));
            }
            i = i + 1;
        }
        assert(self.history@.paths.take(self.history.paths.len() as int) =~= self.history@.paths);
        s
    }

    /// Asks the runner to list the working directory.
    pub fn explore_pwd(self) -> (r: Result<Step, AppError>)
        ensures
            explore_pwd_done(self, r),
    {
        Ok(Step { app: self, io: Some(Io::ExplorePwd) })
    }

    /// Before the working directory is listed: re-records its remembered
    /// focus, and answers that focus and the current focus index (0 when
    /// nothing is listed), which the listing starts from.
    pub fn prepare_explore_pwd(self) -> (r: Result<(Self, Option<String>, usize), AppError>)
        ensures
            r matches Ok((a, f, i))
                && add_last_focus_done(self, self.pwd@, remembered_focus(self), Ok(a))
                && opt_text(f) == remembered_focus(self)
                && i == match self.directory_buffer {
                    Some(d) => d.focus,
                    None => 0,
                },
    {
        let ghost s0 = self;
        let found = find_focus_entry(&self.last_focus, &self.pwd);
        let focus: Option<String> = match found {
            Some(k) => {
                assert(focus_table(self.last_focus@)[k as int] == focus_entry_view(self.last_focus@[k as int]));
                match &self.last_focus[k].1 {
                    Some(f) => Some(f.clone()),
                    None => None,
                }
            },
            None => None,
        };
        let index = match &self.directory_buffer {
            Some(d) => d.focus,
            None => 0,
        };
        let pwd = self.pwd.clone();
        let f2 = match &focus {
            Some(f) => Some(f.clone()),
            None => None,
        };
        match self.add_last_focus(pwd, f2) {
            Ok(a) => Ok((a, focus, index)),
            Err(e) => Err(e),
        }
    }

    /// Asks the runner to enter `dir` (relative to the working directory when
    /// relative).
    pub fn change_directory(self, dir: &str, save_history: bool) -> (r: Result<Step, AppError>)
        ensures
            change_directory_done(self, dir@, save_history, r),
    {
        let target = self.absolute_path_of(dir);
        Ok(Step { app: self, io: Some(Io::ChangeDirectory { dir: target, save_history, focus: None }) })
    }

    /// What follows an attempt of the runner to enter `dir` (asked for by
    /// [`Io::ChangeDirectory`]), given what came of it: on success the
    /// directory is entered and listed next; on failure the error text is
    /// logged, and `focus` is looked for in the current listing.
    pub fn directory_change_ended(
        self,
        dir: String,
        save_history: bool,
        focus: Option<(String, bool)>,
        outcome: Result<(), String>,
    ) -> (r: Result<Step, AppError>)
        ensures
            directory_change_ended_done(self, dir@, save_history, focus, outcome, r),
    {
        match outcome {
            Ok(()) => {
                let app = match self.entered_directory(dir, save_history) {
                    Ok(a) => a,
                    Err(e) => return Err(e),
                };
                let io = match focus {
                    Some((name, b)) => Io::ExplorePwdThenFocus { name, save_history: b },
                    None => Io::ExplorePwd,
                };
                Ok(Step { app, io: Some(io) })
            },
            Err(e) => {
                let app = match self.log_error(e) {
                    Ok(a) => a,
                    Err(e) => return Err(e),
                };
                match focus {
                    Some((name, b)) => {
                        let ghost mid = app;
                        match app.focus_by_file_name(name.as_str(), b) {
                            Ok(a2) => {
                                assert(log_done(self, LogLevel::Error, outcome->Err_0@, Ok(mid)));
                                Ok(Step { app: a2, io: None })
                            },
                            Err(e) => Err(e),
                        }
                    },
                    None => Ok(Step { app, io: None }),
                }
            },
        }
    }

    /// Takes in a listing of the working directory, then focuses the file
    /// `focus` names (asked for by [`Io::ExplorePwdThenFocus`]), if any.
    pub fn listed(self, dir: DirectoryBuffer, focus: Option<(String, bool)>) -> (r: Result<Self, AppError>)
        ensures
            listed_done(self, dir, focus, r),
    {
        let ghost d0 = dir;
        let app = match self.set_directory(dir) {
            Ok(a) => a,
            Err(e) => return Err(e),
        };
        match focus {
            Some((name, b)) => {
                let ghost mid = app;
                let r = app.focus_by_file_name(name.as_str(), b);
                assert(set_directory_done(self, d0, Ok(mid)));
                r
            },
            None => Ok(app),
        }
    }

    /// After the process entered `dir`: remembers the focus in the directory
    /// left, makes `dir` the working directory, and with `save_history`
    /// records the visit (as `dir/`).
    pub fn entered_directory(self, dir: String, save_history: bool) -> (r: Result<Self, AppError>)
        ensures
            entered_directory_done(self, dir@, save_history, r),
    {
        let pwd = self.pwd.clone();
        let focus = match self.focused_node() {
            Some(n) => Some(n.relative_path.clone()),
            None => None,
        };
        let mut app = match self.add_last_focus(pwd, focus) {
            Ok(a) => a,
            Err(e) => return Err(e),
        };
        app.pwd = dir;
        if save_history {
            let mut visit = app.pwd.clone();
            visit.append("/");
            proof {
                reveal_strlit("/");
                assert(visit@ =~= dir@ + seq!['/']);
            }
            let h = app.history.copy();
            app.history = h.push(visit);
        }
        Ok(app)
    }

    /// Asks the runner to enter the focused node (nothing happens without one).
    pub fn enter(self) -> (r: Result<Step, AppError>)
        ensures
            enter_done(self, r),
    {
        let p = match self.focused_node() {
            Some(n) => n.absolute_path.clone(),
            None => return Ok(Step { app: self, io: None }),
        };
        self.change_directory(p.as_str(), true)
    }

    /// Asks the runner to enter the parent of the working directory (nothing
    /// happens without one).
    pub fn back(self) -> (r: Result<Step, AppError>)
        ensures
            back_done(self, r),
    {
        match parent(self.pwd.as_str()) {
            Some(p) => self.change_directory(p.as_str(), true),
            None => Ok(Step { app: self, io: None }),
        }
    }

    /// Focuses the file at `path` (relative to the working directory when
    /// relative): asks the runner to enter its directory, then to focus it,
    /// recording the move with `save_history`.
    pub fn focus_path(self, path: &str, save_history: bool) -> (r: Result<Step, AppError>)
        ensures
            focus_path_done(self, path@, save_history, r),
    {
        let p = self.absolute_path_of(path);
        match parent(p.as_str()) {
            Some(dir) => match file_name(p.as_str()) {
                Some(name) => {
                    let target = self.absolute_path_of(dir.as_str());
                    Ok(Step {
                        app: self,
                        io: Some(Io::ChangeDirectory { dir: target, save_history: false, focus: Some((name, save_history)) }),
                    })
                },
                None => {
                    let mut m = String::from_str(path);
                    m.append(" not found");
                    match self.log_error(m) {
                        Ok(a) => Ok(Step { app: a, io: None }),
                        Err(e) => Err(e),
                    }
                },
            },
            None => {
                let mut m = String::from_str("Cannot focus on ");
                m.append(path);
                match self.log_error(m) {
                    Ok(a) => Ok(Step { app: a, io: None }),
                    Err(e) => Err(e),
                }
            },
        }
    }

    /// Focuses the path typed in the input buffer (nothing happens without one).
    pub fn focus_path_from_input(self) -> (r: Result<Step, AppError>)
        ensures
            focus_path_from_input_done(self, r),
    {
        let p = match &self.input {
            Some(i) => String::from_str(i.value()),
            None => return Ok(Step { app: self, io: None }),
        };
        self.focus_path(p.as_str(), true)
    }

    /// Focuses the target of the focused symbolic link (nothing happens otherwise).
    pub fn follow_symlink(self) -> (r: Result<Step, AppError>)
        ensures
            follow_symlink_done(self, r),
    {
        let p = match self.focused_node() {
            Some(n) => match &n.symlink {
                Some(l) => l.absolute_path.clone(),
                None => return Ok(Step { app: self, io: None }),
            },
            None => return Ok(Step { app: self, io: None }),
        };
        self.focus_path(p.as_str(), true)
    }

    /// Goes to the visited path under the history's cursor after `h`.
    fn visit(self, h: History) -> (r: Result<Step, AppError>)
        ensures
            visited_done(self, h@, r),
    {
        let mut app = self;
        app.history = h;
        let target = match app.history.peek() {
            Some(t) => t.clone(),
            None => return Ok(Step { app, io: None }),
        };
        if ends_with_char(target.as_str(), '/') {
            match strip_suffix_char(target.as_str(), '/') {
                Some(dir) => app.change_directory(dir.as_str(), false),
                None => Ok(Step { app, io: None }),
            }
        } else {
            app.focus_path(target.as_str(), false)
        }
    }

    /// Moves the history's cursor back and goes to the path there.
    pub fn last_visited_path(self) -> (r: Result<Step, AppError>)
        ensures
            visited_done(self, spec_visit_last(self.history@), r),
    {
        let h = self.history.copy().visit_last();
        self.visit(h)
    }

    /// Moves the history's cursor forward and goes to the path there.
    pub fn next_visited_path(self) -> (r: Result<Step, AppError>)
        requires
            self.history.loc < usize::MAX,
        ensures
            visited_done(self, spec_visit_next(self.history@), r),
    {
        let h = self.history.copy().visit_next();
        self.visit(h)
    }

    /// Handles a message to the explorer (see [`handle_external_done`]); the
    /// runner then does the work the step asks for and keeps selected only
    /// the nodes that still exist ([`App::keep_existing`]).
    #[verifier::rlimit(50)]
    pub fn handle_external(self, msg: ExternalMsg, key: Option<Key>) -> (r: Result<Step, AppError>)
        requires
            external_msg_allowed(self, msg),
        ensures
            handle_external_done(self, msg, key, r),
    {
        if self.config.general.read_only && !msg.is_read_only() {
            return pure(self.log_error(String::from_str("Cannot execute code in read-only mode.")));
        }
        match msg {
            ExternalMsg::ExplorePwd => self.explore_pwd(),
            ExternalMsg::ExploreParentsAsync => pure(self.explore_parents_async()),
            ExternalMsg::ExplorePwdAsync => pure(self.explore_pwd_async()),
            ExternalMsg::Refresh => pure(self.refresh()),
            ExternalMsg::ClearScreen => pure(self.clear_screen()),
            ExternalMsg::FocusFirst => pure(self.focus_first(true)),
            ExternalMsg::FocusLast => pure(self.focus_last()),
            ExternalMsg::FocusPrevious => pure(self.focus_previous()),
            ExternalMsg::FocusPreviousByRelativeIndex(i) => pure(self.focus_previous_by_relative_index(i)),
            ExternalMsg::FocusPreviousByRelativeIndexFromInput => pure(self.focus_previous_by_relative_index_from_input()),
            ExternalMsg::FocusNext => pure(self.focus_next()),
            ExternalMsg::FocusNextByRelativeIndex(i) => pure(self.focus_next_by_relative_index(i)),
            ExternalMsg::FocusNextByRelativeIndexFromInput => pure(self.focus_next_by_relative_index_from_input()),
            ExternalMsg::FocusPath(p) => self.focus_path(p.as_str(), true),
            ExternalMsg::FocusPathFromInput => self.focus_path_from_input(),
            ExternalMsg::FocusByIndex(i) => pure(self.focus_by_index(i)),
            ExternalMsg::FocusByIndexFromInput => pure(self.focus_by_index_from_input()),
            ExternalMsg::FocusByFileName(n) => pure(self.focus_by_file_name(n.as_str(), true)),
            ExternalMsg::ChangeDirectory(d) => self.change_directory(d.as_str(), true),
            ExternalMsg::Enter => self.enter(),
            ExternalMsg::Back => self.back(),
            ExternalMsg::LastVisitedPath => self.last_visited_path(),
            ExternalMsg::NextVisitedPath => self.next_visited_path(),
            ExternalMsg::FollowSymlink => self.follow_symlink(),
            ExternalMsg::UpdateInputBuffer(op) => pure(self.update_input_buffer(op)),
            ExternalMsg::UpdateInputBufferFromKey => pure(self.update_input_buffer_from_key(key)),
            ExternalMsg::BufferInput(x) => pure(self.buffer_input(x.as_str())),
            ExternalMsg::BufferInputFromKey => pure(self.buffer_input_from_key(key)),
            ExternalMsg::SetInputBuffer(x) => pure(self.set_input_buffer(x)),
            ExternalMsg::RemoveInputBufferLastCharacter => pure(self.remove_input_buffer_last_character()),
            ExternalMsg::RemoveInputBufferLastWord => pure(self.remove_input_buffer_last_word()),
            ExternalMsg::ResetInputBuffer => pure(self.reset_input_buffer()),
            ExternalMsg::SwitchMode(m) => pure(self.switch_mode(m.as_str())),
            ExternalMsg::SwitchModeKeepingInputBuffer(m) => pure(self.switch_mode_keeping_input_buffer(m.as_str())),
            ExternalMsg::SwitchModeBuiltin(m) => pure(self.switch_mode_builtin(m.as_str())),
            ExternalMsg::SwitchModeBuiltinKeepingInputBuffer(m) => pure(self.switch_mode_builtin_keeping_input_buffer(m.as_str())),
            ExternalMsg::SwitchModeCustom(m) => pure(self.switch_mode_custom(m.as_str())),
            ExternalMsg::SwitchModeCustomKeepingInputBuffer(m) => pure(self.switch_mode_custom_keeping_input_buffer(m.as_str())),
            ExternalMsg::PopMode => pure(self.pop_mode()),
            ExternalMsg::PopModeKeepingInputBuffer => pure(self.pop_mode_keeping_input_buffer()),
            ExternalMsg::SwitchLayout(l) => pure(self.switch_layout(l.as_str())),
            ExternalMsg::SwitchLayoutBuiltin(l) => pure(self.switch_layout_builtin(l.as_str())),
            ExternalMsg::SwitchLayoutCustom(l) => pure(self.switch_layout_custom(l.as_str())),
            ExternalMsg::Call(c) => pure(self.call(c)),
            ExternalMsg::CallSilently(c) => pure(self.call_silently(c)),
            ExternalMsg::BashExec(x) => pure(self.bash_exec(x)),
            ExternalMsg::BashExecSilently(x) => pure(self.bash_exec_silently(x)),
            ExternalMsg::CallLua(x) => pure(self.call_lua(x)),
            ExternalMsg::CallLuaSilently(x) => pure(self.call_lua_silently(x)),
            ExternalMsg::LuaEval(x) => pure(self.lua_eval(x)),
            ExternalMsg::LuaEvalSilently(x) => pure(self.lua_eval_silently(x)),
            ExternalMsg::Select => pure(self.select()),
            ExternalMsg::SelectAll => pure(self.select_all()),
            ExternalMsg::SelectPath(p) => pure(self.select_path(p)),
            ExternalMsg::UnSelect => pure(self.un_select()),
            ExternalMsg::UnSelectAll => pure(self.un_select_all()),
            ExternalMsg::UnSelectPath(p) => pure(self.un_select_path(p)),
            ExternalMsg::ToggleSelection => pure(self.toggle_selection()),
            ExternalMsg::ToggleSelectAll => pure(self.toggle_select_all()),
            ExternalMsg::ToggleSelectionByPath(p) => pure(self.toggle_selection_by_path(p)),
            ExternalMsg::ClearSelection => pure(self.clear_selection()),
            ExternalMsg::AddNodeFilter(f) => pure(self.add_node_filter(f)),
            ExternalMsg::AddNodeFilterFromInput(f) => pure(self.add_node_filter_from_input(f)),
            ExternalMsg::RemoveNodeFilter(f) => pure(self.remove_node_filter(f)),
            ExternalMsg::RemoveNodeFilterFromInput(f) => pure(self.remove_node_filter_from_input(f)),
            ExternalMsg::ToggleNodeFilter(f) => pure(self.toggle_node_filter(f)),
            ExternalMsg::RemoveLastNodeFilter => pure(self.remove_last_node_filter()),
            ExternalMsg::ResetNodeFilters => pure(self.reset_node_filters()),
            ExternalMsg::ClearNodeFilters => pure(self.clear_node_filters()),
            ExternalMsg::AddNodeSorter(x) => pure(self.add_node_sorter(x)),
            ExternalMsg::RemoveNodeSorter(x) => pure(self.remove_node_sorter(x)),
            ExternalMsg::ReverseNodeSorter(x) => pure(self.reverse_node_sorter(x)),
            ExternalMsg::ToggleNodeSorter(x) => pure(self.toggle_node_sorter(x)),
            ExternalMsg::RemoveLastNodeSorter => pure(self.remove_last_node_sorter()),
            ExternalMsg::ReverseNodeSorters => pure(self.reverse_node_sorters()),
            ExternalMsg::ResetNodeSorters => pure(self.reset_node_sorters()),
            ExternalMsg::ClearNodeSorters => pure(self.clear_node_sorters()),
            ExternalMsg::EnableMouse => pure(self.enable_mouse()),
            ExternalMsg::DisableMouse => pure(self.disable_mouse()),
            ExternalMsg::ToggleMouse => pure(self.toggle_mouse()),
            ExternalMsg::StartFifo(x) => pure(self.start_fifo(x)),
            ExternalMsg::StopFifo => pure(self.stop_fifo()),
            ExternalMsg::ToggleFifo(x) => pure(self.toggle_fifo(x)),
            ExternalMsg::LogInfo(x) => pure(self.log_info(x)),
            ExternalMsg::LogSuccess(x) => pure(self.log_success(x)),
            ExternalMsg::LogWarning(x) => pure(self.log_warning(x)),
            ExternalMsg::LogError(x) => pure(self.log_error(x)),
            ExternalMsg::Quit => pure(self.quit()),
            ExternalMsg::PrintPwdAndQuit => pure(self.print_pwd_and_quit()),
            ExternalMsg::PrintFocusPathAndQuit => pure(self.print_focus_path_and_quit()),
            ExternalMsg::PrintSelectionAndQuit => pure(self.print_selection_and_quit()),
            ExternalMsg::PrintResultAndQuit => pure(self.print_result_and_quit()),
            ExternalMsg::PrintAppStateAndQuit => pure(self.print_app_state_and_quit()),
            ExternalMsg::Debug(x) => pure(self.debug(x)),
            ExternalMsg::Terminate => Err(AppError { message: String::new() }),
        }
    }

    /// [`App::handle_external`] when handling `msg` stays within the
    /// machine's counters (see [`App::allows`]); otherwise nothing happens
    /// and no work is asked for.
    pub fn handle_external_if_allowed(self, msg: ExternalMsg, key: Option<Key>) -> (r: Result<Step, AppError>)
        ensures
            external_msg_allowed(self, msg) ==> handle_external_done(self, msg, key, r),
            !external_msg_allowed(self, msg) ==> (r matches Ok(st) && st.app == self && st.io is None),
    {
        if self.allows(&msg) {
            self.handle_external(msg, key)
        } else {
            Ok(Step { app: self, io: None })
        }
    }

    /// [`App::handle_task`] when the task's message, if it comes from
    /// outside, stays within the machine's counters; otherwise nothing
    /// happens and no work is asked for.
    pub fn handle_task_if_allowed(self, task: Task) -> (r: Result<Step, AppError>)
        ensures
            (task.msg matches MsgIn::External(m) ==> external_msg_allowed(self, m)) ==> handle_task_done(self, task, r),
            !(task.msg matches MsgIn::External(m) ==> external_msg_allowed(self, m))
                ==> (r matches Ok(st) && st.app == self && st.io is None),
    {
        let allowed = match &task.msg {
            MsgIn::External(m) => self.allows(m),
            MsgIn::Internal(_) => true,
        };
        if allowed {
            self.handle_task(task)
        } else {
            Ok(Step { app: self, io: None })
        }
    }

    /// Handles a task, then asks the runner to redraw.
    pub fn handle_task(self, task: Task) -> (r: Result<Step, AppError>)
        requires
            task.msg matches MsgIn::External(m) ==> external_msg_allowed(self, m),
        ensures
            handle_task_done(self, task, r),
    {
        let ghost s0 = self;
        let ghost t = task;
        let mid = match task.msg {
            MsgIn::Internal(m) => {
                let a = self.handle_internal(m);
                proof {
                    assert(handle_internal_done(s0, m, a));
                }
                pure(a)
            },
            MsgIn::External(m) => {
                let st = self.handle_external(m, task.key);
                proof {
                    assert(handle_external_done(s0, m, t.key, st));
                }
                st
            },
        };
        match mid {
            Ok(st) => {
                let Step { app, io } = st;
                match app.refresh() {
                    Ok(a) => Ok(Step { app: a, io }),
                    Err(e) => Err(e),
                }
            },
            Err(e) => Err(e),
        }
    }

    /// Builds the starting state from the configuration and from what the
    /// runner found (working directory, process id, session directory, pipes,
    /// and the errors met while loading the configuration).
    pub fn create(
        version: String,
        config: Config,
        pwd: String,
        pid: u32,
        session_path: String,
        pipe: Pipe,
        load_errs: Vec<String>,
    ) -> (r: Result<Self, AppError>)
        ensures
            create_done(version@, config, pwd@, pid, session_path@, pipe, strings_view(load_errs@), r),
    {
        let ghost c0 = config;
        let mode_name = match &config.general.initial_mode {
            Some(n) => n.clone(),
            None => String::from_str("default"),
        };
        let mode = match config.modes.get(mode_name.as_str()) {
            Some(m) => m.copy().sanitized(config.general.read_only),
            None => return Err(AppError { message: String::from_str("'default' mode is missing") }),
        };
        let layout_name = match &config.general.initial_layout {
            Some(n) => n.clone(),
            None => String::from_str("default"),
        };
        let layout = match config.layouts.get(layout_name.as_str()) {
            Some(l) => l.copy(),
            None => return Err(AppError { message: String::from_str("'default' layout is missing") }),
        };
        let mut filters = filter_set_new();
        if !config.general.show_hidden {
            filter_set_replace(
                &mut filters,
                NodeFilterApplicable::new(NodeFilter::RelativePathDoesNotStartWith, String::from_str(".")),
            );
            assert(Seq::<NodeFilterApplicableView>::empty().push(hide_dotfiles()) =~= seq![hide_dotfiles()]);
        }
        let sorters = match &config.general.initial_sorting {
            Some(s) => sorter_set_clone(s),
            None => sorter_set_new(),
        };
        let ghost m0 = config.modes.named(mode_name@)->0;
        let ghost l0 = config.layouts.named(layout_name@)->0;
        let mut app = App {
            version,
            config,
            pwd,
            directory_buffer: None,
            last_focus: Vec::new(),
            selection: node_set_new(),
            msg_out: VecDeque::new(),
            mode,
            layout,
            input: None,
            pid,
            session_path,
            pipe,
            explorer_config: ExplorerConfig { filters, sorters },
            logs: Vec::new(),
            logs_hidden: false,
            history: History::new(),
            last_modes: Vec::new(),
        };
        assert(app.last_focus@.len() == 0);
        let ghost fresh = app;
        assert(fresh_state(fresh, fresh.version@, fresh.pwd@, pid, fresh.session_path@, fresh.pipe, m0, l0));
        let has_errs = load_errs.len() > 0;
        let mut i: usize = 0;
        while i < load_errs.len()
            invariant
                i <= load_errs.len(),
                app == (App { logs: app.logs, logs_hidden: false, ..fresh }),
                errors_logged(app.logs@, strings_view(load_errs@).take(i as int)),
            decreases load_errs.len() - i,
        {
            let ghost before = app.logs@;
            let e = load_errs[i].clone();
            app = match app.log_error(e) {
                Ok(a) => a,
                Err(e) => return Err(e),
            };
            assert forall|j: int| 0 <= j < i + 1 implies (#[trigger] app.logs@[j]).level == LogLevel::Error
                && app.logs@[j].message@ == strings_view(load_errs@).take(i + 1)[j] by {
                if j < i {
                    assert(app.logs@[j] == before[j]);
                } else {
                    assert(app.logs@[j] == app.logs@.last());
                    assert(strings_view(load_errs@).take(i + 1)[j] == load_errs@[i as int]@);
                }
            }
            i = i + 1;
        }
        assert(strings_view(load_errs@).take(load_errs.len() as int) =~= strings_view(load_errs@));
        if has_errs && !app.config.general.disable_debug_error_mode {
            let ghost b = app;
            let r = app.switch_mode_builtin("debug_error");
            proof {
                reveal_strlit("debug_error");
                assert(fresh_state(b, fresh.version@, fresh.pwd@, pid, fresh.session_path@, fresh.pipe, m0, l0));
            }
            r
        } else {
            Ok(app)
        }
    }

    /// The focused node, copied.
    fn focused_copy(&self) -> (r: Option<Node>)
        ensures
            opt_node(r) == match focused(*self) {
                Some(n) => Some(n@),
                None => None,
            },
    {
        match self.focused_node() {
            Some(n) => Some(n.copy()),
            None => None,
        }
    }

    /// The text in the input buffer, copied.
    fn input_copy(&self) -> (r: Option<String>)
        ensures
            opt_text(r) == typed(*self),
    {
        match &self.input {
            Some(i) => Some(String::from_str(i.value())),
            None => None,
        }
    }

    /// What Lua functions see of the state, in full.
    pub fn to_lua_ctx_heavy(&self) -> (r: LuaContextHeavy)
        ensures
            lua_fields_copied(*self, r.version, r.pwd, r.focused_node, r.selection, r.mode, r.layout,
                r.input_buffer, r.pid, r.session_path, r.explorer_config),
            match (r.directory_buffer, self.directory_buffer) {
                (Some(a), Some(b)) => a@ == b@,
                (None, None) => true,
                _ => false,
            },
            r.history@ == self.history@,
            modes_view(r.last_modes@) == modes_view(self.last_modes@),
    {
        let mut last_modes: Vec<Mode> = Vec::new();
        let mut i: usize = 0;
        while i < self.last_modes.len()
            invariant
                i <= self.last_modes.len(),
                last_modes.len() == i,
                forall|j: int| 0 <= j < i ==> last_modes@[j]@ == self.last_modes@[j]@,
            decreases self.last_modes.len() - i,
        {
            last_modes.push(self.last_modes[i].copy());
            i = i + 1;
        }
        assert(modes_view(last_modes@) =~= modes_view(self.last_modes@));
        LuaContextHeavy {
            version: self.version.clone(),
            pwd: self.pwd.clone(),
            focused_node: self.focused_copy(),
            directory_buffer: match &self.directory_buffer {
                Some(d) => Some(d.copy()),
                None => None,
            },
            selection: node_set_clone(&self.selection),
            mode: self.mode.copy(),
            layout: self.layout.copy(),
            input_buffer: self.input_copy(),
            pid: self.pid,
            session_path: self.session_path.clone(),
            explorer_config: self.explorer_config.copy(),
            history: self.history.copy(),
            last_modes,
        }
    }

    /// What Lua functions see of the state when they run often.
    pub fn to_lua_ctx_light(&self) -> (r: LuaContextLight)
        ensures
            lua_fields_copied(*self, r.version, r.pwd, r.focused_node, r.selection, r.mode, r.layout,
                r.input_buffer, r.pid, r.session_path, r.explorer_config),
    {
        LuaContextLight {
            version: self.version.clone(),
            pwd: self.pwd.clone(),
            focused_node: self.focused_copy(),
            selection: node_set_clone(&self.selection),
            mode: self.mode.copy(),
            layout: self.layout.copy(),
            input_buffer: self.input_copy(),
            pid: self.pid,
            session_path: self.session_path.clone(),
            explorer_config: self.explorer_config.copy(),
        }
    }

    /// The titles of the help menu's sections (see [`help_titles`]).
    pub fn help_menu_titles(&self) -> (r: Vec<String>)
        ensures
            strings_view(r@) == help_titles(self.config),
    {
        let b = &self.config.modes.builtin;
        let mut titles: Vec<String> = Vec::new();
        titles.push(b.default.name.clone());
        titles.push(b.debug_error.name.clone());
        titles.push(b.recover.name.clone());
        titles.push(b.filter.name.clone());
        titles.push(b.number.name.clone());
        titles.push(b.go_to.name.clone());
        titles.push(b.search.name.clone());
        titles.push(b.selection_ops.name.clone());
        titles.push(b.action.name.clone());
        titles.push(b.create.name.clone());
        titles.push(b.create_file.name.clone());
        titles.push(b.create_directory.name.clone());
        titles.push(b.rename.name.clone());
        titles.push(b.duplicate_as.name.clone());
        titles.push(b.delete.name.clone());
        titles.push(b.sort.name.clone());
        titles.push(b.filter.name.clone());
        titles.push(b.relative_path_does_contain.name.clone());
        titles.push(b.relative_path_does_not_contain.name.clone());
        titles.push(b.switch_layout.name.clone());
        let ghost base = strings_view(titles@);
        let mut i: usize = 0;
        while i < self.config.modes.custom.len()
            invariant
                i <= self.config.modes.custom.len(),
                strings_view(titles@) == base + self.config.modes.custom@.take(i as int).map_values(|e: (String, Mode)| e.0@),
            decreases self.config.modes.custom.len() - i,
        {
            let ghost before = titles@;
            titles.push(self.config.modes.custom[i].0.clone());
            assert(strings_view(titles@) =~= strings_view(before).push(self.config.modes.custom@[i as int].0@));
            assert(self.config.modes.custom@.take(i + 1).map_values(|e: (String, Mode)| e.0@) =~= self.config.modes.custom@.take(i as int).map_values(|e: (String, Mode)| e.0@).push(self.config.modes.custom@[i as int].0@));
            assert(strings_view(titles@) =~= base + self.config.modes.custom@.take(i + 1).map_values(|e: (String, Mode)| e.0@));
            i = i + 1;
        }
        assert(self.config.modes.custom@.take(self.config.modes.custom.len() as int) =~= self.config.modes.custom@);
        assert(strings_view(titles@) =~= help_titles(self.config));
        titles
    }

    /// The help lines of each mode, in the order of [`App::help_menu_titles`].
    #[verifier::spinoff_prover]
    fn help_menus(&self) -> (r: Vec<Vec<HelpMenuLine>>)
        ensures
            r.len() == help_menus_of(self.config).len(),
            forall|i: int| 0 <= i < r.len() ==> help_lines_view(#[trigger] r@[i]@) == help_menus_of(self.config)[i],
    {
        let ghost all = help_menus_of(self.config);
        let n = self.config.modes.custom.len();
        let mut menus: Vec<Vec<HelpMenuLine>> = Vec::new();
        let mut i: usize = 0;
        while i < 20
            invariant
                i <= 20,
                all == help_menus_of(self.config),
                menus.len() == i,
                forall|k: int| 0 <= k < i ==> help_lines_view(#[trigger] menus@[k]@) == all[k],
            decreases 20 - i,
        {
            let m = builtin_mode_at(&self.config.modes.builtin, i);
            menus.push(m.help_menu());
            i = i + 1;
        }
        let mut j: usize = 0;
        while j < n
            invariant
                j <= n,
                n == self.config.modes.custom.len(),
                all == help_menus_of(self.config),
                menus.len() == 20 + j,
                forall|k: int| 0 <= k < 20 + j ==> help_lines_view(#[trigger] menus@[k]@) == all[k],
            decreases n - j,
        {
            menus.push(self.config.modes.custom[j].1.help_menu());
            j = j + 1;
        }
        menus
    }

    /// The help menu of all modes: one section per mode, with the mode's
    /// help lines (see [`help_menu_text`]).
    #[verifier::spinoff_prover]
    pub fn global_help_menu_str(&self) -> (r: String)
        ensures
            r@ == help_menu_text(help_titles(self.config), help_menus_of(self.config)),
    {
        let titles = self.help_menu_titles();
        let menus = self.help_menus();
        let ghost ms = help_menus_of(self.config);
        assert(titles@.len() == strings_view(titles@).len());
        assert(titles.len() == menus.len());
        let ghost secs = Seq::new(titles@.len(), |i: int| section_text(help_titles(self.config)[i], ms[i]));
        let mut sections: Vec<String> = Vec::new();
        let mut i: usize = 0;
        while i < titles.len()
            invariant
                i <= titles.len(),
                titles.len() == menus.len(),
                ms == help_menus_of(self.config),
                forall|k: int| 0 <= k < menus.len() ==> help_lines_view(#[trigger] menus@[k]@) == ms[k],
                strings_view(titles@) == help_titles(self.config),
                secs == Seq::new(titles@.len(), |i: int| section_text(help_titles(self.config)[i], ms[i])),
                strings_view(sections@) == secs.take(i as int),
            decreases titles.len() - i,
        {
            let sec = help_section(titles[i].as_str(), &menus[i]);
            let ghost before = sections@;
            sections.push(sec);
            assert(strings_view(sections@) =~= strings_view(before).push(sec@));
            assert(strings_view(titles@)[i as int] == titles@[i as int]@);
            assert(help_lines_view(menus@[i as int]@) == ms[i as int]);
            assert(strings_view(sections@) =~= secs.take(i + 1));
            i = i + 1;
        }
        assert(secs.take(titles.len() as int) =~= secs);
        let r = join_strings(&sections, "\n");
        proof {
            reveal_strlit("\n");
            assert("\n"@ =~= seq!['\n']);
            assert(secs =~= Seq::new(help_titles(self.config).len(), |i: int| section_text(help_titles(self.config)[i], ms[i])));
        }
        r
    }

    /// Whether handling `msg` stays within the machine's counters, which
    /// [`App::handle_external`] asks of its caller.
    pub fn allows(&self, msg: &ExternalMsg) -> (r: bool)
        ensures
            r == external_msg_allowed(*self, *msg),
    {
        match msg {
            ExternalMsg::FocusNext => match &self.directory_buffer {
                Some(d) => d.focus < usize::MAX,
                None => true,
            },
            ExternalMsg::FocusNextByRelativeIndex(i) => match &self.directory_buffer {
                Some(d) => *i <= usize::MAX - d.focus,
                None => true,
            },
            ExternalMsg::FocusNextByRelativeIndexFromInput => match self.input_index() {
                Some(i) => match &self.directory_buffer {
                    Some(d) => i <= usize::MAX - d.focus,
                    None => true,
                },
                None => true,
            },
            ExternalMsg::BufferInput(x) => match &self.input {
                Some(b) => {
                    let n = char_count(b.value());
                    let m = char_count(x.as_str());
                    n < usize::MAX && m < usize::MAX - n
                },
                None => true,
            },
            ExternalMsg::BufferInputFromKey => match &self.input {
                Some(b) => char_count(b.value()) < usize::MAX - 1,
                None => true,
            },
            ExternalMsg::NextVisitedPath => self.history.loc < usize::MAX,
            _ => true,
        }
    }

    /// The number typed in the input buffer, if it holds one.
    fn input_index(&self) -> (r: Option<usize>)
        ensures
            r == typed_index(*self),
    {
        match &self.input {
            Some(i) => parse_usize(i.value()),
            None => None,
        }
    }

    /// [`App::focus_previous_by_relative_index`] with the number typed in the
    /// input buffer; nothing happens when it holds no number.
    pub fn focus_previous_by_relative_index_from_input(self) -> (r: Result<Self, AppError>)
        ensures
            focus_previous_by_relative_index_from_input_done(self, r),
    {
        match self.input_index() {
            Some(index) => self.focus_previous_by_relative_index(index),
            None => Ok(self),
        }
    }
}

} // verus!

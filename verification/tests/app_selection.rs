use indexmap::IndexSet;
use std::collections::VecDeque;
use xplr::app::{App, ExplorerConfig, Pipe};
use xplr::config::{
    BuiltinLayoutsConfig, BuiltinModesConfig, Config, GeneralConfig, KeyBindings, Layout, LayoutsConfig, Mode,
    ModesConfig,
};
use xplr::history::History;
use xplr::input::InputBuffer;
use xplr::log::LogLevel;
use xplr::msg::{Command, ExternalMsg, InputOperation, InternalMsg, MsgIn, MsgOut, NodeFilter, NodeFilterApplicable, NodeSorter, NodeSorterApplicable, Task};
use xplr::config::Action;
use xplr::input::{Key, KeyKind};
use xplr::app::{Io, Step};
use xplr::node::{DirectoryBuffer, Node};

fn bindings() -> KeyBindings {
    KeyBindings {
        on_key: vec![],
        on_alphabet: None,
        on_number: None,
        on_special_character: None,
        on_navigation: None,
        on_function: None,
        on_alphanumeric: None,
        on_character: None,
        default: None,
    }
}

fn mode(name: &str) -> Mode {
    Mode { name: name.to_string(), help: None, key_bindings: bindings() }
}

fn config(bounded: bool) -> Config {
    Config {
        general: GeneralConfig {
            read_only: false,
            enable_recover_mode: false,
            enforce_bounded_index_navigation: bounded,
            show_hidden: false,
            disable_debug_error_mode: false,
            initial_sorting: None,
            initial_mode: None,
            initial_layout: None,
        },
        modes: ModesConfig {
            builtin: BuiltinModesConfig {
                default: mode("default"),
                debug_error: mode("debug error"),
                recover: mode("recover"),
                filter: mode("filter"),
                number: mode("number"),
                go_to: mode("go to"),
                search: mode("search"),
                selection_ops: mode("selection ops"),
                action: mode("action to"),
                create: mode("create"),
                create_file: mode("create file"),
                create_directory: mode("create directory"),
                rename: mode("rename"),
                duplicate_as: mode("duplicate as"),
                delete: mode("delete"),
                sort: mode("sort"),
                relative_path_does_contain: mode("relative path does contain"),
                relative_path_does_not_contain: mode("relative path does not contain"),
                switch_layout: mode("switch layout"),
            },
            custom: vec![],
        },
        layouts: LayoutsConfig {
            builtin: BuiltinLayoutsConfig {
                default: Layout::Table,
                no_help: Layout::Nothing,
                no_selection: Layout::Selection,
                no_help_no_selection: Layout::HelpMenu,
            },
            custom: vec![],
        },
    }
}

fn node(parent: &str, name: &str) -> Node {
    Node {
        parent: parent.to_string(),
        relative_path: name.to_string(),
        absolute_path: format!("{}/{}", parent, name),
        symlink: None,
    }
}

fn dir(names: &[&str], focus: usize) -> DirectoryBuffer {
    let nodes: Vec<Node> = names.iter().map(|n| node("/tmp", n)).collect();
    DirectoryBuffer { parent: "/tmp".to_string(), total: nodes.len(), nodes, focus }
}

fn app(names: &[&str], focus: usize, bounded: bool) -> App {
    App {
        version: "0".to_string(),
        config: config(bounded),
        pwd: "/tmp".to_string(),
        directory_buffer: Some(dir(names, focus)),
        last_focus: vec![],
        selection: IndexSet::new(),
        msg_out: VecDeque::new(),
        mode: mode("default"),
        layout: Layout::Table,
        input: None,
        pid: 1,
        session_path: "/s".to_string(),
        pipe: Pipe {
            path: "/s/pipe".to_string(),
            msg_in: "/s/pipe/msg_in".to_string(),
            selection_out: "/s/pipe/selection_out".to_string(),
            result_out: "/s/pipe/result_out".to_string(),
            directory_nodes_out: "/s/pipe/directory_nodes_out".to_string(),
            global_help_menu_out: "/s/pipe/global_help_menu_out".to_string(),
            logs_out: "/s/pipe/logs_out".to_string(),
            history_out: "/s/pipe/history_out".to_string(),
        },
        explorer_config: ExplorerConfig { filters: IndexSet::new(), sorters: IndexSet::new() },
        logs: vec![],
        logs_hidden: true,
        history: History { loc: 0, paths: vec![] },
        last_modes: vec![],
    }
}

fn selected_paths(a: &App) -> Vec<String> {
    a.selection.iter().map(|n| n.absolute_path.clone()).collect()
}

#[test]
fn select_and_unselect_focused() {
    let a = app(&["a", "b"], 1, false).select().unwrap();
    assert_eq!(selected_paths(&a), vec!["/tmp/b".to_string()]);
    let a = a.select().unwrap();
    assert_eq!(a.selection.len(), 1);
    let a = a.un_select().unwrap();
    assert!(a.selection.is_empty());
}

#[test]
fn select_all_then_unselect_all() {
    let a = app(&["a", "b", "c"], 0, false).select().unwrap().select_all().unwrap();
    assert_eq!(selected_paths(&a), vec!["/tmp/a".to_string(), "/tmp/b".to_string(), "/tmp/c".to_string()]);
    assert_eq!(a.selection_str(), "/tmp/a\n/tmp/b\n/tmp/c\n");
    assert_eq!(a.result_str(), "/tmp/a\n/tmp/b\n/tmp/c\n");
    assert_eq!(a.result().len(), 3);
    let a = a.un_select_all().unwrap();
    assert!(a.selection.is_empty());
}

#[test]
fn select_all_then_unselect_all_gives_selection_back() {
    let a = app(&["a", "b"], 0, false).select_path("/etc/hosts".to_string()).unwrap();
    let before = selected_paths(&a);
    let b = a.select_all().unwrap();
    assert_eq!(selected_paths(&b), vec!["/etc/hosts".to_string(), "/tmp/a".to_string(), "/tmp/b".to_string()]);
    let b = b.un_select_all().unwrap();
    assert_eq!(selected_paths(&b), before);
    assert_eq!(b.directory_buffer.as_ref().unwrap().focus, 0);
}

#[test]
fn toggle_select_all_flips() {
    let a = app(&["a", "b"], 0, false).toggle_select_all().unwrap();
    assert_eq!(a.selection.len(), 2);
    let a = a.toggle_select_all().unwrap();
    assert_eq!(a.selection.len(), 0);
}

#[test]
fn select_path_relative_joins_pwd() {
    let a = app(&["a"], 0, false).select_path("sub/file".to_string()).unwrap();
    let n = a.selection.get_index(0).unwrap();
    assert_eq!(n.parent, "/tmp/sub");
    assert_eq!(n.relative_path, "file");
    assert_eq!(n.absolute_path, "/tmp/sub/file");
    let a = a.select_path("/etc/hosts".to_string()).unwrap();
    assert_eq!(selected_paths(&a), vec!["/tmp/sub/file".to_string(), "/etc/hosts".to_string()]);
    let a = a.select_path("/".to_string()).unwrap();
    assert_eq!(a.selection.len(), 2);
}

#[test]
fn un_select_path_compares_paths_not_text() {
    let a = app(&["a"], 0, false).select_path("/etc/hosts".to_string()).unwrap();
    let a = a.un_select_path("/etc//hosts/".to_string()).unwrap();
    assert!(a.selection.is_empty());
}

#[test]
fn toggle_selection_by_path_adds_then_removes() {
    let a = app(&["a"], 0, false).toggle_selection_by_path("x".to_string()).unwrap();
    assert_eq!(selected_paths(&a), vec!["/tmp/x".to_string()]);
    let a = a.toggle_selection_by_path("/tmp/x".to_string()).unwrap();
    assert!(a.selection.is_empty());
    let a = a.toggle_selection().unwrap();
    assert_eq!(selected_paths(&a), vec!["/tmp/a".to_string()]);
    let a = a.clear_selection().unwrap();
    assert!(a.selection.is_empty());
}

#[test]
fn keep_existing_drops_missing_nodes() {
    let a = app(&["a", "b"], 0, false).select_all().unwrap();
    let a = a.keep_existing(vec!["/tmp/b".to_string()]).unwrap();
    assert_eq!(selected_paths(&a), vec!["/tmp/b".to_string()]);
}

#[test]
fn result_is_focused_node_without_selection() {
    let a = app(&["a", "b"], 1, false);
    let r = a.result();
    assert_eq!(r.len(), 1);
    assert_eq!(r[0].absolute_path, "/tmp/b");
}

#[test]
fn filters_add_remove_toggle() {
    let f = NodeFilterApplicable::new(NodeFilter::RelativePathDoesContain, "x".to_string());
    let a = app(&["a"], 0, false).add_node_filter(f.clone()).unwrap().add_node_filter(f.clone()).unwrap();
    assert_eq!(a.explorer_config.filters.len(), 1);
    let a = a.toggle_node_filter(f.clone()).unwrap();
    assert_eq!(a.explorer_config.filters.len(), 0);
    let a = a.toggle_node_filter(f.clone()).unwrap();
    assert_eq!(a.explorer_config.filters.len(), 1);
    let a = a.remove_node_filter(f.clone()).unwrap();
    assert_eq!(a.explorer_config.filters.len(), 0);
}

#[test]
fn filters_from_input_and_reset() {
    let mut a = app(&["a"], 0, false);
    a.input = Some(InputBuffer::with_value("abc".to_string()));
    let a = a.add_node_filter_from_input(NodeFilter::RelativePathIs).unwrap();
    let f = a.explorer_config.filters.get_index(0).unwrap();
    assert_eq!(f.filter, NodeFilter::RelativePathIs);
    assert_eq!(f.input, "abc");
    let a = a.remove_node_filter_from_input(NodeFilter::RelativePathIs).unwrap();
    assert!(a.explorer_config.filters.is_empty());
    let a = a.reset_node_filters().unwrap();
    let f = a.explorer_config.filters.get_index(0).unwrap();
    assert_eq!(f.filter, NodeFilter::RelativePathDoesNotStartWith);
    assert_eq!(f.input, ".");
    let a = a.remove_last_node_filter().unwrap();
    assert!(a.explorer_config.filters.is_empty());
    let a = a.reset_node_filters().unwrap().clear_node_filters().unwrap();
    assert!(a.explorer_config.filters.is_empty());
}

#[test]
fn reset_filters_when_showing_hidden_is_empty() {
    let mut a = app(&["a"], 0, false);
    a.config.general.show_hidden = true;
    let a = a.reset_node_filters().unwrap();
    assert!(a.explorer_config.filters.is_empty());
}

fn sorter(s: NodeSorter, reverse: bool) -> NodeSorterApplicable {
    NodeSorterApplicable { sorter: s, reverse }
}

#[test]
fn sorters_add_remove_reverse() {
    let a = app(&["a"], 0, false)
        .add_node_sorter(sorter(NodeSorter::ByIsDir, false))
        .unwrap()
        .add_node_sorter(sorter(NodeSorter::BySize, true))
        .unwrap()
        .add_node_sorter(sorter(NodeSorter::ByIsDir, false))
        .unwrap();
    let v: Vec<_> = a.explorer_config.sorters.iter().cloned().collect();
    assert_eq!(v, vec![sorter(NodeSorter::ByIsDir, false), sorter(NodeSorter::BySize, true)]);
    let a = a.reverse_node_sorter(NodeSorter::BySize).unwrap();
    let v: Vec<_> = a.explorer_config.sorters.iter().cloned().collect();
    assert_eq!(v, vec![sorter(NodeSorter::ByIsDir, false), sorter(NodeSorter::BySize, false)]);
    let a = a.reverse_node_sorters().unwrap().reverse_node_sorters().unwrap();
    let w: Vec<_> = a.explorer_config.sorters.iter().cloned().collect();
    assert_eq!(w, v);
    let a = a.remove_node_sorter(NodeSorter::ByIsDir).unwrap();
    assert_eq!(a.explorer_config.sorters.len(), 1);
    let a = a.remove_last_node_sorter().unwrap();
    assert!(a.explorer_config.sorters.is_empty());
}

#[test]
fn reversing_one_sorter_can_merge_duplicates() {
    let a = app(&["a"], 0, false)
        .add_node_sorter(sorter(NodeSorter::ByIsDir, true))
        .unwrap()
        .add_node_sorter(sorter(NodeSorter::ByIsDir, false))
        .unwrap()
        .reverse_node_sorter(NodeSorter::ByIsDir)
        .unwrap();
    let v: Vec<_> = a.explorer_config.sorters.iter().cloned().collect();
    assert_eq!(v, vec![sorter(NodeSorter::ByIsDir, false), sorter(NodeSorter::ByIsDir, true)]);
}

#[test]
fn sorters_toggle_reset_clear() {
    let s = sorter(NodeSorter::ByRelativePath, false);
    let a = app(&["a"], 0, false).toggle_node_sorter(s).unwrap();
    assert_eq!(a.explorer_config.sorters.len(), 1);
    let a = a.toggle_node_sorter(s).unwrap();
    assert!(a.explorer_config.sorters.is_empty());
    let mut a = a.add_node_sorter(s).unwrap();
    let mut init = IndexSet::new();
    init.insert(sorter(NodeSorter::BySize, true));
    a.config.general.initial_sorting = Some(init);
    let a = a.reset_node_sorters().unwrap();
    let v: Vec<_> = a.explorer_config.sorters.iter().cloned().collect();
    assert_eq!(v, vec![sorter(NodeSorter::BySize, true)]);
    let a = a.clear_node_sorters().unwrap();
    assert!(a.explorer_config.sorters.is_empty());
    let mut b = app(&["a"], 0, false).add_node_sorter(s).unwrap();
    b.config.general.initial_sorting = None;
    let b = b.reset_node_sorters().unwrap();
    assert!(b.explorer_config.sorters.is_empty());
}

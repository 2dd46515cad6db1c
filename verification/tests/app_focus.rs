use indexmap::IndexSet;
use std::collections::VecDeque;
use xplr::app::{App, ExplorerConfig, Pipe};
use xplr::config::{
    BuiltinLayoutsConfig, BuiltinModesConfig, Config, GeneralConfig, KeyBindings, Layout, LayoutsConfig, Mode,
    ModesConfig,
};
use xplr::history::History;
use xplr::input::InputBuffer;
use xplr::log::LogLevel;
use xplr::node::{DirectoryBuffer, Node};

fn bindings() -> KeyBindings {
    KeyBindings {
        on_key: vec![],
        on_alphabet: None,
        on_number: None,
        on_special_character: None,
        on_navigation: None,
        on_function: None,
        on_alphanumeric: None,
        on_character: None,
        default: None,
    }
}

fn mode(name: &str) -> Mode {
    Mode { name: name.to_string(), help: None, key_bindings: bindings() }
}

fn config(bounded: bool) -> Config {
    Config {
        general: GeneralConfig {
            read_only: false,
            enable_recover_mode: false,
            enforce_bounded_index_navigation: bounded,
            show_hidden: false,
            disable_debug_error_mode: false,
            initial_sorting: None,
            initial_mode: None,
            initial_layout: None,
        },
        modes: ModesConfig {
            builtin: BuiltinModesConfig {
                default: mode("default"),
                debug_error: mode("debug error"),
                recover: mode("recover"),
                filter: mode("filter"),
                number: mode("number"),
                go_to: mode("go to"),
                search: mode("search"),
                selection_ops: mode("selection ops"),
                action: mode("action to"),
                create: mode("create"),
                create_file: mode("create file"),
                create_directory: mode("create directory"),
                rename: mode("rename"),
                duplicate_as: mode("duplicate as"),
                delete: mode("delete"),
                sort: mode("sort"),
                relative_path_does_contain: mode("relative path does contain"),
                relative_path_does_not_contain: mode("relative path does not contain"),
                switch_layout: mode("switch layout"),
            },
            custom: vec![],
        },
        layouts: LayoutsConfig {
            builtin: BuiltinLayoutsConfig {
                default: Layout::Table,
                no_help: Layout::Nothing,
                no_selection: Layout::Selection,
                no_help_no_selection: Layout::HelpMenu,
            },
            custom: vec![],
        },
    }
}

fn node(parent: &str, name: &str) -> Node {
    Node {
        parent: parent.to_string(),
        relative_path: name.to_string(),
        absolute_path: format!("{}/{}", parent, name),
        symlink: None,
    }
}

fn dir(names: &[&str], focus: usize) -> DirectoryBuffer {
    let nodes: Vec<Node> = names.iter().map(|n| node("/tmp", n)).collect();
    DirectoryBuffer { parent: "/tmp".to_string(), total: nodes.len(), nodes, focus }
}

fn app(names: &[&str], focus: usize, bounded: bool) -> App {
    App {
        version: "0".to_string(),
        config: config(bounded),
        pwd: "/tmp".to_string(),
        directory_buffer: Some(dir(names, focus)),
        last_focus: vec![],
        selection: IndexSet::new(),
        msg_out: VecDeque::new(),
        mode: mode("default"),
        layout: Layout::Table,
        input: None,
        pid: 1,
        session_path: "/s".to_string(),
        pipe: Pipe {
            path: "/s/pipe".to_string(),
            msg_in: "/s/pipe/msg_in".to_string(),
            selection_out: "/s/pipe/selection_out".to_string(),
            result_out: "/s/pipe/result_out".to_string(),
            directory_nodes_out: "/s/pipe/directory_nodes_out".to_string(),
            global_help_menu_out: "/s/pipe/global_help_menu_out".to_string(),
            logs_out: "/s/pipe/logs_out".to_string(),
            history_out: "/s/pipe/history_out".to_string(),
        },
        explorer_config: ExplorerConfig { filters: IndexSet::new(), sorters: IndexSet::new() },
        logs: vec![],
        logs_hidden: true,
        history: History { loc: 0, paths: vec![] },
        last_modes: vec![],
    }
}

fn focus(a: &App) -> usize {
    a.directory_buffer.as_ref().unwrap().focus
}

#[test]
fn focus_next_wraps_to_first() {
    let a = app(&["a", "b", "c"], 2, false).focus_next().unwrap();
    assert_eq!(focus(&a), 0);
}

#[test]
fn focus_next_bounded_stays_on_last() {
    let a = app(&["a", "b", "c"], 2, true).focus_next().unwrap();
    assert_eq!(focus(&a), 2);
    let a = app(&["a", "b", "c"], 0, true).focus_next().unwrap();
    assert_eq!(focus(&a), 1);
}

#[test]
fn focus_previous_wraps_to_last() {
    let a = app(&["a", "b", "c"], 0, false).focus_previous().unwrap();
    assert_eq!(focus(&a), 2);
    let a = app(&["a", "b", "c"], 0, true).focus_previous().unwrap();
    assert_eq!(focus(&a), 0);
    let a = app(&["a", "b", "c"], 2, true).focus_previous().unwrap();
    assert_eq!(focus(&a), 1);
}

#[test]
fn focus_next_then_previous_returns() {
    let a = app(&["a", "b", "c"], 1, false).focus_next().unwrap().focus_previous().unwrap();
    assert_eq!(focus(&a), 1);
    let a = app(&["a", "b", "c"], 2, false).focus_next().unwrap().focus_previous().unwrap();
    assert_eq!(focus(&a), 2);
}

#[test]
fn focus_without_listing_does_nothing() {
    let mut a = app(&["a"], 0, false);
    a.directory_buffer = None;
    let a = a.focus_next().unwrap().focus_last().unwrap().focus_first(true).unwrap();
    assert!(a.directory_buffer.is_none());
    assert!(a.history.paths.is_empty());
}

#[test]
fn focus_first_records_both_nodes() {
    let a = app(&["a", "b", "c"], 2, false).focus_first(true).unwrap();
    assert_eq!(focus(&a), 0);
    assert_eq!(a.history.paths, vec!["/tmp/c".to_string(), "/tmp/a".to_string()]);
    assert_eq!(a.history.loc, 1);
    let a = app(&["a", "b", "c"], 2, false).focus_first(false).unwrap();
    assert!(a.history.paths.is_empty());
}

#[test]
fn focus_last_records_both_nodes() {
    let a = app(&["a", "b", "c"], 0, false).focus_last().unwrap();
    assert_eq!(focus(&a), 2);
    assert_eq!(a.history.paths, vec!["/tmp/a".to_string(), "/tmp/c".to_string()]);
}

#[test]
fn focus_on_empty_listing_keeps_history() {
    let a = app(&[], 0, false).focus_last().unwrap();
    assert_eq!(focus(&a), 0);
    assert!(a.history.paths.is_empty());
}

#[test]
fn focus_by_relative_index_clamps() {
    let a = app(&["a", "b", "c", "d"], 1, false).focus_next_by_relative_index(10).unwrap();
    assert_eq!(focus(&a), 3);
    let a = a.focus_previous_by_relative_index(2).unwrap();
    assert_eq!(focus(&a), 1);
    let a = a.focus_previous_by_relative_index(5).unwrap();
    assert_eq!(focus(&a), 0);
    assert_eq!(a.history.paths.len(), 4);
}

#[test]
fn focus_by_index_clamps_and_records_target() {
    let a = app(&["a", "b", "c"], 0, false).focus_by_index(9).unwrap();
    assert_eq!(focus(&a), 2);
    assert_eq!(a.history.paths, vec!["/tmp/c".to_string()]);
}

#[test]
fn focus_from_input_parses_number() {
    let mut a = app(&["a", "b", "c", "d"], 0, false);
    a.input = Some(InputBuffer::with_value("2".to_string()));
    let a = a.focus_by_index_from_input().unwrap();
    assert_eq!(focus(&a), 2);
    let a = a.focus_next_by_relative_index_from_input().unwrap();
    assert_eq!(focus(&a), 3);
    let a = a.focus_previous_by_relative_index_from_input().unwrap();
    assert_eq!(focus(&a), 1);
    let mut b = app(&["a", "b"], 1, false);
    b.input = Some(InputBuffer::with_value("x".to_string()));
    let b = b.focus_by_index_from_input().unwrap();
    assert_eq!(focus(&b), 1);
}

#[test]
fn focus_by_file_name_finds_first_match() {
    let a = app(&["a", "b", "c"], 0, false).focus_by_file_name("c", true).unwrap();
    assert_eq!(focus(&a), 2);
    assert_eq!(a.history.paths, vec!["/tmp/a".to_string(), "/tmp/c".to_string()]);
    let a = app(&["a", "b", "c"], 0, false).focus_by_file_name("b", false).unwrap();
    assert_eq!(focus(&a), 1);
    assert!(a.history.paths.is_empty());
}

#[test]
fn focus_by_file_name_missing_logs_error() {
    let a = app(&["a"], 0, false).focus_by_file_name("zz", true).unwrap();
    assert_eq!(focus(&a), 0);
    assert_eq!(a.logs.len(), 1);
    assert_eq!(a.logs[0].level, LogLevel::Error);
    assert_eq!(a.logs[0].message, "zz not found in $PWD");
    assert!(!a.logs_hidden);
}

#[test]
fn focused_node_str_gives_path() {
    let a = app(&["a", "b"], 1, false);
    assert_eq!(a.focused_node_str(), "/tmp/b");
    assert_eq!(a.focused_node().unwrap().relative_path, "b");
    let e = app(&[], 0, false);
    assert_eq!(e.focused_node_str(), "");
}

#[test]
fn add_last_focus_reads_back() {
    let a = app(&["a"], 0, false)
        .add_last_focus("/x".to_string(), Some("f".to_string()))
        .unwrap()
        .add_last_focus("/y".to_string(), None)
        .unwrap()
        .add_last_focus("/x".to_string(), Some("g".to_string()))
        .unwrap();
    assert_eq!(a.last_focus.len(), 2);
    assert_eq!(a.last_focus[0], ("/x".to_string(), Some("g".to_string())));
    assert_eq!(a.last_focus[1], ("/y".to_string(), None));
}

#[test]
fn set_directory_shows_listing_of_pwd_only() {
    let a = app(&["a"], 0, false);
    let other = DirectoryBuffer { parent: "/other".to_string(), nodes: vec![node("/other", "q")], total: 1, focus: 0 };
    let a = a.set_directory(other).unwrap();
    assert_eq!(a.directory_buffer.as_ref().unwrap().parent, "/tmp");
    assert_eq!(a.last_focus, vec![("/other".to_string(), Some("q".to_string()))]);
    let a = a.set_directory(dir(&["x", "y"], 1)).unwrap();
    assert_eq!(a.directory_buffer.as_ref().unwrap().nodes.len(), 2);
    assert_eq!(a.last_focus[1], ("/tmp".to_string(), Some("y".to_string())));
}

#[test]
fn strings_of_the_state() {
    let a = app(&["a", "b"], 0, false);
    assert_eq!(a.pwd_str(), "/tmp\n");
    assert_eq!(a.mode_str(), "default\n");
    assert_eq!(a.directory_nodes_str(), "/tmp/a\n/tmp/b\n");
    assert_eq!(a.result_str(), "/tmp/a\n");
    assert_eq!(a.selection_str(), "");
    let a = a.focus_last().unwrap();
    assert_eq!(a.history_str(), "/tmp/a\n/tmp/b\n");
}

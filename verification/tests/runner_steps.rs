use indexmap::IndexSet;
use std::collections::VecDeque;
use xplr::app::{App, ExplorerConfig, Pipe};
use xplr::config::{
    BuiltinLayoutsConfig, BuiltinModesConfig, Config, GeneralConfig, KeyBindings, Layout, LayoutsConfig, Mode,
    ModesConfig,
};
use xplr::history::History;
use xplr::input::InputBuffer;
use xplr::log::LogLevel;
use xplr::msg::{Command, ExternalMsg, InputOperation, InternalMsg, MsgIn, MsgOut, NodeFilter, NodeFilterApplicable, NodeSorter, NodeSorterApplicable, Task};
use xplr::config::Action;
use xplr::input::{Key, KeyKind};
use xplr::app::{Io, Step};
use xplr::node::{DirectoryBuffer, Node};
use xplr::explore::shown_nodes;
use xplr::config::{config_files, fold_loads, system_config_file, user_config_file};

fn bindings() -> KeyBindings {
    KeyBindings {
        on_key: vec![],
        on_alphabet: None,
        on_number: None,
        on_special_character: None,
        on_navigation: None,
        on_function: None,
        on_alphanumeric: None,
        on_character: None,
        default: None,
    }
}

fn mode(name: &str) -> Mode {
    Mode { name: name.to_string(), help: None, key_bindings: bindings() }
}

fn config(bounded: bool) -> Config {
    Config {
        general: GeneralConfig {
            read_only: false,
            enable_recover_mode: false,
            enforce_bounded_index_navigation: bounded,
            show_hidden: false,
            disable_debug_error_mode: false,
            initial_sorting: None,
            initial_mode: None,
            initial_layout: None,
        },
        modes: ModesConfig {
            builtin: BuiltinModesConfig {
                default: mode("default"),
                debug_error: mode("debug error"),
                recover: mode("recover"),
                filter: mode("filter"),
                number: mode("number"),
                go_to: mode("go to"),
                search: mode("search"),
                selection_ops: mode("selection ops"),
                action: mode("action to"),
                create: mode("create"),
                create_file: mode("create file"),
                create_directory: mode("create directory"),
                rename: mode("rename"),
                duplicate_as: mode("duplicate as"),
                delete: mode("delete"),
                sort: mode("sort"),
                relative_path_does_contain: mode("relative path does contain"),
                relative_path_does_not_contain: mode("relative path does not contain"),
                switch_layout: mode("switch layout"),
            },
            custom: vec![],
        },
        layouts: LayoutsConfig {
            builtin: BuiltinLayoutsConfig {
                default: Layout::Table,
                no_help: Layout::Nothing,
                no_selection: Layout::Selection,
                no_help_no_selection: Layout::HelpMenu,
            },
            custom: vec![],
        },
    }
}

fn node(parent: &str, name: &str) -> Node {
    Node {
        parent: parent.to_string(),
        relative_path: name.to_string(),
        absolute_path: format!("{}/{}", parent, name),
        symlink: None,
    }
}

fn dir(names: &[&str], focus: usize) -> DirectoryBuffer {
    let nodes: Vec<Node> = names.iter().map(|n| node("/tmp", n)).collect();
    DirectoryBuffer { parent: "/tmp".to_string(), total: nodes.len(), nodes, focus }
}

fn app(names: &[&str], focus: usize, bounded: bool) -> App {
    App {
        version: "0".to_string(),
        config: config(bounded),
        pwd: "/tmp".to_string(),
        directory_buffer: Some(dir(names, focus)),
        last_focus: vec![],
        selection: IndexSet::new(),
        msg_out: VecDeque::new(),
        mode: mode("default"),
        layout: Layout::Table,
        input: None,
        pid: 1,
        session_path: "/s".to_string(),
        pipe: Pipe {
            path: "/s/pipe".to_string(),
            msg_in: "/s/pipe/msg_in".to_string(),
            selection_out: "/s/pipe/selection_out".to_string(),
            result_out: "/s/pipe/result_out".to_string(),
            directory_nodes_out: "/s/pipe/directory_nodes_out".to_string(),
            global_help_menu_out: "/s/pipe/global_help_menu_out".to_string(),
            logs_out: "/s/pipe/logs_out".to_string(),
            history_out: "/s/pipe/history_out".to_string(),
        },
        explorer_config: ExplorerConfig { filters: IndexSet::new(), sorters: IndexSet::new() },
        logs: vec![],
        logs_hidden: true,
        history: History { loc: 0, paths: vec![] },
        last_modes: vec![],
    }
}

fn selected_paths(a: &App) -> Vec<String> {
    a.selection.iter().map(|n| n.absolute_path.clone()).collect()
}


fn input_app(value: &str) -> App {
    let mut a = app(&["a", "b"], 0, false);
    a.input = Some(InputBuffer::with_value(value.to_string()));
    a
}

#[test]
fn toggling_a_path_twice_gives_the_selection_back() {
    let a = app(&["a", "b"], 0, false).select().unwrap();
    let before = selected_paths(&a);
    let a = a.toggle_selection_by_path("sub/x".to_string()).unwrap();
    assert_eq!(selected_paths(&a), vec!["/tmp/a".to_string(), "/tmp/sub/x".to_string()]);
    let a = a.toggle_selection_by_path("sub/x".to_string()).unwrap();
    assert_eq!(selected_paths(&a), before);
}

#[test]
fn keeping_existing_paths_drops_the_others_in_order() {
    let a = app(&["a", "b", "c"], 0, false).select_all().unwrap();
    let a = a.keep_existing(vec!["/tmp/c".to_string(), "/tmp/a".to_string()]).unwrap();
    assert_eq!(selected_paths(&a), vec!["/tmp/a".to_string(), "/tmp/c".to_string()]);
}

#[test]
fn allows_refuses_counter_overflow() {
    let mut a = app(&["a"], 0, false);
    assert!(a.allows(&ExternalMsg::FocusNext));
    assert!(a.allows(&ExternalMsg::FocusNextByRelativeIndex(usize::MAX)));
    a.directory_buffer.as_mut().unwrap().focus = usize::MAX;
    assert!(!a.allows(&ExternalMsg::FocusNext));
    assert!(!a.allows(&ExternalMsg::FocusNextByRelativeIndex(1)));
    assert!(a.allows(&ExternalMsg::FocusNextByRelativeIndex(0)));
    assert!(a.allows(&ExternalMsg::FocusPrevious));
    let mut b = input_app("3");
    b.directory_buffer.as_mut().unwrap().focus = usize::MAX - 2;
    assert!(!b.allows(&ExternalMsg::FocusNextByRelativeIndexFromInput));
    let mut c = input_app("x");
    c.directory_buffer.as_mut().unwrap().focus = usize::MAX;
    assert!(c.allows(&ExternalMsg::FocusNextByRelativeIndexFromInput));
    let mut h = app(&["a"], 0, false);
    h.history.loc = usize::MAX;
    assert!(!h.allows(&ExternalMsg::NextVisitedPath));
    assert!(input_app("ab").allows(&ExternalMsg::BufferInput("cd".to_string())));
}

#[test]
fn entering_a_directory_asks_for_its_listing() {
    let s = app(&["a", "b"], 1, false)
        .directory_change_ended("/etc".to_string(), true, None, Ok(()))
        .unwrap();
    assert!(matches!(s.io, Some(Io::ExplorePwd)));
    assert_eq!(s.app.pwd, "/etc");
    assert_eq!(s.app.history.paths, vec!["/etc/".to_string()]);
    assert_eq!(s.app.last_focus, vec![("/tmp".to_string(), Some("b".to_string()))]);
    let s = app(&["a"], 0, false)
        .directory_change_ended("/etc".to_string(), false, Some(("hosts".to_string(), true)), Ok(()))
        .unwrap();
    assert!(matches!(&s.io, Some(Io::ExplorePwdThenFocus { name, save_history: true }) if name == "hosts"));
    assert!(s.app.history.paths.is_empty());
}

#[test]
fn a_failed_directory_change_is_logged_then_the_focus_is_looked_for() {
    let s = app(&["a", "b"], 0, false)
        .directory_change_ended("/nope".to_string(), true, Some(("b".to_string(), false)), Err("no such dir".to_string()))
        .unwrap();
    assert!(s.io.is_none());
    assert_eq!(s.app.pwd, "/tmp");
    assert_eq!(s.app.logs.len(), 1);
    assert_eq!(s.app.logs[0].message, "no such dir");
    assert!(matches!(s.app.logs[0].level, LogLevel::Error));
    assert_eq!(s.app.directory_buffer.as_ref().unwrap().focus, 1);
    let s = app(&["a"], 0, false)
        .directory_change_ended("/nope".to_string(), true, None, Err("e".to_string()))
        .unwrap();
    assert!(s.io.is_none());
    assert_eq!(s.app.logs.len(), 1);
}

#[test]
fn a_listing_is_taken_in_then_focused() {
    let a = app(&["a"], 0, false).listed(dir(&["x", "y", "z"], 0), Some(("z".to_string(), false))).unwrap();
    let d = a.directory_buffer.as_ref().unwrap();
    assert_eq!(d.nodes.len(), 3);
    assert_eq!(d.focus, 2);
    let a = app(&["a"], 0, false).listed(dir(&["x", "y"], 1), None).unwrap();
    assert_eq!(a.directory_buffer.as_ref().unwrap().focus, 1);
    assert_eq!(a.last_focus, vec![("/tmp".to_string(), Some("y".to_string()))]);
}

fn filter(f: NodeFilter, input: &str) -> NodeFilterApplicable {
    NodeFilterApplicable { filter: f, input: input.to_string() }
}

fn names(ns: &[Node]) -> Vec<String> {
    ns.iter().map(|n| n.relative_path.clone()).collect()
}

#[test]
fn shown_nodes_pass_every_filter() {
    let d = dir(&[".hidden", "Alpha.txt", "beta.rs", "gamma.txt"], 0);
    let hide = vec![filter(NodeFilter::RelativePathDoesNotStartWith, ".")];
    assert_eq!(names(&shown_nodes(&d.nodes, &hide)), vec!["Alpha.txt", "beta.rs", "gamma.txt"]);
    let two = vec![filter(NodeFilter::RelativePathDoesNotStartWith, "."), filter(NodeFilter::RelativePathDoesEndWith, ".txt")];
    assert_eq!(names(&shown_nodes(&d.nodes, &two)), vec!["Alpha.txt", "gamma.txt"]);
    let ci = vec![filter(NodeFilter::IRelativePathDoesStartWith, "al")];
    assert_eq!(names(&shown_nodes(&d.nodes, &ci)), vec!["Alpha.txt"]);
    let cs = vec![filter(NodeFilter::RelativePathDoesStartWith, "al")];
    assert!(shown_nodes(&d.nodes, &cs).is_empty());
    let contains = vec![filter(NodeFilter::RelativePathDoesContain, "a.")];
    assert_eq!(names(&shown_nodes(&d.nodes, &contains)), vec!["Alpha.txt", "beta.rs", "gamma.txt"]);
    let contains_t = vec![filter(NodeFilter::RelativePathDoesContain, "ta.")];
    assert_eq!(names(&shown_nodes(&d.nodes, &contains_t)), vec!["beta.rs"]);
    let not_contains = vec![filter(NodeFilter::IRelativePathDoesNotContain, "A")];
    assert_eq!(names(&shown_nodes(&d.nodes, &not_contains)), vec![".hidden"]);
    let abs = vec![filter(NodeFilter::AbsolutePathIs, "/tmp/beta.rs")];
    assert_eq!(names(&shown_nodes(&d.nodes, &abs)), vec!["beta.rs"]);
    let is_not = vec![filter(NodeFilter::IRelativePathIsNot, "GAMMA.TXT")];
    assert_eq!(names(&shown_nodes(&d.nodes, &is_not)), vec![".hidden", "Alpha.txt", "beta.rs"]);
    assert_eq!(shown_nodes(&d.nodes, &vec![]).len(), 4);
    let re = vec![filter(NodeFilter::RelativePathDoesMatchRegex, r"^b.*\.rs$")];
    assert_eq!(names(&shown_nodes(&d.nodes, &re)), vec!["beta.rs"]);
    let ire = vec![filter(NodeFilter::IRelativePathDoesMatchRegex, "^ALPHA")];
    assert_eq!(names(&shown_nodes(&d.nodes, &ire)), vec!["Alpha.txt"]);
    let not_re = vec![filter(NodeFilter::RelativePathDoesNotMatchRegex, "txt$")];
    assert_eq!(names(&shown_nodes(&d.nodes, &not_re)), vec![".hidden", "beta.rs"]);
    let abs_re = vec![filter(NodeFilter::AbsolutePathDoesMatchRegex, "^/tmp/g")];
    assert_eq!(names(&shown_nodes(&d.nodes, &abs_re)), vec!["gamma.txt"]);
    let bad = vec![filter(NodeFilter::RelativePathDoesMatchRegex, "(")];
    assert!(shown_nodes(&d.nodes, &bad).is_empty());
    let bad_not = vec![filter(NodeFilter::RelativePathDoesNotMatchRegex, "(")];
    assert!(shown_nodes(&d.nodes, &bad_not).is_empty());
}

#[test]
fn configuration_files_in_lookup_order() {
    let extra = vec!["/x.lua".to_string()];
    assert_eq!(config_files(Some("/given.lua".to_string()), Some(("/h/init.lua".to_string(), true)), true, extra.clone()),
        vec!["/given.lua".to_string(), "/x.lua".to_string()]);
    assert_eq!(config_files(None, Some(("/h/init.lua".to_string(), true)), true, extra.clone()),
        vec!["/h/init.lua".to_string(), "/x.lua".to_string()]);
    assert_eq!(config_files(None, Some(("/h/init.lua".to_string(), false)), true, extra.clone()),
        vec!["/x.lua".to_string()]);
    assert_eq!(config_files(None, None, true, vec![]), vec!["/etc/xplr/init.lua".to_string()]);
    assert!(config_files(None, None, false, vec![]).is_empty());
    assert_eq!(user_config_file("/home/u"), "/home/u/.config/xplr/init.lua");
    assert_eq!(system_config_file(), "/etc/xplr/init.lua");
}

#[test]
fn loading_keeps_the_last_configuration_that_loads_and_every_error() {
    let mut second = config(false);
    second.general.read_only = true;
    let mut third = config(false);
    third.general.show_hidden = true;
    let (c, errs) = fold_loads(
        config(false),
        vec![Err("bad one".to_string()), Ok(second), Err("bad two".to_string())],
    );
    assert!(c.general.read_only);
    assert_eq!(errs, vec!["bad one".to_string(), "bad two".to_string()]);
    let (c, errs) = fold_loads(config(false), vec![Ok(third)]);
    assert!(c.general.show_hidden);
    assert!(errs.is_empty());
    let (c, errs) = fold_loads(config(true), vec![]);
    assert!(c.general.enforce_bounded_index_navigation);
    assert!(errs.is_empty());
}

#[test]
fn handling_only_what_the_counters_allow() {
    let mut a = app(&["a"], 0, false);
    a.directory_buffer.as_mut().unwrap().focus = usize::MAX;
    let s = a.handle_external_if_allowed(ExternalMsg::FocusNext, None).unwrap();
    assert!(s.io.is_none());
    assert_eq!(s.app.directory_buffer.as_ref().unwrap().focus, usize::MAX);
    let s = app(&["a", "b"], 0, false).handle_external_if_allowed(ExternalMsg::FocusNext, None).unwrap();
    assert_eq!(s.app.directory_buffer.as_ref().unwrap().focus, 1);
    let s = app(&["a", "b"], 0, false)
        .handle_task_if_allowed(Task::new(MsgIn::External(ExternalMsg::FocusLast), None))
        .unwrap();
    assert_eq!(s.app.directory_buffer.as_ref().unwrap().focus, 1);
}

#[test]
fn next_visited_path_undoes_last_visited_path() {
    let mut a = app(&["a"], 0, false);
    a.history = History { loc: 1, paths: vec!["/tmp/".to_string(), "/etc/".to_string()] };
    let s = a.last_visited_path().unwrap();
    assert_eq!(s.app.history.loc, 0);
    assert!(matches!(&s.io, Some(Io::ChangeDirectory { dir, save_history: false, .. }) if dir == "/tmp"));
    let s = s.app.next_visited_path().unwrap();
    assert_eq!(s.app.history.loc, 1);
    assert_eq!(s.app.history.paths, vec!["/tmp/".to_string(), "/etc/".to_string()]);
}

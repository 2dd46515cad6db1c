use indexmap::IndexSet;
use std::collections::VecDeque;
use xplr::app::{App, ExplorerConfig, Pipe};
use xplr::config::{
    BuiltinLayoutsConfig, BuiltinModesConfig, Config, GeneralConfig, KeyBindings, Layout, LayoutsConfig, Mode,
    ModesConfig,
};
use xplr::history::History;
use xplr::input::InputBuffer;
use xplr::log::LogLevel;
use xplr::msg::{Command, ExternalMsg, InputOperation, InternalMsg, MsgIn, MsgOut, NodeFilter, NodeFilterApplicable, NodeSorter, NodeSorterApplicable, Task};
use xplr::config::Action;
use xplr::input::{Key, KeyKind};
use xplr::app::{Io, Step};
use xplr::node::{DirectoryBuffer, Node};

fn bindings() -> KeyBindings {
    KeyBindings {
        on_key: vec![],
        on_alphabet: None,
        on_number: None,
        on_special_character: None,
        on_navigation: None,
        on_function: None,
        on_alphanumeric: None,
        on_character: None,
        default: None,
    }
}

fn mode(name: &str) -> Mode {
    Mode { name: name.to_string(), help: None, key_bindings: bindings() }
}

fn config(bounded: bool) -> Config {
    Config {
        general: GeneralConfig {
            read_only: false,
            enable_recover_mode: false,
            enforce_bounded_index_navigation: bounded,
            show_hidden: false,
            disable_debug_error_mode: false,
            initial_sorting: None,
            initial_mode: None,
            initial_layout: None,
        },
        modes: ModesConfig {
            builtin: BuiltinModesConfig {
                default: mode("default"),
                debug_error: mode("debug error"),
                recover: mode("recover"),
                filter: mode("filter"),
                number: mode("number"),
                go_to: mode("go to"),
                search: mode("search"),
                selection_ops: mode("selection ops"),
                action: mode("action to"),
                create: mode("create"),
                create_file: mode("create file"),
                create_directory: mode("create directory"),
                rename: mode("rename"),
                duplicate_as: mode("duplicate as"),
                delete: mode("delete"),
                sort: mode("sort"),
                relative_path_does_contain: mode("relative path does contain"),
                relative_path_does_not_contain: mode("relative path does not contain"),
                switch_layout: mode("switch layout"),
            },
            custom: vec![],
        },
        layouts: LayoutsConfig {
            builtin: BuiltinLayoutsConfig {
                default: Layout::Table,
                no_help: Layout::Nothing,
                no_selection: Layout::Selection,
                no_help_no_selection: Layout::HelpMenu,
            },
            custom: vec![],
        },
    }
}

fn node(parent: &str, name: &str) -> Node {
    Node {
        parent: parent.to_string(),
        relative_path: name.to_string(),
        absolute_path: format!("{}/{}", parent, name),
        symlink: None,
    }
}

fn dir(names: &[&str], focus: usize) -> DirectoryBuffer {
    let nodes: Vec<Node> = names.iter().map(|n| node("/tmp", n)).collect();
    DirectoryBuffer { parent: "/tmp".to_string(), total: nodes.len(), nodes, focus }
}

fn app(names: &[&str], focus: usize, bounded: bool) -> App {
    App {
        version: "0".to_string(),
        config: config(bounded),
        pwd: "/tmp".to_string(),
        directory_buffer: Some(dir(names, focus)),
        last_focus: vec![],
        selection: IndexSet::new(),
        msg_out: VecDeque::new(),
        mode: mode("default"),
        layout: Layout::Table,
        input: None,
        pid: 1,
        session_path: "/s".to_string(),
        pipe: Pipe {
            path: "/s/pipe".to_string(),
            msg_in: "/s/pipe/msg_in".to_string(),
            selection_out: "/s/pipe/selection_out".to_string(),
            result_out: "/s/pipe/result_out".to_string(),
            directory_nodes_out: "/s/pipe/directory_nodes_out".to_string(),
            global_help_menu_out: "/s/pipe/global_help_menu_out".to_string(),
            logs_out: "/s/pipe/logs_out".to_string(),
            history_out: "/s/pipe/history_out".to_string(),
        },
        explorer_config: ExplorerConfig { filters: IndexSet::new(), sorters: IndexSet::new() },
        logs: vec![],
        logs_hidden: true,
        history: History { loc: 0, paths: vec![] },
        last_modes: vec![],
    }
}

fn st(r: Result<Step, xplr::app::AppError>) -> Step {
    match r {
        Ok(s) => s,
        Err(_) => panic!("unexpected error"),
    }
}

#[test]
fn read_only_refuses_code() {
    let mut a = app(&["a"], 0, false);
    a.config.general.read_only = true;
    let s = st(a.handle_external(ExternalMsg::BashExec("rm -rf /".to_string()), None));
    assert!(s.io.is_none());
    assert!(s.app.msg_out.is_empty());
    assert_eq!(s.app.logs[0].message, "Cannot execute code in read-only mode.");
    assert_eq!(s.app.logs[0].level, LogLevel::Error);
    let s = st(s.app.handle_external(ExternalMsg::FocusNext, None));
    assert!(s.app.logs.len() == 1);
}

#[test]
fn terminate_is_an_error() {
    let a = app(&["a"], 0, false);
    match a.handle_external(ExternalMsg::Terminate, None) {
        Err(e) => assert_eq!(e.message, ""),
        Ok(_) => panic!("expected an error"),
    }
}

#[test]
fn calls_hide_logs_and_ask_runner() {
    let a = app(&["a"], 0, false);
    let s = st(a.handle_external(ExternalMsg::BashExec("ls".to_string()), None));
    assert!(s.app.logs_hidden);
    match &s.app.msg_out[0] {
        MsgOut::Call(c) => {
            assert_eq!(c.command, "bash");
            assert_eq!(c.args, vec!["-c".to_string(), "ls".to_string()]);
        },
        _ => panic!("expected a call"),
    }
    let s = st(s.app.handle_external(ExternalMsg::CallLuaSilently("f".to_string()), None));
    assert!(matches!(&s.app.msg_out[1], MsgOut::CallLuaSilently(f) if f == "f"));
    let s = st(s.app.handle_external(ExternalMsg::Quit, None));
    assert!(matches!(&s.app.msg_out[2], MsgOut::Quit));
}

#[test]
fn logs_are_recorded() {
    let a = app(&["a"], 0, false);
    let s = st(a.handle_external(ExternalMsg::LogSuccess("done".to_string()), None));
    assert!(!s.app.logs_hidden);
    assert_eq!(s.app.logs[0].level, LogLevel::Success);
    let a = s.app.log_info("i".to_string()).unwrap().log_warning("w".to_string()).unwrap();
    assert_eq!(a.logs[1].level, LogLevel::Info);
    assert_eq!(a.logs[2].level, LogLevel::Warning);
}

#[test]
fn change_directory_asks_runner() {
    let a = app(&["a"], 0, false);
    let s = st(a.handle_external(ExternalMsg::ChangeDirectory("sub".to_string()), None));
    match s.io {
        Some(Io::ChangeDirectory { dir, save_history, focus }) => {
            assert_eq!(dir, "/tmp/sub");
            assert!(save_history);
            assert!(focus.is_none());
        },
        _ => panic!("expected a change of directory"),
    }
}

#[test]
fn enter_and_back_ask_runner() {
    let a = app(&["a"], 0, false);
    let s = st(a.enter());
    assert!(matches!(&s.io, Some(Io::ChangeDirectory { dir, .. }) if dir == "/tmp/a"));
    let s = st(s.app.back());
    assert!(matches!(&s.io, Some(Io::ChangeDirectory { dir, .. }) if dir == "/"));
    let mut b = app(&["a"], 0, false);
    b.pwd = "/".to_string();
    let s = st(b.back());
    assert!(s.io.is_none());
}

#[test]
fn focus_path_asks_to_enter_and_focus() {
    let a = app(&["a"], 0, false);
    let s = st(a.focus_path("/etc/hosts", true));
    match s.io {
        Some(Io::ChangeDirectory { dir, save_history, focus }) => {
            assert_eq!(dir, "/etc");
            assert!(!save_history);
            assert_eq!(focus, Some(("hosts".to_string(), true)));
        },
        _ => panic!("expected a change of directory"),
    }
    let s = st(s.app.focus_path("/", true));
    assert!(s.io.is_none());
    assert_eq!(s.app.logs[0].message, "Cannot focus on /");
}

#[test]
fn visited_paths_go_to_directories_or_files() {
    let mut a = app(&["a"], 0, false);
    a.history = xplr::history::History { loc: 1, paths: vec!["/etc/".to_string(), "/tmp/a".to_string()] };
    let s = st(a.last_visited_path());
    assert_eq!(s.app.history.loc, 0);
    assert!(matches!(&s.io, Some(Io::ChangeDirectory { dir, save_history: false, focus: None }) if dir == "/etc"));
    let s = st(s.app.next_visited_path());
    assert_eq!(s.app.history.loc, 1);
    assert!(matches!(&s.io, Some(Io::ChangeDirectory { dir, focus: Some((f, false)), .. }) if dir == "/tmp" && f == "a"));
}

#[test]
fn entered_directory_updates_state() {
    let a = app(&["a", "b"], 1, false);
    let a = a.entered_directory("/etc".to_string(), true).unwrap();
    assert_eq!(a.pwd, "/etc");
    assert_eq!(a.history.paths, vec!["/etc/".to_string()]);
    assert_eq!(a.last_focus, vec![("/tmp".to_string(), Some("b".to_string()))]);
    let (a, focus, index) = a.prepare_explore_pwd().unwrap();
    assert_eq!(focus, None);
    assert_eq!(index, 1);
    assert_eq!(a.last_focus[1], ("/etc".to_string(), None));
}

#[test]
fn explore_pwd_asks_runner() {
    let a = app(&["a"], 0, false);
    let s = st(a.explore_pwd());
    assert!(matches!(s.io, Some(Io::ExplorePwd)));
    let s = st(s.app.handle_external(ExternalMsg::ExplorePwdAsync, None));
    assert!(matches!(s.app.msg_out[0], MsgOut::ExplorePwdAsync));
}

#[test]
fn follow_symlink_focuses_target() {
    let mut a = app(&["a"], 0, false);
    a.directory_buffer.as_mut().unwrap().nodes[0].symlink =
        Some(xplr::node::ResolvedNode { absolute_path: "/usr/bin/env".to_string() });
    let s = st(a.follow_symlink());
    assert!(matches!(&s.io, Some(Io::ChangeDirectory { dir, focus: Some((f, true)), .. }) if dir == "/usr/bin" && f == "env"));
}

#[test]
fn input_buffer_edits() {
    let a = app(&["a"], 0, false);
    let a = a.update_input_buffer(InputOperation::GoToStart).unwrap();
    assert!(a.input.is_none());
    let a = a.update_input_buffer(InputOperation::InsertCharacter('x')).unwrap();
    assert_eq!(a.input.as_ref().unwrap().value, "x");
    let a = a.buffer_input("yz").unwrap();
    assert_eq!(a.input.as_ref().unwrap().value, "xyz");
    assert_eq!(a.input.as_ref().unwrap().cursor, 3);
    let a = a.remove_input_buffer_last_character().unwrap();
    assert_eq!(a.input.as_ref().unwrap().value, "xy");
    let a = a.buffer_input(" hello world").unwrap().remove_input_buffer_last_word().unwrap();
    assert_eq!(a.input.as_ref().unwrap().value, "xy hello ");
    let a = a.set_input_buffer("new".to_string()).unwrap();
    assert_eq!(a.input.as_ref().unwrap().value, "new");
    assert_eq!(a.input.as_ref().unwrap().cursor, 3);
    let a = a.reset_input_buffer().unwrap();
    assert!(a.input.is_none());
    let a = a.buffer_input("héllo").unwrap();
    assert_eq!(a.input.as_ref().unwrap().cursor, 5);
}

#[test]
fn input_buffer_from_keys() {
    let k = Key { name: "a".to_string(), kind: KeyKind::Alphabet, character: Some('a'), input_operation: None };
    let a = app(&["a"], 0, false).buffer_input_from_key(Some(k)).unwrap();
    assert_eq!(a.input.as_ref().unwrap().value, "a");
    let bs = Key {
        name: "backspace".to_string(),
        kind: KeyKind::Other,
        character: None,
        input_operation: Some(InputOperation::DeletePreviousCharacter),
    };
    let a = a.update_input_buffer_from_key(Some(bs)).unwrap();
    assert_eq!(a.input.as_ref().unwrap().value, "");
    let a = a.update_input_buffer_from_key(None).unwrap();
    assert!(a.logs_hidden);
}

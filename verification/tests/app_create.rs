use indexmap::IndexSet;
use std::collections::VecDeque;
use xplr::app::{App, ExplorerConfig, Pipe};
use xplr::config::{
    BuiltinLayoutsConfig, BuiltinModesConfig, Config, GeneralConfig, KeyBindings, Layout, LayoutsConfig, Mode,
    ModesConfig,
};
use xplr::history::History;
use xplr::input::InputBuffer;
use xplr::log::LogLevel;
use xplr::msg::{Command, ExternalMsg, InputOperation, InternalMsg, MsgIn, MsgOut, NodeFilter, NodeFilterApplicable, NodeSorter, NodeSorterApplicable, Task};
use xplr::config::Action;
use xplr::input::{Key, KeyKind};
use xplr::app::{Io, Step};
use xplr::node::{DirectoryBuffer, Node};

fn bindings() -> KeyBindings {
    KeyBindings {
        on_key: vec![],
        on_alphabet: None,
        on_number: None,
        on_special_character: None,
        on_navigation: None,
        on_function: None,
        on_alphanumeric: None,
        on_character: None,
        default: None,
    }
}

fn mode(name: &str) -> Mode {
    Mode { name: name.to_string(), help: None, key_bindings: bindings() }
}

fn config(bounded: bool) -> Config {
    Config {
        general: GeneralConfig {
            read_only: false,
            enable_recover_mode: false,
            enforce_bounded_index_navigation: bounded,
            show_hidden: false,
            disable_debug_error_mode: false,
            initial_sorting: None,
            initial_mode: None,
            initial_layout: None,
        },
        modes: ModesConfig {
            builtin: BuiltinModesConfig {
                default: mode("default"),
                debug_error: mode("debug error"),
                recover: mode("recover"),
                filter: mode("filter"),
                number: mode("number"),
                go_to: mode("go to"),
                search: mode("search"),
                selection_ops: mode("selection ops"),
                action: mode("action to"),
                create: mode("create"),
                create_file: mode("create file"),
                create_directory: mode("create directory"),
                rename: mode("rename"),
                duplicate_as: mode("duplicate as"),
                delete: mode("delete"),
                sort: mode("sort"),
                relative_path_does_contain: mode("relative path does contain"),
                relative_path_does_not_contain: mode("relative path does not contain"),
                switch_layout: mode("switch layout"),
            },
            custom: vec![],
        },
        layouts: LayoutsConfig {
            builtin: BuiltinLayoutsConfig {
                default: Layout::Table,
                no_help: Layout::Nothing,
                no_selection: Layout::Selection,
                no_help_no_selection: Layout::HelpMenu,
            },
            custom: vec![],
        },
    }
}

fn node(parent: &str, name: &str) -> Node {
    Node {
        parent: parent.to_string(),
        relative_path: name.to_string(),
        absolute_path: format!("{}/{}", parent, name),
        symlink: None,
    }
}

fn dir(names: &[&str], focus: usize) -> DirectoryBuffer {
    let nodes: Vec<Node> = names.iter().map(|n| node("/tmp", n)).collect();
    DirectoryBuffer { parent: "/tmp".to_string(), total: nodes.len(), nodes, focus }
}

fn app(names: &[&str], focus: usize, bounded: bool) -> App {
    App {
        version: "0".to_string(),
        config: config(bounded),
        pwd: "/tmp".to_string(),
        directory_buffer: Some(dir(names, focus)),
        last_focus: vec![],
        selection: IndexSet::new(),
        msg_out: VecDeque::new(),
        mode: mode("default"),
        layout: Layout::Table,
        input: None,
        pid: 1,
        session_path: "/s".to_string(),
        pipe: Pipe {
            path: "/s/pipe".to_string(),
            msg_in: "/s/pipe/msg_in".to_string(),
            selection_out: "/s/pipe/selection_out".to_string(),
            result_out: "/s/pipe/result_out".to_string(),
            directory_nodes_out: "/s/pipe/directory_nodes_out".to_string(),
            global_help_menu_out: "/s/pipe/global_help_menu_out".to_string(),
            logs_out: "/s/pipe/logs_out".to_string(),
            history_out: "/s/pipe/history_out".to_string(),
        },
        explorer_config: ExplorerConfig { filters: IndexSet::new(), sorters: IndexSet::new() },
        logs: vec![],
        logs_hidden: true,
        history: History { loc: 0, paths: vec![] },
        last_modes: vec![],
    }
}

use xplr::help::HelpMenuLine;

fn pipe() -> Pipe {
    app(&[], 0, false).pipe
}

#[test]
fn create_builds_starting_state() {
    let a = App::create("1.0".to_string(), config(false), "/home".to_string(), 42, "/s".to_string(), pipe(), vec![])
        .unwrap();
    assert_eq!(a.mode.name, "default");
    assert_eq!(a.layout, Layout::Table);
    assert_eq!(a.pwd, "/home");
    assert_eq!(a.pid, 42);
    assert!(a.directory_buffer.is_none());
    assert_eq!(a.explorer_config.filters.len(), 1);
    let f = a.explorer_config.filters.get_index(0).unwrap();
    assert_eq!(f.filter, NodeFilter::RelativePathDoesNotStartWith);
    assert_eq!(f.input, ".");
    assert!(a.logs.is_empty());
    assert!(a.last_modes.is_empty());
}

#[test]
fn create_logs_load_errors_and_enters_debug_mode() {
    let a = App::create(
        "1.0".to_string(),
        config(false),
        "/home".to_string(),
        1,
        "/s".to_string(),
        pipe(),
        vec!["bad line".to_string(), "worse".to_string()],
    )
    .unwrap();
    assert_eq!(a.logs.len(), 2);
    assert_eq!(a.logs[0].message, "bad line");
    assert_eq!(a.logs[1].level, LogLevel::Error);
    assert_eq!(a.mode.name, "debug error");
    assert_eq!(a.last_modes.len(), 1);
    let mut c = config(false);
    c.general.disable_debug_error_mode = true;
    c.general.show_hidden = true;
    let a = App::create("1.0".to_string(), c, "/".to_string(), 1, "/s".to_string(), pipe(), vec!["e".to_string()])
        .unwrap();
    assert_eq!(a.mode.name, "default");
    assert!(a.explorer_config.filters.is_empty());
}

#[test]
fn create_fails_without_initial_mode_or_layout() {
    let mut c = config(false);
    c.general.initial_mode = Some("nope".to_string());
    match App::create("1".to_string(), c, "/".to_string(), 1, "/s".to_string(), pipe(), vec![]) {
        Err(e) => assert_eq!(e.message, "'default' mode is missing"),
        Ok(_) => panic!("expected an error"),
    }
    let mut c = config(false);
    c.general.initial_layout = Some("nope".to_string());
    match App::create("1".to_string(), c, "/".to_string(), 1, "/s".to_string(), pipe(), vec![]) {
        Err(e) => assert_eq!(e.message, "'default' layout is missing"),
        Ok(_) => panic!("expected an error"),
    }
    let mut c = config(false);
    c.general.initial_mode = Some("sort".to_string());
    c.general.initial_layout = Some("no_help".to_string());
    let a = App::create("1".to_string(), c, "/".to_string(), 1, "/s".to_string(), pipe(), vec![]).unwrap();
    assert_eq!(a.mode.name, "sort");
    assert_eq!(a.layout, Layout::Nothing);
}

#[test]
fn lua_contexts_copy_state() {
    let mut a = app(&["a", "b"], 1, false).select().unwrap().focus_last().unwrap();
    a.input = Some(InputBuffer::with_value("typed".to_string()));
    a.last_modes.push(mode("sort"));
    let h = a.to_lua_ctx_heavy();
    assert_eq!(h.pwd, "/tmp");
    assert_eq!(h.focused_node.as_ref().unwrap().relative_path, "b");
    assert_eq!(h.directory_buffer.as_ref().unwrap().nodes.len(), 2);
    assert_eq!(h.selection.len(), 1);
    assert_eq!(h.input_buffer, Some("typed".to_string()));
    assert_eq!(h.history.paths, a.history.paths);
    assert_eq!(h.last_modes[0].name, "sort");
    let l = a.to_lua_ctx_light();
    assert_eq!(l.mode.name, "default");
    assert_eq!(l.selection.get_index(0).unwrap().absolute_path, "/tmp/b");
    assert_eq!(l.explorer_config.filters.len(), 0);
}

#[test]
fn help_menu_lists_every_mode() {
    let mut a = app(&[], 0, false);
    a.config.modes.custom.push(("mine".to_string(), mode("mine")));
    let titles = a.help_menu_titles();
    assert_eq!(titles.len(), 21);
    assert_eq!(titles[0], "default");
    assert_eq!(titles[3], "filter");
    assert_eq!(titles[16], "filter");
    assert_eq!(titles[20], "mine");
    a.config.modes.builtin.default.help = Some("hi".to_string());
    let text = a.global_help_menu_str();
    assert!(text.starts_with("### default\n\n key             | remaps                    | action\n --------------- | ------------------------- | ------\n\thi\n\n\n### debug error\n"));
    assert!(text.ends_with("### mine\n\n key             | remaps                    | action\n --------------- | ------------------------- | ------\n\n"));
}

#[test]
fn directory_buffer_copy_is_equal() {
    let d = dir(&["a", "b"], 1);
    let c = d.copy();
    assert_eq!(c.parent, d.parent);
    assert_eq!(c.nodes, d.nodes);
    assert_eq!(c.focus, 1);
    assert_eq!(c.total, 2);
    assert_eq!(d.focused_node().unwrap().relative_path, "b");
}

#[test]
fn logs_str_lists_entries() {
    let a = app(&[], 0, false).log_info("one".to_string()).unwrap().log_error("two".to_string()).unwrap();
    let s = a.logs_str();
    let lines: Vec<&str> = s.lines().collect();
    assert_eq!(lines.len(), 2);
    assert!(lines[0].ends_with("] INFO    one"));
    assert!(lines[1].ends_with("] ERROR   two"));
}

fn action(help: Option<&str>, msgs: Vec<ExternalMsg>) -> Action {
    Action { help: help.map(|h| h.to_string()), messages: msgs }
}

#[test]
fn help_menu_from_help_text_is_its_lines() {
    let mut m = mode("m");
    m.help = Some("first\nsecond\r\nthird".to_string());
    m.key_bindings.on_key.push(("x".to_string(), action(Some("ignored"), vec![ExternalMsg::FocusNext])));
    let lines = m.help_menu();
    assert_eq!(lines, vec![
        HelpMenuLine::Paragraph("first".to_string()),
        HelpMenuLine::Paragraph("second".to_string()),
        HelpMenuLine::Paragraph("third".to_string()),
    ]);
}

#[test]
fn help_menu_from_key_bindings_groups_keys_by_help() {
    let mut m = mode("m");
    m.key_bindings.on_key.push(("down".to_string(), action(Some("down"), vec![ExternalMsg::FocusNext])));
    m.key_bindings.on_key.push(("esc".to_string(), action(Some("quit"), vec![ExternalMsg::Quit])));
    m.key_bindings.on_key.push(("j".to_string(), action(Some("down"), vec![ExternalMsg::FocusNext])));
    m.key_bindings.on_key.push(("n".to_string(), action(None, vec![ExternalMsg::FocusNext])));
    m.key_bindings.on_key.push(("z".to_string(), action(Some("nothing"), vec![])));
    m.key_bindings.on_number = Some(action(Some("count"), vec![ExternalMsg::BufferInputFromKey]));
    m.key_bindings.default = Some(action(Some("quit"), vec![ExternalMsg::Quit]));
    let lines = m.help_menu();
    assert_eq!(lines, vec![
        HelpMenuLine::KeyMap("down".to_string(), vec!["j".to_string()], "down".to_string()),
        HelpMenuLine::KeyMap("esc".to_string(), vec!["[default]".to_string()], "quit".to_string()),
        HelpMenuLine::KeyMap("[0-9]".to_string(), vec![], "count".to_string()),
    ]);
    let mut a = app(&[], 0, false);
    a.config.modes.builtin.default = m;
    let text = a.global_help_menu_str();
    assert!(text.starts_with(&format!(
        "### m\n\n key             | remaps                    | action\n --------------- | ------------------------- | ------\n {:15} | {:25} | down\n",
        "down", "j"
    )));
}

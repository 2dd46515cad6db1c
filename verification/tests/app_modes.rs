use indexmap::IndexSet;
use std::collections::VecDeque;
use xplr::app::{App, ExplorerConfig, Pipe};
use xplr::config::{
    BuiltinLayoutsConfig, BuiltinModesConfig, Config, GeneralConfig, KeyBindings, Layout, LayoutsConfig, Mode,
    ModesConfig,
};
use xplr::history::History;
use xplr::input::InputBuffer;
use xplr::log::LogLevel;
use xplr::msg::{Command, ExternalMsg, InputOperation, InternalMsg, MsgIn, MsgOut, NodeFilter, NodeFilterApplicable, NodeSorter, NodeSorterApplicable, Task};
use xplr::config::Action;
use xplr::input::{Key, KeyKind};
use xplr::app::{Io, Step};
use xplr::node::{DirectoryBuffer, Node};

fn bindings() -> KeyBindings {
    KeyBindings {
        on_key: vec![],
        on_alphabet: None,
        on_number: None,
        on_special_character: None,
        on_navigation: None,
        on_function: None,
        on_alphanumeric: None,
        on_character: None,
        default: None,
    }
}

fn mode(name: &str) -> Mode {
    Mode { name: name.to_string(), help: None, key_bindings: bindings() }
}

fn config(bounded: bool) -> Config {
    Config {
        general: GeneralConfig {
            read_only: false,
            enable_recover_mode: false,
            enforce_bounded_index_navigation: bounded,
            show_hidden: false,
            disable_debug_error_mode: false,
            initial_sorting: None,
            initial_mode: None,
            initial_layout: None,
        },
        modes: ModesConfig {
            builtin: BuiltinModesConfig {
                default: mode("default"),
                debug_error: mode("debug error"),
                recover: mode("recover"),
                filter: mode("filter"),
                number: mode("number"),
                go_to: mode("go to"),
                search: mode("search"),
                selection_ops: mode("selection ops"),
                action: mode("action to"),
                create: mode("create"),
                create_file: mode("create file"),
                create_directory: mode("create directory"),
                rename: mode("rename"),
                duplicate_as: mode("duplicate as"),
                delete: mode("delete"),
                sort: mode("sort"),
                relative_path_does_contain: mode("relative path does contain"),
                relative_path_does_not_contain: mode("relative path does not contain"),
                switch_layout: mode("switch layout"),
            },
            custom: vec![],
        },
        layouts: LayoutsConfig {
            builtin: BuiltinLayoutsConfig {
                default: Layout::Table,
                no_help: Layout::Nothing,
                no_selection: Layout::Selection,
                no_help_no_selection: Layout::HelpMenu,
            },
            custom: vec![],
        },
    }
}

fn node(parent: &str, name: &str) -> Node {
    Node {
        parent: parent.to_string(),
        relative_path: name.to_string(),
        absolute_path: format!("{}/{}", parent, name),
        symlink: None,
    }
}

fn dir(names: &[&str], focus: usize) -> DirectoryBuffer {
    let nodes: Vec<Node> = names.iter().map(|n| node("/tmp", n)).collect();
    DirectoryBuffer { parent: "/tmp".to_string(), total: nodes.len(), nodes, focus }
}

fn app(names: &[&str], focus: usize, bounded: bool) -> App {
    App {
        version: "0".to_string(),
        config: config(bounded),
        pwd: "/tmp".to_string(),
        directory_buffer: Some(dir(names, focus)),
        last_focus: vec![],
        selection: IndexSet::new(),
        msg_out: VecDeque::new(),
        mode: mode("default"),
        layout: Layout::Table,
        input: None,
        pid: 1,
        session_path: "/s".to_string(),
        pipe: Pipe {
            path: "/s/pipe".to_string(),
            msg_in: "/s/pipe/msg_in".to_string(),
            selection_out: "/s/pipe/selection_out".to_string(),
            result_out: "/s/pipe/result_out".to_string(),
            directory_nodes_out: "/s/pipe/directory_nodes_out".to_string(),
            global_help_menu_out: "/s/pipe/global_help_menu_out".to_string(),
            logs_out: "/s/pipe/logs_out".to_string(),
            history_out: "/s/pipe/history_out".to_string(),
        },
        explorer_config: ExplorerConfig { filters: IndexSet::new(), sorters: IndexSet::new() },
        logs: vec![],
        logs_hidden: true,
        history: History { loc: 0, paths: vec![] },
        last_modes: vec![],
    }
}

fn key(name: &str, kind: KeyKind, c: Option<char>, op: Option<InputOperation>) -> Key {
    Key { name: name.to_string(), kind, character: c, input_operation: op }
}

fn action(msgs: Vec<ExternalMsg>) -> Action {
    Action { help: None, messages: msgs }
}

fn queued(a: &App) -> Vec<String> {
    a.msg_out
        .iter()
        .map(|m| match m {
            MsgOut::Enque(Task { msg: MsgIn::External(e), .. }) => format!("{:?}", e),
            other => format!("{:?}", other),
        })
        .collect()
}

#[test]
fn switch_mode_saves_current_and_clears_input() {
    let mut a = app(&["a"], 0, false);
    a.input = Some(InputBuffer::with_value("x".to_string()));
    let a = a.switch_mode("sort").unwrap();
    assert_eq!(a.mode.name, "sort");
    assert_eq!(a.last_modes.len(), 1);
    assert_eq!(a.last_modes[0].name, "default");
    assert!(a.input.is_none());
    let a = a.pop_mode().unwrap();
    assert_eq!(a.mode.name, "default");
    assert!(a.last_modes.is_empty());
    let a = a.pop_mode_keeping_input_buffer().unwrap();
    assert_eq!(a.mode.name, "default");
}

#[test]
fn switch_mode_keeping_input_buffer_keeps_it() {
    let mut a = app(&["a"], 0, false);
    a.input = Some(InputBuffer::with_value("x".to_string()));
    let a = a.switch_mode_keeping_input_buffer("filter").unwrap();
    assert_eq!(a.mode.name, "filter");
    assert_eq!(a.input.as_ref().unwrap().value, "x");
}

#[test]
fn switch_mode_twice_saves_once_per_mode() {
    let a = app(&["a"], 0, false).switch_mode("sort").unwrap().switch_mode("sort").unwrap();
    assert_eq!(a.last_modes.len(), 2);
    let a = a.switch_mode("sort").unwrap();
    assert_eq!(a.last_modes.len(), 2);
}

#[test]
fn recover_mode_is_not_saved() {
    let a = app(&["a"], 0, false).switch_mode_builtin("recover").unwrap();
    assert_eq!(a.mode.name, "recover");
    let a = a.switch_mode_builtin("number").unwrap();
    assert_eq!(a.last_modes.len(), 1);
    assert_eq!(a.last_modes[0].name, "default");
}

#[test]
fn missing_modes_log_errors() {
    let a = app(&["a"], 0, false).switch_mode("nope").unwrap();
    assert_eq!(a.logs[0].message, "Mode not found: nope");
    let a = a.switch_mode_builtin("nope").unwrap();
    assert_eq!(a.logs[1].message, "Builtin mode not found: nope");
    let a = a.switch_mode_custom("nope").unwrap();
    assert_eq!(a.logs[2].message, "Custom mode not found: nope");
    assert_eq!(a.mode.name, "default");
}

#[test]
fn custom_modes_are_found() {
    let mut a = app(&["a"], 0, false);
    a.config.modes.custom.push(("mine".to_string(), mode("my mode")));
    let a = a.switch_mode("mine").unwrap();
    assert_eq!(a.mode.name, "my mode");
    let a = a.switch_mode_custom_keeping_input_buffer("mine").unwrap();
    assert_eq!(a.mode.name, "my mode");
}

#[test]
fn read_only_modes_drop_code_running_actions() {
    let mut a = app(&["a"], 0, false);
    a.config.general.read_only = true;
    let mut m = mode("custom");
    m.key_bindings.on_key.push(("x".to_string(), action(vec![ExternalMsg::BashExec("ls".to_string())])));
    m.key_bindings.on_key.push(("y".to_string(), action(vec![ExternalMsg::FocusNext])));
    m.key_bindings.default = Some(action(vec![ExternalMsg::Call(Command { command: "ls".to_string(), args: vec![] })]));
    a.config.modes.custom.push(("c".to_string(), m));
    let a = a.switch_mode("c").unwrap();
    assert_eq!(a.mode.key_bindings.on_key.len(), 1);
    assert_eq!(a.mode.key_bindings.on_key[0].0, "y");
    assert!(a.mode.key_bindings.default.is_none());
}

#[test]
fn layouts_switch_by_name() {
    let a = app(&["a"], 0, false).switch_layout("no_help").unwrap();
    assert_eq!(a.layout, Layout::Nothing);
    let a = a.switch_layout_builtin("no_selection").unwrap();
    assert_eq!(a.layout, Layout::Selection);
    let mut a = a.switch_layout_custom("nope").unwrap();
    assert_eq!(a.logs[0].message, "Custom layout not found: nope");
    a.config.layouts.custom.push(("mine".to_string(), Layout::Dynamic("f".to_string())));
    let a = a.switch_layout_custom("mine").unwrap();
    assert_eq!(a.layout, Layout::Dynamic("f".to_string()));
    let a = a.switch_layout("none").unwrap();
    assert_eq!(a.logs[1].message, "Layout not found: none");
    let a = a.switch_layout_builtin("none").unwrap();
    assert_eq!(a.logs[2].message, "Builtin layout not found: none");
}

#[test]
fn handle_key_uses_key_binding_by_name() {
    let mut a = app(&["a"], 0, false);
    a.mode.key_bindings.on_key.push(("j".to_string(), action(vec![ExternalMsg::FocusNext, ExternalMsg::Refresh])));
    let a = a.handle_key(key("j", KeyKind::Alphabet, Some('j'), None)).unwrap();
    assert_eq!(queued(&a), vec!["FocusNext".to_string(), "Refresh".to_string()]);
    match &a.msg_out[0] {
        MsgOut::Enque(t) => assert_eq!(t.key.as_ref().unwrap().name, "j"),
        _ => panic!("expected a task"),
    }
}

#[test]
fn handle_key_falls_back_by_class() {
    let mut a = app(&["a"], 0, false);
    a.mode.key_bindings.on_number = Some(action(vec![ExternalMsg::FocusFirst]));
    a.mode.key_bindings.on_alphanumeric = Some(action(vec![ExternalMsg::FocusLast]));
    a.mode.key_bindings.on_character = Some(action(vec![ExternalMsg::Select]));
    a.mode.key_bindings.default = Some(action(vec![ExternalMsg::Quit]));
    let a = a.handle_key(key("1", KeyKind::Number, Some('1'), None)).unwrap();
    let a = a.handle_key(key("q", KeyKind::Alphabet, Some('q'), None)).unwrap();
    let a = a.handle_key(key("+", KeyKind::SpecialCharacter, Some('+'), None)).unwrap();
    let a = a.handle_key(key("f1", KeyKind::Function, None, None)).unwrap();
    assert_eq!(queued(&a), vec!["FocusFirst", "FocusLast", "Select", "Quit"]);
}

#[test]
fn handle_key_unbound_warns_or_recovers() {
    let a = app(&["a"], 0, false).handle_key(key("z", KeyKind::Alphabet, Some('z'), None)).unwrap();
    assert_eq!(queued(&a), vec!["LogWarning(\"Key map not found.\")"]);
    let mut b = app(&["a"], 0, false);
    b.config.general.enable_recover_mode = true;
    let b = b.handle_key(key("z", KeyKind::Alphabet, Some('z'), None)).unwrap();
    assert_eq!(queued(&b), vec!["SwitchModeBuiltin(\"recover\")"]);
}

#[test]
fn handle_internal_messages() {
    let a = app(&["a"], 0, false);
    let a = a.handle_internal(InternalMsg::AddLastFocus("/p".to_string(), None)).unwrap();
    assert_eq!(a.last_focus, vec![("/p".to_string(), None)]);
    let a = a.handle_internal(InternalMsg::SetDirectory(dir(&["x"], 0))).unwrap();
    assert_eq!(a.directory_buffer.as_ref().unwrap().nodes[0].relative_path, "x");
    let a = a.handle_internal(InternalMsg::HandleKey(key("z", KeyKind::Other, None, None))).unwrap();
    assert_eq!(a.msg_out.len(), 1);
}

#[test]
fn handle_task_asks_for_redraw() {
    let a = app(&["a", "b"], 0, false);
    let st = a.handle_task(Task::new(MsgIn::External(ExternalMsg::FocusNext), None)).unwrap();
    assert!(st.io.is_none());
    assert_eq!(st.app.directory_buffer.as_ref().unwrap().focus, 1);
    assert_eq!(queued(&st.app), vec!["Refresh".to_string()]);
}

#[test]
fn task_new_keeps_fields() {
    let t = Task::new(MsgIn::External(ExternalMsg::Quit), Some(key("q", KeyKind::Alphabet, Some('q'), None)));
    assert!(matches!(t.msg, MsgIn::External(ExternalMsg::Quit)));
    assert_eq!(t.key.unwrap().name, "q");
}

use xplr::config::{Action, KeyBindings, Mode};
use xplr::help::{help_line, help_section, HelpMenuLine};
use xplr::log::{level_text, Log, LogLevel, Timestamp};
use xplr::msg::{Command, ExternalMsg, NodeFilter, NodeFilterApplicable, NodeSorter, NodeSorterApplicable};
use xplr::text::{join_strings, pad_to};

#[test]
fn log_line_format() {
    let l = Log {
        level: LogLevel::Warning,
        message: "careful".to_string(),
        created_at: Timestamp { secs: 0, nanos: 0, offset_secs: 0 },
    };
    assert_eq!(l.to_text(), "[1970-01-01 00:00:00 +00:00] WARNING careful");
    let l = Log {
        level: LogLevel::Info,
        message: "x".to_string(),
        created_at: Timestamp { secs: 3600, nanos: 500_000_000, offset_secs: 3600 },
    };
    assert_eq!(l.to_text(), "[1970-01-01 02:00:00.500 +01:00] INFO    x");
}

#[test]
fn log_labels_have_fixed_width() {
    assert_eq!(level_text(LogLevel::Info), "INFO   ");
    assert_eq!(level_text(LogLevel::Warning), "WARNING");
    assert_eq!(level_text(LogLevel::Success), "SUCCESS");
    assert_eq!(level_text(LogLevel::Error), "ERROR  ");
}

#[test]
fn log_new_keeps_level_and_message() {
    let l = Log::new(LogLevel::Error, "boom".to_string());
    assert_eq!(l.level, LogLevel::Error);
    assert_eq!(l.message, "boom");
    assert!(l.to_text().ends_with("] ERROR   boom"));
}

#[test]
fn help_lines_are_padded() {
    let l = HelpMenuLine::KeyMap("j".to_string(), vec!["down".to_string(), "ctrl-n".to_string()], "next".to_string());
    assert_eq!(help_line(&l), format!(" {:15} | {:25} | {}\n", "j", "down, ctrl-n", "next"));
    let p = HelpMenuLine::Paragraph("hello".to_string());
    assert_eq!(help_line(&p), "\thello\n");
    let long = HelpMenuLine::KeyMap("a-very-long-key-name".to_string(), vec![], "h".to_string());
    assert_eq!(help_line(&long), " a-very-long-key-name | {:25} | h\n".replace("{:25}", &" ".repeat(25)));
}

#[test]
fn help_section_layout() {
    let lines = vec![HelpMenuLine::Paragraph("p".to_string())];
    let s = help_section("default", &lines);
    assert_eq!(
        s,
        "### default\n\n key             | remaps                    | action\n --------------- | ------------------------- | ------\n\tp\n\n"
    );
}

#[test]
fn padding_and_joining() {
    assert_eq!(pad_to("ab", 4), "ab  ");
    assert_eq!(pad_to("abcdef", 4), "abcdef");
    assert_eq!(pad_to("é", 3), "é  ");
    assert_eq!(join_strings(&vec!["a".to_string(), "b".to_string(), "c".to_string()], ", "), "a, b, c");
    assert_eq!(join_strings(&vec![], ", "), "");
}

#[test]
fn messages_compare_and_copy() {
    let a = ExternalMsg::Call(Command { command: "ls".to_string(), args: vec!["-l".to_string()] });
    let b = a.copy();
    assert!(a.same_as(&b));
    let c = ExternalMsg::Call(Command { command: "ls".to_string(), args: vec!["-a".to_string()] });
    assert!(!a.same_as(&c));
    assert!(!ExternalMsg::FocusNext.same_as(&ExternalMsg::FocusPrevious));
    assert!(ExternalMsg::FocusByIndex(3).same_as(&ExternalMsg::FocusByIndex(3)));
    let f = NodeFilterApplicable::new(NodeFilter::IRelativePathIs, "x".to_string());
    assert!(ExternalMsg::AddNodeFilter(f.copy()).same_as(&ExternalMsg::AddNodeFilter(f)));
    let s = NodeSorterApplicable { sorter: NodeSorter::BySize, reverse: false };
    assert!(s.reversed().reverse);
    assert!(!ExternalMsg::LuaEval("x".to_string()).is_read_only());
    assert!(ExternalMsg::LogInfo("x".to_string()).is_read_only());
}

#[test]
fn modes_compare_and_sanitize() {
    let kb = KeyBindings {
        on_key: vec![("x".to_string(), Action { help: None, messages: vec![ExternalMsg::CallLua("f".to_string())] })],
        on_alphabet: Some(Action { help: Some("h".to_string()), messages: vec![ExternalMsg::Quit] }),
        on_number: None,
        on_special_character: None,
        on_navigation: None,
        on_function: None,
        on_alphanumeric: None,
        on_character: None,
        default: None,
    };
    let m = Mode { name: "m".to_string(), help: None, key_bindings: kb };
    let c = m.copy();
    assert!(m.same_as(&c));
    let s = c.sanitized(true);
    assert!(!m.same_as(&s));
    assert!(s.key_bindings.on_key.is_empty());
    assert!(s.key_bindings.on_alphabet.is_some());
    let same = m.copy().sanitized(false);
    assert!(m.same_as(&same));
}

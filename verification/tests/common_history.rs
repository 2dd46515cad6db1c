use xplr::history::History;

fn h(loc: usize, paths: &[&str]) -> History {
    History { loc, paths: paths.iter().map(|p| p.to_string()).collect() }
}

#[test]
fn history_push_then_peek() {
    let hist = h(0, &[]).push("/a".to_string());
    assert_eq!(hist.peek(), Some(&"/a".to_string()));
    assert_eq!(hist.loc, 0);
    assert_eq!(hist.paths, vec!["/a".to_string()]);
}

#[test]
fn history_push_drops_forward_entries() {
    let hist = h(1, &["/a", "/b", "/c"]).push("/d".to_string());
    assert_eq!(hist.paths, vec!["/a".to_string(), "/b".to_string(), "/d".to_string()]);
    assert_eq!(hist.loc, 2);
}

#[test]
fn history_push_same_path_changes_nothing() {
    let hist = h(1, &["/a", "/b", "/c"]).push("/b".to_string());
    assert_eq!(hist.paths.len(), 3);
    assert_eq!(hist.loc, 1);
}

#[test]
fn history_push_with_cursor_past_end_keeps_all() {
    let hist = h(7, &["/a", "/b"]).push("/c".to_string());
    assert_eq!(hist.paths, vec!["/a".to_string(), "/b".to_string(), "/c".to_string()]);
    assert_eq!(hist.loc, 2);
}

#[test]
fn history_visit_last_stops_at_start() {
    let hist = h(1, &["/a", "/b"]).visit_last();
    assert_eq!(hist.loc, 0);
    let hist = hist.visit_last();
    assert_eq!(hist.loc, 0);
    assert_eq!(hist.peek(), Some(&"/a".to_string()));
}

#[test]
fn history_visit_next_stops_at_end() {
    let hist = h(0, &["/a", "/b"]).visit_next();
    assert_eq!(hist.loc, 1);
    let hist = hist.visit_next();
    assert_eq!(hist.loc, 1);
    let empty = h(0, &[]).visit_next();
    assert_eq!(empty.loc, 0);
    assert_eq!(empty.peek(), None);
}

#[test]
fn history_back_then_forward_returns_to_visited_path() {
    let hist = h(2, &["/a", "/b", "/c"]).push("/x".to_string()).visit_last().visit_next();
    assert_eq!(hist.peek(), Some(&"/x".to_string()));
}

#[test]
fn history_back_forward_exception_at_first_entry() {
    // The path is already under the cursor at the first of several entries.
    let hist = h(0, &["/a", "/b"]).push("/a".to_string()).visit_last().visit_next();
    assert_eq!(hist.peek(), Some(&"/b".to_string()));
}

#[test]
fn history_copy_and_new() {
    let hist = h(1, &["/a", "/b"]);
    let c = hist.copy();
    assert_eq!(c.loc, 1);
    assert_eq!(c.paths, hist.paths);
    let n = History::new();
    assert_eq!(n.loc, 0);
    assert!(n.paths.is_empty());
}

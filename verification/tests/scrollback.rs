use termcore::search::{ScrollbackIndex, SearchIndexManager};

#[test]
fn eviction_keeps_last_capacity_lines() {
    // Appending capacity-plus-k one-character lines leaves exactly the last
    // capacity lines, oldest evicted first.
    let mut idx = ScrollbackIndex::new(5);
    for ch in ["a", "b", "c", "d", "e", "f", "g"] {
        idx.append(&format!("{}\n", ch));
    }
    let lines = idx.tail(100);
    assert_eq!(lines, vec!["c", "d", "e", "f", "g"]);
}

#[test]
fn case_insensitive_search_offsets() {
    // Two lines, one lower-case and one upper-case hit, each with its
    // exact offsets.
    let mut idx = ScrollbackIndex::new(100);
    idx.append("foo bar\nBAR foo\n");
    let hits = idx.search("bar", false, false, 10);
    assert_eq!(hits.len(), 2);
    assert_eq!(hits[0].line_index, 0);
    assert_eq!((hits[0].start, hits[0].end), (4, 7));
    assert_eq!(hits[0].line, "foo bar");
    assert_eq!(hits[1].line_index, 1);
    assert_eq!((hits[1].start, hits[1].end), (0, 3));
    assert_eq!(hits[1].line, "BAR foo");
}

#[test]
fn case_sensitive_search_misses_other_case() {
    let mut idx = ScrollbackIndex::new(100);
    idx.append("foo bar\nBAR foo\n");
    let hits = idx.search("bar", true, false, 10);
    assert_eq!(hits.len(), 1);
    assert_eq!(hits[0].line_index, 0);
}

#[test]
fn repeated_matches_in_one_line() {
    let mut idx = ScrollbackIndex::new(100);
    idx.append("ababab\n");
    let hits = idx.search("ab", true, false, 10);
    assert_eq!(hits.len(), 3);
    assert_eq!((hits[0].start, hits[0].end), (0, 2));
    assert_eq!((hits[1].start, hits[1].end), (2, 4));
    assert_eq!((hits[2].start, hits[2].end), (4, 6));
}

#[test]
fn search_limit_cuts_off() {
    let mut idx = ScrollbackIndex::new(100);
    idx.append("xx\nxx\nxx\n");
    let hits = idx.search("x", true, false, 3);
    assert_eq!(hits.len(), 3);
    assert_eq!(hits[2].line_index, 1);
    assert!(idx.search("x", true, false, 0).is_empty());
    assert!(idx.search("", false, false, 10).is_empty());
}

#[test]
fn regex_search_matches_per_line() {
    let mut idx = ScrollbackIndex::new(100);
    idx.append("error: one\nwarning\nERROR: two\n");
    let hits = idx.search("^error", false, true, 10);
    assert_eq!(hits.len(), 2);
    assert_eq!(hits[0].line_index, 0);
    assert_eq!((hits[0].start, hits[0].end), (0, 5));
    assert_eq!(hits[1].line_index, 2);
    let strict = idx.search("^error", true, true, 10);
    assert_eq!(strict.len(), 1);
}

#[test]
fn ansi_codes_are_stripped_before_storing() {
    let mut idx = ScrollbackIndex::new(100);
    idx.append("\x1B[31mred\x1B[0m text\n");
    assert_eq!(idx.tail(1), vec!["red text"]);
}

#[test]
fn carriage_returns_are_normalized() {
    let mut idx = ScrollbackIndex::new(100);
    idx.append("one\r\ntwo\rthree\n");
    assert_eq!(idx.tail(10), vec!["one", "two", "three"]);
}

#[test]
fn partial_line_commits_on_line_feed() {
    let mut idx = ScrollbackIndex::new(100);
    idx.append("hal");
    assert!(idx.tail(10).is_empty());
    idx.append("f\n");
    assert_eq!(idx.tail(10), vec!["half"]);
    idx.append("rest");
    idx.finalize_line_if_any();
    assert_eq!(idx.tail(10), vec!["half", "rest"]);
}

#[test]
fn context_window_is_clamped() {
    let mut idx = ScrollbackIndex::new(100);
    idx.append("a\nb\nc\nd\ne\n");
    let ctx = idx.context(2, 1, 1);
    let view: Vec<(usize, &str)> = ctx.iter().map(|c| (c.line_index, c.line.as_str())).collect();
    assert_eq!(view, vec![(1, "b"), (2, "c"), (3, "d")]);
    let edge = idx.context(0, 5, 1);
    let view: Vec<(usize, &str)> = edge.iter().map(|c| (c.line_index, c.line.as_str())).collect();
    assert_eq!(view, vec![(0, "a"), (1, "b")]);
}

#[test]
fn tail_returns_last_lines() {
    let mut idx = ScrollbackIndex::new(100);
    idx.append("a\nb\nc\n");
    assert_eq!(idx.tail(2), vec!["b", "c"]);
    assert_eq!(idx.tail(10), vec!["a", "b", "c"]);
}

#[test]
fn manager_keeps_sessions_apart() {
    let mut m = SearchIndexManager::new();
    m.create_session("one".to_string());
    m.create_session("two".to_string());
    m.append_output("one", "alpha\n");
    m.append_output("two", "beta\n");
    assert_eq!(m.tail("one", 10).unwrap(), vec!["alpha"]);
    assert_eq!(m.tail("two", 10).unwrap(), vec!["beta"]);
    assert!(m.tail("three", 10).is_none());
    assert!(m.search("three", "x", true, false, 5).is_none());
    m.remove_session("one");
    assert!(m.tail("one", 10).is_none());
    assert_eq!(m.search("two", "bet", true, false, 5).unwrap().len(), 1);
}

#[test]
fn sequences_split_across_chunks_still_strip() {
    // The escape sequence is split in the middle; because stripping runs on
    // each completed line, no fragment reaches the store.
    let mut idx = ScrollbackIndex::new(100);
    idx.append("\x1B[3");
    idx.append("1mred\x1B[0m\n");
    assert_eq!(idx.tail(1), vec!["red"]);
}


use termcore::session::{TerminalOutput, TerminalSize, TermError};
use termcore::terminal::TerminalManager;
use termcore::terminal_types::{ColorSupport, TerminalDatabase, TerminalType};

fn size(cols: u16, rows: u16) -> TerminalSize {
    TerminalSize { cols, rows, pixel_width: 0, pixel_height: 0 }
}

#[test]
fn session_lifecycle_creates_and_destroys_all_stores() {
    let mut m = TerminalManager::new();
    let id = m
        .create_terminal(size(80, 24), Some("/bin/bash".to_string()), Some("/tmp".to_string()))
        .unwrap();
    assert_eq!(id.len(), 36);
    assert!(m.get_terminal_state(&id).is_some());
    assert!(m.get_command_history(&id, None).is_some());
    assert!(m.search_scrollback(&id, "x", true, false, 5).is_some());
    assert!(m.close_terminal(&id).is_ok());
    // After the close no store holds a dangling entry for the id.
    assert!(m.get_terminal_state(&id).is_none());
    assert!(m.get_command_history(&id, None).is_none());
    assert!(m.search_scrollback(&id, "x", true, false, 5).is_none());
    // Double close is a no-op, not a failure.
    assert!(m.close_terminal(&id).is_ok());
}

#[test]
fn empty_size_is_refused() {
    let mut m = TerminalManager::new();
    assert_eq!(
        m.create_terminal(size(0, 24), None, None),
        Err(TermError::InvalidSize)
    );
    let id = m.create_terminal(size(8, 2), None, None).unwrap();
    assert_eq!(m.resize_terminal(&id, size(0, 0)), Err(TermError::InvalidSize));
    assert_eq!(
        m.resize_terminal("unknown", size(10, 10)),
        Err(TermError::SessionNotFound)
    );
    assert!(!TermError::SessionNotFound.message().is_empty());
}

#[test]
fn output_reaches_grid_tracker_and_scrollback() {
    let mut m = TerminalManager::new();
    let id = m
        .create_terminal(size(40, 5), Some("/bin/bash".to_string()), Some("/tmp".to_string()))
        .unwrap();
    m.process_output(&TerminalOutput { session_id: id.clone(), data: "hello\n".to_string() });
    let grid = m.get_terminal_state(&id).unwrap();
    let first: String = grid.rows[0].iter().map(|c| c.character).collect();
    assert_eq!(first.trim_end(), "hello");
    m.process_output(&TerminalOutput {
        session_id: id.clone(),
        data: "user@host:/tmp$ ".to_string(),
    });
    assert!(m.is_at_prompt(&id));
    let hits = m.search_scrollback(&id, "hello", true, false, 5).unwrap();
    assert_eq!(hits.len(), 1);
    assert_eq!(hits[0].line, "hello");
    // Output for an unknown session changes nothing and does not fail.
    m.process_output(&TerminalOutput { session_id: "ghost".to_string(), data: "x".to_string() });
    assert!(m.get_terminal_state("ghost").is_none());
}

#[test]
fn gather_context_combines_prompt_history_and_tail() {
    let mut m = TerminalManager::new();
    let id = m
        .create_terminal(size(40, 5), Some("/bin/bash".to_string()), Some("/tmp".to_string()))
        .unwrap();
    let feed = |m: &mut TerminalManager, data: &str| {
        m.process_output(&TerminalOutput { session_id: id.clone(), data: data.to_string() });
    };
    feed(&mut m, "user@host:/home$ ");
    feed(&mut m, "ls\n");
    feed(&mut m, "some output\n");
    feed(&mut m, "user@host:/home$ ");
    let ctx = m.gather_context(&id).unwrap();
    assert_eq!(ctx.working_dir.as_deref(), Some("/home"));
    assert!(ctx.prompt.unwrap().contains("user@host"));
    // The tracker is deliberately permissive for POSIX shells: the later
    // output line displaced the first command, so it is what the history
    // holds when the next prompt closes it.
    assert_eq!(ctx.recent_commands, vec!["some output"]);
    assert!(ctx.tail_output.iter().any(|l| l == "some output"));
    // A context for an unknown session still forms, with empty fields.
    let empty = m.gather_context("ghost").unwrap();
    assert!(empty.working_dir.is_none());
    assert!(empty.prompt.is_none());
    assert!(empty.recent_commands.is_empty());
    assert!(empty.tail_output.is_empty());
}

#[test]
fn resize_updates_grid_dimensions() {
    let mut m = TerminalManager::new();
    let id = m.create_terminal(size(10, 4), None, None).unwrap();
    assert!(m.resize_terminal(&id, size(6, 2)).is_ok());
    let grid = m.get_terminal_state(&id).unwrap();
    assert_eq!(grid.cols, 6);
    assert_eq!(grid.rows.len(), 2);
}

#[test]
fn terminal_type_round_trip() {
    let known = [
        "xterm",
        "xterm-256color",
        "xterm-truecolor",
        "screen",
        "screen-256color",
        "tmux",
        "tmux-256color",
        "vt100",
        "vt220",
        "vt320",
        "vt420",
        "vt520",
        "linux",
        "cygwin",
        "ansi",
        "dumb",
    ];
    for name in known {
        let t = TerminalType::from_string(name);
        assert_eq!(t.to_string(), name);
    }
    assert_eq!(TerminalType::from_string("XTERM"), TerminalType::XTerm);
    match TerminalType::from_string("weird-term") {
        TerminalType::Unknown(s) => assert_eq!(s, "weird-term"),
        other => panic!("unexpected classification: {:?}", other),
    }
}

#[test]
fn capabilities_database_lookup() {
    let db = TerminalDatabase::new();
    assert_eq!(db.get_capabilities("xterm").colors, ColorSupport::Color16);
    assert_eq!(db.get_capabilities("xterm-256color").colors, ColorSupport::Color256);
    assert_eq!(db.get_capabilities("vt100").colors, ColorSupport::Monochrome);
    // An unknown name falls back to the default capability set.
    assert_eq!(db.get_capabilities("mystery").colors, ColorSupport::Color16);
    assert!(db.supports_feature("xterm-256color", "256colors"));
    assert!(!db.supports_feature("xterm", "256colors"));
    assert!(db.supports_feature("xterm-truecolor", "truecolor"));
    assert!(db.supports_feature("vt520", "sixel"));
    assert!(!db.supports_feature("dumb", "colors"));
    assert!(!db.supports_feature("xterm", "no-such-feature"));
}

#[test]
fn minimal_capabilities_have_everything_off() {
    let caps = termcore::terminal_types::TerminalCapabilities::minimal();
    assert_eq!(caps.colors, ColorSupport::Monochrome);
    assert!(!caps.mouse_support);
    assert!(!caps.bracketed_paste);
    assert!(!caps.hyperlinks);
}

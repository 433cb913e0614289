use termcore::shell_hooks::{ShellHooks, ShellHooksManager, ShellType};

fn bash_hooks() -> ShellHooks {
    ShellHooks::new("session".to_string(), ShellType::Bash, "~".to_string())
}

#[test]
fn prompt_round_trip_records_one_command() {
    // A prompt, a command line, and the next prompt yield exactly one
    // completed history entry carrying the command's text and a duration.
    let mut h = bash_hooks();
    h.process_output("user@host:~$ ");
    h.process_output("ls\n");
    h.process_output("user@host:~$ ");
    let history = h.get_command_history(None);
    assert_eq!(history.len(), 1);
    assert_eq!(history[0].text, "ls");
    assert!(history[0].duration_ms.is_some());
    assert!(h.is_at_prompt());
}

#[test]
fn prompt_is_recognized_without_newline() {
    let mut h = bash_hooks();
    assert!(!h.is_at_prompt());
    h.process_output("user@host:/tmp$ ");
    assert!(h.is_at_prompt());
    let p = h.get_current_prompt().unwrap();
    assert_eq!(p.user, "user");
    assert_eq!(p.hostname, "host");
    assert_eq!(p.working_dir, "/tmp");
    assert_eq!(h.get_working_directory(), "/tmp");
}

#[test]
fn comments_and_continuations_are_not_commands() {
    let mut h = bash_hooks();
    h.process_output("user@host:~$ ");
    h.process_output("# just a comment\n");
    h.process_output("// nor this\n");
    h.process_output("> continuation\n");
    h.process_output("user@host:~$ ");
    assert!(h.get_command_history(None).is_empty());
}

#[test]
fn powershell_prompt_reads_working_directory_only() {
    // A PowerShell prompt is recognized and its path extracted, but no
    // full prompt snapshot forms (only POSIX-style prompts carry user and
    // host), so no command delimiting happens in a pure PowerShell
    // session.
    let mut h = ShellHooks::new("s".to_string(), ShellType::PowerShell, "C:\\".to_string());
    h.process_output("PS C:\\Users\\me> ");
    assert_eq!(h.get_working_directory(), "C:\\Users\\me");
    assert!(!h.is_at_prompt());
    h.process_output("Get-Process\n");
    h.process_output("PS C:\\Users\\me> ");
    assert!(h.get_command_history(None).is_empty());
}

#[test]
fn shell_reclassifies_on_foreign_prompt() {
    // A tracker assumed to watch PowerShell still recognizes a POSIX
    // prompt, reclassifying itself.
    let mut h = ShellHooks::new("s".to_string(), ShellType::PowerShell, "~".to_string());
    h.process_output("user@host:~$ ");
    assert!(h.is_at_prompt());
    let p = h.get_current_prompt().unwrap();
    assert!(matches!(p.shell_type, ShellType::Bash));
}

#[test]
fn ansi_codes_do_not_hide_prompts() {
    let mut h = bash_hooks();
    h.process_output("\x1b[32muser@host:~$ \x1b[0m");
    assert!(h.is_at_prompt());
}

#[test]
fn detect_shell_type_from_path() {
    assert!(matches!(ShellHooks::detect_shell_type("/bin/bash"), ShellType::Bash));
    assert!(matches!(ShellHooks::detect_shell_type("/usr/bin/zsh"), ShellType::Zsh));
    assert!(matches!(ShellHooks::detect_shell_type("fish"), ShellType::Fish));
    assert!(matches!(
        ShellHooks::detect_shell_type("C:\\Windows\\System32\\cmd.exe"),
        ShellType::Cmd
    ));
    assert!(matches!(
        ShellHooks::detect_shell_type("/opt/microsoft/powershell/7/pwsh"),
        ShellType::PowerShell
    ));
    assert!(matches!(ShellHooks::detect_shell_type("PWSH.EXE"), ShellType::PowerShell));
    assert!(matches!(ShellHooks::detect_shell_type("/bin/ksh"), ShellType::Unknown));
}

#[test]
fn history_is_newest_first_and_searchable() {
    let mut h = bash_hooks();
    h.process_output("user@host:~$ ");
    for cmd in ["ls -la\n", "cat notes\n", "ls src\n"] {
        h.process_output(cmd);
        h.process_output("user@host:~$ ");
    }
    let texts: Vec<String> = h.get_command_history(None).into_iter().map(|c| c.text).collect();
    assert_eq!(texts, vec!["ls src", "cat notes", "ls -la"]);
    let two: Vec<String> = h.get_recent_commands(2).into_iter().map(|c| c.text).collect();
    assert_eq!(two, vec!["ls src", "cat notes"]);
    let found: Vec<String> = h.search_history("ls").into_iter().map(|c| c.text).collect();
    assert_eq!(found, vec!["ls src", "ls -la"]);
    assert!(h.search_history("nothing").is_empty());
}

#[test]
fn suggestions_are_ranked_and_prefixed() {
    let mut h = bash_hooks();
    h.process_output("user@host:~$ ");
    for cmd in ["git status\n", "git push\n", "git status\n", "grep foo\n"] {
        h.process_output(cmd);
        h.process_output("user@host:~$ ");
    }
    let sugg = h.get_command_suggestions("g");
    assert!(sugg.len() <= 10);
    assert!(!sugg.is_empty());
    for s in &sugg {
        assert!(s.command.starts_with('g'));
    }
    // The twice-used command ranks first.
    assert_eq!(sugg[0].command, "git status");
    assert_eq!(sugg[0].frequency, 2);
    for w in sugg.windows(2) {
        assert!(
            w[0].frequency > w[1].frequency
                || (w[0].frequency == w[1].frequency && w[0].last_used >= w[1].last_used)
        );
    }
}

#[test]
fn empty_prefix_offers_common_commands() {
    let h = bash_hooks();
    let sugg = h.get_command_suggestions("");
    assert!(!sugg.is_empty());
    assert!(sugg.len() <= 10);
}

#[test]
fn tab_completion_completes_first_word_only() {
    let mut h = bash_hooks();
    h.process_output("user@host:~$ ");
    h.process_output("grep foo\n");
    h.process_output("user@host:~$ ");
    let single = h.handle_tab_completion("gr", 2);
    assert!(single.iter().any(|c| c == "grep foo"));
    // Past the first word, completion falls to the (empty) filesystem pass.
    let multi = h.handle_tab_completion("grep src", 8);
    assert!(multi.is_empty());
}

#[test]
fn manager_routes_by_session_id() {
    let mut m = ShellHooksManager::new();
    m.create_session_hooks("a".to_string(), "/bin/bash", "~".to_string());
    m.process_output("a", "user@host:~$ ");
    assert!(m.is_at_prompt("a"));
    assert!(!m.is_at_prompt("b"));
    assert!(m.get_command_history("b", None).is_none());
    m.remove_session("a");
    assert!(!m.is_at_prompt("a"));
    assert!(m.get_current_prompt("a").is_none());
}

#[test]
fn suggestions_cover_every_matching_history_command() {
    let mut h = bash_hooks();
    h.process_output("user@host:~$ ");
    for cmd in ["git status\n", "git push\n", "git pull\n"] {
        h.process_output(cmd);
        h.process_output("user@host:~$ ");
    }
    let sugg = h.get_command_suggestions("git");
    let texts: Vec<&str> = sugg.iter().map(|s| s.command.as_str()).collect();
    // Fewer than ten distinct matches, so every one is owed a suggestion.
    assert!(texts.contains(&"git status"));
    assert!(texts.contains(&"git push"));
    assert!(texts.contains(&"git pull"));
    assert_eq!(sugg.len(), 3);
}


//! The shell hook tracker: a per-session heuristic state machine over output
//! lines that recognizes shell prompts by pattern, delimits commands, and
//! records timestamped command history in a bounded store. Prompt matching
//! runs through the regex crate behind its named results; everything around
//! those calls — line splitting, command-likeness, history bounds, ranking —
//! is verified.

use vstd::prelude::*;
use crate::outside::{regex_matches, regex_stripped, regex_caps3, re_is_match, re_strip, re_caps3,
    now_ms, new_id};
use crate::text::{is_space, has_non_space, any_non_space, trim_spaces, trim_slice, trim_end_char,
    trim_end_char_slice, first_token, first_token_slice, lower_ascii, to_lower_char, has_char,
    contains_char, find_char_from, find_char, str_chars, chars_to_string, sub_chars, str_eq};
use crate::search::{first_occurrence_from, line_views};
use crate::registry::{find_key, lemma_find_key, lemma_find_key_at, lemma_find_key_none};

verus! {

/// One recognized command: its text, when it started, where it ran, and how
/// it ended.
#[derive(Debug, Clone)]
pub struct Command {
    pub id: String,
    pub text: String,
    pub timestamp: u64,
    pub working_dir: String,
    pub exit_code: Option<i32>,
    pub duration_ms: Option<u64>,
    pub shell_type: ShellType,
}

/// The shell family a session is assumed to run.
#[derive(Debug, Clone, Copy, PartialEq, Eq, Hash, Structural)]
pub enum ShellType {
    PowerShell,
    Bash,
    Zsh,
    Fish,
    Cmd,
    Unknown,
}

/// The last recognized prompt: the shell it matched, and what was read out
/// of it.
#[derive(Debug, Clone)]
pub struct PromptInfo {
    pub shell_type: ShellType,
    pub working_dir: String,
    pub user: String,
    pub hostname: String,
    pub prompt_text: String,
}

/// One ranked completion suggestion.
#[derive(Debug, Clone)]
pub struct CommandSuggestion {
    pub command: String,
    pub description: String,
    pub frequency: u32,
    pub last_used: u64,
}

/// The mathematical image of one command record.
pub struct CommandModel {
    pub id: Seq<char>,
    pub text: Seq<char>,
    pub timestamp: u64,
    pub working_dir: Seq<char>,
    pub exit_code: Option<i32>,
    pub duration_ms: Option<u64>,
    pub shell_type: ShellType,
}

impl View for Command {
    type V = CommandModel;

    open spec fn view(&self) -> CommandModel {
        CommandModel {
            id: self.id@,
            text: self.text@,
            timestamp: self.timestamp,
            working_dir: self.working_dir@,
            exit_code: self.exit_code,
            duration_ms: self.duration_ms,
            shell_type: self.shell_type,
        }
    }
}

/// The mathematical image of one prompt snapshot.
pub struct PromptModel {
    pub shell_type: ShellType,
    pub working_dir: Seq<char>,
    pub user: Seq<char>,
    pub hostname: Seq<char>,
    pub prompt_text: Seq<char>,
}

impl View for PromptInfo {
    type V = PromptModel;

    open spec fn view(&self) -> PromptModel {
        PromptModel {
            shell_type: self.shell_type,
            working_dir: self.working_dir@,
            user: self.user@,
            hostname: self.hostname@,
            prompt_text: self.prompt_text@,
        }
    }
}

/// The views of a vector of command records.
pub open spec fn cmd_views(v: Seq<Command>) -> Seq<CommandModel> {
    v.map_values(|c: Command| c@)
}

/// Command views commute with appending one record.
pub proof fn lemma_cmd_views_push(s: Seq<Command>, c: Command)
    ensures
        cmd_views(s.push(c)) =~= cmd_views(s).push(c@),
{
}

/// The whole tracker state a [`ShellHooks`] value denotes.
pub struct HooksModel {
    pub history: Seq<CommandModel>,
    pub current: Option<CommandModel>,
    pub shell: ShellType,
    pub prompt: Option<PromptModel>,
    pub wd: Seq<char>,
    pub buffer: Seq<char>,
    pub max: int,
}

/// The escape-code pattern stripped from lines before prompt matching.
pub open spec fn ansi_code_pattern_spec() -> Seq<char> {
    "\\x1b\\[[0-9;]*[a-zA-Z]"@
}

/// The escape-code pattern, executable form.
pub fn ansi_code_pattern() -> (r: &'static str)
    ensures
        r@ == ansi_code_pattern_spec(),
{
    "\\x1b\\[[0-9;]*[a-zA-Z]"
}

/// The prompt patterns of one shell family, in matching order.
pub open spec fn shell_patterns(shell: ShellType) -> Seq<Seq<char>> {
    match shell {
        ShellType::PowerShell => seq![
            "^PS\\s+([A-Za-z]:[\\\\\\/][^>]*|[~\\/][^>]*)>\\s*$"@,
            "^PowerShell\\s+.*>\\s*$"@,
            "^Azure:\\w+@Azure:~\\$\\s*$"@,
        ],
        ShellType::Bash => seq![
            "^[^@\\s]+@[^:\\s]+:[^$]*\\$\\s*$"@,
            "^\\$\\s*$"@,
            "^#\\s*$"@,
        ],
        ShellType::Zsh => seq!["^[^@\\s]+@[^:\\s]+:[^%]*%\\s*$"@, "^%\\s*$"@],
        ShellType::Fish => seq!["^[^@\\s]+@[^:\\s]+\\s+[^>]*>\\s*$"@],
        ShellType::Cmd => seq!["^[A-Za-z]:[\\\\\\/][^>]*>\\s*$"@],
        ShellType::Unknown => Seq::<Seq<char>>::empty(),
    }
}

/// The order in which shell families are tried when the assumed shell's
/// patterns do not match.
pub open spec fn shell_order() -> Seq<ShellType> {
    seq![
        ShellType::PowerShell,
        ShellType::Bash,
        ShellType::Zsh,
        ShellType::Fish,
        ShellType::Cmd,
    ]
}

/// Whether any of a shell's prompt patterns matches the cleaned line.
pub open spec fn any_match(shell: ShellType, clean: Seq<char>) -> bool {
    exists|k: int|
        0 <= k < shell_patterns(shell).len() && regex_matches(
            #[trigger] shell_patterns(shell)[k],
            clean,
        )
}

/// The first shell family other than `current`, in table order, whose
/// patterns match the cleaned line.
pub open spec fn fallback_shell(clean: Seq<char>, current: ShellType, i: int) -> Option<ShellType>
    decreases shell_order().len() - i,
{
    if i < 0 || i >= shell_order().len() {
        None
    } else {
        let s = shell_order()[i];
        if s != current && any_match(s, clean) {
            Some(s)
        } else {
            fallback_shell(clean, current, i + 1)
        }
    }
}

/// The pattern that extracts the working directory from a PowerShell
/// prompt.
pub open spec fn ps_info_pattern_spec() -> Seq<char> {
    "^PS\\s+([A-Za-z]:[\\\\\\/][^>]*|[~\\/][^>]*)>\\s*$"@
}

/// The pattern that extracts user, host and working directory from a
/// POSIX-style prompt.
pub open spec fn posix_info_pattern_spec() -> Seq<char> {
    "^([^@\\s]+)@([^:\\s]+):([^$%]*)([$%])\\s*$"@
}

/// What recognizing a prompt reads out of its (cleaned) line: PowerShell
/// prompts update the working directory; POSIX-style prompts update the
/// working directory and the whole prompt snapshot; other shells read
/// nothing.
pub open spec fn spec_prompt_info(m: HooksModel, clean: Seq<char>) -> HooksModel {
    match m.shell {
        ShellType::PowerShell => match regex_caps3(ps_info_pattern_spec(), clean) {
            Some(g) => HooksModel { wd: g.0, ..m },
            None => m,
        },
        ShellType::Bash | ShellType::Zsh => match regex_caps3(posix_info_pattern_spec(), clean) {
            Some(g) => HooksModel {
                wd: g.2,
                prompt: Some(
                    PromptModel {
                        shell_type: m.shell,
                        working_dir: g.2,
                        user: g.0,
                        hostname: g.1,
                        prompt_text: clean,
                    },
                ),
                ..m
            },
            None => m,
        },
        _ => m,
    }
}

/// Whether a line is recognized as a prompt, and the tracker state after
/// the check: the assumed shell's patterns are tried first, then every
/// other family in table order, reclassifying the shell on a fallback
/// match.
pub open spec fn spec_check_prompt(m: HooksModel, raw_line: Seq<char>) -> (bool, HooksModel) {
    let clean = regex_stripped(ansi_code_pattern_spec(), raw_line);
    if any_match(m.shell, clean) {
        (true, spec_prompt_info(m, clean))
    } else {
        match fallback_shell(clean, m.shell, 0) {
            Some(s) => (true, spec_prompt_info(HooksModel { shell: s, ..m }, clean)),
            None => (false, m),
        }
    }
}

/// The PowerShell command aliases accepted as command starts.
pub open spec fn is_ps_alias(w: Seq<char>) -> bool {
    ||| w == "cd"@
    ||| w == "ls"@
    ||| w == "dir"@
    ||| w == "pwd"@
    ||| w == "echo"@
    ||| w == "cat"@
    ||| w == "type"@
    ||| w == "mkdir"@
    ||| w == "rmdir"@
    ||| w == "del"@
    ||| w == "copy"@
    ||| w == "move"@
}

/// Whether a line looks like a command being executed: not empty, not a
/// comment or continuation; under PowerShell the first token must look like
/// a cmdlet (contain a hyphen) or be a known alias.
pub open spec fn spec_looks_like_command(shell: ShellType, line: Seq<char>) -> bool {
    let clean = trim_spaces(line);
    if clean.len() == 0 {
        false
    } else if clean[0] == '#' {
        false
    } else if clean.len() >= 2 && clean[0] == '/' && clean[1] == '/' {
        false
    } else if clean[0] == '>' {
        false
    } else if shell is PowerShell {
        let w = first_token(clean);
        has_char(w, '-') || is_ps_alias(lower_ascii(w))
    } else {
        true
    }
}

/// Appending to bounded history: the oldest entry leaves once the store is
/// full.
pub open spec fn spec_add_history(hist: Seq<CommandModel>, cmd: CommandModel, max: int) -> Seq<
    CommandModel,
> {
    if hist.len() >= max {
        hist.drop_first().push(cmd)
    } else {
        hist.push(cmd)
    }
}

/// Saturating difference of two timestamps.
pub open spec fn sat_sub(a: u64, b: u64) -> u64 {
    if a >= b {
        (a - b) as u64
    } else {
        0
    }
}

/// What one output line does to the tracker, given the timestamp and
/// identifier the processing drew: a blank line does nothing; a prompt line
/// completes the in-flight command, stamping its duration, and appends it
/// to history; after a prompt, a command-like line opens a new in-flight
/// command.
pub open spec fn spec_process_line(
    m: HooksModel,
    line: Seq<char>,
    now: u64,
    id: Seq<char>,
) -> HooksModel {
    if !has_non_space(line) {
        m
    } else {
        let cp = spec_check_prompt(m, line);
        if cp.0 {
            match m.current {
                Some(cmd) => HooksModel {
                    current: None,
                    history: spec_add_history(
                        cp.1.history,
                        CommandModel { duration_ms: Some(sat_sub(now, cmd.timestamp)), ..cmd },
                        m.max,
                    ),
                    ..cp.1
                },
                None => cp.1,
            }
        } else if m.prompt is Some && !(line.len() > 0 && line[0] == ' ')
            && spec_looks_like_command(m.shell, line) {
            HooksModel {
                current: Some(
                    CommandModel {
                        id: id,
                        text: line,
                        timestamp: now,
                        working_dir: m.wd,
                        exit_code: None,
                        duration_ms: None,
                        shell_type: m.shell,
                    },
                ),
                ..m
            }
        } else {
            m
        }
    }
}

/// One buffered-line step: split off the text before the first line feed,
/// trim its trailing carriage returns, and process it.
pub open spec fn spec_drain_one(m: HooksModel, p: int, t: (u64, Seq<char>)) -> HooksModel {
    let line = trim_end_char(m.buffer.take(p), '\r');
    spec_process_line(HooksModel { buffer: m.buffer.skip(p + 1), ..m }, line, t.0, t.1)
}

/// Processing a line never touches the buffer.
pub proof fn lemma_process_line_keeps_buffer(m: HooksModel, line: Seq<char>, now: u64, id: Seq<
    char,
>)
    ensures
        spec_process_line(m, line, now, id).buffer == m.buffer,
{
}

/// Draining the buffer: process one complete line per metadata entry until
/// no line feed remains.
pub open spec fn spec_drain(m: HooksModel, meta: Seq<(u64, Seq<char>)>) -> HooksModel
    decreases m.buffer.len(),
    via spec_drain_decreases
{
    match find_char_from(m.buffer, '\n', 0) {
        None => m,
        Some(p) => if meta.len() == 0 {
            m
        } else {
            spec_drain(spec_drain_one(m, p, meta[0]), meta.drop_first())
        },
    }
}

#[via_fn]
proof fn spec_drain_decreases(m: HooksModel, meta: Seq<(u64, Seq<char>)>) {
    crate::text::lemma_find_char_from(m.buffer, '\n', 0);
    match find_char_from(m.buffer, '\n', 0) {
        None => {},
        Some(p) => {
            if meta.len() > 0 {
                let rest = HooksModel { buffer: m.buffer.skip(p + 1), ..m };
                let line = trim_end_char(m.buffer.take(p), '\r');
                lemma_process_line_keeps_buffer(rest, line, meta[0].0, meta[0].1);
                assert(spec_drain_one(m, p, meta[0]).buffer == m.buffer.skip(p + 1));
            }
        },
    }
}

/// What one raw chunk does to the tracker, given the timestamps and
/// identifiers its line processing drew and the timestamp `fin` of the
/// final prompt check: the chunk joins the buffer, every complete line is
/// processed in order, and a non-blank pending rest is checked for a prompt
/// (a prompt need not end in a line feed). A pending rest recognized as a
/// prompt is consumed, and completes the in-flight command as a prompt
/// line would.
pub open spec fn spec_process_output(
    m: HooksModel,
    data: Seq<char>,
    meta: Seq<(u64, Seq<char>)>,
    fin: u64,
) -> HooksModel {
    let m1 = spec_drain(HooksModel { buffer: m.buffer + data, ..m }, meta);
    if has_non_space(m1.buffer) {
        let cp = spec_check_prompt(m1, m1.buffer);
        if cp.0 {
            let cleared = HooksModel { buffer: Seq::<char>::empty(), ..cp.1 };
            match m1.current {
                Some(cmd) => HooksModel {
                    current: None,
                    history: spec_add_history(
                        cleared.history,
                        CommandModel { duration_ms: Some(sat_sub(fin, cmd.timestamp)), ..cmd },
                        m1.max,
                    ),
                    ..cleared
                },
                None => cleared,
            }
        } else {
            m1
        }
    } else {
        m1
    }
}

/// Draining one more line off the end of the metadata.
pub proof fn lemma_drain_snoc(m: HooksModel, meta: Seq<(u64, Seq<char>)>, t: (u64, Seq<char>))
    ensures
        spec_drain(m, meta.push(t)) == ({
            let mj = spec_drain(m, meta);
            match find_char_from(mj.buffer, '\n', 0) {
                Some(p) => spec_drain_one(mj, p, t),
                None => mj,
            }
        }),
    decreases meta.len(),
{
    crate::text::lemma_find_char_from(m.buffer, '\n', 0);
    match find_char_from(m.buffer, '\n', 0) {
        None => {
            assert(spec_drain(m, meta.push(t)) == m);
            assert(spec_drain(m, meta) == m);
        },
        Some(p) => {
            if meta.len() == 0 {
                assert(meta.push(t)[0] == t);
                assert(meta.push(t).drop_first() =~= Seq::<(u64, Seq<char>)>::empty());
                let m2 = spec_drain_one(m, p, t);
                assert(spec_drain(m2, Seq::<(u64, Seq<char>)>::empty()) == m2) by {
                    crate::text::lemma_find_char_from(m2.buffer, '\n', 0);
                }
                assert(spec_drain(m, meta) == m);
            } else {
                assert(meta.push(t)[0] == meta[0]);
                assert(meta.push(t).drop_first() =~= meta.drop_first().push(t));
                lemma_drain_snoc(spec_drain_one(m, p, meta[0]), meta.drop_first(), t);
            }
        },
    }
}

/// The newest `budget` records of a history, newest first.
pub open spec fn rev_take(hist: Seq<CommandModel>, i: int, budget: int) -> Seq<CommandModel>
    decreases i,
{
    if i <= 0 || budget <= 0 || i > hist.len() {
        Seq::<CommandModel>::empty()
    } else {
        seq![hist[i - 1]] + rev_take(hist, i - 1, budget - 1)
    }
}

/// Whether a command text holds the query as a substring; an empty query
/// matches everything.
pub open spec fn text_contains(text: Seq<char>, q: Seq<char>) -> bool {
    q.len() == 0 || first_occurrence_from(text, q, 0) is Some
}

/// The newest `budget` records whose text holds the query, newest first.
pub open spec fn rev_matches(hist: Seq<CommandModel>, q: Seq<char>, i: int, budget: int) -> Seq<
    CommandModel,
>
    decreases i,
{
    if i <= 0 || budget <= 0 || i > hist.len() {
        Seq::<CommandModel>::empty()
    } else if text_contains(hist[i - 1].text, q) {
        seq![hist[i - 1]] + rev_matches(hist, q, i - 1, budget - 1)
    } else {
        rev_matches(hist, q, i - 1, budget)
    }
}

/// Whether `p` is a prefix of `s`.
pub open spec fn is_prefix(p: Seq<char>, s: Seq<char>) -> bool {
    p.len() <= s.len() && s.take(p.len() as int) == p
}

/// Ranking of suggestions: by frequency, then by recency.
pub open spec fn sugg_ge(a: (Seq<char>, u32, u64), b: (Seq<char>, u32, u64)) -> bool {
    a.1 > b.1 || (a.1 == b.1 && a.2 >= b.2)
}

/// The ranking key of a suggestion.
pub open spec fn sugg_key(s: CommandSuggestion) -> (Seq<char>, u32, u64) {
    (s.command@, s.frequency, s.last_used)
}

/// How many of the first `i` history entries carry exactly this text.
pub open spec fn history_count(hist: Seq<CommandModel>, text: Seq<char>, i: int) -> int
    decreases i,
{
    if i <= 0 || i > hist.len() {
        0
    } else {
        history_count(hist, text, i - 1) + if hist[i - 1].text == text {
            1int
        } else {
            0int
        }
    }
}

/// The latest timestamp among the first `i` history entries carrying this
/// text; zero where there is none.
pub open spec fn history_latest(hist: Seq<CommandModel>, text: Seq<char>, i: int) -> u64
    decreases i,
{
    if i <= 0 || i > hist.len() {
        0u64
    } else {
        let p = history_latest(hist, text, i - 1);
        if hist[i - 1].text == text && hist[i - 1].timestamp > p {
            hist[i - 1].timestamp
        } else {
            p
        }
    }
}

/// A count is bounded by how far it looked and by the history's length.
pub proof fn lemma_history_count_bound(hist: Seq<CommandModel>, text: Seq<char>, i: int)
    ensures
        0 <= history_count(hist, text, i),
        history_count(hist, text, i) <= hist.len(),
        i >= 0 ==> history_count(hist, text, i) <= i,
    decreases i,
{
    if i > 0 {
        lemma_history_count_bound(hist, text, i - 1);
    }
}

/// A text that no looked-at entry carries counts zero and has no latest use.
pub proof fn lemma_history_absent(hist: Seq<CommandModel>, text: Seq<char>, i: int)
    requires
        forall|j: int| 0 <= j < i && j < hist.len() ==> (#[trigger] hist[j]).text != text,
    ensures
        history_count(hist, text, i) == 0,
        history_latest(hist, text, i) == 0,
    decreases i,
{
    if i > 0 {
        lemma_history_absent(hist, text, i - 1);
    }
}

/// The well-known commands of each shell family, in table order.
pub open spec fn common_commands(shell: ShellType) -> Seq<Seq<char>> {
    match shell {
        ShellType::PowerShell => seq![
            "Get-Process"@,
            "Get-ChildItem"@,
            "Set-Location"@,
            "Get-Location"@,
            "Clear-Host"@,
            "Get-Help"@,
            "ls"@,
            "cd"@,
            "pwd"@,
            "cls"@,
        ],
        ShellType::Bash | ShellType::Zsh => seq![
            "ls"@,
            "cd"@,
            "pwd"@,
            "mkdir"@,
            "rmdir"@,
            "rm"@,
            "cp"@,
            "mv"@,
            "grep"@,
            "find"@,
            "cat"@,
            "less"@,
            "vi"@,
            "nano"@,
            "chmod"@,
            "chown"@,
            "ps"@,
            "kill"@,
            "top"@,
            "df"@,
            "du"@,
            "free"@,
            "history"@,
        ],
        ShellType::Fish => seq![
            "ls"@,
            "cd"@,
            "pwd"@,
            "mkdir"@,
            "rm"@,
            "cp"@,
            "mv"@,
            "grep"@,
            "find"@,
            "cat"@,
            "funced"@,
            "funcsave"@,
            "history"@,
        ],
        ShellType::Cmd => seq![
            "dir"@,
            "cd"@,
            "mkdir"@,
            "rmdir"@,
            "del"@,
            "copy"@,
            "move"@,
            "type"@,
            "find"@,
            "cls"@,
        ],
        ShellType::Unknown => Seq::<Seq<char>>::empty(),
    }
}

/// Whether the built-in table joins the suggestions: on an empty prefix or
/// an empty history.
pub open spec fn commons_join(hist: Seq<CommandModel>, prefix: Seq<char>) -> bool {
    prefix.len() == 0 || hist.len() == 0
}

/// A suggestion owed by the history: its command completes the prefix, its
/// frequency counts exactly the history entries with that text, and its
/// last use is the latest of their timestamps.
pub open spec fn suggestion_from_history(
    hist: Seq<CommandModel>,
    prefix: Seq<char>,
    s: CommandSuggestion,
) -> bool {
    &&& is_prefix(prefix, s.command@)
    &&& history_count(hist, s.command@, hist.len() as int) >= 1
    &&& s.frequency == history_count(hist, s.command@, hist.len() as int)
    &&& s.last_used == history_latest(hist, s.command@, hist.len() as int)
}

/// A suggestion owed by the built-in table: a well-known command of the
/// shell that completes the prefix and appears nowhere in the history,
/// counted once and never used.
pub open spec fn suggestion_from_commons(
    hist: Seq<CommandModel>,
    shell: ShellType,
    prefix: Seq<char>,
    s: CommandSuggestion,
) -> bool {
    &&& is_prefix(prefix, s.command@)
    &&& common_commands(shell).contains(s.command@)
    &&& history_count(hist, s.command@, hist.len() as int) == 0
    &&& s.frequency == 1
    &&& s.last_used == 0
}

/// Whether a command text appears among the suggestions.
pub open spec fn suggested(r: Seq<CommandSuggestion>, text: Seq<char>) -> bool {
    exists|k: int| 0 <= k < r.len() && (#[trigger] r[k]).command@ == text
}

/// No two suggestions share a command.
pub open spec fn distinct_commands(r: Seq<CommandSuggestion>) -> bool {
    forall|a: int, b: int|
        0 <= a < b < r.len() ==> (#[trigger] r[a]).command@ != (#[trigger] r[b]).command@
}

/// The ranking key the aggregate owes a command text: its history count and
/// latest use, or the built-in key where the history never saw it.
pub open spec fn aggregate_key(hist: Seq<CommandModel>, text: Seq<char>) -> (Seq<char>, u32, u64) {
    if history_count(hist, text, hist.len() as int) >= 1 {
        (
            text,
            history_count(hist, text, hist.len() as int) as u32,
            history_latest(hist, text, hist.len() as int),
        )
    } else {
        (text, 1u32, 0u64)
    }
}

/// A command text is covered by the result: it appears, or the result is
/// already full of suggestions that rank at least its aggregate key.
pub open spec fn covered(r: Seq<CommandSuggestion>, hist: Seq<CommandModel>, text: Seq<char>) -> bool {
    suggested(r, text) || (r.len() == 10 && forall|k: int|
        0 <= k < r.len() ==> sugg_ge(sugg_key(#[trigger] r[k]), aggregate_key(hist, text)))
}

/// The shell family a shell program path denotes, judged by the lower-cased
/// name after the last path separator.
pub open spec fn spec_shell_of_name(name: Seq<char>) -> ShellType {
    if name == "powershell.exe"@ || name == "pwsh.exe"@ || name == "powershell"@ || name
        == "pwsh"@ {
        ShellType::PowerShell
    } else if name == "bash.exe"@ || name == "bash"@ {
        ShellType::Bash
    } else if name == "zsh.exe"@ || name == "zsh"@ {
        ShellType::Zsh
    } else if name == "fish.exe"@ || name == "fish"@ {
        ShellType::Fish
    } else if name == "cmd.exe"@ || name == "cmd"@ {
        ShellType::Cmd
    } else {
        ShellType::Unknown
    }
}

/// The file-name part of a path: what follows the last slash or backslash.
pub open spec fn spec_basename(path: Seq<char>, i: int) -> Seq<char>
    decreases i,
{
    if i <= 0 || i > path.len() {
        path
    } else if path[i - 1] == '/' || path[i - 1] == '\\' {
        path.skip(i)
    } else {
        spec_basename(path, i - 1)
    }
}

/// The prompt patterns of one shell family, executable form.
fn patterns_for(shell: ShellType) -> (r: Vec<String>)
    ensures
        line_views(r@) == shell_patterns(shell),
{
    let mut v: Vec<String> = Vec::new();
    match shell {
        ShellType::PowerShell => {
            v.push(String::from_str("^PS\\s+([A-Za-z]:[\\\\\\/][^>]*|[~\\/][^>]*)>\\s*$"));
            v.push(String::from_str("^PowerShell\\s+.*>\\s*$"));
            v.push(String::from_str("^Azure:\\w+@Azure:~\\$\\s*$"));
        },
        ShellType::Bash => {
            v.push(String::from_str("^[^@\\s]+@[^:\\s]+:[^$]*\\$\\s*$"));
            v.push(String::from_str("^\\$\\s*$"));
            v.push(String::from_str("^#\\s*$"));
        },
        ShellType::Zsh => {
            v.push(String::from_str("^[^@\\s]+@[^:\\s]+:[^%]*%\\s*$"));
            v.push(String::from_str("^%\\s*$"));
        },
        ShellType::Fish => {
            v.push(String::from_str("^[^@\\s]+@[^:\\s]+\\s+[^>]*>\\s*$"));
        },
        ShellType::Cmd => {
            v.push(String::from_str("^[A-Za-z]:[\\\\\\/][^>]*>\\s*$"));
        },
        ShellType::Unknown => (),
    }
    proof {
        assert(line_views(v@) =~= shell_patterns(shell));
    }
    v
}

/// The fallback order of shell families, executable form.
fn shells_in_order() -> (r: Vec<ShellType>)
    ensures
        r@ == shell_order(),
{
    let mut v: Vec<ShellType> = Vec::new();
    v.push(ShellType::PowerShell);
    v.push(ShellType::Bash);
    v.push(ShellType::Zsh);
    v.push(ShellType::Fish);
    v.push(ShellType::Cmd);
    proof {
        assert(v@ =~= shell_order());
    }
    v
}

/// Whether any of a shell's prompt patterns matches the cleaned line,
/// executable form.
fn match_shell(shell: ShellType, clean: &str) -> (r: bool)
    ensures
        r == any_match(shell, clean@),
{
    let pats = patterns_for(shell);
    let n = pats.len();
    let mut i: usize = 0;
    while i < n
        invariant
            0 <= i <= n,
            n == pats@.len(),
            line_views(pats@) == shell_patterns(shell),
            forall|k: int| 0 <= k < i ==> !regex_matches(#[trigger] shell_patterns(shell)[k], clean@),
        decreases n - i,
    {
        if re_is_match(pats[i].as_str(), clean) {
            proof {
                assert(regex_matches(shell_patterns(shell)[i as int], clean@));
            }
            return true;
        }
        i = i + 1;
    }
    false
}

/// Whether `s` begins with `p`.
fn starts_with_chars(s: &[char], p: &[char]) -> (r: bool)
    ensures
        r == is_prefix(p@, s@),
{
    let pn = p.len();
    if s.len() < pn {
        return false;
    }
    let mut i: usize = 0;
    while i < pn
        invariant
            0 <= i <= pn,
            pn == p@.len(),
            pn <= s@.len(),
            forall|j: int| 0 <= j < i ==> s@[j] == p@[j],
        decreases pn - i,
    {
        if s[i] != p[i] {
            proof {
                assert(s@.take(pn as int)[i as int] != p@[i as int]);
            }
            return false;
        }
        i = i + 1;
    }
    proof {
        assert(s@.take(pn as int) =~= p@);
    }
    true
}

/// Ranking of suggestions, executable form.
fn ge_exec(a: &CommandSuggestion, b: &CommandSuggestion) -> (r: bool)
    ensures
        r == sugg_ge(sugg_key(*a), sugg_key(*b)),
{
    a.frequency > b.frequency || (a.frequency == b.frequency && a.last_used >= b.last_used)
}

/// The well-known commands of one shell family with their descriptions,
/// lined up with [`common_commands`].
fn common_table(shell: ShellType) -> (r: Vec<(String, String)>)
    ensures
        r@.len() == common_commands(shell).len(),
        forall|t: int|
            0 <= t < r@.len() ==> (#[trigger] r@[t]).0@ == common_commands(shell)[t],
{
    let mut v: Vec<(String, String)> = Vec::new();
    match shell {
        ShellType::PowerShell => {
            v.push((String::from_str("Get-Process"), String::from_str("List running processes")));
            v.push((
                String::from_str("Get-ChildItem"),
                String::from_str("List directory contents"),
            ));
            v.push((String::from_str("Set-Location"), String::from_str("Change directory")));
            v.push((String::from_str("Get-Location"), String::from_str("Get current directory")));
            v.push((String::from_str("Clear-Host"), String::from_str("Clear the screen")));
            v.push((String::from_str("Get-Help"), String::from_str("Get help for commands")));
            v.push((String::from_str("ls"), String::from_str("List directory contents (alias)")));
            v.push((String::from_str("cd"), String::from_str("Change directory (alias)")));
            v.push((String::from_str("pwd"), String::from_str("Print working directory (alias)")));
            v.push((String::from_str("cls"), String::from_str("Clear screen (alias)")));
        },
        ShellType::Bash | ShellType::Zsh => {
            v.push((String::from_str("ls"), String::from_str("List directory contents")));
            v.push((String::from_str("cd"), String::from_str("Change directory")));
            v.push((String::from_str("pwd"), String::from_str("Print working directory")));
            v.push((String::from_str("mkdir"), String::from_str("Create directory")));
            v.push((String::from_str("rmdir"), String::from_str("Remove directory")));
            v.push((String::from_str("rm"), String::from_str("Remove files")));
            v.push((String::from_str("cp"), String::from_str("Copy files")));
            v.push((String::from_str("mv"), String::from_str("Move files")));
            v.push((String::from_str("grep"), String::from_str("Search text")));
            v.push((String::from_str("find"), String::from_str("Find files")));
            v.push((String::from_str("cat"), String::from_str("Display file contents")));
            v.push((String::from_str("less"), String::from_str("View file contents")));
            v.push((String::from_str("vi"), String::from_str("Edit files")));
            v.push((String::from_str("nano"), String::from_str("Edit files")));
            v.push((String::from_str("chmod"), String::from_str("Change file permissions")));
            v.push((String::from_str("chown"), String::from_str("Change file ownership")));
            v.push((String::from_str("ps"), String::from_str("List processes")));
            v.push((String::from_str("kill"), String::from_str("Terminate processes")));
            v.push((String::from_str("top"), String::from_str("Display running processes")));
            v.push((String::from_str("df"), String::from_str("Show disk usage")));
            v.push((String::from_str("du"), String::from_str("Show directory usage")));
            v.push((String::from_str("free"), String::from_str("Show memory usage")));
            v.push((String::from_str("history"), String::from_str("Show command history")));
        },
        ShellType::Fish => {
            v.push((String::from_str("ls"), String::from_str("List directory contents")));
            v.push((String::from_str("cd"), String::from_str("Change directory")));
            v.push((String::from_str("pwd"), String::from_str("Print working directory")));
            v.push((String::from_str("mkdir"), String::from_str("Create directory")));
            v.push((String::from_str("rm"), String::from_str("Remove files")));
            v.push((String::from_str("cp"), String::from_str("Copy files")));
            v.push((String::from_str("mv"), String::from_str("Move files")));
            v.push((String::from_str("grep"), String::from_str("Search text")));
            v.push((String::from_str("find"), String::from_str("Find files")));
            v.push((String::from_str("cat"), String::from_str("Display file contents")));
            v.push((String::from_str("funced"), String::from_str("Edit function")));
            v.push((String::from_str("funcsave"), String::from_str("Save function")));
            v.push((String::from_str("history"), String::from_str("Show command history")));
        },
        ShellType::Cmd => {
            v.push((String::from_str("dir"), String::from_str("List directory contents")));
            v.push((String::from_str("cd"), String::from_str("Change directory")));
            v.push((String::from_str("mkdir"), String::from_str("Create directory")));
            v.push((String::from_str("rmdir"), String::from_str("Remove directory")));
            v.push((String::from_str("del"), String::from_str("Delete files")));
            v.push((String::from_str("copy"), String::from_str("Copy files")));
            v.push((String::from_str("move"), String::from_str("Move files")));
            v.push((String::from_str("type"), String::from_str("Display file contents")));
            v.push((String::from_str("find"), String::from_str("Search text in files")));
            v.push((String::from_str("cls"), String::from_str("Clear screen")));
        },
        ShellType::Unknown => (),
    }
    v
}

/// Sort suggestions by rank, best first; the result holds exactly the
/// input's elements.
fn sort_suggestions(v: Vec<CommandSuggestion>) -> (r: Vec<CommandSuggestion>)
    ensures
        r@.len() == v@.len(),
        forall|a: int, b: int| 0 <= a < b < r@.len() ==> sugg_ge(sugg_key(r@[a]), sugg_key(r@[b])),
        forall|k: int| 0 <= k < r@.len() ==> #[trigger] v@.contains(r@[k]),
        forall|k: int| 0 <= k < v@.len() ==> #[trigger] r@.contains(v@[k]),
{
    let ghost v0 = v@;
    let mut src = v;
    let mut out: Vec<CommandSuggestion> = Vec::new();
    proof {
        assert forall|k: int| 0 <= k < src@.len() implies #[trigger] v0.contains(src@[k]) by {
            assert(v0[k] == src@[k]);
        }
        assert forall|k: int| 0 <= k < v0.len() implies src@.contains(#[trigger] v0[k]) by {
            assert(src@[k] == v0[k]);
        }
    }
    while src.len() > 0
        invariant
            out@.len() + src@.len() == v0.len(),
            forall|k: int| 0 <= k < src@.len() ==> #[trigger] v0.contains(src@[k]),
            forall|k: int| 0 <= k < out@.len() ==> #[trigger] v0.contains(out@[k]),
            forall|k: int|
                0 <= k < v0.len() ==> out@.contains(#[trigger] v0[k]) || src@.contains(v0[k]),
            forall|a: int, b: int|
                0 <= a < b < out@.len() ==> sugg_ge(sugg_key(out@[a]), sugg_key(out@[b])),
            forall|a: int, b: int|
                0 <= a < out@.len() && 0 <= b < src@.len() ==> sugg_ge(
                    sugg_key(out@[a]),
                    sugg_key(src@[b]),
                ),
        decreases src@.len(),
    {
        let sn = src.len();
        let mut mi: usize = 0;
        let mut j: usize = 1;
        while j < sn
            invariant
                0 <= mi < j <= sn,
                sn == src@.len(),
                forall|k: int| 0 <= k < j ==> sugg_ge(sugg_key(src@[mi as int]), sugg_key(src@[k])),
            decreases sn - j,
        {
            if ge_exec(&src[j], &src[mi]) {
                mi = j;
            }
            j = j + 1;
        }
        let ghost srcb = src@;
        let ghost outb = out@;
        let m = src.swap_remove(mi);
        out.push(m);
        proof {
            assert(m == srcb[mi as int]);
            assert forall|k: int| 0 <= k < src@.len() implies #[trigger] v0.contains(src@[k]) by {
                if k == mi {
                    assert(src@[k] == srcb.last());
                } else {
                    assert(src@[k] == srcb[k]);
                }
            }
            assert forall|b: int| 0 <= b < src@.len() implies sugg_ge(
                sugg_key(m),
                sugg_key(src@[b]),
            ) by {
                if b == mi {
                    assert(src@[b] == srcb.last());
                } else {
                    assert(src@[b] == srcb[b]);
                }
            }
            assert forall|k: int|
                0 <= k < v0.len() implies out@.contains(#[trigger] v0[k]) || src@.contains(
                v0[k],
            ) by {
                if outb.contains(v0[k]) {
                    let w = choose|w: int| 0 <= w < outb.len() && outb[w] == v0[k];
                    assert(out@[w] == v0[k]);
                } else {
                    let w = choose|w: int| 0 <= w < srcb.len() && srcb[w] == v0[k];
                    if w == mi {
                        assert(out@.last() == v0[k]);
                    } else if w == srcb.len() - 1 {
                        assert(src@[mi as int] == v0[k]);
                    } else {
                        assert(src@[w] == v0[k]);
                    }
                }
            }
        }
    }
    proof {
        assert forall|k: int| 0 <= k < v0.len() implies #[trigger] out@.contains(v0[k]) by {
            assert(out@.contains(v0[k]) || src@.contains(v0[k]));
        }
    }
    out
}

/// A faithful copy of one command record.
fn copy_command(c: &Command) -> (r: Command)
    ensures
        r@ == c@,
{
    Command {
        id: c.id.clone(),
        text: c.text.clone(),
        timestamp: c.timestamp,
        working_dir: c.working_dir.clone(),
        exit_code: c.exit_code,
        duration_ms: c.duration_ms,
        shell_type: c.shell_type,
    }
}

/// The per-session tracker: its bounded history, the in-flight command, the
/// assumed shell, the last prompt snapshot, the working directory and the
/// pending partial line.
pub struct ShellHooks {
    pub session_id: String,
    command_history: Vec<Command>,
    current_command: Option<Command>,
    shell_type: ShellType,
    current_prompt: Option<PromptInfo>,
    working_dir: String,
    max_history_size: usize,
    output_buffer: Vec<char>,
}

impl ShellHooks {
    /// The tracker state this value denotes.
    pub closed spec fn model(&self) -> HooksModel {
        HooksModel {
            history: cmd_views(self.command_history@),
            current: match self.current_command {
                Some(c) => Some(c@),
                None => None,
            },
            shell: self.shell_type,
            prompt: match self.current_prompt {
                Some(p) => Some(p@),
                None => None,
            },
            wd: self.working_dir@,
            buffer: self.output_buffer@,
            max: self.max_history_size as int,
        }
    }

    /// The session this tracker belongs to.
    pub closed spec fn sid(&self) -> Seq<char> {
        self.session_id@
    }

    /// The history never exceeds its bound, which is the thousand entries
    /// every tracker is created with.
    pub closed spec fn wf(&self) -> bool {
        self.command_history@.len() <= self.max_history_size && self.max_history_size == 1000
    }

    /// A fresh tracker for one session: empty history and buffer, no prompt
    /// seen yet, a history bound of a thousand entries.
    pub fn new(session_id: String, shell_type: ShellType, working_dir: String) -> (r: ShellHooks)
        ensures
            r.wf(),
            r.sid() == session_id@,
            r.model() == (HooksModel {
                history: Seq::<CommandModel>::empty(),
                current: None,
                shell: shell_type,
                prompt: None,
                wd: working_dir@,
                buffer: Seq::<char>::empty(),
                max: 1000,
            }),
    {
        let r = ShellHooks {
            session_id,
            command_history: Vec::new(),
            current_command: None,
            shell_type,
            current_prompt: None,
            working_dir,
            max_history_size: 1000,
            output_buffer: Vec::new(),
        };
        proof {
            assert(cmd_views(r.command_history@) =~= Seq::<CommandModel>::empty());
        }
        r
    }

    /// Read prompt details out of a cleaned prompt line, per the assumed
    /// shell.
    fn parse_prompt_info(&mut self, clean: &str)
        ensures
            final(self).model() == spec_prompt_info(old(self).model(), clean@),
            final(self).session_id == old(self).session_id,
            final(self).wf() == old(self).wf(),
    {
        match self.shell_type {
            ShellType::PowerShell => {
                match re_caps3("^PS\\s+([A-Za-z]:[\\\\\\/][^>]*|[~\\/][^>]*)>\\s*$", clean) {
                    Some(g) => {
                        self.working_dir = g.0;
                    },
                    None => (),
                }
            },
            ShellType::Bash | ShellType::Zsh => {
                match re_caps3("^([^@\\s]+)@([^:\\s]+):([^$%]*)([$%])\\s*$", clean) {
                    Some(g) => {
                        self.working_dir = g.2.clone();
                        self.current_prompt = Some(PromptInfo {
                            shell_type: self.shell_type,
                            working_dir: g.2,
                            user: g.0,
                            hostname: g.1,
                            prompt_text: String::from_str(clean),
                        });
                    },
                    None => (),
                }
            },
            _ => (),
        }
    }

    /// Check one line for a prompt: the assumed shell's patterns first,
    /// then every other family in table order, reclassifying on a fallback
    /// match; a match updates the prompt snapshot.
    fn check_for_prompt(&mut self, line: &str) -> (r: bool)
        ensures
            (r, final(self).model()) == spec_check_prompt(old(self).model(), line@),
            final(self).session_id == old(self).session_id,
            final(self).wf() == old(self).wf(),
    {
        let clean = re_strip(ansi_code_pattern(), line);
        if match_shell(self.shell_type, clean.as_str()) {
            self.parse_prompt_info(clean.as_str());
            return true;
        }
        let order = shells_in_order();
        let n = order.len();
        let mut i: usize = 0;
        while i < n
            invariant
                0 <= i <= n,
                n == order@.len(),
                order@ == shell_order(),
                clean@ == regex_stripped(ansi_code_pattern_spec(), line@),
                *self == *old(self),
                !any_match(old(self).model().shell, clean@),
                fallback_shell(clean@, old(self).model().shell, 0) == fallback_shell(
                    clean@,
                    old(self).model().shell,
                    i as int,
                ),
            decreases n - i,
        {
            let s = order[i];
            if s != self.shell_type && match_shell(s, clean.as_str()) {
                self.shell_type = s;
                self.parse_prompt_info(clean.as_str());
                return true;
            }
            i = i + 1;
        }
        false
    }

    /// Whether a line looks like a command being executed.
    fn looks_like_command(&self, line: &[char]) -> (r: bool)
        ensures
            r == spec_looks_like_command(self.model().shell, line@),
    {
        let clean = trim_slice(line);
        let cn = clean.len();
        if cn == 0 {
            return false;
        }
        if clean[0] == '#' {
            return false;
        }
        if cn >= 2 && clean[0] == '/' && clean[1] == '/' {
            return false;
        }
        if clean[0] == '>' {
            return false;
        }
        if matches!(self.shell_type, ShellType::PowerShell) {
            let w = first_token_slice(clean.as_slice());
            if contains_char(w.as_slice(), '-') {
                return true;
            }
            let mut low: Vec<char> = Vec::new();
            let wn = w.len();
            let mut i: usize = 0;
            while i < wn
                invariant
                    0 <= i <= wn,
                    wn == w@.len(),
                    low@ =~= lower_ascii(w@).take(i as int),
                decreases wn - i,
            {
                low.push(to_lower_char(w[i]));
                proof {
                    assert(low@ =~= lower_ascii(w@).take(i + 1));
                }
                i = i + 1;
            }
            proof {
                assert(low@ =~= lower_ascii(w@));
            }
            let ls = chars_to_string(&low);
            let l = ls.as_str();
            str_eq(l, "cd") || str_eq(l, "ls") || str_eq(l, "dir") || str_eq(l, "pwd") || str_eq(
                l,
                "echo",
            ) || str_eq(l, "cat") || str_eq(l, "type") || str_eq(l, "mkdir") || str_eq(l, "rmdir")
                || str_eq(l, "del") || str_eq(l, "copy") || str_eq(l, "move")
        } else {
            true
        }
    }

    /// Append one completed command, evicting the oldest once full.
    fn add_to_history(&mut self, command: Command)
        requires
            old(self).wf(),
        ensures
            final(self).wf(),
            final(self).model() == (HooksModel {
                history: spec_add_history(
                    old(self).model().history,
                    command@,
                    old(self).model().max,
                ),
                ..old(self).model()
            }),
            final(self).session_id == old(self).session_id,
    {
        let ghost before = self.command_history@;
        if self.command_history.len() >= self.max_history_size {
            self.command_history.remove(0);
            proof {
                assert(cmd_views(self.command_history@) =~= cmd_views(before).drop_first());
            }
        }
        let ghost mid = self.command_history@;
        self.command_history.push(command);
        proof {
            lemma_cmd_views_push(mid, command);
            assert(cmd_views(self.command_history@) =~= spec_add_history(
                cmd_views(before),
                command@,
                old(self).model().max,
            ));
        }
    }

    /// Process one complete, carriage-return-trimmed output line with the
    /// timestamp and identifier drawn for it.
    fn process_line(&mut self, line: &Vec<char>, now: u64, id: String)
        requires
            old(self).wf(),
        ensures
            final(self).wf(),
            final(self).model() == spec_process_line(old(self).model(), line@, now, id@),
            final(self).session_id == old(self).session_id,
    {
        if !any_non_space(line.as_slice()) {
            return;
        }
        let line_s = chars_to_string(line);
        let matched = self.check_for_prompt(line_s.as_str());
        if matched {
            let taken = self.current_command.take();
            match taken {
                Some(mut cmd) => {
                    let elapsed = if now >= cmd.timestamp {
                        now - cmd.timestamp
                    } else {
                        0
                    };
                    cmd.duration_ms = Some(elapsed);
                    self.add_to_history(cmd);
                },
                None => (),
            }
            return;
        }
        let starts_space = line.len() > 0 && line[0] == ' ';
        if self.current_prompt.is_some() && !starts_space && self.looks_like_command(
            line.as_slice(),
        ) {
            self.current_command = Some(Command {
                id,
                text: line_s,
                timestamp: now,
                working_dir: self.working_dir.clone(),
                exit_code: None,
                duration_ms: None,
                shell_type: self.shell_type,
            });
        }
    }

    /// Feed one raw chunk: buffer it, process every complete line, and
    /// check a non-blank pending rest for a prompt. The timestamps and
    /// identifiers each line draws come from the clock and the identifier
    /// generator, so the contract holds for some drawing of them.
    pub fn process_output(&mut self, data: &str)
        requires
            old(self).wf(),
        ensures
            final(self).wf(),
            final(self).sid() == old(self).sid(),
            exists|meta: Seq<(u64, Seq<char>)>, fin: u64|
                final(self).model() == spec_process_output(old(self).model(), data@, meta, fin),
    {
        let ghost m0 = self.model();
        let mut cs = str_chars(data);
        self.output_buffer.append(&mut cs);
        let ghost m1 = HooksModel { buffer: m0.buffer + data@, ..m0 };
        proof {
            assert(self.model() == m1);
        }
        let ghost mut used: Seq<(u64, Seq<char>)> = Seq::empty();
        proof {
            assert(spec_drain(m1, used) == self.model()) by {
                crate::text::lemma_find_char_from(m1.buffer, '\n', 0);
                match find_char_from(m1.buffer, '\n', 0) {
                    None => {},
                    Some(_) => {},
                }
            }
        }
        loop
            invariant
                self.wf(),
                self.session_id == old(self).session_id,
                spec_drain(m1, used) == self.model(),
            ensures
                self.wf(),
                self.session_id == old(self).session_id,
                spec_drain(m1, used) == self.model(),
                find_char_from(self.model().buffer, '\n', 0) is None,
            decreases self.output_buffer@.len(),
        {
            let found = find_char(self.output_buffer.as_slice(), '\n', 0);
            match found {
                None => {
                    break ;
                },
                Some(p) => {
                    let bn = self.output_buffer.len();
                    proof {
                        crate::text::lemma_find_char_from(self.output_buffer@, '\n', 0);
                        assert(p < bn);
                    }
                    let ghost mj = self.model();
                    let raw = sub_chars(self.output_buffer.as_slice(), 0, p);
                    let line = trim_end_char_slice(raw.as_slice(), '\r');
                    let rest = sub_chars(self.output_buffer.as_slice(), p + 1, bn);
                    self.output_buffer = rest;
                    proof {
                        assert(self.model().buffer =~= mj.buffer.skip(p + 1));
                        assert(line@ == trim_end_char(mj.buffer.take(p as int), '\r'));
                    }
                    let now = now_ms();
                    let id = new_id();
                    let ghost idv = id@;
                    self.process_line(&line, now, id);
                    proof {
                        lemma_drain_snoc(m1, used, (now, idv));
                        used = used.push((now, idv));
                    }
                },
            }
        }
        if any_non_space(self.output_buffer.as_slice()) {
            let pending = chars_to_string(&self.output_buffer);
            let matched = self.check_for_prompt(pending.as_str());
            if matched {
                self.output_buffer.clear();
                let fin = now_ms();
                let taken = self.current_command.take();
                match taken {
                    Some(mut cmd) => {
                        let elapsed = if fin >= cmd.timestamp {
                            fin - cmd.timestamp
                        } else {
                            0
                        };
                        cmd.duration_ms = Some(elapsed);
                        self.add_to_history(cmd);
                    },
                    None => (),
                }
                proof {
                    assert(self.model() == spec_process_output(m0, data@, used, fin));
                }
                return ;
            }
        }
        proof {
            assert(self.model() == spec_process_output(m0, data@, used, 0));
        }
    }

    /// The newest history entries, newest first; the limit defaults to one
    /// hundred.
    pub fn get_command_history(&self, limit: Option<usize>) -> (r: Vec<Command>)
        ensures
            cmd_views(r@) == rev_take(
                self.model().history,
                self.model().history.len() as int,
                match limit {
                    Some(l) => l as int,
                    None => 100,
                },
            ),
    {
        let budget = match limit {
            Some(l) => l,
            None => 100,
        };
        self.newest_first(budget)
    }

    /// The newest `limit` history entries, newest first.
    pub fn get_recent_commands(&self, limit: usize) -> (r: Vec<Command>)
        ensures
            cmd_views(r@) == rev_take(
                self.model().history,
                self.model().history.len() as int,
                limit as int,
            ),
    {
        self.newest_first(limit)
    }

    /// The newest `budget` history entries, newest first.
    fn newest_first(&self, budget: usize) -> (r: Vec<Command>)
        ensures
            cmd_views(r@) == rev_take(
                self.model().history,
                self.model().history.len() as int,
                budget as int,
            ),
    {
        let ghost hist = self.model().history;
        let n = self.command_history.len();
        let mut out: Vec<Command> = Vec::new();
        let mut i: usize = n;
        let mut left = budget;
        proof {
            assert(cmd_views(out@) =~= Seq::<CommandModel>::empty());
        }
        while i > 0 && left > 0
            invariant
                0 <= i <= n,
                n == self.command_history@.len(),
                hist == self.model().history,
                hist.len() == n,
                left == budget - (n - i),
                left <= budget,
                rev_take(hist, n as int, budget as int) =~= cmd_views(out@) + rev_take(
                    hist,
                    i as int,
                    left as int,
                ),
            decreases i,
        {
            let ghost prevout = out@;
            let c = copy_command(&self.command_history[i - 1]);
            out.push(c);
            proof {
                lemma_cmd_views_push(prevout, c);
                assert(rev_take(hist, i as int, left as int) == seq![hist[i - 1]] + rev_take(
                    hist,
                    i - 1,
                    left - 1,
                ));
                assert(cmd_views(prevout) + (seq![hist[i - 1]] + rev_take(hist, i - 1, left - 1))
                    =~= cmd_views(out@) + rev_take(hist, i - 1, left - 1));
            }
            i = i - 1;
            left = left - 1;
        }
        proof {
            assert(rev_take(hist, i as int, left as int) =~= Seq::<CommandModel>::empty());
            assert(cmd_views(out@) + rev_take(hist, i as int, left as int) =~= cmd_views(out@));
        }
        out
    }

    /// The newest history entries whose text holds the query, newest first,
    /// at most fifty.
    pub fn search_history(&self, query: &str) -> (r: Vec<Command>)
        ensures
            cmd_views(r@) == rev_matches(
                self.model().history,
                query@,
                self.model().history.len() as int,
                50,
            ),
    {
        let ghost hist = self.model().history;
        let q = str_chars(query);
        let n = self.command_history.len();
        let mut out: Vec<Command> = Vec::new();
        let mut i: usize = n;
        let mut left: usize = 50;
        proof {
            assert(cmd_views(out@) =~= Seq::<CommandModel>::empty());
        }
        while i > 0 && left > 0
            invariant
                0 <= i <= n,
                n == self.command_history@.len(),
                hist == self.model().history,
                hist.len() == n,
                q@ == query@,
                left <= 50,
                rev_matches(hist, query@, n as int, 50) =~= cmd_views(out@) + rev_matches(
                    hist,
                    query@,
                    i as int,
                    left as int,
                ),
            decreases i,
        {
            let c = &self.command_history[i - 1];
            let hit = if q.len() == 0 {
                true
            } else {
                let t = str_chars(c.text.as_str());
                match crate::search::first_occurrence_hit(t.as_slice(), q.as_slice()) {
                    Some(_) => true,
                    None => false,
                }
            };
            proof {
                assert(hit == text_contains(hist[i - 1].text, query@));
            }
            if hit {
                let ghost prevout = out@;
                let cc = copy_command(c);
                out.push(cc);
                proof {
                    lemma_cmd_views_push(prevout, cc);
                    assert(cmd_views(prevout) + (seq![hist[i - 1]] + rev_matches(
                        hist,
                        query@,
                        i - 1,
                        left - 1,
                    )) =~= cmd_views(out@) + rev_matches(hist, query@, i - 1, left - 1));
                }
                left = left - 1;
            }
            i = i - 1;
        }
        proof {
            assert(rev_matches(hist, query@, i as int, left as int) =~= Seq::<
                CommandModel,
            >::empty());
            assert(cmd_views(out@) + rev_matches(hist, query@, i as int, left as int)
                =~= cmd_views(out@));
        }
        out
    }

    /// The last recognized prompt, if any.
    pub fn get_current_prompt(&self) -> (r: Option<&PromptInfo>)
        ensures
            match r {
                Some(p) => self.model().prompt == Some(p@),
                None => self.model().prompt is None,
            },
    {
        match &self.current_prompt {
            Some(p) => Some(p),
            None => None,
        }
    }

    /// Whether the session sits at a prompt: one was recognized and no
    /// command is in flight.
    pub fn is_at_prompt(&self) -> (r: bool)
        ensures
            r == (self.model().prompt is Some && self.model().current is None),
    {
        self.current_prompt.is_some() && self.current_command.is_none()
    }

    /// The tracked working directory.
    pub fn get_working_directory(&self) -> (r: &str)
        ensures
            r@ == self.model().wd,
    {
        self.working_dir.as_str()
    }

    /// Overwrite the tracked working directory.
    pub fn set_working_directory(&mut self, working_dir: String)
        ensures
            final(self).model() == (HooksModel { wd: working_dir@, ..old(self).model() }),
            final(self).wf() == old(self).wf(),
            final(self).sid() == old(self).sid(),
    {
        self.working_dir = working_dir;
    }

    /// Ranked completion suggestions for a partial command: commands from
    /// the history that start with the prefix, aggregated by text with
    /// their use counts and last use, joined by the shell's well-known
    /// commands when the prefix is empty or the history is; ranked by
    /// frequency then recency, at most ten.
    /// Ranked completion suggestions for a partial command. Each suggestion
    /// is owed either by the history — its command completes the prefix,
    /// its frequency counts exactly the matching history entries, its last
    /// use is their latest timestamp — or, when the prefix or the history
    /// is empty, by the shell's built-in command table. Every owed command
    /// is covered: it appears, or the ten returned suggestions all rank at
    /// least it. Results come best-ranked first, frequency before recency.
    pub fn get_command_suggestions(&self, partial_command: &str) -> (r: Vec<CommandSuggestion>)
        requires
            self.wf(),
        ensures
            r@.len() <= 10,
            forall|a: int, b: int|
                0 <= a < b < r@.len() ==> sugg_ge(sugg_key(r@[a]), sugg_key(r@[b])),
            forall|k: int|
                0 <= k < r@.len() ==> suggestion_from_history(
                    self.model().history,
                    partial_command@,
                    #[trigger] r@[k],
                ) || (commons_join(self.model().history, partial_command@)
                    && suggestion_from_commons(
                    self.model().history,
                    self.model().shell,
                    partial_command@,
                    r@[k],
                )),
            forall|j: int|
                0 <= j < self.model().history.len() && is_prefix(
                    partial_command@,
                    (#[trigger] self.model().history[j]).text,
                ) ==> covered(r@, self.model().history, self.model().history[j].text),
            commons_join(self.model().history, partial_command@) ==> forall|t: int|
                0 <= t < common_commands(self.model().shell).len() && is_prefix(
                    partial_command@,
                    #[trigger] common_commands(self.model().shell)[t],
                ) ==> covered(r@, self.model().history, common_commands(self.model().shell)[t]),
    {
        let ghost hist = self.model().history;
        let partial = str_chars(partial_command);
        let mut agg: Vec<CommandSuggestion> = Vec::new();
        let n = self.command_history.len();
        let mut i: usize = 0;
        while i < n
            invariant
                0 <= i <= n,
                n == self.command_history@.len(),
                hist == self.model().history,
                hist.len() == n,
                n <= 1000,
                partial@ == partial_command@,
                distinct_commands(agg@),
                agg@.len() <= i,
                forall|k: int|
                    0 <= k < agg@.len() ==> is_prefix(partial_command@, (
                    #[trigger] agg@[k]).command@) && history_count(hist, agg@[k].command@, i as int)
                        >= 1 && agg@[k].frequency == history_count(hist, agg@[k].command@, i as int)
                        && agg@[k].last_used == history_latest(hist, agg@[k].command@, i as int),
                forall|j: int|
                    0 <= j < i && is_prefix(partial_command@, (#[trigger] hist[j]).text)
                        ==> suggested(agg@, hist[j].text),
            decreases n - i,
        {
            let cmd = &self.command_history[i];
            let ghost text_v = hist[i as int].text;
            let text = str_chars(cmd.text.as_str());
            if starts_with_chars(text.as_slice(), partial.as_slice()) {
                let an = agg.len();
                let mut idx: usize = an;
                let mut j: usize = 0;
                while j < an
                    invariant
                        0 <= j <= an,
                        an == agg@.len(),
                        idx <= an,
                        text_v == cmd.text@,
                        idx == an ==> forall|k: int|
                            0 <= k < j ==> (#[trigger] agg@[k]).command@ != text_v,
                        idx < an ==> agg@[idx as int].command@ == text_v && j == an,
                    decreases an - j,
                {
                    if str_eq(agg[j].command.as_str(), cmd.text.as_str()) {
                        idx = j;
                        j = an;
                    } else {
                        j = j + 1;
                    }
                }
                if idx < an {
                    let entry = &agg[idx];
                    proof {
                        lemma_history_count_bound(hist, text_v, i as int);
                        assert(entry.frequency < u32::MAX);
                    }
                    let freq = if entry.frequency < u32::MAX {
                        entry.frequency + 1
                    } else {
                        entry.frequency
                    };
                    let last = if cmd.timestamp > entry.last_used {
                        cmd.timestamp
                    } else {
                        entry.last_used
                    };
                    let updated = CommandSuggestion {
                        command: entry.command.clone(),
                        description: entry.description.clone(),
                        frequency: freq,
                        last_used: last,
                    };
                    let ghost aggb = agg@;
                    agg.set(idx, updated);
                    proof {
                        assert forall|k: int|
                            0 <= k < agg@.len() implies is_prefix(
                            partial_command@,
                            (#[trigger] agg@[k]).command@,
                        ) && history_count(hist, agg@[k].command@, i + 1) >= 1 && agg@[k].frequency
                            == history_count(hist, agg@[k].command@, i + 1) && agg@[k].last_used
                            == history_latest(hist, agg@[k].command@, i + 1) by {
                            if k != idx {
                                assert(agg@[k] == aggb[k]);
                                assert(aggb[k].command@ != text_v);
                            } else {
                                assert(agg@[k].command@ == aggb[k].command@);
                            }
                        }
                        assert forall|a: int, b: int|
                            0 <= a < b < agg@.len() implies (#[trigger] agg@[a]).command@ != (
                            #[trigger] agg@[b]).command@ by {
                            assert(agg@[a].command@ == aggb[a].command@);
                            assert(agg@[b].command@ == aggb[b].command@);
                        }
                        assert forall|j2: int|
                            0 <= j2 < i + 1 && is_prefix(partial_command@, (
                            #[trigger] hist[j2]).text) implies suggested(agg@, hist[j2].text) by {
                            if j2 < i {
                                let w = choose|w: int|
                                    0 <= w < aggb.len() && (#[trigger] aggb[w]).command@
                                        == hist[j2].text;
                                assert(agg@[w].command@ == aggb[w].command@);
                            } else {
                                assert(agg@[idx as int].command@ == text_v);
                            }
                        }
                    }
                } else {
                    let desc = String::from_str("Previously used in ").concat(
                        cmd.working_dir.as_str(),
                    );
                    let fresh = CommandSuggestion {
                        command: cmd.text.clone(),
                        description: desc,
                        frequency: 1,
                        last_used: cmd.timestamp,
                    };
                    let ghost aggb = agg@;
                    agg.push(fresh);
                    proof {
                        assert forall|j2: int|
                            0 <= j2 < i && (#[trigger] hist[j2]).text == text_v implies false by {
                            assert(is_prefix(partial_command@, hist[j2].text));
                            assert(suggested(aggb, hist[j2].text));
                            let w = choose|w: int|
                                0 <= w < aggb.len() && (#[trigger] aggb[w]).command@
                                    == hist[j2].text;
                        }
                        lemma_history_absent(hist, text_v, i as int);
                        assert forall|k: int|
                            0 <= k < agg@.len() implies is_prefix(
                            partial_command@,
                            (#[trigger] agg@[k]).command@,
                        ) && history_count(hist, agg@[k].command@, i + 1) >= 1 && agg@[k].frequency
                            == history_count(hist, agg@[k].command@, i + 1) && agg@[k].last_used
                            == history_latest(hist, agg@[k].command@, i + 1) by {
                            if k < aggb.len() {
                                assert(agg@[k] == aggb[k]);
                                assert(aggb[k].command@ != text_v);
                            } else {
                                assert(agg@[k] == fresh);
                                assert(fresh.command@ == text_v);
                            }
                        }
                        assert forall|a: int, b: int|
                            0 <= a < b < agg@.len() implies (#[trigger] agg@[a]).command@ != (
                            #[trigger] agg@[b]).command@ by {
                            if b < aggb.len() {
                                assert(agg@[a] == aggb[a]);
                                assert(agg@[b] == aggb[b]);
                            } else {
                                assert(agg@[a] == aggb[a]);
                                assert(agg@[b].command@ == text_v);
                            }
                        }
                        assert forall|j2: int|
                            0 <= j2 < i + 1 && is_prefix(partial_command@, (
                            #[trigger] hist[j2]).text) implies suggested(agg@, hist[j2].text) by {
                            if j2 < i {
                                let w = choose|w: int|
                                    0 <= w < aggb.len() && (#[trigger] aggb[w]).command@
                                        == hist[j2].text;
                                assert(agg@[w].command@ == aggb[w].command@);
                            } else {
                                assert(agg@[aggb.len() as int].command@ == text_v);
                            }
                        }
                    }
                }
            } else {
                proof {
                    assert(!is_prefix(partial_command@, text_v));
                    assert forall|k: int|
                        0 <= k < agg@.len() implies history_count(
                        hist,
                        (#[trigger] agg@[k]).command@,
                        i + 1,
                    ) == history_count(hist, agg@[k].command@, i as int) && history_latest(
                        hist,
                        agg@[k].command@,
                        i + 1,
                    ) == history_latest(hist, agg@[k].command@, i as int) by {
                        assert(agg@[k].command@ != text_v);
                    }
                }
            }
            i = i + 1;
        }
        let commons = partial.len() == 0 || self.command_history.len() == 0;
        if commons {
            self.add_common_command_suggestions(partial.as_slice(), &mut agg);
        }
        let ghost aggv = agg@;
        proof {
            assert(commons == commons_join(hist, partial_command@));
            if !commons {
                assert forall|k: int|
                    0 <= k < aggv.len() implies suggestion_from_history(
                    hist,
                    partial_command@,
                    #[trigger] aggv[k],
                ) by {}
            }
            assert forall|k: int|
                0 <= k < aggv.len() implies (suggestion_from_history(
                hist,
                partial_command@,
                #[trigger] aggv[k],
            ) || (commons_join(hist, partial_command@) && suggestion_from_commons(
                hist,
                self.model().shell,
                partial_command@,
                aggv[k],
            ))) by {}
        }
        let sorted = sort_suggestions(agg);
        proof {
            assert forall|q: int|
                0 <= q < sorted@.len() implies (suggestion_from_history(
                hist,
                partial_command@,
                #[trigger] sorted@[q],
            ) || (commons_join(hist, partial_command@) && suggestion_from_commons(
                hist,
                self.model().shell,
                partial_command@,
                sorted@[q],
            ))) by {
                assert(aggv.contains(sorted@[q]));
                let jx = choose|jx: int| 0 <= jx < aggv.len() && aggv[jx] == sorted@[q];
            }
        }
        let mut out: Vec<CommandSuggestion> = Vec::new();
        let sn = sorted.len();
        let mut k: usize = 0;
        while k < sn && out.len() < 10
            invariant
                0 <= k <= sn,
                sn == sorted@.len(),
                out@ =~= sorted@.take(k as int),
                out@.len() == k,
                k <= 10,
                forall|a: int, b: int|
                    0 <= a < b < sorted@.len() ==> sugg_ge(
                        sugg_key(sorted@[a]),
                        sugg_key(sorted@[b]),
                    ),
            decreases sn - k,
        {
            let s = &sorted[k];
            out.push(CommandSuggestion {
                command: s.command.clone(),
                description: s.description.clone(),
                frequency: s.frequency,
                last_used: s.last_used,
            });
            proof {
                assert(out@.last() == sorted@[k as int]);
                assert(out@ =~= sorted@.take(k + 1));
            }
            k = k + 1;
        }
        proof {
            let k_end = out@.len() as int;
            assert(k_end == if sn as int <= 10 { sn as int } else { 10int });
            assert forall|text: Seq<char>| suggested(aggv, text) implies covered(
                out@,
                hist,
                text,
            ) by {
                let ka = choose|ka: int|
                    0 <= ka < aggv.len() && (#[trigger] aggv[ka]).command@ == text;
                assert(sorted@.contains(aggv[ka]));
                let js = choose|js: int| 0 <= js < sorted@.len() && sorted@[js] == aggv[ka];
                if js < k_end {
                    assert(out@[js] == sorted@[js]);
                    assert(suggested(out@, text));
                } else {
                    assert(k_end == 10);
                    assert(sugg_key(aggv[ka]) == aggregate_key(hist, text));
                    assert forall|q: int|
                        0 <= q < out@.len() implies sugg_ge(
                        sugg_key(#[trigger] out@[q]),
                        aggregate_key(hist, text),
                    ) by {
                        assert(out@[q] == sorted@[q]);
                        assert(sugg_ge(sugg_key(sorted@[q]), sugg_key(sorted@[js])));
                    }
                }
            }
            assert forall|j: int|
                0 <= j < hist.len() && is_prefix(partial_command@, (#[trigger] hist[j]).text)
                    implies covered(out@, hist, hist[j].text) by {
                assert(suggested(aggv, hist[j].text));
            }
            if commons {
                assert forall|t: int|
                    0 <= t < common_commands(self.model().shell).len() && is_prefix(
                    partial_command@,
                    #[trigger] common_commands(self.model().shell)[t],
                ) implies covered(out@, hist, common_commands(self.model().shell)[t]) by {
                    assert(suggested(aggv, common_commands(self.model().shell)[t]));
                }
            }
        }
        out
    }

    /// Add the shell's well-known commands that complete the prefix and are
    /// not yet suggested, each counted once and never used.
    fn add_common_command_suggestions(&self, partial: &[char], agg: &mut Vec<CommandSuggestion>)
        requires
            distinct_commands(old(agg)@),
            forall|k: int|
                0 <= k < old(agg)@.len() ==> suggestion_from_history(
                    self.model().history,
                    partial@,
                    #[trigger] old(agg)@[k],
                ),
            forall|j: int|
                0 <= j < self.model().history.len() && is_prefix(
                    partial@,
                    (#[trigger] self.model().history[j]).text,
                ) ==> suggested(old(agg)@, self.model().history[j].text),
        ensures
            distinct_commands(final(agg)@),
            final(agg)@.len() >= old(agg)@.len(),
            forall|k: int| 0 <= k < old(agg)@.len() ==> final(agg)@[k] == old(agg)@[k],
            forall|k: int|
                0 <= k < final(agg)@.len() ==> suggestion_from_history(
                    self.model().history,
                    partial@,
                    #[trigger] final(agg)@[k],
                ) || suggestion_from_commons(
                    self.model().history,
                    self.model().shell,
                    partial@,
                    final(agg)@[k],
                ),
            forall|j: int|
                0 <= j < self.model().history.len() && is_prefix(
                    partial@,
                    (#[trigger] self.model().history[j]).text,
                ) ==> suggested(final(agg)@, self.model().history[j].text),
            forall|t: int|
                0 <= t < common_commands(self.model().shell).len() && is_prefix(
                    partial@,
                    #[trigger] common_commands(self.model().shell)[t],
                ) ==> suggested(final(agg)@, common_commands(self.model().shell)[t]),
    {
        let ghost hist = self.model().history;
        let ghost shell = self.model().shell;
        let ghost agg0 = old(agg)@;
        let table = common_table(self.shell_type);
        let tn = table.len();
        let mut t: usize = 0;
        while t < tn
            invariant
                0 <= t <= tn,
                tn == table@.len(),
                tn == common_commands(shell).len(),
                hist == self.model().history,
                shell == self.model().shell,
                forall|t2: int|
                    0 <= t2 < tn ==> (#[trigger] table@[t2]).0@ == common_commands(shell)[t2],
                distinct_commands(agg@),
                agg@.len() >= agg0.len(),
                forall|k: int| 0 <= k < agg0.len() ==> agg@[k] == agg0[k],
                forall|k: int|
                    0 <= k < agg@.len() ==> suggestion_from_history(hist, partial@, (
                    #[trigger] agg@[k])) || suggestion_from_commons(
                        hist,
                        shell,
                        partial@,
                        agg@[k],
                    ),
                forall|j: int|
                    0 <= j < hist.len() && is_prefix(partial@, (#[trigger] hist[j]).text)
                        ==> suggested(agg@, hist[j].text),
                forall|t2: int|
                    0 <= t2 < t && is_prefix(partial@, #[trigger] common_commands(shell)[t2])
                        ==> suggested(agg@, common_commands(shell)[t2]),
            decreases tn - t,
        {
            let entry = &table[t];
            let ghost cmd_v = common_commands(shell)[t as int];
            let cmdv = str_chars(entry.0.as_str());
            if starts_with_chars(cmdv.as_slice(), partial) {
                let an = agg.len();
                let mut idx: usize = an;
                let mut j: usize = 0;
                while j < an
                    invariant
                        0 <= j <= an,
                        an == agg@.len(),
                        idx <= an,
                        cmd_v == entry.0@,
                        idx == an ==> forall|k: int|
                            0 <= k < j ==> (#[trigger] agg@[k]).command@ != cmd_v,
                        idx < an ==> agg@[idx as int].command@ == cmd_v && j == an,
                    decreases an - j,
                {
                    if str_eq(agg[j].command.as_str(), entry.0.as_str()) {
                        idx = j;
                        j = an;
                    } else {
                        j = j + 1;
                    }
                }
                if idx == an {
                    proof {
                        assert forall|j2: int|
                            0 <= j2 < hist.len() && (#[trigger] hist[j2]).text == cmd_v
                                implies false by {
                            assert(is_prefix(partial@, hist[j2].text));
                            assert(suggested(agg@, hist[j2].text));
                            let w = choose|w: int|
                                0 <= w < agg@.len() && (#[trigger] agg@[w]).command@
                                    == hist[j2].text;
                        }
                        lemma_history_absent(hist, cmd_v, hist.len() as int);
                    }
                    let fresh = CommandSuggestion {
                        command: entry.0.clone(),
                        description: entry.1.clone(),
                        frequency: 1,
                        last_used: 0,
                    };
                    let ghost aggb = agg@;
                    agg.push(fresh);
                    proof {
                        assert(common_commands(shell).contains(cmd_v)) by {
                            assert(common_commands(shell)[t as int] == cmd_v);
                        }
                        assert forall|a: int, b: int|
                            0 <= a < b < agg@.len() implies (#[trigger] agg@[a]).command@ != (
                            #[trigger] agg@[b]).command@ by {
                            if b < aggb.len() {
                                assert(agg@[a] == aggb[a]);
                                assert(agg@[b] == aggb[b]);
                            } else {
                                assert(agg@[a] == aggb[a]);
                                assert(agg@[b].command@ == cmd_v);
                            }
                        }
                        assert forall|j2: int|
                            0 <= j2 < hist.len() && is_prefix(partial@, (#[trigger] hist[j2]).text)
                                implies suggested(agg@, hist[j2].text) by {
                            let w = choose|w: int|
                                0 <= w < aggb.len() && (#[trigger] aggb[w]).command@
                                    == hist[j2].text;
                            assert(agg@[w] == aggb[w]);
                        }
                        assert forall|t2: int|
                            0 <= t2 < t + 1 && is_prefix(
                            partial@,
                            #[trigger] common_commands(shell)[t2],
                        ) implies suggested(agg@, common_commands(shell)[t2]) by {
                            if t2 < t {
                                let w = choose|w: int|
                                    0 <= w < aggb.len() && (#[trigger] aggb[w]).command@
                                        == common_commands(shell)[t2];
                                assert(agg@[w] == aggb[w]);
                            } else {
                                assert(agg@[aggb.len() as int].command@ == cmd_v);
                            }
                        }
                    }
                } else {
                    proof {
                        assert(suggested(agg@, cmd_v)) by {
                            assert(agg@[idx as int].command@ == cmd_v);
                        }
                    }
                }
            }
            t = t + 1;
        }
    }

    /// Command texts that complete a partial command, best-ranked first.
    pub fn complete_command(&self, partial: &str) -> (r: Vec<String>)
        requires
            self.wf(),
        ensures
            r@.len() <= 10,
            forall|k: int| 0 <= k < r@.len() ==> is_prefix(partial@, (#[trigger] r@[k])@),
            forall|j: int|
                0 <= j < self.model().history.len() && is_prefix(
                    partial@,
                    (#[trigger] self.model().history[j]).text,
                ) ==> (exists|k: int|
                    0 <= k < r@.len() && (#[trigger] r@[k])@ == self.model().history[j].text)
                    || r@.len() == 10,
    {
        let ghost hist = self.model().history;
        let suggestions = self.get_command_suggestions(partial);
        let n = suggestions.len();
        let mut out: Vec<String> = Vec::new();
        let mut i: usize = 0;
        while i < n
            invariant
                0 <= i <= n,
                n == suggestions@.len(),
                n <= 10,
                out@.len() == i,
                forall|k: int|
                    0 <= k < suggestions@.len() ==> is_prefix(partial@, (
                    #[trigger] suggestions@[k]).command@),
                forall|k: int| 0 <= k < i ==> (#[trigger] out@[k])@ == suggestions@[k].command@,
            decreases n - i,
        {
            out.push(suggestions[i].command.clone());
            proof {
                assert(out@.last()@ == suggestions@[i as int].command@);
            }
            i = i + 1;
        }
        proof {
            assert forall|j: int|
                0 <= j < hist.len() && is_prefix(partial@, (#[trigger] hist[j]).text) implies (
            exists|k: int| 0 <= k < out@.len() && (#[trigger] out@[k])@ == hist[j].text)
                || out@.len() == 10 by {
                assert(covered(suggestions@, hist, hist[j].text));
                if suggested(suggestions@, hist[j].text) {
                    let w = choose|w: int|
                        0 <= w < suggestions@.len() && (#[trigger] suggestions@[w]).command@
                            == hist[j].text;
                    assert(out@[w]@ == hist[j].text);
                }
            }
        }
        out
    }

    /// Completions for the word at the cursor: command-name completion
    /// while the cursor sits in the first word, and (placeholder)
    /// filesystem completion once a later word begins. The cursor position
    /// is a character offset into the line.
    pub fn handle_tab_completion(&self, current_line: &str, cursor_pos: usize) -> (r: Vec<String>)
        requires
            self.wf(),
            cursor_pos <= current_line@.len(),
        ensures
            r@.len() <= 10,
            ({
                let pre = trim_spaces(current_line@.take(cursor_pos as int));
                let w = first_token(pre);
                &&& (pre.len() > 0 && has_non_space(pre.skip(w.len() as int)) ==> r@.len() == 0)
                &&& (pre.len() > 0 && !has_non_space(pre.skip(w.len() as int)) ==> (forall|k: int|
                    0 <= k < r@.len() ==> is_prefix(w, (#[trigger] r@[k])@)) && (forall|j: int|
                    0 <= j < self.model().history.len() && is_prefix(
                        w,
                        (#[trigger] self.model().history[j]).text,
                    ) ==> (exists|k: int|
                        0 <= k < r@.len() && (#[trigger] r@[k])@
                            == self.model().history[j].text) || r@.len() == 10))
            }),
    {
        let cs = str_chars(current_line);
        let prefix = sub_chars(cs.as_slice(), 0, cursor_pos);
        let trimmed = trim_slice(prefix.as_slice());
        if trimmed.len() == 0 {
            return self.complete_command("");
        }
        let word = first_token_slice(trimmed.as_slice());
        let wn = word.len();
        proof {
            crate::text::lemma_token_end(trimmed@, 0);
        }
        let rest = sub_chars(trimmed.as_slice(), wn, trimmed.len());
        proof {
            assert(rest@ =~= trimmed@.skip(wn as int));
        }
        if any_non_space(rest.as_slice()) {
            self.complete_filesystem(word.as_slice())
        } else {
            let w = chars_to_string(&word);
            self.complete_command(w.as_str())
        }
    }

    /// Filesystem completion is left to richer integrations; nothing is
    /// suggested here.
    fn complete_filesystem(&self, _partial: &[char]) -> (r: Vec<String>)
        ensures
            r@.len() == 0,
    {
        Vec::new()
    }

    /// The shell family a shell program path denotes.
    pub fn detect_shell_type(shell_path: &str) -> (r: ShellType)
        ensures
            r == spec_shell_of_name(
                lower_ascii(spec_basename(shell_path@, shell_path@.len() as int)),
            ),
    {
        let cs = str_chars(shell_path);
        let n = cs.len();
        let mut i: usize = n;
        while i > 0 && cs[i - 1] != '/' && cs[i - 1] != '\\'
            invariant
                0 <= i <= n,
                n == cs@.len(),
                cs@ == shell_path@,
                spec_basename(shell_path@, n as int) == spec_basename(shell_path@, i as int),
            decreases i,
        {
            i = i - 1;
        }
        let base = sub_chars(cs.as_slice(), i, n);
        proof {
            if i > 0 {
                assert(spec_basename(shell_path@, i as int) == shell_path@.skip(i as int));
            } else {
                assert(spec_basename(shell_path@, 0) == shell_path@);
                assert(shell_path@.skip(0) =~= shell_path@);
            }
            assert(base@ =~= shell_path@.skip(i as int));
        }
        let mut low: Vec<char> = Vec::new();
        let bn = base.len();
        let mut k: usize = 0;
        while k < bn
            invariant
                0 <= k <= bn,
                bn == base@.len(),
                low@ =~= lower_ascii(base@).take(k as int),
            decreases bn - k,
        {
            low.push(to_lower_char(base[k]));
            proof {
                assert(low@ =~= lower_ascii(base@).take(k + 1));
            }
            k = k + 1;
        }
        proof {
            assert(low@ =~= lower_ascii(base@));
        }
        let ls = chars_to_string(&low);
        let l = ls.as_str();
        if str_eq(l, "powershell.exe") || str_eq(l, "pwsh.exe") || str_eq(l, "powershell")
            || str_eq(l, "pwsh") {
            ShellType::PowerShell
        } else if str_eq(l, "bash.exe") || str_eq(l, "bash") {
            ShellType::Bash
        } else if str_eq(l, "zsh.exe") || str_eq(l, "zsh") {
            ShellType::Zsh
        } else if str_eq(l, "fish.exe") || str_eq(l, "fish") {
            ShellType::Fish
        } else if str_eq(l, "cmd.exe") || str_eq(l, "cmd") {
            ShellType::Cmd
        } else {
            ShellType::Unknown
        }
    }
}


/// A faithful copy of one prompt snapshot.
fn copy_prompt(p: &PromptInfo) -> (r: PromptInfo)
    ensures
        r@ == p@,
{
    PromptInfo {
        shell_type: p.shell_type,
        working_dir: p.working_dir.clone(),
        user: p.user.clone(),
        hostname: p.hostname.clone(),
        prompt_text: p.prompt_text.clone(),
    }
}

/// The per-session trackers, keyed by session id.
pub struct ShellHooksManager {
    hooks: Vec<(String, ShellHooks)>,
}

impl ShellHooksManager {
    /// The stored sessions: each id with its tracker state.
    pub closed spec fn entries(&self) -> Seq<(Seq<char>, HooksModel)> {
        self.hooks@.map_values(|e: (String, ShellHooks)| (e.0@, e.1.model()))
    }

    /// The session ids, in insertion order.
    pub closed spec fn keys(&self) -> Seq<Seq<char>> {
        self.hooks@.map_values(|e: (String, ShellHooks)| e.0@)
    }

    /// Every tracker is within bounds.
    pub closed spec fn wf(&self) -> bool {
        forall|i: int| 0 <= i < self.hooks@.len() ==> (#[trigger] self.hooks@[i]).1.wf()
    }

    /// An empty manager.
    pub fn new() -> (r: ShellHooksManager)
        ensures
            r.wf(),
            r.entries() == Seq::<(Seq<char>, HooksModel)>::empty(),
    {
        let r = ShellHooksManager { hooks: Vec::new() };
        proof {
            assert(r.entries() =~= Seq::<(Seq<char>, HooksModel)>::empty());
        }
        r
    }

    /// The position of a session, scanning for its first entry.
    fn find(&self, session_id: &str) -> (r: Option<usize>)
        ensures
            match r {
                Some(i) => find_key(self.entries(), session_id@) == Some(i as int) && (i as int)
                    < self.entries().len(),
                None => find_key(self.entries(), session_id@) is None,
            },
    {
        let n = self.hooks.len();
        let mut i: usize = 0;
        while i < n
            invariant
                0 <= i <= n,
                n == self.hooks@.len(),
                forall|j: int| 0 <= j < i ==> (#[trigger] self.entries()[j]).0 != session_id@,
            decreases n - i,
        {
            if str_eq(self.hooks[i].0.as_str(), session_id) {
                proof {
                    assert(self.entries()[i as int].0 == session_id@);
                    lemma_find_key_at(self.entries(), session_id@, i as int);
                }
                return Some(i);
            }
            proof {
                assert(self.entries()[i as int].0 == self.hooks@[i as int].0@);
            }
            i = i + 1;
        }
        proof {
            lemma_find_key_none(self.entries(), session_id@);
        }
        None
    }

    /// Register a fresh tracker for a session, its shell judged from the
    /// shell program path; an existing entry under the same id is replaced.
    pub fn create_session_hooks(&mut self, session_id: String, shell_path: &str, working_dir: String)
        requires
            old(self).wf(),
        ensures
            final(self).wf(),
            ({
                let fresh = HooksModel {
                    history: Seq::<CommandModel>::empty(),
                    current: None,
                    shell: spec_shell_of_name(
                        lower_ascii(spec_basename(shell_path@, shell_path@.len() as int)),
                    ),
                    prompt: None,
                    wd: working_dir@,
                    buffer: Seq::<char>::empty(),
                    max: 1000,
                };
                final(self).entries() == match find_key(old(self).entries(), session_id@) {
                    Some(i) => old(self).entries().update(i, (session_id@, fresh)),
                    None => old(self).entries().push((session_id@, fresh)),
                }
            }),
    {
        let shell_type = ShellHooks::detect_shell_type(shell_path);
        let key = session_id.clone();
        let fresh = ShellHooks::new(session_id, shell_type, working_dir);
        match self.find(key.as_str()) {
            Some(i) => {
                self.hooks.set(i, (key, fresh));
                proof {
                    assert(final(self).entries() =~= old(self).entries().update(
                        find_key(old(self).entries(), key@).unwrap(),
                        final(self).entries()[find_key(old(self).entries(), key@).unwrap()],
                    ));
                }
            },
            None => {
                self.hooks.push((key, fresh));
                proof {
                    assert(final(self).entries() =~= old(self).entries().push(
                        final(self).entries().last(),
                    ));
                }
            },
        }
    }

    /// Drop a session's tracker; unknown ids change nothing.
    pub fn remove_session(&mut self, session_id: &str)
        requires
            old(self).wf(),
        ensures
            final(self).wf(),
            final(self).entries() == match find_key(old(self).entries(), session_id@) {
                Some(i) => old(self).entries().remove(i),
                None => old(self).entries(),
            },
    {
        match self.find(session_id) {
            Some(i) => {
                self.hooks.remove(i);
                proof {
                    assert(final(self).entries() =~= old(self).entries().remove(
                        find_key(old(self).entries(), session_id@).unwrap(),
                    ));
                }
            },
            None => (),
        }
    }

    /// Feed one raw chunk into a session's tracker; unknown ids change
    /// nothing. The contract holds for some drawing of the timestamps and
    /// identifiers the lines consumed.
    pub fn process_output(&mut self, session_id: &str, data: &str)
        requires
            old(self).wf(),
        ensures
            final(self).wf(),
            match find_key(old(self).entries(), session_id@) {
                Some(i) => exists|meta: Seq<(u64, Seq<char>)>, fin: u64|
                    final(self).entries() == old(self).entries().update(
                        i,
                        (
                            old(self).entries()[i].0,
                            spec_process_output(old(self).entries()[i].1, data@, meta, fin),
                        ),
                    ),
                None => final(self).entries() == old(self).entries(),
            },
    {
        match self.find(session_id) {
            Some(i) => {
                proof {
                    lemma_find_key(old(self).entries(), session_id@);
                }
                let entry = &mut self.hooks[i];
                entry.1.process_output(data);
                proof {
                    let gi = find_key(old(self).entries(), session_id@).unwrap();
                    let (meta, fin) = choose|meta: Seq<(u64, Seq<char>)>, fin: u64|
                        self.hooks@[gi].1.model() == spec_process_output(
                            old(self).entries()[gi].1,
                            data@,
                            meta,
                            fin,
                        );
                    assert(self.entries() =~= old(self).entries().update(
                        gi,
                        (
                            old(self).entries()[gi].0,
                            spec_process_output(old(self).entries()[gi].1, data@, meta, fin),
                        ),
                    ));
                }
            },
            None => (),
        }
    }

    /// A session's newest history entries; `None` for an unknown id.
    pub fn get_command_history(&self, session_id: &str, limit: Option<usize>) -> (r: Option<
        Vec<Command>,
    >)
        ensures
            match find_key(self.entries(), session_id@) {
                Some(i) => r matches Some(v) && cmd_views(v@) == rev_take(
                    self.entries()[i].1.history,
                    self.entries()[i].1.history.len() as int,
                    match limit {
                        Some(l) => l as int,
                        None => 100,
                    },
                ),
                None => r is None,
            },
    {
        match self.find(session_id) {
            Some(i) => {
                proof {
                    lemma_find_key(self.entries(), session_id@);
                }
                Some(self.hooks[i].1.get_command_history(limit))
            },
            None => None,
        }
    }

    /// A session's ranked completion suggestions, with the same guarantees
    /// the per-session tracker gives; `None` for an unknown id.
    pub fn get_command_suggestions(&self, session_id: &str, partial_command: &str) -> (r: Option<
        Vec<CommandSuggestion>,
    >)
        requires
            self.wf(),
        ensures
            r is Some <==> find_key(self.entries(), session_id@) is Some,
            match find_key(self.entries(), session_id@) {
                Some(i) => r matches Some(v) && ({
                    let h = self.entries()[i].1;
                    &&& v@.len() <= 10
                    &&& forall|a: int, b: int|
                        0 <= a < b < v@.len() ==> sugg_ge(sugg_key(v@[a]), sugg_key(v@[b]))
                    &&& forall|k: int|
                        0 <= k < v@.len() ==> suggestion_from_history(
                            h.history,
                            partial_command@,
                            #[trigger] v@[k],
                        ) || (commons_join(h.history, partial_command@)
                            && suggestion_from_commons(
                            h.history,
                            h.shell,
                            partial_command@,
                            v@[k],
                        ))
                    &&& forall|j: int|
                        0 <= j < h.history.len() && is_prefix(
                            partial_command@,
                            (#[trigger] h.history[j]).text,
                        ) ==> covered(v@, h.history, h.history[j].text)
                    &&& commons_join(h.history, partial_command@) ==> forall|t: int|
                        0 <= t < common_commands(h.shell).len() && is_prefix(
                            partial_command@,
                            #[trigger] common_commands(h.shell)[t],
                        ) ==> covered(v@, h.history, common_commands(h.shell)[t])
                }),
                None => r is None,
            },
    {
        match self.find(session_id) {
            Some(i) => {
                proof {
                    lemma_find_key(self.entries(), session_id@);
                }
                Some(self.hooks[i].1.get_command_suggestions(partial_command))
            },
            None => None,
        }
    }

    /// A session's completions for the word at the cursor; `None` for an
    /// unknown id. The cursor position is a character offset.
    pub fn handle_tab_completion(&self, session_id: &str, current_line: &str, cursor_pos: usize) -> (r:
        Option<Vec<String>>)
        requires
            self.wf(),
            cursor_pos <= current_line@.len(),
        ensures
            r is Some <==> find_key(self.entries(), session_id@) is Some,
            r matches Some(v) ==> v@.len() <= 10,
    {
        match self.find(session_id) {
            Some(i) => Some(self.hooks[i].1.handle_tab_completion(current_line, cursor_pos)),
            None => None,
        }
    }

    /// Whether a session sits at a prompt; unknown ids are not at one.
    pub fn is_at_prompt(&self, session_id: &str) -> (r: bool)
        ensures
            r == match find_key(self.entries(), session_id@) {
                Some(i) => self.entries()[i].1.prompt is Some && self.entries()[i].1.current
                    is None,
                None => false,
            },
    {
        match self.find(session_id) {
            Some(i) => {
                proof {
                    lemma_find_key(self.entries(), session_id@);
                }
                self.hooks[i].1.is_at_prompt()
            },
            None => false,
        }
    }

    /// A session's last recognized prompt; `None` for an unknown id or
    /// where none was seen.
    pub fn get_current_prompt(&self, session_id: &str) -> (r: Option<&PromptInfo>)
        ensures
            match find_key(self.entries(), session_id@) {
                Some(i) => match r {
                    Some(p) => self.entries()[i].1.prompt == Some(p@),
                    None => self.entries()[i].1.prompt is None,
                },
                None => r is None,
            },
    {
        match self.find(session_id) {
            Some(i) => {
                proof {
                    lemma_find_key(self.entries(), session_id@);
                }
                self.hooks[i].1.get_current_prompt()
            },
            None => None,
        }
    }

    /// A session's newest history entries holding the query; `None` for an
    /// unknown id.
    pub fn search_history(&self, session_id: &str, query: &str) -> (r: Option<Vec<Command>>)
        ensures
            match find_key(self.entries(), session_id@) {
                Some(i) => r matches Some(v) && cmd_views(v@) == rev_matches(
                    self.entries()[i].1.history,
                    query@,
                    self.entries()[i].1.history.len() as int,
                    50,
                ),
                None => r is None,
            },
    {
        match self.find(session_id) {
            Some(i) => {
                proof {
                    lemma_find_key(self.entries(), session_id@);
                }
                Some(self.hooks[i].1.search_history(query))
            },
            None => None,
        }
    }
}

} // verus!

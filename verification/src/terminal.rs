//! One terminal: a decoder feeding a grid. Decoded operations are data; this
//! module applies them, and the whole pipeline from a raw chunk to the grid
//! it leaves behind is pinned by [`apply_ops`] over the decoder's
//! specification.

use vstd::prelude::*;
use crate::ansi::{AnsiCommand, Op, CharAttributes, sgr_apply};
use crate::decode::{AnsiParser, decode_spec};
use crate::grid::{TerminalGrid, TerminalChar, GridModel, grid_wf, spec_write_char,
    spec_move_cursor, spec_move_rel, spec_clear_screen, spec_clear_line, spec_clear_line_from,
    spec_clear_line_to, spec_clear_from_cursor, spec_clear_to_cursor, spec_scroll_up, spec_resize,
    spec_new_grid};
use crate::session::{TerminalSize, TerminalOutput, TermError};
use crate::text::{str_chars, str_eq};
use crate::ansi::ops_view;
use crate::ai::AiContext;
use crate::decode::DecoderModel;
use crate::shell_hooks::{ShellHooksManager, HooksModel, Command, CommandSuggestion, PromptInfo,
    cmd_views, rev_take, rev_matches, is_prefix, spec_process_output,
    CommandModel as HooksCmd};
use crate::search::{SearchIndexManager, IndexModel, ScrollMatch, ContextLine, match_views,
    line_views, spec_search, spec_feed, normalize_newlines, ansi_pattern_spec};
use crate::outside::{regex_stripped, new_id};
use crate::registry::{find_key, keys_of, lemma_find_key, lemma_find_key_at, lemma_find_key_none,
    lemma_find_key_same, unique_keys, lemma_unique_from_keys, lemma_unique_push,
    lemma_unique_remove, lemma_remove_key_gone, lemma_keys_push};

verus! {

/// Writing a text run: each character in turn, under one attribute state.
pub open spec fn spec_write_text(g: GridModel, a: CharAttributes, s: Seq<char>) -> GridModel
    decreases s.len(),
{
    if s.len() == 0 {
        g
    } else {
        spec_write_char(spec_write_text(g, a, s.drop_last()), s.last(), a)
    }
}

/// A one-based decoded coordinate as a zero-based grid coordinate.
pub open spec fn one_to_zero(n: u16) -> int {
    if n == 0 {
        0
    } else {
        n - 1
    }
}

/// What one decoded operation does to the grid and the attribute state.
/// Partial erases keep their directional intent: to-end-of-line and
/// to-start-of-line clear only their side of the cursor's line, and the
/// from-cursor and to-cursor screen erases clear only their side of the
/// screen. Operations the display does not act on (window management,
/// mouse and paste toggles, bells, unknown sequences) leave both untouched.
pub open spec fn apply_op(g: GridModel, a: CharAttributes, op: Op) -> (GridModel, CharAttributes) {
    match op {
        Op::PrintText(s) => (spec_write_text(g, a, s), a),
        Op::CursorUp(n) => (spec_move_rel(g, -(n as int), 0), a),
        Op::CursorDown(n) => (spec_move_rel(g, n as int, 0), a),
        Op::CursorLeft(n) => (spec_move_rel(g, 0, -(n as int)), a),
        Op::CursorRight(n) => (spec_move_rel(g, 0, n as int), a),
        Op::CursorPosition(r, c) => (spec_move_cursor(g, one_to_zero(r), one_to_zero(c)), a),
        Op::CursorHome => (spec_move_cursor(g, 0, 0), a),
        Op::ClearScreen => (spec_clear_screen(g), a),
        Op::ClearLine => (spec_clear_line(g), a),
        Op::ClearToEndOfLine => (spec_clear_line_from(g), a),
        Op::ClearToBeginningOfLine => (spec_clear_line_to(g), a),
        Op::ClearFromCursor => (spec_clear_from_cursor(g), a),
        Op::ClearToCursor => (spec_clear_to_cursor(g), a),
        Op::ScrollUp(n) => (spec_scroll_up(g, n as int), a),
        Op::SetGraphicsMode(ps) => (g, sgr_apply(a, ps)),
        _ => (g, a),
    }
}

/// Folding a whole operation list over the grid and attribute state.
pub open spec fn apply_ops(g: GridModel, a: CharAttributes, ops: Seq<Op>) -> (
    GridModel,
    CharAttributes,
)
    decreases ops.len(),
{
    if ops.len() == 0 {
        (g, a)
    } else {
        let p = apply_ops(g, a, ops.drop_last());
        apply_op(p.0, p.1, ops.last())
    }
}

/// Writing one character keeps the grid well-formed and its dimensions.
pub proof fn lemma_write_char_wf(g: GridModel, ch: char, a: CharAttributes)
    requires
        grid_wf(g),
    ensures
        grid_wf(spec_write_char(g, ch, a)),
        spec_write_char(g, ch, a).cells.len() == g.cells.len(),
        spec_write_char(g, ch, a).cols == g.cols,
{
    let g2 = spec_write_char(g, ch, a);
    let put = g.cells.update(g.row, g.cells[g.row].update(g.col, TerminalChar {
        character: ch,
        attributes: a,
    }));
    assert forall|i: int| 0 <= i < put.len() implies (#[trigger] put[i]).len() == g.cols by {
        if i != g.row {
            assert(put[i] == g.cells[i]);
        }
    }
    if !(g.col + 1 < g.cols) && !(g.row + 1 < g.cells.len()) {
        let shifted = put.drop_first().push(crate::grid::blank_row(g.cols));
        assert forall|i: int| 0 <= i < shifted.len() implies (#[trigger] shifted[i]).len()
            == g.cols by {
            if i < put.len() - 1 {
                assert(shifted[i] == put[i + 1]);
            }
        }
    }
}

/// Writing a run that stays strictly inside the cursor's row only advances
/// the column.
pub proof fn lemma_write_text_partial(g: GridModel, a: CharAttributes, s: Seq<char>)
    requires
        grid_wf(g),
        g.col + s.len() < g.cols,
    ensures
        grid_wf(spec_write_text(g, a, s)),
        spec_write_text(g, a, s).row == g.row,
        spec_write_text(g, a, s).col == g.col + s.len(),
        spec_write_text(g, a, s).cols == g.cols,
        spec_write_text(g, a, s).cells.len() == g.cells.len(),
    decreases s.len(),
{
    if s.len() > 0 {
        lemma_write_text_partial(g, a, s.drop_last());
        lemma_write_char_wf(spec_write_text(g, a, s.drop_last()), s.last(), a);
    }
}

/// Grid wrap: with the cursor at the start of a row, writing exactly one
/// full row of characters moves the cursor to column zero of the next row,
/// or — when the cursor was already on the last row — scrolls one row, the
/// cursor staying on that last row and a blank row appearing at the bottom.
pub proof fn lemma_grid_wrap(g: GridModel, a: CharAttributes, s: Seq<char>)
    requires
        grid_wf(g),
        g.col == 0,
        s.len() == g.cols,
    ensures
        grid_wf(spec_write_text(g, a, s)),
        spec_write_text(g, a, s).col == 0,
        spec_write_text(g, a, s).cells.len() == g.cells.len(),
        g.row + 1 < g.cells.len() ==> spec_write_text(g, a, s).row == g.row + 1,
        g.row + 1 == g.cells.len() ==> spec_write_text(g, a, s).row == g.row && spec_write_text(
            g,
            a,
            s,
        ).cells.last() == crate::grid::blank_row(g.cols),
{
    lemma_write_text_partial(g, a, s.drop_last());
    let mid = spec_write_text(g, a, s.drop_last());
    lemma_write_char_wf(mid, s.last(), a);
    assert(spec_write_text(g, a, s) == spec_write_char(mid, s.last(), a));
}

/// One terminal session's display state: its identifier, grid, resumable
/// decoder and current size.
#[derive(Debug)]
pub struct Terminal {
    pub id: String,
    pub grid: TerminalGrid,
    pub parser: AnsiParser,
    pub size: TerminalSize,
}

impl Terminal {
    /// A fresh terminal with a blank grid of the given size.
    pub fn new(id: String, size: TerminalSize) -> (t: Terminal)
        requires
            size.cols >= 1,
            size.rows >= 1,
        ensures
            t.grid.wf(),
            t.grid.model() == spec_new_grid(size.cols as int, size.rows as int),
            t.parser.model() == crate::decode::decoder_init(),
            t.parser.attrs() == crate::ansi::default_attributes(),
            t.id@ == id@,
            t.size == size,
    {
        let grid = TerminalGrid::new(size.cols as usize, size.rows as usize);
        let parser = AnsiParser::new();
        Terminal { id, grid, parser, size }
    }

    /// Apply one decoded operation to the grid and the attribute state.
    fn execute_command(&mut self, command: &AnsiCommand)
        requires
            old(self).grid.wf(),
        ensures
            final(self).grid.wf(),
            (final(self).grid.model(), final(self).parser.attrs()) == apply_op(
                old(self).grid.model(),
                old(self).parser.attrs(),
                command@,
            ),
            final(self).parser.model() == old(self).parser.model(),
            final(self).parser.caps() == old(self).parser.caps(),
            final(self).parser.side_state() == old(self).parser.side_state(),
            final(self).id == old(self).id,
            final(self).size == old(self).size,
            final(self).grid.saved_cursor == old(self).grid.saved_cursor,
    {
        match command {
            AnsiCommand::PrintText(text) => {
                let ghost g0 = self.grid.model();
                let ghost a0 = self.parser.attrs();
                let cs = str_chars(text.as_str());
                let n = cs.len();
                let mut i: usize = 0;
                proof {
                    assert(text@.take(0) =~= Seq::<char>::empty());
                }
                while i < n
                    invariant
                        0 <= i <= n,
                        n == cs@.len(),
                        cs@ == text@,
                        self.grid.wf(),
                        self.grid.model() == spec_write_text(g0, a0, text@.take(i as int)),
                        self.parser.attrs() == a0,
                        self.parser.model() == old(self).parser.model(),
                        self.parser.caps() == old(self).parser.caps(),
                        self.parser.side_state() == old(self).parser.side_state(),
                        self.id == old(self).id,
                        self.size == old(self).size,
                        self.grid.saved_cursor == old(self).grid.saved_cursor,
                    decreases n - i,
                {
                    proof {
                        assert(text@.take(i + 1).drop_last() =~= text@.take(i as int));
                        assert(text@.take(i + 1).last() == text@[i as int]);
                    }
                    self.grid.write_char(cs[i], self.parser.current_attributes());
                    i = i + 1;
                }
                proof {
                    assert(text@.take(n as int) =~= text@);
                }
            },
            AnsiCommand::CursorUp(n) => {
                self.grid.move_rel_wide(-(*n as i32), 0);
            },
            AnsiCommand::CursorDown(n) => {
                self.grid.move_rel_wide(*n as i32, 0);
            },
            AnsiCommand::CursorLeft(n) => {
                self.grid.move_rel_wide(0, -(*n as i32));
            },
            AnsiCommand::CursorRight(n) => {
                self.grid.move_rel_wide(0, *n as i32);
            },
            AnsiCommand::CursorPosition(row, col) => {
                let r = if *row == 0 {
                    0
                } else {
                    *row - 1
                };
                let c = if *col == 0 {
                    0
                } else {
                    *col - 1
                };
                self.grid.move_cursor(r, c);
            },
            AnsiCommand::CursorHome => {
                self.grid.move_cursor(0, 0);
            },
            AnsiCommand::ClearScreen => {
                self.grid.clear_screen();
            },
            AnsiCommand::ClearLine => {
                self.grid.clear_line();
            },
            AnsiCommand::ClearToEndOfLine => {
                self.grid.clear_line_from_cursor();
            },
            AnsiCommand::ClearToBeginningOfLine => {
                self.grid.clear_line_to_cursor();
            },
            AnsiCommand::ClearFromCursor => {
                self.grid.clear_from_cursor();
            },
            AnsiCommand::ClearToCursor => {
                self.grid.clear_to_cursor();
            },
            AnsiCommand::ScrollUp(n) => {
                self.grid.scroll_up(*n as usize);
            },
            AnsiCommand::SetGraphicsMode(params) => {
                self.parser.apply_graphics_mode(params.as_slice());
            },
            _ => (),
        }
    }

    /// Decode one raw chunk and apply every operation it denotes. The
    /// decoder's buffered state carries over between calls, so a chunk may
    /// end mid-sequence.
    pub fn process_output(&mut self, data: &str)
        requires
            old(self).grid.wf(),
        ensures
            final(self).grid.wf(),
            final(self).parser.model() == decode_spec(old(self).parser.model(), data@).0,
            (final(self).grid.model(), final(self).parser.attrs()) == apply_ops(
                old(self).grid.model(),
                old(self).parser.attrs(),
                decode_spec(old(self).parser.model(), data@).1,
            ),
            final(self).parser.caps() == old(self).parser.caps(),
            final(self).parser.side_state() == old(self).parser.side_state(),
            final(self).id == old(self).id,
            final(self).size == old(self).size,
            final(self).grid.saved_cursor == old(self).grid.saved_cursor,
    {
        let ghost g0 = self.grid.model();
        let ghost a0 = self.parser.attrs();
        let ghost ops = decode_spec(old(self).parser.model(), data@).1;
        let commands = self.parser.parse(data);
        proof {
            assert(ops_view(commands@) == ops);
        }
        let n = commands.len();
        let mut i: usize = 0;
        proof {
            assert(ops.take(0) =~= Seq::<Op>::empty());
        }
        while i < n
            invariant
                0 <= i <= n,
                n == commands@.len(),
                ops_view(commands@) == ops,
                self.grid.wf(),
                (self.grid.model(), self.parser.attrs()) == apply_ops(g0, a0, ops.take(i as int)),
                self.parser.model() == decode_spec(old(self).parser.model(), data@).0,
                self.parser.caps() == old(self).parser.caps(),
                self.parser.side_state() == old(self).parser.side_state(),
                self.id == old(self).id,
                self.size == old(self).size,
                self.grid.saved_cursor == old(self).grid.saved_cursor,
            decreases n - i,
        {
            proof {
                assert(ops.take(i + 1).drop_last() =~= ops.take(i as int));
                assert(ops.take(i + 1).last() == commands@[i as int]@);
            }
            self.execute_command(&commands[i]);
            i = i + 1;
        }
        proof {
            assert(ops.take(n as int) =~= ops);
        }
    }

    /// Adopt a new size: resize the grid and remember the size.
    pub fn resize(&mut self, new_size: TerminalSize)
        requires
            old(self).grid.wf(),
            new_size.cols >= 1,
            new_size.rows >= 1,
        ensures
            final(self).grid.wf(),
            final(self).grid.model() == spec_resize(
                old(self).grid.model(),
                new_size.cols as int,
                new_size.rows as int,
            ),
            final(self).size == new_size,
            final(self).parser.model() == old(self).parser.model(),
            final(self).parser.attrs() == old(self).parser.attrs(),
            final(self).id == old(self).id,
    {
        self.size = new_size;
        self.grid.resize(new_size.cols as usize, new_size.rows as usize);
    }
}


/// The whole state one terminal denotes: its grid, decoder state, attribute
/// state and size.
pub struct TermModel {
    pub grid: GridModel,
    pub decoder: DecoderModel,
    pub attrs: CharAttributes,
    pub size: TerminalSize,
}

impl Terminal {
    /// The state this terminal denotes.
    pub open spec fn model(&self) -> TermModel {
        TermModel {
            grid: self.grid.model(),
            decoder: self.parser.model(),
            attrs: self.parser.attrs(),
            size: self.size,
        }
    }
}

/// The session orchestrator: one grid-plus-decoder, one shell tracker and
/// one scrollback store per session id, created together and destroyed
/// together — its well-formedness ties the three key sequences to each
/// other, so a dangling entry in any one store cannot exist.
pub struct TerminalManager {
    terminals: Vec<(String, Terminal)>,
    shell_hooks: ShellHooksManager,
    search_index: SearchIndexManager,
}

impl TerminalManager {
    /// The registered terminals: each id with its display state.
    pub closed spec fn term_entries(&self) -> Seq<(Seq<char>, TermModel)> {
        self.terminals@.map_values(|e: (String, Terminal)| (e.0@, e.1.model()))
    }

    /// The registered trackers.
    pub closed spec fn hook_entries(&self) -> Seq<(Seq<char>, HooksModel)> {
        self.shell_hooks.entries()
    }

    /// The registered scrollback stores.
    pub closed spec fn index_entries(&self) -> Seq<(Seq<char>, IndexModel)> {
        self.search_index.entries()
    }

    /// Whether a session is registered.
    pub open spec fn has_session(&self, id: Seq<char>) -> bool {
        find_key(self.term_entries(), id) is Some
    }

    /// Well-formedness: every grid and store is within its bounds, and all
    /// three per-session stores list exactly the same session ids in the
    /// same order.
    pub closed spec fn wf(&self) -> bool {
        &&& forall|i: int|
            0 <= i < self.terminals@.len() ==> (#[trigger] self.terminals@[i]).1.grid.wf()
        &&& self.shell_hooks.wf()
        &&& self.search_index.wf()
        &&& keys_of(self.term_entries()) == keys_of(self.hook_entries())
        &&& keys_of(self.term_entries()) == keys_of(self.index_entries())
        &&& unique_keys(self.term_entries())
        &&& self.search_index.capacity() == 5000
    }

    /// An empty orchestrator.
    pub fn new() -> (r: TerminalManager)
        ensures
            r.wf(),
            r.term_entries() == Seq::<(Seq<char>, TermModel)>::empty(),
            r.hook_entries() == Seq::<(Seq<char>, HooksModel)>::empty(),
            r.index_entries() == Seq::<(Seq<char>, IndexModel)>::empty(),
    {
        let r = TerminalManager {
            terminals: Vec::new(),
            shell_hooks: ShellHooksManager::new(),
            search_index: SearchIndexManager::new(),
        };
        proof {
            assert(r.term_entries() =~= Seq::<(Seq<char>, TermModel)>::empty());
            assert(keys_of(r.term_entries()) =~= keys_of(r.hook_entries()));
            assert(keys_of(r.term_entries()) =~= keys_of(r.index_entries()));
        }
        r
    }

    /// The position of a session among the terminals.
    fn find(&self, terminal_id: &str) -> (r: Option<usize>)
        ensures
            match r {
                Some(i) => find_key(self.term_entries(), terminal_id@) == Some(i as int) && (
                i as int) < self.term_entries().len(),
                None => find_key(self.term_entries(), terminal_id@) is None,
            },
    {
        let n = self.terminals.len();
        let mut i: usize = 0;
        while i < n
            invariant
                0 <= i <= n,
                n == self.terminals@.len(),
                forall|j: int| 0 <= j < i ==> (#[trigger] self.term_entries()[j]).0 != terminal_id@,
            decreases n - i,
        {
            if str_eq(self.terminals[i].0.as_str(), terminal_id) {
                proof {
                    assert(self.term_entries()[i as int].0 == terminal_id@);
                    lemma_find_key_at(self.term_entries(), terminal_id@, i as int);
                }
                return Some(i);
            }
            proof {
                assert(self.term_entries()[i as int].0 == self.terminals@[i as int].0@);
            }
            i = i + 1;
        }
        proof {
            lemma_find_key_none(self.term_entries(), terminal_id@);
        }
        None
    }

    /// Open a session: draw a fresh id and register a blank terminal, a
    /// fresh tracker (its shell judged from the shell path, which defaults
    /// to a POSIX shell) and an empty scrollback store together. A size
    /// without rows or columns is refused; a drawn id that is already
    /// registered is refused and nothing is registered for it.
    pub fn create_terminal(
        &mut self,
        size: TerminalSize,
        shell: Option<String>,
        working_dir: Option<String>,
    ) -> (r: Result<String, TermError>)
        requires
            old(self).wf(),
        ensures
            final(self).wf(),
            r == Err::<String, TermError>(TermError::InvalidSize) <==> size.cols == 0
                || size.rows == 0,
            r matches Err(e) ==> e is InvalidSize || e is DuplicateSession,
            r matches Err(_) ==> final(self).term_entries() == old(self).term_entries() && final(self).hook_entries() == old(self).hook_entries() && final(self).index_entries() == old(self).index_entries(),
            r matches Ok(id) ==> ({
                &&& size.cols >= 1 && size.rows >= 1
                &&& !old(self).has_session(id@)
                &&& final(self).has_session(id@)
                &&& final(self).term_entries() == old(self).term_entries().push(
                    (
                        id@,
                        TermModel {
                            grid: spec_new_grid(size.cols as int, size.rows as int),
                            decoder: crate::decode::decoder_init(),
                            attrs: crate::ansi::default_attributes(),
                            size: size,
                        },
                    ),
                )
                &&& find_key(final(self).hook_entries(), id@) is Some
                &&& find_key(final(self).index_entries(), id@) is Some
            }),
    {
        if size.cols == 0 || size.rows == 0 {
            return Err(TermError::InvalidSize);
        }
        let shell_path = match shell {
            Some(s) => s,
            None => String::from_str("/bin/bash"),
        };
        let work_dir = match working_dir {
            Some(w) => w,
            None => String::from_str("~"),
        };
        let session_id = new_id();
        match self.find(session_id.as_str()) {
            Some(_) => Err(TermError::DuplicateSession),
            None => {
                let terminal = Terminal::new(session_id.clone(), size);
                self.terminals.push((session_id.clone(), terminal));
                self.shell_hooks.create_session_hooks(
                    session_id.clone(),
                    shell_path.as_str(),
                    work_dir,
                );
                self.search_index.create_session(session_id.clone());
                proof {
                    lemma_find_key_same(
                        old(self).hook_entries(),
                        old(self).term_entries(),
                        session_id@,
                    );
                    lemma_find_key_same(
                        old(self).index_entries(),
                        old(self).term_entries(),
                        session_id@,
                    );
                    assert(self.term_entries() =~= old(self).term_entries().push(
                        self.term_entries().last(),
                    ));
                    assert(self.hook_entries() =~= old(self).hook_entries().push(
                        self.hook_entries().last(),
                    ));
                    assert(self.index_entries() =~= old(self).index_entries().push(
                        self.index_entries().last(),
                    ));
                    lemma_keys_push(old(self).term_entries(), self.term_entries().last());
                    lemma_keys_push(old(self).hook_entries(), self.hook_entries().last());
                    lemma_keys_push(old(self).index_entries(), self.index_entries().last());
                    assert(self.term_entries().last().0 == session_id@);
                    assert(self.hook_entries().last().0 == session_id@);
                    assert(self.index_entries().last().0 == session_id@);
                    assert(keys_of(self.term_entries()) =~= keys_of(
                        self.hook_entries(),
                    ));
                    assert(keys_of(self.term_entries()) =~= keys_of(
                        self.index_entries(),
                    ));
                    lemma_find_key_same(
                        self.term_entries(),
                        self.hook_entries(),
                        session_id@,
                    );
                    lemma_find_key_same(
                        self.term_entries(),
                        self.index_entries(),
                        session_id@,
                    );
                    lemma_find_key(self.term_entries(), session_id@);
                    lemma_find_key(old(self).term_entries(), session_id@);
                    assert forall|j: int|
                        0 <= j < old(self).term_entries().len() implies (
                    #[trigger] self.term_entries()[j]).0 != session_id@ by {
                        assert(self.term_entries()[j] == old(self).term_entries()[j]);
                    }
                    lemma_find_key_at(
                        self.term_entries(),
                        session_id@,
                        old(self).term_entries().len() as int,
                    );
                    lemma_unique_push(
                        old(self).term_entries(),
                        self.term_entries().last(),
                    );
                    assert(self.term_entries() == old(self).term_entries().push(
                        self.term_entries().last(),
                    ));
                }
                Ok(session_id)
            },
        }
    }

    /// Feed one tagged chunk to a session's tracker, scrollback store and
    /// display in turn; chunks for unknown sessions change nothing.
    pub fn process_output(&mut self, output: &TerminalOutput)
        requires
            old(self).wf(),
        ensures
            final(self).wf(),
            match find_key(old(self).term_entries(), output.session_id@) {
                Some(i) => ({
                    let e = old(self).term_entries()[i];
                    let d = crate::decode::decode_spec(e.1.decoder, output.data@);
                    let applied = apply_ops(e.1.grid, e.1.attrs, d.1);
                    &&& final(self).term_entries() == old(self).term_entries().update(
                        i,
                        (
                            e.0,
                            TermModel {
                                grid: applied.0,
                                decoder: d.0,
                                attrs: applied.1,
                                size: e.1.size,
                            },
                        ),
                    )
                    &&& exists|meta: Seq<(u64, Seq<char>)>, fin: u64|
                        final(self).hook_entries() == old(self).hook_entries().update(
                            i,
                            (
                                old(self).hook_entries()[i].0,
                                spec_process_output(
                                    old(self).hook_entries()[i].1,
                                    output.data@,
                                    meta,
                                    fin,
                                ),
                            ),
                        )
                    &&& ({
                        let se = old(self).index_entries()[i];
                        final(self).index_entries() == old(self).index_entries().update(
                            i,
                            (
                                se.0,
                                spec_feed(se.1.0, se.1.1, normalize_newlines(output.data@), 5000),
                            ),
                        )
                    })
                }),
                None => final(self).term_entries() == old(self).term_entries() && final(self).hook_entries() == old(self).hook_entries() && final(self).index_entries() == old(self).index_entries(),
            },
    {
        proof {
            lemma_find_key_same(
                old(self).term_entries(),
                old(self).hook_entries(),
                output.session_id@,
            );
            lemma_find_key_same(
                old(self).term_entries(),
                old(self).index_entries(),
                output.session_id@,
            );
        }
        self.shell_hooks.process_output(output.session_id.as_str(), output.data.as_str());
        self.search_index.append_output(output.session_id.as_str(), output.data.as_str());
        match self.find(output.session_id.as_str()) {
            Some(i) => {
                proof {
                    lemma_find_key(old(self).term_entries(), output.session_id@);
                }
                let entry = &mut self.terminals[i];
                entry.1.process_output(output.data.as_str());
                proof {
                    let gi = find_key(old(self).term_entries(), output.session_id@).unwrap();
                    let e = old(self).term_entries()[gi];
                    let d = crate::decode::decode_spec(e.1.decoder, output.data@);
                    let applied = apply_ops(e.1.grid, e.1.attrs, d.1);
                    assert(self.term_entries() =~= old(self).term_entries().update(
                        gi,
                        (
                            e.0,
                            TermModel {
                                grid: applied.0,
                                decoder: d.0,
                                attrs: applied.1,
                                size: e.1.size,
                            },
                        ),
                    ));
                    assert(keys_of(self.term_entries()) =~= keys_of(
                        old(self).term_entries(),
                    ));
                    assert(keys_of(self.hook_entries()) =~= keys_of(
                        old(self).hook_entries(),
                    ));
                    assert(keys_of(self.index_entries()) =~= keys_of(
                        old(self).index_entries(),
                    ));
                    lemma_unique_from_keys(old(self).term_entries(), self.term_entries());
                }
            },
            None => {
                proof {
                    assert(self.term_entries() =~= old(self).term_entries());
                }
            },
        }
    }

    /// Resize a session's grid, clamping its cursor into the new bounds; an
    /// unknown session or an empty size is refused without any change.
    pub fn resize_terminal(&mut self, terminal_id: &str, size: TerminalSize) -> (r: Result<
        (),
        TermError,
    >)
        requires
            old(self).wf(),
        ensures
            final(self).wf(),
            size.cols == 0 || size.rows == 0 ==> r == Err::<(), TermError>(TermError::InvalidSize),
            r matches Err(_) ==> final(self).term_entries() == old(self).term_entries(),
            final(self).hook_entries() == old(self).hook_entries(),
            final(self).index_entries() == old(self).index_entries(),
            r is Ok ==> ({
                let fi = find_key(old(self).term_entries(), terminal_id@);
                &&& fi is Some
                &&& ({
                    let e = old(self).term_entries()[fi.unwrap()];
                    final(self).term_entries() == old(self).term_entries().update(
                        fi.unwrap(),
                        (
                            e.0,
                            TermModel {
                                grid: spec_resize(e.1.grid, size.cols as int, size.rows as int),
                                size: size,
                                ..e.1
                            },
                        ),
                    )
                })
            }),
            r == Err::<(), TermError>(TermError::SessionNotFound) ==> find_key(
                old(self).term_entries(),
                terminal_id@,
            ) is None,
            find_key(old(self).term_entries(), terminal_id@) is Some && size.cols >= 1
                && size.rows >= 1 ==> r is Ok,
    {
        if size.cols == 0 || size.rows == 0 {
            return Err(TermError::InvalidSize);
        }
        match self.find(terminal_id) {
            Some(i) => {
                proof {
                    lemma_find_key(old(self).term_entries(), terminal_id@);
                }
                let entry = &mut self.terminals[i];
                entry.1.resize(size);
                proof {
                    let gi = find_key(old(self).term_entries(), terminal_id@).unwrap();
                    let e = old(self).term_entries()[gi];
                    assert(self.term_entries() =~= old(self).term_entries().update(
                        gi,
                        (
                            e.0,
                            TermModel {
                                grid: spec_resize(e.1.grid, size.cols as int, size.rows as int),
                                size: size,
                                ..e.1
                            },
                        ),
                    ));
                    assert(keys_of(self.term_entries()) =~= keys_of(
                        old(self).term_entries(),
                    ));
                    lemma_unique_from_keys(old(self).term_entries(), self.term_entries());
                }
                Ok(())
            },
            None => Err(TermError::SessionNotFound),
        }
    }

    /// Close a session: remove its display, tracker and scrollback store
    /// together. Closing is idempotent — a second close of the same id
    /// succeeds and changes nothing — and afterwards no store holds a
    /// dangling entry for the id.
    pub fn close_terminal(&mut self, terminal_id: &str) -> (r: Result<(), TermError>)
        requires
            old(self).wf(),
        ensures
            final(self).wf(),
            r is Ok,
            !final(self).has_session(terminal_id@),
            find_key(final(self).hook_entries(), terminal_id@) is None,
            find_key(final(self).index_entries(), terminal_id@) is None,
            final(self).term_entries() == match find_key(
                old(self).term_entries(),
                terminal_id@,
            ) {
                Some(i) => old(self).term_entries().remove(i),
                None => old(self).term_entries(),
            },
    {
        proof {
            lemma_find_key_same(
                old(self).term_entries(),
                old(self).hook_entries(),
                terminal_id@,
            );
            lemma_find_key_same(
                old(self).term_entries(),
                old(self).index_entries(),
                terminal_id@,
            );
        }
        match self.find(terminal_id) {
            Some(i) => {
                self.terminals.remove(i);
                proof {
                    assert(self.term_entries() =~= old(self).term_entries().remove(
                        find_key(old(self).term_entries(), terminal_id@).unwrap(),
                    ));
                }
            },
            None => (),
        }
        self.shell_hooks.remove_session(terminal_id);
        self.search_index.remove_session(terminal_id);
        proof {
            match find_key(old(self).term_entries(), terminal_id@) {
                Some(gi) => {
                    assert(keys_of(self.term_entries()) =~= keys_of(
                        old(self).term_entries(),
                    ).remove(gi));
                    assert(keys_of(self.hook_entries()) =~= keys_of(
                        old(self).hook_entries(),
                    ).remove(gi));
                    assert(keys_of(self.index_entries()) =~= keys_of(
                        old(self).index_entries(),
                    ).remove(gi));
                },
                None => {},
            }
            match find_key(old(self).term_entries(), terminal_id@) {
                Some(gi) => {
                    lemma_find_key(old(self).term_entries(), terminal_id@);
                    lemma_unique_remove(old(self).term_entries(), gi);
                    lemma_remove_key_gone(old(self).term_entries(), gi, terminal_id@);
                },
                None => {
                    lemma_find_key(old(self).term_entries(), terminal_id@);
                },
            }
            lemma_find_key_same(self.term_entries(), self.hook_entries(), terminal_id@);
            lemma_find_key_same(self.term_entries(), self.index_entries(), terminal_id@);
        }
        Ok(())
    }

    /// A snapshot of a session's grid; `None` for an unknown id.
    pub fn get_terminal_state(&self, terminal_id: &str) -> (r: Option<TerminalGrid>)
        ensures
            match find_key(self.term_entries(), terminal_id@) {
                Some(i) => r matches Some(g) && g.model() == self.term_entries()[i].1.grid,
                None => r is None,
            },
    {
        match self.find(terminal_id) {
            Some(i) => {
                proof {
                    lemma_find_key(self.term_entries(), terminal_id@);
                }
                Some(self.terminals[i].1.grid.duplicate())
            },
            None => None,
        }
    }

    /// A session's newest history entries; `None` for an unknown id.
    pub fn get_command_history(&self, terminal_id: &str, limit: Option<usize>) -> (r: Option<
        Vec<Command>,
    >)
        requires
            self.wf(),
        ensures
            match find_key(self.hook_entries(), terminal_id@) {
                Some(i) => r matches Some(v) && cmd_views(v@) == rev_take(
                    self.hook_entries()[i].1.history,
                    self.hook_entries()[i].1.history.len() as int,
                    match limit {
                        Some(l) => l as int,
                        None => 100,
                    },
                ),
                None => r is None,
            },
    {
        self.shell_hooks.get_command_history(terminal_id, limit)
    }

    /// A session's ranked completion suggestions, with the same guarantees
    /// the per-session tracker gives; `None` for an unknown id.
    pub fn get_command_suggestions(&self, terminal_id: &str, partial_command: &str) -> (r: Option<
        Vec<CommandSuggestion>,
    >)
        requires
            self.wf(),
        ensures
            r is Some <==> find_key(self.hook_entries(), terminal_id@) is Some,
            match find_key(self.hook_entries(), terminal_id@) {
                Some(i) => r matches Some(v) && ({
                    let h = self.hook_entries()[i].1;
                    &&& v@.len() <= 10
                    &&& forall|a: int, b: int|
                        0 <= a < b < v@.len() ==> crate::shell_hooks::sugg_ge(
                            crate::shell_hooks::sugg_key(v@[a]),
                            crate::shell_hooks::sugg_key(v@[b]),
                        )
                    &&& forall|k: int|
                        0 <= k < v@.len() ==> crate::shell_hooks::suggestion_from_history(
                            h.history,
                            partial_command@,
                            #[trigger] v@[k],
                        ) || (crate::shell_hooks::commons_join(h.history, partial_command@)
                            && crate::shell_hooks::suggestion_from_commons(
                            h.history,
                            h.shell,
                            partial_command@,
                            v@[k],
                        ))
                    &&& forall|j: int|
                        0 <= j < h.history.len() && is_prefix(
                            partial_command@,
                            (#[trigger] h.history[j]).text,
                        ) ==> crate::shell_hooks::covered(v@, h.history, h.history[j].text)
                    &&& crate::shell_hooks::commons_join(h.history, partial_command@)
                        ==> forall|t: int|
                        0 <= t < crate::shell_hooks::common_commands(h.shell).len() && is_prefix(
                            partial_command@,
                            #[trigger] crate::shell_hooks::common_commands(h.shell)[t],
                        ) ==> crate::shell_hooks::covered(
                            v@,
                            h.history,
                            crate::shell_hooks::common_commands(h.shell)[t],
                        )
                }),
                None => r is None,
            },
    {
        self.shell_hooks.get_command_suggestions(terminal_id, partial_command)
    }

    /// A session's completions for the word at the cursor; `None` for an
    /// unknown id. The cursor position is a character offset.
    pub fn handle_tab_completion(
        &self,
        terminal_id: &str,
        current_line: &str,
        cursor_pos: usize,
    ) -> (r: Option<Vec<String>>)
        requires
            self.wf(),
            cursor_pos <= current_line@.len(),
        ensures
            r is Some <==> find_key(self.hook_entries(), terminal_id@) is Some,
            r matches Some(v) ==> v@.len() <= 10,
    {
        self.shell_hooks.handle_tab_completion(terminal_id, current_line, cursor_pos)
    }

    /// Whether a session sits at a prompt; unknown ids are not at one.
    pub fn is_at_prompt(&self, terminal_id: &str) -> (r: bool)
        requires
            self.wf(),
        ensures
            r == match find_key(self.hook_entries(), terminal_id@) {
                Some(i) => self.hook_entries()[i].1.prompt is Some && self.hook_entries()[i].1.current
                    is None,
                None => false,
            },
    {
        self.shell_hooks.is_at_prompt(terminal_id)
    }

    /// A copy of a session's last recognized prompt; `None` for an unknown
    /// id or where none was seen.
    pub fn get_current_prompt(&self, terminal_id: &str) -> (r: Option<PromptInfo>)
        requires
            self.wf(),
        ensures
            match find_key(self.hook_entries(), terminal_id@) {
                Some(i) => match r {
                    Some(p) => self.hook_entries()[i].1.prompt == Some(p@),
                    None => self.hook_entries()[i].1.prompt is None,
                },
                None => r is None,
            },
    {
        match self.shell_hooks.get_current_prompt(terminal_id) {
            Some(p) => Some(copy_prompt_info(p)),
            None => None,
        }
    }

    /// A session's newest history entries holding the query; `None` for an
    /// unknown id.
    pub fn search_history(&self, terminal_id: &str, query: &str) -> (r: Option<Vec<Command>>)
        requires
            self.wf(),
        ensures
            match find_key(self.hook_entries(), terminal_id@) {
                Some(i) => r matches Some(v) && cmd_views(v@) == rev_matches(
                    self.hook_entries()[i].1.history,
                    query@,
                    self.hook_entries()[i].1.history.len() as int,
                    50,
                ),
                None => r is None,
            },
    {
        self.shell_hooks.search_history(terminal_id, query)
    }

    /// Search a session's scrollback; `None` for an unknown id.
    pub fn search_scrollback(
        &self,
        terminal_id: &str,
        query: &str,
        case_sensitive: bool,
        use_regex: bool,
        limit: usize,
    ) -> (r: Option<Vec<ScrollMatch>>)
        requires
            self.wf(),
        ensures
            match find_key(self.index_entries(), terminal_id@) {
                Some(i) => r matches Some(v) && match_views(v@) == spec_search(
                    self.index_entries()[i].1.0,
                    query@,
                    case_sensitive,
                    use_regex,
                    limit as int,
                ),
                None => r is None,
            },
    {
        self.search_index.search(terminal_id, query, case_sensitive, use_regex, limit)
    }

    /// The clamped context window around a scrollback line; `None` for an
    /// unknown id.
    pub fn get_scrollback_context(
        &self,
        terminal_id: &str,
        line_index: usize,
        before: usize,
        after: usize,
    ) -> (r: Option<Vec<ContextLine>>)
        requires
            self.wf(),
            line_index + after + 1 <= usize::MAX,
        ensures
            r is Some <==> find_key(self.index_entries(), terminal_id@) is Some,
    {
        self.search_index.context(terminal_id, line_index, before, after)
    }

    /// The consolidated assistant context of a session: the prompt's
    /// working directory and text where a prompt was seen, the newest
    /// twenty command texts, and the last two hundred scrollback lines;
    /// fields are empty where the session or its prompt is unknown.
    pub fn gather_context(&self, terminal_id: &str) -> (r: Option<AiContext>)
        requires
            self.wf(),
        ensures
            r matches Some(ctx) && ({
                &&& match find_key(self.hook_entries(), terminal_id@) {
                    Some(i) => match self.hook_entries()[i].1.prompt {
                        Some(p) => (ctx.working_dir matches Some(w) && w@ == p.working_dir) && (
                        ctx.prompt matches Some(t) && t@ == p.prompt_text),
                        None => ctx.working_dir is None && ctx.prompt is None,
                    },
                    None => ctx.working_dir is None && ctx.prompt is None,
                }
                &&& match find_key(self.hook_entries(), terminal_id@) {
                    Some(i) => line_views(ctx.recent_commands@) == rev_take(
                        self.hook_entries()[i].1.history,
                        self.hook_entries()[i].1.history.len() as int,
                        20,
                    ).map_values(|c: HooksCmd| c.text),
                    None => ctx.recent_commands@.len() == 0,
                }
                &&& match find_key(self.index_entries(), terminal_id@) {
                    Some(i) => line_views(ctx.tail_output@) == ({
                        let lines = self.index_entries()[i].1.0;
                        lines.skip(
                            if 200 <= lines.len() {
                                lines.len() - 200
                            } else {
                                0
                            },
                        )
                    }),
                    None => ctx.tail_output@.len() == 0,
                }
            }),
    {
        let (working_dir, prompt) = match self.get_current_prompt(terminal_id) {
            Some(p) => (Some(p.working_dir.clone()), Some(p.prompt_text.clone())),
            None => (None, None),
        };
        let ghost hentries = self.hook_entries();
        let recent_commands = match self.get_command_history(terminal_id, Some(20)) {
            Some(cmds) => {
                let n = cmds.len();
                let mut texts: Vec<String> = Vec::new();
                let mut i: usize = 0;
                while i < n
                    invariant
                        0 <= i <= n,
                        n == cmds@.len(),
                        texts@.len() == i,
                        forall|k: int| 0 <= k < i ==> (#[trigger] texts@[k])@ == cmds@[k]@.text,
                    decreases n - i,
                {
                    texts.push(cmds[i].text.clone());
                    proof {
                        assert(texts@.last()@ == cmds@[i as int]@.text);
                    }
                    i = i + 1;
                }
                proof {
                    if find_key(hentries, terminal_id@) is Some {
                        let gi = find_key(hentries, terminal_id@).unwrap();
                        assert(line_views(texts@) =~= rev_take(
                            hentries[gi].1.history,
                            hentries[gi].1.history.len() as int,
                            20,
                        ).map_values(|c: HooksCmd| c.text));
                    }
                }
                texts
            },
            None => Vec::new(),
        };
        let tail_output = match self.search_index.tail(terminal_id, 200) {
            Some(t) => t,
            None => Vec::new(),
        };
        proof {
            lemma_find_key_same(self.index_entries(), self.term_entries(), terminal_id@);
            if find_key(self.index_entries(), terminal_id@) is None {
                assert(tail_output@.len() == 0);
            }
        }
        Some(AiContext { working_dir, prompt, recent_commands, tail_output })
    }
}

/// A faithful copy of one prompt snapshot.
fn copy_prompt_info(p: &PromptInfo) -> (r: PromptInfo)
    ensures
        r@ == p@,
{
    PromptInfo {
        shell_type: p.shell_type,
        working_dir: p.working_dir.clone(),
        user: p.user.clone(),
        hostname: p.hostname.clone(),
        prompt_text: p.prompt_text.clone(),
    }
}

} // verus!

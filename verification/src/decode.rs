//! The resumable decoder state machine. One character at a time it moves
//! between accumulation modes, and its whole behaviour is captured by the
//! specification function [`step`]; feeding a chunk is the fold [`run`] of
//! `step` over the chunk's characters, plus a final flush of pending plain
//! text. Because the machine is strictly character-by-character, decoding
//! composes over arbitrary chunk boundaries: see [`lemma_decode_resumable`].

use vstd::prelude::*;
use crate::ansi::{AnsiCommand, Op, ImageData, ImageDataModel, CursorStyle, MouseReportMode,
    CursorPosition, CharAttributes, HyperlinkParams, default_attributes, ops_view,
    lemma_ops_view_push, sgr_apply, sgr_step_attrs};
use crate::params::{params_u16, params_u8, parse_u16, nth_or16, parse_params_u16, parse_params_u8,
    parse_u16_chars, nth_or_u16};
use crate::text::{has_char, find_char_from, lemma_find_char_from, find_char, sub_chars,
    chars_to_string, slice_eq_str, starts_with_str, contains_char, str_chars};
use crate::outside::{base64_decoded, b64_decode};
use crate::terminal_types::TerminalCapabilities;
use vstd::utf8::encode_utf8;

verus! {

/// The escape-sequence family selected by the character after the escape
/// introducer.
#[derive(Debug, Clone, Copy, PartialEq, Eq, Structural)]
pub enum SeqFamily {
    /// Control sequence introducer, `ESC [`.
    Csi,
    /// Operating system command, `ESC ]`.
    Osc,
    /// Device control string, `ESC P`.
    Dcs,
    /// Privacy message, `ESC ^`.
    Pm,
    /// Application program command, `ESC _`.
    Apc,
    /// Single shift two, `ESC N`.
    Ss2,
    /// Single shift three, `ESC O`.
    Ss3,
}

/// Where the machine stands between two characters.
#[derive(Debug, Clone, Copy, PartialEq, Eq, Structural)]
pub enum DecodeMode {
    /// Plain text accumulates.
    Ground,
    /// An escape introducer was seen; the family is still open.
    Intro,
    /// A sequence of the given family accumulates.
    Accum(SeqFamily),
    /// Inside a string-family sequence an escape was seen; a following
    /// backslash terminates the string.
    AccumEsc(SeqFamily),
}

/// The decoder state a parser value denotes: its mode and its accumulation
/// buffer.
pub struct DecoderModel {
    pub mode: DecodeMode,
    pub buf: Seq<char>,
}

/// The state of a freshly created decoder.
pub open spec fn decoder_init() -> DecoderModel {
    DecoderModel { mode: DecodeMode::Ground, buf: Seq::<char>::empty() }
}

/// The family a character selects right after the escape introducer.
pub open spec fn intro_family(c: char) -> Option<SeqFamily> {
    if c == '[' {
        Some(SeqFamily::Csi)
    } else if c == ']' {
        Some(SeqFamily::Osc)
    } else if c == 'P' {
        Some(SeqFamily::Dcs)
    } else if c == '^' {
        Some(SeqFamily::Pm)
    } else if c == '_' {
        Some(SeqFamily::Apc)
    } else if c == 'N' {
        Some(SeqFamily::Ss2)
    } else if c == 'O' {
        Some(SeqFamily::Ss3)
    } else {
        None
    }
}

/// Whether the family is one of the string-like ones, terminated by a bell
/// or an escape-backslash string terminator.
pub open spec fn is_string_family(f: SeqFamily) -> bool {
    f is Osc || f is Dcs || f is Pm || f is Apc
}

/// Whether a character ends a control sequence.
pub open spec fn is_csi_final(c: char) -> bool {
    ('A' <= c && c <= 'Z') || ('a' <= c && c <= 'z')
}

/// The pending plain text as an operation list: one print operation, or
/// nothing where the buffer is empty.
pub open spec fn flush_ops(buf: Seq<char>) -> Seq<Op> {
    if buf.len() > 0 {
        seq![Op::PrintText(buf)]
    } else {
        Seq::<Op>::empty()
    }
}

/// The prefix of `s` before the first `sep`, and what follows that `sep`,
/// if any.
pub open spec fn split_once(s: Seq<char>, sep: char) -> (Seq<char>, Option<Seq<char>>) {
    match find_char_from(s, sep, 0) {
        Some(i) => (s.take(i), Some(s.skip(i + 1))),
        None => (s, None),
    }
}

/// An optional sequence, or empty where absent.
pub open spec fn opt_or_empty(s: Option<Seq<char>>) -> Seq<char> {
    match s {
        Some(v) => v,
        None => Seq::<char>::empty(),
    }
}

/// The operation a complete control sequence (escape, bracket, parameters,
/// final byte) denotes. A sequence with an unrecognized final byte or mode
/// parameter is kept verbatim as an unknown operation.
#[verifier::opaque]
pub open spec fn csi_op(b: Seq<char>) -> Op {
    if !(b.len() >= 3 && b[0] == '\x1b' && b[1] == '[') {
        Op::Unknown(b)
    } else {
        let c = b.last();
        let ps = b.subrange(2, b.len() - 1);
        let pn = params_u16(ps);
        if c == 'A' {
            Op::CursorUp(nth_or16(pn, 0, 1))
        } else if c == 'B' {
            Op::CursorDown(nth_or16(pn, 0, 1))
        } else if c == 'C' {
            Op::CursorRight(nth_or16(pn, 0, 1))
        } else if c == 'D' {
            Op::CursorLeft(nth_or16(pn, 0, 1))
        } else if c == 'E' {
            Op::CursorNextLine(nth_or16(pn, 0, 1))
        } else if c == 'F' {
            Op::CursorPrevLine(nth_or16(pn, 0, 1))
        } else if c == 'G' {
            Op::CursorColumn(nth_or16(pn, 0, 1))
        } else if c == 'H' || c == 'f' {
            Op::CursorPosition(nth_or16(pn, 0, 1), nth_or16(pn, 1, 1))
        } else if c == 's' {
            Op::CursorSave
        } else if c == 'u' {
            Op::CursorRestore
        } else if c == 'J' {
            let m = nth_or16(pn, 0, 0);
            if m == 0 {
                Op::ClearFromCursor
            } else if m == 1 {
                Op::ClearToCursor
            } else if m == 2 || m == 3 {
                Op::ClearScreen
            } else {
                Op::Unknown(b)
            }
        } else if c == 'K' {
            let m = nth_or16(pn, 0, 0);
            if m == 0 {
                Op::ClearToEndOfLine
            } else if m == 1 {
                Op::ClearToBeginningOfLine
            } else if m == 2 {
                Op::ClearLine
            } else {
                Op::Unknown(b)
            }
        } else if c == 'L' {
            Op::InsertLines(nth_or16(pn, 0, 1))
        } else if c == 'M' {
            Op::DeleteLines(nth_or16(pn, 0, 1))
        } else if c == 'P' {
            Op::DeleteCharacters(nth_or16(pn, 0, 1))
        } else if c == '@' {
            Op::InsertCharacters(nth_or16(pn, 0, 1))
        } else if c == 'S' {
            Op::ScrollUp(nth_or16(pn, 0, 1))
        } else if c == 'T' {
            Op::ScrollDown(nth_or16(pn, 0, 1))
        } else if c == 'r' {
            Op::SetScrollRegion(nth_or16(pn, 0, 1), nth_or16(pn, 1, 24))
        } else if c == 'm' {
            Op::SetGraphicsMode(params_u8(ps))
        } else if c == 'q' && ps.len() > 0 && ps[0] == ' ' {
            let m = nth_or16(pn, 0, 1);
            if m == 0 || m == 1 {
                Op::SetCursorStyle(CursorStyle::BlinkingBlock)
            } else if m == 2 {
                Op::SetCursorStyle(CursorStyle::Block)
            } else if m == 3 {
                Op::SetCursorStyle(CursorStyle::BlinkingUnderline)
            } else if m == 4 {
                Op::SetCursorStyle(CursorStyle::Underline)
            } else if m == 5 {
                Op::SetCursorStyle(CursorStyle::BlinkingBar)
            } else if m == 6 {
                Op::SetCursorStyle(CursorStyle::Bar)
            } else {
                Op::Unknown(b)
            }
        } else if c == 'h' {
            if ps == "?1000"@ {
                Op::EnableMouseReporting(MouseReportMode::Normal)
            } else if ps == "?1002"@ {
                Op::EnableMouseReporting(MouseReportMode::Button)
            } else if ps == "?1003"@ {
                Op::EnableMouseReporting(MouseReportMode::Any)
            } else if ps == "?1006"@ {
                Op::EnableMouseReporting(MouseReportMode::SGR)
            } else if ps == "?1049"@ || ps == "?47"@ {
                Op::EnterAlternateScreen
            } else if ps == "?25"@ {
                Op::ShowCursor
            } else if ps == "?2004"@ {
                Op::EnableBracketedPaste
            } else if ps == "?1004"@ {
                Op::EnableFocusEvents
            } else if ps == "?2026"@ {
                Op::BeginSynchronizedUpdate
            } else {
                Op::Unknown(b)
            }
        } else if c == 'l' {
            if ps == "?1000"@ {
                Op::DisableMouseReporting(MouseReportMode::Normal)
            } else if ps == "?1002"@ {
                Op::DisableMouseReporting(MouseReportMode::Button)
            } else if ps == "?1003"@ {
                Op::DisableMouseReporting(MouseReportMode::Any)
            } else if ps == "?1006"@ {
                Op::DisableMouseReporting(MouseReportMode::SGR)
            } else if ps == "?1049"@ || ps == "?47"@ {
                Op::ExitAlternateScreen
            } else if ps == "?25"@ {
                Op::HideCursor
            } else if ps == "?2004"@ {
                Op::DisableBracketedPaste
            } else if ps == "?1004"@ {
                Op::DisableFocusEvents
            } else if ps == "?2026"@ {
                Op::EndSynchronizedUpdate
            } else {
                Op::Unknown(b)
            }
        } else {
            Op::Unknown(b)
        }
    }
}

/// The operation a complete operating-system command denotes: window and
/// icon titles, hyperlinks, and a proprietary inline-image payload.
#[verifier::opaque]
pub open spec fn osc_op(b: Seq<char>) -> Op {
    if !(b.len() >= 2 && b[0] == '\x1b' && b[1] == ']') {
        Op::Unknown(b)
    } else {
        let content = b.skip(2);
        let head = split_once(content, ';').0;
        let rest = split_once(content, ';').1;
        match parse_u16(head) {
            None => Op::Unknown(b),
            Some(n) => if n == 0 || n == 2 {
                Op::SetWindowTitle(opt_or_empty(rest))
            } else if n == 1 {
                Op::SetIconTitle(opt_or_empty(rest))
            } else if n == 8 {
                let payload = opt_or_empty(rest);
                Op::SetHyperlink(opt_or_empty(split_once(payload, ';').1), Seq::<char>::empty())
            } else if n == 1337 {
                match rest {
                    Some(data) => if data.len() >= "File="@.len() && data.take(
                        "File="@.len() as int,
                    ) == "File="@ {
                        match base64_decoded(data.skip("File="@.len() as int)) {
                            Some(bytes) => Op::DisplayImage(
                                ImageDataModel {
                                    format: "png"@,
                                    width: None,
                                    height: None,
                                    data: bytes,
                                },
                            ),
                            None => Op::Unknown(b),
                        }
                    } else {
                        Op::Unknown(b)
                    },
                    None => Op::Unknown(b),
                }
            } else {
                Op::Unknown(b)
            },
        }
    }
}

/// The operation a complete device-control string denotes: a sixel payload
/// where the content looks like sixel data, the raw string otherwise.
#[verifier::opaque]
pub open spec fn dcs_op(b: Seq<char>) -> Op {
    if !(b.len() >= 2 && b[0] == '\x1b' && b[1] == 'P') {
        Op::Unknown(b)
    } else {
        let content = b.skip(2);
        if (content.len() > 0 && content[0] == 'q') || has_char(content, '#') {
            Op::DisplaySixel(encode_utf8(content))
        } else {
            Op::DeviceControlString(content)
        }
    }
}

/// The operation a terminated string-family sequence denotes; privacy
/// messages and application program commands are kept verbatim.
pub open spec fn string_op(f: SeqFamily, b: Seq<char>) -> Op {
    if b.len() < 2 {
        Op::Unknown(b)
    } else if f is Osc {
        osc_op(b)
    } else if f is Dcs {
        dcs_op(b)
    } else {
        Op::Unknown(b)
    }
}

/// One character of decoding: the machine's next state and the operations
/// the character causes to be emitted.
pub open spec fn step(m: DecoderModel, c: char) -> (DecoderModel, Seq<Op>) {
    match m.mode {
        DecodeMode::Ground => {
            if c == '\x1b' {
                (DecoderModel { mode: DecodeMode::Intro, buf: seq!['\x1b'] }, flush_ops(m.buf))
            } else if c == '\r' {
                (decoder_init(), flush_ops(m.buf).push(Op::CursorColumn(1)))
            } else if c == '\n' {
                (decoder_init(), flush_ops(m.buf).push(Op::CursorDown(1)))
            } else if c == '\x07' {
                (decoder_init(), flush_ops(m.buf).push(Op::Bell))
            } else if c == '\t' {
                (decoder_init(), flush_ops(m.buf).push(Op::CursorRight(8)))
            } else if c == '\x08' {
                (decoder_init(), flush_ops(m.buf).push(Op::CursorLeft(1)))
            } else {
                (DecoderModel { mode: DecodeMode::Ground, buf: m.buf.push(c) }, Seq::<Op>::empty())
            }
        },
        DecodeMode::Intro => {
            match intro_family(c) {
                Some(f) => (
                    DecoderModel { mode: DecodeMode::Accum(f), buf: m.buf.push(c) },
                    Seq::<Op>::empty(),
                ),
                None => (
                    DecoderModel { mode: DecodeMode::Intro, buf: m.buf.push(c) },
                    Seq::<Op>::empty(),
                ),
            }
        },
        DecodeMode::Accum(f) => {
            if is_string_family(f) {
                if c == '\x07' {
                    (decoder_init(), seq![string_op(f, m.buf)])
                } else if c == '\x1b' {
                    (DecoderModel { mode: DecodeMode::AccumEsc(f), buf: m.buf }, Seq::<Op>::empty())
                } else {
                    (
                        DecoderModel { mode: DecodeMode::Accum(f), buf: m.buf.push(c) },
                        Seq::<Op>::empty(),
                    )
                }
            } else if f is Csi {
                if c == '\x1b' {
                    (
                        DecoderModel { mode: DecodeMode::Intro, buf: m.buf.push(c) },
                        Seq::<Op>::empty(),
                    )
                } else if is_csi_final(c) {
                    (decoder_init(), seq![csi_op(m.buf.push(c))])
                } else {
                    (
                        DecoderModel { mode: DecodeMode::Accum(f), buf: m.buf.push(c) },
                        Seq::<Op>::empty(),
                    )
                }
            } else {
                if c == '\x1b' {
                    (
                        DecoderModel { mode: DecodeMode::Intro, buf: m.buf.push(c) },
                        Seq::<Op>::empty(),
                    )
                } else {
                    (
                        DecoderModel { mode: DecodeMode::Accum(f), buf: m.buf.push(c) },
                        Seq::<Op>::empty(),
                    )
                }
            }
        },
        DecodeMode::AccumEsc(f) => {
            if c == '\\' {
                (decoder_init(), seq![string_op(f, m.buf)])
            } else {
                let b2 = m.buf.push('\x1b').push(c);
                match intro_family(c) {
                    Some(g) => (
                        DecoderModel { mode: DecodeMode::Accum(g), buf: b2 },
                        Seq::<Op>::empty(),
                    ),
                    None => (DecoderModel { mode: DecodeMode::Intro, buf: b2 }, Seq::<Op>::empty()),
                }
            }
        },
    }
}

/// Decoding a whole character sequence: the fold of [`step`].
pub open spec fn run(m: DecoderModel, s: Seq<char>) -> (DecoderModel, Seq<Op>)
    decreases s.len(),
{
    if s.len() == 0 {
        (m, Seq::<Op>::empty())
    } else {
        let prev = run(m, s.drop_last());
        let last = step(prev.0, s.last());
        (last.0, prev.1 + last.1)
    }
}

/// Whether the end-of-call flush leaves the state alone: it does except in
/// ground mode with pending text.
pub open spec fn no_pending_text(m: DecoderModel) -> bool {
    !(m.mode is Ground && m.buf.len() > 0)
}

/// The state after the end-of-call flush.
pub open spec fn finish_model(m: DecoderModel) -> DecoderModel {
    if no_pending_text(m) {
        m
    } else {
        decoder_init()
    }
}

/// What the end-of-call flush emits.
pub open spec fn finish_ops(m: DecoderModel) -> Seq<Op> {
    if no_pending_text(m) {
        Seq::<Op>::empty()
    } else {
        seq![Op::PrintText(m.buf)]
    }
}

/// One whole decode call: fold the characters, then flush pending text.
pub open spec fn decode_spec(m: DecoderModel, s: Seq<char>) -> (DecoderModel, Seq<Op>) {
    let r = run(m, s);
    (finish_model(r.0), r.1 + finish_ops(r.0))
}

/// Folding distributes over concatenation: running `a + b` is running `a`,
/// then running `b` from where `a` left off.
pub proof fn lemma_run_append(m: DecoderModel, a: Seq<char>, b: Seq<char>)
    ensures
        run(m, a + b).0 == run(run(m, a).0, b).0,
        run(m, a + b).1 == run(m, a).1 + run(run(m, a).0, b).1,
    decreases b.len(),
{
    if b.len() == 0 {
        assert(a + b =~= a);
        assert(run(m, a).1 + run(run(m, a).0, b).1 =~= run(m, a).1);
    } else {
        lemma_run_append(m, a, b.drop_last());
        assert((a + b).drop_last() =~= a + b.drop_last());
        assert((a + b).last() == b.last());
        assert(run(m, a).1 + (run(run(m, a).0, b.drop_last()).1 + step(
            run(run(m, a).0, b.drop_last()).0,
            b.last(),
        ).1) =~= (run(m, a).1 + run(run(m, a).0, b.drop_last()).1) + step(
            run(run(m, a).0, b.drop_last()).0,
            b.last(),
        ).1);
    }
}

/// Unfolding one character off the end of a fold.
pub proof fn lemma_run_snoc(m: DecoderModel, s: Seq<char>, c: char)
    ensures
        run(m, s.push(c)).0 == step(run(m, s).0, c).0,
        run(m, s.push(c)).1 == run(m, s).1 + step(run(m, s).0, c).1,
{
    assert(s.push(c).drop_last() =~= s);
    assert(s.push(c).last() == c);
}

/// Whether `s` drives a fresh decoder through exactly one complete escape
/// sequence: it opens with the escape introducer, the machine stays inside
/// the sequence at every proper prefix, and the final character returns the
/// machine to a clean ground state.
pub open spec fn is_complete_sequence(s: Seq<char>) -> bool {
    &&& s.len() >= 2
    &&& s[0] == '\x1b'
    &&& forall|i: int|
        1 <= i < s.len() ==> !((#[trigger] run(decoder_init(), s.take(i))).0.mode is Ground)
    &&& run(decoder_init(), s).0 == decoder_init()
}

/// Decoding composes at any cut where the machine is not about to flush
/// pending text: from any starting state, decoding `a` then `b` in two
/// calls yields exactly the operations of decoding `a + b` in one call,
/// and leaves the decoder in the same state. Inside an escape sequence, or
/// with an empty buffer, the cut condition holds.
pub proof fn lemma_decode_append(m: DecoderModel, a: Seq<char>, b: Seq<char>)
    requires
        no_pending_text(run(m, a).0),
    ensures
        decode_spec(decode_spec(m, a).0, b).0 == decode_spec(m, a + b).0,
        decode_spec(m, a).1 + decode_spec(decode_spec(m, a).0, b).1 == decode_spec(m, a + b).1,
{
    let mid = run(m, a).0;
    lemma_run_append(m, a, b);
    assert(decode_spec(m, a).1 + decode_spec(mid, b).1 =~= decode_spec(m, a + b).1);
}

/// Resumability: splitting a complete escape sequence at any character
/// offset and decoding the two pieces in two calls yields exactly the
/// operations of decoding it in one call, and leaves the decoder in the
/// same state.
pub proof fn lemma_decode_resumable(s: Seq<char>, i: int)
    requires
        is_complete_sequence(s),
        0 <= i <= s.len(),
    ensures
        decode_spec(decode_spec(decoder_init(), s.take(i)).0, s.skip(i)).0 == decode_spec(
            decoder_init(),
            s,
        ).0,
        decode_spec(decoder_init(), s.take(i)).1 + decode_spec(
            decode_spec(decoder_init(), s.take(i)).0,
            s.skip(i),
        ).1 == decode_spec(decoder_init(), s).1,
{
    let init = decoder_init();
    let mid = run(init, s.take(i)).0;
    if i == 0 {
        assert(s.take(0) =~= Seq::<char>::empty());
        assert(mid == init);
    } else if i == s.len() {
        assert(s.take(i) =~= s);
        assert(mid == init);
    }
    assert(no_pending_text(mid));
    lemma_decode_append(init, s.take(i), s.skip(i));
    assert(s.take(i) + s.skip(i) =~= s);
}

/// The family a character selects, executable form.
fn family_of(c: char) -> (r: Option<SeqFamily>)
    ensures
        r == intro_family(c),
{
    if c == '[' {
        Some(SeqFamily::Csi)
    } else if c == ']' {
        Some(SeqFamily::Osc)
    } else if c == 'P' {
        Some(SeqFamily::Dcs)
    } else if c == '^' {
        Some(SeqFamily::Pm)
    } else if c == '_' {
        Some(SeqFamily::Apc)
    } else if c == 'N' {
        Some(SeqFamily::Ss2)
    } else if c == 'O' {
        Some(SeqFamily::Ss3)
    } else {
        None
    }
}

/// Whether a character ends a control sequence, executable form.
fn csi_final(c: char) -> (r: bool)
    ensures
        r == is_csi_final(c),
{
    ('A' <= c && c <= 'Z') || ('a' <= c && c <= 'z')
}

/// The prefix before the first `sep` and what follows it, if anything.
fn split_once_chars(v: &[char], sep: char) -> (r: (Vec<char>, Option<Vec<char>>))
    ensures
        r.0@ == split_once(v@, sep).0,
        r.1 is Some <==> split_once(v@, sep).1 is Some,
        r.1 matches Some(b) ==> split_once(v@, sep).1 == Some(b@),
{
    match find_char(v, sep, 0) {
        Some(i) => {
            let vn = v.len();
            proof {
                lemma_find_char_from(v@, sep, 0);
                assert((i as int) < v@.len());
            }
            let a = sub_chars(v, 0, i);
            let b = sub_chars(v, i + 1, vn);
            proof {
                assert(a@ =~= v@.take(i as int));
                assert(b@ =~= v@.skip(i + 1));
            }
            (a, Some(b))
        },
        None => {
            let a = sub_chars(v, 0, v.len());
            proof {
                assert(a@ =~= v@);
            }
            (a, None)
        },
    }
}

/// Decode a terminated control sequence into its operation.
fn parse_csi_chars(buf: &Vec<char>) -> (r: AnsiCommand)
    ensures
        r@ == csi_op(buf@),
{
    proof {
        reveal(csi_op);
    }
    let n = buf.len();
    if !(n >= 3 && buf[0] == '\x1b' && buf[1] == '[') {
        return AnsiCommand::Unknown(chars_to_string(buf));
    }
    let c = buf[n - 1];
    proof {
        assert(buf@.last() == buf@[n - 1]);
    }
    let ps = sub_chars(buf.as_slice(), 2, n - 1);
    proof {
        assert(ps@ =~= buf@.subrange(2, buf@.len() - 1));
    }
    let pn = parse_params_u16(ps.as_slice());
    if c == 'A' {
        AnsiCommand::CursorUp(nth_or_u16(&pn, 0, 1))
    } else if c == 'B' {
        AnsiCommand::CursorDown(nth_or_u16(&pn, 0, 1))
    } else if c == 'C' {
        AnsiCommand::CursorRight(nth_or_u16(&pn, 0, 1))
    } else if c == 'D' {
        AnsiCommand::CursorLeft(nth_or_u16(&pn, 0, 1))
    } else if c == 'E' {
        AnsiCommand::CursorNextLine(nth_or_u16(&pn, 0, 1))
    } else if c == 'F' {
        AnsiCommand::CursorPrevLine(nth_or_u16(&pn, 0, 1))
    } else if c == 'G' {
        AnsiCommand::CursorColumn(nth_or_u16(&pn, 0, 1))
    } else if c == 'H' || c == 'f' {
        AnsiCommand::CursorPosition(nth_or_u16(&pn, 0, 1), nth_or_u16(&pn, 1, 1))
    } else if c == 's' {
        AnsiCommand::CursorSave
    } else if c == 'u' {
        AnsiCommand::CursorRestore
    } else if c == 'J' {
        let m = nth_or_u16(&pn, 0, 0);
        if m == 0 {
            AnsiCommand::ClearFromCursor
        } else if m == 1 {
            AnsiCommand::ClearToCursor
        } else if m == 2 || m == 3 {
            AnsiCommand::ClearScreen
        } else {
            AnsiCommand::Unknown(chars_to_string(buf))
        }
    } else if c == 'K' {
        let m = nth_or_u16(&pn, 0, 0);
        if m == 0 {
            AnsiCommand::ClearToEndOfLine
        } else if m == 1 {
            AnsiCommand::ClearToBeginningOfLine
        } else if m == 2 {
            AnsiCommand::ClearLine
        } else {
            AnsiCommand::Unknown(chars_to_string(buf))
        }
    } else if c == 'L' {
        AnsiCommand::InsertLines(nth_or_u16(&pn, 0, 1))
    } else if c == 'M' {
        AnsiCommand::DeleteLines(nth_or_u16(&pn, 0, 1))
    } else if c == 'P' {
        AnsiCommand::DeleteCharacters(nth_or_u16(&pn, 0, 1))
    } else if c == '@' {
        AnsiCommand::InsertCharacters(nth_or_u16(&pn, 0, 1))
    } else if c == 'S' {
        AnsiCommand::ScrollUp(nth_or_u16(&pn, 0, 1))
    } else if c == 'T' {
        AnsiCommand::ScrollDown(nth_or_u16(&pn, 0, 1))
    } else if c == 'r' {
        AnsiCommand::SetScrollRegion(nth_or_u16(&pn, 0, 1), nth_or_u16(&pn, 1, 24))
    } else if c == 'm' {
        AnsiCommand::SetGraphicsMode(parse_params_u8(ps.as_slice()))
    } else if c == 'q' && ps.len() > 0 && ps[0] == ' ' {
        let m = nth_or_u16(&pn, 0, 1);
        if m == 0 || m == 1 {
            AnsiCommand::SetCursorStyle(CursorStyle::BlinkingBlock)
        } else if m == 2 {
            AnsiCommand::SetCursorStyle(CursorStyle::Block)
        } else if m == 3 {
            AnsiCommand::SetCursorStyle(CursorStyle::BlinkingUnderline)
        } else if m == 4 {
            AnsiCommand::SetCursorStyle(CursorStyle::Underline)
        } else if m == 5 {
            AnsiCommand::SetCursorStyle(CursorStyle::BlinkingBar)
        } else if m == 6 {
            AnsiCommand::SetCursorStyle(CursorStyle::Bar)
        } else {
            AnsiCommand::Unknown(chars_to_string(buf))
        }
    } else if c == 'h' {
        if slice_eq_str(ps.as_slice(), "?1000") {
            AnsiCommand::EnableMouseReporting(MouseReportMode::Normal)
        } else if slice_eq_str(ps.as_slice(), "?1002") {
            AnsiCommand::EnableMouseReporting(MouseReportMode::Button)
        } else if slice_eq_str(ps.as_slice(), "?1003") {
            AnsiCommand::EnableMouseReporting(MouseReportMode::Any)
        } else if slice_eq_str(ps.as_slice(), "?1006") {
            AnsiCommand::EnableMouseReporting(MouseReportMode::SGR)
        } else if slice_eq_str(ps.as_slice(), "?1049") || slice_eq_str(ps.as_slice(), "?47") {
            AnsiCommand::EnterAlternateScreen
        } else if slice_eq_str(ps.as_slice(), "?25") {
            AnsiCommand::ShowCursor
        } else if slice_eq_str(ps.as_slice(), "?2004") {
            AnsiCommand::EnableBracketedPaste
        } else if slice_eq_str(ps.as_slice(), "?1004") {
            AnsiCommand::EnableFocusEvents
        } else if slice_eq_str(ps.as_slice(), "?2026") {
            AnsiCommand::BeginSynchronizedUpdate
        } else {
            AnsiCommand::Unknown(chars_to_string(buf))
        }
    } else if c == 'l' {
        if slice_eq_str(ps.as_slice(), "?1000") {
            AnsiCommand::DisableMouseReporting(MouseReportMode::Normal)
        } else if slice_eq_str(ps.as_slice(), "?1002") {
            AnsiCommand::DisableMouseReporting(MouseReportMode::Button)
        } else if slice_eq_str(ps.as_slice(), "?1003") {
            AnsiCommand::DisableMouseReporting(MouseReportMode::Any)
        } else if slice_eq_str(ps.as_slice(), "?1006") {
            AnsiCommand::DisableMouseReporting(MouseReportMode::SGR)
        } else if slice_eq_str(ps.as_slice(), "?1049") || slice_eq_str(ps.as_slice(), "?47") {
            AnsiCommand::ExitAlternateScreen
        } else if slice_eq_str(ps.as_slice(), "?25") {
            AnsiCommand::HideCursor
        } else if slice_eq_str(ps.as_slice(), "?2004") {
            AnsiCommand::DisableBracketedPaste
        } else if slice_eq_str(ps.as_slice(), "?1004") {
            AnsiCommand::DisableFocusEvents
        } else if slice_eq_str(ps.as_slice(), "?2026") {
            AnsiCommand::EndSynchronizedUpdate
        } else {
            AnsiCommand::Unknown(chars_to_string(buf))
        }
    } else {
        AnsiCommand::Unknown(chars_to_string(buf))
    }
}

/// Decode a terminated operating-system command into its operation.
fn parse_osc_chars(buf: &Vec<char>) -> (r: AnsiCommand)
    ensures
        r@ == osc_op(buf@),
{
    proof {
        reveal(osc_op);
    }
    let n = buf.len();
    if !(n >= 2 && buf[0] == '\x1b' && buf[1] == ']') {
        return AnsiCommand::Unknown(chars_to_string(buf));
    }
    let content = sub_chars(buf.as_slice(), 2, n);
    proof {
        assert(content@ =~= buf@.skip(2));
    }
    let (head, rest) = split_once_chars(content.as_slice(), ';');
    match parse_u16_chars(head.as_slice()) {
        None => AnsiCommand::Unknown(chars_to_string(buf)),
        Some(num) => {
            if num == 0 || num == 2 {
                let title = match rest {
                    Some(v) => chars_to_string(&v),
                    None => String::new(),
                };
                AnsiCommand::SetWindowTitle(title)
            } else if num == 1 {
                let title = match rest {
                    Some(v) => chars_to_string(&v),
                    None => String::new(),
                };
                AnsiCommand::SetIconTitle(title)
            } else if num == 8 {
                let payload = match rest {
                    Some(v) => v,
                    None => Vec::new(),
                };
                let inner = split_once_chars(payload.as_slice(), ';');
                let url = match inner.1 {
                    Some(v) => chars_to_string(&v),
                    None => String::new(),
                };
                AnsiCommand::SetHyperlink(url, String::new())
            } else if num == 1337 {
                match rest {
                    Some(data) => {
                        if starts_with_str(data.as_slice(), "File=") {
                            proof {
                                reveal_strlit("File=");
                            }
                            let tail = sub_chars(data.as_slice(), 5, data.len());
                            proof {
                                assert(tail@ =~= data@.skip("File="@.len() as int));
                            }
                            let encoded = chars_to_string(&tail);
                            match b64_decode(encoded.as_str()) {
                                Some(bytes) => AnsiCommand::DisplayImage(
                                    ImageData {
                                        format: String::from_str("png"),
                                        width: None,
                                        height: None,
                                        data: bytes,
                                    },
                                ),
                                None => AnsiCommand::Unknown(chars_to_string(buf)),
                            }
                        } else {
                            AnsiCommand::Unknown(chars_to_string(buf))
                        }
                    },
                    None => AnsiCommand::Unknown(chars_to_string(buf)),
                }
            } else {
                AnsiCommand::Unknown(chars_to_string(buf))
            }
        },
    }
}

/// Decode a terminated device-control string into its operation.
fn parse_dcs_chars(buf: &Vec<char>) -> (r: AnsiCommand)
    ensures
        r@ == dcs_op(buf@),
{
    proof {
        reveal(dcs_op);
    }
    let n = buf.len();
    if !(n >= 2 && buf[0] == '\x1b' && buf[1] == 'P') {
        return AnsiCommand::Unknown(chars_to_string(buf));
    }
    let content = sub_chars(buf.as_slice(), 2, n);
    proof {
        assert(content@ =~= buf@.skip(2));
    }
    let sixel = (content.len() > 0 && content[0] == 'q') || contains_char(content.as_slice(), '#');
    if sixel {
        let s = chars_to_string(&content);
        AnsiCommand::DisplaySixel(s.as_str().as_bytes_vec())
    } else {
        AnsiCommand::DeviceControlString(chars_to_string(&content))
    }
}

/// Decode a terminated string-family sequence into its operation.
fn parse_string_chars(f: SeqFamily, buf: &Vec<char>) -> (r: AnsiCommand)
    ensures
        r@ == string_op(f, buf@),
{
    if buf.len() < 2 {
        return AnsiCommand::Unknown(chars_to_string(buf));
    }
    match f {
        SeqFamily::Osc => parse_osc_chars(buf),
        SeqFamily::Dcs => parse_dcs_chars(buf),
        _ => AnsiCommand::Unknown(chars_to_string(buf)),
    }
}

/// The resumable decoder: accumulation buffer, mode, and the attribute state
/// that graphics-mode parameters fold into, plus the saved cursor, open
/// hyperlinks and synchronized-update flag the stream can carry.
#[derive(Debug)]
pub struct AnsiParser {
    buffer: Vec<char>,
    mode: DecodeMode,
    current_attributes: CharAttributes,
    capabilities: TerminalCapabilities,
    saved_cursor: Option<CursorPosition>,
    hyperlink_stack: Vec<HyperlinkParams>,
    in_synchronized_update: bool,
}

impl AnsiParser {
    /// The decoder state this parser is in.
    pub closed spec fn model(&self) -> DecoderModel {
        DecoderModel { mode: self.mode, buf: self.buffer@ }
    }

    /// The attribute state printed characters currently carry.
    pub closed spec fn attrs(&self) -> CharAttributes {
        self.current_attributes
    }

    /// The capability set the parser was created with.
    pub closed spec fn caps(&self) -> TerminalCapabilities {
        self.capabilities
    }

    /// The stream-carried side state: saved cursor, open hyperlinks, and the
    /// synchronized-update flag.
    pub closed spec fn side_state(&self) -> (Option<CursorPosition>, Seq<HyperlinkParams>, bool) {
        (self.saved_cursor, self.hyperlink_stack@, self.in_synchronized_update)
    }

    /// A fresh decoder with the fallback capability set.
    pub fn new() -> (p: AnsiParser)
        ensures
            p.model() == decoder_init(),
            p.attrs() == default_attributes(),
            p.caps() == crate::terminal_types::spec_default_capabilities(),
            p.side_state() == (None::<CursorPosition>, Seq::<HyperlinkParams>::empty(), false),
    {
        AnsiParser::with_capabilities(TerminalCapabilities::fallback())
    }

    /// A fresh decoder for a terminal with the given capabilities.
    pub fn with_capabilities(capabilities: TerminalCapabilities) -> (p: AnsiParser)
        ensures
            p.model() == decoder_init(),
            p.attrs() == default_attributes(),
            p.caps() == capabilities,
            p.side_state() == (None::<CursorPosition>, Seq::<HyperlinkParams>::empty(), false),
    {
        AnsiParser {
            buffer: Vec::new(),
            mode: DecodeMode::Ground,
            current_attributes: CharAttributes::plain(),
            capabilities,
            saved_cursor: None,
            hyperlink_stack: Vec::new(),
            in_synchronized_update: false,
        }
    }

    /// Emit the pending plain text, if any, and clear the buffer.
    fn flush_text(&mut self, out: &mut Vec<AnsiCommand>)
        ensures
            final(self).model() == (DecoderModel {
                mode: old(self).model().mode,
                buf: Seq::<char>::empty(),
            }),
            ops_view(final(out)@) == ops_view(old(out)@) + flush_ops(old(self).model().buf),
            final(self).attrs() == old(self).attrs(),
            final(self).caps() == old(self).caps(),
            final(self).side_state() == old(self).side_state(),
    {
        if self.buffer.len() > 0 {
            let text = chars_to_string(&self.buffer);
            let ghost before = out@;
            out.push(AnsiCommand::PrintText(text));
            self.buffer.clear();
            proof {
                lemma_ops_view_push(before, AnsiCommand::PrintText(text));
                assert(ops_view(out@) =~= ops_view(before) + flush_ops(old(self).model().buf));
            }
        } else {
            proof {
                assert(self.model().buf =~= Seq::<char>::empty());
                assert(ops_view(out@) =~= ops_view(out@) + flush_ops(old(self).model().buf));
            }
        }
    }

    /// Feed one character through the machine, appending whatever it emits.
    fn step_char(&mut self, c: char, out: &mut Vec<AnsiCommand>)
        ensures
            final(self).model() == step(old(self).model(), c).0,
            ops_view(final(out)@) == ops_view(old(out)@) + step(old(self).model(), c).1,
            final(self).attrs() == old(self).attrs(),
            final(self).caps() == old(self).caps(),
            final(self).side_state() == old(self).side_state(),
    {
        match self.mode {
            DecodeMode::Ground => self.ground_char(c, out),
            DecodeMode::Intro => self.intro_char(c, out),
            DecodeMode::Accum(f) => self.accum_char(f, c, out),
            DecodeMode::AccumEsc(f) => self.accum_esc_char(f, c, out),
        }
    }

    /// One character in ground mode: control characters act at once, an
    /// escape starts a sequence, anything else joins the pending text.
    fn ground_char(&mut self, c: char, out: &mut Vec<AnsiCommand>)
        requires
            old(self).model().mode is Ground,
        ensures
            final(self).model() == step(old(self).model(), c).0,
            ops_view(final(out)@) == ops_view(old(out)@) + step(old(self).model(), c).1,
            final(self).attrs() == old(self).attrs(),
            final(self).caps() == old(self).caps(),
            final(self).side_state() == old(self).side_state(),
    {
        if c == '\x1b' {
            self.flush_text(out);
            self.mode = DecodeMode::Intro;
            self.buffer.push('\x1b');
            proof {
                assert(self.model().buf =~= seq!['\x1b']);
            }
        } else if c == '\r' {
            self.flush_text(out);
            self.push_op(out, AnsiCommand::CursorColumn(1));
        } else if c == '\n' {
            self.flush_text(out);
            self.push_op(out, AnsiCommand::CursorDown(1));
        } else if c == '\x07' {
            self.flush_text(out);
            self.push_op(out, AnsiCommand::Bell);
        } else if c == '\t' {
            self.flush_text(out);
            self.push_op(out, AnsiCommand::CursorRight(8));
        } else if c == '\x08' {
            self.flush_text(out);
            self.push_op(out, AnsiCommand::CursorLeft(1));
        } else {
            self.buffer.push(c);
        }
    }

    /// One character right after the escape introducer: it selects the
    /// sequence family, or joins the buffer while the family stays open.
    fn intro_char(&mut self, c: char, out: &mut Vec<AnsiCommand>)
        requires
            old(self).model().mode is Intro,
        ensures
            final(self).model() == step(old(self).model(), c).0,
            ops_view(final(out)@) == ops_view(old(out)@) + step(old(self).model(), c).1,
            final(self).attrs() == old(self).attrs(),
            final(self).caps() == old(self).caps(),
            final(self).side_state() == old(self).side_state(),
    {
        self.buffer.push(c);
        match family_of(c) {
            Some(f) => {
                self.mode = DecodeMode::Accum(f);
            },
            None => (),
        }
        proof {
            assert(ops_view(out@) =~= ops_view(out@) + step(old(self).model(), c).1);
        }
    }

    /// One character inside an accumulating sequence of family `f`.
    fn accum_char(&mut self, f: SeqFamily, c: char, out: &mut Vec<AnsiCommand>)
        requires
            old(self).model().mode == DecodeMode::Accum(f),
        ensures
            final(self).model() == step(old(self).model(), c).0,
            ops_view(final(out)@) == ops_view(old(out)@) + step(old(self).model(), c).1,
            final(self).attrs() == old(self).attrs(),
            final(self).caps() == old(self).caps(),
            final(self).side_state() == old(self).side_state(),
    {
        let stringish = matches!(f, SeqFamily::Osc | SeqFamily::Dcs | SeqFamily::Pm | SeqFamily::Apc);
        if stringish {
            if c == '\x07' {
                let cmd = parse_string_chars(f, &self.buffer);
                self.push_op(out, cmd);
                self.buffer.clear();
                self.mode = DecodeMode::Ground;
                proof {
                    assert(self.model().buf =~= Seq::<char>::empty());
                    assert(ops_view(out@) =~= ops_view(old(out)@) + step(old(self).model(), c).1);
                }
            } else if c == '\x1b' {
                self.mode = DecodeMode::AccumEsc(f);
                proof {
                    assert(ops_view(out@) =~= ops_view(out@) + step(old(self).model(), c).1);
                }
            } else {
                self.buffer.push(c);
                proof {
                    assert(ops_view(out@) =~= ops_view(out@) + step(old(self).model(), c).1);
                }
            }
        } else if matches!(f, SeqFamily::Csi) {
            if c == '\x1b' {
                self.buffer.push(c);
                self.mode = DecodeMode::Intro;
                proof {
                    assert(ops_view(out@) =~= ops_view(out@) + step(old(self).model(), c).1);
                }
            } else if csi_final(c) {
                self.buffer.push(c);
                let cmd = parse_csi_chars(&self.buffer);
                self.push_op(out, cmd);
                self.buffer.clear();
                self.mode = DecodeMode::Ground;
                proof {
                    assert(self.model().buf =~= Seq::<char>::empty());
                    assert(ops_view(out@) =~= ops_view(old(out)@) + step(old(self).model(), c).1);
                }
            } else {
                self.buffer.push(c);
                proof {
                    assert(ops_view(out@) =~= ops_view(out@) + step(old(self).model(), c).1);
                }
            }
        } else {
            self.buffer.push(c);
            if c == '\x1b' {
                self.mode = DecodeMode::Intro;
            }
            proof {
                assert(ops_view(out@) =~= ops_view(out@) + step(old(self).model(), c).1);
            }
        }
    }

    /// One character after an escape inside a string-family sequence: a
    /// backslash terminates the string; anything else folds the escape into
    /// the buffer and restarts family selection.
    fn accum_esc_char(&mut self, f: SeqFamily, c: char, out: &mut Vec<AnsiCommand>)
        requires
            old(self).model().mode == DecodeMode::AccumEsc(f),
        ensures
            final(self).model() == step(old(self).model(), c).0,
            ops_view(final(out)@) == ops_view(old(out)@) + step(old(self).model(), c).1,
            final(self).attrs() == old(self).attrs(),
            final(self).caps() == old(self).caps(),
            final(self).side_state() == old(self).side_state(),
    {
        if c == '\\' {
            let cmd = parse_string_chars(f, &self.buffer);
            self.push_op(out, cmd);
            self.buffer.clear();
            self.mode = DecodeMode::Ground;
            proof {
                assert(self.model().buf =~= Seq::<char>::empty());
                assert(ops_view(out@) =~= ops_view(old(out)@) + step(old(self).model(), c).1);
            }
        } else {
            self.buffer.push('\x1b');
            self.buffer.push(c);
            match family_of(c) {
                Some(g) => {
                    self.mode = DecodeMode::Accum(g);
                },
                None => {
                    self.mode = DecodeMode::Intro;
                },
            }
            proof {
                assert(ops_view(out@) =~= ops_view(out@) + step(old(self).model(), c).1);
            }
        }
    }

    /// Append one operation, leaving the decoder state alone.
    fn push_op(&mut self, out: &mut Vec<AnsiCommand>, cmd: AnsiCommand)
        ensures
            *final(self) == *old(self),
            ops_view(final(out)@) == ops_view(old(out)@).push(cmd@),
    {
        let ghost before = out@;
        out.push(cmd);
        proof {
            lemma_ops_view_push(before, cmd);
        }
    }

    /// Decode one chunk of text into the operations it denotes, consuming
    /// and updating the machine's state. An incomplete trailing escape
    /// sequence stays buffered for the next call; trailing plain text is
    /// emitted and the buffer cleared.
    pub fn parse(&mut self, input: &str) -> (r: Vec<AnsiCommand>)
        ensures
            final(self).model() == decode_spec(old(self).model(), input@).0,
            ops_view(r@) == decode_spec(old(self).model(), input@).1,
            final(self).attrs() == old(self).attrs(),
            final(self).caps() == old(self).caps(),
            final(self).side_state() == old(self).side_state(),
    {
        let ghost m0 = self.model();
        let ghost a0 = self.attrs();
        let ghost c0 = self.caps();
        let ghost s0 = self.side_state();
        let cs = str_chars(input);
        let mut out: Vec<AnsiCommand> = Vec::new();
        let n = cs.len();
        let mut i: usize = 0;
        proof {
            assert(input@.take(0) =~= Seq::<char>::empty());
            assert(ops_view(out@) =~= run(m0, input@.take(0)).1);
        }
        while i < n
            invariant
                0 <= i <= n,
                n == cs@.len(),
                cs@ == input@,
                self.model() == run(m0, input@.take(i as int)).0,
                ops_view(out@) == run(m0, input@.take(i as int)).1,
                self.attrs() == a0,
                self.caps() == c0,
                self.side_state() == s0,
            decreases n - i,
        {
            let ghost pre = input@.take(i as int);
            proof {
                assert(pre.push(input@[i as int]) =~= input@.take(i + 1));
                lemma_run_snoc(m0, pre, input@[i as int]);
            }
            self.step_char(cs[i], &mut out);
            i = i + 1;
        }
        proof {
            assert(input@.take(n as int) =~= input@);
        }
        let flush = matches!(self.mode, DecodeMode::Ground) && self.buffer.len() > 0;
        if flush {
            let text = chars_to_string(&self.buffer);
            self.push_op(&mut out, AnsiCommand::PrintText(text));
            self.buffer.clear();
            proof {
                assert(self.model().buf =~= Seq::<char>::empty());
                assert(ops_view(out@) =~= decode_spec(m0, input@).1);
            }
        } else {
            proof {
                assert(ops_view(out@) =~= decode_spec(m0, input@).1);
            }
        }
        out
    }

    /// Fold a list of graphics-mode parameters into the attribute state.
    pub fn apply_graphics_mode(&mut self, params: &[u8])
        ensures
            final(self).attrs() == sgr_apply(old(self).attrs(), params@),
            final(self).model() == old(self).model(),
            final(self).caps() == old(self).caps(),
            final(self).side_state() == old(self).side_state(),
    {
        let ghost a0 = self.attrs();
        let ghost m0 = self.model();
        let ghost c0 = self.caps();
        let ghost s0 = self.side_state();
        let n = params.len();
        let mut i: usize = 0;
        proof {
            assert(params@.take(0) =~= Seq::<u8>::empty());
        }
        while i < n
            invariant
                0 <= i <= n,
                n == params@.len(),
                self.attrs() == sgr_apply(a0, params@.take(i as int)),
                self.model() == m0,
                self.caps() == c0,
                self.side_state() == s0,
            decreases n - i,
        {
            proof {
                assert(params@.take(i + 1).drop_last() =~= params@.take(i as int));
                assert(params@.take(i + 1).last() == params@[i as int]);
            }
            self.current_attributes = sgr_step_attrs(self.current_attributes, params[i]);
            i = i + 1;
        }
        proof {
            assert(params@.take(n as int) =~= params@);
        }
    }

    /// The attribute state printed characters currently carry.
    pub fn current_attributes(&self) -> (r: &CharAttributes)
        ensures
            *r == self.attrs(),
    {
        &self.current_attributes
    }
}

} // verus!

//! Escape-sequence decoder: a resumable state machine that turns chunks of
//! terminal output into structured operations, together with the character
//! attribute state that graphics-mode sequences accumulate.

use vstd::prelude::*;

verus! {

/// An RGBA color attached to a character cell.
#[derive(Debug, Clone, Copy, PartialEq, Eq, Structural)]
pub struct Color {
    pub r: u8,
    pub g: u8,
    pub b: u8,
    pub a: u8,
}

impl Color {
    /// A fully opaque color from its three channels.
    pub fn new(r: u8, g: u8, b: u8) -> (c: Color)
        ensures
            c == (Color { r, g, b, a: 255u8 }),
    {
        Color { r, g, b, a: 255 }
    }

    pub fn black() -> (c: Color)
        ensures
            c == (Color { r: 0u8, g: 0u8, b: 0u8, a: 255u8 }),
    {
        Color::new(0, 0, 0)
    }

    pub fn red() -> (c: Color)
        ensures
            c == (Color { r: 255u8, g: 0u8, b: 0u8, a: 255u8 }),
    {
        Color::new(255, 0, 0)
    }

    pub fn green() -> (c: Color)
        ensures
            c == (Color { r: 0u8, g: 255u8, b: 0u8, a: 255u8 }),
    {
        Color::new(0, 255, 0)
    }

    pub fn yellow() -> (c: Color)
        ensures
            c == (Color { r: 255u8, g: 255u8, b: 0u8, a: 255u8 }),
    {
        Color::new(255, 255, 0)
    }

    pub fn blue() -> (c: Color)
        ensures
            c == (Color { r: 0u8, g: 0u8, b: 255u8, a: 255u8 }),
    {
        Color::new(0, 0, 255)
    }

    pub fn magenta() -> (c: Color)
        ensures
            c == (Color { r: 255u8, g: 0u8, b: 255u8, a: 255u8 }),
    {
        Color::new(255, 0, 255)
    }

    pub fn cyan() -> (c: Color)
        ensures
            c == (Color { r: 0u8, g: 255u8, b: 255u8, a: 255u8 }),
    {
        Color::new(0, 255, 255)
    }

    pub fn white() -> (c: Color)
        ensures
            c == (Color { r: 255u8, g: 255u8, b: 255u8, a: 255u8 }),
    {
        Color::new(255, 255, 255)
    }
}

/// The attributes a printed character carries: style flags plus optional
/// foreground and background colors.
#[derive(Debug, Clone, Copy, PartialEq, Eq)]
pub struct CharAttributes {
    pub bold: bool,
    pub italic: bool,
    pub underline: bool,
    pub strikethrough: bool,
    pub reverse: bool,
    pub fg_color: Option<Color>,
    pub bg_color: Option<Color>,
}

/// The attribute state with every flag off and default colors.
pub open spec fn default_attributes() -> CharAttributes {
    CharAttributes {
        bold: false,
        italic: false,
        underline: false,
        strikethrough: false,
        reverse: false,
        fg_color: None,
        bg_color: None,
    }
}

impl CharAttributes {
    /// The attribute state with every flag off and default colors.
    pub fn plain() -> (r: CharAttributes)
        ensures
            r == default_attributes(),
    {
        CharAttributes {
            bold: false,
            italic: false,
            underline: false,
            strikethrough: false,
            reverse: false,
            fg_color: None,
            bg_color: None,
        }
    }
}

impl Default for CharAttributes {
    fn default() -> (r: CharAttributes)
        ensures
            r == default_attributes(),
    {
        CharAttributes::plain()
    }
}

/// A zero-based cursor position inside the grid.
#[derive(Debug, Clone, Copy, PartialEq, Eq, Structural)]
pub struct CursorPosition {
    pub row: u16,
    pub col: u16,
}

#[derive(Debug, Clone, Copy, PartialEq, Eq, Structural)]
pub enum CursorStyle {
    Block,
    Underline,
    Bar,
    BlinkingBlock,
    BlinkingUnderline,
    BlinkingBar,
}

#[derive(Debug, Clone, Copy, PartialEq, Eq, Structural)]
pub enum MouseReportMode {
    X10,
    Normal,
    Button,
    Any,
    SGR,
    URXVT,
}

/// An inline image payload carried by a proprietary escape sequence.
#[derive(Debug, Clone, PartialEq, Eq)]
pub struct ImageData {
    pub format: String,
    pub width: Option<u32>,
    pub height: Option<u32>,
    pub data: Vec<u8>,
}

/// Parameters of an open hyperlink.
#[derive(Debug, Clone, PartialEq, Eq)]
pub struct HyperlinkParams {
    pub id: Option<String>,
    pub url: String,
}

/// One structured terminal operation produced by the decoder.
#[derive(Debug, Clone, PartialEq)]
pub enum AnsiCommand {
    CursorUp(u16),
    CursorDown(u16),
    CursorLeft(u16),
    CursorRight(u16),
    CursorPosition(u16, u16),
    CursorHome,
    CursorNextLine(u16),
    CursorPrevLine(u16),
    CursorColumn(u16),
    CursorSave,
    CursorRestore,
    SetCursorStyle(CursorStyle),
    ShowCursor,
    HideCursor,
    ClearScreen,
    ClearLine,
    ClearToEndOfLine,
    ClearToBeginningOfLine,
    ClearFromCursor,
    ClearToCursor,
    EnterAlternateScreen,
    ExitAlternateScreen,
    SetGraphicsMode(Vec<u8>),
    ScrollUp(u16),
    ScrollDown(u16),
    SetScrollRegion(u16, u16),
    PrintText(String),
    InsertCharacters(u16),
    DeleteCharacters(u16),
    InsertLines(u16),
    DeleteLines(u16),
    EnableMouseReporting(MouseReportMode),
    DisableMouseReporting(MouseReportMode),
    EnableBracketedPaste,
    DisableBracketedPaste,
    EnableFocusEvents,
    DisableFocusEvents,
    SetWindowTitle(String),
    SetIconTitle(String),
    ResizeWindow(u16, u16),
    MoveWindow(i16, i16),
    MinimizeWindow,
    MaximizeWindow,
    RestoreWindow,
    ReportWindowSize,
    ReportWindowPosition,
    SetHyperlink(String, String),
    DisplayImage(ImageData),
    DisplaySixel(Vec<u8>),
    BeginSynchronizedUpdate,
    EndSynchronizedUpdate,
    DeviceControlString(String),
    Bell,
    VisualBell,
    Unknown(String),
}

/// The mathematical image of one [`ImageData`] value.
pub struct ImageDataModel {
    pub format: Seq<char>,
    pub width: Option<u32>,
    pub height: Option<u32>,
    pub data: Seq<u8>,
}

impl View for ImageData {
    type V = ImageDataModel;

    open spec fn view(&self) -> ImageDataModel {
        ImageDataModel {
            format: self.format@,
            width: self.width,
            height: self.height,
            data: self.data@,
        }
    }
}

/// The mathematical image of one [`AnsiCommand`]: the same shape with text
/// and byte payloads replaced by their sequences.
pub enum Op {
    CursorUp(u16),
    CursorDown(u16),
    CursorLeft(u16),
    CursorRight(u16),
    CursorPosition(u16, u16),
    CursorHome,
    CursorNextLine(u16),
    CursorPrevLine(u16),
    CursorColumn(u16),
    CursorSave,
    CursorRestore,
    SetCursorStyle(CursorStyle),
    ShowCursor,
    HideCursor,
    ClearScreen,
    ClearLine,
    ClearToEndOfLine,
    ClearToBeginningOfLine,
    ClearFromCursor,
    ClearToCursor,
    EnterAlternateScreen,
    ExitAlternateScreen,
    SetGraphicsMode(Seq<u8>),
    ScrollUp(u16),
    ScrollDown(u16),
    SetScrollRegion(u16, u16),
    PrintText(Seq<char>),
    InsertCharacters(u16),
    DeleteCharacters(u16),
    InsertLines(u16),
    DeleteLines(u16),
    EnableMouseReporting(MouseReportMode),
    DisableMouseReporting(MouseReportMode),
    EnableBracketedPaste,
    DisableBracketedPaste,
    EnableFocusEvents,
    DisableFocusEvents,
    SetWindowTitle(Seq<char>),
    SetIconTitle(Seq<char>),
    ResizeWindow(u16, u16),
    MoveWindow(i16, i16),
    MinimizeWindow,
    MaximizeWindow,
    RestoreWindow,
    ReportWindowSize,
    ReportWindowPosition,
    SetHyperlink(Seq<char>, Seq<char>),
    DisplayImage(ImageDataModel),
    DisplaySixel(Seq<u8>),
    BeginSynchronizedUpdate,
    EndSynchronizedUpdate,
    DeviceControlString(Seq<char>),
    Bell,
    VisualBell,
    Unknown(Seq<char>),
}

impl View for AnsiCommand {
    type V = Op;

    open spec fn view(&self) -> Op {
        match self {
            AnsiCommand::CursorUp(n) => Op::CursorUp(*n),
            AnsiCommand::CursorDown(n) => Op::CursorDown(*n),
            AnsiCommand::CursorLeft(n) => Op::CursorLeft(*n),
            AnsiCommand::CursorRight(n) => Op::CursorRight(*n),
            AnsiCommand::CursorPosition(r, c) => Op::CursorPosition(*r, *c),
            AnsiCommand::CursorHome => Op::CursorHome,
            AnsiCommand::CursorNextLine(n) => Op::CursorNextLine(*n),
            AnsiCommand::CursorPrevLine(n) => Op::CursorPrevLine(*n),
            AnsiCommand::CursorColumn(n) => Op::CursorColumn(*n),
            AnsiCommand::CursorSave => Op::CursorSave,
            AnsiCommand::CursorRestore => Op::CursorRestore,
            AnsiCommand::SetCursorStyle(s) => Op::SetCursorStyle(*s),
            AnsiCommand::ShowCursor => Op::ShowCursor,
            AnsiCommand::HideCursor => Op::HideCursor,
            AnsiCommand::ClearScreen => Op::ClearScreen,
            AnsiCommand::ClearLine => Op::ClearLine,
            AnsiCommand::ClearToEndOfLine => Op::ClearToEndOfLine,
            AnsiCommand::ClearToBeginningOfLine => Op::ClearToBeginningOfLine,
            AnsiCommand::ClearFromCursor => Op::ClearFromCursor,
            AnsiCommand::ClearToCursor => Op::ClearToCursor,
            AnsiCommand::EnterAlternateScreen => Op::EnterAlternateScreen,
            AnsiCommand::ExitAlternateScreen => Op::ExitAlternateScreen,
            AnsiCommand::SetGraphicsMode(ps) => Op::SetGraphicsMode(ps@),
            AnsiCommand::ScrollUp(n) => Op::ScrollUp(*n),
            AnsiCommand::ScrollDown(n) => Op::ScrollDown(*n),
            AnsiCommand::SetScrollRegion(t, b) => Op::SetScrollRegion(*t, *b),
            AnsiCommand::PrintText(s) => Op::PrintText(s@),
            AnsiCommand::InsertCharacters(n) => Op::InsertCharacters(*n),
            AnsiCommand::DeleteCharacters(n) => Op::DeleteCharacters(*n),
            AnsiCommand::InsertLines(n) => Op::InsertLines(*n),
            AnsiCommand::DeleteLines(n) => Op::DeleteLines(*n),
            AnsiCommand::EnableMouseReporting(m) => Op::EnableMouseReporting(*m),
            AnsiCommand::DisableMouseReporting(m) => Op::DisableMouseReporting(*m),
            AnsiCommand::EnableBracketedPaste => Op::EnableBracketedPaste,
            AnsiCommand::DisableBracketedPaste => Op::DisableBracketedPaste,
            AnsiCommand::EnableFocusEvents => Op::EnableFocusEvents,
            AnsiCommand::DisableFocusEvents => Op::DisableFocusEvents,
            AnsiCommand::SetWindowTitle(s) => Op::SetWindowTitle(s@),
            AnsiCommand::SetIconTitle(s) => Op::SetIconTitle(s@),
            AnsiCommand::ResizeWindow(w, h) => Op::ResizeWindow(*w, *h),
            AnsiCommand::MoveWindow(x, y) => Op::MoveWindow(*x, *y),
            AnsiCommand::MinimizeWindow => Op::MinimizeWindow,
            AnsiCommand::MaximizeWindow => Op::MaximizeWindow,
            AnsiCommand::RestoreWindow => Op::RestoreWindow,
            AnsiCommand::ReportWindowSize => Op::ReportWindowSize,
            AnsiCommand::ReportWindowPosition => Op::ReportWindowPosition,
            AnsiCommand::SetHyperlink(u, t) => Op::SetHyperlink(u@, t@),
            AnsiCommand::DisplayImage(d) => Op::DisplayImage(d@),
            AnsiCommand::DisplaySixel(b) => Op::DisplaySixel(b@),
            AnsiCommand::BeginSynchronizedUpdate => Op::BeginSynchronizedUpdate,
            AnsiCommand::EndSynchronizedUpdate => Op::EndSynchronizedUpdate,
            AnsiCommand::DeviceControlString(s) => Op::DeviceControlString(s@),
            AnsiCommand::Bell => Op::Bell,
            AnsiCommand::VisualBell => Op::VisualBell,
            AnsiCommand::Unknown(s) => Op::Unknown(s@),
        }
    }
}

/// The sequence of operation models behind a vector of operations.
pub open spec fn ops_view(v: Seq<AnsiCommand>) -> Seq<Op> {
    v.map_values(|c: AnsiCommand| c@)
}

/// Mapping to operation models commutes with appending one operation.
pub proof fn lemma_ops_view_push(s: Seq<AnsiCommand>, c: AnsiCommand)
    ensures
        ops_view(s.push(c)) =~= ops_view(s).push(c@),
{
}

/// What one graphics-mode parameter does to the attribute state: `0` resets
/// everything, low codes set and clear style flags, `30`..`37` and
/// `40`..`47` pick the eight standard colors, `39` and `49` restore the
/// default colors, anything else is ignored.
pub open spec fn sgr_step(a: CharAttributes, p: u8) -> CharAttributes {
    if p == 0 {
        default_attributes()
    } else if p == 1 {
        CharAttributes { bold: true, ..a }
    } else if p == 3 {
        CharAttributes { italic: true, ..a }
    } else if p == 4 {
        CharAttributes { underline: true, ..a }
    } else if p == 7 {
        CharAttributes { reverse: true, ..a }
    } else if p == 9 {
        CharAttributes { strikethrough: true, ..a }
    } else if p == 22 {
        CharAttributes { bold: false, ..a }
    } else if p == 23 {
        CharAttributes { italic: false, ..a }
    } else if p == 24 {
        CharAttributes { underline: false, ..a }
    } else if p == 27 {
        CharAttributes { reverse: false, ..a }
    } else if p == 29 {
        CharAttributes { strikethrough: false, ..a }
    } else if 30 <= p && p <= 37 {
        CharAttributes { fg_color: Some(standard_color((p - 30) as u8)), ..a }
    } else if p == 39 {
        CharAttributes { fg_color: None, ..a }
    } else if 40 <= p && p <= 47 {
        CharAttributes { bg_color: Some(standard_color((p - 40) as u8)), ..a }
    } else if p == 49 {
        CharAttributes { bg_color: None, ..a }
    } else {
        a
    }
}

/// The eight standard terminal colors, indexed `0` (black) to `7` (white).
pub open spec fn standard_color(i: u8) -> Color {
    if i == 0 {
        Color { r: 0u8, g: 0u8, b: 0u8, a: 255u8 }
    } else if i == 1 {
        Color { r: 255u8, g: 0u8, b: 0u8, a: 255u8 }
    } else if i == 2 {
        Color { r: 0u8, g: 255u8, b: 0u8, a: 255u8 }
    } else if i == 3 {
        Color { r: 255u8, g: 255u8, b: 0u8, a: 255u8 }
    } else if i == 4 {
        Color { r: 0u8, g: 0u8, b: 255u8, a: 255u8 }
    } else if i == 5 {
        Color { r: 255u8, g: 0u8, b: 255u8, a: 255u8 }
    } else if i == 6 {
        Color { r: 0u8, g: 255u8, b: 255u8, a: 255u8 }
    } else {
        Color { r: 255u8, g: 255u8, b: 255u8, a: 255u8 }
    }
}

/// Folding a whole graphics-mode parameter list over the attribute state.
pub open spec fn sgr_apply(a: CharAttributes, ps: Seq<u8>) -> CharAttributes
    decreases ps.len(),
{
    if ps.len() == 0 {
        a
    } else {
        sgr_step(sgr_apply(a, ps.drop_last()), ps.last())
    }
}

/// The eight standard terminal colors, executable form.
pub fn standard_color_of(i: u8) -> (c: Color)
    requires
        i <= 7,
    ensures
        c == standard_color(i),
{
    if i == 0 {
        Color::black()
    } else if i == 1 {
        Color::red()
    } else if i == 2 {
        Color::green()
    } else if i == 3 {
        Color::yellow()
    } else if i == 4 {
        Color::blue()
    } else if i == 5 {
        Color::magenta()
    } else if i == 6 {
        Color::cyan()
    } else {
        Color::white()
    }
}

/// Apply one graphics-mode parameter to an attribute state.
pub fn sgr_step_attrs(a: CharAttributes, p: u8) -> (r: CharAttributes)
    ensures
        r == sgr_step(a, p),
{
    if p == 0 {
        CharAttributes::plain()
    } else if p == 1 {
        CharAttributes { bold: true, ..a }
    } else if p == 3 {
        CharAttributes { italic: true, ..a }
    } else if p == 4 {
        CharAttributes { underline: true, ..a }
    } else if p == 7 {
        CharAttributes { reverse: true, ..a }
    } else if p == 9 {
        CharAttributes { strikethrough: true, ..a }
    } else if p == 22 {
        CharAttributes { bold: false, ..a }
    } else if p == 23 {
        CharAttributes { italic: false, ..a }
    } else if p == 24 {
        CharAttributes { underline: false, ..a }
    } else if p == 27 {
        CharAttributes { reverse: false, ..a }
    } else if p == 29 {
        CharAttributes { strikethrough: false, ..a }
    } else if 30 <= p && p <= 37 {
        CharAttributes { fg_color: Some(standard_color_of(p - 30)), ..a }
    } else if p == 39 {
        CharAttributes { fg_color: None, ..a }
    } else if 40 <= p && p <= 47 {
        CharAttributes { bg_color: Some(standard_color_of(p - 40)), ..a }
    } else if p == 49 {
        CharAttributes { bg_color: None, ..a }
    } else {
        a
    }
}

} // verus!

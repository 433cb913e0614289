//! Terminal type identification and capability lookup: a terminfo-like
//! database mapping terminal names to the features they support.

use vstd::prelude::*;
use crate::text::{str_eq, lower_ascii, to_lower_ascii_str};

verus! {

#[derive(Debug, Clone, PartialEq, Eq)]
pub enum TerminalType {
    XTerm,
    XTerm256Color,
    XTermTrueColor,
    Screen,
    Screen256Color,
    Tmux,
    Tmux256Color,
    VT100,
    VT220,
    VT320,
    VT420,
    VT520,
    LinuxConsole,
    WindowsConsole,
    ANSI,
    Dumb,
    Unknown(String),
}

#[derive(Debug, Clone, Copy, PartialEq, Eq, Structural)]
pub enum ColorSupport {
    Monochrome,
    Color16,
    Color256,
    TrueColor,
}

#[derive(Debug, Clone, Copy, PartialEq, Eq, Structural)]
pub struct TerminalCapabilities {
    pub colors: ColorSupport,
    pub cursor_styles: bool,
    pub mouse_support: bool,
    pub bracketed_paste: bool,
    pub alternate_screen: bool,
    pub title_setting: bool,
    pub focus_events: bool,
    pub unicode_support: bool,
    pub sixel_graphics: bool,
    pub iterm2_images: bool,
    pub hyperlinks: bool,
    pub synchronized_updates: bool,
}

/// The terminal type a lower-cased name denotes, or `None` where the name is
/// not a recognized one (the corresponding value then carries the raw name).
pub open spec fn spec_known_type(low: Seq<char>) -> Option<TerminalType> {
    if low == "xterm"@ {
        Some(TerminalType::XTerm)
    } else if low == "xterm-256color"@ {
        Some(TerminalType::XTerm256Color)
    } else if low == "xterm-truecolor"@ || low == "xterm-24bit"@ {
        Some(TerminalType::XTermTrueColor)
    } else if low == "screen"@ {
        Some(TerminalType::Screen)
    } else if low == "screen-256color"@ {
        Some(TerminalType::Screen256Color)
    } else if low == "tmux"@ {
        Some(TerminalType::Tmux)
    } else if low == "tmux-256color"@ {
        Some(TerminalType::Tmux256Color)
    } else if low == "vt100"@ {
        Some(TerminalType::VT100)
    } else if low == "vt220"@ {
        Some(TerminalType::VT220)
    } else if low == "vt320"@ {
        Some(TerminalType::VT320)
    } else if low == "vt420"@ {
        Some(TerminalType::VT420)
    } else if low == "vt520"@ {
        Some(TerminalType::VT520)
    } else if low == "linux"@ || low == "console"@ {
        Some(TerminalType::LinuxConsole)
    } else if low == "cygwin"@ || low == "msys"@ {
        Some(TerminalType::WindowsConsole)
    } else if low == "ansi"@ {
        Some(TerminalType::ANSI)
    } else if low == "dumb"@ {
        Some(TerminalType::Dumb)
    } else {
        None
    }
}

/// The canonical name of a terminal type; an unrecognized type keeps the
/// name it was built from.
pub open spec fn spec_type_name(t: TerminalType) -> Seq<char> {
    match t {
        TerminalType::XTerm => "xterm"@,
        TerminalType::XTerm256Color => "xterm-256color"@,
        TerminalType::XTermTrueColor => "xterm-truecolor"@,
        TerminalType::Screen => "screen"@,
        TerminalType::Screen256Color => "screen-256color"@,
        TerminalType::Tmux => "tmux"@,
        TerminalType::Tmux256Color => "tmux-256color"@,
        TerminalType::VT100 => "vt100"@,
        TerminalType::VT220 => "vt220"@,
        TerminalType::VT320 => "vt320"@,
        TerminalType::VT420 => "vt420"@,
        TerminalType::VT520 => "vt520"@,
        TerminalType::LinuxConsole => "linux"@,
        TerminalType::WindowsConsole => "cygwin"@,
        TerminalType::ANSI => "ansi"@,
        TerminalType::Dumb => "dumb"@,
        TerminalType::Unknown(s) => s@,
    }
}

/// The capabilities of each recognized terminal type.
pub open spec fn spec_capabilities(t: TerminalType) -> TerminalCapabilities {
    match t {
        TerminalType::XTermTrueColor => TerminalCapabilities {
            colors: ColorSupport::TrueColor,
            cursor_styles: true,
            mouse_support: true,
            bracketed_paste: true,
            alternate_screen: true,
            title_setting: true,
            focus_events: true,
            unicode_support: true,
            sixel_graphics: false,
            iterm2_images: true,
            hyperlinks: true,
            synchronized_updates: true,
        },
        TerminalType::XTerm256Color | TerminalType::Screen256Color | TerminalType::Tmux256Color =>
            TerminalCapabilities {
                colors: ColorSupport::Color256,
                cursor_styles: true,
                mouse_support: true,
                bracketed_paste: true,
                alternate_screen: true,
                title_setting: true,
                focus_events: true,
                unicode_support: true,
                sixel_graphics: false,
                iterm2_images: false,
                hyperlinks: false,
                synchronized_updates: false,
            },
        TerminalType::XTerm | TerminalType::Screen | TerminalType::Tmux => TerminalCapabilities {
            colors: ColorSupport::Color16,
            cursor_styles: true,
            mouse_support: true,
            bracketed_paste: true,
            alternate_screen: true,
            title_setting: true,
            focus_events: false,
            unicode_support: true,
            sixel_graphics: false,
            iterm2_images: false,
            hyperlinks: false,
            synchronized_updates: false,
        },
        TerminalType::VT520 => TerminalCapabilities {
            colors: ColorSupport::Color16,
            cursor_styles: true,
            mouse_support: false,
            bracketed_paste: false,
            alternate_screen: true,
            title_setting: false,
            focus_events: false,
            unicode_support: false,
            sixel_graphics: true,
            iterm2_images: false,
            hyperlinks: false,
            synchronized_updates: false,
        },
        TerminalType::VT220 | TerminalType::VT320 | TerminalType::VT420 => TerminalCapabilities {
            colors: ColorSupport::Monochrome,
            cursor_styles: true,
            mouse_support: false,
            bracketed_paste: false,
            alternate_screen: true,
            title_setting: false,
            focus_events: false,
            unicode_support: false,
            sixel_graphics: false,
            iterm2_images: false,
            hyperlinks: false,
            synchronized_updates: false,
        },
        TerminalType::VT100 => TerminalCapabilities {
            colors: ColorSupport::Monochrome,
            cursor_styles: false,
            mouse_support: false,
            bracketed_paste: false,
            alternate_screen: false,
            title_setting: false,
            focus_events: false,
            unicode_support: false,
            sixel_graphics: false,
            iterm2_images: false,
            hyperlinks: false,
            synchronized_updates: false,
        },
        TerminalType::LinuxConsole => TerminalCapabilities {
            colors: ColorSupport::Color16,
            cursor_styles: false,
            mouse_support: false,
            bracketed_paste: false,
            alternate_screen: false,
            title_setting: false,
            focus_events: false,
            unicode_support: true,
            sixel_graphics: false,
            iterm2_images: false,
            hyperlinks: false,
            synchronized_updates: false,
        },
        TerminalType::WindowsConsole => TerminalCapabilities {
            colors: ColorSupport::Color16,
            cursor_styles: true,
            mouse_support: true,
            bracketed_paste: true,
            alternate_screen: true,
            title_setting: true,
            focus_events: false,
            unicode_support: true,
            sixel_graphics: false,
            iterm2_images: false,
            hyperlinks: false,
            synchronized_updates: false,
        },
        TerminalType::ANSI => TerminalCapabilities {
            colors: ColorSupport::Color16,
            cursor_styles: false,
            mouse_support: false,
            bracketed_paste: false,
            alternate_screen: false,
            title_setting: false,
            focus_events: false,
            unicode_support: false,
            sixel_graphics: false,
            iterm2_images: false,
            hyperlinks: false,
            synchronized_updates: false,
        },
        TerminalType::Dumb => spec_minimal_capabilities(),
        TerminalType::Unknown(_) => spec_default_capabilities(),
    }
}

/// The capability set with every feature off.
pub open spec fn spec_minimal_capabilities() -> TerminalCapabilities {
    TerminalCapabilities {
        colors: ColorSupport::Monochrome,
        cursor_styles: false,
        mouse_support: false,
        bracketed_paste: false,
        alternate_screen: false,
        title_setting: false,
        focus_events: false,
        unicode_support: false,
        sixel_graphics: false,
        iterm2_images: false,
        hyperlinks: false,
        synchronized_updates: false,
    }
}

/// The capability set assumed of a terminal nothing is known about.
pub open spec fn spec_default_capabilities() -> TerminalCapabilities {
    TerminalCapabilities {
        colors: ColorSupport::Color16,
        cursor_styles: true,
        mouse_support: true,
        bracketed_paste: true,
        alternate_screen: true,
        title_setting: true,
        focus_events: false,
        unicode_support: true,
        sixel_graphics: false,
        iterm2_images: false,
        hyperlinks: false,
        synchronized_updates: false,
    }
}

impl TerminalType {
    /// Classify a terminal name, compared after ASCII lower-casing; a name
    /// that matches no known terminal is kept verbatim.
    pub fn from_string(term: &str) -> (r: TerminalType)
        ensures
            match spec_known_type(lower_ascii(term@)) {
                Some(t) => r == t,
                None => r matches TerminalType::Unknown(s) && s@ == term@,
            },
    {
        let low = to_lower_ascii_str(term);
        let l = low.as_str();
        if str_eq(l, "xterm") {
            TerminalType::XTerm
        } else if str_eq(l, "xterm-256color") {
            TerminalType::XTerm256Color
        } else if str_eq(l, "xterm-truecolor") || str_eq(l, "xterm-24bit") {
            TerminalType::XTermTrueColor
        } else if str_eq(l, "screen") {
            TerminalType::Screen
        } else if str_eq(l, "screen-256color") {
            TerminalType::Screen256Color
        } else if str_eq(l, "tmux") {
            TerminalType::Tmux
        } else if str_eq(l, "tmux-256color") {
            TerminalType::Tmux256Color
        } else if str_eq(l, "vt100") {
            TerminalType::VT100
        } else if str_eq(l, "vt220") {
            TerminalType::VT220
        } else if str_eq(l, "vt320") {
            TerminalType::VT320
        } else if str_eq(l, "vt420") {
            TerminalType::VT420
        } else if str_eq(l, "vt520") {
            TerminalType::VT520
        } else if str_eq(l, "linux") || str_eq(l, "console") {
            TerminalType::LinuxConsole
        } else if str_eq(l, "cygwin") || str_eq(l, "msys") {
            TerminalType::WindowsConsole
        } else if str_eq(l, "ansi") {
            TerminalType::ANSI
        } else if str_eq(l, "dumb") {
            TerminalType::Dumb
        } else {
            TerminalType::Unknown(term.to_owned())
        }
    }

    /// The canonical name of this terminal type.
    pub fn to_string(&self) -> (r: String)
        ensures
            r@ == spec_type_name(*self),
    {
        match self {
            TerminalType::XTerm => String::from_str("xterm"),
            TerminalType::XTerm256Color => String::from_str("xterm-256color"),
            TerminalType::XTermTrueColor => String::from_str("xterm-truecolor"),
            TerminalType::Screen => String::from_str("screen"),
            TerminalType::Screen256Color => String::from_str("screen-256color"),
            TerminalType::Tmux => String::from_str("tmux"),
            TerminalType::Tmux256Color => String::from_str("tmux-256color"),
            TerminalType::VT100 => String::from_str("vt100"),
            TerminalType::VT220 => String::from_str("vt220"),
            TerminalType::VT320 => String::from_str("vt320"),
            TerminalType::VT420 => String::from_str("vt420"),
            TerminalType::VT520 => String::from_str("vt520"),
            TerminalType::LinuxConsole => String::from_str("linux"),
            TerminalType::WindowsConsole => String::from_str("cygwin"),
            TerminalType::ANSI => String::from_str("ansi"),
            TerminalType::Dumb => String::from_str("dumb"),
            TerminalType::Unknown(s) => s.clone(),
        }
    }

    /// The capabilities this terminal type supports.
    pub fn capabilities(&self) -> (r: TerminalCapabilities)
        ensures
            r == spec_capabilities(*self),
    {
        match self {
            TerminalType::XTermTrueColor => TerminalCapabilities {
                colors: ColorSupport::TrueColor,
                cursor_styles: true,
                mouse_support: true,
                bracketed_paste: true,
                alternate_screen: true,
                title_setting: true,
                focus_events: true,
                unicode_support: true,
                sixel_graphics: false,
                iterm2_images: true,
                hyperlinks: true,
                synchronized_updates: true,
            },
            TerminalType::XTerm256Color | TerminalType::Screen256Color
                | TerminalType::Tmux256Color => TerminalCapabilities {
                colors: ColorSupport::Color256,
                cursor_styles: true,
                mouse_support: true,
                bracketed_paste: true,
                alternate_screen: true,
                title_setting: true,
                focus_events: true,
                unicode_support: true,
                sixel_graphics: false,
                iterm2_images: false,
                hyperlinks: false,
                synchronized_updates: false,
            },
            TerminalType::XTerm | TerminalType::Screen | TerminalType::Tmux =>
                TerminalCapabilities {
                    colors: ColorSupport::Color16,
                    cursor_styles: true,
                    mouse_support: true,
                    bracketed_paste: true,
                    alternate_screen: true,
                    title_setting: true,
                    focus_events: false,
                    unicode_support: true,
                    sixel_graphics: false,
                    iterm2_images: false,
                    hyperlinks: false,
                    synchronized_updates: false,
                },
            TerminalType::VT520 => TerminalCapabilities {
                colors: ColorSupport::Color16,
                cursor_styles: true,
                mouse_support: false,
                bracketed_paste: false,
                alternate_screen: true,
                title_setting: false,
                focus_events: false,
                unicode_support: false,
                sixel_graphics: true,
                iterm2_images: false,
                hyperlinks: false,
                synchronized_updates: false,
            },
            TerminalType::VT220 | TerminalType::VT320 | TerminalType::VT420 =>
                TerminalCapabilities {
                    colors: ColorSupport::Monochrome,
                    cursor_styles: true,
                    mouse_support: false,
                    bracketed_paste: false,
                    alternate_screen: true,
                    title_setting: false,
                    focus_events: false,
                    unicode_support: false,
                    sixel_graphics: false,
                    iterm2_images: false,
                    hyperlinks: false,
                    synchronized_updates: false,
                },
            TerminalType::VT100 => TerminalCapabilities {
                colors: ColorSupport::Monochrome,
                cursor_styles: false,
                mouse_support: false,
                bracketed_paste: false,
                alternate_screen: false,
                title_setting: false,
                focus_events: false,
                unicode_support: false,
                sixel_graphics: false,
                iterm2_images: false,
                hyperlinks: false,
                synchronized_updates: false,
            },
            TerminalType::LinuxConsole => TerminalCapabilities {
                colors: ColorSupport::Color16,
                cursor_styles: false,
                mouse_support: false,
                bracketed_paste: false,
                alternate_screen: false,
                title_setting: false,
                focus_events: false,
                unicode_support: true,
                sixel_graphics: false,
                iterm2_images: false,
                hyperlinks: false,
                synchronized_updates: false,
            },
            TerminalType::WindowsConsole => TerminalCapabilities {
                colors: ColorSupport::Color16,
                cursor_styles: true,
                mouse_support: true,
                bracketed_paste: true,
                alternate_screen: true,
                title_setting: true,
                focus_events: false,
                unicode_support: true,
                sixel_graphics: false,
                iterm2_images: false,
                hyperlinks: false,
                synchronized_updates: false,
            },
            TerminalType::ANSI => TerminalCapabilities {
                colors: ColorSupport::Color16,
                cursor_styles: false,
                mouse_support: false,
                bracketed_paste: false,
                alternate_screen: false,
                title_setting: false,
                focus_events: false,
                unicode_support: false,
                sixel_graphics: false,
                iterm2_images: false,
                hyperlinks: false,
                synchronized_updates: false,
            },
            TerminalType::Dumb => TerminalCapabilities::minimal(),
            TerminalType::Unknown(_) => TerminalCapabilities::fallback(),
        }
    }
}

impl TerminalCapabilities {
    /// The capability set with every feature off.
    pub fn minimal() -> (r: TerminalCapabilities)
        ensures
            r == spec_minimal_capabilities(),
    {
        TerminalCapabilities {
            colors: ColorSupport::Monochrome,
            cursor_styles: false,
            mouse_support: false,
            bracketed_paste: false,
            alternate_screen: false,
            title_setting: false,
            focus_events: false,
            unicode_support: false,
            sixel_graphics: false,
            iterm2_images: false,
            hyperlinks: false,
            synchronized_updates: false,
        }
    }

    /// The capability set assumed of a terminal nothing is known about.
    pub fn fallback() -> (r: TerminalCapabilities)
        ensures
            r == spec_default_capabilities(),
    {
        TerminalCapabilities {
            colors: ColorSupport::Color16,
            cursor_styles: true,
            mouse_support: true,
            bracketed_paste: true,
            alternate_screen: true,
            title_setting: true,
            focus_events: false,
            unicode_support: true,
            sixel_graphics: false,
            iterm2_images: false,
            hyperlinks: false,
            synchronized_updates: false,
        }
    }
}

impl Default for TerminalCapabilities {
    fn default() -> (r: TerminalCapabilities)
        ensures
            r == spec_default_capabilities(),
    {
        TerminalCapabilities::fallback()
    }
}

/// The name/capability pairs the database is seeded with: one entry per
/// recognized terminal type, keyed by its canonical name.
pub open spec fn spec_default_entries() -> Seq<(Seq<char>, TerminalCapabilities)> {
    seq![
        ("xterm"@, spec_capabilities(TerminalType::XTerm)),
        ("xterm-256color"@, spec_capabilities(TerminalType::XTerm256Color)),
        ("xterm-truecolor"@, spec_capabilities(TerminalType::XTermTrueColor)),
        ("screen"@, spec_capabilities(TerminalType::Screen)),
        ("screen-256color"@, spec_capabilities(TerminalType::Screen256Color)),
        ("tmux"@, spec_capabilities(TerminalType::Tmux)),
        ("tmux-256color"@, spec_capabilities(TerminalType::Tmux256Color)),
        ("vt100"@, spec_capabilities(TerminalType::VT100)),
        ("vt220"@, spec_capabilities(TerminalType::VT220)),
        ("vt320"@, spec_capabilities(TerminalType::VT320)),
        ("vt420"@, spec_capabilities(TerminalType::VT420)),
        ("vt520"@, spec_capabilities(TerminalType::VT520)),
        ("linux"@, spec_capabilities(TerminalType::LinuxConsole)),
        ("cygwin"@, spec_capabilities(TerminalType::WindowsConsole)),
        ("ansi"@, spec_capabilities(TerminalType::ANSI)),
        ("dumb"@, spec_capabilities(TerminalType::Dumb)),
    ]
}

/// The capabilities stored under a name, first entry winning.
pub open spec fn spec_lookup(
    entries: Seq<(Seq<char>, TerminalCapabilities)>,
    name: Seq<char>,
) -> Option<TerminalCapabilities>
    decreases entries.len(),
{
    if entries.len() == 0 {
        None
    } else if entries[0].0 == name {
        Some(entries[0].1)
    } else {
        spec_lookup(entries.drop_first(), name)
    }
}

/// A terminfo-like database of capability sets keyed by terminal name.
pub struct TerminalDatabase {
    capabilities: Vec<(String, TerminalCapabilities)>,
}

impl TerminalDatabase {
    /// The stored name/capability pairs.
    pub closed spec fn view(&self) -> Seq<(Seq<char>, TerminalCapabilities)> {
        self.capabilities@.map_values(|e: (String, TerminalCapabilities)| (e.0@, e.1))
    }

    /// A database seeded with the recognized terminal types.
    pub fn new() -> (db: TerminalDatabase)
        ensures
            db@ == spec_default_entries(),
    {
        let mut db = TerminalDatabase { capabilities: Vec::new() };
        db.populate_defaults();
        proof {
            assert(db@ =~= spec_default_entries());
        }
        db
    }

    /// Seed the database with one entry per recognized terminal type.
    fn populate_defaults(&mut self)
        ensures
            final(self)@ == old(self)@ + spec_default_entries(),
    {
        let ghost initial = self@;
        self.push_type(TerminalType::XTerm);
        self.push_type(TerminalType::XTerm256Color);
        self.push_type(TerminalType::XTermTrueColor);
        self.push_type(TerminalType::Screen);
        self.push_type(TerminalType::Screen256Color);
        self.push_type(TerminalType::Tmux);
        self.push_type(TerminalType::Tmux256Color);
        self.push_type(TerminalType::VT100);
        self.push_type(TerminalType::VT220);
        self.push_type(TerminalType::VT320);
        self.push_type(TerminalType::VT420);
        self.push_type(TerminalType::VT520);
        self.push_type(TerminalType::LinuxConsole);
        self.push_type(TerminalType::WindowsConsole);
        self.push_type(TerminalType::ANSI);
        self.push_type(TerminalType::Dumb);
        proof {
            assert(self@ =~= initial + spec_default_entries());
        }
    }

    /// Store one terminal type under its canonical name.
    fn push_type(&mut self, t: TerminalType)
        ensures
            final(self)@ == old(self)@.push((spec_type_name(t), spec_capabilities(t))),
    {
        let name = t.to_string();
        let caps = t.capabilities();
        self.capabilities.push((name, caps));
        proof {
            assert(self@ =~= old(self)@.push((spec_type_name(t), spec_capabilities(t))));
        }
    }

    /// The capabilities stored under `term_name`, or the fallback set where
    /// the name is absent.
    pub fn get_capabilities(&self, term_name: &str) -> (r: TerminalCapabilities)
        ensures
            r == match spec_lookup(self@, term_name@) {
                Some(c) => c,
                None => spec_default_capabilities(),
            },
    {
        let n = self.capabilities.len();
        let mut i: usize = 0;
        proof {
            assert(self@.skip(0) =~= self@);
        }
        while i < n
            invariant
                0 <= i <= n,
                n == self.capabilities.len(),
                spec_lookup(self@, term_name@) == spec_lookup(self@.skip(i as int), term_name@),
            decreases n - i,
        {
            let entry = &self.capabilities[i];
            proof {
                assert(self@.skip(i as int)[0] == (entry.0@, entry.1));
                assert(self@.skip(i as int).drop_first() =~= self@.skip(i + 1));
            }
            if str_eq(entry.0.as_str(), term_name) {
                return entry.1;
            }
            i = i + 1;
        }
        proof {
            assert(self@.skip(n as int) =~= Seq::<(Seq<char>, TerminalCapabilities)>::empty());
        }
        TerminalCapabilities::fallback()
    }

    /// Whether the named terminal supports the named feature.
    pub fn supports_feature(&self, term_name: &str, feature: &str) -> (r: bool)
        ensures
            r == spec_supports(
                match spec_lookup(self@, term_name@) {
                    Some(c) => c,
                    None => spec_default_capabilities(),
                },
                feature@,
            ),
    {
        let caps = self.get_capabilities(term_name);
        if str_eq(feature, "colors") {
            !matches!(caps.colors, ColorSupport::Monochrome)
        } else if str_eq(feature, "256colors") {
            matches!(caps.colors, ColorSupport::Color256 | ColorSupport::TrueColor)
        } else if str_eq(feature, "truecolor") {
            matches!(caps.colors, ColorSupport::TrueColor)
        } else if str_eq(feature, "cursor_styles") {
            caps.cursor_styles
        } else if str_eq(feature, "mouse") {
            caps.mouse_support
        } else if str_eq(feature, "bracketed_paste") {
            caps.bracketed_paste
        } else if str_eq(feature, "alternate_screen") {
            caps.alternate_screen
        } else if str_eq(feature, "title") {
            caps.title_setting
        } else if str_eq(feature, "focus_events") {
            caps.focus_events
        } else if str_eq(feature, "unicode") {
            caps.unicode_support
        } else if str_eq(feature, "sixel") {
            caps.sixel_graphics
        } else if str_eq(feature, "images") {
            caps.iterm2_images
        } else if str_eq(feature, "hyperlinks") {
            caps.hyperlinks
        } else if str_eq(feature, "synchronized_updates") {
            caps.synchronized_updates
        } else {
            false
        }
    }
}

/// Whether a capability set supports the named feature.
pub open spec fn spec_supports(caps: TerminalCapabilities, feature: Seq<char>) -> bool {
    if feature == "colors"@ {
        !(caps.colors is Monochrome)
    } else if feature == "256colors"@ {
        caps.colors is Color256 || caps.colors is TrueColor
    } else if feature == "truecolor"@ {
        caps.colors is TrueColor
    } else if feature == "cursor_styles"@ {
        caps.cursor_styles
    } else if feature == "mouse"@ {
        caps.mouse_support
    } else if feature == "bracketed_paste"@ {
        caps.bracketed_paste
    } else if feature == "alternate_screen"@ {
        caps.alternate_screen
    } else if feature == "title"@ {
        caps.title_setting
    } else if feature == "focus_events"@ {
        caps.focus_events
    } else if feature == "unicode"@ {
        caps.unicode_support
    } else if feature == "sixel"@ {
        caps.sixel_graphics
    } else if feature == "images"@ {
        caps.iterm2_images
    } else if feature == "hyperlinks"@ {
        caps.hyperlinks
    } else if feature == "synchronized_updates"@ {
        caps.synchronized_updates
    } else {
        false
    }
}

} // verus!

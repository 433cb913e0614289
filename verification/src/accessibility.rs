//! Accessibility and internationalization data shapes: keyboard shortcuts, focus management, screen-reader announcements, audit rules, and number and currency formats.

use vstd::prelude::*;

verus! {

#[derive(Debug, Clone, PartialEq)]
pub enum ColorBlindType {
    Unaffected,
    Protanopia,    // Red-blind
    Deuteranopia,  // Green-blind
    Tritanopia,    // Blue-blind
    Protanomaly,   // Red-weak
    Deuteranomaly, // Green-weak
    Tritanomaly,   // Blue-weak
    Monochromacy,  // Complete color blindness
}

#[derive(Debug, Clone, PartialEq)]
pub struct KeyboardShortcut {
    pub id: String,
    pub name: String,
    pub description: String,
    pub keys: Vec<String>,
    pub context: ShortcutContext,
    pub action: String,
    pub enabled: bool,
    pub customizable: bool,
}

#[derive(Debug, Clone, PartialEq)]
pub enum ShortcutContext {
    Global,
    Terminal,
    Editor,
    FileExplorer,
    Settings,
    Debug,
}

#[derive(Debug, Clone, PartialEq)]
pub struct FocusManager {
    pub current_focus: Option<String>,
    pub focus_history: Vec<String>,
    pub focus_trap_stack: Vec<String>,
    pub skip_links: Vec<SkipLink>,
}

#[derive(Debug, Clone, PartialEq)]
pub struct SkipLink {
    pub id: String,
    pub label: String,
    pub target: String,
    pub visible: bool,
}

#[derive(Debug, Clone, PartialEq)]
pub struct ScreenReaderAnnouncement {
    pub message: String,
    pub priority: AnnouncementPriority,
    pub interrupt: bool,
    pub timestamp: u64,
}

#[derive(Debug, Clone, PartialEq)]
pub enum AnnouncementPriority {
    Low,
    Medium,
    High,
    Emergency,
}

#[derive(Debug, Clone, PartialEq)]
pub struct AccessibilityRule {
    pub rule_id: String,
    pub name: String,
    pub description: String,
    pub severity: RuleSeverity,
    pub wcag_level: WcagLevel,
    pub check_function: String, // JavaScript function name
    pub auto_fix: Option<String>,
}

#[derive(Debug, Clone, PartialEq)]
pub enum RuleSeverity {
    Error,
    Warning,
    Info,
}

#[derive(Debug, Clone, PartialEq)]
pub enum WcagLevel {
    A,
    AA,
    AAA,
}

#[derive(Debug, Clone, PartialEq)]
pub struct AccessibilityAuditResult {
    pub rule_id: String,
    pub element_id: Option<String>,
    pub severity: RuleSeverity,
    pub message: String,
    pub suggestion: Option<String>,
    pub auto_fixable: bool,
}

#[derive(Debug, Clone, PartialEq)]
pub struct NumberFormatSettings {
    pub decimal_separator: String,
    pub thousands_separator: String,
    pub grouping: Vec<u8>, // e.g., [3, 3] for 1,000,000
}

#[derive(Debug, Clone, PartialEq)]
pub struct CurrencySettings {
    pub code: String,     // e.g., "USD", "EUR"
    pub symbol: String,   // e.g., "$", "€"
    pub position: CurrencyPosition,
}

#[derive(Debug, Clone, PartialEq)]
pub enum CurrencyPosition {
    Before, // $100
    After,  // 100$
    BeforeWithSpace, // $ 100
    AfterWithSpace,  // 100 $
}

#[derive(Debug, Clone, PartialEq)]
pub struct TranslationKey {
    pub key: String,
    pub default_value: String,
    pub context: Option<String>,
    pub plural_forms: Option<Vec<String>>,
    pub interpolations: Vec<String>, // Variables like {name}, {count}
}

#[derive(Debug, Clone, PartialEq)]
pub enum TranslationStatus {
    Missing,
    Incomplete,
    Complete,
    NeedsReview,
    Approved,
}

} // verus!

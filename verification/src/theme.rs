//! Theme data shapes: fonts, borders, animation easing, collections and preferences.

use vstd::prelude::*;

verus! {

#[derive(Debug, Clone, PartialEq)]
pub enum FontWeight {
    Thin,
    ExtraLight,
    Light,
    Normal,
    Medium,
    SemiBold,
    Bold,
    ExtraBold,
    Black,
}

#[derive(Debug, Clone, PartialEq)]
pub enum FontStyle {
    Normal,
    Italic,
    Oblique,
}

#[derive(Debug, Clone, PartialEq)]
pub enum BorderStyle {
    Solid,
    Dashed,
    Dotted,
    Hidden,
}

#[derive(Debug, Clone, PartialEq)]
pub enum EasingFunction {
    Linear,
    EaseIn,
    EaseOut,
    EaseInOut,
    Cubic,
    Bounce,
}

#[derive(Debug, Clone, PartialEq)]
pub struct ThemeCollection {
    pub name: String,
    pub description: String,
    pub themes: Vec<String>, // theme IDs
    pub tags: Vec<String>,
}

#[derive(Debug, Clone, PartialEq)]
pub struct ThemePreferences {
    pub current_theme_id: String,
    pub auto_switch_enabled: bool,
    pub light_theme_id: String,
    pub dark_theme_id: String,
    pub switch_time_dawn: String, // "06:00"
    pub switch_time_dusk: String, // "18:00"
    pub follow_system: bool,
    pub high_contrast: bool,
    pub reduce_motion: bool,
}

} // verus!

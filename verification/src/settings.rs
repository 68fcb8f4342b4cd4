//! Settings store: independently settable display, style, and locale
//! options, each its own reactive cell.
//!
//! Style values are free-form strings and are deliberately not validated:
//! an invalid value passes through to presentation and degrades visually
//! instead of raising an error.

use vstd::prelude::*;

verus! {

/// Display language of the calendar.
#[derive(Clone, Copy, Debug, PartialEq, Eq, Structural)]
pub enum Language {
    English,
    ChineseSimplified,
    ChineseTraditional,
}

/// Language selected by a settings index: positions 0, 1, 2 name the three
/// languages in order, and any other index falls back to English.
pub open spec fn language_of_index(index: int) -> Language {
    if index == 1 {
        Language::ChineseSimplified
    } else if index == 2 {
        Language::ChineseTraditional
    } else {
        Language::English
    }
}

/// Options handed to the external calendar engine, one snapshot per
/// recomputation. Field for field the engine's own option set; `color` is
/// a terminal-coloring switch that this display never enables.
#[derive(Clone, Copy, Debug, PartialEq, Eq, Structural)]
pub struct Options {
    pub language: Language,
    pub enable_chinese: bool,
    pub start_on_monday: bool,
    pub week_number: bool,
    pub color: bool,
}

/// Names of the free-form style cells.
#[derive(Clone, Copy, Debug, PartialEq, Eq, Structural)]
pub enum StyleKey {
    ColorText,
    ColorTheme,
    ColorYear,
    ColorMonth,
    ColorTodayText,
    ColorWeekend,
    ColorWeekNumber,
    ColorFestival,
    ColorSolarTerm,
    Font,
    SizeCellWidth,
    SizeCellHeight,
    SizeHeaderHeight,
    SizeText,
    SizeTextYear,
    SizeTextMonth,
    SizeTextWeekday,
    SizeTextWeekNumber,
    SizeTextChinese,
    SizeYearMargin,
}

/// Names of the boolean behavior cells.
#[derive(Clone, Copy, Debug, PartialEq, Eq, Structural)]
pub enum FlagKey {
    EnableChinese,
    StartOnMonday,
    ShowWeekNumbers,
    HighlightToday,
}

/// The flat collection of display settings. Every cell is independently
/// owned: writing one never changes another.
#[derive(Debug)]
pub struct SettingsStore {
    pub color_text: String,
    pub color_theme: String,
    pub color_year: String,
    pub color_month: String,
    pub color_today_text: String,
    pub color_weekend: String,
    pub color_week_number: String,
    pub color_festival: String,
    pub color_solar_term: String,
    pub font: String,
    pub size_cell_width: String,
    pub size_cell_height: String,
    pub size_header_height: String,
    pub size_text: String,
    pub size_text_year: String,
    pub size_text_month: String,
    pub size_text_weekday: String,
    pub size_text_week_number: String,
    pub size_text_chinese: String,
    pub size_year_margin: String,
    pub language_index: u32,
    pub enable_chinese: bool,
    pub start_on_monday: bool,
    pub show_week_numbers: bool,
    pub highlight_today: bool,
}

/// The value each style cell starts with.
pub open spec fn default_style(key: StyleKey) -> Seq<char> {
    match key {
        StyleKey::ColorText => "#111111"@,
        StyleKey::ColorTheme => "#0000ff"@,
        StyleKey::ColorYear => "#808080"@,
        StyleKey::ColorMonth => "#808080"@,
        StyleKey::ColorTodayText => "#ffffff"@,
        StyleKey::ColorWeekend => "#ff0000"@,
        StyleKey::ColorWeekNumber => "#808080"@,
        StyleKey::ColorFestival => "inherit"@,
        StyleKey::ColorSolarTerm => "inherit"@,
        StyleKey::Font => "sans-serif"@,
        StyleKey::SizeCellWidth => "96px"@,
        StyleKey::SizeCellHeight => "96px"@,
        StyleKey::SizeHeaderHeight => "96px"@,
        StyleKey::SizeText => "24px"@,
        StyleKey::SizeTextYear => "48px"@,
        StyleKey::SizeTextMonth => "32px"@,
        StyleKey::SizeTextWeekday => "inherit"@,
        StyleKey::SizeTextWeekNumber => "inherit"@,
        StyleKey::SizeTextChinese => "inherit"@,
        StyleKey::SizeYearMargin => "64px"@,
    }
}

/// The value each boolean cell starts with: only the today highlight is on.
pub open spec fn default_flag(key: FlagKey) -> bool {
    match key {
        FlagKey::HighlightToday => true,
        _ => false,
    }
}

/// Two stores agree on every style cell.
pub open spec fn styles_equal(a: SettingsStore, b: SettingsStore) -> bool {
    forall|k: StyleKey| #[trigger] a.style(k) == b.style(k)
}

/// Two stores agree on every boolean cell.
pub open spec fn flags_equal(a: SettingsStore, b: SettingsStore) -> bool {
    forall|k: FlagKey| #[trigger] a.flag(k) == b.flag(k)
}

/// `post` is `pre` with exactly one style cell rewritten.
pub open spec fn style_written(
    pre: SettingsStore,
    post: SettingsStore,
    key: StyleKey,
    value: Seq<char>,
) -> bool {
    forall|k: StyleKey| #[trigger]
        post.style(k) == if k == key {
            value
        } else {
            pre.style(k)
        }
}

/// `post` is `pre` with exactly one boolean cell rewritten.
pub open spec fn flag_written(
    pre: SettingsStore,
    post: SettingsStore,
    key: FlagKey,
    value: bool,
) -> bool {
    forall|k: FlagKey| #[trigger]
        post.flag(k) == if k == key {
            value
        } else {
            pre.flag(k)
        }
}

impl SettingsStore {
    /// Current value of one style cell.
    pub open spec fn style(self, key: StyleKey) -> Seq<char> {
        match key {
            StyleKey::ColorText => self.color_text@,
            StyleKey::ColorTheme => self.color_theme@,
            StyleKey::ColorYear => self.color_year@,
            StyleKey::ColorMonth => self.color_month@,
            StyleKey::ColorTodayText => self.color_today_text@,
            StyleKey::ColorWeekend => self.color_weekend@,
            StyleKey::ColorWeekNumber => self.color_week_number@,
            StyleKey::ColorFestival => self.color_festival@,
            StyleKey::ColorSolarTerm => self.color_solar_term@,
            StyleKey::Font => self.font@,
            StyleKey::SizeCellWidth => self.size_cell_width@,
            StyleKey::SizeCellHeight => self.size_cell_height@,
            StyleKey::SizeHeaderHeight => self.size_header_height@,
            StyleKey::SizeText => self.size_text@,
            StyleKey::SizeTextYear => self.size_text_year@,
            StyleKey::SizeTextMonth => self.size_text_month@,
            StyleKey::SizeTextWeekday => self.size_text_weekday@,
            StyleKey::SizeTextWeekNumber => self.size_text_week_number@,
            StyleKey::SizeTextChinese => self.size_text_chinese@,
            StyleKey::SizeYearMargin => self.size_year_margin@,
        }
    }

    /// Current value of one boolean cell.
    pub open spec fn flag(self, key: FlagKey) -> bool {
        match key {
            FlagKey::EnableChinese => self.enable_chinese,
            FlagKey::StartOnMonday => self.start_on_monday,
            FlagKey::ShowWeekNumbers => self.show_week_numbers,
            FlagKey::HighlightToday => self.highlight_today,
        }
    }

    /// A store with every cell at its startup value.
    pub fn new() -> (r: SettingsStore)
        ensures
            forall|k: StyleKey| #[trigger] r.style(k) == default_style(k),
            forall|k: FlagKey| #[trigger] r.flag(k) == default_flag(k),
            r.language_index == 0,
    {
        SettingsStore {
            color_text: "#111111".to_owned(),
            color_theme: "#0000ff".to_owned(),
            color_year: "#808080".to_owned(),
            color_month: "#808080".to_owned(),
            color_today_text: "#ffffff".to_owned(),
            color_weekend: "#ff0000".to_owned(),
            color_week_number: "#808080".to_owned(),
            color_festival: "inherit".to_owned(),
            color_solar_term: "inherit".to_owned(),
            font: "sans-serif".to_owned(),
            size_cell_width: "96px".to_owned(),
            size_cell_height: "96px".to_owned(),
            size_header_height: "96px".to_owned(),
            size_text: "24px".to_owned(),
            size_text_year: "48px".to_owned(),
            size_text_month: "32px".to_owned(),
            size_text_weekday: "inherit".to_owned(),
            size_text_week_number: "inherit".to_owned(),
            size_text_chinese: "inherit".to_owned(),
            size_year_margin: "64px".to_owned(),
            language_index: 0,
            enable_chinese: false,
            start_on_monday: false,
            show_week_numbers: false,
            highlight_today: true,
        }
    }

    /// Read one style cell.
    pub fn get_style(&self, key: StyleKey) -> (r: &String)
        ensures
            r@ == self.style(key),
    {
        match key {
            StyleKey::ColorText => &self.color_text,
            StyleKey::ColorTheme => &self.color_theme,
            StyleKey::ColorYear => &self.color_year,
            StyleKey::ColorMonth => &self.color_month,
            StyleKey::ColorTodayText => &self.color_today_text,
            StyleKey::ColorWeekend => &self.color_weekend,
            StyleKey::ColorWeekNumber => &self.color_week_number,
            StyleKey::ColorFestival => &self.color_festival,
            StyleKey::ColorSolarTerm => &self.color_solar_term,
            StyleKey::Font => &self.font,
            StyleKey::SizeCellWidth => &self.size_cell_width,
            StyleKey::SizeCellHeight => &self.size_cell_height,
            StyleKey::SizeHeaderHeight => &self.size_header_height,
            StyleKey::SizeText => &self.size_text,
            StyleKey::SizeTextYear => &self.size_text_year,
            StyleKey::SizeTextMonth => &self.size_text_month,
            StyleKey::SizeTextWeekday => &self.size_text_weekday,
            StyleKey::SizeTextWeekNumber => &self.size_text_week_number,
            StyleKey::SizeTextChinese => &self.size_text_chinese,
            StyleKey::SizeYearMargin => &self.size_year_margin,
        }
    }

    /// Write one style cell. Every other cell keeps its value.
    pub fn set_style(&mut self, key: StyleKey, value: String)
        ensures
            style_written(*old(self), *final(self), key, value@),
            flags_equal(*old(self), *final(self)),
            final(self).language_index == old(self).language_index,
    {
        match key {
            StyleKey::ColorText => self.color_text = value,
            StyleKey::ColorTheme => self.color_theme = value,
            StyleKey::ColorYear => self.color_year = value,
            StyleKey::ColorMonth => self.color_month = value,
            StyleKey::ColorTodayText => self.color_today_text = value,
            StyleKey::ColorWeekend => self.color_weekend = value,
            StyleKey::ColorWeekNumber => self.color_week_number = value,
            StyleKey::ColorFestival => self.color_festival = value,
            StyleKey::ColorSolarTerm => self.color_solar_term = value,
            StyleKey::Font => self.font = value,
            StyleKey::SizeCellWidth => self.size_cell_width = value,
            StyleKey::SizeCellHeight => self.size_cell_height = value,
            StyleKey::SizeHeaderHeight => self.size_header_height = value,
            StyleKey::SizeText => self.size_text = value,
            StyleKey::SizeTextYear => self.size_text_year = value,
            StyleKey::SizeTextMonth => self.size_text_month = value,
            StyleKey::SizeTextWeekday => self.size_text_weekday = value,
            StyleKey::SizeTextWeekNumber => self.size_text_week_number = value,
            StyleKey::SizeTextChinese => self.size_text_chinese = value,
            StyleKey::SizeYearMargin => self.size_year_margin = value,
        }
    }

    /// Write one boolean cell. Every other cell keeps its value.
    pub fn set_flag(&mut self, key: FlagKey, value: bool)
        ensures
            flag_written(*old(self), *final(self), key, value),
            styles_equal(*old(self), *final(self)),
            final(self).language_index == old(self).language_index,
    {
        match key {
            FlagKey::EnableChinese => self.enable_chinese = value,
            FlagKey::StartOnMonday => self.start_on_monday = value,
            FlagKey::ShowWeekNumbers => self.show_week_numbers = value,
            FlagKey::HighlightToday => self.highlight_today = value,
        }
    }

    /// Select the display language by index. Every other cell keeps its
    /// value.
    pub fn set_language_index(&mut self, index: u32)
        ensures
            final(self).language_index == index,
            styles_equal(*old(self), *final(self)),
            flags_equal(*old(self), *final(self)),
    {
        self.language_index = index;
    }

    /// The language the current index selects.
    pub open spec fn language_spec(self) -> Language {
        language_of_index(self.language_index as int)
    }

    pub fn language(&self) -> (r: Language)
        ensures
            r == self.language_spec(),
    {
        match self.language_index {
            1 => Language::ChineseSimplified,
            2 => Language::ChineseTraditional,
            _ => Language::English,
        }
    }

    /// The option snapshot the month computation depends on.
    pub open spec fn options_spec(self) -> Options {
        Options {
            language: self.language_spec(),
            enable_chinese: self.enable_chinese,
            start_on_monday: self.start_on_monday,
            week_number: self.show_week_numbers,
            color: false,
        }
    }

    /// Snapshot the options handed to the calendar engine.
    pub fn options(&self) -> (r: Options)
        ensures
            r == self.options_spec(),
    {
        Options {
            language: self.language(),
            enable_chinese: self.enable_chinese,
            start_on_monday: self.start_on_monday,
            week_number: self.show_week_numbers,
            color: false,
        }
    }
}

} // verus!

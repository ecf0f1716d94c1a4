use vstd::prelude::*;

use crate::text::{decimal, push_decimal, to_decimal};

verus! {

/// The in-game menu pages.
#[derive(Clone, Copy, Debug, PartialEq, Eq, Structural)]
pub enum Menu {
    Pause,
    Settings,
    Controls,
    Display,
}

/// Number of entries on the pause page.
pub const PAUSE_COUNT: usize = 3;

/// Number of entries on the settings page.
pub const SETTINGS_COUNT: usize = 3;

/// Number of entries on the controls page.
pub const CONTROLS_COUNT: usize = 4;

/// Number of entries on the display page.
pub const DISPLAY_COUNT: usize = 7;

/// The heading of each page.
pub open spec fn title_text(menu: Menu) -> Seq<char> {
    match menu {
        Menu::Pause => "PAUSED"@,
        Menu::Settings => "SETTINGS"@,
        Menu::Controls => "CONTROLS"@,
        Menu::Display => "DISPLAY & GRAPHICS"@,
    }
}

/// The entries of each page, top to bottom.
pub open spec fn item_texts(menu: Menu) -> Seq<Seq<char>> {
    match menu {
        Menu::Pause => seq!["RESUME"@, "SETTINGS"@, "QUIT GAME"@],
        Menu::Settings => seq!["CONTROLS"@, "DISPLAY & GRAPHICS"@, "BACK"@],
        Menu::Controls => seq!["Mouse Sensitivity"@, "Invert X"@, "Invert Y"@, "BACK"@],
        Menu::Display => seq![
            "Texture Filtering"@,
            "MSAA"@,
            "Resolution"@,
            "Fullscreen Mode"@,
            "VSync"@,
            "APPLY"@,
            "BACK"@,
        ],
    }
}

/// The number of entries each page has.
pub open spec fn item_count(menu: Menu) -> usize {
    match menu {
        Menu::Pause => PAUSE_COUNT,
        Menu::Settings => SETTINGS_COUNT,
        Menu::Controls => CONTROLS_COUNT,
        Menu::Display => DISPLAY_COUNT,
    }
}

impl Menu {
    /// The page heading.
    pub fn title(&self) -> (s: &'static str)
        ensures
            s@ == title_text(*self),
    {
        match self {
            Menu::Pause => "PAUSED",
            Menu::Settings => "SETTINGS",
            Menu::Controls => "CONTROLS",
            Menu::Display => "DISPLAY & GRAPHICS",
        }
    }

    /// The page entries, top to bottom.
    pub fn items(&self) -> (v: Vec<&'static str>)
        ensures
            v@.len() == item_texts(*self).len(),
            forall|i: int| 0 <= i < v@.len() ==> #[trigger] v@[i]@ == item_texts(*self)[i],
    {
        match self {
            Menu::Pause => vec!["RESUME", "SETTINGS", "QUIT GAME"],
            Menu::Settings => vec!["CONTROLS", "DISPLAY & GRAPHICS", "BACK"],
            Menu::Controls => vec!["Mouse Sensitivity", "Invert X", "Invert Y", "BACK"],
            Menu::Display => vec![
                "Texture Filtering",
                "MSAA",
                "Resolution",
                "Fullscreen Mode",
                "VSync",
                "APPLY",
                "BACK",
            ],
        }
    }
}

/// Each page lists exactly as many entries as its entry count says.
pub proof fn lemma_item_counts(menu: Menu)
    ensures
        item_texts(menu).len() == item_count(menu),
{
}

/// The marker drawn before an entry: ">" for the selected one, a space otherwise.
pub fn selection_marker(index: usize, selected: usize) -> (s: &'static str)
    ensures
        s@ == (if index == selected { ">"@ } else { " "@ }),
{
    if index == selected { ">" } else { " " }
}

/// Name shown for a texture-filtering mode.
pub open spec fn filter_text(mode: u8) -> Seq<char> {
    if mode == 1 {
        "TRILINEAR"@
    } else if mode == 2 {
        "OFF"@
    } else {
        "BILINEAR"@
    }
}

/// Name of texture-filtering mode `mode`: 1 trilinear, 2 off, anything else bilinear.
pub fn filter_name(mode: u8) -> (s: &'static str)
    ensures
        s@ == filter_text(mode),
{
    if mode == 1 {
        "TRILINEAR"
    } else if mode == 2 {
        "OFF"
    } else {
        "BILINEAR"
    }
}

/// Name shown for a display mode.
pub open spec fn fullscreen_text(mode: u8) -> Seq<char> {
    if mode == 1 {
        "BORDERLESS"@
    } else if mode == 2 {
        "EXCLUSIVE"@
    } else {
        "WINDOWED"@
    }
}

/// Name of display mode `mode`: 1 borderless, 2 exclusive, anything else windowed.
pub fn fullscreen_name(mode: u8) -> (s: &'static str)
    ensures
        s@ == fullscreen_text(mode),
{
    if mode == 1 {
        "BORDERLESS"
    } else if mode == 2 {
        "EXCLUSIVE"
    } else {
        "WINDOWED"
    }
}

/// Name shown for an MSAA sample count.
pub open spec fn msaa_text(samples: u8) -> Seq<char> {
    if samples == 0 {
        "OFF"@
    } else {
        decimal(samples as nat) + "x"@
    }
}

/// Name of an MSAA sample count: "OFF" for none, else the count followed by "x".
pub fn msaa_name(samples: u8) -> (s: String)
    ensures
        s@ == msaa_text(samples),
{
    if samples == 0 {
        String::from_str("OFF")
    } else {
        let mut s = to_decimal(samples as u32);
        s.append("x");
        s
    }
}

/// "ON" or "OFF" for a switch.
pub open spec fn on_off_text(on: bool) -> Seq<char> {
    if on { "ON"@ } else { "OFF"@ }
}

/// "ON" or "OFF" for a switch.
pub fn on_off(on: bool) -> (s: &'static str)
    ensures
        s@ == on_off_text(on),
{
    if on { "ON" } else { "OFF" }
}

/// A resolution as shown in the menu, such as "1280x720".
pub open spec fn resolution_text(width: u32, height: u32) -> Seq<char> {
    decimal(width as nat) + "x"@ + decimal(height as nat)
}

/// A resolution as shown in the menu: width, "x", height.
pub fn resolution_label(width: u32, height: u32) -> (s: String)
    ensures
        s@ == resolution_text(width, height),
{
    let mut s = to_decimal(width);
    s.append("x");
    push_decimal(&mut s, height);
    s
}

/// The values shown beside the first five entries of the display page:
/// texture filtering, MSAA, resolution, display mode and vertical sync.
pub fn display_values(filtering: u8, msaa: u8, width: u32, height: u32, fullscreen: u8, vsync: bool) -> (v: Vec<String>)
    ensures
        v@.len() == 5,
        v@[0]@ == filter_text(filtering),
        v@[1]@ == msaa_text(msaa),
        v@[2]@ == resolution_text(width, height),
        v@[3]@ == fullscreen_text(fullscreen),
        v@[4]@ == on_off_text(vsync),
{
    let mut v: Vec<String> = Vec::new();
    v.push(String::from_str(filter_name(filtering)));
    v.push(msaa_name(msaa));
    v.push(resolution_label(width, height));
    v.push(String::from_str(fullscreen_name(fullscreen)));
    v.push(String::from_str(on_off(vsync)));
    v
}

} // verus!

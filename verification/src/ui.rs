use vstd::prelude::*;
use crate::app::{orrery_speed, orrery_speed_label, sky_speed, sky_speed_label, Tab, ORRERY_SPEED_COUNT, SKY_SPEED_COUNT};
use crate::text::same_text;
use crate::weather::{DayPeriod, SeeingQuality};

verus! {

/// Terminal colours the sky and solar-system views draw with.
#[derive(Clone, Copy, Debug, PartialEq, Eq, Structural)]
pub enum Palette {
    Gray,
    Yellow,
    Red,
    White,
    Cyan,
    Blue,
    Green,
    /// A colour given by its red, green and blue levels.
    Rgb(u8, u8, u8),
}

/// Colour of a planet's symbol on the sky map; white for any other name.
pub open spec fn planet_palette_of(name: Seq<char>) -> Palette {
    if name == "Mercury"@ {
        Palette::Gray
    } else if name == "Venus"@ {
        Palette::Yellow
    } else if name == "Mars"@ {
        Palette::Red
    } else if name == "Jupiter"@ {
        Palette::White
    } else if name == "Saturn"@ {
        Palette::Yellow
    } else if name == "Uranus"@ {
        Palette::Cyan
    } else if name == "Neptune"@ {
        Palette::Blue
    } else {
        Palette::White
    }
}

/// Colour of the planet called `name` on the sky map.
pub fn planet_color(name: &str) -> (c: Palette)
    ensures
        c == planet_palette_of(name@),
{
    if same_text(name, "Mercury") {
        Palette::Gray
    } else if same_text(name, "Venus") {
        Palette::Yellow
    } else if same_text(name, "Mars") {
        Palette::Red
    } else if same_text(name, "Jupiter") {
        Palette::White
    } else if same_text(name, "Saturn") {
        Palette::Yellow
    } else if same_text(name, "Uranus") {
        Palette::Cyan
    } else if same_text(name, "Neptune") {
        Palette::Blue
    } else {
        Palette::White
    }
}

/// Colour of the body called `name` in the solar-system view: as on the sky
/// map, and the Earth in cyan.
pub fn orrery_planet_color(name: &str) -> (c: Palette)
    ensures
        c == (if name@ == "Earth"@ { Palette::Cyan } else { planet_palette_of(name@) }),
{
    if same_text(name, "Earth") {
        Palette::Cyan
    } else {
        planet_color(name)
    }
}

/// The Moon glyph for the eighth of the lunation that `octant` counts
/// (0 = new moon, 2 = first quarter, 4 = full, 6 = last quarter); a new moon
/// for any count past the last eighth.
pub fn moon_phase_glyph(octant: u8) -> (s: &'static str)
    ensures
        s@ == (if octant == 1 { "🌒"@ }
        else if octant == 2 { "🌓"@ }
        else if octant == 3 { "🌔"@ }
        else if octant == 4 { "🌕"@ }
        else if octant == 5 { "🌖"@ }
        else if octant == 6 { "🌗"@ }
        else if octant == 7 { "🌘"@ }
        else { "🌑"@ }),
{
    match octant {
        0 => "🌑",
        1 => "🌒",
        2 => "🌓",
        3 => "🌔",
        4 => "🌕",
        5 => "🌖",
        6 => "🌗",
        7 => "🌘",
        _ => "🌑",
    }
}

/// A rectangle of terminal cells.
#[derive(Clone, Copy, Debug, PartialEq, Eq, Structural)]
pub struct Area {
    pub x: u16,
    pub y: u16,
    pub width: u16,
    pub height: u16,
}

/// A popup `width_pct` percent as wide as `area` (at least 40 cells) and
/// `height` rows high (at most four rows short of the area), centred in it.
pub fn centered_popup(area: Area, width_pct: u16, height: u16) -> (r: Area)
    requires
        area.width * width_pct <= u16::MAX,
        area.x + area.width <= u16::MAX,
        area.y + area.height <= u16::MAX,
    ensures
        r.width == (if area.width * width_pct / 100 > 40 { area.width * width_pct / 100 } else { 40 }),
        r.height == (if area.height >= 4 && height > area.height - 4 {
            (area.height - 4) as int
        } else if area.height < 4 {
            0
        } else {
            height as int
        }),
        r.x == area.x + (if area.width > r.width { (area.width - r.width) / 2 } else { 0 }),
        r.y == area.y + (if area.height > r.height { (area.height - r.height) / 2 } else { 0 }),
{
    let scaled: u16 = area.width * width_pct / 100;
    let popup_w: u16 = if scaled > 40 { scaled } else { 40 };
    let room: u16 = if area.height >= 4 { area.height - 4 } else { 0 };
    let popup_h: u16 = if height < room { height } else { room };
    let spare_w: u16 = if area.width > popup_w { area.width - popup_w } else { 0 };
    let spare_h: u16 = if area.height > popup_h { area.height - popup_h } else { 0 };
    Area { x: area.x + spare_w / 2, y: area.y + spare_h / 2, width: popup_w, height: popup_h }
}

/// Position of `tab` in the tab bar.
pub fn tab_position(tab: Tab) -> (r: usize)
    ensures
        r == match tab {
            Tab::Sky => 0usize,
            Tab::Weather => 1usize,
            Tab::SolarSystem => 2usize,
            Tab::Almanac => 3usize,
        },
{
    match tab {
        Tab::Sky => 0,
        Tab::Weather => 1,
        Tab::SolarSystem => 2,
        Tab::Almanac => 3,
    }
}

/// How the clock runs, as the status bar shows it.
#[derive(Clone, Copy, Debug)]
pub enum ClockStatus {
    Live,
    Paused,
    /// Running at the speed preset with this label.
    Running(&'static str),
}

/// The clock status for the status bar: live mode first, then pause, else the
/// speed preset of the current tab.
pub fn clock_status(
    live_mode: bool,
    time_paused: bool,
    tab: Tab,
    sky_speed_index: usize,
    orrery_speed_index: usize,
) -> (r: ClockStatus)
    requires
        sky_speed_index < SKY_SPEED_COUNT,
        orrery_speed_index < ORRERY_SPEED_COUNT,
    ensures
        live_mode ==> r == ClockStatus::Live,
        !live_mode && time_paused ==> r == ClockStatus::Paused,
        !live_mode && !time_paused ==> (r matches ClockStatus::Running(label) && label@ == (
            if tab == Tab::SolarSystem {
                orrery_speed_label(orrery_speed_index as int)
            } else {
                sky_speed_label(sky_speed_index as int)
            })),
{
    if live_mode {
        ClockStatus::Live
    } else if time_paused {
        ClockStatus::Paused
    } else {
        let label = match tab {
            Tab::SolarSystem => orrery_speed(orrery_speed_index).1,
            _ => sky_speed(sky_speed_index).1,
        };
        ClockStatus::Running(label)
    }
}

/// Colour of a forecast hour's row by its seeing: green for excellent and
/// good, yellow for fair, red for poor and bad.
pub fn seeing_color(q: SeeingQuality) -> (c: Palette)
    ensures
        c == match q {
            SeeingQuality::Excellent | SeeingQuality::Good => Palette::Green,
            SeeingQuality::Fair => Palette::Yellow,
            SeeingQuality::Poor | SeeingQuality::Bad => Palette::Red,
        },
{
    match q {
        SeeingQuality::Excellent | SeeingQuality::Good => Palette::Green,
        SeeingQuality::Fair => Palette::Yellow,
        SeeingQuality::Poor | SeeingQuality::Bad => Palette::Red,
    }
}

/// Colour of a forecast hour's day-period symbol: yellow by day, orange in
/// civil twilight, pale blue in nautical, blue in astronomical twilight and
/// dark blue at night.
pub fn day_period_color(p: DayPeriod) -> (c: Palette)
    ensures
        c == match p {
            DayPeriod::Day => Palette::Yellow,
            DayPeriod::CivilTwilight => Palette::Rgb(255, 165, 0),
            DayPeriod::NauticalTwilight => Palette::Rgb(100, 140, 210),
            DayPeriod::AstronomicalTwilight => Palette::Blue,
            DayPeriod::Night => Palette::Rgb(80, 80, 160),
        },
{
    match p {
        DayPeriod::Day => Palette::Yellow,
        DayPeriod::CivilTwilight => Palette::Rgb(255, 165, 0),
        DayPeriod::NauticalTwilight => Palette::Rgb(100, 140, 210),
        DayPeriod::AstronomicalTwilight => Palette::Blue,
        DayPeriod::Night => Palette::Rgb(80, 80, 160),
    }
}

/// What the weather tab shows.
#[derive(Clone, Copy, Debug, PartialEq, Eq, Structural)]
pub enum WeatherPanel {
    /// A forecast is being fetched.
    Loading,
    /// The last fetch failed; its error is shown.
    Error,
    /// Nothing was fetched yet.
    NotFetched,
    /// The forecast charts and table.
    Forecast,
}

/// The weather tab's panel: a fetch under way comes first, then the error of
/// the last fetch, then a prompt when no forecast was fetched; otherwise the
/// forecast.
pub fn weather_panel(loading: bool, has_error: bool, has_forecast: bool) -> (p: WeatherPanel)
    ensures
        p == (if loading {
            WeatherPanel::Loading
        } else if has_error {
            WeatherPanel::Error
        } else if !has_forecast {
            WeatherPanel::NotFetched
        } else {
            WeatherPanel::Forecast
        }),
{
    if loading {
        WeatherPanel::Loading
    } else if has_error {
        WeatherPanel::Error
    } else if !has_forecast {
        WeatherPanel::NotFetched
    } else {
        WeatherPanel::Forecast
    }
}

/// The fixed text of a panel that shows a notice in place of the forecast;
/// none for the error (whose text is the error's) and for the forecast.
pub fn weather_notice(p: WeatherPanel) -> (s: Option<&'static str>)
    ensures
        match p {
            WeatherPanel::Loading => s matches Some(t) && t@ == "Loading weather forecast..."@,
            WeatherPanel::NotFetched => s matches Some(t) && t@ == "Press [R] to fetch weather forecast."@,
            _ => s is None,
        },
{
    match p {
        WeatherPanel::Loading => Some("Loading weather forecast..."),
        WeatherPanel::NotFetched => Some("Press [R] to fetch weather forecast."),
        _ => None,
    }
}

/// The key help line shown under the status for each tab.
pub fn controls_hint(tab: Tab) -> (s: &'static str)
    ensures
        s@ == match tab {
            Tab::Sky => " [l]lat [o]lon [L]locations [T]time [Z]tz [N]now [Space]live [,/.]speed [+/-]mag [D]orion [f]toggle FoV [/]search [S/W/P/A/B]tab [Q]quit"@,
            Tab::Weather => " [l]lat [o]lon [L]locations [R]weather [↑/↓]scroll [S/W/P/A/B]tab [Q]quit"@,
            Tab::SolarSystem => " [l]lat [o]lon [L]locations [T]time [Z]tz [N]now [Space]live [,/.]speed [S/W/P/A/B]tab [Q]quit"@,
            Tab::Almanac => " [l]lat [o]lon [L]locations [T]time [Z]tz [N]now [Space]live [,/.]speed [v]bodies [S/W/P/A/B]tab [Q]quit"@,
        },
{
    match tab {
        Tab::Sky => " [l]lat [o]lon [L]locations [T]time [Z]tz [N]now [Space]live [,/.]speed [+/-]mag [D]orion [f]toggle FoV [/]search [S/W/P/A/B]tab [Q]quit",
        Tab::Weather => " [l]lat [o]lon [L]locations [R]weather [↑/↓]scroll [S/W/P/A/B]tab [Q]quit",
        Tab::SolarSystem => " [l]lat [o]lon [L]locations [T]time [Z]tz [N]now [Space]live [,/.]speed [S/W/P/A/B]tab [Q]quit",
        Tab::Almanac => " [l]lat [o]lon [L]locations [T]time [Z]tz [N]now [Space]live [,/.]speed [v]bodies [S/W/P/A/B]tab [Q]quit",
    }
}

} // verus!

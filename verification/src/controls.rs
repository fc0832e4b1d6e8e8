//! The keyboard state machine of the interface: which tab and overlay are
//! shown, the clock controls, the location list and the edit forms. Each key
//! press moves the state on and names the outside work to be done (astronomy,
//! network, clock, configuration file) as a list of effects.

use vstd::prelude::*;
use crate::clock::{is_zone_name, parse_typed_datetime, typed_utc_seconds, zone_known};
use crate::app::{
    opt_text, texts, DraftView, FovDraft, InputMode, NewLocationDraft, Tab, orrery_speed,
    orrery_speed_seconds, sky_speed, sky_speed_seconds, ORRERY_SPEED_COUNT, ORRERY_SPEED_DEFAULT,
    SKY_SPEED_COUNT, SKY_SPEED_DEFAULT,
};

verus! {

/// A key as the state machine sees it.
#[derive(Clone, Copy, Debug, PartialEq, Eq, Structural)]
pub enum KeyCode {
    Char(char),
    Up,
    Down,
    Left,
    Right,
    Enter,
    Esc,
    Tab,
    Backspace,
    Other,
}

/// A key press, with whether Control was held.
#[derive(Clone, Copy, Debug, PartialEq, Eq, Structural)]
pub struct Key {
    pub code: KeyCode,
    pub ctrl: bool,
}

/// Direction in which to move the field-of-view view.
#[derive(Clone, Copy, Debug, PartialEq, Eq, Structural)]
pub enum Pan {
    Up,
    Down,
    Left,
    Right,
}

/// Outside work that a key press asks for, in the order it is to be done.
#[derive(Debug)]
pub enum Effect {
    /// Leave the program.
    Quit,
    /// Recompute stars, Sun, Moon, planets and orrery (and the almanac on its tab).
    Recompute,
    /// Compute the almanac, then report its number of bodies.
    ComputeAlmanac,
    /// Start fetching the weather forecast for the current location.
    FetchWeather,
    /// Write the location list to the configuration file.
    SaveConfig,
    /// Take position and time zone from this location, then recompute.
    LoadLocation(usize),
    /// Set the clock to the current time.
    JumpToNow,
    /// Restart the wall-clock reference of the simulated clock.
    ResetTick,
    /// Widen the field-of-view view.
    WidenFov,
    /// Narrow the field-of-view view.
    NarrowFov,
    /// Show fainter stars.
    RaiseMagLimit,
    /// Show fewer stars.
    LowerMagLimit,
    /// Move the field-of-view view.
    PanFov(Pan),
    /// Check the new-location form and report the outcome.
    SubmitLocationDraft,
    /// Check the field-of-view form and report the outcome.
    SubmitFovDraft,
    /// Set the clock to this instant, in seconds since 1970-01-01 00:00 UTC.
    SetClock(i64),
    /// Use the time zone of this name.
    SetTimezone(String),
    /// Set the latitude to this typed value, if it is a number within ±90°.
    SetLatitude(String),
    /// Set the longitude to this typed value, if it is a number within ±180°.
    SetLongitude(String),
}

pub enum EffectView {
    Quit,
    Recompute,
    ComputeAlmanac,
    FetchWeather,
    SaveConfig,
    LoadLocation(usize),
    JumpToNow,
    ResetTick,
    WidenFov,
    NarrowFov,
    RaiseMagLimit,
    LowerMagLimit,
    PanFov(Pan),
    SubmitLocationDraft,
    SubmitFovDraft,
    SetClock(i64),
    SetTimezone(Seq<char>),
    SetLatitude(Seq<char>),
    SetLongitude(Seq<char>),
}

impl View for Effect {
    type V = EffectView;

    open spec fn view(&self) -> EffectView {
        match self {
            Effect::Quit => EffectView::Quit,
            Effect::Recompute => EffectView::Recompute,
            Effect::ComputeAlmanac => EffectView::ComputeAlmanac,
            Effect::FetchWeather => EffectView::FetchWeather,
            Effect::SaveConfig => EffectView::SaveConfig,
            Effect::LoadLocation(i) => EffectView::LoadLocation(*i),
            Effect::JumpToNow => EffectView::JumpToNow,
            Effect::ResetTick => EffectView::ResetTick,
            Effect::WidenFov => EffectView::WidenFov,
            Effect::NarrowFov => EffectView::NarrowFov,
            Effect::RaiseMagLimit => EffectView::RaiseMagLimit,
            Effect::LowerMagLimit => EffectView::LowerMagLimit,
            Effect::PanFov(p) => EffectView::PanFov(*p),
            Effect::SubmitLocationDraft => EffectView::SubmitLocationDraft,
            Effect::SubmitFovDraft => EffectView::SubmitFovDraft,
            Effect::SetClock(t) => EffectView::SetClock(*t),
            Effect::SetTimezone(t) => EffectView::SetTimezone(t@),
            Effect::SetLatitude(t) => EffectView::SetLatitude(t@),
            Effect::SetLongitude(t) => EffectView::SetLongitude(t@),
        }
    }
}

pub open spec fn effects_view(v: Seq<Effect>) -> Seq<EffectView> {
    v.map_values(|e: Effect| e@)
}

/// What a key press may need to know of the parts of the program outside
/// the state machine.
pub struct KeyContext {
    /// The clock's date and time in UTC, as the time editor starts from.
    pub datetime_text: String,
    /// The time zone's name as the time-zone editor starts from ("" for none).
    pub timezone_text: String,
    /// The latitude as the latitude editor starts from.
    pub latitude_text: String,
    /// The longitude as the longitude editor starts from.
    pub longitude_text: String,
    /// Altitude, azimuth and width of the field-of-view view, as the form starts from.
    pub fov_texts: [String; 3],
    /// Number of forecast hours loaded (0 when none).
    pub forecast_count: usize,
    /// Number of bodies in the almanac.
    pub almanac_track_count: usize,
}

pub struct KeyContextView {
    pub datetime_text: Seq<char>,
    pub timezone_text: Seq<char>,
    pub latitude_text: Seq<char>,
    pub longitude_text: Seq<char>,
    pub fov_texts: Seq<Seq<char>>,
    pub forecast_count: usize,
    pub almanac_track_count: usize,
}

impl View for KeyContext {
    type V = KeyContextView;

    open spec fn view(&self) -> KeyContextView {
        KeyContextView {
            datetime_text: self.datetime_text@,
            timezone_text: self.timezone_text@,
            latitude_text: self.latitude_text@,
            longitude_text: self.longitude_text@,
            fov_texts: texts(self.fov_texts@),
            forecast_count: self.forecast_count,
            almanac_track_count: self.almanac_track_count,
        }
    }
}

/// The interface state that keys act on; `L` is a stored location. Its
/// fields are read through `@` and the accessors below, and change only by
/// the methods below, which keep it well formed.
pub struct Controls<L> {
    tab: Tab,
    input_mode: InputMode,
    input_buf: String,
    live_mode: bool,
    sky_speed_index: usize,
    orrery_speed_index: usize,
    time_paused: bool,
    test_mode: bool,
    fov_active: bool,
    locations: Vec<L>,
    location_index: usize,
    picker_sel: usize,
    new_loc_draft: Option<NewLocationDraft>,
    selected_bodies: Vec<bool>,
    almanac_picker_sel: usize,
    almanac_show_times: bool,
    weather_loading: bool,
    weather_scroll: usize,
    fov_draft: Option<FovDraft>,
}

#[verifier::ext_equal]
pub struct ControlsView<L> {
    pub tab: Tab,
    pub input_mode: InputMode,
    pub input_buf: Seq<char>,
    pub live_mode: bool,
    pub sky_speed_index: usize,
    pub orrery_speed_index: usize,
    pub time_paused: bool,
    pub test_mode: bool,
    pub fov_active: bool,
    pub locations: Seq<L>,
    pub location_index: usize,
    pub picker_sel: usize,
    pub new_loc_draft: Option<DraftView>,
    pub selected_bodies: Seq<bool>,
    pub almanac_picker_sel: usize,
    pub almanac_show_times: bool,
    pub weather_loading: bool,
    pub weather_scroll: usize,
    pub fov_draft: Option<DraftView>,
}

pub open spec fn opt_location_draft(d: Option<NewLocationDraft>) -> Option<DraftView> {
    match d {
        Some(d) => Some(d@),
        None => None,
    }
}

pub open spec fn opt_fov_draft(d: Option<FovDraft>) -> Option<DraftView> {
    match d {
        Some(d) => Some(d@),
        None => None,
    }
}

impl<L> View for Controls<L> {
    type V = ControlsView<L>;

    closed spec fn view(&self) -> ControlsView<L> {
        ControlsView {
            tab: self.tab,
            input_mode: self.input_mode,
            input_buf: self.input_buf@,
            live_mode: self.live_mode,
            sky_speed_index: self.sky_speed_index,
            orrery_speed_index: self.orrery_speed_index,
            time_paused: self.time_paused,
            test_mode: self.test_mode,
            fov_active: self.fov_active,
            locations: self.locations@,
            location_index: self.location_index,
            picker_sel: self.picker_sel,
            new_loc_draft: opt_location_draft(self.new_loc_draft),
            selected_bodies: self.selected_bodies@,
            almanac_picker_sel: self.almanac_picker_sel,
            almanac_show_times: self.almanac_show_times,
            weather_loading: self.weather_loading,
            weather_scroll: self.weather_scroll,
            fov_draft: opt_fov_draft(self.fov_draft),
        }
    }
}

/// A form whose field index is in range for its `n` fields.
pub open spec fn draft_ok(d: DraftView, n: nat) -> bool {
    d.bufs.len() == n && d.field < n
}

/// The state's own consistency: there is always a location and both the
/// active and the highlighted one exist; the speed presets exist; an open
/// form has a valid field.
pub open spec fn well_formed<L>(s: ControlsView<L>) -> bool {
    &&& s.locations.len() > 0
    &&& s.location_index < s.locations.len()
    &&& s.picker_sel < s.locations.len()
    &&& s.sky_speed_index < SKY_SPEED_COUNT
    &&& s.orrery_speed_index < ORRERY_SPEED_COUNT
    &&& s.almanac_picker_sel < usize::MAX
    &&& s.input_mode == InputMode::AddingLocation ==> (s.new_loc_draft matches Some(d) && draft_ok(d, 4))
    &&& s.input_mode == InputMode::FovInput ==> (s.fov_draft matches Some(d) && draft_ok(d, 3))
}

/// `t` with its last character removed, if it has one.
pub open spec fn backspaced(t: Seq<char>) -> Seq<char> {
    if t.len() > 0 { t.drop_last() } else { t }
}

pub open spec fn is_char(code: KeyCode, a: char, b: char) -> bool {
    code == KeyCode::Char(a) || code == KeyCode::Char(b)
}

pub open spec fn empty_form(n: nat) -> DraftView {
    DraftView { bufs: Seq::new(n, |i: int| Seq::<char>::empty()), field: 0, error: None }
}

/// Keys in normal mode that are letters or punctuation.
pub open spec fn step_normal_char<L>(s: ControlsView<L>, c: char, ctx: KeyContextView) -> (ControlsView<L>, Seq<EffectView>) {
    let code = KeyCode::Char(c);
    if is_char(code, 'q', 'Q') {
        (s, seq![EffectView::Quit])
    } else if is_char(code, 's', 'S') {
        (ControlsView { tab: Tab::Sky, ..s }, seq![])
    } else if is_char(code, 'w', 'W') {
        (ControlsView { tab: Tab::Weather, ..s }, seq![])
    } else if is_char(code, 'p', 'P') {
        (ControlsView { tab: Tab::SolarSystem, ..s }, seq![])
    } else if is_char(code, 'a', 'A') {
        (ControlsView { tab: Tab::Almanac, ..s }, seq![EffectView::ComputeAlmanac])
    } else if is_char(code, 'b', 'B') && s.tab == Tab::Almanac {
        (ControlsView { input_mode: InputMode::AlmanacBodyPicker, almanac_picker_sel: 0, ..s }, seq![])
    } else if is_char(code, 'f', 'F') && s.tab == Tab::Sky {
        if s.fov_active {
            (ControlsView { fov_active: false, ..s }, seq![])
        } else {
            (ControlsView {
                fov_draft: Some(DraftView { bufs: ctx.fov_texts, field: 0, error: None }),
                input_mode: InputMode::FovInput,
                ..s
            }, seq![])
        }
    } else if c == '[' && s.fov_active && s.tab == Tab::Sky {
        (s, seq![EffectView::WidenFov])
    } else if c == ']' && s.fov_active && s.tab == Tab::Sky {
        (s, seq![EffectView::NarrowFov])
    } else if c == 'l' {
        (ControlsView { input_mode: InputMode::EditingLatitude, input_buf: ctx.latitude_text, ..s }, seq![])
    } else if is_char(code, 'o', 'O') {
        (ControlsView { input_mode: InputMode::EditingLongitude, input_buf: ctx.longitude_text, ..s }, seq![])
    } else if c == 'L' {
        (ControlsView { input_mode: InputMode::LocationPicker, picker_sel: s.location_index, ..s }, seq![])
    } else if is_char(code, 't', 'T') {
        (ControlsView { input_mode: InputMode::EditingDatetime, input_buf: ctx.datetime_text, ..s }, seq![])
    } else if is_char(code, 'z', 'Z') {
        (ControlsView { input_mode: InputMode::EditingTimezone, input_buf: ctx.timezone_text, ..s }, seq![])
    } else if c == ' ' {
        if s.live_mode {
            (ControlsView { live_mode: false, time_paused: true, ..s }, seq![])
        } else {
            (ControlsView { live_mode: true, time_paused: false, ..s },
                seq![EffectView::JumpToNow, EffectView::ResetTick, EffectView::Recompute])
        }
    } else if is_char(code, 'n', 'N') {
        (ControlsView { live_mode: true, time_paused: false, ..s },
            seq![EffectView::JumpToNow, EffectView::ResetTick, EffectView::Recompute])
    } else if c == ',' {
        if s.tab == Tab::SolarSystem {
            (ControlsView {
                orrery_speed_index: if s.orrery_speed_index > 0 { (s.orrery_speed_index - 1) as usize } else { s.orrery_speed_index },
                live_mode: false,
                ..s
            }, seq![EffectView::ResetTick])
        } else {
            (ControlsView {
                sky_speed_index: if s.sky_speed_index > 0 { (s.sky_speed_index - 1) as usize } else { s.sky_speed_index },
                live_mode: false,
                ..s
            }, seq![EffectView::ResetTick])
        }
    } else if c == '.' {
        if s.tab == Tab::SolarSystem {
            (ControlsView {
                orrery_speed_index: if s.orrery_speed_index + 1 < ORRERY_SPEED_COUNT { (s.orrery_speed_index + 1) as usize } else { s.orrery_speed_index },
                live_mode: false,
                ..s
            }, seq![EffectView::ResetTick])
        } else {
            (ControlsView {
                sky_speed_index: if s.sky_speed_index + 1 < SKY_SPEED_COUNT { (s.sky_speed_index + 1) as usize } else { s.sky_speed_index },
                live_mode: false,
                ..s
            }, seq![EffectView::ResetTick])
        }
    } else if is_char(code, '+', '=') {
        (s, seq![EffectView::RaiseMagLimit, EffectView::Recompute])
    } else if c == '-' {
        (s, seq![EffectView::LowerMagLimit, EffectView::Recompute])
    } else if is_char(code, 'd', 'D') {
        (ControlsView { test_mode: !s.test_mode, ..s }, seq![EffectView::Recompute])
    } else if is_char(code, 'r', 'R') {
        if s.weather_loading {
            (s, seq![])
        } else {
            (ControlsView { weather_loading: true, ..s }, seq![EffectView::FetchWeather])
        }
    } else {
        (s, seq![])
    }
}

/// Keys in normal mode.
pub open spec fn step_normal<L>(s: ControlsView<L>, code: KeyCode, ctx: KeyContextView) -> (ControlsView<L>, Seq<EffectView>) {
    let fov_view = s.fov_active && s.tab == Tab::Sky;
    match code {
        KeyCode::Char(c) => step_normal_char(s, c, ctx),
        KeyCode::Esc => if s.fov_active {
            (ControlsView { fov_active: false, ..s }, seq![])
        } else {
            (s, seq![])
        },
        KeyCode::Up => if fov_view {
            (s, seq![EffectView::PanFov(Pan::Up)])
        } else {
            (ControlsView {
                weather_scroll: if s.weather_scroll > 0 { (s.weather_scroll - 1) as usize } else { 0 },
                ..s
            }, seq![])
        },
        KeyCode::Down => if fov_view {
            (s, seq![EffectView::PanFov(Pan::Down)])
        } else {
            let max = if ctx.forecast_count > 0 { ctx.forecast_count - 1 } else { 0 };
            if s.weather_scroll < max {
                (ControlsView { weather_scroll: (s.weather_scroll + 1) as usize, ..s }, seq![])
            } else {
                (s, seq![])
            }
        },
        KeyCode::Left => if fov_view { (s, seq![EffectView::PanFov(Pan::Left)]) } else { (s, seq![]) },
        KeyCode::Right => if fov_view { (s, seq![EffectView::PanFov(Pan::Right)]) } else { (s, seq![]) },
        _ => (s, seq![]),
    }
}

/// Deleting the highlighted location (when more than one is left): the
/// highlight stays in range; the active location keeps its entry, or moves
/// to the new last one (reloaded) when it was past the end.
pub open spec fn step_delete_location<L>(s: ControlsView<L>) -> (ControlsView<L>, Seq<EffectView>) {
    let locs = s.locations.remove(s.picker_sel as int);
    let n = locs.len();
    let sel: usize = if s.picker_sel >= n { (n - 1) as usize } else { s.picker_sel };
    if s.location_index >= n {
        let li = (n - 1) as usize;
        (ControlsView { locations: locs, picker_sel: sel, location_index: li, weather_loading: true, ..s },
            seq![EffectView::LoadLocation(li), EffectView::FetchWeather, EffectView::SaveConfig])
    } else if s.location_index > sel {
        (ControlsView { locations: locs, picker_sel: sel, location_index: (s.location_index - 1) as usize, ..s },
            seq![EffectView::SaveConfig])
    } else {
        (ControlsView { locations: locs, picker_sel: sel, ..s }, seq![EffectView::SaveConfig])
    }
}

/// Keys in the location picker.
pub open spec fn step_picker<L>(s: ControlsView<L>, code: KeyCode) -> (ControlsView<L>, Seq<EffectView>) {
    match code {
        KeyCode::Esc => (ControlsView { input_mode: InputMode::Normal, ..s }, seq![]),
        KeyCode::Up => if s.picker_sel > 0 {
            (ControlsView { picker_sel: (s.picker_sel - 1) as usize, ..s }, seq![])
        } else {
            (s, seq![])
        },
        KeyCode::Down => if s.picker_sel + 1 < s.locations.len() {
            (ControlsView { picker_sel: (s.picker_sel + 1) as usize, ..s }, seq![])
        } else {
            (s, seq![])
        },
        KeyCode::Enter => if s.picker_sel < s.locations.len() {
            (ControlsView { location_index: s.picker_sel, weather_loading: true, input_mode: InputMode::Normal, ..s },
                seq![EffectView::LoadLocation(s.picker_sel), EffectView::FetchWeather])
        } else {
            (ControlsView { weather_loading: true, input_mode: InputMode::Normal, ..s },
                seq![EffectView::FetchWeather])
        },
        KeyCode::Char(c) => if is_char(code, 'n', 'N') {
            (ControlsView { new_loc_draft: Some(empty_form(4)), input_mode: InputMode::AddingLocation, ..s }, seq![])
        } else if is_char(code, 'd', 'D') && s.locations.len() > 1 {
            step_delete_location(s)
        } else {
            (s, seq![])
        },
        _ => (s, seq![]),
    }
}

/// Editing keys in a form of `n` fields with contents `d`: Tab, Down and
/// Enter move to the next field (not past the last), Up to the previous one
/// (not before the first), Backspace and characters edit the current field.
pub open spec fn step_form(d: DraftView, code: KeyCode, n: nat) -> DraftView {
    match code {
        KeyCode::Tab | KeyCode::Down | KeyCode::Enter => if d.field + 1 < n {
            DraftView { field: (d.field + 1) as usize, ..d }
        } else {
            d
        },
        KeyCode::Up => if d.field > 0 { DraftView { field: (d.field - 1) as usize, ..d } } else { d },
        KeyCode::Backspace => DraftView { bufs: d.bufs.update(d.field as int, backspaced(d.bufs[d.field as int])), ..d },
        KeyCode::Char(c) => DraftView { bufs: d.bufs.update(d.field as int, d.bufs[d.field as int].push(c)), ..d },
        _ => d,
    }
}

/// Keys in the new-location form.
pub open spec fn step_adding<L>(s: ControlsView<L>, code: KeyCode) -> (ControlsView<L>, Seq<EffectView>) {
    match s.new_loc_draft {
        Some(d) => if code == KeyCode::Esc {
            (ControlsView { new_loc_draft: None, input_mode: InputMode::LocationPicker, ..s }, seq![])
        } else if code == KeyCode::Enter && d.field + 1 >= 4 {
            (s, seq![EffectView::SubmitLocationDraft])
        } else {
            (ControlsView { new_loc_draft: Some(step_form(d, code, 4)), ..s }, seq![])
        },
        None => (s, seq![]),
    }
}

/// Keys in the field-of-view form.
pub open spec fn step_fov_form<L>(s: ControlsView<L>, code: KeyCode) -> (ControlsView<L>, Seq<EffectView>) {
    match s.fov_draft {
        Some(d) => if code == KeyCode::Esc {
            (ControlsView { fov_draft: None, input_mode: InputMode::Normal, ..s }, seq![])
        } else if code == KeyCode::Enter && d.field + 1 >= 3 {
            (s, seq![EffectView::SubmitFovDraft])
        } else {
            (ControlsView { fov_draft: Some(step_form(d, code, 3)), ..s }, seq![])
        },
        None => (s, seq![]),
    }
}

/// Keys in the almanac body picker.
pub open spec fn step_bodies<L>(s: ControlsView<L>, code: KeyCode, ctx: KeyContextView) -> (ControlsView<L>, Seq<EffectView>) {
    if code == KeyCode::Esc {
        (ControlsView { input_mode: InputMode::Normal, ..s }, seq![])
    } else if code == KeyCode::Up || code == KeyCode::Char('k') {
        (ControlsView {
            almanac_picker_sel: if s.almanac_picker_sel > 0 {
                (s.almanac_picker_sel - 1) as usize
            } else if ctx.almanac_track_count > 0 {
                (ctx.almanac_track_count - 1) as usize
            } else {
                0
            },
            ..s
        }, seq![])
    } else if code == KeyCode::Down || code == KeyCode::Char('j') {
        (ControlsView {
            almanac_picker_sel: if s.almanac_picker_sel + 1 < ctx.almanac_track_count {
                (s.almanac_picker_sel + 1) as usize
            } else {
                0
            },
            ..s
        }, seq![])
    } else if code == KeyCode::Char(' ') || code == KeyCode::Enter {
        if s.almanac_picker_sel < s.selected_bodies.len() {
            (ControlsView {
                selected_bodies: s.selected_bodies.update(
                    s.almanac_picker_sel as int,
                    !s.selected_bodies[s.almanac_picker_sel as int],
                ),
                ..s
            }, seq![])
        } else {
            (s, seq![])
        }
    } else {
        (s, seq![])
    }
}

/// The one-line text editors: date and time, time zone, latitude, longitude.
pub open spec fn is_text_editor(m: InputMode) -> bool {
    m == InputMode::EditingDatetime || m == InputMode::EditingTimezone
        || m == InputMode::EditingLatitude || m == InputMode::EditingLongitude
}

/// Enter in a text editor: the editor closes and its text is taken over.
/// A date and time that reads as a UTC instant sets the clock there and holds
/// it; a known time-zone name becomes the zone; a latitude or longitude goes
/// to the program to be checked and set. Everything but the zone also fetches
/// the weather again.
pub open spec fn text_entered<L>(s: ControlsView<L>) -> (ControlsView<L>, Seq<EffectView>) {
    let text = s.input_buf;
    let closed = ControlsView { input_mode: InputMode::Normal, input_buf: Seq::<char>::empty(), ..s };
    if s.input_mode == InputMode::EditingTimezone {
        if zone_known(text) {
            (closed, seq![EffectView::SetTimezone(text), EffectView::Recompute])
        } else {
            (closed, seq![EffectView::Recompute])
        }
    } else if s.input_mode == InputMode::EditingLatitude {
        (ControlsView { weather_loading: true, ..closed },
            seq![EffectView::SetLatitude(text), EffectView::Recompute, EffectView::FetchWeather])
    } else if s.input_mode == InputMode::EditingLongitude {
        (ControlsView { weather_loading: true, ..closed },
            seq![EffectView::SetLongitude(text), EffectView::Recompute, EffectView::FetchWeather])
    } else {
        match typed_utc_seconds(text) {
            Some(t) => (ControlsView { live_mode: false, time_paused: true, weather_loading: true, ..closed },
                seq![EffectView::SetClock(t), EffectView::Recompute, EffectView::FetchWeather]),
            None => (ControlsView { weather_loading: true, ..closed },
                seq![EffectView::Recompute, EffectView::FetchWeather]),
        }
    }
}

/// Keys in the text editors.
pub open spec fn step_editing<L>(s: ControlsView<L>, code: KeyCode) -> (ControlsView<L>, Seq<EffectView>) {
    match code {
        KeyCode::Esc => (ControlsView { input_mode: InputMode::Normal, input_buf: Seq::empty(), ..s }, seq![]),
        KeyCode::Enter => text_entered(s),
        KeyCode::Backspace => (ControlsView { input_buf: backspaced(s.input_buf), ..s }, seq![]),
        KeyCode::Char(c) => (ControlsView { input_buf: s.input_buf.push(c), ..s }, seq![]),
        _ => (s, seq![]),
    }
}

/// What a key press does: Control-C always quits; otherwise the current
/// input mode decides.
pub open spec fn step<L>(s: ControlsView<L>, key: Key, ctx: KeyContextView) -> (ControlsView<L>, Seq<EffectView>) {
    if key.ctrl && key.code == KeyCode::Char('c') {
        (s, seq![EffectView::Quit])
    } else {
        match s.input_mode {
            InputMode::Normal => step_normal(s, key.code, ctx),
            InputMode::LocationPicker => step_picker(s, key.code),
            InputMode::AddingLocation => step_adding(s, key.code),
            InputMode::AlmanacBodyPicker => step_bodies(s, key.code, ctx),
            InputMode::FovInput => step_fov_form(s, key.code),
            InputMode::EditingDatetime | InputMode::EditingTimezone | InputMode::EditingLatitude
            | InputMode::EditingLongitude => step_editing(s, key.code),
        }
    }
}

/// Every key press keeps the state well formed: there is always a location,
/// the active and highlighted locations exist (deleting never removes the
/// last one), the speed presets exist, and an open form has a valid field.
pub proof fn lemma_step_preserves_well_formed<L>(s: ControlsView<L>, key: Key, ctx: KeyContextView)
    requires
        well_formed(s),
        ctx.fov_texts.len() == 3,
    ensures
        well_formed(step(s, key, ctx).0),
{
    if !(key.ctrl && key.code == KeyCode::Char('c')) {
        match s.input_mode {
            InputMode::Normal => {
                match key.code {
                    KeyCode::Char(c) => lemma_normal_char_well_formed(s, c, ctx),
                    _ => {},
                }
            },
            InputMode::LocationPicker => lemma_picker_well_formed(s, key.code),
            _ => {},
        }
    }
}

proof fn lemma_normal_char_well_formed<L>(s: ControlsView<L>, c: char, ctx: KeyContextView)
    requires
        well_formed(s),
        ctx.fov_texts.len() == 3,
    ensures
        well_formed(step_normal_char(s, c, ctx).0),
{
}

proof fn lemma_picker_well_formed<L>(s: ControlsView<L>, code: KeyCode)
    requires
        well_formed(s),
    ensures
        well_formed(step_picker(s, code).0),
{
    if is_char(code, 'd', 'D') && !is_char(code, 'n', 'N') && s.locations.len() > 1 {
        assert(s.locations.remove(s.picker_sel as int).len() == s.locations.len() - 1);
    }
}

/// Control-C quits from every mode and leaves the state as it was.
pub proof fn lemma_ctrl_c_quits<L>(s: ControlsView<L>, ctx: KeyContextView)
    ensures
        step(s, Key { code: KeyCode::Char('c'), ctrl: true }, ctx) == (s, seq![EffectView::Quit]),
{
}

/// In normal mode Space toggles live mode: leaving it holds the clock where
/// it is, entering it jumps to the present and lets the clock run. From a
/// live or a held clock, pressing Space twice leaves the state as it was.
pub proof fn lemma_space_toggles_live<L>(s: ControlsView<L>, ctx: KeyContextView)
    requires
        s.input_mode == InputMode::Normal,
    ensures
        ({
            let (once, e) = step(s, Key { code: KeyCode::Char(' '), ctrl: false }, ctx);
            &&& once.live_mode == !s.live_mode
            &&& once.time_paused == s.live_mode
            &&& once.live_mode ==> e == seq![EffectView::JumpToNow, EffectView::ResetTick, EffectView::Recompute]
            &&& !once.live_mode ==> e.len() == 0
        }),
        s.live_mode != s.time_paused ==> step(
            step(s, Key { code: KeyCode::Char(' '), ctrl: false }, ctx).0,
            Key { code: KeyCode::Char(' '), ctrl: false },
            ctx,
        ).0 == s,
{
    let once = step(s, Key { code: KeyCode::Char(' '), ctrl: false }, ctx).0;
    assert(once == ControlsView { live_mode: !s.live_mode, time_paused: s.live_mode, ..s });
    if s.live_mode != s.time_paused {
        assert(step(once, Key { code: KeyCode::Char(' '), ctrl: false }, ctx).0 =~= s);
    }
}

/// Deleting a location other than the active one keeps the active location:
/// the entry it points at afterwards is the one it pointed at before, and the
/// list is one shorter, never empty.
pub proof fn lemma_delete_keeps_active_location<L>(s: ControlsView<L>, ctx: KeyContextView, c: char)
    requires
        well_formed(s),
        s.input_mode == InputMode::LocationPicker,
        c == 'd' || c == 'D',
        s.locations.len() > 1,
        s.location_index != s.picker_sel,
    ensures
        ({
            let t = step(s, Key { code: KeyCode::Char(c), ctrl: false }, ctx).0;
            &&& t.locations == s.locations.remove(s.picker_sel as int)
            &&& t.locations.len() == s.locations.len() - 1 > 0
            &&& t.locations[t.location_index as int] == s.locations[s.location_index as int]
        }),
{
}

/// Enter in the location picker activates the highlighted location, asks to
/// load it and to fetch its weather, and closes the picker.
pub proof fn lemma_picker_enter_activates<L>(s: ControlsView<L>, ctx: KeyContextView)
    requires
        well_formed(s),
        s.input_mode == InputMode::LocationPicker,
    ensures
        ({
            let (t, e) = step(s, Key { code: KeyCode::Enter, ctrl: false }, ctx);
            &&& t.location_index == s.picker_sel
            &&& t.input_mode == InputMode::Normal
            &&& t.weather_loading
            &&& e == seq![EffectView::LoadLocation(s.picker_sel), EffectView::FetchWeather]
        }),
{
}

/// In the text editors, Backspace undoes a typed character: typing `c` and
/// then deleting it leaves the state as it was.
pub proof fn lemma_backspace_undoes_typing<L>(s: ControlsView<L>, ctx: KeyContextView, c: char)
    requires
        is_text_editor(s.input_mode),
    ensures
        step(step(s, Key { code: KeyCode::Char(c), ctrl: false }, ctx).0, Key { code: KeyCode::Backspace, ctrl: false }, ctx).0 == s,
{
    let once = step(s, Key { code: KeyCode::Char(c), ctrl: false }, ctx).0;
    assert(once == ControlsView { input_buf: s.input_buf.push(c), ..s });
    assert(s.input_buf.push(c).drop_last() =~= s.input_buf);
    assert(step(once, Key { code: KeyCode::Backspace, ctrl: false }, ctx).0 =~= s);
}

/// Enter in the date-time editor sets the clock to the typed date and time,
/// read in UTC, and holds it there; text that does not read as a date and
/// time sets nothing and leaves the clock's mode as it was. Either way the
/// editor closes empty, the sky is recomputed and the weather fetched again.
pub proof fn lemma_typed_time_sets_clock<L>(s: ControlsView<L>, ctx: KeyContextView)
    requires
        s.input_mode == InputMode::EditingDatetime,
    ensures
        ({
            let (t, e) = step(s, Key { code: KeyCode::Enter, ctrl: false }, ctx);
            &&& t.input_mode == InputMode::Normal
            &&& t.input_buf.len() == 0
            &&& match typed_utc_seconds(s.input_buf) {
                Some(secs) => {
                    &&& e == seq![EffectView::SetClock(secs), EffectView::Recompute, EffectView::FetchWeather]
                    &&& !t.live_mode
                    &&& t.time_paused
                },
                None => {
                    &&& e == seq![EffectView::Recompute, EffectView::FetchWeather]
                    &&& t.live_mode == s.live_mode
                    &&& t.time_paused == s.time_paused
                },
            }
        }),
{
}

/// Enter in the time-zone editor closes it and asks for a recomputation; it
/// asks for the typed name to become the time zone exactly when that name is a
/// known zone, and it never fetches the weather.
pub proof fn lemma_zone_entry<L>(s: ControlsView<L>, ctx: KeyContextView)
    requires
        s.input_mode == InputMode::EditingTimezone,
    ensures
        ({
            let (t, e) = step(s, Key { code: KeyCode::Enter, ctrl: false }, ctx);
            &&& t == (ControlsView { input_mode: InputMode::Normal, input_buf: Seq::<char>::empty(), ..s })
            &&& e.last() == EffectView::Recompute
            &&& (e.contains(EffectView::SetTimezone(s.input_buf)) <==> zone_known(s.input_buf))
            &&& !e.contains(EffectView::FetchWeather)
            &&& e.len() == (if zone_known(s.input_buf) { 2int } else { 1int })
        }),
{
    let e = step(s, Key { code: KeyCode::Enter, ctrl: false }, ctx).1;
    if zone_known(s.input_buf) {
        assert(e[0] == EffectView::SetTimezone(s.input_buf));
    } else {
        assert(e =~= seq![EffectView::Recompute]);
        if e.contains(EffectView::SetTimezone(s.input_buf)) {
            let i = choose|i: int| 0 <= i < e.len() && e[i] == EffectView::SetTimezone(s.input_buf);
            assert(e[i] == EffectView::Recompute);
        }
    }
    if e.contains(EffectView::FetchWeather) {
        let i = choose|i: int| 0 <= i < e.len() && e[i] == EffectView::FetchWeather;
        assert(e[i] == EffectView::Recompute || e[i] == EffectView::SetTimezone(s.input_buf));
    }
}

/// `t` and `T` open the date-time editor on every tab, starting from the
/// clock's date and time in UTC.
pub proof fn lemma_t_opens_time_editor<L>(s: ControlsView<L>, ctx: KeyContextView, c: char)
    requires
        s.input_mode == InputMode::Normal,
        c == 't' || c == 'T',
    ensures
        ({
            let (t, e) = step(s, Key { code: KeyCode::Char(c), ctrl: false }, ctx);
            &&& t == (ControlsView { input_mode: InputMode::EditingDatetime, input_buf: ctx.datetime_text, ..s })
            &&& e.len() == 0
        }),
{
}

/// `l` opens the latitude editor and `o` the longitude editor, each starting
/// from the current value; Enter then hands the text over to be set, and the
/// sky is recomputed and the weather fetched for the new place.
pub proof fn lemma_coordinate_editors<L>(s: ControlsView<L>, ctx: KeyContextView)
    requires
        s.input_mode == InputMode::Normal,
    ensures
        ({
            let lat = step(s, Key { code: KeyCode::Char('l'), ctrl: false }, ctx).0;
            let (lat_done, lat_e) = step(lat, Key { code: KeyCode::Enter, ctrl: false }, ctx);
            &&& lat.input_mode == InputMode::EditingLatitude
            &&& lat.input_buf == ctx.latitude_text
            &&& lat_e == seq![EffectView::SetLatitude(ctx.latitude_text), EffectView::Recompute, EffectView::FetchWeather]
            &&& lat_done.input_mode == InputMode::Normal
        }),
        ({
            let lon = step(s, Key { code: KeyCode::Char('o'), ctrl: false }, ctx).0;
            let (lon_done, lon_e) = step(lon, Key { code: KeyCode::Enter, ctrl: false }, ctx);
            &&& lon.input_mode == InputMode::EditingLongitude
            &&& lon.input_buf == ctx.longitude_text
            &&& lon_e == seq![EffectView::SetLongitude(ctx.longitude_text), EffectView::Recompute, EffectView::FetchWeather]
            &&& lon_done.input_mode == InputMode::Normal
        }),
{
}

/// The simulated clock follows the present in live mode and holds when
/// paused; otherwise it runs at the solar-system preset on the solar-system
/// tab and at the sky preset on every other tab (sky, weather, almanac), so
/// all tabs but the solar system run alike.
pub proof fn lemma_tick_by_tab<L>(s: ControlsView<L>)
    requires
        well_formed(s),
    ensures
        s.live_mode ==> tick_of(s) == Tick::FollowNow,
        !s.live_mode && s.time_paused ==> tick_of(s) == Tick::Hold,
        !s.live_mode && !s.time_paused && s.tab == Tab::SolarSystem
            ==> tick_of(s) == Tick::Advance(orrery_speed_seconds(s.orrery_speed_index as int) as i64),
        !s.live_mode && !s.time_paused && s.tab != Tab::SolarSystem
            ==> tick_of(s) == Tick::Advance(sky_speed_seconds(s.sky_speed_index as int) as i64),
        s.tab != Tab::SolarSystem ==> tick_of(s) == tick_of(ControlsView { tab: Tab::Sky, ..s }),
        tick_of(ControlsView { tab: Tab::Weather, ..s }) == tick_of(ControlsView { tab: Tab::Almanac, ..s }),
{
}

/// In the almanac body picker, Down and `j` move the highlight one body on,
/// from the last body round to the first; Up and `k` move it one body back,
/// from the first round to the last. Nothing else changes and no outside work
/// is asked for.
pub proof fn lemma_body_picker_cycles<L>(s: ControlsView<L>, ctx: KeyContextView, code: KeyCode)
    requires
        s.input_mode == InputMode::AlmanacBodyPicker,
        s.almanac_picker_sel < ctx.almanac_track_count,
    ensures
        (code == KeyCode::Down || code == KeyCode::Char('j')) ==> {
            let (t, e) = step(s, Key { code, ctrl: false }, ctx);
            &&& t.almanac_picker_sel == (s.almanac_picker_sel + 1) % (ctx.almanac_track_count as int)
            &&& t == (ControlsView { almanac_picker_sel: t.almanac_picker_sel, ..s })
            &&& e.len() == 0
        },
        (code == KeyCode::Up || code == KeyCode::Char('k')) ==> {
            let (t, e) = step(s, Key { code, ctrl: false }, ctx);
            &&& t.almanac_picker_sel == (s.almanac_picker_sel + ctx.almanac_track_count - 1) % (ctx.almanac_track_count as int)
            &&& t == (ControlsView { almanac_picker_sel: t.almanac_picker_sel, ..s })
            &&& e.len() == 0
        },
{
    let n = ctx.almanac_track_count as int;
    let i = s.almanac_picker_sel as int;
    if i + 1 < n {
        assert((i + 1) % n == i + 1) by (nonlinear_arith)
            requires 0 <= i + 1 < n;
    } else {
        assert((i + 1) % n == 0) by (nonlinear_arith)
            requires i + 1 == n, n > 0;
    }
    if i > 0 {
        assert((i + n - 1) % n == i - 1) by (nonlinear_arith)
            requires 0 < i < n;
    } else {
        assert((i + n - 1) % n == n - 1) by (nonlinear_arith)
            requires i == 0, n > 0;
    }
}

/// With the field-of-view view open on the sky tab, each arrow key asks to
/// pan the view in its own direction and changes nothing else.
pub proof fn lemma_arrows_pan_fov<L>(s: ControlsView<L>, ctx: KeyContextView)
    requires
        s.input_mode == InputMode::Normal,
        s.fov_active,
        s.tab == Tab::Sky,
    ensures
        step(s, Key { code: KeyCode::Up, ctrl: false }, ctx) == (s, seq![EffectView::PanFov(Pan::Up)]),
        step(s, Key { code: KeyCode::Down, ctrl: false }, ctx) == (s, seq![EffectView::PanFov(Pan::Down)]),
        step(s, Key { code: KeyCode::Left, ctrl: false }, ctx) == (s, seq![EffectView::PanFov(Pan::Left)]),
        step(s, Key { code: KeyCode::Right, ctrl: false }, ctx) == (s, seq![EffectView::PanFov(Pan::Right)]),
{
}

/// `+` and `=` both show fainter stars and `-` fewer, each followed by a
/// recomputation of the sky; none of them changes the state.
pub proof fn lemma_magnitude_keys<L>(s: ControlsView<L>, ctx: KeyContextView)
    requires
        s.input_mode == InputMode::Normal,
    ensures
        step(s, Key { code: KeyCode::Char('+'), ctrl: false }, ctx) == (s, seq![EffectView::RaiseMagLimit, EffectView::Recompute]),
        step(s, Key { code: KeyCode::Char('='), ctrl: false }, ctx) == (s, seq![EffectView::RaiseMagLimit, EffectView::Recompute]),
        step(s, Key { code: KeyCode::Char('-'), ctrl: false }, ctx) == (s, seq![EffectView::LowerMagLimit, EffectView::Recompute]),
{
}

/// The tab keys, in either case, switch the tab and change nothing else;
/// only the almanac tab asks for its almanac to be computed.
pub proof fn lemma_tab_keys<L>(s: ControlsView<L>, ctx: KeyContextView, c: char)
    requires
        s.input_mode == InputMode::Normal,
    ensures
        (c == 's' || c == 'S') ==> step(s, Key { code: KeyCode::Char(c), ctrl: false }, ctx) == (ControlsView { tab: Tab::Sky, ..s }, Seq::<EffectView>::empty()),
        (c == 'w' || c == 'W') ==> step(s, Key { code: KeyCode::Char(c), ctrl: false }, ctx) == (ControlsView { tab: Tab::Weather, ..s }, Seq::<EffectView>::empty()),
        (c == 'p' || c == 'P') ==> step(s, Key { code: KeyCode::Char(c), ctrl: false }, ctx) == (ControlsView { tab: Tab::SolarSystem, ..s }, Seq::<EffectView>::empty()),
        (c == 'a' || c == 'A') ==> step(s, Key { code: KeyCode::Char(c), ctrl: false }, ctx) == (ControlsView { tab: Tab::Almanac, ..s }, seq![EffectView::ComputeAlmanac]),
{
}

/// Outside the field-of-view view, Up scrolls the forecast one hour back (not
/// before the first) and Down one hour on (not past the last loaded hour).
pub proof fn lemma_weather_scroll<L>(s: ControlsView<L>, ctx: KeyContextView)
    requires
        s.input_mode == InputMode::Normal,
        !(s.fov_active && s.tab == Tab::Sky),
    ensures
        ({
            let (up, e) = step(s, Key { code: KeyCode::Up, ctrl: false }, ctx);
            &&& up == (ControlsView { weather_scroll: up.weather_scroll, ..s })
            &&& up.weather_scroll == (if s.weather_scroll == 0 { 0 } else { s.weather_scroll - 1 })
            &&& e.len() == 0
        }),
        ({
            let (down, e) = step(s, Key { code: KeyCode::Down, ctrl: false }, ctx);
            &&& down == (ControlsView { weather_scroll: down.weather_scroll, ..s })
            &&& e.len() == 0
            &&& s.weather_scroll + 1 < ctx.forecast_count ==> down.weather_scroll == s.weather_scroll + 1
            &&& s.weather_scroll + 1 >= ctx.forecast_count ==> down.weather_scroll == s.weather_scroll
        }),
{
}

/// `,` steps the current tab's speed preset one down and `.` one up (staying
/// within the presets); both leave live mode, leave the other tab family's
/// preset alone and restart the wall-clock reference.
pub proof fn lemma_speed_keys_step<L>(s: ControlsView<L>, ctx: KeyContextView)
    requires
        well_formed(s),
        s.input_mode == InputMode::Normal,
    ensures
        ({
            let (slower, e1) = step(s, Key { code: KeyCode::Char(','), ctrl: false }, ctx);
            let (faster, e2) = step(s, Key { code: KeyCode::Char('.'), ctrl: false }, ctx);
            &&& e1 == seq![EffectView::ResetTick] && e2 == seq![EffectView::ResetTick]
            &&& !slower.live_mode && !faster.live_mode
            &&& s.tab == Tab::SolarSystem ==> {
                &&& slower == (ControlsView { live_mode: false, orrery_speed_index: slower.orrery_speed_index, ..s })
                &&& faster == (ControlsView { live_mode: false, orrery_speed_index: faster.orrery_speed_index, ..s })
                &&& slower.orrery_speed_index == (if s.orrery_speed_index == 0 { 0 } else { s.orrery_speed_index - 1 })
                &&& faster.orrery_speed_index == (if s.orrery_speed_index + 1 == ORRERY_SPEED_COUNT { s.orrery_speed_index as int } else { s.orrery_speed_index + 1 })
            }
            &&& s.tab != Tab::SolarSystem ==> {
                &&& slower == (ControlsView { live_mode: false, sky_speed_index: slower.sky_speed_index, ..s })
                &&& faster == (ControlsView { live_mode: false, sky_speed_index: faster.sky_speed_index, ..s })
                &&& slower.sky_speed_index == (if s.sky_speed_index == 0 { 0 } else { s.sky_speed_index - 1 })
                &&& faster.sky_speed_index == (if s.sky_speed_index + 1 == SKY_SPEED_COUNT { s.sky_speed_index as int } else { s.sky_speed_index + 1 })
            }
        }),
{
}

/// `r` fetches the weather only when no fetch is under way, and marks one as
/// under way; `d` toggles the test sky and recomputes; `z` opens the time-zone
/// editor on the current zone's name. Upper case does the same.
pub proof fn lemma_refresh_test_and_zone_keys<L>(s: ControlsView<L>, ctx: KeyContextView, c: char)
    requires
        s.input_mode == InputMode::Normal,
    ensures
        (c == 'r' || c == 'R') ==> step(s, Key { code: KeyCode::Char(c), ctrl: false }, ctx) == (if s.weather_loading {
            (s, Seq::<EffectView>::empty())
        } else {
            (ControlsView { weather_loading: true, ..s }, seq![EffectView::FetchWeather])
        }),
        (c == 'd' || c == 'D') ==> step(s, Key { code: KeyCode::Char(c), ctrl: false }, ctx) == (ControlsView { test_mode: !s.test_mode, ..s }, seq![EffectView::Recompute]),
        (c == 'z' || c == 'Z') ==> step(s, Key { code: KeyCode::Char(c), ctrl: false }, ctx) == (ControlsView { input_mode: InputMode::EditingTimezone, input_buf: ctx.timezone_text, ..s }, Seq::<EffectView>::empty()),
{
}

/// On the sky tab, `f` closes an open field-of-view view, and otherwise opens
/// its form on the current altitude, azimuth and width; `[` widens and `]`
/// narrows an open view; Escape closes it. Off the sky tab `f`, `[` and `]`
/// do nothing.
pub proof fn lemma_fov_keys<L>(s: ControlsView<L>, ctx: KeyContextView)
    requires
        s.input_mode == InputMode::Normal,
    ensures
        s.tab == Tab::Sky && s.fov_active ==> {
            &&& step(s, Key { code: KeyCode::Char('f'), ctrl: false }, ctx) == (ControlsView { fov_active: false, ..s }, Seq::<EffectView>::empty())
            &&& step(s, Key { code: KeyCode::Char('['), ctrl: false }, ctx) == (s, seq![EffectView::WidenFov])
            &&& step(s, Key { code: KeyCode::Char(']'), ctrl: false }, ctx) == (s, seq![EffectView::NarrowFov])
        },
        s.tab == Tab::Sky && !s.fov_active ==> step(s, Key { code: KeyCode::Char('f'), ctrl: false }, ctx) == (ControlsView {
            input_mode: InputMode::FovInput,
            fov_draft: Some(DraftView { bufs: ctx.fov_texts, field: 0, error: None }),
            ..s
        }, Seq::<EffectView>::empty()),
        s.tab != Tab::Sky ==> {
            &&& step(s, Key { code: KeyCode::Char('f'), ctrl: false }, ctx) == (s, Seq::<EffectView>::empty())
            &&& step(s, Key { code: KeyCode::Char('['), ctrl: false }, ctx) == (s, Seq::<EffectView>::empty())
            &&& step(s, Key { code: KeyCode::Char(']'), ctrl: false }, ctx) == (s, Seq::<EffectView>::empty())
        },
        step(s, Key { code: KeyCode::Esc, ctrl: false }, ctx) == (ControlsView { fov_active: false, ..s }, Seq::<EffectView>::empty()),
{
    assert(step(s, Key { code: KeyCode::Esc, ctrl: false }, ctx).0 =~= ControlsView { fov_active: false, ..s });
}

/// In the location picker Up and Down move the highlight one entry, staying
/// within the list (which, held in a `Vec`, has at most `usize::MAX`
/// entries), and change nothing else.
pub proof fn lemma_picker_moves<L>(s: ControlsView<L>, ctx: KeyContextView)
    requires
        well_formed(s),
        s.input_mode == InputMode::LocationPicker,
        s.locations.len() <= usize::MAX,
    ensures
        ({
            let (up, e) = step(s, Key { code: KeyCode::Up, ctrl: false }, ctx);
            &&& up == (ControlsView { picker_sel: up.picker_sel, ..s })
            &&& up.picker_sel == (if s.picker_sel == 0 { 0 } else { s.picker_sel - 1 })
            &&& e.len() == 0
        }),
        ({
            let (down, e) = step(s, Key { code: KeyCode::Down, ctrl: false }, ctx);
            &&& down == (ControlsView { picker_sel: down.picker_sel, ..s })
            &&& down.picker_sel == (if s.picker_sel + 1 == s.locations.len() { s.picker_sel as int } else { s.picker_sel + 1 })
            &&& e.len() == 0
        }),
{
}

/// In a text editor a character is appended to the text, Backspace removes
/// the last character (if any), and Escape closes the editor and drops the
/// text; none of them asks for outside work or changes anything else.
pub proof fn lemma_editor_keys<L>(s: ControlsView<L>, ctx: KeyContextView, c: char)
    requires
        is_text_editor(s.input_mode),
    ensures
        step(s, Key { code: KeyCode::Char(c), ctrl: false }, ctx)
            == (ControlsView { input_buf: s.input_buf.push(c), ..s }, Seq::<EffectView>::empty()),
        ({
            let (t, e) = step(s, Key { code: KeyCode::Backspace, ctrl: false }, ctx);
            &&& t == (ControlsView { input_buf: t.input_buf, ..s })
            &&& t.input_buf.len() == (if s.input_buf.len() == 0 { 0 } else { s.input_buf.len() - 1 })
            &&& t.input_buf =~= s.input_buf.subrange(0, t.input_buf.len() as int)
            &&& e.len() == 0
        }),
        step(s, Key { code: KeyCode::Esc, ctrl: false }, ctx)
            == (ControlsView { input_mode: InputMode::Normal, input_buf: Seq::<char>::empty(), ..s }, Seq::<EffectView>::empty()),
{
}

/// Editing a form of `n` fields: a character is appended to the current field
/// and Backspace removes its last character, leaving every other field and the
/// field index alone; Tab, Down and Enter move to the next field and Up to the
/// previous one, stopping at the ends, leaving the texts alone. (A form has a
/// handful of fields, well within `usize`.)
pub proof fn lemma_form_keys(d: DraftView, n: nat, c: char)
    requires
        draft_ok(d, n),
        n <= usize::MAX,
    ensures
        ({
            let t = step_form(d, KeyCode::Char(c), n);
            &&& t.field == d.field && t.error == d.error && t.bufs.len() == n
            &&& t.bufs[d.field as int] == d.bufs[d.field as int].push(c)
            &&& forall|i: int| 0 <= i < n && i != d.field ==> t.bufs[i] == d.bufs[i]
        }),
        ({
            let t = step_form(d, KeyCode::Backspace, n);
            let old_len = d.bufs[d.field as int].len();
            &&& t.field == d.field && t.error == d.error && t.bufs.len() == n
            &&& t.bufs[d.field as int].len() == (if old_len == 0 { 0 } else { old_len - 1 })
            &&& t.bufs[d.field as int] =~= d.bufs[d.field as int].subrange(0, t.bufs[d.field as int].len() as int)
            &&& forall|i: int| 0 <= i < n && i != d.field ==> t.bufs[i] == d.bufs[i]
        }),
        forall|k: KeyCode| (k == KeyCode::Tab || k == KeyCode::Down || k == KeyCode::Enter) ==> {
            let t = #[trigger] step_form(d, k, n);
            &&& t.bufs == d.bufs && t.error == d.error
            &&& t.field == (if d.field + 1 == n { d.field as int } else { d.field + 1 })
        },
        ({
            let t = step_form(d, KeyCode::Up, n);
            &&& t.bufs == d.bufs && t.error == d.error
            &&& t.field == (if d.field == 0 { 0 } else { d.field - 1 })
        }),
{
}

/// Enter in the new-location form moves to the next field until the last
/// (height), where it submits the form without changing it; likewise in the
/// field-of-view form, whose last field is the width.
pub proof fn lemma_form_enter_submits_at_last_field<L>(s: ControlsView<L>, ctx: KeyContextView)
    requires
        well_formed(s),
        s.input_mode == InputMode::AddingLocation || s.input_mode == InputMode::FovInput,
    ensures
        ({
            let (t, e) = step(s, Key { code: KeyCode::Enter, ctrl: false }, ctx);
            let n: nat = if s.input_mode == InputMode::AddingLocation { 4 } else { 3 };
            let d = if s.input_mode == InputMode::AddingLocation { s.new_loc_draft->0 } else { s.fov_draft->0 };
            let td = if s.input_mode == InputMode::AddingLocation { t.new_loc_draft } else { t.fov_draft };
            &&& d.field + 1 == n ==> t == s && e == (if s.input_mode == InputMode::AddingLocation {
                seq![EffectView::SubmitLocationDraft]
            } else {
                seq![EffectView::SubmitFovDraft]
            })
            &&& d.field + 1 < n ==> e.len() == 0 && td == Some(DraftView { field: (d.field + 1) as usize, ..d })
        }),
{
}

/// `n` in the location picker opens an empty four-field form (name,
/// latitude, longitude, height) on its first field.
pub proof fn lemma_picker_new_opens_form<L>(s: ControlsView<L>, ctx: KeyContextView, c: char)
    requires
        s.input_mode == InputMode::LocationPicker,
        c == 'n' || c == 'N',
    ensures
        ({
            let (t, e) = step(s, Key { code: KeyCode::Char(c), ctrl: false }, ctx);
            &&& t.input_mode == InputMode::AddingLocation
            &&& t.new_loc_draft matches Some(d) && d.field == 0 && d.error is None && d.bufs.len() == 4
                && (forall|i: int| 0 <= i < 4 ==> d.bufs[i].len() == 0)
            &&& t == (ControlsView { input_mode: InputMode::AddingLocation, new_loc_draft: t.new_loc_draft, ..s })
            &&& e.len() == 0
        }),
{
}

/// Deleting the highlighted location (`d` in the picker, with more than one
/// stored) removes exactly that entry and saves the list; the highlight stays
/// in place or moves to the new last entry. An active location before the end
/// keeps pointing at the same stored location (or, when it was deleted, at the
/// one after it). When the active location was the last entry, the new last
/// entry becomes active and is loaded, with its weather. With a single location, `d` does nothing. (The list is held in a
/// `Vec`, so it has at most `usize::MAX` entries.)
pub proof fn lemma_delete_location<L>(s: ControlsView<L>, ctx: KeyContextView, c: char)
    requires
        well_formed(s),
        s.input_mode == InputMode::LocationPicker,
        s.locations.len() <= usize::MAX,
        c == 'd' || c == 'D',
    ensures
        ({
            let (t, e) = step(s, Key { code: KeyCode::Char(c), ctrl: false }, ctx);
            let n = s.locations.len() - 1;
            &&& s.locations.len() == 1 ==> t == s && e.len() == 0
            &&& s.locations.len() > 1 ==> {
                &&& t.locations == s.locations.remove(s.picker_sel as int)
                &&& t.picker_sel == (if s.picker_sel == n { n - 1 } else { s.picker_sel as int })
                &&& e.last() == EffectView::SaveConfig
                &&& s.location_index < s.picker_sel ==> t.location_index == s.location_index && e == seq![EffectView::SaveConfig]
                &&& s.picker_sel < s.location_index < n ==> t.location_index == s.location_index - 1 && e == seq![EffectView::SaveConfig]
                &&& s.location_index == s.picker_sel && s.picker_sel < n ==> t.location_index == s.location_index && e == seq![EffectView::SaveConfig]
                &&& s.location_index == n ==> {
                    &&& t.location_index == n - 1
                    &&& t.weather_loading
                    &&& e == seq![EffectView::LoadLocation((n - 1) as usize), EffectView::FetchWeather, EffectView::SaveConfig]
                }
            }
        }),
{
    if s.locations.len() > 1 {
        assert(s.locations.remove(s.picker_sel as int).len() == s.locations.len() - 1);
    }
}

/// In an open form, Backspace undoes a typed character in the same field.
pub proof fn lemma_form_backspace_undoes_typing(d: DraftView, c: char, n: nat)
    requires
        draft_ok(d, n),
    ensures
        step_form(step_form(d, KeyCode::Char(c), n), KeyCode::Backspace, n) == d,
{
    let once = step_form(d, KeyCode::Char(c), n);
    assert(once.bufs[d.field as int] == d.bufs[d.field as int].push(c));
    assert(d.bufs[d.field as int].push(c).drop_last() =~= d.bufs[d.field as int]);
    assert(step_form(once, KeyCode::Backspace, n).bufs =~= d.bufs);
    assert(step_form(once, KeyCode::Backspace, n) =~= d);
}

/// `,` never speeds the clock up and `.` never slows it down, on whichever
/// tab's presets apply; both leave live mode.
pub proof fn lemma_speed_keys_monotone<L>(s: ControlsView<L>, ctx: KeyContextView)
    requires
        well_formed(s),
        s.input_mode == InputMode::Normal,
    ensures
        ({
            let slower = step(s, Key { code: KeyCode::Char(','), ctrl: false }, ctx).0;
            let faster = step(s, Key { code: KeyCode::Char('.'), ctrl: false }, ctx).0;
            &&& !slower.live_mode && !faster.live_mode
            &&& sky_speed_seconds(slower.sky_speed_index as int) <= sky_speed_seconds(s.sky_speed_index as int)
            &&& orrery_speed_seconds(slower.orrery_speed_index as int) <= orrery_speed_seconds(s.orrery_speed_index as int)
            &&& sky_speed_seconds(faster.sky_speed_index as int) >= sky_speed_seconds(s.sky_speed_index as int)
            &&& orrery_speed_seconds(faster.orrery_speed_index as int) >= orrery_speed_seconds(s.orrery_speed_index as int)
        }),
{
    crate::app::lemma_speed_presets_ordered((s.sky_speed_index - 1) as int, s.sky_speed_index as int);
    crate::app::lemma_speed_presets_ordered(s.sky_speed_index as int, (s.sky_speed_index + 1) as int);
    crate::app::lemma_speed_presets_ordered((s.orrery_speed_index - 1) as int, s.orrery_speed_index as int);
    crate::app::lemma_speed_presets_ordered(s.orrery_speed_index as int, (s.orrery_speed_index + 1) as int);
}

/// Escape closes whatever overlay is open, asks for no outside work, and
/// returns to normal mode (the new-location form returns to the picker).
pub proof fn lemma_escape_closes<L>(s: ControlsView<L>, ctx: KeyContextView)
    requires
        well_formed(s),
        s.input_mode != InputMode::Normal,
    ensures
        ({
            let (t, e) = step(s, Key { code: KeyCode::Esc, ctrl: false }, ctx);
            &&& e.len() == 0
            &&& t.input_mode == (if s.input_mode == InputMode::AddingLocation {
                InputMode::LocationPicker
            } else {
                InputMode::Normal
            })
            &&& t.new_loc_draft is None || s.input_mode != InputMode::AddingLocation
            &&& t.fov_draft is None || s.input_mode != InputMode::FovInput
        }),
{
}

/// The program quits only when asked: by Control-C, or by `q`/`Q` in normal
/// mode; every other key press asks for no `Quit`.
pub proof fn lemma_quit_only_on_request<L>(s: ControlsView<L>, key: Key, ctx: KeyContextView)
    requires
        !(key.ctrl && key.code == KeyCode::Char('c')),
        !(s.input_mode == InputMode::Normal && is_char(key.code, 'q', 'Q')),
    ensures
        !step(s, key, ctx).1.contains(EffectView::Quit),
{
    let e = step(s, key, ctx).1;
    if e.contains(EffectView::Quit) {
        let i = choose|i: int| 0 <= i < e.len() && e[i] == EffectView::Quit;
        assert(e[i] == EffectView::Quit);
    }
}

/// Selecting bodies for a larger almanac keeps every existing flag and adds
/// selected ones; it never shortens the list.
pub proof fn lemma_sync_keeps_flags(flags: Seq<bool>, n: nat)
    ensures
        bodies_synced(flags, n).len() == (if flags.len() >= n { flags.len() } else { n }),
        forall|i: int| 0 <= i < flags.len() ==> bodies_synced(flags, n)[i] == flags[i],
        forall|i: int| flags.len() <= i < n ==> bodies_synced(flags, n)[i],
{
}

/// The state right after start-up, at location `initial_index`.
pub open spec fn initial_controls<L>(locations: Seq<L>, initial_index: usize) -> ControlsView<L> {
    ControlsView {
        tab: Tab::Sky,
        input_mode: InputMode::Normal,
        input_buf: Seq::empty(),
        live_mode: false,
        sky_speed_index: SKY_SPEED_DEFAULT,
        orrery_speed_index: ORRERY_SPEED_DEFAULT,
        time_paused: false,
        test_mode: false,
        fov_active: false,
        locations: locations,
        location_index: initial_index,
        picker_sel: initial_index,
        new_loc_draft: None,
        selected_bodies: Seq::empty(),
        almanac_picker_sel: 0,
        almanac_show_times: false,
        weather_loading: false,
        weather_scroll: 0,
        fov_draft: None,
    }
}

/// Why a new-location form was refused.
#[derive(Clone, Copy, Debug, PartialEq, Eq, Structural)]
pub enum DraftError {
    EmptyName,
    Latitude,
    Longitude,
    Height,
}

impl DraftError {
    /// The message shown under the form.
    pub fn message(&self) -> (m: &'static str)
        ensures
            m@ == draft_error_text(*self),
    {
        match self {
            DraftError::EmptyName => "Name cannot be empty",
            DraftError::Latitude => "Lat must be -90..90",
            DraftError::Longitude => "Lon must be -180..180",
            DraftError::Height => "Height must be a number",
        }
    }
}

pub open spec fn draft_error_text(e: DraftError) -> Seq<char> {
    match e {
        DraftError::EmptyName => "Name cannot be empty"@,
        DraftError::Latitude => "Lat must be -90..90"@,
        DraftError::Longitude => "Lon must be -180..180"@,
        DraftError::Height => "Height must be a number"@,
    }
}

/// The first problem of a new-location form, checked in the order name,
/// latitude (within ±90°), longitude (within ±180°), height (a number);
/// none when all are fine.
pub fn location_draft_error(name_empty: bool, lat_ok: bool, lon_ok: bool, height_ok: bool) -> (e: Option<DraftError>)
    ensures
        e == (if name_empty { Some(DraftError::EmptyName) }
        else if !lat_ok { Some(DraftError::Latitude) }
        else if !lon_ok { Some(DraftError::Longitude) }
        else if !height_ok { Some(DraftError::Height) }
        else { None }),
{
    if name_empty {
        Some(DraftError::EmptyName)
    } else if !lat_ok {
        Some(DraftError::Latitude)
    } else if !lon_ok {
        Some(DraftError::Longitude)
    } else if !height_ok {
        Some(DraftError::Height)
    } else {
        None
    }
}

/// Message shown when the field-of-view form holds a value out of range.
pub const FOV_FORM_ERROR: &'static str = "Alt:-90..90  Az:0..360  FoV:1..90";

pub open spec fn location_draft_finished<L>(s: ControlsView<L>, outcome: Result<L, DraftError>) -> (ControlsView<L>, Seq<EffectView>) {
    match outcome {
        Ok(loc) => (ControlsView {
            locations: s.locations.push(loc),
            picker_sel: s.locations.len() as usize,
            new_loc_draft: None,
            input_mode: InputMode::LocationPicker,
            ..s
        }, seq![EffectView::SaveConfig]),
        Err(e) => match s.new_loc_draft {
            Some(d) => (ControlsView { new_loc_draft: Some(DraftView { error: Some(draft_error_text(e)), ..d }), ..s }, seq![]),
            None => (s, seq![]),
        },
    }
}

pub open spec fn fov_draft_finished<L>(s: ControlsView<L>, accepted: bool) -> ControlsView<L> {
    if accepted {
        ControlsView { fov_active: true, fov_draft: None, input_mode: InputMode::Normal, ..s }
    } else {
        match s.fov_draft {
            Some(d) => ControlsView { fov_draft: Some(DraftView { error: Some(FOV_FORM_ERROR@), ..d }), ..s },
            None => s,
        }
    }
}

/// `flags` extended with selected flags up to `n` entries.
pub open spec fn bodies_synced(flags: Seq<bool>, n: nat) -> Seq<bool> {
    if flags.len() >= n { flags } else { flags + Seq::new((n - flags.len()) as nat, |i: int| true) }
}

/// How the simulated clock moves on one frame.
#[derive(Clone, Copy, Debug, PartialEq, Eq, Structural)]
pub enum Tick {
    /// Set the clock to the present.
    FollowNow,
    /// Advance by this many simulated seconds per elapsed wall-clock second.
    Advance(i64),
    /// Leave the clock as it is.
    Hold,
}

/// Live mode follows the present; otherwise a running clock advances at the
/// speed preset of the current tab; a paused one holds.
pub open spec fn tick_of<L>(s: ControlsView<L>) -> Tick {
    if s.live_mode {
        Tick::FollowNow
    } else if !s.time_paused {
        if s.tab == Tab::SolarSystem {
            Tick::Advance(orrery_speed_seconds(s.orrery_speed_index as int) as i64)
        } else {
            Tick::Advance(sky_speed_seconds(s.sky_speed_index as int) as i64)
        }
    } else {
        Tick::Hold
    }
}

/// Calls `String::push`, which std documents as appending the character to
/// the end of the string; the contract claims exactly that of the text.
#[verifier::external_body]
fn push_char(s: &mut String, c: char)
    ensures
        final(s)@ == old(s)@.push(c),
{
    s.push(c);
}

/// Calls `String::pop`, which std documents as removing and returning the
/// last character, or returning `None` for an empty string; the contract
/// claims exactly that.
#[verifier::external_body]
fn pop_char(s: &mut String) -> (r: Option<char>)
    ensures
        old(s)@.len() > 0 ==> r == Some(old(s)@.last()) && final(s)@ == old(s)@.drop_last(),
        old(s)@.len() == 0 ==> r is None && final(s)@ == old(s)@,
{
    s.pop()
}

/// Applies a key to the fields of an open form.
fn edit_fields<const N: usize>(bufs: &mut [String; N], field: &mut usize, code: KeyCode)
    requires
        *old(field) < N,
    ensures
        texts(final(bufs)@) == step_form(DraftView { bufs: texts(old(bufs)@), field: *old(field), error: None }, code, N as nat).bufs,
        *final(field) == step_form(DraftView { bufs: texts(old(bufs)@), field: *old(field), error: None }, code, N as nat).field,
        *final(field) < N,
{
    broadcast use vstd::array::array_len_matches_n;
    let f = *field;
    match code {
        KeyCode::Tab | KeyCode::Down | KeyCode::Enter => {
            if f + 1 < N {
                *field = f + 1;
            }
        },
        KeyCode::Up => {
            if f > 0 {
                *field = f - 1;
            }
        },
        KeyCode::Backspace => {
            pop_char(&mut bufs[f]);
            assert(texts(bufs@) =~= texts(old(bufs)@).update(f as int, backspaced(texts(old(bufs)@)[f as int])));
        },
        KeyCode::Char(c) => {
            push_char(&mut bufs[f], c);
            assert(texts(bufs@) =~= texts(old(bufs)@).update(f as int, texts(old(bufs)@)[f as int].push(c)));
        },
        _ => {},
    }
}

impl<L> Controls<L> {
    /// The state at start-up: sky tab, real-time clock, showing location
    /// `initial_index`.
    pub fn new(locations: Vec<L>, initial_index: usize) -> (c: Self)
        requires
            initial_index < locations@.len(),
        ensures
            c@ == initial_controls(locations@, initial_index),
            well_formed(c@),
    {
        Controls {
            tab: Tab::Sky,
            input_mode: InputMode::Normal,
            input_buf: String::new(),
            live_mode: false,
            sky_speed_index: SKY_SPEED_DEFAULT,
            orrery_speed_index: ORRERY_SPEED_DEFAULT,
            time_paused: false,
            test_mode: false,
            fov_active: false,
            locations: locations,
            location_index: initial_index,
            picker_sel: initial_index,
            new_loc_draft: None,
            selected_bodies: Vec::new(),
            almanac_picker_sel: 0,
            almanac_show_times: false,
            weather_loading: false,
            weather_scroll: 0,
            fov_draft: None,
        }
    }

    fn normal_char(&mut self, c: char, ctx: &KeyContext) -> (r: Vec<Effect>)
        requires
            well_formed(old(self)@),
        ensures
            final(self)@ == step_normal_char(old(self)@, c, ctx@).0,
            effects_view(r@) == step_normal_char(old(self)@, c, ctx@).1,
    {
        if c == 'q' || c == 'Q' || c == 's' || c == 'S' || c == 'w' || c == 'W' || c == 'p'
            || c == 'P' || c == 'a' || c == 'A' {
            self.tab_key(c)
        } else if c == 'b' || c == 'B' || c == 'f' || c == 'F' || c == '[' || c == ']' || c == 'o'
            || c == 'O' || c == 'l' || c == 'L' {
            self.view_key(c, ctx)
        } else if c == 't' || c == 'T' || c == 'z' || c == 'Z' || c == ' ' || c == 'n' || c == 'N' {
            self.clock_key(c, ctx)
        } else {
            self.setting_key(c, ctx)
        }
    }

    fn tab_key(&mut self, c: char) -> (r: Vec<Effect>)
        requires
            c == 'q' || c == 'Q' || c == 's' || c == 'S' || c == 'w' || c == 'W' || c == 'p'
                || c == 'P' || c == 'a' || c == 'A',
        ensures
            forall|ctx: KeyContextView| final(self)@ == #[trigger] step_normal_char(old(self)@, c, ctx).0
                && effects_view(r@) == step_normal_char(old(self)@, c, ctx).1,
    {
        if c == 'q' || c == 'Q' {
            let r = vec![Effect::Quit];
            assert(effects_view(r@) =~= seq![EffectView::Quit]);
            r
        } else if c == 's' || c == 'S' {
            self.tab = Tab::Sky;
            vec![]
        } else if c == 'w' || c == 'W' {
            self.tab = Tab::Weather;
            vec![]
        } else if c == 'p' || c == 'P' {
            self.tab = Tab::SolarSystem;
            vec![]
        } else {
            self.tab = Tab::Almanac;
            let r = vec![Effect::ComputeAlmanac];
            assert(effects_view(r@) =~= seq![EffectView::ComputeAlmanac]);
            r
        }
    }

    fn view_key(&mut self, c: char, ctx: &KeyContext) -> (r: Vec<Effect>)
        requires
            c == 'b' || c == 'B' || c == 'f' || c == 'F' || c == '[' || c == ']' || c == 'o'
                || c == 'O' || c == 'l' || c == 'L',
        ensures
            final(self)@ == step_normal_char(old(self)@, c, ctx@).0,
            effects_view(r@) == step_normal_char(old(self)@, c, ctx@).1,
    {
        let tab = self.tab;
        let sky = tab == Tab::Sky;
        if (c == 'b' || c == 'B') && tab == Tab::Almanac {
            self.input_mode = InputMode::AlmanacBodyPicker;
            self.almanac_picker_sel = 0;
            vec![]
        } else if (c == 'f' || c == 'F') && sky {
            if self.fov_active {
                self.fov_active = false;
            } else {
                let bufs = [
                    ctx.fov_texts[0].clone(),
                    ctx.fov_texts[1].clone(),
                    ctx.fov_texts[2].clone(),
                ];
                assert(texts(bufs@) =~= texts(ctx.fov_texts@));
                self.fov_draft = Some(FovDraft { bufs, field: 0, error: None });
                self.input_mode = InputMode::FovInput;
            }
            vec![]
        } else if c == '[' && self.fov_active && sky {
            let r = vec![Effect::WidenFov];
            assert(effects_view(r@) =~= seq![EffectView::WidenFov]);
            r
        } else if c == ']' && self.fov_active && sky {
            let r = vec![Effect::NarrowFov];
            assert(effects_view(r@) =~= seq![EffectView::NarrowFov]);
            r
        } else if c == 'l' {
            self.input_mode = InputMode::EditingLatitude;
            self.input_buf = ctx.latitude_text.clone();
            vec![]
        } else if c == 'o' || c == 'O' {
            self.input_mode = InputMode::EditingLongitude;
            self.input_buf = ctx.longitude_text.clone();
            vec![]
        } else if c == 'L' {
            self.input_mode = InputMode::LocationPicker;
            self.picker_sel = self.location_index;
            vec![]
        } else {
            vec![]
        }
    }

    fn clock_key(&mut self, c: char, ctx: &KeyContext) -> (r: Vec<Effect>)
        requires
            c == 't' || c == 'T' || c == 'z' || c == 'Z' || c == ' ' || c == 'n' || c == 'N',
        ensures
            final(self)@ == step_normal_char(old(self)@, c, ctx@).0,
            effects_view(r@) == step_normal_char(old(self)@, c, ctx@).1,
    {
        if c == 't' || c == 'T' {
            self.input_mode = InputMode::EditingDatetime;
            self.input_buf = ctx.datetime_text.clone();
            vec![]
        } else if c == 'z' || c == 'Z' {
            self.input_mode = InputMode::EditingTimezone;
            self.input_buf = ctx.timezone_text.clone();
            vec![]
        } else if c == ' ' && self.live_mode {
            self.live_mode = false;
            self.time_paused = true;
            vec![]
        } else {
            self.live_mode = true;
            self.time_paused = false;
            let r = vec![Effect::JumpToNow, Effect::ResetTick, Effect::Recompute];
            assert(effects_view(r@) =~= seq![EffectView::JumpToNow, EffectView::ResetTick, EffectView::Recompute]);
            r
        }
    }

    fn setting_key(&mut self, c: char, ctx: &KeyContext) -> (r: Vec<Effect>)
        requires
            well_formed(old(self)@),
            !(c == 'q' || c == 'Q' || c == 's' || c == 'S' || c == 'w' || c == 'W' || c == 'p'
                || c == 'P' || c == 'a' || c == 'A'),
            !(c == 'b' || c == 'B' || c == 'f' || c == 'F' || c == '[' || c == ']' || c == 'o'
                || c == 'O' || c == 'l' || c == 'L'),
            !(c == 't' || c == 'T' || c == 'z' || c == 'Z' || c == ' ' || c == 'n' || c == 'N'),
        ensures
            final(self)@ == step_normal_char(old(self)@, c, ctx@).0,
            effects_view(r@) == step_normal_char(old(self)@, c, ctx@).1,
    {
        if c == ',' {
            if self.tab == Tab::SolarSystem {
                if self.orrery_speed_index > 0 {
                    self.orrery_speed_index = self.orrery_speed_index - 1;
                }
            } else {
                if self.sky_speed_index > 0 {
                    self.sky_speed_index = self.sky_speed_index - 1;
                }
            }
            self.live_mode = false;
            let r = vec![Effect::ResetTick];
            assert(effects_view(r@) =~= seq![EffectView::ResetTick]);
            r
        } else if c == '.' {
            if self.tab == Tab::SolarSystem {
                if self.orrery_speed_index + 1 < ORRERY_SPEED_COUNT {
                    self.orrery_speed_index = self.orrery_speed_index + 1;
                }
            } else {
                if self.sky_speed_index + 1 < SKY_SPEED_COUNT {
                    self.sky_speed_index = self.sky_speed_index + 1;
                }
            }
            self.live_mode = false;
            let r = vec![Effect::ResetTick];
            assert(effects_view(r@) =~= seq![EffectView::ResetTick]);
            r
        } else if c == '+' || c == '=' {
            let r = vec![Effect::RaiseMagLimit, Effect::Recompute];
            assert(effects_view(r@) =~= seq![EffectView::RaiseMagLimit, EffectView::Recompute]);
            r
        } else if c == '-' {
            let r = vec![Effect::LowerMagLimit, Effect::Recompute];
            assert(effects_view(r@) =~= seq![EffectView::LowerMagLimit, EffectView::Recompute]);
            r
        } else if c == 'd' || c == 'D' {
            self.test_mode = !self.test_mode;
            let r = vec![Effect::Recompute];
            assert(effects_view(r@) =~= seq![EffectView::Recompute]);
            r
        } else if c == 'r' || c == 'R' {
            if !self.weather_loading {
                self.weather_loading = true;
                let r = vec![Effect::FetchWeather];
                assert(effects_view(r@) =~= seq![EffectView::FetchWeather]);
                return r;
            }
            vec![]
        } else {
            vec![]
        }
    }

    fn normal_key(&mut self, code: KeyCode, ctx: &KeyContext) -> (r: Vec<Effect>)
        requires
            well_formed(old(self)@),
        ensures
            final(self)@ == step_normal(old(self)@, code, ctx@).0,
            effects_view(r@) == step_normal(old(self)@, code, ctx@).1,
    {
        let fov_view = self.fov_active && self.tab == Tab::Sky;
        match code {
            KeyCode::Char(c) => self.normal_char(c, ctx),
            KeyCode::Esc => {
                if self.fov_active {
                    self.fov_active = false;
                }
                vec![]
            },
            KeyCode::Up => {
                if fov_view {
                    let r = vec![Effect::PanFov(Pan::Up)];
                    assert(effects_view(r@) =~= seq![EffectView::PanFov(Pan::Up)]);
                    r
                } else {
                    if self.weather_scroll > 0 {
                        self.weather_scroll = self.weather_scroll - 1;
                    }
                    vec![]
                }
            },
            KeyCode::Down => {
                if fov_view {
                    let r = vec![Effect::PanFov(Pan::Down)];
                    assert(effects_view(r@) =~= seq![EffectView::PanFov(Pan::Down)]);
                    r
                } else {
                    let max: usize = if ctx.forecast_count > 0 { ctx.forecast_count - 1 } else { 0 };
                    if self.weather_scroll < max {
                        self.weather_scroll = self.weather_scroll + 1;
                    }
                    vec![]
                }
            },
            KeyCode::Left => {
                if fov_view {
                    let r = vec![Effect::PanFov(Pan::Left)];
                    assert(effects_view(r@) =~= seq![EffectView::PanFov(Pan::Left)]);
                    r
                } else {
                    vec![]
                }
            },
            KeyCode::Right => {
                if fov_view {
                    let r = vec![Effect::PanFov(Pan::Right)];
                    assert(effects_view(r@) =~= seq![EffectView::PanFov(Pan::Right)]);
                    r
                } else {
                    vec![]
                }
            },
            _ => vec![],
        }
    }

    fn delete_location(&mut self) -> (r: Vec<Effect>)
        requires
            well_formed(old(self)@),
            old(self)@.locations.len() > 1,
        ensures
            final(self)@ == step_delete_location(old(self)@).0,
            effects_view(r@) == step_delete_location(old(self)@).1,
    {
        let p = self.picker_sel;
        self.locations.remove(p);
        let n = self.locations.len();
        if self.picker_sel >= n {
            self.picker_sel = n - 1;
        }
        let mut r: Vec<Effect> = Vec::new();
        if self.location_index >= n {
            self.location_index = n - 1;
            r.push(Effect::LoadLocation(self.location_index));
            r.push(Effect::FetchWeather);
            self.weather_loading = true;
        } else if self.location_index > self.picker_sel {
            self.location_index = self.location_index - 1;
        }
        r.push(Effect::SaveConfig);
        proof {
            if old(self).location_index >= n {
                assert(effects_view(r@) =~= seq![EffectView::LoadLocation((n - 1) as usize), EffectView::FetchWeather, EffectView::SaveConfig]);
            } else {
                assert(effects_view(r@) =~= seq![EffectView::SaveConfig]);
            }
        }
        r
    }

    fn picker_key(&mut self, code: KeyCode) -> (r: Vec<Effect>)
        requires
            well_formed(old(self)@),
        ensures
            final(self)@ == step_picker(old(self)@, code).0,
            effects_view(r@) == step_picker(old(self)@, code).1,
    {
        match code {
            KeyCode::Esc => {
                self.input_mode = InputMode::Normal;
                vec![]
            },
            KeyCode::Up => {
                if self.picker_sel > 0 {
                    self.picker_sel = self.picker_sel - 1;
                }
                vec![]
            },
            KeyCode::Down => {
                assert(self.picker_sel < self.locations.len());
                if self.picker_sel + 1 < self.locations.len() {
                    self.picker_sel = self.picker_sel + 1;
                }
                vec![]
            },
            KeyCode::Enter => {
                let mut r: Vec<Effect> = Vec::new();
                let sel = self.picker_sel;
                if self.switch_location(sel) {
                    r.push(Effect::LoadLocation(sel));
                }
                r.push(Effect::FetchWeather);
                self.weather_loading = true;
                self.input_mode = InputMode::Normal;
                assert(effects_view(r@) =~= seq![EffectView::LoadLocation(sel), EffectView::FetchWeather]);
                r
            },
            KeyCode::Char(c) => {
                if c == 'n' || c == 'N' {
                    let bufs = [String::new(), String::new(), String::new(), String::new()];
                    assert(texts(bufs@) =~= empty_form(4).bufs);
                    self.new_loc_draft = Some(NewLocationDraft { bufs, field: 0, error: None });
                    self.input_mode = InputMode::AddingLocation;
                    vec![]
                } else if (c == 'd' || c == 'D') && self.locations.len() > 1 {
                    self.delete_location()
                } else {
                    vec![]
                }
            },
            _ => vec![],
        }
    }

    /// Makes location `index` the active one, if it exists; says whether it
    /// does (the caller then takes over its position and time zone).
    pub fn switch_location(&mut self, index: usize) -> (switched: bool)
        ensures
            switched == (index < old(self)@.locations.len()),
            final(self)@ == (if switched {
                ControlsView { location_index: index, ..old(self)@ }
            } else {
                old(self)@
            }),
    {
        if index >= self.locations.len() {
            return false;
        }
        self.location_index = index;
        true
    }

    fn adding_key(&mut self, code: KeyCode) -> (r: Vec<Effect>)
        requires
            well_formed(old(self)@),
            old(self)@.input_mode == InputMode::AddingLocation,
        ensures
            final(self)@ == step_adding(old(self)@, code).0,
            effects_view(r@) == step_adding(old(self)@, code).1,
    {
        let mut d = self.new_loc_draft.take().unwrap();
        if code == KeyCode::Esc {
            self.input_mode = InputMode::LocationPicker;
            return vec![];
        }
        if code == KeyCode::Enter && d.field + 1 >= 4 {
            self.new_loc_draft = Some(d);
            let r = vec![Effect::SubmitLocationDraft];
            assert(effects_view(r@) =~= seq![EffectView::SubmitLocationDraft]);
            return r;
        }
        proof {
            broadcast use vstd::array::array_len_matches_n;
        }
        edit_fields(&mut d.bufs, &mut d.field, code);
        self.new_loc_draft = Some(d);
        vec![]
    }

    fn fov_form_key(&mut self, code: KeyCode) -> (r: Vec<Effect>)
        requires
            well_formed(old(self)@),
            old(self)@.input_mode == InputMode::FovInput,
        ensures
            final(self)@ == step_fov_form(old(self)@, code).0,
            effects_view(r@) == step_fov_form(old(self)@, code).1,
    {
        let mut d = self.fov_draft.take().unwrap();
        if code == KeyCode::Esc {
            self.input_mode = InputMode::Normal;
            return vec![];
        }
        if code == KeyCode::Enter && d.field + 1 >= 3 {
            self.fov_draft = Some(d);
            let r = vec![Effect::SubmitFovDraft];
            assert(effects_view(r@) =~= seq![EffectView::SubmitFovDraft]);
            return r;
        }
        proof {
            broadcast use vstd::array::array_len_matches_n;
        }
        edit_fields(&mut d.bufs, &mut d.field, code);
        self.fov_draft = Some(d);
        vec![]
    }

    fn bodies_key(&mut self, code: KeyCode, ctx: &KeyContext) -> (r: Vec<Effect>)
        requires
            well_formed(old(self)@),
        ensures
            final(self)@ == step_bodies(old(self)@, code, ctx@).0,
            effects_view(r@) == step_bodies(old(self)@, code, ctx@).1,
    {
        if code == KeyCode::Esc {
            self.input_mode = InputMode::Normal;
        } else if code == KeyCode::Up || code == KeyCode::Char('k') {
            if self.almanac_picker_sel > 0 {
                self.almanac_picker_sel = self.almanac_picker_sel - 1;
            } else if ctx.almanac_track_count > 0 {
                self.almanac_picker_sel = ctx.almanac_track_count - 1;
            } else {
                self.almanac_picker_sel = 0;
            }
        } else if code == KeyCode::Down || code == KeyCode::Char('j') {
            if self.almanac_picker_sel + 1 < ctx.almanac_track_count {
                self.almanac_picker_sel = self.almanac_picker_sel + 1;
            } else {
                self.almanac_picker_sel = 0;
            }
        } else if code == KeyCode::Char(' ') || code == KeyCode::Enter {
            let sel = self.almanac_picker_sel;
            if sel < self.selected_bodies.len() {
                let v = self.selected_bodies[sel];
                self.selected_bodies.set(sel, !v);
            }
        }
        vec![]
    }

    fn editing_key(&mut self, code: KeyCode) -> (r: Vec<Effect>)
        requires
            well_formed(old(self)@),
            is_text_editor(old(self)@.input_mode),
        ensures
            final(self)@ == step_editing(old(self)@, code).0,
            effects_view(r@) == step_editing(old(self)@, code).1,
    {
        match code {
            KeyCode::Esc => {
                self.input_mode = InputMode::Normal;
                self.input_buf = String::new();
                vec![]
            },
            KeyCode::Enter => self.enter_text(),
            KeyCode::Backspace => {
                pop_char(&mut self.input_buf);
                vec![]
            },
            KeyCode::Char(c) => {
                push_char(&mut self.input_buf, c);
                vec![]
            },
            _ => vec![],
        }
    }

    fn enter_text(&mut self) -> (r: Vec<Effect>)
        requires
            is_text_editor(old(self)@.input_mode),
        ensures
            final(self)@ == text_entered(old(self)@).0,
            effects_view(r@) == text_entered(old(self)@).1,
    {
        let mode = self.input_mode;
        let mut text = String::new();
        std::mem::swap(&mut text, &mut self.input_buf);
        self.input_mode = InputMode::Normal;
        if mode == InputMode::EditingTimezone {
            if is_zone_name(text.as_str()) {
                let r = vec![Effect::SetTimezone(text), Effect::Recompute];
                assert(effects_view(r@) =~= seq![EffectView::SetTimezone(old(self)@.input_buf), EffectView::Recompute]);
                r
            } else {
                let r = vec![Effect::Recompute];
                assert(effects_view(r@) =~= seq![EffectView::Recompute]);
                r
            }
        } else if mode == InputMode::EditingLatitude {
            self.weather_loading = true;
            let r = vec![Effect::SetLatitude(text), Effect::Recompute, Effect::FetchWeather];
            assert(effects_view(r@) =~= seq![EffectView::SetLatitude(old(self)@.input_buf), EffectView::Recompute, EffectView::FetchWeather]);
            r
        } else if mode == InputMode::EditingLongitude {
            self.weather_loading = true;
            let r = vec![Effect::SetLongitude(text), Effect::Recompute, Effect::FetchWeather];
            assert(effects_view(r@) =~= seq![EffectView::SetLongitude(old(self)@.input_buf), EffectView::Recompute, EffectView::FetchWeather]);
            r
        } else {
            self.weather_loading = true;
            match self.apply_datetime(text.as_str()) {
                Some(t) => {
                    let r = vec![Effect::SetClock(t), Effect::Recompute, Effect::FetchWeather];
                    assert(effects_view(r@) =~= seq![EffectView::SetClock(t), EffectView::Recompute, EffectView::FetchWeather]);
                    r
                },
                None => {
                    let r = vec![Effect::Recompute, Effect::FetchWeather];
                    assert(effects_view(r@) =~= seq![EffectView::Recompute, EffectView::FetchWeather]);
                    r
                },
            }
        }
    }

    /// Applies one key press: moves the state on as `step` says and returns
    /// the outside work to be done, in order. The state stays well formed.
    pub fn handle_key(&mut self, key: Key, ctx: &KeyContext) -> (r: Vec<Effect>)
        requires
            well_formed(old(self)@),
        ensures
            final(self)@ == step(old(self)@, key, ctx@).0,
            effects_view(r@) == step(old(self)@, key, ctx@).1,
            well_formed(final(self)@),
    {
        proof {
            lemma_step_preserves_well_formed(self@, key, ctx@);
        }
        if key.ctrl && key.code == KeyCode::Char('c') {
            let r = vec![Effect::Quit];
            assert(effects_view(r@) =~= seq![EffectView::Quit]);
            return r;
        }
        match self.input_mode {
            InputMode::Normal => self.normal_key(key.code, ctx),
            InputMode::LocationPicker => self.picker_key(key.code),
            InputMode::AddingLocation => self.adding_key(key.code),
            InputMode::AlmanacBodyPicker => self.bodies_key(key.code, ctx),
            InputMode::FovInput => self.fov_form_key(key.code),
            InputMode::EditingDatetime | InputMode::EditingTimezone | InputMode::EditingLatitude
            | InputMode::EditingLongitude => self.editing_key(key.code),
        }
    }

    /// Ends the new-location form once its fields were checked: an accepted
    /// location is appended, highlighted and saved; a rejected form stays open
    /// with the reason shown.
    pub fn finish_location_draft(&mut self, outcome: Result<L, DraftError>) -> (r: Vec<Effect>)
        requires
            well_formed(old(self)@),
            old(self)@.input_mode == InputMode::AddingLocation,
        ensures
            final(self)@ == location_draft_finished(old(self)@, outcome).0,
            effects_view(r@) == location_draft_finished(old(self)@, outcome).1,
            well_formed(final(self)@),
    {
        match outcome {
            Ok(loc) => {
                self.locations.push(loc);
                self.picker_sel = self.locations.len() - 1;
                self.new_loc_draft = None;
                self.input_mode = InputMode::LocationPicker;
                let r = vec![Effect::SaveConfig];
                assert(effects_view(r@) =~= seq![EffectView::SaveConfig]);
                r
            },
            Err(e) => {
                let mut d = self.new_loc_draft.take().unwrap();
                d.error = Some(e.message().to_owned());
                self.new_loc_draft = Some(d);
                vec![]
            },
        }
    }

    /// Ends the field-of-view form once its fields were checked: accepted, the
    /// view opens; rejected, the form stays open with the valid ranges shown.
    pub fn finish_fov_draft(&mut self, accepted: bool)
        requires
            well_formed(old(self)@),
            old(self)@.input_mode == InputMode::FovInput,
        ensures
            final(self)@ == fov_draft_finished(old(self)@, accepted),
            well_formed(final(self)@),
    {
        if accepted {
            self.fov_active = true;
            self.fov_draft = None;
            self.input_mode = InputMode::Normal;
        } else {
            let mut d = self.fov_draft.take().unwrap();
            d.error = Some(FOV_FORM_ERROR.to_owned());
            self.fov_draft = Some(d);
        }
    }

    /// Takes over a typed date and time, read in UTC as `YYYY-MM-DD HH:MM`:
    /// when it reads as an instant, returns that instant in seconds since
    /// 1970-01-01 00:00 UTC and holds the clock (it stops following the
    /// present); otherwise returns none and changes nothing.
    pub fn apply_datetime(&mut self, text: &str) -> (r: Option<i64>)
        ensures
            r == typed_utc_seconds(text@),
            r is Some ==> final(self)@ == (ControlsView { live_mode: false, time_paused: true, ..old(self)@ }),
            r is None ==> final(self)@ == old(self)@,
    {
        let r = parse_typed_datetime(text);
        if r.is_some() {
            self.live_mode = false;
            self.time_paused = true;
        }
        r
    }

    /// Gives every almanac body without a selection flag one, selected, once
    /// the almanac holds `track_count` bodies; existing flags stay.
    pub fn sync_body_selection(&mut self, track_count: usize)
        ensures
            final(self)@ == (ControlsView { selected_bodies: bodies_synced(old(self)@.selected_bodies, track_count as nat), ..old(self)@ }),
    {
        while self.selected_bodies.len() < track_count
            invariant
                self@ == (ControlsView { selected_bodies: self@.selected_bodies, ..old(self)@ }),
                bodies_synced(self@.selected_bodies, track_count as nat) == bodies_synced(old(self)@.selected_bodies, track_count as nat),
            decreases track_count - self.selected_bodies.len(),
        {
            let ghost before = self.selected_bodies@;
            self.selected_bodies.push(true);
            assert(bodies_synced(self.selected_bodies@, track_count as nat) =~= bodies_synced(before, track_count as nat));
        }
    }

    /// Marks whether a weather forecast is being fetched.
    pub fn set_weather_loading(&mut self, loading: bool)
        ensures
            final(self)@ == (ControlsView { weather_loading: loading, ..old(self)@ }),
    {
        self.weather_loading = loading;
    }

    /// The tab shown.
    pub fn tab(&self) -> (r: Tab)
        ensures
            r == self@.tab,
    {
        self.tab
    }

    /// What the keyboard is editing or navigating.
    pub fn input_mode(&self) -> (r: InputMode)
        ensures
            r == self@.input_mode,
    {
        self.input_mode
    }

    /// Whether the clock follows the present.
    pub fn live_mode(&self) -> (r: bool)
        ensures
            r == self@.live_mode,
    {
        self.live_mode
    }

    /// The speed preset of the sky, weather and almanac tabs.
    pub fn sky_speed_index(&self) -> (r: usize)
        ensures
            r == self@.sky_speed_index,
    {
        self.sky_speed_index
    }

    /// The speed preset of the solar-system tab.
    pub fn orrery_speed_index(&self) -> (r: usize)
        ensures
            r == self@.orrery_speed_index,
    {
        self.orrery_speed_index
    }

    /// Whether the clock holds.
    pub fn time_paused(&self) -> (r: bool)
        ensures
            r == self@.time_paused,
    {
        self.time_paused
    }

    /// Whether the test sky replaces the real one.
    pub fn test_mode(&self) -> (r: bool)
        ensures
            r == self@.test_mode,
    {
        self.test_mode
    }

    /// Whether the field-of-view view is open.
    pub fn fov_active(&self) -> (r: bool)
        ensures
            r == self@.fov_active,
    {
        self.fov_active
    }

    /// Position of the active location.
    pub fn location_index(&self) -> (r: usize)
        ensures
            r == self@.location_index,
    {
        self.location_index
    }

    /// Position of the location highlighted in the picker.
    pub fn picker_sel(&self) -> (r: usize)
        ensures
            r == self@.picker_sel,
    {
        self.picker_sel
    }

    /// Position highlighted in the almanac body picker.
    pub fn almanac_picker_sel(&self) -> (r: usize)
        ensures
            r == self@.almanac_picker_sel,
    {
        self.almanac_picker_sel
    }

    /// Whether the almanac lists rise and set times instead of its legend.
    /// It stays off: `t`, the key that turned it on and off, edits the date
    /// and time.
    pub fn almanac_show_times(&self) -> (r: bool)
        ensures
            r == self@.almanac_show_times,
    {
        self.almanac_show_times
    }

    /// Whether a weather forecast is being fetched.
    pub fn weather_loading(&self) -> (r: bool)
        ensures
            r == self@.weather_loading,
    {
        self.weather_loading
    }

    /// First forecast hour shown.
    pub fn weather_scroll(&self) -> (r: usize)
        ensures
            r == self@.weather_scroll,
    {
        self.weather_scroll
    }

    /// The text in the open one-line editor.
    pub fn input_buf(&self) -> (r: &str)
        ensures
            r@ == self@.input_buf,
    {
        self.input_buf.as_str()
    }

    /// The stored locations.
    pub fn locations(&self) -> (r: &Vec<L>)
        ensures
            r@ == self@.locations,
    {
        &self.locations
    }

    /// The new-location form, while it is open.
    pub fn new_loc_draft(&self) -> (r: &Option<NewLocationDraft>)
        ensures
            opt_location_draft(*r) == self@.new_loc_draft,
    {
        &self.new_loc_draft
    }

    /// The field-of-view form, while it is open.
    pub fn fov_draft(&self) -> (r: &Option<FovDraft>)
        ensures
            opt_fov_draft(*r) == self@.fov_draft,
    {
        &self.fov_draft
    }

    /// Which almanac bodies are shown, by position.
    pub fn selected_bodies(&self) -> (r: &Vec<bool>)
        ensures
            r@ == self@.selected_bodies,
    {
        &self.selected_bodies
    }

    /// How the simulated clock moves on this frame.
    pub fn tick(&self) -> (t: Tick)
        requires
            well_formed(self@),
        ensures
            t == tick_of(self@),
    {
        if self.live_mode {
            Tick::FollowNow
        } else if !self.time_paused {
            match self.tab {
                Tab::SolarSystem => Tick::Advance(orrery_speed(self.orrery_speed_index).0),
                _ => Tick::Advance(sky_speed(self.sky_speed_index).0),
            }
        } else {
            Tick::Hold
        }
    }
}

} // verus!

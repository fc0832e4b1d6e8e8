use vstd::prelude::*;

verus! {

/// Number of time-speed presets on the sky, weather and almanac tabs.
pub const SKY_SPEED_COUNT: usize = 12;

/// Preset that runs the sky clock at real time.
pub const SKY_SPEED_DEFAULT: usize = 6;

/// Number of time-speed presets on the solar-system tab.
pub const ORRERY_SPEED_COUNT: usize = 10;

/// Preset that runs the orrery at one day per second.
pub const ORRERY_SPEED_DEFAULT: usize = 5;

/// Simulated seconds per wall-clock second of sky preset `i`.
pub open spec fn sky_speed_seconds(i: int) -> int {
    if i == 0 { -86400 }
    else if i == 1 { -3600 }
    else if i == 2 { -600 }
    else if i == 3 { -60 }
    else if i == 4 { -10 }
    else if i == 5 { -1 }
    else if i == 6 { 1 }
    else if i == 7 { 10 }
    else if i == 8 { 60 }
    else if i == 9 { 600 }
    else if i == 10 { 3600 }
    else { 86400 }
}

/// Label of sky preset `i`.
pub open spec fn sky_speed_label(i: int) -> Seq<char> {
    if i == 0 { "-1d/s"@ }
    else if i == 1 { "-1h/s"@ }
    else if i == 2 { "-10m/s"@ }
    else if i == 3 { "-1m/s"@ }
    else if i == 4 { "-10x"@ }
    else if i == 5 { "-1x"@ }
    else if i == 6 { "1x"@ }
    else if i == 7 { "10x"@ }
    else if i == 8 { "1m/s"@ }
    else if i == 9 { "10m/s"@ }
    else if i == 10 { "1h/s"@ }
    else { "1d/s"@ }
}

/// Simulated seconds per wall-clock second of orrery preset `i`.
pub open spec fn orrery_speed_seconds(i: int) -> int {
    if i == 0 { -315360000 }
    else if i == 1 { -31536000 }
    else if i == 2 { -2592000 }
    else if i == 3 { -604800 }
    else if i == 4 { -86400 }
    else if i == 5 { 86400 }
    else if i == 6 { 604800 }
    else if i == 7 { 2592000 }
    else if i == 8 { 31536000 }
    else { 315360000 }
}

/// Label of orrery preset `i`.
pub open spec fn orrery_speed_label(i: int) -> Seq<char> {
    if i == 0 { "-10y/s"@ }
    else if i == 1 { "-1y/s"@ }
    else if i == 2 { "-1mo/s"@ }
    else if i == 3 { "-1w/s"@ }
    else if i == 4 { "-1d/s"@ }
    else if i == 5 { "1d/s"@ }
    else if i == 6 { "1w/s"@ }
    else if i == 7 { "1mo/s"@ }
    else if i == 8 { "1y/s"@ }
    else { "10y/s"@ }
}

/// Sky preset `index`: simulated seconds per second, and its label.
pub fn sky_speed(index: usize) -> (r: (i64, &'static str))
    requires
        index < SKY_SPEED_COUNT,
    ensures
        r.0 == sky_speed_seconds(index as int),
        r.1@ == sky_speed_label(index as int),
{
    match index {
        0 => (-86400, "-1d/s"),
        1 => (-3600, "-1h/s"),
        2 => (-600, "-10m/s"),
        3 => (-60, "-1m/s"),
        4 => (-10, "-10x"),
        5 => (-1, "-1x"),
        6 => (1, "1x"),
        7 => (10, "10x"),
        8 => (60, "1m/s"),
        9 => (600, "10m/s"),
        10 => (3600, "1h/s"),
        _ => (86400, "1d/s"),
    }
}

/// Orrery preset `index`: simulated seconds per second, and its label.
pub fn orrery_speed(index: usize) -> (r: (i64, &'static str))
    requires
        index < ORRERY_SPEED_COUNT,
    ensures
        r.0 == orrery_speed_seconds(index as int),
        r.1@ == orrery_speed_label(index as int),
{
    match index {
        0 => (-86400 * 365 * 10, "-10y/s"),
        1 => (-86400 * 365, "-1y/s"),
        2 => (-86400 * 30, "-1mo/s"),
        3 => (-86400 * 7, "-1w/s"),
        4 => (-86400, "-1d/s"),
        5 => (86400, "1d/s"),
        6 => (86400 * 7, "1w/s"),
        7 => (86400 * 30, "1mo/s"),
        8 => (86400 * 365, "1y/s"),
        _ => (86400 * 365 * 10, "10y/s"),
    }
}

/// The speed presets run from fastest backwards to fastest forwards, each
/// faster than the one before, with real time (sky) and one day per second
/// (orrery) as the defaults; every forward preset has a backward twin.
pub proof fn lemma_speed_presets_ordered(i: int, j: int)
    ensures
        0 <= i < j < SKY_SPEED_COUNT ==> sky_speed_seconds(i) < sky_speed_seconds(j),
        0 <= i < j < ORRERY_SPEED_COUNT ==> orrery_speed_seconds(i) < orrery_speed_seconds(j),
        0 <= i < SKY_SPEED_COUNT ==> sky_speed_seconds(SKY_SPEED_COUNT - 1 - i)
            == -sky_speed_seconds(i),
        0 <= i < ORRERY_SPEED_COUNT ==> orrery_speed_seconds(ORRERY_SPEED_COUNT - 1 - i)
            == -orrery_speed_seconds(i),
        sky_speed_seconds(SKY_SPEED_DEFAULT as int) == 1,
        orrery_speed_seconds(ORRERY_SPEED_DEFAULT as int) == 86400,
{
}

/// The tabs of the interface.
#[derive(Clone, Copy, Debug, PartialEq, Eq, Structural)]
pub enum Tab {
    Sky,
    Weather,
    SolarSystem,
    Almanac,
}

/// What the keyboard is currently editing or navigating.
#[derive(Clone, Copy, Debug, PartialEq, Eq, Structural)]
pub enum InputMode {
    Normal,
    LocationPicker,
    AddingLocation,
    EditingDatetime,
    EditingTimezone,
    EditingLatitude,
    EditingLongitude,
    AlmanacBodyPicker,
    FovInput,
}

/// The form for a new location: name, latitude, longitude, height.
pub struct NewLocationDraft {
    pub bufs: [String; 4],
    pub field: usize,
    pub error: Option<String>,
}

/// The form for the field-of-view view: altitude, azimuth, field width.
pub struct FovDraft {
    pub bufs: [String; 3],
    pub field: usize,
    pub error: Option<String>,
}


/// The contents of a form: its fields' text, the field being edited, and the
/// message shown after a rejected submission.
#[verifier::ext_equal]
pub struct DraftView {
    pub bufs: Seq<Seq<char>>,
    pub field: usize,
    pub error: Option<Seq<char>>,
}

pub open spec fn opt_text(o: Option<String>) -> Option<Seq<char>> {
    match o {
        Some(s) => Some(s@),
        None => None,
    }
}

pub open spec fn texts(bufs: Seq<String>) -> Seq<Seq<char>> {
    bufs.map_values(|b: String| b@)
}

impl View for NewLocationDraft {
    type V = DraftView;

    open spec fn view(&self) -> DraftView {
        DraftView { bufs: texts(self.bufs@), field: self.field, error: opt_text(self.error) }
    }
}

impl View for FovDraft {
    type V = DraftView;

    open spec fn view(&self) -> DraftView {
        DraftView { bufs: texts(self.bufs@), field: self.field, error: opt_text(self.error) }
    }
}

} // verus!

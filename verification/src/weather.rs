use vstd::prelude::*;

verus! {

/// How dark the sky is at a given hour, judged by the Sun's altitude.
#[derive(Clone, Copy, Debug, PartialEq, Eq, Structural)]
pub enum DayPeriod {
    Day,
    CivilTwilight,
    NauticalTwilight,
    AstronomicalTwilight,
    Night,
}

impl DayPeriod {
    /// The glyph shown for this period on the weather tab's day/night axis.
    pub fn symbol(&self) -> (s: &'static str)
        ensures
            s@ == match *self {
                DayPeriod::Day => "☀"@,
                DayPeriod::CivilTwilight => "⊙"@,
                DayPeriod::NauticalTwilight => "◑"@,
                DayPeriod::AstronomicalTwilight => "○"@,
                DayPeriod::Night => "★"@,
            },
    {
        match self {
            DayPeriod::Day => "☀",
            DayPeriod::CivilTwilight => "⊙",
            DayPeriod::NauticalTwilight => "◑",
            DayPeriod::AstronomicalTwilight => "○",
            DayPeriod::Night => "★",
        }
    }
}

/// Expected observing quality for one forecast hour.
#[derive(Clone, Copy, Debug, PartialEq, Eq, Structural)]
pub enum SeeingQuality {
    Excellent,
    Good,
    Fair,
    Poor,
    Bad,
}

impl SeeingQuality {
    /// The word shown in the forecast table.
    pub fn label(&self) -> (s: &'static str)
        ensures
            s@ == match *self {
                SeeingQuality::Excellent => "Excellent"@,
                SeeingQuality::Good => "Good"@,
                SeeingQuality::Fair => "Fair"@,
                SeeingQuality::Poor => "Poor"@,
                SeeingQuality::Bad => "Bad"@,
            },
    {
        match self {
            SeeingQuality::Excellent => "Excellent",
            SeeingQuality::Good => "Good",
            SeeingQuality::Fair => "Fair",
            SeeingQuality::Poor => "Poor",
            SeeingQuality::Bad => "Bad",
        }
    }
}

/// Cloud cover of one forecast hour, by the bands the seeing rule tells apart.
#[derive(Clone, Copy, Debug, PartialEq, Eq, Structural)]
pub enum CloudCover {
    /// under 10 %
    Clear,
    /// 10 % up to under 30 %
    Scattered,
    /// 30 % up to under 70 %
    Broken,
    /// 70 % up to under 90 %
    Heavy,
    /// 90 % and more
    Overcast,
}

/// Relative humidity: under 60 %, under 75 %, or more.
#[derive(Clone, Copy, Debug, PartialEq, Eq, Structural)]
pub enum Humidity {
    Dry,
    Moist,
    Humid,
}

/// Precipitation probability: exactly 0 %, under 20 %, or more.
#[derive(Clone, Copy, Debug, PartialEq, Eq, Structural)]
pub enum PrecipChance {
    Zero,
    Low,
    High,
}

/// Visibility: more than 20 km, or not.
#[derive(Clone, Copy, Debug, PartialEq, Eq, Structural)]
pub enum Visibility {
    Far,
    Near,
}

/// Wind speed: under 10 km/h, under 25 km/h, or more.
#[derive(Clone, Copy, Debug, PartialEq, Eq, Structural)]
pub enum Wind {
    Calm,
    Breezy,
    Strong,
}

/// The banded weather readings of one forecast hour.
#[derive(Clone, Copy, Debug, PartialEq, Eq, Structural)]
pub struct Conditions {
    pub cloud: CloudCover,
    pub humidity: Humidity,
    pub precip: PrecipChance,
    pub visibility: Visibility,
    pub wind: Wind,
}

pub open spec fn cloud_points(c: CloudCover) -> int {
    match c {
        CloudCover::Clear => 3,
        CloudCover::Scattered => 2,
        _ => 1,
    }
}

pub open spec fn humidity_points(h: Humidity) -> int {
    match h {
        Humidity::Dry => 2,
        Humidity::Moist => 1,
        Humidity::Humid => 0,
    }
}

pub open spec fn precip_points(p: PrecipChance) -> int {
    match p {
        PrecipChance::Zero => 2,
        PrecipChance::Low => 1,
        PrecipChance::High => 0,
    }
}

pub open spec fn visibility_points(v: Visibility) -> int {
    match v {
        Visibility::Far => 1,
        Visibility::Near => 0,
    }
}

pub open spec fn wind_points(w: Wind) -> int {
    match w {
        Wind::Calm => 2,
        Wind::Breezy => 1,
        Wind::Strong => 0,
    }
}

/// Sum of the per-factor points (1..=10 when the sky is not heavily clouded).
pub open spec fn seeing_points(c: Conditions) -> int {
    cloud_points(c.cloud) + humidity_points(c.humidity) + precip_points(c.precip)
        + visibility_points(c.visibility) + wind_points(c.wind)
}

/// What the seeing rule gives: heavy cloud decides alone, else the points do.
pub open spec fn seeing_of(c: Conditions) -> SeeingQuality {
    if c.cloud == CloudCover::Overcast {
        SeeingQuality::Bad
    } else if c.cloud == CloudCover::Heavy {
        SeeingQuality::Poor
    } else {
        let t = seeing_points(c);
        if 8 <= t <= 10 {
            SeeingQuality::Excellent
        } else if 6 <= t <= 7 {
            SeeingQuality::Good
        } else if 4 <= t <= 5 {
            SeeingQuality::Fair
        } else if 2 <= t <= 3 {
            SeeingQuality::Poor
        } else {
            SeeingQuality::Bad
        }
    }
}

/// Rank of a quality, 4 for `Excellent` down to 0 for `Bad`.
pub open spec fn quality_rank(q: SeeingQuality) -> int {
    match q {
        SeeingQuality::Excellent => 4,
        SeeingQuality::Good => 3,
        SeeingQuality::Fair => 2,
        SeeingQuality::Poor => 1,
        SeeingQuality::Bad => 0,
    }
}

/// Rates one forecast hour for observing.
pub fn compute_seeing(c: Conditions) -> (q: SeeingQuality)
    ensures
        q == seeing_of(c),
{
    // Hard gates: heavy cloud cover overrides all other factors
    match c.cloud {
        CloudCover::Overcast => return SeeingQuality::Bad,
        CloudCover::Heavy => return SeeingQuality::Poor,
        _ => {},
    }
    let cloud_score: u8 = match c.cloud {
        CloudCover::Clear => 3,
        CloudCover::Scattered => 2,
        _ => 1,
    };
    let humidity_score: u8 = match c.humidity {
        Humidity::Dry => 2,
        Humidity::Moist => 1,
        Humidity::Humid => 0,
    };
    let precip_score: u8 = match c.precip {
        PrecipChance::Zero => 2,
        PrecipChance::Low => 1,
        PrecipChance::High => 0,
    };
    let vis_score: u8 = match c.visibility {
        Visibility::Far => 1,
        Visibility::Near => 0,
    };
    // Wind: calm = good seeing, strong = turbulence
    let wind_score: u8 = match c.wind {
        Wind::Calm => 2,
        Wind::Breezy => 1,
        Wind::Strong => 0,
    };
    let total: u8 = cloud_score + humidity_score + precip_score + vis_score + wind_score;
    if 8 <= total && total <= 10 {
        SeeingQuality::Excellent
    } else if 6 <= total && total <= 7 {
        SeeingQuality::Good
    } else if 4 <= total && total <= 5 {
        SeeingQuality::Fair
    } else if 2 <= total && total <= 3 {
        SeeingQuality::Poor
    } else {
        SeeingQuality::Bad
    }
}

/// Heavy cloud overrides every other factor: at 90 % cloud and more the hour is
/// `Bad`, from 70 % it is `Poor`, whatever the humidity, rain, visibility and wind.
pub proof fn lemma_cloud_overrides(a: Conditions, b: Conditions)
    requires
        a.cloud == b.cloud,
        a.cloud == CloudCover::Overcast || a.cloud == CloudCover::Heavy,
    ensures
        seeing_of(a) == seeing_of(b),
        a.cloud == CloudCover::Overcast ==> seeing_of(a) == SeeingQuality::Bad,
        a.cloud == CloudCover::Heavy ==> seeing_of(a) == SeeingQuality::Poor,
{
}

/// Under less than 70 % cloud the rating goes by the point total alone, in
/// bands two points wide: 2-3 points rate `Poor`, 4-5 `Fair`, 6-7 `Good`,
/// 8 and more `Excellent`, fewer than 2 `Bad`; the total lies in 1..=10.
pub proof fn lemma_seeing_bands(c: Conditions)
    requires
        c.cloud != CloudCover::Overcast,
        c.cloud != CloudCover::Heavy,
    ensures
        1 <= seeing_points(c) <= 10,
        quality_rank(seeing_of(c)) == (if seeing_points(c) >= 8 { 4 } else { seeing_points(c) / 2 }),
        seeing_points(c) == 5 ==> seeing_of(c) == SeeingQuality::Fair,
        seeing_points(c) == 6 ==> seeing_of(c) == SeeingQuality::Good,
{
}

/// Rank of a cloud band, 4 for `Clear` down to 0 for `Overcast`.
pub open spec fn cloud_rank(c: CloudCover) -> int {
    match c {
        CloudCover::Clear => 4,
        CloudCover::Scattered => 3,
        CloudCover::Broken => 2,
        CloudCover::Heavy => 1,
        CloudCover::Overcast => 0,
    }
}

/// `a` is at least as good as `b` in every factor (fewer clouds, drier, less
/// rain, farther visibility, less wind).
pub open spec fn no_worse_than(a: Conditions, b: Conditions) -> bool {
    &&& cloud_rank(a.cloud) >= cloud_rank(b.cloud)
    &&& humidity_points(a.humidity) >= humidity_points(b.humidity)
    &&& precip_points(a.precip) >= precip_points(b.precip)
    &&& visibility_points(a.visibility) >= visibility_points(b.visibility)
    &&& wind_points(a.wind) >= wind_points(b.wind)
}

/// Better weather never rates worse: if every factor of `a` is at least as
/// favourable as that of `b`, the seeing of `a` ranks at least as high. The one
/// exception, left out here, is `b` under 70-90 % cloud (always `Poor`) against
/// `a` under less cloud but otherwise poor conditions, which can rate `Bad`.
pub proof fn lemma_seeing_monotone(a: Conditions, b: Conditions)
    requires
        no_worse_than(a, b),
        b.cloud == CloudCover::Heavy ==> a.cloud == CloudCover::Heavy,
    ensures
        quality_rank(seeing_of(a)) >= quality_rank(seeing_of(b)),
{
}

} // verus!

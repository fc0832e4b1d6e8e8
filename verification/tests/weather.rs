use stellui::weather::{
    compute_seeing, CloudCover, Conditions, DayPeriod, Humidity, PrecipChance, SeeingQuality,
    Visibility, Wind,
};

fn conditions(
    cloud: CloudCover,
    humidity: Humidity,
    precip: PrecipChance,
    visibility: Visibility,
    wind: Wind,
) -> Conditions {
    Conditions { cloud, humidity, precip, visibility, wind }
}

#[test]
fn day_period_symbols() {
    assert_eq!(DayPeriod::Day.symbol(), "☀");
    assert_eq!(DayPeriod::CivilTwilight.symbol(), "⊙");
    assert_eq!(DayPeriod::NauticalTwilight.symbol(), "◑");
    assert_eq!(DayPeriod::AstronomicalTwilight.symbol(), "○");
    assert_eq!(DayPeriod::Night.symbol(), "★");
}

#[test]
fn seeing_labels() {
    assert_eq!(SeeingQuality::Excellent.label(), "Excellent");
    assert_eq!(SeeingQuality::Good.label(), "Good");
    assert_eq!(SeeingQuality::Fair.label(), "Fair");
    assert_eq!(SeeingQuality::Poor.label(), "Poor");
    assert_eq!(SeeingQuality::Bad.label(), "Bad");
}

#[test]
fn perfect_night_is_excellent() {
    let c = conditions(CloudCover::Clear, Humidity::Dry, PrecipChance::Zero, Visibility::Far, Wind::Calm);
    assert_eq!(compute_seeing(c), SeeingQuality::Excellent);
}

#[test]
fn overcast_is_bad_whatever_else() {
    let c = conditions(CloudCover::Overcast, Humidity::Dry, PrecipChance::Zero, Visibility::Far, Wind::Calm);
    assert_eq!(compute_seeing(c), SeeingQuality::Bad);
}

#[test]
fn heavy_cloud_is_poor_whatever_else() {
    let good = conditions(CloudCover::Heavy, Humidity::Dry, PrecipChance::Zero, Visibility::Far, Wind::Calm);
    let bad = conditions(CloudCover::Heavy, Humidity::Humid, PrecipChance::High, Visibility::Near, Wind::Strong);
    assert_eq!(compute_seeing(good), SeeingQuality::Poor);
    assert_eq!(compute_seeing(bad), SeeingQuality::Poor);
}

#[test]
fn point_totals_map_to_bands() {
    // 2 + 1 + 1 + 1 + 1 = 6
    let good = conditions(CloudCover::Scattered, Humidity::Moist, PrecipChance::Low, Visibility::Far, Wind::Breezy);
    assert_eq!(compute_seeing(good), SeeingQuality::Good);
    // 1 + 1 + 1 + 0 + 1 = 4
    let fair = conditions(CloudCover::Broken, Humidity::Moist, PrecipChance::Low, Visibility::Near, Wind::Breezy);
    assert_eq!(compute_seeing(fair), SeeingQuality::Fair);
    // 1 + 0 + 1 + 0 + 0 = 2
    let poor = conditions(CloudCover::Broken, Humidity::Humid, PrecipChance::Low, Visibility::Near, Wind::Strong);
    assert_eq!(compute_seeing(poor), SeeingQuality::Poor);
    // 1 + 0 + 0 + 0 + 0 = 1
    let bad = conditions(CloudCover::Broken, Humidity::Humid, PrecipChance::High, Visibility::Near, Wind::Strong);
    assert_eq!(compute_seeing(bad), SeeingQuality::Bad);
    // 3 + 2 + 2 + 0 + 1 = 8
    let excellent = conditions(CloudCover::Clear, Humidity::Dry, PrecipChance::Zero, Visibility::Near, Wind::Breezy);
    assert_eq!(compute_seeing(excellent), SeeingQuality::Excellent);
    // 3 + 1 + 2 + 0 + 1 = 7
    let good_upper = conditions(CloudCover::Clear, Humidity::Moist, PrecipChance::Zero, Visibility::Near, Wind::Breezy);
    assert_eq!(compute_seeing(good_upper), SeeingQuality::Good);
}

#[test]
fn better_weather_rates_no_worse() {
    let worse = conditions(CloudCover::Broken, Humidity::Moist, PrecipChance::Low, Visibility::Near, Wind::Breezy);
    let better = conditions(CloudCover::Scattered, Humidity::Dry, PrecipChance::Low, Visibility::Far, Wind::Calm);
    let rank = |q: SeeingQuality| match q {
        SeeingQuality::Excellent => 4,
        SeeingQuality::Good => 3,
        SeeingQuality::Fair => 2,
        SeeingQuality::Poor => 1,
        SeeingQuality::Bad => 0,
    };
    assert!(rank(compute_seeing(better)) >= rank(compute_seeing(worse)));
}

#[test]
fn heavy_cloud_can_outrank_lighter_cloud() {
    // the one place where better weather rates worse
    let heavy = conditions(CloudCover::Heavy, Humidity::Humid, PrecipChance::High, Visibility::Near, Wind::Strong);
    let broken = conditions(CloudCover::Broken, Humidity::Humid, PrecipChance::High, Visibility::Near, Wind::Strong);
    assert_eq!(compute_seeing(heavy), SeeingQuality::Poor);
    assert_eq!(compute_seeing(broken), SeeingQuality::Bad);
}

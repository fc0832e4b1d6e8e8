use stellui::app::{orrery_speed, sky_speed, Tab, ORRERY_SPEED_COUNT, SKY_SPEED_COUNT};
use stellui::ui::{
    centered_popup, clock_status, controls_hint, day_period_color, moon_phase_glyph,
    orrery_planet_color, planet_color, seeing_color, tab_position, weather_notice, weather_panel,
    Area, ClockStatus, Palette, WeatherPanel,
};
use stellui::weather::{DayPeriod, SeeingQuality};

#[test]
fn planet_palette() {
    assert_eq!(planet_color("Mercury"), Palette::Gray);
    assert_eq!(planet_color("Venus"), Palette::Yellow);
    assert_eq!(planet_color("Mars"), Palette::Red);
    assert_eq!(planet_color("Jupiter"), Palette::White);
    assert_eq!(planet_color("Saturn"), Palette::Yellow);
    assert_eq!(planet_color("Uranus"), Palette::Cyan);
    assert_eq!(planet_color("Neptune"), Palette::Blue);
    assert_eq!(planet_color("Earth"), Palette::White);
    assert_eq!(orrery_planet_color("Earth"), Palette::Cyan);
    assert_eq!(orrery_planet_color("Mars"), Palette::Red);
    assert_eq!(orrery_planet_color("Vulcan"), Palette::White);
}

#[test]
fn moon_glyphs() {
    assert_eq!(moon_phase_glyph(0), "🌑");
    assert_eq!(moon_phase_glyph(2), "🌓");
    assert_eq!(moon_phase_glyph(4), "🌕");
    assert_eq!(moon_phase_glyph(7), "🌘");
    assert_eq!(moon_phase_glyph(8), "🌑");
}

#[test]
fn popup_is_centred() {
    let area = Area { x: 0, y: 0, width: 100, height: 40 };
    assert_eq!(centered_popup(area, 60, 10), Area { x: 20, y: 15, width: 60, height: 10 });
    // at least 40 wide
    assert_eq!(centered_popup(area, 10, 10), Area { x: 30, y: 15, width: 40, height: 10 });
    // at most four rows short of the area
    assert_eq!(centered_popup(Area { x: 5, y: 2, width: 50, height: 12 }, 60, 20), Area { x: 10, y: 4, width: 40, height: 8 });
    // wider than the area
    assert_eq!(centered_popup(Area { x: 0, y: 0, width: 30, height: 3 }, 60, 5), Area { x: 0, y: 1, width: 40, height: 0 });
}

#[test]
fn tab_positions() {
    assert_eq!(tab_position(Tab::Sky), 0);
    assert_eq!(tab_position(Tab::Weather), 1);
    assert_eq!(tab_position(Tab::SolarSystem), 2);
    assert_eq!(tab_position(Tab::Almanac), 3);
}

#[test]
fn clock_status_line() {
    assert!(matches!(clock_status(true, true, Tab::Sky, 6, 5), ClockStatus::Live));
    assert!(matches!(clock_status(false, true, Tab::Sky, 6, 5), ClockStatus::Paused));
    assert!(matches!(clock_status(false, false, Tab::Sky, 6, 5), ClockStatus::Running("1x")));
    assert!(matches!(clock_status(false, false, Tab::SolarSystem, 0, 9), ClockStatus::Running("10y/s")));
}

#[test]
fn hints_per_tab() {
    assert!(controls_hint(Tab::Weather).contains("[R]weather"));
    assert_eq!(
        controls_hint(Tab::Sky),
        " [l]lat [o]lon [L]locations [T]time [Z]tz [N]now [Space]live [,/.]speed [+/-]mag [D]orion [f]toggle FoV [/]search [S/W/P/A/B]tab [Q]quit"
    );
    assert_eq!(
        controls_hint(Tab::Almanac),
        " [l]lat [o]lon [L]locations [T]time [Z]tz [N]now [Space]live [,/.]speed [v]bodies [S/W/P/A/B]tab [Q]quit"
    );
    assert!(controls_hint(Tab::Sky).contains("[f]toggle FoV"));
    for tab in [Tab::Sky, Tab::Weather, Tab::SolarSystem, Tab::Almanac] {
        assert!(controls_hint(tab).starts_with(" [l]lat [o]lon [L]locations "));
    }
    assert!(controls_hint(Tab::Sky).contains("[Space]live"));
    assert!(controls_hint(Tab::SolarSystem).contains("[T]time"));
}

#[test]
fn seeing_colours() {
    assert_eq!(seeing_color(SeeingQuality::Excellent), Palette::Green);
    assert_eq!(seeing_color(SeeingQuality::Good), Palette::Green);
    assert_eq!(seeing_color(SeeingQuality::Fair), Palette::Yellow);
    assert_eq!(seeing_color(SeeingQuality::Poor), Palette::Red);
    assert_eq!(seeing_color(SeeingQuality::Bad), Palette::Red);
}

#[test]
fn day_period_colours() {
    assert_eq!(day_period_color(DayPeriod::Day), Palette::Yellow);
    assert_eq!(day_period_color(DayPeriod::CivilTwilight), Palette::Rgb(255, 165, 0));
    assert_eq!(day_period_color(DayPeriod::NauticalTwilight), Palette::Rgb(100, 140, 210));
    assert_eq!(day_period_color(DayPeriod::AstronomicalTwilight), Palette::Blue);
    assert_eq!(day_period_color(DayPeriod::Night), Palette::Rgb(80, 80, 160));
}

#[test]
fn speed_presets() {
    assert_eq!(sky_speed(0), (-86400, "-1d/s"));
    assert_eq!(sky_speed(6), (1, "1x"));
    assert_eq!(sky_speed(11), (86400, "1d/s"));
    assert_eq!(orrery_speed(0), (-86400 * 365 * 10, "-10y/s"));
    assert_eq!(orrery_speed(5), (86400, "1d/s"));
    assert_eq!(orrery_speed(7), (86400 * 30, "1mo/s"));
    for i in 1..SKY_SPEED_COUNT {
        assert!(sky_speed(i - 1).0 < sky_speed(i).0);
        assert_eq!(sky_speed(SKY_SPEED_COUNT - 1 - i).0, -sky_speed(i).0);
    }
    for i in 1..ORRERY_SPEED_COUNT {
        assert!(orrery_speed(i - 1).0 < orrery_speed(i).0);
    }
}

#[test]
fn weather_panel_order() {
    assert_eq!(weather_panel(true, true, true), WeatherPanel::Loading);
    assert_eq!(weather_panel(true, false, false), WeatherPanel::Loading);
    assert_eq!(weather_panel(false, true, true), WeatherPanel::Error);
    assert_eq!(weather_panel(false, false, false), WeatherPanel::NotFetched);
    assert_eq!(weather_panel(false, false, true), WeatherPanel::Forecast);
    assert_eq!(weather_notice(WeatherPanel::Loading), Some("Loading weather forecast..."));
    assert_eq!(weather_notice(WeatherPanel::NotFetched), Some("Press [R] to fetch weather forecast."));
    assert_eq!(weather_notice(WeatherPanel::Error), None);
    assert_eq!(weather_notice(WeatherPanel::Forecast), None);
}

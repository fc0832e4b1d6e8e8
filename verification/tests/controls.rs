use chrono::TimeZone;
use stellui::app::{InputMode, Tab};
use stellui::controls::{
    location_draft_error, Controls, DraftError, Effect, Key, KeyCode, KeyContext, Pan, Tick,
    FOV_FORM_ERROR,
};

fn ctx() -> KeyContext {
    KeyContext {
        datetime_text: "2026-03-11 16:00".to_string(),
        timezone_text: "America/Chicago".to_string(),
        latitude_text: "40.71".to_string(),
        longitude_text: "-74.01".to_string(),
        fov_texts: ["45.0".to_string(), "180.0".to_string(), "30.0".to_string()],
        forecast_count: 3,
        almanac_track_count: 9,
    }
}

fn key(code: KeyCode) -> Key {
    Key { code, ctrl: false }
}

fn ch(c: char) -> Key {
    key(KeyCode::Char(c))
}

fn press(c: &mut Controls<&'static str>, k: Key) -> Vec<Effect> {
    c.handle_key(k, &ctx())
}

fn three() -> Controls<&'static str> {
    Controls::new(vec!["New York", "Chicago", "Denver"], 0)
}

#[test]
fn starts_on_sky_at_real_time() {
    let c = three();
    assert_eq!(c.tab(), Tab::Sky);
    assert_eq!(c.input_mode(), InputMode::Normal);
    assert_eq!(c.sky_speed_index(), 6);
    assert_eq!(c.orrery_speed_index(), 5);
    assert!(matches!(c.tick(), Tick::Advance(1)));
}

#[test]
fn ctrl_c_quits_everywhere() {
    let mut c = three();
    press(&mut c, ch('t'));
    assert_eq!(c.input_mode(), InputMode::EditingDatetime);
    let e = press(&mut c, Key { code: KeyCode::Char('c'), ctrl: true });
    assert!(matches!(e.as_slice(), [Effect::Quit]));
    assert_eq!(c.input_mode(), InputMode::EditingDatetime);
}

#[test]
fn q_quits_in_normal_mode_but_types_in_editor() {
    let mut c = three();
    assert!(matches!(press(&mut c, ch('q')).as_slice(), [Effect::Quit]));
    press(&mut c, ch('z'));
    assert!(press(&mut c, ch('q')).is_empty());
    assert_eq!(c.input_buf(), "America/Chicagoq");
}

#[test]
fn tab_keys() {
    let mut c = three();
    press(&mut c, ch('W'));
    assert_eq!(c.tab(), Tab::Weather);
    press(&mut c, ch('p'));
    assert_eq!(c.tab(), Tab::SolarSystem);
    let e = press(&mut c, ch('a'));
    assert_eq!(c.tab(), Tab::Almanac);
    assert!(matches!(e.as_slice(), [Effect::ComputeAlmanac]));
    press(&mut c, ch('s'));
    assert_eq!(c.tab(), Tab::Sky);
}

#[test]
fn space_toggles_live_mode() {
    let mut c = three();
    assert!(!c.live_mode());
    let e = press(&mut c, ch(' '));
    assert!(matches!(e.as_slice(), [Effect::JumpToNow, Effect::ResetTick, Effect::Recompute]));
    assert!(c.live_mode());
    assert!(matches!(c.tick(), Tick::FollowNow));
    assert!(press(&mut c, ch(' ')).is_empty());
    assert!(!c.live_mode());
    assert!(c.time_paused());
    assert!(matches!(c.tick(), Tick::Hold));
    // from a held clock, Space twice comes back to it
    press(&mut c, ch(' '));
    press(&mut c, ch(' '));
    assert!(!c.live_mode());
    assert!(c.time_paused());
}

#[test]
fn now_goes_live_and_space_leaves_it() {
    let mut c = three();
    let e = press(&mut c, ch('n'));
    assert!(matches!(e.as_slice(), [Effect::JumpToNow, Effect::ResetTick, Effect::Recompute]));
    assert!(c.live_mode());
    assert!(matches!(c.tick(), Tick::FollowNow));
    assert!(press(&mut c, ch('N')).len() == 3);
    assert!(c.live_mode());
    assert!(press(&mut c, ch(' ')).is_empty());
    assert!(!c.live_mode());
    assert!(c.time_paused());
}

#[test]
fn speed_keys_stay_in_range() {
    let mut c = three();
    for _ in 0..20 {
        press(&mut c, ch('.'));
    }
    assert_eq!(c.sky_speed_index(), 11);
    assert!(matches!(c.tick(), Tick::Advance(86400)));
    for _ in 0..20 {
        press(&mut c, ch(','));
    }
    assert_eq!(c.sky_speed_index(), 0);
    press(&mut c, ch('p'));
    press(&mut c, ch(','));
    assert_eq!(c.orrery_speed_index(), 4);
    assert!(matches!(c.tick(), Tick::Advance(-86400)));
    assert_eq!(c.sky_speed_index(), 0);
}

#[test]
fn magnitude_and_test_mode_keys() {
    let mut c = three();
    assert!(matches!(press(&mut c, ch('+')).as_slice(), [Effect::RaiseMagLimit, Effect::Recompute]));
    assert!(matches!(press(&mut c, ch('-')).as_slice(), [Effect::LowerMagLimit, Effect::Recompute]));
    assert!(matches!(press(&mut c, ch('d')).as_slice(), [Effect::Recompute]));
    assert!(c.test_mode());
}

#[test]
fn weather_refresh_only_when_idle() {
    let mut c = three();
    assert!(matches!(press(&mut c, ch('r')).as_slice(), [Effect::FetchWeather]));
    assert!(c.weather_loading());
    assert!(press(&mut c, ch('r')).is_empty());
}

#[test]
fn weather_scroll_bounded_by_forecasts() {
    let mut c = three();
    for _ in 0..5 {
        press(&mut c, key(KeyCode::Down));
    }
    assert_eq!(c.weather_scroll(), 2);
    press(&mut c, key(KeyCode::Up));
    assert_eq!(c.weather_scroll(), 1);
    press(&mut c, key(KeyCode::Up));
    press(&mut c, key(KeyCode::Up));
    assert_eq!(c.weather_scroll(), 0);
}

#[test]
fn fov_form_flow() {
    let mut c = three();
    assert!(press(&mut c, ch('f')).is_empty());
    assert_eq!(c.input_mode(), InputMode::FovInput);
    let d = c.fov_draft().as_ref().unwrap();
    assert_eq!(d.bufs[0], "45.0");
    assert_eq!(d.bufs[2], "30.0");
    press(&mut c, key(KeyCode::Backspace));
    press(&mut c, ch('5'));
    assert_eq!(c.fov_draft().as_ref().unwrap().bufs[0], "45.5");
    press(&mut c, key(KeyCode::Tab));
    press(&mut c, key(KeyCode::Enter));
    assert_eq!(c.fov_draft().as_ref().unwrap().field, 2);
    assert!(matches!(press(&mut c, key(KeyCode::Enter)).as_slice(), [Effect::SubmitFovDraft]));
    c.finish_fov_draft(false);
    assert_eq!(c.fov_draft().as_ref().unwrap().error.as_deref(), Some(FOV_FORM_ERROR));
    assert_eq!(c.input_mode(), InputMode::FovInput);
    c.finish_fov_draft(true);
    assert!(c.fov_active());
    assert!(c.fov_draft().is_none());
    assert_eq!(c.input_mode(), InputMode::Normal);
    assert!(matches!(press(&mut c, key(KeyCode::Left)).as_slice(), [Effect::PanFov(Pan::Left)]));
    assert!(matches!(press(&mut c, ch('[')).as_slice(), [Effect::WidenFov]));
    assert!(matches!(press(&mut c, ch(']')).as_slice(), [Effect::NarrowFov]));
    press(&mut c, key(KeyCode::Esc));
    assert!(!c.fov_active());
}

#[test]
fn location_picker_enter_activates() {
    let mut c = three();
    press(&mut c, ch('L'));
    assert_eq!(c.input_mode(), InputMode::LocationPicker);
    press(&mut c, key(KeyCode::Down));
    press(&mut c, key(KeyCode::Down));
    press(&mut c, key(KeyCode::Down));
    assert_eq!(c.picker_sel(), 2);
    let e = press(&mut c, key(KeyCode::Enter));
    assert!(matches!(e.as_slice(), [Effect::LoadLocation(2), Effect::FetchWeather]));
    assert_eq!(c.location_index(), 2);
    assert_eq!(c.input_mode(), InputMode::Normal);
    assert!(c.weather_loading());
}

#[test]
fn deleting_keeps_active_location() {
    let mut c = Controls::new(vec!["A", "B", "C", "D"], 2);
    press(&mut c, ch('L'));
    press(&mut c, key(KeyCode::Up));
    press(&mut c, key(KeyCode::Up));
    assert_eq!(c.picker_sel(), 0);
    let e = press(&mut c, ch('d'));
    assert!(matches!(e.as_slice(), [Effect::SaveConfig]));
    assert_eq!(*c.locations(), vec!["B", "C", "D"]);
    assert_eq!(c.locations()[c.location_index()], "C");
}

#[test]
fn deleting_last_active_location_reloads() {
    let mut c = Controls::new(vec!["A", "B"], 1);
    press(&mut c, ch('L'));
    let e = press(&mut c, ch('D'));
    assert!(matches!(e.as_slice(), [Effect::LoadLocation(0), Effect::FetchWeather, Effect::SaveConfig]));
    assert_eq!(*c.locations(), vec!["A"]);
    assert_eq!(c.location_index(), 0);
    assert_eq!(c.picker_sel(), 0);
    // the last location is never deleted
    assert!(press(&mut c, ch('d')).is_empty());
    assert_eq!(*c.locations(), vec!["A"]);
}

#[test]
fn adding_a_location() {
    let mut c = three();
    press(&mut c, ch('L'));
    press(&mut c, ch('n'));
    assert_eq!(c.input_mode(), InputMode::AddingLocation);
    for ch_ in "Oslo".chars() {
        press(&mut c, ch(ch_));
    }
    press(&mut c, key(KeyCode::Enter));
    press(&mut c, ch('9'));
    press(&mut c, ch('1'));
    assert_eq!(c.new_loc_draft().as_ref().unwrap().bufs[1], "91");
    press(&mut c, key(KeyCode::Enter));
    press(&mut c, key(KeyCode::Enter));
    assert!(matches!(press(&mut c, key(KeyCode::Enter)).as_slice(), [Effect::SubmitLocationDraft]));
    let err = location_draft_error(false, false, true, true);
    assert_eq!(err, Some(DraftError::Latitude));
    assert!(c.finish_location_draft(Err(err.unwrap())).is_empty());
    assert_eq!(c.new_loc_draft().as_ref().unwrap().error.as_deref(), Some("Lat must be -90..90"));
    assert_eq!(c.new_loc_draft().as_ref().unwrap().bufs[0], "Oslo");
    let e = c.finish_location_draft(Ok("Oslo"));
    assert!(matches!(e.as_slice(), [Effect::SaveConfig]));
    assert_eq!(c.locations().len(), 4);
    assert_eq!(c.picker_sel(), 3);
    assert_eq!(c.input_mode(), InputMode::LocationPicker);
    assert!(c.new_loc_draft().is_none());
}

#[test]
fn draft_errors_in_order() {
    assert_eq!(location_draft_error(true, false, false, false), Some(DraftError::EmptyName));
    assert_eq!(location_draft_error(false, true, false, false), Some(DraftError::Longitude));
    assert_eq!(location_draft_error(false, true, true, false), Some(DraftError::Height));
    assert_eq!(location_draft_error(false, true, true, true), None);
    assert_eq!(DraftError::EmptyName.message(), "Name cannot be empty");
    assert_eq!(DraftError::Longitude.message(), "Lon must be -180..180");
    assert_eq!(DraftError::Height.message(), "Height must be a number");
}

#[test]
fn escape_leaves_new_location_form_for_picker() {
    let mut c = three();
    press(&mut c, ch('L'));
    press(&mut c, ch('n'));
    assert!(press(&mut c, key(KeyCode::Esc)).is_empty());
    assert_eq!(c.input_mode(), InputMode::LocationPicker);
    assert!(c.new_loc_draft().is_none());
    press(&mut c, key(KeyCode::Esc));
    assert_eq!(c.input_mode(), InputMode::Normal);
}

#[test]
fn editing_datetime() {
    let mut c = three();
    press(&mut c, ch('T'));
    assert_eq!(c.input_mode(), InputMode::EditingDatetime);
    assert_eq!(c.input_buf(), "2026-03-11 16:00");
    press(&mut c, ch('x'));
    press(&mut c, key(KeyCode::Backspace));
    assert_eq!(c.input_buf(), "2026-03-11 16:00");
    let e = press(&mut c, key(KeyCode::Enter));
    assert!(matches!(e.as_slice(), [Effect::SetClock(1773244800), Effect::Recompute, Effect::FetchWeather]));
    assert_eq!(c.input_buf(), "");
    assert_eq!(c.input_mode(), InputMode::Normal);
    assert!(c.time_paused());
    assert!(!c.live_mode());
    assert!(matches!(c.tick(), Tick::Hold));
}

#[test]
fn typed_time_that_does_not_parse_changes_no_clock() {
    let mut c = three();
    press(&mut c, ch('n'));
    press(&mut c, ch('t'));
    for _ in 0..6 {
        press(&mut c, key(KeyCode::Backspace));
    }
    press(&mut c, ch('x'));
    assert_eq!(c.input_buf(), "2026-03-11x");
    let e = press(&mut c, key(KeyCode::Enter));
    assert!(matches!(e.as_slice(), [Effect::Recompute, Effect::FetchWeather]));
    assert!(c.live_mode());
    assert!(!c.time_paused());
    assert_eq!(c.input_mode(), InputMode::Normal);
}

#[test]
fn apply_datetime_reads_utc() {
    let mut c = three();
    assert_eq!(c.apply_datetime("2026-03-11 21:00"), Some(1773262800));
    assert!(c.time_paused());
    assert!(!c.live_mode());
    assert_eq!(c.apply_datetime("1970-01-01 00:01"), Some(60));
    assert_eq!(c.apply_datetime("2026-02-30 10:00"), None);
    assert_eq!(c.apply_datetime("2026-03-11 24:00"), None);
    assert_eq!(c.apply_datetime("11/03/2026 21:00"), None);
    assert_eq!(c.apply_datetime(""), None);
    let mut live = three();
    press(&mut live, ch(' '));
    assert_eq!(live.apply_datetime("noon"), None);
    assert!(live.live_mode());
    assert!(!live.time_paused());
}

#[test]
fn central_time_dst_after_spring_forward() {
    // 21:00 UTC on 2026-03-11, after the US spring-forward, is 16:00 CDT
    let mut c = three();
    let secs = c.apply_datetime("2026-03-11 21:00").unwrap();
    let tz = "America/Chicago".parse::<chrono_tz::Tz>().unwrap();
    let local = tz.timestamp_opt(secs, 0).single().unwrap();
    assert_eq!(local.format("%H:%M %Z").to_string(), "16:00 CDT");
}

#[test]
fn editing_timezone() {
    let mut c = three();
    press(&mut c, ch('z'));
    for _ in 0.."Chicago".len() {
        press(&mut c, key(KeyCode::Backspace));
    }
    for ch_ in "Denver".chars() {
        press(&mut c, ch(ch_));
    }
    let e = press(&mut c, key(KeyCode::Enter));
    match e.as_slice() {
        [Effect::SetTimezone(t), Effect::Recompute] => assert_eq!(t, "America/Denver"),
        other => panic!("unexpected effects {:?}", other),
    }
    assert!(!c.weather_loading());
    assert_eq!(c.input_mode(), InputMode::Normal);
}

#[test]
fn unknown_timezone_is_not_taken() {
    let mut c = three();
    press(&mut c, ch('Z'));
    for ch_ in "/Atlantis".chars() {
        press(&mut c, ch(ch_));
    }
    let e = press(&mut c, key(KeyCode::Enter));
    assert!(matches!(e.as_slice(), [Effect::Recompute]));
    assert_eq!(c.input_mode(), InputMode::Normal);
    assert_eq!(c.input_buf(), "");
}

#[test]
fn almanac_body_picker() {
    let mut c = three();
    press(&mut c, ch('a'));
    c.sync_body_selection(9);
    assert_eq!(*c.selected_bodies(), vec![true; 9]);
    assert!(!c.almanac_show_times());
    press(&mut c, ch('b'));
    assert_eq!(c.input_mode(), InputMode::AlmanacBodyPicker);
    press(&mut c, key(KeyCode::Up));
    assert_eq!(c.almanac_picker_sel(), 8);
    press(&mut c, ch('j'));
    assert_eq!(c.almanac_picker_sel(), 0);
    press(&mut c, ch(' '));
    assert!(!c.selected_bodies()[0]);
    c.sync_body_selection(11);
    assert_eq!(c.selected_bodies().len(), 11);
    assert!(!c.selected_bodies()[0]);
    assert!(c.selected_bodies()[10]);
    c.sync_body_selection(3);
    assert_eq!(c.selected_bodies().len(), 11);
}

#[test]
fn switch_location_checks_range() {
    let mut c = three();
    assert!(!c.switch_location(3));
    assert_eq!(c.location_index(), 0);
    assert!(c.switch_location(1));
    assert_eq!(c.location_index(), 1);
}

#[test]
fn latitude_editor() {
    let mut c = three();
    assert!(press(&mut c, ch('l')).is_empty());
    assert_eq!(c.input_mode(), InputMode::EditingLatitude);
    assert_eq!(c.input_buf(), "40.71");
    for _ in 0..5 {
        press(&mut c, key(KeyCode::Backspace));
    }
    for ch_ in "51.5".chars() {
        press(&mut c, ch(ch_));
    }
    let e = press(&mut c, key(KeyCode::Enter));
    match e.as_slice() {
        [Effect::SetLatitude(t), Effect::Recompute, Effect::FetchWeather] => assert_eq!(t, "51.5"),
        other => panic!("unexpected effects {:?}", other),
    }
    assert_eq!(c.input_mode(), InputMode::Normal);
    assert!(c.weather_loading());
}

#[test]
fn longitude_editor_and_escape() {
    let mut c = three();
    press(&mut c, ch('w'));
    press(&mut c, ch('O'));
    assert_eq!(c.input_mode(), InputMode::EditingLongitude);
    assert_eq!(c.input_buf(), "-74.01");
    press(&mut c, ch('5'));
    let e = press(&mut c, key(KeyCode::Enter));
    match e.as_slice() {
        [Effect::SetLongitude(t), Effect::Recompute, Effect::FetchWeather] => assert_eq!(t, "-74.015"),
        other => panic!("unexpected effects {:?}", other),
    }
    press(&mut c, ch('o'));
    assert!(press(&mut c, key(KeyCode::Esc)).is_empty());
    assert_eq!(c.input_mode(), InputMode::Normal);
    assert_eq!(c.input_buf(), "");
}

#[test]
fn form_backspace_undoes_typing() {
    let mut c = three();
    press(&mut c, ch('L'));
    press(&mut c, ch('n'));
    press(&mut c, ch('R'));
    press(&mut c, ch('i'));
    press(&mut c, ch('o'));
    press(&mut c, ch('!'));
    press(&mut c, key(KeyCode::Backspace));
    assert_eq!(c.new_loc_draft().as_ref().unwrap().bufs[0], "Rio");
    // Backspace on an empty field leaves it empty
    press(&mut c, key(KeyCode::Down));
    press(&mut c, key(KeyCode::Backspace));
    assert_eq!(c.new_loc_draft().as_ref().unwrap().bufs[1], "");
    // the field index stays within the form
    for _ in 0..6 {
        press(&mut c, key(KeyCode::Tab));
    }
    assert_eq!(c.new_loc_draft().as_ref().unwrap().field, 3);
    for _ in 0..6 {
        press(&mut c, key(KeyCode::Up));
    }
    assert_eq!(c.new_loc_draft().as_ref().unwrap().field, 0);
}

#[test]
fn only_q_and_ctrl_c_quit() {
    let mut c = three();
    for k in ['x', 'Q'] {
        let e = press(&mut c, ch(k));
        assert_eq!(e.iter().any(|e| matches!(e, Effect::Quit)), k == 'Q');
    }
    press(&mut c, ch('L'));
    assert!(!press(&mut c, ch('q')).iter().any(|e| matches!(e, Effect::Quit)));
}

#[test]
fn t_edits_time_on_every_tab() {
    for tab_key in ['s', 'w', 'p', 'a'] {
        for t in ['t', 'T'] {
            let mut c = three();
            press(&mut c, ch(tab_key));
            assert!(press(&mut c, ch(t)).is_empty());
            assert_eq!(c.input_mode(), InputMode::EditingDatetime);
            assert_eq!(c.input_buf(), "2026-03-11 16:00");
            assert!(!c.almanac_show_times());
        }
    }
}

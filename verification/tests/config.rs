use stellui::config::{config_base_dir, config_path, configured_or_default, location_args, push_path};

fn strings(v: &[&str]) -> Vec<String> {
    v.iter().map(|s| s.to_string()).collect()
}

#[test]
fn push_path_adds_separator() {
    assert_eq!(push_path("/home/ann".to_string(), ".config"), "/home/ann/.config");
    assert_eq!(push_path("/home/ann/".to_string(), ".config"), "/home/ann/.config");
    assert_eq!(push_path(String::new(), "stellui"), "stellui");
    assert_eq!(push_path("/home/ann".to_string(), "/etc"), "/etc");
}

#[test]
fn config_dir_under_home() {
    assert_eq!(config_base_dir(Some("/home/ann".to_string())), Some("/home/ann/.config".to_string()));
    assert_eq!(config_base_dir(None), None);
}

#[test]
fn config_file_path() {
    assert_eq!(
        config_path(config_base_dir(Some("/home/ann".to_string()))),
        Some("/home/ann/.config/stellui/config.toml".to_string())
    );
    assert_eq!(config_path(None), None);
}

#[test]
fn configured_entries_win() {
    assert_eq!(configured_or_default(vec![1, 2], vec![9]), vec![1, 2]);
    assert_eq!(configured_or_default(Vec::<i32>::new(), vec![9]), vec![9]);
}

#[test]
fn location_args_found() {
    let a = location_args(&strings(&["stellui", "--lat", "41.9", "--lon", "-87.6", "--height", "180"]));
    assert_eq!(a.lat.as_deref(), Some("41.9"));
    assert_eq!(a.lon.as_deref(), Some("-87.6"));
    assert_eq!(a.height.as_deref(), Some("180"));
}

#[test]
fn location_args_last_wins_and_skips_program_name() {
    let a = location_args(&strings(&["--lat", "1", "--lat", "2", "--lat", "3"]));
    // the first element is the program name, so the first "--lat" is not read
    // as a flag; "1" is skipped; then 2, then 3
    assert_eq!(a.lat.as_deref(), Some("3"));
    assert_eq!(a.lon, None);
}

#[test]
fn location_args_flag_without_value() {
    let a = location_args(&strings(&["stellui", "--lon", "5", "--lat"]));
    assert_eq!(a.lat, None);
    assert_eq!(a.lon.as_deref(), Some("5"));
}

#[test]
fn location_args_value_swallows_next_flag() {
    let a = location_args(&strings(&["stellui", "--lat", "--lon", "7"]));
    assert_eq!(a.lat.as_deref(), Some("--lon"));
    assert_eq!(a.lon, None);
}

use stellui::image_render::planet_color_rgb;
use stellui::sky::{almanac_step, ALMANAC_STEPS};

#[test]
fn almanac_step_counts_quarter_hours() {
    assert_eq!(almanac_step(0), 0);
    assert_eq!(almanac_step(14), 0);
    assert_eq!(almanac_step(15), 1);
    assert_eq!(almanac_step(12 * 60 + 7), 48);
    assert_eq!(almanac_step(-30), 0);
    assert_eq!(almanac_step(24 * 60), 95);
    assert_eq!(almanac_step(i64::MAX), ALMANAC_STEPS - 1);
}

#[test]
fn planet_image_colors() {
    assert_eq!(planet_color_rgb("Mercury"), (128, 128, 128));
    assert_eq!(planet_color_rgb("Venus"), (255, 220, 100));
    assert_eq!(planet_color_rgb("Mars"), (200, 50, 50));
    assert_eq!(planet_color_rgb("Jupiter"), (220, 200, 180));
    assert_eq!(planet_color_rgb("Saturn"), (200, 180, 100));
    assert_eq!(planet_color_rgb("Uranus"), (100, 220, 220));
    assert_eq!(planet_color_rgb("Neptune"), (100, 100, 220));
    assert_eq!(planet_color_rgb("Pluto"), (255, 255, 255));
    assert_eq!(planet_color_rgb("mars"), (255, 255, 255));
}

use snip::theme::color::ThemeColor;
use snip::theme::contrast::contrast;
use snip::theme::surface::{derive_bar_pill_surfaces, BAR_CONTRAST_FLOOR, PILL_CONTRAST_FLOOR};
use snip::theme::Appearance;

#[test]
fn requires_rgb_sources_and_canvas() {
    assert!(
        derive_bar_pill_surfaces(
            ThemeColor::Terminal,
            ThemeColor::Rgb(255, 255, 255),
            Appearance::Light,
        )
        .unwrap_err()
        .to_string()
        .contains("both colors must be #rrggbb")
    );
}

#[test]
fn surfaces_step_away_from_the_canvas_in_both_appearances() {
    let dark = derive_bar_pill_surfaces(ThemeColor::Rgb(20, 20, 20), ThemeColor::Rgb(10, 10, 10), Appearance::Dark)
        .unwrap();
    let light =
        derive_bar_pill_surfaces(ThemeColor::Rgb(245, 245, 245), ThemeColor::Rgb(255, 255, 255), Appearance::Light)
            .unwrap();
    for (surfaces, canvas) in [(dark, ThemeColor::Rgb(10, 10, 10)), (light, ThemeColor::Rgb(255, 255, 255))] {
        assert_ne!(surfaces.bar_bg, canvas);
        assert_ne!(surfaces.pill_secondary, surfaces.bar_bg);
    }
}

#[test]
fn derives_the_same_canvas_bar_pill_ladder_for_both_appearances() {
    for (source, canvas, appearance) in [
        (ThemeColor::Rgb(20, 20, 20), ThemeColor::Rgb(10, 10, 10), Appearance::Dark),
        (ThemeColor::Rgb(245, 245, 245), ThemeColor::Rgb(255, 255, 255), Appearance::Light),
    ] {
        let surfaces = derive_bar_pill_surfaces(source, canvas, appearance).unwrap();
        assert!(contrast(surfaces.bar_bg, canvas).unwrap().at_least(u128::from(BAR_CONTRAST_FLOOR), 100));
        assert!(contrast(surfaces.pill_secondary, surfaces.bar_bg)
            .unwrap()
            .at_least(u128::from(PILL_CONTRAST_FLOOR), 100));
        assert!(contrast(surfaces.pill_secondary, canvas)
            .unwrap()
            .exceeds(contrast(surfaces.bar_bg, canvas).unwrap()));
    }
}

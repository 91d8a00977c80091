use snip::theme::color::{NamedColor, ThemeColor};
use snip::theme::contrast::{contrast, ensure_contrast, mix_step};

#[test]
fn parses_every_color_form_and_boundaries() {
    assert_eq!(
        ThemeColor::parse("#f0a", "accent").unwrap(),
        ThemeColor::Rgb(255, 0, 170)
    );
    assert_eq!(
        ThemeColor::parse("#A0b1C2", "accent").unwrap(),
        ThemeColor::Rgb(160, 177, 194)
    );
    assert_eq!(
        ThemeColor::parse("ansi:0", "accent").unwrap(),
        ThemeColor::Indexed(0)
    );
    assert_eq!(
        ThemeColor::parse("ansi:255", "accent").unwrap(),
        ThemeColor::Indexed(255)
    );
    assert_eq!(
        ThemeColor::parse("Red", "accent").unwrap(),
        ThemeColor::Named(NamedColor::Red)
    );
    assert_eq!(
        ThemeColor::parse("terminal", "background").unwrap(),
        ThemeColor::Terminal
    );
    assert_eq!(
        ThemeColor::parse("TERMINAL", "foreground").unwrap(),
        ThemeColor::Terminal
    );
}

#[test]
fn rejects_invalid_colors_and_terminal_roles() {
    for value in ["ansi:256", "#gggggg", "#abcd", ""] {
        assert!(ThemeColor::parse(value, "accent").is_err(), "{value}");
    }
    assert_eq!(
        ThemeColor::parse("terminal", "accent")
            .unwrap_err()
            .to_string(),
        "color role accent cannot be \"terminal\""
    );
}

#[test]
fn serialization_round_trips_every_variant() {
    for color in [
        ThemeColor::Rgb(1, 2, 3),
        ThemeColor::Indexed(42),
        ThemeColor::Named(NamedColor::BrightCyan),
        ThemeColor::Terminal,
    ] {
        let role = if color == ThemeColor::Terminal {
            "background"
        } else {
            "accent"
        };
        assert_eq!(ThemeColor::parse(&color.as_string(), role).unwrap(), color);
    }
}

#[test]
fn as_string_writes_each_form() {
    assert_eq!(ThemeColor::Rgb(10, 171, 255).as_string(), "#0aabff");
    assert_eq!(ThemeColor::Indexed(7).as_string(), "ansi:7");
    assert_eq!(ThemeColor::Named(NamedColor::BrightBlack).as_string(), "bright-black");
    assert_eq!(ThemeColor::Terminal.as_string(), "terminal");
}

#[test]
fn parse_accepts_plus_signs_and_leading_zeros_as_std_does() {
    assert_eq!(ThemeColor::parse("#+f+f+f", "accent").unwrap(), ThemeColor::Rgb(15, 15, 15));
    assert_eq!(ThemeColor::parse("ansi:+007", "accent").unwrap(), ThemeColor::Indexed(7));
    assert!(ThemeColor::parse("ansi:", "accent").is_err());
    assert!(ThemeColor::parse("Ansi:3", "accent").is_err());
}

#[test]
fn invalid_color_message_names_value_and_role() {
    assert_eq!(
        ThemeColor::parse("nope", "tag").unwrap_err().to_string(),
        "invalid color \"nope\" for tag: expected #rgb, #rrggbb, ansi:N, an ANSI color name, or \"terminal\""
    );
}

#[test]
fn ensure_contrast_returns_or_adjusts_rgb_colors() {
    let white = ThemeColor::Rgb(255, 255, 255);
    let black = ThemeColor::Rgb(0, 0, 0);
    assert_eq!(ensure_contrast(white, black, 45).unwrap(), white);

    let lightened = ensure_contrast(ThemeColor::Rgb(40, 40, 40), ThemeColor::Rgb(20, 20, 20), 45).unwrap();
    assert!(contrast(lightened, ThemeColor::Rgb(20, 20, 20)).unwrap().at_least(45, 10));
    let darkened = ensure_contrast(ThemeColor::Rgb(220, 220, 220), ThemeColor::Rgb(240, 240, 240), 45).unwrap();
    assert!(contrast(darkened, ThemeColor::Rgb(240, 240, 240)).unwrap().at_least(45, 10));
    assert!(ensure_contrast(ThemeColor::Named(NamedColor::White), black, 45).is_err());
}

#[test]
fn mix_preserves_endpoints_and_rounds_the_midpoint() {
    let from = ThemeColor::Rgb(10, 20, 30);
    let to = ThemeColor::Rgb(110, 220, 130);

    assert_eq!(mix_step(from, to, 0).unwrap(), from);
    assert_eq!(mix_step(from, to, 255).unwrap(), to);
    assert_eq!(mix_step(from, to, 128).unwrap(), ThemeColor::Rgb(60, 120, 80));
}

#[test]
fn named_colors_have_distinct_names_that_read_back_in_either_case() {
    let all = [
        NamedColor::Black,
        NamedColor::Red,
        NamedColor::Green,
        NamedColor::Yellow,
        NamedColor::Blue,
        NamedColor::Magenta,
        NamedColor::Cyan,
        NamedColor::White,
        NamedColor::BrightBlack,
        NamedColor::BrightRed,
        NamedColor::BrightGreen,
        NamedColor::BrightYellow,
        NamedColor::BrightBlue,
        NamedColor::BrightMagenta,
        NamedColor::BrightCyan,
        NamedColor::BrightWhite,
    ];
    let names: Vec<&str> = all.iter().map(|c| c.as_str()).collect();
    for (i, name) in names.iter().enumerate() {
        assert!(names[i + 1..].iter().all(|other| other != name));
        assert_eq!(NamedColor::parse(name), Some(all[i]));
        assert_eq!(NamedColor::parse(&name.to_ascii_uppercase()), Some(all[i]));
    }
    assert_eq!(NamedColor::Red.as_str(), "red");
    assert_eq!(NamedColor::BrightBlack.as_str(), "bright-black");
    assert_eq!(NamedColor::BrightWhite.as_str(), "bright-white");
}

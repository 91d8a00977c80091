use snip::theme::select::{
    configured_theme_name, default_theme_name, environment_appearance, environment_theme, host_appearance,
    resolve_appearance_with, slot_warning, theme_step, ThemeAttempt, ThemeStep, TuiThemeSetting,
};
use snip::theme::Appearance;

#[test]
fn the_environment_names_an_appearance_or_a_theme() {
    assert_eq!(environment_appearance(Some("LIGHT")), Some(Appearance::Light));
    assert_eq!(environment_appearance(Some("dark")), Some(Appearance::Dark));
    assert_eq!(environment_appearance(Some("dark-nord")), None);
    assert_eq!(environment_theme(Some("light")), None);
    assert_eq!(environment_theme(Some("Dark")), None);
    assert_eq!(environment_theme(Some("")), None);
    assert_eq!(environment_theme(Some("light-gruvbox")), Some("light-gruvbox"));
    assert_eq!(environment_theme(None), None);
}

#[test]
fn the_appearance_follows_environment_then_setting_then_host() {
    assert_eq!(resolve_appearance_with(TuiThemeSetting::Dark, Some("light"), Appearance::Dark), Appearance::Light);
    assert_eq!(resolve_appearance_with(TuiThemeSetting::Light, None, Appearance::Dark), Appearance::Light);
    assert_eq!(resolve_appearance_with(TuiThemeSetting::Auto, Some("nord"), Appearance::Light), Appearance::Light);
    assert_eq!(host_appearance(Some("Adwaita:DARK"), Some("15;0")), Appearance::Dark);
    assert_eq!(host_appearance(None, Some("15;0")), Appearance::Dark);
    assert_eq!(host_appearance(None, Some("0;15")), Appearance::Light);
    assert_eq!(host_appearance(None, Some("0;default;8")), Appearance::Dark);
    assert_eq!(host_appearance(Some("Adwaita"), Some("0;x")), Appearance::Dark);
    assert_eq!(host_appearance(None, Some("7")), Appearance::Light);
    assert_eq!(host_appearance(None, None), Appearance::Dark);
}

#[test]
fn slots_name_their_default_and_configured_themes() {
    assert_eq!(default_theme_name(Appearance::Light), "light-default");
    assert_eq!(default_theme_name(Appearance::Dark), "dark-default");
    assert_eq!(configured_theme_name(Appearance::Dark, Some("light-x"), Some("dark-nord")), "dark-nord");
    assert_eq!(configured_theme_name(Appearance::Light, None, Some("dark-nord")), "light-default");
}

#[test]
fn a_theme_in_the_wrong_slot_is_warned_about() {
    let theme = snip::theme::Theme {
        schema_version: 1,
        name: "dark-nord".to_owned(),
        display_name: "Nord".to_owned(),
        appearance: Appearance::Dark,
        source: None,
        ui: snip::theme::resolve::empty_ui(),
        syntax: snip::theme::Syntax::Derive { derive: snip::theme::SyntaxDerive::Base16 },
        palette: None,
    };
    assert_eq!(slot_warning(&theme, Appearance::Dark), None);
    assert_eq!(
        slot_warning(&theme, Appearance::Light).unwrap(),
        "theme dark-nord is a dark theme in the light slot"
    );
}

fn loaded(name: &str, appearance: Appearance, warnings: &[&str]) -> ThemeAttempt {
    ThemeAttempt::Loaded {
        name: name.to_owned(),
        appearance,
        warnings: warnings.iter().map(|w| (*w).to_owned()).collect(),
    }
}

fn failed(message: &str) -> ThemeAttempt {
    ThemeAttempt::Failed { message: message.to_owned() }
}

fn step(environment: Option<&str>, attempts: &Vec<ThemeAttempt>) -> ThemeStep {
    theme_step(environment, Appearance::Dark, None, Some("dark-nord"), attempts)
}

#[test]
fn a_theme_the_environment_names_wins_without_a_slot_warning() {
    let mut attempts = Vec::new();
    assert!(matches!(step(Some("light-gruvbox"), &attempts), ThemeStep::Try { name } if name == "light-gruvbox"));
    attempts.push(loaded("light-gruvbox", Appearance::Light, &[]));
    match step(Some("light-gruvbox"), &attempts) {
        ThemeStep::Use { attempt, warnings } => {
            assert_eq!(attempt, 0);
            assert!(warnings.is_empty());
        }
        _ => panic!("expected the environment's theme"),
    }
}

#[test]
fn an_unknown_environment_theme_warns_and_the_slot_decides() {
    let mut attempts = vec![failed("unknown theme nope")];
    assert!(matches!(step(Some("nope"), &attempts), ThemeStep::Try { name } if name == "dark-nord"));
    attempts.push(loaded("dark-nord", Appearance::Dark, &["theme dark-nord: role-legibility: below 3.0: tag"]));
    match step(Some("nope"), &attempts) {
        ThemeStep::Use { attempt, warnings } => {
            assert_eq!(attempt, 1);
            assert_eq!(
                warnings,
                vec!["unknown theme nope".to_owned(), "theme dark-nord: role-legibility: below 3.0: tag".to_owned()]
            );
        }
        _ => panic!("expected the configured theme"),
    }
}

#[test]
fn a_failed_configured_theme_falls_back_to_the_default_and_warns_about_slots() {
    let mut attempts = vec![failed("theme dark-nord: broken")];
    assert!(matches!(step(Some("dark"), &attempts), ThemeStep::Fallback { name } if name == "dark-default"));
    attempts.push(loaded("dark-default", Appearance::Dark, &[]));
    match step(Some("dark"), &attempts) {
        ThemeStep::Use { attempt, warnings } => {
            assert_eq!(attempt, 1);
            assert_eq!(warnings, vec!["theme dark-nord: broken".to_owned()]);
        }
        _ => panic!("expected the default theme"),
    }
    let light_in_dark = vec![loaded("solar", Appearance::Light, &[])];
    match step(None, &light_in_dark) {
        ThemeStep::Use { warnings, .. } => {
            assert_eq!(warnings, vec!["theme solar is a light theme in the dark slot".to_owned()]);
        }
        _ => panic!("expected the configured theme"),
    }
}

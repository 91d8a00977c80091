use snip::theme::base16::parse_scheme;
use snip::theme::Appearance;

const NORD: &str = "system: \"base16\"\nname: \"Nord\"\nauthor: \"arcticicestudio\"\nvariant: \"dark\"\npalette:\n  base00: \"#2E3440\"\n  base01: \"#3B4252\"\n  base02: \"#434C5E\"\n  base03: \"#4C566A\"\n  base04: \"#D8DEE9\"\n  base05: \"#E5E9F0\"\n  base06: \"#ECEFF4\"\n  base07: \"#8FBCBB\"\n  base08: \"#BF616A\"\n  base09: \"#D08770\"\n  base0A: \"#EBCB8B\"\n  base0B: \"#A3BE8C\"\n  base0C: \"#88C0D0\"\n  base0D: \"#81A1C1\"\n  base0E: \"#B48EAD\"\n  base0F: \"#5E81AC\"\n";

#[test]
fn parses_nord_and_base24_variants() {
    let scheme = parse_scheme(NORD).unwrap();
    assert_eq!(scheme.name, "Nord");
    assert_eq!(scheme.variant, Some(Appearance::Dark));
    assert_eq!(scheme.palette.len(), 16);
    let base24 = format!("{NORD}\n  base10: #010101\n  base17: #020202\n");
    assert_eq!(parse_scheme(&base24).unwrap().palette.len(), 16);
}

#[test]
fn parser_accepts_flat_conveniences_and_rejects_invalid_data() {
    let text = "system: base16\nauthor: Someone\nname: 'Nord'\nvariant: DARK\npalette:\n  # comment\n\n  base00: #2e3440\n  base01: '#3b4252'\n  base02: #434c5e\n  base03: #4c566a\n  base04: #d8dee9\n  base05: #e5e9f0\n  base06: #eceff4\n  base07: #8fbcbb\n  base08: #bf616a\n  base09: #d08770\n  base0A: #ebcb8b\n  base0B: #a3be8c\n  base0C: #88c0d0\n  base0D: #81a1c1\n  base0E: #b48ead\n  base0F: #5e81ac\n";
    assert_eq!(parse_scheme(text).unwrap().name, "Nord");
    assert_eq!(parse_scheme(&format!("---\n{text}")).unwrap().name, "Nord");
    assert!(
        parse_scheme(&text.replace("base0A", "base0a"))
            .unwrap_err()
            .to_string()
            .contains("base0A")
    );
    assert!(
        parse_scheme(&text.replace("  base00", "\tbase00"))
            .unwrap_err()
            .to_string()
            .contains("line 8")
    );
    assert!(
        parse_scheme(&format!("{text}  base00: #000000\n"))
            .unwrap_err()
            .to_string()
            .contains("duplicate key base00")
    );
    assert!(
        parse_scheme(&text.replace("variant: DARK", "variant: sideways"))
            .unwrap_err()
            .to_string()
            .contains("invalid variant")
    );
}

#[test]
fn scheme_errors_name_what_is_missing() {
    assert_eq!(parse_scheme("").unwrap_err().to_string(), "scheme: missing name");
    assert_eq!(
        parse_scheme("name: x\n").unwrap_err().to_string(),
        "scheme: missing palette key base00"
    );
    assert_eq!(
        parse_scheme("name: x\npalette:\n  base00: #000000\n").unwrap_err().to_string(),
        "scheme: missing palette key base01"
    );
    assert_eq!(
        parse_scheme("name: x\npalette: 3\n").unwrap_err().to_string(),
        "scheme: cannot parse line 2: palette: 3"
    );
    assert_eq!(
        parse_scheme("name: x\nno colon\n").unwrap_err().to_string(),
        "scheme: cannot parse line 2: no colon"
    );
    assert_eq!(
        parse_scheme("name: x\npalette:\n  base00: red\n").unwrap_err().to_string(),
        "scheme: palette base00 must be a #rrggbb literal"
    );
}

#[test]
fn quoted_values_keep_only_the_quoted_part() {
    let mut text = String::from("name: \"Quoted\" # a comment\r\nvariant: Light\npalette:\n");
    for slot in ["00", "01", "02", "03", "04", "05", "06", "07", "08", "09", "0A", "0B", "0C", "0D", "0E", "0F"] {
        text.push_str(&format!("  base{slot}: \"#0a0b0c\"\n"));
    }
    let scheme = parse_scheme(&text).unwrap();
    assert_eq!(scheme.name, "Quoted");
    assert_eq!(scheme.variant, Some(Appearance::Light));
    assert_eq!(scheme.palette[10].0, "base0A");
}

#[test]
fn conversion_rejects_low_selection_contrast() {
    let scheme = parse_scheme("name: Grey\npalette:\n  base00: #777777\n  base01: #777777\n  base02: #777777\n  base03: #777777\n  base04: #777777\n  base05: #777777\n  base06: #777777\n  base07: #777777\n  base08: #777777\n  base09: #777777\n  base0A: #777777\n  base0B: #777777\n  base0C: #777777\n  base0D: #777777\n  base0E: #777777\n  base0F: #777777\n").unwrap();
    assert!(
        snip::theme::base16::scheme_to_theme(&scheme, "grey", "base16:grey", None)
            .unwrap_err()
            .to_string()
            .contains("selection contrast")
    );
}

#[test]
fn nord_converts_to_a_standalone_theme() {
    let scheme = parse_scheme(NORD).unwrap();
    let theme = snip::theme::base16::scheme_to_theme(&scheme, "nord-copy", "base16:nord", None).unwrap();
    assert_eq!(theme.name, "nord-copy");
    assert_eq!(theme.display_name, "Nord");
    assert_eq!(theme.appearance, Appearance::Dark);
    assert_eq!(theme.source.as_deref(), Some("base16:nord"));
    assert_eq!(theme.ui.background, snip::theme::color::ThemeColor::Rgb(0x2e, 0x34, 0x40));
    assert_eq!(theme.palette.as_ref().unwrap().colors.len(), 16);
    assert!(snip::theme::base16::scheme_to_theme(&scheme, "nord-copy", "base16:nord", Some("NotATheme")).is_err());
    assert!(snip::theme::base16::scheme_to_theme(&scheme, "Not A Name", "base16:nord", None).is_err());
}

#[test]
fn extra_palette_keys_leave_the_parse_unchanged() {
    let extended = format!("{NORD}  base10: #010101\n");
    assert_eq!(parse_scheme(&extended).unwrap(), parse_scheme(NORD).unwrap());
    let unnamed = NORD.replace("name: \"Nord\"\n", "");
    let unnamed_extended = format!("{unnamed}  base17: \"#020202\"\n");
    let (a, b) = (parse_scheme(&unnamed).unwrap_err(), parse_scheme(&unnamed_extended).unwrap_err());
    assert_eq!((a.kind, a.to_string()), (b.kind, b.to_string()));
    assert_eq!(a.to_string(), "scheme: missing name");
}

use snip::tui::command::by_slug;
use snip::tui::help::filter::{
    combine_match, field_indices, filter_rows, first_matched, hidden_fields_of, match_row, HelpRowText,
};
use snip::tui::help::state::{HelpRowId, HelpState};
use snip::tui::help::{HelpGroup, HiddenMatch, Mode};

fn row(slug: &str, description: &str, title: &str, keywords: &[&str]) -> HelpRowText {
    HelpRowText {
        group: HelpGroup::Mode(Mode::Global),
        key: "Ctrl+T".to_owned(),
        slug: slug.to_owned(),
        description: description.to_owned(),
        title: title.to_owned(),
        category: "View".to_owned(),
        keywords: keywords.iter().map(|k| (*k).to_owned()).collect(),
        aliases: vec!["appearance".to_owned()],
    }
}

fn rows() -> Vec<HelpRowText> {
    vec![
        row("view.cycle-appearance", "Cycle light/dark appearance", "Cycle Appearance", &["theme", "force"]),
        row("snippet.rename", "Rename the snippet", "Rename", &["title"]),
        row("git.toggle-console", "Show the git console", "Git Console", &["backup"]),
    ]
}

#[test]
fn filter_matches_hidden_fields_and_preserves_selection() {
    let rows = rows();
    let ids: Vec<HelpRowId> =
        rows.iter().map(|row| HelpRowId::Command { source_mode: Mode::Global, id: by_slug(&row.slug).unwrap() }).collect();
    let mut state = HelpState::default();
    state.open(vec![Mode::List, Mode::Global], ids.clone());
    state.move_selection(0);
    state.filter = "force".to_owned();
    let kept = filter_rows(&rows, &state.filter);
    state.show_rows(kept.iter().map(|(index, _)| ids[*index]).collect());
    assert!(kept.iter().any(|(index, _)| rows[*index].slug == "view.cycle-appearance"));
    assert!(kept.iter().any(|(_, matched)| matched.hidden_reason.is_some()));
    assert_eq!(state.visible[state.selected], ids[0]);
}

#[test]
fn a_hidden_field_is_named_only_where_no_shown_field_matched() {
    let rows = rows();
    let matched = match_row(&rows[0], "force").unwrap();
    let hidden = matched.hidden_reason.unwrap();
    assert_eq!((hidden.field, hidden.value.as_str()), ("keyword", "force"));
    assert!(matched.slug_indices.is_empty() && matched.description_indices.is_empty());

    let shown = match_row(&rows[0], "cycle").unwrap();
    assert!(shown.hidden_reason.is_none());
    assert!(!shown.slug_indices.is_empty());
    assert!(!shown.description_indices.is_empty());

    assert!(match_row(&rows[1], "zzzz").is_none());
    let by_alias = match_row(&rows[1], "appearance").unwrap().hidden_reason.unwrap();
    assert_eq!((by_alias.field, by_alias.value.as_str()), ("alias", "appearance"));
}

#[test]
fn blank_filters_keep_every_row_and_others_keep_the_matching_ones() {
    let rows = rows();
    let all = filter_rows(&rows, "   ");
    assert_eq!(all.iter().map(|(index, _)| *index).collect::<Vec<_>>(), vec![0, 1, 2]);
    assert!(all.iter().all(|(_, m)| m.hidden_reason.is_none() && m.slug_indices.is_empty()));
    let git = filter_rows(&rows, " console ");
    assert_eq!(git.iter().map(|(index, _)| *index).collect::<Vec<_>>(), vec![2]);
    assert!(filter_rows(&rows, "qqqq").is_empty());
}

#[test]
fn fields_match_where_the_matcher_finds_the_query() {
    assert_eq!(field_indices("x", ""), None);
    assert_eq!(field_indices("cyc", "view.cycle-appearance"), Some(vec![5, 6, 7]));
    assert_eq!(field_indices("CYC", "view.cycle-appearance"), Some(vec![5, 6, 7]));
    assert_eq!(field_indices("zz", "view.cycle-appearance"), None);
}

#[test]
fn matches_combine_shown_fields_before_hidden_ones() {
    let hidden = || Some(HiddenMatch { field: "title", value: "Rename".to_owned() });
    assert!(combine_match(None, None, None, None, None).is_none());
    let only_hidden = combine_match(None, None, None, None, hidden()).unwrap();
    assert_eq!(only_hidden.hidden_reason.unwrap().value, "Rename");
    assert!(only_hidden.group_indices.is_empty() && only_hidden.key_indices.is_empty());
    let slug = combine_match(None, None, Some(vec![0, 2]), None, None).unwrap();
    assert_eq!(slug.slug_indices, vec![0, 2]);
    assert!(slug.hidden_reason.is_none() && slug.description_indices.is_empty());
    let empty_match = combine_match(None, Some(Vec::new()), None, None, None).unwrap();
    assert!(empty_match.key_indices.is_empty());
}

#[test]
fn the_first_marked_hidden_field_is_the_reason() {
    let fields = hidden_fields_of(&rows()[0]);
    let names = fields.iter().map(|(name, value)| format!("{name}={value}")).collect::<Vec<_>>();
    assert_eq!(
        names,
        vec!["title=Cycle Appearance", "category=View", "keyword=theme", "keyword=force", "alias=appearance"]
    );
    let reason = first_matched(&fields, &vec![false, false, false, true, true]).unwrap();
    assert_eq!((reason.field, reason.value.as_str()), ("keyword", "force"));
    assert!(first_matched(&fields, &vec![false; 5]).is_none());
}

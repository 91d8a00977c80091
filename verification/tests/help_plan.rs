use snip::tui::help::plan::{build_render_plan, build_render_plan_with_selection, HelpPlan, PlanLine, PlanRow};
use snip::tui::help::{HelpGroup, Mode};

fn row(group: HelpGroup, key: &str, slug: &str, description: &str) -> PlanRow {
    PlanRow {
        group,
        key: key.to_owned(),
        user_modified: false,
        slug: slug.to_owned(),
        description: description.to_owned(),
        hidden: None,
    }
}

/// Sample rows of the list mode and inherited global bindings.
fn list_rows() -> Vec<PlanRow> {
    vec![
        row(HelpGroup::Mode(Mode::List), "Enter", "snippet.open", "Open the selected snippet in the editor"),
        row(HelpGroup::Mode(Mode::List), "r", "snippet.rename", "Rename the selected snippet"),
        row(HelpGroup::Mode(Mode::List), "Ctrl+Shift+O", "snippet.open-in-gui-editor", "Open the selected snippet in the GUI editor"),
        row(HelpGroup::Inherited, "q", "app.quit", "Quit"),
    ]
}

fn line_text(line: &PlanLine) -> String {
    let cell = |w: &Option<snip::tui::help::WrappedLine>| w.as_ref().map_or(String::new(), |w| w.text.clone());
    match line {
        PlanLine::Blank => String::new(),
        PlanLine::Header { group, count, indent } => {
            format!("{}── {} ({count}) ──", " ".repeat(*indent), group.label())
        }
        PlanLine::Wide { key, slug, description, .. } => {
            format!("{} {} {}", cell(key), cell(slug), cell(description))
        }
        PlanLine::Narrow { key, description, .. } => format!("{} {}", cell(key), cell(description)),
        PlanLine::Slug { text, .. } => format!("  {}", text.text),
        PlanLine::Note { indent, text, .. } => format!("{}{}", " ".repeat(*indent), text.text),
    }
}

fn row_lines(plan: &HelpPlan, index: usize) -> Vec<String> {
    let (from, to) = plan.row_line_ranges[index];
    plan.lines[from..to].iter().map(line_text).collect()
}

fn normalized(text: &str) -> String {
    text.chars().filter(|c| !c.is_whitespace()).collect()
}

#[test]
fn real_rows_never_ellipsize_and_narrow_rows_put_the_slug_below() {
    let rows = list_rows();
    let plan = build_render_plan(54, &rows);
    assert!(!plan.columns.wide);
    assert!(plan.lines.iter().all(|line| !line_text(line).contains('…')));
    let index = rows.iter().position(|row| row.slug == "snippet.rename").unwrap();
    let rendered = row_lines(&plan, index);
    assert!(!rendered[0].contains("snippet.rename"));
    assert!(rendered.iter().skip(1).any(|line| line.contains("snippet.rename")));
}

#[test]
fn selected_hidden_match_note_wraps_in_wide_and_narrow_layouts() {
    let mut selected = list_rows().remove(0);
    let value = "强制主题匹配字段非常长而且不能因为终端宽度不足就消失".repeat(3);
    selected.hidden = Some(("keyword".to_owned(), value.clone()));
    let note = format!("matched keyword: {value}");
    let rows = vec![selected];
    for width in [100, 30] {
        let plan = build_render_plan_with_selection(width, &rows, 0);
        let rendered = row_lines(&plan, 0).join("\n");
        assert!(normalized(&rendered).contains(&normalized(&note)), "width {width}: {rendered}");
        let (from, to) = plan.row_line_ranges[0];
        assert!(to - from > 2, "width {width}");
    }
}

#[test]
fn custom_bindings_keep_warning_marker_and_selected_note() {
    let mut rebound = list_rows().remove(0);
    rebound.user_modified = true;
    let rows = vec![rebound];
    for width in [100, 30] {
        let unselected = build_render_plan(width, &rows);
        assert!(row_lines(&unselected, 0).join("\n").contains('*'), "width {width}");
        assert!(!row_lines(&unselected, 0).join("\n").contains("custom binding"));
        let selected = build_render_plan_with_selection(width, &rows, 0);
        assert!(row_lines(&selected, 0).join("\n").contains("custom binding"), "width {width}");
    }
}

#[test]
fn wide_layout_keeps_three_columns_and_headings_between_groups() {
    let rows = list_rows();
    let plan = build_render_plan(100, &rows);
    assert!(plan.columns.wide);
    assert_eq!(plan.columns.key, 12);
    assert_eq!(plan.columns.slug, 26);
    assert_eq!(plan.columns.description, 60);
    // A heading, three rows of one line each, a blank line, a heading, a row.
    assert_eq!(plan.lines.len(), 7);
    assert_eq!(plan.row_line_ranges, vec![(1, 2), (2, 3), (3, 4), (6, 7)]);
    assert!(matches!(plan.lines[0], PlanLine::Header { group: HelpGroup::Mode(Mode::List), count: 3, .. }));
    assert!(matches!(plan.lines[4], PlanLine::Blank));
    assert!(matches!(plan.lines[5], PlanLine::Header { group: HelpGroup::Inherited, count: 1, .. }));
    assert!(row_lines(&plan, 1)[0].contains("snippet.rename"));
}

#[test]
fn headings_are_centred_in_the_width() {
    let plan = build_render_plan(40, &vec![row(HelpGroup::Mode(Mode::Git), "c", "git.commit", "Commit")]);
    // "── GIT CONSOLE (1) ──" is 21 columns wide.
    assert!(matches!(plan.lines[0], PlanLine::Header { indent: 9, .. }));
}

#[test]
fn no_rows_lay_out_to_nothing() {
    let plan = build_render_plan(80, &Vec::new());
    assert!(plan.lines.is_empty());
    assert!(plan.row_line_ranges.is_empty());
    assert_eq!((plan.columns.key, plan.columns.slug), (1, 1));
}

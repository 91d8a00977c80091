use snip::tui::bar::{bar_segments, BarSegment, BarState};
use snip::tui::icons::Tone;

fn text(segments: &[BarSegment]) -> String {
    segments.iter().map(|s| s.text.as_str()).collect()
}

#[test]
fn a_prompt_shows_its_label_value_error_and_cursor() {
    let state = BarState::Input {
        label: "Rename".to_owned(),
        value: "héllo".to_owned(),
        cursor: 2,
        error: Some("name taken".to_owned()),
    };
    let (segments, cursor) = bar_segments(&state, 0, 80);
    assert_eq!(text(&segments), "Rename: héllo  ● name taken");
    assert_eq!(segments[0], BarSegment { text: "Rename: ".to_owned(), tone: Tone::Accent, bold: true });
    assert_eq!(segments[3].tone, Tone::Error);
    assert_eq!(cursor, Some(10));
    let past_end = BarState::Input { label: "T".to_owned(), value: "ab".to_owned(), cursor: 9, error: None };
    assert_eq!(bar_segments(&past_end, 4, 80).1, Some(4 + 3 + 2));
}

#[test]
fn questions_pickers_and_statuses_have_no_cursor() {
    let (confirm, cursor) = bar_segments(&BarState::Confirm, 0, 80);
    assert_eq!(text(&confirm), "y/Enter confirm  n/Esc cancel");
    assert_eq!(cursor, None);
    let (picker, _) = bar_segments(&BarState::Picker { filter: "ru".to_owned() }, 0, 80);
    assert_eq!(text(&picker), "/ ru  ↑/↓ move  Enter select  Esc cancel");
    let (failed, _) = bar_segments(&BarState::Status { text: "push failed".to_owned(), failed: true }, 0, 80);
    assert_eq!((failed[0].tone, text(&failed)), (Tone::Error, "● push failed".to_owned()));
    let (fine, _) = bar_segments(&BarState::Status { text: "saved".to_owned(), failed: false }, 0, 80);
    assert_eq!(fine[0].tone, Tone::Success);
    assert!(bar_segments(&BarState::Shortcuts, 0, 80).0.is_empty());
}

#[test]
fn the_search_cursor_follows_the_query_but_stays_in_the_bar() {
    let (segments, cursor) = bar_segments(&BarState::Search { query: "deploy".to_owned() }, 10, 90);
    assert_eq!(text(&segments), "/ deploy");
    assert_eq!(segments[0], BarSegment { text: "/ ".to_owned(), tone: Tone::Warning, bold: true });
    assert_eq!(cursor, Some(18));
    let long = "x".repeat(200);
    assert_eq!(bar_segments(&BarState::Search { query: long }, 10, 90).1, Some(89));
}

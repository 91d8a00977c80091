use snip::tui::gist::{compute, glyph, GistBadge};
use snip::tui::icons::{IconMode, Tone};

const PUSHED: &str = "3f7a1c9e0b2d4f6a8c1e3b5d7f9a2c4e";
const EDITED: &str = "9b1d3f5a7c9e1b3d5f7a9c1e3b5d7f9a";

#[test]
fn a_snippet_with_no_record_yields_none() {
    assert_eq!(compute(None, Some(PUSHED)), None);
}

#[test]
fn a_matching_digest_yields_synced() {
    assert_eq!(compute(Some(Some(PUSHED)), Some(PUSHED)), Some(GistBadge::Synced));
}

#[test]
fn editing_fragment_content_flips_the_same_snippet_to_modified() {
    assert_eq!(compute(Some(Some(PUSHED)), Some(EDITED)), Some(GistBadge::Modified));
}

#[test]
fn a_record_without_a_digest_or_payload_reads_accordingly() {
    assert_eq!(compute(Some(None), Some(PUSHED)), Some(GistBadge::Modified));
    assert_eq!(compute(Some(Some(PUSHED)), None), None);
    assert_eq!(compute(Some(Some("")), Some("")), Some(GistBadge::Synced));
    assert_eq!(compute(Some(Some("abc")), Some("abcd")), Some(GistBadge::Modified));
}

#[test]
fn glyphs_match_the_spec_for_both_icon_modes() {
    assert_eq!(glyph(GistBadge::Synced, IconMode::Ascii), ("G ok", Tone::Muted));
    assert_eq!(glyph(GistBadge::Synced, IconMode::Nerd), ("G✓", Tone::Muted));
    assert_eq!(glyph(GistBadge::Modified, IconMode::Ascii), ("G +", Tone::Warning));
    assert_eq!(glyph(GistBadge::Modified, IconMode::Nerd), ("G✚", Tone::Warning));
}

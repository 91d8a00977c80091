//! The gist badge: whether a snippet's gist still matches what was pushed.
use vstd::prelude::*;

use crate::text::{chars_of, eq_chars};
use crate::tui::icons::{IconMode, Tone};

verus! {

/// Whether a snippet's gist matches what was last pushed.
#[derive(Clone, Copy, Debug, PartialEq, Eq, Structural)]
pub enum GistBadge {
    Synced,
    Modified,
}

/// The badge for a snippet: none without a gist record or when its payload
/// cannot be built; synced when the record's pushed digest is the digest of
/// the payload built now (with the record's own options), modified otherwise.
pub open spec fn badge_spec(record_digest: Option<Option<Seq<char>>>, digest: Option<Seq<char>>) -> Option<GistBadge> {
    match (record_digest, digest) {
        (Some(pushed), Some(now)) => if pushed == Some(now) {
            Some(GistBadge::Synced)
        } else {
            Some(GistBadge::Modified)
        },
        _ => None,
    }
}

/// The badge for a snippet, from its gist record's pushed digest
/// (`record_digest` is `None` when it has no record, `Some(None)` when the
/// record has no digest) and the digest of its payload as built now (`None`
/// when the payload cannot be built).
pub fn compute(record_digest: Option<Option<&str>>, digest: Option<&str>) -> (b: Option<GistBadge>)
    ensures
        b == badge_spec(
            match record_digest {
                Some(Some(d)) => Some(Some(d@)),
                Some(None) => Some(None),
                None => None,
            },
            match digest {
                Some(d) => Some(d@),
                None => None,
            },
        ),
{
    let pushed = match record_digest {
        Some(p) => p,
        None => {
            return None;
        },
    };
    let now = match digest {
        Some(d) => d,
        None => {
            return None;
        },
    };
    let same = match pushed {
        Some(p) => {
            let a = chars_of(p);
            let b = chars_of(now);
            eq_chars(a.as_slice(), b.as_slice())
        },
        None => false,
    };
    if same {
        Some(GistBadge::Synced)
    } else {
        Some(GistBadge::Modified)
    }
}

/// The glyph and theme role of a badge: a check or `ok` for synced, drawn
/// muted; a plus for modified, drawn as a warning.
pub open spec fn glyph_spec(badge: GistBadge, icons: IconMode) -> (Seq<char>, Tone) {
    match (badge, icons) {
        (GistBadge::Synced, IconMode::Nerd) => ("G✓"@, Tone::Muted),
        (GistBadge::Synced, IconMode::Ascii) => ("G ok"@, Tone::Muted),
        (GistBadge::Modified, IconMode::Nerd) => ("G✚"@, Tone::Warning),
        (GistBadge::Modified, IconMode::Ascii) => ("G +"@, Tone::Warning),
    }
}

/// The glyph and theme role of a badge in the given glyph set.
pub fn glyph(badge: GistBadge, icons: IconMode) -> (r: (&'static str, Tone))
    ensures
        r.0@ == glyph_spec(badge, icons).0,
        r.1 == glyph_spec(badge, icons).1,
{
    match (badge, icons) {
        (GistBadge::Synced, IconMode::Nerd) => ("G✓", Tone::Muted),
        (GistBadge::Synced, IconMode::Ascii) => ("G ok", Tone::Muted),
        (GistBadge::Modified, IconMode::Nerd) => ("G✚", Tone::Warning),
        (GistBadge::Modified, IconMode::Ascii) => ("G +", Tone::Warning),
    }
}

} // verus!

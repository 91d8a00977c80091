//! Theme checks: distinct roles, legible contrast, an appearance that matches
//! the background, a background/foreground pair that agree on `terminal`,
//! and a note where the pills' labels fall back to black or white.
use vstd::prelude::*;

use crate::text::{decimal, decimal_string, push_str};
use crate::theme::color::ThemeColor;
use crate::theme::contrast::{
    contrast, contrast_of, fixed2, fixed2_string, hundredths_of, is_dark_luminance,
    lemma_luminance_bounded, luminance, luminance_of, ratio_at_least, reaches_floor, LUMINANCE_UNIT,
};
use crate::theme::{Appearance, Theme, ThemeUi};

verus! {

/// How serious a finding is. A note reports an expected condition and is
/// never shown as a warning.
#[derive(Clone, Copy, Debug, PartialEq, Eq, Structural)]
pub enum Level {
    Pass,
    Note,
    Warn,
    Fail,
}

/// One finding: what was checked, how it came out, and the detail.
#[derive(Clone, Debug, PartialEq, Eq)]
pub struct Check {
    pub id: &'static str,
    pub level: Level,
    pub detail: String,
}

/// A finding, as a spec value.
pub struct CheckView {
    pub id: Seq<char>,
    pub level: Level,
    pub detail: Seq<char>,
}

impl View for Check {
    type V = CheckView;

    open spec fn view(&self) -> CheckView {
        CheckView { id: self.id@, level: self.level, detail: self.detail@ }
    }
}

/// The detail of a check that was skipped.
pub open spec fn skipped_detail() -> Seq<char> {
    "skipped: terminal-defined color"@
}

/// A skipped check.
pub open spec fn skipped_view(id: Seq<char>) -> CheckView {
    CheckView { id, level: Level::Pass, detail: skipped_detail() }
}

/// The roles that should all differ.
pub open spec fn distinct_roles(ui: ThemeUi) -> Seq<ThemeColor> {
    seq![
        ui.accent,
        ui.accent_alt,
        ui.muted,
        ui.selection_bg,
        ui.retained_bg,
        ui.pill_primary,
        ui.pill_secondary,
        ui.tag,
        ui.warning,
        ui.success,
        ui.error,
    ]
}

/// The number of different values in `s`.
pub open spec fn distinct_count(s: Seq<ThemeColor>) -> nat
    decreases s.len(),
{
    if s.len() == 0 {
        0
    } else if s.drop_last().contains(s.last()) {
        distinct_count(s.drop_last())
    } else {
        distinct_count(s.drop_last()) + 1
    }
}

/// The roles-distinct finding.
pub open spec fn roles_distinct_view(ui: ThemeUi) -> CheckView {
    let unique = distinct_count(distinct_roles(ui));
    CheckView {
        id: "roles-distinct"@,
        level: if unique == 11 {
            Level::Pass
        } else {
            Level::Warn
        },
        detail: decimal(unique) + "/11 roles distinct"@,
    }
}

/// A contrast finding at `floor_tenths`, failing with `failure`.
pub open spec fn contrast_view(
    id: Seq<char>,
    foreground: ThemeColor,
    background: ThemeColor,
    floor_tenths: int,
    failure: Level,
) -> CheckView {
    match contrast_of(foreground, background) {
        None => skipped_view(id),
        Some(ratio) => CheckView {
            id,
            level: if ratio_at_least(ratio, floor_tenths, 10) {
                Level::Pass
            } else {
                failure
            },
            detail: fixed2(hundredths_of(ratio.0, ratio.1)),
        },
    }
}

/// The role pairs whose legibility is checked, by name.
pub open spec fn legibility_pairs(ui: ThemeUi) -> Seq<(Seq<char>, ThemeColor, ThemeColor)> {
    seq![
        ("muted"@, ui.muted, ui.background),
        ("bar_fg"@, ui.bar_fg, ui.bar_bg),
        ("tag"@, ui.tag, ui.background),
        ("warning"@, ui.warning, ui.background),
        ("error"@, ui.error, ui.background),
        ("success"@, ui.success, ui.background),
    ]
}

/// How many of `pairs` have a known contrast.
pub open spec fn known_count(pairs: Seq<(Seq<char>, ThemeColor, ThemeColor)>) -> nat
    decreases pairs.len(),
{
    if pairs.len() == 0 {
        0
    } else {
        known_count(pairs.drop_last()) + if contrast_of(pairs.last().1, pairs.last().2) is Some {
            1nat
        } else {
            0nat
        }
    }
}

/// The names of `pairs` whose known contrast is below 3.0, in order.
pub open spec fn illegible_names(pairs: Seq<(Seq<char>, ThemeColor, ThemeColor)>) -> Seq<Seq<char>>
    decreases pairs.len(),
{
    if pairs.len() == 0 {
        Seq::empty()
    } else {
        let rest = illegible_names(pairs.drop_last());
        match contrast_of(pairs.last().1, pairs.last().2) {
            Some(ratio) => if !ratio_at_least(ratio, 3, 1) {
                rest.push(pairs.last().0)
            } else {
                rest
            },
            None => rest,
        }
    }
}

/// `names` joined with `, `.
pub open spec fn join_names(names: Seq<Seq<char>>) -> Seq<char>
    decreases names.len(),
{
    if names.len() == 0 {
        Seq::empty()
    } else if names.len() == 1 {
        names[0]
    } else {
        join_names(names.drop_last()) + ", "@ + names.last()
    }
}

/// The role-legibility finding.
pub open spec fn role_legibility_view(ui: ThemeUi) -> CheckView {
    let pairs = legibility_pairs(ui);
    if known_count(pairs) == 0 {
        skipped_view("role-legibility"@)
    } else {
        let failed = illegible_names(pairs);
        CheckView {
            id: "role-legibility"@,
            level: if failed.len() == 0 {
                Level::Pass
            } else {
                Level::Warn
            },
            detail: if failed.len() == 0 {
                "all known role contrasts >= 3.0"@
            } else {
                "below 3.0: "@ + join_names(failed)
            },
        }
    }
}

/// The appearance-luminance finding.
pub open spec fn appearance_view(ui: ThemeUi, appearance: Appearance) -> CheckView {
    match luminance_of(ui.background) {
        None => skipped_view("appearance-luminance"@),
        Some(l) => CheckView {
            id: "appearance-luminance"@,
            level: if is_dark_luminance(l) == (appearance == Appearance::Dark) {
                Level::Pass
            } else {
                Level::Warn
            },
            detail: fixed2(hundredths_of(l, LUMINANCE_UNIT as int)),
        },
    }
}

/// Background and foreground are both `terminal` or both something else.
pub open spec fn surfaces_paired(ui: ThemeUi) -> bool {
    (ui.background == ThemeColor::Terminal) == (ui.foreground == ThemeColor::Terminal)
}

/// The surface-pairing finding.
pub open spec fn surface_pairing_view(ui: ThemeUi) -> CheckView {
    CheckView {
        id: "surface-pairing"@,
        level: if surfaces_paired(ui) {
            Level::Pass
        } else {
            Level::Fail
        },
        detail: if surfaces_paired(ui) {
            "background and foreground are paired"@
        } else {
            "background and foreground must both be set or both be \"terminal\""@
        },
    }
}

/// The label a pill is drawn with, as (pill, label colour, pill colour):
/// the primary pill's label is the selection foreground, the secondary
/// pill's the bar foreground.
pub open spec fn pill_label_pairs(ui: ThemeUi) -> Seq<(Seq<char>, ThemeColor, ThemeColor)> {
    seq![("pill_primary"@, ui.selection_fg, ui.pill_primary), ("pill_secondary"@, ui.bar_fg, ui.pill_secondary)]
}

/// A pill's label colour is known to fall below 4.5:1 on it, so the
/// interface draws the label in black or white instead.
pub open spec fn label_computed(pair: (Seq<char>, ThemeColor, ThemeColor)) -> bool {
    match contrast_of(pair.1, pair.2) {
        Some(ratio) => !ratio_at_least(ratio, 45, 10),
        None => false,
    }
}

/// The pills whose labels are computed, in order.
pub open spec fn computed_pills(ui: ThemeUi) -> Seq<Seq<char>> {
    let pairs = pill_label_pairs(ui);
    (if label_computed(pairs[0]) {
        seq![pairs[0].0]
    } else {
        Seq::empty()
    }) + (if label_computed(pairs[1]) {
        seq![pairs[1].0]
    } else {
        Seq::empty()
    })
}

/// The computed-foreground finding: a note naming the pills whose labels
/// fall back to black or white; a pass where both labels clear 4.5:1 (or
/// one does and the other's contrast is unknown); skipped where neither
/// contrast is known.
pub open spec fn computed_foreground_view(ui: ThemeUi) -> CheckView {
    let pairs = pill_label_pairs(ui);
    if contrast_of(pairs[0].1, pairs[0].2) is None && contrast_of(pairs[1].1, pairs[1].2) is None {
        skipped_view("computed-foreground"@)
    } else if computed_pills(ui).len() == 0 {
        CheckView { id: "computed-foreground"@, level: Level::Pass, detail: "pill labels keep their colors"@ }
    } else {
        CheckView {
            id: "computed-foreground"@,
            level: Level::Note,
            detail: "black/white labels on: "@ + join_names(computed_pills(ui)),
        }
    }
}

/// Every finding for a theme, in order.
pub open spec fn check_views(ui: ThemeUi, appearance: Appearance) -> Seq<CheckView> {
    seq![
        roles_distinct_view(ui),
        contrast_view("selection-contrast"@, ui.selection_fg, ui.selection_bg, 45, Level::Fail),
        contrast_view("foreground-contrast"@, ui.foreground, ui.background, 45, Level::Fail),
        role_legibility_view(ui),
        appearance_view(ui, appearance),
        surface_pairing_view(ui),
        computed_foreground_view(ui),
    ]
}

/// The findings come in a fixed order, each under its own name.
pub proof fn lemma_check_ids(ui: ThemeUi, appearance: Appearance)
    ensures
        check_views(ui, appearance).len() == 7,
        check_views(ui, appearance)[0].id == "roles-distinct"@,
        check_views(ui, appearance)[1].id == "selection-contrast"@,
        check_views(ui, appearance)[2].id == "foreground-contrast"@,
        check_views(ui, appearance)[3].id == "role-legibility"@,
        check_views(ui, appearance)[4].id == "appearance-luminance"@,
        check_views(ui, appearance)[5] == surface_pairing_view(ui),
        check_views(ui, appearance)[6] == computed_foreground_view(ui),
{
}

/// A list of findings, as spec values.
pub open spec fn checks_view(checks: Seq<Check>) -> Seq<CheckView> {
    checks.map_values(|c: Check| c@)
}

/// A skipped check.
fn skipped(id: &'static str) -> (c: Check)
    ensures
        c@ == skipped_view(id@),
{
    let mut detail = String::new();
    push_str(&mut detail, "skipped: terminal-defined color");
    assert(detail@ =~= skipped_detail());
    Check { id, level: Level::Pass, detail }
}

/// Whether `s[..end]` holds `c`.
fn seen_before(s: &[ThemeColor], end: usize, c: ThemeColor) -> (r: bool)
    requires
        end <= s@.len(),
    ensures
        r == s@.subrange(0, end as int).contains(c),
{
    let mut i: usize = 0;
    while i < end
        invariant
            i <= end <= s@.len(),
            forall|j: int| 0 <= j < i ==> s@[j] != c,
        decreases end - i,
    {
        if s[i] == c {
            assert(s@.subrange(0, end as int)[i as int] == c);
            return true;
        }
        i = i + 1;
    }
    assert(!s@.subrange(0, end as int).contains(c)) by {
        if s@.subrange(0, end as int).contains(c) {
            let j = choose|j: int| 0 <= j < end && s@.subrange(0, end as int)[j] == c;
            assert(s@[j] == c);
        }
    }
    false
}

/// The number of different colours in `s`.
fn count_distinct(s: &[ThemeColor]) -> (n: u64)
    requires
        s@.len() <= 64,
    ensures
        n == distinct_count(s@),
{
    let mut n: u64 = 0;
    let mut i: usize = 0;
    while i < s.len()
        invariant
            i <= s@.len() <= 64,
            n == distinct_count(s@.subrange(0, i as int)),
            n <= i,
        decreases s@.len() - i,
    {
        let ghost prefix = s@.subrange(0, i + 1);
        assert(prefix.drop_last() =~= s@.subrange(0, i as int));
        if !seen_before(s, i, s[i]) {
            n = n + 1;
        }
        i = i + 1;
    }
    assert(s@.subrange(0, s@.len() as int) =~= s@);
    n
}

/// The roles-distinct finding.
fn roles_distinct(ui: &ThemeUi) -> (c: Check)
    ensures
        c@ == roles_distinct_view(*ui),
{
    let roles = [
        ui.accent,
        ui.accent_alt,
        ui.muted,
        ui.selection_bg,
        ui.retained_bg,
        ui.pill_primary,
        ui.pill_secondary,
        ui.tag,
        ui.warning,
        ui.success,
        ui.error,
    ];
    assert(roles@ =~= distinct_roles(*ui));
    let unique = count_distinct(&roles);
    let mut detail = decimal_string(unique);
    push_str(&mut detail, "/11 roles distinct");
    Check {
        id: "roles-distinct",
        level: if unique == 11 {
            Level::Pass
        } else {
            Level::Warn
        },
        detail,
    }
}

/// A contrast finding at `floor_tenths`, failing with `failure`.
fn contrast_check(
    id: &'static str,
    foreground: ThemeColor,
    background: ThemeColor,
    floor_tenths: u128,
    failure: Level,
) -> (c: Check)
    requires
        floor_tenths <= 1000,
    ensures
        c@ == contrast_view(id@, foreground, background, floor_tenths as int, failure),
{
    match contrast(foreground, background) {
        None => skipped(id),
        Some(ratio) => Check {
            id,
            level: if ratio.at_least(floor_tenths, 10) {
                Level::Pass
            } else {
                failure
            },
            detail: ratio.text2(),
        },
    }
}

/// `names` joined with `, `.
fn join_names_string(names: &Vec<&'static str>) -> (s: String)
    ensures
        s@ == join_names(names@.map_values(|n: &'static str| n@)),
{
    let ghost views = names@.map_values(|n: &'static str| n@);
    let mut s = String::new();
    let mut i: usize = 0;
    while i < names.len()
        invariant
            i <= names@.len(),
            views == names@.map_values(|n: &'static str| n@),
            s@ == join_names(views.subrange(0, i as int)),
        decreases names@.len() - i,
    {
        let ghost next = views.subrange(0, i + 1);
        assert(next.drop_last() =~= views.subrange(0, i as int));
        if i > 0 {
            push_str(&mut s, ", ");
        }
        push_str(&mut s, names[i]);
        proof {
            if i == 0 {
                assert(s@ =~= next[0]);
            } else {
                assert(s@ =~= join_names(next.drop_last()) + ", "@ + next.last());
            }
        }
        i = i + 1;
    }
    assert(views.subrange(0, names@.len() as int) =~= views);
    s
}

/// The role-legibility finding.
fn role_legibility(ui: &ThemeUi) -> (c: Check)
    ensures
        c@ == role_legibility_view(*ui),
{
    let pairs = [
        ("muted", ui.muted, ui.background),
        ("bar_fg", ui.bar_fg, ui.bar_bg),
        ("tag", ui.tag, ui.background),
        ("warning", ui.warning, ui.background),
        ("error", ui.error, ui.background),
        ("success", ui.success, ui.background),
    ];
    let ghost pv = pairs@.map_values(|p: (&'static str, ThemeColor, ThemeColor)| (p.0@, p.1, p.2));
    assert(pv =~= legibility_pairs(*ui));
    let mut known: u64 = 0;
    let mut failed: Vec<&'static str> = Vec::new();
    let mut i: usize = 0;
    while i < 6
        invariant
            i <= 6,
            pairs@.len() == 6,
            pv == pairs@.map_values(|p: (&'static str, ThemeColor, ThemeColor)| (p.0@, p.1, p.2)),
            known == known_count(pv.subrange(0, i as int)),
            known <= i,
            failed@.map_values(|n: &'static str| n@) == illegible_names(pv.subrange(0, i as int)),
        decreases 6 - i,
    {
        let ghost next = pv.subrange(0, i + 1);
        assert(next.drop_last() =~= pv.subrange(0, i as int));
        let (name, foreground, background) = pairs[i];
        match contrast(foreground, background) {
            Some(ratio) => {
                known = known + 1;
                if !ratio.at_least(3, 1) {
                    failed.push(name);
                    assert(failed@.map_values(|n: &'static str| n@) =~= illegible_names(
                        pv.subrange(0, i as int),
                    ).push(name@));
                }
            },
            None => {},
        }
        i = i + 1;
    }
    assert(pv.subrange(0, 6) =~= pv);
    if known == 0 {
        return skipped("role-legibility");
    }
    if failed.len() == 0 {
        let mut detail = String::new();
        push_str(&mut detail, "all known role contrasts >= 3.0");
        assert(detail@ =~= "all known role contrasts >= 3.0"@);
        Check { id: "role-legibility", level: Level::Pass, detail }
    } else {
        let mut detail = String::new();
        push_str(&mut detail, "below 3.0: ");
        push_str(&mut detail, join_names_string(&failed).as_str());
        Check { id: "role-legibility", level: Level::Warn, detail }
    }
}

/// The appearance-luminance finding.
fn appearance_luminance(ui: &ThemeUi, appearance: Appearance) -> (c: Check)
    ensures
        c@ == appearance_view(*ui, appearance),
{
    match luminance(ui.background) {
        None => skipped("appearance-luminance"),
        Some(l) => {
            proof {
                lemma_luminance_bounded(ui.background);
            }
            let dark = 2 * l < LUMINANCE_UNIT;
            let wants_dark = match appearance {
                Appearance::Dark => true,
                Appearance::Light => false,
            };
            let hundredths = (200 * l + LUMINANCE_UNIT) / (2 * LUMINANCE_UNIT);
            Check {
                id: "appearance-luminance",
                level: if dark == wants_dark {
                    Level::Pass
                } else {
                    Level::Warn
                },
                detail: fixed2_string(hundredths as u64),
            }
        },
    }
}

/// The surface-pairing finding.
fn surface_pairing(ui: &ThemeUi) -> (c: Check)
    ensures
        c@ == surface_pairing_view(*ui),
{
    let background_terminal = match ui.background {
        ThemeColor::Terminal => true,
        _ => false,
    };
    let foreground_terminal = match ui.foreground {
        ThemeColor::Terminal => true,
        _ => false,
    };
    let mut detail = String::new();
    if background_terminal == foreground_terminal {
        push_str(&mut detail, "background and foreground are paired");
        assert(detail@ =~= "background and foreground are paired"@);
        Check { id: "surface-pairing", level: Level::Pass, detail }
    } else {
        push_str(&mut detail, "background and foreground must both be set or both be \"terminal\"");
        assert(detail@ =~= "background and foreground must both be set or both be \"terminal\""@);
        Check { id: "surface-pairing", level: Level::Fail, detail }
    }
}

/// The computed-foreground finding.
fn computed_foreground(ui: &ThemeUi) -> (c: Check)
    ensures
        c@ == computed_foreground_view(*ui),
{
    let ghost pairs = pill_label_pairs(*ui);
    let primary = contrast(ui.selection_fg, ui.pill_primary);
    let secondary = contrast(ui.bar_fg, ui.pill_secondary);
    let mut names: Vec<&'static str> = Vec::new();
    match primary {
        Some(ratio) => if !ratio.at_least(45, 10) {
            names.push("pill_primary");
        },
        None => {},
    }
    match secondary {
        Some(ratio) => if !ratio.at_least(45, 10) {
            names.push("pill_secondary");
        },
        None => {},
    }
    assert(names@.map_values(|n: &'static str| n@) =~= computed_pills(*ui));
    if primary.is_none() && secondary.is_none() {
        return skipped("computed-foreground");
    }
    let mut detail = String::new();
    if names.len() == 0 {
        push_str(&mut detail, "pill labels keep their colors");
        assert(detail@ =~= "pill labels keep their colors"@);
        Check { id: "computed-foreground", level: Level::Pass, detail }
    } else {
        push_str(&mut detail, "black/white labels on: ");
        push_str(&mut detail, join_names_string(&names).as_str());
        Check { id: "computed-foreground", level: Level::Note, detail }
    }
}

/// Checks a theme: whether its key roles are distinct, whether the selection
/// and the foreground clear 4.5:1, whether the other labels clear 3.0:1,
/// whether the background's luminance matches the declared appearance,
/// whether background and foreground agree on `terminal`, and (as a note)
/// which pills' labels fall back to black or white.
pub fn check(theme: &Theme) -> (checks: Vec<Check>)
    ensures
        checks_view(checks@) == check_views(theme.ui, theme.appearance),
{
    let ui = &theme.ui;
    let mut checks: Vec<Check> = Vec::new();
    checks.push(roles_distinct(ui));
    checks.push(contrast_check("selection-contrast", ui.selection_fg, ui.selection_bg, 45, Level::Fail));
    checks.push(contrast_check("foreground-contrast", ui.foreground, ui.background, 45, Level::Fail));
    checks.push(role_legibility(ui));
    checks.push(appearance_luminance(ui, theme.appearance));
    checks.push(surface_pairing(ui));
    checks.push(computed_foreground(ui));
    assert(checks_view(checks@) =~= check_views(theme.ui, theme.appearance));
    checks
}

// ---------------------------------------------------------------------------
// Laws
// ---------------------------------------------------------------------------

/// A selection whose foreground is its background (an RGB colour) fails the
/// selection-contrast check: one to one is below 4.5 to one.
pub proof fn law_equal_selection_colors_fail(ui: ThemeUi, appearance: Appearance)
    requires
        ui.selection_fg == ui.selection_bg,
        ui.selection_bg is Rgb,
    ensures
        check_views(ui, appearance)[1].id == "selection-contrast"@,
        check_views(ui, appearance)[1].level == Level::Fail,
{
    lemma_luminance_bounded(ui.selection_bg);
    let ratio = contrast_of(ui.selection_fg, ui.selection_bg)->0;
    assert(ratio.0 == ratio.1);
    assert(ratio.1 > 0);
    assert(!ratio_at_least(ratio, 45, 10));
}

/// Terminal-defined selection colours skip the contrast check instead of
/// failing it.
pub proof fn law_terminal_defined_colors_skip_contrast(ui: ThemeUi, appearance: Appearance)
    requires
        !(ui.selection_bg is Rgb) || !(ui.selection_fg is Rgb),
    ensures
        check_views(ui, appearance)[1] == skipped_view("selection-contrast"@),
        check_views(ui, appearance)[1].level == Level::Pass,
{
}

/// Background and foreground that disagree on `terminal` fail the
/// surface-pairing check; agreeing ones pass it.
pub proof fn law_surface_pairing_fails_exactly_when_unpaired(ui: ThemeUi, appearance: Appearance)
    ensures
        check_views(ui, appearance)[5].id == "surface-pairing"@,
        check_views(ui, appearance)[5].level == Level::Fail <==> !surfaces_paired(ui),
{
}

/// The computed-foreground finding is a note or a pass, never a warning or a
/// failure; it is a note exactly when a pill's label is known to fall below
/// 4.5:1 on it.
pub proof fn law_computed_foreground_is_only_a_note(ui: ThemeUi, appearance: Appearance)
    ensures
        check_views(ui, appearance)[6].id == "computed-foreground"@,
        check_views(ui, appearance)[6].level == Level::Pass || check_views(ui, appearance)[6].level == Level::Note,
        check_views(ui, appearance)[6].level == Level::Note <==> (label_computed(pill_label_pairs(ui)[0])
            || label_computed(pill_label_pairs(ui)[1])),
{
}

/// The appearance-luminance check compares the declared appearance with the
/// background: a background below one half luminance passes for a dark
/// theme and warns for a light one; a background at one half or above
/// passes for a light theme and warns for a dark one. Its detail is the
/// background's luminance to two decimals.
pub proof fn law_appearance_follows_background_luminance(ui: ThemeUi, appearance: Appearance)
    requires
        ui.background is Rgb,
    ensures
        check_views(ui, appearance)[4].id == "appearance-luminance"@,
        check_views(ui, appearance)[4].detail == fixed2(hundredths_of(luminance_of(ui.background)->0, LUMINANCE_UNIT as int)),
        2 * luminance_of(ui.background)->0 < LUMINANCE_UNIT && appearance == Appearance::Dark
            ==> check_views(ui, appearance)[4].level == Level::Pass,
        2 * luminance_of(ui.background)->0 < LUMINANCE_UNIT && appearance == Appearance::Light
            ==> check_views(ui, appearance)[4].level == Level::Warn,
        2 * luminance_of(ui.background)->0 >= LUMINANCE_UNIT && appearance == Appearance::Light
            ==> check_views(ui, appearance)[4].level == Level::Pass,
        2 * luminance_of(ui.background)->0 >= LUMINANCE_UNIT && appearance == Appearance::Dark
            ==> check_views(ui, appearance)[4].level == Level::Warn,
{
}

/// With RGB colours, the selection and the foreground pass their contrast
/// checks exactly when they reach 4.5:1 against their backgrounds (the
/// selection's, and the theme's), and fail otherwise.
pub proof fn law_text_contrast_passes_exactly_at_four_and_a_half(ui: ThemeUi, appearance: Appearance)
    requires
        ui.selection_fg is Rgb,
        ui.selection_bg is Rgb,
        ui.foreground is Rgb,
        ui.background is Rgb,
    ensures
        check_views(ui, appearance)[1].level == (if reaches_floor(ui.selection_fg, ui.selection_bg, 45) {
            Level::Pass
        } else {
            Level::Fail
        }),
        check_views(ui, appearance)[2].level == (if reaches_floor(ui.foreground, ui.background, 45) {
            Level::Pass
        } else {
            Level::Fail
        }),
{
}

} // verus!

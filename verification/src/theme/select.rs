//! Choosing which theme the interface shows: the appearance it asks for, the
//! theme that names, and the warnings when the choice does not fit.
use vstd::prelude::*;

use crate::text::{
    chars_of, copy_string, eq_ignore_case, eq_ignore_case_lit, lower_seq, parse_unsigned,
    parse_unsigned_range, push_str, starts_with_lit_at, to_lower,
};
use crate::theme::{appearance_str, Appearance, Theme};

verus! {

/// The configured theme setting: follow the host, or always light or dark.
#[derive(Clone, Copy, Debug, PartialEq, Eq, Structural)]
pub enum TuiThemeSetting {
    Auto,
    Light,
    Dark,
}

/// The appearance an environment value names: `light` or `dark`, in any
/// ASCII case.
pub open spec fn environment_appearance_spec(environment: Option<Seq<char>>) -> Option<Appearance> {
    match environment {
        Some(v) => if eq_ignore_case(v, "light"@) {
            Some(Appearance::Light)
        } else if eq_ignore_case(v, "dark"@) {
            Some(Appearance::Dark)
        } else {
            None
        },
        None => None,
    }
}

/// An optional `&str`, as a spec value.
pub open spec fn opt_str(s: Option<&str>) -> Option<Seq<char>> {
    match s {
        Some(v) => Some(v@),
        None => None,
    }
}

/// The appearance an environment value names, if it names one.
pub fn environment_appearance(environment: Option<&str>) -> (r: Option<Appearance>)
    ensures
        r == environment_appearance_spec(opt_str(environment)),
{
    match environment {
        Some(value) => {
            let v = chars_of(value);
            if eq_ignore_case_lit(v.as_slice(), "light") {
                Some(Appearance::Light)
            } else if eq_ignore_case_lit(v.as_slice(), "dark") {
                Some(Appearance::Dark)
            } else {
                None
            }
        },
        None => None,
    }
}

/// `s` holds `t` somewhere.
pub open spec fn contains_seq(s: Seq<char>, t: Seq<char>) -> bool {
    exists|i: int| 0 <= i && i + t.len() <= s.len() && #[trigger] s.subrange(i, i + t.len()) == t
}

/// The part of `s` after its last `;` (all of it when it has none).
pub open spec fn after_last_semicolon(s: Seq<char>) -> Seq<char>
    decreases s.len(),
{
    if s.len() == 0 {
        s
    } else if s.last() == ';' {
        Seq::empty()
    } else {
        after_last_semicolon(s.drop_last()).push(s.last())
    }
}

/// What the host's settings say of its appearance, where no system call
/// answers: a `GTK_THEME` naming `dark` (in any ASCII case) means dark; else
/// the background index at the end of `COLORFGBG` (0 through 6, or 8, is
/// dark); else dark.
pub open spec fn host_appearance_spec(gtk_theme: Option<Seq<char>>, colorfgbg: Option<Seq<char>>) -> Appearance {
    if gtk_theme matches Some(v) && contains_seq(lower_seq(v), "dark"@) {
        Appearance::Dark
    } else if colorfgbg matches Some(v) && parse_unsigned(after_last_semicolon(v), 10, 255) is Some {
        let b = parse_unsigned(after_last_semicolon(colorfgbg->0), 10, 255)->0;
        if b <= 6 || b == 8 {
            Appearance::Dark
        } else {
            Appearance::Light
        }
    } else {
        Appearance::Dark
    }
}

/// Where `v`'s last `;` stands, if it has one.
fn last_semicolon(v: &[char]) -> (r: Option<usize>)
    ensures
        match r {
            None => after_last_semicolon(v@) == v@,
            Some(k) => k < v@.len() && after_last_semicolon(v@) == v@.subrange(k + 1, v@.len() as int),
        },
{
    let mut k = v.len();
    assert(v@.subrange(0, k as int) =~= v@);
    assert(v@ + v@.subrange(k as int, v@.len() as int) =~= v@);
    while k > 0
        invariant
            k <= v@.len(),
            after_last_semicolon(v@) == after_last_semicolon(v@.subrange(0, k as int)) + v@.subrange(
                k as int,
                v@.len() as int,
            ),
            forall|j: int| k <= j < v@.len() ==> v@[j] != ';',
        decreases k,
    {
        let ghost pre = v@.subrange(0, k as int);
        assert(pre.drop_last() =~= v@.subrange(0, k - 1));
        if v[k - 1] == ';' {
            assert(after_last_semicolon(pre) =~= Seq::<char>::empty());
            assert(after_last_semicolon(v@) =~= v@.subrange(k as int, v@.len() as int));
            return Some(k - 1);
        }
        assert(after_last_semicolon(pre) == after_last_semicolon(pre.drop_last()).push(v@[k - 1]));
        assert(after_last_semicolon(pre.drop_last()).push(v@[k - 1]) + v@.subrange(k as int, v@.len() as int)
            =~= after_last_semicolon(pre.drop_last()) + v@.subrange(k - 1, v@.len() as int));
        k = k - 1;
    }
    assert(v@.subrange(0, 0) =~= Seq::<char>::empty());
    assert(v@.subrange(0, v@.len() as int) =~= v@);
    assert(after_last_semicolon(v@) =~= v@);
    None
}

/// `v` holds `dark` somewhere.
fn contains_dark(v: &[char]) -> (r: bool)
    ensures
        r == contains_seq(v@, "dark"@),
{
    proof {
        reveal_strlit("dark");
    }
    if v.len() < 4 {
        return false;
    }
    let mut i: usize = 0;
    while i <= v.len() - 4
        invariant
            4 <= v@.len(),
            i <= v@.len() - 3,
            "dark"@.len() == 4,
            forall|j: int| 0 <= j < i ==> #[trigger] v@.subrange(j, j + 4) != "dark"@,
        decreases v@.len() - i,
    {
        if starts_with_lit_at(v, i, "dark") {
            return true;
        }
        i = i + 1;
    }
    assert forall|j: int| 0 <= j && j + "dark"@.len() <= v@.len() implies #[trigger] v@.subrange(
        j,
        j + "dark"@.len(),
    ) != "dark"@ by {
        assert(j < i);
    }
    false
}

/// What the host's settings say of its appearance, where no system call
/// answers: `GTK_THEME` and `COLORFGBG`, as read from the environment.
pub fn host_appearance(gtk_theme: Option<&str>, colorfgbg: Option<&str>) -> (r: Appearance)
    ensures
        r == host_appearance_spec(opt_str(gtk_theme), opt_str(colorfgbg)),
{
    if let Some(value) = gtk_theme {
        let lowered = to_lower(chars_of(value).as_slice());
        if contains_dark(lowered.as_slice()) {
            return Appearance::Dark;
        }
    }
    if let Some(value) = colorfgbg {
        let v = chars_of(value);
        let from: usize = match last_semicolon(v.as_slice()) {
            Some(k) => {
                assert(k < v.len());
                k + 1
            },
            None => 0,
        };
        assert(v@.subrange(0, v@.len() as int) =~= v@);
        if let Some(background) = parse_unsigned_range(v.as_slice(), from, v.len(), 10, 255) {
            if background <= 6 || background == 8 {
                return Appearance::Dark;
            } else {
                return Appearance::Light;
            }
        }
    }
    Appearance::Dark
}

/// The appearance the interface asks for: the environment's `light` or
/// `dark` first, then the configured setting, then (for `auto`) what the
/// host says.
pub open spec fn resolve_appearance_spec(
    setting: TuiThemeSetting,
    environment: Option<Seq<char>>,
    host: Appearance,
) -> Appearance {
    match environment_appearance_spec(environment) {
        Some(a) => a,
        None => match setting {
            TuiThemeSetting::Light => Appearance::Light,
            TuiThemeSetting::Dark => Appearance::Dark,
            TuiThemeSetting::Auto => host,
        },
    }
}

/// The appearance the interface asks for, given what the host says (asked
/// only for `auto`).
pub fn resolve_appearance_with(setting: TuiThemeSetting, environment: Option<&str>, host: Appearance) -> (r:
    Appearance)
    ensures
        r == resolve_appearance_spec(setting, opt_str(environment), host),
{
    if let Some(a) = environment_appearance(environment) {
        return a;
    }
    match setting {
        TuiThemeSetting::Light => Appearance::Light,
        TuiThemeSetting::Dark => Appearance::Dark,
        TuiThemeSetting::Auto => host,
    }
}

/// The theme an environment value names: anything but empty, `light` or
/// `dark`.
pub open spec fn environment_theme_spec(environment: Option<Seq<char>>) -> Option<Seq<char>> {
    match environment {
        Some(v) => if v.len() > 0 && !eq_ignore_case(v, "light"@) && !eq_ignore_case(v, "dark"@) {
            Some(v)
        } else {
            None
        },
        None => None,
    }
}

/// The theme an environment value names, if it names one rather than an
/// appearance.
pub fn environment_theme<'a>(environment: Option<&'a str>) -> (r: Option<&'a str>)
    ensures
        opt_str(r) == environment_theme_spec(opt_str(environment)),
{
    match environment {
        Some(value) => {
            let v = chars_of(value);
            if v.len() > 0 && !eq_ignore_case_lit(v.as_slice(), "light") && !eq_ignore_case_lit(
                v.as_slice(),
                "dark",
            ) {
                Some(value)
            } else {
                None
            }
        },
        None => None,
    }
}

/// The built-in theme for an appearance.
pub open spec fn default_theme_spec(appearance: Appearance) -> Seq<char> {
    match appearance {
        Appearance::Light => "light-default"@,
        Appearance::Dark => "dark-default"@,
    }
}

/// The built-in theme for an appearance.
pub fn default_theme_name(appearance: Appearance) -> (s: &'static str)
    ensures
        s@ == default_theme_spec(appearance),
{
    match appearance {
        Appearance::Light => "light-default",
        Appearance::Dark => "dark-default",
    }
}

/// The theme configured for an appearance's slot, or its built-in default.
pub fn configured_theme_name<'a>(appearance: Appearance, light_theme: Option<&'a str>, dark_theme: Option<&'a str>) -> (r:
    &'a str)
    ensures
        r@ == match (
            match appearance {
                Appearance::Light => opt_str(light_theme),
                Appearance::Dark => opt_str(dark_theme),
            }
        ) {
            Some(name) => name,
            None => default_theme_spec(appearance),
        },
{
    let configured = match appearance {
        Appearance::Light => light_theme,
        Appearance::Dark => dark_theme,
    };
    match configured {
        Some(name) => name,
        None => default_theme_name(appearance),
    }
}

/// The warning for a theme shown in the other appearance's slot.
pub open spec fn slot_warning_message(name: Seq<char>, theme: Appearance, slot: Appearance) -> Seq<char> {
    "theme "@ + name + " is a "@ + appearance_str(theme) + " theme in the "@ + appearance_str(slot) + " slot"@
}

/// A warning when the theme `name` of appearance `theme` is shown in the
/// slot of the other appearance.
fn slot_warning_for(name: &str, theme: Appearance, slot: Appearance) -> (r: Option<String>)
    ensures
        match r {
            None => theme == slot,
            Some(m) => theme != slot && m@ == slot_warning_message(name@, theme, slot),
        },
{
    if theme == slot {
        return None;
    }
    let mut m = String::new();
    push_str(&mut m, "theme ");
    push_str(&mut m, name);
    push_str(&mut m, " is a ");
    push_str(&mut m, theme.as_str());
    push_str(&mut m, " theme in the ");
    push_str(&mut m, slot.as_str());
    push_str(&mut m, " slot");
    assert(m@ =~= slot_warning_message(name@, theme, slot));
    Some(m)
}

/// A warning when `theme` is shown in the slot of the other appearance.
pub fn slot_warning(theme: &Theme, slot: Appearance) -> (r: Option<String>)
    ensures
        match r {
            None => theme.appearance == slot,
            Some(m) => theme.appearance != slot && m@ == slot_warning_message(theme.name@, theme.appearance, slot),
        },
{
    slot_warning_for(theme.name.as_str(), theme.appearance, slot)
}

/// How loading a theme came out: the theme's name and appearance and the
/// warnings of its checks, or the message of the error that refused it.
pub enum ThemeAttempt {
    Loaded { name: String, appearance: Appearance, warnings: Vec<String> },
    Failed { message: String },
}

/// An attempt, as spec values.
pub enum AttemptView {
    Loaded { name: Seq<char>, appearance: Appearance, warnings: Seq<Seq<char>> },
    Failed { message: Seq<char> },
}

impl View for ThemeAttempt {
    type V = AttemptView;

    open spec fn view(&self) -> AttemptView {
        match self {
            ThemeAttempt::Loaded { name, appearance, warnings } => AttemptView::Loaded {
                name: name@,
                appearance: *appearance,
                warnings: warnings@.map_values(|w: String| w@),
            },
            ThemeAttempt::Failed { message } => AttemptView::Failed { message: message@ },
        }
    }
}

/// What to do next in choosing the interface's theme.
pub enum ThemeStep {
    /// Load this theme, with its checks, and report how it came out.
    Try { name: String },
    /// Load this built-in default; it loads without fail.
    Fallback { name: String },
    /// Show the theme of attempt `attempt`, with these warnings (the
    /// configuration's colour overrides still to come).
    Use { attempt: usize, warnings: Vec<String> },
}

/// A step, as spec values.
pub enum ThemeStepView {
    Try { name: Seq<char> },
    Fallback { name: Seq<char> },
    Use { attempt: nat, warnings: Seq<Seq<char>> },
}

impl View for ThemeStep {
    type V = ThemeStepView;

    open spec fn view(&self) -> ThemeStepView {
        match self {
            ThemeStep::Try { name } => ThemeStepView::Try { name: name@ },
            ThemeStep::Fallback { name } => ThemeStepView::Fallback { name: name@ },
            ThemeStep::Use { attempt, warnings } => ThemeStepView::Use {
                attempt: *attempt as nat,
                warnings: warnings@.map_values(|w: String| w@),
            },
        }
    }
}

/// The warnings an attempt adds: its checks' warnings, or its error.
pub open spec fn attempt_warnings(a: AttemptView) -> Seq<Seq<char>> {
    match a {
        AttemptView::Loaded { warnings, .. } => warnings,
        AttemptView::Failed { message } => seq![message],
    }
}

/// The slot warning for a loaded attempt shown in the `slot` appearance.
pub open spec fn attempt_slot_warning(a: AttemptView, slot: Appearance) -> Seq<Seq<char>> {
    match a {
        AttemptView::Loaded { name, appearance, .. } => if appearance != slot {
            seq![slot_warning_message(name, appearance, slot)]
        } else {
            Seq::empty()
        },
        AttemptView::Failed { .. } => Seq::empty(),
    }
}

/// The next step after the attempts so far: a theme the environment names
/// is tried first and, if it loads, shown as it is; otherwise (its error
/// kept as a warning) the theme configured for the appearance's slot is
/// tried, and if that fails too, the slot's built-in default. The theme
/// chosen from the slot is warned about when its appearance is the other
/// one.
pub open spec fn theme_step_spec(
    environment: Option<Seq<char>>,
    appearance: Appearance,
    light_theme: Option<Seq<char>>,
    dark_theme: Option<Seq<char>>,
    attempts: Seq<AttemptView>,
) -> ThemeStepView {
    let env = environment_theme_spec(environment);
    let c: nat = if env is Some {
        1
    } else {
        0
    };
    let configured = match (
        match appearance {
            Appearance::Light => light_theme,
            Appearance::Dark => dark_theme,
        }
    ) {
        Some(n) => n,
        None => default_theme_spec(appearance),
    };
    let before = if env is Some && attempts.len() > 0 {
        attempt_warnings(attempts[0])
    } else {
        Seq::empty()
    };
    if env is Some && attempts.len() == 0 {
        ThemeStepView::Try { name: env->0 }
    } else if env is Some && attempts[0] is Loaded {
        ThemeStepView::Use { attempt: 0, warnings: attempt_warnings(attempts[0]) }
    } else if attempts.len() == c {
        ThemeStepView::Try { name: configured }
    } else if attempts[c as int] is Loaded {
        ThemeStepView::Use {
            attempt: c,
            warnings: before + attempt_warnings(attempts[c as int]) + attempt_slot_warning(attempts[c as int], appearance),
        }
    } else if attempts.len() == c + 1 {
        ThemeStepView::Fallback { name: default_theme_spec(appearance) }
    } else {
        ThemeStepView::Use {
            attempt: (c + 1) as nat,
            warnings: before + attempt_warnings(attempts[c as int]) + attempt_slot_warning(
                attempts[(c + 1) as int],
                appearance,
            ),
        }
    }
}

/// Copies of warnings, the attempt's warnings appended.
fn extend_warnings(warnings: &mut Vec<String>, a: &ThemeAttempt)
    ensures
        final(warnings)@.map_values(|w: String| w@) == old(warnings)@.map_values(|w: String| w@) + attempt_warnings(
            a@,
        ),
{
    let ghost start = warnings@.map_values(|w: String| w@);
    match a {
        ThemeAttempt::Loaded { warnings: more, .. } => {
            let mut i: usize = 0;
            while i < more.len()
                invariant
                    i <= more@.len(),
                    warnings@.map_values(|w: String| w@) == start + more@.map_values(|w: String| w@).take(i as int),
                decreases more@.len() - i,
            {
                let ghost before = warnings@.map_values(|w: String| w@);
                let item = copy_string(more[i].as_str());
                let ghost seen = warnings@;
                warnings.push(item);
                assert(warnings@ == seen.push(item));
                assert(warnings@.map_values(|w: String| w@) =~= before.push(item@));
                assert(more@.map_values(|w: String| w@).take(i + 1) =~= more@.map_values(|w: String| w@).take(
                    i as int,
                ).push(more@[i as int]@));
                assert(warnings@.map_values(|w: String| w@) =~= start + more@.map_values(|w: String| w@).take(
                    i + 1,
                ));
                i = i + 1;
            }
            assert(more@.map_values(|w: String| w@).take(more@.len() as int) =~= more@.map_values(|w: String| w@));
        },
        ThemeAttempt::Failed { message } => {
            warnings.push(copy_string(message.as_str()));
            assert(warnings@.map_values(|w: String| w@) =~= start + seq![message@]);
        },
    }
}

/// The slot warning for a loaded attempt, appended.
fn push_slot_warning(warnings: &mut Vec<String>, a: &ThemeAttempt, slot: Appearance)
    ensures
        final(warnings)@.map_values(|w: String| w@) == old(warnings)@.map_values(|w: String| w@)
            + attempt_slot_warning(a@, slot),
{
    let ghost start = warnings@.map_values(|w: String| w@);
    match a {
        ThemeAttempt::Loaded { name, appearance, .. } => match slot_warning_for(name.as_str(), *appearance, slot) {
            Some(m) => {
                warnings.push(m);
                assert(warnings@.map_values(|w: String| w@) =~= start + attempt_slot_warning(a@, slot));
            },
            None => {
                assert(warnings@.map_values(|w: String| w@) =~= start + attempt_slot_warning(a@, slot));
            },
        },
        ThemeAttempt::Failed { .. } => {
            assert(warnings@.map_values(|w: String| w@) =~= start + attempt_slot_warning(a@, slot));
        },
    }
}

/// Chooses the interface's theme one load at a time: given the environment's
/// theme setting, the appearance the slot was resolved to, the configured
/// theme of each slot and how the loads so far came out, says which theme
/// to load next, or which attempt to show with which warnings.
pub fn theme_step(
    environment: Option<&str>,
    appearance: Appearance,
    light_theme: Option<&str>,
    dark_theme: Option<&str>,
    attempts: &Vec<ThemeAttempt>,
) -> (r: ThemeStep)
    ensures
        r@ == theme_step_spec(
            opt_str(environment),
            appearance,
            opt_str(light_theme),
            opt_str(dark_theme),
            attempts@.map_values(|a: ThemeAttempt| a@),
        ),
{
    let ghost av = attempts@.map_values(|a: ThemeAttempt| a@);
    let env = environment_theme(environment);
    let c: usize = if env.is_some() {
        1
    } else {
        0
    };
    if let Some(name) = env {
        if attempts.len() == 0 {
            return ThemeStep::Try { name: copy_string(name) };
        }
        assert(av[0] == attempts@[0]@);
        if let ThemeAttempt::Loaded { .. } = &attempts[0] {
            let mut warnings: Vec<String> = Vec::new();
            extend_warnings(&mut warnings, &attempts[0]);
            assert(warnings@.map_values(|w: String| w@) =~= attempt_warnings(av[0]));
            return ThemeStep::Use { attempt: 0, warnings };
        }
    }
    let configured = configured_theme_name(appearance, light_theme, dark_theme);
    if attempts.len() == c {
        return ThemeStep::Try { name: copy_string(configured) };
    }
    let mut warnings: Vec<String> = Vec::new();
    if c == 1 {
        extend_warnings(&mut warnings, &attempts[0]);
    }
    assert(c == 1 ==> av[0] == attempts@[0]@);
    assert(av[c as int] == attempts@[c as int]@);
    extend_warnings(&mut warnings, &attempts[c]);
    if let ThemeAttempt::Loaded { .. } = &attempts[c] {
        push_slot_warning(&mut warnings, &attempts[c], appearance);
        return ThemeStep::Use { attempt: c, warnings };
    }
    if attempts.len() == c + 1 {
        return ThemeStep::Fallback { name: copy_string(default_theme_name(appearance)) };
    }
    assert(av[c + 1] == attempts@[c + 1]@);
    push_slot_warning(&mut warnings, &attempts[c + 1], appearance);
    ThemeStep::Use { attempt: c + 1, warnings }
}

/// `light` and `dark` in the environment always choose an appearance, never
/// a theme; any other non-empty value names a theme.
pub proof fn law_appearance_words_are_not_theme_names(value: Seq<char>)
    ensures
        environment_theme_spec(Some(value)) is Some <==> (value.len() > 0 && environment_appearance_spec(
            Some(value),
        ) is None),
{
}

} // verus!

//! The neutral surface ladder behind bars and secondary pills: canvas, then a
//! bar a visible step away from it, then a pill a visible step from the bar.
use vstd::prelude::*;

use crate::error::{invalid, ErrorKind, SnipError};
use crate::text::push_str;
use crate::theme::color::{color_text, ThemeColor};
use crate::theme::contrast::{
    blend, contrast, contrast_of, fixed2, fixed2_string, mix_result, ratio_at_least,
};
use crate::theme::Appearance;

verus! {

/// The bar must stand 1.35:1 from the canvas (in hundredths).
pub const BAR_CONTRAST_FLOOR: u32 = 135;

/// The pill must stand 1.5:1 from the bar (in hundredths).
pub const PILL_CONTRAST_FLOOR: u32 = 150;

/// The bar and secondary-pill backgrounds.
#[derive(Clone, Copy, Debug, PartialEq, Eq, Structural)]
pub struct BarPillSurfaces {
    pub bar_bg: ThemeColor,
    pub pill_secondary: ThemeColor,
}

/// The blend, in 255ths, of step `k` of 200 toward the target: `k` half
/// percents of the way, rounded half up.
pub open spec fn surface_blend(k: int) -> int {
    (51 * k + 20) / 40
}

/// The colour a surface moves toward: white for dark themes, black for light.
pub open spec fn surface_target(appearance: Appearance) -> ThemeColor {
    match appearance {
        Appearance::Dark => ThemeColor::Rgb(255, 255, 255),
        Appearance::Light => ThemeColor::Rgb(0, 0, 0),
    }
}

/// The first step from `k` through 200 whose blend clears the floor.
pub open spec fn surface_search(
    color: ThemeColor,
    target: ThemeColor,
    reference: ThemeColor,
    floor_hundredths: int,
    k: int,
) -> Option<ThemeColor>
    decreases 201 - k,
{
    if k < 1 || k > 200 {
        None
    } else {
        let candidate = mix_result(color, target, surface_blend(k))->Ok_0;
        if ratio_at_least(contrast_of(candidate, reference)->0, floor_hundredths, 100) {
            Some(candidate)
        } else {
            surface_search(color, target, reference, floor_hundredths, k + 1)
        }
    }
}

/// The message for colours without a contrast.
pub open spec fn derive_rgb_message(color: ThemeColor, reference: ThemeColor) -> Seq<char> {
    "cannot derive surfaces from "@ + color_text(color) + " against "@ + color_text(reference)
        + ": both colors must be #rrggbb"@
}

/// The message for a colour that no step lifts to the floor.
pub open spec fn surface_floor_message(
    color: ThemeColor,
    reference: ThemeColor,
    floor_hundredths: nat,
) -> Seq<char> {
    "cannot adjust "@ + color_text(color) + " to contrast "@ + fixed2(floor_hundredths)
        + " against "@ + color_text(reference)
}

/// What one rung of the ladder gives.
pub open spec fn stepped_result(
    color: ThemeColor,
    reference: ThemeColor,
    appearance: Appearance,
    floor_hundredths: nat,
) -> Result<ThemeColor, (ErrorKind, Seq<char>)> {
    match contrast_of(color, reference) {
        None => invalid(derive_rgb_message(color, reference)),
        Some(ratio) => if ratio_at_least(ratio, floor_hundredths as int, 100) {
            Ok(color)
        } else {
            match surface_search(color, surface_target(appearance), reference, floor_hundredths as int, 1) {
                Some(found) => Ok(found),
                None => invalid(surface_floor_message(color, reference, floor_hundredths)),
            }
        },
    }
}

/// What `derive_bar_pill_surfaces` gives.
pub open spec fn surfaces_result(
    bar_source: ThemeColor,
    canvas: ThemeColor,
    appearance: Appearance,
) -> Result<BarPillSurfaces, (ErrorKind, Seq<char>)> {
    match stepped_result(bar_source, canvas, appearance, BAR_CONTRAST_FLOOR as nat) {
        Err(e) => Err(e),
        Ok(bar_bg) => match stepped_result(bar_bg, bar_bg, appearance, PILL_CONTRAST_FLOOR as nat) {
            Err(e) => Err(e),
            Ok(pill_secondary) => Ok(BarPillSurfaces { bar_bg, pill_secondary }),
        },
    }
}

/// The message for colours without a contrast.
fn derive_rgb_error(color: ThemeColor, reference: ThemeColor) -> (e: SnipError)
    ensures
        e@ == (ErrorKind::Validation, derive_rgb_message(color, reference)),
{
    let mut m = String::new();
    push_str(&mut m, "cannot derive surfaces from ");
    push_str(&mut m, color.as_string().as_str());
    push_str(&mut m, " against ");
    push_str(&mut m, reference.as_string().as_str());
    push_str(&mut m, ": both colors must be #rrggbb");
    assert(m@ =~= derive_rgb_message(color, reference));
    SnipError::validation(m)
}

/// The message for a colour that no step lifts to the floor.
fn surface_floor_error(color: ThemeColor, reference: ThemeColor, floor_hundredths: u32) -> (e:
    SnipError)
    ensures
        e@ == (ErrorKind::Validation, surface_floor_message(color, reference, floor_hundredths as nat)),
{
    let mut m = String::new();
    push_str(&mut m, "cannot adjust ");
    push_str(&mut m, color.as_string().as_str());
    push_str(&mut m, " to contrast ");
    push_str(&mut m, fixed2_string(floor_hundredths as u64).as_str());
    push_str(&mut m, " against ");
    push_str(&mut m, reference.as_string().as_str());
    assert(m@ =~= surface_floor_message(color, reference, floor_hundredths as nat));
    SnipError::validation(m)
}

/// One rung: `color` itself if it clears the floor against `reference`,
/// else the first of 200 half-percent steps toward white (dark) or black
/// (light) that does.
fn stepped_surface(
    color: ThemeColor,
    reference: ThemeColor,
    appearance: Appearance,
    floor_hundredths: u32,
) -> (r: Result<ThemeColor, SnipError>)
    requires
        floor_hundredths <= 1000,
    ensures
        result_view_color(r) == stepped_result(color, reference, appearance, floor_hundredths as nat),
{
    let ratio = match contrast(color, reference) {
        Some(ratio) => ratio,
        None => {
            return Err(derive_rgb_error(color, reference));
        },
    };
    if ratio.at_least(floor_hundredths as u128, 100) {
        return Ok(color);
    }
    let (red, green, blue) = match color {
        ThemeColor::Rgb(r, g, b) => (r, g, b),
        _ => {
            return Err(derive_rgb_error(color, reference));
        },
    };
    let to: u8 = match appearance {
        Appearance::Dark => 255,
        Appearance::Light => 0,
    };
    let ghost target = surface_target(appearance);
    let mut k: u32 = 1;
    while k <= 200
        invariant
            1 <= k <= 201,
            floor_hundredths <= 1000,
            color == ThemeColor::Rgb(red, green, blue),
            target == ThemeColor::Rgb(to, to, to),
            target == surface_target(appearance),
            contrast_of(color, reference) is Some,
            !ratio_at_least(contrast_of(color, reference)->0, floor_hundredths as int, 100),
            surface_search(color, target, reference, floor_hundredths as int, 1) == surface_search(
                color,
                target,
                reference,
                floor_hundredths as int,
                k as int,
            ),
        decreases 201 - k,
    {
        let candidate = surface_candidate(red, green, blue, to, k);
        if clears(candidate, reference, floor_hundredths) {
            return Ok(candidate);
        }
        k = k + 1;
    }
    Err(surface_floor_error(color, reference, floor_hundredths))
}

/// Step `k` of the blend of an RGB colour toward grey level `to`.
fn surface_candidate(red: u8, green: u8, blue: u8, to: u8, k: u32) -> (c: ThemeColor)
    requires
        1 <= k <= 200,
    ensures
        c == mix_result(ThemeColor::Rgb(red, green, blue), ThemeColor::Rgb(to, to, to), surface_blend(k as int))->Ok_0,
{
    let step: u32 = (51 * k + 20) / 40;
    ThemeColor::Rgb(blend(red, to, step), blend(green, to, step), blend(blue, to, step))
}

/// `candidate` has a contrast against `reference` of at least the floor.
fn clears(candidate: ThemeColor, reference: ThemeColor, floor_hundredths: u32) -> (r: bool)
    requires
        floor_hundredths <= 1000,
    ensures
        r == (contrast_of(candidate, reference) is Some && ratio_at_least(
            contrast_of(candidate, reference)->0,
            floor_hundredths as int,
            100,
        )),
{
    match contrast(candidate, reference) {
        Some(r) => r.at_least(floor_hundredths as u128, 100),
        None => false,
    }
}

/// A colour result, its error viewed as kind and message.
pub open spec fn result_view_color(r: Result<ThemeColor, SnipError>) -> Result<
    ThemeColor,
    (ErrorKind, Seq<char>),
> {
    match r {
        Ok(c) => Ok(c),
        Err(e) => Err(e@),
    }
}

/// Builds the neutral surface ladder used by bars and secondary pills.
///
/// Light themes move toward black and dark themes toward white, so both
/// appearances keep the same order: canvas, bar, then pill.
pub fn derive_bar_pill_surfaces(
    bar_source: ThemeColor,
    canvas: ThemeColor,
    appearance: Appearance,
) -> (r: Result<BarPillSurfaces, SnipError>)
    ensures
        match r {
            Ok(s) => surfaces_result(bar_source, canvas, appearance) == Ok::<
                BarPillSurfaces,
                (ErrorKind, Seq<char>),
            >(s),
            Err(e) => surfaces_result(bar_source, canvas, appearance) == Err::<
                BarPillSurfaces,
                (ErrorKind, Seq<char>),
            >(e@),
        },
{
    let bar_bg = match stepped_surface(bar_source, canvas, appearance, BAR_CONTRAST_FLOOR) {
        Ok(c) => c,
        Err(e) => {
            return Err(e);
        },
    };
    let pill_secondary = match stepped_surface(bar_bg, bar_bg, appearance, PILL_CONTRAST_FLOOR) {
        Ok(c) => c,
        Err(e) => {
            return Err(e);
        },
    };
    Ok(BarPillSurfaces { bar_bg, pill_secondary })
}

// ---------------------------------------------------------------------------
// Laws
// ---------------------------------------------------------------------------

/// Every colour the step search returns clears the floor.
proof fn lemma_surface_search_clears(
    color: ThemeColor,
    target: ThemeColor,
    reference: ThemeColor,
    floor_hundredths: int,
    k: int,
)
    ensures
        surface_search(color, target, reference, floor_hundredths, k) matches Some(c) ==> ratio_at_least(
            contrast_of(c, reference)->0,
            floor_hundredths,
            100,
        ),
    decreases 201 - k,
{
    if 1 <= k <= 200 {
        lemma_surface_search_clears(color, target, reference, floor_hundredths, k + 1);
    }
}

/// The ladder keeps its promises: the bar stands at least 1.35:1 from the
/// canvas, and the pill at least 1.5:1 from the bar.
pub proof fn law_surfaces_clear_their_floors(bar_source: ThemeColor, canvas: ThemeColor, appearance: Appearance)
    ensures
        surfaces_result(bar_source, canvas, appearance) matches Ok(s) ==> {
            &&& ratio_at_least(contrast_of(s.bar_bg, canvas)->0, BAR_CONTRAST_FLOOR as int, 100)
            &&& ratio_at_least(contrast_of(s.pill_secondary, s.bar_bg)->0, PILL_CONTRAST_FLOOR as int, 100)
        },
{
    lemma_surface_search_clears(bar_source, surface_target(appearance), canvas, BAR_CONTRAST_FLOOR as int, 1);
    if let Ok(bar_bg) = stepped_result(bar_source, canvas, appearance, BAR_CONTRAST_FLOOR as nat) {
        lemma_surface_search_clears(bar_bg, surface_target(appearance), bar_bg, PILL_CONTRAST_FLOOR as int, 1);
    }
}

} // verus!

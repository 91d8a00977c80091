//! Relative luminance and contrast ratios (WCAG 2), computed exactly on
//! integers.
//!
//! Each sRGB channel value is linearised through a table of the 256 possible
//! inputs, in units of 10^-12; luminance is then in units of 10^-16 and a
//! contrast ratio is kept as the exact fraction `(lighter + 0.05) / (darker +
//! 0.05)`, so comparisons against a floor involve no rounding.
use vstd::prelude::*;

use crate::error::{invalid, result_view, ErrorKind, SnipError};
use crate::text::{decimal, decimal_digit_char, decimal_string, push_char, push_str};
use crate::theme::color::{color_text, ThemeColor};

verus! {

/// The sRGB transfer function, linearised, for channel values 0 through 255,
/// in units of 10^-12.
pub const LINEAR_CHANNEL: [u64; 256] = [
    0, 303526984, 607053967, 910580951, 1214107934, 1517634918,
    1821161901, 2124688885, 2428215868, 2731742852, 3035269835, 3346535764,
    3676507324, 4024717018, 4391442037, 4776953481, 5181516702, 5605391624,
    6048833023, 6512090793, 6995410187, 7499032043, 8023192985, 8568125618,
    9134058702, 9721217320, 10329823030, 10960094006, 11612245180, 12286488357,
    12983032342, 13702083047, 14443843596, 15208514423, 15996293366, 16807375753,
    17641954488, 18500220128, 19382360957, 20288563057, 21219010376, 22173884793,
    23153366178, 24157632449, 25186859627, 26241221895, 27320891639, 28426039504,
    29556834438, 30713443733, 31896033073, 33104766571, 34339806809, 35601314875,
    36889450401, 38204371595, 39546235277, 40915196907, 42311410621, 43735029257,
    45186204386, 46665086337, 48171824227, 49706565984, 51269458374, 52860647023,
    54480276442, 56128490050, 57805430191, 59511238163, 61246054232, 63010017653,
    64803266693, 66625938644, 68478169844, 70360095697, 72271850682, 74213568380,
    76185381481, 78187421805, 80219820314, 82282707130, 84376211544, 86500462037,
    88655586286, 90841711183, 93058962847, 95307466631, 97587347142, 99898728247,
    102241733088, 104616484091, 107023102978, 109461710778, 111932427837, 114435373827,
    116970667759, 119538427988, 122138772230, 124771817561, 127437680436, 130136476690,
    132868321554, 135633329655, 138431615032, 141263291140, 144128470858, 147027266498,
    149959789811, 152926151996, 155926463708, 158960835061, 162029375639, 165132194502,
    168269400190, 171441100733, 174647403656, 177888415984, 181164244250, 184474994500,
    187820772301, 191201682741, 194617830442, 198069319560, 201556253794, 205078736390,
    208636870145, 212230757414, 215860500114, 219526199729, 223227957317, 226965873510,
    230740048524, 234550582161, 238397573812, 242281122466, 246201326708, 250158284730,
    254152094331, 258182852922, 262250657530, 266355604803, 270497791013, 274677312060,
    278894263477, 283148740430, 287440837727, 291770649818, 296138270798, 300543794416,
    304987314070, 309468922818, 313988713376, 318546778125, 323143209113, 327778098057,
    332451536346, 337163615048, 341914424909, 346704056355, 351532599500, 356400144146,
    361306779784, 366252595599, 371237680474, 376262122991, 381326011433, 386429433787,
    391572477750, 396755230726, 401977779832, 407240211902, 412542613484, 417885070848,
    423267669986, 428690496614, 434153636175, 439657173841, 445201194516, 450785782838,
    456411023180, 462076999654, 467783796112, 473531496148, 479320183101, 485149940056,
    491020849848, 496932995061, 502886458033, 508881320855, 514917665377, 520995573204,
    527115125706, 533276404011, 539479489012, 545724461370, 552011401512, 558340389634,
    564711505705, 571124829465, 577580440430, 584078417891, 590618840919, 597201788364,
    603827338855, 610495570808, 617206562420, 623960391675, 630757136346, 637596873994,
    644479681971, 651405637420, 658374817279, 665387298282, 672443156958, 679542469633,
    686685312435, 693871761292, 701101891933, 708375779892, 715693500506, 723055128922,
    730460740090, 737910408773, 745404209540, 752942216776, 760524504675, 768151147248,
    775822218317, 783537791526, 791297940333, 799102738014, 806952257669, 814846572216,
    822785754396, 830769876775, 838799011741, 846873231510, 854992608124, 863157213454,
    871367119199, 879622396888, 887923117882, 896269353374, 904661174391, 913098651793,
    921581856277, 930110858375, 938685728458, 947306536733, 955973353249, 964686247894,
    973445290398, 982250550333, 991102097114, 1000000000000,
];

/// Luminance is counted in units of 10^-16.
pub const LUMINANCE_UNIT: u128 = 10_000_000_000_000_000;

/// The 0.05 that the contrast ratio adds to both luminances, in luminance units.
pub const CONTRAST_OFFSET: u128 = 500_000_000_000_000;

/// The linear value of an sRGB channel.
#[verifier::opaque]
pub open spec fn linear_channel(v: u8) -> int {
    LINEAR_CHANNEL@[v as int] as int
}

/// The relative luminance of an RGB colour, in units of 10^-16; `None` for a
/// colour whose value the terminal decides.
pub open spec fn luminance_of(color: ThemeColor) -> Option<int> {
    match color {
        ThemeColor::Rgb(r, g, b) => Some(
            2126 * linear_channel(r) + 7152 * linear_channel(g) + 722 * linear_channel(b),
        ),
        _ => None,
    }
}

/// The contrast ratio of two colours as a fraction (numerator, denominator).
pub open spec fn contrast_of(a: ThemeColor, b: ThemeColor) -> Option<(int, int)> {
    match (luminance_of(a), luminance_of(b)) {
        (Some(x), Some(y)) => Some(
            (
                (if x >= y { x } else { y }) + CONTRAST_OFFSET,
                (if x >= y { y } else { x }) + CONTRAST_OFFSET,
            ),
        ),
        _ => None,
    }
}

/// The fraction `ratio` is at least `num / den`.
pub open spec fn ratio_at_least(ratio: (int, int), num: int, den: int) -> bool {
    ratio.0 * den >= ratio.1 * num
}

/// A luminance below one half: a dark colour.
pub open spec fn is_dark_luminance(l: int) -> bool {
    2 * l < LUMINANCE_UNIT
}

/// `n` hundredths written with two decimals (`{:.2}`).
pub open spec fn fixed2(hundredths: nat) -> Seq<char> {
    decimal(hundredths / 100) + seq![
        '.',
        decimal_digit_char(((hundredths % 100) / 10) as int),
        decimal_digit_char((hundredths % 10) as int),
    ]
}

/// `n` tenths written with one decimal (`{:.1}`).
pub open spec fn fixed1(tenths: nat) -> Seq<char> {
    decimal(tenths / 10) + seq!['.', decimal_digit_char((tenths % 10) as int)]
}

/// A fraction rounded to the nearest hundredth, halves up.
pub open spec fn hundredths_of(num: int, den: int) -> nat {
    ((200 * num + den) / (2 * den)) as nat
}

/// One channel blended `step` 255ths of the way from `from` to `to`, rounded.
pub open spec fn blend_channel(from: u8, to: u8, step: int) -> u8 {
    ((from * (255 - step) + to * step + 127) / 255) as u8
}

/// An RGB colour blended `step` 255ths of the way toward grey level `to`.
pub open spec fn blend_toward(r: u8, g: u8, b: u8, to: u8, step: int) -> ThemeColor {
    ThemeColor::Rgb(blend_channel(r, to, step), blend_channel(g, to, step), blend_channel(b, to, step))
}

/// The first blend of steps `step` through 255 toward `to` that clears
/// `floor_tenths` against `background`.
pub open spec fn adjust_search(
    r: u8,
    g: u8,
    b: u8,
    to: u8,
    background: ThemeColor,
    floor_tenths: int,
    step: int,
) -> Option<ThemeColor>
    decreases 256 - step,
{
    if step < 1 || step > 255 {
        None
    } else {
        let candidate = blend_toward(r, g, b, to, step);
        if ratio_at_least(contrast_of(candidate, background)->0, floor_tenths, 10) {
            Some(candidate)
        } else {
            adjust_search(r, g, b, to, background, floor_tenths, step + 1)
        }
    }
}

/// The message for colours that are not both RGB.
pub open spec fn adjust_rgb_message(color: ThemeColor, background: ThemeColor) -> Seq<char> {
    "cannot adjust "@ + color_text(color) + " against "@ + color_text(background)
        + ": both colors must be #rrggbb"@
}

/// The message for a colour that no blend lifts to the floor.
pub open spec fn adjust_floor_message(color: ThemeColor, floor_tenths: nat) -> Seq<char> {
    "cannot adjust "@ + color_text(color) + " to contrast "@ + fixed1(floor_tenths)
}

/// What `ensure_contrast(color, background, floor)` gives, the floor in tenths.
#[verifier::opaque]
pub open spec fn ensure_contrast_result(
    color: ThemeColor,
    background: ThemeColor,
    floor_tenths: nat,
) -> Result<ThemeColor, (ErrorKind, Seq<char>)> {
    match (color, background) {
        (ThemeColor::Rgb(r, g, b), ThemeColor::Rgb(_, _, _)) => {
            if ratio_at_least(contrast_of(color, background)->0, floor_tenths as int, 10) {
                Ok(color)
            } else {
                let to: u8 = if is_dark_luminance(luminance_of(background)->0) {
                    255
                } else {
                    0
                };
                match adjust_search(r, g, b, to, background, floor_tenths as int, 1) {
                    Some(adjusted) => Ok(adjusted),
                    None => invalid(adjust_floor_message(color, floor_tenths)),
                }
            }
        },
        _ => invalid(adjust_rgb_message(color, background)),
    }
}

/// The message for colours that cannot be blended.
pub open spec fn blend_rgb_message(from: ThemeColor, to: ThemeColor) -> Seq<char> {
    "cannot blend "@ + color_text(from) + " toward "@ + color_text(to)
        + ": both colors must be #rrggbb"@
}

/// What blending `from` `step` 255ths of the way toward `to` gives.
pub open spec fn mix_result(from: ThemeColor, to: ThemeColor, step: int) -> Result<
    ThemeColor,
    (ErrorKind, Seq<char>),
> {
    match (from, to) {
        (ThemeColor::Rgb(fr, fg, fb), ThemeColor::Rgb(tr, tg, tb)) => Ok(
            ThemeColor::Rgb(
                blend_channel(fr, tr, step),
                blend_channel(fg, tg, step),
                blend_channel(fb, tb, step),
            ),
        ),
        _ => invalid(blend_rgb_message(from, to)),
    }
}

/// A contrast ratio, kept as the exact fraction `numerator / denominator`.
#[derive(Clone, Copy, Debug, PartialEq, Eq, Structural)]
pub struct ContrastRatio {
    pub numerator: u128,
    pub denominator: u128,
}

impl View for ContrastRatio {
    type V = (int, int);

    open spec fn view(&self) -> (int, int) {
        (self.numerator as int, self.denominator as int)
    }
}

/// The linear value of an sRGB channel.
fn linear(v: u8) -> (r: u128)
    ensures
        r == linear_channel(v),
        r <= 1_000_000_000_000,
{
    proof {
        lemma_linear_channel_bounded(v);
        reveal(linear_channel);
    }
    LINEAR_CHANNEL[v as usize] as u128
}

/// The relative luminance of an RGB colour in units of 10^-16, or `None`
/// for a colour whose value the terminal decides.
pub fn luminance(color: ThemeColor) -> (r: Option<u128>)
    ensures
        match luminance_of(color) {
            Some(l) => r == Some(l as u128) && 0 <= l <= LUMINANCE_UNIT,
            None => r is None,
        },
{
    proof {
        lemma_luminance_bounded(color);
    }
    match color {
        ThemeColor::Rgb(r, g, b) => Some(2126 * linear(r) + 7152 * linear(g) + 722 * linear(b)),
        _ => None,
    }
}

/// The contrast ratio of two colours, or `None` unless both are RGB.
pub fn contrast(a: ThemeColor, b: ThemeColor) -> (r: Option<ContrastRatio>)
    ensures
        match contrast_of(a, b) {
            Some(ratio) => r is Some && r->0@ == ratio,
            None => r is None,
        },
        r matches Some(ratio) ==> ratio.denominator >= CONTRAST_OFFSET && ratio.numerator
            >= ratio.denominator && ratio.numerator <= 2 * LUMINANCE_UNIT,
{
    proof {
        lemma_luminance_bounded(a);
        lemma_luminance_bounded(b);
    }
    match (luminance(a), luminance(b)) {
        (Some(x), Some(y)) => {
            let (high, low) = if x >= y {
                (x, y)
            } else {
                (y, x)
            };
            Some(ContrastRatio { numerator: high + CONTRAST_OFFSET, denominator: low + CONTRAST_OFFSET })
        },
        _ => None,
    }
}

impl ContrastRatio {
    /// The ratio is at least `num / den`.
    pub fn at_least(self, num: u128, den: u128) -> (r: bool)
        requires
            num <= u32::MAX,
            den <= u32::MAX,
            self.numerator <= 2 * LUMINANCE_UNIT,
            self.denominator <= 2 * LUMINANCE_UNIT,
        ensures
            r == ratio_at_least(self@, num as int, den as int),
    {
        proof {
            lemma_product_with_u32_fits(self.numerator, den);
            lemma_product_with_u32_fits(self.denominator, num);
        }
        self.numerator * den >= self.denominator * num
    }

    /// The ratio exceeds `other`.
    pub fn exceeds(self, other: ContrastRatio) -> (r: bool)
        requires
            self.numerator <= 2 * LUMINANCE_UNIT,
            self.denominator <= 2 * LUMINANCE_UNIT,
            other.numerator <= 2 * LUMINANCE_UNIT,
            other.denominator <= 2 * LUMINANCE_UNIT,
        ensures
            r == (self@.0 * other@.1 > other@.0 * self@.1),
    {
        proof {
            lemma_product_fits(self.numerator, other.denominator);
            lemma_product_fits(other.numerator, self.denominator);
        }
        self.numerator * other.denominator > other.numerator * self.denominator
    }

    /// The ratio with two decimals (`{:.2}`).
    pub fn text2(self) -> (s: String)
        requires
            self.denominator > 0,
            self.numerator <= 2 * LUMINANCE_UNIT,
            self.denominator <= 2 * LUMINANCE_UNIT,
        ensures
            s@ == fixed2(hundredths_of(self@.0, self@.1)),
    {
        let h = (200 * self.numerator + self.denominator) / (2 * self.denominator);
        assert(h <= 200 * self.numerator + self.denominator) by (nonlinear_arith)
            requires
                h == (200 * self.numerator + self.denominator) / (2 * self.denominator),
                self.denominator > 0,
        ;
        fixed2_string(h as u64)
    }
}

/// A luminance-sized number times a `u32` fits in a `u128`.
proof fn lemma_product_with_u32_fits(x: u128, y: u128)
    requires
        x <= 2 * LUMINANCE_UNIT,
        y <= u32::MAX,
    ensures
        x * y <= 100_000_000_000_000_000_000_000_000u128,
{
    assert(x * y <= 100_000_000_000_000_000_000_000_000u128) by (nonlinear_arith)
        requires
            x <= 20_000_000_000_000_000u128,
            y <= 4_294_967_295u128,
    ;
}

/// Products of two terms no larger than 2 * 10^16 fit in 128 bits.
proof fn lemma_product_fits(x: u128, y: u128)
    requires
        x <= 2 * LUMINANCE_UNIT,
        y <= 2 * LUMINANCE_UNIT,
    ensures
        x * y <= 400_000_000_000_000_000_000_000_000_000_000u128,
{
    assert(x * y <= 400_000_000_000_000_000_000_000_000_000_000u128) by (nonlinear_arith)
        requires
            x <= 20_000_000_000_000_000u128,
            y <= 20_000_000_000_000_000u128,
    ;
}

/// A luminance is between zero and one (10^16 units).
pub proof fn lemma_luminance_bounded(color: ThemeColor)
    ensures
        luminance_of(color) matches Some(l) ==> 0 <= l <= LUMINANCE_UNIT,
{
    if let ThemeColor::Rgb(r, g, b) = color {
        lemma_linear_channel_bounded(r);
        lemma_linear_channel_bounded(g);
        lemma_linear_channel_bounded(b);
    }
}

/// Every linear channel value is at most one (10^12 units).
#[verifier::rlimit(100)]
pub proof fn lemma_linear_channel_bounded(v: u8)
    ensures
        0 <= linear_channel(v) <= 1_000_000_000_000,
{
    reveal(linear_channel);
    assert(LINEAR_CHANNEL@[v as int] <= 1_000_000_000_000u64);
}

/// `hundredths` with two decimals.
pub fn fixed2_string(hundredths: u64) -> (s: String)
    ensures
        s@ == fixed2(hundredths as nat),
{
    let mut s = decimal_string(hundredths / 100);
    push_char(&mut s, '.');
    push_char(&mut s, (((hundredths % 100) / 10) as u8 + 48) as char);
    push_char(&mut s, ((hundredths % 10) as u8 + 48) as char);
    assert(s@ =~= fixed2(hundredths as nat));
    s
}

/// `tenths` with one decimal.
pub fn fixed1_string(tenths: u64) -> (s: String)
    ensures
        s@ == fixed1(tenths as nat),
{
    let mut s = decimal_string(tenths / 10);
    push_char(&mut s, '.');
    push_char(&mut s, ((tenths % 10) as u8 + 48) as char);
    assert(s@ =~= fixed1(tenths as nat));
    s
}

/// One channel blended `step` 255ths of the way from `from` to `to`.
pub fn blend(from: u8, to: u8, step: u32) -> (r: u8)
    requires
        step <= 255,
    ensures
        r == blend_channel(from, to, step as int),
{
    assert((from as u32) * (255 - step) <= 255 * (255 - step)) by (nonlinear_arith)
        requires
            from <= 255,
            step <= 255,
    ;
    assert((to as u32) * step <= 255 * step) by (nonlinear_arith)
        requires
            to <= 255,
            step <= 255,
    ;
    let total: u32 = (from as u32) * (255 - step) + (to as u32) * step + 127;
    (total / 255) as u8
}

/// The message for colours that are not both RGB.
fn adjust_rgb_error(color: ThemeColor, background: ThemeColor) -> (e: SnipError)
    ensures
        e@ == (ErrorKind::Validation, adjust_rgb_message(color, background)),
{
    let mut m = String::new();
    push_str(&mut m, "cannot adjust ");
    push_str(&mut m, color.as_string().as_str());
    push_str(&mut m, " against ");
    push_str(&mut m, background.as_string().as_str());
    push_str(&mut m, ": both colors must be #rrggbb");
    assert(m@ =~= adjust_rgb_message(color, background));
    SnipError::validation(m)
}

/// The message for a colour that no blend lifts to the floor.
fn adjust_floor_error(color: ThemeColor, floor_tenths: u32) -> (e: SnipError)
    ensures
        e@ == (ErrorKind::Validation, adjust_floor_message(color, floor_tenths as nat)),
{
    let mut m = String::new();
    push_str(&mut m, "cannot adjust ");
    push_str(&mut m, color.as_string().as_str());
    push_str(&mut m, " to contrast ");
    push_str(&mut m, fixed1_string(floor_tenths as u64).as_str());
    assert(m@ =~= adjust_floor_message(color, floor_tenths as nat));
    SnipError::validation(m)
}

/// The first of the blends 1..=255 of (`red`, `green`, `blue`) toward `to`
/// whose contrast against `background` clears `floor_tenths`.
fn first_clearing_blend(
    red: u8,
    green: u8,
    blue: u8,
    to: u8,
    background: ThemeColor,
    floor_tenths: u32,
) -> (r: Option<ThemeColor>)
    requires
        background is Rgb,
    ensures
        r == adjust_search(red, green, blue, to, background, floor_tenths as int, 1),
{
    let mut step: u32 = 1;
    while step <= 255
        invariant
            1 <= step <= 256,
            background is Rgb,
            adjust_search(red, green, blue, to, background, floor_tenths as int, 1)
                == adjust_search(red, green, blue, to, background, floor_tenths as int, step as int),
        decreases 256 - step,
    {
        let candidate = ThemeColor::Rgb(blend(red, to, step), blend(green, to, step), blend(blue, to, step));
        assert(candidate == blend_toward(red, green, blue, to, step as int));
        let clears = match contrast(candidate, background) {
            Some(ratio) => ratio.at_least(floor_tenths as u128, 10),
            None => false,
        };
        if clears {
            return Some(candidate);
        }
        step = step + 1;
    }
    None
}

/// Blends `color` toward white (on a dark background) or black (on a light
/// one), one 255th at a time, until its contrast against `background` clears
/// `floor_tenths` tenths. Returns `color` unchanged when it already does.
pub fn ensure_contrast(color: ThemeColor, background: ThemeColor, floor_tenths: u32) -> (r: Result<
    ThemeColor,
    SnipError,
>)
    ensures
        result_view(r) == ensure_contrast_result(color, background, floor_tenths as nat),
{
    reveal(ensure_contrast_result);
    match (color, background) {
        (ThemeColor::Rgb(red, green, blue), ThemeColor::Rgb(_, _, _)) => {
            let ratio = match contrast(color, background) {
                Some(ratio) => ratio,
                None => {
                    return Err(adjust_rgb_error(color, background));
                },
            };
            if ratio.at_least(floor_tenths as u128, 10) {
                return Ok(color);
            }
            let lum = match luminance(background) {
                Some(l) => l,
                None => {
                    return Err(adjust_rgb_error(color, background));
                },
            };
            proof {
                lemma_luminance_bounded(background);
            }
            let to: u8 = if 2 * lum < LUMINANCE_UNIT {
                255
            } else {
                0
            };
            match first_clearing_blend(red, green, blue, to, background, floor_tenths) {
                Some(candidate) => Ok(candidate),
                None => Err(adjust_floor_error(color, floor_tenths)),
            }
        },
        _ => Err(adjust_rgb_error(color, background)),
    }
}

/// The message for colours that cannot be blended.
fn blend_rgb_error(from: ThemeColor, to: ThemeColor) -> (e: SnipError)
    ensures
        e@ == (ErrorKind::Validation, blend_rgb_message(from, to)),
{
    let mut m = String::new();
    push_str(&mut m, "cannot blend ");
    push_str(&mut m, from.as_string().as_str());
    push_str(&mut m, " toward ");
    push_str(&mut m, to.as_string().as_str());
    push_str(&mut m, ": both colors must be #rrggbb");
    assert(m@ =~= blend_rgb_message(from, to));
    SnipError::validation(m)
}

/// Blends `from` `step` 255ths of the way toward `to`: 0 gives `from`, 255
/// gives `to`. Both must be RGB.
pub fn mix_step(from: ThemeColor, to: ThemeColor, step: u32) -> (r: Result<ThemeColor, SnipError>)
    requires
        step <= 255,
    ensures
        result_view(r) == mix_result(from, to, step as int),
{
    match (from, to) {
        (ThemeColor::Rgb(fr, fg, fb), ThemeColor::Rgb(tr, tg, tb)) => Ok(
            ThemeColor::Rgb(blend(fr, tr, step), blend(fg, tg, step), blend(fb, tb, step)),
        ),
        _ => Err(blend_rgb_error(from, to)),
    }
}

// ---------------------------------------------------------------------------
// Laws
// ---------------------------------------------------------------------------

/// Every colour the blend search returns clears the floor.
proof fn lemma_adjust_search_clears(
    r: u8,
    g: u8,
    b: u8,
    to: u8,
    background: ThemeColor,
    floor_tenths: int,
    step: int,
)
    ensures
        adjust_search(r, g, b, to, background, floor_tenths, step) matches Some(c) ==> ratio_at_least(
            contrast_of(c, background)->0,
            floor_tenths,
            10,
        ) && c is Rgb,
    decreases 256 - step,
{
    if 1 <= step <= 255 {
        lemma_adjust_search_clears(r, g, b, to, background, floor_tenths, step + 1);
    }
}

/// `ensure_contrast` hands back the colour itself when it already clears the
/// floor against the background, and otherwise a colour that does.
pub proof fn law_ensure_contrast_clears_the_floor(color: ThemeColor, background: ThemeColor, floor_tenths: nat)
    ensures
        ensure_contrast_result(color, background, floor_tenths) matches Ok(c) ==> contrast_of(c, background) is Some
            && ratio_at_least(contrast_of(c, background)->0, floor_tenths as int, 10),
        (contrast_of(color, background) matches Some(ratio) && ratio_at_least(ratio, floor_tenths as int, 10))
            ==> ensure_contrast_result(color, background, floor_tenths) == Ok::<
            ThemeColor,
            (ErrorKind, Seq<char>),
        >(color),
{
    reveal(ensure_contrast_result);
    if let (ThemeColor::Rgb(r, g, b), ThemeColor::Rgb(_, _, _)) = (color, background) {
        let to: u8 = if is_dark_luminance(luminance_of(background)->0) {
            255
        } else {
            0
        };
        lemma_adjust_search_clears(r, g, b, to, background, floor_tenths as int, 1);
    }
}

/// `c` reaches `floor_tenths` tenths of contrast against `background`.
pub open spec fn reaches_floor(c: ThemeColor, background: ThemeColor, floor_tenths: int) -> bool {
    contrast_of(c, background) is Some && ratio_at_least(contrast_of(c, background)->0, floor_tenths, 10)
}

/// The grey a colour is blended toward against `background`: white on a
/// background darker than one half luminance, black on any other.
pub open spec fn blend_target(background: ThemeColor) -> u8 {
    if 2 * luminance_of(background)->0 < LUMINANCE_UNIT {
        255
    } else {
        0
    }
}

/// What the blend search from `step` finds: the blend at the first step
/// from `step` on that reaches the floor, or, when it finds none, no step
/// from `step` through 255 reaches it.
proof fn lemma_adjust_search_first(
    r: u8,
    g: u8,
    b: u8,
    to: u8,
    background: ThemeColor,
    floor_tenths: int,
    step: int,
)
    requires
        1 <= step <= 256,
        background is Rgb,
    ensures
        adjust_search(r, g, b, to, background, floor_tenths, step) matches Some(x) ==> exists|s: int|
            step <= s <= 255 && x == #[trigger] blend_toward(r, g, b, to, s) && reaches_floor(x, background, floor_tenths)
                && forall|t: int|
                step <= t < s ==> !reaches_floor(#[trigger] blend_toward(r, g, b, to, t), background, floor_tenths),
        adjust_search(r, g, b, to, background, floor_tenths, step) is None ==> forall|t: int|
            step <= t <= 255 ==> !reaches_floor(#[trigger] blend_toward(r, g, b, to, t), background, floor_tenths),
    decreases 256 - step,
{
    if step <= 255 {
        lemma_adjust_search_first(r, g, b, to, background, floor_tenths, step + 1);
        let here = blend_toward(r, g, b, to, step);
        assert(contrast_of(here, background) is Some);
        if !reaches_floor(here, background, floor_tenths) {
            if let Some(x) = adjust_search(r, g, b, to, background, floor_tenths, step + 1) {
                let s = choose|s: int|
                    step + 1 <= s <= 255 && x == #[trigger] blend_toward(r, g, b, to, s) && reaches_floor(
                        x,
                        background,
                        floor_tenths,
                    ) && forall|t: int|
                        step + 1 <= t < s ==> !reaches_floor(
                            #[trigger] blend_toward(r, g, b, to, t),
                            background,
                            floor_tenths,
                        );
                assert forall|t: int| step <= t < s implies !reaches_floor(
                    #[trigger] blend_toward(r, g, b, to, t),
                    background,
                    floor_tenths,
                ) by {
                    if t == step {
                        assert(blend_toward(r, g, b, to, t) == here);
                    }
                }
            }
        } else {
            assert(forall|t: int| step <= t < step ==> !reaches_floor(
                #[trigger] blend_toward(r, g, b, to, t),
                background,
                floor_tenths,
            ));
        }
    }
}

/// A colour that falls short of the floor is blended toward white (on a
/// background darker than one half luminance) or black (on a lighter one)
/// one 255th at a time, and the answer is the blend at the first step that
/// reaches the floor: it reaches it, and no earlier step does. It fails
/// only when no step from 1 through 255 reaches the floor.
pub proof fn law_adjusted_colour_is_the_first_blend_that_clears(
    r: u8,
    g: u8,
    b: u8,
    background: ThemeColor,
    floor_tenths: nat,
)
    requires
        background is Rgb,
        !reaches_floor(ThemeColor::Rgb(r, g, b), background, floor_tenths as int),
    ensures
        ensure_contrast_result(ThemeColor::Rgb(r, g, b), background, floor_tenths) matches Ok(x) ==> exists|s: int|
            1 <= s <= 255 && x == #[trigger] blend_toward(r, g, b, blend_target(background), s) && reaches_floor(
                x,
                background,
                floor_tenths as int,
            ) && forall|t: int|
                1 <= t < s ==> !reaches_floor(
                    #[trigger] blend_toward(r, g, b, blend_target(background), t),
                    background,
                    floor_tenths as int,
                ),
        ensure_contrast_result(ThemeColor::Rgb(r, g, b), background, floor_tenths) is Err ==> forall|t: int|
            1 <= t <= 255 ==> !reaches_floor(
                #[trigger] blend_toward(r, g, b, blend_target(background), t),
                background,
                floor_tenths as int,
            ),
{
    reveal(ensure_contrast_result);
    let to = blend_target(background);
    assert(to == (if is_dark_luminance(luminance_of(background)->0) { 255u8 } else { 0u8 }));
    lemma_adjust_search_first(r, g, b, to, background, floor_tenths as int, 1);
}

/// A blend starts at the colour and ends at the target: step 0 leaves a
/// channel as it is, step 255 gives the target, and every step in between
/// lies between the two.
pub proof fn law_blend_runs_from_colour_to_target(from: u8, to: u8, step: int)
    requires
        0 <= step <= 255,
    ensures
        blend_channel(from, to, 0) == from,
        blend_channel(from, to, 255) == to,
        from <= to ==> from <= blend_channel(from, to, step) <= to,
        to <= from ==> to <= blend_channel(from, to, step) <= from,
{
    assert((from * 255 + 127) / 255 == from as int) by (nonlinear_arith)
        requires
            0 <= from <= 255,
    ;
    assert((from * 0 + to * 255 + 127) / 255 == to as int) by (nonlinear_arith)
        requires
            0 <= to <= 255,
    ;
    let total = from * (255 - step) + to * step;
    let v = (total + 127) / 255;
    if from <= to {
        assert(from * 255 <= total <= to * 255) by (nonlinear_arith)
            requires
                total == from * (255 - step) + to * step,
                0 <= step <= 255,
                0 <= from <= to,
        ;
        assert(from <= v <= to) by (nonlinear_arith)
            requires
                from * 255 <= total <= to * 255,
                v == (total + 127) / 255,
        ;
    } else {
        assert(to * 255 <= total <= from * 255) by (nonlinear_arith)
            requires
                total == from * (255 - step) + to * step,
                0 <= step <= 255,
                0 <= to <= from,
        ;
        assert(to <= v <= from) by (nonlinear_arith)
            requires
                to * 255 <= total <= from * 255,
                v == (total + 127) / 255,
        ;
    }
}

/// Black has luminance 0 and white luminance 1 (one `LUMINANCE_UNIT`), so
/// every RGB colour's luminance lies between the two, and white on black is
/// the highest contrast there is, 21:1.
pub proof fn law_black_and_white_bound_luminance()
    ensures
        luminance_of(ThemeColor::Rgb(0, 0, 0)) == Some(0int),
        luminance_of(ThemeColor::Rgb(255, 255, 255)) == Some(LUMINANCE_UNIT as int),
        contrast_of(ThemeColor::Rgb(255, 255, 255), ThemeColor::Rgb(0, 0, 0)) matches Some(ratio)
            && ratio.0 == 21 * ratio.1,
{
    reveal(linear_channel);
    assert(LINEAR_CHANNEL@[0] == 0);
    assert(LINEAR_CHANNEL@[255] == 1000000000000);
}

} // verus!

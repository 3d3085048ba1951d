//! The four parameter blocks of the viewer and the rules that keep each one in
//! its range.

use vstd::prelude::*;
use vstd::arithmetic::power2::{lemma2_to64, lemma_pow2_adds, pow2};
use crate::binary32::{one, within_is_between, word, Binary32};
use crate::uniform::Block;

verus! {

/// The word of -2, the least coordinate of the center.
pub const CENTER_MIN: u32 = 0xc000_0000;

/// The word of 2, the greatest coordinate of the center.
pub const CENTER_MAX: u32 = 0x4000_0000;

/// The word of the single-precision value nearest to 0.00001, the least zoom
/// scale.
pub const ZOOM_MIN: u32 = 0x3727_c5ac;

/// The word of 1.5, the greatest zoom scale.
pub const ZOOM_MAX: u32 = 0x3fc0_0000;

/// The word of the single-precision value nearest to 1.2, by which the zoom
/// scale grows when zooming out.
pub const ZOOM_FACTOR: u32 = 0x3f99_999a;

/// The word of 1 divided by the value of [`ZOOM_FACTOR`] in single precision,
/// by which the zoom scale shrinks when zooming in.
pub const ZOOM_FACTOR_INVERSE: u32 = 0x3f55_5555;

/// The word of 0, the least value of a colour channel.
pub const CHANNEL_MIN: u32 = 0;

/// The word of 1, the greatest value of a colour channel.
pub const CHANNEL_MAX: u32 = 0x3f80_0000;

/// The greatest iteration cap.
pub const ITERATIONS_MAX: i32 = 10000;

/// The word of 1, the least side of a window in pixels that a viewport is
/// made for.
pub const DIMENSION_MIN: u32 = 0x3f80_0000;

/// The word of 2 to the power of 32, the greatest side of a window in pixels
/// that a viewport is made for.
pub const DIMENSION_MAX: u32 = 0x4f80_0000;

/// The word of 0.5, half the least side of a window.
pub const HALF_MIN: u32 = 0x3f00_0000;

/// The word of 2 to the power of 31, half the greatest side of a window.
pub const HALF_MAX: u32 = 0x4f00_0000;

/// The word of 2 to the power of -32, the ratio of the least side to the
/// greatest.
pub const RATIO_MIN: u32 = 0x2f80_0000;

/// The word of 2 to the power of 32, the ratio of the greatest side to the
/// least.
pub const RATIO_MAX: u32 = 0x4f80_0000;

/// The word of 1, the ratio of a square window.
pub const RATIO_SQUARE: u32 = 0x3f80_0000;

/// Half the window's width and height in pixels, and its width divided by its
/// height.
///
/// A viewport is made for a window whose sides are within 1 ..= 2^32 pixels:
/// each half extent is a number within 0.5 ..= 2^31 and the ratio a number
/// within 2^-32 ..= 2^32, so that no division by a half extent or by the
/// ratio's height is a division by zero.
#[derive(Debug, Clone, Copy)]
pub struct Viewport {
    half_viewport_x: Binary32,
    half_viewport_y: Binary32,
    ratio: Binary32,
}

impl Viewport {
    /// Half the width of the window.
    pub closed spec fn half_x(self) -> Binary32 {
        self.half_viewport_x
    }

    /// Half the height of the window.
    pub closed spec fn half_y(self) -> Binary32 {
        self.half_viewport_y
    }

    /// The width of the window divided by its height.
    pub closed spec fn aspect(self) -> Binary32 {
        self.ratio
    }

    /// A side of a window brought into 1 ..= 2^32 pixels; a side that is not a
    /// number counts as the least.
    pub open spec fn dimension_guarded(size: Binary32) -> Binary32 {
        size.clamped_or(word(DIMENSION_MIN), word(DIMENSION_MAX), word(DIMENSION_MIN))
    }

    /// A half extent brought into 0.5 ..= 2^31; one that is not a number
    /// counts as the least.
    pub open spec fn half_guarded(half: Binary32) -> Binary32 {
        half.clamped_or(word(HALF_MIN), word(HALF_MAX), word(HALF_MIN))
    }

    /// A ratio brought into 2^-32 ..= 2^32; one that is not a number counts as
    /// the ratio of a square.
    pub open spec fn ratio_guarded(ratio: Binary32) -> Binary32 {
        ratio.clamped_or(word(RATIO_MIN), word(RATIO_MAX), word(RATIO_SQUARE))
    }

    /// Every field is a number in its range. This holds of every viewport
    /// that there is.
    #[verifier::type_invariant]
    pub open spec fn defined(self) -> bool {
        &&& self.half_x().within(word(HALF_MIN), word(HALF_MAX))
        &&& self.half_y().within(word(HALF_MIN), word(HALF_MAX))
        &&& self.aspect().within(word(RATIO_MIN), word(RATIO_MAX))
    }

    /// The side of a window that the viewport is computed from: `size`
    /// brought into 1 ..= 2^32 pixels. A window without width or height, or
    /// with a side that is negative or not a number, counts as one pixel wide
    /// or high, so that the quotients of the sides are numbers.
    pub fn dimension(size: Binary32) -> (r: Binary32)
        ensures
            r == Self::dimension_guarded(size),
            r.within(word(DIMENSION_MIN), word(DIMENSION_MAX)),
    {
        let least = Binary32::from_bits(DIMENSION_MIN);
        size.clamp_or(least, Binary32::from_bits(DIMENSION_MAX), least)
    }

    /// The viewport of the given half extents and ratio, each brought into
    /// its range. For the quotients of two sides from [`Viewport::dimension`]
    /// that changes nothing.
    pub fn new(half_viewport_x: Binary32, half_viewport_y: Binary32, ratio: Binary32) -> (r: Self)
        ensures
            r.half_x() == Self::half_guarded(half_viewport_x),
            r.half_y() == Self::half_guarded(half_viewport_y),
            r.aspect() == Self::ratio_guarded(ratio),
            r.defined(),
    {
        let least = Binary32::from_bits(HALF_MIN);
        let most = Binary32::from_bits(HALF_MAX);
        Viewport {
            half_viewport_x: half_viewport_x.clamp_or(least, most, least),
            half_viewport_y: half_viewport_y.clamp_or(least, most, least),
            ratio: ratio.clamp_or(
                Binary32::from_bits(RATIO_MIN),
                Binary32::from_bits(RATIO_MAX),
                Binary32::from_bits(RATIO_SQUARE),
            ),
        }
    }

    /// Half the width of the window.
    pub fn half_viewport_x(&self) -> (r: Binary32)
        ensures
            r == self.half_x(),
            self.defined(),
    {
        proof {
            use_type_invariant(self);
        }
        self.half_viewport_x
    }

    /// Half the height of the window.
    pub fn half_viewport_y(&self) -> (r: Binary32)
        ensures
            r == self.half_y(),
            self.defined(),
    {
        proof {
            use_type_invariant(self);
        }
        self.half_viewport_y
    }

    /// The width of the window divided by its height.
    pub fn ratio(&self) -> (r: Binary32)
        ensures
            r == self.aspect(),
            self.defined(),
    {
        proof {
            use_type_invariant(self);
        }
        self.ratio
    }
}

impl Block for Viewport {
    open spec fn words(&self) -> Seq<u32> {
        seq![self.half_x().bits, self.half_y().bits, self.aspect().bits]
    }

    fn to_words(&self) -> (words: Vec<u32>) {
        vec![self.half_viewport_x.bits, self.half_viewport_y.bits, self.ratio.bits]
    }
}

/// The direction of one zoom step.
#[derive(Debug, Clone, Copy, PartialEq, Eq, Structural)]
pub enum Zoom {
    In,
    Out,
}

impl Zoom {
    /// The factor that one step in this direction applies to the zoom scale.
    pub open spec fn scale(self) -> Binary32 {
        match self {
            Zoom::In => word(ZOOM_FACTOR_INVERSE),
            Zoom::Out => word(ZOOM_FACTOR),
        }
    }

    /// The factor that one step in this direction applies to the zoom scale:
    /// a smaller scale magnifies more.
    pub fn factor(self) -> (r: Binary32)
        ensures
            r == self.scale(),
    {
        match self {
            Zoom::In => Binary32::from_bits(ZOOM_FACTOR_INVERSE),
            Zoom::Out => Binary32::from_bits(ZOOM_FACTOR),
        }
    }
}

/// One change of the view: a new center, or a new zoom scale.
pub enum Change {
    Center(Binary32, Binary32),
    Zoom(Binary32),
}

/// The point of the complex plane at the middle of the window, and the zoom
/// scale.
///
/// Each coordinate of the center is a number within -2 ..= 2 and the scale
/// is a number within [`ZOOM_MIN`] ..= [`ZOOM_MAX`], whatever they were set
/// from: a word that is not a number is ignored, and the field keeps the
/// value it had.
#[derive(Debug, Clone, Copy)]
pub struct Coordinates {
    real: Binary32,
    imag: Binary32,
    zoom: Binary32,
}

impl Coordinates {
    /// The center: its real and its imaginary coordinate.
    pub closed spec fn center(self) -> (Binary32, Binary32) {
        (self.real, self.imag)
    }

    /// The zoom scale.
    pub closed spec fn zoom(self) -> Binary32 {
        self.zoom
    }

    /// The view of a new scene: the origin at the greatest scale.
    pub closed spec fn start() -> Self {
        Coordinates {
            real: word(0),
            imag: word(0),
            zoom: word(ZOOM_MAX),
        }
    }

    /// The view after one change.
    pub closed spec fn changed(self, change: Change) -> Self {
        match change {
            Change::Center(re, im) => Coordinates {
                real: Self::center_clamped(re, self.real),
                imag: Self::center_clamped(im, self.imag),
                zoom: self.zoom,
            },
            Change::Zoom(zoom) => Coordinates {
                real: self.real,
                imag: self.imag,
                zoom: Self::zoom_clamped(zoom, self.zoom),
            },
        }
    }

    /// The view after a run of changes.
    pub open spec fn changed_all(self, changes: Seq<Change>) -> Self
        decreases changes.len(),
    {
        if changes.len() == 0 {
            self
        } else {
            self.changed_all(changes.drop_last()).changed(changes.last())
        }
    }

    /// What a coordinate of the center becomes when `x` is asked for: `x`
    /// brought into -2 ..= 2, or `former`, the coordinate as it was, where `x`
    /// is not a number.
    pub open spec fn center_clamped(x: Binary32, former: Binary32) -> Binary32 {
        x.clamped_or(word(CENTER_MIN), word(CENTER_MAX), former)
    }

    /// What the zoom scale becomes when `x` is asked for: `x` brought into
    /// [`ZOOM_MIN`] ..= [`ZOOM_MAX`], or `former`, the scale as it was, where
    /// `x` is not a number.
    pub open spec fn zoom_clamped(x: Binary32, former: Binary32) -> Binary32 {
        x.clamped_or(word(ZOOM_MIN), word(ZOOM_MAX), former)
    }

    /// Every field is a number and lies in its range. This holds of every
    /// view that there is.
    #[verifier::type_invariant]
    pub open spec fn bounded(self) -> bool {
        &&& self.center().0.within(word(CENTER_MIN), word(CENTER_MAX))
        &&& self.center().1.within(word(CENTER_MIN), word(CENTER_MAX))
        &&& self.zoom().within(word(ZOOM_MIN), word(ZOOM_MAX))
    }

    /// The center: its real and its imaginary coordinate.
    pub fn get_complex(&self) -> (complex: (Binary32, Binary32))
        ensures
            complex == self.center(),
            self.bounded(),
    {
        proof {
            use_type_invariant(self);
        }
        (self.real, self.imag)
    }

    /// Moves the center to `complex`, each coordinate brought into -2 ..= 2.
    /// A coordinate that is not a number is ignored: that coordinate of the
    /// center stays as it is.
    pub fn set_complex(self, complex: (Binary32, Binary32)) -> (r: Self)
        ensures
            r == self.changed(Change::Center(complex.0, complex.1)),
            r.center() == (
                Self::center_clamped(complex.0, self.center().0),
                Self::center_clamped(complex.1, self.center().1),
            ),
            r.zoom() == self.zoom(),
            r.bounded(),
    {
        proof {
            use_type_invariant(self);
        }
        let lo = Binary32::from_bits(CENTER_MIN);
        let hi = Binary32::from_bits(CENTER_MAX);
        Coordinates {
            real: complex.0.clamp_or(lo, hi, self.real),
            imag: complex.1.clamp_or(lo, hi, self.imag),
            zoom: self.zoom,
        }
    }

    /// The zoom scale.
    pub fn get_zoom(&self) -> (zoom: Binary32)
        ensures
            zoom == self.zoom(),
            self.bounded(),
    {
        proof {
            use_type_invariant(self);
        }
        self.zoom
    }

    /// Sets the zoom scale to `zoom` brought into [`ZOOM_MIN`] ..= [`ZOOM_MAX`].
    /// A scale that is not a number is ignored: the scale stays as it is.
    pub fn set_zoom(self, zoom: Binary32) -> (r: Self)
        ensures
            r == self.changed(Change::Zoom(zoom)),
            r.zoom() == Self::zoom_clamped(zoom, self.zoom()),
            r.center() == self.center(),
            r.bounded(),
    {
        proof {
            use_type_invariant(self);
        }
        let lo = Binary32::from_bits(ZOOM_MIN);
        let hi = Binary32::from_bits(ZOOM_MAX);
        Coordinates { real: self.real, imag: self.imag, zoom: zoom.clamp_or(lo, hi, self.zoom) }
    }
}

/// What a change does to the view: it replaces the center or the scale by
/// what it asks for, brought into range, and leaves the other as it was; what
/// is not a number leaves its field as it was.
pub proof fn change_of_view(view: Coordinates, change: Change)
    ensures
        change matches Change::Center(re, im) ==> view.changed(change).center() == (
            Coordinates::center_clamped(re, view.center().0),
            Coordinates::center_clamped(im, view.center().1),
        ) && view.changed(change).zoom() == view.zoom(),
        change matches Change::Zoom(zoom) ==> view.changed(change).zoom()
            == Coordinates::zoom_clamped(zoom, view.zoom()) && view.changed(change).center()
            == view.center(),
{
}

/// Every change keeps the view in range, whatever it asks for: numbers far
/// out of range, infinities, words that are not numbers.
pub proof fn change_stays_bounded(view: Coordinates, change: Change)
    requires
        view.bounded(),
    ensures
        view.changed(change).bounded(),
{
}

/// The new view has every field in range, and so has every view that any run
/// of changes makes of it.
pub proof fn view_stays_bounded(changes: Seq<Change>)
    ensures
        Coordinates::start().bounded(),
        Coordinates::start().changed_all(changes).bounded(),
    decreases changes.len(),
{
    if changes.len() > 0 {
        view_stays_bounded(changes.drop_last());
        change_stays_bounded(Coordinates::start().changed_all(changes.drop_last()), changes.last());
    }
}

/// The values of the bounds: the center lies within -2 ..= 2, and the zoom
/// scale between the single-precision value next to 0.00001, which is less
/// than half a step under it, and 1.5.
pub proof fn values_of_bounds()
    ensures
        word(CENTER_MIN).scaled() == -2 * one(),
        word(CENTER_MAX).scaled() == 2 * one(),
        2 * word(ZOOM_MAX).scaled() == 3 * one(),
        100000 * word(ZOOM_MIN).scaled() <= one(),
        one() - 100000 * word(ZOOM_MIN).scaled() <= 50000 * word(ZOOM_MIN).step(),
        word(CHANNEL_MIN).scaled() == 0,
        word(CHANNEL_MAX).scaled() == one(),
{
    lemma2_to64();
    lemma_pow2_adds(23, 127);
    lemma_pow2_adds(1, 149);
    lemma_pow2_adds(23, 126);
    lemma_pow2_adds(1, 148);
    lemma_pow2_adds(40, 109);
    lemma_pow2_adds(8, 32);
    let p = pow2(109) as int;
    assert(word(CENTER_MAX).exponent() == 128);
    assert(word(CENTER_MIN).exponent() == 128);
    assert(word(ZOOM_MAX).exponent() == 127);
    assert(word(ZOOM_MAX).fraction() == 0x40_0000);
    assert(word(ZOOM_MIN).exponent() == 110);
    assert(word(ZOOM_MIN).fraction() == 0x27_c5ac);
    assert(word((ZOOM_MIN + 1) as u32).exponent() == 110);
    assert(word((ZOOM_MIN + 1) as u32).fraction() == 0x27_c5ad);
    assert(word(CHANNEL_MAX).exponent() == 127);
    assert(word(ZOOM_MAX).scaled() == 0xc0_0000 * pow2(126));
    assert(0xc0_0000 * pow2(126) == 3 * (0x40_0000 * pow2(126))) by (nonlinear_arith);
    assert(2 * (0x40_0000 * pow2(126)) == 0x80_0000 * pow2(126)) by (nonlinear_arith);
    assert(one() == 0x100_0000_0000 * p);
    assert(word(ZOOM_MIN).scaled() == 0xa7_c5ac * p);
    assert(word((ZOOM_MIN + 1) as u32).scaled() == 0xa7_c5ad * p);
    assert(100000 * (0xa7_c5ac * p) + 27776 * p == 0x100_0000_0000 * p) by (nonlinear_arith);
    assert(0xa7_c5ad * p - 0xa7_c5ac * p == p) by (nonlinear_arith);
    assert(0 <= 27776 * p <= 50000 * p) by (nonlinear_arith)
        requires
            p >= 0,
    ;
}

/// The values of the bounds of a viewport: a side of the window lies within
/// 1 ..= 2^32, so half a side within 0.5 ..= 2^31 and the ratio of two sides
/// within 2^-32 ..= 2^32.
pub proof fn values_of_viewport_bounds()
    ensures
        word(DIMENSION_MIN).scaled() == one(),
        word(DIMENSION_MAX).scaled() == pow2(32) * one(),
        2 * word(HALF_MIN).scaled() == one(),
        word(HALF_MAX).scaled() == pow2(31) * one(),
        pow2(32) * word(RATIO_MIN).scaled() == one(),
        word(RATIO_MAX).scaled() == pow2(32) * one(),
        word(RATIO_SQUARE).scaled() == one(),
{
    lemma2_to64();
    lemma_pow2_adds(23, 126);
    lemma_pow2_adds(23, 158);
    lemma_pow2_adds(32, 149);
    lemma_pow2_adds(23, 125);
    lemma_pow2_adds(1, 148);
    lemma_pow2_adds(23, 157);
    lemma_pow2_adds(31, 149);
    lemma_pow2_adds(23, 94);
    lemma_pow2_adds(32, 117);
    assert(word(DIMENSION_MIN).exponent() == 127 && word(DIMENSION_MIN).fraction() == 0);
    assert(word(DIMENSION_MAX).exponent() == 159 && word(DIMENSION_MAX).fraction() == 0);
    assert(word(HALF_MIN).exponent() == 126 && word(HALF_MIN).fraction() == 0);
    assert(word(HALF_MAX).exponent() == 158 && word(HALF_MAX).fraction() == 0);
    assert(word(RATIO_MIN).exponent() == 95 && word(RATIO_MIN).fraction() == 0);
}

/// The values of the zoom factors: the factor for zooming out is the
/// single-precision value next to 1.2, which is less than half a step over
/// it, and the factor for zooming in is the single-precision value next to 1
/// divided by that factor, less than half a step over the quotient.
pub proof fn values_of_factors()
    ensures
        6 * one() <= 5 * Zoom::Out.scale().scaled(),
        2 * (5 * Zoom::Out.scale().scaled() - 6 * one()) <= 5 * Zoom::Out.scale().step(),
        one() * one() <= Zoom::In.scale().scaled() * Zoom::Out.scale().scaled(),
        2 * (Zoom::In.scale().scaled() * Zoom::Out.scale().scaled() - one() * one())
            <= Zoom::Out.scale().scaled() * Zoom::In.scale().step(),
{
    lemma2_to64();
    lemma_pow2_adds(23, 126);
    lemma_pow2_adds(24, 125);
    lemma_pow2_adds(1, 125);
    let p = pow2(125) as int;
    let out = Zoom::Out.scale();
    let inv = Zoom::In.scale();
    let out_next = word((ZOOM_FACTOR + 1) as u32);
    let inv_next = word((ZOOM_FACTOR_INVERSE + 1) as u32);
    assert(out.exponent() == 127 && out.fraction() == 0x19_999a);
    assert(out_next.exponent() == 127 && out_next.fraction() == 0x19_999b);
    assert(inv.exponent() == 126 && inv.fraction() == 0x55_5555);
    assert(inv_next.exponent() == 126 && inv_next.fraction() == 0x55_5556);
    assert(pow2(126) == 2 * p);
    assert(one() == 0x100_0000 * p);
    assert(out.scaled() == 0x99_999a * (2 * p));
    assert(out_next.scaled() == 0x99_999b * (2 * p));
    assert(inv.scaled() == 0xd5_5555 * p);
    assert(inv_next.scaled() == 0xd5_5556 * p);
    assert(5 * (0x99_999a * (2 * p)) - 6 * (0x100_0000 * p) == 4 * p) by (nonlinear_arith);
    assert(0x99_999b * (2 * p) - 0x99_999a * (2 * p) == 2 * p) by (nonlinear_arith);
    assert(0xd5_5556 * p - 0xd5_5555 * p == p) by (nonlinear_arith);
    assert((0xd5_5555 * p) * (0x99_999a * (2 * p)) - (0x100_0000 * p) * (0x100_0000 * p)
        == 4473924 * (p * p)) by (nonlinear_arith);
    assert((0x99_999a * (2 * p)) * p == 20132660 * (p * p)) by (nonlinear_arith);
    assert(p * p >= 0) by (nonlinear_arith);
}

/// A view with every field in range has a center whose coordinates lie
/// between -2 and 2 and a zoom scale between the least scale and 1.5.
pub proof fn values_of_bounded_view(view: Coordinates)
    requires
        view.bounded(),
    ensures
        -2 * one() <= view.center().0.scaled() <= 2 * one(),
        -2 * one() <= view.center().1.scaled() <= 2 * one(),
        word(ZOOM_MIN).scaled() <= view.zoom().scaled(),
        2 * view.zoom().scaled() <= 3 * one(),
{
    values_of_bounds();
    let lo = word(CENTER_MIN);
    let hi = word(CENTER_MAX);
    within_is_between(view.center().0, lo, hi);
    within_is_between(view.center().1, lo, hi);
    within_is_between(view.zoom(), word(ZOOM_MIN), word(ZOOM_MAX));
}

impl Default for Coordinates {
    /// The whole set in view: the center at the origin, the scale at its
    /// greatest.
    fn default() -> (r: Self)
        ensures
            r == Self::start(),
            r.center() == (word(0), word(0)),
            r.zoom() == word(ZOOM_MAX),
            r.bounded(),
    {
        Coordinates {
            real: Binary32::from_bits(0),
            imag: Binary32::from_bits(0),
            zoom: Binary32::from_bits(ZOOM_MAX),
        }
    }
}

impl Block for Coordinates {
    open spec fn words(&self) -> Seq<u32> {
        seq![self.center().0.bits, self.center().1.bits, self.zoom().bits]
    }

    fn to_words(&self) -> (words: Vec<u32>) {
        vec![self.real.bits, self.imag.bits, self.zoom.bits]
    }
}

/// The cap on the iterations that the shader spends on one pixel, within
/// 0 ..= 10000.
#[derive(Debug, Clone, Copy)]
pub struct Iterations(i32);

impl Iterations {
    /// The cap.
    pub closed spec fn value(self) -> i32 {
        self.0
    }

    /// `value` brought into 0 ..= 10000.
    pub open spec fn clamped(value: i32) -> i32 {
        if value < 0 {
            0
        } else if value > ITERATIONS_MAX {
            ITERATIONS_MAX
        } else {
            value
        }
    }

    /// The cap is within 0 ..= 10000. This holds of every cap that there is.
    #[verifier::type_invariant]
    pub open spec fn bounded(self) -> bool {
        0 <= self.value() <= ITERATIONS_MAX
    }

    /// The cap `value` brought into 0 ..= 10000.
    pub fn new(value: i32) -> (r: Self)
        ensures
            r.value() == Self::clamped(value),
            0 <= r.value() <= ITERATIONS_MAX,
    {
        if value < 0 {
            Iterations(0)
        } else if value > ITERATIONS_MAX {
            Iterations(ITERATIONS_MAX)
        } else {
            Iterations(value)
        }
    }
}

impl core::ops::Deref for Iterations {
    type Target = i32;

    /// The cap.
    fn deref(&self) -> (value: &i32)
        ensures
            *value == self.value(),
            0 <= *value <= ITERATIONS_MAX,
    {
        proof {
            use_type_invariant(self);
        }
        &self.0
    }
}

impl Block for Iterations {
    open spec fn words(&self) -> Seq<u32> {
        seq![self.value() as u32]
    }

    fn to_words(&self) -> (words: Vec<u32>) {
        proof {
            use_type_invariant(self);
        }
        vec![self.0 as u32]
    }
}

/// Hue, saturation and lightness, each a number within 0 ..= 1 whatever it
/// was set from, and for each channel whether the panel moves it together
/// with the others.
#[derive(Debug, Clone, Copy)]
pub struct ColorParams {
    hue: Binary32,
    saturation: Binary32,
    lightness: Binary32,
    hue_linked: i32,
    saturation_linked: i32,
    lightness_linked: i32,
}

impl ColorParams {
    /// Hue, saturation and lightness.
    pub closed spec fn hsl(self) -> (Binary32, Binary32, Binary32) {
        (self.hue, self.saturation, self.lightness)
    }

    /// The link of each channel as the shader reads it: 1 for linked, 0 for
    /// free.
    pub closed spec fn flags(self) -> (i32, i32, i32) {
        (self.hue_linked, self.saturation_linked, self.lightness_linked)
    }

    /// The link of each channel.
    pub open spec fn link(self) -> (bool, bool, bool) {
        (self.flags().0 > 0, self.flags().1 > 0, self.flags().2 > 0)
    }

    /// What a channel becomes when `x` is asked for: `x` brought into
    /// 0 ..= 1, or `former`, the channel as it was, where `x` is not a number.
    pub open spec fn channel_clamped(x: Binary32, former: Binary32) -> Binary32 {
        x.clamped_or(word(CHANNEL_MIN), word(CHANNEL_MAX), former)
    }

    /// The flag of a link.
    pub open spec fn flag(linked: bool) -> i32 {
        if linked {
            1
        } else {
            0
        }
    }

    /// Every channel is a number within 0 ..= 1, and every flag is 0 or 1.
    /// This holds of every colour that there is.
    #[verifier::type_invariant]
    pub open spec fn bounded(self) -> bool {
        &&& self.hsl().0.within(word(CHANNEL_MIN), word(CHANNEL_MAX))
        &&& self.hsl().1.within(word(CHANNEL_MIN), word(CHANNEL_MAX))
        &&& self.hsl().2.within(word(CHANNEL_MIN), word(CHANNEL_MAX))
        &&& 0 <= self.flags().0 <= 1
        &&& 0 <= self.flags().1 <= 1
        &&& 0 <= self.flags().2 <= 1
    }

    /// The colour of the given channels, each brought into 0 ..= 1, with no
    /// channel linked. A channel that is not a number is 0.
    pub fn new(hue: Binary32, saturation: Binary32, lightness: Binary32) -> (r: Self)
        ensures
            r.hsl() == (
                Self::channel_clamped(hue, word(CHANNEL_MIN)),
                Self::channel_clamped(saturation, word(CHANNEL_MIN)),
                Self::channel_clamped(lightness, word(CHANNEL_MIN)),
            ),
            r.flags() == (0i32, 0i32, 0i32),
            r.bounded(),
    {
        let lo = Binary32::from_bits(CHANNEL_MIN);
        let hi = Binary32::from_bits(CHANNEL_MAX);
        ColorParams {
            hue: hue.clamp_or(lo, hi, lo),
            saturation: saturation.clamp_or(lo, hi, lo),
            lightness: lightness.clamp_or(lo, hi, lo),
            hue_linked: 0,
            saturation_linked: 0,
            lightness_linked: 0,
        }
    }

    /// Hue, saturation and lightness.
    pub fn get_hsl(&self) -> (hsl: (Binary32, Binary32, Binary32))
        ensures
            hsl == self.hsl(),
            self.bounded(),
    {
        proof {
            use_type_invariant(self);
        }
        (self.hue, self.saturation, self.lightness)
    }

    /// Sets the three channels, each brought into 0 ..= 1 by itself. A channel
    /// that is not a number is ignored: that channel stays as it is.
    pub fn set_hsl(self, value: (Binary32, Binary32, Binary32)) -> (r: Self)
        ensures
            r.hsl() == (
                Self::channel_clamped(value.0, self.hsl().0),
                Self::channel_clamped(value.1, self.hsl().1),
                Self::channel_clamped(value.2, self.hsl().2),
            ),
            r.flags() == self.flags(),
            r.bounded(),
    {
        proof {
            use_type_invariant(self);
        }
        let lo = Binary32::from_bits(CHANNEL_MIN);
        let hi = Binary32::from_bits(CHANNEL_MAX);
        ColorParams {
            hue: value.0.clamp_or(lo, hi, self.hue),
            saturation: value.1.clamp_or(lo, hi, self.saturation),
            lightness: value.2.clamp_or(lo, hi, self.lightness),
            hue_linked: self.hue_linked,
            saturation_linked: self.saturation_linked,
            lightness_linked: self.lightness_linked,
        }
    }

    /// The link of each channel.
    pub fn get_link(&self) -> (link: (bool, bool, bool))
        ensures
            link == self.link(),
            self.bounded(),
    {
        proof {
            use_type_invariant(self);
        }
        (self.hue_linked > 0, self.saturation_linked > 0, self.lightness_linked > 0)
    }

    /// Sets the link of each channel.
    pub fn set_link(self, value: (bool, bool, bool)) -> (r: Self)
        ensures
            r.flags() == (Self::flag(value.0), Self::flag(value.1), Self::flag(value.2)),
            r.link() == value,
            r.hsl() == self.hsl(),
            r.bounded(),
    {
        proof {
            use_type_invariant(self);
        }
        ColorParams {
            hue: self.hue,
            saturation: self.saturation,
            lightness: self.lightness,
            hue_linked: if value.0 { 1 } else { 0 },
            saturation_linked: if value.1 { 1 } else { 0 },
            lightness_linked: if value.2 { 1 } else { 0 },
        }
    }
}

impl Block for ColorParams {
    open spec fn words(&self) -> Seq<u32> {
        seq![
            self.hsl().0.bits,
            self.hsl().1.bits,
            self.hsl().2.bits,
            self.flags().0 as u32,
            self.flags().1 as u32,
            self.flags().2 as u32,
        ]
    }

    fn to_words(&self) -> (words: Vec<u32>) {
        proof {
            use_type_invariant(self);
        }
        vec![
            self.hue.bits,
            self.saturation.bits,
            self.lightness.bits,
            self.hue_linked as u32,
            self.saturation_linked as u32,
            self.lightness_linked as u32,
        ]
    }
}

} // verus!

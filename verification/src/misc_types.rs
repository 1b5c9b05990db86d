//! What the "Misc little types" step expects of colors.

use vstd::prelude::*;

verus! {

/// A color as red, green and blue components.
#[derive(Clone, Copy, Debug, PartialEq, Eq, Structural)]
pub struct Rgb {
    pub r: u8,
    pub g: u8,
    pub b: u8,
}

/// Yellow, as the step builds it.
pub open spec fn yellow() -> Rgb {
    Rgb { r: 255, g: 255, b: 0 }
}

/// The native value of yellow that REAPER gives on Linux.
pub const YELLOW_NATIVE: i32 = 16776960;

/// What REAPER reported while the step ran.
pub struct ColorReport {
    /// Yellow as built by the color type.
    pub yellow: Rgb,
    /// Yellow built a second time.
    pub yellow_again: Rgb,
    /// Red as built by the color type.
    pub red: Rgb,
    /// The step runs on Linux, where native colors are known.
    pub on_linux: bool,
    /// The native value that REAPER gives for yellow.
    pub yellow_native: i32,
    /// The color that REAPER gives for the native value of yellow.
    pub color_of_yellow_native: Rgb,
}

/// The expectations of the step, in the order in which it checks them.
#[derive(Clone, Copy, Debug, PartialEq, Eq, Structural)]
pub enum ColorFailure {
    YellowUnstable,
    YellowIsRed,
    WrongNative,
    WrongColorFromNative,
}

/// Whether the expectation named by `f` holds of the report.
pub open spec fn color_holds(r: ColorReport, f: ColorFailure) -> bool {
    match f {
        ColorFailure::YellowUnstable => r.yellow == r.yellow_again,
        ColorFailure::YellowIsRed => r.yellow != r.red,
        ColorFailure::WrongNative => r.on_linux ==> r.yellow_native == YELLOW_NATIVE,
        ColorFailure::WrongColorFromNative => r.on_linux ==> r.color_of_yellow_native == r.yellow,
    }
}

/// The position of an expectation in the step's order.
pub open spec fn color_rank(f: ColorFailure) -> int {
    match f {
        ColorFailure::YellowUnstable => 0,
        ColorFailure::YellowIsRed => 1,
        ColorFailure::WrongNative => 2,
        ColorFailure::WrongColorFromNative => 3,
    }
}

/// The colors pass exactly when yellow is built the same twice and differs
/// from red, and, on Linux, REAPER's native yellow is 16776960 and converts
/// back to yellow; off Linux the native values are not looked at.
pub proof fn law_colors_pass_exactly_on_stable_colors(r: ColorReport)
    ensures
        (forall|f: ColorFailure| color_holds(r, f)) <==> (r.yellow == r.yellow_again && r.yellow
            != r.red && (r.on_linux ==> r.yellow_native == 16776960i32 && r.color_of_yellow_native
            == r.yellow)),
{
    if forall|f: ColorFailure| color_holds(r, f) {
        assert(color_holds(r, ColorFailure::YellowUnstable));
        assert(color_holds(r, ColorFailure::YellowIsRed));
        assert(color_holds(r, ColorFailure::WrongNative));
        assert(color_holds(r, ColorFailure::WrongColorFromNative));
    }
}

/// Judges the color part of the step: `Ok` when every expectation holds,
/// else the first that fails.
pub fn check_colors(r: &ColorReport) -> (v: Result<(), ColorFailure>)
    ensures
        v matches Err(f) ==> !color_holds(*r, f) && forall|g: ColorFailure|
            color_rank(g) < color_rank(f) ==> color_holds(*r, g),
        v is Ok <==> forall|f: ColorFailure| color_holds(*r, f),
        v is Ok <==> r.yellow == r.yellow_again && r.yellow != r.red && (r.on_linux
            ==> r.yellow_native == 16776960i32 && r.color_of_yellow_native == r.yellow),
{
    if r.yellow != r.yellow_again {
        assert(!color_holds(*r, ColorFailure::YellowUnstable));
        return Err(ColorFailure::YellowUnstable);
    }
    if r.yellow == r.red {
        assert(!color_holds(*r, ColorFailure::YellowIsRed));
        return Err(ColorFailure::YellowIsRed);
    }
    if r.on_linux {
        if r.yellow_native != YELLOW_NATIVE {
            assert(!color_holds(*r, ColorFailure::WrongNative));
            return Err(ColorFailure::WrongNative);
        }
        if r.color_of_yellow_native != r.yellow {
            assert(!color_holds(*r, ColorFailure::WrongColorFromNative));
            return Err(ColorFailure::WrongColorFromNative);
        }
    }
    Ok(())
}

} // verus!

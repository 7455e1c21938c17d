use vstd::prelude::*;
use crate::config::{BackgroundMode, DisplayMode, FilterMode};

verus! {

/// The filter after `m` in the toggle order Nearest, Bilinear, Bicubic, Lanczos.
pub open spec fn filter_after(m: FilterMode) -> FilterMode {
    match m {
        FilterMode::Nearest => FilterMode::Bilinear,
        FilterMode::Bilinear => FilterMode::Bicubic,
        FilterMode::Bicubic => FilterMode::Lanczos,
        FilterMode::Lanczos => FilterMode::Nearest,
    }
}

/// The fitting after `m` in the toggle order Fit, WindowFit, Manual.
pub open spec fn display_after(m: DisplayMode) -> DisplayMode {
    match m {
        DisplayMode::Fit => DisplayMode::WindowFit,
        DisplayMode::WindowFit => DisplayMode::Manual,
        DisplayMode::Manual => DisplayMode::Fit,
    }
}

/// The background after `m` in the toggle order Theme, Checkerboard, Black, Gray, White, Green.
pub open spec fn background_after(m: BackgroundMode) -> BackgroundMode {
    match m {
        BackgroundMode::Theme => BackgroundMode::Checkerboard,
        BackgroundMode::Checkerboard => BackgroundMode::Black,
        BackgroundMode::Black => BackgroundMode::Gray,
        BackgroundMode::Gray => BackgroundMode::White,
        BackgroundMode::White => BackgroundMode::Green,
        BackgroundMode::Green => BackgroundMode::Theme,
    }
}

/// The next interpolation filter (see `filter_after`).
pub fn next_filter_mode(m: FilterMode) -> (r: FilterMode)
    ensures
        r == filter_after(m),
{
    match m {
        FilterMode::Nearest => FilterMode::Bilinear,
        FilterMode::Bilinear => FilterMode::Bicubic,
        FilterMode::Bicubic => FilterMode::Lanczos,
        FilterMode::Lanczos => FilterMode::Nearest,
    }
}

/// The next fitting (see `display_after`).
pub fn next_display_mode(m: DisplayMode) -> (r: DisplayMode)
    ensures
        r == display_after(m),
{
    match m {
        DisplayMode::Fit => DisplayMode::WindowFit,
        DisplayMode::WindowFit => DisplayMode::Manual,
        DisplayMode::Manual => DisplayMode::Fit,
    }
}

/// The next background (see `background_after`).
pub fn next_background_mode(m: BackgroundMode) -> (r: BackgroundMode)
    ensures
        r == background_after(m),
{
    match m {
        BackgroundMode::Theme => BackgroundMode::Checkerboard,
        BackgroundMode::Checkerboard => BackgroundMode::Black,
        BackgroundMode::Black => BackgroundMode::Gray,
        BackgroundMode::Gray => BackgroundMode::White,
        BackgroundMode::White => BackgroundMode::Green,
        BackgroundMode::Green => BackgroundMode::Theme,
    }
}

/// Each toggle changes the mode, and going once round every mode returns to the start.
pub proof fn law_toggles_cycle(f: FilterMode, d: DisplayMode, b: BackgroundMode)
    ensures
        filter_after(f) != f,
        filter_after(filter_after(filter_after(filter_after(f)))) == f,
        display_after(d) != d,
        display_after(display_after(display_after(d))) == d,
        background_after(b) != b,
        background_after(background_after(background_after(background_after(background_after(background_after(b))))))
            == b,
{
}

} // verus!

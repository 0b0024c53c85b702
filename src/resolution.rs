use vstd::prelude::*;
use crate::error::AtiumError;
use crate::text::{lower_of, lowercase, parse_i32, i32_of_text};

verus! {

/// Output resolution options:
/// * `Sd`          480p  640x480
/// * `Hd`          720p  1280x720
/// * `FullHd`      1080p 1920x1080
/// * `FullHd2k`    1080p 2048x1080
/// * `UltraHd`     4k    3840x2160
/// * `FullUltraHd` 8k    7680x4320
#[derive(Debug, Clone, Copy, PartialEq, Eq, Structural)]
pub enum OutputResolution {
    Sd,
    Hd,
    FullHd,
    FullHd2k,
    UltraHd,
    FullUltraHd,
}

/// The resolution that a lower-case name stands for; `Hd` for any other name.
pub open spec fn resolution_named(name: Seq<char>) -> OutputResolution {
    if name == "sd"@ {
        OutputResolution::Sd
    } else if name == "hd"@ {
        OutputResolution::Hd
    } else if name == "fhd"@ {
        OutputResolution::FullHd
    } else if name == "2k"@ {
        OutputResolution::FullHd2k
    } else if name == "uhd"@ {
        OutputResolution::UltraHd
    } else if name == "8k"@ {
        OutputResolution::FullUltraHd
    } else {
        OutputResolution::Hd
    }
}

/// The fixed pixel dimensions of each resolution.
pub open spec fn dimensions(resolution: OutputResolution) -> (i16, i16) {
    match resolution {
        OutputResolution::Sd => (640, 480),
        OutputResolution::Hd => (1280, 720),
        OutputResolution::FullHd => (1920, 1080),
        OutputResolution::FullHd2k => (2048, 1080),
        OutputResolution::UltraHd => (3840, 2160),
        OutputResolution::FullUltraHd => (7680, 4320),
    }
}

/// The resolution that an already lower-cased name stands for.
pub fn resolution_from_lowercase(name: &String) -> (r: OutputResolution)
    ensures
        r == resolution_named(name@),
{
    if *name == String::from_str("sd") {
        OutputResolution::Sd
    } else if *name == String::from_str("hd") {
        OutputResolution::Hd
    } else if *name == String::from_str("fhd") {
        OutputResolution::FullHd
    } else if *name == String::from_str("2k") {
        OutputResolution::FullHd2k
    } else if *name == String::from_str("uhd") {
        OutputResolution::UltraHd
    } else if *name == String::from_str("8k") {
        OutputResolution::FullUltraHd
    } else {
        OutputResolution::Hd
    }
}

/// Reads a resolution name, ignoring case: `sd`, `hd`, `fhd`, `2k`, `uhd`
/// and `8k`; any other name gives `Hd`.
pub fn parse_resolution(resolution_string: &String) -> (r: OutputResolution)
    ensures
        r == resolution_named(lower_of(resolution_string@)),
{
    let lowered = lowercase(resolution_string.as_str());
    resolution_from_lowercase(&lowered)
}

/// The pixel dimensions `(width, height)` of a resolution.
pub fn get_width_height(resolution: OutputResolution) -> (r: (i16, i16))
    ensures
        r == dimensions(resolution),
{
    match resolution {
        OutputResolution::Sd => (640, 480),
        OutputResolution::Hd => (1280, 720),
        OutputResolution::FullHd => (1920, 1080),
        OutputResolution::FullHd2k => (2048, 1080),
        OutputResolution::UltraHd => (3840, 2160),
        OutputResolution::FullUltraHd => (7680, 4320),
    }
}

pub open spec fn min_of(a: int, b: int) -> int {
    if a < b {
        a
    } else {
        b
    }
}

/// The resolution's dimensions, each lowered to the source's where the
/// source is smaller: a conversion never upscales.
pub fn clamp_to_source(resolution: OutputResolution, source_width: i32, source_height: i32) -> (r: (
    i32,
    i32,
))
    ensures
        r.0 == min_of(dimensions(resolution).0 as int, source_width as int),
        r.1 == min_of(dimensions(resolution).1 as int, source_height as int),
        r.0 <= source_width && r.1 <= source_height,
        dimensions(resolution).0 <= source_width && dimensions(resolution).1 <= source_height
            ==> r == (dimensions(resolution).0 as i32, dimensions(resolution).1 as i32),
{
    let (width, height) = get_width_height(resolution);
    let mut width = width as i32;
    let mut height = height as i32;
    if width > source_width {
        width = source_width;
    }
    if height > source_height {
        height = source_height;
    }
    (width, height)
}

/// The dimensions for a conversion, from the requested resolution and the
/// source's width and height as the analysis writes them. Either one that is
/// not an integer fails the whole computation.
pub fn compute_resolution(resolution: OutputResolution, current_resolution: (String, String)) -> (r:
    Result<(i32, i32), AtiumError>)
    ensures
        match (i32_of_text(current_resolution.0@), i32_of_text(current_resolution.1@)) {
            (Some(w), Some(h)) => r == Ok::<(i32, i32), AtiumError>(
                (
                    min_of(dimensions(resolution).0 as int, w as int) as i32,
                    min_of(dimensions(resolution).1 as int, h as int) as i32,
                ),
            ),
            _ => r == Err::<(i32, i32), AtiumError>(AtiumError::InvalidDimension),
        },
{
    let current_width = match parse_i32(current_resolution.0.as_str()) {
        Some(w) => w,
        None => return Err(AtiumError::InvalidDimension),
    };
    let current_height = match parse_i32(current_resolution.1.as_str()) {
        Some(h) => h,
        None => return Err(AtiumError::InvalidDimension),
    };
    Ok(clamp_to_source(resolution, current_width, current_height))
}

} // verus!

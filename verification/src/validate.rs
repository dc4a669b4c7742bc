//! Validation of tool parameters.

use crate::text::{decimal_text, join, lists};
use vstd::prelude::*;

verus! {

/// The aspect ratios that the API offers.
pub open spec fn offered_aspect_ratios() -> Seq<Seq<char>> {
    seq!["1:1"@, "16:9"@, "9:16"@, "4:3"@, "3:4"@, "3:2"@, "2:3"@]
}

/// The resolutions that the API offers.
pub open spec fn offered_resolutions() -> Seq<Seq<char>> {
    seq!["480p"@, "720p"@]
}

/// A duration, where one is given, is between 1 and 15 seconds.
pub open spec fn valid_duration(duration: Option<u8>) -> bool {
    duration matches Some(seconds) ==> 1 <= seconds <= 15
}

/// An aspect ratio, where one is given, is offered.
pub open spec fn valid_aspect_ratio(aspect_ratio: Option<Seq<char>>) -> bool {
    aspect_ratio matches Some(ratio) ==> offered_aspect_ratios().contains(ratio)
}

/// A resolution, where one is given, is offered.
pub open spec fn valid_resolution(resolution: Option<Seq<char>>) -> bool {
    resolution matches Some(chosen) ==> offered_resolutions().contains(chosen)
}

/// Why a duration is refused.
pub open spec fn duration_fault(seconds: u8) -> Seq<char> {
    "duration must be between 1 and 15 seconds, got "@ + crate::text::decimal(seconds as nat)
}

/// Why an aspect ratio is refused.
pub open spec fn aspect_ratio_fault(ratio: Seq<char>) -> Seq<char> {
    "Invalid aspect_ratio \""@ + ratio + "\". Valid options: "@ + crate::text::joined(
        offered_aspect_ratios(),
        ", "@,
    )
}

/// Why a resolution is refused.
pub open spec fn resolution_fault(chosen: Seq<char>) -> Seq<char> {
    "Invalid resolution \""@ + chosen + "\". Valid options: "@ + crate::text::joined(
        offered_resolutions(),
        ", "@,
    )
}

/// What an optional text holds.
pub open spec fn contents(text: Option<&str>) -> Option<Seq<char>> {
    match text {
        Some(text) => Some(text@),
        None => None,
    }
}

/// The aspect ratios that the API offers.
pub fn valid_aspect_ratios() -> (ratios: Vec<&'static str>)
    ensures
        crate::text::texts(ratios@) == offered_aspect_ratios(),
{
    let ratios = vec!["1:1", "16:9", "9:16", "4:3", "3:4", "3:2", "2:3"];
    assert(crate::text::texts(ratios@) =~= offered_aspect_ratios());
    ratios
}

/// The resolutions that the API offers.
pub fn valid_resolutions() -> (resolutions: Vec<&'static str>)
    ensures
        crate::text::texts(resolutions@) == offered_resolutions(),
{
    let resolutions = vec!["480p", "720p"];
    assert(crate::text::texts(resolutions@) =~= offered_resolutions());
    resolutions
}

/// Accept a duration of 1 to 15 seconds, or none.
pub fn validate_duration(duration: Option<u8>) -> (verdict: Result<(), String>)
    ensures
        match verdict {
            Ok(()) => valid_duration(duration),
            Err(text) => !valid_duration(duration) && text@ == duration_fault(duration->0),
        },
{
    if let Some(seconds) = duration {
        if seconds < 1 || seconds > 15 {
            let mut text = "duration must be between 1 and 15 seconds, got ".to_string();
            text.append(decimal_text(seconds as u64).as_str());
            return Err(text);
        }
    }
    Ok(())
}

/// Accept one of the offered aspect ratios, or none.
pub fn validate_aspect_ratio(aspect_ratio: Option<&str>) -> (verdict: Result<(), String>)
    ensures
        match verdict {
            Ok(()) => valid_aspect_ratio(contents(aspect_ratio)),
            Err(text) => !valid_aspect_ratio(contents(aspect_ratio)) && text@
                == aspect_ratio_fault(contents(aspect_ratio)->0),
        },
{
    if let Some(ratio) = aspect_ratio {
        let offered = valid_aspect_ratios();
        if !lists(offered.as_slice(), ratio) {
            let mut text = "Invalid aspect_ratio \"".to_string();
            text.append(ratio);
            text.append("\". Valid options: ");
            text.append(join(offered.as_slice(), ", ").as_str());
            return Err(text);
        }
    }
    Ok(())
}

/// Accept one of the offered resolutions, or none.
pub fn validate_resolution(resolution: Option<&str>) -> (verdict: Result<(), String>)
    ensures
        match verdict {
            Ok(()) => valid_resolution(contents(resolution)),
            Err(text) => !valid_resolution(contents(resolution)) && text@ == resolution_fault(
                contents(resolution)->0,
            ),
        },
{
    if let Some(chosen) = resolution {
        let offered = valid_resolutions();
        if !lists(offered.as_slice(), chosen) {
            let mut text = "Invalid resolution \"".to_string();
            text.append(chosen);
            text.append("\". Valid options: ");
            text.append(join(offered.as_slice(), ", ").as_str());
            return Err(text);
        }
    }
    Ok(())
}

} // verus!

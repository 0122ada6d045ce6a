//! How the status line is to be shown.

use vstd::prelude::*;
use crate::text::{contains_text, text_contains};

verus! {

/// The tone in which a status line is shown.
#[derive(Debug, Clone, Copy, PartialEq, Eq, Structural)]
pub enum StatusTone {
    /// The line reports an error.
    Error,
    /// The line reports that something went through.
    Success,
    /// Anything else.
    Neutral,
}

/// The tone of a status line: that of an error where it holds `Error`; else that of a
/// success where it holds `success` or `completed`.
pub open spec fn tone_of(status: Seq<char>) -> StatusTone {
    if contains_text(status, "Error"@) {
        StatusTone::Error
    } else if contains_text(status, "success"@) || contains_text(status, "completed"@) {
        StatusTone::Success
    } else {
        StatusTone::Neutral
    }
}

/// Tells the tone of a status line.
pub fn status_tone(status: &str) -> (tone: StatusTone)
    ensures
        tone == tone_of(status@),
{
    if text_contains(status, "Error") {
        StatusTone::Error
    } else if text_contains(status, "success") || text_contains(status, "completed") {
        StatusTone::Success
    } else {
        StatusTone::Neutral
    }
}

} // verus!

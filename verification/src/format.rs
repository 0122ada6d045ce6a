//! One row of a format listing, and the short label shown for a codec tag.

use vstd::prelude::*;
use vstd::string::*;
use crate::text::{length_before, prefix_before, same_text};

verus! {

/// One selectable output format of a media item.
#[derive(Debug, Clone, PartialEq, Eq)]
pub struct FormatInfo {
    /// Token that names the format to the downloader.
    pub format_id: String,
    /// Container extension.
    pub ext: String,
    /// Human-readable resolution, where the listing gives one.
    pub resolution: Option<String>,
    /// Video encoding tag.
    pub vcodec: String,
    /// Audio encoding tag, where the listing gives one.
    pub acodec: Option<String>,
}

/// A format, as the listing of a single video names it.
pub type VideoInfo = FormatInfo;

/// What a `FormatInfo` holds, as plain text.
pub struct FormatView {
    pub format_id: Seq<char>,
    pub ext: Seq<char>,
    pub resolution: Option<Seq<char>>,
    pub vcodec: Seq<char>,
    pub acodec: Option<Seq<char>>,
}

impl View for FormatInfo {
    type V = FormatView;

    open spec fn view(&self) -> FormatView {
        FormatView {
            format_id: self.format_id@,
            ext: self.ext@,
            resolution: self.resolution.deep_view(),
            vcodec: self.vcodec@,
            acodec: self.acodec.deep_view(),
        }
    }
}

impl DeepView for FormatInfo {
    type V = FormatView;

    open spec fn deep_view(&self) -> FormatView {
        self@
    }
}

/// The family of a codec tag: what stands before its first `.`, so `avc1` for
/// `avc1.640028`; the whole tag where it has no `.`.
pub open spec fn codec_family(codec: Seq<char>) -> Seq<char> {
    codec.take(length_before(codec, '.') as int)
}

/// The label shown for a codec tag: a fixed name for the families that have one,
/// the family itself for every other.
pub open spec fn codec_label(codec: Seq<char>) -> Seq<char> {
    let family = codec_family(codec);
    if family == "avc1"@ || family == "h264"@ {
        "H.264"@
    } else if family == "vp9"@ {
        "VP9"@
    } else if family == "av01"@ {
        "AV1"@
    } else if family == "mp4a"@ {
        "AAC"@
    } else if family == "opus"@ {
        "Opus"@
    } else if family == "none"@ {
        "—"@
    } else {
        family
    }
}

/// Shortens a codec tag to the label shown in the format table.
pub fn short_codec(codec: &str) -> (label: String)
    ensures
        label@ == codec_label(codec@),
{
    let family = prefix_before(codec, '.');
    if same_text(family, "avc1") || same_text(family, "h264") {
        "H.264".to_owned()
    } else if same_text(family, "vp9") {
        "VP9".to_owned()
    } else if same_text(family, "av01") {
        "AV1".to_owned()
    } else if same_text(family, "mp4a") {
        "AAC".to_owned()
    } else if same_text(family, "opus") {
        "Opus".to_owned()
    } else if same_text(family, "none") {
        "—".to_owned()
    } else {
        family.to_owned()
    }
}

} // verus!

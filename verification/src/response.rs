//! Decoding of the downloader's JSON output into a list of formats.
//!
//! Three shapes of output are known, and tried in this order: a record that lists its
//! formats under `formats`; a record that is itself the description of one format; and
//! an array of such records, whose formats are put together in the array's order.

use vstd::prelude::*;
use vstd::string::*;
use crate::format::{FormatInfo, FormatView};
use crate::json::{
    find_member, json_of_text, lemma_member_after_push, member_of, parse_json, Json,
};

verus! {

/// Why a piece of output gave no list of formats.
#[derive(Debug, Clone, PartialEq, Eq)]
pub enum DecodeError {
    /// The text is no JSON; the parser's words are inside.
    Syntax(String),
    /// The text is JSON of none of the known shapes.
    UnrecognizedShape,
    /// The text has a known shape and lists no format.
    NoFormats,
}

/// What a `DecodeError` holds, as plain text.
pub enum DecodeErrorView {
    Syntax(Seq<char>),
    UnrecognizedShape,
    NoFormats,
}

impl DecodeErrorView {
    /// The words shown for this error.
    pub open spec fn message(self) -> Seq<char> {
        match self {
            DecodeErrorView::Syntax(words) => words,
            DecodeErrorView::UnrecognizedShape => "response has none of the known shapes"@,
            DecodeErrorView::NoFormats => "no formats found"@,
        }
    }
}

impl View for DecodeError {
    type V = DecodeErrorView;

    open spec fn view(&self) -> DecodeErrorView {
        match self {
            DecodeError::Syntax(words) => DecodeErrorView::Syntax(words@),
            DecodeError::UnrecognizedShape => DecodeErrorView::UnrecognizedShape,
            DecodeError::NoFormats => DecodeErrorView::NoFormats,
        }
    }
}

impl DecodeError {
    /// The words shown for this error.
    pub fn message(&self) -> (words: String)
        ensures
            words@ == self@.message(),
    {
        match self {
            DecodeError::Syntax(words) => words.clone(),
            DecodeError::UnrecognizedShape => "response has none of the known shapes".to_owned(),
            DecodeError::NoFormats => "no formats found".to_owned(),
        }
    }
}

/// One record of the output: the formats it lists, and the fields by which it may
/// describe a format itself.
#[derive(Debug, Clone, PartialEq, Eq)]
pub struct SingleVideo {
    pub formats: Vec<FormatInfo>,
    pub format_id: Option<String>,
    pub ext: Option<String>,
    pub resolution: Option<String>,
    pub vcodec: Option<String>,
    pub acodec: Option<String>,
}

/// What a `SingleVideo` holds, as plain text.
pub struct SingleVideoView {
    pub formats: Seq<FormatView>,
    pub format_id: Option<Seq<char>>,
    pub ext: Option<Seq<char>>,
    pub resolution: Option<Seq<char>>,
    pub vcodec: Option<Seq<char>>,
    pub acodec: Option<Seq<char>>,
}

impl View for SingleVideo {
    type V = SingleVideoView;

    open spec fn view(&self) -> SingleVideoView {
        SingleVideoView {
            formats: self.formats.deep_view(),
            format_id: self.format_id.deep_view(),
            ext: self.ext.deep_view(),
            resolution: self.resolution.deep_view(),
            vcodec: self.vcodec.deep_view(),
            acodec: self.acodec.deep_view(),
        }
    }
}

impl DeepView for SingleVideo {
    type V = SingleVideoView;

    open spec fn deep_view(&self) -> SingleVideoView {
        self@
    }
}

/// The output of the downloader, by its shape: one record, or several.
#[derive(Debug, Clone, PartialEq, Eq)]
pub enum VideoResponse {
    Single(SingleVideo),
    Multiple(Vec<SingleVideo>),
}

/// What a `VideoResponse` holds, as plain text.
pub enum VideoResponseView {
    Single(SingleVideoView),
    Multiple(Seq<SingleVideoView>),
}

impl View for VideoResponse {
    type V = VideoResponseView;

    open spec fn view(&self) -> VideoResponseView {
        match self {
            VideoResponse::Single(video) => VideoResponseView::Single(video@),
            VideoResponse::Multiple(videos) => VideoResponseView::Multiple(videos.deep_view()),
        }
    }
}

/// The video encoding tag of a format whose description gives none.
pub open spec fn unknown_codec() -> Seq<char> {
    "unknown"@
}

/// The video encoding tag of a format: the one given, else `unknown_codec`.
pub open spec fn codec_or_unknown(tag: Option<Seq<char>>) -> Seq<char> {
    match tag {
        Some(tag) => tag,
        None => unknown_codec(),
    }
}

impl SingleVideoView {
    /// The formats that one record stands for: those it lists; where it lists none, the
    /// one it describes itself, which takes an identifier and an extension; else none.
    pub open spec fn listed(self) -> Seq<FormatView> {
        if self.formats.len() > 0 {
            self.formats
        } else if self.format_id is Some && self.ext is Some {
            seq![
                FormatView {
                    format_id: self.format_id->0,
                    ext: self.ext->0,
                    resolution: self.resolution,
                    vcodec: codec_or_unknown(self.vcodec),
                    acodec: self.acodec,
                },
            ]
        } else {
            Seq::empty()
        }
    }
}

/// The formats of several records, put together in the records' order.
pub open spec fn combined(videos: Seq<SingleVideoView>) -> Seq<FormatView>
    decreases videos.len(),
{
    if videos.len() == 0 {
        Seq::empty()
    } else {
        combined(videos.drop_last()) + videos.last().listed()
    }
}

impl VideoResponseView {
    /// All formats of a response, in order.
    pub open spec fn formats(self) -> Seq<FormatView> {
        match self {
            VideoResponseView::Single(video) => video.listed(),
            VideoResponseView::Multiple(videos) => combined(videos),
        }
    }
}

/// A text field of a record, read leniently: `Some(None)` where the record has no
/// member under `key` or has `null` there, `Some(Some(..))` where it has text there,
/// and `None` where it has anything else there.
pub open spec fn optional_text(members: Seq<(String, Json)>, key: Seq<char>) -> Option<
    Option<Seq<char>>,
> {
    match member_of(members, key) {
        None => Some(None),
        Some(Json::Null) => Some(None),
        Some(Json::Text(text)) => Some(Some(text@)),
        Some(_) => None,
    }
}

/// The format that an entry of a `formats` array describes. The entry is a record with
/// text under `format_id` and under `ext`; `resolution`, `vcodec` and `acodec` may be
/// missing, and may not hold anything but text.
pub open spec fn format_of(entry: Json) -> Option<FormatView> {
    match entry {
        Json::Object(members) => {
            let format_id = optional_text(members@, "format_id"@);
            let ext = optional_text(members@, "ext"@);
            let resolution = optional_text(members@, "resolution"@);
            let vcodec = optional_text(members@, "vcodec"@);
            let acodec = optional_text(members@, "acodec"@);
            if format_id is Some && format_id->0 is Some && ext is Some && ext->0 is Some
                && resolution is Some && vcodec is Some && acodec is Some {
                Some(
                    FormatView {
                        format_id: format_id->0->0,
                        ext: ext->0->0,
                        resolution: resolution->0,
                        vcodec: codec_or_unknown(vcodec->0),
                        acodec: acodec->0,
                    },
                )
            } else {
                None
            }
        },
        _ => None,
    }
}

/// The formats that the entries of a `formats` array describe, if each describes one.
pub open spec fn formats_of(entries: Seq<Json>) -> Option<Seq<FormatView>> {
    if forall|i: int| 0 <= i < entries.len() ==> (#[trigger] format_of(entries[i])) is Some {
        Some(Seq::new(entries.len(), |i: int| format_of(entries[i])->0))
    } else {
        None
    }
}

/// The formats listed under `formats`: none where the record has no such member, those
/// of its entries where it is an array of format descriptions.
pub open spec fn nested_formats(members: Seq<(String, Json)>) -> Option<Seq<FormatView>> {
    match member_of(members, "formats"@) {
        None => Some(Seq::empty()),
        Some(Json::Array(entries)) => formats_of(entries@),
        Some(_) => None,
    }
}

/// One record of the output, if `record` is one: a JSON object whose `formats`, where it
/// has the member, is an array of format descriptions, and whose `format_id`, `ext`,
/// `resolution`, `vcodec` and `acodec`, where it has them, are text or `null`.
pub open spec fn single_video_of(record: Json) -> Option<SingleVideoView> {
    match record {
        Json::Object(members) => {
            let formats = nested_formats(members@);
            let format_id = optional_text(members@, "format_id"@);
            let ext = optional_text(members@, "ext"@);
            let resolution = optional_text(members@, "resolution"@);
            let vcodec = optional_text(members@, "vcodec"@);
            let acodec = optional_text(members@, "acodec"@);
            if formats is Some && format_id is Some && ext is Some && resolution is Some
                && vcodec is Some && acodec is Some {
                Some(
                    SingleVideoView {
                        formats: formats->0,
                        format_id: format_id->0,
                        ext: ext->0,
                        resolution: resolution->0,
                        vcodec: vcodec->0,
                        acodec: acodec->0,
                    },
                )
            } else {
                None
            }
        },
        _ => None,
    }
}

/// The records that the items of an array are, if each is one.
pub open spec fn videos_of(items: Seq<Json>) -> Option<Seq<SingleVideoView>> {
    if forall|i: int| 0 <= i < items.len() ==> (#[trigger] single_video_of(items[i])) is Some {
        Some(Seq::new(items.len(), |i: int| single_video_of(items[i])->0))
    } else {
        None
    }
}

/// The response that a document is, if it has one of the known shapes: a record, or an
/// array of records.
pub open spec fn video_response_of(document: Json) -> Option<VideoResponseView> {
    match document {
        Json::Object(_) => match single_video_of(document) {
            Some(video) => Some(VideoResponseView::Single(video)),
            None => None,
        },
        Json::Array(items) => match videos_of(items@) {
            Some(videos) => Some(VideoResponseView::Multiple(videos)),
            None => None,
        },
        _ => None,
    }
}

/// What decoding a response gives: its formats, which are at least one.
pub open spec fn collected(response: VideoResponseView) -> Result<Seq<FormatView>, DecodeErrorView> {
    if response.formats().len() == 0 {
        Err(DecodeErrorView::NoFormats)
    } else {
        Ok(response.formats())
    }
}

/// What decoding a document gives.
pub open spec fn decoded(document: Json) -> Result<Seq<FormatView>, DecodeErrorView> {
    match video_response_of(document) {
        None => Err(DecodeErrorView::UnrecognizedShape),
        Some(response) => collected(response),
    }
}

/// What decoding gives after the text was read as JSON, with `parsed` the outcome of
/// that reading.
pub open spec fn decoded_from(parsed: Result<Json, Seq<char>>) -> Result<
    Seq<FormatView>,
    DecodeErrorView,
> {
    match parsed {
        Err(words) => Err(DecodeErrorView::Syntax(words)),
        Ok(document) => decoded(document),
    }
}

/// The outcome of a decoding, as plain text.
pub open spec fn outcome_view(outcome: Result<Vec<FormatInfo>, DecodeError>) -> Result<
    Seq<FormatView>,
    DecodeErrorView,
> {
    match outcome {
        Ok(formats) => Ok(formats.deep_view()),
        Err(error) => Err(error@),
    }
}

/// Reads a text field of a record leniently.
pub fn read_text(members: &Vec<(String, Json)>, key: &str) -> (field: Option<Option<String>>)
    ensures
        field.deep_view() == optional_text(members@, key@),
{
    match find_member(members, key) {
        None => Some(None),
        Some(Json::Null) => Some(None),
        Some(Json::Text(text)) => Some(Some(text.clone())),
        Some(_) => None,
    }
}

/// Reads one entry of a `formats` array.
pub fn format_from_json(entry: &Json) -> (format: Option<FormatInfo>)
    ensures
        format.deep_view() == format_of(*entry),
{
    match entry {
        Json::Object(members) => {
            let format_id = read_text(members, "format_id");
            let ext = read_text(members, "ext");
            let resolution = read_text(members, "resolution");
            let vcodec = read_text(members, "vcodec");
            let acodec = read_text(members, "acodec");
            match (format_id, ext, resolution, vcodec, acodec) {
                (
                    Some(Some(format_id)),
                    Some(Some(ext)),
                    Some(resolution),
                    Some(vcodec),
                    Some(acodec),
                ) => Some(
                    FormatInfo { format_id, ext, resolution, vcodec: vcodec_or_unknown(vcodec), acodec },
                ),
                _ => None,
            }
        },
        _ => None,
    }
}

/// The video encoding tag of a format: the one given, else `unknown`.
pub fn vcodec_or_unknown(tag: Option<String>) -> (vcodec: String)
    ensures
        vcodec@ == codec_or_unknown(tag.deep_view()),
{
    match tag {
        Some(tag) => tag,
        None => "unknown".to_owned(),
    }
}

/// Reads the entries of a `formats` array; gives nothing if one of them describes no
/// format.
pub fn formats_from_json(entries: &Vec<Json>) -> (formats: Option<Vec<FormatInfo>>)
    ensures
        formats.deep_view() == formats_of(entries@),
{
    let mut formats: Vec<FormatInfo> = Vec::new();
    let mut at: usize = 0;
    while at < entries.len()
        invariant
            at <= entries.len(),
            formats.len() == at,
            forall|i: int| 0 <= i < at ==> (#[trigger] format_of(entries@[i])) is Some,
            forall|i: int| 0 <= i < at ==> formats@[i]@ == format_of(entries@[i])->0,
        decreases entries.len() - at,
    {
        match format_from_json(&entries[at]) {
            Some(format) => {
                formats.push(format);
            },
            None => {
                return None;
            },
        }
        at = at + 1;
    }
    assert(formats.deep_view() =~= formats_of(entries@)->0);
    Some(formats)
}

/// Reads one record of the output.
pub fn single_video_from_json(record: &Json) -> (video: Option<SingleVideo>)
    ensures
        video.deep_view() == single_video_of(*record),
{
    match record {
        Json::Object(members) => {
            let formats = match find_member(members, "formats") {
                None => Some(Vec::new()),
                Some(Json::Array(entries)) => formats_from_json(entries),
                Some(_) => None,
            };
            assert(formats.deep_view() == nested_formats(members@)) by {
                if formats is Some {
                    assert(formats->0.deep_view() =~= nested_formats(members@)->0);
                }
            }
            let format_id = read_text(members, "format_id");
            let ext = read_text(members, "ext");
            let resolution = read_text(members, "resolution");
            let vcodec = read_text(members, "vcodec");
            let acodec = read_text(members, "acodec");
            match (formats, format_id, ext, resolution, vcodec, acodec) {
                (
                    Some(formats),
                    Some(format_id),
                    Some(ext),
                    Some(resolution),
                    Some(vcodec),
                    Some(acodec),
                ) => Some(SingleVideo { formats, format_id, ext, resolution, vcodec, acodec }),
                _ => None,
            }
        },
        _ => None,
    }
}

/// Reads the items of an array as records; gives nothing if one of them is none.
pub fn videos_from_json(items: &Vec<Json>) -> (videos: Option<Vec<SingleVideo>>)
    ensures
        videos.deep_view() == videos_of(items@),
{
    let mut videos: Vec<SingleVideo> = Vec::new();
    let mut at: usize = 0;
    while at < items.len()
        invariant
            at <= items.len(),
            videos.len() == at,
            forall|i: int| 0 <= i < at ==> (#[trigger] single_video_of(items@[i])) is Some,
            forall|i: int| 0 <= i < at ==> videos@[i]@ == single_video_of(items@[i])->0,
        decreases items.len() - at,
    {
        match single_video_from_json(&items[at]) {
            Some(video) => {
                videos.push(video);
            },
            None => {
                return None;
            },
        }
        at = at + 1;
    }
    assert(videos.deep_view() =~= videos_of(items@)->0);
    Some(videos)
}

/// Tells which of the known shapes a document has, and reads it as that.
pub fn video_response_from_json(document: &Json) -> (response: Option<VideoResponse>)
    ensures
        match response {
            Some(response) => video_response_of(*document) == Some(response@),
            None => video_response_of(*document) is None,
        },
{
    match document {
        Json::Object(_) => match single_video_from_json(document) {
            Some(video) => Some(VideoResponse::Single(video)),
            None => None,
        },
        Json::Array(items) => match videos_from_json(items) {
            Some(videos) => Some(VideoResponse::Multiple(videos)),
            None => None,
        },
        _ => None,
    }
}

/// The formats that one record stands for.
pub fn list_formats(video: SingleVideo) -> (formats: Vec<FormatInfo>)
    ensures
        formats.deep_view() == video@.listed(),
{
    if video.formats.len() > 0 {
        video.formats
    } else {
        let mut formats: Vec<FormatInfo> = Vec::new();
        match (video.format_id, video.ext) {
            (Some(format_id), Some(ext)) => {
                formats.push(
                    FormatInfo {
                        format_id,
                        ext,
                        resolution: video.resolution,
                        vcodec: vcodec_or_unknown(video.vcodec),
                        acodec: video.acodec,
                    },
                );
            },
            _ => {},
        }
        assert(formats.deep_view() =~= video@.listed());
        formats
    }
}

/// `combined` grows by one record at a time.
pub proof fn lemma_combined_step(videos: Seq<SingleVideoView>, n: int)
    requires
        0 <= n < videos.len(),
    ensures
        combined(videos.take(n + 1)) == combined(videos.take(n)) + videos[n].listed(),
{
    assert(videos.take(n + 1).drop_last() =~= videos.take(n));
}

/// The formats of a response, or `NoFormats` where it has none.
pub fn collect_formats(response: VideoResponse) -> (outcome: Result<Vec<FormatInfo>, DecodeError>)
    ensures
        outcome_view(outcome) == collected(response@),
        outcome matches Ok(formats) ==> formats.len() > 0,
{
    let formats = match response {
        VideoResponse::Single(video) => list_formats(video),
        VideoResponse::Multiple(videos) => {
            let ghost all = videos.deep_view();
            let mut formats: Vec<FormatInfo> = Vec::new();
            assert(formats.deep_view() =~= combined(all.take(0)));
            for video in it: videos
                invariant
                    it.seq().len() == all.len(),
                    forall|i: int| 0 <= i < all.len() ==> (#[trigger] it.seq()[i])@ == all[i],
                    formats.deep_view() == combined(all.take(it.index() as int)),
            {
                let ghost before = formats.deep_view();
                let mut listed = list_formats(video);
                let ghost added = listed.deep_view();
                formats.append(&mut listed);
                proof {
                    assert(formats.deep_view() =~= before + added);
                    lemma_combined_step(all, it.index() as int);
                }
            }
            assert(all.take(all.len() as int) =~= all);
            formats
        },
    };
    if formats.len() == 0 {
        Err(DecodeError::NoFormats)
    } else {
        Ok(formats)
    }
}

/// Decodes a document.
pub fn decode_document(document: &Json) -> (outcome: Result<Vec<FormatInfo>, DecodeError>)
    ensures
        outcome_view(outcome) == decoded(*document),
        outcome matches Ok(formats) ==> formats.len() > 0,
{
    match video_response_from_json(document) {
        None => Err(DecodeError::UnrecognizedShape),
        Some(response) => collect_formats(response),
    }
}

/// Decodes the text that the downloader printed: reads it as JSON, tells its shape, and
/// puts its formats together. Either the whole list comes out, or an error.
pub fn process_video_response(json_str: &str) -> (outcome: Result<Vec<FormatInfo>, DecodeError>)
    ensures
        outcome_view(outcome) == decoded_from(json_of_text(json_str@)),
        outcome matches Ok(formats) ==> formats.len() > 0,
{
    match parse_json(json_str) {
        Err(words) => Err(DecodeError::Syntax(words)),
        Ok(document) => decode_document(&document),
    }
}

/// Decoding is total over the known shapes. A document of no known shape is refused as
/// such. A document of a known shape decodes to its formats, in order, if it has any,
/// and is refused for having none otherwise: no decoding gives an empty list.
pub proof fn lemma_decode_total(document: Json)
    ensures
        video_response_of(document) is None ==> decoded(document) == Err::<
            Seq<FormatView>,
            DecodeErrorView,
        >(DecodeErrorView::UnrecognizedShape),
        video_response_of(document) matches Some(response) ==> (response.formats().len() > 0
            ==> decoded(document) == Ok::<Seq<FormatView>, DecodeErrorView>(response.formats())),
        video_response_of(document) matches Some(response) ==> (response.formats().len() == 0
            ==> decoded(document) == Err::<Seq<FormatView>, DecodeErrorView>(
            DecodeErrorView::NoFormats,
        )),
        decoded(document) matches Ok(formats) ==> formats.len() > 0,
{
}

/// A record that lists formats decodes to the formats it lists.
pub proof fn lemma_decode_listing(document: Json)
    requires
        document is Object,
        single_video_of(document) matches Some(video) && video.formats.len() > 0,
    ensures
        decoded(document) == Ok::<Seq<FormatView>, DecodeErrorView>(
            single_video_of(document)->0.formats,
        ),
{
}

/// A record that lists no format and gives an identifier and an extension decodes to
/// the one format that it describes itself.
pub proof fn lemma_decode_description(document: Json)
    requires
        document is Object,
        single_video_of(document) matches Some(video) && video.formats.len() == 0
            && video.format_id is Some && video.ext is Some,
    ensures
        decoded(document) matches Ok(formats) && formats.len() == 1 && formats[0] == (FormatView {
            format_id: single_video_of(document)->0.format_id->0,
            ext: single_video_of(document)->0.ext->0,
            resolution: single_video_of(document)->0.resolution,
            vcodec: codec_or_unknown(single_video_of(document)->0.vcodec),
            acodec: single_video_of(document)->0.acodec,
        }),
{
}

/// An array of records decodes to the formats of its records, put together in the
/// array's order, if there is any.
pub proof fn lemma_decode_array(document: Json)
    requires
        document matches Json::Array(items) && videos_of(items@) matches Some(videos) && combined(
            videos,
        ).len() > 0,
    ensures
        decoded(document) == Ok::<Seq<FormatView>, DecodeErrorView>(
            combined(videos_of(document->Array_0@)->0),
        ),
{
}

/// A missing `vcodec` is no reason to fail. Whether an entry of a `formats` array
/// describes a format does not depend on it, nor whether a record is one; and where the
/// member is missing the format's video encoding tag is `unknown`.
pub proof fn lemma_missing_vcodec_defaults(record: Json)
    requires
        record matches Json::Object(members) && member_of(members@, "vcodec"@) is None,
    ensures
        format_of(record) is Some <==> {
            let members = record->Object_0@;
            &&& optional_text(members, "format_id"@) matches Some(Some(_))
            &&& optional_text(members, "ext"@) matches Some(Some(_))
            &&& optional_text(members, "resolution"@) is Some
            &&& optional_text(members, "acodec"@) is Some
        },
        format_of(record) matches Some(format) ==> format.vcodec == unknown_codec(),
        single_video_of(record) is Some <==> {
            let members = record->Object_0@;
            &&& nested_formats(members) is Some
            &&& optional_text(members, "format_id"@) is Some
            &&& optional_text(members, "ext"@) is Some
            &&& optional_text(members, "resolution"@) is Some
            &&& optional_text(members, "acodec"@) is Some
        },
        single_video_of(record) matches Some(video) ==> (video.formats.len() == 0
            && video.format_id is Some && video.ext is Some ==> (decoded(record) matches Ok(
            formats,
        ) && formats.len() == 1 && formats[0].vcodec == unknown_codec())),
{
}

/// Giving a `vcodec` changes the tag and nothing else. Where `with` is `without` and
/// one member more, text under `vcodec`, the one describes a format if and only if the
/// other does, and the two formats differ in the video encoding tag alone: the text
/// given in the one, `unknown` in the other.
pub proof fn lemma_vcodec_is_optional(without: Json, with: Json, member: (String, Json))
    requires
        without is Object,
        with is Object,
        member_of(without->Object_0@, "vcodec"@) is None,
        member.0@ == "vcodec"@,
        member.1 is Text,
        with->Object_0@ == without->Object_0@.push(member),
    ensures
        format_of(with) is Some <==> format_of(without) is Some,
        format_of(without) matches Some(format) ==> format.vcodec == unknown_codec()
            && format_of(with) == Some(FormatView { vcodec: member.1->Text_0@, ..format }),
{
    let members = without->Object_0@;
    reveal_strlit("vcodec");
    reveal_strlit("format_id");
    reveal_strlit("ext");
    reveal_strlit("resolution");
    reveal_strlit("acodec");
    assert("vcodec"@.len() == 6 && "format_id"@.len() == 9 && "ext"@.len() == 3
        && "resolution"@.len() == 10);
    assert("vcodec"@[0] == 'v' && "acodec"@[0] == 'a');
    lemma_member_after_push(members, member, "vcodec"@);
    lemma_member_after_push(members, member, "format_id"@);
    lemma_member_after_push(members, member, "ext"@);
    lemma_member_after_push(members, member, "resolution"@);
    lemma_member_after_push(members, member, "acodec"@);
}

} // verus!

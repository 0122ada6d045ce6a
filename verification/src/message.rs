//! The one message by which a background task reports how it ended.

use vstd::prelude::*;
use vstd::string::*;
use crate::format::{FormatInfo, FormatView};
use crate::json::{json_of_text, Json};
use crate::response::{
    decoded_from, outcome_view, process_video_response, DecodeError, DecodeErrorView,
};

verus! {

/// How a task ended.
#[derive(Debug, Clone, PartialEq, Eq)]
pub enum TerminalMessage {
    /// A fetch found these formats.
    FormatsReady(Vec<FormatInfo>),
    /// A download went through.
    Succeeded(String),
    /// A fetch or a download failed; the text says how.
    Failed(String),
}

/// What a `TerminalMessage` holds, as plain text.
pub enum TerminalMessageView {
    FormatsReady(Seq<FormatView>),
    Succeeded(Seq<char>),
    Failed(Seq<char>),
}

impl View for TerminalMessage {
    type V = TerminalMessageView;

    open spec fn view(&self) -> TerminalMessageView {
        match self {
            TerminalMessage::FormatsReady(formats) => TerminalMessageView::FormatsReady(
                formats.deep_view(),
            ),
            TerminalMessage::Succeeded(text) => TerminalMessageView::Succeeded(text@),
            TerminalMessage::Failed(text) => TerminalMessageView::Failed(text@),
        }
    }
}

/// The messages of a sequence, each as plain text.
pub open spec fn message_views(messages: Seq<TerminalMessage>) -> Seq<TerminalMessageView> {
    Seq::new(messages.len(), |i: int| messages[i]@)
}

/// The message of a download task. `outcome` is whether the downloader exited with
/// success, or why it could not be started.
pub open spec fn download_message_of(outcome: Result<bool, Seq<char>>) -> TerminalMessageView {
    match outcome {
        Ok(true) => TerminalMessageView::Succeeded("download completed"@),
        Ok(false) => TerminalMessageView::Failed("download failed"@),
        Err(words) => TerminalMessageView::Failed(words),
    }
}

/// The message of a fetch task whose output was decoded with the outcome `decoded`.
pub open spec fn decoded_message_of(
    decoded: Result<Seq<FormatView>, DecodeErrorView>,
) -> TerminalMessageView {
    match decoded {
        Ok(formats) => TerminalMessageView::FormatsReady(formats),
        Err(error) => TerminalMessageView::Failed("Error parsing response: "@ + error.message()),
    }
}

/// The message of a fetch task. `outcome` is what reading the downloader's output as
/// JSON gave, or why the downloader could not be started.
pub open spec fn fetch_message_of(
    outcome: Result<Result<Json, Seq<char>>, Seq<char>>,
) -> TerminalMessageView {
    match outcome {
        Ok(parsed) => decoded_message_of(decoded_from(parsed)),
        Err(words) => TerminalMessageView::Failed(words),
    }
}

/// Classifies the end of a download task.
pub fn download_message(outcome: Result<bool, String>) -> (message: TerminalMessage)
    ensures
        message@ == download_message_of(
            match outcome {
                Ok(success) => Ok(success),
                Err(words) => Err(words@),
            },
        ),
{
    match outcome {
        Ok(true) => TerminalMessage::Succeeded("download completed".to_owned()),
        Ok(false) => TerminalMessage::Failed("download failed".to_owned()),
        Err(words) => TerminalMessage::Failed(words),
    }
}

/// Turns the outcome of a decoding into the message of the fetch task.
pub fn decoded_message(decoded: Result<Vec<FormatInfo>, DecodeError>) -> (message: TerminalMessage)
    ensures
        message@ == decoded_message_of(outcome_view(decoded)),
{
    match decoded {
        Ok(formats) => TerminalMessage::FormatsReady(formats),
        Err(error) => {
            let mut text = "Error parsing response: ".to_owned();
            let words = error.message();
            text.append(words.as_str());
            TerminalMessage::Failed(text)
        },
    }
}

/// Classifies the end of a fetch task: decodes what the downloader printed, or hands
/// on why it could not be started.
pub fn fetch_message(outcome: Result<String, String>) -> (message: TerminalMessage)
    ensures
        message@ == fetch_message_of(
            match outcome {
                Ok(output) => Ok(json_of_text(output@)),
                Err(words) => Err(words@),
            },
        ),
{
    match outcome {
        Ok(output) => decoded_message(process_video_response(output.as_str())),
        Err(words) => TerminalMessage::Failed(words),
    }
}

} // verus!

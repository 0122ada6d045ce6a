//! The application state and its transitions: at most one fetch and one download in
//! flight, started on request and ended by the task's message.

use vstd::prelude::*;
use vstd::string::*;
use crate::format::{FormatInfo, FormatView};
use crate::message::{message_views, TerminalMessage, TerminalMessageView};
use crate::text::{decimal, decimal_text};
use crate::transcript::Transcript;

verus! {

/// The two operations that run in the background.
#[derive(Debug, Clone, Copy, PartialEq, Eq, Structural)]
pub enum OperationKind {
    /// Asking the downloader for the formats of the item at the URL.
    Fetch,
    /// Downloading the item in the selected format.
    Download,
}

/// A call of the downloader that is to be made: the program and its arguments.
#[derive(Debug, Clone, PartialEq, Eq)]
pub struct Invocation {
    pub program: String,
    pub arguments: Vec<String>,
}

/// What an `Invocation` holds, as plain text.
pub struct InvocationView {
    pub program: Seq<char>,
    pub arguments: Seq<Seq<char>>,
}

impl View for Invocation {
    type V = InvocationView;

    open spec fn view(&self) -> InvocationView {
        InvocationView { program: self.program@, arguments: self.arguments.deep_view() }
    }
}

/// The state of the application.
#[derive(Debug)]
pub struct YtDlpApp {
    yt_dlp_path: String,
    download_dir: String,
    url: String,
    formats: Vec<FormatInfo>,
    selected_format: Option<usize>,
    status: String,
    is_fetching: bool,
    is_downloading: bool,
}

/// What a `YtDlpApp` holds, as plain values.
pub struct AppView {
    /// Path of the downloader.
    pub yt_dlp_path: Seq<char>,
    /// Directory that downloads go to.
    pub download_dir: Seq<char>,
    /// Locator of the media item.
    pub url: Seq<char>,
    /// The formats found by the last fetch that succeeded.
    pub formats: Seq<FormatView>,
    /// Index of the chosen format in `formats`.
    pub selected_format: Option<usize>,
    /// The line shown to the user.
    pub status: Seq<char>,
    /// Whether a fetch is in flight.
    pub is_fetching: bool,
    /// Whether a download is in flight.
    pub is_downloading: bool,
}

impl AppView {
    /// The selected index lies within the format list.
    pub open spec fn wf(self) -> bool {
        self.selected_format matches Some(index) ==> index < self.formats.len()
    }

    /// Whether an operation of the kind is in flight.
    pub open spec fn is_running(self, kind: OperationKind) -> bool {
        match kind {
            OperationKind::Fetch => self.is_fetching,
            OperationKind::Download => self.is_downloading,
        }
    }

    /// Whether a request for an operation of the kind is taken up: none of the kind is
    /// in flight, and a download has a format to go by.
    pub open spec fn admits(self, kind: OperationKind) -> bool {
        match kind {
            OperationKind::Fetch => !self.is_fetching,
            OperationKind::Download => !self.is_downloading && self.selected_format is Some,
        }
    }

    /// The call that fetches the formats.
    pub open spec fn fetch_invocation(self) -> InvocationView {
        InvocationView {
            program: self.yt_dlp_path,
            arguments: seq![
                "--no-check-certificate"@,
                "--skip-download"@,
                "--print-json"@,
                self.url,
            ],
        }
    }

    /// The call that downloads the selected format.
    pub open spec fn download_invocation(self) -> InvocationView
        recommends
            self.wf(),
            self.selected_format is Some,
    {
        InvocationView {
            program: self.yt_dlp_path,
            arguments: seq![
                "--no-check-certificate"@,
                "-f"@,
                self.formats[self.selected_format->0 as int].format_id,
                "-o"@,
                self.download_dir + "/%(title)s.%(ext)s"@,
                self.url,
            ],
        }
    }

    /// The call that an operation of the kind makes.
    pub open spec fn invocation(self, kind: OperationKind) -> InvocationView {
        match kind {
            OperationKind::Fetch => self.fetch_invocation(),
            OperationKind::Download => self.download_invocation(),
        }
    }

    /// The state after an operation of the kind was started.
    pub open spec fn started(self, kind: OperationKind) -> AppView {
        match kind {
            OperationKind::Fetch => AppView {
                is_fetching: true,
                status: "⏳ Fetching formats..."@,
                ..self
            },
            OperationKind::Download => AppView {
                is_downloading: true,
                status: "⏳ Downloading..."@,
                ..self
            },
        }
    }

    /// The state after a message was received.
    pub open spec fn after(self, message: TerminalMessageView) -> AppView {
        match message {
            TerminalMessageView::FormatsReady(formats) => AppView {
                formats,
                selected_format: None,
                status: found_status(formats.len()),
                is_fetching: false,
                ..self
            },
            TerminalMessageView::Succeeded(text) => AppView {
                status: "✅ "@ + text,
                is_downloading: false,
                ..self
            },
            TerminalMessageView::Failed(text) => AppView {
                status: "❌ "@ + text,
                is_fetching: false,
                is_downloading: false,
                ..self
            },
        }
    }

    /// The state after each of the messages was received, in their order.
    pub open spec fn after_all(self, messages: Seq<TerminalMessageView>) -> AppView
        decreases messages.len(),
    {
        if messages.len() == 0 {
            self
        } else {
            self.after_all(messages.drop_last()).after(messages.last())
        }
    }
}

/// The status line after a fetch found `count` formats.
pub open spec fn found_status(count: nat) -> Seq<char> {
    "✅ Found "@ + decimal(count) + " formats"@
}

/// Single flight: a request is taken up only while no operation of its kind is in
/// flight, and once it is taken up one is, so that the next request of the kind is
/// dropped.
pub proof fn lemma_single_flight(state: AppView, kind: OperationKind)
    requires
        state.admits(kind),
    ensures
        !state.is_running(kind),
        state.started(kind).is_running(kind),
        !state.started(kind).admits(kind),
{
}

/// Starting an operation and receiving a message keep the selected index within the
/// format list, and new formats leave nothing selected.
pub proof fn lemma_selection_stays_valid(
    state: AppView,
    kind: OperationKind,
    message: TerminalMessageView,
)
    requires
        state.wf(),
    ensures
        state.started(kind).wf(),
        state.after(message).wf(),
        message is FormatsReady ==> state.after(message).selected_format is None,
{
}

impl View for YtDlpApp {
    type V = AppView;

    closed spec fn view(&self) -> AppView {
        AppView {
            yt_dlp_path: self.yt_dlp_path@,
            download_dir: self.download_dir@,
            url: self.url@,
            formats: self.formats.deep_view(),
            selected_format: self.selected_format,
            status: self.status@,
            is_fetching: self.is_fetching,
            is_downloading: self.is_downloading,
        }
    }
}

impl YtDlpApp {
    /// The selected index lies within the format list.
    #[verifier::type_invariant]
    spec fn valid(&self) -> bool {
        self.selected_format matches Some(index) ==> index < self.formats.len()
    }

    /// A state with nothing fetched, nothing selected and nothing in flight.
    pub fn new(yt_dlp_path: String, download_dir: String) -> (app: YtDlpApp)
        ensures
            app@ == (AppView {
                yt_dlp_path: yt_dlp_path@,
                download_dir: download_dir@,
                url: Seq::empty(),
                formats: Seq::empty(),
                selected_format: None,
                status: Seq::empty(),
                is_fetching: false,
                is_downloading: false,
            }),
    {
        let app = YtDlpApp {
            yt_dlp_path,
            download_dir,
            url: String::new(),
            formats: Vec::new(),
            selected_format: None,
            status: String::new(),
            is_fetching: false,
            is_downloading: false,
        };
        assert(app.formats.deep_view() =~= Seq::empty());
        app
    }

    /// Starts a fetch of the formats of the item at the URL, unless one is in flight.
    /// Where one is, nothing changes and no call is handed out. Else the fetch counts as
    /// in flight from now on, and the call that the task is to make is handed out.
    pub fn fetch_formats(&mut self) -> (call: Option<Invocation>)
        ensures
            !old(self)@.admits(OperationKind::Fetch) ==> call is None && *final(self) == *old(self),
            old(self)@.admits(OperationKind::Fetch) ==> call is Some && call->0@ == old(
                self,
            )@.fetch_invocation() && final(self)@ == old(self)@.started(OperationKind::Fetch),
    {
        proof {
            use_type_invariant(&*self);
        }
        if self.is_fetching {
            return None;
        }
        self.is_fetching = true;
        self.status = "⏳ Fetching formats...".to_owned();
        let mut arguments: Vec<String> = Vec::new();
        arguments.push("--no-check-certificate".to_owned());
        arguments.push("--skip-download".to_owned());
        arguments.push("--print-json".to_owned());
        arguments.push(self.url.clone());
        let call = Invocation { program: self.yt_dlp_path.clone(), arguments };
        assert(call@.arguments =~= old(self)@.fetch_invocation().arguments);
        Some(call)
    }

    /// Starts a download of the selected format, unless one is in flight or no format
    /// is selected. In both cases nothing changes and no call is handed out. Else the
    /// download counts as in flight from now on, and the call that the task is to make
    /// is handed out.
    pub fn download_selected_format(&mut self) -> (call: Option<Invocation>)
        ensures
            !old(self)@.admits(OperationKind::Download) ==> call is None && *final(self) == *old(
                self,
            ),
            old(self)@.admits(OperationKind::Download) ==> call is Some && call->0@ == old(
                self,
            )@.download_invocation() && final(self)@ == old(self)@.started(
                OperationKind::Download,
            ),
    {
        proof {
            use_type_invariant(&*self);
        }
        if self.is_downloading {
            return None;
        }
        match self.selected_format {
            None => None,
            Some(index) => {
                let format_id = self.formats[index].format_id.clone();
                let mut target = self.download_dir.clone();
                target.append("/%(title)s.%(ext)s");
                self.is_downloading = true;
                self.status = "⏳ Downloading...".to_owned();
                let mut arguments: Vec<String> = Vec::new();
                arguments.push("--no-check-certificate".to_owned());
                arguments.push("-f".to_owned());
                arguments.push(format_id);
                arguments.push("-o".to_owned());
                arguments.push(target);
                arguments.push(self.url.clone());
                let call = Invocation { program: self.yt_dlp_path.clone(), arguments };
                assert(call@.arguments =~= old(self)@.download_invocation().arguments);
                Some(call)
            },
        }
    }

    /// Starts an operation of the kind, if the state admits it: a fetch by
    /// `fetch_formats`, a download by `download_selected_format`. While one of the kind
    /// is in flight the request is dropped: nothing changes and no call is handed out.
    pub fn start(&mut self, kind: OperationKind) -> (call: Option<Invocation>)
        ensures
            old(self)@.is_running(kind) ==> call is None && *final(self) == *old(self),
            !old(self)@.admits(kind) ==> call is None && *final(self) == *old(self),
            old(self)@.admits(kind) ==> call is Some && call->0@ == old(self)@.invocation(kind)
                && final(self)@ == old(self)@.started(kind),
    {
        match kind {
            OperationKind::Fetch => self.fetch_formats(),
            OperationKind::Download => self.download_selected_format(),
        }
    }

    /// Takes in the message of a task: the formats of a fetch replace the list and the
    /// selection goes; the text of a download that went through is shown; a failure is
    /// shown as one and ends both kinds of operation.
    pub fn process_status_message(&mut self, message: TerminalMessage)
        ensures
            final(self)@ == old(self)@.after(message@),
    {
        proof {
            use_type_invariant(&*self);
        }
        match message {
            TerminalMessage::FormatsReady(formats) => {
                let mut status = "✅ Found ".to_owned();
                let count = decimal_text(formats.len());
                status.append(count.as_str());
                status.append(" formats");
                self.selected_format = None;
                self.formats = formats;
                self.status = status;
                self.is_fetching = false;
            },
            TerminalMessage::Succeeded(text) => {
                let mut status = "✅ ".to_owned();
                status.append(text.as_str());
                self.status = status;
                self.is_downloading = false;
            },
            TerminalMessage::Failed(text) => {
                let mut status = "❌ ".to_owned();
                status.append(text.as_str());
                self.status = status;
                self.is_fetching = false;
                self.is_downloading = false;
            },
        }
    }

    /// Drains the transcript and takes in each of its messages, oldest first.
    pub fn handle_messages(&mut self, transcript: &mut Transcript)
        ensures
            final(self)@ == old(self)@.after_all(message_views(old(transcript)@)),
            final(transcript)@ == Seq::<TerminalMessage>::empty(),
    {
        let messages = transcript.poll();
        let ghost all = message_views(messages@);
        assert(all.take(0) =~= Seq::empty());
        for message in it: messages
            invariant
                it.seq().len() == all.len(),
                forall|i: int| 0 <= i < all.len() ==> (#[trigger] it.seq()[i])@ == all[i],
                self@ == old(self)@.after_all(all.take(it.index() as int)),
        {
            proof {
                let n = it.index() as int;
                assert(all.take(n + 1).drop_last() =~= all.take(n));
            }
            self.process_status_message(message);
        }
        assert(all.take(all.len() as int) =~= all);
    }

    /// Whether a fetch or a download is in flight.
    pub fn is_busy(&self) -> (busy: bool)
        ensures
            busy == (self@.is_fetching || self@.is_downloading),
    {
        self.is_fetching || self.is_downloading
    }

    /// Whether an operation of the kind is in flight.
    pub fn is_running(&self, kind: OperationKind) -> (running: bool)
        ensures
            running == self@.is_running(kind),
    {
        match kind {
            OperationKind::Fetch => self.is_fetching,
            OperationKind::Download => self.is_downloading,
        }
    }

    /// Selects the format at `index`, if the list has one there; else nothing changes.
    pub fn select_format(&mut self, index: usize) -> (selected: bool)
        ensures
            selected == (index < old(self)@.formats.len()),
            selected ==> final(self)@ == (AppView { selected_format: Some(index), ..old(self)@ }),
            !selected ==> *final(self) == *old(self),
    {
        proof {
            use_type_invariant(&*self);
        }
        if index < self.formats.len() {
            self.selected_format = Some(index);
            true
        } else {
            false
        }
    }

    /// Forgets the URL, the formats, the selection and the status line. What is in
    /// flight stays in flight.
    pub fn clear_state(&mut self)
        ensures
            final(self)@ == (AppView {
                url: Seq::empty(),
                formats: Seq::empty(),
                selected_format: None,
                status: Seq::empty(),
                ..old(self)@
            }),
    {
        proof {
            use_type_invariant(&*self);
        }
        self.selected_format = None;
        self.formats = Vec::new();
        self.url = String::new();
        self.status = String::new();
        assert(self.formats.deep_view() =~= Seq::empty());
    }

    /// The formats found by the last fetch that succeeded.
    pub fn formats(&self) -> (formats: &Vec<FormatInfo>)
        ensures
            formats.deep_view() == self@.formats,
    {
        &self.formats
    }

    /// Index of the selected format, which lies within the list.
    pub fn selected_format(&self) -> (selected: Option<usize>)
        ensures
            selected == self@.selected_format,
            self@.wf(),
    {
        proof {
            use_type_invariant(self);
        }
        self.selected_format
    }

    /// The line shown to the user.
    pub fn status(&self) -> (status: &String)
        ensures
            status@ == self@.status,
    {
        &self.status
    }

    /// Locator of the media item.
    pub fn url(&self) -> (url: &String)
        ensures
            url@ == self@.url,
    {
        &self.url
    }

    /// Path of the downloader.
    pub fn yt_dlp_path(&self) -> (path: &String)
        ensures
            path@ == self@.yt_dlp_path,
    {
        &self.yt_dlp_path
    }

    /// Directory that downloads go to.
    pub fn download_dir(&self) -> (dir: &String)
        ensures
            dir@ == self@.download_dir,
    {
        &self.download_dir
    }

    /// Replaces the status line.
    pub fn set_status(&mut self, status: String)
        ensures
            final(self)@ == (AppView { status: status@, ..old(self)@ }),
    {
        proof {
            use_type_invariant(&*self);
        }
        self.status = status;
    }

    /// Replaces the URL.
    pub fn set_url(&mut self, url: String)
        ensures
            final(self)@ == (AppView { url: url@, ..old(self)@ }),
    {
        proof {
            use_type_invariant(&*self);
        }
        self.url = url;
    }

    /// Replaces the path of the downloader.
    pub fn set_yt_dlp_path(&mut self, path: String)
        ensures
            final(self)@ == (AppView { yt_dlp_path: path@, ..old(self)@ }),
    {
        proof {
            use_type_invariant(&*self);
        }
        self.yt_dlp_path = path;
    }

    /// Replaces the directory that downloads go to.
    pub fn set_download_dir(&mut self, dir: String)
        ensures
            final(self)@ == (AppView { download_dir: dir@, ..old(self)@ }),
    {
        proof {
            use_type_invariant(&*self);
        }
        self.download_dir = dir;
    }
}

} // verus!

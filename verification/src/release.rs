//! The download of one GitHub release: its description is fetched and read,
//! its archive is downloaded and extracted, and each outcome is reported.

use vstd::prelude::*;

use crate::action;
use crate::action::{Action, ActionView, Event, EventView};
use crate::http;
use crate::message;
use crate::message::{InstallMessage, MessageView};
use crate::text;

verus! {

/// The name of a repository, from the name of the file that its archive is
/// stored in.
pub open spec fn repo_of(file_name: Seq<char>) -> Seq<char> {
    text::without(file_name, ".zip"@)
}

pub open spec fn fetching_text(repo: Seq<char>) -> Seq<char> {
    "Fetching "@ + repo + " release information..."@
}

pub open spec fn unzipping_text(repo: Seq<char>) -> Seq<char> {
    "Unzipping "@ + repo + "..."@
}

pub open spec fn request_failed_text(repo: Seq<char>, e: Seq<char>) -> Seq<char> {
    "Failed to send request for "@ + repo + " release info: "@ + e
}

pub open spec fn body_failed_text(repo: Seq<char>, e: Seq<char>) -> Seq<char> {
    "Failed to read response body for "@ + repo + " release info: "@ + e
}

/// Of the body only the first line is reported, without the white space
/// around it.
pub open spec fn http_error_text(repo: Seq<char>, status: Seq<char>, body: Seq<char>) -> Seq<char> {
    repo + " release info HTTP error: HTTP status "@ + status + " - "@ + text::trimmed(
        text::first_line_of(body),
    )
}

pub open spec fn parse_failed_text(repo: Seq<char>, e: Seq<char>) -> Seq<char> {
    "Failed to parse "@ + repo + " release JSON: "@ + e
}

pub open spec fn zip_open_failed_text(repo: Seq<char>, e: Seq<char>) -> Seq<char> {
    "Failed to open downloaded zip for "@ + repo + ": "@ + e
}

pub open spec fn extract_failed_text(repo: Seq<char>, e: Seq<char>) -> Seq<char> {
    "Failed to extract zip for "@ + repo + ": "@ + e
}

/// How far the download of a release has come.
#[derive(Debug)]
enum ReleaseStage {
    Fetching,
    Parsing { text: String },
    Downloading { zipball_url: String },
    OpeningZip,
    Extracting,
    RemovingZip,
    Succeeded,
    Failed,
}

/// The download of a release.
#[derive(Debug)]
pub struct ReleaseDownload {
    /// Where the release is described.
    url: String,
    /// The file that the archive is stored in.
    local_file_name: String,
    /// The part of the installation that this download is, in hundredths.
    weight: u8,
    /// The progress at which the download of the archive began.
    start_progress: u32,
    stage: ReleaseStage,
}

pub enum StageView {
    Fetching,
    Parsing { text: Seq<char> },
    Downloading { zipball_url: Seq<char> },
    OpeningZip,
    Extracting,
    RemovingZip,
    Succeeded,
    Failed,
}

/// A [`ReleaseDownload`] as a mathematical value.
pub struct ReleaseView {
    pub url: Seq<char>,
    pub local_file_name: Seq<char>,
    pub weight: int,
    pub start_progress: int,
    pub stage: StageView,
}

impl View for ReleaseDownload {
    type V = ReleaseView;

    closed spec fn view(&self) -> ReleaseView {
        ReleaseView {
            url: self.url@,
            local_file_name: self.local_file_name@,
            weight: self.weight as int,
            start_progress: self.start_progress as int,
            stage: match self.stage {
                ReleaseStage::Fetching => StageView::Fetching,
                ReleaseStage::Parsing { text } => StageView::Parsing { text: text@ },
                ReleaseStage::Downloading { zipball_url } => StageView::Downloading {
                    zipball_url: zipball_url@,
                },
                ReleaseStage::OpeningZip => StageView::OpeningZip,
                ReleaseStage::Extracting => StageView::Extracting,
                ReleaseStage::RemovingZip => StageView::RemovingZip,
                ReleaseStage::Succeeded => StageView::Succeeded,
                ReleaseStage::Failed => StageView::Failed,
            },
        }
    }
}

/// What an event makes of the download of a release: the download and the
/// progress after it, and the messages to send.
pub struct ReleaseStep {
    pub release: ReleaseView,
    pub progress: int,
    pub messages: Seq<MessageView>,
}

impl ReleaseView {
    pub open spec fn repo(self) -> Seq<char> {
        repo_of(self.local_file_name)
    }

    /// The work that the download waits for.
    pub open spec fn action(self) -> ActionView {
        match self.stage {
            StageView::Fetching => ActionView::FetchRelease { url: self.url },
            StageView::Parsing { text } => ActionView::ParseRelease { text },
            StageView::Downloading { zipball_url } => ActionView::DownloadFile {
                url: zipball_url,
                file_name: self.local_file_name,
            },
            StageView::OpeningZip => ActionView::OpenZip { file_name: self.local_file_name },
            StageView::Extracting => ActionView::ExtractZip {
                parent: "Includes"@,
                folder: self.repo(),
            },
            StageView::RemovingZip => ActionView::RemoveFile { file_name: self.local_file_name },
            StageView::Succeeded | StageView::Failed => ActionView::Stop,
        }
    }

    /// The step to another stage, at the same progress and with no message.
    pub open spec fn moves_to(self, progress: int, stage: StageView) -> ReleaseStep {
        ReleaseStep { release: ReleaseView { stage, ..self }, progress, messages: seq![] }
    }

    /// The step that ends the download with an error.
    pub open spec fn fails(self, progress: int, error: Seq<char>) -> ReleaseStep {
        ReleaseStep {
            messages: seq![MessageView::Error(error)],
            ..self.moves_to(progress, StageView::Failed)
        }
    }

    /// What `event` makes of this download at `progress`. An event that does
    /// not answer the action changes nothing.
    pub open spec fn next(self, progress: int, event: EventView) -> ReleaseStep {
        if !action::answers(event, self.action()) {
            self.moves_to(progress, self.stage)
        } else {
            match event {
                EventView::RequestFailed(e) => self.fails(
                    progress,
                    request_failed_text(self.repo(), e),
                ),
                EventView::BodyFailed(e) => self.fails(progress, body_failed_text(self.repo(), e)),
                EventView::Responded { status, body } => {
                    let text = http::utf8_lossy(body);
                    if http::success_status(status) {
                        self.moves_to(progress, StageView::Parsing { text })
                    } else {
                        self.fails(
                            progress,
                            http_error_text(self.repo(), http::status_display(status), text),
                        )
                    }
                },
                EventView::ParseFailed(e) => self.fails(
                    progress,
                    parse_failed_text(self.repo(), e),
                ),
                EventView::Parsed { zipball_url } => ReleaseView {
                    start_progress: progress,
                    ..self
                }.moves_to(progress, StageView::Downloading { zipball_url }),
                // Half of the weight is the download, the rest is the extraction.
                EventView::Downloaded(true) => ReleaseStep {
                    progress: progress + 5 * self.weight,
                    messages: seq![
                        MessageView::Progress(progress + 5 * self.weight),
                        MessageView::Status(unzipping_text(self.repo())),
                    ],
                    ..self.moves_to(progress, StageView::OpeningZip)
                },
                EventView::Downloaded(false) => self.moves_to(progress, StageView::Failed),
                EventView::ZipOpenFailed(e) => self.fails(
                    progress,
                    zip_open_failed_text(self.repo(), e),
                ),
                EventView::ZipOpened => self.moves_to(progress, StageView::Extracting),
                EventView::ExtractFailed(e) => self.fails(
                    progress,
                    extract_failed_text(self.repo(), e),
                ),
                EventView::Extracted => self.moves_to(progress, StageView::RemovingZip),
                _ => ReleaseStep {
                    progress: self.start_progress + 10 * self.weight,
                    messages: seq![MessageView::Progress(self.start_progress + 10 * self.weight)],
                    ..self.moves_to(progress, StageView::Succeeded)
                },
            }
        }
    }

    /// The progress can be counted to the end of this download, which is
    /// entered at no more than `limit`.
    pub open spec fn starts_within(self, progress: int, limit: int) -> bool {
        match self.stage {
            StageView::Fetching | StageView::Parsing { .. } => progress <= limit,
            StageView::Downloading { .. } => self.start_progress == progress <= limit,
            StageView::OpeningZip | StageView::Extracting | StageView::RemovingZip => {
                self.start_progress <= limit
            },
            StageView::Succeeded | StageView::Failed => true,
        }
    }

    /// The progress at the end of this download is a number that can be held.
    pub open spec fn countable(self, progress: int) -> bool {
        self.starts_within(progress, u32::MAX - 10 * self.weight)
    }
}

/// The name of the repository whose archive is stored in `local_file_name`.
pub fn repo_name(local_file_name: &str) -> (repo: String)
    ensures
        repo@ == repo_of(local_file_name@),
{
    text::remove_all(local_file_name, ".zip")
}

/// The report on a response whose status is not a success.
pub fn http_error_message(repo: &str, status: &str, body: &str) -> (message: String)
    ensures
        message@ == http_error_text(repo@, status@, body@),
{
    text::join(repo, " release info HTTP error: HTTP status ", status).concat(" - ").concat(
        text::trim(text::first_line(body)),
    )
}

/// Begins the download of a release: gives the download and the message that
/// announces it.
pub fn download_github_release(url: &str, local_file_name: &str, weight: u8) -> (begun: (
    ReleaseDownload,
    InstallMessage,
))
    ensures
        begun.0@ == (ReleaseView {
            url: url@,
            local_file_name: local_file_name@,
            weight: weight as int,
            start_progress: 0,
            stage: StageView::Fetching,
        }),
        begun.1@ == MessageView::Status(fetching_text(repo_of(local_file_name@))),
{
    let repo = repo_name(local_file_name);
    let message = InstallMessage::Status(
        text::join("Fetching ", repo.as_str(), " release information..."),
    );
    let release = ReleaseDownload {
        url: url.to_string(),
        local_file_name: local_file_name.to_string(),
        weight,
        start_progress: 0,
        stage: ReleaseStage::Fetching,
    };
    (release, message)
}

impl ReleaseDownload {
    /// The work that the download waits for.
    pub fn action(&self) -> (action: Action)
        ensures
            action@ == self@.action(),
    {
        match &self.stage {
            ReleaseStage::Fetching => Action::FetchRelease { url: self.url.clone() },
            ReleaseStage::Parsing { text } => Action::ParseRelease { text: text.clone() },
            ReleaseStage::Downloading { zipball_url } => Action::DownloadFile {
                url: zipball_url.clone(),
                file_name: self.local_file_name.clone(),
            },
            ReleaseStage::OpeningZip => Action::OpenZip { file_name: self.local_file_name.clone() },
            ReleaseStage::Extracting => Action::ExtractZip {
                parent: "Includes".to_string(),
                folder: repo_name(self.local_file_name.as_str()),
            },
            ReleaseStage::RemovingZip => Action::RemoveFile {
                file_name: self.local_file_name.clone(),
            },
            ReleaseStage::Succeeded => Action::Stop,
            ReleaseStage::Failed => Action::Stop,
        }
    }

    /// Whether the download has succeeded, once it is over.
    pub fn outcome(&self) -> (outcome: Option<bool>)
        ensures
            outcome == (match self@.stage {
                StageView::Succeeded => Some(true),
                StageView::Failed => Some(false),
                _ => None::<bool>,
            }),
    {
        match &self.stage {
            ReleaseStage::Succeeded => Some(true),
            ReleaseStage::Failed => Some(false),
            _ => None,
        }
    }

    /// Ends the download with an error, made of the repository's name between
    /// `before` and `after`, and of `e`.
    fn fail(&mut self, before: &str, after: &str, e: &str) -> (messages: Vec<InstallMessage>)
        ensures
            final(self)@ == (ReleaseView { stage: StageView::Failed, ..old(self)@ }),
            message::message_views(messages@) == seq![
                MessageView::Error(before@ + old(self)@.repo() + after@ + e@),
            ],
    {
        let repo = repo_name(self.local_file_name.as_str());
        self.stage = ReleaseStage::Failed;
        let error = text::join(before, repo.as_str(), after).concat(e);
        let mut messages = message::no_messages();
        message::add_message(&mut messages, InstallMessage::Error(error));
        messages
    }

    /// Takes in an event and gives the messages to send.
    pub fn step(&mut self, event: Event, current_progress: &mut u32) -> (messages: Vec<
        InstallMessage,
    >)
        requires
            old(self)@.countable(*old(current_progress) as int),
        ensures
            ({
                let next = old(self)@.next(*old(current_progress) as int, event@);
                &&& final(self)@ == next.release
                &&& *final(current_progress) == next.progress
                &&& message::message_views(messages@) == next.messages
            }),
            final(self)@.countable(*final(current_progress) as int),
            event matches Event::Responded { status, body } ==> (action::answers(
                event@,
                old(self)@.action(),
            ) ==> http::read_faithfully(status, body@)),
    {
        match &self.stage {
            ReleaseStage::Fetching => match event {
                Event::RequestFailed(e) => self.fail(
                    "Failed to send request for ",
                    " release info: ",
                    e.as_str(),
                ),
                Event::BodyFailed(e) => self.fail(
                    "Failed to read response body for ",
                    " release info: ",
                    e.as_str(),
                ),
                Event::Responded { status, body } => self.respond(status, body),
                _ => message::no_messages(),
            },
            ReleaseStage::Parsing { .. } => match event {
                Event::ParseFailed(e) => self.fail(
                    "Failed to parse ",
                    " release JSON: ",
                    e.as_str(),
                ),
                Event::Parsed(release) => {
                    self.start_progress = *current_progress;
                    self.stage = ReleaseStage::Downloading { zipball_url: release.zipball_url };
                    message::no_messages()
                },
                _ => message::no_messages(),
            },
            ReleaseStage::Downloading { .. } => match event {
                Event::Downloaded(true) => {
                    let repo = repo_name(self.local_file_name.as_str());
                    *current_progress = *current_progress + 5 * (self.weight as u32);
                    self.stage = ReleaseStage::OpeningZip;
                    let status = text::join("Unzipping ", repo.as_str(), "...");
                    let mut messages = message::no_messages();
                    message::add_message(
                        &mut messages,
                        InstallMessage::Progress(*current_progress),
                    );
                    message::add_message(&mut messages, InstallMessage::Status(status));
                    messages
                },
                Event::Downloaded(false) => {
                    self.stage = ReleaseStage::Failed;
                    message::no_messages()
                },
                _ => message::no_messages(),
            },
            ReleaseStage::OpeningZip => match event {
                Event::ZipOpenFailed(e) => self.fail(
                    "Failed to open downloaded zip for ",
                    ": ",
                    e.as_str(),
                ),
                Event::ZipOpened => {
                    self.stage = ReleaseStage::Extracting;
                    message::no_messages()
                },
                _ => message::no_messages(),
            },
            ReleaseStage::Extracting => match event {
                Event::ExtractFailed(e) => self.fail(
                    "Failed to extract zip for ",
                    ": ",
                    e.as_str(),
                ),
                Event::Extracted => {
                    self.stage = ReleaseStage::RemovingZip;
                    message::no_messages()
                },
                _ => message::no_messages(),
            },
            ReleaseStage::RemovingZip => match event {
                Event::RemovalTried => {
                    *current_progress = self.start_progress + 10 * (self.weight as u32);
                    self.stage = ReleaseStage::Succeeded;
                    let mut messages = message::no_messages();
                    message::add_message(
                        &mut messages,
                        InstallMessage::Progress(*current_progress),
                    );
                    messages
                },
                _ => message::no_messages(),
            },
            ReleaseStage::Succeeded => message::no_messages(),
            ReleaseStage::Failed => message::no_messages(),
        }
    }

    /// Takes in the response to the request for the description.
    fn respond(&mut self, status: u16, body: Vec<u8>) -> (messages: Vec<InstallMessage>)
        requires
            old(self)@.stage is Fetching,
        ensures
            forall|progress: int|
                {
                    let next = #[trigger] old(self)@.next(
                        progress,
                        EventView::Responded { status, body: body@ },
                    );
                    &&& final(self)@ == next.release
                    &&& progress == next.progress
                    &&& message::message_views(messages@) == next.messages
                },
            http::valid_status(status) ==> http::read_faithfully(status, body@),
    {
        if status < 100 || status > 999 {
            return message::no_messages();
        }
        let text = http::body_text(body.as_slice());
        let success = http::status_is_success(status);
        let status_text = http::status_text(status);
        self.read_response(success, status_text.as_str(), text)
    }

    /// Takes in what was read off a response: whether its status is a
    /// success, the status as it is displayed, and the body as text. The body
    /// of a success is the description; another response ends the download.
    pub fn read_response(&mut self, success: bool, status: &str, body: String) -> (messages: Vec<
        InstallMessage,
    >)
        ensures
            success ==> {
                &&& final(self)@ == (ReleaseView {
                    stage: StageView::Parsing { text: body@ },
                    ..old(self)@
                })
                &&& message::message_views(messages@) == Seq::<MessageView>::empty()
            },
            !success ==> {
                &&& final(self)@ == (ReleaseView { stage: StageView::Failed, ..old(self)@ })
                &&& message::message_views(messages@) == seq![
                    MessageView::Error(http_error_text(old(self)@.repo(), status@, body@)),
                ]
            },
    {
        let mut messages = message::no_messages();
        if success {
            self.stage = ReleaseStage::Parsing { text: body };
        } else {
            let repo = repo_name(self.local_file_name.as_str());
            let error = http_error_message(repo.as_str(), status, body.as_str());
            self.stage = ReleaseStage::Failed;
            message::add_message(&mut messages, InstallMessage::Error(error));
        }
        messages
    }
}

} // verus!

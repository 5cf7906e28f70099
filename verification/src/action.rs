//! The outside work of an installation: what is to be done, and what came of it.

use vstd::prelude::*;

use crate::http;

verus! {

/// What the installer reads from the description of a GitHub release.
#[derive(Debug)]
pub struct GitHubRelease {
    pub zipball_url: String,
}

/// A piece of outside work. Files and folders are named relative to the
/// installation directory; weights are in hundredths of the installation and
/// progress is in thousandths.
#[derive(Debug, PartialEq)]
pub enum Action {
    /// Wait.
    Sleep { millis: u64 },
    /// Make the installation directory ready.
    PrepareDirectory { start_progress: u32, weight: u8 },
    /// Store what `url` serves under `file_name`.
    DownloadFile { url: String, file_name: String },
    /// Request the description of a release and read the whole response.
    FetchRelease { url: String },
    /// Read a [`GitHubRelease`] from JSON.
    ParseRelease { text: String },
    /// Open a downloaded archive.
    OpenZip { file_name: String },
    /// Extract the opened archive into `folder` below `parent`.
    ExtractZip { parent: String, folder: String },
    /// Remove a file, if that can be done.
    RemoveFile { file_name: String },
    /// Download the launcher.
    DownloadLauncher { start_progress: u32, weight: u8 },
    /// Link to a file of the installation directory, or to the directory itself.
    CreateShortcut { target: Option<String>, link: String, description: String },
    /// Nothing: the run is over.
    Stop,
}

/// An [`Action`] as a mathematical value.
pub enum ActionView {
    Sleep { millis: int },
    PrepareDirectory { start_progress: int, weight: int },
    DownloadFile { url: Seq<char>, file_name: Seq<char> },
    FetchRelease { url: Seq<char> },
    ParseRelease { text: Seq<char> },
    OpenZip { file_name: Seq<char> },
    ExtractZip { parent: Seq<char>, folder: Seq<char> },
    RemoveFile { file_name: Seq<char> },
    DownloadLauncher { start_progress: int, weight: int },
    CreateShortcut { target: Option<Seq<char>>, link: Seq<char>, description: Seq<char> },
    Stop,
}

impl View for Action {
    type V = ActionView;

    open spec fn view(&self) -> ActionView {
        match self {
            Action::Sleep { millis } => ActionView::Sleep { millis: *millis as int },
            Action::PrepareDirectory { start_progress, weight } => ActionView::PrepareDirectory {
                start_progress: *start_progress as int,
                weight: *weight as int,
            },
            Action::DownloadFile { url, file_name } => ActionView::DownloadFile {
                url: url@,
                file_name: file_name@,
            },
            Action::FetchRelease { url } => ActionView::FetchRelease { url: url@ },
            Action::ParseRelease { text } => ActionView::ParseRelease { text: text@ },
            Action::OpenZip { file_name } => ActionView::OpenZip { file_name: file_name@ },
            Action::ExtractZip { parent, folder } => ActionView::ExtractZip {
                parent: parent@,
                folder: folder@,
            },
            Action::RemoveFile { file_name } => ActionView::RemoveFile { file_name: file_name@ },
            Action::DownloadLauncher { start_progress, weight } => ActionView::DownloadLauncher {
                start_progress: *start_progress as int,
                weight: *weight as int,
            },
            Action::CreateShortcut { target, link, description } => ActionView::CreateShortcut {
                target: match target {
                    Some(file_name) => Some(file_name@),
                    None => None,
                },
                link: link@,
                description: description@,
            },
            Action::Stop => ActionView::Stop,
        }
    }
}

/// What came of an [`Action`]. A text that an event carries is the outside
/// error, displayed.
#[derive(Debug)]
pub enum Event {
    Slept,
    /// The directory is ready or not, and the progress that was left.
    DirectoryPrepared { ready: bool, progress: u16 },
    /// A file was downloaded or not.
    Downloaded(bool),
    RequestFailed(String),
    BodyFailed(String),
    Responded { status: u16, body: Vec<u8> },
    ParseFailed(String),
    Parsed(GitHubRelease),
    ZipOpenFailed(String),
    ZipOpened,
    ExtractFailed(String),
    Extracted,
    RemovalTried,
    /// The launcher was downloaded or not.
    LauncherDownloaded(bool),
    ShortcutTried,
}

/// An [`Event`] as a mathematical value.
pub enum EventView {
    Slept,
    DirectoryPrepared { ready: bool, progress: int },
    Downloaded(bool),
    RequestFailed(Seq<char>),
    BodyFailed(Seq<char>),
    Responded { status: u16, body: Seq<u8> },
    ParseFailed(Seq<char>),
    Parsed { zipball_url: Seq<char> },
    ZipOpenFailed(Seq<char>),
    ZipOpened,
    ExtractFailed(Seq<char>),
    Extracted,
    RemovalTried,
    LauncherDownloaded(bool),
    ShortcutTried,
}

impl View for Event {
    type V = EventView;

    open spec fn view(&self) -> EventView {
        match self {
            Event::Slept => EventView::Slept,
            Event::DirectoryPrepared { ready, progress } => EventView::DirectoryPrepared {
                ready: *ready,
                progress: *progress as int,
            },
            Event::Downloaded(done) => EventView::Downloaded(*done),
            Event::RequestFailed(e) => EventView::RequestFailed(e@),
            Event::BodyFailed(e) => EventView::BodyFailed(e@),
            Event::Responded { status, body } => EventView::Responded {
                status: *status,
                body: body@,
            },
            Event::ParseFailed(e) => EventView::ParseFailed(e@),
            Event::Parsed(release) => EventView::Parsed { zipball_url: release.zipball_url@ },
            Event::ZipOpenFailed(e) => EventView::ZipOpenFailed(e@),
            Event::ZipOpened => EventView::ZipOpened,
            Event::ExtractFailed(e) => EventView::ExtractFailed(e@),
            Event::Extracted => EventView::Extracted,
            Event::RemovalTried => EventView::RemovalTried,
            Event::LauncherDownloaded(done) => EventView::LauncherDownloaded(*done),
            Event::ShortcutTried => EventView::ShortcutTried,
        }
    }
}

/// The events that can come of an action. A status code is one that HTTP has.
pub open spec fn answers(event: EventView, action: ActionView) -> bool {
    match action {
        ActionView::Sleep { .. } => event is Slept,
        ActionView::PrepareDirectory { .. } => event is DirectoryPrepared,
        ActionView::DownloadFile { .. } => event is Downloaded,
        ActionView::FetchRelease { .. } => {
            ||| event is RequestFailed
            ||| event is BodyFailed
            ||| event matches EventView::Responded { status, .. } && http::valid_status(status)
        },
        ActionView::ParseRelease { .. } => event is ParseFailed || event is Parsed,
        ActionView::OpenZip { .. } => event is ZipOpenFailed || event is ZipOpened,
        ActionView::ExtractZip { .. } => event is ExtractFailed || event is Extracted,
        ActionView::RemoveFile { .. } => event is RemovalTried,
        ActionView::DownloadLauncher { .. } => event is LauncherDownloaded,
        ActionView::CreateShortcut { .. } => event is ShortcutTried,
        ActionView::Stop => false,
    }
}

} // verus!

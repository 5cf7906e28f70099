//! The installation run: the order of its work, its weights in the progress,
//! and what it reports.

use vstd::prelude::*;

use crate::action;
use crate::action::{Action, ActionView, Event, EventView};
use crate::http;
use crate::message;
use crate::message::{InstallMessage, MessageView, FULL_PROGRESS};
use crate::release;
use crate::release::{ReleaseDownload, ReleaseView, StageView};

verus! {

// The parts of an installation, in hundredths.
pub const INITIAL_SETUP_WEIGHT: u8 = 5;

pub const DIR_PREP_WEIGHT: u8 = 10;

pub const SIMBA_EXE_DOWNLOAD_WEIGHT: u8 = 15;

pub const SRL_T_DOWNLOAD_WEIGHT: u8 = 30;

pub const WASPLIB_DOWNLOAD_WEIGHT: u8 = 30;

pub const LAUNCHER_DOWNLOAD_WEIGHT: u8 = 5;

/// What an installation run is at.
#[derive(Debug)]
enum Phase {
    Initializing,
    PreparingDirectory,
    DownloadingSimba,
    DownloadingSrlT(ReleaseDownload),
    DownloadingWaspLib(ReleaseDownload),
    DownloadingLauncher,
    LinkingSimba,
    LinkingFolder,
    Finalizing,
    Completed,
    Failed,
}

/// An installation run.
#[derive(Debug)]
pub struct InstallRun {
    phase: Phase,
    current_progress: u32,
}

pub enum PhaseView {
    Initializing,
    PreparingDirectory,
    DownloadingSimba,
    DownloadingSrlT(ReleaseView),
    DownloadingWaspLib(ReleaseView),
    DownloadingLauncher,
    LinkingSimba,
    LinkingFolder,
    Finalizing,
    Completed,
    Failed,
}

/// An [`InstallRun`] as a mathematical value.
pub struct RunView {
    pub phase: PhaseView,
    pub progress: int,
}

impl View for InstallRun {
    type V = RunView;

    closed spec fn view(&self) -> RunView {
        RunView {
            phase: match self.phase {
                Phase::Initializing => PhaseView::Initializing,
                Phase::PreparingDirectory => PhaseView::PreparingDirectory,
                Phase::DownloadingSimba => PhaseView::DownloadingSimba,
                Phase::DownloadingSrlT(release) => PhaseView::DownloadingSrlT(release@),
                Phase::DownloadingWaspLib(release) => PhaseView::DownloadingWaspLib(release@),
                Phase::DownloadingLauncher => PhaseView::DownloadingLauncher,
                Phase::LinkingSimba => PhaseView::LinkingSimba,
                Phase::LinkingFolder => PhaseView::LinkingFolder,
                Phase::Finalizing => PhaseView::Finalizing,
                Phase::Completed => PhaseView::Completed,
                Phase::Failed => PhaseView::Failed,
            },
            progress: self.current_progress as int,
        }
    }
}

/// What an event makes of a run: the run after it, and the messages to send.
pub struct RunStep {
    pub run: RunView,
    pub messages: Seq<MessageView>,
}

/// The download of SRL-T, just begun.
pub open spec fn srl_t_release() -> ReleaseView {
    ReleaseView {
        url: "https://api.github.com/repos/Torwent/SRL-T/releases/latest"@,
        local_file_name: "SRL-T.zip"@,
        weight: SRL_T_DOWNLOAD_WEIGHT as int,
        start_progress: 0,
        stage: StageView::Fetching,
    }
}

/// The download of WaspLib, just begun.
pub open spec fn wasplib_release() -> ReleaseView {
    ReleaseView {
        url: "https://api.github.com/repos/Torwent/WaspLib/releases/latest"@,
        local_file_name: "WaspLib.zip"@,
        weight: WASPLIB_DOWNLOAD_WEIGHT as int,
        start_progress: 0,
        stage: StageView::Fetching,
    }
}

/// A run that has just begun.
pub open spec fn initial_run() -> RunView {
    RunView { phase: PhaseView::Initializing, progress: 0 }
}

/// What a run sends when it begins.
pub open spec fn initial_messages() -> Seq<MessageView> {
    seq![MessageView::Status("Initializing installation process..."@)]
}

impl RunView {
    /// The work that the run waits for.
    pub open spec fn action(self) -> ActionView {
        match self.phase {
            PhaseView::Initializing => ActionView::Sleep { millis: 200 },
            PhaseView::PreparingDirectory => ActionView::PrepareDirectory {
                start_progress: self.progress,
                weight: DIR_PREP_WEIGHT as int,
            },
            PhaseView::DownloadingSimba => ActionView::DownloadFile {
                url:
                    "https://github.com/Torwent/Simba/releases/latest/download/Simba-Win64.exe"@,
                file_name: "Simba64.exe"@,
            },
            PhaseView::DownloadingSrlT(release) => release.action(),
            PhaseView::DownloadingWaspLib(release) => release.action(),
            PhaseView::DownloadingLauncher => ActionView::DownloadLauncher {
                start_progress: self.progress,
                weight: LAUNCHER_DOWNLOAD_WEIGHT as int,
            },
            PhaseView::LinkingSimba => ActionView::CreateShortcut {
                target: Some("Simba64.exe"@),
                link: "Desktop/Simba64"@,
                description: "Simba 64 bits"@,
            },
            PhaseView::LinkingFolder => ActionView::CreateShortcut {
                target: None,
                link: "Desktop/SimbaFolder"@,
                description: "Simba Folder"@,
            },
            PhaseView::Finalizing => ActionView::Sleep { millis: 1000 },
            PhaseView::Completed | PhaseView::Failed => ActionView::Stop,
        }
    }

    /// The step to another phase, at `progress` and with `messages`.
    pub open spec fn moves_to(
        self,
        phase: PhaseView,
        progress: int,
        messages: Seq<MessageView>,
    ) -> RunStep {
        RunStep { run: RunView { phase, progress }, messages }
    }

    /// What `event` makes of this run. An event that does not answer the
    /// action changes nothing.
    pub open spec fn next(self, event: EventView) -> RunStep {
        if !action::answers(event, self.action()) {
            RunStep { run: self, messages: seq![] }
        } else {
            match self.phase {
                PhaseView::Initializing => {
                    let progress = self.progress + 10 * INITIAL_SETUP_WEIGHT;
                    self.moves_to(
                        PhaseView::PreparingDirectory,
                        progress,
                        seq![MessageView::Progress(progress)],
                    )
                },
                PhaseView::PreparingDirectory => match event {
                    EventView::DirectoryPrepared { ready: true, progress } => self.moves_to(
                        PhaseView::DownloadingSimba,
                        progress,
                        seq![],
                    ),
                    _ => self.moves_to(PhaseView::Failed, self.progress, seq![]),
                },
                PhaseView::DownloadingSimba => if event == EventView::Downloaded(true) {
                    // Reported by the download and again by the run.
                    let progress = self.progress + 10 * SIMBA_EXE_DOWNLOAD_WEIGHT;
                    self.moves_to(
                        PhaseView::DownloadingSrlT(srl_t_release()),
                        progress,
                        seq![
                            MessageView::Progress(progress),
                            MessageView::Progress(progress),
                            MessageView::Status(release::fetching_text(srl_t_release().repo())),
                        ],
                    )
                } else {
                    self.moves_to(PhaseView::Failed, self.progress, seq![])
                },
                PhaseView::DownloadingSrlT(release) => {
                    let step = release.next(self.progress, event);
                    match step.release.stage {
                        StageView::Failed => self.moves_to(
                            PhaseView::Failed,
                            step.progress,
                            step.messages,
                        ),
                        StageView::Succeeded => self.moves_to(
                            PhaseView::DownloadingWaspLib(wasplib_release()),
                            step.progress,
                            step.messages.push(
                                MessageView::Status(
                                    release::fetching_text(wasplib_release().repo()),
                                ),
                            ),
                        ),
                        _ => self.moves_to(
                            PhaseView::DownloadingSrlT(step.release),
                            step.progress,
                            step.messages,
                        ),
                    }
                },
                PhaseView::DownloadingWaspLib(release) => {
                    let step = release.next(self.progress, event);
                    let phase = match step.release.stage {
                        StageView::Failed => PhaseView::Failed,
                        StageView::Succeeded => PhaseView::DownloadingLauncher,
                        _ => PhaseView::DownloadingWaspLib(step.release),
                    };
                    self.moves_to(phase, step.progress, step.messages)
                },
                PhaseView::DownloadingLauncher => {
                    let phase = if event == EventView::LauncherDownloaded(true) {
                        PhaseView::LinkingSimba
                    } else {
                        PhaseView::Failed
                    };
                    self.moves_to(phase, self.progress, seq![])
                },
                PhaseView::LinkingSimba => self.moves_to(
                    PhaseView::LinkingFolder,
                    self.progress,
                    seq![],
                ),
                PhaseView::LinkingFolder => self.moves_to(
                    PhaseView::Finalizing,
                    self.progress,
                    seq![MessageView::Status("Finalizing installation..."@)],
                ),
                _ => self.moves_to(
                    PhaseView::Completed,
                    FULL_PROGRESS as int,
                    seq![
                        MessageView::Progress(FULL_PROGRESS as int),
                        MessageView::Status("Installation complete!"@),
                        MessageView::Completed,
                    ],
                ),
            }
        }
    }

    /// A release that is being downloaded is not over.
    pub open spec fn under_way(self) -> bool {
        match self.phase {
            PhaseView::DownloadingSrlT(release) | PhaseView::DownloadingWaspLib(release) => {
                !(release.stage is Succeeded || release.stage is Failed)
            },
            _ => true,
        }
    }

    /// The progress leaves room for what is still to be counted.
    pub open spec fn countable(self) -> bool {
        match self.phase {
            PhaseView::Initializing | PhaseView::DownloadingSimba => self.progress <= u16::MAX,
            PhaseView::DownloadingSrlT(release) => {
                &&& release.weight == SRL_T_DOWNLOAD_WEIGHT
                &&& release.starts_within(
                    self.progress,
                    u16::MAX + 10 * SIMBA_EXE_DOWNLOAD_WEIGHT,
                )
            },
            PhaseView::DownloadingWaspLib(release) => {
                &&& release.weight == WASPLIB_DOWNLOAD_WEIGHT
                &&& release.starts_within(
                    self.progress,
                    u16::MAX + 10 * SIMBA_EXE_DOWNLOAD_WEIGHT + 10 * SRL_T_DOWNLOAD_WEIGHT,
                )
            },
            _ => true,
        }
    }

    pub open spec fn wf(self) -> bool {
        self.under_way() && self.countable()
    }
}

/// Begins an installation run: gives the run and the messages to send.
pub fn run_installation_thread() -> (begun: (InstallRun, Vec<InstallMessage>))
    ensures
        begun.0@ == initial_run(),
        message::message_views(begun.1@) == initial_messages(),
        begun.0@.wf(),
{
    let run = InstallRun { phase: Phase::Initializing, current_progress: 0 };
    let mut messages = message::no_messages();
    message::add_message(
        &mut messages,
        InstallMessage::Status("Initializing installation process...".to_string()),
    );
    (run, messages)
}

/// What becomes of the progress when the download of Simba has succeeded or
/// not, and the message to send.
pub fn download_simba_executable(
    downloaded: bool,
    current_progress: &mut u32,
    weight: u8,
) -> (message: Option<InstallMessage>)
    requires
        downloaded ==> *old(current_progress) + 10 * weight <= u32::MAX,
    ensures
        downloaded ==> {
            &&& *final(current_progress) == *old(current_progress) + 10 * weight
            &&& message matches Some(m) && m@ == MessageView::Progress(
                *old(current_progress) + 10 * weight,
            )
        },
        !downloaded ==> *final(current_progress) == *old(current_progress) && message is None,
{
    if !downloaded {
        return None;
    }
    *current_progress = *current_progress + 10 * (weight as u32);
    Some(InstallMessage::Progress(*current_progress))
}

impl InstallRun {
    /// The work that the run waits for.
    pub fn action(&self) -> (action: Action)
        ensures
            action@ == self@.action(),
    {
        match &self.phase {
            Phase::Initializing => Action::Sleep { millis: 200 },
            Phase::PreparingDirectory => Action::PrepareDirectory {
                start_progress: self.current_progress,
                weight: DIR_PREP_WEIGHT,
            },
            Phase::DownloadingSimba => Action::DownloadFile {
                url:
                    "https://github.com/Torwent/Simba/releases/latest/download/Simba-Win64.exe".to_string(),
                file_name: "Simba64.exe".to_string(),
            },
            Phase::DownloadingSrlT(release) => release.action(),
            Phase::DownloadingWaspLib(release) => release.action(),
            Phase::DownloadingLauncher => Action::DownloadLauncher {
                start_progress: self.current_progress,
                weight: LAUNCHER_DOWNLOAD_WEIGHT,
            },
            Phase::LinkingSimba => Action::CreateShortcut {
                target: Some("Simba64.exe".to_string()),
                link: "Desktop/Simba64".to_string(),
                description: "Simba 64 bits".to_string(),
            },
            Phase::LinkingFolder => Action::CreateShortcut {
                target: None,
                link: "Desktop/SimbaFolder".to_string(),
                description: "Simba Folder".to_string(),
            },
            Phase::Finalizing => Action::Sleep { millis: 1000 },
            Phase::Completed => Action::Stop,
            Phase::Failed => Action::Stop,
        }
    }

    /// Whether the run has completed, once it is over.
    pub fn outcome(&self) -> (outcome: Option<bool>)
        ensures
            outcome == (match self@.phase {
                PhaseView::Completed => Some(true),
                PhaseView::Failed => Some(false),
                _ => None::<bool>,
            }),
    {
        match &self.phase {
            Phase::Completed => Some(true),
            Phase::Failed => Some(false),
            _ => None,
        }
    }

    /// Takes in an event and gives the messages to send.
    pub fn step(&mut self, event: Event) -> (messages: Vec<InstallMessage>)
        requires
            old(self)@.wf(),
        ensures
            final(self)@ == old(self)@.next(event@).run,
            message::message_views(messages@) == old(self)@.next(event@).messages,
            final(self)@.wf(),
            event matches Event::Responded { status, body } ==> (action::answers(
                event@,
                old(self)@.action(),
            ) ==> http::read_faithfully(status, body@)),
    {
        let mut messages = message::no_messages();
        match &mut self.phase {
            Phase::Initializing => if let Event::Slept = event {
                self.current_progress = self.current_progress + 10 * (INITIAL_SETUP_WEIGHT as u32);
                self.phase = Phase::PreparingDirectory;
                message::add_message(
                    &mut messages,
                    InstallMessage::Progress(self.current_progress),
                );
            },
            Phase::PreparingDirectory => if let Event::DirectoryPrepared { ready, progress } = event {
                if ready {
                    self.current_progress = progress as u32;
                    self.phase = Phase::DownloadingSimba;
                } else {
                    self.phase = Phase::Failed;
                }
            },
            Phase::DownloadingSimba => if let Event::Downloaded(done) = event {
                let start_progress: u32 = self.current_progress;
                match download_simba_executable(
                    done,
                    &mut self.current_progress,
                    SIMBA_EXE_DOWNLOAD_WEIGHT,
                ) {
                    None => {
                        self.phase = Phase::Failed;
                    },
                    Some(progress) => {
                        message::add_message(&mut messages, progress);
                        self.current_progress = start_progress + 10 * (
                        SIMBA_EXE_DOWNLOAD_WEIGHT as u32);
                        message::add_message(
                            &mut messages,
                            InstallMessage::Progress(self.current_progress),
                        );
                        let (release, status) = release::download_github_release(
                            "https://api.github.com/repos/Torwent/SRL-T/releases/latest",
                            "SRL-T.zip",
                            SRL_T_DOWNLOAD_WEIGHT,
                        );
                        message::add_message(&mut messages, status);
                        self.phase = Phase::DownloadingSrlT(release);
                    },
                }
            },
            Phase::DownloadingSrlT(release) => {
                messages = release.step(event, &mut self.current_progress);
                match release.outcome() {
                    Some(false) => {
                        self.phase = Phase::Failed;
                    },
                    Some(true) => {
                        let (next, status) = release::download_github_release(
                            "https://api.github.com/repos/Torwent/WaspLib/releases/latest",
                            "WaspLib.zip",
                            WASPLIB_DOWNLOAD_WEIGHT,
                        );
                        message::add_message(&mut messages, status);
                        self.phase = Phase::DownloadingWaspLib(next);
                    },
                    None => {},
                }
            },
            Phase::DownloadingWaspLib(release) => {
                messages = release.step(event, &mut self.current_progress);
                match release.outcome() {
                    Some(false) => {
                        self.phase = Phase::Failed;
                    },
                    Some(true) => {
                        self.phase = Phase::DownloadingLauncher;
                    },
                    None => {},
                }
            },
            Phase::DownloadingLauncher => if let Event::LauncherDownloaded(done) = event {
                if done {
                    self.phase = Phase::LinkingSimba;
                } else {
                    self.phase = Phase::Failed;
                }
            },
            Phase::LinkingSimba => if let Event::ShortcutTried = event {
                self.phase = Phase::LinkingFolder;
            },
            Phase::LinkingFolder => if let Event::ShortcutTried = event {
                self.phase = Phase::Finalizing;
                message::add_message(
                    &mut messages,
                    InstallMessage::Status("Finalizing installation...".to_string()),
                );
            },
            Phase::Finalizing => if let Event::Slept = event {
                self.phase = Phase::Completed;
                self.current_progress = FULL_PROGRESS;
                message::add_message(
                    &mut messages,
                    InstallMessage::Progress(self.current_progress),
                );
                message::add_message(
                    &mut messages,
                    InstallMessage::Status("Installation complete!".to_string()),
                );
                message::add_message(&mut messages, InstallMessage::Completed);
            },
            Phase::Completed => {},
            Phase::Failed => {},
        }
        messages
    }
}

} // verus!

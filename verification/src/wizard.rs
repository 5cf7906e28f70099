//! The wizard: its pages, how a user moves through them, and how it follows
//! an installation run.

use vstd::prelude::*;

use crate::message::{InstallMessage, MessageView, FULL_PROGRESS};

verus! {

/// The wizard.
#[derive(Debug)]
pub struct SimbaInstaller {
    pub page: u8,
    /// The installation directory, displayed.
    pub simba_dir: String,
    pub simba_exists: bool,
    /// In thousandths.
    pub install_progress: u32,
    pub is_installing: bool,
    pub installation_message: String,
    pub is_error_message: bool,
    pub run_simba: bool,
    pub silent: bool,
}

/// A [`SimbaInstaller`] as a mathematical value.
pub struct WizardView {
    pub page: int,
    pub simba_dir: Seq<char>,
    pub simba_exists: bool,
    pub install_progress: int,
    pub is_installing: bool,
    pub installation_message: Seq<char>,
    pub is_error_message: bool,
    pub run_simba: bool,
    pub silent: bool,
}

impl View for SimbaInstaller {
    type V = WizardView;

    open spec fn view(&self) -> WizardView {
        WizardView {
            page: self.page as int,
            simba_dir: self.simba_dir@,
            simba_exists: self.simba_exists,
            install_progress: self.install_progress as int,
            is_installing: self.is_installing,
            installation_message: self.installation_message@,
            is_error_message: self.is_error_message,
            run_simba: self.run_simba,
            silent: self.silent,
        }
    }
}

/// The pages, in the order in which a user meets them.
#[derive(Debug, Clone, Copy, PartialEq, Eq, Structural)]
pub enum Page {
    Welcome,
    ExistingInstallWarning,
    VersionSelection,
    Installation,
    Final,
}

/// The page with a number. Other numbers show an empty page.
pub open spec fn page_with_number(number: int) -> Option<Page> {
    if number == 0 {
        Some(Page::Welcome)
    } else if number == 1 {
        Some(Page::ExistingInstallWarning)
    } else if number == 2 {
        Some(Page::VersionSelection)
    } else if number == 3 {
        Some(Page::Installation)
    } else if number == 4 {
        Some(Page::Final)
    } else {
        None
    }
}

/// What the welcome page shows.
#[derive(Debug)]
pub struct WelcomePage {
    pub greeting: String,
    pub install_path: String,
}

/// What the installation page shows, and whether an installation run is to be
/// started.
#[derive(Debug)]
pub struct InstallationPage {
    pub message: String,
    pub is_error: bool,
    /// In thousandths.
    pub progress: u32,
    pub start: bool,
}

/// What the final page shows.
#[derive(Debug)]
pub struct FinalPage {
    pub heading: String,
    pub note: String,
    pub launch_box: String,
    /// The state of the box.
    pub run_simba: bool,
}

/// What is left to do when the wizard is finished: the file of the
/// installation directory to launch, and the exit code.
#[derive(Debug)]
pub struct Finish {
    pub launch: Option<String>,
    pub exit_code: i32,
}

/// The wizard when the program starts.
pub open spec fn initial_wizard(
    simba_dir: Seq<char>,
    simba_exists: bool,
    silent: bool,
) -> WizardView {
    WizardView {
        page: 0,
        simba_dir,
        simba_exists,
        install_progress: 0,
        is_installing: false,
        installation_message: "Ready to install..."@,
        is_error_message: false,
        run_simba: false,
        silent,
    }
}

impl WizardView {
    /// The wizard on another page.
    pub open spec fn on_page(self, page: int) -> WizardView {
        WizardView { page, ..self }
    }

    /// A visit to the warning ends at once: there is nothing to warn of, or
    /// nobody to be warned.
    pub open spec fn skips_warning(self) -> bool {
        self.silent || !self.simba_exists
    }

    /// The wizard after a click that leads to the next page, or without one.
    pub open spec fn advanced(self, clicked: bool) -> WizardView {
        if clicked {
            self.on_page(self.page + 1)
        } else {
            self
        }
    }

    /// The wizard after clicks on Cancel and on Continue, or without them.
    pub open spec fn warned(self, cancel: bool, go_on: bool) -> WizardView {
        let back: int = if cancel {
            1
        } else {
            0
        };
        let forth: int = if go_on {
            1
        } else {
            0
        };
        self.on_page(self.page - back + forth)
    }

    /// The wizard with the Launch Simba box in a state.
    pub open spec fn boxed(self, run_simba: bool) -> WizardView {
        WizardView { run_simba, ..self }
    }

    /// A visit to the installation page starts an installation run.
    pub open spec fn starts(self) -> bool {
        !self.is_installing && self.install_progress < FULL_PROGRESS
    }

    /// The wizard after a visit to the installation page.
    pub open spec fn visited(self) -> WizardView {
        if self.starts() {
            WizardView {
                is_installing: true,
                installation_message: "Starting installation process..."@,
                is_error_message: false,
                install_progress: 0,
                ..self
            }
        } else {
            self
        }
    }

    /// The wizard after a message from the run.
    pub open spec fn received(self, message: MessageView) -> WizardView {
        match message {
            MessageView::Progress(p) => WizardView { install_progress: p, ..self },
            MessageView::Status(s) => WizardView {
                installation_message: s,
                is_error_message: false,
                ..self
            },
            MessageView::Completed => WizardView {
                install_progress: FULL_PROGRESS as int,
                is_installing: false,
                installation_message: "Installation successful!"@,
                is_error_message: false,
                page: self.page + 1,
                ..self
            },
            MessageView::Error(e) => WizardView {
                install_progress: FULL_PROGRESS as int,
                is_installing: false,
                installation_message: "Installation failed: "@ + e,
                is_error_message: true,
                ..self
            },
        }
    }

    /// The wizard after messages from the run, in order.
    pub open spec fn received_all(self, messages: Seq<MessageView>) -> WizardView
        decreases messages.len(),
    {
        if messages.len() == 0 {
            self
        } else {
            self.received_all(messages.drop_last()).received(messages.last())
        }
    }
}

impl SimbaInstaller {
    /// The wizard when the program starts. `exists` and `is_dir` say what
    /// there is at the installation directory's path.
    pub fn new(simba_dir: String, exists: bool, is_dir: bool, silent: bool) -> (wizard: Self)
        ensures
            wizard@ == initial_wizard(simba_dir@, exists && is_dir, silent),
    {
        SimbaInstaller {
            page: 0,
            simba_dir,
            simba_exists: exists && is_dir,
            install_progress: 0,
            is_installing: false,
            installation_message: "Ready to install...".to_string(),
            is_error_message: false,
            run_simba: false,
            silent,
        }
    }

    /// The page to show.
    pub fn current_page(&self) -> (page: Option<Page>)
        ensures
            page == page_with_number(self@.page),
    {
        match self.page {
            0 => Some(Page::Welcome),
            1 => Some(Page::ExistingInstallWarning),
            2 => Some(Page::VersionSelection),
            3 => Some(Page::Installation),
            4 => Some(Page::Final),
            _ => None,
        }
    }

    /// What the welcome page shows.
    pub fn show_welcome_page(&self) -> (page: WelcomePage)
        ensures
            page.greeting@
                == "Welcome to WaspScripts Simba installer.\nTo begin the installation click Next."@,
            page.install_path@ == "Install path is fixed to:\n"@ + self@.simba_dir,
    {
        WelcomePage {
            greeting:
                "Welcome to WaspScripts Simba installer.\nTo begin the installation click Next.".to_string(),
            install_path: "Install path is fixed to:\n".to_string().concat(self.simba_dir.as_str()),
        }
    }

    /// Takes in whether Next was clicked on the welcome page.
    pub fn welcome_page_clicked(&mut self, next: bool)
        requires
            next ==> old(self).page < u8::MAX,
        ensures
            final(self)@ == old(self)@.advanced(next),
    {
        if next {
            self.page = self.page + 1;
        }
    }

    /// Visits the warning of an existing installation: gives the warning to
    /// show, or moves on if there is none.
    pub fn show_existing_install_warning_page(&mut self) -> (warning: Option<String>)
        requires
            old(self)@.skips_warning() ==> old(self).page < u8::MAX,
        ensures
            final(self)@ == old(self)@.advanced(old(self)@.skips_warning()),
            match warning {
                None => old(self)@.skips_warning(),
                Some(w) => {
                    &&& !old(self)@.skips_warning()
                    &&& w@
                        == "You seem to have a previous Simba installation.\nContinuing may result in loss of previous data."@
                },
            },
    {
        if self.silent {
            self.page = self.page + 1;
            return None;
        }
        if self.simba_exists {
            return Some(
                "You seem to have a previous Simba installation.\nContinuing may result in loss of previous data.".to_string(),
            );
        }
        self.page = self.page + 1;
        None
    }

    /// Takes in what was clicked under the warning: Cancel goes back to the
    /// page before, Continue goes on to the page behind it.
    pub fn existing_install_warning_clicked(&mut self, cancel: bool, go_on: bool)
        requires
            cancel ==> old(self).page > 0,
            go_on && !cancel ==> old(self).page < u8::MAX,
        ensures
            final(self)@ == old(self)@.warned(cancel, go_on),
    {
        if cancel {
            self.page = self.page - 1;
        }
        if go_on {
            self.page = self.page + 1;
        }
    }

    /// What the version selection page shows.
    pub fn show_version_selection_page(&self) -> (notice: String)
        ensures
            notice@
                == "The installation might take a while.\n\nPlease don't close the installer midway to prevent corruption."@,
    {
        "The installation might take a while.\n\nPlease don't close the installer midway to prevent corruption.".to_string()
    }

    /// Takes in whether Install was clicked.
    pub fn version_selection_page_clicked(&mut self, install: bool)
        requires
            install ==> old(self).page < u8::MAX,
        ensures
            final(self)@ == old(self)@.advanced(install),
    {
        if install {
            self.page = self.page + 1;
        }
    }

    /// Visits the installation page: gives what it shows, and whether an
    /// installation run is to be started now.
    pub fn show_installation_page(&mut self) -> (page: InstallationPage)
        ensures
            page.message@ == old(self)@.installation_message,
            page.is_error == old(self)@.is_error_message,
            page.progress == old(self)@.install_progress,
            page.start == old(self)@.starts(),
            final(self)@ == old(self)@.visited(),
    {
        let start = !self.is_installing && self.install_progress < FULL_PROGRESS;
        let page = InstallationPage {
            message: self.installation_message.clone(),
            is_error: self.is_error_message,
            progress: self.install_progress,
            start,
        };
        if start {
            self.is_installing = true;
            self.installation_message = "Starting installation process...".to_string();
            self.is_error_message = false;
            self.install_progress = 0;
        }
        page
    }

    /// Takes in a message from the run.
    pub fn receive(&mut self, message: InstallMessage)
        requires
            message is Completed ==> old(self).page < u8::MAX,
        ensures
            final(self)@ == old(self)@.received(message@),
    {
        match message {
            InstallMessage::Progress(p) => {
                self.install_progress = p;
            },
            InstallMessage::Status(s) => {
                self.installation_message = s;
                self.is_error_message = false;
            },
            InstallMessage::Completed => {
                self.install_progress = FULL_PROGRESS;
                self.is_installing = false;
                self.installation_message = "Installation successful!".to_string();
                self.is_error_message = false;
                self.page = self.page + 1;
            },
            InstallMessage::Error(e) => {
                self.install_progress = FULL_PROGRESS;
                self.is_installing = false;
                self.installation_message = "Installation failed: ".to_string().concat(e.as_str());
                self.is_error_message = true;
            },
        }
    }

    /// What the final page shows.
    pub fn show_final_page(&self) -> (page: FinalPage)
        ensures
            page.heading@ == "Installation Finished"@,
            page.note@ == "You can start using Simba now!"@,
            page.launch_box@ == "Launch Simba"@,
            page.run_simba == self@.run_simba,
    {
        FinalPage {
            heading: "Installation Finished".to_string(),
            note: "You can start using Simba now!".to_string(),
            launch_box: "Launch Simba".to_string(),
            run_simba: self.run_simba,
        }
    }

    /// Takes in the state of the Launch Simba box and whether Finish was
    /// clicked: gives what is left to do, if the wizard is finished.
    pub fn final_page_clicked(&mut self, run_simba: bool, finish: bool) -> (end: Option<Finish>)
        ensures
            final(self)@ == old(self)@.boxed(run_simba),
            finish ==> {
                &&& end matches Some(e)
                &&& e.exit_code == 0
                &&& match e.launch {
                    Some(file_name) => run_simba && file_name@ == "Simba64.exe"@,
                    None => !run_simba,
                }
            },
            !finish ==> end is None,
    {
        self.run_simba = run_simba;
        if finish {
            let launch = if self.run_simba {
                Some("Simba64.exe".to_string())
            } else {
                None
            };
            Some(Finish { launch, exit_code: 0 })
        } else {
            None
        }
    }
}

} // verus!

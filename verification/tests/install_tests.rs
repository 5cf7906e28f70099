use simba_installer::action::{Action, Event, GitHubRelease};
use simba_installer::install::{download_simba_executable, run_installation_thread, InstallRun};
use simba_installer::message::InstallMessage;
use simba_installer::silent::{exit_code, is_silent};
use simba_installer::wizard::{Page, SimbaInstaller};

fn status(text: &str) -> InstallMessage {
    InstallMessage::Status(text.to_string())
}

fn release_events() -> Vec<Event> {
    vec![
        Event::Responded { status: 200, body: b"{}".to_vec() },
        Event::Parsed(GitHubRelease { zipball_url: "https://example.org/zip".to_string() }),
        Event::Downloaded(true),
        Event::ZipOpened,
        Event::Extracted,
        Event::RemovalTried,
    ]
}

fn successful_events() -> Vec<Event> {
    let mut events = vec![
        Event::Slept,
        Event::DirectoryPrepared { ready: true, progress: 150 },
        Event::Downloaded(true),
    ];
    events.extend(release_events());
    events.extend(release_events());
    events.push(Event::LauncherDownloaded(true));
    events.push(Event::ShortcutTried);
    events.push(Event::ShortcutTried);
    events.push(Event::Slept);
    events
}

fn run(events: Vec<Event>) -> (InstallRun, Vec<InstallMessage>, Vec<Action>) {
    let (mut run, mut sent) = run_installation_thread();
    let mut actions = vec![run.action()];
    for event in events {
        sent.extend(run.step(event));
        actions.push(run.action());
    }
    (run, sent, actions)
}

fn nth_event_replaced(n: usize, event: Event) -> Vec<Event> {
    let mut events = successful_events();
    events.truncate(n);
    events.push(event);
    events
}

#[test]
fn successful_run_sends_all() {
    let (run, sent, _) = run(successful_events());
    assert_eq!(run.outcome(), Some(true));
    assert_eq!(
        sent,
        vec![
            status("Initializing installation process..."),
            InstallMessage::Progress(50),
            InstallMessage::Progress(300),
            InstallMessage::Progress(300),
            status("Fetching SRL-T release information..."),
            InstallMessage::Progress(450),
            status("Unzipping SRL-T..."),
            InstallMessage::Progress(600),
            status("Fetching WaspLib release information..."),
            InstallMessage::Progress(750),
            status("Unzipping WaspLib..."),
            InstallMessage::Progress(900),
            status("Finalizing installation..."),
            InstallMessage::Progress(1000),
            status("Installation complete!"),
            InstallMessage::Completed,
        ]
    );
}

#[test]
fn successful_run_does_all_work_in_order() {
    let (_, _, actions) = run(successful_events());
    let text = |s: &str| s.to_string();
    let release = |repo: &str| {
        let file_name = format!("{}.zip", repo);
        vec![
            Action::FetchRelease {
                url: format!("https://api.github.com/repos/Torwent/{}/releases/latest", repo),
            },
            Action::ParseRelease { text: text("{}") },
            Action::DownloadFile {
                url: text("https://example.org/zip"),
                file_name: file_name.clone(),
            },
            Action::OpenZip { file_name: file_name.clone() },
            Action::ExtractZip { parent: text("Includes"), folder: text(repo) },
            Action::RemoveFile { file_name },
        ]
    };
    let mut expected = vec![
        Action::Sleep { millis: 200 },
        Action::PrepareDirectory { start_progress: 50, weight: 10 },
        Action::DownloadFile {
            url: text("https://github.com/Torwent/Simba/releases/latest/download/Simba-Win64.exe"),
            file_name: text("Simba64.exe"),
        },
    ];
    expected.extend(release("SRL-T"));
    expected.extend(release("WaspLib"));
    expected.push(Action::DownloadLauncher { start_progress: 900, weight: 5 });
    expected.push(Action::CreateShortcut {
        target: Some(text("Simba64.exe")),
        link: text("Desktop/Simba64"),
        description: text("Simba 64 bits"),
    });
    expected.push(Action::CreateShortcut {
        target: None,
        link: text("Desktop/SimbaFolder"),
        description: text("Simba Folder"),
    });
    expected.push(Action::Sleep { millis: 1000 });
    expected.push(Action::Stop);
    assert_eq!(actions, expected);
}

#[test]
fn progress_does_not_fall() {
    let (_, sent, _) = run(successful_events());
    let mut last: u32 = 0;
    for message in sent {
        if let InstallMessage::Progress(p) = message {
            assert!(last <= p && p <= 1000);
            last = p;
        }
    }
    assert_eq!(last, 1000);
}

#[test]
fn helpers_that_fail_end_the_run_quietly() {
    for (n, event) in [
        (1, Event::DirectoryPrepared { ready: false, progress: 60 }),
        (2, Event::Downloaded(false)),
        (5, Event::Downloaded(false)),
        (15, Event::LauncherDownloaded(false)),
    ] {
        let (before, sent_before, _) = run(nth_event_replaced(n, Event::ShortcutTried));
        assert_eq!(before.outcome(), None);
        let (mut after, sent, actions) = run(nth_event_replaced(n, event));
        assert_eq!(after.outcome(), Some(false));
        assert_eq!(sent, sent_before);
        assert_eq!(actions.last(), Some(&Action::Stop));
        assert!(after.step(Event::Slept).is_empty());
        assert_eq!(after.outcome(), Some(false));
        assert!(sent.iter().all(|m| exit_code(m).is_none()));
    }
}

#[test]
fn reported_failures_are_the_last_message() {
    for (n, event, text) in [
        (
            3,
            Event::RequestFailed("e".to_string()),
            "Failed to send request for SRL-T release info: e",
        ),
        (
            10,
            Event::ParseFailed("e".to_string()),
            "Failed to parse WaspLib release JSON: e",
        ),
        (
            9,
            Event::Responded { status: 403, body: b"limit\n".to_vec() },
            "WaspLib release info HTTP error: HTTP status 403 Forbidden - limit",
        ),
        (13, Event::ExtractFailed("e".to_string()), "Failed to extract zip for WaspLib: e"),
    ] {
        let (run, sent, _) = run(nth_event_replaced(n, event));
        assert_eq!(run.outcome(), Some(false));
        assert_eq!(sent.last(), Some(&InstallMessage::Error(text.to_string())));
        let codes: Vec<i32> = sent.iter().filter_map(exit_code).collect();
        assert_eq!(codes, vec![1]);
    }
}

#[test]
fn largest_progress_that_a_preparation_can_leave() {
    let mut events = successful_events();
    events[1] = Event::DirectoryPrepared { ready: true, progress: u16::MAX };
    let (run, sent, _) = run(events);
    assert_eq!(run.outcome(), Some(true));
    assert_eq!(sent[11], InstallMessage::Progress(65535 + 750));
}

#[test]
fn simba_executable_counts_when_it_is_there() {
    let mut progress: u32 = 150;
    assert_eq!(
        download_simba_executable(true, &mut progress, 15),
        Some(InstallMessage::Progress(300))
    );
    assert_eq!(progress, 300);
    assert_eq!(download_simba_executable(false, &mut progress, 15), None);
    assert_eq!(progress, 300);
}

#[test]
fn wizard_follows_a_successful_run() {
    let (_, sent, _) = run(successful_events());
    let mut wizard = SimbaInstaller::new("C:\\Simba".to_string(), false, false, false);
    wizard.page = 3;
    assert!(wizard.show_installation_page().start);
    for message in sent {
        assert!(!wizard.show_installation_page().start);
        wizard.receive(message);
    }
    assert_eq!(wizard.current_page(), Some(Page::Final));
    assert_eq!(wizard.installation_message, "Installation successful!");
    assert!(!wizard.is_error_message && !wizard.is_installing);
    assert_eq!(wizard.install_progress, 1000);
}

#[test]
fn wizard_shows_a_failed_run() {
    let (_, sent, _) = run(nth_event_replaced(3, Event::BodyFailed("e".to_string())));
    let mut wizard = SimbaInstaller::new("C:\\Simba".to_string(), false, false, false);
    wizard.page = 3;
    assert!(wizard.show_installation_page().start);
    for message in sent {
        wizard.receive(message);
    }
    let page = wizard.show_installation_page();
    assert_eq!(wizard.current_page(), Some(Page::Installation));
    assert!(page.is_error && !page.start);
    assert_eq!(
        page.message,
        "Installation failed: Failed to read response body for SRL-T release info: e"
    );
    assert_eq!(page.progress, 1000);
}

#[test]
fn silent_mode() {
    assert!(is_silent(&vec!["installer".to_string(), "--silent".to_string()]));
    assert!(!is_silent(&vec!["installer".to_string(), "--Silent".to_string()]));
    assert!(!is_silent(&Vec::new()));
    assert_eq!(exit_code(&InstallMessage::Completed), Some(0));
    assert_eq!(exit_code(&InstallMessage::Error("e".to_string())), Some(1));
    assert_eq!(exit_code(&InstallMessage::Progress(1000)), None);
    assert_eq!(exit_code(&status("s")), None);
    let (_, sent, _) = run(successful_events());
    let codes: Vec<i32> = sent.iter().filter_map(exit_code).collect();
    assert_eq!(codes, vec![0]);
}

#[test]
fn helpers_and_run_share_the_channel() {
    // A quiet failure: the helper has sent the error, the run sends nothing.
    let (run, mut sent) = {
        let (run, sent, _) = run(nth_event_replaced(2, Event::Downloaded(false)));
        (run, sent)
    };
    assert_eq!(run.outcome(), Some(false));
    sent.insert(1, status("Preparing..."));
    sent.push(InstallMessage::Error("offline".to_string()));
    let codes: Vec<i32> = sent.iter().filter_map(exit_code).collect();
    assert_eq!(codes, vec![1]);
    let mut wizard = SimbaInstaller::new("C:\\Simba".to_string(), false, false, false);
    wizard.page = 3;
    assert!(wizard.show_installation_page().start);
    for message in sent {
        wizard.receive(message);
    }
    assert_eq!(wizard.current_page(), Some(Page::Installation));
    let page = wizard.show_installation_page();
    assert!(page.is_error && !page.start);
    assert_eq!(page.message, "Installation failed: offline");
}

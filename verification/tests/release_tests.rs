use simba_installer::action::{Action, Event, GitHubRelease};
use simba_installer::message::InstallMessage;
use simba_installer::release::{
    download_github_release, http_error_message, repo_name, ReleaseDownload,
};

fn begin() -> ReleaseDownload {
    download_github_release("https://example.org/latest", "SRL-T.zip", 30).0
}

fn error(messages: Vec<InstallMessage>) -> String {
    assert_eq!(messages.len(), 1);
    match messages.into_iter().next() {
        Some(InstallMessage::Error(e)) => e,
        other => panic!("not an error: {:?}", other),
    }
}

fn parsed() -> Event {
    Event::Parsed(GitHubRelease { zipball_url: "https://example.org/zip".to_string() })
}

#[test]
fn announces_the_repository() {
    let (release, message) = download_github_release("u", "WaspLib.zip", 30);
    assert_eq!(
        message,
        InstallMessage::Status("Fetching WaspLib release information...".to_string())
    );
    assert_eq!(release.action(), Action::FetchRelease { url: "u".to_string() });
    assert_eq!(repo_name("WaspLib.zip"), "WaspLib");
}

#[test]
fn successful_download() {
    let mut progress: u32 = 300;
    let mut release = begin();
    let body = "{\"zipball_url\": \"ü\"}";
    let responded = Event::Responded { status: 200, body: body.as_bytes().to_vec() };
    assert!(release.step(responded, &mut progress).is_empty());
    assert_eq!(release.action(), Action::ParseRelease { text: body.to_string() });
    assert!(release.step(parsed(), &mut progress).is_empty());
    assert_eq!(
        release.action(),
        Action::DownloadFile {
            url: "https://example.org/zip".to_string(),
            file_name: "SRL-T.zip".to_string(),
        }
    );
    assert_eq!(
        release.step(Event::Downloaded(true), &mut progress),
        vec![
            InstallMessage::Progress(450),
            InstallMessage::Status("Unzipping SRL-T...".to_string()),
        ]
    );
    assert_eq!(progress, 450);
    assert_eq!(release.action(), Action::OpenZip { file_name: "SRL-T.zip".to_string() });
    assert!(release.step(Event::ZipOpened, &mut progress).is_empty());
    assert_eq!(
        release.action(),
        Action::ExtractZip { parent: "Includes".to_string(), folder: "SRL-T".to_string() }
    );
    assert!(release.step(Event::Extracted, &mut progress).is_empty());
    assert_eq!(release.action(), Action::RemoveFile { file_name: "SRL-T.zip".to_string() });
    assert_eq!(
        release.step(Event::RemovalTried, &mut progress),
        vec![InstallMessage::Progress(600)]
    );
    assert_eq!(progress, 600);
    assert_eq!(release.outcome(), Some(true));
    assert_eq!(release.action(), Action::Stop);
}

#[test]
fn odd_weight_is_halved_exactly() {
    let mut progress: u32 = 0;
    let mut release = download_github_release("u", "x.zip", 15).0;
    release.step(Event::Responded { status: 204, body: Vec::new() }, &mut progress);
    release.step(parsed(), &mut progress);
    release.step(Event::Downloaded(true), &mut progress);
    assert_eq!(progress, 75);
    release.step(Event::ZipOpened, &mut progress);
    release.step(Event::Extracted, &mut progress);
    release.step(Event::RemovalTried, &mut progress);
    assert_eq!(progress, 150);
}

#[test]
fn request_failure() {
    let mut progress: u32 = 7;
    let mut release = begin();
    let messages = release.step(Event::RequestFailed("no route".to_string()), &mut progress);
    assert_eq!(error(messages), "Failed to send request for SRL-T release info: no route");
    assert_eq!(release.outcome(), Some(false));
    assert_eq!(progress, 7);
}

#[test]
fn body_failure() {
    let mut progress: u32 = 7;
    let mut release = begin();
    let messages = release.step(Event::BodyFailed("cut off".to_string()), &mut progress);
    assert_eq!(error(messages), "Failed to read response body for SRL-T release info: cut off");
}

#[test]
fn http_error() {
    let mut progress: u32 = 7;
    let mut release = begin();
    let body = b"  Not here \r\nmore".to_vec();
    let messages = release.step(Event::Responded { status: 404, body }, &mut progress);
    assert_eq!(
        error(messages),
        "SRL-T release info HTTP error: HTTP status 404 Not Found - Not here"
    );
    assert_eq!(release.outcome(), Some(false));
}

#[test]
fn http_error_with_unknown_code_and_empty_body() {
    let mut progress: u32 = 7;
    let mut release = begin();
    let messages = release.step(Event::Responded { status: 799, body: Vec::new() }, &mut progress);
    assert_eq!(
        error(messages),
        "SRL-T release info HTTP error: HTTP status 799 <unknown status code> - "
    );
    assert_eq!(http_error_message("r", "s", "\n b"), "r release info HTTP error: HTTP status s - ");
}

#[test]
fn success_is_the_two_hundreds() {
    for status in 100..=999u16 {
        let mut progress: u32 = 0;
        let mut release = begin();
        release.step(Event::Responded { status, body: Vec::new() }, &mut progress);
        let parsing = matches!(release.action(), Action::ParseRelease { .. });
        assert_eq!(parsing, (200..300).contains(&status));
    }
}

#[test]
fn body_that_is_not_utf8_is_read_with_replacements() {
    let mut progress: u32 = 0;
    let mut release = begin();
    let body = vec![b'a', 0xff, b'b'];
    release.step(Event::Responded { status: 200, body }, &mut progress);
    assert_eq!(release.action(), Action::ParseRelease { text: "a\u{fffd}b".to_string() });
}

#[test]
fn response_that_was_read() {
    let mut release = begin();
    let messages = release.read_response(false, "500 Internal Server Error", "oops\nx".to_string());
    assert_eq!(
        error(messages),
        "SRL-T release info HTTP error: HTTP status 500 Internal Server Error - oops"
    );
    let mut release = begin();
    assert!(release.read_response(true, "200 OK", "{}".to_string()).is_empty());
    assert_eq!(release.action(), Action::ParseRelease { text: "{}".to_string() });
}

#[test]
fn parse_failure() {
    let mut progress: u32 = 0;
    let mut release = begin();
    release.step(Event::Responded { status: 200, body: b"{}".to_vec() }, &mut progress);
    let messages = release.step(Event::ParseFailed("missing field".to_string()), &mut progress);
    assert_eq!(error(messages), "Failed to parse SRL-T release JSON: missing field");
}

#[test]
fn archive_failures() {
    let mut progress: u32 = 0;
    let mut release = begin();
    release.step(Event::Responded { status: 200, body: Vec::new() }, &mut progress);
    release.step(parsed(), &mut progress);
    assert!(release.step(Event::Downloaded(false), &mut progress).is_empty());
    assert_eq!(release.outcome(), Some(false));

    let mut release = begin();
    release.step(Event::Responded { status: 200, body: Vec::new() }, &mut progress);
    release.step(parsed(), &mut progress);
    release.step(Event::Downloaded(true), &mut progress);
    let messages = release.step(Event::ZipOpenFailed("locked".to_string()), &mut progress);
    assert_eq!(error(messages), "Failed to open downloaded zip for SRL-T: locked");

    let mut release = begin();
    release.step(Event::Responded { status: 200, body: Vec::new() }, &mut progress);
    release.step(parsed(), &mut progress);
    release.step(Event::Downloaded(true), &mut progress);
    release.step(Event::ZipOpened, &mut progress);
    let messages = release.step(Event::ExtractFailed("bad zip".to_string()), &mut progress);
    assert_eq!(error(messages), "Failed to extract zip for SRL-T: bad zip");
}

#[test]
fn event_that_is_no_answer_changes_nothing() {
    let mut progress: u32 = 5;
    let mut release = begin();
    assert!(release.step(Event::Slept, &mut progress).is_empty());
    assert!(release.step(Event::Downloaded(true), &mut progress).is_empty());
    assert!(release.step(Event::Responded { status: 99, body: Vec::new() }, &mut progress).is_empty());
    assert!(matches!(release.action(), Action::FetchRelease { .. }));
    assert_eq!(release.outcome(), None);
    assert_eq!(progress, 5);
}

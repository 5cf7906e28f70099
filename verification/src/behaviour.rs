//! What the single operations are for: what comes out of them on any input,
//! said of what goes in.

use vstd::prelude::*;

use crate::action;
use crate::action::{Action, ActionView, Event, EventView};
use crate::http;
use crate::message;
use crate::message::{InstallMessage, MessageView};
use crate::release;
use crate::release::{ReleaseStep, ReleaseView, StageView};
use crate::silent;
use crate::text;
use crate::wizard;
use crate::wizard::{Page, SimbaInstaller, WizardView};

verus! {

// ---- Values ----

/// Nothing of a message is left out of what is said of it, or changed there.
pub proof fn law_messages_are_seen_whole(messages: Seq<InstallMessage>, m: InstallMessage)
    ensures
        m@ matches MessageView::Progress(p) ==> (m matches InstallMessage::Progress(q) && q == p),
        m@ matches MessageView::Status(s) ==> (m matches InstallMessage::Status(t) && t@ == s),
        m@ is Completed ==> m is Completed,
        m@ matches MessageView::Error(e) ==> (m matches InstallMessage::Error(f) && f@ == e),
        message::message_views(messages).len() == messages.len(),
        forall|i: int|
            0 <= i < messages.len() ==> #[trigger] message::message_views(messages)[i]
                == messages[i]@,
{
}

/// Nothing of an action is left out of what is said of it, or changed there.
pub proof fn law_actions_are_seen_whole(a: Action)
    ensures
        match a@ {
            ActionView::Sleep { millis } => a matches Action::Sleep { millis: m } && m == millis,
            ActionView::PrepareDirectory { start_progress, weight } => {
                &&& a matches Action::PrepareDirectory { start_progress: s, weight: w }
                &&& s == start_progress && w == weight
            },
            ActionView::DownloadFile { url, file_name } => {
                &&& a matches Action::DownloadFile { url: u, file_name: f }
                &&& u@ == url && f@ == file_name
            },
            ActionView::FetchRelease { url } => a matches Action::FetchRelease { url: u } && u@
                == url,
            ActionView::ParseRelease { text } => a matches Action::ParseRelease { text: t } && t@
                == text,
            ActionView::OpenZip { file_name } => a matches Action::OpenZip { file_name: f } && f@
                == file_name,
            ActionView::ExtractZip { parent, folder } => {
                &&& a matches Action::ExtractZip { parent: p, folder: f }
                &&& p@ == parent && f@ == folder
            },
            ActionView::RemoveFile { file_name } => a matches Action::RemoveFile { file_name: f }
                && f@ == file_name,
            ActionView::DownloadLauncher { start_progress, weight } => {
                &&& a matches Action::DownloadLauncher { start_progress: s, weight: w }
                &&& s == start_progress && w == weight
            },
            ActionView::CreateShortcut { target, link, description } => {
                &&& a matches Action::CreateShortcut { target: t, link: l, description: d }
                &&& l@ == link && d@ == description
                &&& t is Some <==> target is Some
                &&& t is Some ==> t->0@ == target->0
            },
            ActionView::Stop => a is Stop,
        },
{
}

/// Nothing of an event is left out of what is said of it, or changed there.
pub proof fn law_events_are_seen_whole(e: Event)
    ensures
        match e {
            Event::Slept => e@ is Slept,
            Event::DirectoryPrepared { ready, progress } => {
                &&& e@ matches EventView::DirectoryPrepared { ready: r, progress: p }
                &&& r == ready && p == progress
            },
            Event::Downloaded(done) => e@ matches EventView::Downloaded(d) && d == done,
            Event::RequestFailed(t) => e@ matches EventView::RequestFailed(u) && u == t@,
            Event::BodyFailed(t) => e@ matches EventView::BodyFailed(u) && u == t@,
            Event::Responded { status, body } => {
                &&& e@ matches EventView::Responded { status: s, body: b }
                &&& s == status && b == body@
            },
            Event::ParseFailed(t) => e@ matches EventView::ParseFailed(u) && u == t@,
            Event::Parsed(release) => e@ matches EventView::Parsed { zipball_url } && zipball_url
                == release.zipball_url@,
            Event::ZipOpenFailed(t) => e@ matches EventView::ZipOpenFailed(u) && u == t@,
            Event::ZipOpened => e@ is ZipOpened,
            Event::ExtractFailed(t) => e@ matches EventView::ExtractFailed(u) && u == t@,
            Event::Extracted => e@ is Extracted,
            Event::RemovalTried => e@ is RemovalTried,
            Event::LauncherDownloaded(done) => e@ matches EventView::LauncherDownloaded(d) && d
                == done,
            Event::ShortcutTried => e@ is ShortcutTried,
        },
{
}

/// An event answers one kind of work only. A response answers if its status
/// has three digits and does not start with a zero.
pub proof fn law_event_tells_the_work_it_answers(event: EventView, action: ActionView)
    ensures
        action::answers(event, action) <==> match event {
            EventView::Slept => action is Sleep,
            EventView::DirectoryPrepared { .. } => action is PrepareDirectory,
            EventView::Downloaded(_) => action is DownloadFile,
            EventView::RequestFailed(_) | EventView::BodyFailed(_) => action is FetchRelease,
            EventView::Responded { status, .. } => action is FetchRelease && 1 <= status as int
                / 100 <= 9,
            EventView::ParseFailed(_) | EventView::Parsed { .. } => action is ParseRelease,
            EventView::ZipOpenFailed(_) | EventView::ZipOpened => action is OpenZip,
            EventView::ExtractFailed(_) | EventView::Extracted => action is ExtractZip,
            EventView::RemovalTried => action is RemoveFile,
            EventView::LauncherDownloaded(_) => action is DownloadLauncher,
            EventView::ShortcutTried => action is CreateShortcut,
        },
{
}

// ---- Responses ----

/// A status is a success if its first digit is a two, and its digits are
/// those of its number.
pub proof fn law_first_digit_tells_success(code: u16)
    ensures
        http::success_status(code) <==> code as int / 100 == 2,
        http::valid_status(code) <==> 1 <= code as int / 100 <= 9,
        http::valid_status(code) ==> {
            let d = http::status_digits(code);
            &&& d.len() == 3
            &&& forall|i: int| 0 <= i < 3 ==> '0' <= #[trigger] d[i] <= '9'
            &&& 100 * (d[0] as int - '0' as int) + 10 * (d[1] as int - '0' as int) + (d[2] as int
                - '0' as int) == code
        },
{
}

/// A response that is read faithfully has its status displayed as the number,
/// in three digits, and a space behind it.
pub proof fn law_status_is_displayed_by_number(code: u16, body: Seq<u8>)
    requires
        http::valid_status(code),
        http::read_faithfully(code, body),
    ensures
        ({
            let s = http::status_display(code);
            &&& s.len() >= 4
            &&& 100 * (s[0] as int - '0' as int) + 10 * (s[1] as int - '0' as int) + (s[2] as int
                - '0' as int) == code
            &&& s[3] == ' '
        }),
{
    let digits = http::status_digits(code).push(' ');
    let s = http::status_display(code);
    assert(forall|i: int| 0 <= i < 4 ==> #[trigger] s[i] == digits[i]) by {
        assert(s.subrange(0, 4) == digits);
        assert(forall|i: int| 0 <= i < 4 ==> #[trigger] s[i] == s.subrange(0, 4)[i]);
    }
}

/// The code points of white space.
pub open spec fn white_space_codes() -> Seq<int> {
    seq![
        9, 10, 11, 12, 13, 32, 133, 160, 5760, 8192, 8193, 8194, 8195, 8196, 8197, 8198, 8199,
        8200, 8201, 8202, 8232, 8233, 8239, 8287, 12288,
    ]
}

/// White space is what has one of twenty-five code points.
pub proof fn law_white_space_by_code_point(c: char)
    ensures
        text::white_space(c) <==> white_space_codes().contains(c as int),
{
    let codes = white_space_codes();
    let n = c as int;
    if text::white_space(c) {
        let i: int = if 9 <= n <= 13 {
            n - 9
        } else if n == 32 {
            5
        } else if n == 133 {
            6
        } else if n == 160 {
            7
        } else if n == 5760 {
            8
        } else if 8192 <= n <= 8202 {
            n - 8192 + 9
        } else if n == 8232 {
            20
        } else if n == 8233 {
            21
        } else if n == 8239 {
            22
        } else if n == 8287 {
            23
        } else {
            24
        };
        assert(codes[i] == n);
    }
}

/// The report on a response that is no success names the repository and the
/// status, and of the body its first line, without the white space around it.
pub proof fn law_http_error_reports_first_line(
    repo: Seq<char>,
    status: Seq<char>,
    left: Seq<char>,
    line: Seq<char>,
    right: Seq<char>,
    behind: Seq<char>,
)
    requires
        text::blank(left),
        text::blank(right),
        line.len() == 0 || (!text::white_space(line[0]) && !text::white_space(line.last())),
        !(left + line + right).contains('\n'),
        (left + line + right).len() == 0 || (left + line + right).last() != '\r',
    ensures
        ({
            let report = repo + " release info HTTP error: HTTP status "@ + status + " - "@ + line;
            let first = left + line + right;
            &&& release::http_error_text(repo, status, first) == report
            &&& release::http_error_text(repo, status, first + seq!['\n'] + behind) == report
            &&& release::http_error_text(repo, status, first + seq!['\r', '\n'] + behind) == report
        }),
{
    text::law_first_line_ends_at_its_ending(left + line + right, behind);
    text::law_trimming_takes_white_space_only(left, line, right);
}

// ---- The download of a release ----

/// A repository's name, as the name of an archive can hold it.
pub open spec fn plain_name(name: Seq<char>) -> bool {
    forall|i: int| !#[trigger] text::occurs_at(name, ".zip"@, i)
}

/// An archive is named after its repository, and a download is announced with
/// that name.
pub proof fn law_download_is_announced_by_name(name: Seq<char>)
    requires
        plain_name(name),
    ensures
        release::repo_of(name + ".zip"@) == name,
        release::fetching_text(release::repo_of(name + ".zip"@)) == "Fetching "@ + name
            + " release information..."@,
{
    text::law_archive_name_round_trip(name);
}

/// The repository's name is the archive's name without `.zip`, also where
/// that stands elsewhere or more than once, and the download is announced with
/// it.
pub proof fn law_repository_is_archive_without_ending(file_name: Seq<char>)
    ensures
        release::repo_of(file_name) == text::without(file_name, ".zip"@),
        release::fetching_text(release::repo_of(file_name)) == "Fetching "@ + text::without(
            file_name,
            ".zip"@,
        ) + " release information..."@,
{
}

/// A download that waits for the description of its release.
pub open spec fn fetching(
    url: Seq<char>,
    file_name: Seq<char>,
    weight: int,
    start_progress: int,
) -> ReleaseView {
    ReleaseView {
        url,
        local_file_name: file_name,
        weight,
        start_progress,
        stage: StageView::Fetching,
    }
}

/// The description is requested from its address. The whole body of a
/// successful response is read as JSON; a body that is valid UTF-8 is read as
/// what it encodes.
pub proof fn law_whole_body_is_parsed(
    release: ReleaseView,
    progress: int,
    status: u16,
    body: Seq<u8>,
)
    requires
        release.stage is Fetching,
        200 <= status <= 299,
    ensures
        release.action() == (ActionView::FetchRelease { url: release.url }),
        ({
            let step = release.next(progress, EventView::Responded { status, body });
            &&& step.release.action() == (ActionView::ParseRelease {
                text: http::utf8_lossy(body),
            })
            &&& step.progress == progress
            &&& step.messages.len() == 0
            &&& vstd::utf8::valid_utf8(body) && http::read_faithfully(status, body)
                ==> step.release.action() == (ActionView::ParseRelease {
                text: vstd::utf8::decode_utf8(body),
            })
        }),
{
}

/// The archive is downloaded from the very address that the description
/// names.
pub proof fn law_archive_comes_from_named_address(
    release: ReleaseView,
    progress: int,
    zipball_url: Seq<char>,
)
    requires
        release.action() is ParseRelease,
    ensures
        release.next(progress, EventView::Parsed { zipball_url }).release.action() == (
        ActionView::DownloadFile { url: zipball_url, file_name: release.local_file_name }),
{
}

/// A download whose work succeeds: what it asks for, piece by piece, what it
/// sends, and how the progress grows, by half of the weight when the archive
/// is there and by the whole of it at the end.
#[verifier::rlimit(40)]
pub proof fn law_release_is_downloaded(
    url: Seq<char>,
    file_name: Seq<char>,
    weight: int,
    start_progress: int,
    p: int,
    status: u16,
    body: Seq<u8>,
    zipball_url: Seq<char>,
)
    requires
        200 <= status <= 299,
    ensures
        ({
            let repo = text::without(file_name, ".zip"@);
            let r0 = fetching(url, file_name, weight, start_progress);
            let s1 = r0.next(p, EventView::Responded { status, body });
            let s2 = s1.release.next(s1.progress, EventView::Parsed { zipball_url });
            let s3 = s2.release.next(s2.progress, EventView::Downloaded(true));
            let s4 = s3.release.next(s3.progress, EventView::ZipOpened);
            let s5 = s4.release.next(s4.progress, EventView::Extracted);
            let s6 = s5.release.next(s5.progress, EventView::RemovalTried);
            &&& r0.action() == (ActionView::FetchRelease { url })
            &&& s1.release.action() == (ActionView::ParseRelease { text: http::utf8_lossy(body) })
            &&& s1.progress == p && s1.messages.len() == 0
            &&& s2.release.action() == (ActionView::DownloadFile { url: zipball_url, file_name })
            &&& s2.progress == p && s2.messages.len() == 0
            &&& s3.release.action() == (ActionView::OpenZip { file_name })
            &&& 2 * (s3.progress - p) == 10 * weight
            &&& s3.messages == seq![
                MessageView::Progress(s3.progress),
                MessageView::Status("Unzipping "@ + repo + "..."@),
            ]
            &&& s4.release.action() == (ActionView::ExtractZip {
                parent: "Includes"@,
                folder: repo,
            })
            &&& s4.progress == s3.progress && s4.messages.len() == 0
            &&& s5.release.action() == (ActionView::RemoveFile { file_name })
            &&& s5.progress == s3.progress && s5.messages.len() == 0
            &&& s6.release.action() is Stop && s6.release.stage is Succeeded
            &&& s6.progress - p == 10 * weight
            &&& s6.messages == seq![MessageView::Progress(s6.progress)]
        }),
{
}

/// Half of the weight is counted when the archive is there, from the progress
/// at that time. The whole of it is counted at the end, from the progress at
/// which the download of the archive began, whatever was counted in between.
pub proof fn law_release_counts_from_its_start(
    release: ReleaseView,
    zipball_url: Seq<char>,
    start: int,
    q1: int,
    q2: int,
    q3: int,
    q4: int,
)
    requires
        release.stage is Parsing,
    ensures
        ({
            let s1 = release.next(start, EventView::Parsed { zipball_url });
            let s2 = s1.release.next(q1, EventView::Downloaded(true));
            let s3 = s2.release.next(q2, EventView::ZipOpened);
            let s4 = s3.release.next(q3, EventView::Extracted);
            let s5 = s4.release.next(q4, EventView::RemovalTried);
            &&& s1.progress == start
            &&& s2.progress - q1 == 5 * release.weight
            &&& s3.progress == q2
            &&& s4.progress == q3
            &&& s5.progress - start == 10 * release.weight
            &&& s5.messages == seq![MessageView::Progress(s5.progress)]
        }),
{
}

/// A step that ends a download with one error, at the same progress.
pub open spec fn ends_with(step: ReleaseStep, progress: int, error: Seq<char>) -> bool {
    &&& step.release.action() is Stop
    &&& step.release.stage is Failed
    &&& step.progress == progress
    &&& step.messages == seq![MessageView::Error(error)]
}

/// A download whose work fails ends there, and reports what failed, for which
/// repository, and the outside error as it came; only a failed download of
/// the archive is not reported again.
#[verifier::rlimit(40)]
pub proof fn law_release_reports_what_failed(
    release: ReleaseView,
    repo: Seq<char>,
    p: int,
    e: Seq<char>,
    status: u16,
    body: Seq<u8>,
)
    requires
        repo == text::without(release.local_file_name, ".zip"@),
        1 <= status as int / 100 <= 9,
        status as int / 100 != 2,
    ensures
        release.stage is Fetching ==> {
            &&& ends_with(
                release.next(p, EventView::RequestFailed(e)),
                p,
                "Failed to send request for "@ + repo + " release info: "@ + e,
            )
            &&& ends_with(
                release.next(p, EventView::BodyFailed(e)),
                p,
                "Failed to read response body for "@ + repo + " release info: "@ + e,
            )
            &&& ends_with(
                release.next(p, EventView::Responded { status, body }),
                p,
                repo + " release info HTTP error: HTTP status "@ + http::status_display(status)
                    + " - "@ + text::trimmed(text::first_line_of(http::utf8_lossy(body))),
            )
        },
        release.stage is Parsing ==> ends_with(
            release.next(p, EventView::ParseFailed(e)),
            p,
            "Failed to parse "@ + repo + " release JSON: "@ + e,
        ),
        release.stage is Downloading ==> {
            let step = release.next(p, EventView::Downloaded(false));
            &&& step.release.action() is Stop && step.release.stage is Failed
            &&& step.progress == p && step.messages.len() == 0
        },
        release.stage is OpeningZip ==> ends_with(
            release.next(p, EventView::ZipOpenFailed(e)),
            p,
            "Failed to open downloaded zip for "@ + repo + ": "@ + e,
        ),
        release.stage is Extracting ==> ends_with(
            release.next(p, EventView::ExtractFailed(e)),
            p,
            "Failed to extract zip for "@ + repo + ": "@ + e,
        ),
{
}

/// A download leaves alone what does not answer its work, and once it is over
/// it leaves alone everything.
pub proof fn law_release_waits_for_its_work(release: ReleaseView, p: int, event: EventView)
    requires
        match event {
            EventView::RequestFailed(_) | EventView::BodyFailed(_) => !(release.stage is Fetching),
            EventView::Responded { status, .. } => !(release.stage is Fetching) || status < 100
                || status > 999,
            EventView::ParseFailed(_) | EventView::Parsed { .. } => !(release.stage is Parsing),
            EventView::Downloaded(_) => !(release.stage is Downloading),
            EventView::ZipOpenFailed(_) | EventView::ZipOpened => !(release.stage is OpeningZip),
            EventView::ExtractFailed(_) | EventView::Extracted => !(release.stage is Extracting),
            EventView::RemovalTried => !(release.stage is RemovingZip),
            _ => true,
        },
    ensures
        release.next(p, event).release == release,
        release.next(p, event).progress == p,
        release.next(p, event).messages.len() == 0,
{
}

/// No event changes which release is downloaded, and for how much it counts.
pub proof fn law_release_stays_the_same_release(release: ReleaseView, p: int, event: EventView)
    ensures
        release.next(p, event).release.url == release.url,
        release.next(p, event).release.local_file_name == release.local_file_name,
        release.next(p, event).release.weight == release.weight,
{
}

/// A download has room for its progress if the number that it ends with can
/// be held, and once it is over it needs none.
pub proof fn law_release_has_room_for_its_weight(release: ReleaseView, p: int)
    ensures
        release.stage is Fetching || release.stage is Parsing ==> (release.countable(p) <==> p + 10
            * release.weight <= 0xffff_ffff),
        release.stage is Downloading ==> (release.countable(p) <==> release.start_progress == p && p
            + 10 * release.weight <= 0xffff_ffff),
        release.stage is OpeningZip || release.stage is Extracting || release.stage is RemovingZip
            ==> (release.countable(p) <==> release.start_progress + 10 * release.weight
            <= 0xffff_ffff),
        release.action() is Stop ==> release.countable(p),
{
}

// ---- The wizard ----

/// Nothing of a wizard is left out of what is said of it, or changed there.
pub proof fn law_wizard_is_seen_whole(w: SimbaInstaller)
    ensures
        w@.page == w.page,
        w@.simba_dir == w.simba_dir@,
        w@.simba_exists == w.simba_exists,
        w@.install_progress == w.install_progress,
        w@.is_installing == w.is_installing,
        w@.installation_message == w.installation_message@,
        w@.is_error_message == w.is_error_message,
        w@.run_simba == w.run_simba,
        w@.silent == w.silent,
{
}

/// There are five pages, with the numbers from 0 to 4.
pub proof fn law_pages_are_numbered_in_order(number: int)
    ensures
        wizard::page_with_number(number) is Some <==> 0 <= number < 5,
        wizard::page_with_number(0) == Some(Page::Welcome),
        wizard::page_with_number(1) == Some(Page::ExistingInstallWarning),
        wizard::page_with_number(2) == Some(Page::VersionSelection),
        wizard::page_with_number(3) == Some(Page::Installation),
        wizard::page_with_number(4) == Some(Page::Final),
{
}

/// A wizard starts on the first page, with no run and with the box unticked,
/// and holds what it was given.
pub proof fn law_wizard_starts_fresh(simba_dir: Seq<char>, simba_exists: bool, silent: bool)
    ensures
        ({
            let w = wizard::initial_wizard(simba_dir, simba_exists, silent);
            &&& w.page == 0
            &&& w.simba_dir == simba_dir
            &&& w.simba_exists == simba_exists
            &&& w.silent == silent
            &&& !w.is_installing
            &&& !w.is_error_message
            &&& !w.run_simba
            &&& w.install_progress == 0
            &&& w.installation_message == "Ready to install..."@
        }),
{
}

/// Two wizards that may differ in nothing but the page.
pub open spec fn same_but_page(a: WizardView, b: WizardView) -> bool {
    &&& a.simba_dir == b.simba_dir
    &&& a.simba_exists == b.simba_exists
    &&& a.install_progress == b.install_progress
    &&& a.is_installing == b.is_installing
    &&& a.installation_message == b.installation_message
    &&& a.is_error_message == b.is_error_message
    &&& a.run_simba == b.run_simba
    &&& a.silent == b.silent
}

/// A click moves the wizard by its page and does nothing else: forward for
/// Next, Continue and Install, back for Cancel, and nowhere without a click.
/// The warning is skipped in the silent mode and where there was no Simba.
pub proof fn law_clicks_move_by_one_page(w: WizardView, clicked: bool, cancel: bool, go_on: bool)
    ensures
        same_but_page(w.advanced(clicked), w),
        same_but_page(w.warned(cancel, go_on), w),
        w.advanced(true).page == w.page + 1,
        w.advanced(false).page == w.page,
        w.warned(false, false).page == w.page,
        w.warned(true, true).page == w.page,
        w.warned(false, true).page == w.page + 1,
        w.warned(true, false).page == w.page - 1,
        w.skips_warning() <==> !(w.simba_exists && !w.silent),
{
}

/// The box is in the state that the user gave it, and nothing else depends on
/// it.
pub proof fn law_box_is_the_users(w: WizardView, run_simba: bool)
    ensures
        w.boxed(run_simba).run_simba == run_simba,
        w.boxed(run_simba).page == w.page,
        w.boxed(run_simba).boxed(w.run_simba) == w,
{
}

/// A visit to the installation page starts a run if and only if none is going
/// on and the progress is below the whole, whatever else the wizard holds. It
/// then begins to install from nothing; otherwise it changes nothing.
pub proof fn law_visit_starts_run_when_idle(w: WizardView)
    ensures
        w.starts() <==> !w.is_installing && w.install_progress < 1000,
        w.visited().page == w.page,
        w.visited().simba_dir == w.simba_dir,
        w.visited().simba_exists == w.simba_exists,
        w.visited().run_simba == w.run_simba,
        w.visited().silent == w.silent,
        w.is_installing || w.install_progress >= 1000 ==> w.visited() == w,
        !w.is_installing && w.install_progress < 1000 ==> {
            &&& w.visited().is_installing
            &&& w.visited().install_progress == 0
            &&& w.visited().installation_message == "Starting installation process..."@
            &&& !w.visited().is_error_message
        },
        w.visited().visited() == w.visited(),
{
}

/// A message is shown as it is: a progress sets the bar and nothing else, a
/// status the text, and the two endings all that an ending tells.
pub proof fn law_message_is_shown(w: WizardView, p: int, s: Seq<char>, e: Seq<char>)
    ensures
        ({
            let after = w.received(MessageView::Progress(p));
            &&& after.install_progress == p
            &&& after.page == w.page
            &&& after.is_installing == w.is_installing
            &&& after.installation_message == w.installation_message
            &&& after.is_error_message == w.is_error_message
        }),
        ({
            let after = w.received(MessageView::Status(s));
            &&& after.installation_message == s
            &&& !after.is_error_message
            &&& after.page == w.page
            &&& after.is_installing == w.is_installing
            &&& after.install_progress == w.install_progress
        }),
        ({
            let after = w.received(MessageView::Completed);
            &&& after.installation_message == "Installation successful!"@
            &&& !after.is_error_message
            &&& !after.is_installing
            &&& after.install_progress == 1000
            &&& after.page == w.page + 1
        }),
        ({
            let after = w.received(MessageView::Error(e));
            &&& after.installation_message == "Installation failed: "@ + e
            &&& after.is_error_message
            &&& !after.is_installing
            &&& after.install_progress == 1000
            &&& after.page == w.page
        }),
{
}

/// No message touches the box, nor where Simba is installed, whether it was
/// there, and the mode of the program.
pub proof fn law_messages_leave_the_rest_alone(w: WizardView, messages: Seq<MessageView>)
    ensures
        w.received_all(messages).run_simba == w.run_simba,
        w.received_all(messages).simba_dir == w.simba_dir,
        w.received_all(messages).simba_exists == w.simba_exists,
        w.received_all(messages).silent == w.silent,
    decreases messages.len(),
{
    if messages.len() > 0 {
        law_messages_leave_the_rest_alone(w, messages.drop_last());
    }
}

/// The last progress among messages, or `start` if there is none.
pub open spec fn last_progress(messages: Seq<MessageView>, start: int) -> int
    decreases messages.len(),
{
    if messages.len() == 0 {
        start
    } else {
        match messages.last() {
            MessageView::Progress(p) => p,
            _ => last_progress(messages.drop_last(), start),
        }
    }
}

/// The last status among messages, if there is one.
pub open spec fn last_status(messages: Seq<MessageView>) -> Option<Seq<char>>
    decreases messages.len(),
{
    if messages.len() == 0 {
        None
    } else {
        match messages.last() {
            MessageView::Status(s) => Some(s),
            _ => last_status(messages.drop_last()),
        }
    }
}

/// A progress behind which none follows is the last one.
pub proof fn lemma_last_progress(messages: Seq<MessageView>, start: int, i: int)
    requires
        0 <= i < messages.len(),
        messages[i] is Progress,
        forall|j: int| i < j < messages.len() ==> !((#[trigger] messages[j]) is Progress),
    ensures
        MessageView::Progress(last_progress(messages, start)) == messages[i],
    decreases messages.len(),
{
    if i < messages.len() - 1 {
        let before = messages.drop_last();
        assert(!(messages[messages.len() - 1] is Progress));
        assert forall|j: int| i < j < before.len() implies !((#[trigger] before[j]) is Progress) by {
            assert(before[j] == messages[j]);
        }
        lemma_last_progress(before, start, i);
    }
}

/// A status behind which none follows is the last one.
pub proof fn lemma_last_status(messages: Seq<MessageView>, i: int)
    requires
        0 <= i < messages.len(),
        messages[i] is Status,
        forall|j: int| i < j < messages.len() ==> !((#[trigger] messages[j]) is Status),
    ensures
        last_status(messages) matches Some(s) && MessageView::Status(s) == messages[i],
    decreases messages.len(),
{
    if i < messages.len() - 1 {
        let before = messages.drop_last();
        assert(!(messages[messages.len() - 1] is Status));
        assert forall|j: int| i < j < before.len() implies !((#[trigger] before[j]) is Status) by {
            assert(before[j] == messages[j]);
        }
        lemma_last_status(before, i);
    }
}

/// While a run goes on, the wizard shows the progress and the status that
/// were sent last, and nothing else of it changes.
pub proof fn law_wizard_shows_what_was_sent_last(w: WizardView, messages: Seq<MessageView>)
    requires
        forall|i: int|
            0 <= i < messages.len() ==> (#[trigger] messages[i]) is Progress
                || messages[i] is Status,
    ensures
        ({
            let after = w.received_all(messages);
            &&& after.install_progress == last_progress(messages, w.install_progress)
            &&& match last_status(messages) {
                Some(s) => after.installation_message == s && !after.is_error_message,
                None => after.installation_message == w.installation_message
                    && after.is_error_message == w.is_error_message,
            }
            &&& after.page == w.page
            &&& after.is_installing == w.is_installing
        }),
    decreases messages.len(),
{
    if messages.len() > 0 {
        let before = messages.drop_last();
        assert forall|i: int| 0 <= i < before.len() implies (#[trigger] before[i]) is Progress
            || before[i] is Status by {
            assert(before[i] == messages[i]);
        }
        law_wizard_shows_what_was_sent_last(w, before);
        assert(messages[messages.len() - 1] is Progress || messages[messages.len() - 1] is Status);
    }
}

/// A progress that was sent is shown until the next one, and a status until
/// the next one.
pub proof fn law_wizard_shows_it_until_the_next(w: WizardView, messages: Seq<MessageView>, i: int)
    requires
        0 <= i < messages.len(),
        forall|j: int|
            0 <= j < messages.len() ==> (#[trigger] messages[j]) is Progress
                || messages[j] is Status,
    ensures
        messages[i] matches MessageView::Progress(p) ==> ((forall|j: int|
            i < j < messages.len() ==> !((#[trigger] messages[j]) is Progress))
            ==> w.received_all(messages).install_progress == p),
        messages[i] matches MessageView::Status(s) ==> ((forall|j: int|
            i < j < messages.len() ==> !((#[trigger] messages[j]) is Status))
            ==> w.received_all(messages).installation_message == s),
{
    law_wizard_shows_what_was_sent_last(w, messages);
    if messages[i] is Progress && (forall|j: int|
        i < j < messages.len() ==> !((#[trigger] messages[j]) is Progress)) {
        lemma_last_progress(messages, w.install_progress, i);
    }
    if messages[i] is Status && (forall|j: int|
        i < j < messages.len() ==> !((#[trigger] messages[j]) is Status)) {
        lemma_last_status(messages, i);
    }
}

// ---- The silent mode ----

/// The first message that ends the program decides its exit code, whatever
/// follows: 0 for `Completed` and 1 for any error. Without one it is 0.
pub proof fn law_first_ending_decides_exit_code(
    before: Seq<MessageView>,
    e: Seq<char>,
    behind: Seq<MessageView>,
)
    requires
        forall|i: int|
            0 <= i < before.len() ==> (#[trigger] before[i]) is Progress || before[i] is Status,
    ensures
        silent::silent_outcome(before) == 0,
        silent::silent_outcome(before + seq![MessageView::Completed] + behind) == 0,
        silent::silent_outcome(before + seq![MessageView::Error(e)] + behind) == 1,
    decreases before.len(),
{
    let done = before + seq![MessageView::Completed] + behind;
    let failed = before + seq![MessageView::Error(e)] + behind;
    if before.len() == 0 {
        assert(done[0] == MessageView::Completed);
        assert(failed[0] == MessageView::Error(e));
    } else {
        let rest = before.skip(1);
        assert forall|i: int| 0 <= i < rest.len() implies (#[trigger] rest[i]) is Progress
            || rest[i] is Status by {
            assert(rest[i] == before[i + 1]);
        }
        law_first_ending_decides_exit_code(rest, e, behind);
        assert(before[0] is Progress || before[0] is Status);
        assert(done[0] == before[0] && failed[0] == before[0]);
        assert(done.skip(1) =~= rest + seq![MessageView::Completed] + behind);
        assert(failed.skip(1) =~= rest + seq![MessageView::Error(e)] + behind);
    }
}

/// A message ends the program if and only if it is an ending.
pub proof fn law_endings_end_the_program(m: MessageView)
    ensures
        silent::exit_code_of(m) is None <==> m is Progress || m is Status,
        m is Completed ==> silent::exit_code_of(m) == Some(0i32),
        m is Error ==> silent::exit_code_of(m) == Some(1i32),
{
}

} // verus!

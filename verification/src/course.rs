//! The course of an installation: what a run asks for and sends, on any
//! events, told by the events alone.

use vstd::prelude::*;

use crate::action::{ActionView, EventView};
use crate::behaviour;
use crate::http;
use crate::install;
use crate::install::{PhaseView, RunView};
use crate::laws;
use crate::message::MessageView;
use crate::release::{ReleaseView, StageView};
use crate::text;
use crate::wizard::WizardView;

verus! {

/// An event tells what came of the piece of work with number `n`. There are
/// nineteen of them: those from 3 to 8 are for SRL-T, and those from 9 to 14
/// the same for WaspLib.
pub open spec fn fits(n: int, event: EventView) -> bool {
    match event {
        EventView::Slept => n == 0 || n == 18,
        EventView::DirectoryPrepared { .. } => n == 1,
        EventView::Downloaded(_) => n == 2 || n == 5 || n == 11,
        EventView::RequestFailed(_) | EventView::BodyFailed(_) => n == 3 || n == 9,
        EventView::Responded { status, .. } => (n == 3 || n == 9) && 100 <= status <= 999,
        EventView::ParseFailed(_) | EventView::Parsed { .. } => n == 4 || n == 10,
        EventView::ZipOpenFailed(_) | EventView::ZipOpened => n == 6 || n == 12,
        EventView::ExtractFailed(_) | EventView::Extracted => n == 7 || n == 13,
        EventView::RemovalTried => n == 8 || n == 14,
        EventView::LauncherDownloaded(_) => n == 15,
        EventView::ShortcutTried => n == 16 || n == 17,
    }
}

/// An event tells of work that was done.
pub open spec fn good(event: EventView) -> bool {
    match event {
        EventView::DirectoryPrepared { ready, .. } => ready,
        EventView::Downloaded(done) | EventView::LauncherDownloaded(done) => done,
        EventView::Responded { status, .. } => 200 <= status <= 299,
        EventView::RequestFailed(_)
        | EventView::BodyFailed(_)
        | EventView::ParseFailed(_)
        | EventView::ZipOpenFailed(_)
        | EventView::ExtractFailed(_) => false,
        _ => true,
    }
}

/// Work was done piece by piece, with nothing in between.
pub open spec fn all_good(events: Seq<EventView>) -> bool {
    forall|i: int| 0 <= i < events.len() ==> fits(i, #[trigger] events[i]) && good(events[i])
}

/// The events that a run takes in: each tells of the piece of work whose turn
/// it is, and nothing follows a failure.
pub open spec fn taken(events: Seq<EventView>) -> Seq<EventView>
    decreases events.len(),
{
    if events.len() == 0 {
        seq![]
    } else {
        let before = taken(events.drop_last());
        if all_good(before) && fits(before.len() as int, events.last()) {
            before.push(events.last())
        } else {
            before
        }
    }
}

/// The progress with which the directory was prepared.
pub open spec fn prepared(events: Seq<EventView>) -> int {
    events[1]->progress
}

/// The repository that the piece of work with number `n` is for.
pub open spec fn repository(n: int) -> Seq<char> {
    if n < 9 {
        "SRL-T"@
    } else {
        "WaspLib"@
    }
}

/// What is asked for after work that was done.
pub open spec fn work(events: Seq<EventView>) -> ActionView {
    let n = events.len();
    let p = prepared(events);
    if n == 0 {
        ActionView::Sleep { millis: 200 }
    } else if n == 1 {
        ActionView::PrepareDirectory { start_progress: 50, weight: 10 }
    } else if n == 2 {
        ActionView::DownloadFile {
            url: "https://github.com/Torwent/Simba/releases/latest/download/Simba-Win64.exe"@,
            file_name: "Simba64.exe"@,
        }
    } else if n == 3 {
        ActionView::FetchRelease {
            url: "https://api.github.com/repos/Torwent/SRL-T/releases/latest"@,
        }
    } else if n == 4 {
        ActionView::ParseRelease { text: http::utf8_lossy(events[3]->body) }
    } else if n == 5 {
        ActionView::DownloadFile { url: events[4]->zipball_url, file_name: "SRL-T.zip"@ }
    } else if n == 6 {
        ActionView::OpenZip { file_name: "SRL-T.zip"@ }
    } else if n == 7 {
        ActionView::ExtractZip { parent: "Includes"@, folder: "SRL-T"@ }
    } else if n == 8 {
        ActionView::RemoveFile { file_name: "SRL-T.zip"@ }
    } else if n == 9 {
        ActionView::FetchRelease {
            url: "https://api.github.com/repos/Torwent/WaspLib/releases/latest"@,
        }
    } else if n == 10 {
        ActionView::ParseRelease { text: http::utf8_lossy(events[9]->body) }
    } else if n == 11 {
        ActionView::DownloadFile { url: events[10]->zipball_url, file_name: "WaspLib.zip"@ }
    } else if n == 12 {
        ActionView::OpenZip { file_name: "WaspLib.zip"@ }
    } else if n == 13 {
        ActionView::ExtractZip { parent: "Includes"@, folder: "WaspLib"@ }
    } else if n == 14 {
        ActionView::RemoveFile { file_name: "WaspLib.zip"@ }
    } else if n == 15 {
        ActionView::DownloadLauncher { start_progress: p + 750, weight: 5 }
    } else if n == 16 {
        ActionView::CreateShortcut {
            target: Some("Simba64.exe"@),
            link: "Desktop/Simba64"@,
            description: "Simba 64 bits"@,
        }
    } else if n == 17 {
        ActionView::CreateShortcut {
            target: None,
            link: "Desktop/SimbaFolder"@,
            description: "Simba Folder"@,
        }
    } else if n == 18 {
        ActionView::Sleep { millis: 1000 }
    } else {
        ActionView::Stop
    }
}

/// The progress after `n` pieces of work, if the directory was prepared with
/// progress `p`.
pub open spec fn progress_after(n: int, p: int) -> int {
    if n == 0 {
        0
    } else if n == 1 {
        50
    } else if n == 2 {
        p
    } else if n < 6 {
        p + 150
    } else if n < 9 {
        p + 300
    } else if n < 12 {
        p + 450
    } else if n < 15 {
        p + 600
    } else if n < 19 {
        p + 750
    } else {
        1000
    }
}

/// All that a run sends that comes to its end.
pub open spec fn whole_transcript(p: int) -> Seq<MessageView> {
    seq![
        MessageView::Status("Initializing installation process..."@),
        MessageView::Progress(50),
        MessageView::Progress(p + 150),
        MessageView::Progress(p + 150),
        MessageView::Status("Fetching "@ + "SRL-T"@ + " release information..."@),
        MessageView::Progress(p + 300),
        MessageView::Status("Unzipping "@ + "SRL-T"@ + "..."@),
        MessageView::Progress(p + 450),
        MessageView::Status("Fetching "@ + "WaspLib"@ + " release information..."@),
        MessageView::Progress(p + 600),
        MessageView::Status("Unzipping "@ + "WaspLib"@ + "..."@),
        MessageView::Progress(p + 750),
        MessageView::Status("Finalizing installation..."@),
        MessageView::Progress(1000),
        MessageView::Status("Installation complete!"@),
        MessageView::Completed,
    ]
}

/// How much of it is sent after `n` pieces of work.
pub open spec fn sent_after(n: int) -> int {
    if n == 0 {
        1
    } else if n < 3 {
        2
    } else if n < 6 {
        5
    } else if n < 9 {
        7
    } else if n < 12 {
        9
    } else if n < 15 {
        11
    } else if n < 18 {
        12
    } else if n == 18 {
        13
    } else {
        16
    }
}

/// What a run sends of a failure of the piece of work with number `n`: the
/// failed work that has helpers of its own is reported by them.
pub open spec fn report(n: int, event: EventView) -> Seq<MessageView> {
    let repo = repository(n);
    match event {
        EventView::RequestFailed(e) => seq![
            MessageView::Error("Failed to send request for "@ + repo + " release info: "@ + e),
        ],
        EventView::BodyFailed(e) => seq![
            MessageView::Error(
                "Failed to read response body for "@ + repo + " release info: "@ + e,
            ),
        ],
        EventView::Responded { status, body } => seq![
            MessageView::Error(
                repo + " release info HTTP error: HTTP status "@ + http::status_display(status)
                    + " - "@ + text::trimmed(text::first_line_of(http::utf8_lossy(body))),
            ),
        ],
        EventView::ParseFailed(e) => seq![
            MessageView::Error("Failed to parse "@ + repo + " release JSON: "@ + e),
        ],
        EventView::ZipOpenFailed(e) => seq![
            MessageView::Error("Failed to open downloaded zip for "@ + repo + ": "@ + e),
        ],
        EventView::ExtractFailed(e) => seq![
            MessageView::Error("Failed to extract zip for "@ + repo + ": "@ + e),
        ],
        _ => seq![],
    }
}

/// What is sent after work that was done.
pub open spec fn said(events: Seq<EventView>) -> Seq<MessageView> {
    whole_transcript(prepared(events)).take(sent_after(events.len() as int))
}

/// A release that has come to a stage, when the download of its archive began
/// at `start`.
spec fn release_at(begun: ReleaseView, start: int, stage: StageView) -> ReleaseView {
    let known = !(stage is Fetching || stage is Parsing);
    ReleaseView {
        stage,
        start_progress: if known {
            start
        } else {
            begun.start_progress
        },
        ..begun
    }
}

/// The stage of a release after `n` of its six pieces of work.
spec fn stage_after(n: int, body: Seq<u8>, zipball_url: Seq<char>) -> StageView {
    if n == 0 {
        StageView::Fetching
    } else if n == 1 {
        StageView::Parsing { text: http::utf8_lossy(body) }
    } else if n == 2 {
        StageView::Downloading { zipball_url }
    } else if n == 3 {
        StageView::OpeningZip
    } else if n == 4 {
        StageView::Extracting
    } else {
        StageView::RemovingZip
    }
}

/// The phase of a run after work that was done.
spec fn phase_after(events: Seq<EventView>) -> PhaseView {
    let n = events.len() as int;
    let p = prepared(events);
    if n == 0 {
        PhaseView::Initializing
    } else if n == 1 {
        PhaseView::PreparingDirectory
    } else if n == 2 {
        PhaseView::DownloadingSimba
    } else if n < 9 {
        PhaseView::DownloadingSrlT(
            release_at(
                install::srl_t_release(),
                p + 150,
                stage_after(n - 3, events[3]->body, events[4]->zipball_url),
            ),
        )
    } else if n < 15 {
        PhaseView::DownloadingWaspLib(
            release_at(
                install::wasplib_release(),
                p + 450,
                stage_after(n - 9, events[9]->body, events[10]->zipball_url),
            ),
        )
    } else if n == 15 {
        PhaseView::DownloadingLauncher
    } else if n == 16 {
        PhaseView::LinkingSimba
    } else if n == 17 {
        PhaseView::LinkingFolder
    } else if n == 18 {
        PhaseView::Finalizing
    } else {
        PhaseView::Completed
    }
}

spec fn run_after(events: Seq<EventView>) -> RunView {
    RunView {
        phase: phase_after(events),
        progress: progress_after(events.len() as int, prepared(events)),
    }
}

/// One more piece of work that is done.
#[verifier::spinoff_prover]
#[verifier::rlimit(100)]
proof fn lemma_work_done(events: Seq<EventView>, event: EventView)
    requires
        all_good(events),
        fits(events.len() as int, event),
        good(event),
    ensures
        run_after(events).next(event).run == run_after(events.push(event)),
        said(events) + run_after(events).next(event).messages == said(events.push(event)),
{
    let n = events.len() as int;
    let after = events.push(event);
    laws::law_repository_names();
    assert(forall|i: int| 0 <= i < n ==> #[trigger] after[i] == events[i]);
    assert(after[n] == event);
    assert(said(events) + run_after(events).next(event).messages =~= said(after));
}

/// A piece of work that fails.
#[verifier::spinoff_prover]
#[verifier::rlimit(100)]
proof fn lemma_work_failed(events: Seq<EventView>, event: EventView)
    requires
        all_good(events),
        fits(events.len() as int, event),
        !good(event),
    ensures
        run_after(events).next(event).run.phase is Failed,
        run_after(events).next(event).run.progress == run_after(events).progress,
        run_after(events).next(event).messages == report(events.len() as int, event),
{
    laws::law_repository_names();
}

/// An event that is not about the piece of work whose turn it is.
#[verifier::spinoff_prover]
#[verifier::rlimit(100)]
proof fn lemma_event_passed_over(events: Seq<EventView>, event: EventView)
    requires
        all_good(events),
        !fits(events.len() as int, event),
    ensures
        run_after(events).next(event).run == run_after(events),
        run_after(events).next(event).messages.len() == 0,
{
}

/// What a run takes in is done work, and behind it at most one failure.
proof fn lemma_taken(events: Seq<EventView>)
    ensures
        ({
            let t = taken(events);
            &&& t.len() <= 19
            &&& !all_good(t) ==> {
                &&& t.len() > 0
                &&& all_good(t.drop_last())
                &&& fits(t.len() - 1, t.last())
                &&& !good(t.last())
            }
        }),
    decreases events.len(),
{
    if events.len() > 0 {
        let before = taken(events.drop_last());
        lemma_taken(events.drop_last());
        let t = taken(events);
        if all_good(before) && fits(before.len() as int, events.last()) {
            assert(t.drop_last() =~= before);
            if good(events.last()) {
                assert(all_good(t));
            }
        }
    }
}

/// The course of an installation. Of any events a run takes in those that
/// tell of the piece of work whose turn it is, up to the first failure, and
/// passes over the others. As long as the work is done, it asks for the next
/// piece and has sent the transcript up to there. A failure ends it: it asks
/// for nothing more, and has sent what it had, and the report.
pub proof fn law_course_of_installation(events: Seq<EventView>)
    ensures
        ({
            let h = laws::history(events);
            let t = taken(events);
            let n = t.len() as int;
            if all_good(t) {
                &&& n <= 19
                &&& h.run.action() == work(t)
                &&& h.run.progress == progress_after(n, prepared(t))
                &&& h.sent == said(t)
                &&& h.run.phase is Completed <==> n == 19
                &&& !(h.run.phase is Failed)
            } else {
                &&& all_good(t.drop_last())
                &&& h.run.action() is Stop
                &&& h.run.progress == progress_after(n - 1, prepared(t.drop_last()))
                &&& h.sent == said(t.drop_last()) + report(n - 1, t.last())
                &&& h.run.phase is Failed
            }
        }),
{
    lemma_taken(events);
    lemma_course(events);
    laws::law_repository_names();
}

#[verifier::spinoff_prover]
#[verifier::rlimit(60)]
proof fn lemma_course(events: Seq<EventView>)
    ensures
        ({
            let h = laws::history(events);
            let t = taken(events);
            if all_good(t) {
                h.run == run_after(t) && h.sent == said(t)
            } else {
                &&& h.run.phase is Failed
                &&& h.run.progress == run_after(t.drop_last()).progress
                &&& h.sent == said(t.drop_last()) + report(t.len() - 1, t.last())
            }
        }),
    decreases events.len(),
{
    let h = laws::history(events);
    let t = taken(events);
    if events.len() == 0 {
        assert(h.sent =~= said(t));
    } else {
        let earlier = events.drop_last();
        let event = events.last();
        let before = taken(earlier);
        let b = laws::history(earlier);
        let step = b.run.next(event);
        lemma_course(earlier);
        lemma_taken(earlier);
        if !all_good(before) {
            laws::law_run_over_stays_over(b.run, event);
            assert(h.sent =~= b.sent);
        } else if !fits(before.len() as int, event) {
            lemma_event_passed_over(before, event);
            assert(h.sent =~= b.sent);
        } else if good(event) {
            lemma_work_done(before, event);
            assert(t =~= before.push(event));
            assert(all_good(t));
        } else {
            lemma_work_failed(before, event);
            assert(t.drop_last() =~= before);
            assert(!all_good(t)) by {
                assert(t[t.len() - 1] == event);
            }
        }
    }
}

/// Of a release, SRL-T or WaspLib, the archive is downloaded from the very
/// address that its description names, whatever else the run holds.
pub proof fn law_run_downloads_from_named_address(run: RunView, zipball_url: Seq<char>)
    ensures
        ({
            let action = run.next(EventView::Parsed { zipball_url }).run.action();
            &&& run.phase matches PhaseView::DownloadingSrlT(release) ==> (release.stage is Parsing
                ==> action == (ActionView::DownloadFile {
                url: zipball_url,
                file_name: release.local_file_name,
            }))
            &&& run.phase matches PhaseView::DownloadingWaspLib(release) ==> (
            release.stage is Parsing ==> action == (ActionView::DownloadFile {
                url: zipball_url,
                file_name: release.local_file_name,
            }))
        }),
{
}

/// Of a release, SRL-T or WaspLib, the whole body of a successful response is
/// read as JSON, as what it encodes if it is valid UTF-8.
pub proof fn law_run_parses_whole_body(run: RunView, status: u16, body: Seq<u8>)
    requires
        200 <= status <= 299,
        match run.phase {
            PhaseView::DownloadingSrlT(release) => release.stage is Fetching,
            PhaseView::DownloadingWaspLib(release) => release.stage is Fetching,
            _ => false,
        },
    ensures
        ({
            let action = run.next(EventView::Responded { status, body }).run.action();
            &&& action == (ActionView::ParseRelease { text: http::utf8_lossy(body) })
            &&& vstd::utf8::valid_utf8(body) && http::read_faithfully(status, body) ==> action == (
            ActionView::ParseRelease { text: vstd::utf8::decode_utf8(body) })
        }),
{
}

/// The status that was sent last after `n` pieces of work.
pub open spec fn status_after(n: int) -> Seq<char> {
    if n < 3 {
        "Initializing installation process..."@
    } else if n < 6 {
        "Fetching "@ + "SRL-T"@ + " release information..."@
    } else if n < 9 {
        "Unzipping "@ + "SRL-T"@ + "..."@
    } else if n < 12 {
        "Fetching "@ + "WaspLib"@ + " release information..."@
    } else if n < 18 {
        "Unzipping "@ + "WaspLib"@ + "..."@
    } else {
        "Finalizing installation..."@
    }
}

/// A wizard that follows a run shows where the run is. As long as the work is
/// done, that is the progress of the run and the status of its work; the
/// progress that the preparation ended with shows in the next one. When all
/// is done the page turns. A failure that is reported is shown as it is.
#[verifier::spinoff_prover]
#[verifier::rlimit(60)]
pub proof fn law_wizard_shows_the_course(w: WizardView, events: Seq<EventView>)
    ensures
        ({
            let h = laws::history(events);
            let t = taken(events);
            let n = t.len() as int;
            let after = w.received_all(h.sent);
            &&& all_good(t) && n < 19 ==> {
                &&& n == 1 || n >= 3 ==> after.install_progress == h.run.progress
                &&& n == 2 ==> after.install_progress == 50
                &&& n == 0 ==> after.install_progress == w.install_progress
                &&& after.installation_message == status_after(n)
                &&& !after.is_error_message
                &&& after.is_installing == w.is_installing
                &&& after.page == w.page
            }
            &&& all_good(t) && n == 19 ==> {
                &&& after.install_progress == 1000
                &&& after.installation_message == "Installation successful!"@
                &&& !after.is_error_message
                &&& !after.is_installing
                &&& after.page == w.page + 1
            }
            &&& !all_good(t) ==> (report(n - 1, t.last()).len() == 1 ==> {
                &&& after.install_progress == 1000
                &&& report(n - 1, t.last())[0] matches MessageView::Error(e)
                &&& after.installation_message == "Installation failed: "@ + e
                &&& after.is_error_message
                &&& !after.is_installing
                &&& after.page == w.page
            })
            &&& after.run_simba == w.run_simba
        }),
{
    let h = laws::history(events);
    let t = taken(events);
    let n = t.len() as int;
    law_course_of_installation(events);
    behaviour::law_messages_leave_the_rest_alone(w, h.sent);
    if all_good(t) && n < 19 {
        lemma_shown(w, n, prepared(t));
    } else if all_good(t) {
        let before = whole_transcript(prepared(t)).take(15);
        assert(h.sent.drop_last() =~= before);
        behaviour::law_wizard_shows_what_was_sent_last(w, before);
    } else if report(n - 1, t.last()).len() == 1 {
        let before = said(t.drop_last());
        assert(n - 1 < 19) by {
            lemma_taken(events);
        }
        assert(h.sent.drop_last() =~= before);
        assert(h.sent.last() == report(n - 1, t.last())[0]);
        assert(interim_only(before));
        behaviour::law_wizard_shows_what_was_sent_last(w, before);
    }
}

spec fn interim_only(messages: Seq<MessageView>) -> bool {
    forall|i: int|
        0 <= i < messages.len() ==> (#[trigger] messages[i]) is Progress || messages[i] is Status
}

#[verifier::spinoff_prover]
#[verifier::rlimit(60)]
proof fn lemma_shown(w: WizardView, n: int, p: int)
    requires
        0 <= n < 19,
    ensures
        ({
            let after = w.received_all(whole_transcript(p).take(sent_after(n)));
            &&& n == 1 || n >= 3 ==> after.install_progress == progress_after(n, p)
            &&& n == 2 ==> after.install_progress == 50
            &&& n == 0 ==> after.install_progress == w.install_progress
            &&& after.installation_message == status_after(n)
            &&& !after.is_error_message
            &&& after.is_installing == w.is_installing
            &&& after.page == w.page
        }),
{
    let sent = whole_transcript(p).take(sent_after(n));
    assert(interim_only(sent));
    behaviour::law_wizard_shows_what_was_sent_last(w, sent);
    let status: int = if n < 3 {
        0
    } else if n < 6 {
        4
    } else if n < 9 {
        6
    } else if n < 12 {
        8
    } else if n < 18 {
        10
    } else {
        12
    };
    behaviour::lemma_last_status(sent, status);
    if n == 0 {
        assert(behaviour::last_progress(sent.drop_last(), w.install_progress)
            == w.install_progress);
    } else {
        let progress: int = if n < 3 {
            1
        } else if n < 6 {
            3
        } else if n < 9 {
            5
        } else if n < 12 {
            7
        } else if n < 15 {
            9
        } else {
            11
        };
        behaviour::lemma_last_progress(sent, w.install_progress, progress);
    }
}

} // verus!

//! What holds of whole installations: of everything that a run sends and does
//! on any events, and of a wizard or a silent program that follows it.

use vstd::prelude::*;

use crate::action;
use crate::action::{ActionView, EventView};
use crate::behaviour;
use crate::http;
use crate::install;
use crate::install::{
    PhaseView, RunView, SIMBA_EXE_DOWNLOAD_WEIGHT, SRL_T_DOWNLOAD_WEIGHT, WASPLIB_DOWNLOAD_WEIGHT,
};
use crate::message::{MessageView, FULL_PROGRESS};
use crate::release;
use crate::release::{ReleaseView, StageView};
use crate::silent;
use crate::text;
use crate::wizard;
use crate::wizard::WizardView;

verus! {

/// A run and what it has sent.
pub struct History {
    pub run: RunView,
    pub sent: Seq<MessageView>,
    /// The progress with which the preparation of the directory ended.
    pub prepared: int,
    /// The phase that the run has come to, or the one in which it failed.
    pub reached: PhaseView,
    /// The answer that failed the run.
    pub failure: Option<EventView>,
}

/// The history of a run that begins and takes in `events`.
pub open spec fn history(events: Seq<EventView>) -> History
    decreases events.len(),
{
    if events.len() == 0 {
        History {
            run: install::initial_run(),
            sent: install::initial_messages(),
            prepared: 0,
            reached: PhaseView::Initializing,
            failure: None,
        }
    } else {
        let before = history(events.drop_last());
        let step = before.run.next(events.last());
        History {
            run: step.run,
            sent: before.sent + step.messages,
            prepared: if before.run.phase is PreparingDirectory {
                step.run.progress
            } else {
                before.prepared
            },
            reached: if step.run.phase is Failed {
                before.reached
            } else {
                step.run.phase
            },
            failure: if step.run.phase is Failed && !(before.run.phase is Failed) {
                Some(events.last())
            } else {
                before.failure
            },
        }
    }
}

/// What the download of a release has sent when it has come to `stage`, having
/// started at the progress `start`.
pub open spec fn release_transcript(
    repo: Seq<char>,
    start: int,
    weight: int,
    stage: StageView,
) -> Seq<MessageView> {
    let fetching = seq![MessageView::Status(release::fetching_text(repo))];
    let unzipping = fetching + seq![
        MessageView::Progress(start + 5 * weight),
        MessageView::Status(release::unzipping_text(repo)),
    ];
    if stages_had(stage) < 3 {
        fetching
    } else if stages_had(stage) < 6 {
        unzipping
    } else {
        unzipping + seq![MessageView::Progress(start + 10 * weight)]
    }
}

/// The progress at which the download of SRL-T starts.
pub open spec fn srl_t_start(prepared: int) -> int {
    prepared + 10 * SIMBA_EXE_DOWNLOAD_WEIGHT
}

/// The progress at which the download of WaspLib starts.
pub open spec fn wasplib_start(prepared: int) -> int {
    srl_t_start(prepared) + 10 * SRL_T_DOWNLOAD_WEIGHT
}

/// What a run has sent before it comes to the releases.
pub open spec fn opening_transcript(prepared: int) -> Seq<MessageView> {
    seq![
        MessageView::Status("Initializing installation process..."@),
        MessageView::Progress(50),
        MessageView::Progress(srl_t_start(prepared)),
        MessageView::Progress(srl_t_start(prepared)),
    ]
}

/// What a run has sent up to a stage of the download of SRL-T.
pub open spec fn srl_t_transcript(prepared: int, stage: StageView) -> Seq<MessageView> {
    opening_transcript(prepared) + release_transcript(
        "SRL-T"@,
        srl_t_start(prepared),
        SRL_T_DOWNLOAD_WEIGHT as int,
        stage,
    )
}

/// What a run has sent up to a stage of the download of WaspLib.
pub open spec fn wasplib_transcript(prepared: int, stage: StageView) -> Seq<MessageView> {
    srl_t_transcript(prepared, StageView::Succeeded) + release_transcript(
        "WaspLib"@,
        wasplib_start(prepared),
        WASPLIB_DOWNLOAD_WEIGHT as int,
        stage,
    )
}

/// All that a run has sent when it has come to a phase. Failure is no phase
/// that a run comes to by its work, and adds nothing here.
pub open spec fn transcript(phase: PhaseView, prepared: int) -> Seq<MessageView> {
    let releases = wasplib_transcript(prepared, StageView::Succeeded);
    let finalizing = releases + seq![MessageView::Status("Finalizing installation..."@)];
    match phase {
        PhaseView::Initializing => opening_transcript(prepared).take(1),
        PhaseView::PreparingDirectory | PhaseView::DownloadingSimba => {
            opening_transcript(prepared).take(2)
        },
        PhaseView::DownloadingSrlT(release) => srl_t_transcript(prepared, release.stage),
        PhaseView::DownloadingWaspLib(release) => wasplib_transcript(prepared, release.stage),
        PhaseView::DownloadingLauncher | PhaseView::LinkingSimba | PhaseView::LinkingFolder => {
            releases
        },
        PhaseView::Finalizing => finalizing,
        PhaseView::Completed => finalizing + seq![
            MessageView::Progress(1000),
            MessageView::Status("Installation complete!"@),
            MessageView::Completed,
        ],
        PhaseView::Failed => seq![],
    }
}

/// A release is the one that was begun as `begun`, and it is at a progress
/// that fits its start.
pub open spec fn downloads(
    release: ReleaseView,
    begun: ReleaseView,
    progress: int,
    start: int,
) -> bool {
    &&& release.url == begun.url
    &&& release.local_file_name == begun.local_file_name
    &&& release.weight == begun.weight
    &&& match release.stage {
        StageView::Fetching | StageView::Parsing { .. } => progress == start,
        StageView::Downloading { .. } => progress == start && release.start_progress == start,
        StageView::OpeningZip | StageView::Extracting | StageView::RemovingZip => {
            progress == start + 5 * release.weight && release.start_progress == start
        },
        StageView::Succeeded | StageView::Failed => false,
    }
}

/// The progress of a run that has come to a phase without failing, and the
/// release that it downloads there.
pub open spec fn on_course(run: RunView, prepared: int) -> bool {
    match run.phase {
        PhaseView::Initializing => run.progress == 0,
        PhaseView::PreparingDirectory => run.progress == 50,
        PhaseView::DownloadingSimba => run.progress == prepared,
        PhaseView::DownloadingSrlT(release) => downloads(
            release,
            install::srl_t_release(),
            run.progress,
            srl_t_start(prepared),
        ),
        PhaseView::DownloadingWaspLib(release) => downloads(
            release,
            install::wasplib_release(),
            run.progress,
            wasplib_start(prepared),
        ),
        PhaseView::DownloadingLauncher
        | PhaseView::LinkingSimba
        | PhaseView::LinkingFolder
        | PhaseView::Finalizing => {
            run.progress == wasplib_start(prepared) + 10 * WASPLIB_DOWNLOAD_WEIGHT
        },
        PhaseView::Completed => run.progress == FULL_PROGRESS,
        PhaseView::Failed => true,
    }
}

/// The repositories are named after their archives.
pub proof fn law_repository_names()
    ensures
        install::srl_t_release().repo() == "SRL-T"@,
        install::wasplib_release().repo() == "WaspLib"@,
{
    reveal_strlit(".zip");
    reveal_strlit("SRL-T");
    reveal_strlit("SRL-T.zip");
    reveal_strlit("WaspLib");
    reveal_strlit("WaspLib.zip");
    assert("SRL-T.zip"@ =~= "SRL-T"@ + ".zip"@);
    assert("WaspLib.zip"@ =~= "WaspLib"@ + ".zip"@);
    assert forall|i: int| !#[trigger] text::occurs_at("SRL-T"@, ".zip"@, i) by {
        if text::occurs_at("SRL-T"@, ".zip"@, i) {
            assert("SRL-T"@.subrange(i, i + 4)[0] == '.');
        }
    }
    assert forall|i: int| !#[trigger] text::occurs_at("WaspLib"@, ".zip"@, i) by {
        if text::occurs_at("WaspLib"@, ".zip"@, i) {
            assert("WaspLib"@.subrange(i, i + 4)[0] == '.');
        }
    }
    text::law_archive_name_round_trip("SRL-T"@);
    text::law_archive_name_round_trip("WaspLib"@);
}

/// The answers that report a failure.
pub open spec fn reports_failure(event: EventView) -> bool {
    match event {
        EventView::DirectoryPrepared { ready, .. } => !ready,
        EventView::Downloaded(done) | EventView::LauncherDownloaded(done) => !done,
        EventView::Responded { status, .. } => !http::success_status(status),
        EventView::RequestFailed(_)
        | EventView::BodyFailed(_)
        | EventView::ParseFailed(_)
        | EventView::ZipOpenFailed(_)
        | EventView::ExtractFailed(_) => true,
        _ => false,
    }
}

/// The failures that the helper which did the work reports itself.
pub open spec fn quiet_failure(event: EventView) -> bool {
    match event {
        EventView::DirectoryPrepared { ready, .. } => !ready,
        EventView::Downloaded(done) | EventView::LauncherDownloaded(done) => !done,
        _ => false,
    }
}

/// What the download of a release sends when an answer fails it.
pub open spec fn release_failure(repo: Seq<char>, event: EventView) -> Seq<MessageView> {
    match event {
        EventView::RequestFailed(e) => seq![
            MessageView::Error(release::request_failed_text(repo, e)),
        ],
        EventView::BodyFailed(e) => seq![MessageView::Error(release::body_failed_text(repo, e))],
        EventView::Responded { status, body } => seq![
            MessageView::Error(
                release::http_error_text(
                    repo,
                    http::status_display(status),
                    http::utf8_lossy(body),
                ),
            ),
        ],
        EventView::ParseFailed(e) => seq![MessageView::Error(release::parse_failed_text(repo, e))],
        EventView::ZipOpenFailed(e) => seq![
            MessageView::Error(release::zip_open_failed_text(repo, e)),
        ],
        EventView::ExtractFailed(e) => seq![
            MessageView::Error(release::extract_failed_text(repo, e)),
        ],
        _ => seq![],
    }
}

/// What a run sends when an answer fails it in a phase.
pub open spec fn failure_messages(phase: PhaseView, event: EventView) -> Seq<MessageView> {
    match phase {
        PhaseView::DownloadingSrlT(_) => release_failure("SRL-T"@, event),
        PhaseView::DownloadingWaspLib(_) => release_failure("WaspLib"@, event),
        _ => seq![],
    }
}

/// A run has sent the transcript of the phase that it has come to, and its
/// progress is told by that phase too. A run that has failed has sent the
/// transcript of the phase in which it failed, and behind it nothing if the
/// failure was a quiet one, and exactly one error otherwise.
#[verifier::spinoff_prover]
#[verifier::rlimit(60)]
pub proof fn law_transcript(events: Seq<EventView>)
    ensures
        ({
            let h = history(events);
            &&& !(h.reached is Failed)
            &&& if h.run.phase is Failed {
                &&& h.failure matches Some(event)
                &&& reports_failure(event)
                &&& h.sent == transcript(h.reached, h.prepared) + failure_messages(h.reached, event)
                &&& quiet_failure(event) ==> failure_messages(h.reached, event).len() == 0
                &&& !quiet_failure(event) ==> {
                    &&& failure_messages(h.reached, event).len() == 1
                    &&& failure_messages(h.reached, event)[0] is Error
                }
            } else {
                &&& h.failure is None
                &&& h.reached == h.run.phase
                &&& h.sent == transcript(h.run.phase, h.prepared)
                &&& on_course(h.run, h.prepared)
            }
        }),
    decreases events.len(),
{
    let h = history(events);
    if events.len() == 0 {
        assert(h.sent =~= opening_transcript(0).take(1));
    } else {
        let before = history(events.drop_last());
        let event = events.last();
        let step = before.run.next(event);
        law_transcript(events.drop_last());
        law_repository_names();
        if before.run.phase is Failed {
            assert(h.sent =~= before.sent);
        } else if step.run.phase is Failed {
            assert(transcript(h.reached, h.prepared) =~= before.sent);
            assert(step.messages =~= failure_messages(h.reached, event));
        } else {
            assert(h.sent =~= transcript(step.run.phase, h.prepared));
        }
    }
}

/// The download of a release stores, opens and removes one file, and extracts
/// it below `Includes`, into a folder with the repository's name.
pub proof fn law_release_keeps_to_its_archive(
    release: ReleaseView,
    progress: int,
    event: EventView,
)
    ensures
        release.next(progress, event).release.local_file_name == release.local_file_name,
        match release.action() {
            ActionView::DownloadFile { file_name, .. }
            | ActionView::OpenZip { file_name }
            | ActionView::RemoveFile { file_name } => file_name == release.local_file_name,
            ActionView::ExtractZip { parent, folder } => parent == "Includes"@ && folder
                == release::repo_of(release.local_file_name),
            _ => true,
        },
{
}

/// A message that neither ends a run nor reports that it failed.
pub open spec fn interim(message: MessageView) -> bool {
    message is Progress || message is Status
}

/// The messages before the last one are interim. The last one is `Completed`
/// if and only if the run has completed, and it is an error only if the run
/// has failed.
#[verifier::spinoff_prover]
#[verifier::rlimit(60)]
pub proof fn law_last_message_ends_run(events: Seq<EventView>)
    ensures
        ({
            let h = history(events);
            &&& h.sent.len() > 0
            &&& forall|i: int| 0 <= i < h.sent.len() - 1 ==> interim(#[trigger] h.sent[i])
            &&& h.sent.last() is Completed <==> h.run.phase is Completed
            &&& h.sent.last() is Error ==> h.run.phase is Failed
        }),
    decreases events.len(),
{
    if events.len() > 0 {
        let before = history(events.drop_last());
        let step = before.run.next(events.last());
        law_last_message_ends_run(events.drop_last());
        law_transcript(events.drop_last());
        let h = history(events);
        if step.messages.len() == 0 {
            assert(h.sent =~= before.sent);
        } else {
            assert(interim(before.sent.last()));
            assert(h.sent.last() == step.messages.last());
            assert forall|i: int| 0 <= i < h.sent.len() - 1 implies interim(
                #[trigger] h.sent[i],
            ) by {
                if i < before.sent.len() {
                    assert(h.sent[i] == before.sent[i]);
                } else {
                    assert(h.sent[i] == step.messages[i - before.sent.len()]);
                }
            }
        }
    }
}

/// A run that is over stays as it is: it waits for nothing, and no event
/// makes it send anything.
pub proof fn law_run_over_stays_over(run: RunView, event: EventView)
    requires
        run.phase is Completed || run.phase is Failed,
    ensures
        run.action() is Stop,
        run.next(event).run == run,
        run.next(event).messages.len() == 0,
{
}

/// The number of answers that a run has had when it has come to a phase
/// without failing.
pub open spec fn answers_had(phase: PhaseView) -> int {
    match phase {
        PhaseView::Initializing => 0,
        PhaseView::PreparingDirectory => 1,
        PhaseView::DownloadingSimba => 2,
        PhaseView::DownloadingSrlT(release) => 3 + stages_had(release.stage),
        PhaseView::DownloadingWaspLib(release) => 9 + stages_had(release.stage),
        PhaseView::DownloadingLauncher => 15,
        PhaseView::LinkingSimba => 16,
        PhaseView::LinkingFolder => 17,
        PhaseView::Finalizing => 18,
        PhaseView::Completed => 19,
        PhaseView::Failed => -1,
    }
}

/// The number of answers that the download of a release has had at a stage.
pub open spec fn stages_had(stage: StageView) -> int {
    match stage {
        StageView::Fetching => 0,
        StageView::Parsing { .. } => 1,
        StageView::Downloading { .. } => 2,
        StageView::OpeningZip => 3,
        StageView::Extracting => 4,
        StageView::RemovingZip => 5,
        StageView::Succeeded => 6,
        StageView::Failed => -1,
    }
}

/// The work is done in one order: an answer either fails the run or takes it
/// to the very next piece of work, and an event that is no answer changes
/// nothing.
pub proof fn law_one_order_of_work(run: RunView, event: EventView)
    requires
        run.under_way(),
    ensures
        ({
            let step = run.next(event);
            if action::answers(event, run.action()) {
                step.run.phase is Failed || answers_had(step.run.phase) == answers_had(run.phase)
                    + 1
            } else {
                step.run == run && step.messages.len() == 0
            }
        }),
{
}

/// A run that has not failed has had one answer for each piece of work that
/// it has left behind; one that has completed has had nineteen.
#[verifier::rlimit(40)]
pub proof fn law_completed_run_did_all_work(events: Seq<EventView>)
    ensures
        history(events).run.phase is Failed || 0 <= answers_had(history(events).run.phase)
            <= events.len(),
        history(events).run.phase is Completed ==> events.len() >= 19,
    decreases events.len(),
{
    if events.len() > 0 {
        let before = history(events.drop_last());
        law_completed_run_did_all_work(events.drop_last());
        law_transcript(events.drop_last());
        if before.run.phase is Failed {
            law_run_over_stays_over(before.run, events.last());
        }
    }
}

/// A run fails if and only if a piece of work does.
pub proof fn law_run_fails_with_its_work(run: RunView, event: EventView)
    requires
        run.under_way(),
        action::answers(event, run.action()),
    ensures
        run.next(event).run.phase is Failed <==> reports_failure(event),
{
}

/// Each event answers the work that the run waited for, and none reports a
/// failure.
pub open spec fn carried_out(events: Seq<EventView>) -> bool
    decreases events.len(),
{
    events.len() > 0 ==> {
        &&& carried_out(events.drop_last())
        &&& action::answers(events.last(), history(events.drop_last()).run.action())
        &&& !reports_failure(events.last())
    }
}

/// As long as all work succeeds, each answer brings the run one piece further;
/// after nineteen it has completed.
pub proof fn law_successful_work_completes_run(events: Seq<EventView>)
    requires
        carried_out(events),
    ensures
        answers_had(history(events).run.phase) == events.len(),
        events.len() == 19 <==> history(events).run.phase is Completed,
    decreases events.len(),
{
    law_transcript(events);
    if events.len() > 0 {
        let before = history(events.drop_last()).run;
        law_successful_work_completes_run(events.drop_last());
        law_transcript(events.drop_last());
        law_one_order_of_work(before, events.last());
        law_run_fails_with_its_work(before, events.last());
    }
}

/// A piece of work that reports its own failure ends the run without a
/// message of the run.
pub proof fn law_failed_helper_ends_run_quietly(run: RunView, event: EventView)
    requires
        run.under_way(),
        action::answers(event, run.action()),
        quiet_failure(event),
    ensures
        run.next(event).run.phase is Failed,
        run.next(event).messages.len() == 0,
{
}

/// An answer that carries an error ends the run, with one message that is an
/// error and names what failed at its end.
pub proof fn law_reported_failure_ends_run(run: RunView, event: EventView, e: Seq<char>)
    requires
        run.under_way(),
        action::answers(event, run.action()),
        event == EventView::RequestFailed(e) || event == EventView::BodyFailed(e) || event
            == EventView::ParseFailed(e) || event == EventView::ZipOpenFailed(e) || event
            == EventView::ExtractFailed(e),
    ensures
        run.next(event).run.phase is Failed,
        run.next(event).messages.len() == 1,
        run.next(event).messages[0] matches MessageView::Error(message) && e.is_suffix_of(message),
{
    let release = match run.phase {
        PhaseView::DownloadingSrlT(r) => r,
        PhaseView::DownloadingWaspLib(r) => r,
        _ => arbitrary(),
    };
    let message = release.next(run.progress, event).messages[0]->Error_0;
    assert(e =~= message.subrange(message.len() - e.len(), message.len() as int));
}

/// The preparation of the directory leaves the progress between what was
/// counted before it and what the rest of the run leaves room for.
pub open spec fn fair_preparation(event: EventView) -> bool {
    event matches EventView::DirectoryPrepared { ready, progress } ==> 50 <= progress <= 250
}

/// Progress never falls and never passes the whole, as long as the
/// preparation of the directory leaves it in between.
#[verifier::spinoff_prover]
#[verifier::rlimit(60)]
pub proof fn law_progress_never_falls(events: Seq<EventView>)
    requires
        forall|i: int| 0 <= i < events.len() ==> fair_preparation(#[trigger] events[i]),
    ensures
        ({
            let h = history(events);
            &&& 0 <= h.run.progress <= 1000
            &&& forall|i: int|
                0 <= i < h.sent.len() ==> ((#[trigger] h.sent[i]) matches MessageView::Progress(p)
                    ==> 0 <= p <= h.run.progress)
            &&& forall|i: int, j: int|
                0 <= i < j < h.sent.len() ==> ((#[trigger] h.sent[i]) matches MessageView::Progress(
                    p,
                ) ==> ((#[trigger] h.sent[j]) matches MessageView::Progress(q) ==> p <= q))
            &&& !(h.run.phase is Initializing || h.run.phase is PreparingDirectory
                || h.run.phase is Failed) ==> 50 <= h.prepared <= 250
        }),
    decreases events.len(),
{
    let h = history(events);
    if events.len() > 0 {
        let before = history(events.drop_last());
        let event = events.last();
        let step = before.run.next(event);
        assert(fair_preparation(events[events.len() - 1]));
        assert forall|i: int| 0 <= i < events.drop_last().len() implies fair_preparation(
            #[trigger] events.drop_last()[i],
        ) by {
            assert(fair_preparation(events[i]));
        }
        law_progress_never_falls(events.drop_last());
        law_transcript(events.drop_last());
        assert(before.run.progress <= step.run.progress <= 1000);
        assert forall|k: int| 0 <= k < step.messages.len() implies ((
        #[trigger] step.messages[k]) matches MessageView::Progress(p) ==> before.run.progress <= p
            == step.run.progress) by {}
        assert forall|i: int| 0 <= i < h.sent.len() implies ((
        #[trigger] h.sent[i]) matches MessageView::Progress(p) ==> 0 <= p <= h.run.progress) by {
            if i < before.sent.len() {
                assert(h.sent[i] == before.sent[i]);
            } else {
                assert(h.sent[i] == step.messages[i - before.sent.len()]);
            }
        }
        assert forall|i: int, j: int| 0 <= i < j < h.sent.len() implies ((
        #[trigger] h.sent[i]) matches MessageView::Progress(p) ==> ((
        #[trigger] h.sent[j]) matches MessageView::Progress(q) ==> p <= q)) by {
            if j < before.sent.len() {
                assert(h.sent[i] == before.sent[i]);
                assert(h.sent[j] == before.sent[j]);
            } else {
                assert(h.sent[j] == step.messages[j - before.sent.len()]);
                if i < before.sent.len() {
                    assert(h.sent[i] == before.sent[i]);
                } else {
                    assert(h.sent[i] == step.messages[i - before.sent.len()]);
                }
            }
        }
    }
}

/// An answer to a run, and what the helper that did the work has sent before
/// it, on the channel of the run.
pub struct Report {
    pub helper: Seq<MessageView>,
    pub event: EventView,
}

/// The answers of the reports.
pub open spec fn events_of(reports: Seq<Report>) -> Seq<EventView> {
    reports.map_values(|r: Report| r.event)
}

/// All that is sent on the channel of a run that begins and takes in
/// `reports`, by the run and by its helpers.
pub open spec fn channel(reports: Seq<Report>) -> Seq<MessageView>
    decreases reports.len(),
{
    if reports.len() == 0 {
        install::initial_messages()
    } else {
        let run = history(events_of(reports.drop_last())).run;
        let last = reports.last();
        channel(reports.drop_last()) + last.helper + run.next(last.event).messages
    }
}

/// A helper sends interim messages, and behind them one error if it fails and
/// leaves the report to itself.
pub open spec fn helper_reports(report: Report) -> bool {
    if quiet_failure(report.event) {
        &&& report.helper.len() > 0
        &&& report.helper.last() is Error
        &&& forall|i: int|
            0 <= i < report.helper.len() - 1 ==> interim(#[trigger] report.helper[i])
    } else {
        forall|i: int| 0 <= i < report.helper.len() ==> interim(#[trigger] report.helper[i])
    }
}

/// Each report answers the work that the run waited for, and its helper
/// reports as a helper does.
pub open spec fn reported(reports: Seq<Report>) -> bool
    decreases reports.len(),
{
    reports.len() > 0 ==> {
        &&& reported(reports.drop_last())
        &&& action::answers(
            reports.last().event,
            history(events_of(reports.drop_last())).run.action(),
        )
        &&& helper_reports(reports.last())
    }
}

/// On the channel the messages before the last one are interim. The last one
/// is `Completed` if and only if the run has completed, and it is an error if
/// and only if the run has failed.
#[verifier::spinoff_prover]
#[verifier::rlimit(60)]
pub proof fn law_last_message_ends_channel(reports: Seq<Report>)
    requires
        reported(reports),
    ensures
        ({
            let run = history(events_of(reports)).run;
            let sent = channel(reports);
            &&& sent.len() > 0
            &&& forall|i: int| 0 <= i < sent.len() - 1 ==> interim(#[trigger] sent[i])
            &&& sent.last() is Completed <==> run.phase is Completed
            &&& sent.last() is Error <==> run.phase is Failed
        }),
    decreases reports.len(),
{
    if reports.len() > 0 {
        let earlier = reports.drop_last();
        let last = reports.last();
        let before = history(events_of(earlier)).run;
        let step = before.next(last.event);
        let sent = channel(reports);
        let behind = last.helper + step.messages;
        assert(events_of(reports).drop_last() =~= events_of(earlier));
        assert(events_of(reports).last() == last.event);
        law_last_message_ends_channel(earlier);
        law_transcript(events_of(earlier));
        law_run_fails_with_its_work(before, last.event);
        assert(sent =~= channel(earlier) + behind);
        // An answer can only come to a run that is not over.
        assert(interim(channel(earlier).last()));
        assert forall|k: int| 0 <= k < behind.len() - 1 implies interim(#[trigger] behind[k]) by {
            if k < last.helper.len() {
                assert(behind[k] == last.helper[k]);
            } else {
                assert(behind[k] == step.messages[k - last.helper.len()]);
            }
        }
        assert forall|i: int| 0 <= i < sent.len() - 1 implies interim(#[trigger] sent[i]) by {
            if i < channel(earlier).len() {
                assert(sent[i] == channel(earlier)[i]);
            } else {
                assert(sent[i] == behind[i - channel(earlier).len()]);
            }
        }
        if step.messages.len() > 0 {
            assert(sent.last() == step.messages.last());
        } else if last.helper.len() > 0 {
            assert(sent.last() == last.helper.last());
        } else {
            assert(sent =~= channel(earlier));
        }
    }
}

/// Without a message that it has completed, a run leaves the wizard on its
/// page; without one that it has failed either, it leaves it installing.
pub proof fn law_interim_messages_keep_page(wizard: WizardView, messages: Seq<MessageView>)
    requires
        forall|i: int| 0 <= i < messages.len() ==> interim(#[trigger] messages[i]),
    ensures
        wizard.received_all(messages).page == wizard.page,
        wizard.received_all(messages).is_installing == wizard.is_installing,
    decreases messages.len(),
{
    if messages.len() > 0 {
        let before = messages.drop_last();
        assert forall|i: int| 0 <= i < before.len() implies interim(#[trigger] before[i]) by {
            assert(before[i] == messages[i]);
        }
        law_interim_messages_keep_page(wizard, before);
        assert(interim(messages.last()));
    }
}

/// When interim messages end in `Completed`, the wizard is on the next page,
/// shows the success, and starts no other run.
pub proof fn law_completion_turns_page(wizard: WizardView, messages: Seq<MessageView>)
    requires
        forall|i: int| 0 <= i < messages.len() ==> interim(#[trigger] messages[i]),
    ensures
        ({
            let after = wizard.received_all(messages.push(MessageView::Completed));
            &&& after.page == wizard.page + 1
            &&& after.installation_message == "Installation successful!"@
            &&& !after.is_error_message
            &&& !after.is_installing
            &&& after.install_progress == FULL_PROGRESS
            &&& after.visited() == after
        }),
{
    assert(messages.push(MessageView::Completed).drop_last() =~= messages);
    law_interim_messages_keep_page(wizard, messages);
}

/// When interim messages end in an error, the wizard stays on its page, shows
/// the error, and starts no other run.
pub proof fn law_error_stays_on_page(
    wizard: WizardView,
    messages: Seq<MessageView>,
    error: Seq<char>,
)
    requires
        forall|i: int| 0 <= i < messages.len() ==> interim(#[trigger] messages[i]),
    ensures
        ({
            let after = wizard.received_all(messages.push(MessageView::Error(error)));
            &&& after.page == wizard.page
            &&& after.installation_message == "Installation failed: "@ + error
            &&& after.is_error_message
            &&& !after.is_installing
            &&& after.install_progress == FULL_PROGRESS
            &&& after.visited() == after
        }),
{
    assert(messages.push(MessageView::Error(error)).drop_last() =~= messages);
    law_interim_messages_keep_page(wizard, messages);
}

/// The messages before the last one are interim.
pub open spec fn ends_at_last(messages: Seq<MessageView>) -> bool {
    forall|i: int| 0 <= i < messages.len() - 1 ==> interim(#[trigger] messages[i])
}

/// A wizard that has started a run starts no other one, whatever it has
/// received of messages of which only the last one may end the run.
proof fn lemma_no_second_start(wizard: WizardView, messages: Seq<MessageView>)
    requires
        wizard.starts(),
        ends_at_last(messages),
    ensures
        !wizard.visited().received_all(messages).starts(),
{
    let begun = wizard.visited();
    if messages.len() > 0 {
        let before = messages.drop_last();
        assert forall|i: int| 0 <= i < before.len() implies interim(#[trigger] before[i]) by {
            assert(interim(messages[i]));
        }
        law_interim_messages_keep_page(begun, before);
    }
}

/// Messages that are received one batch behind the other are received in
/// order.
proof fn lemma_received_in_batches(
    wizard: WizardView,
    first: Seq<MessageView>,
    second: Seq<MessageView>,
)
    ensures
        wizard.received_all(first + second) == wizard.received_all(first).received_all(second),
    decreases second.len(),
{
    if second.len() == 0 {
        assert(first + second =~= first);
    } else {
        assert((first + second).drop_last() =~= first + second.drop_last());
        lemma_received_in_batches(wizard, first, second.drop_last());
    }
}

/// The wizard after it has visited the installation page once for each batch,
/// and has received the batch there.
pub open spec fn frames(wizard: WizardView, batches: Seq<Seq<MessageView>>) -> WizardView
    decreases batches.len(),
{
    if batches.len() == 0 {
        wizard
    } else {
        frames(wizard, batches.drop_last()).visited().received_all(batches.last())
    }
}

/// How the messages of a run are spread over the visits makes no difference:
/// the first visit starts the run, and the others change nothing.
pub proof fn law_visits_in_between_change_nothing(
    wizard: WizardView,
    batches: Seq<Seq<MessageView>>,
)
    requires
        wizard.starts(),
        batches.len() > 0,
        ends_at_last(batches.flatten()),
    ensures
        frames(wizard, batches) == wizard.visited().received_all(batches.flatten()),
    decreases batches.len(),
{
    let earlier = batches.drop_last();
    let last = batches.last();
    let before = earlier.flatten();
    let all = batches.flatten();
    assert(earlier.push(last) =~= batches);
    earlier.lemma_flatten_push(last);
    assert(all == before + last);
    if earlier.len() == 0 {
        assert(before =~= Seq::<MessageView>::empty());
        assert(all =~= last);
        assert(frames(wizard, earlier) == wizard);
    } else {
        assert forall|i: int| 0 <= i < before.len() - 1 implies interim(#[trigger] before[i]) by {
            assert(before[i] == all[i]);
        }
        law_visits_in_between_change_nothing(wizard, earlier);
        lemma_no_second_start(wizard, before);
        lemma_received_in_batches(wizard.visited(), before, last);
    }
}

/// A wizard that comes to the installation page and visits it any number of
/// times, while it receives what is sent on the channel of the run, starts no
/// second run. It is on the final page if and only if the run has completed
/// and all has been received, and on the installation page otherwise; there
/// it shows the error if the run has failed and all has been received.
pub proof fn law_wizard_follows_run(
    wizard: WizardView,
    reports: Seq<Report>,
    batches: Seq<Seq<MessageView>>,
)
    requires
        wizard.page == 3,
        wizard.starts(),
        reported(reports),
        batches.len() > 0,
        batches.flatten().is_prefix_of(channel(reports)),
    ensures
        ({
            let run = history(events_of(reports)).run;
            let after = frames(wizard, batches);
            let all = batches.flatten() == channel(reports);
            &&& !after.starts()
            &&& wizard::page_with_number(after.page) == Some(
                if run.phase is Completed && all {
                    wizard::Page::Final
                } else {
                    wizard::Page::Installation
                },
            )
            &&& run.phase is Failed && all ==> {
                &&& channel(reports).last() matches MessageView::Error(e)
                &&& after.is_error_message
                &&& after.installation_message == "Installation failed: "@ + e
            }
        }),
{
    let sent = channel(reports);
    let received = batches.flatten();
    let begun = wizard.visited();
    law_last_message_ends_channel(reports);
    assert forall|i: int| 0 <= i < received.len() implies received[i] == #[trigger] sent[i] by {
        assert(received =~= sent.subrange(0, received.len() as int));
    }
    assert forall|i: int| 0 <= i < received.len() - 1 implies interim(#[trigger] received[i]) by {
        assert(received[i] == sent[i]);
    }
    law_visits_in_between_change_nothing(wizard, batches);
    lemma_no_second_start(wizard, received);
    if received.len() == sent.len() {
        assert(received =~= sent);
        let before = sent.drop_last();
        assert forall|i: int| 0 <= i < before.len() implies interim(#[trigger] before[i]) by {
            assert(interim(sent[i]));
        }
        assert(before.push(sent.last()) =~= sent);
        law_interim_messages_keep_page(begun, before);
    } else {
        assert forall|i: int| 0 <= i < received.len() implies interim(#[trigger] received[i]) by {
            assert(received[i] == sent[i]);
        }
        law_interim_messages_keep_page(begun, received);
    }
}

/// The number of messages that a run has completed.
pub open spec fn completions(messages: Seq<MessageView>) -> int
    decreases messages.len(),
{
    if messages.len() == 0 {
        0
    } else {
        completions(messages.drop_last()) + if messages.last() is Completed {
            1int
        } else {
            0
        }
    }
}

/// The wizard turns one page for each message that a run has completed, and
/// for no other message.
pub proof fn law_only_completion_turns_page(wizard: WizardView, messages: Seq<MessageView>)
    ensures
        wizard.received_all(messages).page == wizard.page + completions(messages),
        completions(messages) >= 0,
    decreases messages.len(),
{
    if messages.len() > 0 {
        law_only_completion_turns_page(wizard, messages.drop_last());
    }
}

/// A run completes at most once: the channel holds one message that it has
/// completed if it has, and none otherwise.
pub proof fn law_run_completes_once(reports: Seq<Report>)
    requires
        reported(reports),
    ensures
        completions(channel(reports)) == (if history(events_of(reports)).run.phase is Completed {
            1int
        } else {
            0
        }),
{
    let sent = channel(reports);
    let before = sent.drop_last();
    law_last_message_ends_channel(reports);
    assert forall|i: int| 0 <= i < before.len() implies interim(#[trigger] before[i]) by {
        assert(interim(sent[i]));
    }
    let wizard: WizardView = arbitrary();
    law_interim_messages_keep_page(wizard, before);
    law_only_completion_turns_page(wizard, before);
}

/// Each page leads only to pages that exist: the installation page because a
/// run completes at most once, the final page because it is left only by
/// ending the program. A wizard without a warning to show goes straight
/// through it.
pub proof fn law_pages_lead_to_pages(
    wizard: WizardView,
    cancel: bool,
    go_on: bool,
    messages: Seq<MessageView>,
    run_simba: bool,
)
    requires
        completions(messages) <= 1,
    ensures
        wizard.page == 0 ==> wizard::page_with_number(wizard.advanced(go_on).page) is Some,
        wizard.page == 1 ==> {
            &&& wizard::page_with_number(wizard.warned(cancel, go_on).page) is Some
            &&& wizard.skips_warning() ==> wizard::page_with_number(
                wizard.advanced(wizard.skips_warning()).page,
            ) == Some(wizard::Page::VersionSelection)
        },
        wizard.page == 2 ==> wizard::page_with_number(wizard.advanced(go_on).page) is Some,
        wizard.page == 3 ==> wizard::page_with_number(wizard.visited().received_all(messages).page)
            == Some(
            if completions(messages) == 1 {
                wizard::Page::Final
            } else {
                wizard::Page::Installation
            },
        ),
        wizard.page == 4 ==> wizard::page_with_number(wizard.boxed(run_simba).page) == Some(
            wizard::Page::Final,
        ),
{
    law_only_completion_turns_page(wizard.visited(), messages);
}

/// What happens while the wizard shows a page: the clicks on each of the
/// pages, the state of the Launch Simba box, and the messages that wait on
/// the channel.
pub struct Update {
    pub next: bool,
    pub cancel: bool,
    pub go_on: bool,
    pub install: bool,
    pub run_simba: bool,
    pub messages: Seq<MessageView>,
}

/// The wizard after it has shown its page. What belongs to another page is
/// left alone.
pub open spec fn updated(wizard: WizardView, update: Update) -> WizardView {
    match wizard::page_with_number(wizard.page) {
        Some(wizard::Page::Welcome) => wizard.advanced(update.next),
        Some(wizard::Page::ExistingInstallWarning) => if wizard.skips_warning() {
            wizard.advanced(true)
        } else {
            wizard.warned(update.cancel, update.go_on)
        },
        Some(wizard::Page::VersionSelection) => wizard.advanced(update.install),
        Some(wizard::Page::Installation) => wizard.visited().received_all(update.messages),
        Some(wizard::Page::Final) => wizard.boxed(update.run_simba),
        None => wizard,
    }
}

/// The wizard after updates, in order.
pub open spec fn session(wizard: WizardView, updates: Seq<Update>) -> WizardView
    decreases updates.len(),
{
    if updates.len() == 0 {
        wizard
    } else {
        updated(session(wizard, updates.drop_last()), updates.last())
    }
}

/// Messages leave alone where Simba is installed, whether it was there, and
/// the mode of the program.
proof fn lemma_messages_keep_setting(wizard: WizardView, messages: Seq<MessageView>)
    ensures
        wizard.received_all(messages).simba_dir == wizard.simba_dir,
        wizard.received_all(messages).simba_exists == wizard.simba_exists,
        wizard.received_all(messages).silent == wizard.silent,
    decreases messages.len(),
{
    if messages.len() > 0 {
        lemma_messages_keep_setting(wizard, messages.drop_last());
    }
}

/// From its start a wizard always shows one of its pages, whatever is clicked
/// and received, as long as no batch reports twice that a run has completed.
/// Where Simba is installed, whether it was there, and the mode of the
/// program keep their values.
pub proof fn law_wizard_always_shows_a_page(
    simba_dir: Seq<char>,
    simba_exists: bool,
    silent: bool,
    updates: Seq<Update>,
)
    requires
        forall|i: int|
            0 <= i < updates.len() ==> completions((#[trigger] updates[i]).messages) <= 1,
    ensures
        ({
            let after = session(
                wizard::initial_wizard(simba_dir, simba_exists, silent),
                updates,
            );
            &&& 0 <= after.page <= 4
            &&& wizard::page_with_number(after.page) is Some
            &&& after.simba_dir == simba_dir
            &&& after.simba_exists == simba_exists
            &&& after.silent == silent
        }),
    decreases updates.len(),
{
    if updates.len() > 0 {
        let earlier = updates.drop_last();
        let last = updates.last();
        let before = session(wizard::initial_wizard(simba_dir, simba_exists, silent), earlier);
        assert forall|i: int| 0 <= i < earlier.len() implies completions(
            (#[trigger] earlier[i]).messages,
        ) <= 1 by {
            assert(earlier[i] == updates[i]);
        }
        law_wizard_always_shows_a_page(simba_dir, simba_exists, silent, earlier);
        assert(completions(updates[updates.len() - 1].messages) <= 1);
        law_only_completion_turns_page(before.visited(), last.messages);
        lemma_messages_keep_setting(before.visited(), last.messages);
    }
}

/// What an update does, page by page: the first three pages turn with their
/// clicks alone, the warning without one where there is nobody to be warned or
/// nothing to be warned of, and the last page keeps the box.
pub proof fn law_update_belongs_to_its_page(wizard: WizardView, update: Update)
    ensures
        ({
            let after = updated(wizard, update);
            &&& wizard.page == 0 ==> after.page == (if update.next {
                1int
            } else {
                0
            })
            &&& wizard.page == 1 && wizard.simba_exists && !wizard.silent ==> {
                &&& after.page == 2 <==> update.go_on && !update.cancel
                &&& after.page == 0 <==> update.cancel && !update.go_on
                &&& after.page == 1 <==> update.cancel == update.go_on
            }
            &&& wizard.page == 1 && (wizard.silent || !wizard.simba_exists) ==> after.page == 2
            &&& wizard.page == 2 ==> after.page == (if update.install {
                3int
            } else {
                2
            })
            &&& wizard.page < 3 ==> behaviour::same_but_page(after, wizard)
            &&& wizard.page == 4 ==> {
                &&& after.run_simba == update.run_simba
                &&& after.page == 4
            }
            &&& wizard.page != 4 ==> after.run_simba == wizard.run_simba
        }),
{
    behaviour::law_messages_leave_the_rest_alone(wizard.visited(), update.messages);
}

/// Up to the installation page a wizard keeps all that it started with but its
/// page.
pub proof fn law_nothing_happens_before_installation(
    simba_dir: Seq<char>,
    simba_exists: bool,
    silent: bool,
    updates: Seq<Update>,
)
    ensures
        ({
            let start = wizard::initial_wizard(simba_dir, simba_exists, silent);
            let after = session(start, updates);
            &&& 0 <= after.page
            &&& after.page <= 2 ==> behaviour::same_but_page(after, start)
        }),
    decreases updates.len(),
{
    if updates.len() > 0 {
        let start = wizard::initial_wizard(simba_dir, simba_exists, silent);
        let before = session(start, updates.drop_last());
        law_nothing_happens_before_installation(
            simba_dir,
            simba_exists,
            silent,
            updates.drop_last(),
        );
        law_update_belongs_to_its_page(before, updates.last());
        lemma_pages_do_not_fall(before.visited(), updates.last().messages);
    }
}

proof fn lemma_pages_do_not_fall(wizard: WizardView, messages: Seq<MessageView>)
    ensures
        wizard.received_all(messages).page >= wizard.page,
    decreases messages.len(),
{
    if messages.len() > 0 {
        lemma_pages_do_not_fall(wizard, messages.drop_last());
    }
}

/// Whatever a user clicked before: when the wizard first comes to the
/// installation page, the visit starts a run. That is so with and without an
/// earlier installation, and with and without a window.
pub proof fn law_first_visit_starts_run(
    simba_dir: Seq<char>,
    simba_exists: bool,
    silent: bool,
    updates: Seq<Update>,
    last: Update,
)
    ensures
        ({
            let start = wizard::initial_wizard(simba_dir, simba_exists, silent);
            let before = session(start, updates);
            let after = session(start, updates.push(last));
            before.page <= 2 && after.page == 3 ==> {
                &&& after.starts()
                &&& after.installation_message == "Ready to install..."@
                &&& after.install_progress == 0
                &&& !after.is_error_message
                &&& after.visited().is_installing
                &&& after.visited().installation_message == "Starting installation process..."@
                &&& after.visited().install_progress == 0
                &&& !after.visited().is_error_message
                &&& after.visited().page == 3
                &&& !after.visited().starts()
            }
        }),
{
    let start = wizard::initial_wizard(simba_dir, simba_exists, silent);
    assert(updates.push(last).drop_last() =~= updates);
    law_nothing_happens_before_installation(simba_dir, simba_exists, silent, updates);
    law_update_belongs_to_its_page(session(start, updates), last);
}

/// Next, Continue and Install lead to the installation page, where a run is
/// started. That is so with and without an earlier installation, and with and
/// without a window.
pub proof fn law_three_clicks_start_run(
    simba_dir: Seq<char>,
    simba_exists: bool,
    silent: bool,
    first: Update,
    second: Update,
    third: Update,
)
    requires
        first.next,
        second.go_on,
        !second.cancel,
        third.install,
    ensures
        ({
            let start = wizard::initial_wizard(simba_dir, simba_exists, silent);
            let after = session(start, seq![first, second, third]);
            &&& after.page == 3
            &&& after.starts()
            &&& after.visited().is_installing
        }),
{
    let start = wizard::initial_wizard(simba_dir, simba_exists, silent);
    let all = seq![first, second, third];
    assert(all.drop_last() =~= seq![first, second]);
    assert(seq![first, second].drop_last() =~= seq![first]);
    assert(seq![first].drop_last() =~= Seq::<Update>::empty());
    assert(session(start, Seq::<Update>::empty()) == start);
    assert(session(start, seq![first]) == updated(start, first));
    assert(session(start, seq![first, second]) == updated(updated(start, first), second));
    assert(session(start, all) == updated(updated(updated(start, first), second), third));
}

/// The state that the box was given in the last update on the final page, and
/// false if there was none.
pub open spec fn box_in(wizard: WizardView, updates: Seq<Update>) -> bool
    decreases updates.len(),
{
    if updates.len() == 0 {
        false
    } else if session(wizard, updates.drop_last()).page == 4 {
        updates.last().run_simba
    } else {
        box_in(wizard, updates.drop_last())
    }
}

/// The box is in the state that the user gave it last, on the final page, and
/// unticked if there was no such update: neither a run nor another page ticks
/// it.
pub proof fn law_only_the_user_ticks_the_box(
    simba_dir: Seq<char>,
    simba_exists: bool,
    silent: bool,
    updates: Seq<Update>,
)
    ensures
        ({
            let start = wizard::initial_wizard(simba_dir, simba_exists, silent);
            session(start, updates).run_simba == box_in(start, updates)
        }),
    decreases updates.len(),
{
    if updates.len() > 0 {
        let start = wizard::initial_wizard(simba_dir, simba_exists, silent);
        law_only_the_user_ticks_the_box(simba_dir, simba_exists, silent, updates.drop_last());
        law_update_belongs_to_its_page(session(start, updates.drop_last()), updates.last());
    }
}

/// Cancel under the warning undoes Next on the welcome page.
pub proof fn law_cancel_undoes_next(wizard: WizardView)
    ensures
        wizard.advanced(true).warned(true, false) == wizard,
{
}

/// When the messages before the last one are interim, whoever sent them, the
/// last one alone decides the exit code of the silent mode.
pub proof fn law_last_message_decides_exit_code(messages: Seq<MessageView>)
    requires
        messages.len() > 0,
        forall|i: int| 0 <= i < messages.len() - 1 ==> interim(#[trigger] messages[i]),
    ensures
        silent::silent_outcome(messages) == (match silent::exit_code_of(messages.last()) {
            Some(code) => code,
            None => 0,
        }),
    decreases messages.len(),
{
    if messages.len() == 1 {
        assert(messages.skip(1).len() == 0);
        assert(silent::silent_outcome(messages.skip(1)) == 0);
    } else {
        let rest = messages.skip(1);
        assert(interim(messages[0]));
        assert forall|i: int| 0 <= i < rest.len() - 1 implies interim(#[trigger] rest[i]) by {
            assert(interim(messages[i + 1]));
        }
        law_last_message_decides_exit_code(rest);
    }
}

/// On all that is sent on the channel of a run, the silent mode exits with 1
/// if and only if the run has failed, and with 0 otherwise; a run that has
/// completed gives 0.
pub proof fn law_silent_mode_reports_failure(reports: Seq<Report>)
    requires
        reported(reports),
    ensures
        ({
            let run = history(events_of(reports)).run;
            let code = silent::silent_outcome(channel(reports));
            &&& code == 1 <==> run.phase is Failed
            &&& code == 0 <==> !(run.phase is Failed)
            &&& run.phase is Completed ==> code == 0
        }),
{
    law_last_message_ends_channel(reports);
    law_last_message_decides_exit_code(channel(reports));
}

} // verus!

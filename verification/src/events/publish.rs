use vstd::prelude::*;

use crate::error::{AppError, PublishError};
use crate::events::dtos::EventResponse;

verus! {

/// The steps of publishing one event, in the order they run.
#[derive(Clone, Copy, PartialEq, Eq, Structural)]
pub enum PublishStage {
    /// Serialise the event to JSON.
    Serialize,
    /// Open a channel on the broker connection.
    OpenChannel,
    /// Register the callback that hears the broker's confirmation.
    RegisterConfirmCallback,
    /// Put the channel in publisher-confirm mode.
    SelectConfirmMode,
    /// Publish the message.
    Publish,
    /// Wait for the broker to confirm the message.
    AwaitConfirmation,
}

/// What became of a step.
pub enum StepReport {
    Succeeded,
    /// The step failed, for the given cause.
    Failed(anyhow::Error),
    /// The broker refused the message, for the given cause.
    Nacked(anyhow::Error),
}

/// Where the publication stands after a step: at a further step, or finished with a result.
pub enum PublishProgress {
    Next(PublishStage),
    Finished(Result<(), PublishError>),
}

/// The position of a step in the run (0 for the first).
pub open spec fn stage_index(stage: PublishStage) -> nat {
    match stage {
        PublishStage::Serialize => 0,
        PublishStage::OpenChannel => 1,
        PublishStage::RegisterConfirmCallback => 2,
        PublishStage::SelectConfirmMode => 3,
        PublishStage::Publish => 4,
        PublishStage::AwaitConfirmation => 5,
    }
}

/// The number of steps of a publication.
pub open spec fn stage_count() -> nat {
    6
}

/// The step at a position of the run.
pub open spec fn stage_at(index: nat) -> PublishStage
    recommends
        index < stage_count(),
{
    if index == 0 {
        PublishStage::Serialize
    } else if index == 1 {
        PublishStage::OpenChannel
    } else if index == 2 {
        PublishStage::RegisterConfirmCallback
    } else if index == 3 {
        PublishStage::SelectConfirmMode
    } else if index == 4 {
        PublishStage::Publish
    } else {
        PublishStage::AwaitConfirmation
    }
}

/// One step of the publication: a success moves to the next step, or finishes with success
/// after the confirmation; a refusal while awaiting the confirmation finishes with `Nack`; any
/// other failure finishes with `Invalid`.
pub open spec fn next_progress(stage: PublishStage, report: StepReport) -> PublishProgress {
    match report {
        StepReport::Succeeded => if stage_index(stage) + 1 < stage_count() {
            PublishProgress::Next(stage_at(stage_index(stage) + 1))
        } else {
            PublishProgress::Finished(Ok(()))
        },
        StepReport::Failed(cause) => PublishProgress::Finished(Err(PublishError::Invalid(cause))),
        StepReport::Nacked(cause) => if stage == PublishStage::AwaitConfirmation {
            PublishProgress::Finished(Err(PublishError::Nack(cause)))
        } else {
            PublishProgress::Finished(Err(PublishError::Invalid(cause)))
        },
    }
}

/// The progress after a run of reports, from a given progress; reports after the end are ignored.
pub open spec fn run_reports(progress: PublishProgress, reports: Seq<StepReport>) -> PublishProgress
    decreases reports.len(),
{
    match progress {
        PublishProgress::Finished(result) => PublishProgress::Finished(result),
        PublishProgress::Next(stage) => if reports.len() == 0 {
            PublishProgress::Next(stage)
        } else {
            run_reports(next_progress(stage, reports[0]), reports.drop_first())
        },
    }
}

/// The progress of a publication that started at its first step and received `reports`.
pub open spec fn publication(reports: Seq<StepReport>) -> PublishProgress {
    run_reports(PublishProgress::Next(PublishStage::Serialize), reports)
}

/// The first step of every publication.
pub fn first_stage() -> (stage: PublishStage)
    ensures
        stage == PublishStage::Serialize,
        stage_index(stage) == 0,
{
    PublishStage::Serialize
}

/// Advances the publication by the report of its current step.
pub fn advance(stage: PublishStage, report: StepReport) -> (progress: PublishProgress)
    ensures
        progress == next_progress(stage, report),
{
    match report {
        StepReport::Succeeded => match stage {
            PublishStage::Serialize => PublishProgress::Next(PublishStage::OpenChannel),
            PublishStage::OpenChannel => PublishProgress::Next(PublishStage::RegisterConfirmCallback),
            PublishStage::RegisterConfirmCallback => PublishProgress::Next(PublishStage::SelectConfirmMode),
            PublishStage::SelectConfirmMode => PublishProgress::Next(PublishStage::Publish),
            PublishStage::Publish => PublishProgress::Next(PublishStage::AwaitConfirmation),
            PublishStage::AwaitConfirmation => PublishProgress::Finished(Ok(())),
        },
        StepReport::Failed(cause) => PublishProgress::Finished(Err(PublishError::Invalid(cause))),
        StepReport::Nacked(cause) => match stage {
            PublishStage::AwaitConfirmation => PublishProgress::Finished(
                Err(PublishError::Nack(cause)),
            ),
            _ => PublishProgress::Finished(Err(PublishError::Invalid(cause))),
        },
    }
}

/// The answer to a submitted event: 202 with the trace and event ids once the broker confirmed
/// it, otherwise the publication's error as an unexpected error.
pub fn ingest_reply(
    result: Result<(), PublishError>,
    trace_id: String,
    event_id: String,
) -> (reply: Result<(u16, EventResponse), AppError>)
    ensures
        match result {
            Ok(()) => reply matches Ok((status, response)) && status == 202 && response.trace_id
                == trace_id && response.event_id == event_id,
            Err(PublishError::Invalid(cause)) => reply == Err::<(u16, EventResponse), AppError>(
                AppError::UnexpectedError(cause),
            ),
            Err(PublishError::Nack(cause)) => reply == Err::<(u16, EventResponse), AppError>(
                AppError::UnexpectedError(cause),
            ),
        },
{
    match result {
        Ok(()) => Ok((202, EventResponse { trace_id, event_id })),
        Err(e) => Err(AppError::from(e)),
    }
}

/// Whether the first `n` reports (or all, when there are fewer) are successes.
pub open spec fn leading_successes(reports: Seq<StepReport>, n: nat) -> bool {
    forall|i: int| 0 <= i < reports.len() && i < n ==> #[trigger] reports[i] is Succeeded
}

proof fn lemma_run_from_stage(k: nat, reports: Seq<StepReport>)
    requires
        k < stage_count(),
    ensures
        leading_successes(reports, (stage_count() - k) as nat) ==> run_reports(
            PublishProgress::Next(stage_at(k)),
            reports,
        ) == (if reports.len() < stage_count() - k {
            PublishProgress::Next(stage_at(k + reports.len()))
        } else {
            PublishProgress::Finished(Ok(()))
        }),
        forall|j: int|
            0 <= j < reports.len() && j < stage_count() - k && !(#[trigger] reports[j] is Succeeded)
                && leading_successes(reports, j as nat) ==> run_reports(
                PublishProgress::Next(stage_at(k)),
                reports,
            ) == next_progress(stage_at((k + j) as nat), reports[j]),
    decreases reports.len(),
{
    assert(stage_index(stage_at(k)) == k);
    if reports.len() > 0 {
        let rest = reports.drop_first();
        let step = next_progress(stage_at(k), reports[0]);
        assert(run_reports(PublishProgress::Next(stage_at(k)), reports) == run_reports(step, rest));
        if reports[0] is Succeeded {
            if k + 1 < stage_count() {
                lemma_run_from_stage(k + 1, rest);
                assert(step == PublishProgress::Next(stage_at(k + 1)));
                if leading_successes(reports, (stage_count() - k) as nat) {
                    assert(leading_successes(rest, (stage_count() - (k + 1)) as nat)) by {
                        assert forall|i: int|
                            0 <= i < rest.len() && i < stage_count() - (k + 1) implies #[trigger] rest[i] is Succeeded by {
                            assert(rest[i] == reports[i + 1]);
                        }
                    }
                }
                assert forall|j: int|
                    0 <= j < reports.len() && j < stage_count() - k && !(#[trigger] reports[j] is Succeeded)
                        && leading_successes(reports, j as nat) implies run_reports(
                    PublishProgress::Next(stage_at(k)),
                    reports,
                ) == next_progress(stage_at((k + j) as nat), reports[j]) by {
                    assert(j > 0);
                    assert(rest[j - 1] == reports[j]);
                    assert(leading_successes(rest, (j - 1) as nat)) by {
                        assert forall|i: int| 0 <= i < rest.len() && i < j - 1 implies #[trigger] rest[i] is Succeeded by {
                            assert(rest[i] == reports[i + 1]);
                        }
                    }
                    assert(!(rest[j - 1] is Succeeded));
                }
            } else {
                assert(step == PublishProgress::Finished(Ok::<(), PublishError>(())));
            }
        } else {
            assert(!(reports[0] is Succeeded));
        }
    }
}

/// A publication succeeds exactly when each of its six steps succeeded, in order: serialising,
/// opening a channel, registering the confirm callback, selecting confirm mode, publishing,
/// and hearing the broker's acknowledgement.
pub proof fn lemma_published_iff_every_step_succeeded(reports: Seq<StepReport>)
    ensures
        (publication(reports) == PublishProgress::Finished(Ok(()))) <==> (reports.len()
            >= stage_count() && leading_successes(reports, stage_count())),
{
    lemma_run_from_stage(0, reports);
    assert(stage_at(0) == PublishStage::Serialize);
    if publication(reports) == PublishProgress::Finished(Ok(())) && !(reports.len()
        >= stage_count() && leading_successes(reports, stage_count())) {
        if !leading_successes(reports, stage_count()) {
            let j = choose|j: int|
                0 <= j < reports.len() && j < stage_count() && !(#[trigger] reports[j] is Succeeded);
            lemma_first_failure(reports, j);
        }
    }
}

/// Some failing report has no failing report before it.
proof fn lemma_first_failure(reports: Seq<StepReport>, j: int)
    requires
        0 <= j < reports.len(),
        j < stage_count(),
        !(reports[j] is Succeeded),
    ensures
        exists|f: int|
            0 <= f <= j && !(#[trigger] reports[f] is Succeeded) && leading_successes(reports, f as nat),
    decreases j,
{
    if leading_successes(reports, j as nat) {
        assert(!(reports[j] is Succeeded));
    } else {
        let f = choose|f: int| 0 <= f < reports.len() && f < j && !(#[trigger] reports[f] is Succeeded);
        lemma_first_failure(reports, f);
    }
}

/// A step is reached only after every earlier step succeeded: after `k` reports the publication
/// stands at step `k` exactly when all `k` reports were successes. In particular the message is
/// published only on an open channel in confirm mode with the confirm callback registered.
pub proof fn lemma_step_reached_iff_earlier_steps_succeeded(reports: Seq<StepReport>)
    requires
        reports.len() < stage_count(),
    ensures
        (publication(reports) == PublishProgress::Next(stage_at(reports.len()))) <==> leading_successes(
            reports,
            reports.len(),
        ),
{
    lemma_run_from_stage(0, reports);
    if !leading_successes(reports, reports.len()) {
        let j = choose|j: int| 0 <= j < reports.len() && !(#[trigger] reports[j] is Succeeded);
        lemma_first_failure(reports, j);
        let f = choose|f: int|
            0 <= f <= j && !(#[trigger] reports[f] is Succeeded) && leading_successes(reports, f as nat);
        assert(publication(reports) == next_progress(stage_at(f as nat), reports[f]));
    }
}

/// A publication ends in `Nack` exactly when the first five steps succeeded and the broker then
/// refused the message; a failure at any step ends in `Invalid`.
pub proof fn lemma_nack_only_from_broker_refusal(reports: Seq<StepReport>)
    ensures
        (publication(reports) matches PublishProgress::Finished(Err(PublishError::Nack(_))))
            <==> (reports.len() >= stage_count() && leading_successes(reports, 5)
            && reports[5] is Nacked),
{
    lemma_run_from_stage(0, reports);
    if publication(reports) matches PublishProgress::Finished(Err(PublishError::Nack(_))) {
        if leading_successes(reports, stage_count()) {
        } else {
            let j = choose|j: int|
                0 <= j < reports.len() && j < stage_count() && !(#[trigger] reports[j] is Succeeded);
            lemma_first_failure(reports, j);
            let f = choose|f: int|
                0 <= f <= j && !(#[trigger] reports[f] is Succeeded) && leading_successes(reports, f as nat);
            assert(publication(reports) == next_progress(stage_at(f as nat), reports[f]));
            assert(f == 5);
        }
    }
    if reports.len() >= stage_count() && leading_successes(reports, 5) && reports[5] is Nacked {
        assert(publication(reports) == next_progress(stage_at(5), reports[5]));
    }
}

/// Every publication is finished once each of its six steps has reported.
pub proof fn lemma_publication_finishes(reports: Seq<StepReport>)
    requires
        reports.len() >= stage_count(),
    ensures
        publication(reports) is Finished,
{
    lemma_run_from_stage(0, reports);
    if !leading_successes(reports, stage_count()) {
        let j = choose|j: int|
            0 <= j < reports.len() && j < stage_count() && !(#[trigger] reports[j] is Succeeded);
        lemma_first_failure(reports, j);
        let f = choose|f: int|
            0 <= f <= j && !(#[trigger] reports[f] is Succeeded) && leading_successes(reports, f as nat);
        assert(publication(reports) == next_progress(stage_at(f as nat), reports[f]));
    }
}

} // verus!

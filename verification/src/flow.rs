use vstd::prelude::*;

use crate::path::FsPath;

verus! {

/// Where a run of the Fall of Cybertron updater stands.
#[derive(Clone, Copy, Debug, PartialEq, Eq, Structural)]
pub enum FlowStage {
    Start,
    LocatingGame,
    CheckingUpdate,
    Downloading,
    Unpacking,
    BackingUp,
    Applying,
    /// The run ended normally.
    Finished,
    /// The run failed; the program exits with status 1.
    Failed,
}

/// What the caller reports back to the run.
pub enum FlowEvent {
    Begin,
    /// The installation of the game, if it was found.
    GameLocated(Option<FsPath>),
    /// Whether an update is required, or `None` when the check failed.
    UpdateChecked(Option<bool>),
    /// Where the update archive was downloaded, or `None` when the download failed.
    Downloaded(Option<FsPath>),
    /// The archive was unpacked (its outcome does not matter to the run).
    Unpacked,
    BackedUp,
    Applied,
}

/// What the run asks the caller to do next.
pub enum FlowAction {
    /// Find the installation of the game.
    LocateGame,
    /// Create the update client for the installation and check for an update.
    CheckForUpdate(FsPath),
    /// Download the update archive.
    DownloadUpdate,
    /// Unpack the archive at the path.
    Unpack(FsPath),
    /// Put aside the files that the update replaces.
    Backup,
    /// Apply the update.
    Apply,
    /// End the program with the exit status.
    Exit(i32),
    /// End the run normally.
    Finish,
}

/// The kind of an action, without its data.
#[derive(Clone, Copy, Debug, PartialEq, Eq, Structural)]
pub enum FlowStep {
    LocateGame,
    CheckForUpdate,
    DownloadUpdate,
    Unpack,
    Backup,
    Apply,
    Exit,
    Finish,
}

/// The kind of `action`.
pub open spec fn step_of(action: FlowAction) -> FlowStep {
    match action {
        FlowAction::LocateGame => FlowStep::LocateGame,
        FlowAction::CheckForUpdate(_) => FlowStep::CheckForUpdate,
        FlowAction::DownloadUpdate => FlowStep::DownloadUpdate,
        FlowAction::Unpack(_) => FlowStep::Unpack,
        FlowAction::Backup => FlowStep::Backup,
        FlowAction::Apply => FlowStep::Apply,
        FlowAction::Exit(_) => FlowStep::Exit,
        FlowAction::Finish => FlowStep::Finish,
    }
}

/// The step that ends a run that reached `stage`.
pub open spec fn ending_of(stage: FlowStage) -> FlowStep {
    if stage is Finished {
        FlowStep::Finish
    } else {
        FlowStep::Exit
    }
}

/// One step of the run, as kinds: from `stage`, on `event`, to the next
/// stage and the kind of the action. Any failure ends the run with exit
/// status 1, as does an event that does not answer the pending action; a
/// run that needs no update, or that has applied the update, finishes; a
/// run that has ended stays ended.
pub open spec fn flow_next(stage: FlowStage, event: FlowEvent) -> (FlowStage, FlowStep) {
    let fail = (FlowStage::Failed, FlowStep::Exit);
    match stage {
        FlowStage::Start => match event {
            FlowEvent::Begin => (FlowStage::LocatingGame, FlowStep::LocateGame),
            _ => fail,
        },
        FlowStage::LocatingGame => match event {
            FlowEvent::GameLocated(Some(_)) => (FlowStage::CheckingUpdate, FlowStep::CheckForUpdate),
            _ => fail,
        },
        FlowStage::CheckingUpdate => match event {
            FlowEvent::UpdateChecked(Some(true)) => (FlowStage::Downloading, FlowStep::DownloadUpdate),
            FlowEvent::UpdateChecked(Some(false)) => (FlowStage::Finished, FlowStep::Finish),
            _ => fail,
        },
        FlowStage::Downloading => match event {
            FlowEvent::Downloaded(Some(_)) => (FlowStage::Unpacking, FlowStep::Unpack),
            _ => fail,
        },
        FlowStage::Unpacking => match event {
            FlowEvent::Unpacked => (FlowStage::BackingUp, FlowStep::Backup),
            _ => fail,
        },
        FlowStage::BackingUp => match event {
            FlowEvent::BackedUp => (FlowStage::Applying, FlowStep::Apply),
            _ => fail,
        },
        FlowStage::Applying => match event {
            FlowEvent::Applied => (FlowStage::Finished, FlowStep::Finish),
            _ => fail,
        },
        FlowStage::Finished => (FlowStage::Finished, FlowStep::Finish),
        FlowStage::Failed => fail,
    }
}

/// One step of a run of the updater.
pub fn flow_step(stage: FlowStage, event: FlowEvent) -> (res: (FlowStage, FlowAction))
    ensures
        (res.0, step_of(res.1)) == flow_next(stage, event),
        res.1 matches FlowAction::CheckForUpdate(game) ==> event matches FlowEvent::GameLocated(
            Some(located),
        ) && game@ == located@,
        res.1 matches FlowAction::Unpack(archive) ==> event matches FlowEvent::Downloaded(
            Some(downloaded),
        ) && archive@ == downloaded@,
        res.1 matches FlowAction::Exit(code) ==> code == 1,
{
    match stage {
        FlowStage::Start => match event {
            FlowEvent::Begin => (FlowStage::LocatingGame, FlowAction::LocateGame),
            _ => (FlowStage::Failed, FlowAction::Exit(1)),
        },
        FlowStage::LocatingGame => match event {
            FlowEvent::GameLocated(Some(game)) => (
                FlowStage::CheckingUpdate,
                FlowAction::CheckForUpdate(game),
            ),
            _ => (FlowStage::Failed, FlowAction::Exit(1)),
        },
        FlowStage::CheckingUpdate => match event {
            FlowEvent::UpdateChecked(Some(true)) => (
                FlowStage::Downloading,
                FlowAction::DownloadUpdate,
            ),
            FlowEvent::UpdateChecked(Some(false)) => (FlowStage::Finished, FlowAction::Finish),
            _ => (FlowStage::Failed, FlowAction::Exit(1)),
        },
        FlowStage::Downloading => match event {
            FlowEvent::Downloaded(Some(archive)) => (
                FlowStage::Unpacking,
                FlowAction::Unpack(archive),
            ),
            _ => (FlowStage::Failed, FlowAction::Exit(1)),
        },
        FlowStage::Unpacking => match event {
            FlowEvent::Unpacked => (FlowStage::BackingUp, FlowAction::Backup),
            _ => (FlowStage::Failed, FlowAction::Exit(1)),
        },
        FlowStage::BackingUp => match event {
            FlowEvent::BackedUp => (FlowStage::Applying, FlowAction::Apply),
            _ => (FlowStage::Failed, FlowAction::Exit(1)),
        },
        FlowStage::Applying => match event {
            FlowEvent::Applied => (FlowStage::Finished, FlowAction::Finish),
            _ => (FlowStage::Failed, FlowAction::Exit(1)),
        },
        FlowStage::Finished => (FlowStage::Finished, FlowAction::Finish),
        FlowStage::Failed => (FlowStage::Failed, FlowAction::Exit(1)),
    }
}

/// The position of a step in a complete update: locate, check, download,
/// unpack, back up, apply; -1 for the steps that end a run.
pub open spec fn step_rank(step: FlowStep) -> int {
    match step {
        FlowStep::LocateGame => 0,
        FlowStep::CheckForUpdate => 1,
        FlowStep::DownloadUpdate => 2,
        FlowStep::Unpack => 3,
        FlowStep::Backup => 4,
        FlowStep::Apply => 5,
        FlowStep::Exit => -1,
        FlowStep::Finish => -1,
    }
}

/// Whether `step` ends a run.
pub open spec fn is_ending(step: FlowStep) -> bool {
    step is Exit || step is Finish
}

/// Whether a run has ended in `stage`.
pub open spec fn has_ended(stage: FlowStage) -> bool {
    stage is Finished || stage is Failed
}

/// The number of steps taken before a run reaches `stage`.
pub open spec fn stage_rank(stage: FlowStage) -> int {
    match stage {
        FlowStage::Start => 0,
        FlowStage::LocatingGame => 1,
        FlowStage::CheckingUpdate => 2,
        FlowStage::Downloading => 3,
        FlowStage::Unpacking => 4,
        FlowStage::BackingUp => 5,
        FlowStage::Applying => 6,
        _ => -1,
    }
}

/// The stage that a run starting at `stage` reaches on `events`.
pub open spec fn stage_after(stage: FlowStage, events: Seq<FlowEvent>) -> FlowStage
    decreases events.len(),
{
    if events.len() == 0 {
        stage
    } else {
        flow_next(stage_after(stage, events.drop_last()), events.last()).0
    }
}

/// The kinds of the actions that a run starting at `stage` asks for on `events`.
pub open spec fn steps_of_run(stage: FlowStage, events: Seq<FlowEvent>) -> Seq<FlowStep>
    decreases events.len(),
{
    if events.len() == 0 {
        Seq::empty()
    } else {
        steps_of_run(stage, events.drop_last()).push(
            flow_next(stage_after(stage, events.drop_last()), events.last()).1,
        )
    }
}

/// What holds of every run from the start, after any events.
pub open spec fn run_is_orderly(stage: FlowStage, steps: Seq<FlowStep>) -> bool {
    &&& forall|i: int| 0 <= i < steps.len() && !is_ending(#[trigger] steps[i]) ==> step_rank(steps[i]) == i
    &&& forall|i: int, j: int|
        0 <= i < j < steps.len() && is_ending(#[trigger] steps[i]) ==> #[trigger] steps[j] == steps[i]
    &&& !has_ended(stage) ==> steps.len() == stage_rank(stage) && forall|i: int|
        0 <= i < steps.len() ==> !is_ending(#[trigger] steps[i])
    &&& has_ended(stage) ==> steps.len() > 0 && forall|i: int|
        0 <= i < steps.len() && is_ending(#[trigger] steps[i]) ==> steps[i] == ending_of(stage)
    &&& has_ended(stage) ==> steps.last() == ending_of(stage)
}

proof fn lemma_flow_next_orderly(stage: FlowStage, event: FlowEvent)
    ensures
        !has_ended(stage) && !is_ending(flow_next(stage, event).1) ==> step_rank(
            flow_next(stage, event).1,
        ) == stage_rank(stage) && stage_rank(flow_next(stage, event).0) == stage_rank(stage) + 1
            && !has_ended(flow_next(stage, event).0),
        is_ending(flow_next(stage, event).1) <==> has_ended(flow_next(stage, event).0),
        has_ended(flow_next(stage, event).0) ==> flow_next(stage, event).1 == ending_of(
            flow_next(stage, event).0,
        ),
        has_ended(stage) ==> flow_next(stage, event) == (stage, ending_of(stage)),
{
}

/// A run of the updater asks for its steps in the order of a complete
/// update (locate the game, check for an update, download it, unpack it,
/// back up the files it replaces, apply it), leaving out none before the
/// one it stops at; once it has ended, normally or with exit status 1, it
/// asks for nothing else. In particular no file of the game is backed up
/// before the update was downloaded and unpacked, and none is replaced
/// before the backup.
pub proof fn lemma_run_in_order(events: Seq<FlowEvent>)
    ensures
        run_is_orderly(stage_after(FlowStage::Start, events), steps_of_run(FlowStage::Start, events)),
    decreases events.len(),
{
    if events.len() > 0 {
        let before = events.drop_last();
        lemma_run_in_order(before);
        let s = stage_after(FlowStage::Start, before);
        let steps = steps_of_run(FlowStage::Start, before);
        lemma_flow_next_orderly(s, events.last());
        let new_steps = steps_of_run(FlowStage::Start, events);
        assert(new_steps == steps.push(flow_next(s, events.last()).1));
        assert forall|i: int, j: int|
            0 <= i < j < new_steps.len() && is_ending(#[trigger] new_steps[i]) implies #[trigger] new_steps[j]
            == new_steps[i] by {
            if j < steps.len() {
                assert(new_steps[j] == steps[j]);
            } else {
                assert(has_ended(s));
            }
        }
    }
}

} // verus!

//! A batch run as a state machine that does no reading or writing itself.
//!
//! The run decides; its driver acts. The driver passes on each `Action`,
//! performs it, and answers with a `Reply`, until the run hands out
//! `Action::Finish`. Files are taken up in their order, one at a time, and a
//! file that fails never stops the run.

use vstd::prelude::*;
use crate::application::texts;
use crate::error::ProcessingError;
use crate::presets::ResizePreset;
use crate::resizer::{file_outcome, output_path_of, resize_outcome, ImageResizer};
use crate::status::{lemma_successes_bounded, successes, ProcessingStatus, StatusView};

verus! {

/// What the driver of a run is asked to do next.
#[derive(Debug, Clone, PartialEq, Eq)]
pub enum Action {
    /// Tell the initiator that the file at `current` of `total` is taken up
    /// next, then answer `Reply::Reported`.
    Report { current: usize, total: usize },
    /// Read the file at `path`, then answer `Reply::Contents` with its bytes,
    /// or with none if it could not be read.
    Read { path: String },
    /// Store `data` at `path`, replacing what is there, then answer
    /// `Reply::Stored` with whether it was stored.
    Write { path: String, data: Vec<u8> },
    /// Tell the initiator how the run ended. The run is over.
    Finish { successful: usize, failed: usize },
}

/// What the driver answers once it has performed an action.
#[derive(Debug, Clone, PartialEq, Eq)]
pub enum Reply {
    Reported,
    Contents(Option<Vec<u8>>),
    Stored(bool),
}

/// Where a run stands: which answer it waits for.
#[derive(Debug, Clone, Copy, PartialEq, Eq, Structural)]
pub enum Stage {
    /// A report is with the driver.
    Reporting,
    /// A file is being read.
    Reading,
    /// An output is being stored.
    Writing,
    /// The run is over.
    Finished,
}

/// An action as a plain value.
pub enum ActionView {
    Report { current: nat, total: nat },
    Read { path: Seq<char> },
    Write { path: Seq<char>, data: Seq<u8> },
    Finish { successful: nat, failed: nat },
}

/// A reply as a plain value.
pub enum ReplyView {
    Reported,
    Contents(Option<Seq<u8>>),
    Stored(bool),
}

impl View for Action {
    type V = ActionView;

    open spec fn view(&self) -> ActionView {
        match self {
            Action::Report { current, total } => ActionView::Report {
                current: *current as nat,
                total: *total as nat,
            },
            Action::Read { path } => ActionView::Read { path: path@ },
            Action::Write { path, data } => ActionView::Write { path: path@, data: data@ },
            Action::Finish { successful, failed } => ActionView::Finish {
                successful: *successful as nat,
                failed: *failed as nat,
            },
        }
    }
}

impl View for Reply {
    type V = ReplyView;

    open spec fn view(&self) -> ReplyView {
        match self {
            Reply::Reported => ReplyView::Reported,
            Reply::Contents(data) => ReplyView::Contents(
                match data {
                    Some(d) => Some(d@),
                    None => None,
                },
            ),
            Reply::Stored(stored) => ReplyView::Stored(*stored),
        }
    }
}

/// A run as a plain value.
pub struct RunView {
    pub files: Seq<Seq<char>>,
    pub output_dir: Seq<char>,
    pub preset: ResizePreset,
    /// For each file that is done, where its output was stored, or its error.
    pub outcomes: Seq<Result<Seq<char>, ProcessingError>>,
    pub stage: Stage,
    /// Where the output of the file in work goes.
    pub pending: Option<Seq<char>>,
}

impl RunView {
    /// A run that has just been started: its first report is with the driver.
    pub open spec fn initial(
        files: Seq<Seq<char>>,
        output_dir: Seq<char>,
        preset: ResizePreset,
    ) -> RunView {
        RunView {
            files,
            output_dir,
            preset,
            outcomes: Seq::empty(),
            stage: Stage::Reporting,
            pending: None,
        }
    }

    /// What holds of every run: no more files are done than there are; a file
    /// is in work exactly while it is read or its output stored, and then its
    /// output path is known; a run that is over has every file done.
    pub open spec fn wf(self) -> bool {
        &&& self.preset.is_valid()
        &&& self.outcomes.len() <= self.files.len()
        &&& match self.stage {
            Stage::Reporting => self.pending is None,
            Stage::Reading => self.pending is Some && self.outcomes.len() < self.files.len(),
            Stage::Writing => self.pending is Some && self.outcomes.len() < self.files.len(),
            Stage::Finished => self.pending is None && self.outcomes.len() == self.files.len(),
        }
    }

    /// Whether `reply` answers the action that is with the driver.
    pub open spec fn accepts(self, reply: ReplyView) -> bool {
        match self.stage {
            Stage::Reporting => reply is Reported,
            Stage::Reading => reply is Contents,
            Stage::Writing => reply is Stored,
            Stage::Finished => false,
        }
    }

    /// The file in work is done with `outcome`: the next position is
    /// reported.
    pub open spec fn settled(self, outcome: Result<Seq<char>, ProcessingError>) -> (
        RunView,
        ActionView,
    ) {
        (
            RunView {
                outcomes: self.outcomes.push(outcome),
                stage: Stage::Reporting,
                pending: None,
                ..self
            },
            ActionView::Report {
                current: self.outcomes.len() + 1,
                total: self.files.len(),
            },
        )
    }

    /// The run after `reply`, and the next action.
    ///
    /// After a report: with every file done, the run finishes with the count
    /// of outputs and of errors; else the next file is taken up, and is read
    /// unless its path ends in no file name. After a read: a file that could
    /// not be read, or that cannot be resized, is done with its error; else
    /// its output is to be stored. After a write: the file is done, with the
    /// output's path or a write error.
    pub open spec fn next(self, reply: ReplyView) -> (RunView, ActionView) {
        let index = self.outcomes.len() as int;
        match reply {
            ReplyView::Reported => {
                if index >= self.files.len() {
                    (
                        RunView { stage: Stage::Finished, ..self },
                        ActionView::Finish {
                            successful: successes(self.outcomes),
                            failed: (self.outcomes.len() - successes(self.outcomes)) as nat,
                        },
                    )
                } else {
                    match output_path_of(self.files[index], self.output_dir, self.preset) {
                        Err(e) => self.settled(Err(e)),
                        Ok(path) => (
                            RunView { stage: Stage::Reading, pending: Some(path), ..self },
                            ActionView::Read { path: self.files[index] },
                        ),
                    }
                }
            },
            ReplyView::Contents(contents) => match contents {
                None => self.settled(Err(ProcessingError::DecodeError)),
                Some(data) => match resize_outcome(self.files[index], data, self.preset) {
                    Err(e) => self.settled(Err(e)),
                    Ok(bytes) => (
                        RunView { stage: Stage::Writing, ..self },
                        ActionView::Write { path: self.pending->Some_0, data: bytes },
                    ),
                },
            },
            ReplyView::Stored(stored) => self.settled(
                if stored {
                    Ok(self.pending->Some_0)
                } else {
                    Err(ProcessingError::WriteError)
                },
            ),
        }
    }
}

/// The actions that a run hands out in answer to `replies`, in order.
pub open spec fn trace(run: RunView, replies: Seq<ReplyView>) -> Seq<ActionView>
    decreases replies.len(),
{
    if replies.len() == 0 {
        Seq::empty()
    } else {
        seq![run.next(replies[0]).1] + trace(run.next(replies[0]).0, replies.skip(1))
    }
}

/// The run after it has taken in `replies`, in order.
pub open spec fn after(run: RunView, replies: Seq<ReplyView>) -> RunView
    decreases replies.len(),
{
    if replies.len() == 0 {
        run
    } else {
        after(run.next(replies[0]).0, replies.skip(1))
    }
}

/// Whether each of `replies` answers the action that is with the driver when
/// it comes.
pub open spec fn answers(run: RunView, replies: Seq<ReplyView>) -> bool
    decreases replies.len(),
{
    replies.len() == 0 || (run.accepts(replies[0]) && answers(
        run.next(replies[0]).0,
        replies.skip(1),
    ))
}

/// The positions that the reports among `actions` give, in order.
pub open spec fn reported(actions: Seq<ActionView>) -> Seq<(nat, nat)>
    decreases actions.len(),
{
    if actions.len() == 0 {
        Seq::empty()
    } else {
        (match actions[0] {
            ActionView::Report { current, total } => seq![(current, total)],
            _ => Seq::empty(),
        }) + reported(actions.skip(1))
    }
}

/// The positions from `from` up to, but without, `to`, each with `total`.
pub open spec fn positions(from: nat, to: nat, total: nat) -> Seq<(nat, nat)> {
    Seq::new((to - from) as nat, |j: int| ((from + j) as nat, total))
}

/// How many actions a run can still hand out at most.
pub open spec fn steps_left(run: RunView) -> int {
    let files_left = run.files.len() - run.outcomes.len();
    match run.stage {
        Stage::Reporting => 3 * files_left + 1,
        Stage::Reading => 3 * files_left,
        Stage::Writing => 3 * files_left - 1,
        Stage::Finished => 0,
    }
}

/// The replies that take a run through its next file, when reading the file
/// gives `contents` and storing its output succeeds or not as `stored` says:
/// the report's, then the read's unless the file was refused before, then
/// the write's unless the file failed before.
pub open spec fn file_replies(run: RunView, contents: Option<Seq<u8>>, stored: bool) -> Seq<
    ReplyView,
> {
    let path = run.files[run.outcomes.len() as int];
    if output_path_of(path, run.output_dir, run.preset) is Err {
        seq![ReplyView::Reported]
    } else if contents is None || resize_outcome(path, contents->Some_0, run.preset) is Err {
        seq![ReplyView::Reported, ReplyView::Contents(contents)]
    } else {
        seq![ReplyView::Reported, ReplyView::Contents(contents), ReplyView::Stored(stored)]
    }
}

/// What the file at `path` is done with, when reading it gives `contents`
/// and storing its output succeeds or not as `stored` says: what
/// `file_outcome` says of it, and for an output its path once it is stored.
pub open spec fn stored_outcome(
    path: Seq<char>,
    contents: Option<Seq<u8>>,
    stored: bool,
    output_dir: Seq<char>,
    preset: ResizePreset,
) -> Result<Seq<char>, ProcessingError> {
    match file_outcome(path, contents, output_dir, preset) {
        Err(e) => Err(e),
        Ok(output) => if stored {
            Ok(output.0)
        } else {
            Err(ProcessingError::WriteError)
        },
    }
}

/// What the next file of a run is done with, when reading it gives
/// `contents` and storing its output succeeds or not as `stored` says.
pub open spec fn file_result(run: RunView, contents: Option<Seq<u8>>, stored: bool) -> Result<
    Seq<char>,
    ProcessingError,
> {
    stored_outcome(
        run.files[run.outcomes.len() as int],
        contents,
        stored,
        run.output_dir,
        run.preset,
    )
}

/// The replies that take a run through its next `count` files, when reading
/// the file at `i` gives `contents[i]` and storing its output succeeds or not
/// as `stored[i]` says.
pub open spec fn batch_replies(
    run: RunView,
    contents: Seq<Option<Seq<u8>>>,
    stored: Seq<bool>,
    count: nat,
) -> Seq<ReplyView>
    decreases count,
{
    if count == 0 {
        Seq::empty()
    } else {
        let before = batch_replies(run, contents, stored, (count - 1) as nat);
        let at = after(run, before);
        let index = at.outcomes.len() as int;
        before + file_replies(at, contents[index], stored[index])
    }
}

/// A step keeps what holds of every run, and leaves fewer steps to go.
pub proof fn lemma_step_advances(run: RunView, reply: ReplyView)
    requires
        run.wf(),
        run.accepts(reply),
    ensures
        run.next(reply).0.wf(),
        run.next(reply).0.files == run.files,
        0 <= steps_left(run.next(reply).0) < steps_left(run),
{
}

/// Reports come in the order of the files: whatever the driver answers, a
/// run that has `done` files behind it reports the positions `done + 1`,
/// `done + 2` and so on, one for each file that gets done, each with the
/// number of files.
pub proof fn lemma_reports_follow_files(run: RunView, replies: Seq<ReplyView>)
    requires
        run.wf(),
        answers(run, replies),
    ensures
        after(run, replies).wf(),
        after(run, replies).files == run.files,
        run.outcomes.len() <= after(run, replies).outcomes.len(),
        reported(trace(run, replies)) == positions(
            run.outcomes.len() + 1,
            after(run, replies).outcomes.len() + 1,
            run.files.len(),
        ),
    decreases replies.len(),
{
    if replies.len() == 0 {
        assert(reported(trace(run, replies)) =~= positions(
            run.outcomes.len() + 1,
            run.outcomes.len() + 1,
            run.files.len(),
        ));
    } else {
        let step = run.next(replies[0]);
        lemma_step_advances(run, replies[0]);
        lemma_reports_follow_files(step.0, replies.skip(1));
        assert(trace(run, replies).skip(1) =~= trace(step.0, replies.skip(1)));
        if step.1 is Report {
            assert(reported(trace(run, replies)) =~= positions(
                run.outcomes.len() + 1,
                after(run, replies).outcomes.len() + 1,
                run.files.len(),
            ));
        }
    }
}

/// From its start to wherever it has come, a run has reported the positions
/// 0, 1, 2 and so on up to the number of files that are done, each with the
/// number of files, and nothing else.
pub proof fn lemma_progress_in_order(
    files: Seq<Seq<char>>,
    output_dir: Seq<char>,
    preset: ResizePreset,
    replies: Seq<ReplyView>,
)
    requires
        preset.is_valid(),
        answers(RunView::initial(files, output_dir, preset), replies),
    ensures
        ({
            let run = RunView::initial(files, output_dir, preset);
            let first = ActionView::Report { current: 0, total: files.len() };
            reported(seq![first] + trace(run, replies)) == positions(
                0,
                after(run, replies).outcomes.len() + 1,
                files.len(),
            )
        }),
{
    let run = RunView::initial(files, output_dir, preset);
    let first = ActionView::Report { current: 0, total: files.len() };
    lemma_reports_follow_files(run, replies);
    assert((seq![first] + trace(run, replies)).skip(1) =~= trace(run, replies));
}

/// A run finishes only with every file done, after it has reported the
/// position past the last file; its two counts are the outputs and the
/// errors among the outcomes and add up to the number of files; and no
/// reply is taken in after that.
pub proof fn lemma_finish_counts_every_file(run: RunView, reply: ReplyView)
    requires
        run.wf(),
        run.accepts(reply),
        run.next(reply).1 is Finish,
    ensures
        run.stage == Stage::Reporting,
        run.outcomes.len() == run.files.len(),
        run.next(reply).0.outcomes == run.outcomes,
        run.next(reply).1 matches ActionView::Finish { successful, failed } && successful
            == successes(run.outcomes) && successful + failed == run.files.len(),
        forall|later: ReplyView| !run.next(reply).0.accepts(later),
{
    lemma_successes_bounded(run.outcomes);
}

/// A file that fails does not stop a run: whatever reading and storing give,
/// the run takes the replies for its next file, is then ready for the file
/// after it, and has recorded for this file what `file_result` says.
pub proof fn lemma_file_gets_its_outcome(run: RunView, contents: Option<Seq<u8>>, stored: bool)
    requires
        run.wf(),
        run.stage == Stage::Reporting,
        run.outcomes.len() < run.files.len(),
    ensures
        answers(run, file_replies(run, contents, stored)),
        after(run, file_replies(run, contents, stored)) == (RunView {
            outcomes: run.outcomes.push(file_result(run, contents, stored)),
            ..run
        }),
{
    reveal_with_fuel(answers, 4);
    reveal_with_fuel(after, 4);
}

/// Replies taken in one after the other are taken in as one sequence: the
/// run ends where it ends by parts, every reply is an answer if it is one by
/// parts, and the actions are those of the parts in order.
pub proof fn lemma_replies_in_parts(run: RunView, first: Seq<ReplyView>, second: Seq<ReplyView>)
    ensures
        after(run, first + second) == after(after(run, first), second),
        answers(run, first + second) == (answers(run, first) && answers(
            after(run, first),
            second,
        )),
        trace(run, first + second) == trace(run, first) + trace(after(run, first), second),
    decreases first.len(),
{
    if first.len() == 0 {
        assert(first + second =~= second);
        assert(trace(run, first) + trace(after(run, first), second) =~= trace(run, second));
    } else {
        let all = first + second;
        assert(all[0] == first[0]);
        assert(all.skip(1) =~= first.skip(1) + second);
        lemma_replies_in_parts(run.next(first[0]).0, first.skip(1), second);
        assert(trace(run, all) =~= trace(run, first) + trace(after(run, first), second));
    }
}

/// A run gives every file its own outcome, whatever the files before it
/// came to: driven from its start through the first `count` files, it has
/// taken every reply as an answer, waits to report, and holds for the file at
/// each `i` what `stored_outcome` says of that file alone.
pub proof fn lemma_run_gives_every_file_its_outcome(
    files: Seq<Seq<char>>,
    output_dir: Seq<char>,
    preset: ResizePreset,
    contents: Seq<Option<Seq<u8>>>,
    stored: Seq<bool>,
    count: nat,
)
    requires
        preset.is_valid(),
        count <= files.len(),
        contents.len() == files.len(),
        stored.len() == files.len(),
    ensures
        ({
            let run = RunView::initial(files, output_dir, preset);
            let replies = batch_replies(run, contents, stored, count);
            &&& answers(run, replies)
            &&& after(run, replies) == (RunView {
                outcomes: Seq::new(
                    count,
                    |i: int| stored_outcome(files[i], contents[i], stored[i], output_dir, preset),
                ),
                ..run
            })
        }),
    decreases count,
{
    let run = RunView::initial(files, output_dir, preset);
    let replies = batch_replies(run, contents, stored, count);
    let outcomes = Seq::new(
        count,
        |i: int| stored_outcome(files[i], contents[i], stored[i], output_dir, preset),
    );
    if count == 0 {
        assert(outcomes =~= run.outcomes);
    } else {
        let fewer = (count - 1) as nat;
        lemma_run_gives_every_file_its_outcome(files, output_dir, preset, contents, stored, fewer);
        let before = batch_replies(run, contents, stored, fewer);
        let at = after(run, before);
        let next = file_replies(at, contents[fewer as int], stored[fewer as int]);
        lemma_file_gets_its_outcome(at, contents[fewer as int], stored[fewer as int]);
        lemma_replies_in_parts(run, before, next);
        assert(outcomes =~= at.outcomes.push(
            file_result(at, contents[fewer as int], stored[fewer as int]),
        ));
    }
}

/// A run that is driven through all its files finishes with the count of
/// the files that were stored and of those that were not, which add up to
/// the number of files.
pub proof fn lemma_run_finishes_with_the_counts(
    files: Seq<Seq<char>>,
    output_dir: Seq<char>,
    preset: ResizePreset,
    contents: Seq<Option<Seq<u8>>>,
    stored: Seq<bool>,
)
    requires
        preset.is_valid(),
        contents.len() == files.len(),
        stored.len() == files.len(),
    ensures
        ({
            let run = RunView::initial(files, output_dir, preset);
            let done = after(run, batch_replies(run, contents, stored, files.len()));
            let outcomes = Seq::new(
                files.len(),
                |i: int| stored_outcome(files[i], contents[i], stored[i], output_dir, preset),
            );
            &&& done.accepts(ReplyView::Reported)
            &&& done.next(ReplyView::Reported).1 == (ActionView::Finish {
                successful: successes(outcomes),
                failed: (files.len() - successes(outcomes)) as nat,
            })
        }),
{
    lemma_run_gives_every_file_its_outcome(
        files,
        output_dir,
        preset,
        contents,
        stored,
        files.len(),
    );
}

/// The outcomes of a run with each path as text.
pub open spec fn outcome_views(outcomes: Seq<Result<String, ProcessingError>>) -> Seq<
    Result<Seq<char>, ProcessingError>,
> {
    Seq::new(
        outcomes.len(),
        |i: int|
            match outcomes[i] {
                Ok(path) => Ok(path@),
                Err(e) => Err(e),
            },
    )
}

/// As many outcomes are successes as their views are.
proof fn lemma_successes_of_views(outcomes: Seq<Result<String, ProcessingError>>)
    ensures
        successes(outcome_views(outcomes)) == successes(outcomes),
    decreases outcomes.len(),
{
    if outcomes.len() > 0 {
        lemma_successes_of_views(outcomes.drop_last());
        assert(outcome_views(outcomes).drop_last() == outcome_views(outcomes.drop_last()));
    }
}

/// A batch run: the files, where their outputs go, the preset, and how far
/// the run has come.
pub struct BatchRun {
    files: Vec<String>,
    output_dir: String,
    preset: ResizePreset,
    outcomes: Vec<Result<String, ProcessingError>>,
    stage: Stage,
    pending_path: Option<String>,
}

impl View for BatchRun {
    type V = RunView;

    closed spec fn view(&self) -> RunView {
        RunView {
            files: texts(self.files@),
            output_dir: self.output_dir@,
            preset: self.preset,
            outcomes: outcome_views(self.outcomes@),
            stage: self.stage,
            pending: match self.pending_path {
                Some(p) => Some(p@),
                None => None,
            },
        }
    }
}

impl BatchRun {
    /// Starts a run over `files`, whose outputs go to `output_dir`. The
    /// first action, the report of position 0, is handed out with the run.
    pub fn start(files: Vec<String>, output_dir: String, preset: ResizePreset) -> (started: (
        BatchRun,
        Action,
    ))
        requires
            preset.is_valid(),
        ensures
            started.0@ == RunView::initial(texts(files@), output_dir@, preset),
            started.0@.wf(),
            started.1@ == (ActionView::Report { current: 0, total: files.len() as nat }),
    {
        let total = files.len();
        let run = BatchRun {
            files,
            output_dir,
            preset,
            outcomes: Vec::new(),
            stage: Stage::Reporting,
            pending_path: None,
        };
        assert(run@.outcomes =~= Seq::empty());
        (run, Action::Report { current: 0, total })
    }

    /// Which answer the run waits for.
    pub fn stage(&self) -> (stage: Stage)
        ensures
            stage == self@.stage,
    {
        self.stage
    }

    /// Whether `reply` answers the action that is with the driver.
    pub fn expects(&self, reply: &Reply) -> (accepted: bool)
        ensures
            accepted == self@.accepts(reply@),
    {
        match (self.stage, reply) {
            (Stage::Reporting, Reply::Reported) => true,
            (Stage::Reading, Reply::Contents(_)) => true,
            (Stage::Writing, Reply::Stored(_)) => true,
            _ => false,
        }
    }

    /// For each file that is done, in the order of the files: where its
    /// output was stored, or its error.
    pub fn outcomes(&self) -> (outcomes: &Vec<Result<String, ProcessingError>>)
        ensures
            outcome_views(outcomes@) == self@.outcomes,
    {
        &self.outcomes
    }

    /// Records the outcome of the file in work and reports the next position.
    fn settle(&mut self, outcome: Result<String, ProcessingError>) -> (action: Action)
        requires
            old(self)@.outcomes.len() < old(self)@.files.len(),
        ensures
            (final(self)@, action@) == old(self)@.settled(
                match outcome {
                    Ok(path) => Ok(path@),
                    Err(e) => Err(e),
                },
            ),
    {
        self.outcomes.push(outcome);
        self.stage = Stage::Reporting;
        self.pending_path = None;
        assert(final(self)@.outcomes =~= old(self)@.outcomes.push(
            match outcome {
                Ok(path) => Ok(path@),
                Err(e) => Err(e),
            },
        ));
        Action::Report { current: self.outcomes.len(), total: self.files.len() }
    }

    /// Takes in the driver's answer to the last action and hands out the
    /// next one.
    pub fn step(&mut self, reply: Reply) -> (action: Action)
        requires
            old(self)@.wf(),
            old(self)@.accepts(reply@),
        ensures
            (final(self)@, action@) == old(self)@.next(reply@),
            final(self)@.wf(),
    {
        let index = self.outcomes.len();
        match reply {
            Reply::Reported => {
                if index >= self.files.len() {
                    let ended = ProcessingStatus::summary(&self.outcomes);
                    proof {
                        lemma_successes_of_views(self.outcomes@);
                        lemma_successes_bounded(self.outcomes@);
                    }
                    self.stage = Stage::Finished;
                    match ended {
                        ProcessingStatus::Completed { successful, failed } => Action::Finish {
                            successful,
                            failed,
                        },
                        _ => Action::Finish { successful: 0, failed: 0 },
                    }
                } else {
                    match ImageResizer::output_path(
                        self.files[index].as_str(),
                        self.output_dir.as_str(),
                        &self.preset,
                    ) {
                        Err(e) => self.settle(Err(e)),
                        Ok(path) => {
                            self.pending_path = Some(path);
                            self.stage = Stage::Reading;
                            Action::Read { path: self.files[index].clone() }
                        },
                    }
                }
            },
            Reply::Contents(contents) => match contents {
                None => self.settle(Err(ProcessingError::DecodeError)),
                Some(data) => match ImageResizer::resize_image(
                    self.files[index].as_str(),
                    data.as_slice(),
                    &self.preset,
                ) {
                    Err(e) => self.settle(Err(e)),
                    Ok(bytes) => {
                        let path = match &self.pending_path {
                            Some(p) => p.clone(),
                            None => String::new(),
                        };
                        self.stage = Stage::Writing;
                        Action::Write { path, data: bytes }
                    },
                },
            },
            Reply::Stored(stored) => {
                let path = match self.pending_path.take() {
                    Some(p) => p,
                    None => String::new(),
                };
                if stored {
                    self.settle(Ok(path))
                } else {
                    self.settle(Err(ProcessingError::WriteError))
                }
            },
        }
    }
}

} // verus!

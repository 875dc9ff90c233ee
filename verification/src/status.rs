//! What a batch run tells its initiator: how far it is, and how it ended.

use vstd::prelude::*;
use crate::error::ProcessingError;
use crate::text::{chars_of, decimal, push_decimal, push_text, string_of};

verus! {

/// One message from a batch run, or the state that the last message left.
#[derive(Debug, Clone, PartialEq, Eq)]
pub enum ProcessingStatus {
    /// No run has reported yet.
    Idle,
    /// The file at `current` of `total` is about to be taken up; with
    /// `current` equal to `total`, every file has been.
    Processing { current: usize, total: usize },
    /// The run has ended: so many files gave an output, so many did not.
    Completed { successful: usize, failed: usize },
    /// The run could not begin.
    Error(String),
}

/// A status as a plain value.
pub enum StatusView {
    Idle,
    Processing { current: nat, total: nat },
    Completed { successful: nat, failed: nat },
    Error(Seq<char>),
}

impl View for ProcessingStatus {
    type V = StatusView;

    open spec fn view(&self) -> StatusView {
        match self {
            ProcessingStatus::Idle => StatusView::Idle,
            ProcessingStatus::Processing { current, total } => StatusView::Processing {
                current: *current as nat,
                total: *total as nat,
            },
            ProcessingStatus::Completed { successful, failed } => StatusView::Completed {
                successful: *successful as nat,
                failed: *failed as nat,
            },
            ProcessingStatus::Error(message) => StatusView::Error(message@),
        }
    }
}

/// How many of `results` are successes.
pub open spec fn successes<T>(results: Seq<Result<T, ProcessingError>>) -> nat
    decreases results.len(),
{
    if results.len() == 0 {
        0
    } else {
        successes(results.drop_last()) + if results.last() is Ok {
            1nat
        } else {
            0nat
        }
    }
}

/// The status that ends a run with these results.
pub open spec fn summary_of<T>(results: Seq<Result<T, ProcessingError>>) -> StatusView {
    StatusView::Completed {
        successful: successes(results),
        failed: (results.len() - successes(results)) as nat,
    }
}

/// The line that a status adds to the log; `Idle` adds none.
pub open spec fn log_line(status: StatusView) -> Option<Seq<char>> {
    match status {
        StatusView::Idle => None,
        StatusView::Processing { current, total } => Some(
            "Processing "@ + decimal(current + 1) + " of "@ + decimal(total),
        ),
        StatusView::Completed { successful, failed } => Some(
            "Processing completed: "@ + decimal(successful) + " successful, "@ + decimal(failed)
                + " failed"@,
        ),
        StatusView::Error(message) => Some("Error: "@ + message),
    }
}

/// The line that shows a status to the user.
pub open spec fn display_line(status: StatusView) -> Seq<char> {
    match status {
        StatusView::Idle => "Ready"@,
        StatusView::Processing { current, total } => "Processing "@ + decimal(current + 1)
            + " of "@ + decimal(total),
        StatusView::Completed { successful, failed } => "Completed: "@ + decimal(successful)
            + " successful, "@ + decimal(failed) + " failed"@,
        StatusView::Error(message) => "Error: "@ + message,
    }
}

/// Whether a status is the last of its run.
pub open spec fn is_terminal(status: StatusView) -> bool {
    status is Completed || status is Error
}

/// No more results succeed than there are results.
pub proof fn lemma_successes_bounded<T>(results: Seq<Result<T, ProcessingError>>)
    ensures
        successes(results) <= results.len(),
    decreases results.len(),
{
    if results.len() > 0 {
        lemma_successes_bounded(results.drop_last());
    }
}

/// The two counts of a summary add up to the number of results.
pub proof fn lemma_summary_counts_every_file<T>(results: Seq<Result<T, ProcessingError>>)
    ensures
        summary_of(results) matches StatusView::Completed { successful, failed } && successful
            + failed == results.len(),
{
    lemma_successes_bounded(results);
}

impl ProcessingStatus {
    /// The status that ends a run: how many of `results` are outputs and how
    /// many are errors.
    pub fn summary<T>(results: &Vec<Result<T, ProcessingError>>) -> (status: ProcessingStatus)
        ensures
            status@ == summary_of(results@),
    {
        let mut successful: usize = 0;
        let mut index: usize = 0;
        while index < results.len()
            invariant
                index <= results.len(),
                successful == successes(results@.take(index as int)),
                successful <= index,
            decreases results.len() - index,
        {
            assert(results@.take(index + 1).drop_last() == results@.take(index as int));
            if results[index].is_ok() {
                successful += 1;
            }
            index += 1;
        }
        assert(results@.take(results.len() as int) == results@);
        ProcessingStatus::Completed { successful, failed: results.len() - successful }
    }

    /// Whether this status is the last of its run.
    pub fn ends_run(&self) -> (terminal: bool)
        ensures
            terminal == is_terminal(self@),
    {
        match self {
            ProcessingStatus::Completed { .. } => true,
            ProcessingStatus::Error(_) => true,
            _ => false,
        }
    }

    /// The line that this status adds to the log; `Idle` adds none.
    pub fn log_message(&self) -> (line: Option<String>)
        ensures
            match line {
                Some(l) => log_line(self@) == Some(l@),
                None => log_line(self@) is None,
            },
    {
        match self {
            ProcessingStatus::Idle => None,
            ProcessingStatus::Processing { current, total } => {
                let mut line = chars_of("Processing ");
                push_decimal(&mut line, *current as u128 + 1);
                push_text(&mut line, &chars_of(" of "));
                push_decimal(&mut line, *total as u128);
                Some(string_of(&line))
            },
            ProcessingStatus::Completed { successful, failed } => {
                let mut line = chars_of("Processing completed: ");
                push_decimal(&mut line, *successful as u128);
                push_text(&mut line, &chars_of(" successful, "));
                push_decimal(&mut line, *failed as u128);
                push_text(&mut line, &chars_of(" failed"));
                Some(string_of(&line))
            },
            ProcessingStatus::Error(message) => {
                let mut line = chars_of("Error: ");
                push_text(&mut line, &chars_of(message.as_str()));
                Some(string_of(&line))
            },
        }
    }

    /// The line that shows this status to the user.
    pub fn display_text(&self) -> (line: String)
        ensures
            line@ == display_line(self@),
    {
        match self {
            ProcessingStatus::Idle => string_of(&chars_of("Ready")),
            ProcessingStatus::Processing { current, total } => {
                let mut line = chars_of("Processing ");
                push_decimal(&mut line, *current as u128 + 1);
                push_text(&mut line, &chars_of(" of "));
                push_decimal(&mut line, *total as u128);
                string_of(&line)
            },
            ProcessingStatus::Completed { successful, failed } => {
                let mut line = chars_of("Completed: ");
                push_decimal(&mut line, *successful as u128);
                push_text(&mut line, &chars_of(" successful, "));
                push_decimal(&mut line, *failed as u128);
                push_text(&mut line, &chars_of(" failed"));
                string_of(&line)
            },
            ProcessingStatus::Error(message) => {
                let mut line = chars_of("Error: ");
                push_text(&mut line, &chars_of(message.as_str()));
                string_of(&line)
            },
        }
    }
}

} // verus!
